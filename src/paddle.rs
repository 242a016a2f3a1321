//! A player's paddle: moves vertically by its intent and stays inside the arena.
use vstd::prelude::*;
use crate::geometry::{abs, step_coord, travel, Vec2, MAX_SPEED, MAX_WISH};
use crate::sprite::Sprite;

verus! {

/// The paddle's center never leaves `[-PADDLE_LIMIT, PADDLE_LIMIT]` vertically.
pub const PADDLE_LIMIT: i64 = 900_000;

/// A paddle: its rectangle, its speed (units per second) and its vertical intent, the sum of
/// the directions (`+1` up, `-1` down) of the keys being held.
#[derive(Clone, Copy, Debug)]
pub struct Paddle {
    pub speed: i64,
    pub wish_dir: i64,
    pub sprite: Sprite,
}

/// `y` limited to the paddle's range.
pub open spec fn clamp_paddle(y: int) -> int {
    if y > PADDLE_LIMIT {
        PADDLE_LIMIT as int
    } else if y < -PADDLE_LIMIT {
        -PADDLE_LIMIT as int
    } else {
        y
    }
}

/// The paddle after `Paddle::update` over `dt` microseconds: moved vertically by its intent
/// times its speed, clamped, and marked as changed.
pub open spec fn moved(p: Paddle, dt: int) -> Paddle {
    Paddle {
        sprite: Sprite {
            position: Vec2 {
                y: clamp_paddle(p.sprite.position.y + travel(p.wish_dir * p.speed, dt)) as i64,
                ..p.sprite.position
            },
            changed: true,
            ..p.sprite
        },
        ..p
    }
}

impl Paddle {
    pub open spec fn wf(&self) -> bool {
        &&& 0 <= self.speed <= MAX_SPEED
        &&& abs(self.wish_dir as int) <= MAX_WISH
        &&& self.sprite.wf()
    }

    /// A paddle at rest.
    pub fn new(sprite: Sprite, speed: i64) -> (r: Paddle)
        ensures
            r.sprite == sprite,
            r.speed == speed,
            r.wish_dir == 0,
    {
        Paddle { wish_dir: 0, speed, sprite }
    }

    /// Adds `delta` to the intent: a key press adds its direction, a release subtracts it.
    pub fn add_intent(&mut self, delta: i64)
        requires
            abs(old(self).wish_dir + delta) <= MAX_WISH,
            abs(delta as int) <= MAX_WISH,
        ensures
            final(self).wish_dir == old(self).wish_dir + delta,
            final(self).speed == old(self).speed,
            final(self).sprite == old(self).sprite,
    {
        self.wish_dir = self.wish_dir + delta;
    }

    /// Moves the paddle by its intent for `dt` microseconds, then clamps it vertically.
    pub fn update(&mut self, dt: u32)
        requires
            old(self).wf(),
        ensures
            *final(self) == moved(*old(self), dt as int),
            -PADDLE_LIMIT <= final(self).sprite.position.y <= PADDLE_LIMIT,
            final(self).wf(),
    {
        assert(abs(self.wish_dir * self.speed) <= 400_000_000) by (nonlinear_arith)
            requires
                abs(self.wish_dir as int) <= 4,
                0 <= self.speed <= 100_000_000,
        ;
        let vy: i64 = self.wish_dir * self.speed;
        let y: i64 = step_coord(self.sprite.position.y, vy, dt);
        proof {
            assert(abs(travel(vy as int, dt as int)) <= 2_000_000_000_000) by (nonlinear_arith)
                requires
                    abs(vy as int) <= 400_000_000,
                    0 <= dt <= 4_294_967_295,
                    travel(vy as int, dt as int) == (if vy >= 0 { (vy * dt) / 1_000_000 } else {
                        -((-vy * dt) / 1_000_000)
                    }),
            ;
        }
        let clamped: i64 = if y > PADDLE_LIMIT {
            PADDLE_LIMIT
        } else if y < -PADDLE_LIMIT {
            -PADDLE_LIMIT
        } else {
            y
        };
        self.sprite.position = Vec2 { x: self.sprite.position.x, y: clamped };
        self.sprite.update();
    }
}

} // verus!
