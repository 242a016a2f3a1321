//! The ball: paddle bounces, renormalization to its fixed speed, wall bounces and motion.
use vstd::prelude::*;
use crate::geometry::{
    abs, in_world, len2, renormalize, rescaled, step_coord, travel, Vec2, MAX_KICKED,
    MAX_SPEED, MAX_VELOCITY, MAX_WISH, UNIT,
};
use crate::geometry::lemma_rescaled_length;
use crate::paddle::Paddle;
use crate::sprite::{hi2, lo2, overlaps, Sprite};

verus! {

/// The ball: its fixed speed (units per second), its velocity and its rectangle.
#[derive(Clone, Copy, Debug)]
pub struct Ball {
    pub speed: i64,
    pub velocity: Vec2,
    pub sprite: Sprite,
}

/// The rectangle reaches past the arena's bottom or top wall.
pub open spec fn hits_wall(s: Sprite) -> bool {
    lo2(s.position.y, s.size.y) < -2 * UNIT || hi2(s.position.y, s.size.y) > 2 * UNIT
}

/// The ball after its collision response to `p`: if they overlap, the horizontal velocity
/// turns around, the paddle's intent times the ball's speed is added to the vertical one, and
/// the ball at once takes a horizontal micro-step of `dt` at its new velocity.
pub open spec fn bounced(b: Ball, p: Paddle, dt: int) -> Ball {
    if overlaps(b.sprite, p.sprite) {
        let vx = -b.velocity.x;
        let vy = b.velocity.y + abs(p.wish_dir as int) * b.speed;
        Ball {
            velocity: Vec2 { x: vx as i64, y: vy as i64 },
            sprite: Sprite {
                position: Vec2 {
                    x: in_world(b.sprite.position.x + travel(vx, dt)) as i64,
                    ..b.sprite.position
                },
                ..b.sprite
            },
            ..b
        }
    } else {
        b
    }
}

/// The ball after the collision responses to each paddle of `ps`, in order.
pub open spec fn kicked(b: Ball, ps: Seq<Paddle>, dt: int) -> Ball
    decreases ps.len(),
{
    if ps.len() == 0 {
        b
    } else {
        bounced(kicked(b, ps.drop_last(), dt), ps.last(), dt)
    }
}

/// The ball after `Ball::update` over `dt` microseconds against the paddles `ps`: the
/// collision responses, then the velocity rescaled to the ball's speed, turned around
/// vertically if the ball reaches past a wall, and the move by that velocity.
pub open spec fn advanced(b: Ball, ps: Seq<Paddle>, dt: int) -> Ball {
    let k = kicked(b, ps, dt);
    let vx = rescaled(k.velocity.x as int, k.velocity.y as int, k.speed as int);
    let vy0 = rescaled(k.velocity.y as int, k.velocity.x as int, k.speed as int);
    let vy = if hits_wall(k.sprite) {
        -vy0
    } else {
        vy0
    };
    Ball {
        velocity: Vec2 { x: vx as i64, y: vy as i64 },
        sprite: Sprite {
            position: Vec2 {
                x: in_world(k.sprite.position.x + travel(vx, dt)) as i64,
                y: in_world(k.sprite.position.y + travel(vy, dt)) as i64,
            },
            changed: true,
            ..k.sprite
        },
        ..k
    }
}

/// The paddles behind a slice of references.
pub open spec fn paddle_values(ps: Seq<&Paddle>) -> Seq<Paddle> {
    ps.map_values(|p: &Paddle| *p)
}

impl Ball {
    pub open spec fn wf(&self) -> bool {
        &&& 0 < self.speed <= MAX_SPEED
        &&& abs(self.velocity.x as int) <= MAX_VELOCITY
        &&& abs(self.velocity.y as int) <= MAX_VELOCITY
        &&& self.sprite.wf()
    }

    /// A ball at rest.
    pub fn new(sprite: Sprite, speed: i64) -> (r: Ball)
        ensures
            r.sprite == sprite,
            r.speed == speed,
            r.velocity == Vec2::spec_zero(),
    {
        Ball { speed, velocity: Vec2::zero(), sprite }
    }

    /// The collision response to one paddle (see `bounced`).
    pub fn bounce_off(&mut self, dt: u32, paddle: &Paddle)
        requires
            abs(old(self).velocity.x as int) <= MAX_VELOCITY,
            abs(old(self).velocity.y as int) <= MAX_KICKED - MAX_WISH * MAX_SPEED,
            0 < old(self).speed <= MAX_SPEED,
            paddle.wf(),
        ensures
            *final(self) == bounced(*old(self), *paddle, dt as int),
            abs(final(self).velocity.x as int) <= MAX_VELOCITY,
            abs(final(self).velocity.y as int) <= abs(old(self).velocity.y as int) + MAX_WISH
                * MAX_SPEED,
    {
        if self.sprite.is_coliding(&paddle.sprite) {
            let kick: i64 = if paddle.wish_dir < 0 {
                -paddle.wish_dir
            } else {
                paddle.wish_dir
            };
            assert(kick * self.speed <= MAX_WISH * MAX_SPEED) by (nonlinear_arith)
                requires
                    0 <= kick <= MAX_WISH,
                    0 < self.speed <= MAX_SPEED,
            ;
            assert(kick * self.speed >= 0) by (nonlinear_arith)
                requires
                    0 <= kick,
                    0 < self.speed,
            ;
            self.velocity.x = -self.velocity.x;
            self.velocity.y = self.velocity.y + kick * self.speed;
            self.sprite.position.x = step_coord(self.sprite.position.x, self.velocity.x, dt);
        }
    }

    /// Advances the ball by `dt` microseconds: the collision response to each paddle, in
    /// order; the velocity rescaled to the ball's speed; a bounce off the top or bottom wall;
    /// then the move by the velocity.
    pub fn update(&mut self, dt: u32, paddles: &[&Paddle])
        requires
            old(self).wf(),
            paddles@.len() <= 2,
            forall|i: int| 0 <= i < paddles@.len() ==> (#[trigger] paddles@[i]).wf(),
        ensures
            *final(self) == advanced(*old(self), paddle_values(paddles@), dt as int),
            ({
                let k = kicked(*old(self), paddle_values(paddles@), dt as int);
                len2(k.velocity.x as int, k.velocity.y as int) != 0 ==> k.speed * k.speed - 4
                    * k.speed - 1 <= len2(final(self).velocity.x as int, final(self).velocity.y as int)
                    <= k.speed * k.speed
            }),
            final(self).wf(),
    {
        let ghost start = *self;
        let ghost ps = paddle_values(paddles@);
        let mut i: usize = 0;
        while i < paddles.len()
            invariant
                i <= paddles@.len() <= 2,
                forall|j: int| 0 <= j < paddles@.len() ==> (#[trigger] paddles@[j]).wf(),
                ps == paddle_values(paddles@),
                *self == kicked(start, ps.take(i as int), dt as int),
                self.speed == start.speed,
                0 < self.speed <= MAX_SPEED,
                self.sprite.size == start.sprite.size,
                self.sprite.position.y == start.sprite.position.y,
                self.sprite.wf(),
                abs(self.velocity.x as int) <= MAX_VELOCITY,
                abs(self.velocity.y as int) <= MAX_VELOCITY + i * MAX_WISH * MAX_SPEED,
            decreases paddles@.len() - i,
        {
            let paddle: &Paddle = paddles[i];
            assert(ps.take(i + 1).drop_last() =~= ps.take(i as int));
            assert(ps.take(i + 1).last() == *paddle);
            self.bounce_off(dt, paddle);
            i = i + 1;
        }
        assert(ps.take(paddles@.len() as int) =~= ps);
        let ghost k = *self;
        self.velocity = renormalize(self.velocity, self.speed);
        proof {
            if len2(k.velocity.x as int, k.velocity.y as int) != 0 {
                lemma_rescaled_length(k.velocity.x as int, k.velocity.y as int, k.speed as int);
            }
        }
        let bottom: i128 = 2 * (self.sprite.position.y as i128) - (self.sprite.size.y as i128);
        let top: i128 = 2 * (self.sprite.position.y as i128) + (self.sprite.size.y as i128);
        let wall: i128 = 2 * (UNIT as i128);
        if bottom < -wall || top > wall {
            self.velocity.y = -self.velocity.y;
        }
        proof {
            let vx = self.velocity.x as int;
            let vy = self.velocity.y as int;
            let vy0 = rescaled(k.velocity.y as int, k.velocity.x as int, k.speed as int);
            assert(vy == vy0 || vy == -vy0);
            assert(len2(vx, vy) == len2(vx, vy0)) by (nonlinear_arith)
                requires
                    vy == vy0 || vy == -vy0,
            ;
        }
        self.sprite.position.x = step_coord(self.sprite.position.x, self.velocity.x, dt);
        self.sprite.position.y = step_coord(self.sprite.position.y, self.velocity.y, dt);
        self.sprite.update();
    }
}

} // verus!
