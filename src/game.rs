//! The state held across frames: both paddles, the ball, the scores and the serving side.
use vstd::prelude::*;
use crate::ball::{advanced, paddle_values, Ball};
use crate::geometry::{Vec2, UNIT};
use crate::paddle::{moved, Paddle};
use crate::sprite::Sprite;

verus! {

/// A ball whose center reaches `-SCORE_LINE` or `SCORE_LINE` horizontally has left the court.
pub const SCORE_LINE: i64 = 950_000;

/// Horizontal component of a serve toward the positive side.
pub const SERVE_X: i64 = 1_000_000;

/// Vertical component of a serve toward the positive side.
pub const SERVE_Y: i64 = 350_000;

/// Size of the ball.
pub const BALL_SIZE: i64 = 50_000;

/// Speed of the ball, in units per second.
pub const BALL_SPEED: i64 = 2_000_000;

/// Width of a paddle.
pub const PADDLE_WIDTH: i64 = 100_000;

/// Height of a paddle.
pub const PADDLE_HEIGHT: i64 = 350_000;

/// Speed of a paddle, in units per second.
pub const PADDLE_SPEED: i64 = 3_000_000;

/// One match: the left paddle (`paddle1`), the right paddle (`paddle2`), the ball, each
/// player's score and the side (`1` or `-1`) of the last serve.
#[derive(Clone, Copy, Debug)]
pub struct Game {
    pub ball: Ball,
    pub paddle1: Paddle,
    pub paddle2: Paddle,
    pub player1_score: u64,
    pub player2_score: u64,
    pub server: i64,
}

/// The state after the scoring check: a ball past the left line scores for player 2, one past
/// the right line for player 1, and a ball that scores is put back, at rest, at the center.
pub open spec fn scored(g: Game) -> Game {
    if g.ball.sprite.position.x <= -SCORE_LINE {
        Game { player2_score: (g.player2_score + 1) as u64, ball: reset(g.ball), ..g }
    } else if g.ball.sprite.position.x >= SCORE_LINE {
        Game { player1_score: (g.player1_score + 1) as u64, ball: reset(g.ball), ..g }
    } else {
        g
    }
}

/// The ball put back at the center, at rest.
pub open spec fn reset(b: Ball) -> Ball {
    Ball {
        velocity: Vec2::spec_zero(),
        sprite: Sprite { position: Vec2::spec_zero(), ..b.sprite },
        ..b
    }
}

/// The ball has crossed a scoring line.
pub open spec fn is_point(g: Game) -> bool {
    g.ball.sprite.position.x <= -SCORE_LINE || g.ball.sprite.position.x >= SCORE_LINE
}

/// The state after one frame of `dt` microseconds: both paddles move, then the ball moves
/// against both paddles at their new places, then the scoring check.
pub open spec fn stepped(g: Game, dt: int) -> Game {
    let p1 = moved(g.paddle1, dt);
    let p2 = moved(g.paddle2, dt);
    scored(Game { paddle1: p1, paddle2: p2, ball: advanced(g.ball, seq![p1, p2], dt), ..g })
}

impl Game {
    pub open spec fn wf(&self) -> bool {
        &&& self.ball.wf()
        &&& self.paddle1.wf()
        &&& self.paddle2.wf()
        &&& (self.server == 1 || self.server == -1)
    }

    /// Neither score can overflow at the next point.
    pub open spec fn scores_have_room(&self) -> bool {
        self.player1_score < u64::MAX && self.player2_score < u64::MAX
    }

    /// The opening state: the ball at rest at the center, a paddle at rest at each side, no
    /// points, and the first serve going to the negative side.
    pub fn new() -> (r: Game)
        ensures
            r.wf(),
            r.ball.sprite.position == Vec2::spec_zero(),
            r.ball.sprite.size == (Vec2 { x: BALL_SIZE, y: BALL_SIZE }),
            r.ball.velocity == Vec2::spec_zero(),
            r.ball.speed == BALL_SPEED,
            r.paddle1.sprite.position == (Vec2 { x: (-UNIT) as i64, y: 0 }),
            r.paddle2.sprite.position == (Vec2 { x: UNIT, y: 0 }),
            r.paddle1.sprite.size == (Vec2 { x: PADDLE_WIDTH, y: PADDLE_HEIGHT }),
            r.paddle2.sprite.size == (Vec2 { x: PADDLE_WIDTH, y: PADDLE_HEIGHT }),
            r.paddle1.speed == PADDLE_SPEED,
            r.paddle2.speed == PADDLE_SPEED,
            r.paddle1.wish_dir == 0,
            r.paddle2.wish_dir == 0,
            r.player1_score == 0,
            r.player2_score == 0,
            r.server == 1,
    {
        let ball = Ball::new(Sprite::new(Vec2::zero(), Vec2::new(BALL_SIZE, BALL_SIZE)), BALL_SPEED);
        let paddle1 = Paddle::new(
            Sprite::new(Vec2::new(-UNIT, 0), Vec2::new(PADDLE_WIDTH, PADDLE_HEIGHT)),
            PADDLE_SPEED,
        );
        let paddle2 = Paddle::new(
            Sprite::new(Vec2::new(UNIT, 0), Vec2::new(PADDLE_WIDTH, PADDLE_HEIGHT)),
            PADDLE_SPEED,
        );
        Game { ball, paddle1, paddle2, player1_score: 0, player2_score: 0, server: 1 }
    }

    /// Hands the serve to the other side and launches the ball from the center toward it.
    pub fn serve(&mut self)
        requires
            old(self).wf(),
        ensures
            final(self).wf(),
            final(self).server == -old(self).server,
            final(self).ball.velocity == (Vec2 {
                x: (SERVE_X * final(self).server) as i64,
                y: (SERVE_Y * final(self).server) as i64,
            }),
            final(self).ball.sprite.position == Vec2::spec_zero(),
            final(self).ball.sprite.size == old(self).ball.sprite.size,
            final(self).ball.sprite.changed == old(self).ball.sprite.changed,
            final(self).ball.speed == old(self).ball.speed,
            final(self).paddle1 == old(self).paddle1,
            final(self).paddle2 == old(self).paddle2,
            final(self).player1_score == old(self).player1_score,
            final(self).player2_score == old(self).player2_score,
    {
        self.server = -self.server;
        self.ball.velocity = Vec2 { x: SERVE_X * self.server, y: SERVE_Y * self.server };
        self.ball.sprite.position = Vec2::zero();
    }

    /// Awards a point if the ball has crossed a scoring line, and then puts the ball back.
    /// Returns whether a point was scored.
    pub fn check_score(&mut self) -> (r: bool)
        requires
            old(self).wf(),
            old(self).scores_have_room(),
        ensures
            r == is_point(*old(self)),
            *final(self) == scored(*old(self)),
            final(self).wf(),
    {
        if self.ball.sprite.position.x <= -SCORE_LINE {
            self.player2_score = self.player2_score + 1;
            self.ball.velocity = Vec2::zero();
            self.ball.sprite.position = Vec2::zero();
            true
        } else if self.ball.sprite.position.x >= SCORE_LINE {
            self.player1_score = self.player1_score + 1;
            self.ball.velocity = Vec2::zero();
            self.ball.sprite.position = Vec2::zero();
            true
        } else {
            false
        }
    }

    /// Runs one frame of `dt` microseconds. Returns whether a point was scored.
    pub fn step(&mut self, dt: u32) -> (r: bool)
        requires
            old(self).wf(),
            old(self).scores_have_room(),
        ensures
            *final(self) == stepped(*old(self), dt as int),
            r == is_point(
                Game {
                    paddle1: moved(old(self).paddle1, dt as int),
                    paddle2: moved(old(self).paddle2, dt as int),
                    ball: advanced(
                        old(self).ball,
                        seq![moved(old(self).paddle1, dt as int), moved(old(self).paddle2, dt as int)],
                        dt as int,
                    ),
                    ..*old(self)
                },
            ),
            final(self).wf(),
    {
        self.paddle1.update(dt);
        self.paddle2.update(dt);
        let paddles: [&Paddle; 2] = [&self.paddle1, &self.paddle2];
        assert(paddle_values(paddles@) =~= seq![self.paddle1, self.paddle2]);
        self.ball.update(dt, &paddles);
        self.check_score()
    }
}

} // verus!
