//! Ball motion: the ball advances by its velocity times the elapsed time.

use vstd::prelude::*;
use crate::fixed::{scale, scaled};
use crate::pong::Ball;

verus! {

/// Carries the ball along its velocity.
#[derive(Clone, Copy, Debug, Default)]
pub struct MoveBallsSystem;

/// Where the ball's centre gets to along one axis after `elapsed` microseconds.
pub open spec fn advanced(position: i64, speed: i64, elapsed: u32) -> int {
    position + scaled(speed as int, elapsed as int)
}

/// The ball's new position can be held in its fields.
pub open spec fn can_move(ball: Ball, elapsed: u32) -> bool {
    &&& i64::MIN <= advanced(ball.x, ball.vx, elapsed) <= i64::MAX
    &&& i64::MIN <= advanced(ball.y, ball.vy, elapsed) <= i64::MAX
}

/// The ball after `elapsed` microseconds of free flight: both coordinates
/// advance, nothing else changes.
pub open spec fn moved_ball(ball: Ball, elapsed: u32) -> Ball {
    Ball {
        x: advanced(ball.x, ball.vx, elapsed) as i64,
        y: advanced(ball.y, ball.vy, elapsed) as i64,
        ..ball
    }
}

impl MoveBallsSystem {
    /// Tells whether the ball can be advanced by `elapsed` microseconds: both
    /// new coordinates can be held.
    pub fn can_run(&self, ball: &Ball, elapsed: u32) -> (fits: bool)
        ensures
            fits == can_move(*ball, elapsed),
    {
        let along_x: i128 = scale(ball.vx, elapsed as i64);
        let along_y: i128 = scale(ball.vy, elapsed as i64);
        proof {
            lemma_wide_step(ball.vx as int, elapsed as int);
            lemma_wide_step(ball.vy as int, elapsed as int);
        }
        let x: i128 = (ball.x as i128) + along_x;
        let y: i128 = (ball.y as i128) + along_y;
        (i64::MIN as i128) <= x && x <= (i64::MAX as i128) && (i64::MIN as i128) <= y && y <= (
        i64::MAX as i128)
    }

    /// Advances the ball by `elapsed` microseconds.
    pub fn run(&self, ball: &mut Ball, elapsed: u32)
        requires
            can_move(*old(ball), elapsed),
        ensures
            *final(ball) == moved_ball(*old(ball), elapsed),
            final(ball).x == old(ball).x + scaled(old(ball).vx as int, elapsed as int),
            final(ball).y == old(ball).y + scaled(old(ball).vy as int, elapsed as int),
    {
        let along_x: i128 = scale(ball.vx, elapsed as i64);
        let along_y: i128 = scale(ball.vy, elapsed as i64);
        proof {
            lemma_wide_step(ball.vx as int, elapsed as int);
            lemma_wide_step(ball.vy as int, elapsed as int);
        }
        ball.x = ((ball.x as i128) + along_x) as i64;
        ball.y = ((ball.y as i128) + along_y) as i64;
    }
}

/// However fast, what is covered in one tick fits in a wide integer with room
/// to add a position.
proof fn lemma_wide_step(v: int, elapsed: int)
    requires
        i64::MIN <= v <= i64::MAX,
        0 <= elapsed <= u32::MAX,
    ensures
        -0x8000_0000_0000_0000_0000_0000 <= scaled(v, elapsed) <= 0x8000_0000_0000_0000_0000_0000,
{
    assert(-0x8000_0000_0000_0000_0000_0000 <= v * elapsed <= 0x8000_0000_0000_0000_0000_0000)
        by (nonlinear_arith)
        requires
            -0x8000_0000_0000_0000 <= v <= 0x8000_0000_0000_0000,
            0 <= elapsed <= 0x1_0000_0000,
    ;
}

} // verus!
