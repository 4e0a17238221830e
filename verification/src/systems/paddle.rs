//! Paddle motion: an axis value becomes a vertical displacement, and the
//! paddle stays inside the arena.

use vstd::prelude::*;
use crate::config::Config;
use crate::fixed::{clamped, scale, scaled};
use crate::pong::{Inputs, Paddle};

verus! {

/// Moves paddles by what the players' controls read.
#[derive(Clone, Copy, Debug, Default)]
pub struct PaddleSystem;

/// The paddle after one tick with the given axis reading. Without a reading it
/// stays; with one, whatever its value, it moves by the reading times the move
/// scale, however much time has passed, and is held inside the arena. Only
/// `y` changes.
pub open spec fn moved_paddle(paddle: Paddle, axis: Option<i64>, config: Config) -> Paddle {
    match axis {
        None => paddle,
        Some(value) => Paddle {
            y: clamped(
                paddle.y + scaled(value as int, config.paddle_move_scale as int),
                paddle.lowest_y(),
                paddle.highest_y(config.arena_height as int),
            ) as i64,
            ..paddle
        },
    }
}

/// A moved paddle is well formed. It is inside the arena if it was so before,
/// and also if there was any reading and it is no taller than the arena: one
/// reading brings a paddle back from wherever it stood.
pub proof fn lemma_moved_paddle(paddle: Paddle, axis: Option<i64>, config: Config)
    requires
        paddle.wf(),
        config.wf(),
    ensures
        moved_paddle(paddle, axis, config).wf(),
        paddle.in_bounds(config.arena_height as int) ==> moved_paddle(paddle, axis, config).in_bounds(
            config.arena_height as int,
        ),
        axis.is_some() && paddle.height <= config.arena_height ==> moved_paddle(
            paddle,
            axis,
            config,
        ).in_bounds(config.arena_height as int),
{
}

impl PaddleSystem {
    /// Moves one paddle by the reading of the axis of its side.
    pub fn run(&self, paddle: &mut Paddle, input: &Inputs, config: &Config)
        requires
            old(paddle).wf(),
            config.wf(),
        ensures
            *final(paddle) == moved_paddle(*old(paddle), input.axis(old(paddle).side), *config),
            final(paddle).wf(),
            old(paddle).in_bounds(config.arena_height as int) ==> final(paddle).in_bounds(
                config.arena_height as int,
            ),
            input.axis(old(paddle).side).is_some() && old(paddle).height <= config.arena_height
                ==> final(paddle).in_bounds(config.arena_height as int),
    {
        proof {
            lemma_moved_paddle(*paddle, input.axis(paddle.side), *config);
        }
        match input.axis_value(paddle.side) {
            Some(value) => {
                let amount: i128 = scale(value, config.paddle_move_scale);
                let target: i128 = (paddle.y as i128) + amount;
                let lowest: i64 = paddle.height / 2;
                let highest: i64 = config.arena_height - paddle.height / 2;
                let capped: i128 = if target < (highest as i128) {
                    target
                } else {
                    highest as i128
                };
                paddle.y = if capped > (lowest as i128) {
                    capped as i64
                } else {
                    lowest
                };
            },
            None => {},
        }
    }
}

} // verus!
