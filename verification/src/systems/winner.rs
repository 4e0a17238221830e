//! Scoring: a ball that reaches a side wall gives the other side a point and
//! goes back to the centre.

use vstd::prelude::*;
use crate::config::Config;
use crate::pong::{Ball, ScoreBoard, Side};

verus! {

/// Credits points and puts the ball back into play.
#[derive(Clone, Copy, Debug, Default)]
pub struct WinnerSystem;

/// The side that wins a point with the ball where it stands: the right side
/// when the ball has reached the left wall, the left side when it has reached
/// the right wall, nobody otherwise.
pub open spec fn scorer(ball: Ball, config: Config) -> Option<Side> {
    if ball.x <= ball.radius {
        Some(Side::Right)
    } else if ball.x >= config.arena_width - ball.radius {
        Some(Side::Left)
    } else {
        None
    }
}

/// A score one point higher, held at the maximum: points beyond it are lost.
pub open spec fn raised(score: i32, max_score: i32) -> i32 {
    if score + 1 < max_score {
        (score + 1) as i32
    } else {
        max_score
    }
}

/// The score board after a point for `side`.
pub open spec fn credited(scores: ScoreBoard, side: Option<Side>, max_score: i32) -> ScoreBoard {
    match side {
        Some(Side::Left) => ScoreBoard { score_left: raised(scores.score_left, max_score), ..scores },
        Some(Side::Right) => ScoreBoard {
            score_right: raised(scores.score_right, max_score),
            ..scores
        },
        None => scores,
    }
}

/// The ball put back into play after a point: at the centre of the arena on
/// both axes, heading the other way horizontally.
pub open spec fn served(ball: Ball, config: Config) -> Ball {
    Ball { x: config.center_x() as i64, y: config.center_y() as i64, vx: (-ball.vx) as i64, ..ball }
}

/// The ball after the scoring test.
pub open spec fn after_scoring(ball: Ball, config: Config) -> Ball {
    if scorer(ball, config).is_some() {
        served(ball, config)
    } else {
        ball
    }
}

impl WinnerSystem {
    /// Tests the ball against the side walls. On a point the winner's score
    /// rises, the ball is served again, and the winner is handed back.
    pub fn run(&self, ball: &mut Ball, scores: &mut ScoreBoard, config: &Config) -> (winner: Option<
        Side,
    >)
        requires
            old(ball).wf(),
            config.wf(),
        ensures
            winner == scorer(*old(ball), *config),
            *final(ball) == after_scoring(*old(ball), *config),
            *final(scores) == credited(*old(scores), winner, config.max_score),
            final(ball).wf(),
            final(ball).same_speed(*old(ball)),
            old(scores).wf(config.max_score as int) ==> final(scores).wf(config.max_score as int),
    {
        let winner: Option<Side> = if ball.x <= ball.radius {
            scores.score_right = raise(scores.score_right, config.max_score);
            Some(Side::Right)
        } else if ball.x >= config.arena_width - ball.radius {
            scores.score_left = raise(scores.score_left, config.max_score);
            Some(Side::Left)
        } else {
            None
        };
        if winner.is_some() {
            ball.vx = -ball.vx;
            ball.x = config.arena_width / 2;
            ball.y = config.arena_height / 2;
        }
        winner
    }
}

/// Adds a point to a score, unless that would pass the maximum.
pub fn raise(score: i32, max_score: i32) -> (next: i32)
    ensures
        next == raised(score, max_score),
{
    if score < max_score {
        score + 1
    } else {
        max_score
    }
}

} // verus!
