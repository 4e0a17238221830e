//! The constants of a match, fixed when it starts.

use vstd::prelude::*;
use crate::fixed::{magnitude, LIMIT};

verus! {

pub const ARENA_WIDTH: i64 = 100_000_000;

pub const ARENA_HEIGHT: i64 = 100_000_000;

pub const PADDLE_WIDTH: i64 = 4_000_000;

pub const PADDLE_HEIGHT: i64 = 16_000_000;

pub const BALL_VELOCITY_X: i64 = 75_000_000;

pub const BALL_VELOCITY_Y: i64 = 50_000_000;

pub const BALL_RADIUS: i64 = 2_000_000;

/// How far a paddle moves in one tick at full deflection of its axis.
pub const PADDLE_MOVE_SCALE: i64 = 1_200_000;

/// Microseconds between the start of a match and the ball's appearance.
pub const SPAWN_DELAY: u64 = 1_000_000;

/// The highest score that the display has room for.
pub const MAX_SCORE: i32 = 999;

/// Everything about a match that never changes while it runs. Lengths, speeds
/// and the move scale are fixed-point; the spawn delay is in microseconds.
#[derive(Clone, Copy, Debug, PartialEq, Eq, Structural)]
pub struct Config {
    pub arena_width: i64,
    pub arena_height: i64,
    pub paddle_width: i64,
    pub paddle_height: i64,
    pub ball_radius: i64,
    pub ball_velocity_x: i64,
    pub ball_velocity_y: i64,
    pub paddle_move_scale: i64,
    pub spawn_delay: u64,
    pub max_score: i32,
}

impl Config {
    /// A configuration describes a playable arena: sizes are non-negative and
    /// within `LIMIT`, a paddle is no taller than the arena, the ball is
    /// narrower than the arena is wide and no taller than it is high.
    pub open spec fn wf(self) -> bool {
        &&& 0 < self.arena_width <= LIMIT
        &&& 0 < self.arena_height <= LIMIT
        &&& 0 <= self.paddle_width <= LIMIT
        &&& 0 <= self.paddle_height <= self.arena_height
        &&& 0 <= self.ball_radius
        &&& 2 * self.ball_radius < self.arena_width
        &&& 2 * self.ball_radius <= self.arena_height
        &&& magnitude(self.ball_velocity_x as int) <= LIMIT
        &&& magnitude(self.ball_velocity_y as int) <= LIMIT
        &&& magnitude(self.paddle_move_scale as int) <= LIMIT
        &&& 0 <= self.max_score
    }

    /// The configuration of the standard game.
    pub open spec fn standard() -> Config {
        Config {
            arena_width: ARENA_WIDTH,
            arena_height: ARENA_HEIGHT,
            paddle_width: PADDLE_WIDTH,
            paddle_height: PADDLE_HEIGHT,
            ball_radius: BALL_RADIUS,
            ball_velocity_x: BALL_VELOCITY_X,
            ball_velocity_y: BALL_VELOCITY_Y,
            paddle_move_scale: PADDLE_MOVE_SCALE,
            spawn_delay: SPAWN_DELAY,
            max_score: MAX_SCORE,
        }
    }

    /// The horizontal centre of the arena.
    pub open spec fn center_x(self) -> int {
        self.arena_width / 2
    }

    /// The vertical centre of the arena.
    pub open spec fn center_y(self) -> int {
        self.arena_height / 2
    }

    /// Tells whether the configuration describes a playable arena.
    pub fn is_valid(&self) -> (valid: bool)
        ensures
            valid == self.wf(),
    {
        0 < self.arena_width && self.arena_width <= LIMIT
            && 0 < self.arena_height && self.arena_height <= LIMIT
            && 0 <= self.paddle_width && self.paddle_width <= LIMIT
            && 0 <= self.paddle_height && self.paddle_height <= self.arena_height
            && 0 <= self.ball_radius
            && self.ball_radius < self.arena_width - self.ball_radius
            && self.ball_radius <= self.arena_height - self.ball_radius
            && -LIMIT <= self.ball_velocity_x && self.ball_velocity_x <= LIMIT
            && -LIMIT <= self.ball_velocity_y && self.ball_velocity_y <= LIMIT
            && -LIMIT <= self.paddle_move_scale && self.paddle_move_scale <= LIMIT
            && 0 <= self.max_score
    }
}

impl Default for Config {
    fn default() -> (config: Config)
        ensures
            config == Config::standard(),
            config.wf(),
    {
        Config {
            arena_width: ARENA_WIDTH,
            arena_height: ARENA_HEIGHT,
            paddle_width: PADDLE_WIDTH,
            paddle_height: PADDLE_HEIGHT,
            ball_radius: BALL_RADIUS,
            ball_velocity_x: BALL_VELOCITY_X,
            ball_velocity_y: BALL_VELOCITY_Y,
            paddle_move_scale: PADDLE_MOVE_SCALE,
            spawn_delay: SPAWN_DELAY,
            max_score: MAX_SCORE,
        }
    }
}

} // verus!
