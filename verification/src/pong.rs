//! A match and the things it is made of: paddles, the ball, the score board,
//! the players' input for one tick, and the controller that runs the tick.

use vstd::prelude::*;
use crate::config::Config;
use crate::fixed::{lemma_step_bounds, magnitude, LIMIT, MAX_STEP};
use crate::systems::bounce::{collided, lemma_collided_keeps_speed, BounceSystem};
use crate::systems::move_balls::{can_move, moved_ball, MoveBallsSystem};
use crate::systems::paddle::{lemma_moved_paddle, moved_paddle, PaddleSystem};
use crate::systems::winner::{after_scoring, credited, scorer, WinnerSystem};

verus! {

/// The side of the arena that a paddle defends.
#[derive(Clone, Copy, Debug, PartialEq, Eq, Structural)]
pub enum Side {
    Left,
    Right,
}

/// A paddle, anchored at its midpoint.
#[derive(Clone, Copy, Debug, PartialEq, Eq, Structural)]
pub struct Paddle {
    pub side: Side,
    pub x: i64,
    pub y: i64,
    pub width: i64,
    pub height: i64,
}

impl Paddle {
    /// Sizes are non-negative, and sizes and position are within `LIMIT`.
    pub open spec fn wf(self) -> bool {
        &&& 0 <= self.width <= LIMIT
        &&& 0 <= self.height <= LIMIT
        &&& -LIMIT <= self.x <= LIMIT
        &&& -LIMIT <= self.y <= LIMIT
    }

    /// Tells whether the paddle is well formed.
    pub fn is_valid(&self) -> (valid: bool)
        ensures
            valid == self.wf(),
    {
        0 <= self.width && self.width <= LIMIT && 0 <= self.height && self.height <= LIMIT
            && -LIMIT <= self.x && self.x <= LIMIT && -LIMIT <= self.y && self.y <= LIMIT
    }

    /// The lowest height at which the paddle's midpoint may stand.
    pub open spec fn lowest_y(self) -> int {
        self.height / 2
    }

    /// The greatest height at which the paddle's midpoint may stand in an
    /// arena of the given height.
    pub open spec fn highest_y(self, arena_height: int) -> int {
        arena_height - self.height / 2
    }

    /// The whole paddle lies between the floor and the ceiling of the arena.
    pub open spec fn in_bounds(self, arena_height: int) -> bool {
        self.lowest_y() <= self.y <= self.highest_y(arena_height)
    }

    /// Where the paddle of a side stands when a match starts: against its own
    /// wall, half way up.
    pub open spec fn starting(side: Side, config: Config) -> Paddle {
        Paddle {
            side,
            x: match side {
                Side::Left => (config.paddle_width / 2) as i64,
                Side::Right => (config.arena_width - config.paddle_width / 2) as i64,
            },
            y: config.center_y() as i64,
            width: config.paddle_width,
            height: config.paddle_height,
        }
    }

    /// Makes the paddle of a side as it stands when a match starts.
    pub fn new(side: Side, config: &Config) -> (paddle: Paddle)
        requires
            config.wf(),
        ensures
            paddle == Paddle::starting(side, *config),
            paddle.wf(),
            paddle.in_bounds(config.arena_height as int),
    {
        let x: i64 = match side {
            Side::Left => config.paddle_width / 2,
            Side::Right => config.arena_width - config.paddle_width / 2,
        };
        Paddle {
            side,
            x,
            y: config.arena_height / 2,
            width: config.paddle_width,
            height: config.paddle_height,
        }
    }
}

/// The ball: where its centre is, how fast it moves along each axis, and its
/// radius.
#[derive(Clone, Copy, Debug, PartialEq, Eq, Structural)]
pub struct Ball {
    pub x: i64,
    pub y: i64,
    pub vx: i64,
    pub vy: i64,
    pub radius: i64,
}

impl Ball {
    /// The radius is non-negative, and radius and speeds are within `LIMIT`.
    pub open spec fn wf(self) -> bool {
        &&& 0 <= self.radius <= LIMIT
        &&& magnitude(self.vx as int) <= LIMIT
        &&& magnitude(self.vy as int) <= LIMIT
    }

    /// Tells whether the ball is well formed.
    pub fn is_valid(&self) -> (valid: bool)
        ensures
            valid == self.wf(),
    {
        0 <= self.radius && self.radius <= LIMIT && -LIMIT <= self.vx && self.vx <= LIMIT
            && -LIMIT <= self.vy && self.vy <= LIMIT
    }

    /// Two balls move equally fast along each axis, whatever their directions.
    pub open spec fn same_speed(self, other: Ball) -> bool {
        &&& magnitude(self.vx as int) == magnitude(other.vx as int)
        &&& magnitude(self.vy as int) == magnitude(other.vy as int)
    }

    /// The ball as it enters play: at the centre of the arena, with the
    /// configured velocity.
    pub open spec fn starting(config: Config) -> Ball {
        Ball {
            x: config.center_x() as i64,
            y: config.center_y() as i64,
            vx: config.ball_velocity_x,
            vy: config.ball_velocity_y,
            radius: config.ball_radius,
        }
    }
}

/// The points that each side has won.
#[derive(Clone, Copy, Debug, PartialEq, Eq, Structural)]
pub struct ScoreBoard {
    pub score_left: i32,
    pub score_right: i32,
}

impl ScoreBoard {
    /// Neither score is negative or above the maximum.
    pub open spec fn wf(self, max_score: int) -> bool {
        &&& 0 <= self.score_left <= max_score
        &&& 0 <= self.score_right <= max_score
    }

    /// The points of one side.
    pub open spec fn points(self, side: Side) -> int {
        match side {
            Side::Left => self.score_left as int,
            Side::Right => self.score_right as int,
        }
    }

    /// Hands back the points of one side.
    pub fn score(&self, side: Side) -> (points: i32)
        ensures
            points == self.points(side),
    {
        match side {
            Side::Left => self.score_left,
            Side::Right => self.score_right,
        }
    }
}

impl Default for ScoreBoard {
    fn default() -> (scores: ScoreBoard)
        ensures
            scores == (ScoreBoard { score_left: 0, score_right: 0 }),
    {
        ScoreBoard { score_left: 0, score_right: 0 }
    }
}

/// What the players' controls read during one tick: for each paddle an axis
/// value, or nothing. A control at rest reads 0 and one at full deflection
/// `ONE` or `-ONE`; a reading beyond that moves the paddle all the same.
#[derive(Clone, Copy, Debug, PartialEq, Eq, Structural)]
pub struct Inputs {
    pub left_paddle: Option<i64>,
    pub right_paddle: Option<i64>,
}

impl Inputs {
    /// The reading of the axis that steers the paddle of a side.
    pub open spec fn axis(self, side: Side) -> Option<i64> {
        match side {
            Side::Left => self.left_paddle,
            Side::Right => self.right_paddle,
        }
    }

    /// Hands back the reading of the axis that steers the paddle of a side.
    pub fn axis_value(&self, side: Side) -> (value: Option<i64>)
        ensures
            value == self.axis(side),
    {
        match side {
            Side::Left => self.left_paddle,
            Side::Right => self.right_paddle,
        }
    }
}

/// Places the two paddles for the start of a match, the left one first.
pub fn initialise_paddles(config: &Config) -> (paddles: (Paddle, Paddle))
    requires
        config.wf(),
    ensures
        paddles.0 == Paddle::starting(Side::Left, *config),
        paddles.1 == Paddle::starting(Side::Right, *config),
{
    (Paddle::new(Side::Left, config), Paddle::new(Side::Right, config))
}

/// Makes the ball as it enters play.
pub fn initialise_ball(config: &Config) -> (ball: Ball)
    requires
        config.wf(),
    ensures
        ball == Ball::starting(*config),
        ball.wf(),
{
    Ball {
        x: config.arena_width / 2,
        y: config.arena_height / 2,
        vx: config.ball_velocity_x,
        vy: config.ball_velocity_y,
        radius: config.ball_radius,
    }
}

/// Makes the score board of a match that is about to start.
pub fn initialise_scoreboard() -> (scores: ScoreBoard)
    ensures
        scores == (ScoreBoard { score_left: 0, score_right: 0 }),
{
    ScoreBoard { score_left: 0, score_right: 0 }
}

/// The countdown to the ball's appearance. It runs once: a match that has
/// become active stays so.
#[derive(Clone, Copy, Debug, PartialEq, Eq, Structural)]
pub enum SpawnTimer {
    /// The ball appears after this many more microseconds.
    WaitingToSpawn { remaining: u64 },
    /// The ball is in play.
    Active,
}

/// What a tick did that the presentation has to know of.
#[derive(Clone, Copy, Debug, PartialEq, Eq, Structural)]
pub struct TickEffects {
    /// The ball entered play during this tick.
    pub ball_spawned: bool,
    /// The side that won a point during this tick.
    pub scored: Option<Side>,
}

/// A match: its constants, both paddles, the spawn timer, the ball once it is
/// in play, and the score.
#[derive(Clone, Copy, Debug, PartialEq, Eq, Structural)]
pub struct Pong {
    pub config: Config,
    pub left: Paddle,
    pub right: Paddle,
    pub spawn_timer: SpawnTimer,
    pub ball: Option<Ball>,
    pub scores: ScoreBoard,
}

/// The paddle is the one that the configuration gives its side: it stands at
/// that side's fixed `x`, has the configured size, and is inside the arena.
pub open spec fn paddle_in_place(paddle: Paddle, side: Side, config: Config) -> bool {
    &&& paddle.side == side
    &&& paddle.x == Paddle::starting(side, config).x
    &&& paddle.width == config.paddle_width
    &&& paddle.height == config.paddle_height
    &&& paddle.in_bounds(config.arena_height as int)
}

/// The ball is one that a match can hold between two ticks: it has the
/// configured radius and speeds, it is between the side walls, it is no
/// further beyond the floor or the ceiling than one tick can carry it, and
/// where it is beyond one of them it is not moving further out.
pub open spec fn ball_in_play(ball: Ball, config: Config) -> bool {
    &&& ball.radius == config.ball_radius
    &&& ball.same_speed(Ball::starting(config))
    &&& 0 <= ball.x <= config.arena_width
    &&& -MAX_STEP <= ball.y <= config.arena_height + MAX_STEP
    &&& ball.y < ball.radius ==> ball.vy >= 0
    &&& ball.y > config.arena_height - ball.radius ==> ball.vy <= 0
}

/// Tells whether the paddle is the one that the configuration gives its side.
fn paddle_is_in_place(paddle: &Paddle, side: Side, config: &Config) -> (placed: bool)
    requires
        config.wf(),
    ensures
        placed == paddle_in_place(*paddle, side, *config),
{
    let half: i64 = config.paddle_width / 2;
    let x: i64 = match side {
        Side::Left => half,
        Side::Right => config.arena_width - half,
    };
    let as_configured = paddle.side == side && paddle.x == x && paddle.width
        == config.paddle_width && paddle.height == config.paddle_height;
    as_configured && paddle.height / 2 <= paddle.y && paddle.y <= config.arena_height
        - paddle.height / 2
}

/// Tells whether the ball is one that a match can hold between two ticks.
fn ball_is_in_play(ball: &Ball, config: &Config) -> (playable: bool)
    requires
        config.wf(),
    ensures
        playable == ball_in_play(*ball, *config),
{
    let speed_x = ball.vx == config.ball_velocity_x || ball.vx == -config.ball_velocity_x;
    let speed_y = ball.vy == config.ball_velocity_y || ball.vy == -config.ball_velocity_y;
    let between_sides = 0 <= ball.x && ball.x <= config.arena_width;
    let near_arena = -MAX_STEP <= ball.y && ball.y <= config.arena_height + MAX_STEP;
    let coming_back = (ball.y >= config.ball_radius || ball.vy >= 0) && (ball.y
        <= config.arena_height - config.ball_radius || ball.vy <= 0);
    ball.radius == config.ball_radius && speed_x && speed_y && between_sides && near_arena
        && coming_back
}

impl Pong {
    /// What always holds of a match between two ticks.
    pub open spec fn wf(self) -> bool {
        &&& self.config.wf()
        &&& paddle_in_place(self.left, Side::Left, self.config)
        &&& paddle_in_place(self.right, Side::Right, self.config)
        &&& self.scores.wf(self.config.max_score as int)
        &&& match self.spawn_timer {
            SpawnTimer::WaitingToSpawn { remaining } => self.ball.is_none(),
            SpawnTimer::Active => self.ball.is_some() && ball_in_play(
                self.ball.unwrap(),
                self.config,
            ),
        }
    }

    /// A match that is about to start: paddles in their starting places, no
    /// ball yet, the whole spawn delay to wait, no points.
    pub open spec fn initial(config: Config) -> Pong {
        Pong {
            config,
            left: Paddle::starting(Side::Left, config),
            right: Paddle::starting(Side::Right, config),
            spawn_timer: SpawnTimer::WaitingToSpawn { remaining: config.spawn_delay },
            ball: None,
            scores: ScoreBoard { score_left: 0, score_right: 0 },
        }
    }

    /// The ball enters play during a tick of this length: the match is
    /// waiting, and no more is left to wait than the tick takes.
    pub open spec fn spawns_ball(self, elapsed: u32) -> bool {
        match self.spawn_timer {
            SpawnTimer::WaitingToSpawn { remaining } => remaining <= elapsed,
            SpawnTimer::Active => false,
        }
    }

    /// The spawn timer after a tick of this length.
    pub open spec fn timer_after(self, elapsed: u32) -> SpawnTimer {
        match self.spawn_timer {
            SpawnTimer::WaitingToSpawn { remaining } => if remaining <= elapsed {
                SpawnTimer::Active
            } else {
                SpawnTimer::WaitingToSpawn { remaining: (remaining - elapsed) as u64 }
            },
            SpawnTimer::Active => SpawnTimer::Active,
        }
    }

    /// The left paddle after this tick's paddle motion.
    pub open spec fn left_after(self, inputs: Inputs) -> Paddle {
        moved_paddle(self.left, inputs.axis(self.left.side), self.config)
    }

    /// The right paddle after this tick's paddle motion.
    pub open spec fn right_after(self, inputs: Inputs) -> Paddle {
        moved_paddle(self.right, inputs.axis(self.right.side), self.config)
    }

    /// The ball that was in play when the tick began, after this tick's motion
    /// and collision pass and before the scoring test. The collision pass sees
    /// the paddles where this tick's paddle motion has put them, the left one
    /// first.
    pub open spec fn ball_before_scoring(self, elapsed: u32, inputs: Inputs) -> Option<Ball> {
        match self.ball {
            Some(ball) => Some(
                collided(
                    moved_ball(ball, elapsed),
                    seq![self.left_after(inputs), self.right_after(inputs)],
                    self.config.arena_height as int,
                ),
            ),
            None => None,
        }
    }

    /// The side that wins a point during the tick.
    pub open spec fn scorer_of_tick(self, elapsed: u32, inputs: Inputs) -> Option<Side> {
        match self.ball_before_scoring(elapsed, inputs) {
            Some(ball) => scorer(ball, self.config),
            None => None,
        }
    }

    /// The match after one tick. The paddles move first. A match that is
    /// waiting counts its timer down, and the ball enters play in the
    /// centre when the timer runs out. A ball that was in play when the tick
    /// began moves, collides and is tested for a point, in that order.
    pub open spec fn after_tick(self, elapsed: u32, inputs: Inputs) -> Pong {
        Pong {
            config: self.config,
            left: self.left_after(inputs),
            right: self.right_after(inputs),
            spawn_timer: self.timer_after(elapsed),
            ball: if self.spawns_ball(elapsed) {
                Some(Ball::starting(self.config))
            } else {
                match self.ball_before_scoring(elapsed, inputs) {
                    Some(ball) => Some(after_scoring(ball, self.config)),
                    None => None,
                }
            },
            scores: credited(
                self.scores,
                self.scorer_of_tick(elapsed, inputs),
                self.config.max_score,
            ),
        }
    }

    /// What the tick reports.
    pub open spec fn effects_of_tick(self, elapsed: u32, inputs: Inputs) -> TickEffects {
        TickEffects {
            ball_spawned: self.spawns_ball(elapsed),
            scored: self.scorer_of_tick(elapsed, inputs),
        }
    }

    /// Starts a match.
    pub fn new(config: Config) -> (game: Pong)
        requires
            config.wf(),
        ensures
            game == Pong::initial(config),
            game.wf(),
    {
        let paddles = initialise_paddles(&config);
        Pong {
            config,
            left: paddles.0,
            right: paddles.1,
            spawn_timer: SpawnTimer::WaitingToSpawn { remaining: config.spawn_delay },
            ball: None,
            scores: initialise_scoreboard(),
        }
    }

    /// Tells whether the match is well formed, as every match is that was
    /// started by `new` and advanced by `tick`.
    pub fn is_valid(&self) -> (valid: bool)
        ensures
            valid == self.wf(),
    {
        if !self.config.is_valid() {
            return false;
        }
        let scores_fit = 0 <= self.scores.score_left && self.scores.score_left
            <= self.config.max_score && 0 <= self.scores.score_right && self.scores.score_right
            <= self.config.max_score;
        let phase_fits = match self.spawn_timer {
            SpawnTimer::WaitingToSpawn { remaining: _ } => self.ball.is_none(),
            SpawnTimer::Active => match self.ball {
                Some(ball) => ball_is_in_play(&ball, &self.config),
                None => false,
            },
        };
        scores_fit && phase_fits && paddle_is_in_place(&self.left, Side::Left, &self.config)
            && paddle_is_in_place(&self.right, Side::Right, &self.config)
    }

    /// Tells whether the ball is in play.
    pub fn ball_spawned(&self) -> (spawned: bool)
        ensures
            spawned == self.ball.is_some(),
    {
        self.ball.is_some()
    }

    /// Hands back the ball. There is none to hand back until it has entered
    /// play.
    pub fn ball(&self) -> (ball: Ball)
        requires
            self.ball.is_some(),
        ensures
            ball == self.ball.unwrap(),
    {
        self.ball.unwrap()
    }

    /// Counts the spawn timer down by `elapsed` microseconds and puts the ball
    /// into play when it runs out. Tells whether the ball entered play.
    pub fn update(&mut self, elapsed: u32) -> (spawned: bool)
        requires
            old(self).config.wf(),
        ensures
            spawned == old(self).spawns_ball(elapsed),
            final(self).spawn_timer == old(self).timer_after(elapsed),
            final(self).ball == if spawned {
                Some(Ball::starting(old(self).config))
            } else {
                old(self).ball
            },
            final(self).config == old(self).config,
            final(self).left == old(self).left,
            final(self).right == old(self).right,
            final(self).scores == old(self).scores,
    {
        match self.spawn_timer {
            SpawnTimer::WaitingToSpawn { remaining } => {
                if remaining <= elapsed as u64 {
                    self.ball = Some(initialise_ball(&self.config));
                    self.spawn_timer = SpawnTimer::Active;
                    true
                } else {
                    self.spawn_timer = SpawnTimer::WaitingToSpawn {
                        remaining: remaining - elapsed as u64,
                    };
                    false
                }
            },
            SpawnTimer::Active => false,
        }
    }

    /// Runs one tick of `elapsed` microseconds with the given input: paddle
    /// motion, then the spawn timer, then for a ball that was already in play
    /// ball motion, the collision pass and the scoring test.
    pub fn tick(&mut self, elapsed: u32, inputs: &Inputs) -> (effects: TickEffects)
        requires
            old(self).wf(),
        ensures
            *final(self) == old(self).after_tick(elapsed, *inputs),
            effects == old(self).effects_of_tick(elapsed, *inputs),
            final(self).wf(),
    {
        proof {
            lemma_tick_keeps_wf(*self, elapsed, *inputs);
        }
        let config = self.config;
        let in_play = self.ball;
        let mut left = self.left;
        let mut right = self.right;
        PaddleSystem.run(&mut left, inputs, &config);
        PaddleSystem.run(&mut right, inputs, &config);
        self.left = left;
        self.right = right;
        let ball_spawned = self.update(elapsed);
        let mut scored: Option<Side> = None;
        match in_play {
            Some(ball) => {
                let mut ball = ball;
                let mut scores = self.scores;
                MoveBallsSystem.run(&mut ball, elapsed);
                let paddles = vec![left, right];
                BounceSystem.run(&mut ball, &paddles, &config);
                scored = WinnerSystem.run(&mut ball, &mut scores, &config);
                self.ball = Some(ball);
                self.scores = scores;
            },
            None => {},
        }
        TickEffects { ball_spawned, scored }
    }
}

/// A tick keeps a match well formed, and the ball's motion during it can be
/// held in the ball's fields.
pub proof fn lemma_tick_keeps_wf(game: Pong, elapsed: u32, inputs: Inputs)
    requires
        game.wf(),
    ensures
        game.after_tick(elapsed, inputs).wf(),
        game.ball.is_some() ==> can_move(game.ball.unwrap(), elapsed),
        game.ball.is_some() ==> moved_ball(game.ball.unwrap(), elapsed).wf(),
{
    let config = game.config;
    lemma_moved_paddle(game.left, inputs.axis(game.left.side), config);
    lemma_moved_paddle(game.right, inputs.axis(game.right.side), config);
    if let Some(ball) = game.ball {
        lemma_step_bounds(ball.vx as int, elapsed as int);
        lemma_step_bounds(ball.vy as int, elapsed as int);
        let moved = moved_ball(ball, elapsed);
        let paddles = seq![game.left_after(inputs), game.right_after(inputs)];
        lemma_collided_keeps_speed(moved, paddles, config.arena_height as int);
    }
}

} // verus!
