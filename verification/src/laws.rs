//! What holds of every match, however it is played.

use vstd::prelude::*;
use crate::config::Config;
use crate::fixed::magnitude;
use crate::pong::{lemma_tick_keeps_wf, Inputs, Paddle, Pong, ScoreBoard, Side, SpawnTimer};
use crate::systems::bounce::{bounced_off_wall, hits_paddle, lemma_two_paddles};
use crate::systems::move_balls::moved_ball;
use crate::systems::winner::credited;

verus! {

/// The input of one tick: the time that has passed, in microseconds, and what
/// the controls read.
pub struct Tick {
    pub elapsed: u32,
    pub inputs: Inputs,
}

/// The match after a run of ticks, played in order.
pub open spec fn played(start: Pong, ticks: Seq<Tick>) -> Pong
    decreases ticks.len(),
{
    if ticks.len() == 0 {
        start
    } else {
        played(start, ticks.drop_last()).after_tick(ticks.last().elapsed, ticks.last().inputs)
    }
}

/// The microseconds that a run of ticks takes.
pub open spec fn total_elapsed(ticks: Seq<Tick>) -> int
    decreases ticks.len(),
{
    if ticks.len() == 0 {
        0
    } else {
        total_elapsed(ticks.drop_last()) + ticks.last().elapsed
    }
}

/// How many ticks of a run report that the ball entered play.
pub open spec fn spawn_events(start: Pong, ticks: Seq<Tick>) -> int
    decreases ticks.len(),
{
    if ticks.len() == 0 {
        0
    } else {
        let before = played(start, ticks.drop_last());
        let last = ticks.last();
        spawn_events(start, ticks.drop_last()) + if before.effects_of_tick(
            last.elapsed,
            last.inputs,
        ).ball_spawned {
            1int
        } else {
            0int
        }
    }
}

/// However a match is played, it stays well formed and keeps its
/// configuration.
pub proof fn lemma_played_keeps_wf(start: Pong, ticks: Seq<Tick>)
    requires
        start.wf(),
    ensures
        played(start, ticks).wf(),
        played(start, ticks).config == start.config,
    decreases ticks.len(),
{
    if ticks.len() > 0 {
        lemma_played_keeps_wf(start, ticks.drop_last());
        lemma_tick_keeps_wf(
            played(start, ticks.drop_last()),
            ticks.last().elapsed,
            ticks.last().inputs,
        );
    }
}

/// Whatever the players do and however long the ticks take, each paddle stays
/// wholly inside the arena: its midpoint is never lower than half its height
/// and never higher than the arena's height less half its height. Its `x`,
/// its size and its side never change.
pub proof fn law_paddles_stay_in_arena(start: Pong, ticks: Seq<Tick>)
    requires
        start.wf(),
    ensures
        played(start, ticks).left.in_bounds(start.config.arena_height as int),
        played(start, ticks).right.in_bounds(start.config.arena_height as int),
        played(start, ticks).left == (Paddle { y: played(start, ticks).left.y, ..start.left }),
        played(start, ticks).right == (Paddle { y: played(start, ticks).right.y, ..start.right }),
{
    lemma_played_keeps_wf(start, ticks);
}

/// Whatever happens to the ball, its speed along each axis is the configured
/// one: bounces and points change the direction of `vx` and `vy`, never their
/// magnitude.
pub proof fn law_ball_speed_is_conserved(start: Pong, ticks: Seq<Tick>)
    requires
        start.wf(),
    ensures
        match played(start, ticks).ball {
            Some(ball) => {
                &&& magnitude(ball.vx as int) == magnitude(start.config.ball_velocity_x as int)
                &&& magnitude(ball.vy as int) == magnitude(start.config.ball_velocity_y as int)
            },
            None => true,
        },
{
    lemma_played_keeps_wf(start, ticks);
}

/// The ball enters play once and only once. A match that waits for
/// `remaining` microseconds has no ball, and has reported none, as long as the
/// ticks played take less than that in all; from the tick that completes the
/// wait onward it has one, and exactly one tick has reported it. Before the
/// first tick a match is as it started, even where there is nothing to wait.
/// A match that is active stays active and reports no ball again.
pub proof fn law_ball_spawns_once(start: Pong, ticks: Seq<Tick>)
    requires
        start.wf(),
    ensures
        match start.spawn_timer {
            SpawnTimer::WaitingToSpawn { remaining } => if ticks.len() > 0 && total_elapsed(ticks)
                >= remaining {
                &&& played(start, ticks).spawn_timer == SpawnTimer::Active
                &&& played(start, ticks).ball.is_some()
                &&& spawn_events(start, ticks) == 1
            } else {
                &&& played(start, ticks).spawn_timer == SpawnTimer::WaitingToSpawn {
                    remaining: (remaining - total_elapsed(ticks)) as u64,
                }
                &&& played(start, ticks).ball.is_none()
                &&& spawn_events(start, ticks) == 0
            },
            SpawnTimer::Active => {
                &&& played(start, ticks).spawn_timer == SpawnTimer::Active
                &&& played(start, ticks).ball.is_some()
                &&& spawn_events(start, ticks) == 0
            },
        },
        0 <= total_elapsed(ticks),
    decreases ticks.len(),
{
    lemma_played_keeps_wf(start, ticks);
    if ticks.len() > 0 {
        law_ball_spawns_once(start, ticks.drop_last());
        lemma_played_keeps_wf(start, ticks.drop_last());
    }
}

/// A score never passes the maximum: a point for either side leaves a valid
/// score board valid, and a side that stands at the maximum stays there.
pub proof fn law_score_stops_at_maximum(scores: ScoreBoard, side: Side, max_score: i32)
    requires
        scores.wf(max_score as int),
    ensures
        credited(scores, Some(side), max_score).wf(max_score as int),
        scores.points(side) == max_score ==> credited(scores, Some(side), max_score) == scores,
        scores.points(side) < max_score ==> credited(scores, Some(side), max_score).points(side)
            == scores.points(side) + 1,
{
}

/// The paddles leave the ball room: each has a positive half-width, and both
/// of them and the ball fit side by side between the side walls.
pub open spec fn leaves_room(config: Config) -> bool {
    &&& config.paddle_width / 2 > 0
    &&& 2 * config.paddle_width + 2 * config.ball_radius < config.arena_width
}

/// The `x` of the edge of a paddle's grown rectangle that faces the field.
pub open spec fn facing_edge(paddle: Paddle, radius: int) -> int {
    match paddle.side {
        Side::Left => paddle.x - paddle.width / 2 + paddle.width + radius,
        Side::Right => paddle.x - paddle.width / 2 - radius,
    }
}

/// A bounce comes before a point. Where this tick's motion has brought the
/// ball exactly to the edge of a paddle's grown rectangle that faces the
/// field, while it heads for that paddle, the tick turns `vx` round, leaves
/// the ball where the motion has brought it, and credits nobody.
pub proof fn law_bounce_comes_before_score(game: Pong, elapsed: u32, inputs: Inputs, side: Side)
    requires
        game.wf(),
        leaves_room(game.config),
        game.ball.is_some(),
        ({
            let arrived = moved_ball(game.ball.unwrap(), elapsed);
            let paddle = match side {
                Side::Left => game.left_after(inputs),
                Side::Right => game.right_after(inputs),
            };
            hits_paddle(arrived, paddle) && arrived.x == facing_edge(paddle, arrived.radius as int)
        }),
    ensures
        ({
            let arrived = moved_ball(game.ball.unwrap(), elapsed);
            let after = game.after_tick(elapsed, inputs);
            &&& after.ball.is_some()
            &&& after.ball.unwrap().vx == -arrived.vx
            &&& after.ball.unwrap().x == arrived.x
            &&& after.ball.unwrap().y == arrived.y
            &&& game.effects_of_tick(elapsed, inputs).scored.is_none()
            &&& after.scores == game.scores
        }),
{
    let arrived = moved_ball(game.ball.unwrap(), elapsed);
    let height = game.config.arena_height as int;
    lemma_tick_keeps_wf(game, elapsed, inputs);
    lemma_two_paddles(
        bounced_off_wall(arrived, height),
        game.left_after(inputs),
        game.right_after(inputs),
    );
}

} // verus!
