//! Collisions: the ball turns back from the floor, the ceiling and the paddles.
//!
//! The ball is tested where it stands after this tick's motion. A velocity is
//! turned only while the ball is still heading into the obstacle, so a ball
//! that is on its way out is left alone.

use vstd::prelude::*;
use crate::config::Config;
use crate::pong::{Ball, Paddle, Side};

verus! {

/// Turns the ball back from walls and paddles.
#[derive(Clone, Copy, Debug, Default)]
pub struct BounceSystem;

/// The point lies in the rectangle, its edges included.
pub open spec fn in_rect(x: int, y: int, left: int, bottom: int, right: int, top: int) -> bool {
    x >= left && x <= right && y >= bottom && y <= top
}

/// The ball is below the floor band and falling, or in the ceiling band and
/// rising.
pub open spec fn hits_wall(ball: Ball, arena_height: int) -> bool {
    (ball.y < ball.radius && ball.vy < 0) || (ball.y >= arena_height - ball.radius && ball.vy > 0)
}

/// The ball's centre lies in the paddle's rectangle grown by the ball's radius
/// on every side. The rectangle is laid out from the paddle's lower left
/// corner.
pub open spec fn touches(ball: Ball, paddle: Paddle) -> bool {
    let corner_x = paddle.x - paddle.width / 2;
    let corner_y = paddle.y - paddle.height / 2;
    in_rect(
        ball.x as int,
        ball.y as int,
        corner_x - ball.radius,
        corner_y - ball.radius,
        corner_x + paddle.width + ball.radius,
        corner_y + paddle.height + ball.radius,
    )
}

/// The ball moves toward the wall that the paddle defends.
pub open spec fn heads_for(ball: Ball, side: Side) -> bool {
    match side {
        Side::Left => ball.vx < 0,
        Side::Right => ball.vx > 0,
    }
}

/// The ball touches the paddle while moving toward it.
pub open spec fn hits_paddle(ball: Ball, paddle: Paddle) -> bool {
    touches(ball, paddle) && heads_for(ball, paddle.side)
}

/// The ball after the wall test: `vy` is turned round if it hits a wall.
pub open spec fn bounced_off_wall(ball: Ball, arena_height: int) -> Ball {
    if hits_wall(ball, arena_height) {
        Ball { vy: (-ball.vy) as i64, ..ball }
    } else {
        ball
    }
}

/// The ball after the test against one paddle: `vx` is turned round if it hits
/// the paddle.
pub open spec fn bounced_off_paddle(ball: Ball, paddle: Paddle) -> Ball {
    if hits_paddle(ball, paddle) {
        Ball { vx: (-ball.vx) as i64, ..ball }
    } else {
        ball
    }
}

/// The ball after the tests against each paddle in turn. Each test sees the
/// velocity that the tests before it have left.
pub open spec fn bounced_off_paddles(ball: Ball, paddles: Seq<Paddle>) -> Ball
    decreases paddles.len(),
{
    if paddles.len() == 0 {
        ball
    } else {
        bounced_off_paddle(bounced_off_paddles(ball, paddles.drop_last()), paddles.last())
    }
}

/// The ball after one collision pass: the wall test, then the paddles.
pub open spec fn collided(ball: Ball, paddles: Seq<Paddle>, arena_height: int) -> Ball {
    bounced_off_paddles(bounced_off_wall(ball, arena_height), paddles)
}

/// A collision pass leaves the ball where it is, with its radius and with the
/// speed it had along each axis: only directions change.
pub proof fn lemma_collided_keeps_speed(ball: Ball, paddles: Seq<Paddle>, arena_height: int)
    requires
        ball.wf(),
    ensures
        collided(ball, paddles, arena_height).wf(),
        collided(ball, paddles, arena_height).same_speed(ball),
        collided(ball, paddles, arena_height).x == ball.x,
        collided(ball, paddles, arena_height).y == ball.y,
        collided(ball, paddles, arena_height).radius == ball.radius,
        collided(ball, paddles, arena_height).vy == bounced_off_wall(ball, arena_height).vy,
{
    lemma_paddles_keep_speed(bounced_off_wall(ball, arena_height), paddles);
}

/// The paddle tests leave everything but the direction of `vx` as it was.
pub proof fn lemma_paddles_keep_speed(ball: Ball, paddles: Seq<Paddle>)
    requires
        ball.wf(),
    ensures
        bounced_off_paddles(ball, paddles).wf(),
        bounced_off_paddles(ball, paddles).same_speed(ball),
        bounced_off_paddles(ball, paddles).x == ball.x,
        bounced_off_paddles(ball, paddles).y == ball.y,
        bounced_off_paddles(ball, paddles).vy == ball.vy,
        bounced_off_paddles(ball, paddles).radius == ball.radius,
    decreases paddles.len(),
{
    if paddles.len() > 0 {
        lemma_paddles_keep_speed(ball, paddles.drop_last());
    }
}

/// Against two paddles the pass is the test against the first, then the test
/// against the second.
pub proof fn lemma_two_paddles(ball: Ball, first: Paddle, second: Paddle)
    ensures
        bounced_off_paddles(ball, seq![first, second]) == bounced_off_paddle(
            bounced_off_paddle(ball, first),
            second,
        ),
{
    let both = seq![first, second];
    let one = seq![first];
    assert(both.drop_last() =~= one);
    assert(one.drop_last() =~= Seq::<Paddle>::empty());
    assert(both.last() == second);
    assert(one.last() == first);
    reveal_with_fuel(bounced_off_paddles, 3);
}

/// Tells whether the point lies in the rectangle, its edges included.
pub fn point_in_rect(x: i64, y: i64, left: i64, bottom: i64, right: i64, top: i64) -> (inside: bool)
    ensures
        inside == in_rect(x as int, y as int, left as int, bottom as int, right as int, top as int),
{
    x >= left && x <= right && y >= bottom && y <= top
}

impl BounceSystem {
    /// Turns `vy` round if the ball hits the floor or the ceiling.
    pub fn bounce_off_wall(&self, ball: &mut Ball, config: &Config)
        requires
            old(ball).wf(),
            config.wf(),
        ensures
            *final(ball) == bounced_off_wall(*old(ball), config.arena_height as int),
    {
        if (ball.y < ball.radius && ball.vy < 0) || (ball.y >= config.arena_height - ball.radius
            && ball.vy > 0) {
            ball.vy = -ball.vy;
        }
    }

    /// Turns `vx` round if the ball hits the paddle.
    pub fn bounce_off_paddle(&self, ball: &mut Ball, paddle: &Paddle)
        requires
            old(ball).wf(),
            paddle.wf(),
        ensures
            *final(ball) == bounced_off_paddle(*old(ball), *paddle),
    {
        let paddle_x: i64 = paddle.x - paddle.width / 2;
        let paddle_y: i64 = paddle.y - paddle.height / 2;
        if point_in_rect(
            ball.x,
            ball.y,
            paddle_x - ball.radius,
            paddle_y - ball.radius,
            paddle_x + paddle.width + ball.radius,
            paddle_y + paddle.height + ball.radius,
        ) {
            let toward: bool = match paddle.side {
                Side::Left => ball.vx < 0,
                Side::Right => ball.vx > 0,
            };
            if toward {
                ball.vx = -ball.vx;
            }
        }
    }

    /// Runs one collision pass: the wall test, then the test against each
    /// paddle in the order given.
    pub fn run(&self, ball: &mut Ball, paddles: &Vec<Paddle>, config: &Config)
        requires
            old(ball).wf(),
            config.wf(),
            forall|i: int| 0 <= i < paddles.len() ==> (#[trigger] paddles[i]).wf(),
        ensures
            *final(ball) == collided(*old(ball), paddles@, config.arena_height as int),
            final(ball).wf(),
            final(ball).same_speed(*old(ball)),
            final(ball).x == old(ball).x,
            final(ball).y == old(ball).y,
            final(ball).radius == old(ball).radius,
    {
        let ghost start = *ball;
        self.bounce_off_wall(ball, config);
        let ghost walled = *ball;
        let mut i: usize = 0;
        while i < paddles.len()
            invariant
                i <= paddles.len(),
                walled.wf(),
                forall|j: int| 0 <= j < paddles.len() ==> (#[trigger] paddles[j]).wf(),
                *ball == bounced_off_paddles(walled, paddles@.take(i as int)),
            decreases paddles.len() - i,
        {
            proof {
                lemma_paddles_keep_speed(walled, paddles@.take(i as int));
                assert(paddles@.take(i + 1).drop_last() =~= paddles@.take(i as int));
            }
            self.bounce_off_paddle(ball, &paddles[i]);
            i += 1;
        }
        proof {
            assert(paddles@.take(i as int) =~= paddles@);
            lemma_collided_keeps_speed(start, paddles@, config.arena_height as int);
        }
    }
}

} // verus!
