use pong::config::Config;
use pong::fixed::ONE;
use pong::pong::{initialise_ball, Ball};
use pong::systems::MoveBallsSystem;

fn units(whole: i64, millionths: i64) -> i64 {
    whole * ONE + millionths
}

#[test]
fn ball_starts_in_the_centre_with_the_configured_velocity() {
    let ball = initialise_ball(&Config::default());
    assert_eq!(
        ball,
        Ball {
            x: units(50, 0),
            y: units(50, 0),
            vx: units(75, 0),
            vy: units(50, 0),
            radius: units(2, 0),
        }
    );
}

#[test]
fn ball_advances_by_velocity_times_elapsed_time() {
    let mut ball = initialise_ball(&Config::default());
    MoveBallsSystem.run(&mut ball, 16_667);
    assert_eq!(ball.x, 51_250_025);
    assert_eq!(ball.y, 50_833_350);
    assert_eq!(ball.vx, units(75, 0));
    assert_eq!(ball.vy, units(50, 0));
    assert_eq!(ball.radius, units(2, 0));
}

#[test]
fn ball_moves_back_along_a_negative_velocity() {
    let mut ball = Ball {
        x: units(50, 0),
        y: units(50, 0),
        vx: -units(75, 0),
        vy: -units(50, 0),
        radius: units(2, 0),
    };
    MoveBallsSystem.run(&mut ball, 16_667);
    assert_eq!(ball.x, 48_749_975);
    assert_eq!(ball.y, 49_166_650);
}

#[test]
fn ball_rests_when_no_time_has_passed() {
    let mut ball = initialise_ball(&Config::default());
    MoveBallsSystem.run(&mut ball, 0);
    assert_eq!(ball, initialise_ball(&Config::default()));
}

#[test]
fn ball_motion_is_the_same_forward_and_back() {
    let mut forth = Ball { x: 0, y: 0, vx: 7, vy: -7, radius: 0 };
    MoveBallsSystem.run(&mut forth, 1_500_000);
    assert_eq!(forth.x, 10);
    assert_eq!(forth.y, -10);
    let mut slow = Ball { x: 0, y: 0, vx: 1, vy: -1, radius: 0 };
    MoveBallsSystem.run(&mut slow, 999_999);
    assert_eq!(slow.x, 0);
    assert_eq!(slow.y, 0);
}

#[test]
fn ball_crosses_a_long_tick_in_one_step() {
    let mut ball = initialise_ball(&Config::default());
    MoveBallsSystem.run(&mut ball, u32::MAX);
    assert_eq!(ball.x, units(50, 0) + 322_122_547_125);
    assert_eq!(ball.y, units(50, 0) + 214_748_364_750);
}
