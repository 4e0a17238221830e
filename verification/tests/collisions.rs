use pong::config::Config;
use pong::fixed::ONE;
use pong::pong::{Ball, Paddle, Side};
use pong::systems::bounce::point_in_rect;
use pong::systems::BounceSystem;

fn units(whole: i64, millionths: i64) -> i64 {
    whole * ONE + millionths
}

fn ball(x: i64, y: i64, vx: i64, vy: i64) -> Ball {
    Ball { x, y, vx, vy, radius: units(2, 0) }
}

fn left_paddle() -> Paddle {
    Paddle {
        side: Side::Left,
        x: units(2, 0),
        y: units(50, 0),
        width: units(4, 0),
        height: units(16, 0),
    }
}

fn right_paddle() -> Paddle {
    Paddle {
        side: Side::Right,
        x: units(98, 0),
        y: units(50, 0),
        width: units(4, 0),
        height: units(16, 0),
    }
}

#[test]
fn point_in_rect_includes_the_edges() {
    assert!(point_in_rect(0, 0, 0, 0, 10, 10));
    assert!(point_in_rect(10, 10, 0, 0, 10, 10));
    assert!(point_in_rect(5, 5, 0, 0, 10, 10));
    assert!(!point_in_rect(-1, 5, 0, 0, 10, 10));
    assert!(!point_in_rect(11, 5, 0, 0, 10, 10));
    assert!(!point_in_rect(5, -1, 0, 0, 10, 10));
    assert!(!point_in_rect(5, 11, 0, 0, 10, 10));
}

#[test]
fn ball_bounces_off_the_floor_when_falling() {
    let config = Config::default();
    let mut falling = ball(units(50, 0), units(1, 0), units(75, 0), -units(10, 0));
    BounceSystem.bounce_off_wall(&mut falling, &config);
    assert_eq!(falling, ball(units(50, 0), units(1, 0), units(75, 0), units(10, 0)));
}

#[test]
fn ball_rising_from_the_floor_is_left_alone() {
    let config = Config::default();
    let mut rising = ball(units(50, 0), units(1, 0), units(75, 0), units(10, 0));
    BounceSystem.bounce_off_wall(&mut rising, &config);
    assert_eq!(rising, ball(units(50, 0), units(1, 0), units(75, 0), units(10, 0)));
}

#[test]
fn ball_bounces_off_the_ceiling_when_rising() {
    let config = Config::default();
    let mut rising = ball(units(50, 0), units(98, 0), units(75, 0), units(50, 0));
    BounceSystem.bounce_off_wall(&mut rising, &config);
    assert_eq!(rising.vy, -units(50, 0));
    BounceSystem.bounce_off_wall(&mut rising, &config);
    assert_eq!(rising.vy, -units(50, 0));
}

#[test]
fn wall_bands_start_where_the_ball_touches() {
    let config = Config::default();
    let mut on_floor_band = ball(units(50, 0), units(2, 0), units(75, 0), -units(50, 0));
    BounceSystem.bounce_off_wall(&mut on_floor_band, &config);
    assert_eq!(on_floor_band.vy, -units(50, 0));
    let mut under_ceiling_band = ball(units(50, 0), units(97, 999_999), units(75, 0), units(50, 0));
    BounceSystem.bounce_off_wall(&mut under_ceiling_band, &config);
    assert_eq!(under_ceiling_band.vy, units(50, 0));
    let mut in_floor_band = ball(units(50, 0), units(1, 999_999), units(75, 0), -units(50, 0));
    BounceSystem.bounce_off_wall(&mut in_floor_band, &config);
    assert_eq!(in_floor_band.vy, units(50, 0));
}

#[test]
fn ball_bounces_off_the_left_paddle_when_heading_left() {
    let mut incoming = ball(units(1, 0), units(50, 0), -units(75, 0), units(50, 0));
    BounceSystem.bounce_off_paddle(&mut incoming, &left_paddle());
    assert_eq!(incoming, ball(units(1, 0), units(50, 0), units(75, 0), units(50, 0)));
}

#[test]
fn ball_leaving_the_left_paddle_is_left_alone() {
    let mut outgoing = ball(units(1, 0), units(50, 0), units(75, 0), units(50, 0));
    BounceSystem.bounce_off_paddle(&mut outgoing, &left_paddle());
    assert_eq!(outgoing, ball(units(1, 0), units(50, 0), units(75, 0), units(50, 0)));
}

#[test]
fn ball_bounces_off_the_right_paddle_when_heading_right() {
    let mut incoming = ball(units(99, 0), units(50, 0), units(75, 0), units(50, 0));
    BounceSystem.bounce_off_paddle(&mut incoming, &right_paddle());
    assert_eq!(incoming.vx, -units(75, 0));
    BounceSystem.bounce_off_paddle(&mut incoming, &right_paddle());
    assert_eq!(incoming.vx, -units(75, 0));
}

#[test]
fn paddle_reaches_as_far_as_the_ball_radius() {
    let corners = [
        (units(6, 0), units(60, 0)),
        (units(6, 0), units(40, 0)),
        (-units(2, 0), units(60, 0)),
        (-units(2, 0), units(40, 0)),
    ];
    for (x, y) in corners {
        let mut touching = ball(x, y, -units(75, 0), units(50, 0));
        BounceSystem.bounce_off_paddle(&mut touching, &left_paddle());
        assert_eq!(touching.vx, units(75, 0));
    }
    let misses = [
        (units(6, 1), units(50, 0)),
        (units(5, 0), units(60, 1)),
        (units(5, 0), units(39, 999_999)),
        (-units(2, 1), units(50, 0)),
    ];
    for (x, y) in misses {
        let mut passing = ball(x, y, -units(75, 0), units(50, 0));
        BounceSystem.bounce_off_paddle(&mut passing, &left_paddle());
        assert_eq!(passing.vx, -units(75, 0));
    }
}

#[test]
fn collision_pass_tests_the_wall_and_every_paddle() {
    let config = Config::default();
    let paddles = vec![left_paddle(), right_paddle()];
    let mut cornered = ball(units(5, 0), units(1, 0), -units(75, 0), -units(50, 0));
    let mut tall_left = left_paddle();
    tall_left.y = units(8, 0);
    let low_paddles = vec![tall_left, right_paddle()];
    BounceSystem.run(&mut cornered, &low_paddles, &config);
    assert_eq!(cornered, ball(units(5, 0), units(1, 0), units(75, 0), units(50, 0)));

    let mut free = ball(units(50, 0), units(50, 0), units(75, 0), units(50, 0));
    BounceSystem.run(&mut free, &paddles, &config);
    assert_eq!(free, ball(units(50, 0), units(50, 0), units(75, 0), units(50, 0)));

    let mut at_right = ball(units(95, 0), units(55, 0), units(75, 0), -units(50, 0));
    BounceSystem.run(&mut at_right, &paddles, &config);
    assert_eq!(at_right, ball(units(95, 0), units(55, 0), -units(75, 0), -units(50, 0)));

    let mut alone = ball(units(1, 0), units(50, 0), -units(75, 0), units(50, 0));
    BounceSystem.run(&mut alone, &Vec::new(), &config);
    assert_eq!(alone.vx, -units(75, 0));
}

#[test]
fn ball_that_touches_both_paddles_is_turned_by_each_in_turn() {
    let config = Config::default();
    let near_left = Paddle {
        side: Side::Left,
        x: units(48, 0),
        y: units(50, 0),
        width: units(4, 0),
        height: units(16, 0),
    };
    let near_right = Paddle {
        side: Side::Right,
        x: units(52, 0),
        y: units(50, 0),
        width: units(4, 0),
        height: units(16, 0),
    };
    let mut heading_left = ball(units(50, 0), units(50, 0), -units(75, 0), units(50, 0));
    BounceSystem.run(&mut heading_left, &vec![near_left, near_right], &config);
    assert_eq!(heading_left.vx, -units(75, 0));

    let mut heading_right = ball(units(50, 0), units(50, 0), units(75, 0), units(50, 0));
    BounceSystem.run(&mut heading_right, &vec![near_left, near_right], &config);
    assert_eq!(heading_right.vx, -units(75, 0));

    let mut other_order = ball(units(50, 0), units(50, 0), -units(75, 0), units(50, 0));
    BounceSystem.run(&mut other_order, &vec![near_right, near_left], &config);
    assert_eq!(other_order.vx, units(75, 0));
}

#[test]
fn fast_ball_passes_through_a_paddle_between_two_ticks() {
    let config = Config::default();
    let paddles = vec![left_paddle(), right_paddle()];
    let mut beyond = ball(-units(3, 0), units(50, 0), -units(75, 0), units(50, 0));
    BounceSystem.run(&mut beyond, &paddles, &config);
    assert_eq!(beyond.vx, -units(75, 0));
}
