use pong::config::Config;
use pong::fixed::ONE;
use pong::pong::{initialise_scoreboard, Ball, ScoreBoard, Side};
use pong::systems::winner::raise;
use pong::systems::WinnerSystem;

fn units(whole: i64, millionths: i64) -> i64 {
    whole * ONE + millionths
}

fn ball(x: i64, y: i64, vx: i64, vy: i64) -> Ball {
    Ball { x, y, vx, vy, radius: units(2, 0) }
}

#[test]
fn score_board_starts_empty() {
    assert_eq!(initialise_scoreboard(), ScoreBoard { score_left: 0, score_right: 0 });
    assert_eq!(ScoreBoard::default(), ScoreBoard { score_left: 0, score_right: 0 });
}

#[test]
fn ball_at_the_left_wall_scores_for_the_right_side() {
    let config = Config::default();
    let mut scores = initialise_scoreboard();
    let mut lost = ball(units(1, 500_000), units(50, 0), -units(75, 0), units(50, 0));
    let winner = WinnerSystem.run(&mut lost, &mut scores, &config);
    assert_eq!(winner, Some(Side::Right));
    assert_eq!(scores, ScoreBoard { score_left: 0, score_right: 1 });
    assert_eq!(lost, ball(units(50, 0), units(50, 0), units(75, 0), units(50, 0)));
}

#[test]
fn ball_at_the_right_wall_scores_for_the_left_side() {
    let config = Config::default();
    let mut scores = ScoreBoard { score_left: 4, score_right: 7 };
    let mut lost = ball(units(98, 0), units(13, 0), units(75, 0), -units(50, 0));
    let winner = WinnerSystem.run(&mut lost, &mut scores, &config);
    assert_eq!(winner, Some(Side::Left));
    assert_eq!(scores, ScoreBoard { score_left: 5, score_right: 7 });
    assert_eq!(scores.score(Side::Left), 5);
    assert_eq!(scores.score(Side::Right), 7);
    assert_eq!(lost, ball(units(50, 0), units(50, 0), -units(75, 0), -units(50, 0)));
}

#[test]
fn ball_recentres_on_both_axes_after_a_point() {
    let config = Config::default();
    let mut scores = initialise_scoreboard();
    let mut lost = ball(units(0, 0), units(97, 0), -units(75, 0), units(50, 0));
    WinnerSystem.run(&mut lost, &mut scores, &config);
    assert_eq!(lost.x, units(50, 0));
    assert_eq!(lost.y, units(50, 0));
    assert_eq!(lost.vy, units(50, 0));
}

#[test]
fn ball_between_the_walls_scores_for_nobody() {
    let config = Config::default();
    let mut scores = ScoreBoard { score_left: 2, score_right: 3 };
    for x in [units(2, 1), units(50, 0), units(97, 999_999)] {
        let mut in_play = ball(x, units(20, 0), units(75, 0), units(50, 0));
        let winner = WinnerSystem.run(&mut in_play, &mut scores, &config);
        assert_eq!(winner, None);
        assert_eq!(in_play, ball(x, units(20, 0), units(75, 0), units(50, 0)));
        assert_eq!(scores, ScoreBoard { score_left: 2, score_right: 3 });
    }
}

#[test]
fn scoring_lines_lie_one_radius_inside_the_walls() {
    let config = Config::default();
    let mut scores = initialise_scoreboard();
    let mut at_left_line = ball(units(2, 0), units(50, 0), -units(75, 0), units(50, 0));
    assert_eq!(WinnerSystem.run(&mut at_left_line, &mut scores, &config), Some(Side::Right));
    let mut at_right_line = ball(units(98, 0), units(50, 0), units(75, 0), units(50, 0));
    assert_eq!(WinnerSystem.run(&mut at_right_line, &mut scores, &config), Some(Side::Left));
    assert_eq!(scores, ScoreBoard { score_left: 1, score_right: 1 });
}

#[test]
fn score_stays_at_the_maximum() {
    let config = Config::default();
    let mut scores = ScoreBoard { score_left: 12, score_right: 999 };
    let mut lost = ball(units(1, 0), units(50, 0), -units(75, 0), units(50, 0));
    let winner = WinnerSystem.run(&mut lost, &mut scores, &config);
    assert_eq!(winner, Some(Side::Right));
    assert_eq!(scores, ScoreBoard { score_left: 12, score_right: 999 });
    assert_eq!(lost, ball(units(50, 0), units(50, 0), units(75, 0), units(50, 0)));

    let mut full = ScoreBoard { score_left: 999, score_right: 999 };
    let mut other = ball(units(99, 0), units(50, 0), units(75, 0), units(50, 0));
    WinnerSystem.run(&mut other, &mut full, &config);
    assert_eq!(full, ScoreBoard { score_left: 999, score_right: 999 });
}

#[test]
fn score_reaches_the_maximum_from_one_below() {
    let config = Config::default();
    let mut scores = ScoreBoard { score_left: 998, score_right: 0 };
    let mut lost = ball(units(99, 0), units(50, 0), units(75, 0), units(50, 0));
    WinnerSystem.run(&mut lost, &mut scores, &config);
    assert_eq!(scores.score_left, 999);
}

#[test]
fn raise_adds_one_point_up_to_the_maximum() {
    assert_eq!(raise(0, 999), 1);
    assert_eq!(raise(997, 999), 998);
    assert_eq!(raise(998, 999), 999);
    assert_eq!(raise(999, 999), 999);
    assert_eq!(raise(5000, 999), 999);
    assert_eq!(raise(i32::MAX, i32::MAX), i32::MAX);
    assert_eq!(raise(0, 0), 0);
}

#[test]
fn configured_maximum_bounds_the_score() {
    let mut config = Config::default();
    config.max_score = 3;
    let mut scores = initialise_scoreboard();
    for _ in 0..10 {
        let mut lost = ball(units(1, 0), units(50, 0), -units(75, 0), units(50, 0));
        WinnerSystem.run(&mut lost, &mut scores, &config);
    }
    assert_eq!(scores, ScoreBoard { score_left: 0, score_right: 3 });
}
