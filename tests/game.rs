use pong::{Ball, Config, ConfigError, Intent, Match, Player, Score, SERVE_SCALE};
use rand::rngs::StdRng;
use rand::SeedableRng;

fn ball_at(x: i64, y: i64, dir_x: i64, dir_y: i64, speed: u32) -> Ball {
    Ball { x, y, dir_x, dir_y, speed, half_size: 25, in_collision_one: false, in_collision_two: false }
}

/// The standard table in whole pixels.
fn table() -> Config {
    Config {
        top: 200,
        bottom: -200,
        left: -500,
        right: 500,
        paddle_speed: 300,
        ball_serve_speed: 150,
        paddle_half_width: 25,
        paddle_half_height: 25,
        ball_half_size: 25,
        paddle_one_x: -250,
        paddle_two_x: 250,
    }
}

fn zero() -> Score {
    Score { player_one_points: 0, player_two_points: 0 }
}

#[test]
fn standard_config_values() {
    let c = Config::standard();
    assert_eq!((c.top, c.bottom, c.left, c.right), (200_000, -200_000, -500_000, 500_000));
    assert_eq!((c.paddle_speed, c.ball_serve_speed), (300_000, 150_000));
    assert_eq!((c.paddle_half_width, c.paddle_half_height, c.ball_half_size), (25_000, 25_000, 25_000));
    assert_eq!((c.paddle_one_x, c.paddle_two_x), (-250_000, 250_000));
}

#[test]
fn new_match_initial_state() {
    let m = Match::new(&table()).unwrap();
    let b = m.ball();
    assert_eq!((b.x, b.y, b.dir_x, b.dir_y, b.speed), (0, 0, 1, 1, 150));
    assert_eq!(m.score(), zero());
    assert_eq!((m.paddle_one().x, m.paddle_one().center_y), (-250, 0));
    assert_eq!((m.paddle_two().x, m.paddle_two().center_y), (250, 0));
    assert_eq!(m.paddle_one().owner, Player::PlayerOne);
    assert_eq!(m.paddle_two().owner, Player::PlayerTwo);
    assert_eq!(m.arena().top, 200);
}

#[test]
fn config_errors() {
    let mut c = table();
    c.top = -200;
    assert_eq!(Match::new(&c), Err(ConfigError::InvalidArena));
    let mut c = table();
    c.right = -500;
    assert_eq!(Match::new(&c), Err(ConfigError::InvalidArena));
    let mut c = table();
    c.paddle_half_width = 0;
    assert_eq!(Match::new(&c), Err(ConfigError::NonPositiveExtent));
    let mut c = table();
    c.ball_half_size = -1;
    assert_eq!(Match::new(&c), Err(ConfigError::NonPositiveExtent));
    let mut c = table();
    c.paddle_half_height = 201;
    assert_eq!(Match::new(&c), Err(ConfigError::PaddleTooTall));
    c.paddle_half_height = 200;
    assert!(Match::new(&c).is_ok());
    let c = table();
    assert_eq!(Match::resume(&c, ball_at(0, 0, 0, 0, 150), zero()), Err(ConfigError::InvalidBall));
}

#[test]
fn paddles_start_inside_an_arena_away_from_the_origin() {
    let mut c = table();
    c.top = 400;
    c.bottom = 100;
    let m = Match::new(&c).unwrap();
    assert_eq!(m.paddle_one().center_y, 125);
}

#[test]
fn scenario_first_second_then_top_bounce() {
    let mut m = Match::new(&table()).unwrap();
    m.advance(Intent::Stay, Intent::Stay, 1000, 0);
    let b = m.ball();
    assert_eq!((b.x, b.y), (150, 150));
    assert_eq!((b.dir_x, b.dir_y), (1, 1));
    m.advance(Intent::Stay, Intent::Stay, 500, 0);
    let b = m.ball();
    assert_eq!((b.x, b.y), (225, 225));
    assert_eq!((b.dir_x, b.dir_y), (1, -1));
    assert_eq!(m.score(), zero());
}

#[test]
fn free_flight_tick() {
    let mut m = Match::resume(&table(), ball_at(10, 20, 1000, -400, 200), zero()).unwrap();
    m.advance(Intent::MoveUp, Intent::MoveDown, 100, 0);
    let b = m.ball();
    assert_eq!((b.x, b.y, b.dir_x, b.dir_y, b.speed), (30, 12, 1000, -400, 200));
    assert_eq!(m.paddle_one().center_y, 30);
    assert_eq!(m.paddle_two().center_y, -30);
}

#[test]
fn goal_on_left_scores_once_and_serves() {
    let mut m = Match::resume(&table(), ball_at(-490, 0, -1, 0, 150), zero()).unwrap();
    m.advance(Intent::Stay, Intent::Stay, 100, 250);
    assert_eq!(m.score(), Score { player_one_points: 0, player_two_points: 1 });
    let b = m.ball();
    assert_eq!((b.x, b.y, b.dir_x, b.dir_y, b.speed), (0, 0, SERVE_SCALE, 250, 150));
    m.advance(Intent::Stay, Intent::Stay, 100, 0);
    assert_eq!(m.score(), Score { player_one_points: 0, player_two_points: 1 });
}

#[test]
fn goal_on_right_scores_for_player_one() {
    let mut b = ball_at(495, 0, 1, 0, 150);
    b.speed = 100;
    let mut m = Match::resume(&table(), b, Score { player_one_points: 4, player_two_points: 2 }).unwrap();
    m.advance(Intent::Stay, Intent::Stay, 100, -1000);
    assert_eq!(m.score(), Score { player_one_points: 5, player_two_points: 2 });
    let b = m.ball();
    assert_eq!((b.x, b.y, b.dir_x, b.dir_y, b.speed), (0, 0, -SERVE_SCALE, -1000, 150));
}

#[test]
fn serve_uses_the_configured_speed() {
    let mut m = Match::resume(&table(), ball_at(-490, 0, -1, 0, 900), zero()).unwrap();
    m.advance(Intent::Stay, Intent::Stay, 100, 0);
    assert_eq!(m.ball().speed, 150);
}

#[test]
fn paddle_bounce_in_a_match_is_debounced() {
    let mut m = Match::resume(&table(), ball_at(-230, 0, -1, 1, 0), zero()).unwrap();
    m.advance(Intent::Stay, Intent::Stay, 16, 0);
    assert_eq!((m.ball().dir_x, m.ball().dir_y), (1, -1));
    for _ in 0..20 {
        m.advance(Intent::Stay, Intent::Stay, 16, 0);
        assert_eq!((m.ball().dir_x, m.ball().dir_y), (1, -1));
        assert!(m.ball().in_collision_one);
    }
}

#[test]
fn moving_up_pins_the_paddle_at_the_top() {
    let mut m = Match::new(&table()).unwrap();
    for _ in 0..200 {
        m.advance(Intent::MoveUp, Intent::Stay, 16, 0);
        assert!(m.paddle_one().center_y <= 175);
    }
    assert_eq!(m.paddle_one().center_y, 175);
    for _ in 0..50 {
        m.advance(Intent::MoveUp, Intent::Stay, 33, 0);
        assert_eq!(m.paddle_one().center_y, 175);
    }
}

#[test]
fn can_advance_checks_the_score_limit() {
    let m = Match::resume(&table(), ball_at(0, 0, 1, 1, 150), zero()).unwrap();
    assert!(m.can_advance(16));
    let full = Score { player_one_points: u64::MAX, player_two_points: 0 };
    let m = Match::resume(&table(), ball_at(0, 0, 1, 1, 150), full).unwrap();
    assert!(!m.can_advance(16));
}

#[test]
fn score_for_adds_one_point() {
    let mut s = zero();
    s.score_for(Player::PlayerOne);
    s.score_for(Player::PlayerTwo);
    s.score_for(Player::PlayerTwo);
    assert_eq!(s, Score { player_one_points: 1, player_two_points: 2 });
}

fn intents(i: u32) -> (Intent, Intent) {
    let one = match i % 7 {
        0 | 1 | 2 => Intent::MoveUp,
        3 | 4 => Intent::MoveDown,
        _ => Intent::Stay,
    };
    let two = match i % 5 {
        0 | 1 => Intent::MoveDown,
        2 => Intent::MoveUp,
        _ => Intent::Stay,
    };
    (one, two)
}

#[test]
fn same_seed_same_match() {
    let mut a = Match::new(&Config::standard()).unwrap();
    let mut b = Match::new(&Config::standard()).unwrap();
    let mut ra = StdRng::seed_from_u64(42);
    let mut rb = StdRng::seed_from_u64(42);
    for i in 0..5000u32 {
        let (one, two) = intents(i);
        let dt = 10 + (i % 13) * 3;
        a.advance_with_rng(one, two, dt, &mut ra);
        b.advance_with_rng(one, two, dt, &mut rb);
        assert_eq!(a, b);
    }
    let s = a.score();
    assert!(s.player_one_points + s.player_two_points > 0);
}

#[test]
fn random_serves_stay_in_range_and_vary() {
    let mut rng = StdRng::seed_from_u64(3);
    let mut seen = Vec::new();
    for _ in 0..20 {
        let mut m = Match::resume(&table(), ball_at(-490, 0, -1, 0, 150), zero()).unwrap();
        m.advance_with_rng(Intent::Stay, Intent::Stay, 100, &mut rng);
        let b = m.ball();
        assert_eq!((b.x, b.y, b.dir_x), (0, 0, SERVE_SCALE));
        assert!(-SERVE_SCALE <= b.dir_y && b.dir_y < SERVE_SCALE);
        seen.push(b.dir_y);
    }
    assert!(seen.iter().any(|&y| y != seen[0]));
    assert!(seen.iter().any(|&y| y != -SERVE_SCALE));
}

#[test]
fn no_goal_leaves_the_random_source_alone() {
    let mut m = Match::new(&table()).unwrap();
    let mut used = StdRng::seed_from_u64(9);
    let fresh = StdRng::seed_from_u64(9);
    m.advance_with_rng(Intent::Stay, Intent::Stay, 16, &mut used);
    assert_eq!(used, fresh);
}

#[test]
fn standard_table_keeps_pace_at_sixty_hertz() {
    let mut m = Match::new(&Config::standard()).unwrap();
    for i in 0..60u32 {
        let dt = if i % 3 == 0 { 16 } else { 17 };
        m.advance(Intent::MoveUp, Intent::Stay, dt, 0);
    }
    let b = m.ball();
    assert_eq!((b.x, b.y), (150_000, 150_000));
    assert_eq!(m.paddle_one().center_y, 175_000);
    assert_eq!(m.paddle_two().center_y, 0);
}
