use pong_core::ball::Ball;
use pong_core::config::Config;
use pong_core::paddle::Paddle;
use pong_core::vec2::Vec2i;

fn test_config() -> Config {
    Config {
        field_width: 800,
        field_height: 600,
        paddle_width: 20,
        paddle_height: 100,
        buffer: 10,
        bat_speed: 10,
        ball_speed: 10,
        ball_radius: 7,
        dir_range: 2,
    }
}

fn centered_paddles() -> (Paddle, Paddle) {
    (Paddle { y: 250, score: 0 }, Paddle { y: 250, score: 0 })
}

fn zero() -> Vec2i {
    Vec2i::new(0, 0)
}

#[test]
fn wall_reflection_flips_at_top() {
    let cfg = test_config();
    let (mut p1, mut p2) = centered_paddles();
    // One unit inside the top wall band (radius 7).
    let mut b = Ball { position: Vec2i::new(400, 6), direction: Vec2i::new(1, -1) };
    b.move_ball_with(&cfg, &mut p1, &mut p2, zero(), zero());
    assert_eq!(b.direction.y, 1);
    assert_eq!(b.position, Vec2i::new(410, 16));
}

#[test]
fn wall_reflection_is_not_repeated_after_leaving() {
    let cfg = test_config();
    let (mut p1, mut p2) = centered_paddles();
    let mut b = Ball { position: Vec2i::new(400, 6), direction: Vec2i::new(1, -1) };
    b.move_ball_with(&cfg, &mut p1, &mut p2, zero(), zero());
    // The flip moved the ball out of the band; the next frame must not
    // flip the vertical direction back.
    assert!(b.position.y >= 7);
    b.move_ball_with(&cfg, &mut p1, &mut p2, zero(), zero());
    assert_eq!(b.direction.y, 1);
    assert_eq!(b.position, Vec2i::new(420, 26));
}

#[test]
fn wall_reflection_needs_strictly_less_than_radius() {
    let cfg = test_config();
    let (mut p1, mut p2) = centered_paddles();
    // Exactly at the boundary: y == radius does not trigger the check.
    let mut b = Ball { position: Vec2i::new(400, 7), direction: Vec2i::new(1, -1) };
    b.move_ball_with(&cfg, &mut p1, &mut p2, zero(), zero());
    assert_eq!(b.direction.y, -1);
    assert_eq!(b.position, Vec2i::new(410, -3));
}

#[test]
fn wall_reflection_ignores_one_step_outside() {
    let cfg = test_config();
    let (mut p1, mut p2) = centered_paddles();
    let mut b = Ball { position: Vec2i::new(400, 8), direction: Vec2i::new(1, -1) };
    b.move_ball_with(&cfg, &mut p1, &mut p2, zero(), zero());
    assert_eq!(b.direction.y, -1);
    assert_eq!(b.position, Vec2i::new(410, -2));
}

#[test]
fn wall_reflection_flips_at_bottom() {
    let cfg = test_config();
    let (mut p1, mut p2) = centered_paddles();
    // field_height - radius == 593; 594 is inside the bottom band.
    let mut b = Ball { position: Vec2i::new(400, 594), direction: Vec2i::new(1, 1) };
    b.move_ball_with(&cfg, &mut p1, &mut p2, zero(), zero());
    assert_eq!(b.direction.y, -1);
    assert_eq!(b.position, Vec2i::new(410, 584));
}

#[test]
fn bounce_flips_horizontal_and_keeps_vertical() {
    let cfg = test_config();
    let (mut p1, mut p2) = centered_paddles();
    // Left zone is x < 30; paddle 1 spans [250, 350] and the ball's y is 300.
    let mut b = Ball { position: Vec2i::new(15, 300), direction: Vec2i::new(-1, 1) };
    b.move_ball_with(&cfg, &mut p1, &mut p2, zero(), zero());
    assert_eq!(b.direction, Vec2i::new(1, 1));
    assert_eq!(b.position, Vec2i::new(25, 310));
    assert_eq!(p1.score, 0);
    assert_eq!(p2.score, 0);
}

#[test]
fn bounce_off_right_paddle() {
    let cfg = test_config();
    let (mut p1, mut p2) = centered_paddles();
    // Right zone is x > 770.
    let mut b = Ball { position: Vec2i::new(785, 300), direction: Vec2i::new(1, 0) };
    b.move_ball_with(&cfg, &mut p1, &mut p2, zero(), zero());
    assert_eq!(b.direction, Vec2i::new(-1, 0));
    assert_eq!(b.position, Vec2i::new(775, 300));
    assert_eq!(p1.score, 0);
    assert_eq!(p2.score, 0);
}

#[test]
fn end_to_end_bounce_scenario() {
    // Field 800x600, ball at (15, 300) heading (-1, 0), left paddle
    // spanning [250, 350]: one frame flips the x direction to +1, leaves y
    // alone, moves the ball one step, and nobody scores.
    let cfg = test_config();
    let (mut p1, mut p2) = centered_paddles();
    let mut b = Ball { position: Vec2i::new(15, 300), direction: Vec2i::new(-1, 0) };
    b.move_ball_with(&cfg, &mut p1, &mut p2, zero(), zero());
    assert_eq!(b.direction, Vec2i::new(1, 0));
    assert_eq!(b.position, Vec2i::new(15 + 10, 300));
    assert_eq!(p1.score, 0);
    assert_eq!(p2.score, 0);
}

#[test]
fn miss_scores_for_the_other_player_and_resets() {
    // Same setup, but the left paddle spans [0, 50]: no overlap at y == 300,
    // so player 2 scores once and the ball is recentered with the fresh
    // direction, all within the same frame.
    let mut cfg = test_config();
    cfg.paddle_height = 50;
    assert!(cfg.valid());
    let mut p1 = Paddle { y: 0, score: 0 };
    let mut p2 = Paddle { y: 250, score: 0 };
    let mut b = Ball { position: Vec2i::new(15, 300), direction: Vec2i::new(-1, 0) };
    b.move_ball_with(&cfg, &mut p1, &mut p2, zero(), Vec2i::new(1, 1));
    assert_eq!(p2.score, 1);
    assert_eq!(p1.score, 0);
    assert_eq!(b.position, Vec2i::new(400, 300));
    // The direction was redrawn, not kept.
    assert_eq!(b.direction, Vec2i::new(0, 0));
}

#[test]
fn miss_of_right_paddle_scores_for_player_one() {
    let mut cfg = test_config();
    cfg.paddle_height = 50;
    let mut p1 = Paddle { y: 250, score: 0 };
    let mut p2 = Paddle { y: 0, score: 0 };
    let mut b = Ball { position: Vec2i::new(785, 300), direction: Vec2i::new(1, 0) };
    b.move_ball_with(&cfg, &mut p1, &mut p2, Vec2i::new(1, 1), zero());
    assert_eq!(p1.score, 1);
    assert_eq!(p2.score, 0);
    assert_eq!(b.position, Vec2i::new(400, 300));
    assert_eq!(b.direction, Vec2i::new(0, 0));
}

#[test]
fn integration_acts_on_the_reset_state() {
    // A nonzero fresh direction shows that the frame's position integration
    // runs after the reset: the observed position is the center moved one
    // step by the fresh direction, not the old trajectory's point.
    let mut cfg = test_config();
    cfg.paddle_height = 50;
    let mut p1 = Paddle { y: 0, score: 0 };
    let mut p2 = Paddle { y: 250, score: 0 };
    let mut b = Ball { position: Vec2i::new(15, 300), direction: Vec2i::new(-1, 0) };
    b.move_ball_with(&cfg, &mut p1, &mut p2, Vec2i::new(1, 1), zero());
    assert_eq!(p2.score, 1);
    assert_eq!(b.position, Vec2i::new(410, 310));
    assert_eq!(b.direction, Vec2i::new(1, 1));
}

#[test]
fn free_flight_moves_by_direction_times_speed() {
    let cfg = test_config();
    let (mut p1, mut p2) = centered_paddles();
    let mut b = Ball { position: Vec2i::new(400, 300), direction: Vec2i::new(1, 1) };
    // Away from walls and zones the frame is deterministic even through the
    // randomized entry point.
    b.move_ball(&cfg, &mut p1, &mut p2);
    assert_eq!(b.position, Vec2i::new(410, 310));
    assert_eq!(b.direction, Vec2i::new(1, 1));
    assert_eq!(p1.score, 0);
    assert_eq!(p2.score, 0);
}

#[test]
fn fresh_directions_are_drawn_within_range() {
    let mut cfg = test_config();
    cfg.dir_range = 1000;
    let mut seen_distinct = false;
    let first = Ball::new(&cfg);
    for _ in 0..40 {
        let b = Ball::new(&cfg);
        assert_eq!(b.position, Vec2i::new(400, 300));
        assert!(0 <= b.direction.x && b.direction.x < 1000);
        assert!(0 <= b.direction.y && b.direction.y < 1000);
        if b.direction != first.direction {
            seen_distinct = true;
        }
    }
    // A source that always handed back one of its bounds would fail this.
    assert!(seen_distinct);
}

#[test]
fn reset_recenters_and_redraws() {
    let cfg = test_config();
    let mut b = Ball { position: Vec2i::new(15, 300), direction: Vec2i::new(-1, 0) };
    b.reset_ball(&cfg);
    assert_eq!(b.position, Vec2i::new(400, 300));
    assert!(0 <= b.direction.x && b.direction.x < 2);
    assert!(0 <= b.direction.y && b.direction.y < 2);
}
