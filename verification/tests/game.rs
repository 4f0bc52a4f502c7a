use pong_core::ball::Ball;
use pong_core::config::Config;
use pong_core::game::GameState;
use pong_core::game::InputState;
use pong_core::paddle::Paddle;
use pong_core::vec2::Vec2i;

fn test_config() -> Config {
    Config {
        field_width: 800,
        field_height: 600,
        paddle_width: 20,
        paddle_height: 100,
        buffer: 10,
        bat_speed: 10,
        ball_speed: 10,
        ball_radius: 7,
        dir_range: 2,
    }
}

fn no_input() -> InputState {
    InputState { p1_up: false, p1_down: false, p2_up: false, p2_down: false }
}

fn zero() -> Vec2i {
    Vec2i::new(0, 0)
}

fn game_with_ball(ball: Ball) -> GameState {
    GameState {
        config: test_config(),
        elapsed: 0,
        player1: Paddle { y: 250, score: 0 },
        player2: Paddle { y: 250, score: 0 },
        ball,
    }
}

#[test]
fn new_game_is_centered_and_scoreless() {
    let g = GameState::new(test_config());
    assert_eq!(g.player1.y, 250);
    assert_eq!(g.player2.y, 250);
    assert_eq!(g.player1.score, 0);
    assert_eq!(g.player2.score, 0);
    assert_eq!(g.ball.position, Vec2i::new(400, 300));
    assert!(0 <= g.ball.direction.x && g.ball.direction.x < 2);
    assert!(0 <= g.ball.direction.y && g.ball.direction.y < 2);
    assert_eq!(g.elapsed, 0);
}

#[test]
fn update_records_elapsed_time() {
    let mut g = GameState::new(test_config());
    g.ball = Ball { position: Vec2i::new(400, 300), direction: Vec2i::new(1, 1) };
    g.update(16, no_input());
    assert_eq!(g.elapsed, 16);
    g.update_with(17, no_input(), zero(), zero());
    assert_eq!(g.elapsed, 17);
}

#[test]
fn up_wins_when_both_commands_are_signaled() {
    let mut g = game_with_ball(Ball { position: Vec2i::new(400, 300), direction: Vec2i::new(1, 1) });
    let input = InputState { p1_up: true, p1_down: true, p2_up: false, p2_down: true };
    g.update_with(1, input, zero(), zero());
    assert_eq!(g.player1.y, 240);
    assert_eq!(g.player2.y, 260);
}

#[test]
fn paddles_move_before_the_ball_is_checked() {
    // The ball enters the left zone at y == 245. The paddle starts at 250,
    // so its pre-move span [250, 350] misses the ball; commanded up in the
    // same frame it reaches 240, whose span [240, 340] overlaps. The bounce
    // shows the collision used the position after this frame's paddle move.
    let ball = Ball { position: Vec2i::new(15, 245), direction: Vec2i::new(-1, 0) };
    let mut g = game_with_ball(ball);
    let input = InputState { p1_up: true, p1_down: false, p2_up: false, p2_down: false };
    g.update_with(1, input, zero(), zero());
    assert_eq!(g.player1.y, 240);
    assert_eq!(g.ball.direction, Vec2i::new(1, 0));
    assert_eq!(g.ball.position, Vec2i::new(25, 245));
    assert_eq!(g.player1.score, 0);
    assert_eq!(g.player2.score, 0);
}

#[test]
fn without_the_move_the_same_frame_is_a_miss() {
    // The companion of the order-sensitivity frame: with no command the
    // paddle stays at 250 and the same ball scores for player 2.
    let ball = Ball { position: Vec2i::new(15, 245), direction: Vec2i::new(-1, 0) };
    let mut g = game_with_ball(ball);
    g.update_with(1, no_input(), zero(), zero());
    assert_eq!(g.player1.y, 250);
    assert_eq!(g.player2.score, 1);
    assert_eq!(g.player1.score, 0);
    assert_eq!(g.ball.position, Vec2i::new(400, 300));
}

#[test]
fn a_miss_scores_exactly_once_per_frame() {
    let ball = Ball { position: Vec2i::new(15, 500), direction: Vec2i::new(-1, 0) };
    let mut g = game_with_ball(ball);
    g.update_with(1, no_input(), zero(), zero());
    assert_eq!(g.player2.score, 1);
    assert_eq!(g.player1.score, 0);
    // The next frame starts from the recentered ball: no further score.
    g.update_with(2, no_input(), zero(), zero());
    assert_eq!(g.player2.score, 1);
    assert_eq!(g.player1.score, 0);
}

#[test]
fn scores_are_monotonic_over_random_frames() {
    let mut g = GameState::new(test_config());
    let mut last = (0u64, 0u64);
    for i in 0..500u64 {
        let input = InputState {
            p1_up: i % 3 == 0,
            p1_down: i % 5 == 0,
            p2_up: i % 7 == 0,
            p2_down: i % 2 == 0,
        };
        g.update(i, input);
        assert!(10 <= g.player1.y && g.player1.y <= 480);
        assert!(10 <= g.player2.y && g.player2.y <= 480);
        assert!(g.player1.score >= last.0);
        assert!(g.player2.score >= last.1);
        assert!(g.player1.score <= last.0 + 1);
        assert!(g.player2.score <= last.1 + 1);
        last = (g.player1.score, g.player2.score);
    }
}
