use vstd::prelude::*;

use crate::ball::advance_spec;
use crate::ball::ball_wf;
use crate::ball::fresh_dir_ok;
use crate::ball::Ball;
use crate::config::Config;
use crate::config::ConfigView;
use crate::paddle::moved_y;
use crate::paddle::MoveDir;
use crate::paddle::Paddle;
use crate::rng::random_in_range;
use crate::vec2::Vec2i;
use crate::vec2::Vec2View;

verus! {

/// The movement commands active for both players during one frame, as the
/// host's input layer observed them.
#[derive(Clone, Copy, Debug, PartialEq, Eq, Structural)]
pub struct InputState {
    pub p1_up: bool,
    pub p1_down: bool,
    pub p2_up: bool,
    pub p2_down: bool,
}

/// Where a paddle at `y` stands after one frame's commands: at most one
/// command per paddle is honored, and "up" wins when both are signaled.
pub open spec fn commanded_y(c: ConfigView, y: int, up: bool, down: bool) -> int {
    if up {
        moved_y(c, y, MoveDir::Up)
    } else if down {
        moved_y(c, y, MoveDir::Down)
    } else {
        y
    }
}

/// The whole match: one ball and two paddles, player 1 guarding the left
/// edge and player 2 the right, updated once per frame against a fixed
/// configuration. `elapsed` records the duration the host last reported; the
/// physics never reads it — speeds are per frame, not per second.
#[derive(Clone, Copy, Debug, PartialEq, Eq, Structural)]
pub struct GameState {
    pub config: Config,
    pub elapsed: u64,
    pub player1: Paddle,
    pub player2: Paddle,
    pub ball: Ball,
}

impl GameState {
    /// The whole state is well formed: the configuration, both paddles and
    /// the ball.
    pub open spec fn wf(self) -> bool {
        &&& self.config@.wf()
        &&& self.player1.wf(self.config@)
        &&& self.player2.wf(self.config@)
        &&& ball_wf(self.config@, self.ball@)
    }

    /// A fresh match: both paddles vertically centered with no points, the
    /// ball at the field's center with a freshly drawn direction.
    pub fn new(cfg: Config) -> (g: GameState)
        requires
            cfg@.wf(),
        ensures
            g.config == cfg,
            g.elapsed == 0,
            g.player1@.y == cfg@.paddle_start_y(),
            g.player1@.score == 0,
            g.player2@.y == cfg@.paddle_start_y(),
            g.player2@.score == 0,
            g.ball@.pos.x == cfg@.center_x(),
            g.ball@.pos.y == cfg@.center_y(),
            fresh_dir_ok(cfg@, g.ball@.dir),
            g.wf(),
    {
        GameState {
            config: cfg,
            elapsed: 0,
            player1: Paddle::new(&cfg),
            player2: Paddle::new(&cfg),
            ball: Ball::new(&cfg),
        }
    }

    /// One frame with the reset directions supplied by the caller. It
    /// records the elapsed time, honors at most one command per paddle (up
    /// over down), left paddle first, and then advances the ball against the
    /// paddles' new positions — so a collision this frame is decided by
    /// where a paddle moved to, before the ball's own integration.
    pub fn update_with(&mut self, elapsed: u64, input: InputState, dl: Vec2i, dr: Vec2i)
        requires
            old(self).wf(),
            fresh_dir_ok(old(self).config@, dl@),
            fresh_dir_ok(old(self).config@, dr@),
            old(self).player1@.score < u64::MAX,
            old(self).player2@.score < u64::MAX,
        ensures
            final(self).config == old(self).config,
            final(self).elapsed == elapsed,
            final(self).player1@.y == commanded_y(
                old(self).config@,
                old(self).player1@.y,
                input.p1_up,
                input.p1_down,
            ),
            final(self).player2@.y == commanded_y(
                old(self).config@,
                old(self).player2@.y,
                input.p2_up,
                input.p2_down,
            ),
            final(self).ball@ == advance_spec(
                old(self).config@,
                old(self).ball@,
                commanded_y(old(self).config@, old(self).player1@.y, input.p1_up, input.p1_down),
                commanded_y(old(self).config@, old(self).player2@.y, input.p2_up, input.p2_down),
                dl@,
                dr@,
            ).ball,
            final(self).player1@.score == old(self).player1@.score + (if advance_spec(
                old(self).config@,
                old(self).ball@,
                commanded_y(old(self).config@, old(self).player1@.y, input.p1_up, input.p1_down),
                commanded_y(old(self).config@, old(self).player2@.y, input.p2_up, input.p2_down),
                dl@,
                dr@,
            ).p1_scored {
                1int
            } else {
                0int
            }),
            final(self).player2@.score == old(self).player2@.score + (if advance_spec(
                old(self).config@,
                old(self).ball@,
                commanded_y(old(self).config@, old(self).player1@.y, input.p1_up, input.p1_down),
                commanded_y(old(self).config@, old(self).player2@.y, input.p2_up, input.p2_down),
                dl@,
                dr@,
            ).p2_scored {
                1int
            } else {
                0int
            }),
            final(self).wf(),
    {
        let cfg: Config = self.config;
        self.elapsed = elapsed;
        if input.p1_up {
            self.player1.update_position(&cfg, MoveDir::Up);
        } else if input.p1_down {
            self.player1.update_position(&cfg, MoveDir::Down);
        }
        if input.p2_up {
            self.player2.update_position(&cfg, MoveDir::Up);
        } else if input.p2_down {
            self.player2.update_position(&cfg, MoveDir::Down);
        }
        self.ball.move_ball_with(&cfg, &mut self.player1, &mut self.player2, dl, dr);
    }

    /// One frame with the reset directions drawn from the random source.
    /// The paddles' moves and the recording of the elapsed time are exact;
    /// the ball and the scores match one `advance_spec` outcome for some
    /// pair of in-range fresh directions.
    pub fn update(&mut self, elapsed: u64, input: InputState)
        requires
            old(self).wf(),
            old(self).player1@.score < u64::MAX,
            old(self).player2@.score < u64::MAX,
        ensures
            final(self).config == old(self).config,
            final(self).elapsed == elapsed,
            final(self).player1@.y == commanded_y(
                old(self).config@,
                old(self).player1@.y,
                input.p1_up,
                input.p1_down,
            ),
            final(self).player2@.y == commanded_y(
                old(self).config@,
                old(self).player2@.y,
                input.p2_up,
                input.p2_down,
            ),
            old(self).player1@.score <= final(self).player1@.score <= old(self).player1@.score
                + 1,
            old(self).player2@.score <= final(self).player2@.score <= old(self).player2@.score
                + 1,
            final(self).wf(),
            exists|dl: Vec2View, dr: Vec2View|
                {
                    &&& fresh_dir_ok(old(self).config@, dl)
                    &&& fresh_dir_ok(old(self).config@, dr)
                    &&& final(self).ball@ == (#[trigger] advance_spec(
                        old(self).config@,
                        old(self).ball@,
                        commanded_y(
                            old(self).config@,
                            old(self).player1@.y,
                            input.p1_up,
                            input.p1_down,
                        ),
                        commanded_y(
                            old(self).config@,
                            old(self).player2@.y,
                            input.p2_up,
                            input.p2_down,
                        ),
                        dl,
                        dr,
                    )).ball
                    &&& final(self).player1@.score == old(self).player1@.score + (if advance_spec(
                        old(self).config@,
                        old(self).ball@,
                        commanded_y(
                            old(self).config@,
                            old(self).player1@.y,
                            input.p1_up,
                            input.p1_down,
                        ),
                        commanded_y(
                            old(self).config@,
                            old(self).player2@.y,
                            input.p2_up,
                            input.p2_down,
                        ),
                        dl,
                        dr,
                    ).p1_scored {
                        1int
                    } else {
                        0int
                    })
                    &&& final(self).player2@.score == old(self).player2@.score + (if advance_spec(
                        old(self).config@,
                        old(self).ball@,
                        commanded_y(
                            old(self).config@,
                            old(self).player1@.y,
                            input.p1_up,
                            input.p1_down,
                        ),
                        commanded_y(
                            old(self).config@,
                            old(self).player2@.y,
                            input.p2_up,
                            input.p2_down,
                        ),
                        dl,
                        dr,
                    ).p2_scored {
                        1int
                    } else {
                        0int
                    })
                },
    {
        let dlx: i32 = random_in_range(0, self.config.dir_range);
        let dly: i32 = random_in_range(0, self.config.dir_range);
        let drx: i32 = random_in_range(0, self.config.dir_range);
        let dry: i32 = random_in_range(0, self.config.dir_range);
        self.update_with(elapsed, input, Vec2i::new(dlx, dly), Vec2i::new(drx, dry));
    }
}

} // verus!
