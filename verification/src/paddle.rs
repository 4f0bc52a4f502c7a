use vstd::prelude::*;

use crate::config::Config;
use crate::config::ConfigView;

verus! {

/// A discrete movement command for one paddle.
#[derive(Clone, Copy, Debug, PartialEq, Eq, Structural)]
pub enum MoveDir {
    Up,
    Down,
}

/// One player's paddle: the y of its top edge (its x is fixed by which side
/// it guards) and that player's score.
#[derive(Clone, Copy, Debug, PartialEq, Eq, Structural)]
pub struct Paddle {
    pub y: i32,
    pub score: u64,
}

/// The mathematical value of a `Paddle`.
pub ghost struct PaddleView {
    pub y: int,
    pub score: int,
}

impl View for Paddle {
    type V = PaddleView;

    open spec fn view(&self) -> PaddleView {
        PaddleView { y: self.y as int, score: self.score as int }
    }
}

/// Where a paddle at `y` stands after one command: it steps `bat_speed`
/// toward the requested edge, then is clamped into
/// `[buffer, paddle_max_y()]`.
pub open spec fn moved_y(c: ConfigView, y: int, dir: MoveDir) -> int {
    let stepped = if dir == MoveDir::Up {
        y - c.bat_speed
    } else {
        y + c.bat_speed
    };
    if stepped < c.buffer {
        c.buffer
    } else if stepped > c.paddle_max_y() {
        c.paddle_max_y()
    } else {
        stepped
    }
}

/// Clamping is total: wherever a paddle starts, one command leaves its y
/// inside `[buffer, paddle_max_y()]`, so no sequence of moves can drive it
/// out of the field.
pub proof fn lemma_move_clamped(c: ConfigView, y: int, dir: MoveDir)
    requires
        c.wf(),
    ensures
        c.buffer <= moved_y(c, y, dir) <= c.paddle_max_y(),
{
}

impl Paddle {
    /// The paddle sits inside its travel range.
    pub open spec fn wf(self, c: ConfigView) -> bool {
        c.buffer <= self@.y <= c.paddle_max_y()
    }

    /// A paddle vertically centered on the field — its top edge at
    /// `(field_height - paddle_height) / 2`, so the rectangle's middle sits
    /// at mid-field — with no points yet.
    pub fn new(cfg: &Config) -> (p: Paddle)
        requires
            cfg@.wf(),
        ensures
            p@.y == cfg@.paddle_start_y(),
            p@.score == 0,
            p.wf(cfg@),
    {
        Paddle { y: (cfg.field_height - cfg.paddle_height) / 2, score: 0 }
    }

    /// Applies one movement command: steps `bat_speed` in the requested
    /// direction, then clamps into the travel range. The score is untouched,
    /// and this operation cannot fail.
    pub fn update_position(&mut self, cfg: &Config, dir: MoveDir)
        requires
            cfg@.wf(),
            old(self).wf(cfg@),
        ensures
            final(self)@.y == moved_y(cfg@, old(self)@.y, dir),
            final(self)@.score == old(self)@.score,
            final(self).wf(cfg@),
    {
        let stepped: i32 = match dir {
            MoveDir::Up => self.y - cfg.bat_speed,
            MoveDir::Down => self.y + cfg.bat_speed,
        };
        let max_y: i32 = cfg.field_height - cfg.paddle_height - 2 * cfg.buffer;
        if stepped < cfg.buffer {
            self.y = cfg.buffer;
        } else if stepped > max_y {
            self.y = max_y;
        } else {
            self.y = stepped;
        }
    }
}

} // verus!
