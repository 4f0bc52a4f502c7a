use vstd::prelude::*;

use crate::config::Config;
use crate::config::ConfigView;
use crate::paddle::Paddle;
use crate::rng::random_in_range;
use crate::vec2::Vec2i;
use crate::vec2::Vec2View;

verus! {

/// The ball: the center of a circle of radius `Config::ball_radius`, and a
/// direction vector whose component signs encode the travel direction along
/// each axis. Each frame the position moves by `direction * ball_speed`.
/// A freshly drawn direction may be zero on one or both axes — a known edge
/// case in which the ball travels along one axis only, or stops until the
/// next score; nothing redraws such a vector.
#[derive(Clone, Copy, Debug, PartialEq, Eq, Structural)]
pub struct Ball {
    pub position: Vec2i,
    pub direction: Vec2i,
}

/// The mathematical value of a `Ball`.
pub ghost struct BallView {
    pub pos: Vec2View,
    pub dir: Vec2View,
}

impl View for Ball {
    type V = BallView;

    open spec fn view(&self) -> BallView {
        BallView { pos: self.position@, dir: self.direction@ }
    }
}

/// What one frame did to the ball and to the two scores.
pub ghost struct AdvanceView {
    pub ball: BallView,
    /// Player 1 (left) gained a point: the ball passed the right paddle.
    pub p1_scored: bool,
    /// Player 2 (right) gained a point: the ball passed the left paddle.
    pub p2_scored: bool,
}

/// The ball stands within one radius of the top or bottom edge.
pub open spec fn hits_wall(c: ConfigView, b: BallView) -> bool {
    b.pos.y < c.ball_radius || b.pos.y > c.field_height - c.ball_radius
}

/// The ball's x is in the thin band guarded by the left paddle.
pub open spec fn in_left_zone(c: ConfigView, b: BallView) -> bool {
    b.pos.x < c.zone_left()
}

/// The ball's x is in the thin band guarded by the right paddle.
pub open spec fn in_right_zone(c: ConfigView, b: BallView) -> bool {
    b.pos.x > c.zone_right()
}

/// The ball's y lies within the vertical extent of a paddle whose top edge
/// is at `paddle_y`, both ends inclusive.
pub open spec fn overlaps(c: ConfigView, paddle_y: int, ball_y: int) -> bool {
    paddle_y <= ball_y <= paddle_y + c.paddle_height
}

/// A ball just after a score: recentered, with the freshly drawn direction.
pub open spec fn reset_view(c: ConfigView, d: Vec2View) -> BallView {
    BallView { pos: Vec2View { x: c.center_x(), y: c.center_y() }, dir: d }
}

/// Step 1 of a frame: touching the top or bottom wall band negates the
/// vertical direction. This check stands alone, before and independent of
/// the horizontal checks.
pub open spec fn wall_step(c: ConfigView, b: BallView) -> BallView {
    if hits_wall(c, b) {
        BallView { pos: b.pos, dir: Vec2View { x: b.dir.x, y: -b.dir.y } }
    } else {
        b
    }
}

/// Step 2 of a frame: in the left zone the ball either bounces off the left
/// paddle (horizontal direction negated) or, missing it, hands player 2 a
/// point and is reset with the fresh direction `d`. The second component
/// says whether player 2 scored.
pub open spec fn left_zone_step(c: ConfigView, b: BallView, p1_y: int, d: Vec2View) -> (
    BallView,
    bool,
) {
    if in_left_zone(c, b) {
        if overlaps(c, p1_y, b.pos.y) {
            (BallView { pos: b.pos, dir: Vec2View { x: -b.dir.x, y: b.dir.y } }, false)
        } else {
            (reset_view(c, d), true)
        }
    } else {
        (b, false)
    }
}

/// Step 3 of a frame: the mirror of step 2 against the right paddle, scoring
/// for player 1 on a miss.
pub open spec fn right_zone_step(c: ConfigView, b: BallView, p2_y: int, d: Vec2View) -> (
    BallView,
    bool,
) {
    if in_right_zone(c, b) {
        if overlaps(c, p2_y, b.pos.y) {
            (BallView { pos: b.pos, dir: Vec2View { x: -b.dir.x, y: b.dir.y } }, false)
        } else {
            (reset_view(c, d), true)
        }
    } else {
        (b, false)
    }
}

/// Step 4 of a frame: the position moves by `direction * ball_speed`, using
/// whatever direction the earlier steps left — possibly reflected or freshly
/// drawn in this same frame.
pub open spec fn integrate_step(c: ConfigView, b: BallView) -> BallView {
    BallView {
        pos: Vec2View {
            x: b.pos.x + b.dir.x * c.ball_speed,
            y: b.pos.y + b.dir.y * c.ball_speed,
        },
        dir: b.dir,
    }
}

/// One whole frame of ball physics, in the fixed order: wall reflection,
/// left-zone check, right-zone check, position integration. `dl` and `dr`
/// are the directions a reset would install after a miss of the left or the
/// right paddle; at most one is consumed in any frame of a well-formed
/// configuration, since its zones are disjoint and a reset recenters the
/// ball between them.
pub open spec fn advance_spec(
    c: ConfigView,
    b: BallView,
    p1_y: int,
    p2_y: int,
    dl: Vec2View,
    dr: Vec2View,
) -> AdvanceView {
    let b1 = wall_step(c, b);
    let (b2, p2_scored) = left_zone_step(c, b1, p1_y, dl);
    let (b3, p1_scored) = right_zone_step(c, b2, p2_y, dr);
    AdvanceView { ball: integrate_step(c, b3), p1_scored, p2_scored }
}

/// A freshly drawn direction component: nonnegative and below `dir_range`.
pub open spec fn fresh_dir_ok(c: ConfigView, d: Vec2View) -> bool {
    &&& 0 <= d.x < c.dir_range
    &&& 0 <= d.y < c.dir_range
}

/// Both direction components stay strictly inside `(-dir_range, dir_range)`:
/// reflections only negate them, and resets draw from `[0, dir_range)`.
pub open spec fn dir_ok(c: ConfigView, b: BallView) -> bool {
    &&& -c.dir_range < b.dir.x < c.dir_range
    &&& -c.dir_range < b.dir.y < c.dir_range
}

/// The ball's well-formedness: its direction is bounded and its position can
/// stray at most one frame's travel beyond the paddle zones and wall bands.
/// The two conditional clauses per axis cover the ball oscillating inside a
/// zone or band, where the direction is negated every frame: they say that
/// such a ball got there from a confined point one step away, so the next
/// negation sends it back rather than further out.
pub open spec fn ball_wf(c: ConfigView, b: BallView) -> bool {
    &&& dir_ok(c, b)
    &&& c.zone_left() - c.max_step() <= b.pos.x <= c.zone_right() + c.max_step()
    &&& (b.pos.x < c.zone_left() && b.dir.x > 0 ==> b.pos.x - b.dir.x * c.ball_speed
        >= c.zone_left() - c.max_step())
    &&& (b.pos.x > c.zone_right() && b.dir.x < 0 ==> b.pos.x - b.dir.x * c.ball_speed
        <= c.zone_right() + c.max_step())
    &&& c.ball_radius - c.max_step() <= b.pos.y <= c.field_height - c.ball_radius + c.max_step()
    &&& (b.pos.y < c.ball_radius && b.dir.y > 0 ==> b.pos.y - b.dir.y * c.ball_speed
        >= c.ball_radius - c.max_step())
    &&& (b.pos.y > c.field_height - c.ball_radius && b.dir.y < 0 ==> b.pos.y - b.dir.y
        * c.ball_speed <= c.field_height - c.ball_radius + c.max_step())
}

/// For a direction component `d` strictly inside `(-range, range)` and a
/// nonnegative speed, one frame's travel along that axis is bounded by
/// `range * speed`, and negating the component negates the travel.
proof fn lemma_step_bound(d: int, speed: int, range: int)
    requires
        -range < d < range,
        0 <= speed,
        0 < range,
    ensures
        -(range * speed) <= d * speed <= range * speed,
        (-d) * speed == -(d * speed),
{
    assert(-(range * speed) <= d * speed <= range * speed && (-d) * speed == -(d * speed))
        by (nonlinear_arith)
        requires
            -range < d < range,
            0 <= speed,
            0 < range,
    ;
}

/// A well-formed configuration's `max_step` is nonnegative and small enough
/// that one frame's travel never overflows an `i32`.
proof fn lemma_max_step_bounds(c: ConfigView)
    requires
        c.wf(),
    ensures
        0 <= c.max_step() <= 1000000,
{
    assert(0 <= c.dir_range * c.ball_speed <= 1000000) by (nonlinear_arith)
        requires
            0 < c.dir_range <= 1000,
            0 <= c.ball_speed <= 1000,
    ;
}

/// A recentered ball with any bounded direction is well formed: the center
/// lies between the paddle zones and inside the wall bands.
pub proof fn lemma_centered_wf(c: ConfigView, d: Vec2View)
    requires
        c.wf(),
        -c.dir_range < d.x < c.dir_range,
        -c.dir_range < d.y < c.dir_range,
    ensures
        ball_wf(c, reset_view(c, d)),
{
    lemma_max_step_bounds(c);
}

/// One frame preserves the ball's well-formedness, for any paddle positions
/// and any in-range fresh directions.
pub proof fn lemma_advance_preserves_wf(
    c: ConfigView,
    b: BallView,
    p1_y: int,
    p2_y: int,
    dl: Vec2View,
    dr: Vec2View,
)
    requires
        c.wf(),
        ball_wf(c, b),
        fresh_dir_ok(c, dl),
        fresh_dir_ok(c, dr),
    ensures
        ball_wf(c, advance_spec(c, b, p1_y, p2_y, dl, dr).ball),
{
    let b1 = wall_step(c, b);
    let (b2, _s2) = left_zone_step(c, b1, p1_y, dl);
    let (b3, _s1) = right_zone_step(c, b2, p2_y, dr);
    lemma_step_bound(b.dir.x, c.ball_speed, c.dir_range);
    lemma_step_bound(b.dir.y, c.ball_speed, c.dir_range);
    lemma_step_bound(b3.dir.x, c.ball_speed, c.dir_range);
    lemma_step_bound(b3.dir.y, c.ball_speed, c.dir_range);
    lemma_step_bound(dl.x, c.ball_speed, c.dir_range);
    lemma_step_bound(dl.y, c.ball_speed, c.dir_range);
    lemma_step_bound(dr.x, c.ball_speed, c.dir_range);
    lemma_step_bound(dr.y, c.ball_speed, c.dir_range);
    assert(dir_ok(c, b3));
    let a = integrate_step(c, b3);
    assert(a.pos.x - a.dir.x * c.ball_speed == b3.pos.x);
    assert(a.pos.y - a.dir.y * c.ball_speed == b3.pos.y);
}

/// Wall reflection: a ball that starts one frame inside a wall band leaves
/// that frame with its vertical direction negated, provided neither zone
/// check resets it (each zone either misses the ball or overlaps its
/// paddle).
pub proof fn lemma_wall_reflection(
    c: ConfigView,
    b: BallView,
    p1_y: int,
    p2_y: int,
    dl: Vec2View,
    dr: Vec2View,
)
    requires
        c.wf(),
        hits_wall(c, b),
        in_left_zone(c, b) ==> overlaps(c, p1_y, b.pos.y),
        in_right_zone(c, b) ==> overlaps(c, p2_y, b.pos.y),
    ensures
        advance_spec(c, b, p1_y, p2_y, dl, dr).ball.dir.y == -b.dir.y,
{
}

/// Away from both wall bands, a frame leaves the vertical direction alone,
/// provided neither zone check resets it.
pub proof fn lemma_no_wall_reflection(
    c: ConfigView,
    b: BallView,
    p1_y: int,
    p2_y: int,
    dl: Vec2View,
    dr: Vec2View,
)
    requires
        c.wf(),
        !hits_wall(c, b),
        in_left_zone(c, b) ==> overlaps(c, p1_y, b.pos.y),
        in_right_zone(c, b) ==> overlaps(c, p2_y, b.pos.y),
    ensures
        advance_spec(c, b, p1_y, p2_y, dl, dr).ball.dir.y == b.dir.y,
{
}

/// A wall reflection is not undone by the next frame: if the first frame
/// finds the ball inside a wall band and the second finds it outside both,
/// and neither frame resets the ball, the vertical direction after the two
/// frames is still the negation of the original — the check re-flips only
/// when the ball stands in a band again.
pub proof fn lemma_wall_reflection_not_repeated(
    c: ConfigView,
    b: BallView,
    p1_y: int,
    p2_y: int,
    dl: Vec2View,
    dr: Vec2View,
    p1_y2: int,
    p2_y2: int,
    dl2: Vec2View,
    dr2: Vec2View,
)
    requires
        c.wf(),
        hits_wall(c, b),
        in_left_zone(c, b) ==> overlaps(c, p1_y, b.pos.y),
        in_right_zone(c, b) ==> overlaps(c, p2_y, b.pos.y),
        !hits_wall(c, advance_spec(c, b, p1_y, p2_y, dl, dr).ball),
        in_left_zone(c, advance_spec(c, b, p1_y, p2_y, dl, dr).ball) ==> overlaps(
            c,
            p1_y2,
            advance_spec(c, b, p1_y, p2_y, dl, dr).ball.pos.y,
        ),
        in_right_zone(c, advance_spec(c, b, p1_y, p2_y, dl, dr).ball) ==> overlaps(
            c,
            p2_y2,
            advance_spec(c, b, p1_y, p2_y, dl, dr).ball.pos.y,
        ),
    ensures
        advance_spec(
            c,
            advance_spec(c, b, p1_y, p2_y, dl, dr).ball,
            p1_y2,
            p2_y2,
            dl2,
            dr2,
        ).ball.dir.y == -b.dir.y,
{
    lemma_wall_reflection(c, b, p1_y, p2_y, dl, dr);
    lemma_no_wall_reflection(
        c,
        advance_spec(c, b, p1_y, p2_y, dl, dr).ball,
        p1_y2,
        p2_y2,
        dl2,
        dr2,
    );
}

/// Scoring and reset are one atomic step of the frame: a ball in the left
/// zone with no vertical overlap hands player 2 (and only player 2) a point,
/// its direction becomes the fresh draw `dl`, and the frame's integration
/// acts on the recentered ball — the position the host observes is the
/// center moved one step by `dl`, not a point of the pre-scoring trajectory.
pub proof fn lemma_score_resets_left(
    c: ConfigView,
    b: BallView,
    p1_y: int,
    p2_y: int,
    dl: Vec2View,
    dr: Vec2View,
)
    requires
        c.wf(),
        in_left_zone(c, b),
        !overlaps(c, p1_y, b.pos.y),
    ensures
        advance_spec(c, b, p1_y, p2_y, dl, dr).p2_scored,
        !advance_spec(c, b, p1_y, p2_y, dl, dr).p1_scored,
        advance_spec(c, b, p1_y, p2_y, dl, dr).ball.dir == dl,
        advance_spec(c, b, p1_y, p2_y, dl, dr).ball.pos.x == c.center_x() + dl.x * c.ball_speed,
        advance_spec(c, b, p1_y, p2_y, dl, dr).ball.pos.y == c.center_y() + dl.y * c.ball_speed,
{
}

/// The mirror of `lemma_score_resets_left`: a miss of the right paddle hands
/// player 1 (and only player 1) a point and resets the ball with `dr`.
pub proof fn lemma_score_resets_right(
    c: ConfigView,
    b: BallView,
    p1_y: int,
    p2_y: int,
    dl: Vec2View,
    dr: Vec2View,
)
    requires
        c.wf(),
        in_right_zone(c, b),
        !overlaps(c, p2_y, b.pos.y),
    ensures
        advance_spec(c, b, p1_y, p2_y, dl, dr).p1_scored,
        !advance_spec(c, b, p1_y, p2_y, dl, dr).p2_scored,
        advance_spec(c, b, p1_y, p2_y, dl, dr).ball.dir == dr,
        advance_spec(c, b, p1_y, p2_y, dl, dr).ball.pos.x == c.center_x() + dr.x * c.ball_speed,
        advance_spec(c, b, p1_y, p2_y, dl, dr).ball.pos.y == c.center_y() + dr.y * c.ball_speed,
{
    assert(!in_left_zone(c, b));
}

/// Bounce conservation: in the left zone with vertical overlap, the frame
/// negates the horizontal direction, touches the vertical direction only
/// through the independent wall check, and awards no point.
pub proof fn lemma_bounce_left(
    c: ConfigView,
    b: BallView,
    p1_y: int,
    p2_y: int,
    dl: Vec2View,
    dr: Vec2View,
)
    requires
        c.wf(),
        in_left_zone(c, b),
        overlaps(c, p1_y, b.pos.y),
    ensures
        advance_spec(c, b, p1_y, p2_y, dl, dr).ball.dir.x == -b.dir.x,
        advance_spec(c, b, p1_y, p2_y, dl, dr).ball.dir.y == (if hits_wall(c, b) {
            -b.dir.y
        } else {
            b.dir.y
        }),
        !advance_spec(c, b, p1_y, p2_y, dl, dr).p1_scored,
        !advance_spec(c, b, p1_y, p2_y, dl, dr).p2_scored,
{
}

/// The mirror of `lemma_bounce_left`, against the right paddle.
pub proof fn lemma_bounce_right(
    c: ConfigView,
    b: BallView,
    p1_y: int,
    p2_y: int,
    dl: Vec2View,
    dr: Vec2View,
)
    requires
        c.wf(),
        in_right_zone(c, b),
        overlaps(c, p2_y, b.pos.y),
    ensures
        advance_spec(c, b, p1_y, p2_y, dl, dr).ball.dir.x == -b.dir.x,
        advance_spec(c, b, p1_y, p2_y, dl, dr).ball.dir.y == (if hits_wall(c, b) {
            -b.dir.y
        } else {
            b.dir.y
        }),
        !advance_spec(c, b, p1_y, p2_y, dl, dr).p1_scored,
        !advance_spec(c, b, p1_y, p2_y, dl, dr).p2_scored,
{
    assert(!in_left_zone(c, b));
}

impl Ball {
    /// A ball at the field's center with the given direction; deterministic,
    /// so a host or a test can choose the direction itself.
    pub fn new_with(cfg: &Config, dir: Vec2i) -> (b: Ball)
        requires
            cfg@.wf(),
            -cfg@.dir_range < dir@.x < cfg@.dir_range,
            -cfg@.dir_range < dir@.y < cfg@.dir_range,
        ensures
            b@ == reset_view(cfg@, dir@),
            ball_wf(cfg@, b@),
    {
        proof {
            lemma_centered_wf(cfg@, dir@);
        }
        Ball {
            position: Vec2i::new(cfg.field_width / 2, cfg.field_height / 2),
            direction: dir,
        }
    }

    /// A ball at the field's center with a freshly drawn direction, both
    /// components independent and uniform over `[0, dir_range)`.
    pub fn new(cfg: &Config) -> (b: Ball)
        requires
            cfg@.wf(),
        ensures
            b@.pos.x == cfg@.center_x(),
            b@.pos.y == cfg@.center_y(),
            fresh_dir_ok(cfg@, b@.dir),
            ball_wf(cfg@, b@),
    {
        let dx: i32 = random_in_range(0, cfg.dir_range);
        let dy: i32 = random_in_range(0, cfg.dir_range);
        Ball::new_with(cfg, Vec2i::new(dx, dy))
    }

    /// Recenters the ball and installs the given direction; deterministic.
    /// This is what a score does to the ball, with the direction the miss
    /// drew.
    pub fn reset_ball_with(&mut self, cfg: &Config, d: Vec2i)
        requires
            cfg@.wf(),
            -cfg@.dir_range < d@.x < cfg@.dir_range,
            -cfg@.dir_range < d@.y < cfg@.dir_range,
        ensures
            final(self)@ == reset_view(cfg@, d@),
            ball_wf(cfg@, final(self)@),
    {
        let fresh: Ball = Ball::new_with(cfg, d);
        *self = fresh;
    }

    /// Recenters the ball and redraws both direction components
    /// independently and uniformly from `[0, dir_range)`.
    pub fn reset_ball(&mut self, cfg: &Config)
        requires
            cfg@.wf(),
        ensures
            final(self)@.pos.x == cfg@.center_x(),
            final(self)@.pos.y == cfg@.center_y(),
            fresh_dir_ok(cfg@, final(self)@.dir),
            ball_wf(cfg@, final(self)@),
    {
        let dx: i32 = random_in_range(0, cfg.dir_range);
        let dy: i32 = random_in_range(0, cfg.dir_range);
        self.reset_ball_with(cfg, Vec2i::new(dx, dy));
    }

    /// One frame of ball physics with the reset directions supplied by the
    /// caller: wall reflection, then the left- and right-zone checks with
    /// their bounces or scores, then position integration, exactly as
    /// `advance_spec` states. `dl` and `dr` are the directions a reset
    /// installs after a miss of the left or the right paddle.
    pub fn move_ball_with(
        &mut self,
        cfg: &Config,
        p1: &mut Paddle,
        p2: &mut Paddle,
        dl: Vec2i,
        dr: Vec2i,
    )
        requires
            cfg@.wf(),
            ball_wf(cfg@, old(self)@),
            old(p1).wf(cfg@),
            old(p2).wf(cfg@),
            fresh_dir_ok(cfg@, dl@),
            fresh_dir_ok(cfg@, dr@),
            old(p1)@.score < u64::MAX,
            old(p2)@.score < u64::MAX,
        ensures
            final(self)@ == advance_spec(
                cfg@,
                old(self)@,
                old(p1)@.y,
                old(p2)@.y,
                dl@,
                dr@,
            ).ball,
            final(p1)@.y == old(p1)@.y,
            final(p2)@.y == old(p2)@.y,
            final(p1)@.score == old(p1)@.score + (if advance_spec(
                cfg@,
                old(self)@,
                old(p1)@.y,
                old(p2)@.y,
                dl@,
                dr@,
            ).p1_scored {
                1int
            } else {
                0int
            }),
            final(p2)@.score == old(p2)@.score + (if advance_spec(
                cfg@,
                old(self)@,
                old(p1)@.y,
                old(p2)@.y,
                dl@,
                dr@,
            ).p2_scored {
                1int
            } else {
                0int
            }),
            final(p1).wf(cfg@),
            final(p2).wf(cfg@),
            ball_wf(cfg@, final(self)@),
    {
        proof {
            lemma_max_step_bounds(cfg@);
            lemma_advance_preserves_wf(cfg@, old(self)@, old(p1)@.y, old(p2)@.y, dl@, dr@);
        }
        // Step 1: reverse the vertical direction at the top or bottom wall.
        if self.position.y < cfg.ball_radius
            || self.position.y > cfg.field_height - cfg.ball_radius {
            self.direction.y = -self.direction.y;
        }
        // Step 2: the left paddle's zone — bounce, or player 2 scores.
        if self.position.x < cfg.paddle_width + cfg.buffer {
            if p1.y <= self.position.y && self.position.y <= p1.y + cfg.paddle_height {
                self.direction.x = -self.direction.x;
            } else {
                p2.score = p2.score + 1;
                self.reset_ball_with(cfg, dl);
            }
        }
        // Step 3: the right paddle's zone — bounce, or player 1 scores.
        if self.position.x > cfg.field_width - cfg.paddle_width - cfg.buffer {
            if p2.y <= self.position.y && self.position.y <= p2.y + cfg.paddle_height {
                self.direction.x = -self.direction.x;
            } else {
                p1.score = p1.score + 1;
                self.reset_ball_with(cfg, dr);
            }
        }
        // Step 4: integrate the position with whatever direction the checks
        // above left in place.
        proof {
            lemma_step_bound(self.direction.x as int, cfg@.ball_speed as int, cfg@.dir_range as int);
            lemma_step_bound(self.direction.y as int, cfg@.ball_speed as int, cfg@.dir_range as int);
        }
        self.position.x = self.position.x + self.direction.x * cfg.ball_speed;
        self.position.y = self.position.y + self.direction.y * cfg.ball_speed;
    }

    /// One frame of ball physics, the reset directions drawn from the random
    /// source. Whatever was drawn, the result is one `advance_spec` outcome
    /// for some pair of in-range fresh directions, and each score grows by at
    /// most one.
    pub fn move_ball(&mut self, cfg: &Config, p1: &mut Paddle, p2: &mut Paddle)
        requires
            cfg@.wf(),
            ball_wf(cfg@, old(self)@),
            old(p1).wf(cfg@),
            old(p2).wf(cfg@),
            old(p1)@.score < u64::MAX,
            old(p2)@.score < u64::MAX,
        ensures
            final(p1)@.y == old(p1)@.y,
            final(p2)@.y == old(p2)@.y,
            old(p1)@.score <= final(p1)@.score <= old(p1)@.score + 1,
            old(p2)@.score <= final(p2)@.score <= old(p2)@.score + 1,
            final(p1).wf(cfg@),
            final(p2).wf(cfg@),
            ball_wf(cfg@, final(self)@),
            exists|dl: Vec2View, dr: Vec2View|
                {
                    &&& fresh_dir_ok(cfg@, dl)
                    &&& fresh_dir_ok(cfg@, dr)
                    &&& final(self)@ == (#[trigger] advance_spec(
                        cfg@,
                        old(self)@,
                        old(p1)@.y,
                        old(p2)@.y,
                        dl,
                        dr,
                    )).ball
                    &&& final(p1)@.score == old(p1)@.score + (if advance_spec(
                        cfg@,
                        old(self)@,
                        old(p1)@.y,
                        old(p2)@.y,
                        dl,
                        dr,
                    ).p1_scored {
                        1int
                    } else {
                        0int
                    })
                    &&& final(p2)@.score == old(p2)@.score + (if advance_spec(
                        cfg@,
                        old(self)@,
                        old(p1)@.y,
                        old(p2)@.y,
                        dl,
                        dr,
                    ).p2_scored {
                        1int
                    } else {
                        0int
                    })
                },
    {
        let dlx: i32 = random_in_range(0, cfg.dir_range);
        let dly: i32 = random_in_range(0, cfg.dir_range);
        let drx: i32 = random_in_range(0, cfg.dir_range);
        let dry: i32 = random_in_range(0, cfg.dir_range);
        let dl: Vec2i = Vec2i::new(dlx, dly);
        let dr: Vec2i = Vec2i::new(drx, dry);
        self.move_ball_with(cfg, p1, p2, dl, dr);
    }
}

} // verus!
