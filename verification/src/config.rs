use vstd::prelude::*;

verus! {

/// The fixed geometry and speeds of one match, supplied once at construction
/// and never changed. All lengths are in the same integer unit; the y axis
/// grows downward. A direction component is an integer in
/// `(-dir_range, dir_range)`; a freshly drawn one lies in `[0, dir_range)`,
/// and each frame the ball moves by `direction * ball_speed`.
#[derive(Clone, Copy, Debug, PartialEq, Eq, Structural)]
pub struct Config {
    pub field_width: i32,
    pub field_height: i32,
    pub paddle_width: i32,
    pub paddle_height: i32,
    /// Padding between the field edge and the paddles' travel range; also
    /// widens the paddle zones near the left and right edges.
    pub buffer: i32,
    /// How far a paddle moves per honored command.
    pub bat_speed: i32,
    /// Multiplier applied to the ball's direction each frame.
    pub ball_speed: i32,
    pub ball_radius: i32,
    /// Exclusive upper bound of a freshly drawn direction component.
    pub dir_range: i32,
}

/// The mathematical value of a `Config`: every field as an unbounded integer.
pub ghost struct ConfigView {
    pub field_width: int,
    pub field_height: int,
    pub paddle_width: int,
    pub paddle_height: int,
    pub buffer: int,
    pub bat_speed: int,
    pub ball_speed: int,
    pub ball_radius: int,
    pub dir_range: int,
}

impl View for Config {
    type V = ConfigView;

    open spec fn view(&self) -> ConfigView {
        ConfigView {
            field_width: self.field_width as int,
            field_height: self.field_height as int,
            paddle_width: self.paddle_width as int,
            paddle_height: self.paddle_height as int,
            buffer: self.buffer as int,
            bat_speed: self.bat_speed as int,
            ball_speed: self.ball_speed as int,
            ball_radius: self.ball_radius as int,
            dir_range: self.dir_range as int,
        }
    }
}

impl ConfigView {
    /// The ball is in the left paddle's zone when its x is below this.
    pub open spec fn zone_left(self) -> int {
        self.paddle_width + self.buffer
    }

    /// The ball is in the right paddle's zone when its x is above this.
    pub open spec fn zone_right(self) -> int {
        self.field_width - self.paddle_width - self.buffer
    }

    /// Greatest y a paddle's top edge may reach.
    pub open spec fn paddle_max_y(self) -> int {
        self.field_height - self.paddle_height - 2 * self.buffer
    }

    /// Where a paddle's top edge starts: the y at which the paddle's
    /// rectangle is centered on the field's vertical extent.
    pub open spec fn paddle_start_y(self) -> int {
        (self.field_height - self.paddle_height) / 2
    }

    pub open spec fn center_x(self) -> int {
        self.field_width / 2
    }

    pub open spec fn center_y(self) -> int {
        self.field_height / 2
    }

    /// The farthest the ball can travel along one axis in one frame.
    pub open spec fn max_step(self) -> int {
        self.dir_range * self.ball_speed
    }

    /// A well-formed configuration: every length fits comfortably in an
    /// `i32`, a paddle fits the field with its centered start inside its
    /// travel range, the ball's wall bands contain the vertical center, and
    /// the two paddle zones lie on either side of the horizontal center (so
    /// they never overlap and a recentered ball stands in neither).
    pub open spec fn wf(self) -> bool {
        &&& 0 < self.field_width <= 1000000
        &&& 0 < self.field_height <= 1000000
        &&& 0 <= self.paddle_width <= 1000000
        &&& 0 < self.paddle_height <= 1000000
        &&& 0 <= self.buffer <= 1000000
        &&& 0 <= self.bat_speed <= 1000000
        &&& 0 <= self.ball_speed <= 1000
        &&& 0 <= self.ball_radius <= 1000000
        &&& 0 < self.dir_range <= 1000
        &&& self.paddle_height <= self.field_height
        &&& self.buffer <= self.paddle_start_y()
        &&& self.paddle_start_y() <= self.paddle_max_y()
        &&& self.ball_radius <= self.center_y()
        &&& self.center_y() <= self.field_height - self.ball_radius
        &&& self.zone_left() <= self.center_x()
        &&& self.center_x() <= self.zone_right()
    }
}

impl Config {
    /// Decides well-formedness at run time, so a host can reject a bad
    /// configuration before building a game state.
    pub fn valid(&self) -> (r: bool)
        ensures
            r == self@.wf(),
    {
        if !(0 < self.field_width && self.field_width <= 1000000) {
            return false;
        }
        if !(0 < self.field_height && self.field_height <= 1000000) {
            return false;
        }
        if !(0 <= self.paddle_width && self.paddle_width <= 1000000) {
            return false;
        }
        if !(0 < self.paddle_height && self.paddle_height <= 1000000) {
            return false;
        }
        if !(0 <= self.buffer && self.buffer <= 1000000) {
            return false;
        }
        if !(0 <= self.bat_speed && self.bat_speed <= 1000000) {
            return false;
        }
        if !(0 <= self.ball_speed && self.ball_speed <= 1000) {
            return false;
        }
        if !(0 <= self.ball_radius && self.ball_radius <= 1000000) {
            return false;
        }
        if !(0 < self.dir_range && self.dir_range <= 1000) {
            return false;
        }
        if !(self.paddle_height <= self.field_height) {
            return false;
        }
        let paddle_start_y: i32 = (self.field_height - self.paddle_height) / 2;
        let paddle_max_y: i32 = self.field_height - self.paddle_height - 2 * self.buffer;
        if !(self.buffer <= paddle_start_y && paddle_start_y <= paddle_max_y) {
            return false;
        }
        let center_y: i32 = self.field_height / 2;
        if !(self.ball_radius <= center_y && center_y <= self.field_height - self.ball_radius) {
            return false;
        }
        let center_x: i32 = self.field_width / 2;
        if !(self.paddle_width + self.buffer <= center_x
            && center_x <= self.field_width - self.paddle_width - self.buffer) {
            return false;
        }
        true
    }
}

} // verus!
