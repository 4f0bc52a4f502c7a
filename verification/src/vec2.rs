use vstd::prelude::*;

verus! {

/// A two-dimensional integer vector: a position or a direction.
#[derive(Clone, Copy, Debug, PartialEq, Eq, Structural)]
pub struct Vec2i {
    pub x: i32,
    pub y: i32,
}

/// The mathematical value of a `Vec2i`: both components as unbounded integers.
pub ghost struct Vec2View {
    pub x: int,
    pub y: int,
}

impl View for Vec2i {
    type V = Vec2View;

    open spec fn view(&self) -> Vec2View {
        Vec2View { x: self.x as int, y: self.y as int }
    }
}

impl Vec2i {
    pub fn new(x: i32, y: i32) -> (r: Vec2i)
        ensures
            r@ == (Vec2View { x: x as int, y: y as int }),
    {
        Vec2i { x, y }
    }
}

} // verus!
