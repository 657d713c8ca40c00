use vstd::prelude::*;

verus! {

/// A 2D coordinate in the application's viewport space.
///
/// The pointer core only stores and hands back coordinates; it never does
/// arithmetic on them, so integer components are all it needs.
#[derive(Clone, Copy, Debug, PartialEq, Eq, Structural)]
pub struct Vector {
    pub x: i32,
    pub y: i32,
}

impl Vector {
    /// The origin of the viewport, the initial cursor position.
    pub open spec fn origin() -> Vector {
        Vector { x: 0, y: 0 }
    }

    pub fn new(x: i32, y: i32) -> (v: Vector)
        ensures
            v.x == x,
            v.y == y,
    {
        Vector { x, y }
    }

    pub fn zero() -> (v: Vector)
        ensures
            v == Vector::origin(),
    {
        Vector { x: 0, y: 0 }
    }
}

} // verus!
