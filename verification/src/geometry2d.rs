use vstd::prelude::*;

verus! {

/// A cell position on the character grid: `x` grows to the right, `y`
/// grows downwards.
#[derive(Clone, Copy, Debug, PartialEq, Eq)]
pub struct Point2 {
    pub x: i32,
    pub y: i32,
}

impl Point2 {
    pub fn new(x: i32, y: i32) -> (point: Self)
        ensures
            point.x == x,
            point.y == y,
    {
        Point2 { x, y }
    }
}

} // verus!
