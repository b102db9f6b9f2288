use vstd::prelude::*;

verus! {

/// A pair of integers: a grid cell, a sector of the view, a pointer position
/// or a pan offset, in the unit that the holder documents.
#[derive(Debug, Clone, Copy, PartialEq, Eq, Structural)]
pub struct Point2 {
    pub x: i64,
    pub y: i64,
}

impl Point2 {
    pub fn new(x: i64, y: i64) -> (point: Point2)
        ensures
            point == (Point2 { x, y }),
    {
        Point2 { x, y }
    }
}

} // verus!
