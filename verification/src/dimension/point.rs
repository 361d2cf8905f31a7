use vstd::prelude::*;

verus! {

/// A position on the canvas, in centipixels (1 pixel = 100 units).
///
/// Positions produced by the projector may lie outside the canvas rectangle:
/// a coordinate outside the viewport projects to a pixel outside the canvas,
/// and the caller may cull such draws.
#[derive(Clone, Copy, Debug, PartialEq, Eq, Structural)]
pub struct PointCoord {
    pub x: i64,
    pub y: i64,
}

impl PointCoord {
    pub fn new(x: i64, y: i64) -> (p: PointCoord)
        ensures
            p.x == x,
            p.y == y,
    {
        PointCoord { x, y }
    }
}

impl Default for PointCoord {
    fn default() -> (p: PointCoord)
        ensures
            p.x == 0,
            p.y == 0,
    {
        PointCoord { x: 0, y: 0 }
    }
}

} // verus!
