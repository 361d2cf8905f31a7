pub mod geo;
pub mod point;
pub mod window;

use vstd::prelude::*;

verus! {

/// Largest pixel length (width, height, text size) the library accepts,
/// in centipixels: 100_000 whole pixels.
pub const MAX_DIM_CP: i64 = 10_000_000;

/// A two-dimensional extent.  Lengths are in centipixels: 1 pixel = 100
/// units, so the two decimal places the host rounds its measurements to are
/// represented exactly.
#[derive(Clone, Copy, Debug, PartialEq, Eq, Structural)]
pub struct Size {
    pub width: i64,
    pub height: i64,
}

impl Size {
    /// A size fit for projection: positive and within the machine limits.
    pub open spec fn wf(self) -> bool {
        &&& 0 < self.width <= MAX_DIM_CP
        &&& 0 < self.height <= MAX_DIM_CP
    }

    pub fn new(width: i64, height: i64) -> (s: Size)
        ensures
            s.width == width,
            s.height == height,
    {
        Size { width, height }
    }
}

impl Default for Size {
    fn default() -> (s: Size)
        ensures
            s.width == 0,
            s.height == 0,
    {
        Size { width: 0, height: 0 }
    }
}

/// A closed interval of centipixel values.
#[derive(Clone, Copy, Debug, PartialEq, Eq, Structural)]
pub struct Range {
    pub min: i64,
    pub max: i64,
}

impl Range {
    pub fn new(min: i64, max: i64) -> (r: Range)
        ensures
            r.min == min,
            r.max == max,
    {
        Range { min, max }
    }
}

impl Default for Range {
    fn default() -> (r: Range)
        ensures
            r.min == 0,
            r.max == 0,
    {
        Range { min: 0, max: 0 }
    }
}

} // verus!
