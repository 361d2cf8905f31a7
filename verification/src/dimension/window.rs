use crate::dimension::Size;
use vstd::prelude::*;

verus! {

/// The most recent browser-window size reported by the host, in centipixels.
///
/// The host queries the real window and hands the measured size in; the
/// library only stores the snapshot and serves it to the responsive-font
/// rule of the label-metrics computation.
#[derive(Clone, Copy, Debug, PartialEq, Eq, Structural)]
pub struct Window {
    pub size: Size,
}

impl Window {
    pub fn new(size: Size) -> (w: Window)
        ensures
            w.size == size,
    {
        Window { size }
    }

    pub fn size(&self) -> (s: Size)
        ensures
            s == self.size,
    {
        self.size
    }

    pub fn update_size(&mut self, size: Size)
        ensures
            final(self).size == size,
    {
        self.size = size;
    }
}

impl Default for Window {
    fn default() -> (w: Window)
        ensures
            w.size.width == 0,
            w.size.height == 0,
    {
        Window { size: Size { width: 0, height: 0 } }
    }
}

} // verus!
