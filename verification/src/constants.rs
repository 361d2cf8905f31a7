use vstd::prelude::*;

verus! {

/// Base label font size, in whole pixels.
pub const FONT_SIZE: u8 = 16;

/// Window widths below this (centipixels; 468 logical pixels) get the
/// enlarged small-screen font.
pub const SMALL_WINDOW_WIDTH_CP: i64 = 46_800;

/// Fallback label text width (centipixels; 50 pixels) when the host cannot
/// measure the text.
pub const AIRPORT_TEXT_WIDTH_DEFAULT_CP: i64 = 5_000;

/// Fallback label text height (centipixels; 30 pixels).
pub const AIRPORT_TEXT_HEIGHT_DEFAULT_CP: i64 = 3_000;

/// Margin kept between a clamped label and the canvas edge (centipixels;
/// 20 pixels).
pub const LABEL_MARGIN_CP: i64 = 2_000;

} // verus!
