//! Flight-arrival map overlay core.
//!
//! The library models the geometry of a map overlay (geographic coordinates,
//! viewport bounds, canvas sizes, pixel positions) with fixed-point integers:
//! degrees are held in microdegrees, pixel lengths in centipixels, and the
//! Mercator vertical transform of a latitude is held as a host-computed
//! fixed-point ordinate.  On that model it verifies the projection from
//! geographic space to canvas pixels, the viewport change detector, the
//! per-entity position updaters, and the ingestion pipeline that filters raw
//! arrival records into flight entities.

pub mod aviation;
pub mod constants;
pub mod dimension;
pub mod manager;
pub mod utils;
