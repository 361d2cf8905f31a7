use crate::dimension::point::PointCoord;
use crate::dimension::Size;
use crate::utils::div_floor_i64;
use vstd::arithmetic::div_mod::{lemma_div_is_ordered, lemma_div_multiples_vanish};
use vstd::arithmetic::mul::lemma_mul_strict_inequality;
use vstd::prelude::*;

verus! {

/// Largest longitude magnitude, in microdegrees (180 degrees).
pub const LNG_LIMIT: i64 = 180_000_000;

/// Largest latitude magnitude, in microdegrees (90 degrees).
pub const LAT_LIMIT: i64 = 90_000_000;

/// Largest magnitude of a Mercator ordinate the library accepts.  The host
/// scales the transform `ln(tan(lat/2 + pi/4))` of the latitude in radians by
/// 10^9; the transform stays below pi for every latitude a web map shows, so
/// 4 * 10^9 leaves ample room.
pub const MERC_LIMIT: i64 = 4_000_000_000;

/// A geographic coordinate in fixed-point form.
///
/// `lat` and `lng` are degrees in microdegrees (1 degree = 10^6 units).
/// `merc_lat` is the Mercator vertical transform of the latitude,
/// `ln(tan(lat_rad/2 + pi/4))` scaled by 10^9 and rounded, as evaluated by
/// the host: the transform needs floating-point logarithms, which the
/// verified core does not compute itself.  Within the library the ordinate is
/// plain data; the projector's contracts are exact in terms of it.
#[derive(Clone, Copy, Debug, PartialEq, Eq, Structural)]
pub struct GeoCoord {
    pub lat: i64,
    pub lng: i64,
    pub merc_lat: i64,
}

/// Shared capability for "has a geographic coordinate", offered by airport
/// entities and by reference-table entries alike.
pub trait GeoCoordTrait {
    spec fn coord_spec(&self) -> GeoCoord;

    fn get_coord(&self) -> (c: GeoCoord)
        ensures
            c == self.coord_spec(),
    ;
}

impl GeoCoord {
    /// Within the latitude/longitude limits, with the Mercator ordinate in
    /// range as well.
    pub open spec fn wf(self) -> bool {
        &&& -LAT_LIMIT <= self.lat <= LAT_LIMIT
        &&& -LNG_LIMIT <= self.lng <= LNG_LIMIT
        &&& -MERC_LIMIT <= self.merc_lat <= MERC_LIMIT
    }

    pub fn new(lat: i64, lng: i64, merc_lat: i64) -> (c: GeoCoord)
        ensures
            c.lat == lat,
            c.lng == lng,
            c.merc_lat == merc_lat,
    {
        GeoCoord { lat, lng, merc_lat }
    }

    pub fn lat(&self) -> (r: i64)
        ensures
            r == self.lat,
    {
        self.lat
    }

    pub fn lng(&self) -> (r: i64)
        ensures
            r == self.lng,
    {
        self.lng
    }
}

impl Default for GeoCoord {
    fn default() -> (c: GeoCoord)
        ensures
            c.lat == 0,
            c.lng == 0,
            c.merc_lat == 0,
    {
        GeoCoord { lat: 0, lng: 0, merc_lat: 0 }
    }
}

/// The visible map window, in microdegrees, together with the host-evaluated
/// Mercator ordinates of its two latitude edges (same fixed-point scale as
/// `GeoCoord::merc_lat`).
#[derive(Clone, Copy, Debug, PartialEq, Eq, Structural)]
pub struct LatLngBounds {
    pub north: i64,
    pub east: i64,
    pub south: i64,
    pub west: i64,
    pub merc_north: i64,
    pub merc_south: i64,
}

impl LatLngBounds {
    /// Bounds fit for projection: in range and spanning a non-empty window.
    /// A degenerate window would divide by zero, so the caller must guard.
    pub open spec fn wf(self) -> bool {
        &&& -LAT_LIMIT <= self.north <= LAT_LIMIT
        &&& -LAT_LIMIT <= self.south <= LAT_LIMIT
        &&& -LNG_LIMIT <= self.west < self.east <= LNG_LIMIT
        &&& -MERC_LIMIT <= self.merc_south < self.merc_north <= MERC_LIMIT
    }

    pub fn new(north: i64, east: i64, south: i64, west: i64, merc_north: i64, merc_south: i64) -> (b:
        LatLngBounds)
        ensures
            b == (LatLngBounds { north, east, south, west, merc_north, merc_south }),
    {
        LatLngBounds { north, east, south, west, merc_north, merc_south }
    }

    /// Full replacement, applied whenever the host map reports new bounds.
    pub fn set(&mut self, north: i64, east: i64, south: i64, west: i64, merc_north: i64, merc_south: i64)
        ensures
            *final(self) == (LatLngBounds { north, east, south, west, merc_north, merc_south }),
    {
        self.north = north;
        self.east = east;
        self.south = south;
        self.west = west;
        self.merc_north = merc_north;
        self.merc_south = merc_south;
    }
}

impl Default for LatLngBounds {
    fn default() -> (b: LatLngBounds)
        ensures
            b == (LatLngBounds {
                north: 0,
                east: 0,
                south: 0,
                west: 0,
                merc_north: 0,
                merc_south: 0,
            }),
    {
        LatLngBounds { north: 0, east: 0, south: 0, west: 0, merc_north: 0, merc_south: 0 }
    }
}

/// Horizontal projection: the longitude offset from the west edge, scaled to
/// the canvas width.  Division is the mathematical floor.
pub open spec fn proj_x(size: Size, bounds: LatLngBounds, coord: GeoCoord) -> int {
    (coord.lng - bounds.west) * size.width / (bounds.east - bounds.west)
}

/// Vertical projection: the Mercator-ordinate offset below the north edge,
/// scaled to the canvas height.  North maps to the top of the canvas.
pub open spec fn proj_y(size: Size, bounds: LatLngBounds, coord: GeoCoord) -> int {
    (bounds.merc_north - coord.merc_lat) * size.height / (bounds.merc_north - bounds.merc_south)
}

/// Largest magnitude a projected centipixel position can take under
/// well-formed inputs; later pixel arithmetic stays far from `i64` overflow.
pub const PROJ_LIMIT: i64 = 100_000_000_000_000_000;

/// Projected positions of well-formed inputs stay within `PROJ_LIMIT`.
pub proof fn lemma_proj_bounds(size: Size, bounds: LatLngBounds, coord: GeoCoord)
    requires
        size.wf(),
        bounds.wf(),
        coord.wf(),
    ensures
        -PROJ_LIMIT <= proj_x(size, bounds, coord) <= PROJ_LIMIT,
        -PROJ_LIMIT <= proj_y(size, bounds, coord) <= PROJ_LIMIT,
{
    let num_x = (coord.lng - bounds.west) * size.width;
    let den_x = bounds.east - bounds.west;
    assert(-80_000_000_000_000_000 <= num_x <= 80_000_000_000_000_000) by (nonlinear_arith)
        requires
            -400_000_000 <= coord.lng - bounds.west <= 400_000_000,
            0 < size.width <= 10_000_000,
            num_x == (coord.lng - bounds.west) * size.width,
    ;
    crate::utils::lemma_div_bound(num_x, den_x, 80_000_000_000_000_000);

    let num_y = (bounds.merc_north - coord.merc_lat) * size.height;
    let den_y = bounds.merc_north - bounds.merc_south;
    assert(-80_000_000_000_000_000 <= num_y <= 80_000_000_000_000_000) by (nonlinear_arith)
        requires
            -8_000_000_000 <= bounds.merc_north - coord.merc_lat <= 8_000_000_000,
            0 < size.height <= 10_000_000,
            num_y == (bounds.merc_north - coord.merc_lat) * size.height,
    ;
    crate::utils::lemma_div_bound(num_y, den_y, 80_000_000_000_000_000);
}

/// Projects a geographic coordinate onto canvas pixel space.
///
/// Pure and deterministic; no clamping: coordinates outside the viewport
/// project outside the canvas rectangle.
pub fn get_mercator_position(size: &Size, bounds: &LatLngBounds, coord: &GeoCoord) -> (p: PointCoord)
    requires
        size.wf(),
        bounds.wf(),
        coord.wf(),
    ensures
        p.x == proj_x(*size, *bounds, *coord),
        p.y == proj_y(*size, *bounds, *coord),
        -PROJ_LIMIT <= p.x <= PROJ_LIMIT,
        -PROJ_LIMIT <= p.y <= PROJ_LIMIT,
{
    proof {
        lemma_proj_bounds(*size, *bounds, *coord);
    }
    let dx: i64 = coord.lng - bounds.west;
    let den_x: i64 = bounds.east - bounds.west;
    proof {
        assert(-400_000_000 <= dx <= 400_000_000);
        assert((-400_000_000) * 10_000_000 <= dx as int * size.width as int <= 400_000_000
            * 10_000_000) by (nonlinear_arith)
            requires
                -400_000_000 <= dx <= 400_000_000,
                0 < size.width <= 10_000_000,
        ;
    }
    let num_x: i64 = dx * size.width;
    let x: i64 = div_floor_i64(num_x, den_x);

    let dy: i64 = bounds.merc_north - coord.merc_lat;
    let den_y: i64 = bounds.merc_north - bounds.merc_south;
    proof {
        assert(-8_000_000_000 <= dy <= 8_000_000_000);
        assert((-8_000_000_000) * 10_000_000 <= dy as int * size.height as int <= 8_000_000_000
            * 10_000_000) by (nonlinear_arith)
            requires
                -8_000_000_000 <= dy <= 8_000_000_000,
                0 < size.height <= 10_000_000,
        ;
    }
    let num_y: i64 = dy * size.height;
    let y: i64 = div_floor_i64(num_y, den_y);

    PointCoord { x, y }
}

/// A coordinate equidistant (in longitude) from the east and west edges, and
/// equidistant (in Mercator ordinate) from the north and south edges,
/// projects to the exact centre of a canvas with even dimensions.
pub proof fn lemma_projects_center(size: Size, bounds: LatLngBounds, coord: GeoCoord)
    requires
        size.wf(),
        bounds.wf(),
        coord.wf(),
        coord.lng - bounds.west == bounds.east - coord.lng,
        bounds.merc_north - coord.merc_lat == coord.merc_lat - bounds.merc_south,
        size.width % 2 == 0,
        size.height % 2 == 0,
    ensures
        proj_x(size, bounds, coord) == size.width / 2,
        proj_y(size, bounds, coord) == size.height / 2,
{
    let d = coord.lng - bounds.west;
    let k = size.width as int / 2;
    assert(size.width == 2 * k);
    assert(bounds.east - bounds.west == 2 * d);
    assert(d * (2 * k) == (2 * d) * k) by (nonlinear_arith);
    lemma_div_multiples_vanish(k, 2 * d);
    assert(proj_x(size, bounds, coord) == k);

    let e = bounds.merc_north - coord.merc_lat;
    let h = size.height as int / 2;
    assert(size.height == 2 * h);
    assert(bounds.merc_north - bounds.merc_south == 2 * e);
    assert(e * (2 * h) == (2 * e) * h) by (nonlinear_arith);
    lemma_div_multiples_vanish(h, 2 * e);
    assert(proj_y(size, bounds, coord) == h);
}

/// Moving a coordinate north (a strictly larger Mercator ordinate, the
/// transform being strictly increasing in latitude) strictly decreases the
/// exact vertical position — stated over the numerators of the two values,
/// which share the positive denominator `merc_north - merc_south` — and
/// weakly decreases the centipixel value, which floors the exact one.
pub proof fn lemma_projection_monotone(size: Size, bounds: LatLngBounds, c1: GeoCoord, c2: GeoCoord)
    requires
        size.wf(),
        bounds.wf(),
        c1.wf(),
        c2.wf(),
        c1.merc_lat < c2.merc_lat,
    ensures
        (bounds.merc_north - c2.merc_lat) * size.height < (bounds.merc_north - c1.merc_lat)
            * size.height,
        proj_y(size, bounds, c2) <= proj_y(size, bounds, c1),
{
    lemma_mul_strict_inequality(
        bounds.merc_north - c2.merc_lat,
        bounds.merc_north - c1.merc_lat,
        size.height as int,
    );
    assert((bounds.merc_north - c2.merc_lat) * size.height == size.height as int * (
    bounds.merc_north - c2.merc_lat)) by (nonlinear_arith);
    assert((bounds.merc_north - c1.merc_lat) * size.height == size.height as int * (
    bounds.merc_north - c1.merc_lat)) by (nonlinear_arith);
    lemma_div_is_ordered(
        (bounds.merc_north - c2.merc_lat) * size.height,
        (bounds.merc_north - c1.merc_lat) * size.height,
        bounds.merc_north - bounds.merc_south,
    );
}

} // verus!
