use crate::aviation::arrival::AirportArrival;
use crate::aviation::reference::AirportRefer;
use crate::dimension::geo::{get_mercator_position, proj_x, proj_y, LatLngBounds};
use crate::dimension::point::PointCoord;
use crate::dimension::Size;
use vstd::prelude::*;

verus! {

/// Default acceleration of a flight's motion state, in thousandths per tick
/// (0.01).
pub const DEFAULT_ACCEL_MILLI: i64 = 10;

/// Default deceleration factor, in thousandths (0.96).
pub const DEFAULT_DECEL_MILLI: i64 = 960;

/// Default speed cap, in thousandths (1.0).
pub const DEFAULT_VMAX_MILLI: i64 = 1_000;

/// A flight entity, derived one-to-one from a validated arrival record.
///
/// `orig` and `dest` are the projected endpoint positions in centipixels.
/// The motion-state fields (velocity, speed, angle and the acceleration
/// constants, in thousandths) are carried for the animation but not yet
/// advanced by the update loop, which only re-projects the endpoints.
#[derive(Debug)]
pub struct Flight {
    pub icao: String,
    pub iata: String,
    pub operator: String,
    pub flight_number: String,
    pub orig_airport: AirportRefer,
    pub dest_airport: AirportRefer,
    pub index: usize,
    pub orig: PointCoord,
    pub dest: PointCoord,
    pub velocity: PointCoord,
    pub vmax: i64,
    pub speed: i64,
    pub angle: i64,
    pub accel: i64,
    pub decel: i64,
    pub dest_index: u8,
    pub approaching: bool,
    pub holding: bool,
}

/// The flight entity an arrival record turns into: endpoints at the origin
/// and destination airports, motion state at its defaults.
pub open spec fn flight_of(arrival: AirportArrival) -> Flight {
    Flight {
        icao: arrival.icao,
        iata: arrival.iata,
        operator: arrival.operator,
        flight_number: arrival.flight_number,
        orig_airport: arrival.orig_airport,
        dest_airport: arrival.dest_airport,
        index: 0,
        orig: PointCoord { x: 0, y: 0 },
        dest: PointCoord { x: 0, y: 0 },
        velocity: PointCoord { x: 0, y: 0 },
        vmax: DEFAULT_VMAX_MILLI,
        speed: 0,
        angle: 0,
        accel: DEFAULT_ACCEL_MILLI,
        decel: DEFAULT_DECEL_MILLI,
        dest_index: 0,
        approaching: false,
        holding: false,
    }
}

/// A flight after one pass of the position updater: both endpoints sit at
/// the projected coordinates of their airports.
pub open spec fn updated_flight(f: Flight, canvas: Size, bounds: LatLngBounds) -> Flight {
    Flight {
        orig: PointCoord {
            x: proj_x(canvas, bounds, f.orig_airport.coord) as i64,
            y: proj_y(canvas, bounds, f.orig_airport.coord) as i64,
        },
        dest: PointCoord {
            x: proj_x(canvas, bounds, f.dest_airport.coord) as i64,
            y: proj_y(canvas, bounds, f.dest_airport.coord) as i64,
        },
        ..f
    }
}

impl Flight {
    /// Endpoint coordinates within the projector's limits.
    pub open spec fn wf(self) -> bool {
        &&& self.orig_airport.coord.wf()
        &&& self.dest_airport.coord.wf()
    }

    pub fn new(arrival: AirportArrival) -> (f: Flight)
        ensures
            f == flight_of(arrival),
    {
        Flight {
            icao: arrival.icao,
            iata: arrival.iata,
            operator: arrival.operator,
            flight_number: arrival.flight_number,
            orig_airport: arrival.orig_airport,
            dest_airport: arrival.dest_airport,
            index: 0,
            orig: PointCoord { x: 0, y: 0 },
            dest: PointCoord { x: 0, y: 0 },
            velocity: PointCoord { x: 0, y: 0 },
            vmax: DEFAULT_VMAX_MILLI,
            speed: 0,
            angle: 0,
            accel: DEFAULT_ACCEL_MILLI,
            decel: DEFAULT_DECEL_MILLI,
            dest_index: 0,
            approaching: false,
            holding: false,
        }
    }

    /// Re-projects both endpoint positions.  Called whenever the viewport or
    /// canvas changed.
    pub fn update(&mut self, canvas: &Size, bounds: &LatLngBounds)
        requires
            canvas.wf(),
            bounds.wf(),
            old(self).wf(),
        ensures
            *final(self) == updated_flight(*old(self), *canvas, *bounds),
            final(self).wf(),
    {
        self.orig = get_mercator_position(canvas, bounds, &self.orig_airport.coord);
        self.dest = get_mercator_position(canvas, bounds, &self.dest_airport.coord);
    }
}

} // verus!
