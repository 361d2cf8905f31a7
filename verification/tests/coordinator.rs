use flightmap::aviation::airport::TargetAirportRawData;
use flightmap::aviation::arrival::{
    AeroAirportRawData, AeroArrivalsActualRawData, AeroArrivalsRawData,
};
use flightmap::aviation::reference::AirportRefer;
use flightmap::dimension::geo::{GeoCoord, LatLngBounds};
use flightmap::dimension::Size;
use flightmap::manager::Manager;

fn merc_scaled(lat_deg: f64) -> i64 {
    let rad = lat_deg * std::f64::consts::PI / 180.0;
    (((rad / 2.0) + std::f64::consts::PI / 4.0).tan().ln() * 1e9).round() as i64
}

fn coord_deg(lat: f64, lng: f64) -> GeoCoord {
    GeoCoord {
        lat: (lat * 1e6).round() as i64,
        lng: (lng * 1e6).round() as i64,
        merc_lat: merc_scaled(lat),
    }
}

fn bounds_deg(north: f64, east: f64, south: f64, west: f64) -> LatLngBounds {
    LatLngBounds {
        north: (north * 1e6).round() as i64,
        east: (east * 1e6).round() as i64,
        south: (south * 1e6).round() as i64,
        west: (west * 1e6).round() as i64,
        merc_north: merc_scaled(north),
        merc_south: merc_scaled(south),
    }
}

fn refer(icao: &str, iata: &str, name: &str, lat: f64, lng: f64) -> AirportRefer {
    AirportRefer {
        icao: icao.to_string(),
        iata: iata.to_string(),
        name: name.to_string(),
        city: name.to_string(),
        country: name.to_string(),
        coord: coord_deg(lat, lng),
    }
}

fn raw_airport(icao: &str, iata: &str, name: &str, lat: f64, lng: f64) -> TargetAirportRawData {
    TargetAirportRawData {
        icao: icao.to_string(),
        iata: iata.to_string(),
        name: name.to_string(),
        city: name.to_string(),
        country: name.to_string(),
        coord: coord_deg(lat, lng),
    }
}

fn airport_block(icao: &str) -> AeroAirportRawData {
    AeroAirportRawData {
        code: Some(icao.to_string()),
        code_icao: Some(icao.to_string()),
        code_iata: None,
        code_lid: None,
        airport_info_url: None,
    }
}

fn valid_raw_between(orig: &str, dest: &str) -> AeroArrivalsActualRawData {
    AeroArrivalsActualRawData {
        ident: "CPA759".to_string(),
        ident_icao: Some("CPA759".to_string()),
        ident_iata: Some("CX759".to_string()),
        fa_flight_id: "CPA759-1609400000-schedule-0000".to_string(),
        operator: Some("CPA".to_string()),
        operator_icao: Some("CPA".to_string()),
        operator_iata: Some("CX".to_string()),
        flight_number: Some("759".to_string()),
        registration: None,
        atc_ident: None,
        inbound_fa_flight_id: None,
        codeshares: vec![],
        codeshares_iata: vec![],
        blocked: false,
        diverted: false,
        cancelled: false,
        position_only: false,
        origin: airport_block(orig),
        destination: airport_block(dest),
        departure_delay: Some(0),
        arrival_delay: Some(0),
        filed_ete: Some(14_000),
        scheduled_out: Some("2020-12-31T23:00:00Z".to_string()),
        estimated_out: None,
        actual_out: None,
        scheduled_off: Some("2020-12-31T23:10:00Z".to_string()),
        estimated_off: None,
        actual_off: None,
        scheduled_on: Some("2020-12-31T23:40:00Z".to_string()),
        estimated_on: None,
        actual_on: None,
        scheduled_in: Some("2020-12-31T23:50:00Z".to_string()),
        estimated_in: None,
        actual_in: None,
        progress_percent: Some(42),
        status: "Scheduled".to_string(),
        aircraft_type: Some("A359".to_string()),
        route_distance: Some(1_588),
        filed_airspeed: Some(480),
        filed_altitude: Some(350),
        route: None,
        baggage_claim: None,
        seats_cabin_business: None,
        seats_cabin_coach: None,
        seats_cabin_first: None,
        gate_origin: None,
        gate_destination: None,
        terminal_origin: None,
        terminal_destination: None,
    }
}

fn database() -> Vec<AirportRefer> {
    vec![
        refer("VHHH", "HKG", "Hong Kong", 22.308889, 113.914722),
        refer("WSSS", "SIN", "Singapore", 1.359167, 103.989441),
    ]
}

fn two_airports() -> Vec<TargetAirportRawData> {
    vec![
        raw_airport("VHHH", "HKG", "Hong Kong", 22.308889, 113.914722),
        raw_airport("WSSS", "SIN", "Singapore", 1.359167, 103.989441),
    ]
}

// 2021-01-01T01:00:00Z.
const NOW: i64 = 1_609_462_800;

#[test]
fn change_detector_is_idempotent_after_commit() {
    let mut m = Manager::new();
    let canvas = Size { width: 20_000, height: 20_000 };
    let bounds = bounds_deg(10.0, 10.0, -10.0, -10.0);

    assert!(m.is_update_needed(&canvas, &bounds));
    m.update(&canvas, &bounds);
    assert!(!m.is_update_needed(&canvas, &bounds));
    assert!(!m.is_update_needed(&canvas, &bounds));
}

#[test]
fn change_detector_fires_on_each_single_field() {
    let mut m = Manager::new();
    let canvas = Size { width: 20_000, height: 20_000 };
    let bounds = bounds_deg(10.0, 10.0, -10.0, -10.0);
    m.update(&canvas, &bounds);

    let mut wider = canvas;
    wider.width += 100;
    assert!(m.is_update_needed(&wider, &bounds));
    m.update(&wider, &bounds);
    assert!(!m.is_update_needed(&wider, &bounds));

    let mut taller = wider;
    taller.height += 100;
    assert!(m.is_update_needed(&taller, &bounds));
    m.update(&taller, &bounds);
    assert!(!m.is_update_needed(&taller, &bounds));

    let mut b = bounds;
    b.north += 1;
    assert!(m.is_update_needed(&taller, &b));
    m.update(&taller, &b);
    assert!(!m.is_update_needed(&taller, &b));

    b.east += 1;
    assert!(m.is_update_needed(&taller, &b));
    m.update(&taller, &b);

    b.south -= 1;
    assert!(m.is_update_needed(&taller, &b));
    m.update(&taller, &b);

    b.west -= 1;
    assert!(m.is_update_needed(&taller, &b));
    m.update(&taller, &b);
    assert!(!m.is_update_needed(&taller, &b));
}

#[test]
fn set_airports_collects_icao_membership_set() {
    let mut m = Manager::new();
    m.set_airports(two_airports());
    assert_eq!(m.airports.len(), 2);
    assert_eq!(m.airport_icaos, vec!["VHHH".to_string(), "WSSS".to_string()]);
    assert_eq!(m.airports[0].name, "Hong Kong");
    assert_eq!(m.airports[1].iata, "SIN");
    assert_eq!(m.airports[0].font_size, 16);
    assert_eq!(m.airports[0].text_width, 0);
}

#[test]
fn prepare_builds_one_arrival_and_flight_and_duplicated_coords() {
    let mut m = Manager::new();
    let db = database();
    let fetched = vec![AeroArrivalsRawData { arrivals: vec![valid_raw_between("VHHH", "WSSS")] }];
    let measured: Vec<Option<Size>> = vec![None, None];

    let coords = m.prepare_at(two_airports(), 100_000, &measured, &fetched, &db, Some(NOW));

    assert_eq!(m.arrivals.len(), 1);
    assert_eq!(m.flights.len(), 1);
    assert_eq!(m.arrivals[0].orig_airport.icao, "VHHH");
    assert_eq!(m.flights[0].dest_airport.icao, "WSSS");

    // The framing coordinate list holds the origin's coordinate twice.
    assert_eq!(coords.len(), 2);
    let hong_kong = coord_deg(22.308889, 113.914722);
    assert_eq!(coords[0], hong_kong);
    assert_eq!(coords[1], hong_kong);
}

#[test]
fn prepare_drops_invalid_arrivals_and_keeps_valid_ones() {
    let mut m = Manager::new();
    let db = database();
    let mut cancelled = valid_raw_between("VHHH", "WSSS");
    cancelled.cancelled = true;
    let fetched = vec![AeroArrivalsRawData {
        arrivals: vec![cancelled, valid_raw_between("WSSS", "VHHH")],
    }];
    let measured: Vec<Option<Size>> = vec![None, None];

    let coords = m.prepare_at(two_airports(), 100_000, &measured, &fetched, &db, Some(NOW));

    assert_eq!(m.arrivals.len(), 1);
    assert_eq!(m.arrivals[0].orig_airport.icao, "WSSS");
    assert_eq!(coords.len(), 2);
}

#[test]
fn prepare_against_the_clock_accepts_the_same_records() {
    let mut m = Manager::new();
    let db = database();
    let fetched = vec![AeroArrivalsRawData { arrivals: vec![valid_raw_between("VHHH", "WSSS")] }];
    let measured: Vec<Option<Size>> = vec![None, None];

    let coords = m.prepare(two_airports(), 100_000, &measured, &fetched, &db, true);

    assert_eq!(m.arrivals.len(), 1);
    assert_eq!(m.flights.len(), 1);
    assert_eq!(coords.len(), 2);
}

#[test]
fn live_prepare_is_clock_free() {
    let mut m = Manager::new();
    let db = database();
    let fetched = vec![AeroArrivalsRawData { arrivals: vec![valid_raw_between("VHHH", "WSSS")] }];
    let measured: Vec<Option<Size>> = vec![None, None];

    m.prepare(two_airports(), 100_000, &measured, &fetched, &db, false);

    assert_eq!(m.arrivals.len(), 1);
    // Live data keeps the parsed timestamps untouched.
    assert_eq!(m.arrivals[0].scheduled_in, 1_609_458_600);
    assert_eq!(m.arrivals[0].actual_out, 1_609_455_600);
}

#[test]
fn repeated_prepare_replaces_the_whole_batch() {
    let mut m = Manager::new();
    let db = database();
    let fetched = vec![AeroArrivalsRawData { arrivals: vec![valid_raw_between("VHHH", "WSSS")] }];
    let measured: Vec<Option<Size>> = vec![None, None];

    m.prepare_at(two_airports(), 100_000, &measured, &fetched, &db, Some(NOW));
    let coords = m.prepare_at(two_airports(), 100_000, &measured, &fetched, &db, Some(NOW));

    // A second pass replaces the sets instead of accumulating them.
    assert_eq!(m.airport_icaos.len(), 2);
    assert_eq!(m.airports.len(), 2);
    assert_eq!(m.arrivals.len(), 1);
    assert_eq!(m.flights.len(), 1);
    assert_eq!(coords.len(), 2);
}

#[test]
fn update_recomputes_positions_only_on_change() {
    let mut m = Manager::new();
    let db = database();
    let fetched = vec![AeroArrivalsRawData { arrivals: vec![valid_raw_between("VHHH", "WSSS")] }];
    let measured: Vec<Option<Size>> = vec![None, None];
    m.prepare_at(two_airports(), 100_000, &measured, &fetched, &db, Some(NOW));

    let canvas = Size { width: 20_000, height: 20_000 };
    let bounds = bounds_deg(30.0, 125.0, -5.0, 100.0);
    m.update(&canvas, &bounds);

    let pos_before = m.airports[0].pos;
    let flight_orig_before = m.flights[0].orig;
    assert_ne!(pos_before, flightmap::dimension::point::PointCoord { x: 0, y: 0 });

    // An identical tick leaves every position untouched.
    m.update(&canvas, &bounds);
    assert_eq!(m.airports[0].pos, pos_before);
    assert_eq!(m.flights[0].orig, flight_orig_before);

    // A bounds change moves the dots.
    let shifted = bounds_deg(30.0, 126.0, -5.0, 101.0);
    m.update(&canvas, &shifted);
    assert_ne!(m.airports[0].pos, pos_before);
}
