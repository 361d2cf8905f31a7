use flightmap::aviation::airport::{Airport, TargetAirportRawData};
use flightmap::dimension::geo::{get_mercator_position, GeoCoord, LatLngBounds};
use flightmap::dimension::point::PointCoord;
use flightmap::dimension::Size;

/// Mercator vertical transform of a latitude in degrees, scaled by 1e9 and
/// rounded, exactly as the host would evaluate it.
fn merc_scaled(lat_deg: f64) -> i64 {
    let rad = lat_deg * std::f64::consts::PI / 180.0;
    (((rad / 2.0) + std::f64::consts::PI / 4.0).tan().ln() * 1e9).round() as i64
}

fn bounds_deg(north: f64, east: f64, south: f64, west: f64) -> LatLngBounds {
    LatLngBounds {
        north: (north * 1e6).round() as i64,
        east: (east * 1e6).round() as i64,
        south: (south * 1e6).round() as i64,
        west: (west * 1e6).round() as i64,
        merc_north: merc_scaled(north),
        merc_south: merc_scaled(south),
    }
}

fn coord_deg(lat: f64, lng: f64) -> GeoCoord {
    GeoCoord {
        lat: (lat * 1e6).round() as i64,
        lng: (lng * 1e6).round() as i64,
        merc_lat: merc_scaled(lat),
    }
}

#[test]
fn projector_maps_origin_to_canvas_center() {
    // Canvas 200 x 200 pixels (centipixels below), bounds +-10 degrees.
    let size = Size { width: 20_000, height: 20_000 };
    let bounds = bounds_deg(10.0, 10.0, -10.0, -10.0);
    let coord = coord_deg(0.0, 0.0);

    let p = get_mercator_position(&size, &bounds, &coord);
    // Pixel (100, 100), within a centipixel of rounding slack on y.
    assert_eq!(p.x, 10_000);
    assert!((p.y - 10_000).abs() <= 1, "y was {}", p.y);
}

#[test]
fn projector_y_decreases_as_latitude_increases() {
    let size = Size { width: 20_000, height: 20_000 };
    let bounds = bounds_deg(10.0, 10.0, -10.0, -10.0);

    let lats = [-9.0, -5.0, -1.0, 0.0, 1.5, 4.0, 8.5];
    let mut last_y: Option<i64> = None;
    for lat in lats {
        let p = get_mercator_position(&size, &bounds, &coord_deg(lat, 3.0));
        if let Some(prev) = last_y {
            assert!(p.y < prev, "y did not strictly decrease at lat {}", lat);
        }
        last_y = Some(p.y);
    }
}

#[test]
fn projector_does_not_clamp_outside_viewport() {
    let size = Size { width: 20_000, height: 20_000 };
    let bounds = bounds_deg(10.0, 10.0, -10.0, -10.0);

    let west_of_window = get_mercator_position(&size, &bounds, &coord_deg(0.0, -20.0));
    assert!(west_of_window.x < 0);
    let north_of_window = get_mercator_position(&size, &bounds, &coord_deg(15.0, 0.0));
    assert!(north_of_window.y < 0);
}

fn airport_at(lng_deg: f64) -> Airport {
    let raw = TargetAirportRawData {
        icao: "VHHH".to_string(),
        iata: "HKG".to_string(),
        name: "Hong Kong International".to_string(),
        city: "Hong Kong".to_string(),
        country: "Hong Kong".to_string(),
        coord: coord_deg(0.0, lng_deg),
    };
    Airport::new(raw)
}

#[test]
fn label_clamps_to_left_margin() {
    // Canvas 300 pixels wide; label 100 pixels wide; dot at pixel x = 10.
    // Bounds 0..30 degrees across 300 pixels: 1 degree = 10 pixels.
    let size = Size { width: 30_000, height: 20_000 };
    let bounds = bounds_deg(10.0, 30.0, -10.0, 0.0);

    let mut airport = airport_at(1.0);
    airport.set_text_width(100_000, Some(Size { width: 10_000, height: 3_000 }));
    airport.update(&size, &bounds);

    assert_eq!(airport.pos.x, 1_000);
    // 10 - 0.8 * 100 < 0, so the label clamps to the 20-pixel margin.
    assert_eq!(airport.text_pos.x, 2_000);
}

#[test]
fn label_right_aligns_at_right_edge() {
    let size = Size { width: 30_000, height: 20_000 };
    let bounds = bounds_deg(10.0, 30.0, -10.0, 0.0);

    let mut airport = airport_at(29.0);
    airport.set_text_width(100_000, Some(Size { width: 10_000, height: 3_000 }));
    airport.update(&size, &bounds);

    assert_eq!(airport.pos.x, 29_000);
    // 290 - 80 + 100 > 300, so the label right-aligns: 300 - 100 - 20 = 180.
    assert_eq!(airport.text_pos.x, 18_000);
}

#[test]
fn label_sits_above_the_dot() {
    let size = Size { width: 30_000, height: 20_000 };
    let bounds = bounds_deg(10.0, 30.0, -10.0, 0.0);

    let mut airport = airport_at(15.0);
    airport.set_text_width(100_000, Some(Size { width: 4_000, height: 2_500 }));
    airport.update(&size, &bounds);

    assert_eq!(airport.text_pos.y, airport.pos.y - 2_500);
}

#[test]
fn small_windows_get_the_enlarged_font() {
    let mut airport = airport_at(0.0);
    airport.set_text_width(46_700, Some(Size { width: 4_000, height: 2_500 }));
    assert_eq!(airport.font_size, 44);

    airport.set_text_width(46_800, Some(Size { width: 4_000, height: 2_500 }));
    assert_eq!(airport.font_size, 16);
}

#[test]
fn measurement_failure_falls_back_to_default_metrics() {
    let mut airport = airport_at(0.0);
    airport.set_text_width(100_000, None);
    assert_eq!(airport.text_width, 5_000);
    assert_eq!(airport.text_height, 3_000);
}

#[test]
fn airport_text_is_name_and_city() {
    let airport = airport_at(0.0);
    assert_eq!(airport.get_airport_text(), "Hong Kong International (Hong Kong)");
}

#[test]
fn point_coord_defaults_to_origin() {
    let p = PointCoord::default();
    assert_eq!(p.x, 0);
    assert_eq!(p.y, 0);
}
