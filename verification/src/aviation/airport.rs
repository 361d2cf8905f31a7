use crate::constants::{
    AIRPORT_TEXT_HEIGHT_DEFAULT_CP,
    AIRPORT_TEXT_WIDTH_DEFAULT_CP,
    FONT_SIZE,
    LABEL_MARGIN_CP,
    SMALL_WINDOW_WIDTH_CP,
};
use crate::dimension::geo::{
    proj_x,
    proj_y,
    GeoCoord,
    GeoCoordTrait,
    LatLngBounds,
    get_mercator_position,
};
use crate::dimension::point::PointCoord;
use crate::dimension::{Size, MAX_DIM_CP};
use vstd::prelude::*;
use vstd::string::StringExecFns;

verus! {

/// An airport to plot, as the host supplies it at ingestion time.
#[derive(Debug)]
pub struct TargetAirportRawData {
    pub icao: String,
    pub iata: String,
    pub name: String,
    pub city: String,
    pub country: String,
    pub coord: GeoCoord,
}

impl Clone for TargetAirportRawData {
    fn clone(&self) -> (res: Self)
        ensures
            res == self,
    {
        TargetAirportRawData {
            icao: self.icao.clone(),
            iata: self.iata.clone(),
            name: self.name.clone(),
            city: self.city.clone(),
            country: self.country.clone(),
            coord: self.coord,
        }
    }
}

/// An airport entity: the supplied record plus the rendering state the
/// update loop maintains (dot position, label metrics and position, font
/// size).  All pixel lengths are centipixels.
#[derive(Debug)]
pub struct Airport {
    pub icao: String,
    pub iata: String,
    pub name: String,
    pub city: String,
    pub country: String,
    pub coord: GeoCoord,
    pub radius: i64,
    pub pos: PointCoord,
    pub text_width: i64,
    pub text_height: i64,
    pub text_pos: PointCoord,
    pub font_size: u8,
}

impl GeoCoordTrait for Airport {
    open spec fn coord_spec(&self) -> GeoCoord {
        self.coord
    }

    fn get_coord(&self) -> (c: GeoCoord) {
        self.coord
    }
}

/// The airport entity a raw record turns into: positions and label metrics
/// all start at zero and are filled in by the metrics pass and the update
/// loop.
pub open spec fn airport_of(raw: TargetAirportRawData) -> Airport {
    Airport {
        icao: raw.icao,
        iata: raw.iata,
        name: raw.name,
        city: raw.city,
        country: raw.country,
        coord: raw.coord,
        radius: 0,
        pos: PointCoord { x: 0, y: 0 },
        text_width: 0,
        text_height: 0,
        text_pos: PointCoord { x: 0, y: 0 },
        font_size: FONT_SIZE,
    }
}

/// Font size responsive to the window width: small screens get an enlarged
/// label font.
pub open spec fn responsive_font_size(window_width: int) -> u8 {
    if window_width < SMALL_WINDOW_WIDTH_CP {
        44u8
    } else {
        FONT_SIZE
    }
}

/// Measured label width, or the fixed fallback when measurement failed.
pub open spec fn text_width_of(measured: Option<Size>) -> i64 {
    match measured {
        Some(m) => m.width,
        None => AIRPORT_TEXT_WIDTH_DEFAULT_CP,
    }
}

/// Measured label height, or the fixed fallback when measurement failed.
pub open spec fn text_height_of(measured: Option<Size>) -> i64 {
    match measured {
        Some(m) => m.height,
        None => AIRPORT_TEXT_HEIGHT_DEFAULT_CP,
    }
}

/// An airport after the label-metrics pass: the responsive font size and the
/// measured (or fallback) label dimensions applied, everything else kept.
pub open spec fn text_applied(a: Airport, window_width: int, measured: Option<Size>) -> Airport {
    Airport {
        font_size: responsive_font_size(window_width),
        text_width: text_width_of(measured),
        text_height: text_height_of(measured),
        ..a
    }
}

/// Horizontal label position: offset left from the dot by 0.8 of the label
/// width; clamped to a fixed margin at the left edge, and right-aligned
/// within the same margin when the label would leave the canvas on the
/// right.
pub open spec fn label_x_spec(dot_x: int, text_width: int, canvas_width: int) -> int {
    let x0 = dot_x - 4 * text_width / 5;
    let x1 = if x0 < 0 {
        LABEL_MARGIN_CP as int
    } else {
        x0
    };
    if x1 + text_width > canvas_width {
        canvas_width - text_width - LABEL_MARGIN_CP
    } else {
        x1
    }
}

/// An airport after one pass of the position updater: the dot sits at the
/// projected coordinate, the label above it at the clamped horizontal
/// position.
pub open spec fn updated_airport(a: Airport, canvas: Size, bounds: LatLngBounds) -> Airport {
    let px = proj_x(canvas, bounds, a.coord);
    let py = proj_y(canvas, bounds, a.coord);
    Airport {
        pos: PointCoord { x: px as i64, y: py as i64 },
        text_pos: PointCoord {
            x: label_x_spec(px, a.text_width as int, canvas.width as int) as i64,
            y: (py - a.text_height) as i64,
        },
        ..a
    }
}

impl Airport {
    /// Coordinate and label metrics within the machine limits the projector
    /// and the label rule assume.
    pub open spec fn wf(self) -> bool {
        &&& self.coord.wf()
        &&& 0 <= self.text_width <= MAX_DIM_CP
        &&& 0 <= self.text_height <= MAX_DIM_CP
    }

    pub fn new(raw: TargetAirportRawData) -> (a: Airport)
        ensures
            a == airport_of(raw),
    {
        Airport {
            icao: raw.icao,
            iata: raw.iata,
            name: raw.name,
            city: raw.city,
            country: raw.country,
            coord: raw.coord,
            radius: 0,
            pos: PointCoord { x: 0, y: 0 },
            text_width: 0,
            text_height: 0,
            text_pos: PointCoord { x: 0, y: 0 },
            font_size: FONT_SIZE,
        }
    }

    /// The label text: the airport's name followed by its city in
    /// parentheses.
    pub fn get_airport_text(&self) -> (t: String)
        ensures
            t@ == self.name@ + " ("@ + self.city@ + ")"@,
    {
        self.name.clone().concat(" (").concat(self.city.as_str()).concat(")")
    }

    /// Applies the label metrics the host measured for this airport's text
    /// (centipixels, rounded to whole units by the host), or the fixed
    /// fallback dimensions when measurement failed, and picks the
    /// responsive font size from the window width.
    pub fn set_text_width(&mut self, window_width: i64, measured: Option<Size>)
        requires
            measured matches Some(m) ==> 0 <= m.width <= MAX_DIM_CP && 0 <= m.height
                <= MAX_DIM_CP,
        ensures
            *final(self) == text_applied(*old(self), window_width as int, measured),
    {
        let font_size: u8 = if window_width < SMALL_WINDOW_WIDTH_CP {
            (FONT_SIZE as i64 * 28 / 10) as u8
        } else {
            FONT_SIZE
        };
        self.font_size = font_size;
        match measured {
            Some(m) => {
                self.text_width = m.width;
                self.text_height = m.height;
            },
            None => {
                self.text_width = AIRPORT_TEXT_WIDTH_DEFAULT_CP;
                self.text_height = AIRPORT_TEXT_HEIGHT_DEFAULT_CP;
            },
        }
    }

    /// Recomputes the dot's pixel position via the projector and places the
    /// label relative to it.  Called whenever the viewport or canvas
    /// changed.
    pub fn update(&mut self, canvas: &Size, bounds: &LatLngBounds)
        requires
            canvas.wf(),
            bounds.wf(),
            old(self).wf(),
        ensures
            *final(self) == updated_airport(*old(self), *canvas, *bounds),
            final(self).wf(),
    {
        let pos = get_mercator_position(canvas, bounds, &self.coord);
        self.pos = pos;

        let shift: i64 = 4 * self.text_width / 5;
        let mut x: i64 = pos.x - shift;
        if x < 0 {
            x = LABEL_MARGIN_CP;
        }
        if x + self.text_width > canvas.width {
            x = canvas.width - self.text_width - LABEL_MARGIN_CP;
        }
        self.text_pos.x = x;
        self.text_pos.y = pos.y - self.text_height;
    }
}

} // verus!
