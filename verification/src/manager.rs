use crate::aviation::airport::{airport_of, text_applied, updated_airport, Airport, TargetAirportRawData};
use crate::aviation::arrival::{
    accepted,
    extracted,
    lemma_extracted_wf,
    now_seconds,
    AeroArrivalsActualRawData,
    AeroArrivalsRawData,
    AirportArrival,
    TS_LIMIT,
};
use crate::aviation::flight::{flight_of, updated_flight, Flight};
use crate::aviation::reference::AirportRefer;
use crate::dimension::geo::{GeoCoord, LatLngBounds};
use crate::dimension::{Size, MAX_DIM_CP};
use vstd::prelude::*;

verus! {

/// ICAO codes of a batch of raw airports, in order.
pub open spec fn icaos_of(raws: Seq<TargetAirportRawData>) -> Seq<String> {
    raws.map_values(|r: TargetAirportRawData| r.icao)
}

/// Airport entities of a batch of raw airports, in order.
pub open spec fn airports_of(raws: Seq<TargetAirportRawData>) -> Seq<Airport> {
    raws.map_values(|r: TargetAirportRawData| airport_of(r))
}

/// The validated records one airport's response contributes, in response
/// order.
pub open spec fn accepted_in_list(
    list: Seq<AeroArrivalsActualRawData>,
    icaos: Seq<String>,
    db: Seq<AirportRefer>,
    replay_now: Option<i64>,
) -> Seq<AirportArrival>
    decreases list.len(),
{
    if list.len() == 0 {
        Seq::empty()
    } else {
        (if accepted(list[0], icaos, db) {
            seq![extracted(list[0], db, replay_now)]
        } else {
            Seq::empty()
        }) + accepted_in_list(list.drop_first(), icaos, db, replay_now)
    }
}

/// The validated records a batch of responses contributes: response order,
/// then arrival order within each response.
pub open spec fn arrivals_of(
    rawdata: Seq<AeroArrivalsRawData>,
    icaos: Seq<String>,
    db: Seq<AirportRefer>,
    replay_now: Option<i64>,
) -> Seq<AirportArrival>
    decreases rawdata.len(),
{
    if rawdata.len() == 0 {
        Seq::empty()
    } else {
        accepted_in_list(rawdata[0].arrivals@, icaos, db, replay_now) + arrivals_of(
            rawdata.drop_first(),
            icaos,
            db,
            replay_now,
        )
    }
}

pub proof fn lemma_accepted_in_list_push(
    list: Seq<AeroArrivalsActualRawData>,
    x: AeroArrivalsActualRawData,
    icaos: Seq<String>,
    db: Seq<AirportRefer>,
    replay_now: Option<i64>,
)
    ensures
        accepted_in_list(list.push(x), icaos, db, replay_now) == accepted_in_list(list, icaos, db, replay_now)
            + (if accepted(x, icaos, db) {
            seq![extracted(x, db, replay_now)]
        } else {
            Seq::<AirportArrival>::empty()
        }),
    decreases list.len(),
{
    let tail = if accepted(x, icaos, db) {
        seq![extracted(x, db, replay_now)]
    } else {
        Seq::<AirportArrival>::empty()
    };
    if list.len() == 0 {
        assert(list.push(x)[0] == x);
        assert(list.push(x).drop_first() =~= Seq::<AeroArrivalsActualRawData>::empty());
        assert(accepted_in_list(Seq::<AeroArrivalsActualRawData>::empty(), icaos, db, replay_now)
            == Seq::<AirportArrival>::empty());
        assert(accepted_in_list(list.push(x), icaos, db, replay_now) =~= accepted_in_list(
            list,
            icaos,
            db,
            replay_now,
        ) + tail);
    } else {
        assert(list.push(x)[0] == list[0]);
        assert(list.push(x).drop_first() =~= list.drop_first().push(x));
        lemma_accepted_in_list_push(list.drop_first(), x, icaos, db, replay_now);
        assert(accepted_in_list(list.push(x), icaos, db, replay_now) =~= accepted_in_list(
            list,
            icaos,
            db,
            replay_now,
        ) + tail);
    }
}

pub proof fn lemma_arrivals_of_push(
    rawdata: Seq<AeroArrivalsRawData>,
    x: AeroArrivalsRawData,
    icaos: Seq<String>,
    db: Seq<AirportRefer>,
    replay_now: Option<i64>,
)
    ensures
        arrivals_of(rawdata.push(x), icaos, db, replay_now) == arrivals_of(rawdata, icaos, db, replay_now)
            + accepted_in_list(x.arrivals@, icaos, db, replay_now),
    decreases rawdata.len(),
{
    if rawdata.len() == 0 {
        assert(rawdata.push(x)[0] == x);
        assert(rawdata.push(x).drop_first() =~= Seq::<AeroArrivalsRawData>::empty());
        assert(arrivals_of(Seq::<AeroArrivalsRawData>::empty(), icaos, db, replay_now)
            == Seq::<AirportArrival>::empty());
        assert(arrivals_of(rawdata.push(x), icaos, db, replay_now) =~= arrivals_of(rawdata, icaos, db, replay_now)
            + accepted_in_list(x.arrivals@, icaos, db, replay_now));
    } else {
        assert(rawdata.push(x)[0] == rawdata[0]);
        assert(rawdata.push(x).drop_first() =~= rawdata.drop_first().push(x));
        lemma_arrivals_of_push(rawdata.drop_first(), x, icaos, db, replay_now);
        assert(arrivals_of(rawdata.push(x), icaos, db, replay_now) =~= arrivals_of(rawdata, icaos, db, replay_now)
            + accepted_in_list(x.arrivals@, icaos, db, replay_now));
    }
}

/// Whether the current canvas size or viewport bounds differ, in any of the
/// six scalar fields, from the last committed baselines.  Comparison is
/// exact: both sides originate from the same host source.
pub open spec fn needs_update_spec(m: Manager, canvas: Size, bounds: LatLngBounds) -> bool {
    ||| canvas.width != m.canvas.width
    ||| canvas.height != m.canvas.height
    ||| bounds.north != m.bounds.north
    ||| bounds.east != m.bounds.east
    ||| bounds.south != m.bounds.south
    ||| bounds.west != m.bounds.west
}

/// The post-state of one ingestion pass over the pre-state `pre`: the whole
/// entity set is replaced by the new batch — airports and their ICAO codes
/// taken from the raw batch, label metrics applied, the batch's validated
/// arrivals held, and one flight derived per arrival.  Only the committed
/// canvas/bounds baselines survive the pass.
pub open spec fn prepared(
    pre: Manager,
    post: Manager,
    raws: Seq<TargetAirportRawData>,
    window_width: int,
    measured: Seq<Option<Size>>,
    rawdata: Seq<AeroArrivalsRawData>,
    db: Seq<AirportRefer>,
    replay_now: Option<i64>,
) -> bool {
    &&& post.canvas == pre.canvas
    &&& post.bounds == pre.bounds
    &&& post.airport_icaos@ == icaos_of(raws)
    &&& post.airports@.len() == raws.len()
    &&& forall|i: int|
        0 <= i < raws.len() ==> post.airports@[i] == text_applied(
            airport_of(raws[i]),
            window_width,
            measured[i],
        )
    &&& post.arrivals@ == arrivals_of(rawdata, icaos_of(raws), db, replay_now)
    &&& post.flights@ == post.arrivals@.map_values(|a: AirportArrival| flight_of(a))
}

/// The coordinator of the overlay: holds the committed canvas/bounds
/// baselines and the airport, arrival and flight entities, converts raw
/// input, filters fetched arrival data, and recomputes entity positions
/// whenever the viewport or canvas changes.
#[derive(Debug)]
pub struct Manager {
    pub canvas: Size,
    pub bounds: LatLngBounds,
    pub airports: Vec<Airport>,
    pub airport_icaos: Vec<String>,
    pub arrivals: Vec<AirportArrival>,
    pub flights: Vec<Flight>,
}

impl Manager {
    /// Every held entity is within the machine limits the projector and the
    /// label rule assume.
    pub open spec fn wf(self) -> bool {
        &&& forall|i: int| 0 <= i < self.airports@.len() ==> (#[trigger] self.airports@[i]).wf()
        &&& forall|i: int|
            0 <= i < self.arrivals@.len() ==> (#[trigger] self.arrivals@[i]).orig_airport.coord.wf()
                && self.arrivals@[i].dest_airport.coord.wf()
        &&& forall|i: int| 0 <= i < self.flights@.len() ==> (#[trigger] self.flights@[i]).wf()
    }

    pub fn new() -> (m: Manager)
        ensures
            m.canvas == (Size { width: 100, height: 100 }),
            m.bounds == (LatLngBounds {
                north: 0,
                east: 0,
                south: 0,
                west: 0,
                merc_north: 0,
                merc_south: 0,
            }),
            m.airports@ == Seq::<Airport>::empty(),
            m.airport_icaos@ == Seq::<String>::empty(),
            m.arrivals@ == Seq::<AirportArrival>::empty(),
            m.flights@ == Seq::<Flight>::empty(),
            m.wf(),
    {
        Manager {
            canvas: Size { width: 100, height: 100 },
            bounds: LatLngBounds {
                north: 0,
                east: 0,
                south: 0,
                west: 0,
                merc_north: 0,
                merc_south: 0,
            },
            airports: Vec::new(),
            airport_icaos: Vec::new(),
            arrivals: Vec::new(),
            flights: Vec::new(),
        }
    }

    /// Converts the host-supplied raw airports into airport entities,
    /// replacing the held set, and records their ICAO codes as the
    /// requested-airport membership set.
    pub fn set_airports(&mut self, raws: Vec<TargetAirportRawData>)
        requires
            old(self).wf(),
            forall|i: int| 0 <= i < raws@.len() ==> (#[trigger] raws@[i]).coord.wf(),
        ensures
            final(self).airports@ == airports_of(raws@),
            final(self).airport_icaos@ == old(self).airport_icaos@ + icaos_of(raws@),
            final(self).canvas == old(self).canvas,
            final(self).bounds == old(self).bounds,
            final(self).arrivals == old(self).arrivals,
            final(self).flights == old(self).flights,
            final(self).wf(),
    {
        let ghost icaos0 = self.airport_icaos@;
        let mut airports: Vec<Airport> = Vec::new();
        let mut i: usize = 0;
        while i < raws.len()
            invariant
                0 <= i <= raws@.len(),
                airports@ == airports_of(raws@.take(i as int)),
                self.airport_icaos@ == icaos0 + icaos_of(raws@.take(i as int)),
                forall|k: int| 0 <= k < raws@.len() ==> (#[trigger] raws@[k]).coord.wf(),
                self.canvas == old(self).canvas,
                self.bounds == old(self).bounds,
                self.arrivals == old(self).arrivals,
                self.flights == old(self).flights,
                self.airports == old(self).airports,
            decreases raws@.len() - i,
        {
            let raw = raws[i].clone();
            self.airport_icaos.push(raw.icao.clone());
            airports.push(crate::aviation::airport::Airport::new(raw));
            proof {
                assert(raws@.take(i as int + 1) =~= raws@.take(i as int).push(raws@[i as int]));
                assert(airports_of(raws@.take(i as int + 1)) =~= airports_of(
                    raws@.take(i as int),
                ).push(airport_of(raws@[i as int])));
                assert(icaos_of(raws@.take(i as int + 1)) =~= icaos_of(raws@.take(i as int)).push(
                    raws@[i as int].icao,
                ));
                assert(self.airport_icaos@ =~= icaos0 + icaos_of(raws@.take(i as int + 1)));
            }
            i = i + 1;
        }
        proof {
            assert(raws@.take(raws@.len() as int) =~= raws@);
        }
        self.airports = airports;
        proof {
            assert forall|k: int| 0 <= k < self.airports@.len() implies (
            #[trigger] self.airports@[k]).wf() by {
                assert(self.airports@[k] == airport_of(raws@[k]));
            }
        }
    }

    /// Applies the host-measured label metrics (one entry per held airport,
    /// in order; `None` where measurement failed) and the responsive font
    /// size to every airport.
    pub fn set_text_width(&mut self, window_width: i64, measured: &Vec<Option<Size>>)
        requires
            old(self).wf(),
            measured@.len() == old(self).airports@.len(),
            forall|i: int|
                0 <= i < measured@.len() ==> (#[trigger] measured@[i] matches Some(m) ==> 0
                    <= m.width <= MAX_DIM_CP && 0 <= m.height <= MAX_DIM_CP),
        ensures
            final(self).airports@.len() == old(self).airports@.len(),
            forall|i: int|
                0 <= i < old(self).airports@.len() ==> #[trigger] final(self).airports@[i]
                    == text_applied(old(self).airports@[i], window_width as int, measured@[i]),
            final(self).canvas == old(self).canvas,
            final(self).bounds == old(self).bounds,
            final(self).airport_icaos == old(self).airport_icaos,
            final(self).arrivals == old(self).arrivals,
            final(self).flights == old(self).flights,
            final(self).wf(),
    {
        let n = self.airports.len();
        let mut i: usize = 0;
        while i < n
            invariant
                0 <= i <= n,
                n == self.airports@.len(),
                n == old(self).airports@.len(),
                measured@.len() == n,
                forall|k: int|
                    0 <= k < measured@.len() ==> (#[trigger] measured@[k] matches Some(m) ==> 0
                        <= m.width <= MAX_DIM_CP && 0 <= m.height <= MAX_DIM_CP),
                forall|k: int|
                    0 <= k < i ==> #[trigger] self.airports@[k] == text_applied(
                        old(self).airports@[k],
                        window_width as int,
                        measured@[k],
                    ),
                forall|k: int| i <= k < n ==> self.airports@[k] == old(self).airports@[k],
                forall|k: int| 0 <= k < n ==> (#[trigger] old(self).airports@[k]).wf(),
                self.canvas == old(self).canvas,
                self.bounds == old(self).bounds,
                self.airport_icaos == old(self).airport_icaos,
                self.arrivals == old(self).arrivals,
                self.flights == old(self).flights,
            decreases n - i,
        {
            let m = measured[i];
            self.airports[i].set_text_width(window_width, m);
            i = i + 1;
        }
        proof {
            assert forall|k: int| 0 <= k < self.airports@.len() implies (
            #[trigger] self.airports@[k]).wf() by {
                assert(self.airports@[k] == text_applied(
                    old(self).airports@[k],
                    window_width as int,
                    measured@[k],
                ));
                assert(old(self).airports@[k].wf());
            }
        }
    }

    /// Filters every arrival record of every fetched response against the
    /// requested-airport set and the reference table, appending the
    /// validated records in response order, then arrival order.
    pub fn set_arrivals(
        &mut self,
        rawdata: &Vec<AeroArrivalsRawData>,
        database: &Vec<AirportRefer>,
        replay_now: Option<i64>,
    )
        requires
            old(self).wf(),
            forall|i: int| 0 <= i < database@.len() ==> (#[trigger] database@[i]).coord.wf(),
            replay_now matches Some(n) ==> -TS_LIMIT <= n <= TS_LIMIT,
        ensures
            final(self).arrivals@ == old(self).arrivals@ + arrivals_of(
                rawdata@,
                old(self).airport_icaos@,
                database@,
                replay_now,
            ),
            final(self).canvas == old(self).canvas,
            final(self).bounds == old(self).bounds,
            final(self).airports == old(self).airports,
            final(self).airport_icaos == old(self).airport_icaos,
            final(self).flights == old(self).flights,
            final(self).wf(),
    {
        let ghost arrivals0 = self.arrivals@;
        let ghost icaos = self.airport_icaos@;
        let mut i: usize = 0;
        while i < rawdata.len()
            invariant
                0 <= i <= rawdata@.len(),
                self.arrivals@ == arrivals0 + arrivals_of(
                    rawdata@.take(i as int),
                    icaos,
                    database@,
                    replay_now,
                ),
                icaos == self.airport_icaos@,
                forall|k: int| 0 <= k < database@.len() ==> (#[trigger] database@[k]).coord.wf(),
                replay_now matches Some(n) ==> -TS_LIMIT <= n <= TS_LIMIT,
                forall|k: int|
                    0 <= k < self.arrivals@.len() ==> (
                    #[trigger] self.arrivals@[k]).orig_airport.coord.wf()
                        && self.arrivals@[k].dest_airport.coord.wf(),
                self.canvas == old(self).canvas,
                self.bounds == old(self).bounds,
                self.airports == old(self).airports,
                self.airport_icaos == old(self).airport_icaos,
                self.flights == old(self).flights,
            decreases rawdata@.len() - i,
        {
            let list = &rawdata[i].arrivals;
            let mut j: usize = 0;
            while j < list.len()
                invariant
                    0 <= j <= list@.len(),
                    list == &rawdata@[i as int].arrivals,
                    0 <= i < rawdata@.len(),
                    self.arrivals@ == arrivals0 + arrivals_of(
                        rawdata@.take(i as int),
                        icaos,
                        database@,
                        replay_now,
                    ) + accepted_in_list(
                        list@.take(j as int),
                        icaos,
                        database@,
                        replay_now,
                    ),
                    icaos == self.airport_icaos@,
                    forall|k: int| 0 <= k < database@.len() ==> (#[trigger] database@[k]).coord.wf(),
                    replay_now matches Some(n) ==> -TS_LIMIT <= n <= TS_LIMIT,
                    forall|k: int|
                        0 <= k < self.arrivals@.len() ==> (
                        #[trigger] self.arrivals@[k]).orig_airport.coord.wf()
                            && self.arrivals@[k].dest_airport.coord.wf(),
                    self.canvas == old(self).canvas,
                    self.bounds == old(self).bounds,
                    self.airports == old(self).airports,
                    self.airport_icaos == old(self).airport_icaos,
                    self.flights == old(self).flights,
                decreases list@.len() - j,
            {
                let r = list[j].extract(&self.airport_icaos, database, replay_now);
                proof {
                    assert(list@.take(j as int + 1) =~= list@.take(j as int).push(
                        list@[j as int],
                    ));
                    lemma_accepted_in_list_push(
                        list@.take(j as int),
                        list@[j as int],
                        icaos,
                        database@,
                        replay_now,
                    );
                    if accepted(list@[j as int], icaos, database@) {
                        lemma_extracted_wf(list@[j as int], icaos, database@, replay_now);
                    }
                }
                match r {
                    Some(a) => {
                        self.arrivals.push(a);
                        proof {
                            assert(self.arrivals@ =~= arrivals0 + arrivals_of(
                                rawdata@.take(i as int),
                                icaos,
                                database@,
                                replay_now,
                            ) + accepted_in_list(
                                list@.take(j as int + 1),
                                icaos,
                                database@,
                                replay_now,
                            ));
                        }
                    },
                    None => {
                        proof {
                            assert(self.arrivals@ =~= arrivals0 + arrivals_of(
                                rawdata@.take(i as int),
                                icaos,
                                database@,
                                replay_now,
                            ) + accepted_in_list(
                                list@.take(j as int + 1),
                                icaos,
                                database@,
                                replay_now,
                            ));
                        }
                    },
                }
                j = j + 1;
            }
            proof {
                assert(list@.take(list@.len() as int) =~= list@);
                assert(rawdata@.take(i as int + 1) =~= rawdata@.take(i as int).push(
                    rawdata@[i as int],
                ));
                lemma_arrivals_of_push(
                    rawdata@.take(i as int),
                    rawdata@[i as int],
                    icaos,
                    database@,
                    replay_now,
                );
                assert(self.arrivals@ =~= arrivals0 + arrivals_of(
                    rawdata@.take(i as int + 1),
                    icaos,
                    database@,
                    replay_now,
                ));
            }
            i = i + 1;
        }
        proof {
            assert(rawdata@.take(rawdata@.len() as int) =~= rawdata@);
        }
    }

    /// Derives one flight entity per held arrival record, appending them in
    /// arrival order.
    pub fn set_flights(&mut self)
        requires
            old(self).wf(),
        ensures
            final(self).flights@ == old(self).flights@ + old(self).arrivals@.map_values(
                |a: AirportArrival| flight_of(a),
            ),
            final(self).canvas == old(self).canvas,
            final(self).bounds == old(self).bounds,
            final(self).airports == old(self).airports,
            final(self).airport_icaos == old(self).airport_icaos,
            final(self).arrivals == old(self).arrivals,
            final(self).wf(),
    {
        let ghost flights0 = self.flights@;
        let n = self.arrivals.len();
        let mut i: usize = 0;
        while i < n
            invariant
                0 <= i <= n,
                n == self.arrivals@.len(),
                self.flights@ == flights0 + self.arrivals@.take(i as int).map_values(
                    |a: AirportArrival| flight_of(a),
                ),
                forall|k: int|
                    0 <= k < self.arrivals@.len() ==> (
                    #[trigger] self.arrivals@[k]).orig_airport.coord.wf()
                        && self.arrivals@[k].dest_airport.coord.wf(),
                forall|k: int| 0 <= k < self.flights@.len() ==> (#[trigger] self.flights@[k]).wf(),
                self.canvas == old(self).canvas,
                self.bounds == old(self).bounds,
                self.airports == old(self).airports,
                self.airport_icaos == old(self).airport_icaos,
                self.arrivals == old(self).arrivals,
            decreases n - i,
        {
            let a = self.arrivals[i].clone();
            self.flights.push(crate::aviation::flight::Flight::new(a));
            proof {
                assert(self.arrivals@.take(i as int + 1).map_values(
                    |a: AirportArrival| flight_of(a),
                ) =~= self.arrivals@.take(i as int).map_values(
                    |a: AirportArrival| flight_of(a),
                ).push(flight_of(self.arrivals@[i as int])));
            }
            i = i + 1;
        }
        proof {
            assert(self.arrivals@.take(n as int) =~= self.arrivals@);
        }
    }

    /// Coordinates the caller should frame the map around: for every held
    /// arrival, its origin coordinate, twice.
    pub fn get_coords_from_arrivals(&self) -> (coords: Vec<GeoCoord>)
        ensures
            coords@.len() == 2 * self.arrivals@.len(),
            forall|i: int|
                0 <= i < self.arrivals@.len() ==> coords@[2 * i] == (
                #[trigger] self.arrivals@[i]).orig_airport.coord && coords@[2 * i + 1]
                    == self.arrivals@[i].orig_airport.coord,
    {
        let mut coords: Vec<GeoCoord> = Vec::new();
        let mut i: usize = 0;
        while i < self.arrivals.len()
            invariant
                0 <= i <= self.arrivals@.len(),
                coords@.len() == 2 * i,
                forall|k: int|
                    0 <= k < i ==> coords@[2 * k] == (
                    #[trigger] self.arrivals@[k]).orig_airport.coord && coords@[2 * k + 1]
                        == self.arrivals@[k].orig_airport.coord,
            decreases self.arrivals@.len() - i,
        {
            coords.push(self.arrivals[i].orig_airport.coord);
            coords.push(self.arrivals[i].orig_airport.coord);
            i = i + 1;
        }
        coords
    }

    /// Whether the canvas or any bounds field differs from the committed
    /// baselines: exactly then does a tick recompute entity positions.
    pub fn is_update_needed(&self, canvas: &Size, bounds: &LatLngBounds) -> (r: bool)
        ensures
            r == needs_update_spec(*self, *canvas, *bounds),
    {
        canvas.width != self.canvas.width || canvas.height != self.canvas.height || bounds.north
            != self.bounds.north || bounds.east != self.bounds.east || bounds.south
            != self.bounds.south || bounds.west != self.bounds.west
    }

    /// Commits a new canvas baseline.
    pub fn set_canvas(&mut self, canvas: &Size)
        ensures
            *final(self) == (Manager { canvas: *canvas, ..*old(self) }),
    {
        self.canvas.width = canvas.width;
        self.canvas.height = canvas.height;
    }

    /// Commits a new bounds baseline.
    pub fn set_bounds(&mut self, bounds: &LatLngBounds)
        ensures
            *final(self) == (Manager { bounds: *bounds, ..*old(self) }),
    {
        self.bounds.north = bounds.north;
        self.bounds.east = bounds.east;
        self.bounds.south = bounds.south;
        self.bounds.west = bounds.west;
        self.bounds.merc_north = bounds.merc_north;
        self.bounds.merc_south = bounds.merc_south;
    }

    /// One tick of the update loop: if the canvas or bounds changed since
    /// the last committed baselines, commits the new values and recomputes
    /// every entity position; otherwise leaves everything untouched.  The
    /// baselines and the dependent positions move together, so a pass is
    /// never partially applied.  Afterwards the detector is settled for the
    /// same canvas and bounds.
    pub fn update(&mut self, canvas: &Size, bounds: &LatLngBounds)
        requires
            old(self).wf(),
            needs_update_spec(*old(self), *canvas, *bounds) ==> canvas.wf() && bounds.wf(),
        ensures
            needs_update_spec(*old(self), *canvas, *bounds) ==> {
                &&& final(self).canvas == *canvas
                &&& final(self).bounds == *bounds
                &&& final(self).airports@ == old(self).airports@.map_values(
                    |a: Airport| updated_airport(a, *canvas, *bounds),
                )
                &&& final(self).flights@ == old(self).flights@.map_values(
                    |f: Flight| updated_flight(f, *canvas, *bounds),
                )
                &&& final(self).airport_icaos == old(self).airport_icaos
                &&& final(self).arrivals == old(self).arrivals
            },
            !needs_update_spec(*old(self), *canvas, *bounds) ==> *final(self) == *old(self),
            !needs_update_spec(*final(self), *canvas, *bounds),
            final(self).wf(),
    {
        if self.is_update_needed(canvas, bounds) {
            self.set_canvas(canvas);
            self.set_bounds(bounds);

            let n = self.airports.len();
            let mut i: usize = 0;
            while i < n
                invariant
                    0 <= i <= n,
                    n == self.airports@.len(),
                    n == old(self).airports@.len(),
                    canvas.wf(),
                    bounds.wf(),
                    forall|k: int|
                        0 <= k < i ==> #[trigger] self.airports@[k] == updated_airport(
                            old(self).airports@[k],
                            *canvas,
                            *bounds,
                        ),
                    forall|k: int| i <= k < n ==> self.airports@[k] == old(self).airports@[k],
                    forall|k: int| 0 <= k < n ==> (#[trigger] old(self).airports@[k]).wf(),
                    forall|k: int| 0 <= k < self.airports@.len() ==> (#[trigger] self.airports@[k]).wf(),
                    self.canvas == *canvas,
                    self.bounds == *bounds,
                    self.airport_icaos == old(self).airport_icaos,
                    self.arrivals == old(self).arrivals,
                    self.flights == old(self).flights,
                decreases n - i,
            {
                self.airports[i].update(canvas, bounds);
                i = i + 1;
            }

            let nf = self.flights.len();
            let mut j: usize = 0;
            while j < nf
                invariant
                    0 <= j <= nf,
                    nf == self.flights@.len(),
                    nf == old(self).flights@.len(),
                    canvas.wf(),
                    bounds.wf(),
                    forall|k: int|
                        0 <= k < j ==> #[trigger] self.flights@[k] == updated_flight(
                            old(self).flights@[k],
                            *canvas,
                            *bounds,
                        ),
                    forall|k: int| j <= k < nf ==> self.flights@[k] == old(self).flights@[k],
                    forall|k: int| 0 <= k < nf ==> (#[trigger] old(self).flights@[k]).wf(),
                    forall|k: int| 0 <= k < self.flights@.len() ==> (#[trigger] self.flights@[k]).wf(),
                    forall|k: int|
                        0 <= k < self.airports@.len() ==> #[trigger] self.airports@[k]
                            == updated_airport(old(self).airports@[k], *canvas, *bounds),
                    self.airports@.len() == old(self).airports@.len(),
                    forall|k: int| 0 <= k < self.airports@.len() ==> (#[trigger] self.airports@[k]).wf(),
                    self.canvas == *canvas,
                    self.bounds == *bounds,
                    self.airport_icaos == old(self).airport_icaos,
                    self.arrivals == old(self).arrivals,
                decreases nf - j,
            {
                self.flights[j].update(canvas, bounds);
                j = j + 1;
            }

            proof {
                assert(self.airports@ =~= old(self).airports@.map_values(
                    |a: Airport| updated_airport(a, *canvas, *bounds),
                ));
                assert(self.flights@ =~= old(self).flights@.map_values(
                    |f: Flight| updated_flight(f, *canvas, *bounds),
                ));
            }
        }
    }

    /// One full ingestion pass: converts the raw airports, applies their
    /// label metrics, filters the fetched responses into validated arrivals,
    /// derives the flights, and returns the coordinates the caller should
    /// frame the map around.  The pass replaces the whole entity set; only
    /// the committed canvas/bounds baselines survive.  On live data
    /// (`replay_now` is `None`) timestamps stay as received; in replay mode
    /// they are realigned onto the UTC day of the given clock reading.
    pub fn prepare_at(
        &mut self,
        raws: Vec<TargetAirportRawData>,
        window_width: i64,
        measured: &Vec<Option<Size>>,
        rawdata: &Vec<AeroArrivalsRawData>,
        database: &Vec<AirportRefer>,
        replay_now: Option<i64>,
    ) -> (coords: Vec<GeoCoord>)
        requires
            old(self).wf(),
            forall|i: int| 0 <= i < raws@.len() ==> (#[trigger] raws@[i]).coord.wf(),
            measured@.len() == raws@.len(),
            forall|i: int|
                0 <= i < measured@.len() ==> (#[trigger] measured@[i] matches Some(m) ==> 0
                    <= m.width <= MAX_DIM_CP && 0 <= m.height <= MAX_DIM_CP),
            forall|i: int| 0 <= i < database@.len() ==> (#[trigger] database@[i]).coord.wf(),
            replay_now matches Some(n) ==> -TS_LIMIT <= n <= TS_LIMIT,
        ensures
            prepared(
                *old(self),
                *final(self),
                raws@,
                window_width as int,
                measured@,
                rawdata@,
                database@,
                replay_now,
            ),
            coords@.len() == 2 * final(self).arrivals@.len(),
            forall|i: int|
                0 <= i < final(self).arrivals@.len() ==> coords@[2 * i] == (
                #[trigger] final(self).arrivals@[i]).orig_airport.coord && coords@[2 * i + 1]
                    == final(self).arrivals@[i].orig_airport.coord,
            final(self).wf(),
    {
        let ghost raws_view = raws@;
        self.airport_icaos = Vec::new();
        self.arrivals = Vec::new();
        self.flights = Vec::new();
        self.set_airports(raws);
        proof {
            assert(self.airport_icaos@ =~= icaos_of(raws_view));
        }
        self.set_text_width(window_width, measured);
        self.set_arrivals(rawdata, database, replay_now);
        proof {
            assert(self.arrivals@ =~= arrivals_of(
                rawdata@,
                icaos_of(raws_view),
                database@,
                replay_now,
            ));
        }
        self.set_flights();
        proof {
            assert(self.flights@ =~= self.arrivals@.map_values(|a: AirportArrival| flight_of(a)));
        }
        self.get_coords_from_arrivals()
    }

    /// One full ingestion pass; in replay mode it reads the system clock for
    /// the day to realign the replayed schedules onto.  On live data the
    /// pass is exact and clock-free.  In replay mode the clock's reading is
    /// outside the library's control; whatever moment it reports, the pass
    /// relates the old and new state as one `prepare_at` run at that moment,
    /// and which records are accepted, and the returned framing coordinates,
    /// do not depend on it.
    pub fn prepare(
        &mut self,
        raws: Vec<TargetAirportRawData>,
        window_width: i64,
        measured: &Vec<Option<Size>>,
        rawdata: &Vec<AeroArrivalsRawData>,
        database: &Vec<AirportRefer>,
        replay: bool,
    ) -> (coords: Vec<GeoCoord>)
        requires
            old(self).wf(),
            forall|i: int| 0 <= i < raws@.len() ==> (#[trigger] raws@[i]).coord.wf(),
            measured@.len() == raws@.len(),
            forall|i: int|
                0 <= i < measured@.len() ==> (#[trigger] measured@[i] matches Some(m) ==> 0
                    <= m.width <= MAX_DIM_CP && 0 <= m.height <= MAX_DIM_CP),
            forall|i: int| 0 <= i < database@.len() ==> (#[trigger] database@[i]).coord.wf(),
        ensures
            !replay ==> prepared(
                *old(self),
                *final(self),
                raws@,
                window_width as int,
                measured@,
                rawdata@,
                database@,
                None,
            ),
            replay ==> exists|now: i64|
                0 <= now <= TS_LIMIT && prepared(
                    *old(self),
                    *final(self),
                    raws@,
                    window_width as int,
                    measured@,
                    rawdata@,
                    database@,
                    Some(now),
                ),
            coords@.len() == 2 * final(self).arrivals@.len(),
            forall|i: int|
                0 <= i < final(self).arrivals@.len() ==> coords@[2 * i] == (
                #[trigger] final(self).arrivals@[i]).orig_airport.coord && coords@[2 * i + 1]
                    == final(self).arrivals@[i].orig_airport.coord,
            final(self).wf(),
    {
        let replay_now: Option<i64> = if replay {
            let reading = now_seconds();
            // A clock reading past the largest representable datetime is
            // pinned there; the day shift stays well within `i64`.
            Some(if reading > TS_LIMIT {
                TS_LIMIT
            } else {
                reading
            })
        } else {
            None
        };
        self.prepare_at(raws, window_width, measured, rawdata, database, replay_now)
    }
}

impl Default for Manager {
    fn default() -> (m: Manager)
        ensures
            m.canvas == (Size { width: 100, height: 100 }),
            m.airports@ == Seq::<Airport>::empty(),
            m.airport_icaos@ == Seq::<String>::empty(),
            m.arrivals@ == Seq::<AirportArrival>::empty(),
            m.flights@ == Seq::<Flight>::empty(),
            m.wf(),
    {
        Manager::new()
    }
}

/// Once a baseline is committed, the change detector reports no change for
/// the same canvas and bounds: a second identical tick does nothing.
pub proof fn lemma_detector_idempotent(m: Manager, canvas: Size, bounds: LatLngBounds)
    requires
        m.canvas == canvas,
        m.bounds == bounds,
    ensures
        !needs_update_spec(m, canvas, bounds),
{
}

/// A difference in any single one of the six scalar fields (canvas width or
/// height, bounds north, east, south or west) makes the detector fire.
pub proof fn lemma_detector_fires(m: Manager, canvas: Size, bounds: LatLngBounds)
    requires
        canvas.width != m.canvas.width || canvas.height != m.canvas.height || bounds.north
            != m.bounds.north || bounds.east != m.bounds.east || bounds.south != m.bounds.south
            || bounds.west != m.bounds.west,
    ensures
        needs_update_spec(m, canvas, bounds),
{
}

} // verus!
