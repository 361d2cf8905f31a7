use crate::aviation::reference::{
    contains_icao,
    contains_str,
    lemma_lookup_found_in_db,
    lookup_airport_database,
    lookup_spec,
    AirportRefer,
};
use crate::utils::div_floor_i64;
use vstd::arithmetic::div_mod::{lemma_fundamental_div_mod, lemma_mod_bound};
use vstd::prelude::*;

verus! {

/// Largest timestamp magnitude, in seconds since the Unix epoch, that a
/// chrono datetime can carry: chrono limits years to about plus or minus
/// 262 000, whose timestamps stay well below 10^13.
pub const TS_LIMIT: i64 = 10_000_000_000_000;

/// Seconds in a UTC day of Unix time.
pub const DAY_SECONDS: i64 = 86_400;

/// The moment, in seconds since the Unix epoch, that chrono's relaxed
/// RFC 3339 parse reads in a text, if the text parses.  The parse is a
/// function of the text alone.
pub uninterp spec fn rfc3339_seconds(s: Seq<char>) -> Option<i64>;

/// Relies on chrono's `FromStr` for `DateTime<Utc>` (a relaxed RFC 3339
/// parse, deterministic in the text) and `DateTime::timestamp`.  The bound
/// holds because every chrono datetime lies between `DateTime::MIN_UTC` and
/// `DateTime::MAX_UTC`, whose timestamps are below 10^13 in magnitude.
#[verifier::external_body]
fn parse_rfc3339_seconds(s: &str) -> (r: Option<i64>)
    ensures
        r == rfc3339_seconds(s@),
        r matches Some(t) ==> -TS_LIMIT <= t <= TS_LIMIT,
{
    match s.parse::<chrono::DateTime<chrono::Utc>>() {
        Ok(d) => Some(d.timestamp()),
        Err(_) => None,
    }
}

/// Relies on std's `SystemTime::now` and `SystemTime::duration_since`
/// against `UNIX_EPOCH`: the reading, converted to whole seconds since the
/// epoch.  Total on every clock state: a clock set before the epoch (the
/// `Err` case) reads as zero, and a reading too large for `i64` saturates.
/// Nothing more can be said of a clock than that the seconds since the epoch
/// are not negative.
#[verifier::external_body]
pub(crate) fn now_seconds() -> (r: i64)
    ensures
        r >= 0,
{
    match std::time::SystemTime::now().duration_since(std::time::UNIX_EPOCH) {
        Ok(d) => i64::try_from(d.as_secs()).unwrap_or(i64::MAX),
        Err(_) => 0,
    }
}

/// Start of the UTC day containing `t`: the largest multiple of 86 400 not
/// above `t`.
pub open spec fn day_start_spec(t: int) -> int {
    (t / (DAY_SECONDS as int)) * (DAY_SECONDS as int)
}

/// Start of the UTC day containing the timestamp `t` (a UTC day is exactly
/// 86 400 seconds of Unix time).
pub fn day_start(t: i64) -> (r: i64)
    requires
        -TS_LIMIT <= t <= TS_LIMIT,
    ensures
        r == day_start_spec(t as int),
        t - DAY_SECONDS < r <= t,
{
    let q = div_floor_i64(t, DAY_SECONDS);
    proof {
        lemma_fundamental_div_mod(t as int, DAY_SECONDS as int);
        lemma_mod_bound(t as int, DAY_SECONDS as int);
    }
    q * DAY_SECONDS
}

/// A validated flight record: all identifying fields present, both endpoint
/// airports resolved against the reference table and members of the
/// requested airport set.  Timestamps are seconds since the Unix epoch.
#[derive(Debug)]
pub struct AirportArrival {
    pub id: String,
    pub icao: String,
    pub iata: String,
    pub operator: String,
    pub flight_number: String,
    pub orig_airport: AirportRefer,
    pub dest_airport: AirportRefer,
    pub actual_out: i64,
    pub actual_off: i64,
    pub scheduled_on: i64,
    pub estimated_on: i64,
    pub scheduled_in: i64,
    pub estimated_in: i64,
    pub progress_percent: i32,
    pub route_distance: i32,
}

impl Clone for AirportArrival {
    fn clone(&self) -> (res: Self)
        ensures
            res == self,
    {
        AirportArrival {
            id: self.id.clone(),
            icao: self.icao.clone(),
            iata: self.iata.clone(),
            operator: self.operator.clone(),
            flight_number: self.flight_number.clone(),
            orig_airport: self.orig_airport.clone(),
            dest_airport: self.dest_airport.clone(),
            actual_out: self.actual_out,
            actual_off: self.actual_off,
            scheduled_on: self.scheduled_on,
            estimated_on: self.estimated_on,
            scheduled_in: self.scheduled_in,
            estimated_in: self.estimated_in,
            progress_percent: self.progress_percent,
            route_distance: self.route_distance,
        }
    }
}

/// The whole payload the flight-data source answers with for one airport.
#[derive(Debug)]
pub struct AeroArrivalsRawData {
    pub arrivals: Vec<AeroArrivalsActualRawData>,
}

/// The origin/destination block of a raw arrival record.
#[derive(Debug)]
pub struct AeroAirportRawData {
    pub code: Option<String>,
    pub code_icao: Option<String>,
    pub code_iata: Option<String>,
    pub code_lid: Option<String>,
    pub airport_info_url: Option<String>,
}

/// One raw arrival record as the flight-data source reports it.  Timestamp
/// fields carry the RFC 3339 text as received (or nothing where the source
/// sent null); they are parsed during validation.
#[derive(Debug)]
pub struct AeroArrivalsActualRawData {
    pub ident: String,
    pub ident_icao: Option<String>,
    pub ident_iata: Option<String>,
    pub fa_flight_id: String,
    pub operator: Option<String>,
    pub operator_icao: Option<String>,
    pub operator_iata: Option<String>,
    pub flight_number: Option<String>,
    pub registration: Option<String>,
    pub atc_ident: Option<String>,
    pub inbound_fa_flight_id: Option<String>,
    pub codeshares: Vec<String>,
    pub codeshares_iata: Vec<String>,
    pub blocked: bool,
    pub diverted: bool,
    pub cancelled: bool,
    pub position_only: bool,
    pub origin: AeroAirportRawData,
    pub destination: AeroAirportRawData,
    pub departure_delay: Option<i32>,
    pub arrival_delay: Option<i32>,
    pub filed_ete: Option<i32>,
    pub scheduled_out: Option<String>,
    pub estimated_out: Option<String>,
    pub actual_out: Option<String>,
    pub scheduled_off: Option<String>,
    pub estimated_off: Option<String>,
    pub actual_off: Option<String>,
    pub scheduled_on: Option<String>,
    pub estimated_on: Option<String>,
    pub actual_on: Option<String>,
    pub scheduled_in: Option<String>,
    pub estimated_in: Option<String>,
    pub actual_in: Option<String>,
    pub progress_percent: Option<i32>,
    pub status: String,
    pub aircraft_type: Option<String>,
    pub route_distance: Option<i32>,
    pub filed_airspeed: Option<i32>,
    pub filed_altitude: Option<i32>,
    pub route: Option<String>,
    pub baggage_claim: Option<String>,
    pub seats_cabin_business: Option<i32>,
    pub seats_cabin_coach: Option<i32>,
    pub seats_cabin_first: Option<i32>,
    pub gate_origin: Option<String>,
    pub gate_destination: Option<String>,
    pub terminal_origin: Option<String>,
    pub terminal_destination: Option<String>,
}

/// What a raw timestamp field parses to: nothing where the field is absent
/// or its text does not parse.
pub open spec fn parsed_time(o: Option<String>) -> Option<i64> {
    match o {
        Some(s) => rfc3339_seconds(s@),
        None => None,
    }
}

/// The reference-table entry a raw airport block resolves to, if its ICAO
/// code is present and known.
pub open spec fn resolved_ref(block: AeroAirportRawData, db: Seq<AirportRefer>) -> Option<
    AirportRefer,
> {
    match block.code_icao {
        Some(c) => lookup_spec(db, c@),
        None => None,
    }
}

/// ICAO code of a resolved entry (empty where nothing resolved).
pub open spec fn ref_icao(r: Option<AirportRefer>) -> Seq<char> {
    match r {
        Some(a) => a.icao@,
        None => Seq::<char>::empty(),
    }
}

/// Whether a raw arrival record passes validation: not cancelled; flight
/// identifiers, operator, flight number and route distance present; the
/// four schedule timestamps present and parsable; both endpoint airports
/// resolved in the reference table and members of the requested set.
pub open spec fn accepted(
    raw: AeroArrivalsActualRawData,
    icaos: Seq<String>,
    db: Seq<AirportRefer>,
) -> bool {
    &&& !raw.cancelled
    &&& raw.ident_icao is Some
    &&& raw.ident_iata is Some
    &&& resolved_ref(raw.origin, db) is Some
    &&& resolved_ref(raw.destination, db) is Some
    &&& parsed_time(raw.scheduled_on) is Some
    &&& parsed_time(raw.scheduled_in) is Some
    &&& raw.operator is Some
    &&& raw.flight_number is Some
    &&& raw.route_distance is Some
    &&& parsed_time(raw.scheduled_out) is Some
    &&& parsed_time(raw.scheduled_off) is Some
    &&& contains_str(icaos, ref_icao(resolved_ref(raw.origin, db)))
    &&& contains_str(icaos, ref_icao(resolved_ref(raw.destination, db)))
}

/// The time shift applied to every schedule field.  In replay mode (the
/// bundled sample datasets replay past days) the record is moved onto the
/// UTC day containing the given clock reading, keeping its time of day; on
/// live data there is no reading and every timestamp stays as received.
pub open spec fn time_shift(replay_now: Option<i64>, out: int) -> int {
    match replay_now {
        Some(now) => day_start_spec(now as int) - day_start_spec(out),
        None => 0,
    }
}

/// The validated record an accepted raw arrival turns into.
pub open spec fn extracted(
    raw: AeroArrivalsActualRawData,
    db: Seq<AirportRefer>,
    replay_now: Option<i64>,
) -> AirportArrival {
    let out = parsed_time(raw.scheduled_out)->0 as int;
    let off = parsed_time(raw.scheduled_off)->0 as int;
    let on = parsed_time(raw.scheduled_on)->0 as int;
    let inn = parsed_time(raw.scheduled_in)->0 as int;
    let delta = time_shift(replay_now, out);
    AirportArrival {
        id: raw.fa_flight_id,
        icao: raw.ident_icao->0,
        iata: raw.ident_iata->0,
        operator: raw.operator->0,
        flight_number: raw.flight_number->0,
        orig_airport: resolved_ref(raw.origin, db)->0,
        dest_airport: resolved_ref(raw.destination, db)->0,
        actual_out: (out + delta) as i64,
        actual_off: (off + delta) as i64,
        scheduled_on: (on + delta) as i64,
        estimated_on: (on + delta) as i64,
        scheduled_in: (inn + delta) as i64,
        estimated_in: (inn + delta) as i64,
        progress_percent: match raw.progress_percent {
            Some(p) => p,
            None => 0,
        },
        route_distance: raw.route_distance->0,
    }
}

/// A raw record whose scheduled gate-arrival time is absent or unparsable
/// never passes validation, whatever its other fields hold.
pub proof fn lemma_missing_scheduled_in_rejected(
    raw: AeroArrivalsActualRawData,
    icaos: Seq<String>,
    db: Seq<AirportRefer>,
)
    requires
        parsed_time(raw.scheduled_in) is None,
    ensures
        !accepted(raw, icaos, db),
{
}

/// A raw record whose destination airport is not a member of the requested
/// airport set never passes validation, even when everything else is valid
/// and its origin is a member.
pub proof fn lemma_nonmember_destination_rejected(
    raw: AeroArrivalsActualRawData,
    icaos: Seq<String>,
    db: Seq<AirportRefer>,
)
    requires
        !contains_str(icaos, ref_icao(resolved_ref(raw.destination, db))),
    ensures
        !accepted(raw, icaos, db),
{
}

/// The endpoint airports of a validated record come out of the reference
/// table, so their coordinates are as well-formed as the table's.
pub proof fn lemma_extracted_wf(
    raw: AeroArrivalsActualRawData,
    icaos: Seq<String>,
    db: Seq<AirportRefer>,
    replay_now: Option<i64>,
)
    requires
        forall|i: int| 0 <= i < db.len() ==> (#[trigger] db[i]).coord.wf(),
        accepted(raw, icaos, db),
    ensures
        extracted(raw, db, replay_now).orig_airport.coord.wf(),
        extracted(raw, db, replay_now).dest_airport.coord.wf(),
{
    let oc = raw.origin.code_icao;
    if oc is Some {
        lemma_lookup_found_in_db(db, oc->0@);
        let r = resolved_ref(raw.origin, db);
        if r is Some {
            let a = r->0;
            let i = choose|i: int| 0 <= i < db.len() && db[i] == a;
            assert(db[i].coord.wf());
        }
    }
    let dc = raw.destination.code_icao;
    if dc is Some {
        lemma_lookup_found_in_db(db, dc->0@);
        let r = resolved_ref(raw.destination, db);
        if r is Some {
            let a = r->0;
            let i = choose|i: int| 0 <= i < db.len() && db[i] == a;
            assert(db[i].coord.wf());
        }
    }
}

/// Parses an optional raw timestamp field.
fn parse_opt_time(o: &Option<String>) -> (r: Option<i64>)
    ensures
        r == parsed_time(*o),
        r matches Some(t) ==> -TS_LIMIT <= t <= TS_LIMIT,
{
    match o {
        Some(s) => parse_rfc3339_seconds(s.as_str()),
        None => None,
    }
}

impl AeroArrivalsActualRawData {
    /// Validates this raw record against the requested airport set and the
    /// reference table, and builds the validated record.  On live data
    /// (`replay_now` is `None`) every timestamp stays as received; in replay
    /// mode the schedule fields are shifted onto the UTC day of the given
    /// clock reading.  Whether the record is accepted never depends on the
    /// reading.
    ///
    /// Returns `Some` exactly when the record passes validation.
    pub fn extract(
        &self,
        airport_icaos: &Vec<String>,
        database: &Vec<AirportRefer>,
        replay_now: Option<i64>,
    ) -> (r: Option<AirportArrival>)
        requires
            replay_now matches Some(n) ==> -TS_LIMIT <= n <= TS_LIMIT,
        ensures
            r is Some <==> accepted(*self, airport_icaos@, database@),
            accepted(*self, airport_icaos@, database@) ==> r == Some(
                extracted(*self, database@, replay_now),
            ),
    {
        let orig_airport: Option<AirportRefer> = match &self.origin.code_icao {
            Some(c) => lookup_airport_database(database, c),
            None => None,
        };
        let dest_airport: Option<AirportRefer> = match &self.destination.code_icao {
            Some(c) => lookup_airport_database(database, c),
            None => None,
        };

        let sched_out = parse_opt_time(&self.scheduled_out);
        let sched_off = parse_opt_time(&self.scheduled_off);
        let sched_on = parse_opt_time(&self.scheduled_on);
        let sched_in = parse_opt_time(&self.scheduled_in);

        if !self.cancelled && self.ident_icao.is_some() && self.ident_iata.is_some()
            && orig_airport.is_some() && dest_airport.is_some() && sched_on.is_some()
            && sched_in.is_some() && self.operator.is_some() && self.flight_number.is_some()
            && self.route_distance.is_some() && sched_out.is_some() && sched_off.is_some() {
            let orig_airport = orig_airport.unwrap();
            let dest_airport = dest_airport.unwrap();

            if contains_icao(airport_icaos, &orig_airport.icao) && contains_icao(
                airport_icaos,
                &dest_airport.icao,
            ) {
                let out = sched_out.unwrap();
                let off = sched_off.unwrap();
                let on = sched_on.unwrap();
                let inn = sched_in.unwrap();
                let delta: i64 = match replay_now {
                    Some(now) => day_start(now) - day_start(out),
                    None => 0,
                };

                Some(
                    AirportArrival {
                        id: self.fa_flight_id.clone(),
                        icao: self.ident_icao.as_ref().unwrap().clone(),
                        iata: self.ident_iata.as_ref().unwrap().clone(),
                        operator: self.operator.as_ref().unwrap().clone(),
                        flight_number: self.flight_number.as_ref().unwrap().clone(),
                        orig_airport,
                        dest_airport,
                        actual_out: out + delta,
                        actual_off: off + delta,
                        scheduled_on: on + delta,
                        estimated_on: on + delta,
                        scheduled_in: inn + delta,
                        estimated_in: inn + delta,
                        progress_percent: self.progress_percent.unwrap_or(0),
                        route_distance: self.route_distance.unwrap(),
                    },
                )
            } else {
                None
            }
        } else {
            None
        }
    }
}

} // verus!
