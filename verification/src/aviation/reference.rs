use crate::dimension::geo::{GeoCoord, GeoCoordTrait};
use vstd::prelude::*;

verus! {

/// One entry of the static airport reference table, against which fetched
/// arrival records are validated.  The host loads the table once at startup
/// and injects it wherever a lookup is needed.
#[derive(Debug)]
pub struct AirportRefer {
    pub icao: String,
    pub iata: String,
    pub name: String,
    pub city: String,
    pub country: String,
    pub coord: GeoCoord,
}

impl Clone for AirportRefer {
    fn clone(&self) -> (res: Self)
        ensures
            res == self,
    {
        let res = AirportRefer {
            icao: self.icao.clone(),
            iata: self.iata.clone(),
            name: self.name.clone(),
            city: self.city.clone(),
            country: self.country.clone(),
            coord: self.coord,
        };
        proof {
            assert(res == self);
        }
        res
    }
}

impl GeoCoordTrait for AirportRefer {
    open spec fn coord_spec(&self) -> GeoCoord {
        self.coord
    }

    fn get_coord(&self) -> (c: GeoCoord) {
        self.coord
    }
}

impl Default for AirportRefer {
    fn default() -> (r: AirportRefer)
        ensures
            r.icao@ == Seq::<char>::empty(),
            r.iata@ == Seq::<char>::empty(),
            r.name@ == Seq::<char>::empty(),
            r.city@ == Seq::<char>::empty(),
            r.country@ == Seq::<char>::empty(),
            r.coord == (GeoCoord { lat: 0, lng: 0, merc_lat: 0 }),
    {
        AirportRefer {
            icao: String::new(),
            iata: String::new(),
            name: String::new(),
            city: String::new(),
            country: String::new(),
            coord: GeoCoord { lat: 0, lng: 0, merc_lat: 0 },
        }
    }
}

/// First entry of `db` whose ICAO code reads `icao`, if any.
pub open spec fn lookup_spec(db: Seq<AirportRefer>, icao: Seq<char>) -> Option<AirportRefer>
    decreases db.len(),
{
    if db.len() == 0 {
        None
    } else if db[0].icao@ == icao {
        Some(db[0])
    } else {
        lookup_spec(db.drop_first(), icao)
    }
}

/// A found entry is an element of the table.
pub proof fn lemma_lookup_found_in_db(db: Seq<AirportRefer>, icao: Seq<char>)
    ensures
        lookup_spec(db, icao) matches Some(a) ==> db.contains(a),
    decreases db.len(),
{
    if db.len() > 0 {
        if db[0].icao@ == icao {
            assert(db.contains(db[0]));
        } else {
            lemma_lookup_found_in_db(db.drop_first(), icao);
            let r = lookup_spec(db, icao);
            if r is Some {
                let a = r->0;
                assert(db.drop_first().contains(a));
                let i = choose|i: int| 0 <= i < db.drop_first().len() && db.drop_first()[i] == a;
                assert(db[i + 1] == a);
            }
        }
    }
}

/// Sees whether the given airport is in the table, and hands its
/// entry back.  Returns `Some` exactly when some entry carries the code.
pub fn lookup_airport_database(database: &Vec<AirportRefer>, icao: &String) -> (r: Option<
    AirportRefer,
>)
    ensures
        r == lookup_spec(database@, icao@),
        r is Some <==> exists|i: int|
            0 <= i < database@.len() && database@[i].icao@ == icao@,
{
    proof {
        assert(database@.skip(0) =~= database@);
    }
    let mut i: usize = 0;
    while i < database.len()
        invariant
            0 <= i <= database@.len(),
            lookup_spec(database@, icao@) == lookup_spec(database@.skip(i as int), icao@),
            forall|j: int| 0 <= j < i ==> database@[j].icao@ != icao@,
        decreases database@.len() - i,
    {
        let entry = &database[i];
        if entry.icao == *icao {
            proof {
                assert(database@.skip(i as int)[0] == database@[i as int]);
                assert(lookup_spec(database@.skip(i as int), icao@) == Some(database@[i as int]));
            }
            return Some(entry.clone());
        }
        proof {
            assert(database@.skip(i as int).drop_first() =~= database@.skip(i as int + 1));
        }
        i = i + 1;
    }
    proof {
        assert(database@.skip(i as int).len() == 0);
    }
    None
}

/// Whether some string of `v` reads `s`.
pub open spec fn contains_str(v: Seq<String>, s: Seq<char>) -> bool {
    exists|i: int| 0 <= i < v.len() && v[i]@ == s
}

/// Membership test for an ICAO code in the requested-airport set.
pub fn contains_icao(icaos: &Vec<String>, icao: &String) -> (r: bool)
    ensures
        r == contains_str(icaos@, icao@),
{
    let mut i: usize = 0;
    while i < icaos.len()
        invariant
            0 <= i <= icaos@.len(),
            forall|j: int| 0 <= j < i ==> icaos@[j]@ != icao@,
        decreases icaos@.len() - i,
    {
        if icaos[i] == *icao {
            return true;
        }
        i = i + 1;
    }
    false
}

} // verus!
