use vstd::prelude::*;

use crate::error::{Error, Side};
use crate::json::{member, str_member, u64_member, Json};
use crate::stops::Stop;
use crate::strings::{decimal, digit, digit_char, push_all, push_decimal};
use crate::timestamps::{display_time, extract_time};

verus! {

/// The form-encoded body of a trip search from stop `from` to stop `to` on
/// `date`.
pub open spec fn payload(from: nat, to: nat, date: Seq<char>) -> Seq<char> {
    "controller=buses&method=goSearch&data%5Bfrom%5D="@ + decimal(from) + "&data%5Bto%5D="@
        + decimal(to) + "&data%5Bdate%5D="@ + date
}

/// A trip search: origin and destination stop identifiers and a travel date
/// written day-month-year.
#[derive(Debug)]
pub struct ExpeditionRequest {
    pub from: usize,
    pub to: usize,
    pub date: String,
}

impl ExpeditionRequest {
    pub fn new(from: usize, to: usize, date: String) -> (r: Self)
        ensures
            r.from == from,
            r.to == to,
            r.date == date,
    {
        ExpeditionRequest { from, to, date }
    }

    /// The search between two stops, by their identifiers.
    pub fn from_stops(stops: (&Stop, &Stop), date: String) -> (r: Self)
        ensures
            r.from == stops.0.parada,
            r.to == stops.1.parada,
            r.date == date,
    {
        ExpeditionRequest { from: stops.0.get_parada(), to: stops.1.get_parada(), date }
    }

    /// The body of the search request; the same search always gives the
    /// same bytes.
    pub fn get_payload(self) -> (r: String)
        ensures
            r@ == payload(self.from as nat, self.to as nat, self.date@),
    {
        let mut s = String::new();
        push_all(&mut s, "controller=buses&method=goSearch&data%5Bfrom%5D=");
        push_decimal(&mut s, self.from as u64);
        push_all(&mut s, "&data%5Bto%5D=");
        push_decimal(&mut s, self.to as u64);
        push_all(&mut s, "&data%5Bdate%5D=");
        push_all(&mut s, self.date.as_str());
        s
    }
}

impl Clone for ExpeditionRequest {
    fn clone(&self) -> (r: Self)
        ensures
            r == *self,
    {
        ExpeditionRequest { from: self.from, to: self.to, date: self.date.clone() }
    }
}

/// The member of the response that holds both trip arrays.
pub const TRIPS_KEY: &'static str = "expediciones";

/// The member that holds the outward trips.
pub const OUTWARD_STR: &'static str = "ida";

/// The member that holds the return trips.
pub const RETURN_STR: &'static str = "vuelta";

/// The member of a trip record that holds the line name.
pub const NAME_KEY: &'static str = "Descripcion_Web";

/// The member of a trip record that holds the raw departure timestamp.
pub const DEPARTURE_KEY: &'static str = "hora_salida";

/// The member of a trip record that holds the raw arrival timestamp.
pub const ARRIVAL_KEY: &'static str = "hora_llegada";

/// The member of a trip record that holds the fare, in cents.
pub const COST_KEY: &'static str = "tarifa_basica";

/// A trip as plain text and cents.
pub struct TripView {
    pub name: Seq<char>,
    pub departure: Seq<char>,
    pub arrival: Seq<char>,
    pub cost: u64,
}

/// One scheduled trip: line name, departure and arrival times of day
/// (`HH:MM`) and fare in cents.
#[derive(Debug)]
pub struct Expedition {
    pub name: String,
    pub departure: String,
    pub arrival: String,
    pub cost: u64,
}

impl View for Expedition {
    type V = TripView;

    open spec fn view(&self) -> TripView {
        TripView {
            name: self.name@,
            departure: self.departure@,
            arrival: self.arrival@,
            cost: self.cost,
        }
    }
}

/// Why one trip record could not be read.
#[derive(Clone, Copy, Debug, PartialEq, Eq, Structural)]
pub enum RecordError {
    MissingName,
    MissingDeparture,
    MissingArrival,
    MissingCost,
    MalformedDeparture,
    MalformedArrival,
}

/// What reading one trip record gives: the first check that fails, in the
/// order name, departure, arrival, fare, departure time, arrival time; or
/// the trip.
pub open spec fn record_outcome(v: Json) -> Result<TripView, RecordError> {
    match str_member(v, NAME_KEY@) {
        None => Err(RecordError::MissingName),
        Some(name) => match str_member(v, DEPARTURE_KEY@) {
            None => Err(RecordError::MissingDeparture),
            Some(dep) => match str_member(v, ARRIVAL_KEY@) {
                None => Err(RecordError::MissingArrival),
                Some(arr) => match u64_member(v, COST_KEY@) {
                    None => Err(RecordError::MissingCost),
                    Some(cost) => match display_time(dep) {
                        None => Err(RecordError::MalformedDeparture),
                        Some(departure) => match display_time(arr) {
                            None => Err(RecordError::MalformedArrival),
                            Some(arrival) => Ok(TripView { name, departure, arrival, cost }),
                        },
                    },
                },
            },
        },
    }
}

impl Expedition {
    pub fn new(name: String, departure: String, arrival: String, cost: u64) -> (r: Self)
        ensures
            r == (Expedition { name, departure, arrival, cost }),
    {
        Expedition { name, departure, arrival, cost }
    }

    /// Reads one trip record.
    pub fn from(expedition_value: &Json) -> (r: Result<Self, RecordError>)
        ensures
            match r {
                Ok(e) => record_outcome(*expedition_value) == Ok::<TripView, RecordError>(e@),
                Err(x) => record_outcome(*expedition_value) == Err::<TripView, RecordError>(x),
            },
    {
        let name = match expedition_value.get(NAME_KEY) {
            Some(v) => match v.as_str() {
                Some(s) => String::from_str(s),
                None => return Err(RecordError::MissingName),
            },
            None => return Err(RecordError::MissingName),
        };
        let departure_value = match expedition_value.get(DEPARTURE_KEY) {
            Some(v) => match v.as_str() {
                Some(s) => s,
                None => return Err(RecordError::MissingDeparture),
            },
            None => return Err(RecordError::MissingDeparture),
        };
        let arrival_value = match expedition_value.get(ARRIVAL_KEY) {
            Some(v) => match v.as_str() {
                Some(s) => s,
                None => return Err(RecordError::MissingArrival),
            },
            None => return Err(RecordError::MissingArrival),
        };
        let cost = match expedition_value.get(COST_KEY) {
            Some(v) => match v.as_u64() {
                Some(n) => n,
                None => return Err(RecordError::MissingCost),
            },
            None => return Err(RecordError::MissingCost),
        };
        let departure = match extract_time(departure_value) {
            Some(t) => t,
            None => return Err(RecordError::MalformedDeparture),
        };
        let arrival = match extract_time(arrival_value) {
            Some(t) => t,
            None => return Err(RecordError::MalformedArrival),
        };
        Ok(Expedition::new(name, departure, arrival, cost))
    }
}

/// A fare in cents written in euros with two decimals, as `12.50`.
pub open spec fn euros_text(cents: nat) -> Seq<char> {
    decimal(cents / 100) + seq!['.', digit_char(((cents % 100) / 10) as int), digit_char((cents % 10) as int)]
}

impl Expedition {
    /// The fare in euros, with two decimals.
    pub fn cost_text(&self) -> (r: String)
        ensures
            r@ == euros_text(self.cost as nat),
    {
        let mut s = String::new();
        push_decimal(&mut s, self.cost / 100);
        s.push('.');
        s.push(digit((self.cost % 100) / 10));
        s.push(digit(self.cost % 10));
        s
    }
}

impl Clone for Expedition {
    fn clone(&self) -> (r: Self)
        ensures
            r == *self,
    {
        Expedition {
            name: self.name.clone(),
            departure: self.departure.clone(),
            arrival: self.arrival.clone(),
            cost: self.cost,
        }
    }
}

/// The views of a sequence of trips.
pub open spec fn views(s: Seq<Expedition>) -> Seq<TripView> {
    s.map_values(|e: Expedition| e@)
}

/// The member name of a side.
pub open spec fn side_key(side: Side) -> Seq<char> {
    match side {
        Side::Outward => OUTWARD_STR@,
        Side::Return => RETURN_STR@,
    }
}

/// The records of a side: the array under the trips member; `None` when
/// either member is absent or the side is not an array.
pub open spec fn section(doc: Json, side: Side) -> Option<Seq<Json>> {
    match member(doc, TRIPS_KEY@) {
        Some(trips) => match member(trips, side_key(side)) {
            Some(Json::Array(items)) => Some(items@),
            _ => None,
        },
        None => None,
    }
}

/// Every record reads.
pub open spec fn side_parses(records: Seq<Json>) -> bool {
    forall|i: int| 0 <= i < records.len() ==> (#[trigger] record_outcome(records[i])) is Ok
}

/// The trips of records that all read, in order.
pub open spec fn parsed_side(records: Seq<Json>) -> Seq<TripView> {
    records.map_values(|r: Json| record_outcome(r)->Ok_0)
}

/// What a trip search response gives: a missing side first (outward before
/// return), then the sides whose records do not all read, else both trip
/// sequences.
pub open spec fn parse_outcome(doc: Json) -> Result<(Seq<TripView>, Seq<TripView>), Error> {
    match section(doc, Side::Outward) {
        None => Err(Error::MissingSection(Side::Outward)),
        Some(outward) => match section(doc, Side::Return) {
            None => Err(Error::MissingSection(Side::Return)),
            Some(back) => {
                if side_parses(outward) && side_parses(back) {
                    Ok((parsed_side(outward), parsed_side(back)))
                } else if side_parses(back) {
                    Err(Error::SideParseFailure(Side::Outward))
                } else if side_parses(outward) {
                    Err(Error::SideParseFailure(Side::Return))
                } else {
                    Err(Error::BothSidesParseFailure)
                }
            },
        },
    }
}

/// Reads every record of one side, going on past the ones that fail; says
/// whether any failed.
fn parse_side(records: &Vec<Json>) -> (r: (Vec<Expedition>, bool))
    ensures
        r.1 == !side_parses(records@),
        !r.1 ==> views(r.0@) == parsed_side(records@),
{
    let mut trips: Vec<Expedition> = Vec::new();
    let mut failed = false;
    let mut i: usize = 0;
    while i < records.len()
        invariant
            0 <= i <= records@.len(),
            failed == !(forall|j: int| 0 <= j < i ==> (#[trigger] record_outcome(records@[j])) is Ok),
            !failed ==> views(trips@) == parsed_side(records@.subrange(0, i as int)),
        decreases records.len() - i,
    {
        let ghost before = trips@;
        match Expedition::from(&records[i]) {
            Ok(e) => {
                trips.push(e);
                assert(views(trips@) =~= views(before).push(e@));
                assert(parsed_side(records@.subrange(0, i + 1)) =~= parsed_side(records@.subrange(0, i as int)).push(e@)) by {
                    assert(records@.subrange(0, i + 1) =~= records@.subrange(0, i as int).push(records@[i as int]));
                }
            },
            Err(_) => {
                failed = true;
            },
        }
        assert(records@.subrange(0, i + 1) =~= records@.subrange(0, i as int).push(records@[i as int]));
        i = i + 1;
    }
    assert(records@.subrange(0, records@.len() as int) =~= records@);
    (trips, failed)
}

/// Turns a trip search response into its outward and return trips. A
/// missing or mistyped side fails the whole call before any record is read;
/// records that fail are counted against their side while the rest are
/// still read; any failure discards both sequences.
pub fn deserialize_expeditions(value: Json) -> (r: Result<(Vec<Expedition>, Vec<Expedition>), Error>)
    ensures
        match r {
            Ok((outward, back)) => parse_outcome(value) == Ok::<(Seq<TripView>, Seq<TripView>), Error>((views(outward@), views(back@))),
            Err(e) => parse_outcome(value) == Err::<(Seq<TripView>, Seq<TripView>), Error>(e),
        },
{
    let trips = match value.get(TRIPS_KEY) {
        Some(t) => t,
        None => return Err(Error::MissingSection(Side::Outward)),
    };
    let outward_records = match trips.get(OUTWARD_STR) {
        Some(v) => match v.as_array() {
            Some(a) => a,
            None => return Err(Error::MissingSection(Side::Outward)),
        },
        None => return Err(Error::MissingSection(Side::Outward)),
    };
    let return_records = match trips.get(RETURN_STR) {
        Some(v) => match v.as_array() {
            Some(a) => a,
            None => return Err(Error::MissingSection(Side::Return)),
        },
        None => return Err(Error::MissingSection(Side::Return)),
    };
    let (outward, outward_failed) = parse_side(outward_records);
    let (back, return_failed) = parse_side(return_records);
    if !outward_failed && !return_failed {
        Ok((outward, back))
    } else if !return_failed {
        Err(Error::SideParseFailure(Side::Outward))
    } else if !outward_failed {
        Err(Error::SideParseFailure(Side::Return))
    } else {
        Err(Error::BothSidesParseFailure)
    }
}

} // verus!
