//! The listing record and the identity rule that deduplication rests on.
//!
//! Two records are the same listing when they belong to the same city and
//! either carry the same external id from the same source (exact identity)
//! or their titles agree after normalization (fuzzy identity, which
//! deliberately ignores the source so one listing posted on two sites is
//! recognized).

use vstd::prelude::*;

use crate::city::City;
use crate::geocode::Coordinate;
use crate::numbers::Decimal;
use crate::text::chars_eq;
use crate::text::normalized;
use crate::text::normalized_title;

verus! {

/// The typed payload an adapter extracts from one candidate node.
#[derive(Debug)]
pub struct FlatData {
    pub price: Decimal,
    pub squaremeters: Decimal,
    pub address: String,
    pub title: String,
    pub externalid: String,
    pub rooms: Decimal,
}

/// A coordinate with the positional error radius in meters.
#[derive(Clone, Copy, Debug, PartialEq, Eq, Structural)]
pub struct Location {
    pub latitude: Decimal,
    pub longitude: Decimal,
    pub uncertainty: Decimal,
}

/// One listing record: created when a target begins processing, completed by
/// adapter output, optionally enriched with a location.
#[derive(Debug)]
pub struct Flat {
    pub source: String,
    pub date: i64,
    pub city: City,
    pub data: Option<FlatData>,
    pub location: Option<Location>,
}

/// The mathematical value of a `FlatData`.
pub struct FlatDataView {
    pub price: Decimal,
    pub squaremeters: Decimal,
    pub address: Seq<char>,
    pub title: Seq<char>,
    pub externalid: Seq<char>,
    pub rooms: Decimal,
}

/// The mathematical value of a `Flat`.
pub struct FlatView {
    pub source: Seq<char>,
    pub date: i64,
    pub city: City,
    pub data: Option<FlatDataView>,
    pub location: Option<Location>,
}

impl View for FlatData {
    type V = FlatDataView;

    open spec fn view(&self) -> FlatDataView {
        FlatDataView {
            price: self.price,
            squaremeters: self.squaremeters,
            address: self.address@,
            title: self.title@,
            externalid: self.externalid@,
            rooms: self.rooms,
        }
    }
}

impl View for Flat {
    type V = FlatView;

    open spec fn view(&self) -> FlatView {
        FlatView {
            source: self.source@,
            date: self.date,
            city: self.city,
            data: match self.data {
                Option::Some(d) => Option::Some(d@),
                Option::None => Option::None,
            },
            location: self.location,
        }
    }
}

/// The external id a record carries, when its data is present.
pub open spec fn extid_of(f: FlatView) -> Option<Seq<char>> {
    match f.data {
        Option::Some(d) => Option::Some(d.externalid),
        Option::None => Option::None,
    }
}

/// Exact identity: same source and same external id (both absent counts as
/// the same).
pub open spec fn exact_match(a: FlatView, b: FlatView) -> bool {
    a.source == b.source && extid_of(a) == extid_of(b)
}

/// Fuzzy identity: both records complete and their titles equal after
/// normalization. The source is deliberately ignored.
pub open spec fn fuzzy_match(a: FlatView, b: FlatView) -> bool {
    match (a.data, b.data) {
        (Option::Some(d1), Option::Some(d2)) => normalized(d1.title) == normalized(d2.title),
        _ => false,
    }
}

/// The identity rule: records are the same listing only within one city, by
/// exact or by fuzzy identity.
pub open spec fn equivalent(a: FlatView, b: FlatView) -> bool {
    a.city == b.city && (fuzzy_match(a, b) || exact_match(a, b))
}

/// Equivalence never crosses cities: records of different cities are never
/// the same listing.
pub proof fn lemma_equivalence_same_city(a: FlatView, b: FlatView)
    ensures
        a.city != b.city ==> !equivalent(a, b),
{
}

/// Equivalence is reflexive: every record is the same listing as itself
/// (a complete record through either arm, an incomplete one through the
/// exact arm).
pub proof fn lemma_equivalent_reflexive(a: FlatView)
    ensures
        equivalent(a, a),
{
}

/// Relies on chrono's `Utc::now`: the Unix timestamp, in seconds, of the
/// moment of the call. Nothing is promised of the clock's reading.
#[verifier::external_body]
fn now_timestamp() -> i64 {
    chrono::Utc::now().timestamp()
}

impl Flat {
    /// The fuzzy arm of the identity rule: same city and titles equal after
    /// normalization.
    pub fn is_equal_to(&self, other: &Flat) -> (r: bool)
        ensures
            r == (self@.city == other@.city && fuzzy_match(self@, other@)),
    {
        if !(self.city == other.city) {
            return false;
        }
        match (&self.data, &other.data) {
            (Option::Some(d1), Option::Some(d2)) => {
                let n1 = normalized_title(d1.title.as_str());
                let n2 = normalized_title(d2.title.as_str());
                chars_eq(&n1, &n2)
            },
            _ => false,
        }
    }

    /// A fresh record for a source and a city, stamped with the current
    /// time, with no data and no location yet.
    pub fn new(source: String, city: City) -> (r: Flat)
        ensures
            r@.source == source@,
            r@.city == city,
            r@.data is None,
            r@.location is None,
    {
        Flat { date: now_timestamp(), source, data: Option::None, city, location: Option::None }
    }

    /// The same record completed with extracted data.
    pub fn fill(&self, data: &FlatData) -> (r: Flat)
        ensures
            r@ == (FlatView { data: Option::Some(data@), ..self@ }),
    {
        Flat {
            city: self.city,
            source: self.source.clone(),
            date: self.date,
            data: Option::Some(data.clone()),
            location: self.location,
        }
    }

    /// The same record enriched with a coordinate and an uncertainty radius.
    pub fn locate(&self, coord: &Coordinate, uncertainty: Decimal) -> (r: Flat)
        ensures
            r@ == (FlatView {
                location: Option::Some(Location {
                    latitude: coord.latitude,
                    longitude: coord.longitude,
                    uncertainty,
                }),
                ..self@
            }),
    {
        Flat {
            city: self.city,
            source: self.source.clone(),
            date: self.date,
            data: match &self.data {
                Option::Some(d) => Option::Some(d.clone()),
                Option::None => Option::None,
            },
            location: Option::Some(Location {
                latitude: coord.latitude,
                longitude: coord.longitude,
                uncertainty,
            }),
        }
    }
}

impl Clone for FlatData {
    /// Clones the payload, value for value.
    fn clone(&self) -> (r: FlatData)
        ensures
            r@ == self@,
    {
        FlatData {
            price: self.price,
            squaremeters: self.squaremeters,
            address: self.address.clone(),
            title: self.title.clone(),
            externalid: self.externalid.clone(),
            rooms: self.rooms,
        }
    }
}

impl Clone for Flat {
    /// Clones the record, value for value.
    fn clone(&self) -> (r: Flat)
        ensures
            r@ == self@,
    {
        Flat {
            source: self.source.clone(),
            date: self.date,
            city: self.city,
            data: match &self.data {
                Option::Some(d) => Option::Some(d.clone()),
                Option::None => Option::None,
            },
            location: self.location,
        }
    }
}

impl PartialEq for Flat {
    /// Whether two records are the same listing, by the identity rule.
    fn eq(&self, other: &Flat) -> (r: bool) {
        if self.is_equal_to(other) {
            true
        } else {
            self.city == other.city && self.source == other.source && match (
                &self.data,
                &other.data,
            ) {
                (Option::Some(d1), Option::Some(d2)) => d1.externalid == d2.externalid,
                (Option::None, Option::None) => true,
                _ => false,
            }
        }
    }
}

impl vstd::std_specs::cmp::PartialEqSpecImpl for Flat {
    open spec fn obeys_eq_spec() -> bool {
        true
    }

    open spec fn eq_spec(&self, other: &Flat) -> bool {
        equivalent(self@, other@)
    }
}

} // verus!
