//! Geocoding enrichment: evaluating a geocoder's ranked results and
//! attaching a coordinate and an uncertainty radius to a record.
//!
//! The network call and the great-circle arithmetic (floating point) live
//! outside the library; this module owns the query URL, the evaluation of
//! the response — take the first ranked result, read its coordinate and
//! bounding box — and the rule that enrichment failure never discards a
//! record.

use vstd::prelude::*;

use crate::error::Error;
use crate::flat::Flat;
use crate::flat::FlatView;
use crate::flat::Location;
use crate::numbers::Decimal;
use crate::numbers::parse_plain_decimal;
use crate::numbers::plain_decimal_of;
use crate::numbers::plain_parses;

verus! {

/// One ranked result of the geocoding endpoint, as it arrives: latitude,
/// longitude, and the bounding box corners, all as numeric strings (the box
/// in south, north, west, east order).
#[derive(Clone, Debug)]
pub struct ApiResult {
    pub lat: String,
    pub lon: String,
    pub boundingbox: Vec<String>,
}

/// A point on the globe.
#[derive(Clone, Copy, Debug, PartialEq, Eq, Structural)]
pub struct Coordinate {
    pub latitude: Decimal,
    pub longitude: Decimal,
}

/// The box a geocoder bounds its match with; its diagonal is the uncertainty.
#[derive(Clone, Copy, Debug, PartialEq, Eq, Structural)]
pub struct BoundingBox {
    pub min_lat: Decimal,
    pub max_lat: Decimal,
    pub min_lon: Decimal,
    pub max_lon: Decimal,
}

/// A successful geocoding outcome: the coordinate and the uncertainty
/// radius in meters.
#[derive(Clone, Copy, Debug, PartialEq, Eq, Structural)]
pub struct GeocodeResult {
    pub coord: Coordinate,
    pub uncertainty: Decimal,
}

/// What url's parser and query serializer yield for a base URL and an
/// address: the base with `q=<address>&format=json` appended, or nothing
/// when the base does not parse. A function of the two strings alone.
pub uninterp spec fn url_with_query(base: Seq<char>, address: Seq<char>) -> Option<Seq<char>>;

/// Relies on url's `Url::parse` and `query_pairs_mut().append_pair`: parses
/// the base URL and percent-encodes the two query pairs onto it; fails
/// exactly when the base does not parse as a URL.
#[verifier::external_body]
fn build_query_url(base: &str, address: &str) -> (r: Option<String>)
    ensures
        match r {
            Some(u) => url_with_query(base@, address@) == Some(u@),
            None => url_with_query(base@, address@) is None,
        },
{
    match url::Url::parse(base) {
        Ok(mut u) => {
            u.query_pairs_mut().append_pair("q", address).append_pair("format", "json");
            Some(u.as_str().to_owned())
        },
        Err(_) => None,
    }
}

/// The query URL for an address: the endpoint with `q=<address>&format=json`
/// appended. Fails with `GeocodeError` exactly when the endpoint does not
/// parse as a URL.
pub fn geocode_url(endpoint: &str, address: &str) -> (r: Result<String, Error>)
    ensures
        match r {
            Ok(u) => url_with_query(endpoint@, address@) == Some(u@),
            Err(e) => e == Error::GeocodeError && url_with_query(endpoint@, address@) is None,
        },
{
    match build_query_url(endpoint, address) {
        Some(u) => Ok(u),
        None => Err(Error::GeocodeError),
    }
}

/// Whether a ranked result can be read: a coordinate and at least four
/// bounding box corners, all plain decimals in range.
pub open spec fn api_result_parses(a: ApiResult) -> bool {
    &&& a.boundingbox@.len() >= 4
    &&& plain_parses(a.lat@)
    &&& plain_parses(a.lon@)
    &&& plain_parses(a.boundingbox@[0]@)
    &&& plain_parses(a.boundingbox@[1]@)
    &&& plain_parses(a.boundingbox@[2]@)
    &&& plain_parses(a.boundingbox@[3]@)
}

/// The coordinate a ranked result denotes.
pub open spec fn api_coordinate(a: ApiResult) -> Coordinate {
    Coordinate { latitude: plain_decimal_of(a.lat@), longitude: plain_decimal_of(a.lon@) }
}

/// The bounding box a ranked result denotes: south, north, west, east.
pub open spec fn api_bounding_box(a: ApiResult) -> BoundingBox {
    BoundingBox {
        min_lat: plain_decimal_of(a.boundingbox@[0]@),
        max_lat: plain_decimal_of(a.boundingbox@[1]@),
        min_lon: plain_decimal_of(a.boundingbox@[2]@),
        max_lon: plain_decimal_of(a.boundingbox@[3]@),
    }
}

/// Evaluates a geocoder's ranked results: takes the first, reads its
/// coordinate and bounding box. Fails with `GeocodeError` exactly when there
/// is no result or the first cannot be read.
pub fn geocode_response(results: &Vec<ApiResult>) -> (r: Result<(Coordinate, BoundingBox), Error>)
    ensures
        match r {
            Ok(p) => {
                &&& results@.len() > 0
                &&& api_result_parses(results@[0])
                &&& p.0 == api_coordinate(results@[0])
                &&& p.1 == api_bounding_box(results@[0])
            },
            Err(e) => {
                &&& e == Error::GeocodeError
                &&& (results@.len() == 0 || !api_result_parses(results@[0]))
            },
        },
{
    if results.len() == 0 {
        return Err(Error::GeocodeError);
    }
    let best = &results[0];
    if best.boundingbox.len() < 4 {
        return Err(Error::GeocodeError);
    }
    let lat = parse_plain_decimal(best.lat.as_str());
    let lon = parse_plain_decimal(best.lon.as_str());
    let b0 = parse_plain_decimal(best.boundingbox[0].as_str());
    let b1 = parse_plain_decimal(best.boundingbox[1].as_str());
    let b2 = parse_plain_decimal(best.boundingbox[2].as_str());
    let b3 = parse_plain_decimal(best.boundingbox[3].as_str());
    match (lat, lon, b0, b1, b2, b3) {
        (
            Option::Some(latitude),
            Option::Some(longitude),
            Option::Some(min_lat),
            Option::Some(max_lat),
            Option::Some(min_lon),
            Option::Some(max_lon),
        ) => Ok(
            (
                Coordinate { latitude, longitude },
                BoundingBox { min_lat, max_lat, min_lon, max_lon },
            ),
        ),
        _ => Err(Error::GeocodeError),
    }
}

/// Applies an enrichment outcome to a record: on success the record with the
/// location attached, on failure the record unchanged — enrichment failure
/// never discards a record.
pub fn apply_geocode(flat: &Flat, outcome: &Option<GeocodeResult>) -> (r: Flat)
    ensures
        match outcome {
            Option::Some(g) => r@ == (FlatView {
                location: Option::Some(Location {
                    latitude: g.coord.latitude,
                    longitude: g.coord.longitude,
                    uncertainty: g.uncertainty,
                }),
                ..flat@
            }),
            Option::None => r@ == flat@,
        },
{
    match outcome {
        Option::Some(g) => flat.locate(&g.coord, g.uncertainty),
        Option::None => flat.clone(),
    }
}

} // verus!
