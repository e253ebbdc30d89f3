//! Extraction for the ImmoWelt listing pages.

use vstd::prelude::*;

use crate::dom::ElementRef;
use crate::dom::get_attr;
use crate::dom::get_text;
use crate::error::Error;
use crate::error::field_error;
use crate::flat::FlatData;
use crate::flat::FlatDataView;
use crate::numbers::locale_decimal_of;
use crate::numbers::locale_error;
use crate::numbers::locale_parses;
use crate::numbers::parse_number;
use crate::text::brackets_removed;
use crate::text::join_trimmed_lines;
use crate::text::joined_parts;
use crate::text::remove_brackets;

verus! {

/// The ImmoWelt extraction implementation.
pub struct ImmoWelt {}

/// The payload ImmoWelt's raw field strings assemble to: price, size and
/// rooms read as locale numbers — the first one that fails decides the
/// error — the location text joined line by line and stripped of
/// parenthesized remarks.
pub open spec fn immowelt_data(
    price: Seq<char>,
    squaremeters: Seq<char>,
    rooms: Seq<char>,
    title: Seq<char>,
    location: Seq<char>,
    externalid: Seq<char>,
) -> Result<FlatDataView, Error> {
    if !locale_parses(price) {
        Err(locale_error(price))
    } else if !locale_parses(squaremeters) {
        Err(locale_error(squaremeters))
    } else if !locale_parses(rooms) {
        Err(locale_error(rooms))
    } else {
        Ok(
            FlatDataView {
                price: locale_decimal_of(price),
                squaremeters: locale_decimal_of(squaremeters),
                address: brackets_removed(joined_parts(location)),
                title,
                externalid,
                rooms: locale_decimal_of(rooms),
            },
        )
    }
}

impl ImmoWelt {
    /// A fresh ImmoWelt extraction implementation.
    pub fn new() -> ImmoWelt {
        ImmoWelt {  }
    }

    /// The stable identifier used in logs and as the record source.
    pub fn name(&self) -> (r: &'static str)
        ensures
            r@ == "immowelt"@,
    {
        "immowelt"
    }

    /// The entry-point selector: one estate object per listing.
    pub fn selector(&self) -> (r: &'static str)
        ensures
            r@ == ".js-object[data-estateid]"@,
    {
        ".js-object[data-estateid]"
    }

    /// Assembles the payload from the raw field strings.
    pub fn from_fields(
        price: &str,
        squaremeters: &str,
        rooms: &str,
        title: String,
        location: &str,
        externalid: String,
    ) -> (r: Result<FlatData, Error>)
        ensures
            ({
                let expected = immowelt_data(
                    price@,
                    squaremeters@,
                    rooms@,
                    title@,
                    location@,
                    externalid@,
                );
                match (r, expected) {
                    (Ok(d), Ok(v)) => d@ == v,
                    (Err(e), Err(v)) => e == v,
                    _ => false,
                }
            }),
    {
        let p = match parse_number(price) {
            Ok(v) => v,
            Err(e) => {
                return Err(e);
            },
        };
        let s = match parse_number(squaremeters) {
            Ok(v) => v,
            Err(e) => {
                return Err(e);
            },
        };
        let rm = match parse_number(rooms) {
            Ok(v) => v,
            Err(e) => {
                return Err(e);
            },
        };
        let joined = join_trimmed_lines(location);
        let address = remove_brackets(joined.as_str());
        Ok(
            FlatData {
                price: p,
                squaremeters: s,
                address,
                title,
                externalid,
                rooms: rm,
            },
        )
    }

    /// Extracts one candidate node: reads the raw fields out of the element
    /// and assembles them.
    pub fn transform_result(&self, result: &ElementRef) -> (r: Result<FlatData, Error>)
        ensures
            match r {
                Ok(_) => true,
                Err(e) => field_error(e),
            },
    {
        let rent = match get_text(result, ".hardfacts_3 .hardfact:nth-child(1) strong") {
            Ok(v) => v,
            Err(e) => {
                return Err(e);
            },
        };
        let squaremeters = match get_text(result, ".hardfacts_3 .hardfact:nth-child(2)") {
            Ok(v) => v,
            Err(e) => {
                return Err(e);
            },
        };
        let rooms = match get_text(result, ".hardfacts_3 .hardfact:nth-child(3)") {
            Ok(v) => v,
            Err(e) => {
                return Err(e);
            },
        };
        let title = match get_text(result, ".listcontent h2") {
            Ok(v) => v,
            Err(e) => {
                return Err(e);
            },
        };
        let location = match get_text(result, ".listlocation") {
            Ok(v) => v,
            Err(e) => {
                return Err(e);
            },
        };
        let externalid = match get_attr(result, Option::None, "data-estateid") {
            Ok(v) => v,
            Err(e) => {
                return Err(e);
            },
        };
        Self::from_fields(
            rent.as_str(),
            squaremeters.as_str(),
            rooms.as_str(),
            title,
            location.as_str(),
            externalid,
        )
    }
}

} // verus!
