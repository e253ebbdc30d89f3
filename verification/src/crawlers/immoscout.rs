//! Extraction for the ImmoScout listing pages.

use vstd::prelude::*;

use crate::dom::ElementRef;
use crate::dom::get_attr;
use crate::dom::get_text;
use crate::error::Error;
use crate::error::field_error;
use crate::flat::FlatData;
use crate::flat::FlatDataView;
use crate::numbers::locale_decimal_of;
use crate::numbers::locale_error;
use crate::numbers::locale_parses;
use crate::numbers::parse_number;
use crate::text::trim_text;
use crate::text::trimmed;

verus! {

/// The ImmoScout extraction implementation.
pub struct ImmoScout {}

/// The payload ImmoScout's raw field strings assemble to: price, size and
/// rooms read as locale numbers — the first one that fails decides the
/// error — title and address taken as they are, the external id trimmed.
pub open spec fn immoscout_data(
    price: Seq<char>,
    squaremeters: Seq<char>,
    rooms: Seq<char>,
    title: Seq<char>,
    address: Seq<char>,
    externalid: Seq<char>,
) -> Result<FlatDataView, Error> {
    if !locale_parses(price) {
        Err(locale_error(price))
    } else if !locale_parses(squaremeters) {
        Err(locale_error(squaremeters))
    } else if !locale_parses(rooms) {
        Err(locale_error(rooms))
    } else {
        Ok(
            FlatDataView {
                price: locale_decimal_of(price),
                squaremeters: locale_decimal_of(squaremeters),
                address,
                title,
                externalid: trimmed(externalid),
                rooms: locale_decimal_of(rooms),
            },
        )
    }
}

impl ImmoScout {
    /// The stable identifier used in logs and as the record source.
    pub fn name(&self) -> (r: &'static str)
        ensures
            r@ == "immoscout"@,
    {
        "immoscout"
    }

    /// The entry-point selector: one result article per listing.
    pub fn selector(&self) -> (r: &'static str)
        ensures
            r@ == "article[data-item=result]"@,
    {
        "article[data-item=result]"
    }

    /// Assembles the payload from the raw field strings.
    pub fn from_fields(
        price: &str,
        squaremeters: &str,
        rooms: &str,
        title: String,
        address: String,
        externalid: &str,
    ) -> (r: Result<FlatData, Error>)
        ensures
            ({
                let expected = immoscout_data(
                    price@,
                    squaremeters@,
                    rooms@,
                    title@,
                    address@,
                    externalid@,
                );
                match (r, expected) {
                    (Ok(d), Ok(v)) => d@ == v,
                    (Err(e), Err(v)) => e == v,
                    _ => false,
                }
            }),
    {
        let p = match parse_number(price) {
            Ok(v) => v,
            Err(e) => {
                return Err(e);
            },
        };
        let s = match parse_number(squaremeters) {
            Ok(v) => v,
            Err(e) => {
                return Err(e);
            },
        };
        let rm = match parse_number(rooms) {
            Ok(v) => v,
            Err(e) => {
                return Err(e);
            },
        };
        Ok(
            FlatData {
                price: p,
                squaremeters: s,
                address,
                title,
                externalid: trim_text(externalid),
                rooms: rm,
            },
        )
    }

    /// Extracts one candidate node: reads the raw fields out of the element
    /// and assembles them.
    pub fn transform_result(&self, result: &ElementRef) -> (r: Result<FlatData, Error>)
        ensures
            match r {
                Ok(_) => true,
                Err(e) => field_error(e),
            },
    {
        let rent = match get_text(result, ".result-list-entry__criteria dl:nth-child(1) dd") {
            Ok(v) => v,
            Err(e) => {
                return Err(e);
            },
        };
        let squaremeters = match get_text(
            result,
            ".result-list-entry__criteria dl:nth-child(2) dd",
        ) {
            Ok(v) => v,
            Err(e) => {
                return Err(e);
            },
        };
        let rooms = match get_text(
            result,
            ".result-list-entry__criteria dl:nth-child(3) dd .onlyLarge",
        ) {
            Ok(v) => v,
            Err(e) => {
                return Err(e);
            },
        };
        let title = match get_text(result, ".result-list-entry__brand-title") {
            Ok(v) => v,
            Err(e) => {
                return Err(e);
            },
        };
        let address = match get_text(result, ".result-list-entry__map-link") {
            Ok(v) => v,
            Err(e) => {
                return Err(e);
            },
        };
        let externalid = match get_attr(result, Option::None, "data-obid") {
            Ok(v) => v,
            Err(e) => {
                return Err(e);
            },
        };
        Self::from_fields(
            rent.as_str(),
            squaremeters.as_str(),
            rooms.as_str(),
            title,
            address,
            externalid.as_str(),
        )
    }
}

} // verus!
