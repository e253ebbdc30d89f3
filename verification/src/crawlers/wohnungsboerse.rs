//! Extraction for the Wohnungsbörse listing pages.

use vstd::prelude::*;

use crate::dom::ElementRef;
use crate::dom::get_attr;
use crate::dom::get_text;
use crate::error::Error;
use crate::error::field_error;
use crate::flat::FlatData;
use crate::flat::FlatDataView;
use crate::numbers::locale_decimal_of;
use crate::numbers::locale_error;
use crate::numbers::locale_parses;
use crate::numbers::parse_number;
use crate::text::after_last;
use crate::text::text_after_last;
use crate::text::trim_text;
use crate::text::trimmed;

verus! {

/// The Wohnungsbörse extraction implementation.
pub struct Wohnungsboerse {}

/// The payload Wohnungsbörse's raw field strings assemble to: price, size
/// and rooms read as locale numbers — the first one that fails decides the
/// error — headline and subheadline trimmed, the external id taken from the
/// last segment of the listing link.
pub open spec fn wohnungsboerse_data(
    title_raw: Seq<char>,
    address_raw: Seq<char>,
    price: Seq<char>,
    squaremeters: Seq<char>,
    rooms: Seq<char>,
    link: Seq<char>,
) -> Result<FlatDataView, Error> {
    if !locale_parses(price) {
        Err(locale_error(price))
    } else if !locale_parses(squaremeters) {
        Err(locale_error(squaremeters))
    } else if !locale_parses(rooms) {
        Err(locale_error(rooms))
    } else {
        Ok(
            FlatDataView {
                price: locale_decimal_of(price),
                squaremeters: locale_decimal_of(squaremeters),
                address: trimmed(address_raw),
                title: trimmed(title_raw),
                externalid: after_last(link, '/'),
                rooms: locale_decimal_of(rooms),
            },
        )
    }
}

impl Wohnungsboerse {
    /// The stable identifier used in logs and as the record source.
    pub fn name(&self) -> (r: &'static str)
        ensures
            r@ == "wohnungsboerse"@,
    {
        "wohnungsboerse"
    }

    /// The entry-point selector: one search result entry per listing.
    pub fn selector(&self) -> (r: &'static str)
        ensures
            r@ == ".search_result_entry[class*='estate_']"@,
    {
        ".search_result_entry[class*='estate_']"
    }

    /// Assembles the payload from the raw field strings.
    pub fn from_fields(
        title_raw: &str,
        address_raw: &str,
        price: &str,
        squaremeters: &str,
        rooms: &str,
        link: &str,
    ) -> (r: Result<FlatData, Error>)
        ensures
            ({
                let expected = wohnungsboerse_data(
                    title_raw@,
                    address_raw@,
                    price@,
                    squaremeters@,
                    rooms@,
                    link@,
                );
                match (r, expected) {
                    (Ok(d), Ok(v)) => d@ == v,
                    (Err(e), Err(v)) => e == v,
                    _ => false,
                }
            }),
    {
        let p = match parse_number(price) {
            Ok(v) => v,
            Err(e) => {
                return Err(e);
            },
        };
        let s = match parse_number(squaremeters) {
            Ok(v) => v,
            Err(e) => {
                return Err(e);
            },
        };
        let rm = match parse_number(rooms) {
            Ok(v) => v,
            Err(e) => {
                return Err(e);
            },
        };
        Ok(
            FlatData {
                price: p,
                squaremeters: s,
                address: trim_text(address_raw),
                title: trim_text(title_raw),
                externalid: text_after_last(link, '/'),
                rooms: rm,
            },
        )
    }

    /// Extracts one candidate node: reads the raw fields out of the element
    /// and assembles them.
    pub fn transform_result(&self, result: &ElementRef) -> (r: Result<FlatData, Error>)
        ensures
            match r {
                Ok(_) => true,
                Err(e) => field_error(e),
            },
    {
        let title_raw = match get_text(result, ".search_result_entry-headline") {
            Ok(v) => v,
            Err(e) => {
                return Err(e);
            },
        };
        let address_raw = match get_text(result, ".search_result_entry-subheadline") {
            Ok(v) => v,
            Err(e) => {
                return Err(e);
            },
        };
        let price = match get_attr(
            result,
            Option::Some("div[itemprop^=priceSpecification] meta[itemprop^=price]"),
            "content",
        ) {
            Ok(v) => v,
            Err(e) => {
                return Err(e);
            },
        };
        let squaremeters = match get_attr(
            result,
            Option::Some("div[itemprop^=floorSize] meta[itemprop^=value]"),
            "content",
        ) {
            Ok(v) => v,
            Err(e) => {
                return Err(e);
            },
        };
        let rooms = match get_attr(
            result,
            Option::Some("div[itemprop^=numberOfRooms] meta[itemprop^=value]"),
            "content",
        ) {
            Ok(v) => v,
            Err(e) => {
                return Err(e);
            },
        };
        let link = match get_attr(result, Option::Some(".search_result_entry-headline a"), "href") {
            Ok(v) => v,
            Err(e) => {
                return Err(e);
            },
        };
        Self::from_fields(
            title_raw.as_str(),
            address_raw.as_str(),
            price.as_str(),
            squaremeters.as_str(),
            rooms.as_str(),
            link.as_str(),
        )
    }
}

} // verus!
