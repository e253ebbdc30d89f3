//! Extraction for the Süddeutsche listing pages.

use vstd::prelude::*;

use crate::dom::ElementRef;
use crate::dom::get_attr;
use crate::dom::get_text;
use crate::error::Error;
use crate::error::field_error;
use crate::flat::FlatData;
use crate::flat::FlatDataView;
use crate::numbers::locale_decimal_of;
use crate::numbers::locale_error;
use crate::numbers::locale_parses;
use crate::numbers::parse_number;
use crate::text::brackets_removed;
use crate::text::nth_part;
use crate::text::remove_brackets;
use crate::text::replace_all;
use crate::text::replaced;
use crate::text::split_nth;

verus! {

/// The Süddeutsche extraction implementation.
pub struct Sueddeutsche {}

/// The payload Süddeutsche's raw field strings assemble to. The rooms line
/// carries size and room count separated by `", "`; the region text, tabs
/// removed, carries the address on its third line; the price may hold
/// doubly-encoded non-breaking spaces; the element id wraps the external id.
/// A missing part fails as a missing field; otherwise the first number that
/// fails to parse — price, size, rooms — decides the error.
pub open spec fn sueddeutsche_data(
    rooms_div: Seq<char>,
    regions: Seq<char>,
    title_raw: Seq<char>,
    price_raw: Seq<char>,
    id_raw: Seq<char>,
) -> Result<FlatDataView, Error> {
    let cleaned_regions = replaced(regions, "\t"@, ""@);
    let price = replaced(price_raw, "&nbsp;"@, " "@);
    match (
        nth_part(rooms_div, ", "@, 0),
        nth_part(rooms_div, ", "@, 1),
        nth_part(cleaned_regions, "\n"@, 2),
    ) {
        (Some(squaremeters), Some(rooms), Some(address)) => {
            if !locale_parses(price) {
                Err(locale_error(price))
            } else if !locale_parses(squaremeters) {
                Err(locale_error(squaremeters))
            } else if !locale_parses(rooms) {
                Err(locale_error(rooms))
            } else {
                Ok(
                    FlatDataView {
                        price: locale_decimal_of(price),
                        squaremeters: locale_decimal_of(squaremeters),
                        address: brackets_removed(address),
                        title: replaced(replaced(title_raw, "\t"@, ""@), "\n"@, ""@),
                        externalid: replaced(id_raw, "idHitRowList"@, ""@),
                        rooms: locale_decimal_of(rooms),
                    },
                )
            }
        },
        _ => Err(Error::SelectorNotFound),
    }
}

impl Sueddeutsche {
    /// A fresh Süddeutsche extraction implementation.
    pub fn new() -> Sueddeutsche {
        Sueddeutsche {  }
    }

    /// The stable identifier used in logs and as the record source.
    pub fn name(&self) -> (r: &'static str)
        ensures
            r@ == "sueddeutsche"@,
    {
        "sueddeutsche"
    }

    /// The entry-point selector: one hit row per listing.
    pub fn selector(&self) -> (r: &'static str)
        ensures
            r@ == "#idHitContent .hitRow"@,
    {
        "#idHitContent .hitRow"
    }

    /// Assembles the payload from the raw field strings.
    pub fn from_fields(
        rooms_div: &str,
        regions: &str,
        title_raw: &str,
        price_raw: &str,
        id_raw: &str,
    ) -> (r: Result<FlatData, Error>)
        ensures
            ({
                let expected = sueddeutsche_data(rooms_div@, regions@, title_raw@, price_raw@, id_raw@);
                match (r, expected) {
                    (Ok(d), Ok(v)) => d@ == v,
                    (Err(e), Err(v)) => e == v,
                    _ => false,
                }
            }),
    {
        proof {
            reveal_strlit("\t");
            reveal_strlit("\n");
            reveal_strlit("&nbsp;");
            reveal_strlit("idHitRowList");
            reveal_strlit(", ");
        }
        let cleaned_regions = replace_all(regions, "\t", "");
        let price = replace_all(price_raw, "&nbsp;", " ");
        let squaremeters_opt = split_nth(rooms_div, ", ", 0);
        let rooms_opt = split_nth(rooms_div, ", ", 1);
        let address_opt = split_nth(cleaned_regions.as_str(), "\n", 2);
        match (squaremeters_opt, rooms_opt, address_opt) {
            (Option::Some(squaremeters), Option::Some(rooms), Option::Some(address)) => {
                let p = match parse_number(price.as_str()) {
                    Ok(v) => v,
                    Err(e) => {
                        return Err(e);
                    },
                };
                let s = match parse_number(squaremeters.as_str()) {
                    Ok(v) => v,
                    Err(e) => {
                        return Err(e);
                    },
                };
                let rm = match parse_number(rooms.as_str()) {
                    Ok(v) => v,
                    Err(e) => {
                        return Err(e);
                    },
                };
                let no_tabs = replace_all(title_raw, "\t", "");
                let title = replace_all(no_tabs.as_str(), "\n", "");
                let externalid = replace_all(id_raw, "idHitRowList", "");
                Ok(
                    FlatData {
                        price: p,
                        squaremeters: s,
                        address: remove_brackets(address.as_str()),
                        title,
                        externalid,
                        rooms: rm,
                    },
                )
            },
            _ => Err(Error::SelectorNotFound),
        }
    }

    /// Extracts one candidate node: reads the raw fields out of the element
    /// and assembles them.
    pub fn transform_result(&self, result: &ElementRef) -> (r: Result<FlatData, Error>)
        ensures
            match r {
                Ok(_) => true,
                Err(e) => field_error(e),
            },
    {
        let rooms_div = match get_text(result, ".hitRoomsDiv") {
            Ok(v) => v,
            Err(e) => {
                return Err(e);
            },
        };
        let regions = match get_text(result, ".hitRegionTxt") {
            Ok(v) => v,
            Err(e) => {
                return Err(e);
            },
        };
        let title_raw = match get_text(result, ".hitHeadline") {
            Ok(v) => v,
            Err(e) => {
                return Err(e);
            },
        };
        let price_raw = match get_text(result, ".hitPrice") {
            Ok(v) => v,
            Err(e) => {
                return Err(e);
            },
        };
        let id_raw = match get_attr(result, Option::None, "id") {
            Ok(v) => v,
            Err(e) => {
                return Err(e);
            },
        };
        Self::from_fields(
            rooms_div.as_str(),
            regions.as_str(),
            title_raw.as_str(),
            price_raw.as_str(),
            id_raw.as_str(),
        )
    }
}

} // verus!
