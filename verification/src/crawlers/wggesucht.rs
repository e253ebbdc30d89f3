//! Extraction for the WG-Gesucht listing pages.

use vstd::prelude::*;

use crate::dom::ElementRef;
use crate::dom::get_attr;
use crate::dom::get_text;
use crate::error::Error;
use crate::error::field_error;
use crate::flat::FlatData;
use crate::flat::FlatDataView;
use crate::numbers::locale_decimal_of;
use crate::numbers::locale_error;
use crate::numbers::locale_parses;
use crate::numbers::parse_number;
use crate::text::replace_all;
use crate::text::replaced;
use crate::text::trim_text;
use crate::text::trimmed;

verus! {

/// The WG-Gesucht extraction implementation.
pub struct WGGesucht {}

/// The payload WG-Gesucht's raw field strings assemble to: price, size and
/// rooms read as locale numbers — the first one that fails decides the
/// error — a fixed title (the site shows none per row), and the city column,
/// line breaks removed and trimmed, behind a fixed city prefix.
pub open spec fn wggesucht_data(
    price: Seq<char>,
    squaremeters: Seq<char>,
    rooms: Seq<char>,
    city_text: Seq<char>,
    externalid: Seq<char>,
) -> Result<FlatDataView, Error> {
    if !locale_parses(price) {
        Err(locale_error(price))
    } else if !locale_parses(squaremeters) {
        Err(locale_error(squaremeters))
    } else if !locale_parses(rooms) {
        Err(locale_error(rooms))
    } else {
        Ok(
            FlatDataView {
                price: locale_decimal_of(price),
                squaremeters: locale_decimal_of(squaremeters),
                address: "München, "@ + trimmed(replaced(city_text, "\n"@, ""@)),
                title: "Wohnung auf WG Gesucht"@,
                externalid,
                rooms: locale_decimal_of(rooms),
            },
        )
    }
}

impl WGGesucht {
    /// The stable identifier used in logs and as the record source.
    pub fn name(&self) -> (r: &'static str)
        ensures
            r@ == "wggesucht"@,
    {
        "wggesucht"
    }

    /// The entry-point selector: one table row per listing.
    pub fn selector(&self) -> (r: &'static str)
        ensures
            r@ == "tr[adid^=wohnungen]"@,
    {
        "tr[adid^=wohnungen]"
    }

    /// Assembles the payload from the raw field strings.
    pub fn from_fields(
        price: &str,
        squaremeters: &str,
        rooms: &str,
        city_text: &str,
        externalid: String,
    ) -> (r: Result<FlatData, Error>)
        ensures
            ({
                let expected = wggesucht_data(
                    price@,
                    squaremeters@,
                    rooms@,
                    city_text@,
                    externalid@,
                );
                match (r, expected) {
                    (Ok(d), Ok(v)) => d@ == v,
                    (Err(e), Err(v)) => e == v,
                    _ => false,
                }
            }),
    {
        let p = match parse_number(price) {
            Ok(v) => v,
            Err(e) => {
                return Err(e);
            },
        };
        let s = match parse_number(squaremeters) {
            Ok(v) => v,
            Err(e) => {
                return Err(e);
            },
        };
        let rm = match parse_number(rooms) {
            Ok(v) => v,
            Err(e) => {
                return Err(e);
            },
        };
        proof {
            reveal_strlit("\n");
        }
        let unbroken = replace_all(city_text, "\n", "");
        let tail = trim_text(unbroken.as_str());
        let mut address = String::from_str("München, ");
        address.append(tail.as_str());
        let title = String::from_str("Wohnung auf WG Gesucht");
        Ok(
            FlatData {
                price: p,
                squaremeters: s,
                address,
                title,
                externalid,
                rooms: rm,
            },
        )
    }

    /// Extracts one candidate node: rows only available for a limited time
    /// are skipped; otherwise the raw fields are read and assembled.
    pub fn transform_result(&self, result: &ElementRef) -> (r: Result<FlatData, Error>)
        ensures
            match r {
                Ok(_) => true,
                Err(e) => field_error(e),
            },
    {
        let free_until = match get_text(result, ".ang_spalte_freibis") {
            Ok(v) => v,
            Err(e) => {
                return Err(e);
            },
        };
        let free_until_trimmed = trim_text(free_until.as_str());
        if free_until_trimmed.as_str().unicode_len() > 0 {
            return Err(Error::LimitedAvailability);
        }
        let rent = match get_text(result, ".ang_spalte_miete") {
            Ok(v) => v,
            Err(e) => {
                return Err(e);
            },
        };
        let squaremeters = match get_text(result, ".ang_spalte_groesse") {
            Ok(v) => v,
            Err(e) => {
                return Err(e);
            },
        };
        let rooms = match get_text(result, ".ang_spalte_zimmer") {
            Ok(v) => v,
            Err(e) => {
                return Err(e);
            },
        };
        let city_text = match get_text(result, ".ang_spalte_stadt") {
            Ok(v) => v,
            Err(e) => {
                return Err(e);
            },
        };
        let externalid = match get_attr(result, Option::None, "adid") {
            Ok(v) => v,
            Err(e) => {
                return Err(e);
            },
        };
        Self::from_fields(
            rent.as_str(),
            squaremeters.as_str(),
            rooms.as_str(),
            city_text.as_str(),
            externalid,
        )
    }
}

} // verus!
