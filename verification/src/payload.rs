//! The publish payload: one JSON object per record, and the document-store
//! key, exactly as the downstream transport expects them.
//!
//! A record with absent data or location publishes the corresponding member
//! as `null`; enrichment failure thus never removes a record from the
//! payload.

use vstd::prelude::*;

use crate::flat::Flat;
use crate::flat::FlatDataView;
use crate::flat::FlatView;
use crate::flat::Location;
use crate::numbers::Decimal;
use crate::numbers::append_nat_digits;
use crate::numbers::decimal_chars;
use crate::numbers::digit_char;
use crate::numbers::nat_digits;

verus! {

/// The character of a hexadecimal digit value, lowercase.
pub open spec fn hex_char(d: int) -> char {
    if d < 10 {
        digit_char(d)
    } else {
        ((d + 87) as u8) as char
    }
}

/// How one character is written inside a JSON string: quote and backslash
/// escaped, control characters as `\u00..`, everything else as itself.
pub open spec fn json_escaped_char(c: char) -> Seq<char> {
    if c == '"' {
        seq!['\\', '"']
    } else if c == '\\' {
        seq!['\\', '\\']
    } else if (c as u32) < 32 {
        seq!['\\', 'u', '0', '0', hex_char(c as u32 as int / 16), hex_char(c as u32 as int % 16)]
    } else {
        seq![c]
    }
}

/// A text with every character written as JSON allows inside a string.
pub open spec fn json_escaped(s: Seq<char>) -> Seq<char>
    decreases s.len(),
{
    if s.len() == 0 {
        Seq::empty()
    } else {
        json_escaped(s.drop_last()) + json_escaped_char(s.last())
    }
}

/// A JSON string literal: quotes around the escaped text.
pub open spec fn json_string(s: Seq<char>) -> Seq<char> {
    seq!['"'] + json_escaped(s) + seq!['"']
}

/// A timestamp as JSON writes it: digits, a leading minus for negatives.
pub open spec fn date_chars(d: i64) -> Seq<char> {
    if d >= 0 {
        nat_digits(d as nat)
    } else {
        seq!['-'] + nat_digits((-d) as nat)
    }
}

/// The data member of the payload.
pub open spec fn json_of_data(d: FlatDataView) -> Seq<char> {
    "{\"price\":"@ + decimal_chars(d.price) + ",\"squaremeters\":"@ + decimal_chars(d.squaremeters)
        + ",\"address\":"@ + json_string(d.address) + ",\"title\":"@ + json_string(d.title)
        + ",\"externalid\":"@ + json_string(d.externalid) + ",\"rooms\":"@ + decimal_chars(d.rooms)
        + "}"@
}

/// The location member of the payload.
pub open spec fn json_of_location(l: Location) -> Seq<char> {
    "{\"latitude\":"@ + decimal_chars(l.latitude) + ",\"longitude\":"@ + decimal_chars(l.longitude)
        + ",\"uncertainty\":"@ + decimal_chars(l.uncertainty) + "}"@
}

/// The whole payload object for one record: source, date as epoch seconds,
/// city, and the data and location members — `null` where absent.
pub open spec fn payload_chars(f: FlatView) -> Seq<char> {
    "{\"source\":"@ + json_string(f.source) + ",\"date\":"@ + date_chars(f.date) + ",\"city\":"@
        + json_string(f.city.name_spec()) + ",\"data\":"@ + (match f.data {
        Option::Some(d) => json_of_data(d),
        Option::None => "null"@,
    }) + ",\"location\":"@ + (match f.location {
        Option::Some(l) => json_of_location(l),
        Option::None => "null"@,
    }) + "}"@
}

/// A one-character string for each hexadecimal digit value.
fn hex_str(d: u32) -> (r: &'static str)
    requires
        d < 16,
    ensures
        r@ =~= seq![hex_char(d as int)],
{
    proof {
        reveal_strlit("0");
        reveal_strlit("1");
        reveal_strlit("2");
        reveal_strlit("3");
        reveal_strlit("4");
        reveal_strlit("5");
        reveal_strlit("6");
        reveal_strlit("7");
        reveal_strlit("8");
        reveal_strlit("9");
        reveal_strlit("a");
        reveal_strlit("b");
        reveal_strlit("c");
        reveal_strlit("d");
        reveal_strlit("e");
        reveal_strlit("f");
    }
    match d {
        0 => "0",
        1 => "1",
        2 => "2",
        3 => "3",
        4 => "4",
        5 => "5",
        6 => "6",
        7 => "7",
        8 => "8",
        9 => "9",
        10 => "a",
        11 => "b",
        12 => "c",
        13 => "d",
        14 => "e",
        _ => "f",
    }
}

/// Appends a text in its JSON-escaped form.
fn append_escaped(text: &str, out: &mut String)
    ensures
        final(out)@ == old(out)@ + json_escaped(text@),
{
    let ghost s = text@;
    let n = text.unicode_len();
    let mut i: usize = 0;
    while i < n
        invariant
            i <= n,
            n == s.len(),
            s == text@,
            out@ == old(out)@ + json_escaped(s.subrange(0, i as int)),
        decreases n - i,
    {
        let c = text.get_char(i);
        let u = c as u32;
        if c == '"' {
            proof {
                reveal_strlit("\\\"");
            }
            out.append("\\\"");
        } else if c == '\\' {
            proof {
                reveal_strlit("\\\\");
            }
            out.append("\\\\");
        } else if u < 32 {
            proof {
                reveal_strlit("\\u00");
            }
            out.append("\\u00");
            out.append(hex_str(u / 16));
            out.append(hex_str(u % 16));
        } else {
            let piece = text.substring_char(i, i + 1);
            proof {
                assert(piece@ =~= seq![s[i as int]]);
            }
            out.append(piece);
        }
        proof {
            assert(s.subrange(0, i + 1).drop_last() =~= s.subrange(0, i as int));
            assert(s.subrange(0, i + 1).last() == s[i as int]);
            assert(out@ =~= old(out)@ + json_escaped(s.subrange(0, i + 1)));
        }
        i = i + 1;
    }
    proof {
        assert(s.subrange(0, n as int) =~= s);
    }
}

/// Appends a JSON string literal: quotes around the escaped text.
fn append_json_string(text: &str, out: &mut String)
    ensures
        final(out)@ == old(out)@ + json_string(text@),
{
    proof {
        reveal_strlit("\"");
    }
    out.append("\"");
    append_escaped(text, out);
    out.append("\"");
    proof {
        assert(out@ =~= old(out)@ + json_string(text@));
    }
}

/// Appends a timestamp: digits, a leading minus for negatives.
fn append_date(d: i64, out: &mut String)
    ensures
        final(out)@ == old(out)@ + date_chars(d),
{
    if d >= 0 {
        append_nat_digits(d as u64, out);
    } else {
        proof {
            reveal_strlit("-");
        }
        out.append("-");
        let magnitude: u64 = ((-(d + 1)) as u64) + 1;
        append_nat_digits(magnitude, out);
        proof {
            assert(out@ =~= old(out)@ + date_chars(d));
        }
    }
}

/// Appends a fixed-point number's text.
fn append_decimal(d: &Decimal, out: &mut String)
    ensures
        final(out)@ == old(out)@ + decimal_chars(*d),
{
    let text = d.to_text();
    out.append(text.as_str());
}

/// Renders the payload object for one record, exactly as the transport
/// contract states it: source, date, city, then the data and location
/// members, `null` where absent.
pub fn payload_json(f: &Flat) -> (r: String)
    ensures
        r@ == payload_chars(f@),
{
    let mut out = String::new();
    out.append("{\"source\":");
    append_json_string(f.source.as_str(), &mut out);
    out.append(",\"date\":");
    append_date(f.date, &mut out);
    out.append(",\"city\":");
    append_json_string(f.city.name(), &mut out);
    out.append(",\"data\":");
    match &f.data {
        Option::Some(data) => {
            out.append("{\"price\":");
            append_decimal(&data.price, &mut out);
            out.append(",\"squaremeters\":");
            append_decimal(&data.squaremeters, &mut out);
            out.append(",\"address\":");
            append_json_string(data.address.as_str(), &mut out);
            out.append(",\"title\":");
            append_json_string(data.title.as_str(), &mut out);
            out.append(",\"externalid\":");
            append_json_string(data.externalid.as_str(), &mut out);
            out.append(",\"rooms\":");
            append_decimal(&data.rooms, &mut out);
            out.append("}");
            proof {
                assert(out@ =~= "{\"source\":"@ + json_string(f@.source) + ",\"date\":"@
                    + date_chars(f@.date) + ",\"city\":"@ + json_string(f@.city.name_spec())
                    + ",\"data\":"@ + json_of_data(f@.data->Some_0));
            }
        },
        Option::None => {
            out.append("null");
        },
    }
    out.append(",\"location\":");
    match &f.location {
        Option::Some(l) => {
            out.append("{\"latitude\":");
            append_decimal(&l.latitude, &mut out);
            out.append(",\"longitude\":");
            append_decimal(&l.longitude, &mut out);
            out.append(",\"uncertainty\":");
            append_decimal(&l.uncertainty, &mut out);
            out.append("}");
        },
        Option::None => {
            out.append("null");
        },
    }
    out.append("}");
    proof {
        assert(out@ =~= payload_chars(f@));
    }
    out
}

/// The document-store key for a record: its source and external id joined
/// with a dash; absent when the record carries no data.
pub fn document_key(f: &Flat) -> (r: Option<String>)
    ensures
        match (r, f@.data) {
            (Option::Some(k), Option::Some(d)) => k@ == f@.source + seq!['-'] + d.externalid,
            (Option::None, Option::None) => true,
            _ => false,
        },
{
    match &f.data {
        Option::Some(data) => {
            let mut key = f.source.clone();
            proof {
                reveal_strlit("-");
            }
            key.append("-");
            key.append(data.externalid.as_str());
            proof {
                assert(key@ =~= f@.source + seq!['-'] + f@.data->Some_0.externalid);
            }
            Some(key)
        },
        Option::None => None,
    }
}

} // verus!
