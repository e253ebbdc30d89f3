//! Locale-aware number parsing.
//!
//! Listing pages print amounts like `1.234,5`: digits, optionally grouped by
//! `.` in blocks of three, optionally followed by `,` and decimal digits.
//! `parse_number` finds the first such run anywhere in a field's text, strips
//! the grouping dots, and reads the decimal comma, yielding an exact
//! fixed-point [`Decimal`]. Geocoder responses print plain `-12.345` numbers
//! instead, which `parse_plain_decimal` reads.

use vstd::prelude::*;

use crate::error::Error;

verus! {

/// An exact fixed-point number: `mantissa / 10^scale`, negated when
/// `negative` is set.
#[derive(Clone, Copy, Debug, PartialEq, Eq, Structural)]
pub struct Decimal {
    pub negative: bool,
    pub mantissa: u64,
    pub scale: u32,
}

/// ASCII decimal digit.
pub open spec fn is_digit(c: char) -> bool {
    48 <= c as u32 && c as u32 <= 57
}

/// Value of an ASCII digit.
pub open spec fn digit_val(c: char) -> int {
    c as u32 - 48
}

/// Numeric value of a most-significant-first digit sequence.
pub open spec fn seq_to_nat(ds: Seq<char>) -> int
    decreases ds.len(),
{
    if ds.len() == 0 {
        0
    } else {
        seq_to_nat(ds.drop_last()) * 10 + digit_val(ds.last())
    }
}

/// Index of the first digit at or after `i`, or `s.len()` when none exists.
pub open spec fn first_digit(s: Seq<char>, i: int) -> int
    decreases s.len() - i,
{
    if i < 0 || i >= s.len() {
        s.len() as int
    } else if is_digit(s[i]) {
        i
    } else {
        first_digit(s, i + 1)
    }
}

/// Length of the run of digits starting at `i`.
pub open spec fn run_len(s: Seq<char>, i: int) -> int
    decreases s.len() - i,
{
    if 0 <= i < s.len() && is_digit(s[i]) {
        1 + run_len(s, i + 1)
    } else {
        0
    }
}

/// Whether a grouping segment `.ddd` starts at `j`.
pub open spec fn group_at(s: Seq<char>, j: int) -> bool {
    &&& j >= 0
    &&& j + 3 < s.len()
    &&& s[j] == '.'
    &&& is_digit(s[j + 1])
    &&& is_digit(s[j + 2])
    &&& is_digit(s[j + 3])
}

/// The digits of the grouping segments starting at `j`, dots removed.
pub open spec fn group_digits(s: Seq<char>, j: int) -> Seq<char>
    decreases s.len() - j,
{
    if group_at(s, j) {
        s.subrange(j + 1, j + 4) + group_digits(s, j + 4)
    } else {
        Seq::empty()
    }
}

/// The position right after the grouping segments starting at `j`.
pub open spec fn group_end(s: Seq<char>, j: int) -> int
    decreases s.len() - j,
{
    if group_at(s, j) {
        group_end(s, j + 4)
    } else {
        j
    }
}

/// Start of the first locale-number match: the first digit of `s`.
pub open spec fn int_start(s: Seq<char>) -> int {
    first_digit(s, 0)
}

/// End of the leading digit run of the match.
pub open spec fn int_end(s: Seq<char>) -> int {
    int_start(s) + run_len(s, int_start(s))
}

/// End of the grouped part of the match.
pub open spec fn group_stop(s: Seq<char>) -> int {
    group_end(s, int_end(s))
}

/// Whether the match carries a decimal part: a comma followed by a digit.
pub open spec fn has_frac(s: Seq<char>) -> bool {
    &&& group_stop(s) + 1 < s.len()
    &&& s[group_stop(s)] == ','
    &&& is_digit(s[group_stop(s) + 1])
}

/// The decimal digits of the match, empty when it has none.
pub open spec fn frac_digits(s: Seq<char>) -> Seq<char> {
    if has_frac(s) {
        s.subrange(group_stop(s) + 1, group_stop(s) + 1 + run_len(s, group_stop(s) + 1))
    } else {
        Seq::empty()
    }
}

/// All digits of the first locale-number match: the integer digits with the
/// grouping dots removed, followed by the decimal digits.
pub open spec fn locale_digits(s: Seq<char>) -> Seq<char> {
    s.subrange(int_start(s), int_end(s)) + group_digits(s, int_end(s)) + frac_digits(s)
}

/// Whether `s` holds a locale-number run at all: any digit anywhere.
pub open spec fn locale_found(s: Seq<char>) -> bool {
    int_start(s) < s.len()
}

/// A digit sequence's value never goes negative.
proof fn lemma_seq_to_nat_nonneg(ds: Seq<char>)
    requires
        forall|k: int| 0 <= k < ds.len() ==> is_digit(#[trigger] ds[k]),
    ensures
        seq_to_nat(ds) >= 0,
    decreases ds.len(),
{
    if ds.len() > 0 {
        lemma_seq_to_nat_nonneg(ds.drop_last());
    }
}

/// Extending a digit sequence never shrinks its value.
proof fn lemma_seq_to_nat_prefix(ds: Seq<char>, k: int)
    requires
        forall|t: int| 0 <= t < ds.len() ==> is_digit(#[trigger] ds[t]),
        0 <= k <= ds.len(),
    ensures
        seq_to_nat(ds) >= seq_to_nat(ds.subrange(0, k)),
    decreases ds.len() - k,
{
    if k == ds.len() {
        assert(ds.subrange(0, k) =~= ds);
    } else {
        let a = ds.subrange(0, k);
        let b = ds.subrange(0, k + 1);
        assert(b.drop_last() =~= a);
        lemma_seq_to_nat_nonneg(a);
        lemma_seq_to_nat_prefix(ds, k + 1);
    }
}

/// Finds the first digit of `text`, or its length when it has none.
fn find_first_digit(text: &str) -> (r: usize)
    ensures
        r == first_digit(text@, 0),
        r <= text@.len(),
{
    let n = text.unicode_len();
    let mut i: usize = 0;
    while i < n
        invariant
            i <= n,
            n == text@.len(),
            first_digit(text@, 0) == first_digit(text@, i as int),
        decreases n - i,
    {
        let c = text.get_char(i);
        let u = c as u32;
        if 48 <= u && u <= 57 {
            return i;
        }
        i = i + 1;
    }
    i
}

/// Appends the digit run of `text` at `start` to `out`; returns its end.
fn take_digit_run(text: &str, start: usize, out: &mut Vec<char>) -> (j: usize)
    requires
        start <= text@.len(),
    ensures
        j == start + run_len(text@, start as int),
        j <= text@.len(),
        final(out)@ == old(out)@ + text@.subrange(start as int, j as int),
        forall|k: int| old(out)@.len() <= k < final(out)@.len() ==> is_digit(#[trigger] final(out)@[k]),
    decreases text@.len() - start,
{
    let ghost s = text@;
    let n = text.unicode_len();
    let mut j = start;
    while j < n
        invariant
            start <= j <= n,
            n == s.len(),
            s == text@,
            run_len(s, start as int) == j - start + run_len(s, j as int),
            out@ == old(out)@ + s.subrange(start as int, j as int),
            forall|k: int| old(out)@.len() <= k < out@.len() ==> is_digit(#[trigger] out@[k]),
        ensures
            start <= j <= n,
            run_len(s, start as int) == j - start,
            out@ == old(out)@ + s.subrange(start as int, j as int),
            forall|k: int| old(out)@.len() <= k < out@.len() ==> is_digit(#[trigger] out@[k]),
        decreases n - j,
    {
        let c = text.get_char(j);
        let u = c as u32;
        if !(48 <= u && u <= 57) {
            break;
        }
        out.push(c);
        proof {
            assert(s.subrange(start as int, j + 1) =~= s.subrange(start as int, j as int).push(
                s[j as int],
            ));
        }
        j = j + 1;
    }
    j
}

/// Appends the digits of the grouping segments of `text` at `start` to
/// `out`; returns the position right after them.
fn take_groups(text: &str, start: usize, out: &mut Vec<char>) -> (j: usize)
    requires
        start <= text@.len(),
    ensures
        j == group_end(text@, start as int),
        start <= j <= text@.len(),
        final(out)@ == old(out)@ + group_digits(text@, start as int),
        forall|k: int| old(out)@.len() <= k < final(out)@.len() ==> is_digit(#[trigger] final(out)@[k]),
    decreases text@.len() - start,
{
    let ghost s = text@;
    let n = text.unicode_len();
    if n > 3 && start < n - 3 {
        let c0 = text.get_char(start);
        if c0 == '.' {
            let c1 = text.get_char(start + 1);
            let c2 = text.get_char(start + 2);
            let c3 = text.get_char(start + 3);
            let u1 = c1 as u32;
            let u2 = c2 as u32;
            let u3 = c3 as u32;
            if 48 <= u1 && u1 <= 57 && 48 <= u2 && u2 <= 57 && 48 <= u3 && u3 <= 57 {
                out.push(c1);
                out.push(c2);
                out.push(c3);
                proof {
                    assert(out@ =~= old(out)@ + s.subrange(start + 1, start + 4));
                }
                let j = take_groups(text, start + 4, out);
                proof {
                    assert(out@ =~= old(out)@ + (s.subrange(start + 1, start + 4) + group_digits(
                        s,
                        start + 4,
                    )));
                }
                return j;
            }
        }
    }
    proof {
        assert(!group_at(s, start as int));
        assert(out@ =~= old(out)@ + group_digits(s, start as int));
    }
    start
}

/// Reads a digit sequence as a `u64`, or reports that it does not fit.
fn digits_value(ds: &Vec<char>) -> (r: Option<u64>)
    requires
        forall|k: int| 0 <= k < ds@.len() ==> is_digit(#[trigger] ds@[k]),
    ensures
        match r {
            Some(m) => m == seq_to_nat(ds@),
            None => seq_to_nat(ds@) > u64::MAX,
        },
{
    let mut m: u64 = 0;
    let mut k: usize = 0;
    while k < ds.len()
        invariant
            k <= ds@.len(),
            m == seq_to_nat(ds@.subrange(0, k as int)),
            forall|t: int| 0 <= t < ds@.len() ==> is_digit(#[trigger] ds@[t]),
        decreases ds@.len() - k,
    {
        let c = ds[k];
        let d = (c as u32 - 48) as u64;
        proof {
            assert(ds@.subrange(0, k + 1).drop_last() =~= ds@.subrange(0, k as int));
        }
        if m > 1844674407370955161 || (m == 1844674407370955161 && d > 5) {
            proof {
                assert(seq_to_nat(ds@.subrange(0, k + 1)) > u64::MAX);
                lemma_seq_to_nat_prefix(ds@, k + 1);
            }
            return None;
        }
        m = m * 10 + d;
        k = k + 1;
    }
    proof {
        assert(ds@.subrange(0, ds@.len() as int) =~= ds@);
    }
    Some(m)
}

/// Whether `s` holds a locale-number run whose value fits the fixed-point
/// representation.
pub open spec fn locale_parses(s: Seq<char>) -> bool {
    &&& locale_found(s)
    &&& seq_to_nat(locale_digits(s)) <= u64::MAX
    &&& frac_digits(s).len() <= u32::MAX
}

/// The value the first locale-number run denotes.
pub open spec fn locale_decimal_of(s: Seq<char>) -> Decimal {
    Decimal {
        negative: false,
        mantissa: seq_to_nat(locale_digits(s)) as u64,
        scale: frac_digits(s).len() as u32,
    }
}

/// Which error a failed locale-number parse reports: `NoNumberFound` when no
/// digit occurs anywhere, `NumberOutOfRange` when the match does not fit.
pub open spec fn locale_error(s: Seq<char>) -> Error {
    if !locale_found(s) {
        Error::NoNumberFound
    } else {
        Error::NumberOutOfRange
    }
}

/// Locates the first run matching "digits, optionally grouped by `.` in
/// blocks of three, optionally followed by `,` and decimal digits" anywhere
/// in `text`, strips the grouping dots, and reads the decimal comma,
/// returning the exact value. Fails with `NoNumberFound` when no digit
/// occurs in `text` at all, and with `NumberOutOfRange` when the matched
/// number does not fit the fixed-point representation.
pub fn parse_number(text: &str) -> (r: Result<Decimal, Error>)
    ensures
        r == if locale_parses(text@) {
            Ok::<Decimal, Error>(locale_decimal_of(text@))
        } else {
            Err::<Decimal, Error>(locale_error(text@))
        },
{
    let ghost s = text@;
    let n = text.unicode_len();
    let i0 = find_first_digit(text);
    if i0 == n {
        return Err(Error::NoNumberFound);
    }
    let mut digits: Vec<char> = Vec::new();
    let j1 = take_digit_run(text, i0, &mut digits);
    let j2 = take_groups(text, j1, &mut digits);
    let ghost before_frac = digits@;
    let mut frac_len: usize = 0;
    if j2 < n {
        let c = text.get_char(j2);
        if c == ',' && j2 + 1 < n {
            let c1 = text.get_char(j2 + 1);
            let u1 = c1 as u32;
            if 48 <= u1 && u1 <= 57 {
                let len_before = digits.len();
                let j3 = take_digit_run(text, j2 + 1, &mut digits);
                frac_len = digits.len() - len_before;
            }
        }
    }
    proof {
        if has_frac(s) {
            assert(digits@ =~= s.subrange(int_start(s), int_end(s)) + group_digits(
                s,
                int_end(s),
            ) + frac_digits(s));
        } else {
            assert(digits@ =~= before_frac);
            assert(digits@ =~= s.subrange(int_start(s), int_end(s)) + group_digits(
                s,
                int_end(s),
            ) + frac_digits(s));
        }
        assert(digits@ == locale_digits(s));
        assert(frac_len == frac_digits(s).len());
    }
    match digits_value(&digits) {
        None => Err(Error::NumberOutOfRange),
        Some(m) => {
            if frac_len > u32::MAX as usize {
                Err(Error::NumberOutOfRange)
            } else {
                Ok(Decimal { negative: false, mantissa: m, scale: frac_len as u32 })
            }
        },
    }
}

/// Whether `s` starts with an explicit sign.
pub open spec fn plain_signed(s: Seq<char>) -> bool {
    s.len() > 0 && (s[0] == '-' || s[0] == '+')
}

/// Where the digits of a plain decimal begin: after the sign, if any.
pub open spec fn plain_body_start(s: Seq<char>) -> int {
    if plain_signed(s) {
        1
    } else {
        0
    }
}

/// End of the integer digit run of a plain decimal.
pub open spec fn plain_int_end(s: Seq<char>) -> int {
    plain_body_start(s) + run_len(s, plain_body_start(s))
}

/// Whether `s` is, in full, an optional sign, at least one digit, and
/// optionally a point followed by at least one digit.
pub open spec fn plain_well_formed(s: Seq<char>) -> bool {
    let b = plain_body_start(s);
    let e = plain_int_end(s);
    &&& e > b
    &&& (e == s.len() || (s[e] == '.' && e + 1 < s.len() && e + 1 + run_len(s, e + 1)
        == s.len()))
}

/// All digits of a plain decimal, the point removed.
pub open spec fn plain_digits(s: Seq<char>) -> Seq<char> {
    if plain_int_end(s) == s.len() {
        s.subrange(plain_body_start(s), plain_int_end(s))
    } else {
        s.subrange(plain_body_start(s), plain_int_end(s)) + s.subrange(
            plain_int_end(s) + 1,
            s.len() as int,
        )
    }
}

/// How many digits follow the point of a plain decimal.
pub open spec fn plain_frac_len(s: Seq<char>) -> int {
    if plain_int_end(s) == s.len() {
        0
    } else {
        s.len() - plain_int_end(s) - 1
    }
}

/// Whether `s` is a well-formed plain decimal whose value fits the
/// fixed-point representation.
pub open spec fn plain_parses(s: Seq<char>) -> bool {
    &&& plain_well_formed(s)
    &&& seq_to_nat(plain_digits(s)) <= u64::MAX
    &&& plain_frac_len(s) <= u32::MAX
}

/// The value a well-formed plain decimal denotes.
pub open spec fn plain_decimal_of(s: Seq<char>) -> Decimal {
    Decimal {
        negative: s.len() > 0 && s[0] == '-',
        mantissa: seq_to_nat(plain_digits(s)) as u64,
        scale: plain_frac_len(s) as u32,
    }
}

/// Reads `text` as a plain decimal: an optional sign, integer digits, and an
/// optional point with decimal digits, nothing else. Returns `None` when
/// `text` has any other shape or the value does not fit the fixed-point
/// representation.
pub fn parse_plain_decimal(text: &str) -> (r: Option<Decimal>)
    ensures
        r == if plain_parses(text@) {
            Some(plain_decimal_of(text@))
        } else {
            None::<Decimal>
        },
{
    let ghost s = text@;
    let n = text.unicode_len();
    let mut b: usize = 0;
    let mut neg = false;
    if n > 0 {
        let c0 = text.get_char(0);
        if c0 == '-' {
            neg = true;
            b = 1;
        } else if c0 == '+' {
            b = 1;
        }
    }
    let mut digits: Vec<char> = Vec::new();
    let e = take_digit_run(text, b, &mut digits);
    if e == b {
        return None;
    }
    let mut frac_len: usize = 0;
    if e < n {
        let c = text.get_char(e);
        if c != '.' {
            return None;
        }
        if e + 1 >= n {
            return None;
        }
        let before = digits.len();
        let j = take_digit_run(text, e + 1, &mut digits);
        if j != n {
            return None;
        }
        frac_len = digits.len() - before;
    }
    proof {
        assert(plain_well_formed(s));
        assert(digits@ =~= plain_digits(s));
    }
    match digits_value(&digits) {
        None => None,
        Some(m) => {
            if frac_len > u32::MAX as usize {
                None
            } else {
                Some(Decimal { negative: neg, mantissa: m, scale: frac_len as u32 })
            }
        },
    }
}

/// The character of an ASCII digit value.
pub open spec fn digit_char(d: int) -> char {
    ((d + 48) as u8) as char
}

/// The digits of `m`, most significant first, without leading zeroes
/// (`0` itself is the single digit `0`).
pub open spec fn nat_digits(m: nat) -> Seq<char>
    decreases m,
{
    if m < 10 {
        seq![digit_char(m as int)]
    } else {
        nat_digits(m / 10).push(digit_char((m % 10) as int))
    }
}

/// Exactly `width` digits of `m`, leading zeroes kept.
pub open spec fn padded_digits(m: nat, width: nat) -> Seq<char>
    decreases width,
{
    if width == 0 {
        Seq::empty()
    } else {
        padded_digits(m / 10, (width - 1) as nat).push(digit_char((m % 10) as int))
    }
}

/// A run of `k` zero characters.
pub open spec fn zeroes(k: int) -> Seq<char> {
    Seq::new(if k >= 0 {
        k as nat
    } else {
        0
    }, |i: int| '0')
}

/// Ten to the `k`.
pub open spec fn pow10(k: nat) -> int
    decreases k,
{
    if k == 0 {
        1
    } else {
        10 * pow10((k - 1) as nat)
    }
}

/// The text of a fixed-point value: sign, integer digits, and — when the
/// scale is positive — a point and exactly `scale` decimal digits.
pub open spec fn decimal_chars(d: Decimal) -> Seq<char> {
    let m = d.mantissa as nat;
    let body = if d.scale == 0 {
        nat_digits(m)
    } else if m >= pow10(d.scale as nat) {
        nat_digits((m as int / pow10(d.scale as nat)) as nat) + seq!['.'] + padded_digits(
            (m as int % pow10(d.scale as nat)) as nat,
            d.scale as nat,
        )
    } else {
        seq!['0', '.'] + zeroes(d.scale - nat_digits(m).len()) + nat_digits(m)
    };
    if d.negative {
        seq!['-'] + body
    } else {
        body
    }
}

/// Ten to the `k` is positive.
proof fn lemma_pow10_pos(k: nat)
    ensures
        pow10(k) >= 1,
    decreases k,
{
    if k > 0 {
        lemma_pow10_pos((k - 1) as nat);
    }
}

/// `pow10` grows with its exponent.
proof fn lemma_pow10_increases(a: nat, b: nat)
    requires
        a <= b,
    ensures
        pow10(a) <= pow10(b),
    decreases b,
{
    if a < b {
        lemma_pow10_increases(a, (b - 1) as nat);
        lemma_pow10_pos((b - 1) as nat);
        assert(pow10(b) == 10 * pow10((b - 1) as nat));
    }
}

/// Twenty digits overrun a `u64`.
proof fn lemma_pow10_20_exceeds_u64()
    ensures
        pow10(20) > u64::MAX,
{
    assert(pow10(20) > u64::MAX) by {
        reveal_with_fuel(pow10, 21);
    }
}

/// A one-character string for each digit value.
fn digit_str(d: u64) -> (r: &'static str)
    requires
        d < 10,
    ensures
        r@ =~= seq![digit_char(d as int)],
{
    proof {
        reveal_strlit("0");
        reveal_strlit("1");
        reveal_strlit("2");
        reveal_strlit("3");
        reveal_strlit("4");
        reveal_strlit("5");
        reveal_strlit("6");
        reveal_strlit("7");
        reveal_strlit("8");
        reveal_strlit("9");
    }
    match d {
        0 => "0",
        1 => "1",
        2 => "2",
        3 => "3",
        4 => "4",
        5 => "5",
        6 => "6",
        7 => "7",
        8 => "8",
        _ => "9",
    }
}

/// Appends the digits of `m`, most significant first.
pub(crate) fn append_nat_digits(m: u64, out: &mut String)
    ensures
        final(out)@ == old(out)@ + nat_digits(m as nat),
    decreases m,
{
    if m < 10 {
        out.append(digit_str(m));
    } else {
        append_nat_digits(m / 10, out);
        out.append(digit_str(m % 10));
    }
}

/// Appends exactly `width` digits of `m`, leading zeroes kept.
fn append_padded_digits(m: u64, width: u32, out: &mut String)
    ensures
        final(out)@ == old(out)@ + padded_digits(m as nat, width as nat),
    decreases width,
{
    if width > 0 {
        append_padded_digits(m / 10, width - 1, out);
        out.append(digit_str(m % 10));
    }
}

/// How many digits `m` has.
fn count_digits(m: u64) -> (r: u32)
    ensures
        r == nat_digits(m as nat).len(),
        r >= 1,
    decreases m,
{
    if m < 10 {
        1
    } else {
        let c = count_digits(m / 10);
        proof {
            assert(nat_digits(m as nat) == nat_digits((m / 10) as nat).push(
                digit_char((m % 10) as int),
            ));
            lemma_nat_digits_len_small((m / 10) as nat);
        }
        c + 1
    }
}

/// A `u64` never has more than twenty digits.
proof fn lemma_nat_digits_len_small(m: nat)
    requires
        m <= u64::MAX,
    ensures
        nat_digits(m).len() <= 20,
{
    lemma_pow10_20_exceeds_u64();
    lemma_nat_digits_at_most(m, 20);
}

/// Ten to the `k` as a machine word; `k` must keep it within range.
fn pow10_u64(k: u32) -> (r: u64)
    requires
        pow10(k as nat) <= u64::MAX,
    ensures
        r == pow10(k as nat),
    decreases k,
{
    if k == 0 {
        1
    } else {
        proof {
            lemma_pow10_increases((k - 1) as nat, k as nat);
            assert(pow10(k as nat) == 10 * pow10((k - 1) as nat));
            assert(pow10((k - 1) as nat) >= 1) by {
                lemma_pow10_increases(0, (k - 1) as nat);
            }
        }
        10 * pow10_u64(k - 1)
    }
}

impl Decimal {
    /// Renders the value: sign, integer digits, and — when the scale is
    /// positive — a point and exactly `scale` decimal digits.
    pub fn to_text(&self) -> (r: String)
        ensures
            r@ == decimal_chars(*self),
    {
        let mut out = String::new();
        if self.negative {
            proof {
                reveal_strlit("-");
            }
            out.append("-");
        }
        let ghost sign_part = out@;
        if self.scale == 0 {
            append_nat_digits(self.mantissa, &mut out);
        } else if self.scale <= 19 {
            proof {
                assert(pow10(19) <= u64::MAX) by {
                    reveal_with_fuel(pow10, 20);
                }
                lemma_pow10_increases(self.scale as nat, 19);
            }
            let p = pow10_u64(self.scale);
            proof {
                lemma_pow10_pos(self.scale as nat);
            }
            if self.mantissa >= p {
                append_nat_digits(self.mantissa / p, &mut out);
                proof {
                    reveal_strlit(".");
                }
                out.append(".");
                append_padded_digits(self.mantissa % p, self.scale, &mut out);
            } else {
                self.append_small_body(Ghost(sign_part), &mut out);
            }
        } else {
            proof {
                lemma_pow10_20_exceeds_u64();
                lemma_pow10_increases(20, self.scale as nat);
            }
            self.append_small_body(Ghost(sign_part), &mut out);
        }
        proof {
            assert(out@ =~= decimal_chars(*self));
        }
        out
    }

    /// Appends `0.`, the filling zeroes, and the mantissa's digits: the body
    /// of a value smaller than one.
    fn append_small_body(&self, Ghost(prefix): Ghost<Seq<char>>, out: &mut String)
        requires
            self.scale >= 1,
            self.mantissa < pow10(self.scale as nat),
            old(out)@ == prefix,
        ensures
            final(out)@ == prefix + seq!['0', '.'] + zeroes(self.scale - nat_digits(
                self.mantissa as nat,
            ).len()) + nat_digits(self.mantissa as nat),
    {
        proof {
            reveal_strlit("0.");
            reveal_strlit("0");
        }
        out.append("0.");
        let nd = count_digits(self.mantissa);
        proof {
            lemma_nat_digits_at_most(self.mantissa as nat, self.scale as nat);
        }
        let fill = self.scale - nd;
        let mut k: u32 = 0;
        while k < fill
            invariant
                k <= fill,
                fill == self.scale - nat_digits(self.mantissa as nat).len(),
                out@ == prefix + seq!['0', '.'] + zeroes(k as int),
            decreases fill - k,
        {
            out.append("0");
            proof {
                reveal_strlit("0");
                assert(zeroes(k + 1) =~= zeroes(k as int).push('0'));
                assert(out@ =~= prefix + seq!['0', '.'] + zeroes(k + 1));
            }
            k = k + 1;
        }
        append_nat_digits(self.mantissa, out);
        proof {
            assert(out@ =~= prefix + seq!['0', '.'] + zeroes(self.scale - nat_digits(
                self.mantissa as nat,
            ).len()) + nat_digits(self.mantissa as nat));
        }
    }
}

/// A value below ten to the `k` has at most `k` digits.
proof fn lemma_nat_digits_at_most(m: nat, k: nat)
    requires
        m < pow10(k),
        k >= 1,
    ensures
        nat_digits(m).len() <= k,
    decreases m,
{
    if m >= 10 {
        assert(pow10(k) == 10 * pow10((k - 1) as nat));
        lemma_nat_digits_at_most(m / 10, (k - 1) as nat);
    }
}

} // verus!
