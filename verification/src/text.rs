//! Text cleanup used by the extraction step, and the title normalization
//! that record equivalence rests on.
//!
//! Whitespace here always means the ASCII whitespace characters; listing
//! pages only carry those in the places these helpers touch.

use vstd::prelude::*;

verus! {

/// ASCII whitespace.
pub open spec fn is_space(c: char) -> bool {
    c as u32 == 32 || (9 <= c as u32 && c as u32 <= 13)
}

/// Index of the first occurrence of `c` at or after `i`, or `s.len()`.
pub open spec fn char_idx(s: Seq<char>, i: int, c: char) -> int
    decreases s.len() - i,
{
    if i < 0 || i >= s.len() {
        s.len() as int
    } else if s[i] == c {
        i
    } else {
        char_idx(s, i + 1, c)
    }
}

/// Index of the first non-whitespace character at or after `i`, or `s.len()`.
pub open spec fn nonspace_from(s: Seq<char>, i: int) -> int
    decreases s.len() - i,
{
    if i < 0 || i >= s.len() {
        s.len() as int
    } else if !is_space(s[i]) {
        i
    } else {
        nonspace_from(s, i + 1)
    }
}

/// One past the last non-whitespace character strictly before `i`, or `0`.
pub open spec fn nonspace_back(s: Seq<char>, i: int) -> int
    decreases i,
{
    if i <= 0 {
        0
    } else if !is_space(s[i - 1]) {
        i
    } else {
        nonspace_back(s, i - 1)
    }
}

/// When `nonspace_from` lands inside the text, it lands on non-whitespace.
proof fn lemma_nonspace_from_char(s: Seq<char>, i: int)
    requires
        0 <= i,
    ensures
        nonspace_from(s, i) < s.len() ==> !is_space(s[nonspace_from(s, i)]),
    decreases s.len() - i,
{
    if i < s.len() && is_space(s[i]) {
        lemma_nonspace_from_char(s, i + 1);
    }
}

/// `nonspace_back` never exceeds its starting point.
proof fn lemma_nonspace_back_le(s: Seq<char>, i: int)
    requires
        i >= 0,
    ensures
        nonspace_back(s, i) <= i,
    decreases i,
{
    if i > 0 && is_space(s[i - 1]) {
        lemma_nonspace_back_le(s, i - 1);
    }
}

/// `s` without leading and trailing ASCII whitespace.
pub open spec fn trimmed(s: Seq<char>) -> Seq<char> {
    let a = nonspace_from(s, 0);
    let b = nonspace_back(s, s.len() as int);
    if a >= b {
        Seq::empty()
    } else {
        s.subrange(a, b)
    }
}

/// Finds the first occurrence of `c` in `text` at or after `from`, or the
/// text's length.
pub fn find_char(text: &str, from: usize, c: char) -> (r: usize)
    requires
        from <= text@.len(),
    ensures
        r == char_idx(text@, from as int, c),
        from <= r <= text@.len(),
{
    let n = text.unicode_len();
    let mut i = from;
    while i < n
        invariant
            from <= i <= n,
            n == text@.len(),
            char_idx(text@, from as int, c) == char_idx(text@, i as int, c),
        decreases n - i,
    {
        if text.get_char(i) == c {
            return i;
        }
        i = i + 1;
    }
    i
}

/// Strips leading and trailing ASCII whitespace.
pub fn trim_text(text: &str) -> (r: String)
    ensures
        r@ == trimmed(text@),
{
    let ghost s = text@;
    let n = text.unicode_len();
    let mut a: usize = 0;
    while a < n
        invariant
            a <= n,
            n == s.len(),
            s == text@,
            nonspace_from(s, 0) == nonspace_from(s, a as int),
        ensures
            a <= n,
            a == nonspace_from(s, 0),
        decreases n - a,
    {
        let c = text.get_char(a);
        let u = c as u32;
        if !(u == 32 || (9 <= u && u <= 13)) {
            break;
        }
        a = a + 1;
    }
    let mut b: usize = n;
    while b > a
        invariant
            a <= b <= n,
            n == s.len(),
            s == text@,
            a == nonspace_from(s, 0),
            nonspace_back(s, n as int) == nonspace_back(s, b as int),
            forall|t: int| b <= t < s.len() ==> is_space(#[trigger] s[t]),
        ensures
            a <= b <= n,
            nonspace_back(s, n as int) == nonspace_back(s, b as int),
            forall|t: int| b <= t < s.len() ==> is_space(#[trigger] s[t]),
            b > a ==> !is_space(s[b - 1]),
        decreases b,
    {
        let c = text.get_char(b - 1);
        let u = c as u32;
        if !(u == 32 || (9 <= u && u <= 13)) {
            break;
        }
        b = b - 1;
    }
    proof {
        lemma_nonspace_back_le(s, n as int);
        lemma_nonspace_from_char(s, 0);
        if b == a && a < n {
            assert(is_space(s[a as int]));
            assert(false);
        }
    }
    if b <= a {
        proof {
            assert(trimmed(s) =~= Seq::<char>::empty());
        }
        String::new()
    } else {
        let piece = text.substring_char(a, b);
        proof {
            assert(nonspace_back(s, b as int) == b);
            assert(trimmed(s) =~= s.subrange(a as int, b as int));
        }
        piece.to_owned()
    }
}

/// `s` with every non-overlapping occurrence of `pat`, searched from the
/// left, replaced by `rep`; positions `i` onward.
pub open spec fn replaced_from(s: Seq<char>, pat: Seq<char>, rep: Seq<char>, i: int) -> Seq<char>
    decreases s.len() - i,
{
    if i < 0 || i >= s.len() {
        Seq::empty()
    } else if pat.len() >= 1 && i + pat.len() <= s.len() && s.subrange(i, i + pat.len()) == pat {
        rep + replaced_from(s, pat, rep, i + pat.len())
    } else {
        seq![s[i]] + replaced_from(s, pat, rep, i + 1)
    }
}

/// `s` with every non-overlapping occurrence of `pat` replaced by `rep`.
pub open spec fn replaced(s: Seq<char>, pat: Seq<char>, rep: Seq<char>) -> Seq<char> {
    replaced_from(s, pat, rep, 0)
}

/// Whether `pat` occurs in `text` at position `at`.
fn match_at(text: &str, pat: &str, at: usize) -> (r: bool)
    requires
        at + pat@.len() <= text@.len(),
    ensures
        r == (text@.subrange(at as int, at + pat@.len()) == pat@),
{
    let m = pat.unicode_len();
    let n = text.unicode_len();
    let mut k: usize = 0;
    while k < m
        invariant
            k <= m,
            m == pat@.len(),
            n == text@.len(),
            at + m <= n,
            forall|t: int| 0 <= t < k ==> text@[at + t] == pat@[t],
        decreases m - k,
    {
        if text.get_char(at + k) != pat.get_char(k) {
            proof {
                assert(text@.subrange(at as int, at + pat@.len())[k as int] != pat@[k as int]);
            }
            return false;
        }
        k = k + 1;
    }
    proof {
        assert(text@.subrange(at as int, at + pat@.len()) =~= pat@);
    }
    true
}

/// Replaces every non-overlapping occurrence of `pat` in `text`, searched
/// from the left, by `rep`.
pub fn replace_all(text: &str, pat: &str, rep: &str) -> (r: String)
    requires
        pat@.len() >= 1,
    ensures
        r@ == replaced(text@, pat@, rep@),
{
    let ghost s = text@;
    let n = text.unicode_len();
    let m = pat.unicode_len();
    let mut out = String::new();
    let mut i: usize = 0;
    while i < n
        invariant
            i <= n,
            n == s.len(),
            s == text@,
            m == pat@.len(),
            m >= 1,
            replaced(s, pat@, rep@) == out@ + replaced_from(s, pat@, rep@, i as int),
        decreases n - i,
    {
        if m <= n - i && match_at(text, pat, i) {
            out.append(rep);
            i = i + m;
        } else {
            let piece = text.substring_char(i, i + 1);
            proof {
                assert(piece@ =~= seq![s[i as int]]);
            }
            out.append(piece);
            i = i + 1;
        }
    }
    out
}

/// End of the ASCII-whitespace run starting at `i`.
pub open spec fn space_end(s: Seq<char>, i: int) -> int
    decreases s.len() - i,
{
    if 0 <= i < s.len() && is_space(s[i]) {
        space_end(s, i + 1)
    } else {
        i
    }
}

/// Where a parenthesized segment starting at `i` — optional whitespace, an
/// opening parenthesis, anything but a closing one, a closing one — ends;
/// `i` itself when none starts there.
pub open spec fn bracket_end_at(s: Seq<char>, i: int) -> int {
    let w = space_end(s, i);
    if w < s.len() && s[w] == '(' && char_idx(s, w + 1, ')') < s.len() {
        char_idx(s, w + 1, ')') + 1
    } else {
        i
    }
}

/// `s` from position `i` on, parenthesized segments and the whitespace
/// before them removed.
pub open spec fn brackets_removed_from(s: Seq<char>, i: int) -> Seq<char>
    decreases s.len() - i,
{
    if i < 0 || i >= s.len() {
        Seq::empty()
    } else if bracket_end_at(s, i) > i {
        brackets_removed_from(s, bracket_end_at(s, i))
    } else {
        seq![s[i]] + brackets_removed_from(s, i + 1)
    }
}

/// `s` with every parenthesized segment, and the whitespace run before it,
/// removed.
pub open spec fn brackets_removed(s: Seq<char>) -> Seq<char> {
    brackets_removed_from(s, 0)
}

/// Removes every parenthesized segment of `text` — optional whitespace, an
/// opening parenthesis, anything up to the next closing one — as address
/// cleanup for listing pages that append remarks in parentheses.
pub fn remove_brackets(text: &str) -> (r: String)
    ensures
        r@ == brackets_removed(text@),
{
    let ghost s = text@;
    let n = text.unicode_len();
    let mut out = String::new();
    let mut i: usize = 0;
    while i < n
        invariant
            i <= n,
            n == s.len(),
            s == text@,
            brackets_removed(s) == out@ + brackets_removed_from(s, i as int),
        decreases n - i,
    {
        // end of the whitespace run at i
        let mut w = i;
        while w < n
            invariant
                i <= w <= n,
                n == s.len(),
                s == text@,
                space_end(s, i as int) == space_end(s, w as int),
            ensures
                i <= w <= n,
                w == space_end(s, i as int),
            decreases n - w,
        {
            let c = text.get_char(w);
            let u = c as u32;
            if !(u == 32 || (9 <= u && u <= 13)) {
                break;
            }
            w = w + 1;
        }
        let mut matched = false;
        if w < n && text.get_char(w) == '(' {
            let close = find_char(text, w + 1, ')');
            if close < n {
                proof {
                    assert(bracket_end_at(s, i as int) == close + 1);
                }
                i = close + 1;
                matched = true;
            }
        }
        if !matched {
            proof {
                assert(bracket_end_at(s, i as int) == i);
            }
            let piece = text.substring_char(i, i + 1);
            proof {
                assert(piece@ =~= seq![s[i as int]]);
            }
            out.append(piece);
            i = i + 1;
        }
    }
    out
}

/// `char_idx` finds a position at or after its start.
proof fn lemma_char_idx_le(s: Seq<char>, i: int, c: char)
    requires
        0 <= i <= s.len(),
    ensures
        i <= char_idx(s, i, c) <= s.len(),
    decreases s.len() - i,
{
    if i < s.len() && s[i] != c {
        lemma_char_idx_le(s, i + 1, c);
    }
}

/// The lines of `s` from position `i` on — boundaries at line feeds — each
/// trimmed, the empty ones dropped, the rest joined with `", "`. The flag
/// says whether no part has been emitted yet.
pub open spec fn joined_parts_from(s: Seq<char>, i: int, first: bool) -> Seq<char>
    decreases s.len() + 1 - i,
    via joined_parts_from_decreases
{
    if i < 0 || i >= s.len() {
        Seq::empty()
    } else {
        let e = char_idx(s, i, '\n');
        let t = trimmed(s.subrange(i, e));
        if t.len() == 0 {
            joined_parts_from(s, e + 1, first)
        } else if first {
            t + joined_parts_from(s, e + 1, false)
        } else {
            seq![',', ' '] + t + joined_parts_from(s, e + 1, false)
        }
    }
}

#[via_fn]
proof fn joined_parts_from_decreases(s: Seq<char>, i: int, first: bool) {
    if 0 <= i < s.len() {
        lemma_char_idx_le(s, i, '\n');
    }
}

/// The lines of `s`, trimmed, empty ones dropped, joined with `", "`.
pub open spec fn joined_parts(s: Seq<char>) -> Seq<char> {
    joined_parts_from(s, 0, true)
}

/// Splits `text` at line feeds, trims every line, drops the empty ones, and
/// joins the rest with `", "`.
pub fn join_trimmed_lines(text: &str) -> (r: String)
    ensures
        r@ == joined_parts(text@),
{
    let ghost s = text@;
    let n = text.unicode_len();
    let mut out = String::new();
    let mut first = true;
    let mut i: usize = 0;
    while i < n
        invariant
            i <= n,
            n == s.len(),
            s == text@,
            joined_parts(s) == out@ + joined_parts_from(s, i as int, first),
        decreases n - i,
    {
        let ghost out0 = out@;
        let ghost first0 = first;
        let e = find_char(text, i, '\n');
        let piece = text.substring_char(i, e);
        let t = trim_text(piece);
        if !t.as_str().is_empty() {
            if first {
                first = false;
            } else {
                proof {
                    reveal_strlit(", ");
                }
                out.append(", ");
            }
            out.append(t.as_str());
        }
        let next = if e < n {
            e + 1
        } else {
            n
        };
        proof {
            let ghost tv = trimmed(s.subrange(i as int, e as int));
            if e == n {
                assert(joined_parts_from(s, n as int, first) == joined_parts_from(
                    s,
                    e + 1,
                    first,
                ));
            }
            if tv.len() == 0 {
                assert(out@ == out0);
                assert(joined_parts_from(s, i as int, first0) == joined_parts_from(s, e + 1, first0));
            } else if first0 {
                assert(joined_parts_from(s, i as int, first0) == tv + joined_parts_from(s, e + 1, false));
                assert(out@ + joined_parts_from(s, e + 1, false) =~= out0 + (tv + joined_parts_from(s, e + 1, false)));
            } else {
                reveal_strlit(", ");
                assert(joined_parts_from(s, i as int, first0) == seq![',', ' '] + tv + joined_parts_from(s, e + 1, false));
                assert(out@ + joined_parts_from(s, e + 1, false) =~= out0 + (seq![',', ' '] + tv + joined_parts_from(s, e + 1, false)));
            }
            assert(joined_parts(s) == out@ + joined_parts_from(s, next as int, first));
        }
        i = next;
    }
    out
}

/// What follows the last occurrence of `c` in `s`: all of `s` when `c` does
/// not occur.
pub open spec fn after_last(s: Seq<char>, c: char) -> Seq<char>
    decreases s.len(),
{
    if s.len() == 0 {
        s
    } else if s.last() == c {
        Seq::empty()
    } else {
        after_last(s.drop_last(), c).push(s.last())
    }
}

/// A tail free of `c`, preceded by `c` or the start, is what follows the
/// last occurrence.
proof fn lemma_after_last(s: Seq<char>, c: char, k: int)
    requires
        0 <= k <= s.len(),
        forall|t: int| k <= t < s.len() ==> s[t] != c,
        k > 0 ==> s[k - 1] == c,
    ensures
        after_last(s, c) == s.subrange(k, s.len() as int),
    decreases s.len(),
{
    if s.len() == 0 {
        assert(after_last(s, c) =~= s.subrange(k, s.len() as int));
    } else if k == s.len() {
        assert(s.last() == c);
        assert(after_last(s, c) =~= s.subrange(k, s.len() as int));
    } else {
        assert(s.last() != c);
        lemma_after_last(s.drop_last(), c, k);
        assert(after_last(s, c) =~= s.subrange(k, s.len() as int));
    }
}

/// Returns what follows the last occurrence of `c` in `text`: all of `text`
/// when `c` does not occur.
pub fn text_after_last(text: &str, c: char) -> (r: String)
    ensures
        r@ == after_last(text@, c),
{
    let ghost s = text@;
    let n = text.unicode_len();
    let mut k: usize = n;
    while k > 0
        invariant
            k <= n,
            n == s.len(),
            s == text@,
            forall|t: int| k <= t < s.len() ==> s[t] != c,
        ensures
            k <= n,
            forall|t: int| k <= t < s.len() ==> s[t] != c,
            k > 0 ==> s[k - 1] == c,
        decreases k,
    {
        if text.get_char(k - 1) == c {
            break;
        }
        k = k - 1;
    }
    proof {
        lemma_after_last(s, c, k as int);
    }
    let piece = text.substring_char(k, n);
    piece.to_owned()
}

/// An ASCII uppercase letter mapped to lowercase; anything else unchanged.
pub open spec fn lower_char(c: char) -> char {
    if 65 <= c as u32 && c as u32 <= 90 {
        ((c as u8) + 32) as char
    } else {
        c
    }
}

/// A lowercase ASCII letter or a digit: what survives normalization.
pub open spec fn is_norm_char(c: char) -> bool {
    (97 <= c as u32 && c as u32 <= 122) || (48 <= c as u32 && c as u32 <= 57)
}

/// The normalized form of a title: every character lowercased, every
/// character that is not an ASCII letter or digit removed.
pub open spec fn normalized(s: Seq<char>) -> Seq<char>
    decreases s.len(),
{
    if s.len() == 0 {
        Seq::empty()
    } else {
        let rest = normalized(s.drop_last());
        let c = lower_char(s.last());
        if is_norm_char(c) {
            rest.push(c)
        } else {
            rest
        }
    }
}

/// Every character of a normalized title is a lowercase letter or digit.
proof fn lemma_normalized_chars(s: Seq<char>)
    ensures
        forall|k: int| 0 <= k < normalized(s).len() ==> is_norm_char(#[trigger] normalized(s)[k]),
    decreases s.len(),
{
    if s.len() > 0 {
        lemma_normalized_chars(s.drop_last());
        let rest = normalized(s.drop_last());
        let c = lower_char(s.last());
        if is_norm_char(c) {
            assert(normalized(s) == rest.push(c));
            assert forall|k: int| 0 <= k < normalized(s).len() implies is_norm_char(
                #[trigger] normalized(s)[k],
            ) by {
                if k < rest.len() {
                    assert(normalized(s)[k] == rest[k]);
                } else {
                    assert(normalized(s)[k] == c);
                }
            }
        } else {
            assert(normalized(s) == rest);
        }
    }
}

/// Normalization is idempotent: normalizing a normalized title changes
/// nothing.
pub proof fn lemma_normalized_idempotent(s: Seq<char>)
    ensures
        normalized(normalized(s)) == normalized(s),
    decreases s.len(),
{
    if s.len() > 0 {
        lemma_normalized_idempotent(s.drop_last());
        let c = lower_char(s.last());
        if is_norm_char(c) {
            let t = normalized(s.drop_last());
            assert(normalized(s) == t.push(c));
            assert(t.push(c).drop_last() =~= t);
            assert(t.push(c).last() == c);
            assert(lower_char(c) == c);
        } else {
            assert(normalized(s) == normalized(s.drop_last()));
        }
    }
}

/// Computes the normalized form of a title: lowercased, every character
/// that is not an ASCII letter or digit removed.
pub fn normalized_title(text: &str) -> (r: Vec<char>)
    ensures
        r@ == normalized(text@),
{
    let ghost s = text@;
    let n = text.unicode_len();
    let mut out: Vec<char> = Vec::new();
    let mut i: usize = 0;
    while i < n
        invariant
            i <= n,
            n == s.len(),
            s == text@,
            out@ == normalized(s.subrange(0, i as int)),
        decreases n - i,
    {
        let c = text.get_char(i);
        let u = c as u32;
        let d = if 65 <= u && u <= 90 {
            ((c as u8) + 32) as char
        } else {
            c
        };
        let v = d as u32;
        if (97 <= v && v <= 122) || (48 <= v && v <= 57) {
            out.push(d);
        }
        proof {
            assert(s.subrange(0, i + 1).drop_last() =~= s.subrange(0, i as int));
            assert(s.subrange(0, i + 1).last() == s[i as int]);
        }
        i = i + 1;
    }
    proof {
        assert(s.subrange(0, n as int) =~= s);
    }
    out
}

/// Position of the first occurrence of `pat` at or after `i`, or `s.len()`.
pub open spec fn pat_idx(s: Seq<char>, pat: Seq<char>, i: int) -> int
    decreases s.len() - i,
{
    if i < 0 || i >= s.len() {
        s.len() as int
    } else if pat.len() >= 1 && i + pat.len() <= s.len() && s.subrange(i, i + pat.len()) == pat {
        i
    } else {
        pat_idx(s, pat, i + 1)
    }
}

/// Where part `k` of `s`, split by `pat`, begins; past `s.len()` when the
/// split has no part `k`.
pub open spec fn part_start(s: Seq<char>, pat: Seq<char>, k: int) -> int
    decreases k,
{
    if k <= 0 {
        0
    } else {
        let p = part_start(s, pat, k - 1);
        if p > s.len() {
            p
        } else {
            let e = pat_idx(s, pat, p);
            if e >= s.len() {
                s.len() + 1 as int
            } else {
                e + pat.len()
            }
        }
    }
}

/// Part `k` of `s` split by `pat`, when the split has that many parts.
pub open spec fn nth_part(s: Seq<char>, pat: Seq<char>, k: int) -> Option<Seq<char>> {
    let p = part_start(s, pat, k);
    if p > s.len() {
        None
    } else {
        Some(s.subrange(p, pat_idx(s, pat, p)))
    }
}

/// Once the split runs out of parts, it stays out.
proof fn lemma_part_sentinel(s: Seq<char>, pat: Seq<char>, t: int, k: int)
    requires
        0 <= t <= k,
        part_start(s, pat, t) > s.len(),
    ensures
        part_start(s, pat, k) > s.len(),
    decreases k - t,
{
    if t < k {
        lemma_part_sentinel(s, pat, t + 1, k);
    }
}

/// Finds the first occurrence of `pat` in `text` at or after `from`, or the
/// text's length.
fn find_pattern(text: &str, pat: &str, from: usize) -> (r: usize)
    requires
        from <= text@.len(),
        pat@.len() >= 1,
    ensures
        r == pat_idx(text@, pat@, from as int),
        from <= r <= text@.len(),
        r < text@.len() ==> r + pat@.len() <= text@.len(),
{
    let n = text.unicode_len();
    let m = pat.unicode_len();
    let mut i = from;
    while i < n
        invariant
            from <= i <= n,
            n == text@.len(),
            m == pat@.len(),
            m >= 1,
            pat_idx(text@, pat@, from as int) == pat_idx(text@, pat@, i as int),
        decreases n - i,
    {
        if m <= n - i && match_at(text, pat, i) {
            return i;
        }
        i = i + 1;
    }
    i
}

/// Part `k` of `text` split by `pat`, counted as `str::split` counts parts;
/// `None` when the split has fewer parts.
pub fn split_nth(text: &str, pat: &str, k: usize) -> (r: Option<String>)
    requires
        pat@.len() >= 1,
    ensures
        match r {
            Some(t) => nth_part(text@, pat@, k as int) == Some(t@),
            None => nth_part(text@, pat@, k as int) is None,
        },
{
    let ghost s = text@;
    let n = text.unicode_len();
    let mut p: usize = 0;
    let mut t: usize = 0;
    while t < k
        invariant
            t <= k,
            p <= n,
            n == s.len(),
            s == text@,
            pat@.len() >= 1,
            part_start(s, pat@, t as int) == p,
        decreases k - t,
    {
        let e = find_pattern(text, pat, p);
        if e >= n {
            proof {
                assert(part_start(s, pat@, t + 1) > s.len());
                lemma_part_sentinel(s, pat@, t + 1, k as int);
            }
            return None;
        }
        let m = pat.unicode_len();
        proof {
            assert(part_start(s, pat@, t + 1) == e + pat@.len());
        }
        p = e + m;
        t = t + 1;
    }
    let e = find_pattern(text, pat, p);
    let piece = text.substring_char(p, e);
    Some(piece.to_owned())
}

/// Compares two character sequences.
pub fn chars_eq(a: &Vec<char>, b: &Vec<char>) -> (r: bool)
    ensures
        r == (a@ == b@),
{
    if a.len() != b.len() {
        return false;
    }
    let mut k: usize = 0;
    while k < a.len()
        invariant
            k <= a@.len(),
            a@.len() == b@.len(),
            forall|t: int| 0 <= t < k ==> a@[t] == b@[t],
        decreases a@.len() - k,
    {
        if a[k] != b[k] {
            return false;
        }
        k = k + 1;
    }
    proof {
        assert(a@ =~= b@);
    }
    true
}

} // verus!
