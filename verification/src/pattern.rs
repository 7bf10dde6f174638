//! The version patterns the vendor pages are scanned with, as functions on
//! character sequences, each with its executable scanner.
//!
//! Three patterns occur: a dotted number `digits '.' digits` with an
//! optional third `'.' digits` group after a "Version " marker (Dell), a
//! bare dotted number `digits '.' digits` (HP), and a release line
//! anchored at the start, `"Sun System Firmware" digits '.' digits '.'
//! digits` with an optional single trailing letter group (Oracle). Each
//! scanner yields the leftmost match, its runs of digits non-empty and
//! taken as long as possible; the Dell and Oracle scanners return the
//! version text after their marker, not the marker itself.

use vstd::prelude::*;

verus! {

use crate::text::{has_at, has_at_exec};

/// A decimal digit.
pub open spec fn is_digit(c: char) -> bool {
    '0' <= c && c <= '9'
}

/// A lower-case ASCII letter.
pub open spec fn is_lower_alpha(c: char) -> bool {
    'a' <= c && c <= 'z'
}

/// Where the run of digits that starts at `i` ends: the first position at
/// or after `i` that holds no digit.
pub open spec fn digit_run_end(s: Seq<char>, i: int) -> int
    decreases s.len() - i,
{
    if 0 <= i && i < s.len() && is_digit(s[i]) {
        digit_run_end(s, i + 1)
    } else {
        i
    }
}

pub proof fn lemma_digit_run_end(s: Seq<char>, i: int)
    requires
        0 <= i <= s.len(),
    ensures
        i <= digit_run_end(s, i) <= s.len(),
        forall|j: int| i <= j < digit_run_end(s, i) ==> is_digit(s[j]),
        digit_run_end(s, i) < s.len() ==> !is_digit(s[digit_run_end(s, i)]),
    decreases s.len() - i,
{
    if i < s.len() && is_digit(s[i]) {
        lemma_digit_run_end(s, i + 1);
    }
}

/// Decides where the digit run starting at `i` ends.
pub fn digit_run_end_exec(s: &str, i: usize) -> (r: usize)
    requires
        i <= s@.len(),
    ensures
        r as int == digit_run_end(s@, i as int),
        i <= r <= s@.len(),
{
    let n = s.unicode_len();
    let mut j: usize = i;
    while j < n && is_digit_exec(s.get_char(j))
        invariant
            i <= j <= n,
            n == s@.len(),
            digit_run_end(s@, i as int) == digit_run_end(s@, j as int),
        decreases n - j,
    {
        j = j + 1;
    }
    proof {
        lemma_digit_run_end(s@, j as int);
    }
    j
}

/// Decides whether a character is a decimal digit.
pub fn is_digit_exec(c: char) -> (r: bool)
    ensures
        r == is_digit(c),
{
    '0' <= c && c <= '9'
}

/// Decides whether a character is a lower-case ASCII letter.
pub fn is_lower_alpha_exec(c: char) -> (r: bool)
    ensures
        r == is_lower_alpha(c),
{
    'a' <= c && c <= 'z'
}

/// A dotted number `digits '.' digits` begins at position `i`.
pub open spec fn dotted_at(s: Seq<char>, i: int) -> bool {
    &&& 0 <= i < s.len()
    &&& is_digit(s[i])
    &&& {
        let e1 = digit_run_end(s, i);
        &&& e1 < s.len()
        &&& s[e1] == '.'
        &&& e1 + 1 < s.len()
        &&& is_digit(s[e1 + 1])
    }
}

/// Where the dotted number that begins at `i` ends: past the second run of
/// digits, each run taken as long as possible.
pub open spec fn dotted_end(s: Seq<char>, i: int) -> int {
    digit_run_end(s, digit_run_end(s, i) + 1)
}

pub proof fn lemma_dotted_end(s: Seq<char>, i: int)
    requires
        dotted_at(s, i),
    ensures
        i < dotted_end(s, i) <= s.len(),
{
    lemma_digit_run_end(s, i);
    lemma_digit_run_end(s, digit_run_end(s, i) + 1);
}

/// Decides whether a dotted number begins at `i`, and if so where it ends.
pub fn dotted_at_exec(s: &str, i: usize) -> (r: Option<usize>)
    requires
        i <= s@.len(),
    ensures
        r matches Some(e) ==> dotted_at(s@, i as int) && e as int == dotted_end(s@, i as int)
            && i < e <= s@.len(),
        r is None ==> !dotted_at(s@, i as int),
{
    let n = s.unicode_len();
    if i >= n || !is_digit_exec(s.get_char(i)) {
        return None;
    }
    let e1 = digit_run_end_exec(s, i);
    if e1 >= n || s.get_char(e1) != '.' {
        return None;
    }
    if e1 + 1 >= n || !is_digit_exec(s.get_char(e1 + 1)) {
        return None;
    }
    let e2 = digit_run_end_exec(s, e1 + 1);
    proof {
        lemma_dotted_end(s@, i as int);
    }
    Some(e2)
}

/// The leftmost dotted number at or after position `i`, if any.
pub open spec fn dotted_find_from(s: Seq<char>, i: int) -> Option<Seq<char>>
    decreases s.len() - i,
{
    if i >= s.len() || i < 0 {
        None
    } else if dotted_at(s, i) {
        Some(s.subrange(i, dotted_end(s, i)))
    } else {
        dotted_find_from(s, i + 1)
    }
}

/// The leftmost dotted number in `s`, if any: what scanning `s` for the
/// bare dotted-number pattern yields.
pub open spec fn dotted_find(s: Seq<char>) -> Option<Seq<char>> {
    dotted_find_from(s, 0)
}

/// Scans `s` for the leftmost dotted number.
pub fn dotted_find_exec(s: &str) -> (r: Option<String>)
    ensures
        r.deep_view() == dotted_find(s@),
{
    let n = s.unicode_len();
    let mut i: usize = 0;
    while i < n
        invariant
            i <= n,
            n == s@.len(),
            dotted_find(s@) == dotted_find_from(s@, i as int),
        decreases n - i,
    {
        match dotted_at_exec(s, i) {
            Some(e) => {
                let sub = s.substring_char(i, e);
                let out = String::from_str(sub);
                return Some(out);
            },
            None => {
                i = i + 1;
            },
        }
    }
    None
}

/// The marker the Dell pattern requires before the dotted number.
pub open spec fn version_marker() -> Seq<char> {
    "Version "@
}

/// The Dell pattern stands at `i`: the marker, then a dotted number.
pub open spec fn dell_match_at(s: Seq<char>, i: int) -> bool {
    &&& has_at(s, version_marker(), i)
    &&& dotted_at(s, i + version_marker().len())
}

/// Where the version group of a Dell match at `i` ends: past the dotted
/// number, and past one more `'.' digits` group where one follows.
pub open spec fn dell_group_end(s: Seq<char>, i: int) -> int {
    let e2 = dotted_end(s, i + version_marker().len());
    if e2 < s.len() && s[e2] == '.' && e2 + 1 < s.len() && is_digit(s[e2 + 1]) {
        digit_run_end(s, e2 + 1)
    } else {
        e2
    }
}

/// The version group of the leftmost Dell match at or after `i`, if any.
pub open spec fn dell_find_from(s: Seq<char>, i: int) -> Option<Seq<char>>
    decreases s.len() - i,
{
    if i >= s.len() || i < 0 {
        None
    } else if dell_match_at(s, i) {
        Some(s.subrange(i + version_marker().len(), dell_group_end(s, i)))
    } else {
        dell_find_from(s, i + 1)
    }
}

/// The version group of the leftmost Dell match in `s`, if any: the digits
/// captured after "Version " by the Dell pattern.
pub open spec fn dell_find(s: Seq<char>) -> Option<Seq<char>> {
    dell_find_from(s, 0)
}

/// Scans `s` for the leftmost Dell match and returns its version group.
pub fn dell_find_exec(s: &str) -> (r: Option<String>)
    ensures
        r.deep_view() == dell_find(s@),
{
    proof {
        reveal_strlit("Version ");
    }
    let n = s.unicode_len();
    let mut i: usize = 0;
    while i < n
        invariant
            i <= n,
            n == s@.len(),
            version_marker().len() == 8,
            dell_find(s@) == dell_find_from(s@, i as int),
        decreases n - i,
    {
        if has_at_exec(s, "Version ", i) {
            let start = i + 8;
            match dotted_at_exec(s, start) {
                Some(e2) => {
                    let mut e: usize = e2;
                    if e2 < n && s.get_char(e2) == '.' && e2 + 1 < n && is_digit_exec(s.get_char(e2 + 1)) {
                        e = digit_run_end_exec(s, e2 + 1);
                    }
                    proof {
                        assert(dell_match_at(s@, i as int));
                        assert(e as int == dell_group_end(s@, i as int));
                    }
                    let sub = s.substring_char(start, e);
                    let out = String::from_str(sub);
                    return Some(out);
                },
                None => {
                    proof {
                        assert(!dell_match_at(s@, i as int));
                    }
                },
            }
        }
        i = i + 1;
    }
    None
}

/// The marker the Oracle pattern is anchored on.
pub open spec fn oracle_marker() -> Seq<char> {
    "Sun System Firmware "@
}

/// The Oracle pattern matches at the start of `s`: the marker, then three
/// non-empty runs of digits separated by dots.
pub open spec fn oracle_matches(s: Seq<char>) -> bool {
    &&& has_at(s, oracle_marker(), 0)
    &&& {
        let m = oracle_marker().len() as int;
        &&& m < s.len()
        &&& is_digit(s[m])
        &&& {
            let d1 = digit_run_end(s, m);
            &&& d1 < s.len()
            &&& s[d1] == '.'
            &&& d1 + 1 < s.len()
            &&& is_digit(s[d1 + 1])
            &&& {
                let d2 = digit_run_end(s, d1 + 1);
                &&& d2 < s.len()
                &&& s[d2] == '.'
                &&& d2 + 1 < s.len()
                &&& is_digit(s[d2 + 1])
            }
        }
    }
}

/// Where an Oracle match ends: past the third run of digits, and past one
/// more `'.' letter` group where a single lower-case letter follows.
pub open spec fn oracle_end(s: Seq<char>) -> int {
    let d1 = digit_run_end(s, oracle_marker().len() as int);
    let d2 = digit_run_end(s, d1 + 1);
    let d3 = digit_run_end(s, d2 + 1);
    if d3 < s.len() && s[d3] == '.' && d3 + 1 < s.len() && is_lower_alpha(s[d3 + 1]) {
        d3 + 2
    } else {
        d3
    }
}

/// What scanning a piece of text with the Oracle release pattern yields:
/// the version text after the marker, or nothing where the text does not
/// begin with a match.
pub open spec fn oracle_version(s: Seq<char>) -> Option<Seq<char>> {
    if oracle_matches(s) {
        Some(s.subrange(oracle_marker().len() as int, oracle_end(s)))
    } else {
        None
    }
}

/// Scans a piece of text with the Oracle release pattern.
pub fn oracle_version_exec(s: &str) -> (r: Option<String>)
    ensures
        r.deep_view() == oracle_version(s@),
{
    proof {
        reveal_strlit("Sun System Firmware ");
    }
    let n = s.unicode_len();
    if !has_at_exec(s, "Sun System Firmware ", 0) {
        return None;
    }
    if 20 >= n || !is_digit_exec(s.get_char(20)) {
        return None;
    }
    let d1 = digit_run_end_exec(s, 20);
    if d1 >= n || s.get_char(d1) != '.' {
        return None;
    }
    if d1 + 1 >= n || !is_digit_exec(s.get_char(d1 + 1)) {
        return None;
    }
    let d2 = digit_run_end_exec(s, d1 + 1);
    if d2 >= n || s.get_char(d2) != '.' {
        return None;
    }
    if d2 + 1 >= n || !is_digit_exec(s.get_char(d2 + 1)) {
        return None;
    }
    let d3 = digit_run_end_exec(s, d2 + 1);
    let mut e: usize = d3;
    if d3 < n && s.get_char(d3) == '.' && d3 + 1 < n && is_lower_alpha_exec(s.get_char(d3 + 1)) {
        e = d3 + 2;
    }
    proof {
        assert(oracle_matches(s@));
        assert(e as int == oracle_end(s@));
    }
    let sub = s.substring_char(20, e);
    Some(String::from_str(sub))
}

} // verus!
