//! Picking an IPv4 address out of a line of resolver output.
//!
//! A line counts if it holds the word `Address:` somewhere and its last word
//! is an address in dotted decimal form. Words are what ASCII white space
//! separates.

use vstd::prelude::*;
use vstd::slice::slice_subrange;

verus! {

/// Whether `b` is ASCII white space.
pub open spec fn is_space(b: u8) -> bool {
    b == 0x20 || (0x09 <= b && b <= 0x0d)
}

/// Whether `b` is a decimal digit.
pub open spec fn is_digit(b: u8) -> bool {
    0x30 <= b && b <= 0x39
}

/// Whether the bytes of `Address:` stand in `line` at `at`.
pub open spec fn marker_at(line: Seq<u8>, at: int) -> bool {
    &&& 0 <= at
    &&& at + 8 <= line.len()
    &&& line[at] == 0x41
    &&& line[at + 1] == 0x64
    &&& line[at + 2] == 0x64
    &&& line[at + 3] == 0x72
    &&& line[at + 4] == 0x65
    &&& line[at + 5] == 0x73
    &&& line[at + 6] == 0x73
    &&& line[at + 7] == 0x3a
}

/// Whether `line` holds `Address:` anywhere.
pub open spec fn mentions_address(line: Seq<u8>) -> bool {
    exists|at: int| marker_at(line, at)
}

/// Where the last word of `line` ends: behind its last byte that is not
/// white space, or at 0 if there is none.
pub open spec fn word_end(line: Seq<u8>) -> int
    decreases line.len(),
{
    if line.len() == 0 || !is_space(line.last()) {
        line.len() as int
    } else {
        word_end(line.drop_last())
    }
}

/// Where the word that ends at `end` begins.
pub open spec fn word_start(line: Seq<u8>, end: int) -> int
    decreases end,
{
    if end <= 0 || end > line.len() || is_space(line[end - 1]) {
        end
    } else {
        word_start(line, end - 1)
    }
}

/// The last word of `line`; empty if the line holds white space only.
pub open spec fn last_word(line: Seq<u8>) -> Seq<u8> {
    line.subrange(word_start(line, word_end(line)), word_end(line))
}

/// Whether a digit stands in `t` at `i`.
pub open spec fn digit_at(t: Seq<u8>, i: int) -> bool {
    0 <= i < t.len() && is_digit(t[i])
}

/// Whether a dot stands in `t` at `i`.
pub open spec fn dot_at(t: Seq<u8>, i: int) -> bool {
    0 <= i < t.len() && t[i] == 0x2e
}

/// The value of the digit in `t` at `i`.
pub open spec fn digit(t: Seq<u8>, i: int) -> int {
    t[i] - 0x30
}

/// The number of digits that stand in `t` from `at` on, where four stands
/// for four or more.
pub open spec fn group_len(t: Seq<u8>, at: int) -> int {
    if !digit_at(t, at) {
        0
    } else if !digit_at(t, at + 1) {
        1
    } else if !digit_at(t, at + 2) {
        2
    } else if !digit_at(t, at + 3) {
        3
    } else {
        4
    }
}

/// The number that the `n` digits in `t` from `at` on spell, for `n` from one
/// to three.
pub open spec fn group_value(t: Seq<u8>, at: int, n: int) -> int {
    if n == 1 {
        digit(t, at)
    } else if n == 2 {
        digit(t, at) * 10 + digit(t, at + 1)
    } else {
        digit(t, at) * 100 + digit(t, at + 1) * 10 + digit(t, at + 2)
    }
}

/// One part of a dotted address in `t` at `at`: one to three digits, without
/// a leading zero unless the part is `0` itself, spelling at most 255. Gives
/// the number and the place behind the part.
pub open spec fn group(t: Seq<u8>, at: int) -> Option<(u8, int)> {
    let n = group_len(t, at);
    if n == 0 || n == 4 {
        None
    } else if n > 1 && t[at] == 0x30 {
        None
    } else if group_value(t, at, n) > 255 {
        None
    } else {
        Some((group_value(t, at, n) as u8, at + n))
    }
}

/// The address with the four parts `a.b.c.d`.
pub open spec fn quad(a: u8, b: u8, c: u8, d: u8) -> u32 {
    (a * 0x100_0000 + b * 0x1_0000 + c * 0x100 + d) as u32
}

/// The address that `t` spells in dotted decimal form: four parts with a dot
/// between each two and nothing else.
pub open spec fn dotted_quad(t: Seq<u8>) -> Option<u32> {
    match group(t, 0) {
        Some((a, i)) if dot_at(t, i) => match group(t, i + 1) {
            Some((b, j)) if dot_at(t, j) => match group(t, j + 1) {
                Some((c, k)) if dot_at(t, k) => match group(t, k + 1) {
                    Some((d, end)) if end == t.len() => Some(quad(a, b, c, d)),
                    _ => None,
                },
                _ => None,
            },
            _ => None,
        },
        _ => None,
    }
}

/// The address that a line of resolver output gives, if any.
pub open spec fn address_in(line: Seq<u8>) -> Option<u32> {
    if mentions_address(line) {
        dotted_quad(last_word(line))
    } else {
        None
    }
}

/// Whether `b` is ASCII white space.
pub fn space(b: u8) -> (r: bool)
    ensures
        r == is_space(b),
{
    b == 0x20 || (0x09 <= b && b <= 0x0d)
}

/// Tells whether `line` holds `Address:` anywhere.
pub fn find_marker(line: &[u8]) -> (found: bool)
    ensures
        found == mentions_address(line@),
{
    let len: usize = line.len();
    let mut at: usize = 0;
    while at < len && len - at >= 8
        invariant
            len == line@.len(),
            at <= len,
            forall|j: int| 0 <= j < at ==> !marker_at(line@, j),
        decreases len - at,
    {
        if line[at] == 0x41 && line[at + 1] == 0x64 && line[at + 2] == 0x64 && line[at + 3] == 0x72
            && line[at + 4] == 0x65 && line[at + 5] == 0x73 && line[at + 6] == 0x73 && line[at
            + 7] == 0x3a {
            assert(marker_at(line@, at as int));
            return true;
        }
        at += 1;
    }
    assert forall|j: int| !marker_at(line@, j) by {
        if 0 <= j && j + 8 <= len {
            assert(j < at);
        }
    }
    false
}

/// Finds the last word of `line` and hands back where it begins and ends.
pub fn find_last_word(line: &[u8]) -> (r: (usize, usize))
    ensures
        r.0 <= r.1 <= line@.len(),
        r.1 == word_end(line@),
        r.0 == word_start(line@, word_end(line@)),
{
    let mut end: usize = line.len();
    assert(line@.take(end as int) =~= line@);
    while end > 0 && space(line[end - 1])
        invariant
            end <= line@.len(),
            word_end(line@) == word_end(line@.take(end as int)),
        decreases end,
    {
        assert(line@.take(end as int).drop_last() =~= line@.take(end - 1));
        end -= 1;
    }
    let mut start: usize = end;
    while start > 0 && !space(line[start - 1])
        invariant
            start <= end <= line@.len(),
            word_start(line@, end as int) == word_start(line@, start as int),
        decreases start,
    {
        start -= 1;
    }
    (start, end)
}

/// Reads one part of a dotted address in `t` at `at`.
pub fn read_group(t: &[u8], at: usize) -> (r: Option<(u8, usize)>)
    ensures
        match r {
            Some((value, next)) => group(t@, at as int) == Some((value, next as int)),
            None => group(t@, at as int) is None,
        },
{
    let len: usize = t.len();
    if at >= len || !(0x30 <= t[at] && t[at] <= 0x39) {
        return None;
    }
    let d0: u16 = (t[at] - 0x30) as u16;
    if len - at < 2 || !(0x30 <= t[at + 1] && t[at + 1] <= 0x39) {
        return Some((d0 as u8, at + 1));
    }
    if d0 == 0 {
        return None;
    }
    let d1: u16 = (t[at + 1] - 0x30) as u16;
    if len - at < 3 || !(0x30 <= t[at + 2] && t[at + 2] <= 0x39) {
        return Some(((d0 * 10 + d1) as u8, at + 2));
    }
    let d2: u16 = (t[at + 2] - 0x30) as u16;
    if len - at >= 4 && 0x30 <= t[at + 3] && t[at + 3] <= 0x39 {
        return None;
    }
    let value: u16 = d0 * 100 + d1 * 10 + d2;
    if value > 255 {
        None
    } else {
        Some((value as u8, at + 3))
    }
}

/// Tells whether a dot stands in `t` at `at`.
pub fn is_dot(t: &[u8], at: usize) -> (r: bool)
    ensures
        r == dot_at(t@, at as int),
{
    at < t.len() && t[at] == 0x2e
}

/// Reads a whole word as an address in dotted decimal form.
pub fn parse_dotted_quad(t: &[u8]) -> (r: Option<u32>)
    ensures
        r == dotted_quad(t@),
{
    let (a, i) = match read_group(t, 0) {
        Some(part) => part,
        None => {
            return None;
        },
    };
    if !is_dot(t, i) {
        return None;
    }
    let (b, j) = match read_group(t, i + 1) {
        Some(part) => part,
        None => {
            return None;
        },
    };
    if !is_dot(t, j) {
        return None;
    }
    let (c, k) = match read_group(t, j + 1) {
        Some(part) => part,
        None => {
            return None;
        },
    };
    if !is_dot(t, k) {
        return None;
    }
    let (d, end) = match read_group(t, k + 1) {
        Some(part) => part,
        None => {
            return None;
        },
    };
    if end != t.len() {
        return None;
    }
    Some((a as u32) * 0x100_0000 + (b as u32) * 0x1_0000 + (c as u32) * 0x100 + (d as u32))
}

/// Looks for an IPv4 address in one line of resolver output: the line must
/// hold `Address:` and end, white space aside, in a dotted address.
pub fn check_for_ip(line: &[u8]) -> (r: Option<u32>)
    ensures
        r == address_in(line@),
{
    if find_marker(line) {
        let (start, end) = find_last_word(line);
        parse_dotted_quad(slice_subrange(line, start, end))
    } else {
        None
    }
}

} // verus!
