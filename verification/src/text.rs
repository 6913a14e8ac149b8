//! Character-level scanning: lines, whitespace-delimited tokens, header
//! prefixes and decimal numbers.

use vstd::prelude::*;
use vstd::slice::slice_subrange;

verus! {

/// The characters with the Unicode `White_Space` property.
pub open spec fn is_whitespace(c: char) -> bool {
    let u = c as u32;
    ||| 0x09 <= u <= 0x0D
    ||| u == 0x20
    ||| u == 0x85
    ||| u == 0xA0
    ||| u == 0x1680
    ||| 0x2000 <= u <= 0x200A
    ||| u == 0x2028
    ||| u == 0x2029
    ||| u == 0x202F
    ||| u == 0x205F
    ||| u == 0x3000
}

/// The code of `c` with the letters `A`–`Z` folded to `a`–`z`; every other
/// character stands for itself.
pub open spec fn lower_code(c: char) -> u32 {
    let u = c as u32;
    if 0x41 <= u <= 0x5A {
        (u + 0x20) as u32
    } else {
        u
    }
}

/// `s` with the letters `A`–`Z` folded to `a`–`z`, as a sequence of codes.
pub open spec fn lower_codes(s: Seq<char>) -> Seq<u32> {
    Seq::new(s.len(), |i: int| lower_code(s[i]))
}

/// The codes of `s`, unchanged.
pub open spec fn codes(s: Seq<char>) -> Seq<u32> {
    Seq::new(s.len(), |i: int| s[i] as u32)
}

/// Whether `line` starts with `prefix` once the letters `A`–`Z` of `line` are
/// folded to lower case. `prefix` is compared as it stands, so it is meant to
/// be given in lower case.
pub open spec fn has_prefix_ignoring_case(line: Seq<char>, prefix: Seq<char>) -> bool {
    &&& prefix.len() <= line.len()
    &&& lower_codes(line.subrange(0, prefix.len() as int)) == codes(prefix)
}

/// The first index at or after `from` whose character is whitespace
/// (`skipping_space == false`) or is not (`skipping_space == true`); the
/// length of `s` where there is none.
pub open spec fn scan(s: Seq<char>, from: int, skipping_space: bool) -> int
    decreases s.len() - from,
{
    if from < 0 || from >= s.len() {
        s.len() as int
    } else if is_whitespace(s[from]) != skipping_space {
        from
    } else {
        scan(s, from + 1, skipping_space)
    }
}

/// The bounds of the first whitespace-delimited token of `s` that starts at
/// or after `from`, if there is one.
pub open spec fn next_token(s: Seq<char>, from: int) -> Option<(int, int)> {
    let start = scan(s, from, true);
    if start >= s.len() {
        None
    } else {
        Some((start, scan(s, start, false)))
    }
}

/// The bounds of the first whitespace-delimited token of `s`.
pub open spec fn first_token(s: Seq<char>) -> Option<(int, int)> {
    next_token(s, 0)
}

/// The bounds of the second whitespace-delimited token of `s`.
pub open spec fn second_token(s: Seq<char>) -> Option<(int, int)> {
    match first_token(s) {
        Some((_, stop)) => next_token(s, stop),
        None => None,
    }
}

/// The index of the first line feed at or after `from`; the length of `s`
/// where there is none.
pub open spec fn line_end(s: Seq<char>, from: int) -> int
    decreases s.len() - from,
{
    if from < 0 || from >= s.len() {
        s.len() as int
    } else if s[from] == '\n' {
        from
    } else {
        line_end(s, from + 1)
    }
}

/// Where the content of the line that starts at `from` stops: at its line
/// feed, or one earlier where a carriage return stands right before that line
/// feed. A carriage return at the end of an unterminated last line is kept.
pub open spec fn line_stop(s: Seq<char>, from: int) -> int {
    let end = line_end(s, from);
    if from < end < s.len() && s[end - 1] == '\r' {
        end - 1
    } else {
        end
    }
}

/// Whether a line starts at `i`: at the very beginning, or right after a
/// line feed.
pub open spec fn is_line_start(s: Seq<char>, i: int) -> bool {
    0 <= i < s.len() && (i == 0 || s[i - 1] == '\n')
}

/// The bounds of the first line of `s`, if `s` is not empty.
pub open spec fn first_line(s: Seq<char>) -> Option<(int, int)> {
    if s.len() == 0 {
        None
    } else {
        Some((0, line_stop(s, 0)))
    }
}

/// The bounds of the first line at or after `from` that starts with `prefix`,
/// ignoring the case of the line's letters.
pub open spec fn find_line(s: Seq<char>, from: int, prefix: Seq<char>) -> Option<(int, int)>
    decreases s.len() - from,
{
    if from < 0 || from >= s.len() {
        None
    } else if is_line_start(s, from) && has_prefix_ignoring_case(
        s.subrange(from, line_stop(s, from)),
        prefix,
    ) {
        Some((from, line_stop(s, from)))
    } else {
        find_line(s, from + 1, prefix)
    }
}

/// Whether `c` is one of the digits `0`–`9`.
pub open spec fn is_digit(c: char) -> bool {
    0x30 <= c as u32 <= 0x39
}

/// The number that a sequence of decimal digits writes.
pub open spec fn digits_value(s: Seq<char>) -> nat
    decreases s.len(),
{
    if s.len() == 0 {
        0
    } else {
        (digits_value(s.drop_last()) * 10 + (s.last() as u32 - 0x30)) as nat
    }
}

/// What is left of `s` after one leading plus sign, if it has one.
pub open spec fn unsigned_part(s: Seq<char>) -> Seq<char> {
    if s.len() > 0 && s[0] == '+' {
        s.skip(1)
    } else {
        s
    }
}

/// The number that `s` writes in decimal: an optional plus sign, then one or
/// more digits, with a value that fits in `usize`. `None` for anything else.
pub open spec fn parse_decimal(s: Seq<char>) -> Option<usize> {
    let d = unsigned_part(s);
    if d.len() > 0 && (forall|i: int| 0 <= i < d.len() ==> is_digit(#[trigger] d[i]))
        && digits_value(d) <= usize::MAX {
        Some(digits_value(d) as usize)
    } else {
        None
    }
}

/// Whether `c` has the Unicode `White_Space` property.
pub fn is_space(c: char) -> (b: bool)
    ensures
        b == is_whitespace(c),
{
    let u: u32 = c as u32;
    (0x09 <= u && u <= 0x0D) || u == 0x20 || u == 0x85 || u == 0xA0 || u == 0x1680 || (0x2000 <= u
        && u <= 0x200A) || u == 0x2028 || u == 0x2029 || u == 0x202F || u == 0x205F || u == 0x3000
}

/// The code of `c`, with an upper-case ASCII letter folded to lower case.
pub fn to_lower_code(c: char) -> (u: u32)
    ensures
        u == lower_code(c),
{
    let u: u32 = c as u32;
    if 0x41 <= u && u <= 0x5A {
        u + 0x20
    } else {
        u
    }
}

/// The characters of `s`, one by one.
pub fn chars_of(s: &str) -> (v: Vec<char>)
    ensures
        v@ == s@,
{
    let mut v: Vec<char> = Vec::new();
    for c in it: s.chars()
        invariant
            it.seq() == s@,
            v@ == s@.subrange(0, it.index() as int),
    {
        v.push(c);
        assert(v@ =~= s@.subrange(0, it.index() + 1));
    }
    assert(v@ =~= s@);
    v
}

/// Advances from `from` over whitespace (`skipping_space == true`) or over
/// what is not whitespace.
pub fn scan_from(s: &[char], from: usize, skipping_space: bool) -> (r: usize)
    requires
        from <= s@.len(),
    ensures
        r == scan(s@, from as int, skipping_space),
        from <= r <= s@.len(),
        r < s@.len() ==> is_whitespace(s@[r as int]) != skipping_space,
        forall|j: int| from <= j < r ==> is_whitespace(#[trigger] s@[j]) == skipping_space,
{
    let mut i: usize = from;
    while i < s.len() && is_space(s[i]) == skipping_space
        invariant
            from <= i <= s@.len(),
            forall|j: int| from <= j < i ==> is_whitespace(#[trigger] s@[j]) == skipping_space,
            scan(s@, i as int, skipping_space) == scan(s@, from as int, skipping_space),
        decreases s@.len() - i,
    {
        i += 1;
    }
    i
}

/// Finds the first token of `s` at or after `from`.
pub fn token_from(s: &[char], from: usize) -> (r: Option<(usize, usize)>)
    requires
        from <= s@.len(),
    ensures
        match r {
            Some((a, b)) => next_token(s@, from as int) == Some((a as int, b as int)) && from <= a
                < b <= s@.len(),
            None => next_token(s@, from as int) is None,
        },
{
    let start: usize = scan_from(s, from, true);
    if start >= s.len() {
        None
    } else {
        let stop: usize = scan_from(s, start, false);
        Some((start, stop))
    }
}

/// Finds where the line that starts at `from` ends: the index of its line
/// feed, or the length of `s`.
pub fn line_end_from(s: &[char], from: usize) -> (r: usize)
    requires
        from <= s@.len(),
    ensures
        r == line_end(s@, from as int),
        from <= r <= s@.len(),
        r < s@.len() ==> s@[r as int] == '\n',
        forall|j: int| from <= j < r ==> #[trigger] s@[j] != '\n',
{
    let mut i: usize = from;
    while i < s.len() && s[i] != '\n'
        invariant
            from <= i <= s@.len(),
            forall|j: int| from <= j < i ==> #[trigger] s@[j] != '\n',
            line_end(s@, i as int) == line_end(s@, from as int),
        decreases s@.len() - i,
    {
        i += 1;
    }
    i
}

/// Finds where the content of the line that starts at `from` stops.
pub fn line_stop_from(s: &[char], from: usize) -> (r: usize)
    requires
        from <= s@.len(),
    ensures
        r == line_stop(s@, from as int),
        from <= r <= s@.len(),
{
    let end: usize = line_end_from(s, from);
    if from < end && end < s.len() && s[end - 1] == '\r' {
        end - 1
    } else {
        end
    }
}

/// Tests whether `line` starts with `prefix`, ignoring the case of the
/// letters of `line`.
pub fn starts_with_ignoring_case(line: &[char], prefix: &[char]) -> (b: bool)
    ensures
        b == has_prefix_ignoring_case(line@, prefix@),
{
    if prefix.len() > line.len() {
        return false;
    }
    let mut i: usize = 0;
    while i < prefix.len()
        invariant
            i <= prefix@.len() <= line@.len(),
            forall|j: int| 0 <= j < i ==> lower_code(line@[j]) == #[trigger] prefix@[j] as u32,
        decreases prefix@.len() - i,
    {
        if to_lower_code(line[i]) != prefix[i] as u32 {
            proof {
                let head = line@.subrange(0, prefix@.len() as int);
                assert(lower_codes(head)[i as int] == lower_code(line@[i as int]));
                assert(codes(prefix@)[i as int] == prefix@[i as int] as u32);
            }
            return false;
        }
        i += 1;
    }
    assert(lower_codes(line@.subrange(0, prefix@.len() as int)) =~= codes(prefix@));
    true
}

/// Finds the first line of `s` that starts with `prefix`, ignoring the case
/// of the line's letters.
pub fn find_line_with_prefix(s: &[char], prefix: &[char]) -> (r: Option<(usize, usize)>)
    ensures
        match r {
            Some((a, b)) => find_line(s@, 0, prefix@) == Some((a as int, b as int)) && a <= b
                <= s@.len(),
            None => find_line(s@, 0, prefix@) is None,
        },
{
    let mut i: usize = 0;
    while i < s.len()
        invariant
            i <= s@.len(),
            find_line(s@, i as int, prefix@) == find_line(s@, 0, prefix@),
        decreases s@.len() - i,
    {
        if i == 0 || s[i - 1] == '\n' {
            let stop: usize = line_stop_from(s, i);
            let line: &[char] = slice_subrange(s, i, stop);
            if starts_with_ignoring_case(line, prefix) {
                return Some((i, stop));
            }
        }
        i += 1;
    }
    None
}

/// The value of `prefix` is never more than that of a longer run of digits
/// that starts with it.
pub proof fn digits_value_monotone(s: Seq<char>, n: int)
    requires
        0 <= n <= s.len(),
        forall|i: int| 0 <= i < s.len() ==> is_digit(#[trigger] s[i]),
    ensures
        digits_value(s.subrange(0, n)) <= digits_value(s),
    decreases s.len(),
{
    if n == s.len() {
        assert(s.subrange(0, n) =~= s);
    } else {
        digits_value_monotone(s.drop_last(), n);
        assert(s.drop_last().subrange(0, n) =~= s.subrange(0, n));
    }
}

/// Reads `s` as a decimal number that fits in `usize`.
pub fn parse_usize(s: &[char]) -> (r: Option<usize>)
    ensures
        r == parse_decimal(s@),
{
    let start: usize = if s.len() > 0 && s[0] == '+' {
        1
    } else {
        0
    };
    let digits: &[char] = slice_subrange(s, start, s.len());
    assert(digits@ =~= unsigned_part(s@));
    if digits.len() == 0 {
        return None;
    }
    let mut value: usize = 0;
    let mut i: usize = 0;
    while i < digits.len()
        invariant
            i <= digits@.len(),
            digits@ == unsigned_part(s@),
            forall|j: int| 0 <= j < i ==> is_digit(#[trigger] digits@[j]),
            value == digits_value(digits@.subrange(0, i as int)),
        decreases digits@.len() - i,
    {
        let u: u32 = digits[i] as u32;
        if u < 0x30 || u > 0x39 {
            return None;
        }
        let d: usize = (u - 0x30) as usize;
        proof {
            let next = digits@.subrange(0, i + 1);
            assert(next.drop_last() =~= digits@.subrange(0, i as int));
            assert(next.last() == digits@[i as int]);
            assert(digits_value(next) == value * 10 + d);
            if forall|j: int| 0 <= j < digits@.len() ==> is_digit(#[trigger] digits@[j]) {
                digits_value_monotone(digits@, i + 1);
            }
        }
        if value > (usize::MAX - d) / 10 {
            return None;
        }
        value = value * 10 + d;
        i += 1;
    }
    assert(digits@.subrange(0, i as int) =~= digits@);
    Some(value)
}

} // verus!
