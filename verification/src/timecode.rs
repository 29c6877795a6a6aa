//! The progress parser: finds the elapsed-time marker that the conversion
//! tool prints in its diagnostics and turns it into a time span.
//!
//! A marker is the token `time=` followed by a timecode of the literal form
//! `HH:MM:SS.ff`. Most diagnostic lines carry none; that is the normal case
//! and is reported as `None`.

use vstd::prelude::*;
use crate::pattern::{capture_first_group, first_group};
use crate::text::{ascii_digit_value, chars_of, digit_char, digit_value, is_ascii_digit, is_digit};

verus! {

/// A span of media time, counted in hundredths of a second.
#[derive(Clone, Copy, Debug, PartialEq, Eq, Structural)]
pub struct Elapsed {
    pub hundredths: u64,
}

/// The marker looked for in a diagnostic line; group 1 is the timecode.
pub const TIME_PATTERN: &'static str = r"time=(\d{2}:\d{2}:\d{2}\.\d{2})";

/// The number written by the two digits of `s` that start at `at`.
pub open spec fn pair_value(s: Seq<char>, at: int) -> nat {
    digit_value(s[at]) * 10 + digit_value(s[at + 1])
}

/// `s` has the literal form `HH:MM:SS.ff`: four pairs of ASCII digits,
/// separated by two colons and a point.
pub open spec fn is_timecode(s: Seq<char>) -> bool {
    &&& s.len() == 11
    &&& is_digit(s[0]) && is_digit(s[1]) && s[2] == ':'
    &&& is_digit(s[3]) && is_digit(s[4]) && s[5] == ':'
    &&& is_digit(s[6]) && is_digit(s[7]) && s[8] == '.'
    &&& is_digit(s[9]) && is_digit(s[10])
}

/// The span that a timecode stands for, `hours * 3600 + minutes * 60 +
/// seconds`, in hundredths of a second.
pub open spec fn timecode_hundredths(s: Seq<char>) -> nat
    recommends
        is_timecode(s),
{
    (pair_value(s, 0) * 3600 + pair_value(s, 3) * 60 + pair_value(s, 6)) * 100 + pair_value(s, 9)
}

/// What a text parses to: its span if it is a timecode, nothing otherwise.
pub open spec fn parsed_time(s: Seq<char>) -> Option<Elapsed> {
    if is_timecode(s) {
        Some(Elapsed { hundredths: timecode_hundredths(s) as u64 })
    } else {
        None
    }
}

/// The two-digit numeral of `n`, zero-padded.
pub open spec fn pair_text(n: nat) -> Seq<char>
    recommends
        n < 100,
{
    seq![digit_char(n / 10), digit_char(n % 10)]
}

/// The timecode that shows the given hours, minutes, seconds and hundredths.
pub open spec fn timecode_text(hours: nat, minutes: nat, seconds: nat, hundredths: nat) -> Seq<char>
    recommends
        hours < 100,
        minutes < 100,
        seconds < 100,
        hundredths < 100,
{
    pair_text(hours) + seq![':'] + pair_text(minutes) + seq![':'] + pair_text(seconds) + seq!['.']
        + pair_text(hundredths)
}

/// How often `c` occurs in `s`.
pub open spec fn occurrences(s: Seq<char>, c: char) -> nat
    decreases s.len(),
{
    if s.len() == 0 {
        0
    } else {
        occurrences(s.drop_last(), c) + if s.last() == c { 1nat } else { 0nat }
    }
}

/// Every well-formed `HH:MM:SS.ff` text parses, and parses to exactly
/// `hours * 3600 + minutes * 60 + seconds` with the hundredths as the
/// fraction of the seconds.
pub proof fn lemma_timecode_parses(hours: nat, minutes: nat, seconds: nat, hundredths: nat)
    requires
        hours < 100,
        minutes < 100,
        seconds < 100,
        hundredths < 100,
    ensures
        parsed_time(timecode_text(hours, minutes, seconds, hundredths)) == Some(
            Elapsed {
                hundredths: ((hours * 3600 + minutes * 60 + seconds) * 100 + hundredths) as u64,
            },
        ),
{
    let s = timecode_text(hours, minutes, seconds, hundredths);
    assert(is_timecode(s));
    assert(pair_value(s, 0) == hours);
    assert(pair_value(s, 3) == minutes);
    assert(pair_value(s, 6) == seconds);
    assert(pair_value(s, 9) == hundredths);
}

/// A text with a character that is neither a digit, a colon nor a point does
/// not parse: no segment of a timecode may be non-numeric.
pub proof fn lemma_non_numeric_rejected(s: Seq<char>, i: int)
    requires
        0 <= i < s.len(),
        !is_digit(s[i]),
        s[i] != ':',
        s[i] != '.',
    ensures
        parsed_time(s) is None,
{
}

/// A text that does not split into exactly three segments at its colons does
/// not parse.
pub proof fn lemma_wrong_segment_count_rejected(s: Seq<char>)
    requires
        occurrences(s, ':') != 2,
    ensures
        parsed_time(s) is None,
{
    if is_timecode(s) {
        let s10 = s.drop_last();
        let s9 = s10.drop_last();
        let s8 = s9.drop_last();
        let s7 = s8.drop_last();
        let s6 = s7.drop_last();
        let s5 = s6.drop_last();
        let s4 = s5.drop_last();
        let s3 = s4.drop_last();
        let s2 = s3.drop_last();
        let s1 = s2.drop_last();
        let s0 = s1.drop_last();
        assert(occurrences(s0, ':') == 0);
        assert(occurrences(s1, ':') == 0);
        assert(occurrences(s2, ':') == 0);
        assert(occurrences(s3, ':') == 1);
        assert(occurrences(s4, ':') == 1);
        assert(occurrences(s5, ':') == 1);
        assert(occurrences(s6, ':') == 2);
        assert(occurrences(s7, ':') == 2);
        assert(occurrences(s8, ':') == 2);
        assert(occurrences(s9, ':') == 2);
        assert(occurrences(s10, ':') == 2);
        assert(occurrences(s, ':') == 2);
    }
}

/// Reads two ASCII digits at `at`, if both are there.
fn read_pair(s: &Vec<char>, at: usize) -> (r: Option<u64>)
    requires
        at + 1 < s.len(),
    ensures
        r is Some <==> is_digit(s@[at as int]) && is_digit(s@[at + 1]),
        r matches Some(v) ==> v == pair_value(s@, at as int) && v < 100,
{
    let hi = s[at];
    let lo = s[at + 1];
    if is_ascii_digit(hi) && is_ascii_digit(lo) {
        let h: u64 = ascii_digit_value(hi) as u64;
        let l: u64 = ascii_digit_value(lo) as u64;
        Some(h * 10 + l)
    } else {
        None
    }
}

/// Parses a timecode of the literal form `HH:MM:SS.ff` into the span it
/// stands for. Any other text, whatever is wrong with it, gives `None`.
pub fn parse_time_to_seconds(time_str: &str) -> (r: Option<Elapsed>)
    ensures
        r == parsed_time(time_str@),
{
    let s = chars_of(time_str);
    if s.len() != 11 {
        return None;
    }
    if s[2] != ':' || s[5] != ':' || s[8] != '.' {
        return None;
    }
    let hours = match read_pair(&s, 0) {
        Some(v) => v,
        None => { return None; },
    };
    let minutes = match read_pair(&s, 3) {
        Some(v) => v,
        None => { return None; },
    };
    let seconds = match read_pair(&s, 6) {
        Some(v) => v,
        None => { return None; },
    };
    let fraction = match read_pair(&s, 9) {
        Some(v) => v,
        None => { return None; },
    };
    Some(Elapsed { hundredths: (hours * 3600 + minutes * 60 + seconds) * 100 + fraction })
}

/// The span shown by the first elapsed-time marker of a diagnostic line, if
/// the line has one and its timecode parses.
pub fn elapsed_in_line(line: &str) -> (r: Option<Elapsed>)
    ensures
        r == match first_group(TIME_PATTERN@, line@) {
            Some(timecode) => parsed_time(timecode),
            None => None,
        },
{
    match capture_first_group(TIME_PATTERN, line) {
        Some(timecode) => parse_time_to_seconds(timecode.as_str()),
        None => None,
    }
}

} // verus!
