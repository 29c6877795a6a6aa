//! The wall clock, read through the `chrono` crate.

use vstd::prelude::*;
use crate::text::is_digit;

verus! {

/// The layout of a timestamp: year, month, day, an underscore, then hour,
/// minute and second, as in `20240131_235959`.
pub const TIMESTAMP_FORMAT: &'static str = "%Y%m%d_%H%M%S";

/// `s` ends the way every timestamp does: after the year, which takes four
/// characters or more, come two digits each for month and day, an
/// underscore, and two digits each for hour, minute and second.
pub open spec fn ends_in_timestamp(s: Seq<char>) -> bool {
    &&& s.len() >= 15
    &&& s[s.len() - 7] == '_'
    &&& forall|i: int| s.len() - 11 <= i < s.len() && i != s.len() - 7 ==> is_digit(#[trigger] s[i])
}

/// The current local time, from `chrono::Local::now`, written out by
/// `DateTime::format` in the layout `format`.
///
/// Which time it is depends on the clock, so the contract states only the
/// shape that chrono gives to every time in this layout. The year is four
/// digits from 0 to 9999; outside that range chrono writes a sign and as
/// many digits as it takes, which is why no more is said of it than its
/// least length. The layout is restricted to the one this crate uses
/// because chrono fails on layouts that it cannot parse.
///
/// chrono panics where the system clock reads a time before 1970 or where
/// the time zone data of the machine yields no local time. That is a state
/// of the machine, which no precondition can rule out.
#[verifier::external_body]
pub(crate) fn local_time_text(format: &str) -> (text: String)
    requires
        format@ == TIMESTAMP_FORMAT@,
    ensures
        ends_in_timestamp(text@),
{
    chrono::Local::now().format(format).to_string()
}

} // verus!
