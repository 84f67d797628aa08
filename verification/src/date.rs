//! Settling the point in time that a run writes: the current time, or the
//! date operand read in the local time zone.

use crate::args::{DateOperand, DateView};
use crate::timestamp::{Timestamp, NANOS_PER_SECOND};
use vstd::prelude::*;

verus! {

/// The decimal digits.
pub open spec fn is_digit(c: char) -> bool {
    '0' as u32 <= c as u32 <= '9' as u32
}

/// Whether a sign stands at `at`, followed by two digits that read 24 or
/// more, followed by at least two more characters: the shape of a UTC offset
/// of a day or more.
pub open spec fn oversized_offset_at(text: Seq<char>, at: int) -> bool {
    &&& 0 <= at
    &&& at + 5 <= text.len()
    &&& (text[at] == '+' || text[at] == '-')
    &&& is_digit(text[at + 1])
    &&& is_digit(text[at + 2])
    &&& (text[at + 1] as u32 - '0' as u32) * 10 + (text[at + 2] as u32 - '0' as u32) >= 24
}

/// Whether the last five or the last six characters of `text` begin like a
/// UTC offset of a day or more. No zone is that far from UTC; a text that
/// ends so is turned down without being parsed.
pub open spec fn ends_in_oversized_offset(text: Seq<char>) -> bool {
    oversized_offset_at(text, text.len() - 5) || oversized_offset_at(text, text.len() - 6)
}

fn has_oversized_offset_at(text: &str, at: usize) -> (found: bool)
    requires
        at + 5 <= text@.len() <= usize::MAX,
    ensures
        found == oversized_offset_at(text@, at as int),
{
    let sign: char = text.get_char(at);
    let tens: u32 = text.get_char(at + 1) as u32;
    let units: u32 = text.get_char(at + 2) as u32;
    let zero: u32 = '0' as u32;
    let nine: u32 = '9' as u32;
    (sign == '+' || sign == '-') && zero <= tens && tens <= nine && zero <= units && units <= nine
        && (tens - zero) * 10 + (units - zero) >= 24
}

/// Whether the last five or the last six characters of `text` begin like a
/// UTC offset of a day or more.
pub fn has_oversized_offset(text: &str) -> (found: bool)
    ensures
        found == ends_in_oversized_offset(text@),
{
    let len: usize = text.unicode_len();
    (len >= 5 && has_oversized_offset_at(text, len - 5)) || (len >= 6 && has_oversized_offset_at(
        text,
        len - 6,
    ))
}

/// Hands `text` to `dateparser::parse_with_timezone`, with chrono's `Local`
/// as the zone for a text that names none, and gives the instant it found as
/// seconds since the Unix epoch and nanoseconds, or nothing where it found
/// none. The answer depends on the host's zone and, for a text without a
/// date or without a time of day, on the clock, so nothing is claimed of it.
/// The parser reads a zone from the last three to six characters of a text,
/// builds a fixed offset from a sign, two digits of hours and two of minutes
/// at their start without checking its size, and aborts where that comes to
/// a day or more: texts that end so are kept out.
#[verifier::external_body]
fn parse_in_local_zone(text: &str) -> (parsed: Option<(i64, u32)>)
    requires
        !ends_in_oversized_offset(text@),
{
    match dateparser::parse_with_timezone(text, &chrono::Local) {
        Ok(instant) => Some((instant.timestamp(), instant.timestamp_subsec_nanos())),
        Err(_) => None,
    }
}

/// Reads the clock through `filetime::FileTime::now`, which counts whole
/// seconds and gives the rest as less than a second.
#[verifier::external_body]
fn clock_reading() -> (now: Timestamp)
    ensures
        now.wf(),
{
    let now = filetime::FileTime::now();
    Timestamp { seconds: now.unix_seconds(), nanos: now.nanoseconds() }
}

/// The timestamp that a parser's answer stands for: none where the parser
/// found none, or where the instant lies past the last second that can be
/// counted.
pub open spec fn spec_timestamp_of_parse(parsed: Option<(i64, u32)>) -> Option<Timestamp> {
    match parsed {
        Some((seconds, nanos)) => Timestamp::spec_new(seconds, nanos),
        None => None,
    }
}

/// Turns a parser's answer, seconds since the Unix epoch and nanoseconds
/// that run past one second inside a leap second, into a timestamp.
pub fn timestamp_of_parse(parsed: Option<(i64, u32)>) -> (time: Option<Timestamp>)
    ensures
        time == spec_timestamp_of_parse(parsed),
        time matches Some(t) ==> t.wf(),
        time is Some <==> (parsed matches Some(p) && p.0 + p.1 / NANOS_PER_SECOND <= i64::MAX),
{
    match parsed {
        Some((seconds, nanos)) => Timestamp::new(seconds, nanos),
        None => None,
    }
}

/// Settles the point in time that a run writes. Without a date operand that
/// is the current time, and there always is one. A date operand is parsed in
/// the local time zone; there is no point in time where it is not text,
/// where it ends in an offset of a day or more, or where the parser finds
/// none in it.
pub fn resolve_timestamp(date: &DateOperand) -> (time: Option<Timestamp>)
    ensures
        time matches Some(t) ==> t.wf(),
        date@ is Absent ==> time is Some,
        date@ is NotText ==> time is None,
        date@ matches DateView::Text(text) && ends_in_oversized_offset(text) ==> time is None,
{
    match date {
        DateOperand::Absent => Some(clock_reading()),
        DateOperand::NotText => None,
        DateOperand::Text(text) => {
            if has_oversized_offset(text.as_str()) {
                None
            } else {
                timestamp_of_parse(parse_in_local_zone(text.as_str()))
            }
        },
    }
}

} // verus!
