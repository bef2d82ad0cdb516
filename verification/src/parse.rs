//! Reading times of day and spans from the text a user typed.

use crate::time::{Duration, TimeOfDay, MAX_DURATION_NANOS};
use chrono::Timelike;
use vstd::prelude::*;

verus! {

/// `chrono::format::ParseError`, carried through as an opaque value.
#[verifier::external_type_specification]
#[verifier::external_body]
pub struct ExParseError(chrono::ParseError);

/// `humantime::DurationError`, carried through as an opaque value.
#[verifier::external_type_specification]
#[verifier::external_body]
pub struct ExDurationError(humantime::DurationError);

/// What `chrono::NaiveTime::parse_from_str` makes of `text` under the
/// format `%H:%M`: the seconds since midnight and the nanoseconds past them,
/// or `None` where it reports an error.
pub uninterp spec fn hour_minute_of(text: Seq<char>) -> Option<(u32, u32)>;

/// What `humantime::parse_duration` makes of `text`: the whole seconds and
/// the nanoseconds past them of the span it denotes, or `None` where it
/// reports an error.
pub uninterp spec fn span_of(text: Seq<char>) -> Option<(u64, u32)>;

/// `chrono::NaiveTime::parse_from_str` with the format `%H:%M`. The time
/// comes back as `num_seconds_from_midnight` and `nanosecond` give it.
#[verifier::external_body]
fn parse_hour_minute(text: &str) -> (r: Result<(u32, u32), chrono::ParseError>)
    ensures
        hour_minute_of(text@) == match r {
            Ok(parts) => Some(parts),
            Err(_) => None,
        },
{
    match chrono::NaiveTime::parse_from_str(text, "%H:%M") {
        Ok(time) => Ok((time.num_seconds_from_midnight(), time.nanosecond())),
        Err(e) => Err(e),
    }
}

/// The most digits that the text of a span may hold.
pub const MAX_SPAN_DIGITS: u8 = 11;

/// Whether `c` is one of the digits `0` to `9`.
pub open spec fn is_digit(c: char) -> bool {
    '0' <= c <= '9'
}

/// How many of the characters of `text` are digits.
pub open spec fn digit_count(text: Seq<char>) -> nat
    decreases text.len(),
{
    if text.len() == 0 {
        0
    } else {
        digit_count(text.drop_last()) + if is_digit(text.last()) {
            1nat
        } else {
            0nat
        }
    }
}

/// `humantime::parse_duration`. The span comes back as `as_secs` and
/// `subsec_nanos` give it.
///
/// `humantime` adds the parts of a span up with checked arithmetic, but
/// hands a sum of exactly 1 000 000 000 nanoseconds on to
/// `std::time::Duration::new`, which panics where carrying them overflows
/// the seconds. A text of at most [`MAX_SPAN_DIGITS`] digits cannot write
/// that many seconds, its longest unit being a year of 31 557 600 seconds:
/// longer texts are left out.
#[verifier::external_body]
fn parse_span(text: &str) -> (r: Result<(u64, u32), humantime::DurationError>)
    requires
        digit_count(text@) <= MAX_SPAN_DIGITS,
    ensures
        span_of(text@) == match r {
            Ok(parts) => Some(parts),
            Err(_) => None,
        },
{
    match humantime::parse_duration(text) {
        Ok(span) => Ok((span.as_secs(), span.subsec_nanos())),
        Err(e) => Err(e),
    }
}

/// The time of day that `text` names as hours and minutes, if it names one.
pub open spec fn time_of_day_of(text: Seq<char>) -> Option<TimeOfDay> {
    match hour_minute_of(text) {
        Some((secs, frac)) => Some(TimeOfDay { secs, frac }),
        None => None,
    }
}

/// Reads a time of day written as hours and minutes, such as `09:00`.
pub fn parse_time_of_day(text: &str) -> (r: Option<TimeOfDay>)
    ensures
        r == time_of_day_of(text@),
{
    match parse_hour_minute(text) {
        Ok((secs, frac)) => Some(TimeOfDay { secs, frac }),
        Err(_) => None,
    }
}

/// Why a span could not be read.
#[derive(Debug, Clone, Copy, PartialEq, Eq, Structural)]
pub enum SpanError {
    /// The text does not denote a span.
    Malformed,
    /// The span is longer than a [`Duration`] can hold.
    OutOfRange,
    /// The text holds more than [`MAX_SPAN_DIGITS`] digits.
    TooManyDigits,
}

/// The span of so many seconds and nanoseconds, when a [`Duration`] can hold
/// it; `Malformed` where there are no parts.
pub open spec fn duration_of_parts(parts: Option<(u64, u32)>) -> Result<Duration, SpanError> {
    match parts {
        None => Err(SpanError::Malformed),
        Some((secs, subsec)) => if secs * 1_000_000_000 + subsec <= MAX_DURATION_NANOS {
            Ok(Duration::of_nanos(secs * 1_000_000_000 + subsec))
        } else {
            Err(SpanError::OutOfRange)
        },
    }
}

/// The span that `text` denotes, where it holds no more digits than a span
/// may.
pub open spec fn duration_of(text: Seq<char>) -> Result<Duration, SpanError> {
    if digit_count(text) > MAX_SPAN_DIGITS {
        Err(SpanError::TooManyDigits)
    } else {
        duration_of_parts(span_of(text))
    }
}

/// Whether `text` holds no more digits than a span may.
pub fn has_few_digits(text: &str) -> (r: bool)
    ensures
        r == (digit_count(text@) <= MAX_SPAN_DIGITS),
{
    let mut count: u8 = 0;
    for c in iter: text.chars()
        invariant
            iter.seq() == text@,
            count == if digit_count(text@.take(iter.index() as int)) <= MAX_SPAN_DIGITS {
                digit_count(text@.take(iter.index() as int))
            } else {
                MAX_SPAN_DIGITS as nat + 1
            },
    {
        proof {
            assert(text@.take(iter.index() + 1).drop_last() =~= text@.take(iter.index() as int));
        }
        if '0' <= c && c <= '9' && count <= MAX_SPAN_DIGITS {
            count += 1;
        }
    }
    proof {
        assert(text@.take(text@.len() as int) =~= text@);
    }
    count <= MAX_SPAN_DIGITS
}

/// The span of so many seconds and nanoseconds, when a [`Duration`] can hold
/// it.
pub fn span_from_parts(parts: Option<(u64, u32)>) -> (r: Result<Duration, SpanError>)
    ensures
        r == duration_of_parts(parts),
{
    match parts {
        None => Err(SpanError::Malformed),
        Some((secs, subsec)) => match Duration::from_unsigned_parts(secs, subsec) {
            Some(d) => Ok(d),
            None => Err(SpanError::OutOfRange),
        },
    }
}

/// Reads a span written as numbers with units, such as `1h 30m`, with at
/// most [`MAX_SPAN_DIGITS`] digits in all.
pub fn parse_duration(text: &str) -> (r: Result<Duration, SpanError>)
    ensures
        r == duration_of(text@),
{
    if !has_few_digits(text) {
        return Err(SpanError::TooManyDigits);
    }
    let parts = match parse_span(text) {
        Ok(p) => Some(p),
        Err(_) => None,
    };
    span_from_parts(parts)
}

} // verus!
