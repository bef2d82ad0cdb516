//! Instants, spans and times of day, as plain integers.

use vstd::prelude::*;

verus! {

/// The longest span a [`Duration`] can hold, in nanoseconds: `i64::MAX`
/// milliseconds.
pub const MAX_DURATION_NANOS: i128 = 9_223_372_036_854_775_807_000_000;

/// `v`, or the nearest bound of `i64` when `v` lies outside it.
pub open spec fn clamp_to_i64(v: int) -> int {
    if v < i64::MIN {
        i64::MIN as int
    } else if v > i64::MAX {
        i64::MAX as int
    } else {
        v
    }
}

/// `v`, or the nearest bound of the [`Duration`] range when `v` lies outside
/// it.
pub open spec fn clamp_to_duration(v: int) -> int {
    if v < -MAX_DURATION_NANOS {
        -MAX_DURATION_NANOS as int
    } else if v > MAX_DURATION_NANOS {
        MAX_DURATION_NANOS as int
    } else {
        v
    }
}

/// The quotient of `a` by a positive `b`, rounded toward zero.
pub open spec fn div_toward_zero(a: int, b: int) -> int {
    if a >= 0 {
        a / b
    } else {
        -((-a) / b)
    }
}

fn clamp_i128_to_i64(v: i128) -> (r: i64)
    ensures
        r == clamp_to_i64(v as int),
{
    if v < i64::MIN as i128 {
        i64::MIN
    } else if v > i64::MAX as i128 {
        i64::MAX
    } else {
        v as i64
    }
}

/// An instant in UTC, counted in nanoseconds since 1970-01-01T00:00:00Z.
///
/// The range of `i64` spans the years 1677 to 2262.
#[derive(Debug, Clone, Copy, PartialEq, Eq, Structural)]
pub struct Timestamp {
    pub nanos: i64,
}

impl View for Timestamp {
    type V = int;

    open spec fn view(&self) -> int {
        self.nanos as int
    }
}

impl Timestamp {
    /// The instant `nanos` nanoseconds after the epoch.
    pub fn from_nanos(nanos: i64) -> (t: Timestamp)
        ensures
            t@ == nanos,
    {
        Timestamp { nanos }
    }

    /// The instant `secs` seconds and `subsec_nanos` nanoseconds after the
    /// epoch, or the nearest representable instant.
    pub fn from_parts(secs: i64, subsec_nanos: u32) -> (t: Timestamp)
        ensures
            t@ == clamp_to_i64(secs * 1_000_000_000 + subsec_nanos),
    {
        let total: i128 = (secs as i128) * 1_000_000_000i128 + (subsec_nanos as i128);
        Timestamp { nanos: clamp_i128_to_i64(total) }
    }

    /// The instant `secs` whole seconds after the epoch, or the nearest
    /// representable instant.
    pub fn from_secs(secs: i64) -> (t: Timestamp)
        ensures
            t@ == clamp_to_i64(secs * 1_000_000_000),
    {
        Timestamp::from_parts(secs, 0)
    }

    /// The whole seconds from the epoch to `self`, rounded down.
    pub fn secs(self) -> (secs: i64)
        ensures
            secs == self@ / 1_000_000_000,
    {
        let quotient = self.nanos / 1_000_000_000;
        if self.nanos % 1_000_000_000 < 0 {
            quotient - 1
        } else {
            quotient
        }
    }

    /// The nanoseconds from the last whole second to `self`.
    pub fn subsec_nanos(self) -> (nanos: u32)
        ensures
            nanos == self@ % 1_000_000_000,
    {
        let rest = self.nanos % 1_000_000_000;
        if rest < 0 {
            (rest + 1_000_000_000) as u32
        } else {
            rest as u32
        }
    }

    /// Taking an instant apart into whole seconds and nanoseconds and
    /// putting it together again gives the same instant.
    pub proof fn lemma_parts_round_trip(t: Timestamp)
        ensures
            clamp_to_i64((t@ / 1_000_000_000) * 1_000_000_000 + t@ % 1_000_000_000) == t@,
    {
    }

    /// The instant `secs` seconds before `self` (after it, when `secs` is
    /// negative), or the nearest representable instant.
    pub fn saturating_sub_secs(self, secs: i64) -> (t: Timestamp)
        ensures
            t == self.spec_sub_secs(secs as int),
    {
        let total: i128 = (self.nanos as i128) - (secs as i128) * 1_000_000_000i128;
        Timestamp { nanos: clamp_i128_to_i64(total) }
    }

    /// What [`Timestamp::saturating_sub_secs`] returns.
    pub open spec fn spec_sub_secs(self, secs: int) -> Timestamp {
        Timestamp { nanos: clamp_to_i64(self@ - secs * 1_000_000_000) as i64 }
    }

    /// The signed span from `earlier` to `self`.
    pub fn duration_since(self, earlier: Timestamp) -> (d: Duration)
        ensures
            d@ == self@ - earlier@,
    {
        Duration::from_nanos((self.nanos as i128) - (earlier.nanos as i128))
    }

    /// Whether `self` is strictly earlier than `other`.
    pub fn is_before(self, other: Timestamp) -> (r: bool)
        ensures
            r == (self@ < other@),
    {
        self.nanos < other.nanos
    }
}

/// A signed span of time with nanosecond resolution, at most
/// [`MAX_DURATION_NANOS`] long in either direction.
#[derive(Debug, Clone, Copy, PartialEq, Eq, Structural)]
pub struct Duration {
    nanos: i128,
}

impl View for Duration {
    type V = int;

    closed spec fn view(&self) -> int {
        self.nanos as int
    }
}

impl Duration {
    #[verifier::type_invariant]
    spec fn in_range(self) -> bool {
        -MAX_DURATION_NANOS <= self.nanos <= MAX_DURATION_NANOS
    }

    /// Two spans of the same length are the same value.
    pub proof fn lemma_view_injective(a: Duration, b: Duration)
        requires
            a@ == b@,
        ensures
            a == b,
    {
    }

    /// The span of `nanos` nanoseconds, or the nearest bound of the range.
    pub closed spec fn of_nanos(nanos: int) -> Duration {
        Duration { nanos: clamp_to_duration(nanos) as i128 }
    }

    /// [`Duration::of_nanos`] is as long as it says.
    pub broadcast proof fn lemma_of_nanos(nanos: int)
        ensures
            (#[trigger] Duration::of_nanos(nanos))@ == clamp_to_duration(nanos),
    {
    }

    /// The empty span.
    pub fn zero() -> (d: Duration)
        ensures
            d@ == 0,
            d == Duration::of_nanos(0),
    {
        Duration { nanos: 0 }
    }

    /// The span of `nanos` nanoseconds, or the nearest bound of the range.
    pub fn from_nanos(nanos: i128) -> (d: Duration)
        ensures
            d@ == clamp_to_duration(nanos as int),
            d == Duration::of_nanos(nanos as int),
    {
        if nanos < -MAX_DURATION_NANOS {
            Duration { nanos: -MAX_DURATION_NANOS }
        } else if nanos > MAX_DURATION_NANOS {
            Duration { nanos: MAX_DURATION_NANOS }
        } else {
            Duration { nanos }
        }
    }

    /// The span of `secs` seconds, or the nearest bound of the range.
    pub fn seconds(secs: i64) -> (d: Duration)
        ensures
            d@ == clamp_to_duration(secs * 1_000_000_000),
    {
        Duration::from_nanos((secs as i128) * 1_000_000_000i128)
    }

    /// The span of `mins` minutes, or the nearest bound of the range.
    pub fn minutes(mins: i64) -> (d: Duration)
        ensures
            d@ == clamp_to_duration(mins * 60_000_000_000),
    {
        Duration::from_nanos((mins as i128) * 60_000_000_000i128)
    }

    /// The span of `hours` hours, or the nearest bound of the range.
    pub fn hours(hours: i64) -> (d: Duration)
        ensures
            d@ == clamp_to_duration(hours * 3_600_000_000_000),
    {
        Duration::from_nanos((hours as i128) * 3_600_000_000_000i128)
    }

    /// The span of `days` days of 86 400 seconds, or the nearest bound of the
    /// range.
    pub fn days(days: i64) -> (d: Duration)
        ensures
            d@ == clamp_to_duration(days * 86_400_000_000_000),
    {
        Duration::from_nanos((days as i128) * 86_400_000_000_000i128)
    }

    /// The span of `secs` seconds and `subsec_nanos` nanoseconds, when it
    /// lies within the range.
    pub fn from_unsigned_parts(secs: u64, subsec_nanos: u32) -> (r: Option<Duration>)
        ensures
            r is Some <==> secs * 1_000_000_000 + subsec_nanos <= MAX_DURATION_NANOS,
            r matches Some(d) ==> d@ == secs * 1_000_000_000 + subsec_nanos && d
                == Duration::of_nanos(secs * 1_000_000_000 + subsec_nanos),
    {
        let total: i128 = (secs as i128) * 1_000_000_000i128 + (subsec_nanos as i128);
        if total <= MAX_DURATION_NANOS {
            Some(Duration { nanos: total })
        } else {
            None
        }
    }

    /// The length in nanoseconds.
    pub fn nanos(self) -> (n: i128)
        ensures
            n == self@,
            -MAX_DURATION_NANOS <= n <= MAX_DURATION_NANOS,
    {
        proof {
            use_type_invariant(&self);
        }
        self.nanos
    }

    /// The number of whole seconds in the span, rounded toward zero.
    pub fn num_seconds(self) -> (s: i64)
        ensures
            s == div_toward_zero(self@, 1_000_000_000),
            -9_223_372_036_854_775 <= s <= 9_223_372_036_854_775,
    {
        proof {
            use_type_invariant(&self);
        }
        if self.nanos >= 0 {
            (self.nanos / 1_000_000_000i128) as i64
        } else {
            let m: i128 = -self.nanos;
            let q: i128 = m / 1_000_000_000i128;
            (-q) as i64
        }
    }

    /// The sum of two spans, or the nearest bound of the range.
    pub fn saturating_add(self, other: Duration) -> (d: Duration)
        ensures
            d@ == clamp_to_duration(self@ + other@),
    {
        proof {
            use_type_invariant(&self);
            use_type_invariant(&other);
        }
        Duration::from_nanos(self.nanos + other.nanos)
    }

    /// Whether `self` is strictly shorter than `other`.
    pub fn is_shorter_than(self, other: Duration) -> (r: bool)
        ensures
            r == (self@ < other@),
    {
        self.nanos < other.nanos
    }

    /// The longer of two spans.
    pub fn longest(self, other: Duration) -> (d: Duration)
        ensures
            d@ == if self@ >= other@ { self@ } else { other@ },
            d == self || d == other,
    {
        if self.nanos >= other.nanos {
            self
        } else {
            other
        }
    }

    /// The shorter of two spans.
    pub fn shortest(self, other: Duration) -> (d: Duration)
        ensures
            d@ == if self@ <= other@ { self@ } else { other@ },
            d == self || d == other,
    {
        if self.nanos <= other.nanos {
            self
        } else {
            other
        }
    }
}

/// A time of day: whole seconds since midnight and the nanoseconds past
/// them. During a leap second `frac` runs from 1 000 000 000 upward.
#[derive(Debug, Clone, Copy, PartialEq, Eq, Structural)]
pub struct TimeOfDay {
    pub secs: u32,
    pub frac: u32,
}

impl TimeOfDay {
    /// Whether `self` comes strictly before `other` on the clock face.
    pub open spec fn precedes(self, other: TimeOfDay) -> bool {
        self.secs < other.secs || (self.secs == other.secs && self.frac < other.frac)
    }

    /// Whether `self` comes strictly before `other` on the clock face.
    pub fn is_before(self, other: TimeOfDay) -> (r: bool)
        ensures
            r == self.precedes(other),
    {
        self.secs < other.secs || (self.secs == other.secs && self.frac < other.frac)
    }
}

} // verus!
