//! The interval log: what is recorded and persisted.

use crate::clock;
use crate::time::{Duration, Timestamp};
use vstd::prelude::*;

verus! {

/// The two mutually exclusive classifications of a span of time.
#[derive(Debug, Clone, Copy, PartialEq, Eq, Structural)]
pub enum IntervalType {
    Focus,
    Idle,
}

/// A span of time with a single classification.
#[derive(Debug, Clone, Copy, PartialEq, Eq, Structural)]
pub struct Interval {
    pub start: Timestamp,
    pub end: Timestamp,
    pub kind: IntervalType,
}

impl Interval {
    /// The zero-length interval of `kind` at `at`.
    pub open spec fn starting(kind: IntervalType, at: Timestamp) -> Interval {
        Interval { start: at, end: at, kind }
    }

    /// Whether the interval does not end before it starts.
    pub open spec fn is_valid(self) -> bool {
        self.start@ <= self.end@
    }

    /// The length of the interval in nanoseconds; negative when it is not
    /// valid.
    pub open spec fn span(self) -> int {
        self.end@ - self.start@
    }

    /// A zero-length interval of `kind` at the current time, whatever the
    /// clock reads: it reads no time before 1970.
    pub fn new(kind: IntervalType) -> (iv: Interval)
        ensures
            iv.kind == kind,
            iv.start == iv.end,
            iv.start@ >= 0,
    {
        let now = clock::now();
        Interval { start: now, end: now, kind }
    }

    /// The zero-length interval of `kind` at `now`.
    pub fn new_at(kind: IntervalType, now: Timestamp) -> (iv: Interval)
        ensures
            iv == Interval::starting(kind, now),
    {
        Interval { start: now, end: now, kind }
    }

    /// The length of the interval; negative when it is not valid.
    pub fn duration(&self) -> (d: Duration)
        ensures
            d@ == self.span(),
    {
        self.end.duration_since(self.start)
    }
}

/// The persisted log: intervals in the order in which they were recorded.
#[derive(Debug, Clone)]
pub struct Database {
    pub intervals: Vec<Interval>,
}

impl View for Database {
    type V = Seq<Interval>;

    open spec fn view(&self) -> Seq<Interval> {
        self.intervals@
    }
}

impl Default for Database {
    fn default() -> (db: Database)
        ensures
            db@ == Seq::<Interval>::empty(),
    {
        Database { intervals: Vec::new() }
    }
}

} // verus!
