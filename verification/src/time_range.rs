//! Time ranges: boundaries relative to a time cursor, and absolute ranges.
use vstd::prelude::*;
use crate::time_int::{saturate_i64, time_int_min, TimeInt};
use std::ops::RangeInclusive;

verus! {

/// Left or right boundary of a time range.
#[derive(Clone, Debug, Copy, PartialEq, Eq, Structural)]
pub enum TimeRangeBoundary {
    /// Boundary is a value relative to the time cursor.
    CursorRelative(TimeInt),
    /// Boundary is an absolute value.
    Absolute(TimeInt),
    /// The boundary extends to infinity.
    Infinite,
}

impl TimeRangeBoundary {
    /// The time of this boundary as a start boundary, at the given cursor.
    pub open spec fn start_time(self, cursor: TimeInt) -> TimeInt {
        match self {
            TimeRangeBoundary::Absolute(time) => time,
            TimeRangeBoundary::CursorRelative(time) => TimeInt(saturate_i64(cursor.0 + time.0)),
            TimeRangeBoundary::Infinite => TimeInt(time_int_min()),
        }
    }

    /// The time of this boundary as an end boundary, at the given cursor.
    pub open spec fn end_time(self, cursor: TimeInt) -> TimeInt {
        match self {
            TimeRangeBoundary::Absolute(time) => time,
            TimeRangeBoundary::CursorRelative(time) => TimeInt(saturate_i64(cursor.0 + time.0)),
            TimeRangeBoundary::Infinite => TimeInt(i64::MAX),
        }
    }

    /// Put the boundary at the current time cursor.
    pub fn at_cursor() -> (r: TimeRangeBoundary)
        ensures
            r == TimeRangeBoundary::CursorRelative(TimeInt(0)),
    {
        TimeRangeBoundary::CursorRelative(TimeInt(0))
    }

    /// Returns the time assuming this boundary is a start boundary.
    pub fn start_boundary_time(&self, cursor: TimeInt) -> (r: TimeInt)
        ensures
            r == self.start_time(cursor),
    {
        match *self {
            TimeRangeBoundary::Absolute(time) => time,
            TimeRangeBoundary::CursorRelative(time) => cursor + time,
            TimeRangeBoundary::Infinite => TimeInt::min_value(),
        }
    }

    /// Returns the correct time assuming this boundary is an end boundary.
    pub fn end_boundary_time(&self, cursor: TimeInt) -> (r: TimeInt)
        ensures
            r == self.end_time(cursor),
    {
        match *self {
            TimeRangeBoundary::Absolute(time) => time,
            TimeRangeBoundary::CursorRelative(time) => cursor + time,
            TimeRangeBoundary::Infinite => TimeInt::max_value(),
        }
    }
}

/// Time range bounds for a specific timeline.
#[derive(Clone, Debug, Copy, PartialEq, Eq, Structural)]
pub struct TimeRange {
    /// Low time boundary.
    pub start: TimeRangeBoundary,
    /// High time boundary.
    pub end: TimeRangeBoundary,
}

impl TimeRange {
    /// The range encompassing all time, from beginning to end.
    pub fn everything() -> (r: TimeRange)
        ensures
            r.start == TimeRangeBoundary::Infinite,
            r.end == TimeRangeBoundary::Infinite,
    {
        TimeRange { start: TimeRangeBoundary::Infinite, end: TimeRangeBoundary::Infinite }
    }

    /// A range of zero length exactly at the time cursor.
    ///
    /// This is *not* the same as latest-at queries and queries the state that was logged exactly at the cursor.
    /// In contrast, latest-at queries each component's latest known state.
    pub fn at_cursor() -> (r: TimeRange)
        ensures
            r.start == TimeRangeBoundary::CursorRelative(TimeInt(0)),
            r.end == TimeRangeBoundary::CursorRelative(TimeInt(0)),
    {
        TimeRange { start: TimeRangeBoundary::at_cursor(), end: TimeRangeBoundary::at_cursor() }
    }
}

/// An absolute time range using [`TimeInt`].
///
/// Can be resolved from [`TimeRange`] (which *may* have relative bounds) using a given cursor.
#[derive(Clone, Copy, Debug, PartialEq, Eq, Structural, Hash)]
pub struct AbsoluteTimeRange {
    pub min: TimeInt,
    pub max: TimeInt,
}

impl AbsoluteTimeRange {
    /// Whether `time` lies in the range, both ends included.
    pub open spec fn spec_contains(self, time: TimeInt) -> bool {
        self.min.0 <= time.0 <= self.max.0
    }

    /// The absolute range of a relative one at the given cursor: the two
    /// boundary times, the smaller one first.
    pub open spec fn resolved(range: TimeRange, cursor: TimeInt) -> AbsoluteTimeRange {
        let a = range.start.start_time(cursor);
        let b = range.end.end_time(cursor);
        if a.0 > b.0 {
            AbsoluteTimeRange { min: b, max: a }
        } else {
            AbsoluteTimeRange { min: a, max: b }
        }
    }

    /// Contains no time at all.
    pub fn empty() -> (r: AbsoluteTimeRange)
        ensures
            r.min.0 == i64::MAX,
            r.max.0 == time_int_min(),
    {
        AbsoluteTimeRange { min: TimeInt::max_value(), max: TimeInt::min_value() }
    }

    /// Contains all time.
    pub fn everything() -> (r: AbsoluteTimeRange)
        ensures
            r.min.0 == time_int_min(),
            r.max.0 == i64::MAX,
    {
        AbsoluteTimeRange { min: TimeInt::min_value(), max: TimeInt::max_value() }
    }

    /// Creates a new temporal [`AbsoluteTimeRange`].
    pub fn new(min: TimeInt, max: TimeInt) -> (r: AbsoluteTimeRange)
        ensures
            r.min == min,
            r.max == max,
    {
        AbsoluteTimeRange { min, max }
    }

    pub fn min(&self) -> (r: TimeInt)
        ensures
            r == self.min,
    {
        self.min
    }

    pub fn max(&self) -> (r: TimeInt)
        ensures
            r == self.max,
    {
        self.max
    }

    pub fn contains(&self, time: TimeInt) -> (r: bool)
        ensures
            r == self.spec_contains(time),
    {
        self.min.0 <= time.0 && time.0 <= self.max.0
    }

    /// Resolves a relative range at the given cursor; the bounds are swapped
    /// when the start lies after the end, so `min <= max` always holds.
    pub fn from_relative_time_range(range: &TimeRange, cursor: TimeInt) -> (r: AbsoluteTimeRange)
        ensures
            r == AbsoluteTimeRange::resolved(*range, cursor),
            r.min.0 <= r.max.0,
    {
        let mut min = range.start.start_boundary_time(cursor);
        let mut max = range.end.end_boundary_time(cursor);
        if min.0 > max.0 {
            std::mem::swap(&mut min, &mut max);
        }
        AbsoluteTimeRange::new(min, max)
    }

    /// The range as a `RangeInclusive` from `min` to `max`.
    pub fn to_range_inclusive(&self) -> (r: RangeInclusive<TimeInt>)
        ensures
            r@.start == self.min,
            r@.end == self.max,
            !r@.exhausted,
    {
        self.min..=self.max
    }
}

impl From<AbsoluteTimeRange> for RangeInclusive<TimeInt> {
    /// See [`AbsoluteTimeRange::to_range_inclusive`].
    fn from(range: AbsoluteTimeRange) -> (r: RangeInclusive<TimeInt>)
        ensures
            r@.start == range.min,
            r@.end == range.max,
            !r@.exhausted,
    {
        range.to_range_inclusive()
    }
}

impl vstd::std_specs::convert::FromSpecImpl<AbsoluteTimeRange> for RangeInclusive<TimeInt> {
    /// A `RangeInclusive` is stated by its view (see `from` itself), not as a value.
    open spec fn obeys_from_spec() -> bool {
        false
    }

    open spec fn from_spec(range: AbsoluteTimeRange) -> RangeInclusive<TimeInt> {
        arbitrary()
    }
}

} // verus!
