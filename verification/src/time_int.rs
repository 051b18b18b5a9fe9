use vstd::prelude::*;

verus! {

/// `x` clamped into the range of `i64`: what a saturating operation returns.
pub open spec fn saturate_i64(x: int) -> i64 {
    if x > i64::MAX {
        i64::MAX
    } else if x < i64::MIN {
        i64::MIN
    } else {
        x as i64
    }
}

/// Saturating addition of two `i64`.
pub(crate) fn saturating_add_i64(a: i64, b: i64) -> (r: i64)
    ensures
        r == saturate_i64(a + b),
{
    match a.checked_add(b) {
        Some(v) => v,
        None => if b > 0 { i64::MAX } else { i64::MIN },
    }
}

/// Saturating subtraction of two `i64`.
pub(crate) fn saturating_sub_i64(a: i64, b: i64) -> (r: i64)
    ensures
        r == saturate_i64(a - b),
{
    match a.checked_sub(b) {
        Some(v) => v,
        None => if b < 0 { i64::MAX } else { i64::MIN },
    }
}

/// A 64-bit number describing either nanoseconds or sequence numbers.
///
/// Must be matched with a [`TimeType`] to know what.
///
/// Used both for time points and durations.
#[derive(Clone, Copy, Debug, Default, Hash, PartialEq, Eq, Structural, PartialOrd, Ord)]
pub struct TimeInt(pub i64);

/// The smallest value a temporal [`TimeInt`] holds: one above `i64::MIN`.
pub open spec fn time_int_min() -> i64 {
    (i64::MIN + 1) as i64
}

/// The temporal value of `time`: `time` itself, except that `i64::MIN` becomes
/// one above it.
pub open spec fn temporal_i64(time: i64) -> i64 {
    if time == i64::MIN {
        time_int_min()
    } else {
        time
    }
}

impl TimeInt {
    /// The minimal temporal value a [`TimeInt`] can hold.
    ///
    /// This is _not_ `i64::MIN`.
    pub fn min_value() -> (r: TimeInt)
        ensures
            r.0 == time_int_min(),
    {
        TimeInt(-9223372036854775807i64)
    }

    /// The maximum temporal value a [`TimeInt`] can hold.
    pub fn max_value() -> (r: TimeInt)
        ensures
            r.0 == i64::MAX,
    {
        TimeInt(9223372036854775807i64)
    }

    pub fn zero() -> (r: TimeInt)
        ensures
            r.0 == 0,
    {
        TimeInt(0i64)
    }

    /// Creates a new temporal [`TimeInt`].
    ///
    /// If `time` is `i64::MIN`, this will return [`TimeInt::MIN`].
    pub fn new_temporal(time: i64) -> (r: TimeInt)
        ensures
            r.0 == temporal_i64(time),
    {
        if time == i64::MIN {
            TimeInt::min_value()
        } else {
            TimeInt(time)
        }
    }

    /// Clamp to valid non-static range.
    pub fn saturated_temporal_i64(value: i64) -> (r: TimeInt)
        ensures
            r.0 == temporal_i64(value),
    {
        TimeInt::new_temporal(value)
    }

    pub fn as_i64(self) -> (r: i64)
        ensures
            r == self.0,
    {
        self.0
    }
}

impl std::ops::Add for TimeInt {
    type Output = TimeInt;

    fn add(self, rhs: TimeInt) -> (r: TimeInt) {
        TimeInt(saturating_add_i64(self.0, rhs.0))
    }
}

impl vstd::std_specs::ops::AddSpecImpl for TimeInt {
    open spec fn obeys_add_spec() -> bool {
        true
    }

    open spec fn add_req(self, rhs: TimeInt) -> bool {
        true
    }

    open spec fn add_spec(self, rhs: TimeInt) -> TimeInt {
        TimeInt(saturate_i64(self.0 + rhs.0))
    }
}

impl std::ops::Sub for TimeInt {
    type Output = TimeInt;

    fn sub(self, rhs: TimeInt) -> (r: TimeInt) {
        TimeInt(saturating_sub_i64(self.0, rhs.0))
    }
}

impl vstd::std_specs::ops::SubSpecImpl for TimeInt {
    open spec fn obeys_sub_spec() -> bool {
        true
    }

    open spec fn sub_req(self, rhs: TimeInt) -> bool {
        true
    }

    open spec fn sub_spec(self, rhs: TimeInt) -> TimeInt {
        TimeInt(saturate_i64(self.0 - rhs.0))
    }
}

impl std::ops::Neg for TimeInt {
    type Output = TimeInt;

    fn neg(self) -> (r: TimeInt) {
        TimeInt(saturating_sub_i64(0, self.0))
    }
}

impl vstd::std_specs::ops::NegSpecImpl for TimeInt {
    open spec fn obeys_neg_spec() -> bool {
        true
    }

    open spec fn neg_req(self) -> bool {
        true
    }

    open spec fn neg_spec(self) -> TimeInt {
        TimeInt(saturate_i64(-self.0))
    }
}

impl From<i64> for TimeInt {
    fn from(value: i64) -> (r: TimeInt) {
        TimeInt(value)
    }
}

impl vstd::std_specs::convert::FromSpecImpl<i64> for TimeInt {
    open spec fn obeys_from_spec() -> bool {
        true
    }

    open spec fn from_spec(value: i64) -> TimeInt {
        TimeInt(value)
    }
}

impl From<TimeInt> for i64 {
    fn from(value: TimeInt) -> (r: i64) {
        value.0
    }
}

impl vstd::std_specs::convert::FromSpecImpl<TimeInt> for i64 {
    open spec fn obeys_from_spec() -> bool {
        true
    }

    open spec fn from_spec(value: TimeInt) -> i64 {
        value.0
    }
}

} // verus!
