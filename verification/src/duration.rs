//! A signed duration in nanoseconds.
use vstd::prelude::*;
use crate::duration_format::{fraction_text, push_fraction, trim_decimals, trim_decimals_exec, DurationFormatOptions};
use crate::format::{decimal_digits, push_char, push_decimal, remove_number_formatting, strip_number_formatting};
use crate::jiff_bridge::{parse_signed_duration, parsed_duration_nanos, std_duration_nanos, std_duration_nanos_of};
use crate::time_int::{temporal_i64, TimeInt};
use std::ops::RangeInclusive;

verus! {

/// `RangeInclusive::start`: the lower bound the range was made with.
pub assume_specification<Idx>[ RangeInclusive::<Idx>::start ](r: &RangeInclusive<Idx>) -> (res: &Idx)
    ensures
        *res == r@.start,
;

/// `RangeInclusive::end`: the upper bound the range was made with.
pub assume_specification<Idx>[ RangeInclusive::<Idx>::end ](r: &RangeInclusive<Idx>) -> (res: &Idx)
    ensures
        *res == r@.end,
;

/// The remainder of `n` divided by `d`, truncated towards zero as Rust's `%`
/// does: it carries the sign of `n`.
pub open spec fn trunc_rem(n: int, d: int) -> int {
    if n < 0 {
        -((-n) % d)
    } else {
        n % d
    }
}

/// The options with which durations are written in full.
pub open spec fn exact_options() -> DurationFormatOptions {
    DurationFormatOptions {
        always_sign: true,
        only_seconds: false,
        min_decimals: 0,
        max_decimals: 9,
        round_towards_zero: false,
    }
}

/// The options with which durations are written as seconds with between
/// `min` and `max` decimals.
pub open spec fn seconds_options(min: usize, max: usize) -> DurationFormatOptions {
    DurationFormatOptions {
        always_sign: true,
        only_seconds: true,
        min_decimals: min,
        max_decimals: max,
        round_towards_zero: false,
    }
}

/// A non-zero sub-second remainder `frac` (in nanoseconds) as signed
/// milliseconds with as few decimals as represent it exactly, e.g. `+12.5 ms`.
pub open spec fn relative_ms_text(frac: int) -> Seq<char> {
    let mag: nat = if frac < 0 {
        (-frac) as nat
    } else {
        frac as nat
    };
    let (f, d) = trim_decimals(mag % 1_000_000, 6, 0);
    seq![if frac < 0 { '-' } else { '+' }] + decimal_digits(mag / 1_000_000) + fraction_text(f, d) + seq![' ', 'm', 's']
}

/// A signed duration represented as nanoseconds.
#[derive(Copy, Clone, PartialOrd, Ord, PartialEq, Eq, Structural, Hash, Debug)]
pub struct Duration(i64);

impl View for Duration {
    type V = i64;

    closed spec fn view(&self) -> i64 {
        self.0
    }
}

impl Duration {
    /// The duration of `n` nanoseconds.
    pub closed spec fn from_nanos_spec(n: i64) -> Duration {
        Duration(n)
    }

    pub broadcast proof fn lemma_from_nanos_spec(n: i64)
        ensures
            #[trigger] Duration::from_nanos_spec(n)@ == n,
    {
    }

    /// The longest duration.
    pub fn max_value() -> (r: Duration)
        ensures
            r@ == i64::MAX,
    {
        Duration(i64::MAX)
    }

    pub fn from_nanos(nanos: i64) -> (r: Duration)
        ensures
            r@ == nanos,
            r == Duration::from_nanos_spec(nanos),
    {
        Duration(nanos)
    }

    pub fn as_nanos(&self) -> (r: i64)
        ensures
            r == self@,
    {
        self.0
    }

    /// Formats as seconds with a sign, e.g. `+1.5s`.
    ///
    /// The format will omit trailing sub-second zeroes as far as `subsecond_decimals` permits it.
    pub fn format_secs(self, subsecond_decimals: RangeInclusive<usize>) -> (r: String)
        ensures
            r@ == seconds_options(subsecond_decimals@.start, subsecond_decimals@.end).duration_text(
                self@ as int,
            ),
    {
        DurationFormatOptions::new().with_always_sign(true).with_only_seconds(true).with_min_decimals(
            *subsecond_decimals.start(),
        ).with_max_decimals(*subsecond_decimals.end()).format_nanos(self.as_nanos())
    }

    /// The full text of the duration, with a sign, hours, minutes and seconds
    /// down to the nanosecond, e.g. `+1h 2m 3.5s`.
    pub fn exact_format(&self) -> (r: String)
        ensures
            r@ == exact_options().duration_text(self@ as int),
    {
        DurationFormatOptions::new().with_always_sign(true).with_only_seconds(false).with_min_decimals(
            0,
        ).with_max_decimals(9).format_nanos(self.as_nanos())
    }

    /// Useful when showing dates/times on a timeline and you want it compact.
    ///
    /// When a duration is less than a second, we only show the time from the last whole second.
    pub fn format_subsecond_as_relative(self) -> (r: String)
        ensures
            r@ == (if trunc_rem(self@ as int, 1_000_000_000) == 0 {
                exact_options().duration_text(self@ as int)
            } else {
                relative_ms_text(trunc_rem(self@ as int, 1_000_000_000))
            }),
    {
        let ns = self.as_nanos();
        let wide = ns as i128;
        let frac: i64 = if wide < 0 {
            (0i128 - ((0i128 - wide) % 1_000_000_000)) as i64
        } else {
            (wide % 1_000_000_000) as i64
        };
        if frac == 0 {
            self.exact_format()
        } else {
            let mag: u64 = if frac < 0 {
                (0i64 - frac) as u64
            } else {
                frac as u64
            };
            let (f, d) = trim_decimals_exec(mag % 1_000_000, 6, 0);
            let mut out = String::new();
            push_char(&mut out, if frac < 0 { '-' } else { '+' });
            push_decimal(&mut out, mag / 1_000_000);
            push_fraction(&mut out, f, d);
            push_char(&mut out, ' ');
            push_char(&mut out, 'm');
            push_char(&mut out, 's');
            assert(out@ =~= relative_ms_text(frac as int));
            out
        }
    }

    /// The duration of `nanos` nanoseconds, cut to 64 bits as `as` does.
    pub fn from_std_nanos(nanos: u128) -> (r: Duration)
        ensures
            r@ == nanos as i64,
    {
        Duration(nanos as i64)
    }

    /// The duration of a `std::time::Duration`: its whole nanoseconds, cut to
    /// 64 bits (see [`Duration::from_std_nanos`]).
    pub fn from_std(duration: std::time::Duration) -> (r: Duration)
        ensures
            r@ == std_duration_nanos_of(duration) as i64,
    {
        Duration::from_std_nanos(std_duration_nanos(duration))
    }

    /// Parses a duration in jiff's ISO 8601 or friendly format (e.g. `+1.5s`,
    /// `2h 30m`), after removing number formatting. The nanoseconds are cut to
    /// 64 bits.
    pub fn parse(s: &str) -> (r: Result<Duration, jiff::Error>)
        ensures
            match parsed_duration_nanos(strip_number_formatting(s@)) {
                Some(n) => r matches Ok(d) && d@ == n as i64,
                None => r is Err,
            },
    {
        let cleaned = remove_number_formatting(s);
        match parse_signed_duration(cleaned.as_str()) {
            Ok(n) => Ok(Duration(n as i64)),
            Err(e) => Err(e),
        }
    }
}

impl std::ops::Neg for Duration {
    type Output = Duration;

    /// Negation without overflow: the negation of the most negative duration
    /// is the longest one.
    fn neg(self) -> (r: Duration) {
        if self.0 == i64::MIN {
            Duration(i64::MAX)
        } else {
            Duration(-self.0)
        }
    }
}

impl vstd::std_specs::ops::NegSpecImpl for Duration {
    open spec fn obeys_neg_spec() -> bool {
        true
    }

    open spec fn neg_req(self) -> bool {
        true
    }

    open spec fn neg_spec(self) -> Duration {
        Duration::from_nanos_spec(if self@ == i64::MIN { i64::MAX } else { (-self@) as i64 })
    }
}

impl From<std::time::Duration> for Duration {
    /// See [`Duration::from_std`].
    fn from(duration: std::time::Duration) -> (r: Duration) {
        Duration::from_std(duration)
    }
}

impl vstd::std_specs::convert::FromSpecImpl<std::time::Duration> for Duration {
    open spec fn obeys_from_spec() -> bool {
        true
    }

    open spec fn from_spec(duration: std::time::Duration) -> Duration {
        Duration::from_nanos_spec(std_duration_nanos_of(duration) as i64)
    }
}

impl From<Duration> for TimeInt {
    fn from(duration: Duration) -> (r: TimeInt) {
        TimeInt::saturated_temporal_i64(duration.as_nanos())
    }
}

impl vstd::std_specs::convert::FromSpecImpl<Duration> for TimeInt {
    open spec fn obeys_from_spec() -> bool {
        true
    }

    open spec fn from_spec(duration: Duration) -> TimeInt {
        TimeInt(temporal_i64(duration@))
    }
}

impl From<TimeInt> for Duration {
    fn from(time: TimeInt) -> (r: Duration) {
        Duration::from_nanos(time.as_i64())
    }
}

impl vstd::std_specs::convert::FromSpecImpl<TimeInt> for Duration {
    open spec fn obeys_from_spec() -> bool {
        true
    }

    open spec fn from_spec(time: TimeInt) -> Duration {
        Duration::from_nanos_spec(time.0)
    }
}

impl std::str::FromStr for Duration {
    type Err = jiff::Error;

    fn from_str(s: &str) -> (r: Result<Duration, jiff::Error>)
        ensures
            match parsed_duration_nanos(strip_number_formatting(s@)) {
                Some(n) => r matches Ok(d) && d@ == n as i64,
                None => r is Err,
            },
    {
        Duration::parse(s)
    }
}

} // verus!
