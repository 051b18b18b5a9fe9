//! Formatting of nanosecond counts as seconds (`+1.5s`) or as hours, minutes and
//! seconds (`+1h 2m 3.5s`), with a configurable number of decimals.
use vstd::prelude::*;
use crate::format::{
    decimal_digits, format_uint_text, push_char, push_decimal, push_grouped, push_zero_padded,
    zero_padded, MINUS,
};

verus! {

/// `10` to the power `k`.
pub open spec fn pow10(k: nat) -> nat
    decreases k,
{
    if k == 0 {
        1
    } else {
        10 * pow10((k - 1) as nat)
    }
}

/// `10` to the power `k`, for `k <= 9`.
pub(crate) fn pow10_exec(k: u64) -> (r: u64)
    requires
        k <= 9,
    ensures
        r == pow10(k as nat),
        1 <= r <= 1_000_000_000,
{
    proof {
        reveal_with_fuel(pow10, 10);
    }
    match k {
        0 => 1,
        1 => 10,
        2 => 100,
        3 => 1_000,
        4 => 10_000,
        5 => 100_000,
        6 => 1_000_000,
        7 => 10_000_000,
        8 => 100_000_000,
        _ => 1_000_000_000,
    }
}

/// Drops trailing zero decimals of the fraction `frac` written with `digits`
/// decimals, keeping at least `min` decimals: the resulting fraction and its
/// number of decimals.
pub open spec fn trim_decimals(frac: nat, digits: nat, min: nat) -> (nat, nat)
    decreases digits,
{
    if digits > min && frac % 10 == 0 {
        trim_decimals(frac / 10, (digits - 1) as nat, min)
    } else {
        (frac, digits)
    }
}

/// `.` followed by `frac` zero-padded to `digits` decimals; nothing when `digits` is zero.
pub open spec fn fraction_text(frac: nat, digits: nat) -> Seq<char> {
    if digits == 0 {
        seq![]
    } else {
        seq!['.'] + zero_padded(frac, digits)
    }
}

/// How to format a duration given in nanoseconds.
#[derive(Clone, Copy, Debug, PartialEq, Eq)]
pub struct DurationFormatOptions {
    /// Write `+` in front of non-negative durations.
    pub always_sign: bool,
    /// Write everything as seconds, rather than as hours, minutes and seconds.
    pub only_seconds: bool,
    /// The fewest decimals of the seconds to write.
    pub min_decimals: usize,
    /// The most decimals of the seconds to write; at most nine are used.
    pub max_decimals: usize,
    /// Round towards zero rather than to the nearest value (halves away from zero).
    pub round_towards_zero: bool,
}

impl DurationFormatOptions {
    /// The number of decimals the duration is rounded to.
    pub open spec fn rounding_decimals(self) -> nat {
        if self.max_decimals > 9 {
            9
        } else {
            self.max_decimals as nat
        }
    }

    /// The fewest decimals written.
    pub open spec fn kept_decimals(self) -> nat {
        if self.min_decimals > self.rounding_decimals() {
            self.rounding_decimals()
        } else {
            self.min_decimals as nat
        }
    }

    /// The magnitude `mag` in nanoseconds, rounded to units of
    /// `10^-rounding_decimals()` seconds.
    pub open spec fn rounded_units(self, mag: nat) -> nat {
        let unit = pow10((9 - self.rounding_decimals()) as nat);
        let q = mag / unit;
        let r = mag % unit;
        if !self.round_towards_zero && 2 * r >= unit {
            q + 1
        } else {
            q
        }
    }

    /// The sign written in front of a duration of `nanos` nanoseconds.
    pub open spec fn sign_text(self, nanos: int) -> Seq<char> {
        if nanos < 0 {
            seq![MINUS]
        } else if self.always_sign {
            seq!['+']
        } else {
            seq![]
        }
    }

    /// The whole seconds `secs`, either as such or as hours, minutes and seconds.
    pub open spec fn whole_text(self, secs: nat) -> Seq<char> {
        if self.only_seconds {
            format_uint_text(secs)
        } else {
            let hours = secs / 3600;
            let minutes = (secs / 60) % 60;
            (if hours > 0 {
                format_uint_text(hours) + seq!['h', ' ']
            } else {
                seq![]
            }) + (if hours > 0 || minutes > 0 {
                decimal_digits(minutes) + seq!['m', ' ']
            } else {
                seq![]
            }) + decimal_digits(secs % 60)
        }
    }

    /// The text of a duration of `nanos` nanoseconds.
    pub open spec fn duration_text(self, nanos: int) -> Seq<char> {
        let mag: nat = if nanos < 0 {
            (-nanos) as nat
        } else {
            nanos as nat
        };
        let units = self.rounded_units(mag);
        let scale = pow10(self.rounding_decimals());
        let (frac, digits) = trim_decimals(units % scale, self.rounding_decimals(), self.kept_decimals());
        self.sign_text(nanos) + self.whole_text(units / scale) + fraction_text(frac, digits) + seq!['s']
    }

    /// No sign for non-negative durations, only seconds, between zero and nine decimals,
    /// rounded to the nearest value.
    pub fn new() -> (r: DurationFormatOptions)
        ensures
            !r.always_sign,
            r.only_seconds,
            r.min_decimals == 0,
            r.max_decimals == 9,
            !r.round_towards_zero,
    {
        DurationFormatOptions {
            always_sign: false,
            only_seconds: true,
            min_decimals: 0,
            max_decimals: 9,
            round_towards_zero: false,
        }
    }

    pub fn with_always_sign(self, always_sign: bool) -> (r: DurationFormatOptions)
        ensures
            r == (DurationFormatOptions { always_sign, ..self }),
    {
        DurationFormatOptions { always_sign, ..self }
    }

    pub fn with_only_seconds(self, only_seconds: bool) -> (r: DurationFormatOptions)
        ensures
            r == (DurationFormatOptions { only_seconds, ..self }),
    {
        DurationFormatOptions { only_seconds, ..self }
    }

    pub fn with_min_decimals(self, min_decimals: usize) -> (r: DurationFormatOptions)
        ensures
            r == (DurationFormatOptions { min_decimals, ..self }),
    {
        DurationFormatOptions { min_decimals, ..self }
    }

    pub fn with_max_decimals(self, max_decimals: usize) -> (r: DurationFormatOptions)
        ensures
            r == (DurationFormatOptions { max_decimals, ..self }),
    {
        DurationFormatOptions { max_decimals, ..self }
    }

    /// Round towards zero instead of to the nearest value.
    pub fn round_towards_zero(self) -> (r: DurationFormatOptions)
        ensures
            r == (DurationFormatOptions { round_towards_zero: true, ..self }),
    {
        DurationFormatOptions { round_towards_zero: true, ..self }
    }

    /// `rounded_units` of a magnitude that fits in `u64`.
    fn rounded_units_exec(&self, mag: u64) -> (r: u64)
        requires
            mag <= 0x8000_0000_0000_0000u64,
        ensures
            r == self.rounded_units(mag as nat),
    {
        let rounding: u64 = if self.max_decimals > 9 {
            9
        } else {
            self.max_decimals as u64
        };
        let unit = pow10_exec(9 - rounding);
        let q = mag / unit;
        let rem = mag % unit;
        proof {
            vstd::arithmetic::div_mod::lemma_fundamental_div_mod(mag as int, unit as int);
            vstd::arithmetic::div_mod::lemma_mod_pos_bound(mag as int, unit as int);
            vstd::arithmetic::div_mod::lemma_div_is_ordered_by_denominator(mag as int, 1, unit as int);
            assert(mag as int / 1 == mag as int);
        }
        if !self.round_towards_zero && 2 * rem >= unit {
            q + 1
        } else {
            q
        }
    }

    /// Appends the whole seconds, as seconds or as hours, minutes and seconds.
    fn push_whole(&self, out: &mut String, secs: u64)
        ensures
            final(out)@ == old(out)@ + self.whole_text(secs as nat),
    {
        if self.only_seconds {
            push_grouped(out, secs);
        } else {
            let hours = secs / 3600;
            let minutes = (secs / 60) % 60;
            if hours > 0 {
                push_grouped(out, hours);
                push_char(out, 'h');
                push_char(out, ' ');
            }
            if hours > 0 || minutes > 0 {
                push_decimal(out, minutes);
                push_char(out, 'm');
                push_char(out, ' ');
            }
            push_decimal(out, secs % 60);
            assert(out@ =~= old(out)@ + self.whole_text(secs as nat));
        }
    }

    /// Formats a duration of `nanos` nanoseconds.
    pub fn format_nanos(&self, nanos: i64) -> (r: String)
        ensures
            r@ == self.duration_text(nanos as int),
    {
        let mag: u64 = if nanos < 0 {
            (0i128 - nanos as i128) as u64
        } else {
            nanos as u64
        };
        let rounding: u64 = if self.max_decimals > 9 {
            9
        } else {
            self.max_decimals as u64
        };
        let kept: u64 = if self.min_decimals as u64 > rounding {
            rounding
        } else {
            self.min_decimals as u64
        };
        let units = self.rounded_units_exec(mag);
        let scale = pow10_exec(rounding);
        let (frac, digits) = trim_decimals_exec(units % scale, rounding, kept);
        let mut out = String::new();
        if nanos < 0 {
            push_char(&mut out, MINUS);
        } else if self.always_sign {
            push_char(&mut out, '+');
        }
        self.push_whole(&mut out, units / scale);
        push_fraction(&mut out, frac, digits);
        push_char(&mut out, 's');
        assert(out@ =~= self.duration_text(nanos as int));
        out
    }
}

/// `trim_decimals` on machine integers.
pub(crate) fn trim_decimals_exec(frac: u64, digits: u64, min: u64) -> (r: (u64, u64))
    ensures
        (r.0 as nat, r.1 as nat) == trim_decimals(frac as nat, digits as nat, min as nat),
{
    let mut f = frac;
    let mut d = digits;
    while d > min && f % 10 == 0
        invariant
            trim_decimals(f as nat, d as nat, min as nat) == trim_decimals(
                frac as nat,
                digits as nat,
                min as nat,
            ),
        decreases d,
    {
        f = f / 10;
        d = d - 1;
    }
    (f, d)
}

/// Appends `fraction_text(frac, digits)`.
pub(crate) fn push_fraction(out: &mut String, frac: u64, digits: u64)
    ensures
        final(out)@ == old(out)@ + fraction_text(frac as nat, digits as nat),
{
    if digits > 0 {
        push_char(out, '.');
        push_zero_padded(out, frac, digits);
    }
    assert(out@ =~= old(out)@ + fraction_text(frac as nat, digits as nat));
}

impl Default for DurationFormatOptions {
    fn default() -> (r: DurationFormatOptions)
        ensures
            !r.always_sign,
            r.only_seconds,
            r.min_decimals == 0,
            r.max_decimals == 9,
            !r.round_towards_zero,
    {
        DurationFormatOptions::new()
    }
}

} // verus!
