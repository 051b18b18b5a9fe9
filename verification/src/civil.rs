//! Civil (wall-clock) date and time fields, and the texts written from them.
use vstd::prelude::*;
use crate::format::zero_padded;

verus! {

/// A wall-clock date and time, as read in some time zone.
#[derive(Clone, Copy, Debug, PartialEq, Eq, Structural)]
pub struct CivilDateTime {
    pub year: i16,
    pub month: i8,
    pub day: i8,
    pub hour: i8,
    pub minute: i8,
    pub second: i8,
    pub subsec_nanosecond: i32,
}

/// Whether `year` is a leap year of the proleptic Gregorian calendar.
pub open spec fn is_leap_year(year: int) -> bool {
    (year % 4 == 0 && year % 100 != 0) || year % 400 == 0
}

/// The number of days of `month` in `year`.
pub open spec fn days_in_month(year: int, month: int) -> int {
    if month == 2 {
        if is_leap_year(year) {
            29
        } else {
            28
        }
    } else if month == 4 || month == 6 || month == 9 || month == 11 {
        30
    } else {
        31
    }
}

impl CivilDateTime {
    /// Every field is in range and the day exists in its month.
    pub open spec fn wf(self) -> bool {
        &&& -9999 <= self.year <= 9999
        &&& 1 <= self.month <= 12
        &&& 1 <= self.day <= days_in_month(self.year as int, self.month as int)
        &&& 0 <= self.hour <= 23
        &&& 0 <= self.minute <= 59
        &&& 0 <= self.second <= 59
        &&& 0 <= self.subsec_nanosecond <= 999_999_999
    }

    /// Whether two values fall on the same calendar date.
    pub open spec fn same_date(self, other: CivilDateTime) -> bool {
        self.year == other.year && self.month == other.month && self.day == other.day
    }

    /// Whether this is exactly midnight: `00:00:00.000000000`.
    pub open spec fn is_midnight(self) -> bool {
        self.hour == 0 && self.minute == 0 && self.second == 0 && self.subsec_nanosecond == 0
    }

    /// Whether `self` and `other` fall on the same calendar date.
    pub fn is_same_date(&self, other: &CivilDateTime) -> (r: bool)
        ensures
            r == self.same_date(*other),
    {
        self.year == other.year && self.month == other.month && self.day == other.day
    }

    /// Whether this is exactly midnight.
    pub fn is_exact_midnight(&self) -> (r: bool)
        ensures
            r == self.is_midnight(),
    {
        self.hour == 0 && self.minute == 0 && self.second == 0 && self.subsec_nanosecond == 0
    }
}

/// The conversion characters understood in a format pattern.
pub open spec fn is_directive(d: char) -> bool {
    d == 'Y' || d == 'm' || d == 'd' || d == 'H' || d == 'M' || d == 'S'
}

/// Every `%` in the pattern starts one of the understood conversions.
pub open spec fn pattern_supported(p: Seq<char>) -> bool {
    forall|i: int| 0 <= i < p.len() && #[trigger] p[i] == '%' ==> i + 1 < p.len() && is_directive(p[i + 1])
}

/// The text of one conversion: the field, zero-padded to four digits for the
/// year (a negative year is `-` and its magnitude on three digits at least) and
/// to two digits otherwise.
pub open spec fn directive_text(d: char, c: CivilDateTime) -> Seq<char> {
    if d == 'Y' {
        if c.year < 0 {
            seq!['-'] + zero_padded((-c.year) as nat, 3)
        } else {
            zero_padded(c.year as nat, 4)
        }
    } else if d == 'm' {
        zero_padded(c.month as nat, 2)
    } else if d == 'd' {
        zero_padded(c.day as nat, 2)
    } else if d == 'H' {
        zero_padded(c.hour as nat, 2)
    } else if d == 'M' {
        zero_padded(c.minute as nat, 2)
    } else {
        zero_padded(c.second as nat, 2)
    }
}

/// The pattern with every conversion replaced by its field and every other
/// character kept.
pub open spec fn strftime_text(p: Seq<char>, c: CivilDateTime) -> Seq<char>
    decreases p.len(),
{
    if p.len() == 0 {
        seq![]
    } else if p[0] == '%' && p.len() >= 2 {
        directive_text(p[1], c) + strftime_text(p.skip(2), c)
    } else {
        seq![p[0]] + strftime_text(p.drop_first(), c)
    }
}

/// Whether `c` is an ASCII decimal digit.
pub open spec fn is_ascii_digit(c: char) -> bool {
    '0' <= c && c <= '9'
}

/// Whether `t` begins the way every text that jiff's RFC 3339 / RFC 9557
/// parser accepts begins: a year of four digits (or a sign and six digits),
/// then month and day of two digits each, with `-` between all three or
/// between none; and where a `T`, `t` or space follows the date, two digits
/// of the hour after it.
pub open spec fn temporal_shape(t: Seq<char>) -> bool {
    let signed = t.len() > 0 && (t[0] == '+' || t[0] == '-');
    let y: int = if signed { 7 } else { 4 };
    let extended = t.len() > y && t[y] == '-';
    let d: int = if extended { y + 6 } else { y + 4 };
    &&& t.len() >= d
    &&& forall|i: int| (if signed { 1int } else { 0int }) <= i < y ==> #[trigger] is_ascii_digit(t[i])
    &&& if extended {
        &&& t[y + 3] == '-'
        &&& is_ascii_digit(t[y + 1]) && is_ascii_digit(t[y + 2])
        &&& is_ascii_digit(t[y + 4]) && is_ascii_digit(t[y + 5])
    } else {
        &&& is_ascii_digit(t[y]) && is_ascii_digit(t[y + 1])
        &&& is_ascii_digit(t[y + 2]) && is_ascii_digit(t[y + 3])
    }
    &&& (t.len() > d && (t[d] == 'T' || t[d] == 't' || t[d] == ' ')) ==> (t.len() >= d + 3
        && is_ascii_digit(t[d + 1]) && is_ascii_digit(t[d + 2]))
}

/// The index just after the date at the start of `t` (see [`temporal_shape`]).
pub open spec fn date_end(t: Seq<char>) -> int {
    let signed = t.len() > 0 && (t[0] == '+' || t[0] == '-');
    let y: int = if signed { 7 } else { 4 };
    if t.len() > y && t[y] == '-' { y + 6 } else { y + 4 }
}

/// Whether `t` holds a UTC offset after its date: a `Z`, `z`, `+` or `-`.
pub open spec fn has_offset_after_date(t: Seq<char>) -> bool {
    exists|i: int|
        date_end(t) <= i < t.len() && (#[trigger] t[i] == 'Z' || t[i] == 'z' || t[i] == '+' || t[i]
            == '-')
}

/// Whether `t` holds a bracketed annotation, as a time zone annotation is.
pub open spec fn has_bracket(t: Seq<char>) -> bool {
    exists|i: int| 0 <= i < t.len() && #[trigger] t[i] == '['
}

/// The text of a UTC offset of `secs` seconds: `+00` for zero, otherwise a sign,
/// two-digit hours, and minutes and seconds where they are not zero.
pub open spec fn offset_text(secs: int) -> Seq<char> {
    let a: nat = if secs < 0 {
        (-secs) as nat
    } else {
        secs as nat
    };
    let h = a / 3600;
    let m = (a / 60) % 60;
    let s = a % 60;
    let sign = if secs < 0 {
        '-'
    } else {
        '+'
    };
    if h == 0 && m == 0 && s == 0 {
        seq!['+', '0', '0']
    } else if h != 0 && m == 0 && s == 0 {
        seq![sign] + zero_padded(h, 2)
    } else if m != 0 && s == 0 {
        seq![sign] + zero_padded(h, 2) + seq![':'] + zero_padded(m, 2)
    } else {
        seq![sign] + zero_padded(h, 2) + seq![':'] + zero_padded(m, 2) + seq![':'] + zero_padded(
            s,
            2,
        )
    }
}

} // verus!
