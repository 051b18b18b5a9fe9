//! The library's laws: properties that span functions or hold of every input.
use vstd::prelude::*;
use crate::duration::Duration;
use crate::duration_format::{fraction_text, pow10, trim_decimals};
use crate::duration::{exact_options, relative_ms_text};
use crate::civil::is_ascii_digit;
use crate::time_int::{temporal_i64, time_int_min, TimeInt};
use crate::time_range::{AbsoluteTimeRange, TimeRange, TimeRangeBoundary};
use crate::timestamp::{
    clock_text, compact_clock_text, date_text, has_prefix, on_today, timestamp_text_given, parse_result_possible, retry_taken, retry_text, round_result, step_readings_possible,
    timestamp_text_possible, with_date, Timestamp,
};
use crate::time_type::TimeType;
use crate::timestamp_format::{TimestampFormat, TimestampFormatKind};
use crate::civil::{offset_text, strftime_text, temporal_shape, CivilDateTime};
use crate::jiff_bridge::{parsed_timestamp_nanos, utc_civil};
use vstd::std_specs::convert::FromSpec;
use vstd::std_specs::ops::{AddSpec, NegSpec, SubSpec};
use crate::format::{
    decimal_digits, digit_char, format_int_text, format_uint_text, plain_int_text,
    strip_number_formatting, zero_padded, MINUS, THIN_SPACE,
};

verus! {

/// Removing number formatting distributes over concatenation.
pub proof fn lemma_strip_concat(a: Seq<char>, b: Seq<char>)
    ensures
        strip_number_formatting(a + b) == strip_number_formatting(a) + strip_number_formatting(b),
    decreases b.len(),
{
    if b.len() == 0 {
        assert(a + b =~= a);
        assert(strip_number_formatting(a) + strip_number_formatting(b) =~= strip_number_formatting(a));
    } else {
        lemma_strip_concat(a, b.drop_last());
        assert((a + b).drop_last() =~= a + b.drop_last());
        assert((a + b).last() == b.last());
        let sa = strip_number_formatting(a);
        let sb = strip_number_formatting(b.drop_last());
        let c = b.last();
        if c == THIN_SPACE {
        } else if c == MINUS {
            assert((sa + sb).push('-') =~= sa + sb.push('-'));
        } else {
            assert((sa + sb).push(c) =~= sa + sb.push(c));
        }
    }
}

/// Text without thin spaces or typographic minus signs.
pub open spec fn plain_chars(s: Seq<char>) -> bool {
    forall|i: int| 0 <= i < s.len() ==> #[trigger] s[i] != THIN_SPACE && s[i] != MINUS
}

/// Removing number formatting leaves plain text unchanged.
pub proof fn lemma_strip_plain(s: Seq<char>)
    requires
        plain_chars(s),
    ensures
        strip_number_formatting(s) == s,
    decreases s.len(),
{
    if s.len() > 0 {
        assert(plain_chars(s.drop_last()));
        lemma_strip_plain(s.drop_last());
        assert(s.last() == s[s.len() - 1]);
        assert(s.drop_last().push(s.last()) =~= s);
    }
}

proof fn lemma_digit_char_plain(d: nat)
    requires
        d < 10,
    ensures
        digit_char(d) != THIN_SPACE,
        digit_char(d) != MINUS,
{
    assert(digit_char(d) == (d + 48) as char);
}

proof fn lemma_decimal_digits_plain(n: nat)
    ensures
        plain_chars(decimal_digits(n)),
    decreases n,
{
    lemma_digit_char_plain(n % 10);
    if n >= 10 {
        lemma_decimal_digits_plain(n / 10);
    }
}

proof fn lemma_zero_padded_plain(n: nat, w: nat)
    ensures
        plain_chars(zero_padded(n, w)),
{
    lemma_decimal_digits_plain(n);
}

/// The decimal digits of `n * 1000 + m`, for a positive `n` and `m < 1000`:
/// those of `n`, then `m` on three digits.
proof fn lemma_digits_thousands(n: nat, m: nat)
    requires
        n >= 1,
        m < 1000,
    ensures
        decimal_digits(n * 1000 + m) == decimal_digits(n) + zero_padded(m, 3),
{
    let x = n * 1000 + m;
    assert(x / 10 == n * 100 + m / 10 && x % 10 == m % 10);
    assert((n * 100 + m / 10) / 10 == n * 10 + m / 100 && (n * 100 + m / 10) % 10 == (m / 10) % 10);
    assert((n * 10 + m / 100) / 10 == n && (n * 10 + m / 100) % 10 == m / 100);
    let three = seq![digit_char(m / 100), digit_char((m / 10) % 10), digit_char(m % 10)];
    assert(decimal_digits(x) =~= decimal_digits(n) + three) by {
        reveal_with_fuel(decimal_digits, 4);
    }
    if m < 10 {
        assert(decimal_digits(m) =~= seq![digit_char(m)]);
        assert(zero_padded(m, 3) =~= three);
    } else if m < 100 {
        assert(decimal_digits(m) =~= seq![digit_char(m / 10), digit_char(m % 10)]) by {
            reveal_with_fuel(decimal_digits, 2);
        }
        assert(zero_padded(m, 3) =~= three);
    } else {
        assert(decimal_digits(m) =~= three) by {
            reveal_with_fuel(decimal_digits, 3);
        }
    }
}

/// Law: removing the number formatting of a formatted unsigned integer gives
/// back its plain decimal digits.
pub proof fn law_strip_format_uint(n: nat)
    ensures
        strip_number_formatting(format_uint_text(n)) == decimal_digits(n),
    decreases n,
{
    if n < 1000 {
        lemma_decimal_digits_plain(n);
        lemma_strip_plain(decimal_digits(n));
    } else {
        law_strip_format_uint(n / 1000);
        let head = format_uint_text(n / 1000);
        let tail = zero_padded(n % 1000, 3);
        lemma_strip_concat(head + seq![THIN_SPACE], tail);
        lemma_strip_concat(head, seq![THIN_SPACE]);
        assert(strip_number_formatting(seq![THIN_SPACE]) =~= Seq::<char>::empty()) by {
            reveal_with_fuel(strip_number_formatting, 2);
            assert(seq![THIN_SPACE].drop_last() =~= Seq::<char>::empty());
        }
        lemma_zero_padded_plain(n % 1000, 3);
        lemma_strip_plain(tail);
        lemma_digits_thousands(n / 1000, n % 1000);
        assert(decimal_digits(n / 1000) + Seq::<char>::empty() =~= decimal_digits(n / 1000));
    }
}

/// Law: removing the number formatting of a formatted integer gives back its
/// plain decimal text, with an ASCII `-` for negative numbers: formatted
/// numbers can be copy-pasted and parsed.
pub proof fn law_strip_format_int(n: int)
    ensures
        strip_number_formatting(format_int_text(n)) == plain_int_text(n),
{
    if n < 0 {
        law_strip_format_uint((-n) as nat);
        lemma_strip_concat(seq![MINUS], format_uint_text((-n) as nat));
        assert(strip_number_formatting(seq![MINUS]) =~= seq!['-']) by {
            reveal_with_fuel(strip_number_formatting, 2);
            assert(seq![MINUS].drop_last() =~= Seq::<char>::empty());
        }
    } else {
        law_strip_format_uint(n as nat);
    }
}

/// Law: saturating addition of time values is commutative.
pub proof fn law_time_int_add_commutative(a: TimeInt, b: TimeInt)
    ensures
        a.add_spec(b) == b.add_spec(a),
{
}

/// Law: subtracting what was added gives back the start, as long as the sum
/// did not saturate.
pub proof fn law_time_int_add_sub(a: TimeInt, b: TimeInt)
    requires
        i64::MIN <= a.0 + b.0 <= i64::MAX,
    ensures
        a.add_spec(b).sub_spec(b) == a,
{
}

/// Law: negating twice gives back the value, for every value but `i64::MIN`
/// (whose negation saturates to `i64::MAX`).
pub proof fn law_time_int_neg_neg(a: TimeInt)
    requires
        a.0 != i64::MIN,
    ensures
        a.neg_spec().neg_spec() == a,
{
}

/// Law: a temporal value is never `i64::MIN`, and making a temporal value of a
/// temporal value changes nothing.
pub proof fn law_new_temporal_idempotent(time: i64)
    ensures
        temporal_i64(time) != i64::MIN,
        temporal_i64(temporal_i64(time)) == temporal_i64(time),
{
}

/// Law: negating a duration twice gives it back, for every duration but the
/// most negative one.
pub proof fn law_duration_neg_neg(d: Duration)
    requires
        d@ != i64::MIN,
    ensures
        d.neg_spec().neg_spec()@ == d@,
{
    broadcast use Duration::lemma_from_nanos_spec;
}

/// Law: a duration turned into a time value and back is unchanged, for every
/// duration but the most negative one (time values stop one above it).
pub proof fn law_duration_time_int_round_trip(d: Duration)
    requires
        d@ != i64::MIN,
    ensures
        <Duration as FromSpec<TimeInt>>::from_spec(<TimeInt as FromSpec<Duration>>::from_spec(d))@ == d@,
{
    broadcast use Duration::lemma_from_nanos_spec;
}

/// Law: a timestamp turned into a time value and back is unchanged, for every
/// timestamp but the earliest one.
pub proof fn law_timestamp_time_int_round_trip(t: Timestamp)
    requires
        t@ != i64::MIN,
    ensures
        <Timestamp as FromSpec<TimeInt>>::from_spec(<TimeInt as FromSpec<Timestamp>>::from_spec(t))@ == t@,
{
    broadcast use Timestamp::lemma_from_nanos_spec;
}

/// Law: adding the difference of two timestamps to the earlier one gives the
/// later one, as long as the difference did not saturate.
pub proof fn law_timestamp_sub_add(t: Timestamp, u: Timestamp)
    requires
        i64::MIN <= u@ - t@ <= i64::MAX,
    ensures
        t.add_spec(u.sub_spec(t))@ == u@,
{
    broadcast use {Timestamp::lemma_from_nanos_spec, Duration::lemma_from_nanos_spec};
}

/// Law: moving a timestamp by a duration and back gives it back, as long as
/// the move did not saturate.
pub proof fn law_timestamp_add_sub_duration(t: Timestamp, d: Duration)
    requires
        i64::MIN <= t@ + d@ <= i64::MAX,
    ensures
        t.add_spec(d).sub_spec(d)@ == t@,
{
    broadcast use Timestamp::lemma_from_nanos_spec;
}

/// Law: the range of everything resolves to all time at every cursor.
pub proof fn law_everything_resolves_to_everything(cursor: TimeInt)
    ensures
        AbsoluteTimeRange::resolved(
            TimeRange { start: TimeRangeBoundary::Infinite, end: TimeRangeBoundary::Infinite },
            cursor,
        ) == (AbsoluteTimeRange { min: TimeInt(time_int_min()), max: TimeInt(i64::MAX) }),
{
}

/// Law: the range at the cursor resolves to the single time of the cursor.
pub proof fn law_at_cursor_resolves_to_cursor(cursor: TimeInt)
    ensures
        AbsoluteTimeRange::resolved(
            TimeRange {
                start: TimeRangeBoundary::CursorRelative(TimeInt(0)),
                end: TimeRangeBoundary::CursorRelative(TimeInt(0)),
            },
            cursor,
        ) == (AbsoluteTimeRange { min: cursor, max: cursor }),
{
}

/// Law: every resolved range has its minimum at or before its maximum, and
/// contains the time of each of its two boundaries.
pub proof fn law_resolved_range_ordered(range: TimeRange, cursor: TimeInt)
    ensures
        AbsoluteTimeRange::resolved(range, cursor).min.0 <= AbsoluteTimeRange::resolved(range, cursor).max.0,
        AbsoluteTimeRange::resolved(range, cursor).spec_contains(range.start.start_time(cursor)),
        AbsoluteTimeRange::resolved(range, cursor).spec_contains(range.end.end_time(cursor)),
{
}

/// Law: the empty range contains no time at all.
pub proof fn law_empty_contains_nothing(time: TimeInt)
    ensures
        !(AbsoluteTimeRange { min: TimeInt(i64::MAX), max: TimeInt(time_int_min()) }).spec_contains(time),
{
}

/// Law: the range of everything contains every temporal time value.
pub proof fn law_everything_contains_all(time: TimeInt)
    requires
        time.0 != i64::MIN,
    ensures
        (AbsoluteTimeRange { min: TimeInt(time_int_min()), max: TimeInt(i64::MAX) }).spec_contains(time),
{
}

/// Law: trailing sub-second zeroes are dropped as far as the least number of
/// decimals permits: the kept number of decimals lies between the least and
/// the given number, the value is unchanged, and a kept last decimal above the
/// least is not zero.
pub proof fn law_trim_decimals(frac: nat, digits: nat, min: nat)
    requires
        min <= digits,
    ensures
        min <= trim_decimals(frac, digits, min).1 <= digits,
        trim_decimals(frac, digits, min).0 * pow10((digits - trim_decimals(frac, digits, min).1) as nat)
            == frac,
        trim_decimals(frac, digits, min).1 > min ==> trim_decimals(frac, digits, min).0 % 10 != 0,
    decreases digits,
{
    if digits > min && frac % 10 == 0 {
        law_trim_decimals(frac / 10, (digits - 1) as nat, min);
        let (f, d) = trim_decimals(frac / 10, (digits - 1) as nat, min);
        assert(pow10((digits - d) as nat) == 10 * pow10((digits - 1 - d) as nat));
        let p = pow10((digits - 1 - d) as nat);
        assert(f * (10 * p) == (f * p) * 10) by (nonlinear_arith);
        assert(f * p == frac / 10);
        assert(frac == (frac / 10) * 10);
        assert(trim_decimals(frac, digits, min) == (f, d));
        assert(f * pow10((digits - d) as nat) == frac);
    } else {
        assert(pow10(0) == 1);
        assert(trim_decimals(frac, digits, min) == (frac, digits));
        assert(frac * pow10(0) == frac);
    }
}

/// Law: the implicit local time zone format writes what the explicit one
/// writes, without the zone offset at the end: for the same reading of the
/// clock and the same offset, and the same choices of hiding today's date and
/// of the short form, the explicit text is the implicit text followed by the
/// offset (nothing in the short form, which writes no offset).
pub proof fn law_local_vs_implicit(
    explicit: TimestampFormat,
    implicit: TimestampFormat,
    zoned: CivilDateTime,
    is_today: bool,
    offset_seconds: int,
    min: usize,
    max: usize,
)
    requires
        explicit.kind_spec() == TimestampFormatKind::LocalTimezone,
        implicit.kind_spec() == TimestampFormatKind::LocalTimezoneImplicit,
        explicit.hides_today_date() == implicit.hides_today_date(),
        explicit.is_short() == implicit.is_short(),
    ensures
        clock_text(explicit, zoned, is_today, offset_seconds, min, max) == clock_text(
            implicit,
            zoned,
            is_today,
            offset_seconds,
            min,
            max,
        ) + (if explicit.is_short() {
            seq![]
        } else {
            offset_text(offset_seconds)
        }),
{
    let a = clock_text(implicit, zoned, is_today, offset_seconds, min, max);
    assert(a + seq![] =~= a);
}

/// Law: a text that jiff reads as the timestamp `t` parses as `t` whatever the
/// format and whatever the clock and the time zone read, since a timestamp with
/// an offset is tried first. With [`Timestamp::format_iso`], whose text jiff
/// reads back, this is the round trip from printing to parsing.
pub proof fn law_parse_reads_timestamp(
    cleaned: Seq<char>,
    t: Timestamp,
    timestamp_format: TimestampFormat,
    seconds: Option<Timestamp>,
    today: Option<CivilDateTime>,
    r: Option<Timestamp>,
)
    ensures
        parsed_timestamp_nanos(cleaned) == Some(t@ as int) && parse_result_possible(
            cleaned,
            timestamp_format,
            seconds,
            today,
            r,
        ) ==> r == Some(t),
{
    broadcast use Timestamp::lemma_from_nanos_spec;

    if parsed_timestamp_nanos(cleaned) == Some(t@ as int) && parse_result_possible(
        cleaned,
        timestamp_format,
        seconds,
        today,
        r,
    ) {
        let (z, ci, z2, ci2) = choose|
            zoned: Option<int>,
            civil_instant: Option<int>,
            zoned2: Option<int>,
            civil_instant2: Option<int>,
        |
            r == #[trigger] round_result(
                cleaned,
                timestamp_format,
                seconds,
                today,
                zoned,
                civil_instant,
                zoned2,
                civil_instant2,
            );
        assert(r == round_result(cleaned, timestamp_format, seconds, today, z, ci, z2, ci2));
        Timestamp::lemma_from_view(t);
        assert(((t@ as int) as i64) == t@);
    }
}

/// Law: a timestamp value other than the two extremes is written by
/// [`TimeType::format_opt`] exactly as [`Timestamp::format_opt`] writes the
/// timestamp of that value: the two admit the same texts, for every format and
/// number of decimals.
pub proof fn law_timestamp_type_writes_timestamp(
    time_int: TimeInt,
    timestamp_format: TimestampFormat,
    min: usize,
    max: usize,
    text: Seq<char>,
)
    requires
        time_int.0 != time_int_min(),
        time_int.0 != i64::MAX,
    ensures
        TimeType::TimestampNs.time_text_possible(time_int, timestamp_format, min, max, text)
            <==> timestamp_text_possible(
            Timestamp::from_nanos_spec(time_int.0),
            timestamp_format,
            min,
            max,
            text,
        ),
{
    if timestamp_text_possible(Timestamp::from_nanos_spec(time_int.0), timestamp_format, min, max, text) {
        assert(text == TimeType::TimestampNs.time_text(time_int, min, max, text));
    }
}

/// The value of a text of decimal digits, most significant first.
pub open spec fn digits_value(s: Seq<char>) -> int
    decreases s.len(),
{
    if s.len() == 0 {
        0
    } else {
        digits_value(s.drop_last()) * 10 + (s.last() as int - 48)
    }
}

proof fn lemma_digits_value(n: nat)
    ensures
        digits_value(decimal_digits(n)) == n,
    decreases n,
{
    if n < 10 {
        assert(decimal_digits(n) =~= seq![digit_char(n)]);
        assert(seq![digit_char(n)].drop_last() =~= Seq::<char>::empty());
        assert(digit_char(n) as int == n + 48);
        assert(digits_value(seq![digit_char(n)]) == digits_value(Seq::<char>::empty()) * 10 + (
        digit_char(n) as int - 48));
    } else {
        lemma_digits_value(n / 10);
        let s = decimal_digits(n);
        assert(s.drop_last() =~= decimal_digits(n / 10));
        assert(s.last() == digit_char(n % 10));
        assert(digit_char(n % 10) as int == n % 10 + 48);
        assert((n / 10) * 10 + n % 10 == n);
    }
}

proof fn lemma_zeros_value(k: nat, s: Seq<char>)
    ensures
        digits_value(Seq::new(k, |i: int| '0') + s) == digits_value(s),
    decreases k + s.len(),
{
    let z = Seq::new(k, |i: int| '0');
    if s.len() == 0 {
        assert(z + s =~= z);
        if k > 0 {
            lemma_zeros_value((k - 1) as nat, s);
            assert(z.drop_last() =~= Seq::new((k - 1) as nat, |i: int| '0') + s);
        }
    } else {
        lemma_zeros_value(k, s.drop_last());
        assert((z + s).drop_last() =~= z + s.drop_last());
    }
}

proof fn lemma_zero_padded_value(n: nat, w: nat)
    ensures
        digits_value(zero_padded(n, w)) == n,
{
    lemma_digits_value(n);
    let s = decimal_digits(n);
    if s.len() < w {
        lemma_zeros_value((w - s.len()) as nat, s);
    }
}

/// Equal decimal texts stand for equal numbers.
proof fn lemma_decimal_digits_injective(a: nat, b: nat)
    requires
        decimal_digits(a) == decimal_digits(b),
    ensures
        a == b,
{
    lemma_digits_value(a);
    lemma_digits_value(b);
}

proof fn lemma_pow10_positive(k: nat)
    ensures
        pow10(k) >= 1,
    decreases k,
{
    if k > 0 {
        lemma_pow10_positive((k - 1) as nat);
    }
}

proof fn lemma_pow10_add(a: nat, b: nat)
    ensures
        pow10(a + b) == pow10(a) * pow10(b),
    decreases a,
{
    if a > 0 {
        lemma_pow10_add((a - 1) as nat, b);
        assert(pow10(a + b) == 10 * pow10((a - 1 + b) as nat));
        let x = pow10((a - 1) as nat);
        let y = pow10(b);
        assert(pow10(a) == 10 * x);
        assert(10 * (x * y) == (10 * x) * y) by (nonlinear_arith);
    } else {
        assert(pow10(0) == 1);
        assert(a + b == b);
    }
}

proof fn lemma_digits_len(n: nat, d: nat)
    requires
        d >= 1,
        n < pow10(d),
    ensures
        decimal_digits(n).len() <= d,
    decreases d,
{
    if n >= 10 {
        assert(pow10(d) == 10 * pow10((d - 1) as nat));
        if d == 1 {
            assert(pow10(0) == 1);
        }
        lemma_digits_len(n / 10, (d - 1) as nat);
    }
}

/// Every character of `s` is an ASCII digit.
pub open spec fn all_digits(s: Seq<char>) -> bool {
    forall|i: int| 0 <= i < s.len() ==> #[trigger] is_ascii_digit(s[i])
}

/// No character of `s` is `c`.
spec fn lacks(s: Seq<char>, c: char) -> bool {
    forall|i: int| 0 <= i < s.len() ==> #[trigger] s[i] != c
}

proof fn lemma_decimal_digits_all_digits(n: nat)
    ensures
        all_digits(decimal_digits(n)),
    decreases n,
{
    if n >= 10 {
        lemma_decimal_digits_all_digits(n / 10);
        let s = decimal_digits(n);
        assert forall|i: int| 0 <= i < s.len() implies #[trigger] is_ascii_digit(s[i]) by {
            if i < s.len() - 1 {
                assert(s[i] == decimal_digits(n / 10)[i]);
            }
        }
    }
}

proof fn lemma_zero_padded_all_digits(n: nat, w: nat)
    ensures
        all_digits(zero_padded(n, w)),
{
    lemma_decimal_digits_all_digits(n);
    let s = decimal_digits(n);
    if s.len() < w {
        let z = Seq::new((w - s.len()) as nat, |i: int| '0');
        let t = z + s;
        assert forall|i: int| 0 <= i < t.len() implies #[trigger] is_ascii_digit(t[i]) by {
            if i >= z.len() {
                assert(t[i] == s[i - z.len()]);
            }
        }
    }
}

/// A formatted unsigned integer holds only digits and thin spaces.
proof fn lemma_format_uint_lacks(n: nat, c: char)
    requires
        !is_ascii_digit(c),
        c != THIN_SPACE,
    ensures
        lacks(format_uint_text(n), c),
    decreases n,
{
    if n < 1000 {
        lemma_decimal_digits_all_digits(n);
        let s = decimal_digits(n);
        assert forall|i: int| 0 <= i < s.len() implies #[trigger] s[i] != c by {
            assert(is_ascii_digit(s[i]));
        }
    } else {
        lemma_format_uint_lacks(n / 1000, c);
        lemma_zero_padded_all_digits(n % 1000, 3);
        let head = format_uint_text(n / 1000) + seq![THIN_SPACE];
        let tail = zero_padded(n % 1000, 3);
        let t = head + tail;
        assert forall|i: int| 0 <= i < t.len() implies #[trigger] t[i] != c by {
            if i < head.len() - 1 {
                assert(t[i] == format_uint_text(n / 1000)[i]);
            } else if i >= head.len() {
                assert(t[i] == tail[i - head.len()]);
                assert(is_ascii_digit(tail[i - head.len()]));
            }
        }
    }
}

proof fn lemma_digits_lack(s: Seq<char>, c: char)
    requires
        all_digits(s),
        !is_ascii_digit(c),
    ensures
        lacks(s, c),
{
    assert forall|i: int| 0 <= i < s.len() implies #[trigger] s[i] != c by {
        assert(is_ascii_digit(s[i]));
    }
}

/// Two texts that agree, each a part without `c` followed by nothing or by a
/// part that begins with `c`, agree part by part.
proof fn lemma_split_at(a1: Seq<char>, b1: Seq<char>, a2: Seq<char>, b2: Seq<char>, c: char)
    requires
        a1 + b1 == a2 + b2,
        lacks(a1, c),
        lacks(a2, c),
        b1.len() > 0 ==> b1[0] == c,
        b2.len() > 0 ==> b2[0] == c,
    ensures
        a1 == a2,
        b1 == b2,
{
    let s = a1 + b1;
    let t = a2 + b2;
    if a1.len() < a2.len() {
        assert(s.len() == t.len());
        assert(b1.len() > 0);
        assert(s[a1.len() as int] == b1[0]);
        assert(t[a1.len() as int] == a2[a1.len() as int]);
    } else if a2.len() < a1.len() {
        assert(s.len() == t.len());
        assert(b2.len() > 0);
        assert(t[a2.len() as int] == b2[0]);
        assert(s[a2.len() as int] == a1[a2.len() as int]);
    }
    assert(a1 =~= s.take(a1.len() as int));
    assert(a2 =~= t.take(a2.len() as int));
    assert(b1 =~= s.skip(a1.len() as int));
    assert(b2 =~= t.skip(a2.len() as int));
}

proof fn lemma_lacks_concat(a: Seq<char>, b: Seq<char>, c: char)
    requires
        lacks(a, c),
        lacks(b, c),
    ensures
        lacks(a + b, c),
{
    let t = a + b;
    assert forall|i: int| 0 <= i < t.len() implies #[trigger] t[i] != c by {
        if i < a.len() {
            assert(t[i] == a[i]);
        } else {
            assert(t[i] == b[i - a.len()]);
        }
    }
}

/// The parts of the hours-minutes-seconds text of `x` seconds: the hours part,
/// the minutes part and the seconds digits.
spec fn hour_part(x: nat) -> Seq<char> {
    if x / 3600 > 0 {
        format_uint_text(x / 3600) + seq!['h', ' ']
    } else {
        seq![]
    }
}

spec fn minute_part(x: nat) -> Seq<char> {
    if x / 3600 > 0 || (x / 60) % 60 > 0 {
        decimal_digits((x / 60) % 60) + seq!['m', ' ']
    } else {
        seq![]
    }
}

proof fn lemma_whole_parts(x: nat)
    ensures
        exact_options().whole_text(x) == hour_part(x) + (minute_part(x) + decimal_digits(x % 60)),
        lacks(minute_part(x) + decimal_digits(x % 60), 'h'),
        lacks(decimal_digits(x % 60), 'm'),
        lacks(decimal_digits((x / 60) % 60), 'm'),
        lacks(format_uint_text(x / 3600), 'h'),
        lacks(exact_options().whole_text(x), '.'),
{
    let h = x / 3600;
    let m = (x / 60) % 60;
    let d = decimal_digits(x % 60);
    assert(exact_options().whole_text(x) =~= hour_part(x) + (minute_part(x) + d));
    lemma_decimal_digits_all_digits(x % 60);
    lemma_decimal_digits_all_digits(m);
    lemma_digits_lack(d, 'h');
    lemma_digits_lack(d, 'm');
    lemma_digits_lack(d, '.');
    lemma_digits_lack(decimal_digits(m), 'h');
    lemma_digits_lack(decimal_digits(m), 'm');
    lemma_digits_lack(decimal_digits(m), '.');
    lemma_format_uint_lacks(h, 'h');
    lemma_format_uint_lacks(h, '.');
    assert(lacks(seq!['m', ' '], 'h'));
    assert(lacks(seq!['m', ' '], '.'));
    assert(lacks(seq!['h', ' '], '.'));
    assert(lacks(Seq::<char>::empty(), 'h'));
    assert(lacks(Seq::<char>::empty(), '.'));
    lemma_lacks_concat(decimal_digits(m), seq!['m', ' '], 'h');
    lemma_lacks_concat(decimal_digits(m), seq!['m', ' '], '.');
    lemma_lacks_concat(format_uint_text(h), seq!['h', ' '], '.');
    lemma_lacks_concat(minute_part(x), d, 'h');
    lemma_lacks_concat(minute_part(x), d, '.');
    lemma_lacks_concat(hour_part(x), minute_part(x) + d, '.');
}

proof fn lemma_hms(x: nat)
    ensures
        x == 3600 * (x / 3600) + 60 * ((x / 60) % 60) + x % 60,
{
    vstd::arithmetic::div_mod::lemma_div_denominator(x as int, 60, 60);
    let q = x / 60;
    assert(x == 60 * q + x % 60);
    assert(q == 60 * (q / 60) + q % 60);
}

/// Equal hours-minutes-seconds texts stand for equal numbers of seconds.
proof fn lemma_whole_text_injective(x: nat, y: nat)
    requires
        exact_options().whole_text(x) == exact_options().whole_text(y),
    ensures
        x == y,
{
    lemma_whole_parts(x);
    lemma_whole_parts(y);
    let rx = minute_part(x) + decimal_digits(x % 60);
    let ry = minute_part(y) + decimal_digits(y % 60);
    let hp = seq!['h', ' '];
    let (a1, b1) = if x / 3600 > 0 { (format_uint_text(x / 3600), hp + rx) } else { (rx, Seq::<char>::empty()) };
    let (a2, b2) = if y / 3600 > 0 { (format_uint_text(y / 3600), hp + ry) } else { (ry, Seq::<char>::empty()) };
    assert(hour_part(x) + rx =~= a1 + b1);
    assert(hour_part(y) + ry =~= a2 + b2);
    lemma_split_at(a1, b1, a2, b2, 'h');
    if x / 3600 > 0 {
        assert(y / 3600 > 0) by {
            assert(b1.len() > 0);
        }
        law_strip_format_uint(x / 3600);
        law_strip_format_uint(y / 3600);
        lemma_decimal_digits_injective(x / 3600, y / 3600);
        assert(rx =~= b1.skip(2));
        assert(ry =~= b2.skip(2));
    } else {
        assert(y / 3600 == 0) by {
            if y / 3600 > 0 {
                assert(b2.len() > 0);
            }
        }
    }
    assert(rx == ry);
    let mp = seq!['m', ' '];
    let dx = decimal_digits(x % 60);
    let dy = decimal_digits(y % 60);
    let px = x / 3600 > 0 || (x / 60) % 60 > 0;
    let py = y / 3600 > 0 || (y / 60) % 60 > 0;
    let (c1, e1) = if px { (decimal_digits((x / 60) % 60), mp + dx) } else { (dx, Seq::<char>::empty()) };
    let (c2, e2) = if py { (decimal_digits((y / 60) % 60), mp + dy) } else { (dy, Seq::<char>::empty()) };
    assert(rx =~= c1 + e1);
    assert(ry =~= c2 + e2);
    lemma_split_at(c1, e1, c2, e2, 'm');
    if px {
        assert(py) by {
            assert(e1.len() > 0);
        }
        lemma_decimal_digits_injective((x / 60) % 60, (y / 60) % 60);
        assert(dx =~= e1.skip(2));
        assert(dy =~= e2.skip(2));
    } else {
        assert(!py) by {
            if py {
                assert(e2.len() > 0);
            }
        }
    }
    lemma_decimal_digits_injective(x % 60, y % 60);
    lemma_hms(x);
    lemma_hms(y);
}

/// The exact text of `n` nanoseconds: sign, hours-minutes-seconds of the
/// whole seconds, then the sub-second part with trailing zeroes dropped.
proof fn lemma_exact_text_shape(n: int)
    ensures
        ({
            let mag: nat = if n < 0 { (-n) as nat } else { n as nat };
            let (f, d) = trim_decimals(mag % 1_000_000_000, 9, 0);
            exact_options().duration_text(n) == exact_options().sign_text(n) + exact_options().whole_text(
                mag / 1_000_000_000,
            ) + fraction_text(f, d) + seq!['s']
        }),
{
    reveal_with_fuel(pow10, 10);
    let mag: nat = if n < 0 { (-n) as nat } else { n as nat };
    assert(pow10(0) == 1);
    assert(pow10(9) == 1_000_000_000);
    assert(exact_options().rounding_decimals() == 9);
    assert(mag / 1 == mag && mag % 1 == 0);
    assert(exact_options().rounded_units(mag) == mag);
}

/// Law: the text of [`Duration::exact_format`] is exact to the nanosecond: two
/// different numbers of nanoseconds never give the same text.
pub proof fn law_exact_text_injective(a: int, b: int)
    ensures
        exact_options().duration_text(a) == exact_options().duration_text(b) ==> a == b,
{
    if exact_options().duration_text(a) == exact_options().duration_text(b) {
        let o = exact_options();
        lemma_exact_text_shape(a);
        lemma_exact_text_shape(b);
        let ma: nat = if a < 0 { (-a) as nat } else { a as nat };
        let mb: nat = if b < 0 { (-b) as nat } else { b as nat };
        let (fa, da) = trim_decimals(ma % 1_000_000_000, 9, 0);
        let (fb, db) = trim_decimals(mb % 1_000_000_000, 9, 0);
        let wa = o.whole_text(ma / 1_000_000_000);
        let wb = o.whole_text(mb / 1_000_000_000);
        let xa = fraction_text(fa, da);
        let xb = fraction_text(fb, db);
        let ta = o.duration_text(a);
        assert(ta[0] == o.sign_text(a)[0]);
        assert(ta[0] == o.sign_text(b)[0]);
        assert((a < 0) == (b < 0));
        assert(wa + xa =~= ta.subrange(1, ta.len() - 1));
        assert(wb + xb =~= ta.subrange(1, ta.len() - 1));
        lemma_whole_parts(ma / 1_000_000_000);
        lemma_whole_parts(mb / 1_000_000_000);
        lemma_split_at(wa, xa, wb, xb, '.');
        lemma_whole_text_injective(ma / 1_000_000_000, mb / 1_000_000_000);
        law_trim_decimals(ma % 1_000_000_000, 9, 0);
        law_trim_decimals(mb % 1_000_000_000, 9, 0);
        lemma_fraction_raw(ma % 1_000_000_000, mb % 1_000_000_000);
        assert(ma == 1_000_000_000 * (ma / 1_000_000_000) + ma % 1_000_000_000);
        assert(mb == 1_000_000_000 * (mb / 1_000_000_000) + mb % 1_000_000_000);
    }
}

/// Equal trimmed sub-second texts stand for equal sub-second parts.
proof fn lemma_fraction_raw(ra: nat, rb: nat)
    requires
        ra < 1_000_000_000,
        rb < 1_000_000_000,
        fraction_text(trim_decimals(ra, 9, 0).0, trim_decimals(ra, 9, 0).1) == fraction_text(
            trim_decimals(rb, 9, 0).0,
            trim_decimals(rb, 9, 0).1,
        ),
    ensures
        ra == rb,
{
    let (fa, da) = trim_decimals(ra, 9, 0);
    let (fb, db) = trim_decimals(rb, 9, 0);
    law_trim_decimals(ra, 9, 0);
    law_trim_decimals(rb, 9, 0);
    if da == 0 || db == 0 {
        assert(da == 0 && db == 0) by {
            if da > 0 {
                assert(fraction_text(fa, da).len() > 0);
            }
            if db > 0 {
                assert(fraction_text(fb, db).len() > 0);
            }
        }
        reveal_with_fuel(pow10, 10);
        assert(pow10(9) == 1_000_000_000);
        assert(ra == fa * 1_000_000_000);
        assert(rb == fb * 1_000_000_000);
    } else {
        let za = zero_padded(fa, da);
        let zb = zero_padded(fb, db);
        assert(za =~= fraction_text(fa, da).skip(1));
        assert(zb =~= fraction_text(fb, db).skip(1));
        lemma_zero_padded_value(fa, da);
        lemma_zero_padded_value(fb, db);
        lemma_fraction_fits(ra, fa, da);
        lemma_fraction_fits(rb, fb, db);
        lemma_digits_len(fa, da);
        lemma_digits_len(fb, db);
        assert(za.len() == da);
        assert(zb.len() == db);
        assert(fa == fb);
        assert(da == db);
    }
}

/// A trimmed sub-second part of `d` decimals is less than `10^d`.
proof fn lemma_fraction_fits(raw: nat, f: nat, d: nat)
    requires
        raw < 1_000_000_000,
        d <= 9,
        f * pow10((9 - d) as nat) == raw,
    ensures
        f < pow10(d),
{
    reveal_with_fuel(pow10, 10);
    assert(pow10(9) == 1_000_000_000);
    lemma_pow10_add(d, (9 - d) as nat);
    lemma_pow10_positive((9 - d) as nat);
    let p = pow10((9 - d) as nat);
    let q = pow10(d);
    assert(f * p < q * p);
    assert(f < q) by (nonlinear_arith)
        requires
            f * p < q * p,
            p >= 1,
    ;
}

/// Law: a text that does not begin with a date is read only as seconds since
/// the epoch: for that format kind it gives the seconds reading, and for a
/// format that shows today's date, or where today's date is not known, it
/// gives nothing, whatever the time zone reads.
pub proof fn law_parse_without_date(
    cleaned: Seq<char>,
    timestamp_format: TimestampFormat,
    seconds: Option<Timestamp>,
    today: Option<CivilDateTime>,
    r: Option<Timestamp>,
)
    requires
        !temporal_shape(cleaned),
    ensures
        parse_result_possible(cleaned, timestamp_format, seconds, today, r)
            && timestamp_format.kind_spec() == TimestampFormatKind::SecondsSinceUnixEpoch ==> r == seconds,
        parse_result_possible(cleaned, timestamp_format, seconds, today, r)
            && timestamp_format.kind_spec() != TimestampFormatKind::SecondsSinceUnixEpoch
            && (!timestamp_format.hides_today_date() || today is None) ==> r is None,
{
    if parse_result_possible(cleaned, timestamp_format, seconds, today, r) {
        let (z, ci, z2, ci2) = choose|
            zoned: Option<int>,
            civil_instant: Option<int>,
            zoned2: Option<int>,
            civil_instant2: Option<int>,
        |
            {
                &&& step_readings_possible(cleaned, timestamp_format, zoned, civil_instant)
                &&& r == #[trigger] round_result(
                    cleaned,
                    timestamp_format,
                    seconds,
                    today,
                    zoned,
                    civil_instant,
                    zoned2,
                    civil_instant2,
                )
            };
        assert(r == round_result(cleaned, timestamp_format, seconds, today, z, ci, z2, ci2));
    }
}

/// The date text `YYYY-MM-DD` of a valid reading, part by part.
proof fn lemma_date_text_parts(c: CivilDateTime)
    requires
        c.wf(),
    ensures
        strftime_text("%Y-%m-%d"@, c) == crate::civil::directive_text('Y', c) + seq!['-']
            + zero_padded(c.month as nat, 2) + seq!['-'] + zero_padded(c.day as nat, 2),
{
    reveal_strlit("%Y-%m-%d");
    let p = "%Y-%m-%d"@;
    assert(p.skip(2) =~= seq!['-', '%', 'm', '-', '%', 'd']);
    assert(p.skip(2).drop_first() =~= seq!['%', 'm', '-', '%', 'd']);
    assert(p.skip(2).drop_first().skip(2) =~= seq!['-', '%', 'd']);
    assert(p.skip(2).drop_first().skip(2).drop_first() =~= seq!['%', 'd']);
    assert(p.skip(2).drop_first().skip(2).drop_first().skip(2) =~= Seq::<char>::empty());
    reveal_with_fuel(strftime_text, 6);
    assert(strftime_text(seq!['%', 'd'], c) =~= zero_padded(c.day as nat, 2)) by {
        assert(seq!['%', 'd'].skip(2) =~= Seq::<char>::empty());
    }
}

/// A text that starts with a date text of a valid reading, then `T`, then a
/// text that does not start with two digits, has no hour after its date.
proof fn lemma_date_then_no_hour(c: CivilDateTime, rest: Seq<char>)
    requires
        c.wf(),
        !(rest.len() >= 2 && is_ascii_digit(rest[0]) && is_ascii_digit(rest[1])),
    ensures
        !temporal_shape(strftime_text("%Y-%m-%d"@, c) + seq!['T'] + rest),
        plain_chars(strftime_text("%Y-%m-%d"@, c) + seq!['T']),
{
    lemma_date_text_parts(c);
    let yt = crate::civil::directive_text('Y', c);
    let mt = zero_padded(c.month as nat, 2);
    let dt = zero_padded(c.day as nat, 2);
    let today = strftime_text("%Y-%m-%d"@, c);
    let t = today + seq!['T'] + rest;
    reveal_with_fuel(pow10, 5);
    lemma_zero_padded_all_digits(c.month as nat, 2);
    lemma_zero_padded_all_digits(c.day as nat, 2);
    lemma_digits_len(c.month as nat, 2);
    lemma_digits_len(c.day as nat, 2);
    assert(mt.len() == 2 && dt.len() == 2);
    if c.year >= 0 {
        lemma_zero_padded_all_digits(c.year as nat, 4);
        lemma_digits_len(c.year as nat, 4);
        assert(yt.len() == 4);
        assert(t[0] == yt[0]);
        assert(is_ascii_digit(yt[0]));
        assert(t[4] == '-');
        assert(t[7] == '-');
        assert(t[10] == 'T');
        if t.len() >= 13 {
            assert(t[11] == rest[0]);
            assert(t[12] == rest[1]);
        }
    } else {
        let z = zero_padded((-c.year) as nat, 3);
        lemma_digits_len((-c.year) as nat, 4);
        assert(yt == seq!['-'] + z);
        assert(3 <= z.len() <= 4);
        assert(t[0] == '-');
        assert(t[yt.len() as int] == '-');
        assert(!is_ascii_digit(t[yt.len() as int]));
    }
    lemma_zero_padded_plain(c.month as nat, 2);
    lemma_zero_padded_plain(c.day as nat, 2);
    let u = today + seq!['T'];
    assert forall|i: int| 0 <= i < u.len() implies #[trigger] u[i] != THIN_SPACE && u[i] != MINUS by {
        if c.year >= 0 {
            lemma_zero_padded_plain(c.year as nat, 4);
        } else {
            lemma_zero_padded_plain((-c.year) as nat, 3);
        }
        let a = yt + seq!['-'];
        let b = a + mt;
        let e = b + seq!['-'];
        assert(today == e + dt);
        if i < yt.len() {
            assert(u[i] == yt[i]);
            if c.year < 0 && i > 0 {
                assert(yt[i] == zero_padded((-c.year) as nat, 3)[i - 1]);
            }
        } else if i < b.len() && i > yt.len() {
            assert(u[i] == mt[i - a.len()]);
        } else if i > e.len() && i < today.len() {
            assert(u[i] == dt[i - e.len()]);
        }
    }
}

/// Law: in a format that reads a clock, a text that neither begins with a
/// date nor with the two digits of an hour (such as `hello`) parses as nothing,
/// on every date and whatever the time zone reads: neither the text nor the
/// text with today's date before it is a date and time.
pub proof fn law_parse_without_date_or_hour(
    cleaned: Seq<char>,
    timestamp_format: TimestampFormat,
    seconds: Option<Timestamp>,
    today: Option<CivilDateTime>,
    r: Option<Timestamp>,
)
    requires
        strip_number_formatting(cleaned) == cleaned,
        !temporal_shape(cleaned),
        !(cleaned.len() >= 2 && is_ascii_digit(cleaned[0]) && is_ascii_digit(cleaned[1])),
        timestamp_format.kind_spec() != TimestampFormatKind::SecondsSinceUnixEpoch,
        today matches Some(d) ==> d.wf(),
    ensures
        parse_result_possible(cleaned, timestamp_format, seconds, today, r) ==> r is None,
{
    if parse_result_possible(cleaned, timestamp_format, seconds, today, r) {
        let (z, ci, z2, ci2) = choose|
            zoned: Option<int>,
            civil_instant: Option<int>,
            zoned2: Option<int>,
            civil_instant2: Option<int>,
        |
            {
                &&& step_readings_possible(cleaned, timestamp_format, zoned, civil_instant)
                &&& retry_taken(cleaned, timestamp_format, today, zoned) ==> step_readings_possible(
                    retry_text(cleaned, today->0),
                    timestamp_format,
                    zoned2,
                    civil_instant2,
                )
                &&& r == #[trigger] round_result(
                    cleaned,
                    timestamp_format,
                    seconds,
                    today,
                    zoned,
                    civil_instant,
                    zoned2,
                    civil_instant2,
                )
            };
        assert(r == round_result(cleaned, timestamp_format, seconds, today, z, ci, z2, ci2));
        if retry_taken(cleaned, timestamp_format, today, z) {
            let cv = today->0;
            let dt = date_text(cv);
            lemma_date_then_no_hour(cv, cleaned);
            let head = dt + seq!['T'];
            lemma_strip_plain(head);
            lemma_strip_concat(head, cleaned);
            assert(with_date(dt, cleaned) == head + cleaned);
            let rt = retry_text(cleaned, cv);
            assert(rt == dt + seq!['T'] + cleaned);
            assert(!temporal_shape(rt));
        }
    }
}

/// A trimmed part of `d` decimals of a remainder below `10^k` is below `10^d`.
proof fn lemma_trimmed_fits(raw: nat, f: nat, d: nat, k: nat)
    requires
        raw < pow10(k),
        d <= k,
        f * pow10((k - d) as nat) == raw,
    ensures
        f < pow10(d),
{
    lemma_pow10_add(d, (k - d) as nat);
    lemma_pow10_positive((k - d) as nat);
    assert(d + (k - d) == k);
    let p = pow10((k - d) as nat);
    let q = pow10(d);
    assert(f * p < q * p);
    assert(f < q) by (nonlinear_arith)
        requires
            f * p < q * p,
            p >= 1,
    ;
}

/// `n` on `d >= 1` digits, for `n < 10^d`: exactly `d` digits whose value is
/// `n`, the last of them that of `n % 10`.
proof fn lemma_padded_digits(n: nat, d: nat)
    requires
        d >= 1,
        n < pow10(d),
    ensures
        zero_padded(n, d).len() == d,
        digits_value(zero_padded(n, d)) == n,
        all_digits(zero_padded(n, d)),
        zero_padded(n, d).last() == digit_char(n % 10),
{
    lemma_digits_len(n, d);
    lemma_zero_padded_value(n, d);
    lemma_zero_padded_all_digits(n, d);
    let s = decimal_digits(n);
    if n >= 10 {
        assert(s.last() == digit_char(n % 10));
    } else {
        assert(s =~= seq![digit_char(n)]);
    }
    if s.len() < d {
        let z = Seq::new((d - s.len()) as nat, |i: int| '0');
        assert((z + s).last() == s.last());
    }
}

/// Law: the relative text of a non-zero sub-second remainder `frac` (in
/// nanoseconds) is exact milliseconds: a sign (`-` for a negative remainder),
/// the whole milliseconds, and at most six decimals without trailing zeroes,
/// and reading the number back gives the remainder: the whole part and the
/// decimals, as a fraction over `10^decimals`, times a million is `|frac|`.
pub proof fn law_relative_ms_exact(frac: int)
    requires
        frac != 0,
        -1_000_000_000 < frac < 1_000_000_000,
    ensures
        exists|whole: nat, decimals: Seq<char>|
            #![trigger decimal_digits(whole), digits_value(decimals)]
            {
                &&& relative_ms_text(frac) == seq![if frac < 0 { '-' } else { '+' }] + decimal_digits(whole) + (
                if decimals.len() == 0 {
                    seq![]
                } else {
                    seq!['.'] + decimals
                }) + seq![' ', 'm', 's']
                &&& decimals.len() <= 6
                &&& all_digits(decimals)
                &&& decimals.len() > 0 ==> decimals.last() != '0'
                &&& (whole * pow10(decimals.len()) + digits_value(decimals)) * 1_000_000 == (if frac < 0 {
                    -frac
                } else {
                    frac
                }) * pow10(decimals.len())
            },
{
    reveal_with_fuel(pow10, 7);
    assert(pow10(6) == 1_000_000);
    let mag: nat = if frac < 0 { (-frac) as nat } else { frac as nat };
    let w = mag / 1_000_000;
    let raw = mag % 1_000_000;
    let (f, d) = trim_decimals(raw, 6, 0);
    law_trim_decimals(raw, 6, 0);
    assert(mag == w * 1_000_000 + raw);
    if d == 0 {
        assert(raw == f * 1_000_000);
        assert(f == 0);
        let e = Seq::<char>::empty();
        assert(digits_value(e) == 0);
        assert(all_digits(e));
        assert(fraction_text(f, d) =~= e);
        assert(relative_ms_text(frac) == seq![if frac < 0 { '-' } else { '+' }] + decimal_digits(w) + (if e.len()
            == 0 {
            seq![]
        } else {
            seq!['.'] + e
        }) + seq![' ', 'm', 's']);
        assert(e.len() == 0 && pow10(0) == 1);
        assert(raw == 0 && mag == w * 1_000_000);
        assert((w * pow10(e.len()) + digits_value(e)) * 1_000_000 == mag * pow10(e.len()));
    } else {
        lemma_trimmed_fits(raw, f, d, 6);
        lemma_padded_digits(f, d);
        let z = zero_padded(f, d);
        assert(z.last() != '0') by {
            assert(f % 10 != 0);
            assert(digit_char(f % 10) == ((f % 10) + 48) as char);
        }
        lemma_pow10_add((6 - d) as nat, d);
        assert((6 - d) as nat + d == 6);
        let p = pow10((6 - d) as nat);
        let q = pow10(d);
        assert(p * q == 1_000_000);
        assert((w * q + f) * 1_000_000 == (w * 1_000_000 + f * p) * q) by (nonlinear_arith)
            requires
                p * q == 1_000_000,
        ;
        assert((w * pow10(z.len()) + digits_value(z)) * 1_000_000 == mag * pow10(z.len()));
        assert(relative_ms_text(frac) == seq![if frac < 0 { '-' } else { '+' }] + decimal_digits(w) + (if z.len()
            == 0 {
            seq![]
        } else {
            seq!['.'] + z
        }) + seq![' ', 'm', 's']);
    }
}

/// Law: the compact text of a wall-clock reading (what
/// [`Timestamp::format_time_compact`] writes for the clock kinds) by its fields:
/// the date alone only at exactly 00:00:00.000000000; otherwise the
/// milliseconds since the last whole second where there are sub-seconds, then
/// hours, minutes and seconds where the seconds are not zero, else hours and
/// minutes.
pub proof fn law_compact_clock_text(zoned: CivilDateTime)
    ensures
        zoned.hour == 0 && zoned.minute == 0 && zoned.second == 0 && zoned.subsec_nanosecond == 0
            ==> compact_clock_text(zoned) == strftime_text("%Y-%m-%d"@, zoned),
        zoned.subsec_nanosecond != 0 ==> compact_clock_text(zoned) == relative_ms_text(
            zoned.subsec_nanosecond as int,
        ),
        zoned.subsec_nanosecond == 0 && zoned.second != 0 ==> compact_clock_text(zoned) == strftime_text(
            "%H:%M:%S"@,
            zoned,
        ),
        zoned.subsec_nanosecond == 0 && zoned.second == 0 && (zoned.hour != 0 || zoned.minute != 0)
            ==> compact_clock_text(zoned) == strftime_text("%H:%M"@, zoned),
{
}

/// Law: for the same reading of the clock, a timestamp value other than the
/// two extremes is written by [`TimeType::format_opt_given`] exactly as
/// [`Timestamp::format_opt_given`] writes the timestamp of that value, for
/// every format, number of decimals and reading of today.
pub proof fn law_timestamp_type_given_writes_timestamp(
    time_int: TimeInt,
    timestamp_format: TimestampFormat,
    min: usize,
    max: usize,
    today: Option<CivilDateTime>,
    text: Seq<char>,
)
    requires
        time_int.0 != time_int_min(),
        time_int.0 != i64::MAX,
    ensures
        TimeType::TimestampNs.time_text_given(time_int, timestamp_format, min, max, today, text)
            <==> timestamp_text_given(
            Timestamp::from_nanos_spec(time_int.0),
            timestamp_format,
            min,
            max,
            today,
            text,
        ),
{
    if timestamp_text_given(Timestamp::from_nanos_spec(time_int.0), timestamp_format, min, max, today, text) {
        assert(text == TimeType::TimestampNs.time_text(time_int, min, max, text));
    }
}

/// Law: in the formats that read a clock, the text of a timestamp begins with
/// its reading on the clock of the format's time zone (the UTC reading, shifted
/// by the zone's offset for the local kinds): hours, minutes and seconds alone
/// where the format is short, or hides today's date and the reading falls on
/// the date the clock reads now; the date, a space, then hours, minutes and
/// seconds otherwise.
pub proof fn law_date_left_out_on_today(
    t: Timestamp,
    timestamp_format: TimestampFormat,
    min: usize,
    max: usize,
    today: Option<CivilDateTime>,
    text: Seq<char>,
)
    requires
        timestamp_format.kind_spec() != TimestampFormatKind::SecondsSinceUnixEpoch,
        timestamp_text_given(t, timestamp_format, min, max, today, text),
    ensures
        exists|offset_seconds: int|
            #![trigger utc_civil(t@ + offset_seconds * 1_000_000_000)]
            {
                let c = utc_civil(t@ + offset_seconds * 1_000_000_000);
                &&& -93599 <= offset_seconds <= 93599
                &&& timestamp_format.kind_spec() == TimestampFormatKind::Utc ==> offset_seconds == 0
                &&& if timestamp_format.is_short() || (timestamp_format.hides_today_date() && (today matches Some(
                    d,
                ) && d.year == c.year && d.month == c.month && d.day == c.day)) {
                    has_prefix(text, strftime_text("%H:%M:%S"@, c))
                } else {
                    has_prefix(text, strftime_text("%Y-%m-%d %H:%M:%S"@, c))
                }
            },
{
    let o: int = if timestamp_format.kind_spec() == TimestampFormatKind::Utc {
        0
    } else {
        choose|offset_seconds: int|
            {
                &&& -93599 <= offset_seconds <= 93599
                &&& text == #[trigger] clock_text(
                    timestamp_format,
                    utc_civil(t@ + offset_seconds * 1_000_000_000),
                    on_today(utc_civil(t@ + offset_seconds * 1_000_000_000), today),
                    offset_seconds,
                    min,
                    max,
                )
            }
    };
    assert(t@ + 0 * 1_000_000_000 == t@ as int);
    let c = utc_civil(t@ + o * 1_000_000_000);
    assert(-93599 <= o <= 93599);
    assert(text == clock_text(timestamp_format, c, on_today(c, today), o, min, max));
    let head = strftime_text(crate::timestamp::clock_pattern(timestamp_format, on_today(c, today)), c);
    let rest = (if timestamp_format.is_short() {
        seq![]
    } else {
        crate::timestamp::fractional_text(c.subsec_nanosecond as int, min, max)
    }) + crate::timestamp::zone_suffix(timestamp_format, o);
    assert(text =~= head + rest);
    assert(text.take(head.len() as int) =~= head);
}

} // verus!
