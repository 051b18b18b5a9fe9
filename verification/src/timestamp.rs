//! A point in time: nanoseconds since the Unix epoch.
use vstd::prelude::*;
use crate::civil::{has_bracket, has_offset_after_date, offset_text, pattern_supported, strftime_text, temporal_shape, CivilDateTime};
use crate::duration::{relative_ms_text, trunc_rem, Duration};
use crate::duration_format::DurationFormatOptions;
use crate::format::{
    format_int, format_int_text, lemma_strip_idempotent, remove_number_formatting, starts_with,
    strip_number_formatting, trim_end_char,
    trim_end_matching, trim_start_char, trim_start_matching,
};
use crate::jiff_bridge::{
    civil_in_utc, civil_strftime, civil_to_utc_nanos, civil_to_zoned_nanos, jiff_instant_nanos, jiff_instant_nanos_of,
    jiff_instant_of, jiff_zoned, system_time_nanos_of, zoned_instant_nanos, zoned_instant_nanos_of,
    nanos_since_unix_epoch, now_civil_in_zone, offset_display, parse_civil, parse_timestamp,
    parse_zoned_nanos, parsed_civil, parsed_timestamp_nanos, rfc3339, rfc3339_text,
    system_nanos_since_epoch, timestamp_seconds_and_subsec, utc_civil, utc_instant_of, zoned_reading,
};
use crate::time_int::{temporal_i64, saturate_i64, saturating_add_i64, saturating_sub_i64, TimeInt};
use crate::timestamp_format::{zone_choice_of, TimestampFormat, TimestampFormatKind, ZoneChoice};
use std::ops::RangeInclusive;

verus! {

broadcast use Duration::lemma_from_nanos_spec;

/// Encodes a timestamp in nanoseconds since unix epoch.
///
/// Can represent any time between the years 1678 - 2261 CE to nanosecond precision.
#[derive(Clone, Copy, PartialEq, Eq, Structural, Hash, Debug)]
pub struct Timestamp(i64);

impl View for Timestamp {
    type V = i64;

    closed spec fn view(&self) -> i64 {
        self.0
    }
}

impl Timestamp {
    /// The timestamp `n` nanoseconds after the Unix epoch.
    pub closed spec fn from_nanos_spec(n: i64) -> Timestamp {
        Timestamp(n)
    }

    pub broadcast proof fn lemma_from_nanos_spec(n: i64)
        ensures
            #[trigger] Timestamp::from_nanos_spec(n)@ == n,
    {
    }

    pub broadcast proof fn lemma_from_view(t: Timestamp)
        ensures
            #[trigger] Timestamp::from_nanos_spec(t@) == t,
    {
    }

    /// The timestamp for a clock reading of `nanos` nanoseconds since the
    /// epoch, cut to 64 bits as `as` does.
    pub fn from_clock_nanos(nanos: u128) -> (r: Timestamp)
        ensures
            r@ == nanos as i64,
    {
        Timestamp(nanos as i64)
    }

    /// The current time of the system clock; `None` where the clock reads a
    /// time before 1970. The nanoseconds are cut to 64 bits.
    pub fn try_now() -> Option<Timestamp> {
        match system_nanos_since_epoch() {
            Some(n) => Some(Timestamp::from_clock_nanos(n)),
            None => None,
        }
    }

    pub fn from_nanos_since_epoch(nanos_since_epoch: i64) -> (r: Timestamp)
        ensures
            r@ == nanos_since_epoch,
            r == Timestamp::from_nanos_spec(nanos_since_epoch),
    {
        Timestamp(nanos_since_epoch)
    }

    pub fn nanos_since_epoch(self) -> (r: i64)
        ensures
            r == self@,
    {
        self.0
    }

    /// The time passed from `self` to `now`: `now - self`.
    pub fn elapsed_until(self, now: Timestamp) -> (r: Duration)
        ensures
            r@ == saturate_i64(now@ - self@),
    {
        now - self
    }

    /// The time passed since `self`, by the system clock; `None` where the clock
    /// reads a time before 1970.
    pub fn elapsed(self) -> (r: Option<Duration>)
        ensures
            r matches Some(d) ==> exists|now: Timestamp| d@ == saturate_i64(now@ - self@),
    {
        match Timestamp::try_now() {
            Some(now) => Some(self.elapsed_until(now)),
            None => None,
        }
    }

    /// The timestamp of a `std::time::SystemTime`; the error where it lies before
    /// the Unix epoch. The nanoseconds are cut to 64 bits.
    pub fn from_system_time(time: std::time::SystemTime) -> (r: Result<Timestamp, std::time::SystemTimeError>)
        ensures
            match system_time_nanos_of(time) {
                Some(n) => r matches Ok(t) && t@ == n as i64,
                None => r is Err,
            },
    {
        match nanos_since_unix_epoch(time) {
            Ok(n) => Ok(Timestamp::from_clock_nanos(n)),
            Err(e) => Err(e),
        }
    }

    /// This instant in the time zone of the format.
    pub fn to_jiff_zoned(self, timestamp_format: TimestampFormat) -> (r: jiff::Zoned)
        ensures
            zoned_instant_nanos_of(r) == self@ as i128,
    {
        jiff_zoned(self.0, &timestamp_format.to_jiff_time_zone().time_zone)
    }

    /// Parses an RFC 3339 timestamp with an offset (e.g. `2024-01-01T12:00:00Z`),
    /// after removing number formatting. The nanoseconds are cut to 64 bits.
    pub fn parse(s: &str) -> (r: Result<Timestamp, jiff::Error>)
        ensures
            match parsed_timestamp_nanos(strip_number_formatting(s@)) {
                Some(n) => r matches Ok(t) && t@ == n as i64,
                None => r is Err,
            },
            r is Ok ==> temporal_shape(strip_number_formatting(s@)) && has_offset_after_date(
                strip_number_formatting(s@),
            ),
    {
        let cleaned = remove_number_formatting(s);
        match parse_timestamp(cleaned.as_str()) {
            Ok(n) => Ok(Timestamp(n as i64)),
            Err(e) => Err(e),
        }
    }

    /// Formats the time as specified by ISO standard [`RFC3339`](https://www.rfc-editor.org/rfc/rfc3339.html).
    ///
    /// The text reads back: parsing it, number formatting removed, gives this timestamp.
    pub fn format_iso(self) -> (r: String)
        ensures
            r@ == rfc3339_text(self@ as int),
            parsed_timestamp_nanos(strip_number_formatting(r@)) == Some(self@ as int),
    {
        let r = rfc3339(self.0);
        proof {
            crate::laws::lemma_strip_plain(r@);
        }
        r
    }
}

/// The quotient of `n` by `d`, truncated towards zero as Rust's `/` does.
pub open spec fn trunc_div(n: int, d: int) -> int {
    if n < 0 {
        -((-n) / d)
    } else {
        n / d
    }
}

/// The options with which the sub-second part of a timestamp is written.
pub open spec fn fractional_options(min: usize, max: usize) -> DurationFormatOptions {
    DurationFormatOptions {
        always_sign: false,
        only_seconds: true,
        min_decimals: min,
        max_decimals: max,
        round_towards_zero: true,
    }
}

/// The sub-second part `nanos` as decimals after the point, e.g. `.123`
/// (the seconds text with its leading zeroes and trailing `s` removed).
pub open spec fn fractional_text(nanos: int, min: usize, max: usize) -> Seq<char> {
    trim_end_matching(
        trim_start_matching(fractional_options(min, max).duration_text(nanos), '0'),
        's',
    )
}

/// A timestamp of `nanos` nanoseconds as seconds since the epoch, e.g. `1 700 000 000.5`.
pub open spec fn epoch_seconds_text(nanos: int, min: usize, max: usize) -> Seq<char> {
    format_int_text(trunc_div(nanos, 1_000_000_000)) + fractional_text(
        trunc_rem(nanos, 1_000_000_000),
        min,
        max,
    )
}

/// The clock pattern: the time alone when the format is short or when it hides
/// today's date and the timestamp is today, else the date and the time.
pub open spec fn clock_pattern(timestamp_format: TimestampFormat, is_today: bool) -> Seq<char> {
    if timestamp_format.is_short() || (timestamp_format.hides_today_date() && is_today) {
        "%H:%M:%S"@
    } else {
        "%Y-%m-%d %H:%M:%S"@
    }
}

/// What follows the sub-seconds: the zone offset for the explicit local time
/// zone, nothing for the implicit one, `Z` otherwise; nothing at all when short.
pub open spec fn zone_suffix(timestamp_format: TimestampFormat, offset_seconds: int) -> Seq<char> {
    if timestamp_format.is_short() {
        seq![]
    } else {
        match timestamp_format.kind_spec() {
            TimestampFormatKind::LocalTimezone => offset_text(offset_seconds),
            TimestampFormatKind::LocalTimezoneImplicit => seq![],
            _ => seq!['Z'],
        }
    }
}

/// The text of a timestamp that reads `zoned` on the clock of its time zone,
/// whose UTC offset there is `offset_seconds`.
pub open spec fn clock_text(
    timestamp_format: TimestampFormat,
    zoned: CivilDateTime,
    is_today: bool,
    offset_seconds: int,
    min: usize,
    max: usize,
) -> Seq<char> {
    strftime_text(clock_pattern(timestamp_format, is_today), zoned) + (if timestamp_format.is_short() {
        seq![]
    } else {
        fractional_text(zoned.subsec_nanosecond as int, min, max)
    }) + zone_suffix(timestamp_format, offset_seconds)
}

/// The compact text of a timestamp of `nanos` nanoseconds as seconds since
/// the epoch: whole seconds, or the milliseconds since the last whole second.
pub open spec fn compact_epoch_text(nanos: int) -> Seq<char> {
    if trunc_rem(nanos, 1_000_000_000) == 0 {
        format_int_text(trunc_div(nanos, 1_000_000_000))
    } else {
        relative_ms_text(trunc_rem(nanos, 1_000_000_000))
    }
}

/// The compact text of a wall-clock reading: the date at exact midnight, the
/// milliseconds since the last whole second, hours and minutes on a whole
/// minute, else hours, minutes and seconds.
pub open spec fn compact_clock_text(zoned: CivilDateTime) -> Seq<char> {
    if zoned.is_midnight() {
        strftime_text("%Y-%m-%d"@, zoned)
    } else if zoned.subsec_nanosecond != 0 {
        relative_ms_text(zoned.subsec_nanosecond as int)
    } else if zoned.second == 0 {
        strftime_text("%H:%M"@, zoned)
    } else {
        strftime_text("%H:%M:%S"@, zoned)
    }
}

/// Whether the clock reading `zoned` is on the date of `today`, the clock's
/// reading of the current time (`None` where it is not known).
pub open spec fn on_today(zoned: CivilDateTime, today: Option<CivilDateTime>) -> bool {
    today matches Some(d) && d.same_date(zoned)
}

/// Whether `text` is what [`Timestamp::format_opt`] can write for `timestamp`:
/// exactly its seconds since the epoch for that kind; the clock text of its
/// UTC reading in UTC; for the local kinds, the clock text of its UTC reading
/// shifted by the local zone's offset there, with that offset. The date is
/// left out as the clock's current reading `today` decides; what is left open
/// is that reading, and the local offset.
pub open spec fn timestamp_text_possible(
    timestamp: Timestamp,
    timestamp_format: TimestampFormat,
    min: usize,
    max: usize,
    text: Seq<char>,
) -> bool {
    if timestamp_format.kind_spec() == TimestampFormatKind::SecondsSinceUnixEpoch {
        text == epoch_seconds_text(timestamp@ as int, min, max)
    } else if timestamp_format.kind_spec() == TimestampFormatKind::Utc {
        exists|today: Option<CivilDateTime>|
            {
                &&& today matches Some(d) ==> d.wf()
                &&& text == #[trigger] clock_text(
                    timestamp_format,
                    utc_civil(timestamp@ as int),
                    on_today(utc_civil(timestamp@ as int), today),
                    0,
                    min,
                    max,
                )
            }
    } else {
        exists|offset_seconds: int, today: Option<CivilDateTime>|
            {
                &&& -93599 <= offset_seconds <= 93599
                &&& today matches Some(d) ==> d.wf()
                &&& text == #[trigger] clock_text(
                    timestamp_format,
                    utc_civil(timestamp@ + offset_seconds * 1_000_000_000),
                    on_today(utc_civil(timestamp@ + offset_seconds * 1_000_000_000), today),
                    offset_seconds,
                    min,
                    max,
                )
            }
    }
}

/// Whether `text` is what [`Timestamp::format_opt_given`] can write for
/// `timestamp` where the clock's current reading is `today` (`None` where it
/// is not known): exactly its seconds since the epoch for that kind; exactly
/// the clock text of its UTC reading in UTC; for the local kinds, the clock
/// text of its UTC reading shifted by the local zone's offset there, with that
/// offset. The date is left out exactly where the format is short, or hides
/// today's date and the reading falls on `today`'s date. What is left open is
/// the local offset.
pub open spec fn timestamp_text_given(
    timestamp: Timestamp,
    timestamp_format: TimestampFormat,
    min: usize,
    max: usize,
    today: Option<CivilDateTime>,
    text: Seq<char>,
) -> bool {
    if timestamp_format.kind_spec() == TimestampFormatKind::SecondsSinceUnixEpoch {
        text == epoch_seconds_text(timestamp@ as int, min, max)
    } else if timestamp_format.kind_spec() == TimestampFormatKind::Utc {
        text == clock_text(
            timestamp_format,
            utc_civil(timestamp@ as int),
            on_today(utc_civil(timestamp@ as int), today),
            0,
            min,
            max,
        )
    } else {
        exists|offset_seconds: int|
            {
                &&& -93599 <= offset_seconds <= 93599
                &&& text == #[trigger] clock_text(
                    timestamp_format,
                    utc_civil(timestamp@ + offset_seconds * 1_000_000_000),
                    on_today(utc_civil(timestamp@ + offset_seconds * 1_000_000_000), today),
                    offset_seconds,
                    min,
                    max,
                )
            }
    }
}

/// What can be written for a known reading of the clock can be written.
pub proof fn lemma_text_given_possible(
    timestamp: Timestamp,
    timestamp_format: TimestampFormat,
    min: usize,
    max: usize,
    today: Option<CivilDateTime>,
    text: Seq<char>,
)
    requires
        today matches Some(d) ==> d.wf(),
        timestamp_text_given(timestamp, timestamp_format, min, max, today, text),
    ensures
        timestamp_text_possible(timestamp, timestamp_format, min, max, text),
{
    if timestamp_format.kind_spec() != TimestampFormatKind::SecondsSinceUnixEpoch
        && timestamp_format.kind_spec() != TimestampFormatKind::Utc {
        let o = choose|offset_seconds: int|
            {
                &&& -93599 <= offset_seconds <= 93599
                &&& text == #[trigger] clock_text(
                    timestamp_format,
                    utc_civil(timestamp@ + offset_seconds * 1_000_000_000),
                    on_today(utc_civil(timestamp@ + offset_seconds * 1_000_000_000), today),
                    offset_seconds,
                    min,
                    max,
                )
            };
        assert(text == clock_text(
            timestamp_format,
            utc_civil(timestamp@ + o * 1_000_000_000),
            on_today(utc_civil(timestamp@ + o * 1_000_000_000), today),
            o,
            min,
            max,
        ));
    }
}

/// Whether `text` is what [`Timestamp::format_time_compact`] can write for
/// `timestamp`: exactly its compact seconds text for seconds since the epoch,
/// exactly the compact text of its UTC reading for UTC, and for the local kinds
/// the compact text of its UTC reading shifted by the local zone's offset.
pub open spec fn compact_text_possible(
    timestamp: Timestamp,
    timestamp_format: TimestampFormat,
    text: Seq<char>,
) -> bool {
    if timestamp_format.kind_spec() == TimestampFormatKind::SecondsSinceUnixEpoch {
        text == compact_epoch_text(timestamp@ as int)
    } else if timestamp_format.kind_spec() == TimestampFormatKind::Utc {
        text == compact_clock_text(utc_civil(timestamp@ as int))
    } else {
        exists|offset_seconds: int|
            -93599 <= offset_seconds <= 93599 && text == #[trigger] compact_clock_text(
                utc_civil(timestamp@ + offset_seconds * 1_000_000_000),
            )
    }
}

proof fn lemma_patterns_supported()
    ensures
        pattern_supported("%H:%M:%S"@),
        pattern_supported("%Y-%m-%d %H:%M:%S"@),
        pattern_supported("%Y-%m-%d"@),
        pattern_supported("%H:%M"@),
{
    reveal_strlit("%H:%M:%S");
    reveal_strlit("%Y-%m-%d %H:%M:%S");
    reveal_strlit("%Y-%m-%d");
    reveal_strlit("%H:%M");
}

/// The sub-second part `nanos` as decimals after the point.
fn fractional_nanos_text(nanos: i32, min: usize, max: usize) -> (r: String)
    ensures
        r@ == fractional_text(nanos as int, min, max),
{
    let text = DurationFormatOptions::new().with_always_sign(false).with_min_decimals(min).with_max_decimals(
        max,
    ).round_towards_zero().format_nanos(nanos as i64);
    let trimmed = trim_start_char(text.as_str(), '0');
    trim_end_char(trimmed.as_str(), 's')
}

impl Timestamp {
    /// The text of a timestamp that reads `zoned` on the clock of the format's
    /// time zone, where `today` is the clock's reading of the current time there
    /// (`None` where it is not known) and `offset_seconds` is the zone's UTC
    /// offset at the timestamp. The date is omitted for a reading on today's
    /// date, where the format hides it.
    pub fn format_zoned_fields(
        timestamp_format: TimestampFormat,
        zoned: &CivilDateTime,
        today: Option<CivilDateTime>,
        offset_seconds: i32,
        subsecond_decimals: RangeInclusive<usize>,
    ) -> (r: String)
        requires
            zoned.wf(),
            -93599 <= offset_seconds <= 93599,
        ensures
            r@ == clock_text(
                timestamp_format,
                *zoned,
                on_today(*zoned, today),
                offset_seconds as int,
                subsecond_decimals@.start,
                subsecond_decimals@.end,
            ),
    {
        proof {
            lemma_patterns_supported();
        }
        let is_today = match today {
            Some(d) => zoned.is_same_date(&d),
            None => false,
        };
        let short = timestamp_format.short();
        let mut out = if short || (timestamp_format.hide_today_date() && is_today) {
            civil_strftime(zoned, "%H:%M:%S")
        } else {
            civil_strftime(zoned, "%Y-%m-%d %H:%M:%S")
        };
        let ghost formatted = out@;
        if !short {
            let nanos = fractional_nanos_text(
                zoned.subsec_nanosecond,
                *subsecond_decimals.start(),
                *subsecond_decimals.end(),
            );
            out.append(nanos.as_str());
        }
        let ghost with_nanos = out@;
        if !short {
            match timestamp_format.kind() {
                TimestampFormatKind::LocalTimezone => {
                    let offset = offset_display(offset_seconds);
                    out.append(offset.as_str());
                },
                TimestampFormatKind::LocalTimezoneImplicit => {},
                TimestampFormatKind::Utc | TimestampFormatKind::SecondsSinceUnixEpoch => {
                    out.append("Z");
                    proof {
                        reveal_strlit("Z");
                    }
                },
            }
        }
        assert(out@ =~= formatted + (if short {
            seq![]
        } else {
            fractional_text(
                zoned.subsec_nanosecond as int,
                subsecond_decimals@.start,
                subsecond_decimals@.end,
            )
        }) + zone_suffix(timestamp_format, offset_seconds as int));
        out
    }

    /// Human-readable timestamp, where the clock's current reading in the
    /// format's time zone is `today` (`None` where it is not known).
    ///
    /// Omits the date of timestamps on `today`'s date, where the format hides it.
    ///
    /// The format will omit trailing sub-second zeroes as far as `subsecond_decimals` permits it.
    pub fn format_opt_given(
        self,
        timestamp_format: TimestampFormat,
        subsecond_decimals: RangeInclusive<usize>,
        today: Option<CivilDateTime>,
    ) -> (r: String)
        requires
            today matches Some(d) ==> d.wf(),
        ensures
            timestamp_text_given(
                self,
                timestamp_format,
                subsecond_decimals@.start,
                subsecond_decimals@.end,
                today,
                r@,
            ),
    {
        match timestamp_format.kind() {
            TimestampFormatKind::SecondsSinceUnixEpoch => {
                let (secs, subsec) = timestamp_seconds_and_subsec(self.0);
                proof {
                    lemma_trunc_parts(self.0 as int, secs as int, subsec as int);
                }
                let mut out = format_int(secs);
                let fraction = fractional_nanos_text(
                    subsec,
                    *subsecond_decimals.start(),
                    *subsecond_decimals.end(),
                );
                out.append(fraction.as_str());
                out
            },
            TimestampFormatKind::LocalTimezone
            | TimestampFormatKind::LocalTimezoneImplicit
            | TimestampFormatKind::Utc => {
                let tz = timestamp_format.to_jiff_time_zone().time_zone;
                // In UTC the reading depends on the instant alone; elsewhere it is
                // the UTC reading shifted by the zone's offset at the instant.
                let (zoned, offset_seconds) = match timestamp_format.zone_choice() {
                    ZoneChoice::Utc => (civil_in_utc(self.0), 0i32),
                    ZoneChoice::System => zoned_reading(self.0, &tz),
                };
                let r = Timestamp::format_zoned_fields(
                    timestamp_format,
                    &zoned,
                    today,
                    offset_seconds,
                    subsecond_decimals,
                );
                if timestamp_format.kind() == TimestampFormatKind::Utc {
                    assert(r@ == clock_text(
                        timestamp_format,
                        utc_civil(self@ as int),
                        on_today(zoned, today),
                        0,
                        subsecond_decimals@.start,
                        subsecond_decimals@.end,
                    ));
                } else {
                    assert(-93599 <= offset_seconds <= 93599 && r@ == clock_text(
                        timestamp_format,
                        utc_civil(self@ + offset_seconds * 1_000_000_000),
                        on_today(zoned, today),
                        offset_seconds as int,
                        subsecond_decimals@.start,
                        subsecond_decimals@.end,
                    ));
                }
                r
            },
        }
    }

    /// Human-readable timestamp.
    ///
    /// Omits the date of same-day timestamps.
    ///
    /// The format will omit trailing sub-second zeroes as far as `subsecond_decimals` permits it.
    pub fn format_opt(
        self,
        timestamp_format: TimestampFormat,
        subsecond_decimals: RangeInclusive<usize>,
    ) -> (r: String)
        ensures
            timestamp_text_possible(
                self,
                timestamp_format,
                subsecond_decimals@.start,
                subsecond_decimals@.end,
                r@,
            ),
    {
        let today = if timestamp_format.kind() == TimestampFormatKind::SecondsSinceUnixEpoch {
            None
        } else {
            now_civil_in_zone(&timestamp_format.to_jiff_time_zone().time_zone)
        };
        let r = self.format_opt_given(timestamp_format, subsecond_decimals, today);
        proof {
            lemma_text_given_possible(
                self,
                timestamp_format,
                subsecond_decimals@.start,
                subsecond_decimals@.end,
                today,
                r@,
            );
        }
        r
    }

    /// Human-readable timestamp, with at most six decimals of the seconds.
    ///
    /// Omits the date of same-day timestamps.
    pub fn format(self, timestamp_format: TimestampFormat) -> (r: String)
        ensures
            timestamp_text_possible(self, timestamp_format, 0, 6, r@),
    {
        self.format_opt(timestamp_format, 0..=6)
    }

    /// The compact text of a wall-clock reading (see [`Timestamp::format_time_compact`]).
    pub fn format_zoned_compact(zoned: &CivilDateTime) -> (r: String)
        requires
            zoned.wf(),
        ensures
            r@ == compact_clock_text(*zoned),
    {
        proof {
            lemma_patterns_supported();
        }
        if zoned.is_exact_midnight() {
            civil_strftime(zoned, "%Y-%m-%d")
        } else if zoned.subsec_nanosecond != 0 {
            Duration::from_nanos(zoned.subsec_nanosecond as i64).format_subsecond_as_relative()
        } else if zoned.second == 0 {
            civil_strftime(zoned, "%H:%M")
        } else {
            civil_strftime(zoned, "%H:%M:%S")
        }
    }

    /// Useful when showing dates/times on a timeline and you want it compact.
    ///
    /// Shows dates when zoomed out, shows times when zoomed in,
    /// shows relative millisecond when really zoomed in.
    pub fn format_time_compact(self, timestamp_format: TimestampFormat) -> (r: String)
        ensures
            compact_text_possible(self, timestamp_format, r@),
    {
        match timestamp_format.kind() {
            TimestampFormatKind::SecondsSinceUnixEpoch => {
                let ns = self.0;
                let wide = ns as i128;
                let fractional: i64 = if wide < 0 {
                    (0i128 - ((0i128 - wide) % 1_000_000_000)) as i64
                } else {
                    (wide % 1_000_000_000) as i64
                };
                if fractional == 0 {
                    let whole: i64 = if wide < 0 {
                        (0i128 - ((0i128 - wide) / 1_000_000_000)) as i64
                    } else {
                        (wide / 1_000_000_000) as i64
                    };
                    format_int(whole)
                } else {
                    Duration::from_nanos(fractional).format_subsecond_as_relative()
                }
            },
            TimestampFormatKind::LocalTimezone
            | TimestampFormatKind::LocalTimezoneImplicit
            | TimestampFormatKind::Utc => {
                // In UTC the reading depends on the instant alone; elsewhere it is
                // the UTC reading shifted by the zone's offset at the instant.
                match timestamp_format.zone_choice() {
                    ZoneChoice::Utc => Timestamp::format_zoned_compact(&civil_in_utc(self.0)),
                    ZoneChoice::System => {
                        let (zoned, offset_seconds) = zoned_reading(
                            self.0,
                            &timestamp_format.to_jiff_time_zone().time_zone,
                        );
                        let r = Timestamp::format_zoned_compact(&zoned);
                        assert(-93599 <= offset_seconds <= 93599 && r@ == compact_clock_text(
                            utc_civil(self@ + offset_seconds * 1_000_000_000),
                        ));
                        r
                    },
                }
            },
        }
    }
}

/// What parsing decides, given what each step read: `utc`, the text read as a
/// timestamp with an offset; `zoned`, the instant of the text read with its own
/// time zone; `civil`, the text read as a wall-clock time; `civil_instant`, that
/// wall-clock time in the format's zone; `seconds`, the text read as seconds
/// since the epoch; `today_prefixed`, whether the text begins with today's date;
/// and `retried`, the outcome for the text prefixed with today's date, which is
/// tried where `may_retry` holds.
pub open spec fn parse_choice(
    timestamp_format: TimestampFormat,
    utc: Option<Timestamp>,
    zoned: Option<int>,
    civil: Option<CivilDateTime>,
    civil_instant: Option<int>,
    seconds: Option<Timestamp>,
    today_prefixed: bool,
    may_retry: bool,
    retried: Option<Timestamp>,
) -> Option<Timestamp> {
    match utc {
        Some(t) => Some(t),
        None => match zoned {
            Some(n) => Some(Timestamp::from_nanos_spec(n as i64)),
            None => match civil {
                Some(_) => match civil_instant {
                    Some(n) => Some(Timestamp::from_nanos_spec(n as i64)),
                    None => None,
                },
                None => if timestamp_format.kind_spec() == TimestampFormatKind::SecondsSinceUnixEpoch {
                    seconds
                } else if timestamp_format.hides_today_date() {
                    if !may_retry || today_prefixed {
                        None
                    } else {
                        retried
                    }
                } else {
                    None
                },
            },
        },
    }
}

/// An optional machine integer as an optional integer.
pub open spec fn widen(o: Option<i128>) -> Option<int> {
    match o {
        Some(n) => Some(n as int),
        None => None,
    }
}

/// Decides the outcome of parsing from what each step read (see [`parse_choice`]).
pub fn choose_parse_result(
    timestamp_format: TimestampFormat,
    utc: Option<Timestamp>,
    zoned: Option<i128>,
    civil: Option<CivilDateTime>,
    civil_instant: Option<i128>,
    seconds: Option<Timestamp>,
    today_prefixed: bool,
    may_retry: bool,
    retried: Option<Timestamp>,
) -> (r: Option<Timestamp>)
    ensures
        r == parse_choice(
            timestamp_format,
            utc,
            widen(zoned),
            civil,
            widen(civil_instant),
            seconds,
            today_prefixed,
            may_retry,
            retried,
        ),
{
    match utc {
        Some(t) => Some(t),
        None => match zoned {
            Some(n) => Some(Timestamp::from_nanos_since_epoch(#[verifier::truncate] (n as i64))),
            None => match civil {
                Some(_) => match civil_instant {
                    Some(n) => Some(Timestamp::from_nanos_since_epoch(#[verifier::truncate] (n as i64))),
                    None => None,
                },
                None => if timestamp_format.kind() == TimestampFormatKind::SecondsSinceUnixEpoch {
                    seconds
                } else if timestamp_format.hide_today_date() {
                    if !may_retry || today_prefixed {
                        None
                    } else {
                        retried
                    }
                } else {
                    None
                },
            },
        },
    }
}

/// The text tried when a bare time is given: today's date, `T`, then the text.
pub open spec fn with_date(today: Seq<char>, cleaned: Seq<char>) -> Seq<char> {
    today + seq!['T'] + cleaned
}

/// Whether `text` begins with `prefix`.
pub open spec fn has_prefix(text: Seq<char>, prefix: Seq<char>) -> bool {
    prefix.len() <= text.len() && text.take(prefix.len() as int) == prefix
}

/// The text read as a timestamp with an offset, by jiff.
pub open spec fn utc_reading(cleaned: Seq<char>) -> Option<Timestamp> {
    match parsed_timestamp_nanos(cleaned) {
        Some(n) => Some(Timestamp::from_nanos_spec(n as i64)),
        None => None,
    }
}

/// What the steps that depend on the machine may read from the cleaned text,
/// with what jiff's grammar shows of the steps that read it: a timestamp only
/// where the text begins with a date and holds an offset; a zoned instant only
/// where it begins with a date and holds a bracketed time zone annotation; a
/// wall-clock time, read where neither of those was, only where it begins with
/// a date; and, where the format's zone is UTC, exactly the UTC instant of the
/// wall-clock time the text reads as.
pub open spec fn step_readings_possible(
    cleaned: Seq<char>,
    timestamp_format: TimestampFormat,
    zoned: Option<int>,
    civil_instant: Option<int>,
) -> bool {
    &&& utc_reading(cleaned) is Some ==> temporal_shape(cleaned) && has_offset_after_date(cleaned)
    &&& zoned is Some ==> temporal_shape(cleaned) && has_bracket(cleaned)
    &&& (utc_reading(cleaned) is None && zoned is None && parsed_civil(cleaned) is Some)
        ==> temporal_shape(cleaned)
    &&& match parsed_civil(cleaned) {
        Some(c) => zone_choice_of(timestamp_format.kind_spec()) == ZoneChoice::Utc ==> civil_instant
            == utc_instant_of(c),
        None => true,
    }
}

/// The date text `YYYY-MM-DD` of a wall-clock reading.
pub open spec fn date_text(today: CivilDateTime) -> Seq<char> {
    strftime_text("%Y-%m-%d"@, today)
}

/// The text tried for `cleaned` on the date of `today`: its date text, `T`,
/// then the text, with number formatting removed.
pub open spec fn retry_text(cleaned: Seq<char>, today: CivilDateTime) -> Seq<char> {
    strip_number_formatting(with_date(date_text(today), cleaned))
}

/// The outcome of parsing the cleaned text `cleaned`, given today's date where
/// the clock was read (`today`) and the readings of the steps that depend on
/// the system's time zone: `zoned` and `civil_instant` for the text, and
/// `zoned2` and `civil_instant2` for the text on today's date, which is tried
/// in a second round without a date of its own.
pub open spec fn round_result(
    cleaned: Seq<char>,
    timestamp_format: TimestampFormat,
    seconds: Option<Timestamp>,
    today: Option<CivilDateTime>,
    zoned: Option<int>,
    civil_instant: Option<int>,
    zoned2: Option<int>,
    civil_instant2: Option<int>,
) -> Option<Timestamp> {
    match today {
        None => parse_choice(
            timestamp_format,
            utc_reading(cleaned),
            zoned,
            parsed_civil(cleaned),
            civil_instant,
            seconds,
            false,
            false,
            None,
        ),
        Some(d) => parse_choice(
            timestamp_format,
            utc_reading(cleaned),
            zoned,
            parsed_civil(cleaned),
            civil_instant,
            seconds,
            has_prefix(cleaned, date_text(d)),
            true,
            parse_choice(
                timestamp_format,
                utc_reading(retry_text(cleaned, d)),
                zoned2,
                parsed_civil(retry_text(cleaned, d)),
                civil_instant2,
                None,
                false,
                false,
                None,
            ),
        ),
    }
}

/// Whether the text on today's date is tried: where today's date is known,
/// the text was read neither as a timestamp, nor with a zone, nor as a
/// wall-clock time, the format reads a clock and hides today's date, and the
/// text does not begin with today's date already.
pub open spec fn retry_taken(
    cleaned: Seq<char>,
    timestamp_format: TimestampFormat,
    today: Option<CivilDateTime>,
    zoned: Option<int>,
) -> bool {
    &&& today is Some
    &&& utc_reading(cleaned) is None
    &&& zoned is None
    &&& parsed_civil(cleaned) is None
    &&& timestamp_format.kind_spec() != TimestampFormatKind::SecondsSinceUnixEpoch
    &&& timestamp_format.hides_today_date()
    &&& !has_prefix(cleaned, date_text(today->0))
}

/// Whether `r` is what parsing can give for the cleaned text on the date of
/// `today`: the outcome for some readings that the steps depending on the
/// system's time zone may give.
pub open spec fn parse_result_possible(
    cleaned: Seq<char>,
    timestamp_format: TimestampFormat,
    seconds: Option<Timestamp>,
    today: Option<CivilDateTime>,
    r: Option<Timestamp>,
) -> bool {
    exists|zoned: Option<int>, civil_instant: Option<int>, zoned2: Option<int>, civil_instant2: Option<int>|
        {
            &&& step_readings_possible(cleaned, timestamp_format, zoned, civil_instant)
            &&& retry_taken(cleaned, timestamp_format, today, zoned) ==> step_readings_possible(
                retry_text(cleaned, today->0),
                timestamp_format,
                zoned2,
                civil_instant2,
            )
            &&& r == #[trigger] round_result(
                cleaned,
                timestamp_format,
                seconds,
                today,
                zoned,
                civil_instant,
                zoned2,
                civil_instant2,
            )
        }
}

/// The instant a wall-clock reading stands for where the format's zone is UTC;
/// used as the reading of a step that was not taken.
pub open spec fn utc_civil_instant(cleaned: Seq<char>, timestamp_format: TimestampFormat) -> Option<
    int,
> {
    match parsed_civil(cleaned) {
        Some(c) => if zone_choice_of(timestamp_format.kind_spec()) == ZoneChoice::Utc {
            utc_instant_of(c)
        } else {
            None
        },
        None => None,
    }
}

impl Timestamp {
    /// Parses a timestamp on the date of `today`, the clock's reading in the
    /// format's time zone (`None` where it is not known): if the text is missing
    /// a timezone specifier, the time zone of the format is assumed; a bare time
    /// is taken as one on today's date, where the format hides today's date.
    /// `seconds` is what the text reads as seconds since the epoch (used for
    /// that format kind only).
    pub fn parse_with_format_and_today(
        s: &str,
        timestamp_format: TimestampFormat,
        seconds: Option<Timestamp>,
        today: Option<CivilDateTime>,
    ) -> (r: Option<Timestamp>)
        requires
            today matches Some(d) ==> d.wf(),
        ensures
            parse_result_possible(strip_number_formatting(s@), timestamp_format, seconds, today, r),
        decreases (if today is Some { 1int } else { 0int }),
    {
        let cleaned = remove_number_formatting(s);
        let ghost c = cleaned@;
        proof {
            lemma_strip_idempotent(s@);
        }
        let utc = match Timestamp::parse(cleaned.as_str()) {
            Ok(t) => Some(t),
            Err(_) => None,
        };
        assert(utc == utc_reading(c));
        let ghost ci0 = utc_civil_instant(c, timestamp_format);
        let ghost ci2 = match today {
            Some(d) => utc_civil_instant(retry_text(c, d), timestamp_format),
            None => None,
        };
        let may_retry = today.is_some();
        if utc.is_some() {
            let r = choose_parse_result(timestamp_format, utc, None, None, None, seconds, false, may_retry, None);
            assert(r == round_result(c, timestamp_format, seconds, today, None, ci0, None, ci2));
            return r;
        }
        let zoned = parse_zoned_nanos(cleaned.as_str());
        if zoned.is_some() {
            let r = choose_parse_result(timestamp_format, utc, zoned, None, None, seconds, false, may_retry, None);
            assert(r == round_result(c, timestamp_format, seconds, today, widen(zoned), ci0, None, ci2));
            return r;
        }
        let civil = parse_civil(cleaned.as_str());
        if let Some(cv) = civil {
            let civil_instant = match timestamp_format.zone_choice() {
                ZoneChoice::Utc => civil_to_utc_nanos(&cv),
                ZoneChoice::System => civil_to_zoned_nanos(&cv, &timestamp_format.to_jiff_time_zone().time_zone),
            };
            let r = choose_parse_result(
                timestamp_format,
                utc,
                zoned,
                civil,
                civil_instant,
                seconds,
                false,
                may_retry,
                None,
            );
            assert(step_readings_possible(c, timestamp_format, widen(zoned), widen(civil_instant)));
            assert(r == round_result(c, timestamp_format, seconds, today, widen(zoned), widen(civil_instant), None, ci2));
            return r;
        }
        match today {
            None => {
                let r = choose_parse_result(timestamp_format, utc, zoned, civil, None, seconds, false, false, None);
                assert(r == round_result(c, timestamp_format, seconds, today, widen(zoned), ci0, None, ci2));
                r
            },
            Some(d) => {
                if timestamp_format.kind() == TimestampFormatKind::SecondsSinceUnixEpoch
                    || !timestamp_format.hide_today_date() {
                    let r = choose_parse_result(timestamp_format, utc, zoned, civil, None, seconds, false, true, None);
                    assert(r == round_result(c, timestamp_format, seconds, today, widen(zoned), ci0, None, ci2));
                    return r;
                }
                proof {
                    lemma_patterns_supported();
                }
                let today_text = civil_strftime(&d, "%Y-%m-%d");
                let ghost t = today_text@;
                let prefixed = starts_with(cleaned.as_str(), today_text.as_str());
                assert(prefixed == has_prefix(c, t));
                if prefixed {
                    let r = choose_parse_result(timestamp_format, utc, zoned, civil, None, seconds, true, true, None);
                    assert(r == round_result(c, timestamp_format, seconds, today, widen(zoned), ci0, None, ci2));
                    return r;
                }
                let mut datetime_string = today_text.clone();
                datetime_string.append("T");
                datetime_string.append(cleaned.as_str());
                proof {
                    reveal_strlit("T");
                }
                assert(datetime_string@ =~= with_date(t, c));
                let retried = Timestamp::parse_with_format_and_today(datetime_string.as_str(), timestamp_format, None, None);
                let ghost c3 = retry_text(c, d);
                let ghost (z2, i2, z3, i3) = choose|
                    zoned: Option<int>,
                    civil_instant: Option<int>,
                    zoned2: Option<int>,
                    civil_instant2: Option<int>,
                |
                    {
                        &&& step_readings_possible(c3, timestamp_format, zoned, civil_instant)
                        &&& retried == #[trigger] round_result(
                            c3,
                            timestamp_format,
                            None,
                            None,
                            zoned,
                            civil_instant,
                            zoned2,
                            civil_instant2,
                        )
                    };
                let r = choose_parse_result(timestamp_format, utc, zoned, civil, None, seconds, false, true, retried);
                assert(retried == parse_choice(timestamp_format, utc_reading(c3), z2, parsed_civil(c3), i2, None, false, false, None));
                assert(r == round_result(c, timestamp_format, seconds, today, widen(zoned), ci0, z2, i2));
                r
            },
        }
    }

    /// Parses a timestamp; if it is missing a timezone specifier, the time zone
    /// of the format is assumed. `seconds` is what the text reads as seconds
    /// since the epoch (used for that format kind only). A bare time is taken
    /// as today's, where the format hides today's date: the clock is read in
    /// the format's time zone (see [`Timestamp::parse_with_format_and_today`]).
    pub fn parse_with_format_and_seconds(
        s: &str,
        timestamp_format: TimestampFormat,
        seconds: Option<Timestamp>,
    ) -> (r: Option<Timestamp>)
        ensures
            exists|today: Option<CivilDateTime>|
                {
                    &&& today matches Some(d) ==> d.wf()
                    &&& #[trigger] parse_result_possible(
                        strip_number_formatting(s@),
                        timestamp_format,
                        seconds,
                        today,
                        r,
                    )
                },
    {
        let today = if timestamp_format.kind() != TimestampFormatKind::SecondsSinceUnixEpoch
            && timestamp_format.hide_today_date() {
            now_civil_in_zone(&timestamp_format.to_jiff_time_zone().time_zone)
        } else {
            None
        };
        Timestamp::parse_with_format_and_today(s, timestamp_format, seconds, today)
    }
}

proof fn lemma_trunc_parts(n: int, q: int, r: int)
    requires
        q * 1_000_000_000 + r == n,
        -1_000_000_000 < r < 1_000_000_000,
        n >= 0 ==> r >= 0,
        n < 0 ==> r <= 0,
    ensures
        q == trunc_div(n, 1_000_000_000),
        r == trunc_rem(n, 1_000_000_000),
{
    if n >= 0 {
        vstd::arithmetic::div_mod::lemma_fundamental_div_mod_converse(n, 1_000_000_000, q, r);
    } else {
        vstd::arithmetic::div_mod::lemma_fundamental_div_mod_converse(-n, 1_000_000_000, -q, -r);
    }
}

impl From<jiff::Timestamp> for Timestamp {
    /// The instant's nanoseconds since the epoch, cut to 64 bits.
    fn from(value: jiff::Timestamp) -> (r: Timestamp) {
        let n = jiff_instant_nanos(&value);
        Timestamp(#[verifier::truncate] (n as i64))
    }
}

impl vstd::std_specs::convert::FromSpecImpl<jiff::Timestamp> for Timestamp {
    open spec fn obeys_from_spec() -> bool {
        true
    }

    open spec fn from_spec(value: jiff::Timestamp) -> Timestamp {
        Timestamp::from_nanos_spec(jiff_instant_nanos_of(value) as i64)
    }
}

impl From<jiff::Zoned> for Timestamp {
    /// The instant of the zoned value, cut to 64 bits.
    fn from(value: jiff::Zoned) -> (r: Timestamp) {
        let n = zoned_instant_nanos(&value);
        Timestamp(#[verifier::truncate] (n as i64))
    }
}

impl vstd::std_specs::convert::FromSpecImpl<jiff::Zoned> for Timestamp {
    open spec fn obeys_from_spec() -> bool {
        true
    }

    open spec fn from_spec(value: jiff::Zoned) -> Timestamp {
        Timestamp::from_nanos_spec(zoned_instant_nanos_of(value) as i64)
    }
}

impl From<Timestamp> for jiff::Timestamp {
    /// The jiff instant of the same nanoseconds since the epoch.
    fn from(value: Timestamp) -> (r: jiff::Timestamp)
        ensures
            jiff_instant_nanos_of(r) == value@ as i128,
    {
        jiff_instant_of(value.0)
    }
}

impl vstd::std_specs::convert::FromSpecImpl<Timestamp> for jiff::Timestamp {
    /// A jiff instant is stated by its nanoseconds (see `from` itself), not as
    /// a value.
    open spec fn obeys_from_spec() -> bool {
        false
    }

    open spec fn from_spec(value: Timestamp) -> jiff::Timestamp {
        arbitrary()
    }
}

impl TryFrom<std::time::SystemTime> for Timestamp {
    type Error = std::time::SystemTimeError;

    /// See [`Timestamp::from_system_time`].
    fn try_from(time: std::time::SystemTime) -> (r: Result<Timestamp, std::time::SystemTimeError>)
        ensures
            match system_time_nanos_of(time) {
                Some(n) => r matches Ok(t) && t@ == n as i64,
                None => r is Err,
            },
    {
        Timestamp::from_system_time(time)
    }
}

impl vstd::std_specs::convert::TryFromSpecImpl<std::time::SystemTime> for Timestamp {
    /// The error of a failed conversion is stated by `try_from` itself, not as
    /// a value.
    open spec fn obeys_try_from_spec() -> bool {
        false
    }

    open spec fn try_from_spec(time: std::time::SystemTime) -> Result<Timestamp, std::time::SystemTimeError> {
        arbitrary()
    }
}

impl From<TimeInt> for Timestamp {
    fn from(time: TimeInt) -> (r: Timestamp) {
        Timestamp::from_nanos_since_epoch(time.as_i64())
    }
}

impl vstd::std_specs::convert::FromSpecImpl<TimeInt> for Timestamp {
    open spec fn obeys_from_spec() -> bool {
        true
    }

    open spec fn from_spec(time: TimeInt) -> Timestamp {
        Timestamp::from_nanos_spec(time.0)
    }
}

impl From<Timestamp> for TimeInt {
    fn from(timestamp: Timestamp) -> (r: TimeInt) {
        TimeInt::saturated_temporal_i64(timestamp.nanos_since_epoch())
    }
}

impl vstd::std_specs::convert::FromSpecImpl<Timestamp> for TimeInt {
    open spec fn obeys_from_spec() -> bool {
        true
    }

    open spec fn from_spec(timestamp: Timestamp) -> TimeInt {
        TimeInt(temporal_i64(timestamp@))
    }
}

impl std::str::FromStr for Timestamp {
    type Err = jiff::Error;

    fn from_str(s: &str) -> (r: Result<Timestamp, jiff::Error>)
        ensures
            match parsed_timestamp_nanos(strip_number_formatting(s@)) {
                Some(n) => r matches Ok(t) && t@ == n as i64,
                None => r is Err,
            },
    {
        Timestamp::parse(s)
    }
}

impl std::ops::Sub for Timestamp {
    type Output = Duration;

    fn sub(self, rhs: Timestamp) -> (r: Duration) {
        Duration::from_nanos(saturating_sub_i64(self.0, rhs.0))
    }
}

impl vstd::std_specs::ops::SubSpecImpl for Timestamp {
    open spec fn obeys_sub_spec() -> bool {
        true
    }

    open spec fn sub_req(self, rhs: Timestamp) -> bool {
        true
    }

    open spec fn sub_spec(self, rhs: Timestamp) -> Duration {
        Duration::from_nanos_spec(saturate_i64(self@ - rhs@))
    }
}

impl std::ops::Add<Duration> for Timestamp {
    type Output = Timestamp;

    fn add(self, duration: Duration) -> (r: Timestamp) {
        Timestamp(saturating_add_i64(self.0, duration.as_nanos()))
    }
}

impl vstd::std_specs::ops::AddSpecImpl<Duration> for Timestamp {
    open spec fn obeys_add_spec() -> bool {
        true
    }

    open spec fn add_req(self, duration: Duration) -> bool {
        true
    }

    open spec fn add_spec(self, duration: Duration) -> Timestamp {
        Timestamp::from_nanos_spec(saturate_i64(self@ + duration@))
    }
}

impl std::ops::Sub<Duration> for Timestamp {
    type Output = Timestamp;

    fn sub(self, duration: Duration) -> (r: Timestamp) {
        Timestamp(saturating_sub_i64(self.0, duration.as_nanos()))
    }
}

impl vstd::std_specs::ops::SubSpecImpl<Duration> for Timestamp {
    open spec fn obeys_sub_spec() -> bool {
        true
    }

    open spec fn sub_req(self, duration: Duration) -> bool {
        true
    }

    open spec fn sub_spec(self, duration: Duration) -> Timestamp {
        Timestamp::from_nanos_spec(saturate_i64(self@ - duration@))
    }
}

impl std::ops::AddAssign<Duration> for Timestamp {
    fn add_assign(&mut self, duration: Duration)
        ensures
            final(self)@ == saturate_i64(old(self)@ + duration@),
    {
        self.0 = saturating_add_i64(self.0, duration.as_nanos());
    }
}

} // verus!
