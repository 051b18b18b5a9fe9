//! The calls into `jiff` (time zones, calendars, parsing and ISO printing) and
//! into `web_time` (the system clock), with what their documentation promises.
use vstd::prelude::*;
use crate::civil::{
    has_bracket, has_offset_after_date, offset_text, pattern_supported, strftime_text, temporal_shape,
    CivilDateTime,
};
use crate::format::{THIN_SPACE, MINUS};
use jiff::Timestamp as JiffInstant;

verus! {

#[verifier::external_type_specification]
#[verifier::external_body]
pub struct ExJiffError(jiff::Error);

#[verifier::external_type_specification]
#[verifier::external_body]
pub struct ExJiffTimeZone(jiff::tz::TimeZone);

#[verifier::external_type_specification]
#[verifier::external_body]
pub struct ExJiffZoned(jiff::Zoned);

#[verifier::external_type_specification]
#[verifier::external_body]
pub struct ExJiffInstant(JiffInstant);

/// What `jiff::SignedDuration::from_str` reads from a text, in nanoseconds;
/// `None` where it reports an error.
pub uninterp spec fn parsed_duration_nanos(text: Seq<char>) -> Option<int>;

/// What `jiff::Timestamp::from_str` reads from a text, in nanoseconds since the
/// Unix epoch; `None` where it reports an error.
pub uninterp spec fn parsed_timestamp_nanos(text: Seq<char>) -> Option<int>;

/// What `jiff::civil::DateTime::from_str` reads from a text; `None` where it
/// reports an error.
pub uninterp spec fn parsed_civil(text: Seq<char>) -> Option<CivilDateTime>;

/// The wall-clock reading in UTC of the instant `nanos` nanoseconds after the
/// Unix epoch, as jiff computes it (`Timestamp::to_zoned` with `TimeZone::UTC`).
pub uninterp spec fn utc_civil(nanos: int) -> CivilDateTime;

/// The instant, in nanoseconds since the Unix epoch, whose UTC reading is the
/// wall-clock time `c` (`civil::DateTime::to_zoned` with `TimeZone::UTC`);
/// `None` where it lies outside jiff's range.
pub uninterp spec fn utc_instant_of(c: CivilDateTime) -> Option<int>;

/// The nanoseconds since the Unix epoch of a jiff instant
/// (`jiff::Timestamp::as_nanosecond`).
pub uninterp spec fn jiff_instant_nanos_of(instant: JiffInstant) -> i128;

/// The nanoseconds since the Unix epoch of the instant of a zoned value
/// (`jiff::Zoned::timestamp`, then `Timestamp::as_nanosecond`).
pub uninterp spec fn zoned_instant_nanos_of(zoned: jiff::Zoned) -> i128;

/// The whole nanoseconds of a `std::time::Duration` (`Duration::as_nanos`).
pub uninterp spec fn std_duration_nanos_of(duration: std::time::Duration) -> u128;

/// The whole nanoseconds from the Unix epoch to a system time
/// (`SystemTime::duration_since(UNIX_EPOCH)`, then `Duration::as_nanos`);
/// `None` where it lies before the epoch.
pub uninterp spec fn system_time_nanos_of(time: std::time::SystemTime) -> Option<u128>;

/// The RFC 3339 text that `jiff::Timestamp`'s `Display` writes for an instant
/// given in nanoseconds since the Unix epoch.
pub uninterp spec fn rfc3339_text(nanos: int) -> Seq<char>;

/// `jiff::SignedDuration::from_str` (ISO 8601 or friendly format), then
/// `SignedDuration::as_nanos`. The result is named, not described.
#[verifier::external_body]
pub(crate) fn parse_signed_duration(text: &str) -> (r: Result<i128, jiff::Error>)
    ensures
        match r {
            Ok(n) => parsed_duration_nanos(text@) == Some(n as int),
            Err(_) => parsed_duration_nanos(text@) is None,
        },
{
    match <jiff::SignedDuration as std::str::FromStr>::from_str(text) {
        Ok(d) => Ok(d.as_nanos()),
        Err(e) => Err(e),
    }
}

/// `jiff::Timestamp::from_str` (RFC 3339 / RFC 9557 text with an offset), then
/// `Timestamp::as_nanosecond`. The result is named. As jiff's grammar shows, a
/// text that parses begins with a date (and an hour after a `T`), and holds an
/// offset after the date, which a timestamp requires.
#[verifier::external_body]
pub(crate) fn parse_timestamp(text: &str) -> (r: Result<i128, jiff::Error>)
    ensures
        match r {
            Ok(n) => parsed_timestamp_nanos(text@) == Some(n as int),
            Err(_) => parsed_timestamp_nanos(text@) is None,
        },
        r is Ok ==> temporal_shape(text@) && has_offset_after_date(text@),
{
    match <jiff::Timestamp as std::str::FromStr>::from_str(text) {
        Ok(t) => Ok(t.as_nanosecond()),
        Err(e) => Err(e),
    }
}

/// `jiff::Zoned::from_str`, then the instant of the zoned value in nanoseconds
/// since the Unix epoch; `None` where parsing fails. The instant can depend on
/// the time zone database of the machine, so it is not stated; as jiff's
/// grammar shows, a text that parses begins with a date and holds a bracketed
/// time zone annotation, which a zoned value requires.
#[verifier::external_body]
pub(crate) fn parse_zoned_nanos(text: &str) -> (r: Option<i128>)
    ensures
        r is Some ==> temporal_shape(text@) && has_bracket(text@),
{
    match <jiff::Zoned as std::str::FromStr>::from_str(text) {
        Ok(zoned) => Some(zoned.timestamp().as_nanosecond()),
        Err(_) => None,
    }
}

/// `jiff::civil::DateTime::from_str`, then its fields; `None` where parsing
/// fails. The result is named; every date and time that jiff builds is valid,
/// and a text that parses begins with a date, as jiff's grammar shows.
#[verifier::external_body]
pub(crate) fn parse_civil(text: &str) -> (r: Option<CivilDateTime>)
    ensures
        r == parsed_civil(text@),
        r matches Some(c) ==> c.wf(),
        r is Some ==> temporal_shape(text@),
{
    match <jiff::civil::DateTime as std::str::FromStr>::from_str(text) {
        Ok(dt) => Some(CivilDateTime { year: dt.year(), month: dt.month(), day: dt.day(), hour: dt.hour(), minute: dt.minute(), second: dt.second(), subsec_nanosecond: dt.subsec_nanosecond() }),
        Err(_) => None,
    }
}

/// `jiff::tz::TimeZone::UTC`.
#[verifier::external_body]
pub(crate) fn utc_time_zone() -> jiff::tz::TimeZone {
    jiff::tz::TimeZone::UTC
}

/// `jiff::tz::TimeZone::try_system`: the system's time zone, or the error where
/// it cannot be found. Which comes back depends on the machine.
#[verifier::external_body]
pub(crate) fn try_system_time_zone() -> Result<jiff::tz::TimeZone, jiff::Error> {
    jiff::tz::TimeZone::try_system()
}

/// `jiff::Timestamp::from_nanosecond`, then `Timestamp::to_zoned` with a copy
/// of the time zone: the zoned value holds that instant (`Zoned::timestamp`).
/// It cannot fail for 64-bit nanoseconds, which jiff's range holds.
#[verifier::external_body]
pub(crate) fn jiff_zoned(nanos: i64, tz: &jiff::tz::TimeZone) -> (r: jiff::Zoned)
    ensures
        zoned_instant_nanos_of(r) == nanos as i128,
{
    jiff::Timestamp::from_nanosecond(nanos as i128).expect("i64 nanoseconds are in range").to_zoned(tz.clone())
}

/// `jiff::Timestamp::as_nanosecond`: the nanoseconds since the Unix epoch of a
/// jiff instant.
#[verifier::external_body]
pub(crate) fn jiff_instant_nanos(instant: &jiff::Timestamp) -> (r: i128)
    ensures
        r == jiff_instant_nanos_of(*instant),
{
    instant.as_nanosecond()
}

/// `jiff::Zoned::timestamp`, then `Timestamp::as_nanosecond`: the instant of a
/// zoned value in nanoseconds since the Unix epoch.
#[verifier::external_body]
pub(crate) fn zoned_instant_nanos(zoned: &jiff::Zoned) -> (r: i128)
    ensures
        r == zoned_instant_nanos_of(*zoned),
{
    zoned.timestamp().as_nanosecond()
}

/// `jiff::Timestamp::from_nanosecond`, which cannot fail for 64-bit
/// nanoseconds: they span about 292 years either side of 1970, inside jiff's
/// range of years -9999 to 9999. The instant holds those nanoseconds
/// (`Timestamp::as_nanosecond`).
#[verifier::external_body]
pub(crate) fn jiff_instant_of(nanos: i64) -> (r: jiff::Timestamp)
    ensures
        jiff_instant_nanos_of(r) == nanos as i128,
{
    jiff::Timestamp::from_nanosecond(nanos as i128).expect("i64 nanoseconds are in range")
}

/// `jiff::Timestamp::as_second` and `Timestamp::subsec_nanosecond` of the instant
/// `nanos` nanoseconds after the Unix epoch: as documented, the whole seconds
/// truncated towards zero and the rest, which carries the sign of `nanos`.
#[verifier::external_body]
pub(crate) fn timestamp_seconds_and_subsec(nanos: i64) -> (r: (i64, i32))
    ensures
        r.0 * 1_000_000_000 + r.1 == nanos,
        -1_000_000_000 < r.1 < 1_000_000_000,
        nanos >= 0 ==> r.1 >= 0,
        nanos < 0 ==> r.1 <= 0,
{
    let t = jiff::Timestamp::from_nanosecond(nanos as i128).expect("i64 nanoseconds are in range");
    (t.as_second(), t.subsec_nanosecond())
}

/// The wall-clock fields of an instant in a time zone and the zone's UTC offset
/// there in seconds (`Timestamp::to_zoned`, then `Zoned::datetime` and
/// `Zoned::offset`). The zone decides the offset, so only its range (±25:59:59)
/// is stated; as jiff documents, the reading is the UTC reading of the instant
/// shifted by the offset. An `i64` of nanoseconds shifted by at most 26 hours
/// stays within the years 1677 to 2262.
#[verifier::external_body]
pub(crate) fn zoned_reading(nanos: i64, tz: &jiff::tz::TimeZone) -> (r: (CivilDateTime, i32))
    ensures
        -93599 <= r.1 <= 93599,
        r.0 == utc_civil(nanos + r.1 * 1_000_000_000),
        r.0.wf(),
        1677 <= r.0.year <= 2262,
{
    let t = jiff::Timestamp::from_nanosecond(nanos as i128).expect("i64 nanoseconds are in range");
    let z = t.to_zoned(tz.clone());
    let dt = z.datetime();
    (CivilDateTime { year: dt.year(), month: dt.month(), day: dt.day(), hour: dt.hour(), minute: dt.minute(), second: dt.second(), subsec_nanosecond: dt.subsec_nanosecond() }, z.offset().seconds())
}

/// The wall-clock fields of an instant in UTC (`Timestamp::to_zoned` with
/// `TimeZone::UTC`, then `Zoned::datetime`). The reading is named; it is valid,
/// and an `i64` of nanoseconds lies within the years 1677 to 2262.
#[verifier::external_body]
pub(crate) fn civil_in_utc(nanos: i64) -> (r: CivilDateTime)
    ensures
        r == utc_civil(nanos as int),
        r.wf(),
        1677 <= r.year <= 2262,
{
    let t = jiff::Timestamp::from_nanosecond(nanos as i128).expect("i64 nanoseconds are in range");
    let dt = t.to_zoned(jiff::tz::TimeZone::UTC).datetime();
    CivilDateTime { year: dt.year(), month: dt.month(), day: dt.day(), hour: dt.hour(), minute: dt.minute(), second: dt.second(), subsec_nanosecond: dt.subsec_nanosecond() }
}

/// The wall-clock fields of the current instant in a time zone: the system
/// clock (`web_time::SystemTime::now`) read as a jiff instant with the fallible
/// `jiff::Timestamp::try_from`, which fails where the clock lies outside jiff's
/// years -9999 to 9999 (`None` then). Depends on the clock: only validity is
/// stated.
#[verifier::external_body]
pub(crate) fn now_civil_in_zone(tz: &jiff::tz::TimeZone) -> (r: Option<CivilDateTime>)
    ensures
        r matches Some(c) ==> c.wf(),
{
    match jiff::Timestamp::try_from(web_time::SystemTime::now()) {
        Ok(now) => {
            let dt = now.to_zoned(tz.clone()).datetime();
            Some(CivilDateTime { year: dt.year(), month: dt.month(), day: dt.day(), hour: dt.hour(), minute: dt.minute(), second: dt.second(), subsec_nanosecond: dt.subsec_nanosecond() })
        },
        Err(_) => None,
    }
}

/// `jiff::tz::Offset`'s `Display` for an offset given in seconds.
#[verifier::external_body]
pub(crate) fn offset_display(secs: i32) -> (r: String)
    requires
        -93599 <= secs <= 93599,
    ensures
        r@ == offset_text(secs as int),
{
    jiff::tz::Offset::from_seconds(secs).expect("offset within range").to_string()
}

/// `jiff::civil::DateTime::new` with these fields, then `DateTime::strftime` with
/// the pattern. For the conversions `%Y %m %d %H %M %S`, jiff writes the field
/// zero-padded to four (year; a negative year is `-` and three digits at
/// least) or two digits.
#[verifier::external_body]
pub(crate) fn civil_strftime(c: &CivilDateTime, pattern: &str) -> (r: String)
    requires
        c.wf(),
        pattern_supported(pattern@),
    ensures
        r@ == strftime_text(pattern@, *c),
{
    let (y, mo, d, h, mi, s, ns) = (c.year, c.month, c.day, c.hour, c.minute, c.second, c.subsec_nanosecond);
    let dt = jiff::civil::DateTime::new(y, mo, d, h, mi, s, ns).expect("valid date and time");
    dt.strftime(pattern).to_string()
}

/// `jiff::civil::DateTime::to_zoned` for these fields, then the instant in
/// nanoseconds since the Unix epoch; `None` where jiff reports an error. It
/// depends on the time zone, so nothing is stated of it.
#[verifier::external_body]
pub(crate) fn civil_to_zoned_nanos(c: &CivilDateTime, tz: &jiff::tz::TimeZone) -> Option<i128>
    requires
        c.wf(),
{
    let (y, mo, d, h, mi, s, ns) = (c.year, c.month, c.day, c.hour, c.minute, c.second, c.subsec_nanosecond);
    let dt = jiff::civil::DateTime::new(y, mo, d, h, mi, s, ns).expect("valid date and time");
    match dt.to_zoned(tz.clone()) {
        Ok(zoned) => Some(zoned.timestamp().as_nanosecond()),
        Err(_) => None,
    }
}

/// `jiff::civil::DateTime::to_zoned` with `TimeZone::UTC` for these fields,
/// then the instant in nanoseconds since the Unix epoch; `None` where jiff
/// reports an error. The instant is named; UTC has no gaps, so the UTC reading
/// of the instant is the given wall-clock time.
#[verifier::external_body]
pub(crate) fn civil_to_utc_nanos(c: &CivilDateTime) -> (r: Option<i128>)
    requires
        c.wf(),
    ensures
        match r {
            Some(n) => utc_instant_of(*c) == Some(n as int),
            None => utc_instant_of(*c) is None,
        },
        r matches Some(n) ==> utc_civil(n as int) == *c,
{
    let (y, mo, d, h, mi, s, ns) = (c.year, c.month, c.day, c.hour, c.minute, c.second, c.subsec_nanosecond);
    let dt = jiff::civil::DateTime::new(y, mo, d, h, mi, s, ns).expect("valid date and time");
    match dt.to_zoned(jiff::tz::TimeZone::UTC) {
        Ok(zoned) => Some(zoned.timestamp().as_nanosecond()),
        Err(_) => None,
    }
}

/// `jiff::Timestamp`'s `Display` (RFC 3339, in UTC). The text is named; as
/// documented, it is an RFC 3339 text (ASCII) with the precision that renders
/// the instant losslessly, which `Timestamp::from_str` reads back.
#[verifier::external_body]
pub(crate) fn rfc3339(nanos: i64) -> (r: String)
    ensures
        r@ == rfc3339_text(nanos as int),
        parsed_timestamp_nanos(r@) == Some(nanos as int),
        forall|i: int| 0 <= i < r@.len() ==> #[trigger] r@[i] != THIN_SPACE && r@[i] != MINUS,
{
    jiff::Timestamp::from_nanosecond(nanos as i128).expect("i64 nanoseconds are in range").to_string()
}

/// The nanoseconds elapsed since the Unix epoch on the system clock
/// (`web_time::SystemTime::UNIX_EPOCH.elapsed`, then `Duration::as_nanos`);
/// `None` where the clock reads a time before 1970, which `elapsed` reports as
/// an error. Depends on the clock, so nothing more is stated.
#[verifier::external_body]
pub(crate) fn system_nanos_since_epoch() -> Option<u128> {
    match web_time::SystemTime::UNIX_EPOCH.elapsed() {
        Ok(d) => Some(d.as_nanos()),
        Err(_) => None,
    }
}

/// `std::time::Duration::as_nanos`: the whole nanoseconds of the duration.
#[verifier::external_body]
pub(crate) fn std_duration_nanos(d: std::time::Duration) -> (r: u128)
    ensures
        r == std_duration_nanos_of(d),
{
    d.as_nanos()
}

#[verifier::external_type_specification]
#[verifier::external_body]
pub struct ExSystemTime(std::time::SystemTime);

#[verifier::external_type_specification]
#[verifier::external_body]
pub struct ExSystemTimeError(std::time::SystemTimeError);

/// `SystemTime::duration_since(UNIX_EPOCH)`, then `Duration::as_nanos`: the
/// error where the time lies before the epoch.
#[verifier::external_body]
pub(crate) fn nanos_since_unix_epoch(time: std::time::SystemTime) -> (r: Result<u128, std::time::SystemTimeError>)
    ensures
        match r {
            Ok(n) => system_time_nanos_of(time) == Some(n),
            Err(_) => system_time_nanos_of(time) is None,
        },
{
    match time.duration_since(std::time::SystemTime::UNIX_EPOCH) {
        Ok(d) => Ok(d.as_nanos()),
        Err(e) => Err(e),
    }
}

} // verus!
