//! How to display a [`Timestamp`](crate::Timestamp): which clock, and how much of it.
use vstd::prelude::*;
use crate::jiff_bridge::{try_system_time_zone, utc_time_zone};

verus! {

/// How to display a [`Timestamp`](crate::Timestamp).
#[derive(Clone, Copy, Debug, PartialEq, Eq, Structural, Hash)]
pub enum TimestampFormatKind {
    /// Convert to the local timezone and display as such explicitly (e.g. with "+01" for CET).
    LocalTimezone,
    /// Convert to the local timezone and display as such without specifying the timezone.
    ///
    /// Note that in this case the representation is ambiguous.
    LocalTimezoneImplicit,
    /// Display as UTC.
    Utc,
    /// Show as seconds since unix epoch
    SecondsSinceUnixEpoch,
}

impl Default for TimestampFormatKind {
    fn default() -> (r: TimestampFormatKind)
        ensures
            r == TimestampFormatKind::Utc,
    {
        TimestampFormatKind::Utc
    }
}

/// The time zone a format reads clocks in.
#[derive(Clone, Copy, Debug, PartialEq, Eq, Structural, Hash)]
pub enum ZoneChoice {
    /// Coordinated universal time.
    Utc,
    /// The time zone of the system (UTC where it cannot be found).
    System,
}

/// The time zone of a format kind: UTC for UTC and for seconds since the
/// epoch, the system's for the two local kinds.
pub open spec fn zone_choice_of(kind: TimestampFormatKind) -> ZoneChoice {
    match kind {
        TimestampFormatKind::Utc | TimestampFormatKind::SecondsSinceUnixEpoch => ZoneChoice::Utc,
        TimestampFormatKind::LocalTimezone | TimestampFormatKind::LocalTimezoneImplicit => ZoneChoice::System,
    }
}

/// Where the time zone of a format came from.
#[derive(Clone, Copy, Debug, PartialEq, Eq, Structural, Hash)]
pub enum ZoneSource {
    /// UTC, which the format reads clocks in.
    Utc,
    /// The system's time zone.
    System,
    /// UTC, because the system's time zone could not be found.
    FallbackUtc,
}

/// The source of a format's time zone, given its zone choice and whether the
/// system's time zone was found.
pub open spec fn zone_source_of(choice: ZoneChoice, system_found: bool) -> ZoneSource {
    match choice {
        ZoneChoice::Utc => ZoneSource::Utc,
        ZoneChoice::System => if system_found {
            ZoneSource::System
        } else {
            ZoneSource::FallbackUtc
        },
    }
}

/// The time zone of a format, with where it came from, and the error of the
/// system's time zone lookup where it failed (to be reported as a warning).
pub struct FormatTimeZone {
    /// Where the time zone came from.
    pub source: ZoneSource,
    /// The time zone.
    pub time_zone: jiff::tz::TimeZone,
    /// Why the system's time zone could not be found, where it could not.
    pub lookup_error: Option<jiff::Error>,
}

/// How to display a [`Timestamp`](crate::Timestamp).
#[derive(Clone, Copy, Debug, PartialEq, Eq, Hash)]
pub struct TimestampFormat {
    /// What kind of format to use.
    format_kind: TimestampFormatKind,
    /// For date-time format kinds, should we omit the date part when it's today?
    ///
    /// By default, we do, but having this toggle is convenient for the uses-cases where omitting
    /// the date part is not desirable.
    hide_today_date: bool,
    /// For date-time format kinds, should we omit date, nanos and suffix?
    short: bool,
}

impl TimestampFormat {
    /// The kind of format.
    pub closed spec fn kind_spec(self) -> TimestampFormatKind {
        self.format_kind
    }

    /// Whether the date is omitted for timestamps of today.
    pub closed spec fn hides_today_date(self) -> bool {
        self.hide_today_date
    }

    /// Whether date, sub-seconds and zone suffix are omitted.
    pub closed spec fn is_short(self) -> bool {
        self.short
    }

    /// The format of the given kind that hides today's date and is not short.
    pub closed spec fn of_kind(kind: TimestampFormatKind) -> TimestampFormat {
        TimestampFormat { format_kind: kind, hide_today_date: true, short: false }
    }

    pub broadcast proof fn lemma_of_kind(kind: TimestampFormatKind)
        ensures
            #[trigger] TimestampFormat::of_kind(kind).kind_spec() == kind,
            TimestampFormat::of_kind(kind).hides_today_date(),
            !TimestampFormat::of_kind(kind).is_short(),
    {
    }

    /// The format of the given kind that hides today's date and is not short.
    pub fn from_kind(kind: TimestampFormatKind) -> (r: TimestampFormat)
        ensures
            r == TimestampFormat::of_kind(kind),
            r.kind_spec() == kind,
            r.hides_today_date(),
            !r.is_short(),
    {
        TimestampFormat { format_kind: kind, hide_today_date: true, short: false }
    }

    pub fn utc() -> (r: TimestampFormat)
        ensures
            r == TimestampFormat::of_kind(TimestampFormatKind::Utc),
    {
        TimestampFormat::from_kind(TimestampFormatKind::Utc)
    }

    pub fn local_timezone() -> (r: TimestampFormat)
        ensures
            r == TimestampFormat::of_kind(TimestampFormatKind::LocalTimezone),
    {
        TimestampFormat::from_kind(TimestampFormatKind::LocalTimezone)
    }

    pub fn local_timezone_implicit() -> (r: TimestampFormat)
        ensures
            r == TimestampFormat::of_kind(TimestampFormatKind::LocalTimezoneImplicit),
    {
        TimestampFormat::from_kind(TimestampFormatKind::LocalTimezoneImplicit)
    }

    pub fn unix_epoch() -> (r: TimestampFormat)
        ensures
            r == TimestampFormat::of_kind(TimestampFormatKind::SecondsSinceUnixEpoch),
    {
        TimestampFormat::from_kind(TimestampFormatKind::SecondsSinceUnixEpoch)
    }

    pub fn kind(&self) -> (r: TimestampFormatKind)
        ensures
            r == self.kind_spec(),
    {
        self.format_kind
    }

    pub fn with_hide_today_date(self, hide_date_when_today: bool) -> (r: TimestampFormat)
        ensures
            r.kind_spec() == self.kind_spec(),
            r.hides_today_date() == hide_date_when_today,
            r.is_short() == self.is_short(),
    {
        let mut s = self;
        s.hide_today_date = hide_date_when_today;
        s
    }

    pub fn with_short(self, short: bool) -> (r: TimestampFormat)
        ensures
            r.kind_spec() == self.kind_spec(),
            r.hides_today_date() == self.hides_today_date(),
            r.is_short() == short,
    {
        let mut s = self;
        s.short = short;
        s
    }

    pub fn hide_today_date(&self) -> (r: bool)
        ensures
            r == self.hides_today_date(),
    {
        self.hide_today_date
    }

    pub fn short(&self) -> (r: bool)
        ensures
            r == self.is_short(),
    {
        self.short
    }

    /// Which time zone this format reads clocks in.
    pub fn zone_choice(&self) -> (r: ZoneChoice)
        ensures
            r == zone_choice_of(self.kind_spec()),
            r == ZoneChoice::Utc <==> (self.kind_spec() == TimestampFormatKind::Utc
                || self.kind_spec() == TimestampFormatKind::SecondsSinceUnixEpoch),
    {
        match self.format_kind {
            TimestampFormatKind::SecondsSinceUnixEpoch | TimestampFormatKind::Utc => ZoneChoice::Utc,
            TimestampFormatKind::LocalTimezone | TimestampFormatKind::LocalTimezoneImplicit => {
                ZoneChoice::System
            },
        }
    }

    /// The time zone of this format, given the outcome `system` of looking up the
    /// system's time zone (read for the local kinds only) and the UTC time zone
    /// `utc`: UTC for UTC and seconds since the epoch; for the local kinds the
    /// system's time zone, or UTC with the lookup's error where it failed.
    pub fn time_zone_from(
        self,
        system: Result<jiff::tz::TimeZone, jiff::Error>,
        utc: jiff::tz::TimeZone,
    ) -> (r: FormatTimeZone)
        ensures
            r.source == zone_source_of(zone_choice_of(self.kind_spec()), system is Ok),
            r.source == ZoneSource::System ==> system == Ok::<jiff::tz::TimeZone, jiff::Error>(r.time_zone),
            r.source != ZoneSource::System ==> r.time_zone == utc,
            r.source == ZoneSource::FallbackUtc ==> (r.lookup_error matches Some(e) && system == Err::<
                jiff::tz::TimeZone,
                jiff::Error,
            >(e)),
            r.source != ZoneSource::FallbackUtc ==> r.lookup_error is None,
    {
        match self.zone_choice() {
            ZoneChoice::Utc => FormatTimeZone { source: ZoneSource::Utc, time_zone: utc, lookup_error: None },
            ZoneChoice::System => match system {
                Ok(tz) => FormatTimeZone { source: ZoneSource::System, time_zone: tz, lookup_error: None },
                Err(e) => FormatTimeZone { source: ZoneSource::FallbackUtc, time_zone: utc, lookup_error: Some(e) },
            },
        }
    }

    /// The time zone of this format: `jiff::tz::TimeZone::UTC` for UTC and
    /// seconds since the epoch, without consulting the system; for the local
    /// kinds the system's time zone, or UTC where it cannot be found, with the
    /// error to warn about (see [`TimestampFormat::time_zone_from`]).
    pub fn to_jiff_time_zone(self) -> (r: FormatTimeZone)
        ensures
            r.source == ZoneSource::Utc <==> zone_choice_of(self.kind_spec()) == ZoneChoice::Utc,
            r.source == ZoneSource::FallbackUtc <==> r.lookup_error is Some,
    {
        match self.zone_choice() {
            ZoneChoice::Utc => FormatTimeZone { source: ZoneSource::Utc, time_zone: utc_time_zone(), lookup_error: None },
            ZoneChoice::System => self.time_zone_from(try_system_time_zone(), utc_time_zone()),
        }
    }
}

impl Default for TimestampFormat {
    fn default() -> (r: TimestampFormat)
        ensures
            r == TimestampFormat::of_kind(TimestampFormatKind::Utc),
    {
        TimestampFormat::from_kind(TimestampFormatKind::Utc)
    }
}

impl From<TimestampFormatKind> for TimestampFormat {
    fn from(value: TimestampFormatKind) -> (r: TimestampFormat) {
        TimestampFormat::from_kind(value)
    }
}

impl vstd::std_specs::convert::FromSpecImpl<TimestampFormatKind> for TimestampFormat {
    open spec fn obeys_from_spec() -> bool {
        true
    }

    open spec fn from_spec(value: TimestampFormatKind) -> TimestampFormat {
        TimestampFormat::of_kind(value)
    }
}

} // verus!
