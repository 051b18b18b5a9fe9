//! The type of a [`TimeInt`]: sequence numbers, durations or timestamps, and
//! how values of each are written.
use vstd::prelude::*;
use crate::duration::{seconds_options, Duration};
use crate::jiff_bridge::{now_civil_in_zone, utc_civil};
use crate::format::{format_int, format_int_text};
use crate::time_int::{time_int_min, TimeInt};
use crate::time_range::AbsoluteTimeRange;
use crate::timestamp::{
    clock_text, epoch_seconds_text, lemma_text_given_possible, on_today, timestamp_text_given, timestamp_text_possible,
    Timestamp,
};
use crate::civil::CivilDateTime;
use crate::timestamp_format::{TimestampFormat, TimestampFormatKind};
use std::ops::RangeInclusive;

verus! {

broadcast use {Duration::lemma_from_nanos_spec, Timestamp::lemma_from_nanos_spec};

/// The type of a [`TimeInt`] or timeline.
#[derive(Clone, Copy, Debug, Hash, PartialEq, Eq, Structural, PartialOrd, Ord)]
pub enum TimeType {
    /// Used e.g. for frames in a film.
    Sequence,
    /// Duration measured in nanoseconds.
    DurationNs,
    /// Nanoseconds since unix epoch (1970-01-01 00:00:00 UTC).
    TimestampNs,
}

impl TimeType {
    /// The name of the type: `sequence`, `duration` or `timestamp`.
    pub open spec fn name_text(self) -> Seq<char> {
        match self {
            TimeType::Sequence => "sequence"@,
            TimeType::DurationNs => "duration"@,
            TimeType::TimestampNs => "timestamp"@,
        }
    }

    /// What [`TimeType::format_opt`] writes for `time_int`, where
    /// `timestamp_text` is the text written for the timestamp of that value
    /// (see [`timestamp_text_possible`]).
    pub open spec fn time_text(
        self,
        time_int: TimeInt,
        min: usize,
        max: usize,
        timestamp_text: Seq<char>,
    ) -> Seq<char> {
        if time_int.0 == time_int_min() {
            "beginning"@
        } else if time_int.0 == i64::MAX {
            "end"@
        } else {
            match self {
                TimeType::Sequence => seq!['#'] + format_int_text(time_int.0 as int),
                TimeType::DurationNs => seconds_options(min, max).duration_text(time_int.0 as int),
                TimeType::TimestampNs => timestamp_text,
            }
        }
    }

    /// Whether `text` is what [`TimeType::format_opt_given`] can write for
    /// `time_int` where the clock's current reading is `today` (see
    /// [`timestamp_text_given`]).
    pub open spec fn time_text_given(
        self,
        time_int: TimeInt,
        timestamp_format: TimestampFormat,
        min: usize,
        max: usize,
        today: Option<CivilDateTime>,
        text: Seq<char>,
    ) -> bool {
        exists|timestamp_text: Seq<char>|
            timestamp_text_given(
                Timestamp::from_nanos_spec(time_int.0),
                timestamp_format,
                min,
                max,
                today,
                timestamp_text,
            ) && text == #[trigger] self.time_text(time_int, min, max, timestamp_text)
    }

    /// Whether `text` is what [`TimeType::format_opt`] can write for `time_int`.
    pub open spec fn time_text_possible(
        self,
        time_int: TimeInt,
        timestamp_format: TimestampFormat,
        min: usize,
        max: usize,
        text: Seq<char>,
    ) -> bool {
        exists|timestamp_text: Seq<char>|
            timestamp_text_possible(
                Timestamp::from_nanos_spec(time_int.0),
                timestamp_format,
                min,
                max,
                timestamp_text,
            ) && text == #[trigger] self.time_text(time_int, min, max, timestamp_text)
    }

    /// The name of the type: `sequence`, `duration` or `timestamp`.
    pub fn name(&self) -> (r: String)
        ensures
            r@ == self.name_text(),
    {
        proof {
            reveal_strlit("sequence");
            reveal_strlit("duration");
            reveal_strlit("timestamp");
        }
        match self {
            TimeType::Sequence => "sequence".to_owned(),
            TimeType::DurationNs => "duration".to_owned(),
            TimeType::TimestampNs => "timestamp".to_owned(),
        }
    }

    /// A sequence number, e.g. `#1 234`.
    pub fn format_sequence(time_int: TimeInt) -> (r: String)
        ensures
            TimeType::Sequence.time_text_possible(time_int, TimestampFormat::of_kind(TimestampFormatKind::Utc), 0, 6, r@),
    {
        TimeType::Sequence.format(time_int, TimestampFormat::utc())
    }

    /// The value as this type, with at most six decimals of the seconds.
    pub fn format(&self, time_int: TimeInt, timestamp_format: TimestampFormat) -> (r: String)
        ensures
            self.time_text_possible(time_int, timestamp_format, 0, 6, r@),
    {
        self.format_opt(time_int, timestamp_format, 0..=6)
    }

    /// The value as this type, where the clock's current reading in the
    /// format's time zone is `today` (`None` where it is not known): `beginning`
    /// and `end` for the extreme values, `#` and the number for sequences,
    /// signed seconds for durations, and the timestamp text for timestamps,
    /// as [`Timestamp::format_opt_given`] writes it.
    ///
    /// The format will omit trailing sub-second zeroes as far as `subsecond_decimals` permits it.
    pub fn format_opt_given(
        &self,
        time_int: TimeInt,
        timestamp_format: TimestampFormat,
        subsecond_decimals: RangeInclusive<usize>,
        today: Option<CivilDateTime>,
    ) -> (r: String)
        requires
            today matches Some(d) ==> d.wf(),
        ensures
            self.time_text_given(
                time_int,
                timestamp_format,
                subsecond_decimals@.start,
                subsecond_decimals@.end,
                today,
                r@,
            ),
    {
        let ghost min = subsecond_decimals@.start;
        let ghost max = subsecond_decimals@.end;
        if time_int.0 == TimeInt::min_value().0 {
            proof {
                reveal_strlit("beginning");
            }
            let r = "beginning".to_owned();
            assert(self.time_text(time_int, min, max, epoch_witness(time_int, timestamp_format, min, max, today)) == r@);
            proof { lemma_witness(time_int, timestamp_format, min, max, today); }
            r
        } else if time_int.0 == TimeInt::max_value().0 {
            proof {
                reveal_strlit("end");
            }
            let r = "end".to_owned();
            assert(self.time_text(time_int, min, max, epoch_witness(time_int, timestamp_format, min, max, today)) == r@);
            proof { lemma_witness(time_int, timestamp_format, min, max, today); }
            r
        } else {
            match self {
                TimeType::Sequence => {
                    let mut r = "#".to_owned();
                    proof {
                        reveal_strlit("#");
                    }
                    let digits = format_int(time_int.as_i64());
                    r.append(digits.as_str());
                    assert(self.time_text(time_int, min, max, epoch_witness(time_int, timestamp_format, min, max, today)) == r@);
                    proof { lemma_witness(time_int, timestamp_format, min, max, today); }
                    r
                },
                TimeType::DurationNs => {
                    let r = Duration::from(time_int).format_secs(subsecond_decimals);
                    assert(self.time_text(time_int, min, max, epoch_witness(time_int, timestamp_format, min, max, today)) == r@);
                    proof { lemma_witness(time_int, timestamp_format, min, max, today); }
                    r
                },
                TimeType::TimestampNs => {
                    let r = Timestamp::from(time_int).format_opt_given(timestamp_format, subsecond_decimals, today);
                    assert(self.time_text(time_int, min, max, r@) == r@);
                    r
                },
            }
        }
    }

    /// The value as this type: `beginning` and `end` for the extreme values,
    /// `#` and the number for sequences, signed seconds for durations, and the
    /// timestamp text for timestamps, which omits the date of same-day timestamps
    /// where the format hides it.
    ///
    /// The format will omit trailing sub-second zeroes as far as `subsecond_decimals` permits it.
    pub fn format_opt(
        &self,
        time_int: TimeInt,
        timestamp_format: TimestampFormat,
        subsecond_decimals: RangeInclusive<usize>,
    ) -> (r: String)
        ensures
            self.time_text_possible(
                time_int,
                timestamp_format,
                subsecond_decimals@.start,
                subsecond_decimals@.end,
                r@,
            ),
    {
        let today = match self {
            TimeType::TimestampNs => if timestamp_format.kind() == TimestampFormatKind::SecondsSinceUnixEpoch {
                None
            } else {
                now_civil_in_zone(&timestamp_format.to_jiff_time_zone().time_zone)
            },
            _ => None,
        };
        let r = self.format_opt_given(time_int, timestamp_format, subsecond_decimals, today);
        proof {
            let min = subsecond_decimals@.start;
            let max = subsecond_decimals@.end;
            let ts = choose|timestamp_text: Seq<char>|
                timestamp_text_given(
                    Timestamp::from_nanos_spec(time_int.0),
                    timestamp_format,
                    min,
                    max,
                    today,
                    timestamp_text,
                ) && r@ == #[trigger] self.time_text(time_int, min, max, timestamp_text);
            lemma_text_given_possible(Timestamp::from_nanos_spec(time_int.0), timestamp_format, min, max, today, ts);
        }
        r
    }

    /// The value as this type, with timestamps in UTC.
    pub fn format_utc(&self, time_int: TimeInt) -> (r: String)
        ensures
            self.time_text_possible(time_int, TimestampFormat::of_kind(TimestampFormatKind::Utc), 0, 6, r@),
    {
        self.format(time_int, TimestampFormat::utc())
    }

    /// Both ends of the range, joined by `..=`.
    pub fn format_range(&self, time_range: AbsoluteTimeRange, timestamp_format: TimestampFormat) -> (r:
        String)
        ensures
            exists|lo: Seq<char>, hi: Seq<char>|
                {
                    &&& self.time_text_possible(time_range.min, timestamp_format, 0, 6, lo)
                    &&& self.time_text_possible(time_range.max, timestamp_format, 0, 6, hi)
                    &&& r@ == #[trigger] range_text(lo, hi)
                },
    {
        let mut r = self.format(time_range.min(), timestamp_format);
        let hi = self.format(time_range.max(), timestamp_format);
        let ghost lo = r@;
        r.append("..=");
        r.append(hi.as_str());
        proof {
            reveal_strlit("..=");
        }
        assert(r@ =~= range_text(lo, hi@));
        r
    }

    /// Both ends of the range, joined by `..=`, with timestamps in UTC.
    pub fn format_range_utc(&self, time_range: AbsoluteTimeRange) -> (r: String)
        ensures
            exists|lo: Seq<char>, hi: Seq<char>|
                {
                    &&& self.time_text_possible(time_range.min, TimestampFormat::of_kind(TimestampFormatKind::Utc), 0, 6, lo)
                    &&& self.time_text_possible(time_range.max, TimestampFormat::of_kind(TimestampFormatKind::Utc), 0, 6, hi)
                    &&& r@ == #[trigger] range_text(lo, hi)
                },
    {
        self.format_range(time_range, TimestampFormat::utc())
    }
}

/// A text that the timestamp of `time_int` can be written as where the
/// clock reads `today`: its seconds text, or the text of its UTC reading with a
/// zero offset, where the format reads a clock.
spec fn epoch_witness(
    time_int: TimeInt,
    timestamp_format: TimestampFormat,
    min: usize,
    max: usize,
    today: Option<CivilDateTime>,
) -> Seq<char> {
    if timestamp_format.kind_spec() == TimestampFormatKind::SecondsSinceUnixEpoch {
        epoch_seconds_text(time_int.0 as int, min, max)
    } else {
        clock_text(
            timestamp_format,
            utc_civil(time_int.0 as int),
            on_today(utc_civil(time_int.0 as int), today),
            0,
            min,
            max,
        )
    }
}

proof fn lemma_witness(
    time_int: TimeInt,
    timestamp_format: TimestampFormat,
    min: usize,
    max: usize,
    today: Option<CivilDateTime>,
)
    ensures
        timestamp_text_given(
            Timestamp::from_nanos_spec(time_int.0),
            timestamp_format,
            min,
            max,
            today,
            epoch_witness(time_int, timestamp_format, min, max, today),
        ),
{
    broadcast use Timestamp::lemma_from_nanos_spec;

    assert(Timestamp::from_nanos_spec(time_int.0)@ == time_int.0);
    if timestamp_format.kind_spec() != TimestampFormatKind::SecondsSinceUnixEpoch {
        assert(time_int.0 + 0 * 1_000_000_000 == time_int.0 as int);
        assert(epoch_witness(time_int, timestamp_format, min, max, today) == clock_text(
            timestamp_format,
            utc_civil(time_int.0 + 0 * 1_000_000_000),
            on_today(utc_civil(time_int.0 + 0 * 1_000_000_000), today),
            0,
            min,
            max,
        ));
    }
}

/// Two texts joined by `..=`.
pub open spec fn range_text(lo: Seq<char>, hi: Seq<char>) -> Seq<char> {
    lo + "..="@ + hi
}

} // verus!
