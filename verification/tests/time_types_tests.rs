use time_types::{
    format_int, format_uint, remove_number_formatting, AbsoluteTimeRange, CivilDateTime,
    DesignTokensPerTheme, Duration, DurationFormatOptions, Theme, TimeInt, TimeRange,
    TimeRangeBoundary, TimeType, Timestamp, TimestampFormat, TimestampFormatKind, ZoneChoice, ZoneSource,
};
use time_types::timestamp::choose_parse_result;

const JAN_1_2024_NS: i64 = 1_704_067_200_000_000_000;

// ---------------------------------------------------------------------------
// TimeInt

#[test]
fn new_temporal_keeps_values_and_lifts_i64_min() {
    assert_eq!(TimeInt::new_temporal(5), TimeInt(5));
    assert_eq!(TimeInt::new_temporal(i64::MIN), TimeInt(i64::MIN + 1));
    assert_eq!(TimeInt::new_temporal(i64::MIN), TimeInt::min_value());
    assert_eq!(TimeInt::saturated_temporal_i64(i64::MIN), TimeInt::min_value());
    assert_eq!(TimeInt::saturated_temporal_i64(-7), TimeInt(-7));
    assert_eq!(TimeInt::max_value(), TimeInt(i64::MAX));
    assert_eq!(TimeInt::zero().as_i64(), 0);
}

#[test]
fn time_int_arithmetic_saturates() {
    assert_eq!(TimeInt(i64::MAX) + TimeInt(1), TimeInt(i64::MAX));
    assert_eq!(TimeInt(i64::MIN) - TimeInt(1), TimeInt(i64::MIN));
    assert_eq!(TimeInt(3) + TimeInt(4), TimeInt(7));
    assert_eq!(TimeInt(3) - TimeInt(4), TimeInt(-1));
    assert_eq!(-TimeInt(i64::MIN), TimeInt(i64::MAX));
    assert_eq!(-TimeInt(5), TimeInt(-5));
}

#[test]
fn time_int_conversions() {
    assert_eq!(TimeInt::from(42i64), TimeInt(42));
    assert_eq!(i64::from(TimeInt(42)), 42);
    assert_eq!(TimeInt::from(Duration::from_nanos(i64::MIN)), TimeInt::min_value());
    assert_eq!(Duration::from(TimeInt(9)).as_nanos(), 9);
    assert_eq!(TimeInt::from(Timestamp::from_nanos_since_epoch(11)), TimeInt(11));
    assert_eq!(Timestamp::from(TimeInt(11)).nanos_since_epoch(), 11);
}

#[test]
fn law_examples_time_int() {
    let (a, b) = (TimeInt(i64::MAX - 3), TimeInt(10));
    assert_eq!(a + b, b + a);
    assert_eq!((TimeInt(40) + TimeInt(2)) - TimeInt(2), TimeInt(40));
    assert_eq!(-(-TimeInt(-17)), TimeInt(-17));
    let t = TimeInt::new_temporal(i64::MIN);
    assert_eq!(TimeInt::new_temporal(t.as_i64()), t);
}

// ---------------------------------------------------------------------------
// Ranges

#[test]
fn boundary_times() {
    let cursor = TimeInt(10);
    assert_eq!(TimeRangeBoundary::Absolute(TimeInt(5)).start_boundary_time(cursor), TimeInt(5));
    assert_eq!(TimeRangeBoundary::CursorRelative(TimeInt(3)).end_boundary_time(cursor), TimeInt(13));
    assert_eq!(TimeRangeBoundary::Infinite.start_boundary_time(cursor), TimeInt::min_value());
    assert_eq!(TimeRangeBoundary::Infinite.end_boundary_time(cursor), TimeInt::max_value());
    assert_eq!(
        TimeRangeBoundary::CursorRelative(TimeInt(1)).end_boundary_time(TimeInt(i64::MAX)),
        TimeInt(i64::MAX)
    );
    assert_eq!(TimeRangeBoundary::at_cursor(), TimeRangeBoundary::CursorRelative(TimeInt(0)));
}

#[test]
fn relative_range_resolution_orders_bounds() {
    let range = TimeRange {
        start: TimeRangeBoundary::Absolute(TimeInt(10)),
        end: TimeRangeBoundary::Absolute(TimeInt(5)),
    };
    let abs = AbsoluteTimeRange::from_relative_time_range(&range, TimeInt(0));
    assert_eq!(abs, AbsoluteTimeRange::new(TimeInt(5), TimeInt(10)));
    assert_eq!(abs.min(), TimeInt(5));
    assert_eq!(abs.max(), TimeInt(10));

    let around = TimeRange {
        start: TimeRangeBoundary::CursorRelative(TimeInt(-2)),
        end: TimeRangeBoundary::CursorRelative(TimeInt(3)),
    };
    assert_eq!(
        AbsoluteTimeRange::from_relative_time_range(&around, TimeInt(100)),
        AbsoluteTimeRange::new(TimeInt(98), TimeInt(103))
    );
}

#[test]
fn everything_and_at_cursor_resolve() {
    assert_eq!(
        AbsoluteTimeRange::from_relative_time_range(&TimeRange::everything(), TimeInt(7)),
        AbsoluteTimeRange::everything()
    );
    assert_eq!(
        AbsoluteTimeRange::from_relative_time_range(&TimeRange::at_cursor(), TimeInt(7)),
        AbsoluteTimeRange::new(TimeInt(7), TimeInt(7))
    );
}

#[test]
fn range_contains() {
    let r = AbsoluteTimeRange::new(TimeInt(1), TimeInt(3));
    assert!(r.contains(TimeInt(1)));
    assert!(r.contains(TimeInt(3)));
    assert!(!r.contains(TimeInt(4)));
    assert!(!r.contains(TimeInt(0)));
    for t in [i64::MIN + 1, -1, 0, 1, i64::MAX] {
        assert!(!AbsoluteTimeRange::empty().contains(TimeInt(t)));
        assert!(AbsoluteTimeRange::everything().contains(TimeInt(t)));
    }
    let inclusive = r.to_range_inclusive();
    assert_eq!(*inclusive.start(), TimeInt(1));
    assert_eq!(*inclusive.end(), TimeInt(3));
}

// ---------------------------------------------------------------------------
// Number formatting

#[test]
fn format_int_groups_digits() {
    assert_eq!(format_int(0), "0");
    assert_eq!(format_int(999), "999");
    assert_eq!(format_int(1000), "1\u{2009}000");
    assert_eq!(format_int(1_234_567), "1\u{2009}234\u{2009}567");
    assert_eq!(format_int(-1234), "\u{2212}1\u{2009}234");
    assert_eq!(
        format_int(i64::MIN),
        "\u{2212}9\u{2009}223\u{2009}372\u{2009}036\u{2009}854\u{2009}775\u{2009}808"
    );
    assert_eq!(format_uint(1_000_001), "1\u{2009}000\u{2009}001");
}

#[test]
fn remove_number_formatting_undoes_format_int() {
    for n in [0i64, 7, -7, 1000, -1_234_567, 999_999, i64::MAX, i64::MIN] {
        assert_eq!(remove_number_formatting(&format_int(n)), n.to_string());
    }
    assert_eq!(remove_number_formatting("a\u{2009}b\u{2212}c"), "ab-c");
}

// ---------------------------------------------------------------------------
// Duration formatting

#[test]
fn duration_format_options_seconds() {
    let opts = DurationFormatOptions::default();
    assert_eq!(opts.format_nanos(1_500_000_000), "1.5s");
    assert_eq!(opts.format_nanos(0), "0s");
    assert_eq!(opts.format_nanos(-1_500_000_000), "\u{2212}1.5s");
    assert_eq!(opts.with_always_sign(true).format_nanos(0), "+0s");
    assert_eq!(opts.with_min_decimals(3).format_nanos(1_000_000_000), "1.000s");
    assert_eq!(opts.format_nanos(1_234_000_000_000), "1\u{2009}234s");
}

#[test]
fn duration_format_options_rounding() {
    let two = DurationFormatOptions::default().with_max_decimals(2);
    assert_eq!(two.format_nanos(1_234_567_890), "1.23s");
    assert_eq!(two.format_nanos(1_235_000_000), "1.24s");
    assert_eq!(two.round_towards_zero().format_nanos(1_239_999_999), "1.23s");
    let six = DurationFormatOptions::default().with_max_decimals(6);
    assert_eq!(six.format_nanos(1_999_999_999), "2s");
    assert_eq!(six.format_nanos(123), "0s");
    assert_eq!(six.format_nanos(500), "0.000001s");
}

#[test]
fn duration_format_options_hours_minutes() {
    let hms = DurationFormatOptions::default().with_only_seconds(false);
    assert_eq!(hms.format_nanos(3_723_500_000_000), "1h 2m 3.5s");
    assert_eq!(hms.format_nanos(90_000_000_000), "1m 30s");
    assert_eq!(hms.format_nanos(3_600_000_000_000), "1h 0m 0s");
    assert_eq!(hms.format_nanos(59_000_000_000), "59s");
}

#[test]
fn duration_format_secs_and_exact() {
    assert_eq!(Duration::from_nanos(1_500_000_000).format_secs(0..=6), "+1.5s");
    assert_eq!(Duration::from_nanos(-2_000_000_000).format_secs(1..=6), "\u{2212}2.0s");
    assert_eq!(Duration::from_nanos(3_723_000_000_001).exact_format(), "+1h 2m 3.000000001s");
    assert_eq!(Duration::from_nanos(0).exact_format(), "+0s");
}

#[test]
fn duration_subsecond_as_relative() {
    assert_eq!(Duration::from_nanos(1_500_000_000).format_subsecond_as_relative(), "+500 ms");
    assert_eq!(Duration::from_nanos(1_012_500_000).format_subsecond_as_relative(), "+12.5 ms");
    assert_eq!(Duration::from_nanos(123_456_789).format_subsecond_as_relative(), "+123.456789 ms");
    assert_eq!(Duration::from_nanos(-250_000).format_subsecond_as_relative(), "-0.25 ms");
    assert_eq!(Duration::from_nanos(2_000_000_000).format_subsecond_as_relative(), "+2s");
}

#[test]
fn duration_negation_and_conversions() {
    assert_eq!((-Duration::from_nanos(i64::MIN)).as_nanos(), i64::MAX);
    assert_eq!((-Duration::from_nanos(5)).as_nanos(), -5);
    assert_eq!((-(-Duration::from_nanos(-9))).as_nanos(), -9);
    assert_eq!(Duration::max_value().as_nanos(), i64::MAX);
    assert_eq!(Duration::from_std(std::time::Duration::from_millis(1500)).as_nanos(), 1_500_000_000);
    assert_eq!(Duration::from_std_nanos(u128::from(u64::MAX)).as_nanos(), -1);
}

#[test]
fn duration_parse() {
    assert_eq!(Duration::parse("1.5s").unwrap().as_nanos(), 1_500_000_000);
    assert_eq!("2m".parse::<Duration>().unwrap().as_nanos(), 120_000_000_000);
    assert_eq!(Duration::parse("\u{2212}2s").unwrap().as_nanos(), -2_000_000_000);
    let formatted = Duration::from_nanos(3_723_000_000_001).exact_format();
    assert_eq!(Duration::parse(&formatted).unwrap().as_nanos(), 3_723_000_000_001);
    assert!(Duration::parse("soon").is_err());
}

// ---------------------------------------------------------------------------
// Timestamp

#[test]
fn timestamp_arithmetic() {
    let t = Timestamp::from_nanos_since_epoch(100);
    let u = Timestamp::from_nanos_since_epoch(250);
    assert_eq!((u - t).as_nanos(), 150);
    assert_eq!((t + (u - t)).nanos_since_epoch(), 250);
    assert_eq!((t + Duration::from_nanos(5) - Duration::from_nanos(5)), t);
    let mut v = t;
    v += Duration::from_nanos(i64::MAX);
    assert_eq!(v.nanos_since_epoch(), i64::MAX);
    assert_eq!(
        (Timestamp::from_nanos_since_epoch(i64::MIN) - Timestamp::from_nanos_since_epoch(1)).as_nanos(),
        i64::MIN
    );
    assert_eq!(t.elapsed_until(u).as_nanos(), 150);
    assert!(Timestamp::from_nanos_since_epoch(0).elapsed().unwrap().as_nanos() > 0);
    assert!(Timestamp::try_now().unwrap().nanos_since_epoch() > JAN_1_2024_NS);
    assert_eq!(Timestamp::from_clock_nanos(7).nanos_since_epoch(), 7);
    let later = std::time::SystemTime::UNIX_EPOCH + std::time::Duration::from_secs(3);
    assert_eq!(Timestamp::from_system_time(later).unwrap().nanos_since_epoch(), 3_000_000_000);
}

#[test]
fn timestamp_iso_and_parse() {
    assert_eq!(Timestamp::from_nanos_since_epoch(0).format_iso(), "1970-01-01T00:00:00Z");
    assert_eq!(
        Timestamp::from_nanos_since_epoch(1_500_000_000).format_iso(),
        "1970-01-01T00:00:01.5Z"
    );
    let t = Timestamp::parse("2024-01-01T00:00:00Z").unwrap();
    assert_eq!(t.nanos_since_epoch(), JAN_1_2024_NS);
    let u: Timestamp = "2024-01-01T01:00:00+01:00".parse().unwrap();
    assert_eq!(u.nanos_since_epoch(), JAN_1_2024_NS);
    assert!(Timestamp::parse("yesterday").is_err());
}

#[test]
fn timestamp_format_seconds_since_epoch() {
    let f = TimestampFormat::unix_epoch();
    assert_eq!(Timestamp::from_nanos_since_epoch(1_500_000_000).format(f), "1.5");
    assert_eq!(Timestamp::from_nanos_since_epoch(3_000_000_000).format(f), "3");
    assert_eq!(
        Timestamp::from_nanos_since_epoch(JAN_1_2024_NS + 500_000_000).format(f),
        "1\u{2009}704\u{2009}067\u{2009}200.5"
    );
    assert_eq!(Timestamp::from_nanos_since_epoch(1_123_456_789).format(f), "1.123456");
    assert_eq!(Timestamp::from_nanos_since_epoch(1_123_456_789).format_opt(f, 0..=9), "1.123456789");
}

#[test]
fn timestamp_format_utc_clock() {
    let t = Timestamp::from_nanos_since_epoch(JAN_1_2024_NS + 500_000_000);
    assert_eq!(t.format(TimestampFormat::utc()), "2024-01-01 00:00:00.5Z");
    assert_eq!(t.format(TimestampFormat::utc().with_short(true)), "00:00:00");
    assert_eq!(t.format(TimestampFormat::local_timezone_implicit()), "2024-01-01 00:00:00.5");
    assert_eq!(t.format_opt(TimestampFormat::utc(), 3..=6), "2024-01-01 00:00:00.500Z");
    let midnight = Timestamp::from_nanos_since_epoch(JAN_1_2024_NS);
    assert_eq!(midnight.format(TimestampFormat::utc()), "2024-01-01 00:00:00Z");
}

#[test]
fn timestamp_format_local_offset() {
    // The machine that runs these tests keeps its clock in UTC.
    let t = Timestamp::from_nanos_since_epoch(JAN_1_2024_NS);
    assert_eq!(t.format(TimestampFormat::local_timezone()), "2024-01-01 00:00:00+00");
}

#[test]
fn timestamp_format_today_hides_date() {
    let now = Timestamp::try_now().unwrap();
    let text = now.format(TimestampFormat::utc());
    assert!(text.len() < 20, "{text}");
    let shown = now.format(TimestampFormat::utc().with_hide_today_date(false));
    assert!(shown.len() > text.len());
}

#[test]
fn timestamp_format_zoned_fields_exact() {
    let zoned = CivilDateTime {
        year: 2024,
        month: 6,
        day: 9,
        hour: 7,
        minute: 5,
        second: 3,
        subsec_nanosecond: 250_000_000,
    };
    let f = TimestampFormat::local_timezone();
    assert_eq!(
        Timestamp::format_zoned_fields(f, &zoned, None, 3600, 0..=6),
        "2024-06-09 07:05:03.25+01"
    );
    let same_day = CivilDateTime { hour: 23, ..zoned };
    let next_day = CivilDateTime { day: 10, ..zoned };
    assert_eq!(Timestamp::format_zoned_fields(f, &zoned, Some(same_day), -19800, 0..=6), "07:05:03.25-05:30");
    assert_eq!(
        Timestamp::format_zoned_fields(f, &zoned, Some(next_day), -19800, 0..=6),
        "2024-06-09 07:05:03.25-05:30"
    );
    assert_eq!(
        Timestamp::format_zoned_fields(f.with_hide_today_date(false), &zoned, Some(same_day), -19800, 0..=6),
        "2024-06-09 07:05:03.25-05:30"
    );
    assert_eq!(
        Timestamp::format_zoned_fields(TimestampFormat::utc(), &zoned, Some(same_day), 0, 0..=0),
        "07:05:03Z"
    );
}

#[test]
fn timestamp_format_time_compact() {
    let f = TimestampFormat::utc();
    let at = |ns: i64| Timestamp::from_nanos_since_epoch(JAN_1_2024_NS + ns).format_time_compact(f);
    assert_eq!(at(0), "2024-01-01");
    assert_eq!(at(45_000_000_000_000), "12:30");
    assert_eq!(at(45_005_000_000_000), "12:30:05");
    assert_eq!(at(45_005_250_000_000), "+250 ms");
    let e = TimestampFormat::unix_epoch();
    assert_eq!(Timestamp::from_nanos_since_epoch(5_000_000_000).format_time_compact(e), "5");
    assert_eq!(Timestamp::from_nanos_since_epoch(5_250_000_000).format_time_compact(e), "+250 ms");
    assert_eq!(Timestamp::from_nanos_since_epoch(-250_000_000).format_time_compact(e), "-250 ms");
}

#[test]
fn timestamp_parse_with_format() {
    let f = TimestampFormat::utc();
    let parse = |s: &str| Timestamp::parse_with_format_and_seconds(s, f, None).map(|t| t.nanos_since_epoch());
    assert_eq!(parse("2024-01-01T00:00:00Z"), Some(JAN_1_2024_NS));
    assert_eq!(parse("2024-01-01T12:00:00"), Some(JAN_1_2024_NS + 43_200_000_000_000));
    assert_eq!(parse("2024-01-01T01:00:00+01:00[+01:00]"), Some(JAN_1_2024_NS));
    assert_eq!(parse("garbage"), None);
    assert!(parse("12:00:00").is_some());
    let hidden = TimestampFormat::utc().with_hide_today_date(false);
    assert_eq!(Timestamp::parse_with_format_and_seconds("12:00:00", hidden, None), None);
    let secs = Some(Timestamp::from_nanos_since_epoch(42));
    assert_eq!(Timestamp::parse_with_format_and_seconds("0.000000042", TimestampFormat::unix_epoch(), secs), secs);
    assert_eq!(Timestamp::parse_with_format_and_seconds("0.000000042", TimestampFormat::utc(), secs), None);
}

// ---------------------------------------------------------------------------
// TimestampFormat and TimeType

#[test]
fn timestamp_format_builders() {
    let f = TimestampFormat::default();
    assert_eq!(f.kind(), TimestampFormatKind::Utc);
    assert!(f.hide_today_date());
    assert!(!f.short());
    let g = TimestampFormat::local_timezone().with_short(true).with_hide_today_date(false);
    assert_eq!(g.kind(), TimestampFormatKind::LocalTimezone);
    assert!(g.short());
    assert!(!g.hide_today_date());
    assert_eq!(TimestampFormat::from(TimestampFormatKind::SecondsSinceUnixEpoch), TimestampFormat::unix_epoch());
    assert_eq!(TimestampFormatKind::default(), TimestampFormatKind::Utc);
    assert_eq!(TimestampFormat::local_timezone_implicit().kind(), TimestampFormatKind::LocalTimezoneImplicit);
}

#[test]
fn time_type_format() {
    let f = TimestampFormat::utc();
    assert_eq!(TimeType::format_sequence(TimeInt(1234)), "#1\u{2009}234");
    assert_eq!(TimeType::Sequence.format(TimeInt::min_value(), f), "beginning");
    assert_eq!(TimeType::DurationNs.format(TimeInt::max_value(), f), "end");
    assert_eq!(TimeType::DurationNs.format(TimeInt(1_500_000_000), f), "+1.5s");
    assert_eq!(
        TimeType::TimestampNs.format_utc(TimeInt(JAN_1_2024_NS + 500_000_000)),
        "2024-01-01 00:00:00.5Z"
    );
    assert_eq!(
        TimeType::Sequence.format_range(AbsoluteTimeRange::new(TimeInt(1), TimeInt(2)), f),
        "#1..=#2"
    );
    assert_eq!(
        TimeType::Sequence.format_range_utc(AbsoluteTimeRange::everything()),
        "beginning..=end"
    );
    assert_eq!(TimeType::DurationNs.format_opt(TimeInt(-1_000_000_000), f, 2..=6), "\u{2212}1.00s");
    assert_eq!(TimeType::Sequence.name(), "sequence");
    assert_eq!(TimeType::DurationNs.name(), "duration");
    assert_eq!(TimeType::TimestampNs.name(), "timestamp");
}

#[test]
fn design_tokens_per_theme() {
    let tokens = DesignTokensPerTheme::new("dark tokens", "light tokens");
    assert_eq!(*tokens.design_tokens_of(Theme::Dark), "dark tokens");
    assert_eq!(*tokens.design_tokens_of(Theme::Light), "light tokens");
}

// ---------------------------------------------------------------------------
// Zone choice, parse decisions, round trips and conversions

#[test]
fn zone_choice_per_kind() {
    assert_eq!(TimestampFormat::utc().zone_choice(), ZoneChoice::Utc);
    assert_eq!(TimestampFormat::unix_epoch().zone_choice(), ZoneChoice::Utc);
    assert_eq!(TimestampFormat::local_timezone().zone_choice(), ZoneChoice::System);
    assert_eq!(TimestampFormat::local_timezone_implicit().zone_choice(), ZoneChoice::System);
}

#[test]
fn choose_parse_result_decides_in_order() {
    let f = TimestampFormat::utc();
    let t = |n: i64| Timestamp::from_nanos_since_epoch(n);
    let civil = CivilDateTime {
        year: 1970,
        month: 1,
        day: 1,
        hour: 0,
        minute: 0,
        second: 1,
        subsec_nanosecond: 0,
    };
    // A timestamp with an offset wins over everything else.
    assert_eq!(choose_parse_result(f, Some(t(7)), Some(8), Some(civil), Some(9), None, false, true, None), Some(t(7)));
    // Then the instant of a zoned text.
    assert_eq!(choose_parse_result(f, None, Some(8), Some(civil), Some(9), None, false, true, None), Some(t(8)));
    // Then a wall-clock time in the format's zone; none where it has no instant.
    assert_eq!(choose_parse_result(f, None, None, Some(civil), Some(9), None, false, true, None), Some(t(9)));
    assert_eq!(choose_parse_result(f, None, None, Some(civil), None, None, false, true, Some(t(1))), None);
    // Seconds since the epoch only for that kind.
    let secs = Some(t(1_500_000_000));
    assert_eq!(choose_parse_result(TimestampFormat::unix_epoch(), None, None, None, None, secs, false, true, None), secs);
    assert_eq!(choose_parse_result(f.with_hide_today_date(false), None, None, None, None, secs, false, true, None), None);
    // The retry with today's date, only once and only where the date is not there yet.
    assert_eq!(choose_parse_result(f, None, None, None, None, None, false, true, Some(t(5))), Some(t(5)));
    assert_eq!(choose_parse_result(f, None, None, None, None, None, true, true, Some(t(5))), None);
    assert_eq!(choose_parse_result(f, None, None, None, None, None, false, false, Some(t(5))), None);
}

#[test]
fn parse_with_format_examples() {
    let utc = TimestampFormat::utc();
    assert_eq!(
        Timestamp::parse_with_format_and_seconds("1970-01-01T00:00:01", utc, None),
        Some(Timestamp::from_nanos_since_epoch(1_000_000_000))
    );
    assert_eq!(Timestamp::parse_with_format_and_seconds("hello", utc, None), None);
    let secs = Some(Timestamp::from_nanos_since_epoch(1_500_000_000));
    assert_eq!(Timestamp::parse_with_format_and_seconds("1.5", TimestampFormat::unix_epoch(), secs), secs);
    assert_eq!(
        Timestamp::parse_with_format_and_seconds("1.5", utc.with_hide_today_date(false), secs),
        None
    );
}

#[test]
fn parse_bare_time_as_today() {
    let now = std::time::SystemTime::now().duration_since(std::time::UNIX_EPOCH).unwrap();
    let today_ns = (now.as_secs() - now.as_secs() % 86_400) as i64 * 1_000_000_000;
    let parsed = Timestamp::parse_with_format_and_seconds("12:34:56", TimestampFormat::utc(), None);
    assert_eq!(parsed, Some(Timestamp::from_nanos_since_epoch(today_ns + 45_296_000_000_000)));
}

#[test]
fn format_iso_parses_back_in_every_format() {
    let formats = [
        TimestampFormat::utc(),
        TimestampFormat::unix_epoch(),
        TimestampFormat::local_timezone(),
        TimestampFormat::local_timezone_implicit().with_hide_today_date(false),
    ];
    for n in [0, 1, -1, 1_500_000_000, JAN_1_2024_NS + 123_456_789, -JAN_1_2024_NS] {
        let t = Timestamp::from_nanos_since_epoch(n);
        for f in formats {
            assert_eq!(Timestamp::parse_with_format_and_seconds(&t.format_iso(), f, None), Some(t));
        }
    }
}

#[test]
fn local_and_implicit_differ_by_the_offset() {
    let zoned = CivilDateTime {
        year: 2024,
        month: 6,
        day: 9,
        hour: 7,
        minute: 5,
        second: 3,
        subsec_nanosecond: 0,
    };
    let explicit = TimestampFormat::local_timezone().with_hide_today_date(false);
    let implicit = TimestampFormat::local_timezone_implicit().with_hide_today_date(false);
    let a = Timestamp::format_zoned_fields(explicit, &zoned, None, 19_800, 0..=6);
    let b = Timestamp::format_zoned_fields(implicit, &zoned, None, 19_800, 0..=6);
    assert_eq!(a, format!("{b}+05:30"));
    let short_a = Timestamp::format_zoned_fields(explicit.with_short(true), &zoned, None, 19_800, 0..=6);
    let short_b = Timestamp::format_zoned_fields(implicit.with_short(true), &zoned, None, 19_800, 0..=6);
    assert_eq!(short_a, short_b);
    // Through the clock: the explicit text starts with the implicit one and adds a signed offset.
    let t = Timestamp::from_nanos_since_epoch(JAN_1_2024_NS);
    let full = t.format(explicit);
    let bare = t.format(implicit);
    assert!(full.starts_with(&bare));
    let rest = &full[bare.len()..];
    assert!(rest.starts_with('+') || rest.starts_with('-'), "{rest}");
}

#[test]
fn conversions_with_jiff_and_std() {
    let j = jiff::Timestamp::from_second(1).unwrap();
    assert_eq!(Timestamp::from(j), Timestamp::from_nanos_since_epoch(1_000_000_000));
    let back: jiff::Timestamp = Timestamp::from_nanos_since_epoch(-2_500_000_000).into();
    assert_eq!(back.as_nanosecond(), -2_500_000_000);
    let zoned = j.to_zoned(jiff::tz::TimeZone::UTC);
    assert_eq!(Timestamp::from(zoned), Timestamp::from_nanos_since_epoch(1_000_000_000));
    assert_eq!(Duration::from(std::time::Duration::from_millis(1500)), Duration::from_nanos(1_500_000_000));
    let sys = std::time::UNIX_EPOCH + std::time::Duration::from_secs(3);
    assert_eq!(Timestamp::try_from(sys).unwrap(), Timestamp::from_nanos_since_epoch(3_000_000_000));
    assert!(Timestamp::try_from(std::time::UNIX_EPOCH - std::time::Duration::from_secs(3)).is_err());
    let range: std::ops::RangeInclusive<TimeInt> = AbsoluteTimeRange::new(TimeInt(1), TimeInt(5)).into();
    assert_eq!(range, TimeInt(1)..=TimeInt(5));
}

#[test]
fn exact_format_tells_nanoseconds_apart() {
    let texts: Vec<String> = [
        -3_600_000_000_001,
        -1,
        0,
        1,
        10,
        100_000_000,
        1_000_000_000,
        60_000_000_000,
        3_600_000_000_000,
        3_600_000_000_001,
    ]
    .iter()
    .map(|&n| Duration::from_nanos(n).exact_format())
    .collect();
    for i in 0..texts.len() {
        for j in 0..i {
            assert_ne!(texts[i], texts[j]);
        }
    }
    assert_eq!(Duration::from_nanos(3_600_000_000_001).exact_format(), "+1h 0m 0.000000001s");
    assert_eq!(Duration::from_nanos(-1).exact_format(), "\u{2212}0.000000001s");
}

#[test]
fn parse_bare_time_on_given_date() {
    let today = CivilDateTime {
        year: 2024,
        month: 1,
        day: 1,
        hour: 9,
        minute: 0,
        second: 0,
        subsec_nanosecond: 0,
    };
    let utc = TimestampFormat::utc();
    let parse = |s: &str, f: TimestampFormat, d: Option<CivilDateTime>| {
        Timestamp::parse_with_format_and_today(s, f, None, d).map(|t| t.nanos_since_epoch())
    };
    assert_eq!(parse("12:34:56", utc, Some(today)), Some(JAN_1_2024_NS + 45_296_000_000_000));
    assert_eq!(parse("12:34:56", utc, None), None);
    assert_eq!(parse("12:34:56", utc.with_hide_today_date(false), Some(today)), None);
    assert_eq!(parse("2024-01-01", utc, Some(today)), Some(JAN_1_2024_NS));
    assert_eq!(parse("hello", utc, Some(today)), None);
}

#[test]
fn time_zone_sources() {
    let utc = TimestampFormat::utc().to_jiff_time_zone();
    assert_eq!(utc.source, ZoneSource::Utc);
    assert_eq!(utc.time_zone, jiff::tz::TimeZone::UTC);
    assert!(utc.lookup_error.is_none());
    assert_eq!(TimestampFormat::unix_epoch().to_jiff_time_zone().source, ZoneSource::Utc);
    let local = TimestampFormat::local_timezone().to_jiff_time_zone();
    assert!(matches!(local.source, ZoneSource::System | ZoneSource::FallbackUtc));
    assert_eq!(local.lookup_error.is_some(), local.source == ZoneSource::FallbackUtc);
    let system = jiff::tz::TimeZone::fixed(jiff::tz::Offset::from_hours(2).unwrap());
    let from_system = TimestampFormat::local_timezone_implicit()
        .time_zone_from(Ok(system.clone()), jiff::tz::TimeZone::UTC);
    assert_eq!(from_system.source, ZoneSource::System);
    assert_eq!(from_system.time_zone, system);
    let utc_kind = TimestampFormat::utc().time_zone_from(Ok(system), jiff::tz::TimeZone::UTC);
    assert_eq!(utc_kind.source, ZoneSource::Utc);
    assert_eq!(utc_kind.time_zone, jiff::tz::TimeZone::UTC);
}

#[test]
fn to_jiff_zoned_keeps_the_instant() {
    let t = Timestamp::from_nanos_since_epoch(JAN_1_2024_NS + 7);
    let z = t.to_jiff_zoned(TimestampFormat::utc());
    assert_eq!(z.timestamp().as_nanosecond(), (JAN_1_2024_NS + 7) as i128);
    assert_eq!(Timestamp::from(z), t);
}
