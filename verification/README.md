# time_types

Time values for timelines, with their contracts proved by Verus:

- `TimeInt`, `Duration` and `Timestamp` (nanoseconds in an `i64`) with saturating
  arithmetic and conversions;
- time ranges relative to a cursor and their resolution to absolute ranges;
- human-readable formatting: grouped integers, durations as seconds or as
  hours/minutes/seconds, timestamps as seconds since the epoch or as wall-clock
  text in UTC or the local time zone, and parsing back;
- design tokens kept per color theme.

Layout: `src/` is the verified library (`laws.rs` holds the proved laws,
`jiff_bridge.rs` the calls into `jiff` and `web_time` with what their
documentation promises); `tests/` exercises it; `app/` holds what works with
floating-point seconds, the clock read that panics before 1970, the warning
logged where the system's time zone cannot be found, the lazily loaded design
tokens and `egui`'s theme.
