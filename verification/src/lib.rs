//! Time points, durations, ranges and their human-readable formatting.
pub mod civil;
pub mod design_tokens;
pub mod duration;
pub mod duration_format;
pub mod jiff_bridge;
pub mod laws;
pub mod format;
pub mod time_int;
pub mod time_range;
pub mod time_type;
pub mod timestamp;
pub mod timestamp_format;

pub use design_tokens::{DesignTokensPerTheme, Theme};
pub use duration::Duration;
pub use civil::CivilDateTime;
pub use duration_format::DurationFormatOptions;
pub use format::{format_int, format_uint, remove_number_formatting, MINUS, THIN_SPACE};
pub use time_range::{AbsoluteTimeRange, TimeRange, TimeRangeBoundary};
pub use timestamp::Timestamp;
pub use timestamp_format::{FormatTimeZone, TimestampFormat, TimestampFormatKind, ZoneChoice, ZoneSource};
pub use time_type::TimeType;
pub use time_int::TimeInt;
