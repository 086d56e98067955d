//! Timezone query library: resolution of IANA timezone names, strict
//! `HH:MM` wall-clock parsing, and fixed-format rendering of offsets and
//! timestamps, with the timezone database behind a narrow trusted boundary.

pub mod digits;
pub mod errors;
pub mod parse;
pub mod query;
pub mod zones;

pub use digits::format_offset_diff;
pub use digits::format_utc_offset;
pub use errors::ValidationError;
pub use parse::parse_hhmm;
pub use parse::WallClockTime;
pub use query::convert_time;
pub use query::get_current_time;
pub use query::ConversionResult;
pub use query::ConvertTimeParams;
pub use query::CurrentTimeResult;
pub use query::GetCurrentTimeParams;
pub use zones::parse_timezone;
pub use zones::ZoneHandle;
