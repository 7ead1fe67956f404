//! Rendering of a millisecond count as text under a mixed-radix unit system.
//!
//! A [`TimeFormatter`] holds an exact conversion ratio from milliseconds to
//! base units and a layout of [`Segment`]s. Rendering multiplies the
//! millisecond count by the ratio without rounding, lets every [`TimeUnit`]
//! of the layout take its own digit from that exact total, and writes each
//! digit in the unit's radix, padded with zeros to the unit's width.

pub mod digits;
pub mod error;
pub mod formatter;
pub mod laws;
pub mod presets;
pub mod ratio;
pub mod segment;
pub mod time_of_day;
pub mod unit;

pub use digits::render_digits;
pub use error::ConfigError;
pub use formatter::TimeFormatter;
pub use presets::{
    misalian_kunimunean_time_formatter, mk_snap_time_formatter, mk_span_time_formatter, Form,
};
pub use ratio::ExactRatio;
pub use segment::Segment;
pub use time_of_day::{attempt_parse_time_since_midnight, TimeOfDay, TimeParseError};
pub use unit::TimeUnit;
