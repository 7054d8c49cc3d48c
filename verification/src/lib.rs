//! Reads log lines of any shape and writes each in one canonical, coloured form.
//!
//! A line is either a structured record, one JSON object of a fixed shape, or
//! free text, out of which a severity, a timestamp and a place in a source
//! file are read where the line holds them. `line::process_line` does all of
//! it for one line; the other modules hold the parts.

pub mod level;
pub mod line;
pub mod location;
pub mod record;
pub mod render;
pub mod scan;
pub mod text;
pub mod timestamp;

pub use level::CustomLevel;
pub use level::Severity;
pub use line::process_line;
pub use line::process_line_at;
pub use record::SipAppJson;
pub use render::custom_print;
pub use render::NormalizedRecord;
