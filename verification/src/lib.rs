//! Colorized, structured formatting of individual log lines.
//!
//! A [`writer::Builder`] resolves a target stream (stdout or stderr) and a
//! style policy (auto, always, never) into a [`writer::Writer`]. For each log
//! record a fresh [`formatter::Formatter`] buffers the record's bytes; a
//! [`style::Style`] minted from the formatter wraps values so that a colored
//! span is always opened and closed around each value; and the finished
//! buffer goes to the real stream in one print call.

pub mod formatter;
pub mod style;
pub mod term;
pub mod timestamp;
pub mod writer;

pub use formatter::Formatter;
pub use style::{styled_bytes, Color, ColorSpec, Render, RenderError, Style, StyledValue};
pub use term::PrintError;
pub use timestamp::{timestamp_text, Timestamp};
pub use writer::{parse_write_style, Builder, Target, Writer, WriteStyle};
