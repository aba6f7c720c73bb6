//! Console notification library with an accessibility mode.
//!
//! Two severity channels are offered: informational messages, written to a
//! caller-supplied sink, and warnings, always shown. A process-wide
//! accessibility flag, set once at startup, decides whether decorative
//! prefixes are written and whether supplementary messages are suppressed,
//! so that screen-reader users are not read inessential output.

pub mod colors;
pub mod flag;
pub mod sink;
pub mod reporter;
pub mod laws;
