//! The two reporters: informational messages and warnings.
//!
//! Each reporter is a pure function of the accessibility mode, the message
//! and (for info) the importance tag: it appends exactly the text the
//! output model below describes, and nothing else, to its sink. Warnings
//! belong on standard error; the embedding program directs the sink there.

use vstd::prelude::*;
use crate::colors::{yellow, orange, reset, yellow_code, orange_code, reset_code};
use crate::flag::AccessibilityFlag;
use crate::sink::OutputSink;

verus! {

/// The importance of an informational message.
///
/// `Accessible` messages are short and essential: they are always shown.
/// `Inaccessible` messages are supplementary: they are shown only when
/// accessibility mode is off, so screen-reader users are not read them.
#[derive(Clone, Copy, PartialEq, Eq, Structural, Debug)]
pub enum Importance {
    Accessible,
    Inaccessible,
}

/// The line terminator every report ends with.
pub open spec fn newline() -> Seq<char> {
    "\n"@
}

/// The decorated info prefix: "[INFO]" wrapped in yellow, then a space.
pub open spec fn info_prefix() -> Seq<char> {
    yellow_code() + "[INFO]"@ + reset_code() + " "@
}

/// The decorated warning prefix: the short form "Warning:" when
/// accessibility mode is off, the explicit tag "[WARNING]" when it is on,
/// wrapped in orange either way, then a space.
pub open spec fn warning_prefix(accessible: bool) -> Seq<char> {
    orange_code() + (if accessible {
        "[WARNING]"@
    } else {
        "Warning:"@
    }) + reset_code() + " "@
}

/// Everything an info report writes: nothing for a suppressed message,
/// the bare message for accessible mode, the prefixed message otherwise.
pub open spec fn info_output(accessible: bool, importance: Importance, message: Seq<char>) -> Seq<
    char,
> {
    if importance is Inaccessible && accessible {
        Seq::<char>::empty()
    } else if accessible {
        message + newline()
    } else {
        info_prefix() + message + newline()
    }
}

/// Everything a warning report writes: the mode-dependent prefix, the
/// message, a newline. Warnings are never suppressed.
pub open spec fn warning_output(accessible: bool, message: Seq<char>) -> Seq<char> {
    warning_prefix(accessible) + message + newline()
}

/// Writes the decorated "[INFO] " prefix to `handle`.
pub fn _info_helper(handle: &mut OutputSink)
    ensures
        final(handle)@ == old(handle)@ + info_prefix(),
{
    handle.write_str(yellow());
    handle.write_str("[INFO]");
    handle.write_str(reset());
    handle.write_str(" ");
    proof {
        assert(final(handle)@ =~= old(handle)@ + info_prefix());
    }
}

/// Writes the decorated warning prefix to `handle`: "Warning: " when
/// accessibility mode is off, "[WARNING] " when it is on.
pub fn _warning_helper(handle: &mut OutputSink, flag: &AccessibilityFlag)
    requires
        flag.is_set(),
    ensures
        final(handle)@ == old(handle)@ + warning_prefix(flag.mode()),
{
    handle.write_str(orange());
    if !flag.get() {
        handle.write_str("Warning:");
    } else {
        handle.write_str("[WARNING]");
    }
    handle.write_str(reset());
    handle.write_str(" ");
    proof {
        assert(final(handle)@ =~= old(handle)@ + warning_prefix(flag.mode()));
    }
}

/// Reports an informational message to `sink`.
///
/// An `Accessible` message is always written; an `Inaccessible` one is
/// written only when accessibility mode is off. When the message is written
/// and accessibility mode is off, the decorated "[INFO] " prefix comes
/// first; in accessibility mode the prefix is suppressed.
pub fn report_info(importance: Importance, sink: &mut OutputSink, message: &str, flag: &AccessibilityFlag)
    requires
        flag.is_set(),
    ensures
        final(sink)@ == old(sink)@ + info_output(flag.mode(), importance, message@),
{
    let accessible = flag.get();
    match importance {
        Importance::Accessible => {
            if !accessible {
                _info_helper(sink);
            }
            sink.write_str(message);
            sink.write_str("\n");
        },
        Importance::Inaccessible => {
            if !accessible {
                _info_helper(sink);
                sink.write_str(message);
                sink.write_str("\n");
            }
        },
    }
    proof {
        assert(final(sink)@ =~= old(sink)@ + info_output(flag.mode(), importance, message@));
    }
}

/// Reports a warning message to `sink`, which the embedding program directs
/// to standard error.
///
/// Warnings are never suppressed: the mode-dependent decorated prefix and
/// the message are written whatever the accessibility mode.
pub fn report_warning(sink: &mut OutputSink, message: &str, flag: &AccessibilityFlag)
    requires
        flag.is_set(),
    ensures
        final(sink)@ == old(sink)@ + warning_output(flag.mode(), message@),
{
    _warning_helper(sink, flag);
    sink.write_str(message);
    sink.write_str("\n");
    proof {
        assert(final(sink)@ =~= old(sink)@ + warning_output(flag.mode(), message@));
    }
}

} // verus!
