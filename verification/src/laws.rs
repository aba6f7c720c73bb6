//! Laws of the reporters, proved once and for all messages.
//!
//! Each proof function below states, over the output model in
//! [`crate::reporter`], a guarantee the reporters give for every message.

use vstd::prelude::*;
use crate::colors::{yellow_code, orange_code, reset_code};
use crate::reporter::{Importance, info_output, newline, warning_output};

verus! {

/// In accessibility mode, an `Accessible` info report writes exactly the
/// message and its trailing newline, and nothing else: no prefix, no color.
pub proof fn lemma_info_accessible_mode_bare(message: Seq<char>)
    ensures
        info_output(true, Importance::Accessible, message) == message + newline(),
{
}

/// With accessibility mode off, an info report of either importance writes
/// the message prefixed by the literal "[INFO]" wrapped in yellow, then a
/// space, then the message and its trailing newline.
pub proof fn lemma_info_prefixed(importance: Importance, message: Seq<char>)
    ensures
        info_output(false, importance, message) == yellow_code() + "[INFO]"@ + reset_code()
            + " "@ + message + newline(),
{
    assert(info_output(false, importance, message) =~= yellow_code() + "[INFO]"@ + reset_code()
        + " "@ + message + newline());
}

/// In accessibility mode, an `Inaccessible` info report writes nothing at
/// all: not a prefix, not the message, zero characters.
pub proof fn lemma_info_suppressed(message: Seq<char>)
    ensures
        info_output(true, Importance::Inaccessible, message) == Seq::<char>::empty(),
{
}

/// With accessibility mode off, an `Inaccessible` info report is
/// byte-identical to an `Accessible` one.
pub proof fn lemma_info_importance_irrelevant_when_off(message: Seq<char>)
    ensures
        info_output(false, Importance::Inaccessible, message) == info_output(
            false,
            Importance::Accessible,
            message,
        ),
{
}

/// A warning report writes non-empty output whatever the accessibility
/// mode: warnings are never suppressed. Its prefix is "Warning:" wrapped in
/// orange when the mode is off and "[WARNING]" wrapped in orange when it is
/// on, followed by a space either way.
pub proof fn lemma_warning_never_suppressed(accessible: bool, message: Seq<char>)
    ensures
        warning_output(accessible, message).len() > 0,
        warning_output(false, message) == orange_code() + "Warning:"@ + reset_code() + " "@
            + message + newline(),
        warning_output(true, message) == orange_code() + "[WARNING]"@ + reset_code() + " "@
            + message + newline(),
{
    reveal_strlit("\n");
    assert(warning_output(accessible, message).len() >= newline().len());
    assert(warning_output(false, message) =~= orange_code() + "Warning:"@ + reset_code() + " "@
        + message + newline());
    assert(warning_output(true, message) =~= orange_code() + "[WARNING]"@ + reset_code() + " "@
        + message + newline());
}

/// Info reports are deterministic: what a report appends to the sink is a
/// function of the accessibility mode, the importance and the message
/// alone, independent of what the sink already held, so repeated calls with
/// identical arguments and identical flag state produce byte-identical
/// output.
pub proof fn lemma_info_deterministic(
    accessible: bool,
    importance: Importance,
    message: Seq<char>,
    before1: Seq<char>,
    before2: Seq<char>,
)
    ensures
        (before1 + info_output(accessible, importance, message)).skip(before1.len() as int) == (
        before2 + info_output(accessible, importance, message)).skip(before2.len() as int),
{
    assert((before1 + info_output(accessible, importance, message)).skip(
        before1.len() as int,
    ) =~= info_output(accessible, importance, message));
    assert((before2 + info_output(accessible, importance, message)).skip(
        before2.len() as int,
    ) =~= info_output(accessible, importance, message));
}

/// Warning reports are deterministic in the same way: the appended text
/// depends only on the accessibility mode and the message.
pub proof fn lemma_warning_deterministic(
    accessible: bool,
    message: Seq<char>,
    before1: Seq<char>,
    before2: Seq<char>,
)
    ensures
        (before1 + warning_output(accessible, message)).skip(before1.len() as int) == (before2
            + warning_output(accessible, message)).skip(before2.len() as int),
{
    assert((before1 + warning_output(accessible, message)).skip(before1.len() as int)
        =~= warning_output(accessible, message));
    assert((before2 + warning_output(accessible, message)).skip(before2.len() as int)
        =~= warning_output(accessible, message));
}

} // verus!
