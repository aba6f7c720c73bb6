//! The color palette: three named terminal escape tokens.
//!
//! The tokens are opaque escape-sequence strings used only to decorate the
//! prefixes the reporters write. Keeping them behind these accessors keeps
//! palette lookup decoupled from reporter logic.

use vstd::prelude::*;

verus! {

/// The characters of the YELLOW token.
pub open spec fn yellow_code() -> Seq<char> {
    "\u{1b}[38;5;11m"@
}

/// The characters of the ORANGE token.
pub open spec fn orange_code() -> Seq<char> {
    "\u{1b}[38;5;208m"@
}

/// The characters of the RESET token.
pub open spec fn reset_code() -> Seq<char> {
    "\u{1b}[0m"@
}

/// The escape sequence that switches the terminal's foreground to yellow.
pub fn yellow() -> (r: &'static str)
    ensures
        r@ == yellow_code(),
{
    "\u{1b}[38;5;11m"
}

/// The escape sequence that switches the terminal's foreground to orange.
pub fn orange() -> (r: &'static str)
    ensures
        r@ == orange_code(),
{
    "\u{1b}[38;5;208m"
}

/// The escape sequence that restores the terminal's default style.
pub fn reset() -> (r: &'static str)
    ensures
        r@ == reset_code(),
{
    "\u{1b}[0m"
}

} // verus!
