//! The process-wide accessibility flag.
//!
//! The flag is constructed uninitialized, set exactly once during startup,
//! and read-only afterwards. Reading it before it was set is a programming
//! error: `get` requires initialization, so verified callers can never make
//! that mistake, and unverified callers can test `is_initialized` first.

use vstd::prelude::*;

verus! {

/// The accessibility mode switch: one boolean, set once, then read many times.
pub struct AccessibilityFlag {
    value: Option<bool>,
}

impl AccessibilityFlag {
    /// Whether the flag has been initialized.
    pub closed spec fn is_set(&self) -> bool {
        self.value is Some
    }

    /// The mode the flag was set to; meaningful only once it is set.
    pub closed spec fn mode(&self) -> bool
        recommends
            self.is_set(),
    {
        self.value->Some_0
    }

    /// A fresh, uninitialized flag.
    pub fn new() -> (r: Self)
        ensures
            !r.is_set(),
    {
        AccessibilityFlag { value: None }
    }

    /// Commits the accessibility mode. Called exactly once, before first use.
    pub fn set(&mut self, accessible: bool)
        requires
            !old(self).is_set(),
        ensures
            final(self).is_set(),
            final(self).mode() == accessible,
    {
        self.value = Some(accessible);
    }

    /// Reads the committed mode. Callable any number of times after `set`;
    /// always returns the value that was passed to `set`.
    pub fn get(&self) -> (r: bool)
        requires
            self.is_set(),
        ensures
            r == self.mode(),
    {
        match self.value {
            Some(accessible) => accessible,
            None => false,
        }
    }

    /// Whether `set` has already been called, for callers that must check
    /// before reading.
    pub fn is_initialized(&self) -> (r: bool)
        ensures
            r == self.is_set(),
    {
        self.value.is_some()
    }
}

} // verus!
