//! The output sink: an in-memory writable destination.
//!
//! Reporters append characters to a sink; the embedding program then hands
//! the collected text to a real stream (standard output or standard error)
//! in one flushed write, so each report is seen as it is produced. Appending
//! to memory cannot fail, so every write a reporter performs succeeds; a
//! failure of the real stream is the embedding program's to surface.

use vstd::prelude::*;
use vstd::string::StringExecFns;

verus! {

/// A writable destination that collects everything written to it.
pub struct OutputSink {
    content: String,
}

impl View for OutputSink {
    type V = Seq<char>;

    closed spec fn view(&self) -> Seq<char> {
        self.content@
    }
}

impl OutputSink {
    /// An empty sink.
    pub fn new() -> (r: Self)
        ensures
            r@ == Seq::<char>::empty(),
    {
        OutputSink { content: String::new() }
    }

    /// Appends `s` to the sink.
    pub fn write_str(&mut self, s: &str)
        ensures
            final(self)@ == old(self)@ + s@,
    {
        self.content.append(s);
    }

    /// Everything written so far, as a string slice.
    pub fn as_str(&self) -> (r: &str)
        ensures
            r@ == self@,
    {
        self.content.as_str()
    }

    /// Consumes the sink and yields everything written to it.
    pub fn into_string(self) -> (r: String)
        ensures
            r@ == self@,
    {
        self.content
    }
}

} // verus!
