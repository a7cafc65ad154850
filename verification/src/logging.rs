//! A minimal logger abstraction and a filtering decorator around it. The
//! decorator consults a predicate before forwarding a message to the logger
//! it wraps; the only logger with a side effect writes to standard error and
//! is the one unverified edge of the module.

use std::io::Write;
use vstd::prelude::*;

verus! {

/// Anything that can record a message at a verbosity level.
pub trait Logger {
    /// What this logger needs of itself before it can be used; loggers
    /// without state demand nothing.
    spec fn wf(&self) -> bool;

    fn log(&self, verbosity: u8, message: &str)
        requires
            self.wf(),
    ;
}

/// A logger that writes each message to standard error.
pub struct StderrLogger;

/// Relies on std::io::stderr and writeln for the side effect alone; nothing
/// is claimed of it.
#[verifier::external_body]
fn write_stderr_line(verbosity: u8, message: &str) {
    let _ = writeln!(&mut std::io::stderr(), "verbosity={verbosity}: {message}");
}

impl Logger for StderrLogger {
    open spec fn wf(&self) -> bool {
        true
    }

    fn log(&self, verbosity: u8, message: &str) {
        write_stderr_line(verbosity, message);
    }
}

/// A decorator that forwards a message to the logger it wraps only when the
/// predicate approves the verbosity and message.
pub struct Filter<L, P> {
    pub inner: L,
    pub predicate: P,
}

impl<L: Logger, P: Fn(u8, &str) -> bool> Filter<L, P> {
    /// Wrap `inner` so that only messages passing `predicate` reach it.
    pub fn new(inner: L, predicate: P) -> (f: Self)
        ensures
            f.inner == inner,
            f.predicate == predicate,
    {
        Filter { inner, predicate }
    }
}

impl<L: Logger, P: Fn(u8, &str) -> bool> Logger for Filter<L, P> {
    open spec fn wf(&self) -> bool {
        &&& self.inner.wf()
        &&& forall|v: u8, m: &str| call_requires(self.predicate, (v, m))
    }

    fn log(&self, verbosity: u8, message: &str) {
        if (self.predicate)(verbosity, message) {
            self.inner.log(verbosity, message);
        }
    }
}

} // verus!
