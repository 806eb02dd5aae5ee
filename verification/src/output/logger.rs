//! Deciding what a logger writes.

use crate::output::verbosity::{Verbose, Verbosity};
use vstd::prelude::*;

verus! {

/// The text to write at verbosity `current` for something that asks for at
/// least `min`: `text` itself where `min` is at most `current`, nothing
/// otherwise.
pub fn gate<'a>(current: Verbosity, min: Verbosity, text: &'a str) -> (r: Option<&'a str>)
    ensures
        r == if current.admits(min) {
            Some(text)
        } else {
            None::<&str>
        },
{
    if current.admits(min) {
        Some(text)
    } else {
        None
    }
}

/// A logger for the terminal, made with the verbosity it runs at.
#[derive(Debug, Clone, Copy, PartialEq, Eq)]
pub struct TerminalLogger {
    verbosity: Verbosity,
}

impl TerminalLogger {
    /// The verbosity that this logger was made with.
    pub closed spec fn current(&self) -> Verbosity {
        self.verbosity
    }

    /// A logger that runs at `verbosity`.
    pub fn new(verbosity: Verbosity) -> (r: Self)
        ensures
            r.current() == verbosity,
    {
        TerminalLogger { verbosity }
    }
}

impl Verbose for TerminalLogger {
    fn verbosity(&self) -> (v: Verbosity)
        ensures
            v == self.current(),
    {
        self.verbosity
    }
}

} // verus!
