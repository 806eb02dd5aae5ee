//! Logging that is gated by verbosity.
//!
//! A logger reports how verbose it is ([`Verbose`]); what is to be logged
//! declares the least verbosity at which it should show ([`MinVerbosity`]).
//! The functions in [`logger`] decide whether a line is written; the
//! writing itself is the caller's.

pub mod logger;
pub mod verbosity;

pub use logger::TerminalLogger;
pub use verbosity::{MinVerbosity, Verbose, Verbosity};
