//! Kōrero, a communication library: a request builder for HTTP calls and
//! verbosity-gated logging.

pub mod http;
pub mod output;
