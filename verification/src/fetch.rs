//! What one outbound HTTP call came back with.
//!
//! The calls themselves — the two posts of the credential exchange and
//! the three gets of a telemetry read — are made outside this crate;
//! their outcomes arrive here as plain values, and everything decided
//! from them is verified.

use vstd::prelude::*;

verus! {

/// The outcome of one outbound HTTP call: the body of a response with a
/// successful status, the message of a transport failure, or a
/// non-success status code.
#[derive(Debug)]
pub enum FetchOutcome {
    Body(String),
    Transport(String),
    HttpStatus(u16),
}

} // verus!
