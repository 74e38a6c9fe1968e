//! Client-side engine for the Transmission JSON-RPC protocol: a verified
//! message codec, session manager and bounded-retry call engine.

use vstd::prelude::*;

pub mod b64;
pub mod client;
pub mod json;
pub mod sync;
pub mod types;

pub use client::TransClient;
pub use sync::SharableTransClient;

verus! {

/// Upper bound on the number of requests one logical call may issue.
pub const MAX_RETRIES: usize = 5;

/// The technical failures of the call engine itself.
#[derive(Clone, Copy, Debug, PartialEq, Eq, Structural)]
pub enum TransError {
    /// More than `MAX_RETRIES` consecutive session conflicts.
    MaxRetriesReached,
    /// A session-conflict response arrived without the session header.
    NoSessionIdReceived,
}

impl TransError {
    /// A human-readable description of the failure.
    pub fn message(&self) -> (r: String)
        ensures
            *self is MaxRetriesReached ==> r@ == "Max retries reached!"@,
            *self is NoSessionIdReceived ==> r@ == "No session id received!"@,
    {
        match self {
            TransError::MaxRetriesReached => "Max retries reached!".to_owned(),
            TransError::NoSessionIdReceived => "No session id received!".to_owned(),
        }
    }
}

} // verus!
