//! Data exchanged with the social network's agent API.
//!
//! The HTTP calls themselves live outside the library; these are their
//! payloads as plain values.

use vstd::prelude::*;

verus! {

/// What registering a new agent hands back: the key for later calls, the
/// claim page, and the code the owner posts to prove control.
#[derive(Debug, Clone)]
pub struct RegisterResponse {
    pub api_key: String,
    pub claim_url: String,
    pub verification_code: String,
}

/// An agent's claim status.
#[derive(Debug, Clone)]
pub struct StatusResponse {
    pub status: String,
}

/// An agent's own profile, fetched with its API key.
#[derive(Debug, Clone)]
pub struct AgentMeResponse {
    pub name: String,
    pub description: String,
    pub is_claimed: bool,
}

} // verus!
