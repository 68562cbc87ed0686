//! The forward-looking request/response schema, and the one piece of wire
//! behavior in scope: the daemon's fixed acknowledgment.
//!
//! The structured schema is the contract for the transport layer that will
//! later replace the minimal acknowledge-and-close handling; nothing in the
//! rendezvous core reads these fields yet.

use vstd::prelude::*;

verus! {

/// What a client will send once the transport layer exists.
#[derive(Debug)]
pub struct ClientRequest {
    pub protocol_version: u16,
    pub request_id: String,
    pub prompt: String,
    pub cwd: String,
    pub shell: Option<String>,
    pub env: Vec<(String, String)>,
}

/// What the daemon will answer.
#[derive(Debug)]
pub struct ServerResponse {
    pub protocol_version: u16,
    pub request_id: String,
    pub command: Option<String>,
    pub explanation: Option<String>,
    pub error: Option<String>,
}

/// A liveness check request.
#[derive(Debug)]
pub struct PingRequest {
    pub protocol_version: u16,
}

/// The answer to a liveness check.
#[derive(Debug)]
pub struct PingResponse {
    pub protocol_version: u16,
    pub ok: bool,
}

/// The short fixed acknowledgment the daemon writes on every accepted
/// connection before closing it; the client's single bounded liveness read
/// is satisfied by it.
pub fn acknowledgment() -> (r: String)
    ensures
        r@ == "ok\n"@,
{
    String::from_str("ok\n")
}

} // verus!
