//! The sidecar relay boundary: a stateless pass-through of opaque JSON
//! messages with a monotonic request-id generator.
//!
//! The host layer owns the process and the event channel; this module
//! owns the id assignment and the validity check of inbound payloads.

use vstd::prelude::*;

use crate::errors::TabError;

verus! {

#[verifier::external_type_specification]
#[verifier::external_body]
pub struct ExJsonValue(serde_json::Value);

/// Whether the text parses as JSON.
pub uninterp spec fn json_parses(s: Seq<char>) -> bool;

/// Relies on `serde_json::from_str::<Value>`: whether a text parses as
/// JSON is a function of the characters alone.
#[verifier::external_body]
fn parse_json(s: &str) -> (r: Option<serde_json::Value>)
    ensures
        r is Some <==> json_parses(s@),
{
    serde_json::from_str::<serde_json::Value>(s).ok()
}

/// State for the sidecar process lifecycle.
pub struct SidecarState {
    /// Whether the sidecar has been started.
    pub started: bool,
    /// Next JSON-RPC request ID.
    next_id: u64,
}

impl SidecarState {
    /// The id the next outbound request will carry.
    pub closed spec fn spec_next_id(self) -> u64 {
        self.next_id
    }

    /// Whether the sidecar has been started.
    pub closed spec fn spec_started(self) -> bool {
        self.started
    }

    /// A fresh relay: not started, ids begin at 1.
    pub fn new() -> (s: SidecarState)
        ensures
            !s.spec_started(),
            s.spec_next_id() == 1,
    {
        SidecarState { started: false, next_id: 1 }
    }

    /// Assigns the next outbound request id: ids are handed out in
    /// strictly increasing order, starting at 1.
    pub fn next_request_id(&mut self) -> (id: u64)
        requires
            old(self).spec_next_id() < u64::MAX,
        ensures
            id == old(self).spec_next_id(),
            final(self).spec_next_id() == id + 1,
            final(self).spec_started() == old(self).spec_started(),
    {
        let id = self.next_id;
        self.next_id = self.next_id + 1;
        id
    }

    /// Marks the relay started, reporting whether it already was; a
    /// second start is a no-op for the caller.
    pub fn mark_started(&mut self) -> (was: bool)
        ensures
            was == old(self).spec_started(),
            final(self).spec_started(),
            final(self).spec_next_id() == old(self).spec_next_id(),
    {
        let was = self.started;
        self.started = true;
        was
    }
}

/// Parses one line received from the sidecar's stdout.  The host layer
/// re-emits the parsed value verbatim.  Fails with `InvalidJson` exactly
/// when the text is not valid JSON.
pub fn sidecar_receive(message: &str) -> (r: Result<serde_json::Value, TabError>)
    ensures
        r is Ok <==> json_parses(message@),
        r matches Err(e) ==> e == TabError::InvalidJson,
{
    match parse_json(message) {
        Some(v) => Ok(v),
        None => Err(TabError::InvalidJson),
    }
}

} // verus!
