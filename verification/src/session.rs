//! One connection end to end on the server side: negotiate the upgrade,
//! then — only on acceptance — run the stream producer until the first
//! failed write. A rejected request carries no frames at all.

use vstd::prelude::*;
use crate::frames::frame_seq;
use crate::frames::produce_frames;
use crate::handshake::negotiate;
use crate::handshake::reject_reason;
use crate::handshake::request_key;
use crate::handshake::request_valid;
use crate::handshake::start_value;
use crate::handshake::Negotiation;
use crate::handshake::RejectReason;
use crate::handshake::UpgradeRequest;
use crate::handshake::STATUS_BAD_REQUEST;
use crate::handshake::STATUS_SWITCHING_PROTOCOLS;
use crate::keys::accept_key_of;

verus! {

/// What one connection amounted to: a rejection, which emits no frame, or
/// an accepted upgrade with the accept key of the response and every frame
/// the producer delivered before the stream ended.
pub enum ConnectionOutcome {
    Rejected { status: u16, reason: RejectReason },
    Streamed { status: u16, accept: Vec<u8>, frames: Vec<u8> },
}

/// Drives one connection: negotiates the request and, only if it was
/// accepted, streams frames against the recorded write outcomes. An invalid
/// request is answered with a client-error status and never reaches the
/// producer; a valid one is answered with status 101, the derived accept
/// key, and the frame sequence `(start + i) mod 256` up to the first failed
/// write.
pub fn handle_connection(req: &UpgradeRequest, outcomes: &Vec<bool>) -> (r: ConnectionOutcome)
    ensures
        !request_valid(*req) ==> (r matches ConnectionOutcome::Rejected { status, reason }
            && status == STATUS_BAD_REQUEST && reason == reject_reason(*req)),
        request_valid(*req) ==> (r matches ConnectionOutcome::Streamed { status, accept, frames }
            && status == STATUS_SWITCHING_PROTOCOLS
            && accept@ == accept_key_of(request_key(*req))
            && frames@ == frame_seq(start_value(*req) as u8, frames@.len() as int)
            && (forall|i: int| 0 <= i < frames@.len() ==> outcomes@[i])
            && frames@.len() <= outcomes@.len()
            && (frames@.len() < outcomes@.len() ==> !outcomes@[frames@.len() as int])),
{
    match negotiate(req) {
        Negotiation::Reject { status, reason } => ConnectionOutcome::Rejected { status, reason },
        Negotiation::Accept { accept, start } => {
            let frames = produce_frames(start, outcomes);
            ConnectionOutcome::Streamed { status: STATUS_SWITCHING_PROTOCOLS, accept, frames }
        },
    }
}

} // verus!
