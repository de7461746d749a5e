//! The handshake initiator: builds the client's upgrade request around a
//! fresh key and classifies the server's answer.

use vstd::prelude::*;
use crate::handshake::websocket_token;
use crate::handshake::STATUS_SWITCHING_PROTOCOLS;
use crate::keys::b64_of;
use crate::keys::base64_encode;
use crate::keys::fresh_key_bytes;
use crate::keys::key_well_formed;

verus! {

/// The header values of the client's upgrade request.
pub struct ClientRequest {
    /// Value of the `Connection` header.
    pub connection: Vec<u8>,
    /// Value of the `Upgrade` header.
    pub upgrade: Vec<u8>,
    /// Value of the `Sec-WebSocket-Version` header.
    pub version: Vec<u8>,
    /// Value of the `Sec-WebSocket-Key` header.
    pub key: Vec<u8>,
}

/// The bytes of the `Connection` header value `Upgrade`.
pub open spec fn connection_value() -> Seq<u8> {
    seq![85u8, 112u8, 103u8, 114u8, 97u8, 100u8, 101u8]
}

/// The bytes of the `Sec-WebSocket-Version` header value `13`.
pub open spec fn version_value() -> Seq<u8> {
    seq![49u8, 51u8]
}

/// The `Connection` header value `Upgrade` as bytes.
fn connection_bytes() -> (v: Vec<u8>)
    ensures
        v@ == connection_value(),
{
    let mut v: Vec<u8> = Vec::new();
    v.push(85);
    v.push(112);
    v.push(103);
    v.push(114);
    v.push(97);
    v.push(100);
    v.push(101);
    proof {
        assert(v@ =~= connection_value());
    }
    v
}

/// The protocol token `websocket` as bytes.
fn upgrade_bytes() -> (v: Vec<u8>)
    ensures
        v@ == websocket_token(),
{
    let mut v: Vec<u8> = Vec::new();
    v.push(119);
    v.push(101);
    v.push(98);
    v.push(115);
    v.push(111);
    v.push(99);
    v.push(107);
    v.push(101);
    v.push(116);
    proof {
        assert(v@ =~= websocket_token());
    }
    v
}

/// The version value `13` as bytes.
fn version_bytes() -> (v: Vec<u8>)
    ensures
        v@ == version_value(),
{
    let mut v: Vec<u8> = Vec::new();
    v.push(49);
    v.push(51);
    proof {
        assert(v@ =~= version_value());
    }
    v
}

/// Builds the upgrade request around the given 16-byte key: `Connection:
/// Upgrade`, `Upgrade: websocket`, `Sec-WebSocket-Version: 13`, and the
/// key base64-encoded into `Sec-WebSocket-Key` — a value the negotiator's
/// syntactic key check accepts.
pub fn build_request(key: &Vec<u8>) -> (r: ClientRequest)
    requires
        key@.len() == 16,
    ensures
        r.connection@ == connection_value(),
        r.upgrade@ == websocket_token(),
        r.version@ == version_value(),
        r.key@ == b64_of(key@),
        key_well_formed(r.key@),
{
    let encoded = base64_encode(key);
    ClientRequest {
        connection: connection_bytes(),
        upgrade: upgrade_bytes(),
        version: version_bytes(),
        key: encoded,
    }
}

/// Builds an upgrade request with a freshly generated random 16-byte key.
pub fn fresh_request() -> (r: ClientRequest)
    ensures
        r.connection@ == connection_value(),
        r.upgrade@ == websocket_token(),
        r.version@ == version_value(),
        key_well_formed(r.key@),
{
    let kb = fresh_key_bytes();
    build_request(&kb)
}

/// The two components fit together: a request that carries the initiator's
/// header values — the protocol token, version 13 and a well-formed key,
/// with no `start` parameter — passes every one of the negotiator's checks
/// and asks for the default starting value 0.
pub proof fn lemma_initiator_request_valid(r: crate::handshake::UpgradeRequest)
    requires
        r.upgrade matches Some(v) && v@ == websocket_token(),
        r.version matches Some(v) && v@ == version_value(),
        r.key matches Some(v) && key_well_formed(v@),
        r.start is None,
    ensures
        crate::handshake::request_valid(r),
        crate::handshake::start_value(r) == 0,
{
    assert forall|i: int| 0 <= i < 9 implies crate::handshake::ascii_lower(websocket_token()[i])
        == websocket_token()[i] by {
        assert(websocket_token()[i] >= 97);
    }
}

/// How the client's single upgrade attempt ended.
pub enum HandshakeResult {
    /// Status 101: the negotiation succeeded.
    Accepted,
    /// Any other status: a negotiation failure, carrying the status and the
    /// response body for diagnostics.
    Rejected { status: u16, body: Vec<u8> },
    /// No response was received at all: a transport error, distinct from a
    /// negotiation failure.
    TransportFailed,
}

/// Classifies the outcome of the upgrade request: no response is a
/// transport failure; status 101 is acceptance; any other status is a
/// negotiation failure that surfaces the status and the body unchanged.
pub fn classify_response(resp: Option<(u16, Vec<u8>)>) -> (r: HandshakeResult)
    ensures
        resp is None ==> r is TransportFailed,
        resp matches Some(p) ==> (if p.0 == STATUS_SWITCHING_PROTOCOLS {
            r is Accepted
        } else {
            r matches HandshakeResult::Rejected { status, body } && status == p.0 && body@ == p.1@
        }),
{
    match resp {
        Option::None => HandshakeResult::TransportFailed,
        Option::Some((status, body)) => {
            if status == STATUS_SWITCHING_PROTOCOLS {
                HandshakeResult::Accepted
            } else {
                HandshakeResult::Rejected { status, body }
            }
        },
    }
}

} // verus!
