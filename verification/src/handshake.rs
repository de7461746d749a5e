//! The handshake negotiator: decides whether an inbound request qualifies
//! for the protocol upgrade, and on success computes the accept key and the
//! starting counter value for the stream producer.

use vstd::prelude::*;
use crate::keys::accept_key_of;
use crate::keys::derive_accept;
use crate::keys::is_b64_byte;
use crate::keys::key_well_formed;
use crate::parse::all_digits;
use crate::parse::dec_val;
use crate::parse::parse_decimal;

verus! {

/// Status code of a successful upgrade: Switching Protocols.
pub const STATUS_SWITCHING_PROTOCOLS: u16 = 101;

/// Status code of a rejected upgrade request.
pub const STATUS_BAD_REQUEST: u16 = 400;

/// The parts of an inbound request that the negotiator reads, as plain
/// values handed over by the HTTP front end; `None` where the header or
/// query parameter is absent.
pub struct UpgradeRequest {
    /// Value of the `Upgrade` header.
    pub upgrade: Option<Vec<u8>>,
    /// Value of the `Sec-WebSocket-Version` header.
    pub version: Option<Vec<u8>>,
    /// Value of the `Sec-WebSocket-Key` header.
    pub key: Option<Vec<u8>>,
    /// Raw value of the `start` query parameter.
    pub start: Option<Vec<u8>>,
}

/// Why an upgrade request was turned down.
#[derive(Clone, Copy, PartialEq, Eq, Structural, Debug)]
pub enum RejectReason {
    /// The `Upgrade` header is absent or does not name the expected
    /// protocol.
    BadUpgradeHeader,
    /// The `Sec-WebSocket-Key` header is absent or not a well-formed
    /// 16-byte key.
    BadKey,
    /// The `Sec-WebSocket-Version` header is absent or not `13`.
    BadVersion,
    /// The `start` query parameter is present but not a decimal number in
    /// [0, 255].
    BadStart,
}

/// The diagnostic body that answers a request turned down for `r`.
pub open spec fn reason_text(r: RejectReason) -> Seq<char> {
    match r {
        RejectReason::BadUpgradeHeader => "missing or invalid Upgrade header"@,
        RejectReason::BadKey => "missing or malformed Sec-WebSocket-Key header"@,
        RejectReason::BadVersion => "missing or unsupported Sec-WebSocket-Version header"@,
        RejectReason::BadStart => "start must be an integer between 0 and 255"@,
    }
}

impl RejectReason {
    /// The human-readable diagnostic body for this rejection.
    pub fn message(&self) -> (r: &'static str)
        ensures
            r@ == reason_text(*self),
    {
        match self {
            RejectReason::BadUpgradeHeader => "missing or invalid Upgrade header",
            RejectReason::BadKey => "missing or malformed Sec-WebSocket-Key header",
            RejectReason::BadVersion => "missing or unsupported Sec-WebSocket-Version header",
            RejectReason::BadStart => "start must be an integer between 0 and 255",
        }
    }
}

/// The negotiator's decision: accept with the derived accept key and the
/// starting counter value, or reject with a client-error status.
pub enum Negotiation {
    Accept { accept: Vec<u8>, start: u8 },
    Reject { status: u16, reason: RejectReason },
}

/// ASCII lower-casing of one byte.
pub open spec fn ascii_lower(b: u8) -> u8 {
    if 65 <= b <= 90 {
        (b + 32) as u8
    } else {
        b
    }
}

/// The bytes of the protocol token `websocket`.
pub open spec fn websocket_token() -> Seq<u8> {
    seq![119u8, 101u8, 98u8, 115u8, 111u8, 99u8, 107u8, 101u8, 116u8]
}

/// `v` names the websocket protocol, compared ASCII-case-insensitively.
pub open spec fn is_websocket(v: Seq<u8>) -> bool {
    v.len() == 9 && forall|i: int| 0 <= i < 9 ==> ascii_lower(v[i]) == websocket_token()[i]
}

/// The request carries `Upgrade: websocket`.
pub open spec fn upgrade_ok(r: UpgradeRequest) -> bool {
    r.upgrade matches Some(v) && is_websocket(v@)
}

/// The request carries a syntactically valid `Sec-WebSocket-Key`.
pub open spec fn key_ok(r: UpgradeRequest) -> bool {
    r.key matches Some(v) && key_well_formed(v@)
}

/// The request carries `Sec-WebSocket-Version: 13`.
pub open spec fn version_ok(r: UpgradeRequest) -> bool {
    r.version matches Some(v) && v@.len() == 2 && v@[0] == 49 && v@[1] == 51
}

/// The `start` query parameter, if present, is a decimal number in
/// [0, 255]; an absent parameter defaults to 0.
pub open spec fn start_ok(r: UpgradeRequest) -> bool {
    r.start matches Some(v) ==> v@.len() > 0 && all_digits(v@) && dec_val(v@) <= 255
}

/// The starting counter value the request asks for.
pub open spec fn start_value(r: UpgradeRequest) -> nat
    recommends
        start_ok(r),
{
    match r.start {
        Option::None => 0,
        Option::Some(v) => dec_val(v@),
    }
}

/// A request qualifies for the upgrade exactly when all header checks and
/// the `start` parameter check pass.
pub open spec fn request_valid(r: UpgradeRequest) -> bool {
    upgrade_ok(r) && key_ok(r) && version_ok(r) && start_ok(r)
}

/// The key bytes of a request known to carry a key.
pub open spec fn request_key(r: UpgradeRequest) -> Seq<u8>
    recommends
        key_ok(r),
{
    (r.key->0)@
}

/// The reason an invalid request is turned down: the first failing check,
/// headers before the query parameter.
pub open spec fn reject_reason(r: UpgradeRequest) -> RejectReason
    recommends
        !request_valid(r),
{
    if !upgrade_ok(r) {
        RejectReason::BadUpgradeHeader
    } else if !key_ok(r) {
        RejectReason::BadKey
    } else if !version_ok(r) {
        RejectReason::BadVersion
    } else {
        RejectReason::BadStart
    }
}

/// ASCII lower-casing of one byte.
fn lower_byte(b: u8) -> (r: u8)
    ensures
        r == ascii_lower(b),
{
    if 65 <= b && b <= 90 {
        b + 32
    } else {
        b
    }
}

/// The protocol token `websocket` as bytes.
fn websocket_bytes() -> (v: Vec<u8>)
    ensures
        v@ == websocket_token(),
{
    let mut v: Vec<u8> = Vec::new();
    v.push(119);
    v.push(101);
    v.push(98);
    v.push(115);
    v.push(111);
    v.push(99);
    v.push(107);
    v.push(101);
    v.push(116);
    proof {
        assert(v@ =~= websocket_token());
    }
    v
}

/// Case-insensitive test for the protocol token `websocket`.
fn is_websocket_value(v: &Vec<u8>) -> (r: bool)
    ensures
        r == is_websocket(v@),
{
    let expected = websocket_bytes();
    if v.len() != 9 {
        return false;
    }
    let mut i: usize = 0;
    while i < 9
        invariant
            0 <= i <= 9,
            v@.len() == 9,
            expected@ == websocket_token(),
            forall|j: int| 0 <= j < i ==> ascii_lower(v@[j]) == websocket_token()[j],
        decreases 9 - i,
    {
        if lower_byte(v[i]) != expected[i] {
            return false;
        }
        i = i + 1;
    }
    true
}

/// A byte of the standard base64 alphabet.
fn is_b64_byte_exec(b: u8) -> (r: bool)
    ensures
        r == is_b64_byte(b),
{
    (65 <= b && b <= 90) || (97 <= b && b <= 122) || (48 <= b && b <= 57) || b == 43 || b == 47
}

/// Syntactic validity of a `Sec-WebSocket-Key` value.
fn is_well_formed_key(v: &Vec<u8>) -> (r: bool)
    ensures
        r == key_well_formed(v@),
{
    if v.len() != 24 {
        return false;
    }
    if v[22] != 61 || v[23] != 61 {
        return false;
    }
    let mut i: usize = 0;
    while i < 22
        invariant
            0 <= i <= 22,
            v@.len() == 24,
            forall|j: int| 0 <= j < i ==> is_b64_byte(v@[j]),
        decreases 22 - i,
    {
        if !is_b64_byte_exec(v[i]) {
            return false;
        }
        i = i + 1;
    }
    true
}

/// Decides the upgrade. A request with `Upgrade: websocket`, a well-formed
/// key, version 13 and a `start` parameter in [0, 255] (or none) is
/// accepted, with the accept key derived from the client key and the
/// starting counter value; any other request is rejected with a
/// client-error status and the first failing check as the reason.
pub fn negotiate(req: &UpgradeRequest) -> (r: Negotiation)
    ensures
        request_valid(*req) <==> r is Accept,
        r matches Negotiation::Accept { accept, start } ==> (accept@ == accept_key_of(
            request_key(*req),
        ) && start == start_value(*req)),
        r matches Negotiation::Reject { status, reason } ==> (status == STATUS_BAD_REQUEST
            && reason == reject_reason(*req)),
{
    let upgrade_good = match &req.upgrade {
        Option::Some(v) => is_websocket_value(v),
        Option::None => false,
    };
    if !upgrade_good {
        return Negotiation::Reject {
            status: STATUS_BAD_REQUEST,
            reason: RejectReason::BadUpgradeHeader,
        };
    }
    let key = match &req.key {
        Option::Some(v) => {
            if is_well_formed_key(v) {
                v
            } else {
                return Negotiation::Reject {
                    status: STATUS_BAD_REQUEST,
                    reason: RejectReason::BadKey,
                };
            }
        },
        Option::None => {
            return Negotiation::Reject { status: STATUS_BAD_REQUEST, reason: RejectReason::BadKey };
        },
    };
    let version_good = match &req.version {
        Option::Some(v) => v.len() == 2 && v[0] == 49 && v[1] == 51,
        Option::None => false,
    };
    if !version_good {
        return Negotiation::Reject { status: STATUS_BAD_REQUEST, reason: RejectReason::BadVersion };
    }
    let start: u8 = match &req.start {
        Option::None => 0,
        Option::Some(v) => {
            match parse_decimal(v, 255) {
                Option::Some(x) => x as u8,
                Option::None => {
                    return Negotiation::Reject {
                        status: STATUS_BAD_REQUEST,
                        reason: RejectReason::BadStart,
                    };
                },
            }
        },
    };
    let accept = derive_accept(key);
    Negotiation::Accept { accept, start }
}

} // verus!
