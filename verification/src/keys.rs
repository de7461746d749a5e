//! Key material of the upgrade handshake: the base64-encoded 16-byte client
//! key, its syntactic validity, and the accept key the server derives from
//! it.

use vstd::prelude::*;

verus! {

/// A byte of the standard base64 alphabet (`A`-`Z`, `a`-`z`, `0`-`9`, `+`,
/// `/`).
pub open spec fn is_b64_byte(b: u8) -> bool {
    (65 <= b <= 90) || (97 <= b <= 122) || (48 <= b <= 57) || b == 43 || b == 47
}

/// A syntactically valid `Sec-WebSocket-Key` value: the base64 encoding of
/// exactly 16 bytes, i.e. 22 alphabet characters followed by the padding
/// `==`.
pub open spec fn key_well_formed(k: Seq<u8>) -> bool {
    &&& k.len() == 24
    &&& k[22] == 61
    &&& k[23] == 61
    &&& forall|i: int| 0 <= i < 22 ==> is_b64_byte(k[i])
}

/// The standard padded base64 encoding of a byte sequence.
pub uninterp spec fn b64_of(b: Seq<u8>) -> Seq<u8>;

/// The RFC 6455 accept key derived from a client key: the base64 encoding
/// of the SHA-1 digest of the key followed by the fixed protocol GUID.
pub uninterp spec fn accept_key_of(k: Seq<u8>) -> Seq<u8>;

/// Relies on base64's `Engine::encode` with the standard padded engine: the
/// result depends on the input bytes alone, is 4 characters per 3-byte group
/// of the input, and for inputs of 3k+1 bytes consists of alphabet
/// characters closed by the padding `==`.
#[verifier::external_body]
pub(crate) fn base64_encode(b: &Vec<u8>) -> (r: Vec<u8>)
    requires
        4 * ((b@.len() + 2) / 3) <= usize::MAX,
    ensures
        r@ == b64_of(b@),
        r@.len() == 4 * ((b@.len() + 2) / 3),
        b@.len() % 3 == 1 ==> r@[r@.len() - 1] == 61 && r@[r@.len() - 2] == 61,
        b@.len() % 3 == 1 ==> forall|i: int| 0 <= i < r@.len() - 2 ==> is_b64_byte(r@[i]),
{
    base64::Engine::encode(&base64::engine::general_purpose::STANDARD, b.as_slice()).into_bytes()
}

/// Relies on tungstenite's `derive_accept_key`: SHA-1 over the key bytes and
/// the fixed RFC 6455 GUID, base64-encoded; a function of the key bytes
/// alone.
#[verifier::external_body]
pub(crate) fn derive_accept(key: &Vec<u8>) -> (r: Vec<u8>)
    ensures
        r@ == accept_key_of(key@),
{
    tokio_tungstenite::tungstenite::handshake::derive_accept_key(key.as_slice()).into_bytes()
}

/// Relies on `rand::random` for a fresh 16-byte key; nothing is assumed of
/// the bytes beyond their number.
#[verifier::external_body]
pub(crate) fn fresh_key_bytes() -> (r: Vec<u8>)
    ensures
        r@.len() == 16,
{
    rand::random::<[u8; 16]>().to_vec()
}

/// A fresh `Sec-WebSocket-Key` value: 16 random bytes, base64-encoded.
/// Whatever the random bytes were, the value is syntactically valid.
pub fn fresh_websocket_key() -> (r: Vec<u8>)
    ensures
        key_well_formed(r@),
        exists|b: Seq<u8>| b.len() == 16 && r@ == b64_of(b),
{
    let kb = fresh_key_bytes();
    let r = base64_encode(&kb);
    proof {
        assert(kb@.len() == 16 && r@ == b64_of(kb@));
    }
    r
}

} // verus!
