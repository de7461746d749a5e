use ws_counter::client::build_request;
use ws_counter::client::classify_response;
use ws_counter::client::fresh_request;
use ws_counter::client::ClientRequest;
use ws_counter::client::HandshakeResult;
use ws_counter::config::resolve_port;
use ws_counter::frames::produce_frames;
use ws_counter::frames::ProducerState;
use ws_counter::frames::WriteOutcome;
use ws_counter::handshake::negotiate;
use ws_counter::handshake::Negotiation;
use ws_counter::handshake::RejectReason;
use ws_counter::handshake::UpgradeRequest;
use ws_counter::keys::fresh_websocket_key;
use ws_counter::session::handle_connection;
use ws_counter::session::ConnectionOutcome;

// The sample key and its accept key from RFC 6455.
const SAMPLE_KEY: &[u8] = b"dGhlIHNhbXBsZSBub25jZQ==";
const SAMPLE_ACCEPT: &[u8] = b"s3pPLMBiTxaQ9kYGzzhZRbK+xOo=";

fn valid_request(start: Option<&[u8]>) -> UpgradeRequest {
    UpgradeRequest {
        upgrade: Some(b"websocket".to_vec()),
        version: Some(b"13".to_vec()),
        key: Some(SAMPLE_KEY.to_vec()),
        start: start.map(|s| s.to_vec()),
    }
}

fn expect_accept(r: Negotiation) -> (Vec<u8>, u8) {
    match r {
        Negotiation::Accept { accept, start } => (accept, start),
        Negotiation::Reject { status, reason } => {
            panic!("rejected with status {status} ({reason:?})")
        }
    }
}

fn expect_reject(r: Negotiation) -> (u16, RejectReason) {
    match r {
        Negotiation::Accept { .. } => panic!("unexpectedly accepted"),
        Negotiation::Reject { status, reason } => (status, reason),
    }
}

// --- stream producer ---

#[test]
fn first_frame_equals_start() {
    for start in [0u8, 1, 42, 254, 255] {
        let frames = produce_frames(start, &vec![true]);
        assert_eq!(frames, vec![start]);
    }
}

#[test]
fn frame_n_is_start_plus_n_mod_256() {
    let frames = produce_frames(7, &vec![true; 600]);
    assert_eq!(frames.len(), 600);
    for (n, f) in frames.iter().enumerate() {
        assert_eq!(*f, ((7 + n) % 256) as u8);
    }
}

#[test]
fn wraparound_255_then_0() {
    let frames = produce_frames(255, &vec![true, true, true]);
    assert_eq!(frames, vec![255, 0, 1]);
}

#[test]
fn stops_at_first_failed_write() {
    // Five delivered writes, then the transport closes: exactly five frames,
    // nothing retried.
    let outcomes = vec![true, true, true, true, true, false, true, true];
    let frames = produce_frames(250, &outcomes);
    assert_eq!(frames, vec![250, 251, 252, 253, 254]);
}

#[test]
fn no_outcomes_no_frames() {
    let frames = produce_frames(9, &Vec::new());
    assert!(frames.is_empty());
}

#[test]
fn immediate_failure_no_frames() {
    let frames = produce_frames(9, &vec![false, true]);
    assert!(frames.is_empty());
}

#[test]
fn same_start_replays_identically() {
    let a = produce_frames(10, &vec![true; 40]);
    let b = produce_frames(10, &vec![true; 40]);
    assert_eq!(a, b);
}

#[test]
fn producer_state_machine_transitions() {
    let s = ProducerState::init(255);
    assert_eq!(s, ProducerState::Running { counter: 255 });
    assert_eq!(s.pending_frame(), Some(255));
    let s = s.step(WriteOutcome::Delivered);
    assert_eq!(s, ProducerState::Running { counter: 0 });
    let s = s.step(WriteOutcome::Failed);
    assert_eq!(s, ProducerState::Stopped);
    assert_eq!(s.pending_frame(), None);
    assert_eq!(s.step(WriteOutcome::Delivered), ProducerState::Stopped);
}

// --- handshake negotiator ---

#[test]
fn accepts_valid_request_with_rfc_sample_key() {
    let (accept, start) = expect_accept(negotiate(&valid_request(None)));
    assert_eq!(accept, SAMPLE_ACCEPT.to_vec());
    assert_eq!(start, 0);
}

#[test]
fn accepts_start_parameter() {
    let (_, start) = expect_accept(negotiate(&valid_request(Some(b"250"))));
    assert_eq!(start, 250);
    let (_, start) = expect_accept(negotiate(&valid_request(Some(b"0"))));
    assert_eq!(start, 0);
    let (_, start) = expect_accept(negotiate(&valid_request(Some(b"255"))));
    assert_eq!(start, 255);
}

#[test]
fn accepts_uppercase_protocol_token() {
    let mut req = valid_request(None);
    req.upgrade = Some(b"WebSocket".to_vec());
    expect_accept(negotiate(&req));
}

#[test]
fn rejects_missing_upgrade_header() {
    let mut req = valid_request(None);
    req.upgrade = None;
    let (status, reason) = expect_reject(negotiate(&req));
    assert_eq!(status, 400);
    assert_ne!(status, 101);
    assert_eq!(reason, RejectReason::BadUpgradeHeader);
}

#[test]
fn rejects_wrong_upgrade_header() {
    let mut req = valid_request(None);
    req.upgrade = Some(b"h2c".to_vec());
    let (status, reason) = expect_reject(negotiate(&req));
    assert_eq!(status, 400);
    assert_eq!(reason, RejectReason::BadUpgradeHeader);
}

#[test]
fn rejects_missing_key() {
    let mut req = valid_request(None);
    req.key = None;
    let (status, reason) = expect_reject(negotiate(&req));
    assert_eq!(status, 400);
    assert_eq!(reason, RejectReason::BadKey);
}

#[test]
fn rejects_malformed_keys() {
    for bad in [
        &b""[..],
        b"dGhlIHNhbXBsZSBub25jZQ",    // no padding
        b"dGhlIHNhbXBsZSBub25jZQo=",   // wrong padding shape
        b"dGhlIHNhbXBsZSBub25jZQ===",  // too long
        b"dGhl!HNhbXBsZSBub25jZQ==",   // byte outside the alphabet
        b"dGhlIHNhbXBsZSBub2 jZQ==",   // embedded space
    ] {
        let mut req = valid_request(None);
        req.key = Some(bad.to_vec());
        let (status, reason) = expect_reject(negotiate(&req));
        assert_eq!(status, 400);
        assert_eq!(reason, RejectReason::BadKey);
    }
}

#[test]
fn rejects_missing_or_wrong_version() {
    let mut req = valid_request(None);
    req.version = None;
    let (status, reason) = expect_reject(negotiate(&req));
    assert_eq!(status, 400);
    assert_eq!(reason, RejectReason::BadVersion);

    for bad in [&b"12"[..], b"8", b"130", b""] {
        let mut req = valid_request(None);
        req.version = Some(bad.to_vec());
        let (_, reason) = expect_reject(negotiate(&req));
        assert_eq!(reason, RejectReason::BadVersion);
    }
}

#[test]
fn rejects_bad_start_values() {
    for bad in [&b"abc"[..], b"-1", b"256", b"999", b"", b"1x", b"18446744073709551616"] {
        let req = valid_request(Some(bad));
        let (status, reason) = expect_reject(negotiate(&req));
        assert_eq!(status, 400);
        assert_ne!(status, 101);
        assert_eq!(reason, RejectReason::BadStart);
    }
}

#[test]
fn rejection_messages_name_the_failing_check() {
    assert_eq!(RejectReason::BadUpgradeHeader.message(), "missing or invalid Upgrade header");
    assert_eq!(RejectReason::BadKey.message(), "missing or malformed Sec-WebSocket-Key header");
    assert_eq!(
        RejectReason::BadVersion.message(),
        "missing or unsupported Sec-WebSocket-Version header"
    );
    assert_eq!(RejectReason::BadStart.message(), "start must be an integer between 0 and 255");
}

#[test]
fn accepts_start_with_leading_zeros() {
    let (_, start) = expect_accept(negotiate(&valid_request(Some(b"0250"))));
    assert_eq!(start, 250);
}

// --- one connection end to end ---

#[test]
fn streams_250_through_wraparound() {
    let req = valid_request(Some(b"250"));
    match handle_connection(&req, &vec![true; 9]) {
        ConnectionOutcome::Streamed { status, accept, frames } => {
            assert_eq!(status, 101);
            assert_eq!(accept, SAMPLE_ACCEPT.to_vec());
            assert_eq!(frames, vec![250, 251, 252, 253, 254, 255, 0, 1, 2]);
        }
        ConnectionOutcome::Rejected { status, reason } => {
            panic!("rejected with status {status} ({reason:?})")
        }
    }
}

#[test]
fn omitted_start_begins_at_zero() {
    let req = valid_request(None);
    match handle_connection(&req, &vec![true, true]) {
        ConnectionOutcome::Streamed { frames, .. } => assert_eq!(frames, vec![0, 1]),
        ConnectionOutcome::Rejected { .. } => panic!("unexpectedly rejected"),
    }
}

#[test]
fn rejected_connection_emits_no_frames() {
    let mut req = valid_request(None);
    req.upgrade = None;
    match handle_connection(&req, &vec![true; 5]) {
        ConnectionOutcome::Rejected { status, .. } => {
            assert_eq!(status, 400);
            assert_ne!(status, 101);
        }
        ConnectionOutcome::Streamed { .. } => panic!("a rejected request must not stream"),
    }
}

#[test]
fn transport_close_after_five_frames_ends_connection() {
    let req = valid_request(Some(b"10"));
    let outcomes = vec![true, true, true, true, true, false, true];
    match handle_connection(&req, &outcomes) {
        ConnectionOutcome::Streamed { frames, .. } => {
            assert_eq!(frames, vec![10, 11, 12, 13, 14]);
        }
        ConnectionOutcome::Rejected { .. } => panic!("unexpectedly rejected"),
    }
}

#[test]
fn two_connections_same_start_identical_frames() {
    let a = handle_connection(&valid_request(Some(b"10")), &vec![true; 20]);
    let b = handle_connection(&valid_request(Some(b"10")), &vec![true; 20]);
    match (a, b) {
        (
            ConnectionOutcome::Streamed { frames: fa, .. },
            ConnectionOutcome::Streamed { frames: fb, .. },
        ) => assert_eq!(fa, fb),
        _ => panic!("both connections should stream"),
    }
}

// --- handshake initiator ---

#[test]
fn built_request_carries_the_upgrade_headers() {
    let key = vec![0u8; 16];
    let r: ClientRequest = build_request(&key);
    assert_eq!(r.connection, b"Upgrade".to_vec());
    assert_eq!(r.upgrade, b"websocket".to_vec());
    assert_eq!(r.version, b"13".to_vec());
    assert_eq!(r.key, b"AAAAAAAAAAAAAAAAAAAAAA==".to_vec());
}

#[test]
fn built_request_encodes_the_rfc_sample_key() {
    let key = b"the sample nonce".to_vec();
    let r = build_request(&key);
    assert_eq!(r.key, SAMPLE_KEY.to_vec());
}

#[test]
fn fresh_key_is_well_formed() {
    let key = fresh_websocket_key();
    assert_eq!(key.len(), 24);
    assert_eq!(&key[22..], b"==");
}

#[test]
fn negotiator_accepts_what_initiator_builds() {
    let built = fresh_request();
    let req = UpgradeRequest {
        upgrade: Some(built.upgrade),
        version: Some(built.version),
        key: Some(built.key),
        start: None,
    };
    expect_accept(negotiate(&req));
}

#[test]
fn classifies_101_as_accepted() {
    let r = classify_response(Some((101, Vec::new())));
    assert!(matches!(r, HandshakeResult::Accepted));
}

#[test]
fn classifies_other_status_as_rejected_with_body() {
    match classify_response(Some((404, b"not here".to_vec()))) {
        HandshakeResult::Rejected { status, body } => {
            assert_eq!(status, 404);
            assert_eq!(body, b"not here".to_vec());
        }
        _ => panic!("a non-101 status is a negotiation failure"),
    }
}

#[test]
fn classifies_no_response_as_transport_failure() {
    let r = classify_response(None);
    assert!(matches!(r, HandshakeResult::TransportFailed));
}

// --- configuration ---

#[test]
fn port_defaults_when_absent() {
    assert_eq!(resolve_port(&None), Some(8080));
}

#[test]
fn port_parses_decimal_settings() {
    assert_eq!(resolve_port(&Some(b"8080".to_vec())), Some(8080));
    assert_eq!(resolve_port(&Some(b"0".to_vec())), Some(0));
    assert_eq!(resolve_port(&Some(b"65535".to_vec())), Some(65535));
}

#[test]
fn port_rejects_unparsable_settings() {
    for bad in [&b""[..], b"abc", b"65536", b"-1", b"80 80"] {
        assert_eq!(resolve_port(&Some(bad.to_vec())), None);
    }
}
