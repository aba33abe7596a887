//! Tests for the envelope serialization and the byte comparison.

use cmflairs::codec::eq_bytes;
use cmflairs::envelope::JwtSessionState;
use cmflairs::session::{AuthError, SessionState};

const NOW: u64 = 1_700_000_000;

#[test]
fn envelope_bytes_round_trip() {
    let env = JwtSessionState::create_now(SessionState::Transition { user_id: 42 }, NOW);
    let bytes = env.to_bytes();
    assert_eq!(bytes.len(), 49);
    let back = JwtSessionState::parse(&bytes).expect("canonical bytes must parse");
    assert_eq!(back.iat, NOW);
    assert_eq!(back.nbf, NOW - 10);
    assert_eq!(back.exp, NOW + 60);
    assert!(matches!(back.session_state, SessionState::Transition { user_id: 42 }));
    assert_eq!(back.nonce, env.nonce);
}

#[test]
fn envelope_parse_rejects_malformed_bytes() {
    assert!(JwtSessionState::parse(&[]).is_none());
    assert!(JwtSessionState::parse(&[0u8; 48]).is_none());
    assert!(JwtSessionState::parse(&[0u8; 50]).is_none());
    // 49 zero bytes: window is fine but the tag demands a zero user id,
    // which the anonymous tag has, so this parses.
    assert!(JwtSessionState::parse(&[0u8; 49]).is_some());
    // A transition tag with a zero user id is refused.
    let mut bytes = [0u8; 49];
    bytes[40] = 1;
    assert!(JwtSessionState::parse(&bytes).is_none());
    // An unknown tag is refused.
    let mut bytes = [0u8; 49];
    bytes[40] = 3;
    assert!(JwtSessionState::parse(&bytes).is_none());
    // A window with exp before nbf is refused.
    let env = JwtSessionState::create_now(SessionState::Anonymous, NOW);
    let mut bytes = env.to_bytes();
    for b in bytes.iter_mut().skip(32).take(8) {
        *b = 0;
    }
    assert!(JwtSessionState::parse(&bytes).is_none());
}

#[test]
fn check_now_bounds_the_window() {
    let env = JwtSessionState::create_now(SessionState::Anonymous, NOW);
    assert!(env.check_now(NOW).is_ok());
    assert!(env.check_now(NOW - 10).is_ok());
    assert!(env.check_now(NOW + 86400).is_ok());
    for bad in [NOW - 11, NOW + 86401, 0, u64::MAX] {
        match env.check_now(bad) {
            Err(AuthError::Unauthorized(msg)) => assert_eq!(msg, "expired"),
            other => panic!("time {} must be outside the window, got {:?}", bad, other),
        }
    }
}

#[test]
fn create_now_sets_a_fresh_nonce() {
    let a = JwtSessionState::create_now(SessionState::Anonymous, NOW);
    let b = JwtSessionState::create_now(SessionState::Anonymous, NOW);
    assert_eq!(a.nonce.len(), 16);
    assert_ne!(a.nonce, b.nonce);
}

#[test]
fn nbf_is_clamped_near_the_epoch() {
    let env = JwtSessionState::create_now(SessionState::Anonymous, 5);
    assert_eq!(env.nbf, 0);
    assert_eq!(env.iat, 5);
}

#[test]
fn byte_equality() {
    assert!(eq_bytes(&[], &[]));
    assert!(eq_bytes(&[1, 2, 3], &[1, 2, 3]));
    assert!(!eq_bytes(&[1, 2, 3], &[1, 2, 4]));
    assert!(!eq_bytes(&[1, 2, 3], &[1, 2]));
    assert!(!eq_bytes(&[0], &[128]));
}
