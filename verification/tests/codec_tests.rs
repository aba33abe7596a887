//! Tests for the token codec: round trips, expiry, tampering, nonces, and
//! the typed guards.

use cmflairs::codec::{create_session_state_token, verify_session_state_token, TokenCodec};
use cmflairs::guards::{
    bearer_token, require_anonymous, require_signed_in, require_transition, signin_anonymous,
    signin_upgrade,
};
use cmflairs::session::{AuthError, SessionState};

fn test_codec() -> TokenCodec {
    TokenCodec::new(vec![7u8; 32]).expect("a 32-byte key must be accepted")
}

const NOW: u64 = 1_700_000_000;

#[test]
fn key_shorter_than_32_bytes_is_refused() {
    assert!(TokenCodec::new(vec![7u8; 31]).is_none());
    assert!(TokenCodec::new(Vec::new()).is_none());
    assert!(TokenCodec::new(vec![7u8; 32]).is_some());
    assert!(TokenCodec::new(vec![7u8; 64]).is_some());
}

#[test]
fn round_trip_anonymous() {
    let codec = test_codec();
    let token = codec.sign(SessionState::Anonymous, NOW);
    assert!(matches!(codec.verify(&token, NOW), Ok(SessionState::Anonymous)));
}

#[test]
fn round_trip_transition() {
    let codec = test_codec();
    let token = codec.sign(SessionState::Transition { user_id: 42 }, NOW);
    assert!(matches!(
        codec.verify(&token, NOW),
        Ok(SessionState::Transition { user_id: 42 })
    ));
}

#[test]
fn round_trip_signed_in() {
    let codec = test_codec();
    let token = codec.sign(SessionState::SignedIn { user_id: 7 }, NOW);
    assert!(matches!(
        codec.verify(&token, NOW),
        Ok(SessionState::SignedIn { user_id: 7 })
    ));
}

#[test]
fn round_trip_at_window_edges() {
    let codec = test_codec();
    let token = codec.sign(SessionState::Anonymous, NOW);
    // The window opens 10 seconds before issue and closes a day after.
    assert!(codec.verify(&token, NOW - 10).is_ok());
    assert!(codec.verify(&token, NOW + 86400).is_ok());
}

#[test]
fn scenario_anonymous_verifies_immediately() {
    let codec = test_codec();
    let t0 = codec.sign(SessionState::Anonymous, NOW);
    assert!(matches!(codec.verify(&t0, NOW), Ok(SessionState::Anonymous)));
}

#[test]
fn scenario_transition_expires_after_its_minute() {
    let codec = test_codec();
    let token = codec.sign(SessionState::Transition { user_id: 3 }, NOW);
    match codec.verify(&token, NOW + 61) {
        Err(AuthError::Unauthorized(msg)) => assert_eq!(msg, "expired"),
        other => panic!("expected an expiry error, got {:?}", other),
    }
}

#[test]
fn expiry_applies_even_with_a_valid_signature() {
    let codec = test_codec();
    let token = codec.sign(SessionState::Anonymous, NOW);
    match codec.verify(&token, NOW + 86401) {
        Err(AuthError::Unauthorized(msg)) => assert_eq!(msg, "expired"),
        other => panic!("expected an expiry error, got {:?}", other),
    }
    // Also before the window opens.
    match codec.verify(&token, NOW - 11) {
        Err(AuthError::Unauthorized(msg)) => assert_eq!(msg, "expired"),
        other => panic!("expected an expiry error, got {:?}", other),
    }
}

#[test]
fn tampering_with_any_character_is_detected() {
    let codec = test_codec();
    let token = codec.sign(SessionState::SignedIn { user_id: 99 }, NOW);
    let chars: Vec<char> = token.chars().collect();
    for i in 0..chars.len() {
        let mut flipped = chars.clone();
        flipped[i] = if flipped[i] == 'A' { 'B' } else { 'A' };
        let tampered: String = flipped.into_iter().collect();
        if tampered == token {
            continue;
        }
        assert!(
            matches!(codec.verify(&tampered, NOW), Err(AuthError::InvalidToken)),
            "tampering at position {} was not rejected",
            i
        );
    }
}

#[test]
fn verify_with_another_key_fails() {
    let codec_a = test_codec();
    let codec_b = TokenCodec::new(vec![8u8; 32]).unwrap();
    let token = codec_a.sign(SessionState::Anonymous, NOW);
    assert!(matches!(codec_b.verify(&token, NOW), Err(AuthError::InvalidToken)));
}

#[test]
fn garbage_tokens_are_invalid() {
    let codec = test_codec();
    for bad in ["", "nodot", "two.dots.here@@", "..", "a.b", "\u{00e9}.\u{00e9}"] {
        assert!(
            matches!(codec.verify(bad, NOW), Err(AuthError::InvalidToken)),
            "token {:?} was not rejected",
            bad
        );
    }
}

#[test]
fn nonce_makes_tokens_unique() {
    let codec = test_codec();
    let a = codec.sign(SessionState::Anonymous, NOW);
    let b = codec.sign(SessionState::Anonymous, NOW);
    assert_ne!(a, b);
}

#[test]
fn free_functions_agree_with_the_codec() {
    let codec = test_codec();
    let token = create_session_state_token(&codec, SessionState::Transition { user_id: 5 }, NOW)
        .expect("signing cannot fail");
    assert!(matches!(
        verify_session_state_token(&codec, &token, NOW),
        Ok(SessionState::Transition { user_id: 5 })
    ));
}

#[test]
fn bearer_header_parsing() {
    assert!(matches!(bearer_token("Bearer abc.def"), Ok("abc.def")));
    assert!(matches!(bearer_token("Bearer "), Ok("")));
    assert!(matches!(bearer_token("bearer abc"), Err(AuthError::InvalidToken)));
    assert!(matches!(bearer_token("Basic abc"), Err(AuthError::InvalidToken)));
    assert!(matches!(bearer_token(""), Err(AuthError::InvalidToken)));
    assert!(matches!(bearer_token("Bearer"), Err(AuthError::InvalidToken)));
}

#[test]
fn guards_admit_their_own_variant() {
    let codec = test_codec();
    let anon = codec.sign(SessionState::Anonymous, NOW);
    let trans = codec.sign(SessionState::Transition { user_id: 6 }, NOW);
    let signed = codec.sign(SessionState::SignedIn { user_id: 6 }, NOW);
    assert!(require_anonymous(&codec, &anon, NOW).is_ok());
    assert_eq!(require_transition(&codec, &trans, NOW).unwrap().user_id, 6);
    assert_eq!(require_signed_in(&codec, &signed, NOW).unwrap().user_id, 6);
}

#[test]
fn guards_reject_the_wrong_variant() {
    let codec = test_codec();
    let anon = codec.sign(SessionState::Anonymous, NOW);
    let trans = codec.sign(SessionState::Transition { user_id: 6 }, NOW);
    let signed = codec.sign(SessionState::SignedIn { user_id: 6 }, NOW);
    for (guard_err, name) in [
        (require_anonymous(&codec, &trans, NOW).err(), "anonymous vs transition"),
        (require_anonymous(&codec, &signed, NOW).err(), "anonymous vs signed-in"),
        (require_transition(&codec, &anon, NOW).err(), "transition vs anonymous"),
        (require_transition(&codec, &signed, NOW).err(), "transition vs signed-in"),
        (require_signed_in(&codec, &anon, NOW).err(), "signed-in vs anonymous"),
        (require_signed_in(&codec, &trans, NOW).err(), "signed-in vs transition"),
    ] {
        match guard_err {
            Some(AuthError::Unauthorized(msg)) => {
                assert_eq!(msg, "wrong session state", "case: {}", name)
            }
            other => panic!("case {}: expected Unauthorized, got {:?}", name, other),
        }
    }
}

#[test]
fn signin_anonymous_issues_a_csrf_token() {
    let codec = test_codec();
    let token = signin_anonymous(&codec, NOW).expect("signing cannot fail");
    assert!(matches!(codec.verify(&token, NOW), Ok(SessionState::Anonymous)));
}

#[test]
fn upgrade_accepts_only_transition_tokens() {
    let codec = test_codec();
    let trans = codec.sign(SessionState::Transition { user_id: 42 }, NOW);
    let upgraded = signin_upgrade(&codec, &trans, NOW).expect("upgrade must succeed");
    assert!(matches!(
        codec.verify(&upgraded, NOW),
        Ok(SessionState::SignedIn { user_id: 42 })
    ));

    let signed = codec.sign(SessionState::SignedIn { user_id: 42 }, NOW);
    match signin_upgrade(&codec, &signed, NOW) {
        Err(AuthError::Unauthorized(msg)) => assert_eq!(msg, "wrong session state"),
        other => panic!("a signed-in token must not upgrade, got {:?}", other),
    }
    let anon = codec.sign(SessionState::Anonymous, NOW);
    match signin_upgrade(&codec, &anon, NOW) {
        Err(AuthError::Unauthorized(msg)) => assert_eq!(msg, "wrong session state"),
        other => panic!("an anonymous token must not upgrade, got {:?}", other),
    }
    assert!(matches!(
        signin_upgrade(&codec, "not a token", NOW),
        Err(AuthError::InvalidToken)
    ));
}

#[test]
fn error_status_codes() {
    assert_eq!(AuthError::Unauthorized(String::from("x")).status_code(), 401);
    assert_eq!(AuthError::MissingCredentials.status_code(), 400);
    assert_eq!(AuthError::TokenCreation(String::from("x")).status_code(), 500);
    assert_eq!(AuthError::InvalidToken.status_code(), 400);
    assert_eq!(AuthError::UpstreamError.status_code(), 503);
}

#[test]
fn ttl_policy() {
    assert_eq!(SessionState::Anonymous.ttl(), 86400);
    assert_eq!(SessionState::Transition { user_id: 1 }.ttl(), 60);
    assert_eq!(SessionState::SignedIn { user_id: 1 }.ttl(), 10800);
}
