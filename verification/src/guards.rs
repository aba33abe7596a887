//! Typed per-endpoint guards: each protected operation demands its required
//! session variant through one of these, never by inspecting the enum ad hoc,
//! together with the sign-in operations that compose them.

use vstd::prelude::*;

use crate::codec::{create_session_state_token, spec_verify, TokenCodec, VerifyOutcome};
use crate::envelope::{expired_msg, spec_nbf};
use crate::session::{
    AuthError, SessionState, SessionStateAnonymous, SessionStateSignedIn, SessionStateTransition,
};

verus! {

/// The `Authorization` header scheme prefix demanded of bearers.
pub open spec fn spec_bearer_prefix() -> Seq<char> {
    "Bearer "@
}

/// True when `header` is a well-formed bearer header: the scheme prefix
/// followed by the token.
pub open spec fn spec_has_bearer(header: Seq<char>) -> bool {
    header.len() >= 7 && header.subrange(0, 7) == spec_bearer_prefix()
}

/// Extracts the token from an `Authorization` header value of the form
/// `Bearer <token>`; a malformed header yields `InvalidToken`.
pub fn bearer_token<'a>(header: &'a str) -> (r: Result<&'a str, AuthError>)
    ensures
        spec_has_bearer(header@) ==> (r matches Ok(t) && t@ == header@.subrange(
            7,
            header@.len() as int,
        )),
        !spec_has_bearer(header@) ==> r == Err::<&'a str, AuthError>(AuthError::InvalidToken),
{
    proof {
        reveal_strlit("Bearer ");
    }
    let n = header.unicode_len();
    if n < 7 {
        return Err(AuthError::InvalidToken);
    }
    let ok = header.get_char(0) == 'B' && header.get_char(1) == 'e' && header.get_char(2) == 'a'
        && header.get_char(3) == 'r' && header.get_char(4) == 'e' && header.get_char(5) == 'r'
        && header.get_char(6) == ' ';
    if !ok {
        proof {
            assert(header@.subrange(0, 7) != spec_bearer_prefix()) by {
                if header@.subrange(0, 7) == spec_bearer_prefix() {
                    assert(header@[0] == spec_bearer_prefix()[0]);
                    assert(header@[1] == spec_bearer_prefix()[1]);
                    assert(header@[2] == spec_bearer_prefix()[2]);
                    assert(header@[3] == spec_bearer_prefix()[3]);
                    assert(header@[4] == spec_bearer_prefix()[4]);
                    assert(header@[5] == spec_bearer_prefix()[5]);
                    assert(header@[6] == spec_bearer_prefix()[6]);
                }
            }
        }
        return Err(AuthError::InvalidToken);
    }
    proof {
        assert(header@.subrange(0, 7) =~= spec_bearer_prefix());
    }
    Ok(header.substring_char(7, n))
}

/// The message returned when a token decodes to the wrong session variant
/// for the operation it was presented to.
pub open spec fn wrong_state_msg() -> Seq<char> {
    "wrong session state"@
}

/// Admits only a currently valid `Anonymous` token.
pub fn require_anonymous(codec: &TokenCodec, token: &str, now: u64) -> (r: Result<
    SessionStateAnonymous,
    AuthError,
>)
    requires
        codec.wf(),
    ensures
        match spec_verify(codec.spec_key(), token@, now) {
            VerifyOutcome::Valid(s) => if s is Anonymous {
                r == Ok::<SessionStateAnonymous, AuthError>(SessionStateAnonymous)
            } else {
                r matches Err(AuthError::Unauthorized(m)) && m@ == wrong_state_msg()
            },
            VerifyOutcome::BadToken => r == Err::<SessionStateAnonymous, AuthError>(
                AuthError::InvalidToken,
            ),
            VerifyOutcome::Expired => r matches Err(AuthError::Unauthorized(m)) && m@
                == expired_msg(),
        },
{
    match codec.verify(token, now)? {
        SessionState::Anonymous => Ok(SessionStateAnonymous),
        _ => Err(AuthError::Unauthorized("wrong session state".to_owned())),
    }
}

/// Admits only a currently valid `Transition` token, yielding the user id
/// the handshake established.
pub fn require_transition(codec: &TokenCodec, token: &str, now: u64) -> (r: Result<
    SessionStateTransition,
    AuthError,
>)
    requires
        codec.wf(),
    ensures
        match spec_verify(codec.spec_key(), token@, now) {
            VerifyOutcome::Valid(s) => match s {
                SessionState::Transition { user_id } => r == Ok::<
                    SessionStateTransition,
                    AuthError,
                >(SessionStateTransition { user_id }) && user_id != 0,
                _ => r matches Err(AuthError::Unauthorized(m)) && m@ == wrong_state_msg(),
            },
            VerifyOutcome::BadToken => r == Err::<SessionStateTransition, AuthError>(
                AuthError::InvalidToken,
            ),
            VerifyOutcome::Expired => r matches Err(AuthError::Unauthorized(m)) && m@
                == expired_msg(),
        },
{
    match codec.verify(token, now)? {
        SessionState::Transition { user_id } => Ok(SessionStateTransition { user_id }),
        _ => Err(AuthError::Unauthorized("wrong session state".to_owned())),
    }
}

/// Admits only a currently valid `SignedIn` token, yielding the signed-in
/// user id.
pub fn require_signed_in(codec: &TokenCodec, token: &str, now: u64) -> (r: Result<
    SessionStateSignedIn,
    AuthError,
>)
    requires
        codec.wf(),
    ensures
        match spec_verify(codec.spec_key(), token@, now) {
            VerifyOutcome::Valid(s) => match s {
                SessionState::SignedIn { user_id } => r == Ok::<
                    SessionStateSignedIn,
                    AuthError,
                >(SessionStateSignedIn { user_id }) && user_id != 0,
                _ => r matches Err(AuthError::Unauthorized(m)) && m@ == wrong_state_msg(),
            },
            VerifyOutcome::BadToken => r == Err::<SessionStateSignedIn, AuthError>(
                AuthError::InvalidToken,
            ),
            VerifyOutcome::Expired => r matches Err(AuthError::Unauthorized(m)) && m@
                == expired_msg(),
        },
{
    match codec.verify(token, now)? {
        SessionState::SignedIn { user_id } => Ok(SessionStateSignedIn { user_id }),
        _ => Err(AuthError::Unauthorized("wrong session state".to_owned())),
    }
}

/// Issues a fresh `Anonymous` token: the entry point of every session, and
/// the CSRF nonce for a subsequent provider handshake.
pub fn signin_anonymous(codec: &TokenCodec, now: u64) -> (r: Result<String, AuthError>)
    requires
        codec.wf(),
        now + SessionState::Anonymous.spec_ttl() <= u64::MAX,
    ensures
        r matches Ok(tok) && forall|t: u64|
            spec_nbf(now) <= t <= now + SessionState::Anonymous.spec_ttl() ==> spec_verify(
                codec.spec_key(),
                tok@,
                t,
            ) == VerifyOutcome::Valid(SessionState::Anonymous),
        r matches Ok(tok) && forall|t: u64|
            !(spec_nbf(now) <= t <= now + SessionState::Anonymous.spec_ttl()) ==> spec_verify(
                codec.spec_key(),
                tok@,
                t,
            ) == VerifyOutcome::Expired,
{
    create_session_state_token(codec, SessionState::Anonymous, now)
}

/// The upgrade operation: exchanges a currently valid `Transition` token for
/// a `SignedIn` token carrying the same user id. Any other presented
/// variant, or an invalid or expired token, is rejected; in particular a
/// `SignedIn` token cannot be used to mint another.
pub fn signin_upgrade(codec: &TokenCodec, token: &str, now: u64) -> (r: Result<String, AuthError>)
    requires
        codec.wf(),
        now + SessionState::Anonymous.spec_ttl() <= u64::MAX,
    ensures
        match spec_verify(codec.spec_key(), token@, now) {
            VerifyOutcome::Valid(s) => match s {
                SessionState::Transition { user_id } => r matches Ok(tok) && forall|t: u64|
                    spec_nbf(now) <= t <= now + (SessionState::SignedIn { user_id }).spec_ttl()
                        ==> spec_verify(codec.spec_key(), tok@, t) == VerifyOutcome::Valid(
                        SessionState::SignedIn { user_id },
                    ),
                _ => r matches Err(AuthError::Unauthorized(m)) && m@ == wrong_state_msg(),
            },
            VerifyOutcome::BadToken => r == Err::<String, AuthError>(AuthError::InvalidToken),
            VerifyOutcome::Expired => r matches Err(AuthError::Unauthorized(m)) && m@
                == expired_msg(),
        },
{
    let transition = require_transition(codec, token, now)?;
    create_session_state_token(codec, SessionState::SignedIn { user_id: transition.user_id }, now)
}

} // verus!
