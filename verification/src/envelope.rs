//! The token envelope: a nonce, the validity window, and the session state,
//! together with its canonical byte serialization.

use vstd::bytes::{
    spec_u64_from_le_bytes, spec_u64_to_le_bytes, lemma_auto_spec_u64_to_from_le_bytes,
    u64_from_le_bytes, u64_to_le_bytes,
};
use vstd::prelude::*;
use vstd::slice::{slice_subrange, slice_to_vec};

use crate::crypto::random_nonce;
use crate::session::{AuthError, SessionState};

verus! {

/// Mathematical model of a token envelope.
pub struct EnvelopeModel {
    /// 16 random bytes; makes two tokens over the same state distinct.
    pub nonce: Seq<u8>,
    /// Issue time, in seconds since the epoch.
    pub iat: u64,
    /// Start of validity (a small skew buffer before `iat`).
    pub nbf: u64,
    /// End of validity: `iat` plus the state's time to live.
    pub exp: u64,
    /// The session state the token attests to.
    pub state: SessionState,
}

impl EnvelopeModel {
    /// A well-formed envelope: full-length nonce, ordered validity window,
    /// well-formed state.
    pub open spec fn wf(self) -> bool {
        &&& self.nonce.len() == 16
        &&& self.nbf <= self.iat <= self.exp
        &&& self.state.wf()
    }
}

/// The byte that tags each state variant in the serialization.
pub open spec fn state_tag(s: SessionState) -> u8 {
    match s {
        SessionState::Anonymous => 0u8,
        SessionState::Transition { .. } => 1u8,
        SessionState::SignedIn { .. } => 2u8,
    }
}

/// The user id carried by a state; zero for `Anonymous`.
pub open spec fn state_uid(s: SessionState) -> u64 {
    match s {
        SessionState::Anonymous => 0u64,
        SessionState::Transition { user_id } => user_id,
        SessionState::SignedIn { user_id } => user_id,
    }
}

/// The canonical 49-byte serialization of an envelope: nonce, then `iat`,
/// `nbf`, `exp` little endian, then the state tag and user id.
pub open spec fn spec_envelope_bytes(env: EnvelopeModel) -> Seq<u8> {
    env.nonce + spec_u64_to_le_bytes(env.iat) + spec_u64_to_le_bytes(env.nbf)
        + spec_u64_to_le_bytes(env.exp) + seq![state_tag(env.state)]
        + spec_u64_to_le_bytes(state_uid(env.state))
}

/// Parsing a byte string back into an envelope. Only the exact canonical
/// form of a well-formed envelope is accepted.
pub open spec fn spec_parse_envelope(bytes: Seq<u8>) -> Option<EnvelopeModel> {
    if bytes.len() != 49 {
        None
    } else {
        let iat = spec_u64_from_le_bytes(bytes.subrange(16, 24));
        let nbf = spec_u64_from_le_bytes(bytes.subrange(24, 32));
        let exp = spec_u64_from_le_bytes(bytes.subrange(32, 40));
        let tag = bytes[40];
        let uid = spec_u64_from_le_bytes(bytes.subrange(41, 49));
        let state = if tag == 0 && uid == 0 {
            Some(SessionState::Anonymous)
        } else if tag == 1 && uid != 0 {
            Some(SessionState::Transition { user_id: uid })
        } else if tag == 2 && uid != 0 {
            Some(SessionState::SignedIn { user_id: uid })
        } else {
            None
        };
        if !(nbf <= iat <= exp) {
            None
        } else {
            match state {
                Some(s) => Some(
                    EnvelopeModel {
                        nonce: bytes.subrange(0, 16),
                        iat,
                        nbf,
                        exp,
                        state: s,
                    },
                ),
                None => None,
            }
        }
    }
}

/// Parsing inverts serialization on well-formed envelopes.
pub proof fn lemma_envelope_round_trip(env: EnvelopeModel)
    requires
        env.wf(),
    ensures
        spec_parse_envelope(spec_envelope_bytes(env)) == Some(env),
{
    lemma_auto_spec_u64_to_from_le_bytes();
    let b = spec_envelope_bytes(env);
    assert(spec_u64_to_le_bytes(env.iat).len() == 8);
    assert(spec_u64_to_le_bytes(env.nbf).len() == 8);
    assert(spec_u64_to_le_bytes(env.exp).len() == 8);
    assert(spec_u64_to_le_bytes(state_uid(env.state)).len() == 8);
    assert(b.len() == 49);
    assert(b.subrange(0, 16) =~= env.nonce);
    assert(b.subrange(16, 24) =~= spec_u64_to_le_bytes(env.iat));
    assert(b.subrange(24, 32) =~= spec_u64_to_le_bytes(env.nbf));
    assert(b.subrange(32, 40) =~= spec_u64_to_le_bytes(env.exp));
    assert(b[40] == state_tag(env.state));
    assert(b.subrange(41, 49) =~= spec_u64_to_le_bytes(state_uid(env.state)));
}

/// The message returned with an expired or not-yet-valid token.
pub open spec fn expired_msg() -> Seq<char> {
    "expired"@
}

/// The executable token envelope. Tokens are created only through
/// [`JwtSessionState::create_now`] and the codec; a state embedded in one is
/// trusted only after the codec has checked the signature.
#[derive(Debug)]
pub struct JwtSessionState {
    /// 16 random nonce bytes.
    pub nonce: Vec<u8>,
    /// Issued-at time, seconds since the epoch.
    pub iat: u64,
    /// Not-before time.
    pub nbf: u64,
    /// Expiration time.
    pub exp: u64,
    /// The embedded session state.
    pub session_state: SessionState,
}

impl View for JwtSessionState {
    type V = EnvelopeModel;

    open spec fn view(&self) -> EnvelopeModel {
        EnvelopeModel {
            nonce: self.nonce@,
            iat: self.iat,
            nbf: self.nbf,
            exp: self.exp,
            state: self.session_state,
        }
    }
}

/// The skew buffer, in seconds, granted before the issue time.
pub const NOT_BEFORE_SKEW_SECS: u64 = 10;

/// The `not before` time of a token issued at `now`: the issue time less the
/// skew buffer, clamped at zero.
pub open spec fn spec_nbf(now: u64) -> u64 {
    if now >= NOT_BEFORE_SKEW_SECS {
        (now - NOT_BEFORE_SKEW_SECS) as u64
    } else {
        0u64
    }
}

impl JwtSessionState {
    /// Creates an envelope issued at `now` and expiring after the state's
    /// time to live, with a fresh random nonce and a small backward skew
    /// buffer on `not before`.
    pub fn create_now(session_state: SessionState, now: u64) -> (r: JwtSessionState)
        requires
            session_state.wf(),
            now + session_state.spec_ttl() <= u64::MAX,
        ensures
            r@.wf(),
            r@.iat == now,
            r@.nbf == spec_nbf(now),
            r@.exp == now + session_state.spec_ttl(),
            r@.state == session_state,
    {
        let nonce = random_nonce();
        let nbf = if now >= NOT_BEFORE_SKEW_SECS {
            now - NOT_BEFORE_SKEW_SECS
        } else {
            0
        };
        JwtSessionState { nonce, iat: now, nbf, exp: now + session_state.ttl(), session_state }
    }

    /// Checks that the token is valid at time `now`: inside the envelope's
    /// validity window.
    pub fn check_now(&self, now: u64) -> (r: Result<(), AuthError>)
        ensures
            self@.nbf <= now <= self@.exp ==> r is Ok,
            !(self@.nbf <= now <= self@.exp) ==> (r matches Err(AuthError::Unauthorized(m))
                && m@ == expired_msg()),
    {
        if now < self.nbf || self.exp < now {
            return Err(AuthError::Unauthorized("expired".to_owned()));
        }
        Ok(())
    }

    /// Serializes the envelope into its canonical byte form.
    pub fn to_bytes(&self) -> (r: Vec<u8>)
        requires
            self@.nonce.len() == 16,
        ensures
            r@ == spec_envelope_bytes(self@),
    {
        let mut out: Vec<u8> = Vec::new();
        out.extend_from_slice(self.nonce.as_slice());
        let iat_bytes = u64_to_le_bytes(self.iat);
        out.extend_from_slice(iat_bytes.as_slice());
        let nbf_bytes = u64_to_le_bytes(self.nbf);
        out.extend_from_slice(nbf_bytes.as_slice());
        let exp_bytes = u64_to_le_bytes(self.exp);
        out.extend_from_slice(exp_bytes.as_slice());
        let (tag, uid): (u8, u64) = match self.session_state {
            SessionState::Anonymous => (0, 0),
            SessionState::Transition { user_id } => (1, user_id),
            SessionState::SignedIn { user_id } => (2, user_id),
        };
        out.push(tag);
        let uid_bytes = u64_to_le_bytes(uid);
        out.extend_from_slice(uid_bytes.as_slice());
        assert(out@ =~= spec_envelope_bytes(self@));
        out
    }

    /// Parses a canonical byte form back into an envelope.
    pub fn parse(bytes: &[u8]) -> (r: Option<JwtSessionState>)
        ensures
            match r {
                Some(env) => spec_parse_envelope(bytes@) == Some(env@) && env@.wf(),
                None => spec_parse_envelope(bytes@) is None,
            },
    {
        if bytes.len() != 49 {
            return None;
        }
        let nonce = slice_to_vec(slice_subrange(bytes, 0, 16));
        let iat = u64_from_le_bytes(slice_subrange(bytes, 16, 24));
        let nbf = u64_from_le_bytes(slice_subrange(bytes, 24, 32));
        let exp = u64_from_le_bytes(slice_subrange(bytes, 32, 40));
        let tag = *vstd::slice::slice_index_get(bytes, 40);
        let uid = u64_from_le_bytes(slice_subrange(bytes, 41, 49));
        if !(nbf <= iat && iat <= exp) {
            return None;
        }
        let session_state = if tag == 0 && uid == 0 {
            SessionState::Anonymous
        } else if tag == 1 && uid != 0 {
            SessionState::Transition { user_id: uid }
        } else if tag == 2 && uid != 0 {
            SessionState::SignedIn { user_id: uid }
        } else {
            return None;
        };
        Some(JwtSessionState { nonce, iat, nbf, exp, session_state })
    }
}

} // verus!
