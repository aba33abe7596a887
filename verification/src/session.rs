//! Session states, their time-to-live policies, and the authorization errors.

use vstd::prelude::*;

verus! {

/// Authorization failure, as reported to the caller.
#[derive(Debug)]
pub enum AuthError {
    /// A valid-looking but insufficient or expired credential.
    Unauthorized(String),
    /// A required proof is absent or of the wrong kind.
    MissingCredentials,
    /// A local failure while composing a response.
    TokenCreation(String),
    /// A malformed or signature-invalid token.
    InvalidToken,
    /// The identity provider could not be reached or answered with an error.
    UpstreamError,
}

impl AuthError {
    /// The HTTP status code each error maps to.
    pub fn status_code(&self) -> (r: u16)
        ensures
            r == match self {
                AuthError::Unauthorized(_) => 401u16,
                AuthError::MissingCredentials => 400u16,
                AuthError::TokenCreation(_) => 500u16,
                AuthError::InvalidToken => 400u16,
                AuthError::UpstreamError => 503u16,
            },
    {
        match self {
            AuthError::Unauthorized(_) => 401,
            AuthError::MissingCredentials => 400,
            AuthError::TokenCreation(_) => 500,
            AuthError::InvalidToken => 400,
            AuthError::UpstreamError => 503,
        }
    }
}

/// The legal session states. A caller proves a claimed state by presenting a
/// signed token that embeds one of these.
#[derive(Clone, Copy, Debug, PartialEq, Eq, Structural)]
pub enum SessionState {
    /// Pre-authentication placeholder; also serves as the CSRF nonce carrier
    /// for the provider redirect round trip.
    Anonymous,
    /// Proof that an identity-provider handshake succeeded for `user_id`;
    /// not yet a full session.
    Transition {
        /// User ID to be signed in.
        user_id: u64,
    },
    /// Fully authenticated session for `user_id`.
    SignedIn {
        /// User ID that is signed in.
        user_id: u64,
    },
}

/// Lifetime of an `Anonymous` token: a day, since it must survive the
/// provider redirect round trip.
pub const ANONYMOUS_TTL_SECS: u64 = 86400;

/// Lifetime of a `Transition` token: a minute, the single-use upgrade window.
pub const TRANSITION_TTL_SECS: u64 = 60;

/// Lifetime of a `SignedIn` token: three hours.
pub const SIGNED_IN_TTL_SECS: u64 = 10800;

impl SessionState {
    /// A state is well formed when its user id, if any, is nonzero.
    pub open spec fn wf(self) -> bool {
        match self {
            SessionState::Anonymous => true,
            SessionState::Transition { user_id } => user_id != 0,
            SessionState::SignedIn { user_id } => user_id != 0,
        }
    }

    /// Time to live, in seconds, for each kind of session.
    pub open spec fn spec_ttl(self) -> u64 {
        match self {
            SessionState::Anonymous => ANONYMOUS_TTL_SECS,
            SessionState::Transition { .. } => TRANSITION_TTL_SECS,
            SessionState::SignedIn { .. } => SIGNED_IN_TTL_SECS,
        }
    }

    /// Time to live for each kind of session.
    pub fn ttl(self) -> (r: u64)
        ensures
            r == self.spec_ttl(),
    {
        match self {
            SessionState::Anonymous => ANONYMOUS_TTL_SECS,
            SessionState::Transition { .. } => TRANSITION_TTL_SECS,
            SessionState::SignedIn { .. } => SIGNED_IN_TTL_SECS,
        }
    }
}

/// Typed witness of [`SessionState::Anonymous`], produced only by the
/// anonymous guard.
#[derive(Clone, Copy, Debug, PartialEq, Eq, Structural)]
pub struct SessionStateAnonymous;

/// Typed witness of [`SessionState::Transition`], produced only by the
/// transition guard.
#[derive(Clone, Copy, Debug, PartialEq, Eq, Structural)]
pub struct SessionStateTransition {
    /// User ID to be signed in.
    pub user_id: u64,
}

/// Typed witness of [`SessionState::SignedIn`], produced only by the
/// signed-in guard.
#[derive(Clone, Copy, Debug, PartialEq, Eq, Structural)]
pub struct SessionStateSignedIn {
    /// User ID that is signed in.
    pub user_id: u64,
}

} // verus!
