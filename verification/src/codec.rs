//! The token codec: signing a session state into an opaque bearer token, and
//! verifying such a token back into the state it attests to.
//!
//! A token is the base64 text of the serialized envelope, a `'.'`, and the
//! base64 text of the HMAC-SHA-512 tag over that serialization under the
//! server's secret key. A state decoded from a token is trusted only because
//! the tag matched: nothing else can produce a matching tag without the key.

use vstd::prelude::*;

use crate::crypto::{b64_dec_of, b64_decode, b64_encode, b64_of, dot_free, hmac_sha512, mac_of};
use crate::envelope::{
    expired_msg, spec_envelope_bytes, spec_nbf, spec_parse_envelope, EnvelopeModel,
    JwtSessionState,
};
use crate::session::{AuthError, SessionState};

verus! {

/// Splitting a text at its first `'.'`, which is dropped; `None` when there
/// is no dot.
pub open spec fn spec_split_dot(s: Seq<char>) -> Option<(Seq<char>, Seq<char>)>
    decreases s.len(),
{
    if s.len() == 0 {
        None
    } else if s[0] == '.' {
        Some((Seq::empty(), s.drop_first()))
    } else {
        match spec_split_dot(s.drop_first()) {
            None => None,
            Some(p) => Some((seq![s[0]] + p.0, p.1)),
        }
    }
}

/// On a text assembled as `a + '.' + b` with no dot in `a`, the split
/// recovers exactly `a` and `b`.
pub proof fn lemma_split_dot_of_concat(a: Seq<char>, b: Seq<char>)
    requires
        dot_free(a),
    ensures
        spec_split_dot(a + seq!['.'] + b) == Some((a, b)),
    decreases a.len(),
{
    let s = a + seq!['.'] + b;
    if a.len() == 0 {
        assert(s[0] == '.');
        assert(s.drop_first() =~= b);
        assert(a =~= Seq::<char>::empty());
    } else {
        assert(s[0] == a[0]);
        lemma_split_dot_of_concat(a.drop_first(), b);
        assert(s.drop_first() =~= a.drop_first() + seq!['.'] + b);
        assert(seq![s[0]] + a.drop_first() =~= a);
    }
}

/// A text without a dot does not split.
pub proof fn lemma_split_dot_none(s: Seq<char>)
    requires
        dot_free(s),
    ensures
        spec_split_dot(s) is None,
    decreases s.len(),
{
    if s.len() != 0 {
        assert(s[0] != '.');
        assert forall|i: int| 0 <= i < s.drop_first().len() implies s.drop_first()[i] != '.' by {
            assert(s.drop_first()[i] == s[i + 1]);
        }
        lemma_split_dot_none(s.drop_first());
    }
}

/// The token text issued for envelope `env` under `key`.
pub open spec fn spec_token(key: Seq<u8>, env: EnvelopeModel) -> Seq<char> {
    b64_of(spec_envelope_bytes(env)) + seq!['.']
        + b64_of(mac_of(key, spec_envelope_bytes(env)))
}

/// What verification decides about a token text at a given time.
pub enum VerifyOutcome {
    /// Signature and validity window both check out; the embedded state.
    Valid(SessionState),
    /// Malformed text, malformed envelope, or signature mismatch.
    BadToken,
    /// Well signed, but `now` lies outside the validity window.
    Expired,
}

/// The meaning of verification: split at the dot, decode both parts,
/// recompute the tag over the payload, compare, then check the window.
pub open spec fn spec_verify(key: Seq<u8>, token: Seq<char>, now: u64) -> VerifyOutcome {
    match spec_split_dot(token) {
        None => VerifyOutcome::BadToken,
        Some(parts) => match (b64_dec_of(parts.0), b64_dec_of(parts.1)) {
            (Some(payload), Some(sig)) => if sig != mac_of(key, payload) {
                VerifyOutcome::BadToken
            } else {
                match spec_parse_envelope(payload) {
                    None => VerifyOutcome::BadToken,
                    Some(env) => if env.nbf <= now <= env.exp {
                        VerifyOutcome::Valid(env.state)
                    } else {
                        VerifyOutcome::Expired
                    },
                }
            },
            _ => VerifyOutcome::BadToken,
        },
    }
}

/// Relies on `str::split_once` with a `'.'` pattern: the text is split
/// around its first dot, or left whole when it has none.
#[verifier::external_body]
fn split_at_dot<'a>(s: &'a str) -> (r: Option<(&'a str, &'a str)>)
    ensures
        match r {
            Some(p) => s@ == p.0@ + seq!['.'] + p.1@ && dot_free(p.0@),
            None => dot_free(s@),
        },
{
    s.split_once('.')
}

/// Equality of two byte strings, examining every byte of equal-length inputs
/// so that the comparison's timing does not reveal a mismatch position.
pub fn eq_bytes(a: &[u8], b: &[u8]) -> (r: bool)
    ensures
        r == (a@ == b@),
{
    if a.len() != b.len() {
        return false;
    }
    let n = a.len();
    let mut acc: u8 = 0;
    for i in 0..n
        invariant
            n == a@.len() == b@.len(),
            (acc == 0) <==> (forall|j: int| 0 <= j < i ==> a@[j] == b@[j]),
    {
        let d = a[i] ^ b[i];
        proof {
            let x = a@[i as int];
            let y = b@[i as int];
            assert((x ^ y) == 0 <==> x == y) by (bit_vector);
            let acc0 = acc;
            let d0 = (x ^ y) as u8;
            assert((acc0 | d0) == 0 <==> acc0 == 0 && d0 == 0) by (bit_vector);
        }
        acc = acc | d;
    }
    if acc == 0 {
        proof {
            assert(a@ =~= b@);
        }
        true
    } else {
        false
    }
}

/// Signs and verifies session tokens under one immutable secret key, loaded
/// once at process start.
#[derive(Debug)]
pub struct TokenCodec {
    key: Vec<u8>,
}

impl TokenCodec {
    /// The secret signing key.
    pub closed spec fn spec_key(&self) -> Seq<u8> {
        self.key@
    }

    /// A usable codec carries a key of at least 32 bytes.
    pub open spec fn wf(&self) -> bool {
        self.spec_key().len() >= 32
    }

    /// Accepts the secret key material; a key shorter than 32 bytes is a
    /// fatal configuration error and is refused outright.
    pub fn new(key: Vec<u8>) -> (r: Option<TokenCodec>)
        ensures
            key@.len() >= 32 ==> (r matches Some(c) && c.wf() && c.spec_key() == key@),
            key@.len() < 32 ==> r is None,
    {
        if key.len() < 32 {
            None
        } else {
            Some(TokenCodec { key })
        }
    }

    /// Issues a fresh token for `state` at time `now`: a random nonce, a
    /// validity window given by the state's time to live, and a signature
    /// over the canonical serialization.
    ///
    /// The last two clauses state the round trip and its limits: the token
    /// verifies to exactly `state` at any time inside its window, and reads
    /// as expired at any time outside it.
    pub fn sign(&self, state: SessionState, now: u64) -> (r: String)
        requires
            self.wf(),
            state.wf(),
            now + state.spec_ttl() <= u64::MAX,
        ensures
            (exists|env: EnvelopeModel|
                {
                    &&& env.wf()
                    &&& env.iat == now
                    &&& env.nbf == spec_nbf(now)
                    &&& env.exp == now + state.spec_ttl()
                    &&& env.state == state
                    &&& r@ == spec_token(self.spec_key(), env)
                }),
            forall|t: u64|
                spec_nbf(now) <= t <= now + state.spec_ttl() ==> spec_verify(
                    self.spec_key(),
                    r@,
                    t,
                ) == VerifyOutcome::Valid(state),
            forall|t: u64|
                !(spec_nbf(now) <= t <= now + state.spec_ttl()) ==> spec_verify(
                    self.spec_key(),
                    r@,
                    t,
                ) == VerifyOutcome::Expired,
    {
        let env = JwtSessionState::create_now(state, now);
        let payload = env.to_bytes();
        let tag = hmac_sha512(self.key.as_slice(), payload.as_slice());
        let payload_text = b64_encode(payload.as_slice());
        let tag_text = b64_encode(tag.as_slice());
        let token = payload_text.concat(".").concat(tag_text.as_str());
        proof {
            reveal_strlit(".");
            assert("."@ =~= seq!['.']);
            assert(token@ == b64_of(spec_envelope_bytes(env@)) + seq!['.'] + b64_of(
                mac_of(self.spec_key(), spec_envelope_bytes(env@)),
            ));
            assert(token@ == spec_token(self.spec_key(), env@));
            crate::envelope::lemma_envelope_round_trip(env@);
            lemma_split_dot_of_concat(
                b64_of(spec_envelope_bytes(env@)),
                b64_of(mac_of(self.spec_key(), spec_envelope_bytes(env@))),
            );
        }
        token
    }

    /// Verifies a bearer token at time `now` and returns the state it
    /// attests to. A malformed or signature-invalid token is rejected as
    /// `InvalidToken`; a well-signed token outside its validity window as
    /// `Unauthorized`.
    pub fn verify(&self, token: &str, now: u64) -> (r: Result<SessionState, AuthError>)
        requires
            self.wf(),
        ensures
            match spec_verify(self.spec_key(), token@, now) {
                VerifyOutcome::Valid(s) => r == Ok::<SessionState, AuthError>(s) && s.wf(),
                VerifyOutcome::BadToken => r == Err::<SessionState, AuthError>(
                    AuthError::InvalidToken,
                ),
                VerifyOutcome::Expired => r matches Err(AuthError::Unauthorized(m)) && m@
                    == expired_msg(),
            },
    {
        let parts = match split_at_dot(token) {
            Some(p) => p,
            None => {
                proof {
                    lemma_split_dot_none(token@);
                }
                return Err(AuthError::InvalidToken);
            },
        };
        proof {
            lemma_split_dot_of_concat(parts.0@, parts.1@);
        }
        let payload = match b64_decode(parts.0) {
            Some(v) => v,
            None => {
                return Err(AuthError::InvalidToken);
            },
        };
        let sig = match b64_decode(parts.1) {
            Some(v) => v,
            None => {
                return Err(AuthError::InvalidToken);
            },
        };
        let expected = hmac_sha512(self.key.as_slice(), payload.as_slice());
        if !eq_bytes(sig.as_slice(), expected.as_slice()) {
            return Err(AuthError::InvalidToken);
        }
        let env = match JwtSessionState::parse(payload.as_slice()) {
            Some(e) => e,
            None => {
                return Err(AuthError::InvalidToken);
            },
        };
        match env.check_now(now) {
            Ok(_) => Ok(env.session_state),
            Err(e) => Err(e),
        }
    }
}

/// Creates a session token for `session_state`, expiring after the state's
/// time to live counted from `now`.
pub fn create_session_state_token(
    codec: &TokenCodec,
    session_state: SessionState,
    now: u64,
) -> (r: Result<String, AuthError>)
    requires
        codec.wf(),
        session_state.wf(),
        now + session_state.spec_ttl() <= u64::MAX,
    ensures
        r matches Ok(tok) && (exists|env: EnvelopeModel|
            {
                &&& env.wf()
                &&& env.iat == now
                &&& env.nbf == spec_nbf(now)
                &&& env.exp == now + session_state.spec_ttl()
                &&& env.state == session_state
                &&& tok@ == spec_token(codec.spec_key(), env)
            }),
        r matches Ok(tok) && forall|t: u64|
            spec_nbf(now) <= t <= now + session_state.spec_ttl() ==> spec_verify(
                codec.spec_key(),
                tok@,
                t,
            ) == VerifyOutcome::Valid(session_state),
        r matches Ok(tok) && forall|t: u64|
            !(spec_nbf(now) <= t <= now + session_state.spec_ttl()) ==> spec_verify(
                codec.spec_key(),
                tok@,
                t,
            ) == VerifyOutcome::Expired,
{
    Ok(codec.sign(session_state, now))
}

/// Verifies that the session token is valid at `now`. Returns the embedded
/// [`SessionState`] if so, otherwise the error that describes why not.
pub fn verify_session_state_token(
    codec: &TokenCodec,
    token: &str,
    now: u64,
) -> (r: Result<SessionState, AuthError>)
    requires
        codec.wf(),
    ensures
        match spec_verify(codec.spec_key(), token@, now) {
            VerifyOutcome::Valid(s) => r == Ok::<SessionState, AuthError>(s) && s.wf(),
            VerifyOutcome::BadToken => r == Err::<SessionState, AuthError>(AuthError::InvalidToken),
            VerifyOutcome::Expired => r matches Err(AuthError::Unauthorized(m)) && m@
                == expired_msg(),
        },
{
    codec.verify(token, now)
}

} // verus!
