//! The OAuth flow coordinator: building the provider's authorize link and
//! deciding the redirect/callback handshake that turns an anonymous caller
//! into the holder of a `Transition` token.
//!
//! The outbound network calls themselves (code exchange, identity fetch,
//! directory upsert) are collaborators; each is represented here by an
//! outcome value, and the functions below decide, step by step, what each
//! outcome leads to. No token is issued unless every step succeeded.

use vstd::prelude::*;

use crate::codec::{create_session_state_token, spec_verify, TokenCodec, VerifyOutcome};
use crate::envelope::{expired_msg, spec_nbf};
use crate::session::{AuthError, SessionState, TRANSITION_TTL_SECS};

verus! {

/// Query data returned to the callback URL by the provider after the user
/// authorizes login.
#[derive(Clone, Debug)]
pub struct OauthCallbackQueryResponse {
    /// Code to post to the provider's token endpoint.
    pub code: String,
    /// Echoed state: the anonymous token that began the handshake.
    pub state: String,
    /// Issuer.
    pub iss: Option<String>,
}

/// Form body data posted to the provider's token endpoint.
#[derive(Clone, Debug)]
pub struct OauthTokenRequest {
    /// Always `"authorization_code"`.
    pub grant_type: String,
    /// Code from the callback.
    pub code: String,
    /// Redirect for the token request.
    pub redirect_uri: String,
}

/// JSON body data returned by the provider's token endpoint.
#[derive(Clone, Debug)]
pub struct OauthTokenResponse {
    /// The access token.
    pub access_token: String,
    /// Refresh token which may be used to create new access tokens.
    pub refresh_token: Option<String>,
    /// List of granted scopes.
    pub scope: Vec<String>,
    /// Identity token, where the provider issues one.
    pub id_token: Option<String>,
    /// Always `"bearer"`.
    pub token_type: String,
    /// How long until `access_token` expires, in seconds.
    pub expires_in: u64,
}

/// Helper to parse a `?state=...` query.
#[derive(Clone, Debug)]
pub struct QueryState {
    /// The echoed state value.
    pub state: String,
}

/// The caller's external identity, as the provider's identity endpoint
/// reports it.
#[derive(Clone, Debug)]
pub struct Me {
    /// Numeric portion of the provider's account identifier.
    pub id: u64,
    /// Display name.
    pub name: String,
    /// Whether this is a new account that may still change its name.
    pub can_edit_name: bool,
}

/// What the code exchange with the provider's token endpoint came to.
#[derive(Clone, Debug)]
pub enum ExchangeOutcome {
    /// A success response whose body parsed into the expected schema.
    Success(OauthTokenResponse),
    /// A transport failure or a non-success HTTP status.
    HttpFailure,
    /// A success response whose body did not match the schema.
    SchemaMismatch(String),
}

/// What the identity fetch with the provider came to.
#[derive(Clone, Debug)]
pub enum IdentityOutcome {
    /// The caller's identity.
    Success(Me),
    /// A transport failure or a non-success HTTP status.
    Failure,
}

/// What the user directory's create-or-get came to.
#[derive(Clone, Debug)]
pub enum DirectoryOutcome {
    /// The internal user id the external identity maps to.
    Found(u64),
    /// The directory failed; the detail text.
    Failure(String),
}

/// The URL produced by parsing `base` and appending the given query pairs,
/// rendered back to text; `None` when `base` is not a parseable URL.
pub uninterp spec fn url_with_params_of(
    base: Seq<char>,
    params: Seq<(Seq<char>, Seq<char>)>,
) -> Option<Seq<char>>;

/// The view of a list of query pairs.
pub open spec fn spec_params(params: Seq<(String, String)>) -> Seq<(Seq<char>, Seq<char>)> {
    params.map_values(|p: (String, String)| (p.0@, p.1@))
}

/// Relies on `url::Url::parse_with_params`: the rendered URL is a function
/// of the base text and the query pairs alone, and parse failure depends on
/// the base text alone.
#[verifier::external_body]
fn url_with_params(base: &str, params: &Vec<(String, String)>) -> (r: Option<String>)
    ensures
        match r {
            Some(u) => url_with_params_of(base@, spec_params(params@)) == Some(u@),
            None => url_with_params_of(base@, spec_params(params@)) is None,
        },
{
    url::Url::parse_with_params(base, params.iter().map(|p| (p.0.as_str(), p.1.as_str())))
        .ok()
        .map(|u| String::from(u))
}

/// Configuration for one OAuth provider.
#[derive(Clone, Debug)]
pub struct OauthHelper {
    /// Client app's ID.
    pub client_id: String,
    /// Client app's secret.
    pub client_secret: String,
    /// Provider's authorization endpoint.
    pub provider_authorize_url: String,
    /// Provider's token endpoint.
    pub provider_token_url: String,
    /// Client's callback URL.
    pub callback_url: String,
}

/// The fixed query pairs of the authorize link, with the caller's anonymous
/// token as the CSRF `state`.
pub open spec fn spec_signin_params(h: OauthHelper, state: Seq<char>) -> Seq<
    (Seq<char>, Seq<char>),
> {
    seq![
        ("response_type"@, "code"@),
        ("scope"@, "identity"@),
        ("redirect_uri"@, h.callback_url@),
        ("client_id"@, h.client_id@),
        ("duration"@, "temporary"@),
        ("state"@, state),
    ]
}

impl OauthHelper {
    /// Creates the URL for the authorization endpoint, with `state` set to
    /// the anonymous token that binds the handshake to this caller. `None`
    /// when the configured authorize URL does not parse.
    pub fn make_signin_link(&self, state: &str) -> (r: Option<String>)
        ensures
            match r {
                Some(u) => url_with_params_of(
                    self.provider_authorize_url@,
                    spec_signin_params(*self, state@),
                ) == Some(u@),
                None => url_with_params_of(
                    self.provider_authorize_url@,
                    spec_signin_params(*self, state@),
                ) is None,
            },
    {
        let mut params: Vec<(String, String)> = Vec::new();
        params.push(("response_type".to_owned(), "code".to_owned()));
        params.push(("scope".to_owned(), "identity".to_owned()));
        params.push(("redirect_uri".to_owned(), self.callback_url.clone()));
        params.push(("client_id".to_owned(), self.client_id.clone()));
        params.push(("duration".to_owned(), "temporary".to_owned()));
        params.push(("state".to_owned(), state.to_owned()));
        proof {
            assert(spec_params(params@) =~= spec_signin_params(*self, state@));
        }
        url_with_params(self.provider_authorize_url.as_str(), &params)
    }

    /// First step of the callback: the CSRF check. The echoed `state` must
    /// verify, at `now`, as exactly an `Anonymous` token; any other variant
    /// is `MissingCredentials`, and a failing token propagates the codec's
    /// error. On success, the form request for the code exchange.
    pub fn callback_begin(
        &self,
        codec: &TokenCodec,
        callback_data: &OauthCallbackQueryResponse,
        now: u64,
    ) -> (r: Result<OauthTokenRequest, AuthError>)
        requires
            codec.wf(),
        ensures
            match spec_verify(codec.spec_key(), callback_data.state@, now) {
                VerifyOutcome::Valid(s) => if s is Anonymous {
                    r matches Ok(req) && req.grant_type@ == "authorization_code"@ && req.code@
                        == callback_data.code@ && req.redirect_uri@ == self.callback_url@
                } else {
                    r == Err::<OauthTokenRequest, AuthError>(AuthError::MissingCredentials)
                },
                VerifyOutcome::BadToken => r == Err::<OauthTokenRequest, AuthError>(
                    AuthError::InvalidToken,
                ),
                VerifyOutcome::Expired => r matches Err(AuthError::Unauthorized(m)) && m@
                    == expired_msg(),
            },
    {
        let session_state = codec.verify(callback_data.state.as_str(), now)?;
        match session_state {
            SessionState::Anonymous => Ok(
                OauthTokenRequest {
                    grant_type: "authorization_code".to_owned(),
                    code: callback_data.code.clone(),
                    redirect_uri: self.callback_url.clone(),
                },
            ),
            _ => Err(AuthError::MissingCredentials),
        }
    }
}

/// Second step: what the code exchange came to. A transport or HTTP failure
/// is an upstream error; a schema mismatch is a token-creation failure with
/// its detail; otherwise the parsed response passes through.
pub fn callback_exchange_done(outcome: ExchangeOutcome) -> (r: Result<
    OauthTokenResponse,
    AuthError,
>)
    ensures
        match outcome {
            ExchangeOutcome::Success(t) => r == Ok::<OauthTokenResponse, AuthError>(t),
            ExchangeOutcome::HttpFailure => r == Err::<OauthTokenResponse, AuthError>(
                AuthError::UpstreamError,
            ),
            ExchangeOutcome::SchemaMismatch(d) => r == Err::<OauthTokenResponse, AuthError>(
                AuthError::TokenCreation(d),
            ),
        },
{
    match outcome {
        ExchangeOutcome::Success(t) => Ok(t),
        ExchangeOutcome::HttpFailure => Err(AuthError::UpstreamError),
        ExchangeOutcome::SchemaMismatch(d) => Err(AuthError::TokenCreation(d)),
    }
}

/// The message with which enrollment of a not-yet-finalized account fails.
pub open spec fn not_finalized_msg() -> Seq<char> {
    "account not finalized"@
}

/// Third step: what the identity fetch came to. An identity whose display
/// name the provider may still change is refused — the name doubles as a
/// durable handle downstream.
pub fn callback_identity_done(outcome: IdentityOutcome) -> (r: Result<Me, AuthError>)
    ensures
        match outcome {
            IdentityOutcome::Success(me) => if me.can_edit_name {
                r matches Err(AuthError::TokenCreation(m)) && m@ == not_finalized_msg()
            } else {
                r == Ok::<Me, AuthError>(me)
            },
            IdentityOutcome::Failure => r == Err::<Me, AuthError>(AuthError::UpstreamError),
        },
{
    match outcome {
        IdentityOutcome::Success(me) => {
            if me.can_edit_name {
                Err(AuthError::TokenCreation("account not finalized".to_owned()))
            } else {
                Ok(me)
            }
        },
        IdentityOutcome::Failure => Err(AuthError::UpstreamError),
    }
}

/// The message with which a directory answer carrying no usable user id
/// fails.
pub open spec fn invalid_user_msg() -> Seq<char> {
    "invalid user id"@
}

/// Last step: what the directory's create-or-get came to. On a nonzero user
/// id, the freshly signed `Transition` token; the token verifies to exactly
/// `Transition { user_id }` throughout its validity window.
pub fn callback_directory_done(codec: &TokenCodec, outcome: DirectoryOutcome, now: u64) -> (r:
    Result<String, AuthError>)
    requires
        codec.wf(),
        now + TRANSITION_TTL_SECS <= u64::MAX,
    ensures
        match outcome {
            DirectoryOutcome::Found(user_id) => if user_id == 0 {
                r matches Err(AuthError::TokenCreation(m)) && m@ == invalid_user_msg()
            } else {
                r matches Ok(tok) && forall|t: u64|
                    spec_nbf(now) <= t <= now + TRANSITION_TTL_SECS ==> spec_verify(
                        codec.spec_key(),
                        tok@,
                        t,
                    ) == VerifyOutcome::Valid(SessionState::Transition { user_id })
            },
            DirectoryOutcome::Failure(d) => r == Err::<String, AuthError>(
                AuthError::TokenCreation(d),
            ),
        },
{
    match outcome {
        DirectoryOutcome::Found(user_id) => {
            if user_id == 0 {
                Err(AuthError::TokenCreation("invalid user id".to_owned()))
            } else {
                create_session_state_token(codec, SessionState::Transition { user_id }, now)
            }
        },
        DirectoryOutcome::Failure(d) => Err(AuthError::TokenCreation(d)),
    }
}

impl OauthHelper {
    /// The whole callback decision sequence, over the outcomes of the three
    /// collaborator calls: CSRF check, code exchange, identity fetch and
    /// enrollment gate, directory resolution, then the `Transition` token.
    /// Every failure is surfaced as a typed error, and no token is issued
    /// unless every step before it succeeded.
    pub fn handle_callback(
        &self,
        codec: &TokenCodec,
        callback_data: &OauthCallbackQueryResponse,
        exchange: ExchangeOutcome,
        identity: IdentityOutcome,
        directory: DirectoryOutcome,
        now: u64,
    ) -> (r: Result<String, AuthError>)
        requires
            codec.wf(),
            now + TRANSITION_TTL_SECS <= u64::MAX,
        ensures
            match spec_verify(codec.spec_key(), callback_data.state@, now) {
                VerifyOutcome::Valid(s) => if !(s is Anonymous) {
                    r == Err::<String, AuthError>(AuthError::MissingCredentials)
                } else {
                    match exchange {
                        ExchangeOutcome::HttpFailure => r == Err::<String, AuthError>(
                            AuthError::UpstreamError,
                        ),
                        ExchangeOutcome::SchemaMismatch(d) => r == Err::<String, AuthError>(
                            AuthError::TokenCreation(d),
                        ),
                        ExchangeOutcome::Success(_) => match identity {
                            IdentityOutcome::Failure => r == Err::<String, AuthError>(
                                AuthError::UpstreamError,
                            ),
                            IdentityOutcome::Success(me) => if me.can_edit_name {
                                r matches Err(AuthError::TokenCreation(m)) && m@
                                    == not_finalized_msg()
                            } else {
                                match directory {
                                    DirectoryOutcome::Failure(d) => r == Err::<String, AuthError>(
                                        AuthError::TokenCreation(d),
                                    ),
                                    DirectoryOutcome::Found(user_id) => if user_id == 0 {
                                        r matches Err(AuthError::TokenCreation(m)) && m@
                                            == invalid_user_msg()
                                    } else {
                                        r matches Ok(tok) && forall|t: u64|
                                            spec_nbf(now) <= t <= now + TRANSITION_TTL_SECS
                                                ==> spec_verify(codec.spec_key(), tok@, t)
                                                == VerifyOutcome::Valid(
                                                SessionState::Transition { user_id },
                                            )
                                    },
                                }
                            },
                        },
                    }
                },
                VerifyOutcome::BadToken => r == Err::<String, AuthError>(AuthError::InvalidToken),
                VerifyOutcome::Expired => r matches Err(AuthError::Unauthorized(m)) && m@
                    == expired_msg(),
            },
    {
        let _request = self.callback_begin(codec, callback_data, now)?;
        let _tokens = callback_exchange_done(exchange)?;
        let _me = callback_identity_done(identity)?;
        callback_directory_done(codec, directory, now)
    }
}

/// True when no character of `s` is a space.
pub open spec fn space_free(s: Seq<char>) -> bool {
    forall|i: int| 0 <= i < s.len() ==> s[i] != ' '
}

/// Splitting a text on every space: the list of pieces, where an empty text
/// is one empty piece and each space separates two pieces.
pub open spec fn spec_split_spaces_raw(s: Seq<char>) -> Seq<Seq<char>>
    decreases s.len(),
{
    if s.len() == 0 {
        seq![Seq::<char>::empty()]
    } else if s[0] == ' ' {
        seq![Seq::<char>::empty()] + spec_split_spaces_raw(s.drop_first())
    } else {
        let rest = spec_split_spaces_raw(s.drop_first());
        seq![seq![s[0]] + rest[0]] + rest.drop_first()
    }
}

/// The scopes carried by a space-separated scope string; an empty string
/// carries none.
pub open spec fn spec_scopes(s: Seq<char>) -> Seq<Seq<char>> {
    if s.len() == 0 {
        Seq::empty()
    } else {
        spec_split_spaces_raw(s)
    }
}

/// A split always yields at least one piece.
proof fn lemma_split_spaces_len(s: Seq<char>)
    ensures
        spec_split_spaces_raw(s).len() >= 1,
    decreases s.len(),
{
    if s.len() != 0 {
        lemma_split_spaces_len(s.drop_first());
    }
}

/// A text without a space is one piece.
proof fn lemma_split_spaces_whole(s: Seq<char>)
    requires
        space_free(s),
    ensures
        spec_split_spaces_raw(s) == seq![s],
    decreases s.len(),
{
    if s.len() == 0 {
        assert(s =~= Seq::<char>::empty());
        assert(spec_split_spaces_raw(s) =~= seq![s]);
    } else {
        assert(s[0] != ' ');
        assert forall|i: int| 0 <= i < s.drop_first().len() implies s.drop_first()[i] != ' ' by {
            assert(s.drop_first()[i] == s[i + 1]);
        }
        lemma_split_spaces_whole(s.drop_first());
        assert(seq![s[0]] + s.drop_first() =~= s);
        assert(spec_split_spaces_raw(s) =~= seq![s]);
    }
}

/// On a text assembled as `a + ' ' + b` with no space in `a`, the split
/// yields `a` and then the pieces of `b`.
proof fn lemma_split_spaces_concat(a: Seq<char>, b: Seq<char>)
    requires
        space_free(a),
    ensures
        spec_split_spaces_raw(a + seq![' '] + b) == seq![a] + spec_split_spaces_raw(b),
    decreases a.len(),
{
    let s = a + seq![' '] + b;
    if a.len() == 0 {
        assert(s[0] == ' ');
        assert(s.drop_first() =~= b);
        assert(a =~= Seq::<char>::empty());
        assert(spec_split_spaces_raw(s) =~= seq![a] + spec_split_spaces_raw(b));
    } else {
        assert(s[0] == a[0]);
        assert forall|i: int| 0 <= i < a.drop_first().len() implies a.drop_first()[i] != ' ' by {
            assert(a.drop_first()[i] == a[i + 1]);
        }
        lemma_split_spaces_concat(a.drop_first(), b);
        assert(s.drop_first() =~= a.drop_first() + seq![' '] + b);
        let rest = spec_split_spaces_raw(s.drop_first());
        lemma_split_spaces_len(b);
        assert(rest == seq![a.drop_first()] + spec_split_spaces_raw(b));
        assert(rest[0] == a.drop_first());
        assert(seq![s[0]] + rest[0] =~= a);
        assert(rest.drop_first() =~= spec_split_spaces_raw(b));
        assert(spec_split_spaces_raw(s) =~= seq![a] + spec_split_spaces_raw(b));
    }
}

/// Splits a space-separated scope string into the scopes it carries, as the
/// provider's token response lists them.
pub fn split_scopes(s: &str) -> (r: Vec<String>)
    ensures
        r@.map_values(|x: String| x@) == spec_scopes(s@),
{
    let n = s.unicode_len();
    let mut out: Vec<String> = Vec::new();
    if n == 0 {
        proof {
            assert(out@.map_values(|x: String| x@) =~= spec_scopes(s@));
        }
        return out;
    }
    let mut start: usize = 0;
    proof {
        assert(s@.subrange(0, n as int) =~= s@);
        assert(out@.map_values(|x: String| x@) + spec_split_spaces_raw(s@)
            =~= spec_split_spaces_raw(s@));
    }
    for i in 0..n
        invariant
            start <= i <= n,
            n == s@.len(),
            space_free(s@.subrange(start as int, i as int)),
            out@.map_values(|x: String| x@) + spec_split_spaces_raw(
                s@.subrange(start as int, n as int),
            ) == spec_split_spaces_raw(s@),
    {
        let c = s.get_char(i);
        if c == ' ' {
            let piece = s.substring_char(start, i).to_owned();
            proof {
                assert(s@.subrange(start as int, n as int) =~= s@.subrange(start as int, i as int)
                    + seq![' '] + s@.subrange(i as int + 1, n as int));
                lemma_split_spaces_concat(
                    s@.subrange(start as int, i as int),
                    s@.subrange(i as int + 1, n as int),
                );
            }
            let ghost old_out = out@;
            out.push(piece);
            proof {
                assert(out@.map_values(|x: String| x@) =~= old_out.map_values(|x: String| x@)
                    + seq![s@.subrange(start as int, i as int)]);
            }
            start = i + 1;
        } else {
            proof {
                assert forall|j: int| 0 <= j < i + 1 - start implies #[trigger] s@.subrange(
                    start as int,
                    i as int + 1,
                )[j] != ' ' by {
                    if j < i - start {
                        assert(s@.subrange(start as int, i as int + 1)[j] == s@.subrange(
                            start as int,
                            i as int,
                        )[j]);
                    } else {
                        assert(s@.subrange(start as int, i as int + 1)[j] == s@[i as int]);
                    }
                }
            }
        }
    }
    let piece = s.substring_char(start, n).to_owned();
    proof {
        lemma_split_spaces_whole(s@.subrange(start as int, n as int));
    }
    let ghost old_out = out@;
    out.push(piece);
    proof {
        assert(out@.map_values(|x: String| x@) =~= old_out.map_values(|x: String| x@) + seq![
            s@.subrange(start as int, n as int),
        ]);
        assert(out@.map_values(|x: String| x@) =~= spec_split_spaces_raw(s@));
    }
    out
}

/// Renders the redirect back to the site once the handshake is complete: the
/// site origin with the fresh `Transition` token and the echoed state as
/// query pairs. `None` when the configured origin does not parse.
pub fn finish_redirect(pages_origin: &str, token: &str, state: &str) -> (r: Option<String>)
    ensures
        match r {
            Some(u) => url_with_params_of(
                pages_origin@,
                seq![("token"@, token@), ("state"@, state@)],
            ) == Some(u@),
            None => url_with_params_of(
                pages_origin@,
                seq![("token"@, token@), ("state"@, state@)],
            ) is None,
        },
{
    let mut params: Vec<(String, String)> = Vec::new();
    params.push(("token".to_owned(), token.to_owned()));
    params.push(("state".to_owned(), state.to_owned()));
    proof {
        assert(spec_params(params@) =~= seq![("token"@, token@), ("state"@, state@)]);
    }
    url_with_params(pages_origin, &params)
}

} // verus!
