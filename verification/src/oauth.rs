//! The OAuth2 authorization-code flow manager's decisions. The flow
//! generates a PKCE pair and a CSRF token, hands the user an authorization
//! URL, and waits for the local redirect endpoint to deliver the callback
//! payload. The callback is accepted only when its `state` round-trips the
//! CSRF token exactly; on a mismatch the flow aborts before any token
//! exchange, and the authorization code is never used.

use vstd::prelude::*;

verus! {

/// Failures of the authorization flow; each aborts the flow without
/// partial credential state.
#[derive(Debug, Clone, PartialEq, Eq)]
pub enum FlowError {
    /// The callback's `state` differs from the CSRF token the flow
    /// generated.
    CsrfMismatch,
    /// The code-for-token exchange failed; the cause is the endpoint's
    /// words.
    TokenExchangeFailed(String),
    /// The local redirect listener could not bind its port.
    PortInUse,
}

/// What the local redirect endpoint delivers, exactly once: the echoed
/// CSRF state, the authorization code, and the granted scope.
#[derive(Debug, Clone, PartialEq, Eq)]
pub struct AuthorizationPayload {
    pub state: String,
    pub code: String,
    pub scope: String,
}

/// Everything the token exchange needs: the authorization code and the
/// PKCE verifier that proves possession.
#[derive(Debug, Clone, PartialEq, Eq)]
pub struct TokenExchangeRequest {
    pub code: String,
    pub pkce_verifier: String,
}

/// The tokens a completed exchange grants.
#[derive(Debug, Clone, PartialEq, Eq)]
pub struct TokenPair {
    pub access_token: String,
    pub refresh_token: Option<String>,
}

/// Relies on `oauth2::CsrfToken::new_random`: a fresh random CSRF token.
/// Nothing can be promised of a random value.
#[verifier::external_body]
fn new_csrf_token() -> String {
    oauth2::CsrfToken::new_random().secret().clone()
}

/// The PKCE challenge that belongs to a verifier: the URL-safe base64 of
/// the verifier's SHA-256 digest, a function of the verifier alone.
pub uninterp spec fn pkce_challenge_of(verifier: Seq<char>) -> Seq<char>;

/// Relies on `oauth2::PkceCodeChallenge::new_random_sha256`: a fresh
/// random (challenge, verifier) pair. The verifier is random, so nothing
/// is promised of it; the challenge it comes with is derived from the
/// verifier alone, by SHA-256.
#[verifier::external_body]
fn new_pkce_pair() -> (r: (String, String))
    ensures
        r.0@ == pkce_challenge_of(r.1@),
{
    let (challenge, verifier) = oauth2::PkceCodeChallenge::new_random_sha256();
    (challenge.as_str().to_string(), verifier.secret().clone())
}

/// What the flow decides for one callback payload: the exchange request
/// exactly when the echoed state matches the CSRF token, and an abort
/// otherwise.
pub open spec fn spec_handle_callback(
    csrf_token: Seq<char>,
    pkce_verifier: Seq<char>,
    state: Seq<char>,
    code: Seq<char>,
) -> Result<(Seq<char>, Seq<char>), FlowError> {
    if state == csrf_token {
        Ok((code, pkce_verifier))
    } else {
        Err(FlowError::CsrfMismatch)
    }
}

/// A mismatched state aborts the flow with `CsrfMismatch` before any token
/// exchange: no exchange request exists for it, so the authorization code
/// of a forged callback is never exchanged.
pub proof fn lemma_csrf_mismatch_aborts(
    csrf_token: Seq<char>,
    pkce_verifier: Seq<char>,
    state: Seq<char>,
    code: Seq<char>,
)
    requires
        state != csrf_token,
    ensures
        spec_handle_callback(csrf_token, pkce_verifier, state, code) == Err::<
            (Seq<char>, Seq<char>),
            FlowError,
        >(FlowError::CsrfMismatch),
{
}

/// One interactive authorization flow: the CSRF token the authorization
/// URL carries and the PKCE verifier the exchange must present.
#[derive(Debug, Clone)]
pub struct AuthenticationFlow {
    pub csrf_token: String,
    pub pkce_challenge: String,
    pub pkce_verifier: String,
}

impl AuthenticationFlow {
    /// A flow from an already generated CSRF token and PKCE pair.
    pub fn new(csrf_token: String, pkce_challenge: String, pkce_verifier: String)
        -> (r: AuthenticationFlow)
        ensures
            r.csrf_token == csrf_token,
            r.pkce_challenge == pkce_challenge,
            r.pkce_verifier == pkce_verifier,
    {
        AuthenticationFlow { csrf_token, pkce_challenge, pkce_verifier }
    }

    /// Begins a flow with a fresh random CSRF token and PKCE pair: the
    /// challenge presented in the authorization URL is exactly the one the
    /// flow's verifier proves possession of.
    pub fn begin() -> (r: AuthenticationFlow)
        ensures
            r.pkce_challenge@ == pkce_challenge_of(r.pkce_verifier@),
    {
        let csrf_token = new_csrf_token();
        let pair = new_pkce_pair();
        AuthenticationFlow { csrf_token, pkce_challenge: pair.0, pkce_verifier: pair.1 }
    }

    /// Checks the callback against the CSRF token: only an exact match
    /// yields the exchange request; a mismatch aborts with `CsrfMismatch`
    /// and the payload's code goes nowhere.
    pub fn handle_callback(&self, payload: AuthorizationPayload) -> (r: Result<
        TokenExchangeRequest,
        FlowError,
    >)
        ensures
            r matches Ok(req) ==> spec_handle_callback(
                self.csrf_token@,
                self.pkce_verifier@,
                payload.state@,
                payload.code@,
            ) == Ok::<(Seq<char>, Seq<char>), FlowError>((req.code@, req.pkce_verifier@)),
            r matches Err(e) ==> spec_handle_callback(
                self.csrf_token@,
                self.pkce_verifier@,
                payload.state@,
                payload.code@,
            ) == Err::<(Seq<char>, Seq<char>), FlowError>(e),
    {
        if payload.state == self.csrf_token {
            Ok(
                TokenExchangeRequest {
                    code: payload.code,
                    pkce_verifier: self.pkce_verifier.clone(),
                },
            )
        } else {
            Err(FlowError::CsrfMismatch)
        }
    }
}

/// The flow's view of how the exchange ended: a token pair is passed on
/// unchanged; a refusal becomes `TokenExchangeFailed` carrying the
/// endpoint's words.
pub fn conclude_exchange(result: Result<TokenPair, String>) -> (r: Result<TokenPair, FlowError>)
    ensures
        result matches Ok(tokens) ==> r == Ok::<TokenPair, FlowError>(tokens),
        result matches Err(cause) ==> r == Err::<TokenPair, FlowError>(
            FlowError::TokenExchangeFailed(cause),
        ),
{
    match result {
        Ok(tokens) => Ok(tokens),
        Err(cause) => Err(FlowError::TokenExchangeFailed(cause)),
    }
}

} // verus!
