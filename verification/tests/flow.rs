//! The authorization flow's decisions: the CSRF check, the exchange
//! verdict, the provider catalogue, and the XOAUTH2 line.

use ectt::cli::Provider;
use ectt::config::OAuthConfig;
use ectt::imap::oauth::OAuthConfigWithUser;
use ectt::oauth::{
    conclude_exchange, AuthenticationFlow, AuthorizationPayload, FlowError, TokenPair,
};

fn flow() -> AuthenticationFlow {
    AuthenticationFlow::new(
        "csrf-token".to_string(),
        "challenge".to_string(),
        "verifier".to_string(),
    )
}

#[test]
fn matching_state_yields_exchange_request() {
    let payload = AuthorizationPayload {
        state: "csrf-token".to_string(),
        code: "auth-code".to_string(),
        scope: "https://mail.google.com/".to_string(),
    };
    let req = flow().handle_callback(payload).expect("state matches");
    assert_eq!(req.code, "auth-code");
    assert_eq!(req.pkce_verifier, "verifier");
}

#[test]
fn mismatched_state_aborts_before_any_exchange() {
    let payload = AuthorizationPayload {
        state: "forged".to_string(),
        code: "stolen-code".to_string(),
        scope: "https://mail.google.com/".to_string(),
    };
    // The flow refuses the payload outright: no exchange request exists,
    // so the code is never exchanged.
    assert_eq!(flow().handle_callback(payload), Err(FlowError::CsrfMismatch));
}

#[test]
fn begun_flow_challenge_belongs_to_its_verifier() {
    // The challenge a fresh flow carries must be the URL-safe base64 of
    // the SHA-256 digest of its verifier — recomputing it from the
    // verifier with the OAuth library gives back the very same string.
    let flow = AuthenticationFlow::begin();
    let recomputed = oauth2::PkceCodeChallenge::from_code_verifier_sha256(
        &oauth2::PkceCodeVerifier::new(flow.pkce_verifier.clone()),
    );
    assert_eq!(recomputed.as_str(), flow.pkce_challenge);
}

#[test]
fn fresh_flows_differ() {
    // Two flows drawn from the generator should not share their secrets;
    // this would fail if the randomness were a fixed value.
    let a = AuthenticationFlow::begin();
    let b = AuthenticationFlow::begin();
    assert!(!a.csrf_token.is_empty());
    assert!(!a.pkce_verifier.is_empty());
    assert_ne!(a.csrf_token, b.csrf_token);
    assert_ne!(a.pkce_verifier, b.pkce_verifier);
}

#[test]
fn exchange_verdicts() {
    let granted = TokenPair {
        access_token: "at".to_string(),
        refresh_token: Some("rt".to_string()),
    };
    assert_eq!(conclude_exchange(Ok(granted.clone())), Ok(granted));
    assert_eq!(
        conclude_exchange(Err("endpoint said no".to_string())),
        Err(FlowError::TokenExchangeFailed("endpoint said no".to_string()))
    );
}

#[test]
fn gmail_endpoints() {
    let e = Provider::Gmail.endpoints();
    assert_eq!(e.auth_url, "https://accounts.google.com/o/oauth2/auth");
    assert_eq!(e.token_url, "https://oauth2.googleapis.com/token");
    assert_eq!(e.redirect_url, "http://localhost:3000");
    assert_eq!(e.scope, "https://mail.google.com/");
    assert_eq!(Provider::Gmail.name(), "gmail");
}

#[test]
fn xoauth2_line_format() {
    let config = OAuthConfig {
        client_id: "ci".to_string(),
        client_secret: "cs".to_string(),
        access_token: "tok".to_string(),
        refresh_token: "rt".to_string(),
        auth_url: "https://localhost/a".to_string(),
        token_url: "https://localhost/t".to_string(),
    };
    let authenticator = OAuthConfigWithUser::new("user@example.com", &config);
    assert_eq!(
        authenticator.process(b"ignored challenge"),
        "user=user@example.com\u{1}auth=Bearer tok\u{1}\u{1}"
    );
}
