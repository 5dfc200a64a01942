//! The send pipeline: address parsing, message building and its round
//! trip, status classification, and the bounded refresh-and-resend.

use ectt::addr::{parse_address, parse_addresses};
use ectt::config::{Auth, OAuthConfig, PasswordConfig, RefreshOutcome, SmtpConfig};
use ectt::smtp::{
    is_auth_rejected, Client, Mechanism, PartialMessage, SendError, SendOutcome, SendProgress,
    SmtpCode,
};

fn oauth_smtp_config(token: &str) -> SmtpConfig {
    SmtpConfig {
        host: "smtp.example.com".to_string(),
        port: 465,
        login: "user@example.com".to_string(),
        auth: Auth::OAuth(OAuthConfig {
            client_id: "client-id".to_string(),
            client_secret: "client-secret".to_string(),
            access_token: token.to_string(),
            refresh_token: "refresh-token".to_string(),
            auth_url: "https://localhost/auth".to_string(),
            token_url: "https://localhost/token".to_string(),
        }),
    }
}

fn password_smtp_config() -> SmtpConfig {
    SmtpConfig {
        host: "smtp.example.com".to_string(),
        port: 465,
        login: "user@example.com".to_string(),
        auth: Auth::Password(PasswordConfig { raw: "super-secret".to_string() }),
    }
}

fn message_to(addr: &str) -> PartialMessage {
    PartialMessage {
        to: Some(parse_address(addr).expect("test address parses")),
        cc: vec![],
        bcc: vec![],
        subject: Some("S".to_string()),
        body: Some("B".to_string()),
    }
}

fn auth_rejected_outcome() -> SendOutcome {
    SendOutcome::Failed {
        code: Some(SmtpCode { severity: 5, category: 3, detail: 5 }),
        message: "5.7.8 auth rejected".to_string(),
    }
}

#[test]
fn parse_address_accepts_and_rejects() {
    let a = parse_address("a@b.com").expect("valid address");
    assert_eq!(a.as_str(), "a@b.com");
    assert!(parse_address("not an address").is_none());
    assert!(parse_address("").is_none());
}

#[test]
fn parse_addresses_splits_and_trims() {
    let list = parse_addresses(" c@d.com , e@f.com ").expect("both valid");
    let raw: Vec<&str> = list.iter().map(|a| a.as_str()).collect();
    assert_eq!(raw, vec!["c@d.com", "e@f.com"]);
}

#[test]
fn parse_addresses_strips_unicode_whitespace() {
    // A no-break space around an entry is trimmed like an ordinary space.
    let list = parse_addresses("\u{A0}a@b.com\u{A0},\u{2009}c@d.com").expect("both valid");
    let raw: Vec<&str> = list.iter().map(|a| a.as_str()).collect();
    assert_eq!(raw, vec!["a@b.com", "c@d.com"]);
}

#[test]
fn parse_addresses_empty_input_is_empty_list() {
    assert_eq!(parse_addresses("").expect("empty is fine").len(), 0);
}

#[test]
fn parse_addresses_rejects_one_bad_entry() {
    assert!(parse_addresses("c@d.com, not-an-address").is_err());
}

#[test]
fn message_round_trip_preserves_fields() {
    let cc = parse_addresses("c@d.com, e@f.com").expect("valid list");
    let pm = PartialMessage {
        to: Some(parse_address("a@b.com").unwrap()),
        cc,
        bcc: vec![],
        subject: Some("S".to_string()),
        body: Some("B".to_string()),
    };
    let from = parse_address("me@example.com").unwrap();
    let built = pm.to_message(from).expect("has a recipient");
    assert_eq!(built.from.as_str(), "me@example.com");
    assert_eq!(built.subject, "S");
    assert_eq!(built.body, "B");
    let back = built.to_partial();
    assert_eq!(back.to.as_ref().map(|a| a.as_str()), Some("a@b.com"));
    let cc_back: Vec<&str> = back.cc.iter().map(|a| a.as_str()).collect();
    assert_eq!(cc_back, vec!["c@d.com", "e@f.com"]);
    assert_eq!(back.subject.as_deref(), Some("S"));
    assert_eq!(back.body.as_deref(), Some("B"));
}

#[test]
fn message_without_recipient_is_rejected() {
    let pm = PartialMessage { to: None, cc: vec![], bcc: vec![], subject: None, body: None };
    let from = parse_address("me@example.com").unwrap();
    assert!(matches!(pm.to_message(from), Err(SendError::MessageBuild)));
}

#[test]
fn message_defaults_subject_and_body_to_empty() {
    let pm = PartialMessage {
        to: Some(parse_address("a@b.com").unwrap()),
        cc: vec![],
        bcc: vec![],
        subject: None,
        body: None,
    };
    let built = pm.to_message(parse_address("me@example.com").unwrap()).unwrap();
    assert_eq!(built.subject, "");
    assert_eq!(built.body, "");
}

#[test]
fn transport_mechanism_matches_auth_mode() {
    let (_, t) = Client::new(password_smtp_config());
    assert_eq!(t.mechanism, Mechanism::Plain);
    assert_eq!(t.secret, "super-secret");
    let (_, t) = Client::new(oauth_smtp_config("tok"));
    assert_eq!(t.mechanism, Mechanism::Xoauth2);
    assert_eq!(t.secret, "tok");
    assert_eq!(t.username, "user@example.com");
    assert_eq!(t.host, "smtp.example.com");
}

#[test]
fn status_classification() {
    assert!(is_auth_rejected(Some(SmtpCode { severity: 5, category: 3, detail: 5 })));
    assert!(!is_auth_rejected(Some(SmtpCode { severity: 4, category: 3, detail: 5 })));
    assert!(!is_auth_rejected(Some(SmtpCode { severity: 5, category: 0, detail: 0 })));
    assert!(!is_auth_rejected(None));
}

#[test]
fn transient_errors_are_the_4xx_transports() {
    let transient = SendError::Transport {
        code: Some(SmtpCode { severity: 4, category: 2, detail: 1 }),
        message: "try later".to_string(),
    };
    assert!(transient.is_transient());
    let fatal = SendError::Transport {
        code: Some(SmtpCode { severity: 5, category: 0, detail: 0 }),
        message: "no".to_string(),
    };
    assert!(!fatal.is_transient());
    assert!(!SendError::AuthRejectedAfterRetry.is_transient());
}

#[test]
fn send_with_bad_login_is_address_parse_error() {
    let mut config = oauth_smtp_config("tok");
    config.login = "not an address".to_string();
    let (client, _) = Client::new(config);
    match client.send(message_to("a@b.com")) {
        Err(SendError::AddressParse) => {}
        _ => panic!("a bad login must be an address parse error"),
    }
}

#[test]
fn send_retry_after_refresh_succeeds_and_keeps_new_token() {
    // One auth-rejected failure, one granted refresh, one successful
    // resend: the send returns Ok and the client keeps the new token.
    let (mut client, _) = Client::new(oauth_smtp_config("stale"));
    let (_built, attempt) = client.send(message_to("a@b.com")).expect("message builds");
    let pending = match attempt.on_result(auth_rejected_outcome()) {
        SendProgress::NeedsRefresh(p) => p,
        _ => panic!("an OAuth auth rejection must request a refresh"),
    };
    let (transport, resend) = pending
        .on_refresh(
            &mut client,
            RefreshOutcome::Granted { access_token: "fresh".to_string() },
        )
        .expect("refresh granted");
    assert_eq!(transport.mechanism, Mechanism::Xoauth2);
    assert_eq!(transport.secret, "fresh");
    match &client.config.auth {
        Auth::OAuth(o) => assert_eq!(o.access_token, "fresh"),
        _ => panic!("credentials must stay OAuth"),
    }
    assert!(resend.on_result(SendOutcome::Sent).is_ok());
}

#[test]
fn second_auth_rejection_surfaces_without_third_attempt() {
    let (mut client, _) = Client::new(oauth_smtp_config("stale"));
    let (_built, attempt) = client.send(message_to("a@b.com")).expect("message builds");
    let pending = match attempt.on_result(auth_rejected_outcome()) {
        SendProgress::NeedsRefresh(p) => p,
        _ => panic!("an OAuth auth rejection must request a refresh"),
    };
    let (_, resend) = pending
        .on_refresh(
            &mut client,
            RefreshOutcome::Granted { access_token: "fresh".to_string() },
        )
        .expect("refresh granted");
    // The second rejection ends the send; the pipeline's states are
    // consumed, so no third attempt can even be expressed.
    match resend.on_result(auth_rejected_outcome()) {
        Err(SendError::AuthRejectedAfterRetry) => {}
        _ => panic!("a second auth rejection must surface as such"),
    }
}

#[test]
fn password_auth_rejection_surfaces_immediately() {
    let (client, _) = Client::new(password_smtp_config());
    let (_built, attempt) = client.send(message_to("a@b.com")).expect("message builds");
    match attempt.on_result(auth_rejected_outcome()) {
        SendProgress::Failed(SendError::Transport { code, .. }) => {
            assert!(is_auth_rejected(code));
        }
        _ => panic!("password mode never refreshes"),
    }
}

#[test]
fn non_auth_failure_surfaces_immediately() {
    let (client, _) = Client::new(oauth_smtp_config("tok"));
    let (_built, attempt) = client.send(message_to("a@b.com")).expect("message builds");
    let outcome = SendOutcome::Failed {
        code: Some(SmtpCode { severity: 4, category: 2, detail: 1 }),
        message: "greylisted".to_string(),
    };
    match attempt.on_result(outcome) {
        SendProgress::Failed(e) => assert!(e.is_transient()),
        _ => panic!("a non-auth failure never refreshes"),
    }
}

#[test]
fn denied_refresh_ends_the_send() {
    let (mut client, _) = Client::new(oauth_smtp_config("stale"));
    let (_built, attempt) = client.send(message_to("a@b.com")).expect("message builds");
    let pending = match attempt.on_result(auth_rejected_outcome()) {
        SendProgress::NeedsRefresh(p) => p,
        _ => panic!("an OAuth auth rejection must request a refresh"),
    };
    match pending.on_refresh(&mut client, RefreshOutcome::Denied { cause: "revoked".to_string() })
    {
        Err(SendError::RefreshFailed { cause }) => assert_eq!(cause, "revoked"),
        _ => panic!("a denied refresh must end the send"),
    }
    match &client.config.auth {
        Auth::OAuth(o) => assert_eq!(o.access_token, "stale"),
        _ => panic!("credentials must stay OAuth"),
    }
}
