//! Inbox assembly: MIME parsing, field fallbacks, date resolution, and the
//! UID-descending sort.

use ectt::config::RefreshOutcome;
use ectt::imap::state::{
    resolve_date, AuthProgress, AuthenticatedState, LoginOutcome, RawEmail, RefreshProgress,
    UnauthenticatedState,
};
use ectt::mime::AddressField;

fn oauth_imap_config(token: &str) -> ectt::config::ImapConfig {
    ectt::config::ImapConfig {
        host: "imap.example.com".to_string(),
        port: 993,
        login: "user@example.com".to_string(),
        auth: ectt::config::Auth::OAuth(ectt::config::OAuthConfig {
            client_id: "client-id".to_string(),
            client_secret: "client-secret".to_string(),
            access_token: token.to_string(),
            refresh_token: "refresh-token".to_string(),
            auth_url: "https://localhost/auth".to_string(),
            token_url: "https://localhost/token".to_string(),
        }),
    }
}

fn simple_message(from: &str, subject: &str, body: &str) -> Vec<u8> {
    let mut text = String::new();
    text.push_str(&format!("From: {from}\r\n"));
    text.push_str("To: bob@example.com\r\n");
    text.push_str("Cc: Carol <carol@example.com>, dave@example.com\r\n");
    text.push_str(&format!("Subject: {subject}\r\n"));
    text.push_str("Date: Thu, 1 Jan 2015 00:00:00 +0000\r\n");
    text.push_str("Content-Type: text/plain\r\n\r\n");
    text.push_str(body);
    text.into_bytes()
}

fn raw_email(uid: u32, body: &str) -> RawEmail {
    RawEmail {
        uid: Some(uid),
        internal_date: Some(uid as i64 * 100),
        body: Some(simple_message("a@b.com", "subject", body)),
    }
}

#[test]
fn inbox_sorted_by_uid_descending_regardless_of_fetch_order() {
    let state = AuthenticatedState { config: oauth_imap_config("stale") };
    let fetched = vec![
        raw_email(11, "first"),
        raw_email(14, "second"),
        raw_email(12, "third"),
        raw_email(15, "fourth"),
        raw_email(13, "fifth"),
    ];
    let inbox = state.read_inbox(fetched);
    let uids: Vec<u32> = inbox.iter().map(|e| e.uid).collect();
    assert_eq!(uids, vec![15, 14, 13, 12, 11]);
}

#[test]
fn inbox_sort_keeps_duplicate_uids() {
    let state = AuthenticatedState { config: oauth_imap_config("t") };
    let fetched = vec![raw_email(7, "a"), raw_email(9, "b"), raw_email(7, "c")];
    let inbox = state.read_inbox(fetched);
    let uids: Vec<u32> = inbox.iter().map(|e| e.uid).collect();
    assert_eq!(uids, vec![9, 7, 7]);
}

#[test]
fn inbox_skips_bodyless_and_unparsable_messages() {
    let state = AuthenticatedState { config: oauth_imap_config("t") };
    let fetched = vec![
        RawEmail { uid: Some(3), internal_date: Some(1), body: None },
        raw_email(5, "kept"),
        RawEmail { uid: Some(4), internal_date: Some(1), body: Some(vec![]) },
    ];
    let inbox = state.read_inbox(fetched);
    assert_eq!(inbox.len(), 1);
    assert_eq!(inbox[0].uid, 5);
}

#[test]
fn inbox_extracts_fields_with_real_parser() {
    let state = AuthenticatedState { config: oauth_imap_config("t") };
    let bytes = simple_message("Alice <alice@example.com>", "Hello", "Hello world");
    let fetched = vec![RawEmail { uid: Some(8), internal_date: Some(1000), body: Some(bytes) }];
    let inbox = state.read_inbox(fetched);
    assert_eq!(inbox.len(), 1);
    assert_eq!(inbox[0].uid, 8);
    assert_eq!(inbox[0].date, 1000);
    assert_eq!(inbox[0].from, "Alice (alice@example.com)");
    assert_eq!(inbox[0].subject, "Hello");
    assert_eq!(inbox[0].body, "Hello world");
    assert_eq!(inbox[0].cc, vec!["Carol (carol@example.com)", "dave@example.com"]);
}

#[test]
fn inbox_missing_uid_defaults_to_zero() {
    let state = AuthenticatedState { config: oauth_imap_config("t") };
    let fetched = vec![RawEmail {
        uid: None,
        internal_date: Some(1),
        body: Some(simple_message("a@b.com", "s", "b")),
    }];
    let inbox = state.read_inbox(fetched);
    assert_eq!(inbox[0].uid, 0);
}

#[test]
fn inbox_header_date_fallback() {
    // No INTERNALDATE: the parsed Date header decides.
    let state = AuthenticatedState { config: oauth_imap_config("t") };
    let bytes = simple_message("a@b.com", "s", "b");
    let fetched = vec![RawEmail { uid: Some(1), internal_date: None, body: Some(bytes) }];
    let inbox = state.read_inbox(fetched);
    // Date header in the fixture: 1 Jan 2015 00:00:00 +0000.
    assert_eq!(inbox[0].date, 1420070400);
}

#[test]
fn inbox_missing_subject_defaults() {
    let state = AuthenticatedState { config: oauth_imap_config("t") };
    let bytes = b"From: a@b.com\r\n\r\njust a body".to_vec();
    let fetched = vec![RawEmail { uid: Some(1), internal_date: Some(5), body: Some(bytes) }];
    let inbox = state.read_inbox(fetched);
    assert_eq!(inbox[0].subject, "No subject");
}

#[test]
fn resolve_date_prefers_internal_date() {
    assert_eq!(resolve_date(Some(10), Some(20)), 10);
    assert_eq!(resolve_date(None, Some(20)), 20);
    assert_eq!(resolve_date(None, None), 0);
}

#[test]
fn sender_fallbacks() {
    assert_eq!(AuthenticatedState::get_from(&vec![]), "No sender");
    assert_eq!(
        AuthenticatedState::get_from(&vec![AddressField { name: None, address: None }]),
        "Unknown sender"
    );
    assert_eq!(
        AuthenticatedState::get_from(&vec![AddressField {
            name: Some("Ann".to_string()),
            address: None,
        }]),
        "Ann"
    );
    assert_eq!(
        AuthenticatedState::get_from(&vec![AddressField {
            name: None,
            address: Some("x@y.z".to_string()),
        }]),
        "x@y.z"
    );
    assert_eq!(
        AuthenticatedState::get_from(&vec![AddressField {
            name: Some("Ann".to_string()),
            address: Some("x@y.z".to_string()),
        }]),
        "Ann (x@y.z)"
    );
}

#[test]
fn cc_and_bcc_fallbacks() {
    let list = vec![
        AddressField { name: None, address: None },
        AddressField { name: None, address: Some("x@y.z".to_string()) },
    ];
    assert_eq!(AuthenticatedState::get_cc(&list), vec!["Unknown CC", "x@y.z"]);
    assert_eq!(AuthenticatedState::get_bcc(&list), vec!["Unknown BCC", "x@y.z"]);
}

#[test]
fn body_concatenates_all_text_parts() {
    let parts = vec!["one ".to_string(), "two ".to_string(), "three".to_string()];
    assert_eq!(AuthenticatedState::concat_bodies(&parts), "one two three");
    assert_eq!(AuthenticatedState::concat_bodies(&vec![]), "");
}

#[test]
fn full_oauth_session_recovers_and_reads_sorted_inbox() {
    // A stale access token: the first login fails, one refresh succeeds,
    // the single retry logs in, and a five-message fetch comes back sorted
    // by UID descending.
    let client = UnauthenticatedState::new(oauth_imap_config("stale-token"));
    let pending = match client.authenticate(LoginOutcome::Rejected) {
        AuthProgress::RefreshNeeded(p) => p,
        _ => panic!("an OAuth rejection must lead to a refresh"),
    };
    let retry = match pending.on_refresh(RefreshOutcome::Granted {
        access_token: "fresh-token".to_string(),
    }) {
        RefreshProgress::RetryLogin(r) => r,
        _ => panic!("a granted refresh must lead to the retry"),
    };
    let session = retry.on_retry(LoginOutcome::Accepted).expect("retry was accepted");
    match &session.config.auth {
        ectt::config::Auth::OAuth(o) => assert_eq!(o.access_token, "fresh-token"),
        _ => panic!("credentials must stay OAuth"),
    }

    let fetched = vec![
        raw_email(12, "a"),
        raw_email(15, "b"),
        raw_email(11, "c"),
        raw_email(14, "d"),
        raw_email(13, "e"),
    ];
    let inbox = session.read_inbox(fetched);
    assert_eq!(inbox.len(), 5);
    let uids: Vec<u32> = inbox.iter().map(|e| e.uid).collect();
    assert_eq!(uids, vec![15, 14, 13, 12, 11]);
}
