//! The front end's decisions and the worker harness: the single in-flight
//! rule, response handling, worker shutdown, focus cycling, popups, the
//! compose form, and configuration-path choice.

use ectt::config::{get_config_path, ConfigCandidate, ConfigError};
use ectt::imap::{
    imap_worker_response, imap_worker_step, ImapError, ImapWorkerAction, ParsedEmail,
    ReadMessage, Response,
};
use ectt::smtp::{SendError, SmtpCode, SmtpWorkerAction};
use ectt::tui::{
    on_smtp_response, popup_rect, split_body_lines, ComposeState, Focus, LoadingPopup, Popup,
    ReadingState, ScreenState, SmtpDisposition,
};

fn email(uid: u32) -> ParsedEmail {
    ParsedEmail {
        uid,
        date: uid as i64,
        from: "a@b.com".to_string(),
        cc: vec![],
        bcc: vec![],
        subject: "s".to_string(),
        body: "b".to_string(),
    }
}

#[test]
fn imap_worker_runs_one_fetch_per_command() {
    let cmd = ReadMessage::ReadInbox { count: 5, offset: 10 };
    assert_eq!(imap_worker_step(Some(cmd)), ImapWorkerAction::Fetch { count: 5, offset: 10 });
}

#[test]
fn imap_worker_exits_when_sender_dropped() {
    // The front end dropping its command sender reads as `None`: the
    // worker exits cleanly instead of panicking or spinning.
    assert_eq!(imap_worker_step(None), ImapWorkerAction::Exit);
}

#[test]
fn smtp_worker_exits_when_sender_dropped() {
    assert!(matches!(ectt::smtp::smtp_worker_step(None), SmtpWorkerAction::Exit));
}

#[test]
fn worker_responses_map_one_to_one() {
    match imap_worker_response(Ok(vec![email(1)])) {
        Response::Inbox(v) => assert_eq!(v.len(), 1),
        _ => panic!("a fetched batch answers with an inbox"),
    }
    match imap_worker_response(Err(ImapError::AuthFailed)) {
        Response::Error(e) => assert_eq!(e, ImapError::AuthFailed),
        _ => panic!("a failure answers with an error"),
    }
    assert!(matches!(
        ectt::smtp::smtp_worker_response(Ok(())),
        ectt::smtp::Response::SendMailSuccess
    ));
}

#[test]
fn initial_load_marks_request_in_flight() {
    let mut s = ScreenState::new();
    let cmd = s.load();
    assert_eq!(cmd, ReadMessage::ReadInbox { count: 5, offset: 0 });
    assert!(s.request_inflight);
}

#[test]
fn load_more_blocked_while_request_in_flight() {
    let mut s = ScreenState::new();
    s.inbox_state.inbox = vec![email(3), email(2)];
    s.inbox_state.selected = Some(1);
    s.request_inflight = true;
    assert!(s.load_more(5).is_none());
}

#[test]
fn load_more_only_from_last_row() {
    let mut s = ScreenState::new();
    s.inbox_state.inbox = vec![email(3), email(2)];
    s.inbox_state.selected = Some(0);
    assert!(s.load_more(5).is_none());
    assert!(!s.request_inflight);
}

#[test]
fn load_more_continues_at_list_end() {
    let mut s = ScreenState::new();
    s.inbox_state.inbox = vec![email(3), email(2)];
    s.inbox_state.selected = Some(1);
    let cmd = s.load_more(5);
    assert_eq!(cmd, Some(ReadMessage::ReadInbox { count: 5, offset: 2 }));
    assert!(s.request_inflight);
}

#[test]
fn cursor_moves_clamped_to_the_list() {
    let mut s = ScreenState::new();
    s.inbox_state.inbox = vec![email(3), email(2)];
    assert_eq!(s.inbox_state.selected, Some(0));
    s.inbox_state.select_next();
    assert_eq!(s.inbox_state.selected, Some(1));
    s.inbox_state.select_next();
    assert_eq!(s.inbox_state.selected, Some(1));
    s.inbox_state.select_previous();
    assert_eq!(s.inbox_state.selected, Some(0));
    s.inbox_state.select_previous();
    assert_eq!(s.inbox_state.selected, Some(0));
}

#[test]
fn cursor_ignores_an_empty_list() {
    let mut s = ScreenState::new();
    s.inbox_state.select_next();
    assert_eq!(s.inbox_state.selected, Some(0));
    s.inbox_state.select_previous();
    assert_eq!(s.inbox_state.selected, Some(0));
}

#[test]
fn cursor_reaching_last_row_arms_the_next_fetch() {
    let mut s = ScreenState::new();
    s.inbox_state.inbox = vec![email(3), email(2)];
    assert!(s.load_more(5).is_none());
    s.inbox_state.select_next();
    let cmd = s.load_more(5);
    assert_eq!(cmd, Some(ReadMessage::ReadInbox { count: 5, offset: 2 }));
}

#[test]
fn inbox_response_appends_without_deduplication() {
    let mut s = ScreenState::new();
    s.inbox_state.inbox = vec![email(3)];
    s.request_inflight = true;
    let fatal = s.handle_imap_response(Response::Inbox(vec![email(3), email(2)]));
    assert!(fatal.is_none());
    assert!(!s.request_inflight);
    let uids: Vec<u32> = s.inbox_state.inbox.iter().map(|e| e.uid).collect();
    assert_eq!(uids, vec![3, 3, 2]);
}

#[test]
fn imap_error_response_is_session_fatal() {
    let mut s = ScreenState::new();
    let fatal = s.handle_imap_response(Response::Error(ImapError::AuthFailed));
    assert_eq!(fatal, Some(ImapError::AuthFailed));
}

#[test]
fn smtp_transient_failure_keeps_session_alive() {
    let transient = SendError::Transport {
        code: Some(SmtpCode { severity: 4, category: 2, detail: 0 }),
        message: "later".to_string(),
    };
    assert!(matches!(
        on_smtp_response(ectt::smtp::Response::Error(transient)),
        SmtpDisposition::Proceed
    ));
    assert!(matches!(
        on_smtp_response(ectt::smtp::Response::SendMailSuccess),
        SmtpDisposition::Proceed
    ));
}

#[test]
fn smtp_fatal_failure_ends_session() {
    match on_smtp_response(ectt::smtp::Response::Error(SendError::AuthRejectedAfterRetry)) {
        SmtpDisposition::Fatal(e) => assert_eq!(e, SendError::AuthRejectedAfterRetry),
        _ => panic!("a permanent send failure is session-fatal"),
    }
}

#[test]
fn focus_cycles_forward_skipping_empty_fields() {
    let mut f = Focus::From;
    f.next(true, true);
    assert_eq!(f, Focus::Subject);
    let mut f = Focus::From;
    f.next(false, true);
    assert_eq!(f, Focus::Cc);
    let mut f = Focus::Cc;
    f.next(false, false);
    assert_eq!(f, Focus::Bcc);
    let mut f = Focus::Body;
    f.next(true, true);
    assert_eq!(f, Focus::From);
}

#[test]
fn focus_cycles_backward() {
    let mut f = Focus::Subject;
    f.previous(true, true);
    assert_eq!(f, Focus::From);
    let mut f = Focus::Subject;
    f.previous(false, true);
    assert_eq!(f, Focus::Cc);
    let mut f = Focus::From;
    f.previous(false, false);
    assert_eq!(f, Focus::Body);
    // The asymmetric step back from Bcc: straight to From when the Cc
    // field is nonempty, and to Cc when it is empty.
    let mut f = Focus::Bcc;
    f.previous(false, false);
    assert_eq!(f, Focus::From);
    let mut f = Focus::Bcc;
    f.previous(true, false);
    assert_eq!(f, Focus::Cc);
}

#[test]
fn popup_geometry() {
    // Message of 10 characters, no hint: 12 wide, centered on 80 columns.
    assert_eq!(popup_rect(80, 30, 10, false), (34, 10, 12, 3));
    // A dismissable popup is never narrower than its hint (24 columns).
    assert_eq!(popup_rect(80, 30, 10, true), (28, 10, 24, 4));
    let p = Popup::new("hello".to_string(), true);
    assert!(p.dismissable);
    assert_eq!(p.message, "hello");
    assert_eq!(Popup::dismiss_message(), "Press Enter to dismiss");
    assert_eq!(LoadingPopup::message(), "Loading more emails!");
}

#[test]
fn body_lines_drop_carriage_returns() {
    let lines = split_body_lines("one\r\ntwo\nthree\r");
    assert_eq!(lines, vec!["one", "two", "three"]);
    assert_eq!(split_body_lines(""), vec![""]);
}

#[test]
fn reading_state_splits_the_body() {
    let r = ReadingState::new(
        "a@b.com".to_string(),
        vec!["c@d.com".to_string()],
        vec![],
        "s".to_string(),
        "line1\r\nline2".to_string(),
    );
    assert_eq!(r.body_lines, vec!["line1", "line2"]);
    assert_eq!(r.from, "a@b.com");
}

#[test]
fn compose_form_builds_message() {
    let form = ComposeState {
        to: "a@b.com".to_string(),
        cc: "c@d.com, e@f.com".to_string(),
        bcc: "".to_string(),
        subject: "S".to_string(),
        body: "B".to_string(),
    };
    let pm = form.get_partial_message().expect("all addresses valid");
    assert_eq!(pm.to.as_ref().map(|a| a.as_str()), Some("a@b.com"));
    let cc: Vec<&str> = pm.cc.iter().map(|a| a.as_str()).collect();
    assert_eq!(cc, vec!["c@d.com", "e@f.com"]);
    assert!(pm.bcc.is_empty());
    assert_eq!(pm.subject.as_deref(), Some("S"));
    assert_eq!(pm.body.as_deref(), Some("B"));
}

#[test]
fn compose_form_rejects_bad_address() {
    let form = ComposeState {
        to: "not an address".to_string(),
        cc: String::new(),
        bcc: String::new(),
        subject: String::new(),
        body: String::new(),
    };
    assert!(form.get_partial_message().is_err());
    let form = ComposeState {
        to: String::new(),
        cc: "ok@ok.com, broken".to_string(),
        bcc: String::new(),
        subject: String::new(),
        body: String::new(),
    };
    assert!(form.get_partial_message().is_err());
}

#[test]
fn empty_compose_form_is_a_messageless_draft() {
    let form = ComposeState::default();
    let pm = form.get_partial_message().expect("an empty form is valid");
    assert!(pm.to.is_none());
    assert!(pm.cc.is_empty());
    assert!(pm.subject.is_none());
    assert!(pm.body.is_none());
}

#[test]
fn config_path_choice() {
    let user = ConfigCandidate { path: "/home/u/.config/config.json".to_string(), exists: true };
    let cwd = ConfigCandidate { path: "./config.json".to_string(), exists: true };
    assert_eq!(
        get_config_path(Some("/tmp/x.json".to_string()), Some(user.clone()), cwd.clone()),
        Ok("/tmp/x.json".to_string())
    );
    assert_eq!(
        get_config_path(None, Some(user.clone()), cwd.clone()),
        Ok("/home/u/.config/config.json".to_string())
    );
    let missing_user = ConfigCandidate { path: user.path.clone(), exists: false };
    assert_eq!(
        get_config_path(None, Some(missing_user.clone()), cwd.clone()),
        Ok("./config.json".to_string())
    );
    let missing_cwd = ConfigCandidate { path: cwd.path.clone(), exists: false };
    assert_eq!(
        get_config_path(None, Some(missing_user), missing_cwd.clone()),
        Err(ConfigError::NotFound)
    );
    assert_eq!(get_config_path(None, None, missing_cwd), Err(ConfigError::NotFound));
}
