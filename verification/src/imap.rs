//! The IMAP (read) side: the parsed email model, the command/response
//! envelope between the front end and the IMAP worker, and the worker-loop
//! decisions. The authentication state machine and the inbox assembly live
//! in [`state`].

use vstd::prelude::*;

use crate::addr::string_views;

verus! {

/// Failures of the read backend.
#[derive(Debug, Clone, PartialEq, Eq)]
pub enum ImapError {
    /// Login was rejected after any permitted refresh and retry.
    AuthFailed,
    /// The refresh-token grant failed; the cause is the server's words.
    RefreshFailed(String),
    /// A non-authentication wire failure during select, search or fetch.
    Protocol(String),
}

/// One email as the front end consumes it: plain values only, with the
/// date as Unix seconds.
#[derive(Debug, Clone, PartialEq, Eq)]
pub struct ParsedEmail {
    /// The mailbox-scoped, monotonically increasing message identifier.
    pub uid: u32,
    /// Unix seconds; 0 when no date could be resolved.
    pub date: i64,
    pub from: String,
    pub cc: Vec<String>,
    pub bcc: Vec<String>,
    pub subject: String,
    pub body: String,
}

/// The mathematical value of a `ParsedEmail`.
pub ghost struct ParsedEmailView {
    pub uid: u32,
    pub date: i64,
    pub from: Seq<char>,
    pub cc: Seq<Seq<char>>,
    pub bcc: Seq<Seq<char>>,
    pub subject: Seq<char>,
    pub body: Seq<char>,
}

impl View for ParsedEmail {
    type V = ParsedEmailView;

    open spec fn view(&self) -> ParsedEmailView {
        ParsedEmailView {
            uid: self.uid,
            date: self.date,
            from: self.from@,
            cc: string_views(self.cc@),
            bcc: string_views(self.bcc@),
            subject: self.subject@,
            body: self.body@,
        }
    }
}

/// The views of a list of parsed emails.
pub open spec fn email_views(v: Seq<ParsedEmail>) -> Seq<ParsedEmailView> {
    v.map_values(|e: ParsedEmail| e@)
}

/// A command from the front end to the IMAP worker.
#[derive(Debug, Clone, PartialEq, Eq, Structural)]
pub enum ReadMessage {
    /// Fetch `count` messages starting `offset` below the most recent one.
    ReadInbox { count: u32, offset: u32 },
}

/// The IMAP worker's reply: exactly one per command.
#[derive(Debug, Clone, PartialEq, Eq)]
pub enum Response {
    Inbox(Vec<ParsedEmail>),
    Error(ImapError),
}

/// What the IMAP worker does next after one receive on its command
/// channel.
#[derive(Debug, Clone, PartialEq, Eq, Structural)]
pub enum ImapWorkerAction {
    /// Run one windowed inbox fetch and answer with exactly one response.
    Fetch { count: u32, offset: u32 },
    /// The front end dropped its sender: exit the worker loop cleanly.
    Exit,
}

/// The worker-loop decision for one received command: a present command is
/// executed, a closed channel ends the loop. This is the entire shutdown
/// protocol of the read worker.
pub fn imap_worker_step(received: Option<ReadMessage>) -> (a: ImapWorkerAction)
    ensures
        received matches Some(m) ==> a == (ImapWorkerAction::Fetch {
            count: m->count,
            offset: m->offset,
        }),
        received is None ==> a == ImapWorkerAction::Exit,
{
    match received {
        Some(ReadMessage::ReadInbox { count, offset }) => ImapWorkerAction::Fetch {
            count,
            offset,
        },
        None => ImapWorkerAction::Exit,
    }
}

/// The one response a finished inbox fetch produces: the emails on
/// success, the error otherwise.
pub fn imap_worker_response(result: Result<Vec<ParsedEmail>, ImapError>) -> (r: Response)
    ensures
        result matches Ok(emails) ==> r == Response::Inbox(emails),
        result matches Err(e) ==> r == Response::Error(e),
{
    match result {
        Ok(emails) => Response::Inbox(emails),
        Err(e) => Response::Error(e),
    }
}

} // verus!

pub mod oauth;
pub mod state;
