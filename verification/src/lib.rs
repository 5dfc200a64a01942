//! A terminal email client's protocol core: credential handling with OAuth
//! token refresh, an IMAP authentication state machine with a bounded reauth
//! retry, windowed inbox fetching with parsing and sorting, an SMTP send
//! pipeline with a bounded retry on authentication rejection, an OAuth2
//! authorization-code flow manager, and the message-passing worker harness
//! that runs the two protocol clients.

use vstd::prelude::*;

verus! {

/// The session-level failure taxonomy: everything a worker can surface to
/// the front end as fatal falls in one of these classes.
#[derive(Debug, Clone, PartialEq, Eq)]
pub enum Error {
    /// The configuration could not be found or read.
    Config(crate::config::ConfigError),
    /// The read backend failed terminally.
    Imap(crate::imap::ImapError),
    /// The send backend failed terminally.
    Send(crate::smtp::SendError),
    /// The interactive authorization flow aborted.
    Flow(crate::oauth::FlowError),
    /// A worker/front-end channel closed unexpectedly.
    Channel,
}

} // verus!

pub mod addr;
pub mod cli;
pub mod config;
pub mod imap;
pub mod mime;
pub mod oauth;
pub mod retry;
pub mod smtp;
pub mod tui;
