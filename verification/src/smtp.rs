//! The SMTP (send) side: message building from the compose form, the send
//! pipeline with its bounded retry on an authentication-rejected status,
//! and the send worker's command/response envelope. The network transport
//! itself lives outside; this module decides what the transport is built
//! from, which status codes earn the single refresh-and-retry, and how the
//! credentials change when they do.

use vstd::prelude::*;

use crate::addr::{addr_ok, addr_views, parse_address, EmailAddress};
use crate::config::{Auth, RefreshOutcome, SmtpConfig};
use crate::retry::{AttemptOutcome, RetryMachine};

verus! {

/// An SMTP reply code, digit by digit: severity, category, detail.
#[derive(Debug, Clone, Copy, PartialEq, Eq, Structural)]
pub struct SmtpCode {
    pub severity: u8,
    pub category: u8,
    pub detail: u8,
}

/// Failures of the send pipeline.
#[derive(Debug, Clone, PartialEq, Eq)]
pub enum SendError {
    /// The configured login is not a valid address.
    AddressParse,
    /// The message could not be built: it names no recipient at all.
    MessageBuild,
    /// A wire failure, with the reply code when the server sent one.
    Transport { code: Option<SmtpCode>, message: String },
    /// The second submission was also rejected for authentication reasons.
    AuthRejectedAfterRetry,
    /// The refresh-token grant between the two submissions failed.
    RefreshFailed { cause: String },
}

/// The authentication-rejected reply: a permanent-negative completion
/// (severity 5) in category 3 with detail 5 — the one status that earns an
/// OAuth refresh and retry.
pub open spec fn spec_auth_rejected(code: Option<SmtpCode>) -> bool {
    code == Some(SmtpCode { severity: 5u8, category: 3u8, detail: 5u8 })
}

/// Classifies a reply code: exactly the 535 status is an authentication
/// rejection.
pub fn is_auth_rejected(code: Option<SmtpCode>) -> (b: bool)
    ensures
        b == spec_auth_rejected(code),
{
    match code {
        Some(c) => c.severity == 5 && c.category == 3 && c.detail == 5,
        None => false,
    }
}

/// A transient failure: a transient-negative (4xx) reply. Transient send
/// failures are logged but do not end the session.
pub open spec fn spec_is_transient(e: SendError) -> bool {
    e matches SendError::Transport { code: Some(c), .. } && c.severity == 4
}

impl SendError {
    /// Whether this failure is transient (a 4xx reply): transient send
    /// failures are logged but do not end the session.
    pub fn is_transient(&self) -> (b: bool)
        ensures
            b == spec_is_transient(*self),
    {
        match self {
            SendError::Transport { code: Some(c), .. } => c.severity == 4,
            _ => false,
        }
    }
}

/// The SASL mechanism a transport authenticates with; it must match the
/// credential mode.
#[derive(Debug, Clone, Copy, PartialEq, Eq, Structural)]
pub enum Mechanism {
    Plain,
    Xoauth2,
}

/// Everything a relay transport is built from: host, mechanism and the
/// credential pair.
#[derive(Debug, Clone)]
pub struct TransportSpec {
    pub host: String,
    pub mechanism: Mechanism,
    pub username: String,
    pub secret: String,
}

/// A message as composed: everything optional, validated addresses only.
#[derive(Debug, Clone)]
pub struct PartialMessage {
    pub to: Option<EmailAddress>,
    pub cc: Vec<EmailAddress>,
    pub bcc: Vec<EmailAddress>,
    pub subject: Option<String>,
    pub body: Option<String>,
}

/// The mathematical value of a `PartialMessage`.
#[verifier::ext_equal]
pub ghost struct PartialMessageView {
    pub to: Option<Seq<char>>,
    pub cc: Seq<Seq<char>>,
    pub bcc: Seq<Seq<char>>,
    pub subject: Option<Seq<char>>,
    pub body: Option<Seq<char>>,
}

/// The view of an optional address.
pub open spec fn opt_addr_view(o: Option<EmailAddress>) -> Option<Seq<char>> {
    match o {
        Some(a) => Some(a@),
        None => None,
    }
}

/// The view of an optional string.
pub open spec fn opt_string_view(o: Option<String>) -> Option<Seq<char>> {
    match o {
        Some(s) => Some(s@),
        None => None,
    }
}

impl View for PartialMessage {
    type V = PartialMessageView;

    open spec fn view(&self) -> PartialMessageView {
        PartialMessageView {
            to: opt_addr_view(self.to),
            cc: addr_views(self.cc@),
            bcc: addr_views(self.bcc@),
            subject: opt_string_view(self.subject),
            body: opt_string_view(self.body),
        }
    }
}

/// A full message ready for submission: the sender fixed to the configured
/// login, optional headers defaulted to empty.
#[derive(Debug, Clone)]
pub struct BuiltMessage {
    pub from: EmailAddress,
    pub to: Option<EmailAddress>,
    pub cc: Vec<EmailAddress>,
    pub bcc: Vec<EmailAddress>,
    pub subject: String,
    pub body: String,
}

/// The mathematical value of a `BuiltMessage`.
#[verifier::ext_equal]
pub ghost struct BuiltMessageView {
    pub from: Seq<char>,
    pub to: Option<Seq<char>>,
    pub cc: Seq<Seq<char>>,
    pub bcc: Seq<Seq<char>>,
    pub subject: Seq<char>,
    pub body: Seq<char>,
}

impl View for BuiltMessage {
    type V = BuiltMessageView;

    open spec fn view(&self) -> BuiltMessageView {
        BuiltMessageView {
            from: self.from@,
            to: opt_addr_view(self.to),
            cc: addr_views(self.cc@),
            bcc: addr_views(self.bcc@),
            subject: self.subject@,
            body: self.body@,
        }
    }
}

/// Whether a composed message names at least one recipient; a message
/// without any cannot be built.
pub open spec fn spec_has_recipient(pm: PartialMessageView) -> bool {
    pm.to is Some || pm.cc.len() > 0 || pm.bcc.len() > 0
}

/// What building a message from the composed fields yields: the sender
/// fixed to `from`, subject and body defaulted to empty, and no message at
/// all when there is no recipient.
pub open spec fn spec_to_message(pm: PartialMessageView, from: Seq<char>) -> Option<
    BuiltMessageView,
> {
    if spec_has_recipient(pm) {
        Some(
            BuiltMessageView {
                from,
                to: pm.to,
                cc: pm.cc,
                bcc: pm.bcc,
                subject: match pm.subject {
                    Some(s) => s,
                    None => Seq::empty(),
                },
                body: match pm.body {
                    Some(b) => b,
                    None => Seq::empty(),
                },
            },
        )
    } else {
        None
    }
}

/// The composed fields a built message reads back to.
pub open spec fn spec_to_partial(m: BuiltMessageView) -> PartialMessageView {
    PartialMessageView {
        to: m.to,
        cc: m.cc,
        bcc: m.bcc,
        subject: Some(m.subject),
        body: Some(m.body),
    }
}

impl PartialMessage {
    /// Builds the full message: `from` becomes the sender, subject and body
    /// default to empty, and a message without any recipient is rejected.
    pub fn to_message(self, from: EmailAddress) -> (r: Result<BuiltMessage, SendError>)
        ensures
            r matches Ok(m) ==> spec_to_message(self@, from@) == Some(m@),
            r is Err ==> !spec_has_recipient(self@) && r == Err::<BuiltMessage, SendError>(
                SendError::MessageBuild,
            ),
    {
        let has_recipient = self.to.is_some() || self.cc.len() > 0 || self.bcc.len() > 0;
        if !has_recipient {
            return Err(SendError::MessageBuild);
        }
        let subject = match self.subject {
            Some(s) => s,
            None => String::new(),
        };
        let body = match self.body {
            Some(b) => b,
            None => String::new(),
        };
        Ok(BuiltMessage { from, to: self.to, cc: self.cc, bcc: self.bcc, subject, body })
    }
}

impl BuiltMessage {
    /// Reads the built message back into composed fields.
    pub fn to_partial(self) -> (r: PartialMessage)
        ensures
            r@ == spec_to_partial(self@),
    {
        PartialMessage {
            to: self.to,
            cc: self.cc,
            bcc: self.bcc,
            subject: Some(self.subject),
            body: Some(self.body),
        }
    }
}

/// Building a message and reading it back is the identity on the composed
/// fields: for every message with a recipient, a subject and a body, the
/// built message's To, Cc, Bcc, subject and body are exactly the composed
/// ones.
pub proof fn lemma_message_round_trip(pm: PartialMessageView, from: Seq<char>)
    requires
        spec_has_recipient(pm),
        pm.subject is Some,
        pm.body is Some,
    ensures
        spec_to_message(pm, from) matches Some(m) && spec_to_partial(m) =~= pm,
{
}

/// A command from the front end to the SMTP worker.
#[derive(Debug, Clone)]
pub enum Command {
    SendMail(PartialMessage),
}

/// The SMTP worker's reply: exactly one per command.
#[derive(Debug, Clone)]
pub enum Response {
    SendMailSuccess,
    Error(SendError),
}

/// What the SMTP worker does next after one receive on its command
/// channel.
#[derive(Debug, Clone)]
pub enum SmtpWorkerAction {
    /// Run one send and answer with exactly one response.
    Send(PartialMessage),
    /// The front end dropped its sender: exit the worker loop cleanly.
    Exit,
}

/// The worker-loop decision for one received command: a present command is
/// executed, a closed channel ends the loop. This is the entire shutdown
/// protocol of the send worker.
pub fn smtp_worker_step(received: Option<Command>) -> (a: SmtpWorkerAction)
    ensures
        received matches Some(Command::SendMail(m)) ==> a matches SmtpWorkerAction::Send(p)
            && p == m,
        received is None ==> a is Exit,
{
    match received {
        Some(Command::SendMail(m)) => SmtpWorkerAction::Send(m),
        None => SmtpWorkerAction::Exit,
    }
}

/// The one response a finished send produces.
pub fn smtp_worker_response(result: Result<(), SendError>) -> (r: Response)
    ensures
        result is Ok ==> r is SendMailSuccess,
        result matches Err(e) ==> r matches Response::Error(got) && got == e,
{
    match result {
        Ok(()) => Response::SendMailSuccess,
        Err(e) => Response::Error(e),
    }
}

/// How one submission attempt ended on the wire.
#[derive(Debug, Clone)]
pub enum SendOutcome {
    /// The server accepted the message.
    Sent,
    /// The server rejected it or the connection failed; `code` is the reply
    /// code when there was one.
    Failed { code: Option<SmtpCode>, message: String },
}

/// The SMTP client: the send-backend configuration whose embedded access
/// token is replaced when a mid-send refresh succeeds.
#[derive(Debug, Clone)]
pub struct Client {
    pub config: SmtpConfig,
}

/// What a transport built from `config` must look like: the mechanism
/// matches the credential mode and the secret is the live credential.
pub open spec fn spec_transport_matches(t: TransportSpec, config: SmtpConfig) -> bool {
    &&& t.host@ == config.host@
    &&& t.username@ == config.login@
    &&& (config.auth matches Auth::Password(p) ==> t.mechanism == Mechanism::Plain && t.secret@
        == p.raw@)
    &&& (config.auth matches Auth::OAuth(o) ==> t.mechanism == Mechanism::Xoauth2 && t.secret@
        == o.access_token@)
}

impl Client {
    /// A client for `config`, together with the transport to build first:
    /// PLAIN carrying the password for password credentials, XOAUTH2
    /// carrying the access token for OAuth.
    pub fn new(config: SmtpConfig) -> (r: (Client, TransportSpec))
        ensures
            r.0.config == config,
            spec_transport_matches(r.1, config),
    {
        let transport = Self::transport_for(&config);
        (Client { config }, transport)
    }

    /// The transport specification for the current credentials.
    fn transport_for(config: &SmtpConfig) -> (t: TransportSpec)
        ensures
            spec_transport_matches(t, *config),
    {
        let (mechanism, secret) = match &config.auth {
            Auth::Password(p) => (Mechanism::Plain, p.raw.clone()),
            Auth::OAuth(o) => (Mechanism::Xoauth2, o.access_token.clone()),
        };
        TransportSpec {
            host: config.host.clone(),
            mechanism,
            username: config.login.clone(),
            secret,
        }
    }

    /// Starts one send: the configured login must parse as an address (the
    /// sender), the message must have a recipient, and then the first
    /// submission attempt is owed.
    pub fn send(&self, message: PartialMessage) -> (r: Result<
        (BuiltMessage, SendAttempt),
        SendError,
    >)
        ensures
            !addr_ok(self.config.login@) ==> r == Err::<(BuiltMessage, SendAttempt), SendError>(
                SendError::AddressParse,
            ),
            addr_ok(self.config.login@) && !spec_has_recipient(message@) ==> r == Err::<
                (BuiltMessage, SendAttempt),
                SendError,
            >(SendError::MessageBuild),
            addr_ok(self.config.login@) && spec_has_recipient(message@) ==> (r matches Ok(
                (m, attempt),
            ) && {
                &&& spec_to_message(message@, self.config.login@) == Some(m@)
                &&& attempt.wf()
                &&& attempt.machine.phase is FirstAttempt
                &&& (attempt.machine.kind is OAuth <==> self.config.auth is OAuth)
            }),
    {
        let from = match parse_address(self.config.login.as_str()) {
            Some(a) => a,
            None => {
                return Err(SendError::AddressParse);
            }
        };
        let built = message.to_message(from)?;
        let machine = RetryMachine::new(self.config.auth.kind());
        Ok((built, SendAttempt { machine }))
    }

    /// Applies the result of a refresh-token grant to the client's
    /// credentials and hands back the transport to rebuild: on success the
    /// access token is replaced in place and the new transport carries it;
    /// for password credentials the grant is a no-op success; a denied
    /// grant leaves the configuration untouched.
    pub fn refresh_oauth_access_token(&mut self, outcome: RefreshOutcome) -> (r: Result<
        TransportSpec,
        SendError,
    >)
        ensures
            old(self).config.auth is Password ==> *final(self) == *old(self) && (r matches Ok(t)
                && spec_transport_matches(t, old(self).config)),
            outcome matches RefreshOutcome::Granted { access_token } ==> (old(
                self,
            ).config.auth is OAuth ==> {
                &&& final(self).config.host == old(self).config.host
                &&& final(self).config.port == old(self).config.port
                &&& final(self).config.login == old(self).config.login
                &&& final(self).config.auth is OAuth
                &&& final(self).config.auth->OAuth_0.access_token == access_token
                &&& final(self).config.auth->OAuth_0.refresh_token == old(
                    self,
                ).config.auth->OAuth_0.refresh_token
                &&& r matches Ok(t) && spec_transport_matches(t, final(self).config)
            }),
            outcome matches RefreshOutcome::Denied { cause } ==> (old(self).config.auth is OAuth
                ==> *final(self) == *old(self) && r == Err::<TransportSpec, SendError>(
                SendError::RefreshFailed { cause },
            )),
    {
        match outcome {
            RefreshOutcome::Granted { access_token } => {
                self.config.auth.apply_refreshed_token(access_token);
                Ok(Self::transport_for(&self.config))
            }
            RefreshOutcome::Denied { cause } => {
                if matches!(self.config.auth, Auth::Password(_)) {
                    Ok(Self::transport_for(&self.config))
                } else {
                    Err(SendError::RefreshFailed { cause })
                }
            }
        }
    }
}

/// One send owing its first submission attempt.
#[derive(Debug, Clone)]
pub struct SendAttempt {
    pub machine: RetryMachine,
}

impl SendAttempt {
    /// The machine is waiting for the first attempt's outcome.
    pub open spec fn wf(self) -> bool {
        &&& self.machine.wf()
        &&& self.machine.phase is FirstAttempt
    }

    /// Feeds in the first attempt's outcome. Success finishes the send; an
    /// authentication-rejected status with OAuth credentials earns exactly
    /// one refresh-and-resend; any other failure, or any failure with
    /// password credentials, surfaces immediately.
    pub fn on_result(self, outcome: SendOutcome) -> (r: SendProgress)
        requires
            self.wf(),
        ensures
            outcome is Sent ==> r is Done,
            outcome matches SendOutcome::Failed { code, message } ==> {
                &&& spec_auth_rejected(code) && self.machine.kind is OAuth ==> (r
                    matches SendProgress::NeedsRefresh(p) && p.wf())
                &&& spec_auth_rejected(code) && self.machine.kind is Password ==> r == (
                SendProgress::Failed(SendError::Transport { code, message }))
                &&& !spec_auth_rejected(code) ==> r == (SendProgress::Failed(
                    SendError::Transport { code, message },
                ))
            },
    {
        let mut machine = self.machine;
        match outcome {
            SendOutcome::Sent => {
                machine.on_attempt_result(AttemptOutcome::Accepted);
                SendProgress::Done
            }
            SendOutcome::Failed { code, message } => {
                if is_auth_rejected(code) {
                    machine.on_attempt_result(AttemptOutcome::AuthRejected);
                    if machine.needs_refresh() {
                        SendProgress::NeedsRefresh(RefreshThenResend { machine })
                    } else {
                        SendProgress::Failed(SendError::Transport { code, message })
                    }
                } else {
                    machine.on_attempt_result(AttemptOutcome::OtherFailure);
                    SendProgress::Failed(SendError::Transport { code, message })
                }
            }
        }
    }
}

/// Where a send stands after its first attempt.
#[derive(Debug, Clone)]
pub enum SendProgress {
    /// The message went through.
    Done,
    /// The status earned the single refresh: refresh, rebuild the
    /// transport, resend once.
    NeedsRefresh(RefreshThenResend),
    /// Terminal failure.
    Failed(SendError),
}

/// A send waiting for its refresh-token grant.
#[derive(Debug, Clone)]
pub struct RefreshThenResend {
    pub machine: RetryMachine,
}

impl RefreshThenResend {
    /// The machine is waiting for the refresh and the run is OAuth.
    pub open spec fn wf(self) -> bool {
        &&& self.machine.wf()
        &&& self.machine.phase is AwaitingRefresh
    }

    /// Feeds in the refresh grant's result, updating the client's
    /// credentials through it: success earns exactly one resend on the
    /// rebuilt transport; failure ends the send.
    pub fn on_refresh(self, client: &mut Client, outcome: RefreshOutcome) -> (r: Result<
        (TransportSpec, ResendPending),
        SendError,
    >)
        requires
            self.wf(),
            old(client).config.auth is OAuth,
        ensures
            outcome matches RefreshOutcome::Granted { access_token } ==> (r matches Ok(
                (t, pending),
            ) && {
                &&& pending.wf()
                &&& spec_transport_matches(t, final(client).config)
                &&& final(client).config.auth is OAuth
                &&& final(client).config.auth->OAuth_0.access_token == access_token
                &&& final(client).config.login == old(client).config.login
                &&& final(client).config.host == old(client).config.host
            }),
            outcome matches RefreshOutcome::Denied { cause } ==> r == Err::<
                (TransportSpec, ResendPending),
                SendError,
            >(SendError::RefreshFailed { cause }) && *final(client) == *old(client),
    {
        let mut machine = self.machine;
        match client.refresh_oauth_access_token(outcome) {
            Ok(transport) => {
                machine.on_refresh_result(true);
                Ok((transport, ResendPending { machine }))
            }
            Err(e) => {
                machine.on_refresh_result(false);
                Err(e)
            }
        }
    }
}

/// A send owing its single resend.
#[derive(Debug, Clone)]
pub struct ResendPending {
    pub machine: RetryMachine,
}

impl ResendPending {
    /// The machine is waiting for the second, last attempt.
    pub open spec fn wf(self) -> bool {
        &&& self.machine.wf()
        &&& self.machine.phase is SecondAttempt
    }

    /// Feeds in the resend's outcome: success finishes the send; a second
    /// authentication rejection is surfaced as such, any other failure as a
    /// transport error. Either way the send is over — this state is
    /// consumed and no third attempt exists.
    pub fn on_result(self, outcome: SendOutcome) -> (r: Result<(), SendError>)
        requires
            self.wf(),
        ensures
            outcome is Sent ==> r is Ok,
            outcome matches SendOutcome::Failed { code, message } ==> {
                &&& spec_auth_rejected(code) ==> r == Err::<(), SendError>(
                    SendError::AuthRejectedAfterRetry,
                )
                &&& !spec_auth_rejected(code) ==> r == Err::<(), SendError>(
                    SendError::Transport { code, message },
                )
            },
    {
        let mut machine = self.machine;
        match outcome {
            SendOutcome::Sent => {
                machine.on_attempt_result(AttemptOutcome::Accepted);
                Ok(())
            }
            SendOutcome::Failed { code, message } => {
                if is_auth_rejected(code) {
                    machine.on_attempt_result(AttemptOutcome::AuthRejected);
                    Err(SendError::AuthRejectedAfterRetry)
                } else {
                    machine.on_attempt_result(AttemptOutcome::OtherFailure);
                    Err(SendError::Transport { code, message })
                }
            }
        }
    }
}

} // verus!
