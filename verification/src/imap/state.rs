//! The IMAP client state machine. A client starts unauthenticated; one
//! login attempt either authenticates it or, for OAuth credentials, earns
//! exactly one token refresh followed by exactly one retry. The consuming
//! transitions make a second refresh or a third attempt unrepresentable.

use vstd::prelude::*;

use crate::config::{Auth, ImapConfig, RefreshOutcome};
use crate::addr::string_views;
use crate::imap::{email_views, ImapError, ParsedEmail, ParsedEmailView};
use crate::mime::{addr_field_views, mime_of, parse_mime, AddressField, AddressFieldView, MimeFields, MimeFieldsView};
use crate::retry::{AttemptOutcome, RetryMachine};

verus! {

/// How the server answered one login attempt.
#[derive(Debug, Clone, Copy, PartialEq, Eq, Structural)]
pub enum LoginOutcome {
    Accepted,
    Rejected,
}

/// A connected but not yet authenticated IMAP client.
#[derive(Debug, Clone)]
pub struct UnauthenticatedState {
    pub config: ImapConfig,
}

/// An authenticated IMAP session, holding the configuration it logged in
/// with (including any refreshed token).
#[derive(Debug, Clone)]
pub struct AuthenticatedState {
    pub config: ImapConfig,
}

/// An OAuth login was rejected once: the client owes exactly one refresh.
#[derive(Debug, Clone)]
pub struct RefreshPendingState {
    pub config: ImapConfig,
    pub machine: RetryMachine,
}

/// The refresh succeeded: the client owes exactly one more login attempt.
#[derive(Debug, Clone)]
pub struct RetryPendingState {
    pub config: ImapConfig,
    pub machine: RetryMachine,
}

impl RefreshPendingState {
    /// The machine is waiting for a refresh and the credentials are OAuth.
    pub open spec fn wf(self) -> bool {
        &&& self.machine.wf()
        &&& self.machine.phase is AwaitingRefresh
        &&& self.config.auth is OAuth
    }
}

impl RetryPendingState {
    /// The machine is waiting for the single permitted retry.
    pub open spec fn wf(self) -> bool {
        &&& self.machine.wf()
        &&& self.machine.phase is SecondAttempt
        &&& self.config.auth is OAuth
    }
}

/// Where an authentication run stands after the first login attempt.
#[derive(Debug, Clone)]
pub enum AuthProgress {
    /// The first attempt succeeded.
    Authenticated(AuthenticatedState),
    /// An OAuth login was rejected: refresh the token next.
    RefreshNeeded(RefreshPendingState),
    /// Terminal failure; the client is handed back unauthenticated.
    Failed(ImapError, UnauthenticatedState),
}

/// Where an authentication run stands after the refresh.
#[derive(Debug, Clone)]
pub enum RefreshProgress {
    /// The refresh succeeded: retry the login exactly once.
    RetryLogin(RetryPendingState),
    /// The refresh failed; terminal.
    Failed(ImapError, UnauthenticatedState),
}

impl UnauthenticatedState {
    /// A client for `config`, not yet authenticated.
    pub fn new(config: ImapConfig) -> (s: UnauthenticatedState)
        ensures
            s.config == config,
    {
        UnauthenticatedState { config }
    }

    /// One bare login attempt, with no retry of any kind: the session is
    /// authenticated exactly when the server accepted.
    pub fn basic_authenticate(self, outcome: LoginOutcome) -> (r: Result<
        AuthenticatedState,
        (ImapError, UnauthenticatedState),
    >)
        ensures
            outcome is Accepted ==> (r matches Ok(a) && a.config == self.config),
            outcome is Rejected ==> (r matches Err((e, u)) && e == ImapError::AuthFailed
                && u.config == self.config),
    {
        match outcome {
            LoginOutcome::Accepted => Ok(AuthenticatedState { config: self.config }),
            LoginOutcome::Rejected => Err((ImapError::AuthFailed, self)),
        }
    }

    /// Starts the bounded authentication run with the outcome of the first
    /// login attempt. A rejected password login is terminal with no refresh
    /// attempt; a rejected OAuth login earns exactly one refresh.
    pub fn authenticate(self, first: LoginOutcome) -> (r: AuthProgress)
        ensures
            first is Accepted ==> (r matches AuthProgress::Authenticated(a)
                && a.config == self.config),
            first is Rejected && self.config.auth is Password ==> (r
                matches AuthProgress::Failed(e, u) && e == ImapError::AuthFailed
                && u.config == self.config),
            first is Rejected && self.config.auth is OAuth ==> (r
                matches AuthProgress::RefreshNeeded(p) && p.wf() && p.config == self.config
                && p.machine.attempts == 1 && p.machine.refreshes == 1),
    {
        let kind = self.config.auth.kind();
        let mut machine = RetryMachine::new(kind);
        match first {
            LoginOutcome::Accepted => {
                machine.on_attempt_result(AttemptOutcome::Accepted);
                AuthProgress::Authenticated(AuthenticatedState { config: self.config })
            }
            LoginOutcome::Rejected => {
                machine.on_attempt_result(AttemptOutcome::AuthRejected);
                if machine.needs_refresh() {
                    AuthProgress::RefreshNeeded(RefreshPendingState { config: self.config, machine })
                } else {
                    AuthProgress::Failed(ImapError::AuthFailed, self)
                }
            }
        }
    }

    /// Applies the result of a refresh-token grant to the client's
    /// credentials: a no-op success for password credentials; for OAuth the
    /// access token is replaced in place on success, and a denied grant is
    /// reported with the configuration untouched.
    pub fn refresh_oauth_token(&mut self, outcome: RefreshOutcome) -> (r: Result<(), ImapError>)
        ensures
            old(self).config.auth is Password ==> r is Ok && *final(self) == *old(self),
            outcome matches RefreshOutcome::Granted { access_token } ==> (old(
                self,
            ).config.auth is OAuth ==> {
                &&& r is Ok
                &&& final(self).config.host == old(self).config.host
                &&& final(self).config.port == old(self).config.port
                &&& final(self).config.login == old(self).config.login
                &&& final(self).config.auth is OAuth
                &&& final(self).config.auth->OAuth_0.access_token == access_token
                &&& final(self).config.auth->OAuth_0.refresh_token == old(
                    self,
                ).config.auth->OAuth_0.refresh_token
                &&& final(self).config.auth->OAuth_0.client_id == old(
                    self,
                ).config.auth->OAuth_0.client_id
                &&& final(self).config.auth->OAuth_0.client_secret == old(
                    self,
                ).config.auth->OAuth_0.client_secret
                &&& final(self).config.auth->OAuth_0.auth_url == old(
                    self,
                ).config.auth->OAuth_0.auth_url
                &&& final(self).config.auth->OAuth_0.token_url == old(
                    self,
                ).config.auth->OAuth_0.token_url
            }),
            outcome matches RefreshOutcome::Denied { cause } ==> (old(self).config.auth is OAuth
                ==> r == Err::<(), ImapError>(ImapError::RefreshFailed(cause)) && *final(self)
                == *old(self)),
    {
        match outcome {
            RefreshOutcome::Granted { access_token } => {
                self.config.auth.apply_refreshed_token(access_token);
                Ok(())
            }
            RefreshOutcome::Denied { cause } => {
                if matches!(self.config.auth, Auth::Password(_)) {
                    Ok(())
                } else {
                    Err(ImapError::RefreshFailed(cause))
                }
            }
        }
    }
}

impl RefreshPendingState {
    /// Feeds in the refresh grant's result: success installs the new token
    /// and earns the single retry; failure is terminal, handing back the
    /// client with its configuration untouched.
    pub fn on_refresh(self, outcome: RefreshOutcome) -> (r: RefreshProgress)
        requires
            self.wf(),
        ensures
            outcome matches RefreshOutcome::Granted { access_token } ==> (r
                matches RefreshProgress::RetryLogin(p) && {
                &&& p.wf()
                &&& p.machine == self.machine.spec_on_refresh(true)
                &&& p.config.host == self.config.host
                &&& p.config.port == self.config.port
                &&& p.config.login == self.config.login
                &&& p.config.auth is OAuth
                &&& p.config.auth->OAuth_0.access_token == access_token
                &&& p.config.auth->OAuth_0.refresh_token
                    == self.config.auth->OAuth_0.refresh_token
            }),
            outcome matches RefreshOutcome::Denied { cause } ==> (r
                matches RefreshProgress::Failed(e, u) && e == ImapError::RefreshFailed(cause)
                && u.config == self.config),
    {
        let RefreshPendingState { config, mut machine } = self;
        let mut client = UnauthenticatedState { config };
        match client.refresh_oauth_token(outcome) {
            Ok(()) => {
                machine.on_refresh_result(true);
                RefreshProgress::RetryLogin(RetryPendingState { config: client.config, machine })
            }
            Err(e) => {
                machine.on_refresh_result(false);
                RefreshProgress::Failed(e, client)
            }
        }
    }
}

impl RetryPendingState {
    /// Feeds in the outcome of the single retry: acceptance authenticates
    /// the session under the refreshed configuration; a second rejection is
    /// terminal.
    pub fn on_retry(self, second: LoginOutcome) -> (r: Result<
        AuthenticatedState,
        (ImapError, UnauthenticatedState),
    >)
        requires
            self.wf(),
        ensures
            second is Accepted ==> (r matches Ok(a) && a.config == self.config),
            second is Rejected ==> (r matches Err((e, u)) && e == ImapError::AuthFailed
                && u.config == self.config),
    {
        let RetryPendingState { config, mut machine } = self;
        match second {
            LoginOutcome::Accepted => {
                machine.on_attempt_result(AttemptOutcome::Accepted);
                Ok(AuthenticatedState { config })
            }
            LoginOutcome::Rejected => {
                machine.on_attempt_result(AttemptOutcome::AuthRejected);
                Err((ImapError::AuthFailed, UnauthenticatedState { config }))
            }
        }
    }
}

/// The most-recent-first fetch window over a mailbox whose highest assigned
/// UID is `max_uid`: `top = max(max_uid - offset, 1)` and
/// `bot = max(max_uid - offset - count, 1)`, so a window pushed past the
/// start of the mailbox collapses to `[1, 1]` instead of failing.
pub open spec fn spec_fetch_window(max_uid: u32, count: u32, offset: u32) -> (u32, u32) {
    let top = if max_uid - offset > 1 { (max_uid - offset) as u32 } else { 1u32 };
    let bot = if max_uid - offset - count > 1 { (max_uid - offset - count) as u32 } else { 1u32 };
    (bot, top)
}

/// Computes the UID range `(bottom, top)` that a paginated inbox read
/// fetches; pagination increases `offset`. Never fails: once `offset`
/// reaches `max_uid` the window is the collapsed `[1, 1]`.
pub fn fetch_window(max_uid: u32, count: u32, offset: u32) -> (r: (u32, u32))
    ensures
        r == spec_fetch_window(max_uid, count, offset),
        r.0 <= r.1,
        offset >= max_uid ==> r == (1u32, 1u32),
{
    let top = if max_uid > offset { max_uid - offset } else { 1 };
    let shifted = if max_uid > offset { max_uid - offset } else { 0 };
    let bot = if shifted > count { shifted - count } else { 0 };
    let bot = if bot > 1 { bot } else { 1 };
    (bot, top)
}

/// The collapsed window never errors: for every `offset` at or past
/// `max_uid`, the fetch window is `[1, 1]` — a paginated read that walks
/// off the start of the mailbox still succeeds.
pub proof fn lemma_collapsed_window(max_uid: u32, count: u32, offset: u32)
    requires
        offset >= max_uid,
    ensures
        spec_fetch_window(max_uid, count, offset) == (1u32, 1u32),
{
}

/// The highest UID the search returned, or 1 for an empty mailbox.
pub fn max_uid_of(uids: &Vec<u32>) -> (m: u32)
    ensures
        uids@.len() == 0 ==> m == 1,
        uids@.len() > 0 ==> uids@.contains(m) && forall|k: int|
            0 <= k < uids@.len() ==> uids@[k] <= m,
{
    let mut m: u32 = 1;
    let mut seen: bool = false;
    let mut i: usize = 0;
    while i < uids.len()
        invariant
            i <= uids@.len(),
            !seen ==> m == 1 && i == 0,
            seen ==> uids@.contains(m) && i > 0,
            forall|k: int| 0 <= k < i ==> uids@[k] <= m,
        decreases uids@.len() - i,
    {
        if !seen || uids[i] > m {
            m = uids[i];
            seen = true;
            proof {
                assert(uids@[i as int] == m);
            }
        }
        i = i + 1;
    }
    m
}

/// One fetched message as the wire handed it over: its UID, its
/// INTERNALDATE as Unix seconds, and its raw RFC822 bytes.
#[derive(Debug, Clone)]
pub struct RawEmail {
    pub uid: Option<u32>,
    pub internal_date: Option<i64>,
    pub body: Option<Vec<u8>>,
}

/// The mathematical value of a `RawEmail`.
pub ghost struct RawEmailView {
    pub uid: Option<u32>,
    pub internal_date: Option<i64>,
    pub body: Option<Seq<u8>>,
}

impl View for RawEmail {
    type V = RawEmailView;

    open spec fn view(&self) -> RawEmailView {
        RawEmailView {
            uid: self.uid,
            internal_date: self.internal_date,
            body: match self.body {
                Some(ref b) => Some(b@),
                None => None,
            },
        }
    }
}

/// The views of a list of fetched messages.
pub open spec fn raw_views(v: Seq<RawEmail>) -> Seq<RawEmailView> {
    v.map_values(|r: RawEmail| r@)
}

/// The resolved date of a message: INTERNALDATE first, then the parsed
/// header date, then the Unix epoch.
pub open spec fn spec_resolve_date(internal: Option<i64>, header: Option<i64>) -> i64 {
    match internal {
        Some(t) => t,
        None => match header {
            Some(t) => t,
            None => 0,
        },
    }
}

/// Resolves a message's date: INTERNALDATE wins, the header date is the
/// fallback, and a message with neither dates to the epoch.
pub fn resolve_date(internal: Option<i64>, header: Option<i64>) -> (r: i64)
    ensures
        r == spec_resolve_date(internal, header),
{
    match internal {
        Some(t) => t,
        None => match header {
            Some(t) => t,
            None => 0,
        },
    }
}

/// How one address entry is displayed: the address alone, the name alone,
/// `name (address)` for both, and the caller's fallback for neither.
pub open spec fn spec_format_entry(e: AddressFieldView, unknown: Seq<char>) -> Seq<char> {
    match (e.name, e.address) {
        (None, None) => unknown,
        (None, Some(a)) => a,
        (Some(n), None) => n,
        (Some(n), Some(a)) => n + " ("@ + a + ")"@,
    }
}

/// Formats one address entry for display, with `unknown` filling in for an
/// entry that has neither name nor address.
fn format_entry(e: &AddressField, unknown: &str) -> (r: String)
    ensures
        r@ == spec_format_entry(e@, unknown@),
{
    match (&e.name, &e.address) {
        (None, None) => unknown.to_owned(),
        (None, Some(a)) => a.clone(),
        (Some(n), None) => n.clone(),
        (Some(n), Some(a)) => {
            let mut r = n.clone();
            r.append(" (");
            r.append(a.as_str());
            r.append(")");
            r
        }
    }
}

/// The displayed sender: the first From entry, or `No sender` when the
/// header is missing or empty, or `Unknown sender` for a nameless,
/// addressless entry.
pub open spec fn spec_sender(from: Seq<AddressFieldView>) -> Seq<char> {
    if from.len() == 0 {
        "No sender"@
    } else {
        spec_format_entry(from[0], "Unknown sender"@)
    }
}

/// The displayed Cc list: each entry formatted, `Unknown CC` filling in
/// for an empty entry.
pub open spec fn spec_cc_list(list: Seq<AddressFieldView>) -> Seq<Seq<char>> {
    list.map_values(|e: AddressFieldView| spec_format_entry(e, "Unknown CC"@))
}

/// The displayed Bcc list: each entry formatted, `Unknown BCC` filling in
/// for an empty entry.
pub open spec fn spec_bcc_list(list: Seq<AddressFieldView>) -> Seq<Seq<char>> {
    list.map_values(|e: AddressFieldView| spec_format_entry(e, "Unknown BCC"@))
}

/// The concatenation of all text body parts, in order.
pub open spec fn spec_join(parts: Seq<Seq<char>>) -> Seq<char>
    decreases parts.len(),
{
    if parts.len() == 0 {
        Seq::empty()
    } else {
        spec_join(parts.drop_last()) + parts.last()
    }
}

/// The displayed subject: the header, or `No subject`.
pub open spec fn spec_subject(subject: Option<Seq<char>>) -> Seq<char> {
    match subject {
        Some(s) => s,
        None => "No subject"@,
    }
}

/// The email assembled from one parsed message: `uid` and the resolved
/// date, with every display fallback applied.
pub open spec fn spec_assemble(uid: u32, internal_date: Option<i64>, f: MimeFieldsView)
    -> ParsedEmailView {
    ParsedEmailView {
        uid,
        date: spec_resolve_date(internal_date, f.date_seconds),
        from: spec_sender(f.from),
        cc: spec_cc_list(f.cc),
        bcc: spec_bcc_list(f.bcc),
        subject: spec_subject(f.subject),
        body: spec_join(f.text_bodies),
    }
}

/// What one fetched message contributes to the inbox: nothing when it has
/// no body or its body does not parse, and the assembled email otherwise.
pub open spec fn spec_email_of(r: RawEmailView) -> Option<ParsedEmailView> {
    match r.body {
        None => None,
        Some(b) => match mime_of(b) {
            None => None,
            Some(f) => Some(
                spec_assemble(
                    match r.uid {
                        Some(u) => u,
                        None => 0u32,
                    },
                    r.internal_date,
                    f,
                ),
            ),
        },
    }
}

/// The emails of a fetch batch, in fetch order: unparsable and bodyless
/// messages are skipped, never aborting the batch.
pub open spec fn spec_inbox(raws: Seq<RawEmailView>) -> Seq<ParsedEmailView> {
    raws.filter_map(|r: RawEmailView| spec_email_of(r))
}

/// Sorted by UID descending: the most recent message first.
pub open spec fn sorted_by_uid_desc(s: Seq<ParsedEmail>) -> bool {
    forall|a: int, b: int| 0 <= a < b < s.len() ==> #[trigger] s[a].uid >= #[trigger] s[b].uid
}

impl AuthenticatedState {
    /// The displayed sender of a parsed message.
    pub fn get_from(from: &Vec<AddressField>) -> (r: String)
        ensures
            r@ == spec_sender(addr_field_views(from@)),
    {
        if from.len() == 0 {
            proof {
                assert(addr_field_views(from@).len() == 0);
            }
            "No sender".to_owned()
        } else {
            proof {
                assert(addr_field_views(from@)[0] == from@[0]@);
            }
            format_entry(&from[0], "Unknown sender")
        }
    }

    /// The displayed Cc list of a parsed message.
    pub fn get_cc(list: &Vec<AddressField>) -> (r: Vec<String>)
        ensures
            string_views(r@) == spec_cc_list(addr_field_views(list@)),
    {
        let mut out: Vec<String> = Vec::new();
        let mut i: usize = 0;
        proof {
            assert(string_views(out@) =~= spec_cc_list(addr_field_views(list@)).take(0));
        }
        while i < list.len()
            invariant
                i <= list@.len(),
                string_views(out@) == spec_cc_list(addr_field_views(list@)).take(i as int),
            decreases list@.len() - i,
        {
            let ghost prev = out@;
            let entry = format_entry(&list[i], "Unknown CC");
            out.push(entry);
            proof {
                let cl = spec_cc_list(addr_field_views(list@));
                assert(addr_field_views(list@)[i as int] == list@[i as int]@);
                assert(cl[i as int] == spec_format_entry(list@[i as int]@, "Unknown CC"@));
                assert(string_views(out@) =~= string_views(prev).push(entry@));
                assert(cl.take(i + 1) =~= cl.take(i as int).push(cl[i as int]));
            }
            i = i + 1;
        }
        proof {
            let cl = spec_cc_list(addr_field_views(list@));
            assert(cl.take(list@.len() as int) =~= cl);
        }
        out
    }

    /// The displayed Bcc list of a parsed message.
    pub fn get_bcc(list: &Vec<AddressField>) -> (r: Vec<String>)
        ensures
            string_views(r@) == spec_bcc_list(addr_field_views(list@)),
    {
        let mut out: Vec<String> = Vec::new();
        let mut i: usize = 0;
        proof {
            assert(string_views(out@) =~= spec_bcc_list(addr_field_views(list@)).take(0));
        }
        while i < list.len()
            invariant
                i <= list@.len(),
                string_views(out@) == spec_bcc_list(addr_field_views(list@)).take(i as int),
            decreases list@.len() - i,
        {
            let ghost prev = out@;
            let entry = format_entry(&list[i], "Unknown BCC");
            out.push(entry);
            proof {
                let cl = spec_bcc_list(addr_field_views(list@));
                assert(addr_field_views(list@)[i as int] == list@[i as int]@);
                assert(cl[i as int] == spec_format_entry(list@[i as int]@, "Unknown BCC"@));
                assert(string_views(out@) =~= string_views(prev).push(entry@));
                assert(cl.take(i + 1) =~= cl.take(i as int).push(cl[i as int]));
            }
            i = i + 1;
        }
        proof {
            let cl = spec_bcc_list(addr_field_views(list@));
            assert(cl.take(list@.len() as int) =~= cl);
        }
        out
    }

    /// Concatenates all text body parts into the displayed body.
    pub fn concat_bodies(parts: &Vec<String>) -> (r: String)
        ensures
            r@ == spec_join(string_views(parts@)),
    {
        let mut r = String::new();
        let mut i: usize = 0;
        proof {
            assert(string_views(parts@).take(0) =~= Seq::<Seq<char>>::empty());
        }
        while i < parts.len()
            invariant
                i <= parts@.len(),
                r@ == spec_join(string_views(parts@).take(i as int)),
            decreases parts@.len() - i,
        {
            r.append(parts[i].as_str());
            proof {
                let vs = string_views(parts@);
                assert(vs.take(i + 1).drop_last() =~= vs.take(i as int));
                assert(vs.take(i + 1).last() == parts@[i as int]@);
            }
            i = i + 1;
        }
        proof {
            assert(string_views(parts@).take(parts@.len() as int) =~= string_views(parts@));
        }
        r
    }

    /// Assembles one email from the parsed fields of one fetched message.
    pub fn assemble_email(uid: u32, internal_date: Option<i64>, fields: MimeFields)
        -> (r: ParsedEmail)
        ensures
            r@ == spec_assemble(uid, internal_date, fields@),
    {
        let from = Self::get_from(&fields.from);
        let cc = Self::get_cc(&fields.cc);
        let bcc = Self::get_bcc(&fields.bcc);
        let body = Self::concat_bodies(&fields.text_bodies);
        let date = resolve_date(internal_date, fields.date_seconds);
        let subject = match fields.subject {
            Some(s) => s,
            None => "No subject".to_owned(),
        };
        ParsedEmail { uid, date, from, cc, bcc, subject, body }
    }

    /// Sorts a batch by UID descending; the result holds exactly the same
    /// emails.
    pub fn sort_by_uid(v: Vec<ParsedEmail>) -> (r: Vec<ParsedEmail>)
        ensures
            sorted_by_uid_desc(r@),
            email_views(r@).to_multiset() == email_views(v@).to_multiset(),
    {
        broadcast use vstd::seq_lib::group_to_multiset_ensures;
        broadcast use vstd::multiset::group_multiset_axioms;

        let mut rest = v;
        let mut out: Vec<ParsedEmail> = Vec::new();
        let ghost orig = rest@;
        proof {
            assert(email_views(out@) =~= Seq::<ParsedEmailView>::empty());
            assert(email_views(out@).to_multiset().add(email_views(rest@).to_multiset()) =~= email_views(
                orig,
            ).to_multiset());
        }
        loop
            invariant
                orig == v@,
                sorted_by_uid_desc(out@),
                email_views(out@).to_multiset().add(email_views(rest@).to_multiset())
                    =~= email_views(orig).to_multiset(),
            decreases rest@.len(),
        {
            let ghost rest_at_top = rest@;
            let popped = rest.pop();
            match popped {
                None => {
                    proof {
                        broadcast use vstd::seq_lib::group_to_multiset_ensures;
                        broadcast use vstd::multiset::group_multiset_axioms;

                        assert(email_views(rest@) =~= Seq::<ParsedEmailView>::empty());
                        assert forall|x: ParsedEmailView|
                            email_views(out@).to_multiset().count(x) == email_views(
                                orig,
                            ).to_multiset().count(x) by {
                            assert(!email_views(rest@).contains(x));
                            assert(email_views(rest@).to_multiset().count(x) == 0);
                        }
                        assert(email_views(out@).to_multiset() =~= email_views(
                            orig,
                        ).to_multiset());
                    }
                    return out;
                }
                Some(x) => {
                    proof {
                        broadcast use vstd::seq_lib::group_to_multiset_ensures;

                        assert(rest_at_top =~= rest@.push(x));
                        assert(email_views(rest_at_top) =~= email_views(rest@).push(x@));
                        assert(email_views(rest@).push(x@).to_multiset() =~= email_views(
                            rest@,
                        ).to_multiset().insert(x@));
                    }
                    let mut j: usize = 0;
                    while j < out.len() && out[j].uid >= x.uid
                        invariant
                            j <= out@.len(),
                            forall|k: int| 0 <= k < j ==> #[trigger] out@[k].uid >= x.uid,
                        decreases out@.len() - j,
                    {
                        j = j + 1;
                    }
                    let ghost out_before = out@;
                    out.insert(j, x);
                    proof {
                        broadcast use vstd::seq_lib::group_to_multiset_ensures;
                        broadcast use vstd::multiset::group_multiset_axioms;

                        let a = email_views(out_before).to_multiset();
                        let b = email_views(rest@).to_multiset();
                        assert(email_views(rest_at_top).to_multiset() =~= b.insert(x@));
                        assert(a.add(b.insert(x@)) =~= email_views(orig).to_multiset());
                        assert(email_views(out@) =~= email_views(out_before).insert(
                            j as int,
                            x@,
                        ));
                        assert(email_views(out@).to_multiset() =~= a.insert(x@));
                        assert(a.insert(x@).add(b) =~= a.add(b.insert(x@)));
                        assert(email_views(out@).to_multiset().add(email_views(rest@).to_multiset())
                            =~= email_views(orig).to_multiset());
                        assert forall|p: int, q: int| 0 <= p < q < out@.len()
                            implies #[trigger] out@[p].uid >= #[trigger] out@[q].uid by {
                            if q < j {
                                assert(out@[p] == out_before[p]);
                                assert(out@[q] == out_before[q]);
                            } else if q == j {
                                assert(out@[p] == out_before[p]);
                                assert(out@[q] == x);
                            } else if p == j {
                                assert(out@[p] == x);
                                assert(out@[q] == out_before[q - 1]);
                                assert(j < out_before.len());
                                assert(out_before[j as int].uid < x.uid);
                                if j < q - 1 {
                                    assert(out_before[j as int].uid >= out_before[q - 1].uid);
                                }
                            } else if p < j {
                                assert(out@[p] == out_before[p]);
                                assert(out@[q] == out_before[q - 1]);
                                if p < q - 1 {
                                    assert(out_before[p].uid >= out_before[q - 1].uid);
                                }
                            } else {
                                assert(out@[p] == out_before[p - 1]);
                                assert(out@[q] == out_before[q - 1]);
                                assert(out_before[p - 1].uid >= out_before[q - 1].uid);
                            }
                        }
                    }
                }
            }
        }
    }

    /// Assembles and sorts one fetch batch: every message with a parsable
    /// body becomes exactly one email, unparsable and bodyless messages are
    /// skipped, and the result is sorted by UID descending regardless of
    /// the order the server returned the messages in.
    pub fn read_inbox(&self, fetched: Vec<RawEmail>) -> (r: Vec<ParsedEmail>)
        ensures
            sorted_by_uid_desc(r@),
            email_views(r@).to_multiset() == spec_inbox(raw_views(fetched@)).to_multiset(),
    {
        let mut out: Vec<ParsedEmail> = Vec::new();
        let mut i: usize = 0;
        proof {
            assert(raw_views(fetched@).take(0) =~= Seq::<RawEmailView>::empty());
            assert(email_views(out@) =~= spec_inbox(raw_views(fetched@).take(0)));
        }
        while i < fetched.len()
            invariant
                i <= fetched@.len(),
                email_views(out@) == spec_inbox(raw_views(fetched@).take(i as int)),
            decreases fetched@.len() - i,
        {
            let ghost rv = raw_views(fetched@);
            proof {
                assert(rv.take(i + 1).drop_last() =~= rv.take(i as int));
                assert(rv.take(i + 1).last() == fetched@[i as int]@);
            }
            let raw = &fetched[i];
            match &raw.body {
                None => {
                    proof {
                        assert(spec_email_of(fetched@[i as int]@) is None);
                    }
                }
                Some(bytes) => {
                    match parse_mime(bytes.as_slice()) {
                        None => {
                            proof {
                                assert(spec_email_of(fetched@[i as int]@) is None);
                            }
                        }
                        Some(fields) => {
                            let uid = match raw.uid {
                                Some(u) => u,
                                None => 0,
                            };
                            let email = Self::assemble_email(uid, raw.internal_date, fields);
                            out.push(email);
                            proof {
                                assert(spec_email_of(fetched@[i as int]@) == Some(email@));
                                assert(email_views(out@) =~= email_views(out@.drop_last()).push(
                                    email@,
                                ));
                            }
                        }
                    }
                }
            }
            i = i + 1;
        }
        proof {
            assert(raw_views(fetched@).take(fetched@.len() as int) =~= raw_views(fetched@));
        }
        Self::sort_by_uid(out)
    }
}

} // verus!
