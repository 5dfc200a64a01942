//! The front end's state, as plain data and decisions: which page is
//! shown, how keyboard focus cycles through the reading form, what the
//! inbox list holds, when a paginated fetch may be issued (the single
//! in-flight request rule), how worker responses update the state, and how
//! the compose form's text becomes a message. Rendering and key events
//! stay outside; everything that decides lives here.

use vstd::prelude::*;

use crate::addr::{addr_ok, parse_address, parse_addresses, spec_parse_addresses, split_at_char,
    split_on_char, string_views, AddressError};
use crate::imap::{ImapError, ParsedEmail, ReadMessage, Response};
use crate::smtp::{spec_is_transient, PartialMessage, PartialMessageView, SendError};

verus! {

/// The page the front end is showing.
#[derive(Debug, Clone, Copy, PartialEq, Eq, Structural)]
pub enum Page {
    Inbox,
    Compose,
    Reading,
}

/// What an input event asks the front end to do.
#[derive(Debug, Clone, Copy, PartialEq, Eq, Structural)]
pub enum Action {
    Quit,
    Tick,
    GoTo(Page),
}

/// The field the reading form's keyboard focus is on.
#[derive(Debug, Clone, Copy, PartialEq, Eq, Structural)]
pub enum Focus {
    From,
    Cc,
    Bcc,
    Subject,
    Body,
}

/// Where focus moves forward from `f`, skipping the Cc and Bcc fields when
/// they are empty.
pub open spec fn spec_focus_next(f: Focus, cc_is_empty: bool, bcc_is_empty: bool) -> Focus {
    match f {
        Focus::From => if !cc_is_empty {
            Focus::Cc
        } else if !bcc_is_empty {
            Focus::Bcc
        } else {
            Focus::Subject
        },
        Focus::Cc => if bcc_is_empty {
            Focus::Subject
        } else {
            Focus::Bcc
        },
        Focus::Bcc => Focus::Subject,
        Focus::Subject => Focus::Body,
        Focus::Body => Focus::From,
    }
}

/// Where focus moves backward from `f`. Stepping back from Subject skips
/// an empty Bcc and then an empty Cc. Stepping back from Bcc is
/// deliberately asymmetric with the forward order: it jumps straight to
/// From when the Cc field is nonempty, and lands on Cc when it is empty.
pub open spec fn spec_focus_previous(f: Focus, cc_is_empty: bool, bcc_is_empty: bool) -> Focus {
    match f {
        Focus::From => Focus::Body,
        Focus::Cc => Focus::From,
        Focus::Bcc => if !cc_is_empty {
            Focus::From
        } else {
            Focus::Cc
        },
        Focus::Subject => if !bcc_is_empty {
            Focus::Bcc
        } else if !cc_is_empty {
            Focus::Cc
        } else {
            Focus::From
        },
        Focus::Body => Focus::Subject,
    }
}

impl Focus {
    /// Moves focus to the next field, skipping empty Cc/Bcc.
    pub fn next(&mut self, cc_is_empty: bool, bcc_is_empty: bool)
        ensures
            *final(self) == spec_focus_next(*old(self), cc_is_empty, bcc_is_empty),
    {
        *self = match (&*self, cc_is_empty, bcc_is_empty) {
            (Focus::From, false, _) => Focus::Cc,
            (Focus::From, true, false) => Focus::Bcc,
            (Focus::From, true, true) => Focus::Subject,
            (Focus::Cc, _, true) => Focus::Subject,
            (Focus::Cc, _, false) => Focus::Bcc,
            (Focus::Bcc, _, _) => Focus::Subject,
            (Focus::Subject, _, _) => Focus::Body,
            (Focus::Body, _, _) => Focus::From,
        };
    }

    /// Moves focus to the previous field; `spec_focus_previous` gives the
    /// exact order, including the asymmetric step back from Bcc.
    pub fn previous(&mut self, cc_is_empty: bool, bcc_is_empty: bool)
        ensures
            *final(self) == spec_focus_previous(*old(self), cc_is_empty, bcc_is_empty),
    {
        *self = match (&*self, cc_is_empty, bcc_is_empty) {
            (Focus::From, _, _) => Focus::Body,
            (Focus::Cc, _, _) => Focus::From,
            (Focus::Bcc, false, _) => Focus::From,
            (Focus::Bcc, true, _) => Focus::Cc,
            (Focus::Subject, _, false) => Focus::Bcc,
            (Focus::Subject, false, true) => Focus::Cc,
            (Focus::Subject, true, true) => Focus::From,
            (Focus::Body, _, _) => Focus::Subject,
        };
    }
}

/// A message popup over the current page.
#[derive(Debug, Clone)]
pub struct Popup {
    pub message: String,
    /// Whether a dismissal hint is shown and Enter closes it.
    pub dismissable: bool,
}

impl Popup {
    /// A popup showing `message`.
    pub fn new(message: String, dismissable: bool) -> (r: Popup)
        ensures
            r.message == message,
            r.dismissable == dismissable,
    {
        Popup { message, dismissable }
    }

    /// The dismissal hint shown under a dismissable popup's message.
    pub fn dismiss_message() -> (r: String)
        ensures
            r@ == "Press Enter to dismiss"@,
    {
        "Press Enter to dismiss".to_owned()
    }
}

/// The width of a popup: the message plus one cell of padding on each
/// side, and at least wide enough for the dismissal hint (22 characters)
/// when one is shown.
pub open spec fn spec_popup_width(message_len: u16, dismissable: bool) -> int {
    let padded = message_len + 2;
    if dismissable && padded < 24 {
        24
    } else {
        padded
    }
}

/// The rectangle `(x, y, width, height)` a popup occupies: centered
/// horizontally, a third of the way down, three rows tall plus one more
/// for the dismissal hint.
pub fn popup_rect(area_width: u16, area_height: u16, message_len: u16, dismissable: bool)
    -> (r: (u16, u16, u16, u16))
    requires
        message_len + 2 <= u16::MAX,
        spec_popup_width(message_len, dismissable) <= area_width,
    ensures
        r.2 == spec_popup_width(message_len, dismissable),
        r.0 == area_width / 2 - r.2 / 2,
        r.1 == area_height / 3,
        r.3 == if dismissable { 4int } else { 3int },
{
    let padded = message_len + 2;
    let width = if dismissable && padded < 24 { 24 } else { padded };
    let x = area_width / 2 - width / 2;
    let y = area_height / 3;
    let height: u16 = if dismissable { 4 } else { 3 };
    (x, y, width, height)
}

/// The fixed popup shown while a paginated fetch is in flight.
#[derive(Debug, Clone, Copy, PartialEq, Eq, Structural)]
pub struct LoadingPopup;

impl LoadingPopup {
    /// The loading popup's message.
    pub fn message() -> (r: String)
        ensures
            r@ == "Loading more emails!"@,
    {
        "Loading more emails!".to_owned()
    }
}

/// The inbox list and the row the cursor is on.
#[derive(Debug, Clone)]
pub struct InboxState {
    /// Fetched emails, appended across paginated fetches without
    /// deduplication.
    pub inbox: Vec<ParsedEmail>,
    /// The selected row, when there is one.
    pub selected: Option<usize>,
}

/// Where the cursor lands one row down: clamped to the last row, and on
/// the first row when nothing was selected.
pub open spec fn spec_select_next(selected: Option<usize>, len: nat) -> Option<usize> {
    match selected {
        Some(s) => if s < len - 1 {
            Some((s + 1) as usize)
        } else {
            Some(s)
        },
        None => Some(0usize),
    }
}

/// Where the cursor lands one row up: clamped to the first row, and on the
/// first row when nothing was selected.
pub open spec fn spec_select_previous(selected: Option<usize>) -> Option<usize> {
    match selected {
        Some(s) => if s > 0 {
            Some((s - 1) as usize)
        } else {
            Some(s)
        },
        None => Some(0usize),
    }
}

impl InboxState {
    /// An empty inbox with the cursor on the first row.
    pub fn new() -> (r: InboxState)
        ensures
            r.inbox@.len() == 0,
            r.selected == Some(0usize),
    {
        InboxState { inbox: Vec::new(), selected: Some(0) }
    }

    /// Moves the cursor one row down, staying on the last row at the end
    /// of the list; an empty list keeps its cursor. Whether the cursor
    /// sits on the last row is what arms the next paginated fetch.
    pub fn select_next(&mut self)
        ensures
            old(self).inbox@.len() == 0 ==> *final(self) == *old(self),
            old(self).inbox@.len() > 0 ==> final(self).inbox == old(self).inbox
                && final(self).selected == spec_select_next(
                old(self).selected,
                old(self).inbox@.len(),
            ),
    {
        let len = self.inbox.len();
        if len == 0 {
            return;
        }
        self.selected = Some(
            match self.selected {
                Some(s) => if s < len - 1 {
                    s + 1
                } else {
                    s
                },
                None => 0,
            },
        );
    }

    /// Moves the cursor one row up, staying on the first row at the top;
    /// an empty list keeps its cursor.
    pub fn select_previous(&mut self)
        ensures
            old(self).inbox@.len() == 0 ==> *final(self) == *old(self),
            old(self).inbox@.len() > 0 ==> final(self).inbox == old(self).inbox
                && final(self).selected == spec_select_previous(old(self).selected),
    {
        if self.inbox.len() == 0 {
            return;
        }
        self.selected = Some(
            match self.selected {
                Some(s) => if s > 0 {
                    s - 1
                } else {
                    s
                },
                None => 0,
            },
        );
    }
}

/// The front end's whole state between redraw ticks.
#[derive(Debug, Clone)]
pub struct ScreenState {
    pub inbox_state: InboxState,
    /// Whether a fetch command is in flight and unanswered; while it is,
    /// no second fetch may be issued.
    pub request_inflight: bool,
    /// A popup message to show, if any.
    pub popup: Option<String>,
}

/// Whether another paginated fetch may be issued: none is in flight and
/// the cursor sits on the last fetched row.
pub open spec fn spec_may_load_more(s: ScreenState) -> bool {
    &&& !s.request_inflight
    &&& s.inbox_state.inbox@.len() > 0
    &&& s.inbox_state.selected == Some((s.inbox_state.inbox@.len() - 1) as usize)
}

impl ScreenState {
    /// A fresh front end: empty inbox, nothing in flight, no popup.
    pub fn new() -> (r: ScreenState)
        ensures
            r.inbox_state.inbox@.len() == 0,
            r.inbox_state.selected == Some(0usize),
            !r.request_inflight,
            r.popup is None,
    {
        ScreenState { inbox_state: InboxState::new(), request_inflight: false, popup: None }
    }

    /// The initial fetch issued on startup: the five most recent messages,
    /// marking a request in flight.
    pub fn load(&mut self) -> (cmd: ReadMessage)
        ensures
            cmd == (ReadMessage::ReadInbox { count: 5u32, offset: 0u32 }),
            final(self).request_inflight,
            final(self).inbox_state == old(self).inbox_state,
            final(self).popup == old(self).popup,
    {
        self.request_inflight = true;
        ReadMessage::ReadInbox { count: 5, offset: 0 }
    }

    /// Issues the next paginated fetch, but only when no request is in
    /// flight and the cursor is on the last row: this single in-flight
    /// rule is what prevents overlapping requests. The offset is the
    /// number of emails already fetched, so pages continue where the list
    /// ends.
    pub fn load_more(&mut self, count: u32) -> (cmd: Option<ReadMessage>)
        requires
            old(self).inbox_state.inbox@.len() <= u32::MAX,
        ensures
            spec_may_load_more(*old(self)) ==> {
                &&& cmd == Some(
                    ReadMessage::ReadInbox {
                        count,
                        offset: old(self).inbox_state.inbox@.len() as u32,
                    },
                )
                &&& final(self).request_inflight
                &&& final(self).inbox_state == old(self).inbox_state
                &&& final(self).popup == old(self).popup
            },
            !spec_may_load_more(*old(self)) ==> cmd is None && *final(self) == *old(self),
    {
        if self.request_inflight {
            return None;
        }
        if let Some(selected) = self.selected_row() {
            if self.inbox_state.inbox.len() > 0 && selected == self.inbox_state.inbox.len() - 1 {
                let offset = self.inbox_state.inbox.len() as u32;
                self.request_inflight = true;
                return Some(ReadMessage::ReadInbox { count, offset });
            }
        }
        None
    }

    /// The selected row, when there is one.
    fn selected_row(&self) -> (r: Option<usize>)
        ensures
            r == self.inbox_state.selected,
    {
        self.inbox_state.selected
    }

    /// Applies one IMAP worker response: a fetched batch is appended to the
    /// inbox — never deduplicated — and clears the in-flight flag; an error
    /// is fatal for the read backend and is handed back unchanged.
    pub fn handle_imap_response(&mut self, response: Response) -> (fatal: Option<ImapError>)
        ensures
            response matches Response::Inbox(emails) ==> {
                &&& fatal is None
                &&& final(self).inbox_state.inbox@ == old(self).inbox_state.inbox@ + emails@
                &&& !final(self).request_inflight
                &&& final(self).inbox_state.selected == old(self).inbox_state.selected
                &&& final(self).popup == old(self).popup
            },
            response matches Response::Error(e) ==> fatal == Some(e) && *final(self) == *old(
                self,
            ),
    {
        match response {
            Response::Inbox(mut emails) => {
                self.inbox_state.inbox.append(&mut emails);
                self.request_inflight = false;
                None
            }
            Response::Error(e) => Some(e),
        }
    }
}

/// What the front end does with one SMTP worker response.
#[derive(Debug, Clone)]
pub enum SmtpDisposition {
    /// Keep going: a success, or a transient failure that is only logged.
    Proceed,
    /// A fatal send failure: the session ends with this error.
    Fatal(SendError),
}

/// Decides what one SMTP worker response means for the session: success
/// and transient failures let the session proceed; any other failure is
/// session-fatal.
pub fn on_smtp_response(response: crate::smtp::Response) -> (r: SmtpDisposition)
    ensures
        response is SendMailSuccess ==> r is Proceed,
        response matches crate::smtp::Response::Error(e) && spec_is_transient(e) ==> r
            is Proceed,
        response matches crate::smtp::Response::Error(e) ==> (!spec_is_transient(e) ==> (r
            matches SmtpDisposition::Fatal(got) && got == e)),
{
    match response {
        crate::smtp::Response::SendMailSuccess => SmtpDisposition::Proceed,
        crate::smtp::Response::Error(e) => {
            if e.is_transient() {
                SmtpDisposition::Proceed
            } else {
                SmtpDisposition::Fatal(e)
            }
        }
    }
}

/// `s` with every carriage return removed.
pub open spec fn strip_cr(s: Seq<char>) -> Seq<char>
    decreases s.len(),
{
    if s.len() == 0 {
        Seq::empty()
    } else if s.last() == '\r' {
        strip_cr(s.drop_last())
    } else {
        strip_cr(s.drop_last()).push(s.last())
    }
}

/// The displayed lines of a message body: carriage returns dropped, then
/// split at every newline.
pub open spec fn spec_body_lines(body: Seq<char>) -> Seq<Seq<char>> {
    split_at_char(strip_cr(body), '\n')
}

/// Removes every carriage return from `s`.
pub fn remove_cr(s: &str) -> (r: String)
    ensures
        r@ == strip_cr(s@),
{
    let n = s.unicode_len();
    let mut out = String::new();
    let mut start: usize = 0;
    proof {
        assert(s@.take(0) =~= Seq::<char>::empty());
        assert(out@ + s@.subrange(0, 0) =~= strip_cr(s@.take(0)));
    }
    for i in 0..n
        invariant
            n == s@.len(),
            start <= i <= n,
            out@ + s@.subrange(start as int, i as int) == strip_cr(s@.take(i as int)),
    {
        proof {
            assert(s@.take(i + 1).drop_last() =~= s@.take(i as int));
            assert(s@.take(i + 1).last() == s@[i as int]);
        }
        if s.get_char(i) == '\r' {
            out.append(s.substring_char(start, i));
            start = i + 1;
            proof {
                assert(s@.subrange(start as int, i + 1) =~= Seq::<char>::empty());
                assert(out@ + s@.subrange(start as int, i + 1) =~= strip_cr(s@.take(i + 1)));
            }
        } else {
            proof {
                assert(out@ + s@.subrange(start as int, i + 1) =~= (out@ + s@.subrange(
                    start as int,
                    i as int,
                )).push(s@[i as int]));
            }
        }
    }
    out.append(s.substring_char(start, n));
    proof {
        assert(s@.take(n as int) =~= s@);
    }
    out
}

/// Splits a message body into its displayed lines.
pub fn split_body_lines(body: &str) -> (r: Vec<String>)
    ensures
        string_views(r@) == spec_body_lines(body@),
{
    let stripped = remove_cr(body);
    split_on_char(stripped.as_str(), '\n')
}

/// The read-only view of one opened email.
#[derive(Debug, Clone)]
pub struct ReadingState {
    pub from: String,
    pub cc: Vec<String>,
    pub bcc: Vec<String>,
    pub subject: String,
    /// The body, split into displayed lines.
    pub body_lines: Vec<String>,
}

impl ReadingState {
    /// Opens one email for reading: the body is split into lines, the
    /// other fields are shown as they are.
    pub fn new(from: String, cc: Vec<String>, bcc: Vec<String>, subject: String, body: String)
        -> (r: ReadingState)
        ensures
            r.from == from,
            r.cc == cc,
            r.bcc == bcc,
            r.subject == subject,
            string_views(r.body_lines@) == spec_body_lines(body@),
    {
        let body_lines = split_body_lines(body.as_str());
        ReadingState { from, cc, bcc, subject, body_lines }
    }

    /// Opens a fetched email for reading.
    pub fn from_email(email: ParsedEmail) -> (r: ReadingState)
        ensures
            r.from == email.from,
            r.cc == email.cc,
            r.bcc == email.bcc,
            r.subject == email.subject,
            string_views(r.body_lines@) == spec_body_lines(email.body@),
    {
        Self::new(email.from, email.cc, email.bcc, email.subject, email.body)
    }
}

/// The compose form's text fields, as typed.
#[derive(Debug, Clone, Default)]
pub struct ComposeState {
    pub to: String,
    pub cc: String,
    pub bcc: String,
    pub subject: String,
    pub body: String,
}

/// What the To field denotes: no recipient when empty, the validated
/// address when it parses, and nothing otherwise.
pub open spec fn spec_to_field(to: Seq<char>) -> Option<Option<Seq<char>>> {
    if to.len() == 0 {
        Some(None)
    } else if addr_ok(to) {
        Some(Some(to))
    } else {
        None
    }
}

/// What the whole compose form denotes: the To field validated as one
/// address, the Cc and Bcc fields as comma-separated lists, and empty
/// subject and body treated as absent — or nothing, when any address field
/// fails to validate.
pub open spec fn spec_compose_message(
    to: Seq<char>,
    cc: Seq<char>,
    bcc: Seq<char>,
    subject: Seq<char>,
    body: Seq<char>,
) -> Option<PartialMessageView> {
    match spec_to_field(to) {
        None => None,
        Some(to_v) => match spec_parse_addresses(cc) {
            None => None,
            Some(cc_v) => match spec_parse_addresses(bcc) {
                None => None,
                Some(bcc_v) => Some(
                    PartialMessageView {
                        to: to_v,
                        cc: cc_v,
                        bcc: bcc_v,
                        subject: if subject.len() == 0 {
                            None
                        } else {
                            Some(subject)
                        },
                        body: if body.len() == 0 {
                            None
                        } else {
                            Some(body)
                        },
                    },
                ),
            },
        },
    }
}

impl ComposeState {
    /// Validates the form into a sendable message: one To address,
    /// comma-separated Cc and Bcc lists, and empty subject or body left
    /// out. One invalid address anywhere rejects the form.
    pub fn get_partial_message(&self) -> (r: Result<PartialMessage, AddressError>)
        ensures
            r matches Ok(pm) ==> spec_compose_message(
                self.to@,
                self.cc@,
                self.bcc@,
                self.subject@,
                self.body@,
            ) == Some(pm@),
            r is Err ==> spec_compose_message(
                self.to@,
                self.cc@,
                self.bcc@,
                self.subject@,
                self.body@,
            ) is None && r == Err::<PartialMessage, AddressError>(AddressError::Invalid),
    {
        let to = if self.to.as_str().is_empty() {
            None
        } else {
            match parse_address(self.to.as_str()) {
                Some(a) => Some(a),
                None => {
                    return Err(AddressError::Invalid);
                }
            }
        };
        let cc = match parse_addresses(self.cc.as_str()) {
            Ok(v) => v,
            Err(_) => {
                return Err(AddressError::Invalid);
            }
        };
        let bcc = match parse_addresses(self.bcc.as_str()) {
            Ok(v) => v,
            Err(_) => {
                return Err(AddressError::Invalid);
            }
        };
        let subject = if self.subject.as_str().is_empty() {
            None
        } else {
            Some(self.subject.clone())
        };
        let body = if self.body.as_str().is_empty() {
            None
        } else {
            Some(self.body.clone())
        };
        let pm = PartialMessage { to, cc, bcc, subject, body };
        proof {
            assert(spec_compose_message(
                self.to@,
                self.cc@,
                self.bcc@,
                self.subject@,
                self.body@,
            ) matches Some(v) && v =~= pm@);
        }
        Ok(pm)
    }
}

} // verus!
