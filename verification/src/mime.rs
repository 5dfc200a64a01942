//! MIME parsing, as the library sees it: raw message bytes go to the
//! message parser, and what comes back is reduced to plain values — address
//! entries, the subject, the header date and the plain-text body parts.
//! Everything downstream of the parser (fallback formatting, date
//! resolution, body concatenation) is verified against these values.

use vstd::prelude::*;

use crate::addr::string_views;

verus! {

/// One entry of a parsed address header: an optional display name and an
/// optional address.
#[derive(Debug, Clone)]
pub struct AddressField {
    pub name: Option<String>,
    pub address: Option<String>,
}

/// The mathematical value of an `AddressField`.
pub ghost struct AddressFieldView {
    pub name: Option<Seq<char>>,
    pub address: Option<Seq<char>>,
}

impl View for AddressField {
    type V = AddressFieldView;

    open spec fn view(&self) -> AddressFieldView {
        AddressFieldView {
            name: match self.name {
                Some(ref n) => Some(n@),
                None => None,
            },
            address: match self.address {
                Some(ref a) => Some(a@),
                None => None,
            },
        }
    }
}

/// The views of a list of address entries.
pub open spec fn addr_field_views(v: Seq<AddressField>) -> Seq<AddressFieldView> {
    v.map_values(|a: AddressField| a@)
}

/// The view of an optional string.
pub open spec fn opt_str_view(o: Option<String>) -> Option<Seq<char>> {
    match o {
        Some(s) => Some(s@),
        None => None,
    }
}

/// Everything the library reads out of one parsed MIME message.
#[derive(Debug, Clone)]
pub struct MimeFields {
    pub from: Vec<AddressField>,
    pub cc: Vec<AddressField>,
    pub bcc: Vec<AddressField>,
    pub subject: Option<String>,
    /// The header date as Unix seconds, when a Date header was present.
    pub date_seconds: Option<i64>,
    /// The plain-text body parts, in order.
    pub text_bodies: Vec<String>,
}

/// The mathematical value of a `MimeFields`.
pub ghost struct MimeFieldsView {
    pub from: Seq<AddressFieldView>,
    pub cc: Seq<AddressFieldView>,
    pub bcc: Seq<AddressFieldView>,
    pub subject: Option<Seq<char>>,
    pub date_seconds: Option<i64>,
    pub text_bodies: Seq<Seq<char>>,
}

impl View for MimeFields {
    type V = MimeFieldsView;

    open spec fn view(&self) -> MimeFieldsView {
        MimeFieldsView {
            from: addr_field_views(self.from@),
            cc: addr_field_views(self.cc@),
            bcc: addr_field_views(self.bcc@),
            subject: opt_str_view(self.subject),
            date_seconds: self.date_seconds,
            text_bodies: string_views(self.text_bodies@),
        }
    }
}

/// What the message parser makes of `bytes`: `None` when it finds no
/// parsable message, and otherwise the extracted fields. The result is a
/// function of the bytes alone.
pub uninterp spec fn mime_of(bytes: Seq<u8>) -> Option<MimeFieldsView>;

/// Relies on `mail_parser::MessageParser::parse` and the `Message`
/// accessors `from`, `cc` and `bcc`, with `Address::into_list` flattening
/// address groups: returns the three address headers of the message that
/// `bytes` parses to, entry by entry, and `None` exactly when no message
/// parses.
#[verifier::external_body]
fn parse_mime_addresses(bytes: &[u8]) -> (r: Option<
    (Vec<AddressField>, Vec<AddressField>, Vec<AddressField>),
>)
    ensures
        r is Some <==> mime_of(bytes@) is Some,
        r matches Some(t) ==> {
            &&& addr_field_views(t.0@) == mime_of(bytes@)->0.from
            &&& addr_field_views(t.1@) == mime_of(bytes@)->0.cc
            &&& addr_field_views(t.2@) == mime_of(bytes@)->0.bcc
        },
{
    let m = mail_parser::MessageParser::new().parse(bytes)?;
    let conv = |h: Option<&mail_parser::Address>| match h {
        Some(a) => a.clone().into_list().into_iter().map(|x| AddressField {
            name: x.name.as_ref().map(|c| c.to_string()),
            address: x.address.as_ref().map(|c| c.to_string()),
        }).collect(),
        None => Vec::new(),
    };
    Some((conv(m.from()), conv(m.cc()), conv(m.bcc())))
}

/// Relies on `mail_parser::MessageParser::parse` and the `Message`
/// accessors `subject`, `date` (with `DateTime::to_timestamp`),
/// `text_body_count` and `body_text`: returns the subject, the header date
/// as Unix seconds and the plain-text body parts of the message that
/// `bytes` parses to, and `None` exactly when no message parses.
#[verifier::external_body]
fn parse_mime_content(bytes: &[u8]) -> (r: Option<(Option<String>, Option<i64>, Vec<String>)>)
    ensures
        r is Some <==> mime_of(bytes@) is Some,
        r matches Some(t) ==> {
            &&& opt_str_view(t.0) == mime_of(bytes@)->0.subject
            &&& t.1 == mime_of(bytes@)->0.date_seconds
            &&& string_views(t.2@) == mime_of(bytes@)->0.text_bodies
        },
{
    let m = mail_parser::MessageParser::new().parse(bytes)?;
    Some((
        m.subject().map(|s| s.to_string()),
        m.date().map(|d| d.to_timestamp()),
        (0..m.text_body_count()).map(|i| m.body_text(i).unwrap_or_default().to_string()).collect(),
    ))
}

/// Parses one raw message: `None` when the parser finds no message in
/// `bytes`, and otherwise exactly the fields the parser extracted.
pub fn parse_mime(bytes: &[u8]) -> (r: Option<MimeFields>)
    ensures
        r matches Some(f) ==> mime_of(bytes@) == Some(f@),
        r is None ==> mime_of(bytes@) is None,
{
    let addresses = parse_mime_addresses(bytes);
    let content = parse_mime_content(bytes);
    match (addresses, content) {
        (Some((from, cc, bcc)), Some((subject, date_seconds, text_bodies))) => {
            let fields = MimeFields { from, cc, bcc, subject, date_seconds, text_bodies };
            proof {
                assert(mime_of(bytes@)->0 == fields@);
            }
            Some(fields)
        }
        _ => None,
    }
}

} // verus!
