use vstd::prelude::*;

use crate::address::{Mailbox, MailboxGroup, Header};

verus! {

#[verifier::external_type_specification]
#[verifier::external_body]
pub struct ExHeaderValue<'x>(mail_parser::HeaderValue<'x>);

#[verifier::external_type_specification]
#[verifier::external_body]
pub struct ExAddr<'x>(mail_parser::Addr<'x>);

#[verifier::external_type_specification]
#[verifier::external_body]
pub struct ExGroup<'x>(mail_parser::Group<'x>);

/// Copies one mailbox of mail_parser (`Addr`: `name`, `address`) into the library's shape.
#[verifier::external_body]
fn addr_of(a: &mail_parser::Addr) -> Mailbox {
    Mailbox { name: a.name.as_deref().map(String::from), address: a.address.as_deref().map(String::from) }
}

/// Copies one group of mail_parser (`Group`: `name`, `addresses`) into the library's shape.
#[verifier::external_body]
fn group_of(g: &mail_parser::Group) -> MailboxGroup {
    MailboxGroup { name: g.name.as_deref().map(String::from), addresses: g.addresses.iter().map(addr_of).collect() }
}

/// Copies a header value of mail_parser into the library's shape, variant for
/// variant; the shapes that the logic does not read become `Empty`.
#[verifier::external_body]
fn header_of(h: &mail_parser::HeaderValue) -> Header {
    match h {
        mail_parser::HeaderValue::Address(a) => Header::Address(addr_of(a)),
        mail_parser::HeaderValue::AddressList(l) => Header::AddressList(l.iter().map(addr_of).collect()),
        mail_parser::HeaderValue::Group(g) => Header::Group(group_of(g)),
        mail_parser::HeaderValue::GroupList(l) => Header::GroupList(l.iter().map(group_of).collect()),
        mail_parser::HeaderValue::Text(t) => Header::Text(t.to_string()),
        mail_parser::HeaderValue::TextList(l) => Header::TextList(l.iter().map(|t| t.to_string()).collect()),
        _ => Header::Empty,
    }
}

/// A decoded message, as far as the entry builder reads it.
#[derive(Clone, Debug)]
pub struct Mail {
    /// The recipients (the To header).
    pub to: Header,
    /// The sender (the From header).
    pub from: Header,
    pub subject: Option<String>,
    /// The contents of the HTML body parts, in order.
    pub html_bodies: Vec<Vec<u8>>,
}

/// What the decoder makes of raw message bytes: `None` when they do not form a
/// message.
pub uninterp spec fn decoded(raw: Seq<u8>) -> Option<Mail>;

/// Relies on mail_parser's Message::parse (`None` when the bytes do not form a
/// message), and on its accessors `get_to`, `get_from`, `get_subject`,
/// `get_html_bodies` and `BodyPart::get_contents`, whose values are copied as they
/// are; the result depends on the bytes alone.
#[verifier::external_body]
pub fn decode(raw: &[u8]) -> (r: Option<Mail>)
    ensures
        r == decoded(raw@),
{
    mail_parser::Message::parse(raw).map(|m| Mail {
        to: header_of(m.get_to()),
        from: header_of(m.get_from()),
        subject: m.get_subject().map(String::from),
        html_bodies: m.get_html_bodies().map(|p| p.get_contents().to_vec()).collect(),
    })
}

} // verus!
