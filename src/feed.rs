use vstd::prelude::*;
use vstd::slice::slice_to_vec;
use vstd::utf8::{decode_utf8, valid_utf8};

use crate::address::{Header, address_flat, addresses, string_views};
use crate::mail::Mail;
use crate::text::{contains_str, has_substring};

verus! {

/// The number of characters of an entry id.
pub const ID_LEN: usize = 10;

/// One accepted message, as it is stored and republished.
#[derive(Clone, Debug)]
pub struct Feed {
    /// Public lookup key: `ID_LEN` characters of a URL-safe alphabet.
    pub id: String,
    /// Acceptance time, in milliseconds since the Unix epoch (UTC).
    pub created_at: i64,
    pub title: String,
    pub author: String,
    /// The HTML body parts, concatenated.
    pub content: String,
    /// The message as it arrived.
    pub raw: String,
}

/// A lookup key of a stored entry.
#[derive(Clone, Debug)]
pub struct Index {
    pub id: String,
}

/// One line of the listing of stored entries.
#[derive(Clone, Debug)]
pub struct Summary {
    pub title: String,
    pub create_at: String,
    pub id: String,
}

/// The listing of stored entries.
#[derive(Clone, Debug)]
pub struct List {
    pub items: Vec<Summary>,
}

impl PartialEq for Feed {
    fn eq(&self, other: &Feed) -> (r: bool) {
        self.id == other.id && self.created_at == other.created_at && self.title == other.title
            && self.author == other.author && self.content == other.content && self.raw
            == other.raw
    }
}

impl vstd::std_specs::cmp::PartialEqSpecImpl for Feed {
    open spec fn obeys_eq_spec() -> bool {
        true
    }

    open spec fn eq_spec(&self, other: &Feed) -> bool {
        &&& self.id@ == other.id@
        &&& self.created_at == other.created_at
        &&& self.title@ == other.title@
        &&& self.author@ == other.author@
        &&& self.content@ == other.content@
        &&& self.raw@ == other.raw@
    }
}

/// Why a decoded message does not become an entry.
#[derive(Clone, Copy, Debug, PartialEq, Eq, Structural)]
pub enum BuildError {
    /// No recipient belongs to the accepted domain.
    Rejected,
    /// The message or its HTML content is not valid UTF-8 text.
    Malformed,
}

/// A character of the alphabet of entry ids: `A-Z`, `a-z`, `0-9`, `_` and `-`.
pub open spec fn is_id_char(c: char) -> bool {
    ('a' <= c && c <= 'z') || ('A' <= c && c <= 'Z') || ('0' <= c && c <= '9') || c == '_' || c
        == '-'
}

/// The shape of an entry id.
pub open spec fn is_entry_id(s: Seq<char>) -> bool {
    s.len() == ID_LEN && forall|i: int| 0 <= i < s.len() ==> is_id_char(#[trigger] s[i])
}

/// Relies on nanoid::format, with nanoid's default random source and its URL-safe
/// alphabet (`nanoid::alphabet::SAFE`): it returns exactly as many characters as asked
/// for, each drawn from that alphabet.
#[verifier::external_body]
fn new_id() -> (r: String)
    ensures
        is_entry_id(r@),
{
    nanoid::format(nanoid::rngs::default, &nanoid::alphabet::SAFE, ID_LEN)
}

/// Relies on chrono's Utc::now: the current time, in milliseconds since the Unix epoch.
#[verifier::external_body]
fn now_millis() -> i64 {
    chrono::Utc::now().timestamp_millis()
}

/// Relies on String::from_utf8: it succeeds exactly on valid UTF-8, with the text
/// that the bytes encode.
#[verifier::external_body]
fn text_from_utf8(bytes: Vec<u8>) -> (r: Option<String>)
    ensures
        r is Some <==> valid_utf8(bytes@),
        r matches Some(s) ==> s@ == decode_utf8(bytes@),
{
    String::from_utf8(bytes).ok()
}

/// Some recipient address contains the accepted domain.
pub open spec fn accepts(recipients: Seq<Seq<char>>, domain: Seq<char>) -> bool {
    exists|i: int| 0 <= i < recipients.len() && has_substring(#[trigger] recipients[i], domain)
}

/// Whether some recipient address contains the accepted domain.
pub fn accepts_domain(recipients: &Vec<String>, domain: &str) -> (r: bool)
    ensures
        r == accepts(string_views(recipients@), domain@),
{
    let mut i: usize = 0;
    while i < recipients.len()
        invariant
            i <= recipients@.len(),
            forall|j: int| 0 <= j < i ==> !has_substring(#[trigger] recipients@[j]@, domain@),
        decreases recipients@.len() - i,
    {
        if contains_str(recipients[i].as_str(), domain) {
            assert(string_views(recipients@)[i as int] == recipients@[i as int]@);
            return true;
        }
        i = i + 1;
    }
    assert forall|j: int| 0 <= j < recipients@.len() implies !has_substring(
        #[trigger] string_views(recipients@)[j],
        domain@,
    ) by {
        assert(string_views(recipients@)[j] == recipients@[j]@);
    }
    false
}

/// An optional header part that is there and not empty.
pub open spec fn present(o: Option<String>) -> bool {
    o matches Some(s) && s@.len() > 0
}

/// The author string of a sender: `address (name)` when both are there, else
/// whichever is there, else `Unknown`.
pub open spec fn author_spec(from: Header) -> Seq<char> {
    match from {
        Header::Address(a) => {
            if present(a.address) && present(a.name) {
                a.address->0@ + " ("@ + a.name->0@ + ")"@
            } else if present(a.name) {
                a.name->0@
            } else if present(a.address) {
                a.address->0@
            } else {
                "Unknown"@
            }
        },
        _ => "Unknown"@,
    }
}

/// The author of an entry is never empty, whatever the sender header holds.
pub proof fn lemma_author_never_empty(from: Header)
    ensures
        author_spec(from).len() > 0,
{
    reveal_strlit("Unknown");
    reveal_strlit(" (");
    reveal_strlit(")");
}

/// The title of an entry: its subject when that is there and not empty, else
/// its author.
pub open spec fn title_spec(subject: Option<String>, author: Seq<char>) -> Seq<char> {
    if present(subject) {
        subject->0@
    } else {
        author
    }
}

/// The bytes of a list of body parts, one after the other.
pub open spec fn concat_parts(parts: Seq<Vec<u8>>) -> Seq<u8>
    decreases parts.len(),
{
    if parts.len() == 0 {
        seq![]
    } else {
        concat_parts(parts.drop_last()) + parts.last()@
    }
}

fn is_present(o: &Option<String>) -> (r: bool)
    ensures
        r == present(*o),
{
    match o {
        Some(s) => !s.as_str().is_empty(),
        None => false,
    }
}

/// The author string of a sender header.
pub fn author_of(from: &Header) -> (r: String)
    ensures
        r@ == author_spec(*from),
        r@.len() > 0,
{
    proof {
        reveal_strlit("Unknown");
        reveal_strlit(" (");
        reveal_strlit(")");
    }
    match from {
        Header::Address(a) => {
            let has_address = is_present(&a.address);
            let has_name = is_present(&a.name);
            if has_address && has_name {
                let address = a.address.as_ref().unwrap();
                let name = a.name.as_ref().unwrap();
                address.clone().concat(" (").concat(name.as_str()).concat(")")
            } else if has_name {
                a.name.as_ref().unwrap().clone()
            } else if has_address {
                a.address.as_ref().unwrap().clone()
            } else {
                "Unknown".to_owned()
            }
        },
        _ => "Unknown".to_owned(),
    }
}

/// The title of an entry, from its subject and its author.
pub fn title_of(subject: &Option<String>, author: &String) -> (r: String)
    ensures
        r@ == title_spec(*subject, author@),
{
    if is_present(subject) {
        subject.as_ref().unwrap().clone()
    } else {
        author.clone()
    }
}

/// The bytes of all body parts, in order.
pub fn concat_bodies(parts: &Vec<Vec<u8>>) -> (r: Vec<u8>)
    ensures
        r@ == concat_parts(parts@),
{
    let mut out: Vec<u8> = Vec::new();
    let mut i: usize = 0;
    while i < parts.len()
        invariant
            i <= parts@.len(),
            out@ == concat_parts(parts@.take(i as int)),
        decreases parts@.len() - i,
    {
        let mut part = parts[i].clone();
        out.append(&mut part);
        assert(parts@.take(i + 1).drop_last() =~= parts@.take(i as int));
        i = i + 1;
    }
    assert(parts@.take(i as int) =~= parts@);
    out
}

/// A decoded message becomes an entry: a recipient address is in the domain, and the
/// message and its HTML content are valid UTF-8.
pub open spec fn builds(raw: Seq<u8>, mail: Mail, domain: Seq<char>) -> bool {
    &&& accepts(address_flat(mail.to), domain)
    &&& valid_utf8(raw)
    &&& valid_utf8(concat_parts(mail.html_bodies@))
}

/// The fields of `f` other than its id and time are those that the message gives.
pub open spec fn entry_of(f: Feed, raw: Seq<u8>, mail: Mail) -> bool {
    &&& f.raw@ == decode_utf8(raw)
    &&& f.content@ == decode_utf8(concat_parts(mail.html_bodies@))
    &&& f.author@ == author_spec(mail.from)
    &&& f.title@ == title_spec(mail.subject, author_spec(mail.from))
}

/// The outcome of building an entry that does not depend on its id and time: the
/// error when it fails, and the fields that the message gives when it succeeds.
pub open spec fn build_outcome(
    r: Result<Feed, BuildError>,
    raw: Seq<u8>,
    mail: Mail,
    domain: Seq<char>,
) -> bool {
    &&& !accepts(address_flat(mail.to), domain) ==> r == Err::<Feed, BuildError>(
        BuildError::Rejected,
    )
    &&& accepts(address_flat(mail.to), domain) && !builds(raw, mail, domain) ==> r == Err::<
        Feed,
        BuildError,
    >(BuildError::Malformed)
    &&& builds(raw, mail, domain) ==> (r matches Ok(f) && entry_of(f, raw, mail))
}

/// The recipient gate: a build ends in `Rejected` exactly when no recipient
/// address contains the domain; with one that does, it goes on.
pub proof fn lemma_recipient_gate(
    r: Result<Feed, BuildError>,
    raw: Seq<u8>,
    mail: Mail,
    domain: Seq<char>,
)
    requires
        build_outcome(r, raw, mail, domain),
    ensures
        r == Err::<Feed, BuildError>(BuildError::Rejected) <==> !accepts(address_flat(mail.to), domain),
{
}

impl Feed {
    /// Builds the entry for a decoded message, with the given id and acceptance time.
    pub fn from_parts(raw: &[u8], mail: &Mail, domain: &str, id: String, created_at: i64) -> (r:
        Result<Feed, BuildError>)
        ensures
            build_outcome(r, raw@, *mail, domain@),
            r matches Ok(f) ==> f.id == id && f.created_at == created_at && f.author@.len() > 0,
    {
        let recipients = addresses(&mail.to);
        if !accepts_domain(&recipients, domain) {
            return Err(BuildError::Rejected);
        }
        let raw_text = match text_from_utf8(slice_to_vec(raw)) {
            Some(t) => t,
            None => {
                return Err(BuildError::Malformed);
            },
        };
        let content = match text_from_utf8(concat_bodies(&mail.html_bodies)) {
            Some(t) => t,
            None => {
                return Err(BuildError::Malformed);
            },
        };
        let author = author_of(&mail.from);
        let title = title_of(&mail.subject, &author);
        Ok(Feed { id, created_at, title, author, content, raw: raw_text })
    }

    /// Builds the entry for a decoded message, with a fresh random id and the
    /// current time.
    pub fn from_mail(raw: &[u8], mail: &Mail, domain: &str) -> (r: Result<Feed, BuildError>)
        ensures
            build_outcome(r, raw@, *mail, domain@),
            r matches Ok(f) ==> is_entry_id(f.id@) && f.author@.len() > 0,
    {
        let id = new_id();
        let created_at = now_millis();
        Feed::from_parts(raw, mail, domain, id, created_at)
    }
}

} // verus!
