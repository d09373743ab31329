use vstd::prelude::*;
use vstd::slice::slice_to_vec;

use crate::feed::{build_outcome, is_entry_id, BuildError, Feed};
use crate::mail::{decode, decoded};
use crate::text::{contains_str, has_substring};

verus! {

/// The reply that the session's own policy gives to an SMTP command.
#[derive(Clone, Copy, Debug, PartialEq, Eq, Structural)]
pub enum Reply {
    /// `250 OK`.
    Accepted,
    /// `421 Service not available, closing connection`.
    NoService,
}

/// Why a received message did not become an entry.
#[derive(Clone, Copy, Debug, PartialEq, Eq, Structural)]
pub enum IngestError {
    /// The bytes did not decode as a message.
    ParseFailure,
    /// The decoded message was refused or malformed.
    Build(BuildError),
}

/// The outcome of a received message: a parse failure when its bytes do not
/// decode, else what the entry builder gives for the decoded message, its error
/// passed on unchanged.
pub open spec fn ingest_outcome(
    r: Result<Feed, IngestError>,
    raw: Seq<u8>,
    domain: Seq<char>,
) -> bool {
    match decoded(raw) {
        None => r == Err::<Feed, IngestError>(IngestError::ParseFailure),
        Some(m) => match r {
            Ok(f) => build_outcome(Ok::<Feed, BuildError>(f), raw, m, domain) && is_entry_id(
                f.id@,
            ),
            Err(IngestError::Build(e)) => build_outcome(Err::<Feed, BuildError>(e), raw, m, domain),
            Err(IngestError::ParseFailure) => false,
        },
    }
}

/// The state of one SMTP connection that the ingestion logic keeps: the
/// accepted domain, and the body of the message being received, if any.
pub struct SmtpConnection {
    data: Option<Vec<u8>>,
    domain: String,
}

impl SmtpConnection {
    /// The body received so far, while a message is being received.
    pub closed spec fn buffer(&self) -> Option<Seq<u8>> {
        match self.data {
            Some(v) => Some(v@),
            None => None,
        }
    }

    /// The domain that recipients must belong to.
    pub closed spec fn domain(&self) -> Seq<char> {
        self.domain@
    }

    /// A connection that accepts mail for `domain`, with no message under way.
    pub fn new(domain: String) -> (r: Self)
        ensures
            r.buffer() is None,
            r.domain() == domain@,
    {
        SmtpConnection { data: None, domain }
    }

    /// Whether a message body is being received.
    pub fn is_receiving(&self) -> (r: bool)
        ensures
            r == self.buffer() is Some,
    {
        self.data.is_some()
    }

    /// The reply to a declared recipient: accepted only when the address
    /// contains the domain.
    pub fn rcpt(&self, to: &str) -> (r: Reply)
        ensures
            r == (if has_substring(to@, self.domain()) {
                Reply::Accepted
            } else {
                Reply::NoService
            }),
    {
        if contains_str(to, self.domain.as_str()) {
            Reply::Accepted
        } else {
            Reply::NoService
        }
    }

    /// The start of a message body: the buffer starts empty.
    pub fn data_start(&mut self) -> (r: Reply)
        ensures
            r == Reply::Accepted,
            final(self).buffer() == Some(Seq::<u8>::empty()),
            final(self).domain() == old(self).domain(),
    {
        self.data = Some(Vec::with_capacity(8 * 1024));
        Reply::Accepted
    }

    /// A chunk of the message body, appended to the buffer.
    pub fn data(&mut self, buf: &[u8])
        requires
            old(self).buffer() is Some,
        ensures
            final(self).buffer() == Some(old(self).buffer()->0 + buf@),
            final(self).domain() == old(self).domain(),
    {
        let mut body = self.data.take().unwrap();
        let mut more = slice_to_vec(buf);
        body.append(&mut more);
        self.data = Some(body);
    }

    /// The end of the message body: the buffer is taken, decoded and built
    /// into an entry.
    pub fn end(&mut self) -> (r: Result<Feed, IngestError>)
        requires
            old(self).buffer() is Some,
        ensures
            final(self).buffer() is None,
            final(self).domain() == old(self).domain(),
            ingest_outcome(r, old(self).buffer()->0, old(self).domain()),
    {
        let data = self.data.take().unwrap();
        match decode(data.as_slice()) {
            Some(mail) => {
                match Feed::from_mail(data.as_slice(), &mail, self.domain.as_str()) {
                    Ok(f) => Ok(f),
                    Err(e) => Err(IngestError::Build(e)),
                }
            },
            None => Err(IngestError::ParseFailure),
        }
    }

    /// The end of the message body: the transfer is always acknowledged, and the
    /// entry, or why there is none, comes beside the reply.
    pub fn data_end(&mut self) -> (r: (Reply, Result<Feed, IngestError>))
        requires
            old(self).buffer() is Some,
        ensures
            r.0 == Reply::Accepted,
            final(self).buffer() is None,
            final(self).domain() == old(self).domain(),
            ingest_outcome(r.1, old(self).buffer()->0, old(self).domain()),
    {
        let outcome = self.end();
        (Reply::Accepted, outcome)
    }
}

} // verus!
