use vstd::prelude::*;

use crate::feed::{Feed, Summary};
use crate::text::{ends_with_str, has_suffix};

verus! {

/// The bytes of `https`.
pub open spec fn https_bytes() -> Seq<u8> {
    seq![0x68u8, 0x74u8, 0x74u8, 0x70u8, 0x73u8]
}

/// Whether a request must be sent to `https`: it came through a proxy that
/// names its scheme (`X-Forwarded-Proto`), and that scheme is not `https`.
pub fn should_redirect(forwarded_proto: Option<&[u8]>) -> (r: bool)
    ensures
        r == (forwarded_proto matches Some(p) && p@ != https_bytes()),
{
    match forwarded_proto {
        None => false,
        Some(p) => {
            let is_https = p.len() == 5 && p[0] == 0x68u8 && p[1] == 0x74u8 && p[2] == 0x74u8
                && p[3] == 0x70u8 && p[4] == 0x73u8;
            if is_https {
                assert(p@ =~= https_bytes());
            }
            !is_https
        },
    }
}

/// The content type to send in its place: `None` when it already ends with
/// `charset=utf-8`, else the same type with `; charset=utf-8` added.
pub fn utf8_content_type(content_type: &str) -> (r: Option<String>)
    ensures
        has_suffix(content_type@, "charset=utf-8"@) ==> r is None,
        !has_suffix(content_type@, "charset=utf-8"@) ==> (r matches Some(s) && s@
            == content_type@ + "; charset=utf-8"@),
{
    if ends_with_str(content_type, "charset=utf-8") {
        None
    } else {
        Some(content_type.to_owned().concat("; charset=utf-8"))
    }
}

/// The first millisecond of year 0, UTC.
pub const RFC2822_FIRST_MILLIS: i64 = -62167219200000;

/// The first millisecond of year 10000, UTC: RFC 2822 writes years 0 to 9999 only.
pub const RFC2822_END_MILLIS: i64 = 253402300800000;

/// The RFC 2822 form of a time given in milliseconds since the Unix epoch.
pub uninterp spec fn rfc2822_of(millis: int) -> Seq<char>;

/// Relies on chrono's DateTime::from_timestamp_millis and DateTime::to_rfc2822: the
/// time in RFC 2822 form, in UTC. `to_rfc2822` panics outside the years 0 to 9999,
/// which the `requires` leaves out.
#[verifier::external_body]
fn rfc2822(millis: i64) -> (r: String)
    requires
        RFC2822_FIRST_MILLIS <= millis < RFC2822_END_MILLIS,
    ensures
        r@ == rfc2822_of(millis as int),
{
    chrono::DateTime::from_timestamp_millis(millis).unwrap().to_rfc2822()
}

/// The RFC 2822 form of a time, when it lies in the years that RFC 2822 writes.
pub open spec fn date_of(millis: i64) -> Option<Seq<char>> {
    if RFC2822_FIRST_MILLIS <= millis < RFC2822_END_MILLIS {
        Some(rfc2822_of(millis as int))
    } else {
        None
    }
}

/// The RFC 2822 form of a time, or `None` outside the years 0 to 9999.
pub fn date_text(millis: i64) -> (r: Option<String>)
    ensures
        r is Some <==> date_of(millis) is Some,
        r matches Some(s) ==> s@ == date_of(millis)->0,
{
    if RFC2822_FIRST_MILLIS <= millis && millis < RFC2822_END_MILLIS {
        Some(rfc2822(millis))
    } else {
        None
    }
}

/// An item of the syndication feed, in plain values.
#[derive(Clone, Debug)]
pub struct RssItem {
    pub title: String,
    pub link: String,
    pub author: String,
    /// Publication date, in RFC 2822 form.
    pub pub_date: Option<String>,
    /// Permanent identifier: the same address as `link`.
    pub guid: String,
    pub content: String,
}

impl Feed {
    /// The feed item of the entry on the site of `domain`.
    pub fn into_rss(self, domain: &str) -> (r: RssItem)
        ensures
            r.title == self.title,
            r.link@ == "https://"@ + domain@ + "/feeds/"@ + self.id@,
            r.guid@ == r.link@,
            r.author == self.author,
            r.content == self.content,
            r.pub_date is Some <==> date_of(self.created_at) is Some,
            r.pub_date matches Some(d) ==> d@ == date_of(self.created_at)->0,
    {
        let link = self.link(domain);
        let guid = link.clone();
        let pub_date = date_text(self.created_at);
        RssItem {
            title: self.title,
            link,
            author: self.author,
            pub_date,
            guid,
            content: self.content,
        }
    }

    /// The line of the entry in the listing; its date is empty outside the years
    /// 0 to 9999.
    pub fn summary(&self) -> (r: Summary)
        ensures
            r.title == self.title,
            r.id == self.id,
            date_of(self.created_at) matches Some(d) ==> r.create_at@ == d,
            date_of(self.created_at) is None ==> r.create_at@.len() == 0,
    {
        let create_at = match date_text(self.created_at) {
            Some(d) => d,
            None => String::new(),
        };
        Summary { title: self.title.clone(), create_at, id: self.id.clone() }
    }

    /// The public address of the entry on the site of `domain`.
    pub fn link(&self, domain: &str) -> (r: String)
        ensures
            r@ == "https://"@ + domain@ + "/feeds/"@ + self.id@,
    {
        "https://".to_owned().concat(domain).concat("/feeds/").concat(self.id.as_str())
    }
}

} // verus!
