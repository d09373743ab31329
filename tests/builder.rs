use mail_list_rss::address::{addresses, Header, Mailbox, MailboxGroup, ToVec};
use mail_list_rss::feed::{accepts_domain, author_of, concat_bodies, title_of, BuildError, Feed, ID_LEN};
use mail_list_rss::mail::{decode, Mail};
use std::collections::HashSet;

fn mailbox(name: Option<&str>, address: Option<&str>) -> Mailbox {
    Mailbox { name: name.map(String::from), address: address.map(String::from) }
}

fn mail_to(to: Header, from: Header, subject: Option<&str>, bodies: Vec<&str>) -> Mail {
    Mail {
        to,
        from,
        subject: subject.map(String::from),
        html_bodies: bodies.into_iter().map(|b| b.as_bytes().to_vec()).collect(),
    }
}

#[test]
fn jane_doe_message_becomes_entry() {
    let mail = mail_to(
        Header::Address(mailbox(None, Some("list@example.com"))),
        Header::Address(mailbox(Some("Jane Doe"), Some("jane@example.com"))),
        Some("Hi"),
        vec!["<p>hi</p>"],
    );
    let raw = b"raw bytes";
    let feed = Feed::from_parts(raw, &mail, "example.com", "abcdefghij".to_string(), 42).unwrap();
    assert_eq!(feed.author, "jane@example.com (Jane Doe)");
    assert_eq!(feed.title, "Hi");
    assert_eq!(feed.content, "<p>hi</p>");
    assert_eq!(feed.raw, "raw bytes");
    assert_eq!(feed.id, "abcdefghij");
    assert_eq!(feed.created_at, 42);
}

#[test]
fn address_only_sender_is_title_and_author() {
    let mail = mail_to(
        Header::Address(mailbox(None, Some("list@example.com"))),
        Header::Address(mailbox(None, Some("bob@example.com"))),
        None,
        vec![],
    );
    let feed = Feed::from_mail(b"x", &mail, "example.com").unwrap();
    assert_eq!(feed.author, "bob@example.com");
    assert_eq!(feed.title, "bob@example.com");
    assert_eq!(feed.content, "");
}

#[test]
fn recipient_outside_domain_is_rejected() {
    let mail = mail_to(
        Header::Address(mailbox(None, Some("user@other.com"))),
        Header::Address(mailbox(None, Some("bob@example.com"))),
        Some("Hi"),
        vec!["<p>hi</p>"],
    );
    assert_eq!(Feed::from_mail(b"x", &mail, "example.com").err(), Some(BuildError::Rejected));
}

#[test]
fn one_matching_recipient_is_enough() {
    let list = vec![mailbox(None, Some("a@other.com")), mailbox(Some("B"), Some("b@example.com"))];
    let mail = mail_to(Header::AddressList(list), Header::Empty, Some("s"), vec![]);
    assert!(Feed::from_mail(b"x", &mail, "example.com").is_ok());
    let groups = vec![
        MailboxGroup { name: Some("g1".to_string()), addresses: vec![mailbox(None, Some("x@other.org"))] },
        MailboxGroup { name: None, addresses: vec![mailbox(None, None), mailbox(None, Some("y@example.com"))] },
    ];
    let mail = mail_to(Header::GroupList(groups), Header::Empty, Some("s"), vec![]);
    assert!(Feed::from_mail(b"x", &mail, "example.com").is_ok());
}

#[test]
fn empty_recipients_are_rejected() {
    let mail = mail_to(Header::Empty, Header::Empty, Some("s"), vec![]);
    assert_eq!(Feed::from_mail(b"x", &mail, "example.com").err(), Some(BuildError::Rejected));
}

#[test]
fn domain_predicate_on_address_lists() {
    let to = |v: &[&str]| v.iter().map(|s| s.to_string()).collect::<Vec<String>>();
    assert!(accepts_domain(&to(&["user@example.com"]), "example.com"));
    assert!(accepts_domain(&to(&["a@b.org", "x@mail.example.com"]), "example.com"));
    assert!(!accepts_domain(&to(&["user@other.com"]), "example.com"));
    assert!(!accepts_domain(&to(&[]), "example.com"));
    assert!(!accepts_domain(&to(&["example.co"]), "example.com"));
}

#[test]
fn invalid_utf8_is_malformed() {
    let mut mail = mail_to(
        Header::Address(mailbox(None, Some("list@example.com"))),
        Header::Empty,
        Some("s"),
        vec![],
    );
    assert_eq!(Feed::from_mail(&[0xff, 0xfe], &mail, "example.com").err(), Some(BuildError::Malformed));
    mail.html_bodies = vec![vec![0xe2, 0x82], vec![0xac]];
    let feed = Feed::from_mail(b"ok", &mail, "example.com").unwrap();
    assert_eq!(feed.content, "\u{20ac}");
    mail.html_bodies = vec![vec![0xe2, 0x82]];
    assert_eq!(Feed::from_mail(b"ok", &mail, "example.com").err(), Some(BuildError::Malformed));
}

#[test]
fn author_falls_back_to_unknown() {
    assert_eq!(author_of(&Header::Empty), "Unknown");
    assert_eq!(author_of(&Header::Address(mailbox(None, None))), "Unknown");
    assert_eq!(author_of(&Header::Address(mailbox(Some(""), Some("")))), "Unknown");
    assert_eq!(author_of(&Header::Address(mailbox(Some("Ann"), None))), "Ann");
    assert_eq!(author_of(&Header::Address(mailbox(Some(""), Some("a@b")))), "a@b");
    assert_eq!(author_of(&Header::AddressList(vec![mailbox(Some("A"), Some("a@b"))])), "Unknown");
}

#[test]
fn title_uses_subject_or_author() {
    let author = "bob@example.com".to_string();
    assert_eq!(title_of(&Some("Hello".to_string()), &author), "Hello");
    assert_eq!(title_of(&Some(String::new()), &author), "bob@example.com");
    assert_eq!(title_of(&None, &author), "bob@example.com");
}

#[test]
fn bodies_are_joined_in_order() {
    let parts = vec![b"<p>a</p>".to_vec(), Vec::new(), b"<p>b</p>".to_vec()];
    assert_eq!(concat_bodies(&parts), b"<p>a</p><p>b</p>".to_vec());
}

#[test]
fn header_shapes_flatten_to_addresses() {
    let groups = vec![
        MailboxGroup { name: Some("g".to_string()), addresses: vec![mailbox(Some("A"), Some("a@x")), mailbox(Some("N"), None)] },
        MailboxGroup { name: None, addresses: vec![mailbox(None, Some("b@y"))] },
    ];
    assert_eq!(Header::GroupList(groups).to_vec(), vec!["a@x".to_string(), "b@y".to_string()]);
    assert_eq!(Header::Address(mailbox(Some("A"), None)).to_vec(), Vec::<String>::new());
    assert_eq!(Header::Text("t".to_string()).to_vec(), vec!["t".to_string()]);
    assert_eq!(Header::TextList(vec!["u".to_string(), "v".to_string()]).to_vec(), vec!["u".to_string(), "v".to_string()]);
    assert_eq!(Header::Empty.to_vec(), Vec::<String>::new());
}

#[test]
fn generated_ids_do_not_collide() {
    let mail = mail_to(Header::Address(mailbox(None, Some("l@example.com"))), Header::Empty, None, vec![]);
    let mut seen = HashSet::new();
    for _ in 0..10_000 {
        let feed = Feed::from_mail(b"x", &mail, "example.com").unwrap();
        assert_eq!(feed.id.chars().count(), ID_LEN);
        assert!(feed.id.chars().all(|c| c.is_ascii_alphanumeric() || c == '_' || c == '-'));
        assert!(seen.insert(feed.id));
    }
}

#[test]
fn entries_carry_the_current_time() {
    let mail = mail_to(Header::Address(mailbox(None, Some("l@example.com"))), Header::Empty, None, vec![]);
    let feed = Feed::from_mail(b"x", &mail, "example.com").unwrap();
    // after 2020-01-01
    assert!(feed.created_at > 1_577_836_800_000);
}

const JANE: &str = "From: Jane Doe <jane@example.com>\r\nTo: list@example.com\r\nSubject: Hi\r\nMIME-Version: 1.0\r\nContent-Type: text/html; charset=utf-8\r\n\r\n<p>hi</p>";

#[test]
fn decodes_a_raw_message() {
    let mail = decode(JANE.as_bytes()).unwrap();
    assert_eq!(mail.to.to_vec(), vec!["list@example.com".to_string()]);
    assert_eq!(author_of(&mail.from), "jane@example.com (Jane Doe)");
    assert_eq!(mail.subject.as_deref(), Some("Hi"));
    assert_eq!(mail.html_bodies.len(), 1);
    assert_eq!(String::from_utf8(mail.html_bodies[0].clone()).unwrap().trim_end(), "<p>hi</p>");
}

#[test]
fn test() {
    let raw = "Return-Path: <news@dex.example>\r\nFrom: Dex News <news@dex.example>\r\nTo: Group: one@example.com, two@example.com;\r\nSubject: Weekly digest\r\nContent-Type: multipart/alternative; boundary=\"b1\"\r\n\r\n--b1\r\nContent-Type: text/plain\r\n\r\nplain\r\n--b1\r\nContent-Type: text/html\r\n\r\n<b>html</b>\r\n--b1--\r\n";
    let parsed = decode(raw.as_bytes()).unwrap();
    println!("{:#?}", parsed);
    assert_eq!(parsed.to.to_vec(), vec!["one@example.com".to_string(), "two@example.com".to_string()]);
}

#[test]
fn text_headers_are_not_recipients() {
    let mail = mail_to(Header::Text("list@example.com".to_string()), Header::Empty, Some("s"), vec![]);
    assert_eq!(Feed::from_mail(b"x", &mail, "example.com").err(), Some(BuildError::Rejected));
    assert!(addresses(&Header::TextList(vec!["a@example.com".to_string()])).is_empty());
    let list = vec![mailbox(None, Some("a@x")), mailbox(Some("n"), None), mailbox(None, Some("b@y"))];
    assert_eq!(addresses(&Header::AddressList(list)), vec!["a@x".to_string(), "b@y".to_string()]);
}
