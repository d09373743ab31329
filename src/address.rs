use vstd::prelude::*;

verus! {

/// One mailbox of an address header: a display name and an address, either
/// of which may be missing.
#[derive(Clone, Debug)]
pub struct Mailbox {
    pub name: Option<String>,
    pub address: Option<String>,
}

/// A named group of mailboxes (`team: a@x, b@y;`).
#[derive(Clone, Debug)]
pub struct MailboxGroup {
    pub name: Option<String>,
    pub addresses: Vec<Mailbox>,
}

/// The value of a decoded header, in the shapes that the ingestion logic reads.
/// Every other shape is `Empty`.
#[derive(Clone, Debug)]
pub enum Header {
    Address(Mailbox),
    AddressList(Vec<Mailbox>),
    Group(MailboxGroup),
    GroupList(Vec<MailboxGroup>),
    Text(String),
    TextList(Vec<String>),
    Empty,
}

/// The character sequences of a list of strings.
pub open spec fn string_views(s: Seq<String>) -> Seq<Seq<char>> {
    s.map_values(|x: String| x@)
}

/// The address of one mailbox, if it has one.
pub open spec fn addr_flat(a: Mailbox) -> Seq<Seq<char>> {
    match a.address {
        Some(x) => seq![x@],
        None => seq![],
    }
}

/// The addresses of a list of mailboxes, in order.
pub open spec fn addrs_flat(s: Seq<Mailbox>) -> Seq<Seq<char>>
    decreases s.len(),
{
    if s.len() == 0 {
        seq![]
    } else {
        addrs_flat(s.drop_last()) + addr_flat(s.last())
    }
}

/// The addresses of the members of a group.
pub open spec fn group_flat(g: MailboxGroup) -> Seq<Seq<char>> {
    addrs_flat(g.addresses@)
}

/// The addresses of the members of a list of groups, group after group.
pub open spec fn groups_flat(s: Seq<MailboxGroup>) -> Seq<Seq<char>>
    decreases s.len(),
{
    if s.len() == 0 {
        seq![]
    } else {
        groups_flat(s.drop_last()) + group_flat(s.last())
    }
}

/// Every string that a header value holds: the addresses of its mailboxes,
/// whatever their grouping, or its text.
pub open spec fn header_flat(h: Header) -> Seq<Seq<char>> {
    match h {
        Header::Address(a) => addr_flat(a),
        Header::AddressList(l) => addrs_flat(l@),
        Header::Group(g) => group_flat(g),
        Header::GroupList(l) => groups_flat(l@),
        Header::Text(t) => seq![t@],
        Header::TextList(l) => string_views(l@),
        Header::Empty => seq![],
    }
}

/// The addresses of the mailboxes of a header, whatever their grouping; a
/// header of another shape holds none.
pub open spec fn address_flat(h: Header) -> Seq<Seq<char>> {
    match h {
        Header::Address(a) => addr_flat(a),
        Header::AddressList(l) => addrs_flat(l@),
        Header::Group(g) => group_flat(g),
        Header::GroupList(l) => groups_flat(l@),
        _ => seq![],
    }
}

/// The addresses of the mailboxes of a header, in order.
pub fn addresses(h: &Header) -> (r: Vec<String>)
    ensures
        string_views(r@) == address_flat(*h),
{
    match h {
        Header::Address(a) => a.to_vec(),
        Header::AddressList(l) => l.to_vec(),
        Header::Group(g) => g.to_vec(),
        Header::GroupList(l) => l.to_vec(),
        _ => {
            let out: Vec<String> = Vec::new();
            assert(string_views(out@) =~= seq![]);
            out
        },
    }
}

/// Flattening of an address shape into the plain list of its address strings.
pub trait ToVec {
    /// The strings that `to_vec` yields.
    spec fn flat(&self) -> Seq<Seq<char>>;

    fn to_vec(&self) -> (r: Vec<String>)
        ensures
            string_views(r@) == self.flat(),
    ;
}

impl ToVec for Mailbox {
    open spec fn flat(&self) -> Seq<Seq<char>> {
        addr_flat(*self)
    }

    fn to_vec(&self) -> (r: Vec<String>) {
        let mut out: Vec<String> = Vec::new();
        match &self.address {
            Some(x) => {
                out.push(x.clone());
            },
            None => {},
        }
        assert(string_views(out@) =~= addr_flat(*self));
        out
    }
}

impl ToVec for Vec<Mailbox> {
    open spec fn flat(&self) -> Seq<Seq<char>> {
        addrs_flat(self@)
    }

    fn to_vec(&self) -> (r: Vec<String>) {
        let mut out: Vec<String> = Vec::new();
        let mut i: usize = 0;
        while i < self.len()
            invariant
                i <= self@.len(),
                string_views(out@) == addrs_flat(self@.take(i as int)),
            decreases self@.len() - i,
        {
            let mut part = self[i].to_vec();
            let ghost before = out@;
            let ghost added = part@;
            out.append(&mut part);
            assert(self@.take(i + 1).drop_last() =~= self@.take(i as int));
            assert(string_views(before + added) =~= string_views(before) + string_views(added));
            i = i + 1;
        }
        assert(self@.take(i as int) =~= self@);
        out
    }
}

impl ToVec for MailboxGroup {
    open spec fn flat(&self) -> Seq<Seq<char>> {
        group_flat(*self)
    }

    fn to_vec(&self) -> (r: Vec<String>) {
        self.addresses.to_vec()
    }
}

impl ToVec for Vec<MailboxGroup> {
    open spec fn flat(&self) -> Seq<Seq<char>> {
        groups_flat(self@)
    }

    fn to_vec(&self) -> (r: Vec<String>) {
        let mut out: Vec<String> = Vec::new();
        let mut i: usize = 0;
        while i < self.len()
            invariant
                i <= self@.len(),
                string_views(out@) == groups_flat(self@.take(i as int)),
            decreases self@.len() - i,
        {
            let mut part = self[i].to_vec();
            let ghost before = out@;
            let ghost added = part@;
            out.append(&mut part);
            assert(self@.take(i + 1).drop_last() =~= self@.take(i as int));
            assert(string_views(before + added) =~= string_views(before) + string_views(added));
            i = i + 1;
        }
        assert(self@.take(i as int) =~= self@);
        out
    }
}

impl ToVec for Header {
    open spec fn flat(&self) -> Seq<Seq<char>> {
        header_flat(*self)
    }

    fn to_vec(&self) -> (r: Vec<String>) {
        match self {
            Header::Address(a) => a.to_vec(),
            Header::AddressList(l) => l.to_vec(),
            Header::Group(g) => g.to_vec(),
            Header::GroupList(l) => l.to_vec(),
            Header::Text(t) => {
                let mut out: Vec<String> = Vec::new();
                out.push(t.clone());
                assert(string_views(out@) =~= seq![t@]);
                out
            },
            Header::TextList(l) => {
                let mut out: Vec<String> = Vec::new();
                let mut i: usize = 0;
                while i < l.len()
                    invariant
                        i <= l@.len(),
                        out@ == l@.take(i as int),
                    decreases l@.len() - i,
                {
                    out.push(l[i].clone());
                    assert(out@ =~= l@.take(i + 1));
                    i = i + 1;
                }
                assert(l@.take(i as int) =~= l@);
                out
            },
            Header::Empty => Vec::new(),
        }
    }
}

} // verus!
