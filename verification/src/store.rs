//! The record-store snapshot the retrieval works on: records keyed by content
//! address, and tagged link edges queryable from a base address. The store
//! exposes exactly the two read primitives of the underlying distributed
//! store — fetch a record by address, fetch outgoing links with an optional
//! tag filter — plus the lookup of the deterministic path index that turns a
//! bucket key into a content address.

use vstd::prelude::*;

use crate::types::{AgentPubKey, EntryHash, GroupMessage, SignedHeader, Timestamp};

verus! {

/// A directed, tagged edge between two content addresses, as returned by a
/// link query from its base.
#[derive(Debug)]
pub struct Link {
    pub target: EntryHash,
    pub tag: Option<String>,
    pub timestamp: Timestamp,
}

/// Mathematical value of a `Link`.
pub struct LinkV {
    pub target: EntryHash,
    pub tag: Option<Seq<char>>,
    pub timestamp: Timestamp,
}

impl View for Link {
    type V = LinkV;

    open spec fn view(&self) -> LinkV {
        LinkV {
            target: self.target,
            tag: match self.tag {
                Some(t) => Some(t@),
                None => None,
            },
            timestamp: self.timestamp,
        }
    }
}

impl Clone for Link {
    /// Cloning keeps the mathematical value.
    fn clone(&self) -> (r: Self)
        ensures
            r@ == self@,
    {
        Link {
            target: self.target,
            tag: match &self.tag {
                Some(t) => Some(t.clone()),
                None => None,
            },
            timestamp: self.timestamp,
        }
    }
}

/// The content stored in an application entry, by its decoded shape: a group
/// message, or some other application record.
#[derive(Debug)]
pub enum AppEntry {
    GroupMessage(GroupMessage),
    Other,
}

/// The content of a stored record: an application entry, an agent identity
/// record, or another kind of record.
#[derive(Debug)]
pub enum Entry {
    App(AppEntry),
    Agent(AgentPubKey),
    Other,
}

/// What of a record's entry the store hands back: the entry itself, or
/// nothing, when the entry is withheld or not stored locally.
#[derive(Debug)]
pub enum ElementEntry {
    Present(Entry),
    NotPresent,
}

/// A fetched record: its signed header and its entry.
#[derive(Debug)]
pub struct Element {
    pub signed_header: SignedHeader,
    pub entry: ElementEntry,
}

/// A snapshot of the parts of the store a retrieval reads: records by
/// address (first match wins), link edges in query-return order, and the
/// path index from bucket-key strings to content addresses.
#[derive(Debug)]
pub struct Store {
    pub records: Vec<(EntryHash, Element)>,
    pub links: Vec<(EntryHash, Link)>,
    pub paths: Vec<(String, EntryHash)>,
}

/// The record at address `h` in `s`: the first pair with that address.
pub open spec fn record_at_seq(s: Seq<(EntryHash, Element)>, h: EntryHash) -> Option<Element>
    decreases s.len(),
{
    if s.len() == 0 {
        None
    } else if s[0].0 == h {
        Some(s[0].1)
    } else {
        record_at_seq(s.drop_first(), h)
    }
}

/// The address of path key `key`: the first pair with that key.
pub open spec fn path_addr_seq(s: Seq<(String, EntryHash)>, key: Seq<char>) -> Option<EntryHash>
    decreases s.len(),
{
    if s.len() == 0 {
        None
    } else if s[0].0@ == key {
        Some(s[0].1)
    } else {
        path_addr_seq(s.drop_first(), key)
    }
}

/// Whether a link's tag passes the query's tag filter: no filter lets every
/// link through; a filter keeps exactly the links carrying that tag.
pub open spec fn tag_passes(tag: Option<Seq<char>>, filter: Option<Seq<char>>) -> bool {
    match filter {
        None => true,
        Some(f) => tag == Some(f),
    }
}

/// The links of `s` rooted at `base` whose tag passes `filter`, in order.
pub open spec fn links_at_seq(
    s: Seq<(EntryHash, Link)>,
    base: EntryHash,
    filter: Option<Seq<char>>,
) -> Seq<LinkV>
    decreases s.len(),
{
    if s.len() == 0 {
        Seq::empty()
    } else {
        let rest = links_at_seq(s.drop_last(), base, filter);
        if s.last().0 == base && tag_passes(s.last().1@.tag, filter) {
            rest.push(s.last().1@)
        } else {
            rest
        }
    }
}

/// Mathematical values of a sequence of links.
pub open spec fn links_view(s: Seq<Link>) -> Seq<LinkV> {
    s.map_values(|l: Link| l@)
}

/// Mathematical value of an optional tag filter.
pub open spec fn filter_view(f: Option<String>) -> Option<Seq<char>> {
    match f {
        Some(s) => Some(s@),
        None => None,
    }
}

impl Store {
    /// The record stored at address `h`, if any.
    pub open spec fn record_at(self, h: EntryHash) -> Option<Element> {
        record_at_seq(self.records@, h)
    }

    /// The content address the path index gives to key `key`, if any.
    pub open spec fn path_addr(self, key: Seq<char>) -> Option<EntryHash> {
        path_addr_seq(self.paths@, key)
    }

    /// The links rooted at `base` passing `filter`, in query-return order.
    pub open spec fn links_at(self, base: EntryHash, filter: Option<Seq<char>>) -> Seq<LinkV> {
        links_at_seq(self.links@, base, filter)
    }

    /// Fetches the record at address `h`: the store's "get" primitive.
    pub fn get(&self, h: EntryHash) -> (r: Option<&Element>)
        ensures
            match r {
                Some(el) => self.record_at(h) == Some(*el),
                None => self.record_at(h) == None::<Element>,
            },
    {
        let n = self.records.len();
        let mut i: usize = 0;
        while i < n
            invariant
                i <= n,
                n == self.records@.len(),
                forall|j: int| 0 <= j < i ==> self.records@[j].0 != h,
            decreases n - i,
        {
            if self.records[i].0 == h {
                proof {
                    lemma_record_at_found(self.records@, h, i as int);
                }
                return Some(&self.records[i].1);
            }
            i += 1;
        }
        proof {
            lemma_record_at_missing(self.records@, h);
        }
        None
    }

    /// Looks the key up in the path index: the deterministic hash of a bucket
    /// key is the address recorded there, or none when the key was never
    /// indexed (an address no link was ever written from).
    pub fn path_addr_lookup(&self, key: &String) -> (r: Option<EntryHash>)
        ensures
            r == self.path_addr(key@),
    {
        let n = self.paths.len();
        let mut i: usize = 0;
        while i < n
            invariant
                i <= n,
                n == self.paths@.len(),
                forall|j: int| 0 <= j < i ==> self.paths@[j].0@ != key@,
            decreases n - i,
        {
            if self.paths[i].0 == *key {
                proof {
                    lemma_path_addr_found(self.paths@, key@, i as int);
                }
                return Some(self.paths[i].1);
            }
            i += 1;
        }
        proof {
            lemma_path_addr_missing(self.paths@, key@);
        }
        None
    }

    /// Fetches the links rooted at `base` whose tag passes `tag_filter`, in
    /// query-return order: the store's "get links" primitive.
    pub fn get_links(&self, base: EntryHash, tag_filter: &Option<String>) -> (r: Vec<Link>)
        ensures
            links_view(r@) == self.links_at(base, filter_view(*tag_filter)),
    {
        let ghost filt = filter_view(*tag_filter);
        let n = self.links.len();
        let mut out: Vec<Link> = Vec::new();
        let mut i: usize = 0;
        proof {
            assert(self.links@.take(0) =~= Seq::<(EntryHash, Link)>::empty());
            assert(links_view(out@) =~= links_at_seq(self.links@.take(0), base, filt));
        }
        while i < n
            invariant
                i <= n,
                n == self.links@.len(),
                filt == filter_view(*tag_filter),
                links_view(out@) == links_at_seq(self.links@.take(i as int), base, filt),
            decreases n - i,
        {
            let pair = &self.links[i];
            let passes: bool = pair.0 == base && match tag_filter {
                None => true,
                Some(f) => match &pair.1.tag {
                    Some(t) => *t == *f,
                    None => false,
                },
            };
            if passes {
                let ghost before = out@;
                out.push(pair.1.clone());
                proof {
                    assert(links_view(out@) =~= links_view(before).push(self.links@[i as int].1@));
                }
            }
            proof {
                assert(self.links@.take(i + 1).drop_last() =~= self.links@.take(i as int));
                assert(self.links@.take(i + 1).last() == self.links@[i as int]);
                assert(links_view(out@) =~= links_at_seq(self.links@.take(i + 1), base, filt));
            }
            i += 1;
        }
        proof {
            assert(self.links@.take(n as int) =~= self.links@);
        }
        out
    }
}

/// If the first `i` records miss `h` and record `i` carries it, the lookup
/// returns record `i`.
proof fn lemma_record_at_found(s: Seq<(EntryHash, Element)>, h: EntryHash, i: int)
    requires
        0 <= i < s.len(),
        forall|j: int| 0 <= j < i ==> s[j].0 != h,
        s[i].0 == h,
    ensures
        record_at_seq(s, h) == Some(s[i].1),
    decreases i,
{
    if i > 0 {
        lemma_record_at_found(s.drop_first(), h, i - 1);
    }
}

/// If no record carries `h`, the lookup returns nothing.
proof fn lemma_record_at_missing(s: Seq<(EntryHash, Element)>, h: EntryHash)
    requires
        forall|j: int| 0 <= j < s.len() ==> s[j].0 != h,
    ensures
        record_at_seq(s, h) == None::<Element>,
    decreases s.len(),
{
    if s.len() > 0 {
        lemma_record_at_missing(s.drop_first(), h);
    }
}

/// If the first `i` keys miss `key` and key `i` matches, the lookup returns
/// address `i`.
proof fn lemma_path_addr_found(s: Seq<(String, EntryHash)>, key: Seq<char>, i: int)
    requires
        0 <= i < s.len(),
        forall|j: int| 0 <= j < i ==> s[j].0@ != key,
        s[i].0@ == key,
    ensures
        path_addr_seq(s, key) == Some(s[i].1),
    decreases i,
{
    if i > 0 {
        lemma_path_addr_found(s.drop_first(), key, i - 1);
    }
}

/// If no key matches, the lookup returns nothing.
proof fn lemma_path_addr_missing(s: Seq<(String, EntryHash)>, key: Seq<char>)
    requires
        forall|j: int| 0 <= j < s.len() ==> s[j].0@ != key,
    ensures
        path_addr_seq(s, key) == None::<EntryHash>,
    decreases s.len(),
{
    if s.len() > 0 {
        lemma_path_addr_missing(s.drop_first(), key);
    }
}

} // verus!
