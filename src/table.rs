//! An in-memory link table with the store's semantics: unique identifiers,
//! keyed reads, inserts and updates, and a configurable latency that the
//! time bound on each round trip is held against.

use crate::link::{
    normalized, planned_link, settled, Link, LinkError, LinkModel, Reply, StoreFault,
    DEFAULT_TIMEOUT_MS,
};
use vstd::prelude::*;

verus! {

/// The table's content, as a map from identifier to target.
pub type Links = Map<Seq<char>, Seq<char>>;

/// A late reply is a `Timeout`, whatever the store would have said.
pub open spec fn bounded<T>(slow: bool, r: Result<T, LinkError>) -> Result<T, LinkError> {
    if slow {
        Err(LinkError::Timeout)
    } else {
        r
    }
}

/// Keyed read.
pub open spec fn lookup_spec(m: Links, id: Seq<char>) -> Result<LinkModel, LinkError> {
    if m.contains_key(id) {
        Ok(LinkModel { id, target_url: m[id] })
    } else {
        Err(LinkError::NotFound)
    }
}

/// Insert under the uniqueness constraint: an identifier in use is refused
/// and the table is left as it was.
pub open spec fn insert_spec(m: Links, l: LinkModel) -> (Links, Result<LinkModel, LinkError>) {
    if m.contains_key(l.id) {
        (m, Err(LinkError::Duplicate))
    } else {
        (m.insert(l.id, l.target_url), Ok(l))
    }
}

/// Update of the target in place; the identifier never changes.
pub open spec fn update_spec(m: Links, id: Seq<char>, t: Seq<char>) -> (
    Links,
    Result<LinkModel, LinkError>,
) {
    if m.contains_key(id) {
        (m.insert(id, t), Ok(LinkModel { id, target_url: t }))
    } else {
        (m, Err(LinkError::NotFound))
    }
}

/// Resolve: the stored target, `NotFound`, or `Timeout` on a slow store.
pub open spec fn resolve_spec(m: Links, slow: bool, id: Seq<char>) -> Result<Seq<char>, LinkError> {
    match bounded(slow, lookup_spec(m, id)) {
        Ok(l) => Ok(l.target_url),
        Err(e) => Err(e),
    }
}

/// Create: validate, then insert the planned link. An invalid URL leaves the
/// table untouched; a slow store still applies the insert but the caller
/// sees `Timeout`.
pub open spec fn create_spec(m: Links, slow: bool, raw: Seq<char>, n: u32) -> (
    Links,
    Result<LinkModel, LinkError>,
) {
    match planned_link(raw, n) {
        Err(e) => (m, Err(e)),
        Ok(l) => (insert_spec(m, l).0, bounded(slow, insert_spec(m, l).1)),
    }
}

/// Update: validate, then replace the target of `id`.
pub open spec fn change_spec(m: Links, slow: bool, id: Seq<char>, raw: Seq<char>) -> (
    Links,
    Result<LinkModel, LinkError>,
) {
    match normalized(raw) {
        Err(e) => (m, Err(e)),
        Ok(t) => (update_spec(m, id, t).0, bounded(slow, update_spec(m, id, t).1)),
    }
}

/// No two rows share an identifier.
pub open spec fn unique_ids(s: Seq<Link>) -> bool {
    forall|i: int, j: int|
        0 <= i < s.len() && 0 <= j < s.len() && i != j ==> (#[trigger] s[i]).id@ != (#[trigger] s[j]).id@
}

/// The map that the rows stand for.
pub open spec fn map_of(s: Seq<Link>) -> Links
    decreases s.len(),
{
    if s.len() == 0 {
        Map::empty()
    } else {
        map_of(s.drop_last()).insert(s.last().id@, s.last().target_url@)
    }
}

proof fn lemma_map_of_dom(s: Seq<Link>, k: Seq<char>)
    ensures
        map_of(s).contains_key(k) <==> exists|i: int| 0 <= i < s.len() && (#[trigger] s[i]).id@ == k,
    decreases s.len(),
{
    if s.len() > 0 {
        let t = s.drop_last();
        lemma_map_of_dom(t, k);
        if map_of(s).contains_key(k) {
            if k != s.last().id@ {
                let i = choose|i: int| 0 <= i < t.len() && (#[trigger] t[i]).id@ == k;
                assert(s[i] == t[i]);
            } else {
                assert(s[s.len() - 1].id@ == k);
            }
        }
        if exists|i: int| 0 <= i < s.len() && (#[trigger] s[i]).id@ == k {
            let i = choose|i: int| 0 <= i < s.len() && (#[trigger] s[i]).id@ == k;
            if i < s.len() - 1 {
                assert(t[i] == s[i]);
            }
        }
    }
}

proof fn lemma_map_of_index(s: Seq<Link>, i: int)
    requires
        unique_ids(s),
        0 <= i < s.len(),
    ensures
        map_of(s).contains_key(s[i].id@),
        map_of(s)[s[i].id@] == s[i].target_url@,
    decreases s.len(),
{
    let t = s.drop_last();
    if i < s.len() - 1 {
        assert(t[i] == s[i]);
        lemma_unique_drop_last(s);
        lemma_map_of_index(t, i);
        assert(s[s.len() - 1].id@ != s[i].id@);
    }
}

proof fn lemma_unique_drop_last(s: Seq<Link>)
    requires
        unique_ids(s),
        s.len() > 0,
    ensures
        unique_ids(s.drop_last()),
{
    let t = s.drop_last();
    assert forall|a: int, b: int|
        0 <= a < t.len() && 0 <= b < t.len() && a != b implies (#[trigger] t[a]).id@
        != (#[trigger] t[b]).id@ by {
        assert(t[a] == s[a] && t[b] == s[b]);
    }
}

proof fn lemma_map_of_update(s: Seq<Link>, i: int, l: Link)
    requires
        unique_ids(s),
        0 <= i < s.len(),
        l.id@ == s[i].id@,
    ensures
        map_of(s.update(i, l)) == map_of(s).insert(l.id@, l.target_url@),
        unique_ids(s.update(i, l)),
    decreases s.len(),
{
    let u = s.update(i, l);
    if i == s.len() - 1 {
        assert(u.drop_last() =~= s.drop_last());
        assert(map_of(u) =~= map_of(s).insert(l.id@, l.target_url@));
    } else {
        let t = s.drop_last();
        assert(u.drop_last() =~= t.update(i, l));
        assert(t[i] == s[i]);
        lemma_unique_drop_last(s);
        lemma_map_of_update(t, i, l);
        assert(s[s.len() - 1].id@ != s[i].id@);
        assert(u.last() == s.last());
        assert(map_of(u) =~= map_of(s).insert(l.id@, l.target_url@));
    }
    assert forall|a: int, b: int|
        0 <= a < u.len() && 0 <= b < u.len() && a != b implies (#[trigger] u[a]).id@
        != (#[trigger] u[b]).id@ by {
        assert(u[a].id@ == s[a].id@ && u[b].id@ == s[b].id@);
    }
}

proof fn lemma_map_of_len(s: Seq<Link>)
    requires
        unique_ids(s),
    ensures
        map_of(s).dom().finite(),
        map_of(s).len() == s.len(),
    decreases s.len(),
{
    if s.len() > 0 {
        let t = s.drop_last();
        lemma_unique_drop_last(s);
        lemma_map_of_len(t);
        lemma_map_of_dom(t, s.last().id@);
        if map_of(t).contains_key(s.last().id@) {
            let i = choose|i: int| 0 <= i < t.len() && (#[trigger] t[i]).id@ == s.last().id@;
            assert(s[i] == t[i]);
        }
    }
}

/// A table of links. A slow table answers each round trip after its
/// latency; a round trip slower than the time bound surfaces as `Timeout`.
pub struct LinkTable {
    links: Vec<Link>,
    latency_ms: u64,
    timeout_ms: u64,
}

impl View for LinkTable {
    type V = Links;

    closed spec fn view(&self) -> Links {
        map_of(self.links@)
    }
}

impl LinkTable {
    /// Identifiers are unique.
    pub closed spec fn wf(&self) -> bool {
        unique_ids(self.links@)
    }

    /// Each round trip takes longer than the time bound.
    pub closed spec fn slow(&self) -> bool {
        self.latency_ms > self.timeout_ms
    }

    /// An empty table that answers at once, under the default time bound.
    pub fn new() -> (r: LinkTable)
        ensures
            r.wf(),
            r@ == Links::empty(),
            !r.slow(),
    {
        LinkTable { links: Vec::new(), latency_ms: 0, timeout_ms: DEFAULT_TIMEOUT_MS }
    }

    /// An empty table whose round trips take `latency_ms`, bounded by `timeout_ms`.
    pub fn with_latency(latency_ms: u64, timeout_ms: u64) -> (r: LinkTable)
        ensures
            r.wf(),
            r@ == Links::empty(),
            r.slow() == (latency_ms > timeout_ms),
    {
        LinkTable { links: Vec::new(), latency_ms, timeout_ms }
    }

    /// The number of links held.
    pub fn len(&self) -> (r: usize)
        requires
            self.wf(),
        ensures
            r == self@.len(),
    {
        proof {
            self.lemma_len();
        }
        self.links.len()
    }

    proof fn lemma_len(&self)
        requires
            self.wf(),
        ensures
            self@.dom().finite(),
            self@.len() == self.links@.len(),
    {
        lemma_map_of_len(self.links@);
    }

    fn find(&self, id: &String) -> (r: Option<usize>)
        requires
            self.wf(),
        ensures
            match r {
                Some(i) => i < self.links@.len() && self.links@[i as int].id@ == id@,
                None => !self@.contains_key(id@),
            },
    {
        let mut i: usize = 0;
        while i < self.links.len()
            invariant
                i <= self.links@.len(),
                forall|j: int| 0 <= j < i ==> (#[trigger] self.links@[j]).id@ != id@,
            decreases self.links@.len() - i,
        {
            if self.links[i].id == *id {
                return Some(i);
            }
            i = i + 1;
        }
        proof {
            lemma_map_of_dom(self.links@, id@);
        }
        None
    }

    /// One round trip: read the link with identifier `id`.
    pub fn fetch(&self, id: &str) -> (r: Reply)
        requires
            self.wf(),
        ensures
            settled(r) == bounded(self.slow(), lookup_spec(self@, id@)),
    {
        let key = id.to_owned();
        let found = self.find(&key);
        if self.latency_ms > self.timeout_ms {
            return Reply::Elapsed;
        }
        match found {
            Some(i) => {
                proof {
                    lemma_map_of_index(self.links@, i as int);
                }
                Reply::Rows(Some(self.links[i].duplicate()))
            },
            None => Reply::Rows(None),
        }
    }

    /// One round trip: insert `l`, refused where its identifier is in use.
    pub fn insert(&mut self, l: Link) -> (r: Reply)
        requires
            old(self).wf(),
        ensures
            final(self).wf(),
            final(self).slow() == old(self).slow(),
            final(self)@ == insert_spec(old(self)@, l@).0,
            settled(r) == bounded(old(self).slow(), insert_spec(old(self)@, l@).1),
    {
        let found = self.find(&l.id);
        let reply = match found {
            Some(i) => {
                proof {
                    lemma_map_of_index(self.links@, i as int);
                }
                Reply::Failed(StoreFault::UniqueViolation)
            },
            None => {
                let row = l.duplicate();
                let ghost before = self.links@;
                self.links.push(row);
                proof {
                    assert(self.links@.drop_last() =~= before);
                    lemma_map_of_dom(before, l.id@);
                    assert forall|a: int, b: int|
                        0 <= a < self.links@.len() && 0 <= b < self.links@.len() && a != b implies (
                        #[trigger] self.links@[a]).id@ != (#[trigger] self.links@[b]).id@ by {
                        if a < before.len() && b < before.len() {
                            assert(self.links@[a] == before[a] && self.links@[b] == before[b]);
                        } else if a < before.len() {
                            assert(self.links@[a] == before[a]);
                        } else {
                            assert(self.links@[b] == before[b]);
                        }
                    }
                }
                Reply::Rows(Some(l))
            },
        };
        if self.latency_ms > self.timeout_ms {
            Reply::Elapsed
        } else {
            reply
        }
    }

    /// One round trip: set the target of link `id` to `target_url`.
    pub fn update(&mut self, id: &str, target_url: String) -> (r: Reply)
        requires
            old(self).wf(),
        ensures
            final(self).wf(),
            final(self).slow() == old(self).slow(),
            final(self)@ == update_spec(old(self)@, id@, target_url@).0,
            settled(r) == bounded(old(self).slow(), update_spec(old(self)@, id@, target_url@).1),
    {
        let key = id.to_owned();
        let found = self.find(&key);
        let reply = match found {
            Some(i) => {
                let row = Link::new(key, target_url);
                let answer = row.duplicate();
                let ghost before = self.links@;
                proof {
                    lemma_map_of_index(before, i as int);
                    lemma_map_of_update(before, i as int, row);
                }
                self.links.set(i, row);
                assert(self.links@ == before.update(i as int, row));
                Reply::Rows(Some(answer))
            },
            None => Reply::Rows(None),
        };
        if self.latency_ms > self.timeout_ms {
            Reply::Elapsed
        } else {
            reply
        }
    }
}

} // verus!
