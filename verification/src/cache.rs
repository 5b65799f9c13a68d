//! The cache store: a mapping from logical request path to the served
//! content bytes and their content type. All connection handlers and
//! the invalidation engine share one store (the surrounding program
//! keeps it behind a reader/writer lock; every operation here is a
//! sequential step taken under that lock).

use vstd::prelude::*;
use crate::strmap::StrMap;

verus! {

/// One cached asset: its content bytes and the content-type string
/// derived from the file's extension. Entries are replaced wholesale,
/// never partially mutated.
pub struct CacheEntry {
    pub content: Vec<u8>,
    pub content_type: String,
}

impl View for CacheEntry {
    type V = (Seq<u8>, Seq<char>);

    open spec fn view(&self) -> (Seq<u8>, Seq<char>) {
        (self.content@, self.content_type@)
    }
}

/// A copy of a byte vector, made with a verified loop.
pub fn clone_bytes(v: &Vec<u8>) -> (r: Vec<u8>)
    ensures
        r@ == v@,
{
    let n = v.len();
    let mut r: Vec<u8> = Vec::new();
    let mut i: usize = 0;
    while i < n
        invariant
            n == v@.len(),
            0 <= i <= n,
            r@ =~= v@.subrange(0, i as int),
        decreases n - i,
    {
        r.push(v[i]);
        i = i + 1;
    }
    proof {
        assert(r@ =~= v@);
    }
    r
}

impl CacheEntry {
    /// A copy of the cached content bytes.
    pub fn content_clone(&self) -> (r: Vec<u8>)
        ensures
            r@ == self.content@,
    {
        clone_bytes(&self.content)
    }
}

/// The store itself, viewed as a map from path characters to
/// `(content bytes, content-type characters)`.
pub struct CacheStore {
    entries: StrMap<CacheEntry>,
}

impl View for CacheStore {
    type V = Map<Seq<char>, (Seq<u8>, Seq<char>)>;

    closed spec fn view(&self) -> Map<Seq<char>, (Seq<u8>, Seq<char>)> {
        self.entries@.map_values(|e: CacheEntry| e@)
    }
}

impl CacheStore {
    /// Internal well-formedness of the store.
    pub closed spec fn wf(&self) -> bool {
        self.entries.wf()
    }

    /// An empty store.
    pub fn new() -> (r: Self)
        ensures
            r.wf(),
            r@ == Map::<Seq<char>, (Seq<u8>, Seq<char>)>::empty(),
    {
        let r = CacheStore { entries: StrMap::new() };
        proof {
            assert(r@ =~= Map::<Seq<char>, (Seq<u8>, Seq<char>)>::empty());
        }
        r
    }

    /// Point lookup.
    pub fn lookup(&self, path: &str) -> (r: Option<&CacheEntry>)
        requires
            self.wf(),
        ensures
            match r {
                Some(e) => self@.contains_key(path@) && e@ == self@[path@],
                None => !self@.contains_key(path@),
            },
    {
        self.entries.get(path)
    }

    /// Point insert: replaces any existing entry for `path`
    /// unconditionally (last writer wins).
    pub fn insert(&mut self, path: &str, content: Vec<u8>, content_type: String)
        requires
            old(self).wf(),
        ensures
            final(self).wf(),
            final(self)@ == old(self)@.insert(path@, (content@, content_type@)),
    {
        let ghost v0 = self@;
        let ghost ev = (content@, content_type@);
        let e = CacheEntry { content, content_type };
        self.entries.insert(path, e);
        proof {
            assert(self@ =~= v0.insert(path@, ev));
        }
    }

    /// Point invalidation: removes the entry for `path` if present; a
    /// no-op when it is absent.
    pub fn invalidate(&mut self, path: &str)
        requires
            old(self).wf(),
        ensures
            final(self).wf(),
            final(self)@ == old(self)@.remove(path@),
    {
        let ghost v0 = self@;
        self.entries.remove(path);
        proof {
            assert(self@ =~= v0.remove(path@));
        }
    }
}

} // verus!
