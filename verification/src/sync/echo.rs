//! Per-path memory of the last content hash that went either way (or the
//! deletion marker), which lets an engine recognise the server's echo of the
//! client's own operation.

use vstd::hash_map::StringHashMap;
use vstd::prelude::*;
use crate::text::str_eq;

verus! {

/// Path → hash of the last operation on it.
pub struct EchoHashes {
    map: StringHashMap<String>,
}

impl View for EchoHashes {
    type V = Map<Seq<char>, Seq<char>>;

    closed spec fn view(&self) -> Self::V {
        self.map@.map_values(|s: String| s@)
    }
}

impl EchoHashes {
    /// Whether the hash recorded for `path` is `hash`.
    pub open spec fn spec_is(&self, path: Seq<char>, hash: Seq<char>) -> bool {
        self@.contains_key(path) && self@[path] == hash
    }

    /// No path recorded.
    pub fn new() -> (e: Self)
        ensures
            e@ == Map::<Seq<char>, Seq<char>>::empty(),
    {
        let e = EchoHashes { map: StringHashMap::new() };
        proof {
            assert(e@ =~= Map::<Seq<char>, Seq<char>>::empty());
        }
        e
    }

    /// Whether the hash recorded for `path` is `hash`.
    pub fn is(&self, path: &str, hash: &str) -> (r: bool)
        ensures
            r == self.spec_is(path@, hash@),
    {
        match self.map.get(path) {
            Some(v) => str_eq(v.as_str(), hash),
            None => false,
        }
    }

    /// The hash recorded for `path`, if any.
    pub fn get(&self, path: &str) -> (r: Option<&String>)
        ensures
            match r {
                Some(h) => self@.contains_key(path@) && self@[path@] == h@,
                None => !self@.contains_key(path@),
            },
    {
        self.map.get(path)
    }

    /// Records `hash` for `path`.
    pub fn set(&mut self, path: &str, hash: &str)
        ensures
            final(self)@ == old(self)@.insert(path@, hash@),
    {
        self.map.insert(path.to_owned(), hash.to_owned());
        proof {
            assert(final(self)@ =~= old(self)@.insert(path@, hash@));
        }
    }

    /// Forgets `path`.
    pub fn forget(&mut self, path: &str)
        ensures
            final(self)@ == old(self)@.remove(path@),
    {
        self.map.remove(path);
        proof {
            assert(final(self)@ =~= old(self)@.remove(path@));
        }
    }
}

} // verus!
