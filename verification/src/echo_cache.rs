//! Echo suppression.
//!
//! When the client pushes content to the server, the server may echo it back;
//! when it writes content received from the server, the file watcher sees its
//! own write.  The cache remembers, per path, the content hashes that went
//! either way, so that such echoes can be recognised and skipped until the
//! entry grows older than the time-to-live.
//!
//! Time is counted in nanoseconds since the cache was made; every operation
//! that reads the clock has a twin ending in `_at` that takes that reading as
//! an argument and is specified exactly.

use std::time::Duration;
use std::time::Instant;
use vstd::hash_set::StringHashSet;
use vstd::prelude::*;
use crate::clock::{duration_as_nanos, duration_nanos, instant_now, nanos_since, NANOS_PER_SEC, is_clock_reading};
use crate::text::str_eq;

verus! {

/// Hash recorded for a path whose deletion went either way.
pub const DELETED_MARKER: &'static str = "__deleted__";

/// Default time-to-live of a cache entry, in seconds.
pub const DEFAULT_TTL: u64 = 30;

/// Whether an entry last touched at `stamp` is still alive at `now` under
/// time-to-live `ttl` (a clock reading before the stamp counts as no time).
pub open spec fn is_fresh(stamp: u128, now: u128, ttl: u128) -> bool {
    (if now >= stamp { now - stamp } else { 0int }) < ttl
}

/// What the cache holds for one path.
struct CacheEntry {
    path: String,
    hashes: StringHashSet,
    stamp: u128,
}

/// Echo suppression cache: path → (hashes seen, time of the last addition).
pub struct EchoCache {
    entries: Vec<CacheEntry>,
    model: Ghost<Map<Seq<char>, (Set<Seq<char>>, u128)>>,
    ttl_nanos: u128,
    origin: Instant,
}

impl View for EchoCache {
    type V = Map<Seq<char>, (Set<Seq<char>>, u128)>;

    closed spec fn view(&self) -> Self::V {
        self.model@
    }
}

impl EchoCache {
    /// Time-to-live of the entries, in nanoseconds.
    pub closed spec fn ttl(&self) -> u128 {
        self.ttl_nanos
    }

    spec fn paths(&self) -> Seq<Seq<char>> {
        self.entries@.map_values(|e: CacheEntry| e.path@)
    }

    /// The cache's internal invariant.
    pub closed spec fn wf(&self) -> bool {
        &&& self.paths().no_duplicates()
        &&& self.model@.dom() == self.paths().to_set()
        &&& forall|i: int|
            0 <= i < self.entries@.len() ==> #[trigger] self.model@[self.entries@[i].path@] == (
                self.entries@[i].hashes@,
                self.entries@[i].stamp,
            )
    }

    /// The hashes held for `path` (none when the path is absent).
    pub open spec fn hashes_of(&self, path: Seq<char>) -> Set<Seq<char>> {
        if self@.contains_key(path) {
            self@[path].0
        } else {
            Set::empty()
        }
    }

    /// Whether `hash` is held for `path`, whatever its age.
    pub open spec fn holds(&self, path: Seq<char>, hash: Seq<char>) -> bool {
        self@.contains_key(path) && self@[path].0.contains(hash)
    }

    /// Whether `hash` is held for `path` and the entry is alive at `now`.
    pub open spec fn skips_at(&self, path: Seq<char>, hash: Seq<char>, now: u128) -> bool {
        self.holds(path, hash) && is_fresh(self@[path].1, now, self.ttl())
    }

    proof fn lemma_paths_index(&self, i: int)
        requires
            0 <= i < self.entries@.len(),
        ensures
            self.paths()[i] == self.entries@[i].path@,
            self.paths().len() == self.entries@.len(),
    {
    }

    /// A cache with the default time-to-live.
    pub fn new() -> (c: Self)
        ensures
            c.wf(),
            c@ == Map::<Seq<char>, (Set<Seq<char>>, u128)>::empty(),
            c.ttl() == DEFAULT_TTL * NANOS_PER_SEC,
    {
        let ttl: u128 = (DEFAULT_TTL as u128) * NANOS_PER_SEC;
        Self::with_ttl_nanos(ttl)
    }

    /// A cache with a custom time-to-live.
    pub fn with_ttl(ttl: Duration) -> (c: Self)
        ensures
            c.wf(),
            c@ == Map::<Seq<char>, (Set<Seq<char>>, u128)>::empty(),
            c.ttl() == duration_nanos(ttl),
    {
        let nanos = duration_as_nanos(&ttl);
        Self::with_ttl_nanos(nanos)
    }

    fn with_ttl_nanos(ttl_nanos: u128) -> (c: Self)
        ensures
            c.wf(),
            c@ == Map::<Seq<char>, (Set<Seq<char>>, u128)>::empty(),
            c.ttl() == ttl_nanos,
    {
        let c = EchoCache {
            entries: Vec::new(),
            model: Ghost(Map::empty()),
            ttl_nanos,
            origin: instant_now(),
        };
        proof {
            assert(c.paths() =~= Seq::<Seq<char>>::empty());
            assert(c.paths().to_set() =~= Set::<Seq<char>>::empty());
            assert(c.model@.dom() =~= Set::<Seq<char>>::empty());
        }
        c
    }

    /// The clock reading used by the operations without `_at`.
    fn now(&self) -> (r: u128)
        ensures
            is_clock_reading(r),
    {
        nanos_since(&self.origin)
    }

    /// Index of the entry for `path`, if there is one.
    fn find(&self, path: &str) -> (r: Option<usize>)
        requires
            self.wf(),
        ensures
            match r {
                Some(i) => i < self.entries@.len() && self.entries@[i as int].path@ == path@,
                None => !self@.contains_key(path@),
            },
    {
        let mut i: usize = 0;
        while i < self.entries.len()
            invariant
                self.wf(),
                i <= self.entries@.len(),
                forall|k: int| 0 <= k < i ==> self.entries@[k].path@ != path@,
            decreases self.entries@.len() - i,
        {
            if str_eq(self.entries[i].path.as_str(), path) {
                return Some(i);
            }
            i += 1;
        }
        proof {
            if self.paths().contains(path@) {
                let k = choose|k: int| 0 <= k < self.paths().len() && self.paths()[k] == path@;
                self.lemma_paths_index(k);
            }
        }
        None
    }

    /// Takes the entry at index `i` out of the cache.
    fn take_entry(&mut self, i: usize) -> (e: CacheEntry)
        requires
            old(self).wf(),
            i < old(self).entries@.len(),
        ensures
            final(self).wf(),
            final(self).ttl() == old(self).ttl(),
            e == old(self).entries@[i as int],
            final(self).entries@ == old(self).entries@.remove(i as int),
            old(self)@.contains_key(e.path@),
            old(self)@[e.path@] == (e.hashes@, e.stamp),
            final(self)@ == old(self)@.remove(e.path@),
    {
        let ghost old_self = *self;
        let e = self.entries.remove(i);
        proof {
            old_self.lemma_paths_index(i as int);
            let p = e.path@;
            let op = old_self.paths();
            assert(op.contains(op[i as int]));
            self.model@ = self.model@.remove(p);
            assert(self.paths() =~= op.remove(i as int));
            assert forall|a: int, b: int|
                0 <= a < self.paths().len() && 0 <= b < self.paths().len() && a != b implies self.paths()[a]
                != self.paths()[b] by {
                let oa = if a < i { a } else { a + 1 };
                let ob = if b < i { b } else { b + 1 };
                assert(self.paths()[a] == op[oa]);
                assert(self.paths()[b] == op[ob]);
            }
            assert forall|x: Seq<char>| self.model@.dom().contains(x) <==> self.paths().to_set().contains(x) by {
                if self.model@.dom().contains(x) {
                    assert(op.to_set().contains(x));
                    let j = choose|j: int| 0 <= j < op.len() && op[j] == x;
                    assert(j != i);
                    let nj = if j < i { j } else { j - 1 };
                    assert(self.paths()[nj] == x);
                    assert(self.paths().contains(x));
                }
                if self.paths().to_set().contains(x) {
                    let j = choose|j: int| 0 <= j < self.paths().len() && self.paths()[j] == x;
                    let oj = if j < i { j } else { j + 1 };
                    assert(op[oj] == x);
                    assert(op.contains(x));
                    assert(oj != i);
                }
            }
            assert(self.model@.dom() =~= self.paths().to_set());
            assert forall|k: int| 0 <= k < self.entries@.len() implies #[trigger] self.model@[self.entries@[k].path@] == (
                self.entries@[k].hashes@,
                self.entries@[k].stamp,
            ) by {
                let ok = if k < i { k } else { k + 1 };
                assert(self.entries@[k] == old_self.entries@[ok]);
                old_self.lemma_paths_index(ok);
                assert(op[ok] != op[i as int]);
            }
        }
        e
    }

    /// Adds an entry for a path that the cache does not hold.
    fn put_entry(&mut self, e: CacheEntry)
        requires
            old(self).wf(),
            !old(self)@.contains_key(e.path@),
        ensures
            final(self).wf(),
            final(self).ttl() == old(self).ttl(),
            final(self)@ == old(self)@.insert(e.path@, (e.hashes@, e.stamp)),
    {
        let ghost old_self = *self;
        let ghost p = e.path@;
        let ghost v = (e.hashes@, e.stamp);
        self.entries.push(e);
        proof {
            let op = old_self.paths();
            self.model@ = self.model@.insert(p, v);
            assert(self.paths() =~= op.push(p));
            assert(!op.contains(p));
            assert forall|a: int, b: int|
                0 <= a < self.paths().len() && 0 <= b < self.paths().len() && a != b implies self.paths()[a]
                != self.paths()[b] by {
                if a < op.len() && b < op.len() {
                } else if a < op.len() {
                    assert(op.contains(op[a]));
                } else {
                    assert(op.contains(op[b]));
                }
            }
            assert forall|k: int| 0 <= k < self.entries@.len() implies #[trigger] self.model@[self.entries@[k].path@] == (
                self.entries@[k].hashes@,
                self.entries@[k].stamp,
            ) by {
                if k < old_self.entries@.len() {
                    old_self.lemma_paths_index(k);
                    assert(op.contains(op[k]));
                }
            }
            op.lemma_push_to_set_commute(p);
            assert(self.model@.dom() =~= self.paths().to_set());
        }
    }

    /// Records `hash` for `path` at clock reading `now`.
    /// What the cache holds after `hash` was recorded for `path` at clock
    /// reading `now`.
    pub open spec fn after_add(&self, path: Seq<char>, hash: Seq<char>, now: u128) -> Map<
        Seq<char>,
        (Set<Seq<char>>, u128),
    > {
        self@.insert(path, (self.hashes_of(path).insert(hash), now))
    }

    /// Whether `m` is what the cache holds after dropping, at clock reading
    /// `now`, every entry that has expired.
    pub open spec fn cleaned_at(&self, m: Map<Seq<char>, (Set<Seq<char>>, u128)>, now: u128) -> bool {
        &&& forall|p: Seq<char>| #[trigger] m.contains_key(p) <==> (self@.contains_key(p) && is_fresh(self@[p].1, now, self.ttl()))
        &&& forall|p: Seq<char>| #[trigger] m.contains_key(p) ==> m[p] == self@[p]
    }

    fn add_hash_at(&mut self, path: &str, hash: &str, now: u128)
        requires
            old(self).wf(),
        ensures
            final(self).wf(),
            final(self).ttl() == old(self).ttl(),
            final(self)@ == old(self)@.insert(path@, (old(self).hashes_of(path@).insert(hash@), now)),
    {
        let ghost old_self = *self;
        let mut e = match self.find(path) {
            Some(i) => self.take_entry(i),
            None => CacheEntry { path: path.to_owned(), hashes: StringHashSet::new(), stamp: now },
        };
        e.hashes.insert(hash.to_owned());
        e.stamp = now;
        proof {
            assert(e.hashes@ =~= old_self.hashes_of(path@).insert(hash@));
        }
        self.put_entry(e);
        proof {
            assert(self@ =~= old_self@.insert(path@, (old_self.hashes_of(path@).insert(hash@), now)));
        }
    }

    /// Records the hash of content pushed to the server, at clock reading `now`.
    pub fn add_outbound_at(&mut self, path: &str, hash: &str, now: u128)
        requires
            old(self).wf(),
        ensures
            final(self).wf(),
            final(self).ttl() == old(self).ttl(),
            final(self)@ == old(self)@.insert(path@, (old(self).hashes_of(path@).insert(hash@), now)),
    {
        self.add_hash_at(path, hash, now)
    }

    /// Records the hash of content pushed to the server, so that its echo is skipped.
    pub fn add_outbound(&mut self, path: &str, hash: &str)
        requires
            old(self).wf(),
        ensures
            final(self).wf(),
            final(self).ttl() == old(self).ttl(),
            final(self)@.dom() == old(self)@.dom().insert(path@),
            final(self)@[path@].0 == old(self).hashes_of(path@).insert(hash@),
            forall|p: Seq<char>| p != path@ && #[trigger] old(self)@.contains_key(p) ==> final(self)@[p] == old(self)@[p],
            exists|now: u128| final(self)@ == #[trigger] old(self).after_add(path@, hash@, now),
    {
        let now = self.now();
        self.add_hash_at(path, hash, now);
        assert(self@ == old(self).after_add(path@, hash@, now));
    }

    /// Records the hash of content received from the server and written to
    /// disk, at clock reading `now`.
    pub fn add_inbound_at(&mut self, path: &str, hash: &str, now: u128)
        requires
            old(self).wf(),
        ensures
            final(self).wf(),
            final(self).ttl() == old(self).ttl(),
            final(self)@ == old(self)@.insert(path@, (old(self).hashes_of(path@).insert(hash@), now)),
    {
        self.add_hash_at(path, hash, now)
    }

    /// Records the hash of content received from the server and written to
    /// disk, so that the watcher's report of that write is skipped.
    pub fn add_inbound(&mut self, path: &str, hash: &str)
        requires
            old(self).wf(),
        ensures
            final(self).wf(),
            final(self).ttl() == old(self).ttl(),
            final(self)@.dom() == old(self)@.dom().insert(path@),
            final(self)@[path@].0 == old(self).hashes_of(path@).insert(hash@),
            forall|p: Seq<char>| p != path@ && #[trigger] old(self)@.contains_key(p) ==> final(self)@[p] == old(self)@[p],
            exists|now: u128| final(self)@ == #[trigger] old(self).after_add(path@, hash@, now),
    {
        let now = self.now();
        self.add_hash_at(path, hash, now);
        assert(self@ == old(self).after_add(path@, hash@, now));
    }

    /// Whether an operation on `path` with `hash` is an echo to skip at
    /// clock reading `now`.
    pub fn should_skip_at(&self, path: &str, hash: &str, now: u128) -> (r: bool)
        requires
            self.wf(),
        ensures
            r == self.skips_at(path@, hash@, now),
    {
        match self.find(path) {
            Some(i) => {
                let e = &self.entries[i];
                proof {
                    self.lemma_paths_index(i as int);
                    assert(self.paths().contains(self.paths()[i as int]));
                }
                if e.hashes.contains(hash) {
                    let age: u128 = if now >= e.stamp { now - e.stamp } else { 0 };
                    age < self.ttl_nanos
                } else {
                    false
                }
            },
            None => false,
        }
    }

    /// Whether an operation on `path` with `hash` is an echo to skip: the
    /// hash is held for the path and the entry has not expired.
    pub fn should_skip(&self, path: &str, hash: &str) -> (r: bool)
        requires
            self.wf(),
        ensures
            r ==> self.holds(path@, hash@),
            exists|now: u128| r == #[trigger] self.skips_at(path@, hash@, now),
    {
        let now = self.now();
        let r = self.should_skip_at(path, hash, now);
        assert(r == self.skips_at(path@, hash@, now));
        r
    }

    /// Marks `path` as deleted at clock reading `now`.
    pub fn mark_deleted_at(&mut self, path: &str, now: u128)
        requires
            old(self).wf(),
        ensures
            final(self).wf(),
            final(self).ttl() == old(self).ttl(),
            final(self)@ == old(self)@.insert(path@, (old(self).hashes_of(path@).insert(DELETED_MARKER@), now)),
    {
        self.add_hash_at(path, DELETED_MARKER, now)
    }

    /// Marks `path` as deleted, so that the server's echo of the deletion is skipped.
    pub fn mark_deleted(&mut self, path: &str)
        requires
            old(self).wf(),
        ensures
            final(self).wf(),
            final(self).ttl() == old(self).ttl(),
            final(self)@.dom() == old(self)@.dom().insert(path@),
            final(self)@[path@].0 == old(self).hashes_of(path@).insert(DELETED_MARKER@),
            forall|p: Seq<char>| p != path@ && #[trigger] old(self)@.contains_key(p) ==> final(self)@[p] == old(self)@[p],
            exists|now: u128| final(self)@ == #[trigger] old(self).after_add(path@, DELETED_MARKER@, now),
    {
        let now = self.now();
        self.add_hash_at(path, DELETED_MARKER, now);
        assert(self@ == old(self).after_add(path@, DELETED_MARKER@, now));
    }

    /// Whether `path` is marked as deleted and the mark is alive at clock reading `now`.
    pub fn is_deleted_at(&self, path: &str, now: u128) -> (r: bool)
        requires
            self.wf(),
        ensures
            r == self.skips_at(path@, DELETED_MARKER@, now),
    {
        self.should_skip_at(path, DELETED_MARKER, now)
    }

    /// Whether `path` is marked as deleted and the mark has not expired.
    pub fn is_deleted(&self, path: &str) -> (r: bool)
        requires
            self.wf(),
        ensures
            r ==> self.holds(path@, DELETED_MARKER@),
            exists|now: u128| r == #[trigger] self.skips_at(path@, DELETED_MARKER@, now),
    {
        let now = self.now();
        let r = self.should_skip_at(path, DELETED_MARKER, now);
        assert(r == self.skips_at(path@, DELETED_MARKER@, now));
        r
    }

    /// Forgets `hash` for `path` (after a failed push); the path itself is
    /// forgotten when no hash is left for it.
    pub fn remove(&mut self, path: &str, hash: &str)
        requires
            old(self).wf(),
        ensures
            final(self).wf(),
            final(self).ttl() == old(self).ttl(),
            !final(self).holds(path@, hash@),
            final(self)@ == (if !old(self)@.contains_key(path@) {
                old(self)@
            } else if old(self)@[path@].0.remove(hash@).is_empty() {
                old(self)@.remove(path@)
            } else {
                old(self)@.insert(path@, (old(self)@[path@].0.remove(hash@), old(self)@[path@].1))
            }),
    {
        let ghost old_self = *self;
        match self.find(path) {
            Some(i) => {
                let mut e = self.take_entry(i);
                e.hashes.remove(hash);
                if !e.hashes.is_empty() {
                    self.put_entry(e);
                    proof {
                        assert(self@ =~= old_self@.insert(
                            path@,
                            (old_self@[path@].0.remove(hash@), old_self@[path@].1),
                        ));
                    }
                }
            },
            None => {},
        }
    }

    /// Forgets everything held for `path`.
    pub fn clear_path(&mut self, path: &str)
        requires
            old(self).wf(),
        ensures
            final(self).wf(),
            final(self).ttl() == old(self).ttl(),
            final(self)@ == old(self)@.remove(path@),
    {
        let ghost old_self = *self;
        match self.find(path) {
            Some(i) => {
                let _e = self.take_entry(i);
            },
            None => {
                proof {
                    assert(old_self@.remove(path@) =~= old_self@);
                }
            },
        }
    }

    /// Drops every entry that has expired at clock reading `now`.
    pub fn cleanup_expired_at(&mut self, now: u128)
        requires
            old(self).wf(),
        ensures
            final(self).wf(),
            final(self).ttl() == old(self).ttl(),
            forall|p: Seq<char>| #[trigger] final(self)@.contains_key(p) <==> (old(self)@.contains_key(p) && is_fresh(old(self)@[p].1, now, old(self).ttl())),
            forall|p: Seq<char>| #[trigger] final(self)@.contains_key(p) ==> final(self)@[p] == old(self)@[p],
    {
        let ghost old_self = *self;
        let mut i: usize = 0;
        while i < self.entries.len()
            invariant
                self.wf(),
                self.ttl() == old_self.ttl(),
                i <= self.entries@.len(),
                forall|k: int| 0 <= k < i ==> is_fresh(#[trigger] self.entries@[k].stamp, now, self.ttl()),
                forall|p: Seq<char>| #[trigger] self@.contains_key(p) ==> old_self@.contains_key(p) && self@[p] == old_self@[p],
                forall|p: Seq<char>| old_self@.contains_key(p) && is_fresh(old_self@[p].1, now, old_self.ttl()) ==> #[trigger] self@.contains_key(p),
            decreases self.entries@.len() - i,
        {
            let stamp = self.entries[i].stamp;
            let age: u128 = if now >= stamp { now - stamp } else { 0 };
            if age < self.ttl_nanos {
                i += 1;
            } else {
                let ghost before = *self;
                proof {
                    before.lemma_paths_index(i as int);
                    assert(before.paths().contains(before.paths()[i as int]));
                }
                let _e = self.take_entry(i);
                proof {
                    assert forall|k: int| 0 <= k < i implies is_fresh(#[trigger] self.entries@[k].stamp, now, self.ttl()) by {
                        assert(self.entries@[k] == before.entries@[k]);
                    }
                }
            }
        }
        proof {
            assert forall|p: Seq<char>| #[trigger] self@.contains_key(p) implies is_fresh(old_self@[p].1, now, old_self.ttl()) by {
                assert(self.paths().to_set().contains(p));
                let k = choose|k: int| 0 <= k < self.paths().len() && self.paths()[k] == p;
                self.lemma_paths_index(k);
                assert(self@[self.entries@[k].path@] == (self.entries@[k].hashes@, self.entries@[k].stamp));
            }
        }
    }

    /// Drops every entry that has expired.
    pub fn cleanup_expired(&mut self)
        requires
            old(self).wf(),
        ensures
            final(self).wf(),
            final(self).ttl() == old(self).ttl(),
            forall|p: Seq<char>| #[trigger] final(self)@.contains_key(p) ==> old(self)@.contains_key(p) && final(self)@[p] == old(self)@[p],
            exists|now: u128| #[trigger] old(self).cleaned_at(final(self)@, now),
    {
        let now = self.now();
        self.cleanup_expired_at(now);
        assert(old(self).cleaned_at(self@, now));
    }

    /// Number of paths held.
    pub fn len(&self) -> (r: usize)
        requires
            self.wf(),
        ensures
            r == self@.len(),
    {
        proof {
            self.paths().unique_seq_to_set();
        }
        self.entries.len()
    }

    /// Whether no path is held.
    pub fn is_empty(&self) -> (r: bool)
        requires
            self.wf(),
        ensures
            r == (self@.len() == 0),
    {
        proof {
            self.paths().unique_seq_to_set();
        }
        self.entries.len() == 0
    }
}

/// Once a hash is recorded for a path at clock reading `t`, an operation on
/// that path with that hash is skipped at every later reading `now` exactly
/// while less than the time-to-live has passed since `t`.
pub proof fn lemma_recorded_hash_skipped_within_ttl(
    before: EchoCache,
    after: EchoCache,
    path: Seq<char>,
    hash: Seq<char>,
    t: u128,
    now: u128,
)
    requires
        after@ == before@.insert(path, (before.hashes_of(path).insert(hash), t)),
        t <= now,
    ensures
        after.skips_at(path, hash, now) <==> now - t < after.ttl(),
{
}

/// Dropping the expired entries at a clock reading changes no answer at that
/// reading: afterwards a path and hash are skipped exactly when they were
/// skipped before, and the cache holds exactly the paths whose entry was
/// still alive, so its size is their number.
pub proof fn lemma_cleanup_keeps_answers(
    before: EchoCache,
    after: EchoCache,
    now: u128,
    path: Seq<char>,
    hash: Seq<char>,
)
    requires
        after.ttl() == before.ttl(),
        before.cleaned_at(after@, now),
    ensures
        after.skips_at(path, hash, now) == before.skips_at(path, hash, now),
        after@.dom() == before@.dom().filter(|p: Seq<char>| is_fresh(before@[p].1, now, before.ttl())),
        after@.len() == before@.dom().filter(|p: Seq<char>| is_fresh(before@[p].1, now, before.ttl())).len(),
{
    assert(after@.dom() =~= before@.dom().filter(|p: Seq<char>| is_fresh(before@[p].1, now, before.ttl())));
    if before@.contains_key(path) {
        assert(after@.contains_key(path) <==> is_fresh(before@[path].1, now, before.ttl()));
    }
}

impl Default for EchoCache {
    fn default() -> (c: Self)
        ensures
            c.wf(),
            c@ == Map::<Seq<char>, (Set<Seq<char>>, u128)>::empty(),
            c.ttl() == DEFAULT_TTL * NANOS_PER_SEC,
    {
        Self::new()
    }
}

} // verus!
