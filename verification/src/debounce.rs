//! Debouncing of file system events.
//!
//! Rapid changes are batched within a window (500 ms by default): only the
//! latest event for each path is kept, and an event is handed out once it has
//! waited for the whole window.
//!
//! Time is counted in nanoseconds since the debouncer was made; the
//! operations that read the clock have twins ending in `_at` that take the
//! reading as an argument and are specified exactly.

use std::time::Instant;
use vstd::prelude::*;
use crate::clock::{instant_now, nanos_since, NANOS_PER_MILLI, is_clock_reading};
use crate::paths::{join_path, join_under, relative_to, relative_under};
use crate::text::str_eq;

verus! {

/// A file system event to be debounced.
#[derive(Debug, Clone, PartialEq, Eq)]
pub enum WatchEvent {
    Created(String),
    Modified(String),
    Deleted(String),
    Moved { from: String, to: String },
}

/// A watch event with its paths as character sequences.
pub enum WatchEventView {
    Created(Seq<char>),
    Modified(Seq<char>),
    Deleted(Seq<char>),
    Moved(Seq<char>, Seq<char>),
}

impl View for WatchEvent {
    type V = WatchEventView;

    open spec fn view(&self) -> WatchEventView {
        match self {
            WatchEvent::Created(p) => WatchEventView::Created(p@),
            WatchEvent::Modified(p) => WatchEventView::Modified(p@),
            WatchEvent::Deleted(p) => WatchEventView::Deleted(p@),
            WatchEvent::Moved { from, to } => WatchEventView::Moved(from@, to@),
        }
    }
}

/// The moves of the files under `from` (the listed `children`) to the same
/// places under `to`; a child that does not lie under `from` is dropped.
pub open spec fn moved_children(children: Seq<Seq<char>>, from: Seq<char>, to: Seq<char>) -> Seq<WatchEventView>
    decreases children.len(),
{
    if children.len() == 0 {
        Seq::empty()
    } else {
        let prev = moved_children(children.drop_last(), from, to);
        match relative_under(children.last(), from) {
            Some(rel) => prev.push(WatchEventView::Moved(children.last(), join_under(to, rel))),
            None => prev,
        }
    }
}

/// The events that a directory event stands for, given the files found under
/// the directory: one deletion per file for a deleted directory, one move per
/// file for a moved one; any other event, or a directory with no file listed,
/// stands for itself.
pub open spec fn expanded_events(event: WatchEventView, children: Seq<Seq<char>>) -> Seq<WatchEventView> {
    match event {
        WatchEventView::Deleted(_) => if children.len() > 0 {
            children.map_values(|c: Seq<char>| WatchEventView::Deleted(c))
        } else {
            seq![event]
        },
        WatchEventView::Moved(from, to) => if children.len() > 0 {
            moved_children(children, from, to)
        } else {
            seq![event]
        },
        _ => seq![event],
    }
}

impl WatchEvent {
    /// The primary path of the event (the source of a move).
    pub open spec fn spec_path(&self) -> Seq<char> {
        match self {
            WatchEvent::Created(p) => p@,
            WatchEvent::Modified(p) => p@,
            WatchEvent::Deleted(p) => p@,
            WatchEvent::Moved { from, .. } => from@,
        }
    }

    /// Returns the primary path associated with this event.
    pub fn path(&self) -> (r: &String)
        ensures
            r@ == self.spec_path(),
    {
        match self {
            WatchEvent::Created(p) => p,
            WatchEvent::Modified(p) => p,
            WatchEvent::Deleted(p) => p,
            WatchEvent::Moved { from, .. } => from,
        }
    }
}

/// Whether an event stamped at `stamp` has waited out the window at `now`
/// (a clock reading before the stamp counts as no time).
pub open spec fn is_ready(stamp: u128, now: u128, window: u128) -> bool {
    (if now >= stamp { now - stamp } else { 0int }) >= window
}

/// Selects the pending events that are ready at `now`.
pub open spec fn ready_at(now: u128, window: u128) -> spec_fn((WatchEvent, u128)) -> bool {
    |x: (WatchEvent, u128)| is_ready(x.1, now, window)
}

/// Selects the pending events that are still waiting at `now`.
pub open spec fn waiting_at(now: u128, window: u128) -> spec_fn((WatchEvent, u128)) -> bool {
    |x: (WatchEvent, u128)| !is_ready(x.1, now, window)
}

/// Selects the pending events whose path is not `path`.
pub open spec fn other_path(path: Seq<char>) -> spec_fn((WatchEvent, u128)) -> bool {
    |x: (WatchEvent, u128)| x.0.spec_path() != path
}

/// The event of a pending entry.
pub open spec fn event_of(x: (WatchEvent, u128)) -> WatchEvent {
    x.0
}

/// The events handed out at `now`, in pending order.
pub open spec fn ready_events(s: Seq<(WatchEvent, u128)>, now: u128, window: u128) -> Seq<WatchEvent> {
    s.filter(ready_at(now, window)).map_values(|x: (WatchEvent, u128)| event_of(x))
}

/// The pending entries after `event` stamped `t` replaces any entry for its path.
pub open spec fn upsert(s: Seq<(WatchEvent, u128)>, event: WatchEvent, t: u128) -> Seq<(WatchEvent, u128)> {
    s.filter(other_path(event.spec_path())).push((event, t))
}

/// No two pending entries are for the same path.
pub open spec fn paths_distinct(s: Seq<(WatchEvent, u128)>) -> bool {
    forall|i: int, j: int| 0 <= i < j < s.len() ==> s[i].0.spec_path() != s[j].0.spec_path()
}

/// Debouncer for file system events: pending events with their stamps.
pub struct Debouncer {
    pending: Vec<(WatchEvent, u128)>,
    window_nanos: u128,
    origin: Instant,
}

impl View for Debouncer {
    type V = Seq<(WatchEvent, u128)>;

    closed spec fn view(&self) -> Self::V {
        self.pending@
    }
}

/// Splits pending entries into the events ready at `now` and the entries
/// still waiting, each in their original order.
fn partition_ready(v: Vec<(WatchEvent, u128)>, now: u128, window: u128) -> (r: (
    Vec<WatchEvent>,
    Vec<(WatchEvent, u128)>,
))
    requires
        paths_distinct(v@),
    ensures
        r.0@ == ready_events(v@, now, window),
        r.1@ == v@.filter(waiting_at(now, window)),
        paths_distinct(r.1@),
{
    let ghost orig = v@;
    let mut v = v;
    let mut ready: Vec<WatchEvent> = Vec::new();
    let mut rest: Vec<(WatchEvent, u128)> = Vec::new();
    let ghost mut k: int = 0;
    while v.len() > 0
        invariant
            0 <= k <= orig.len(),
            v@ == orig.skip(k),
            paths_distinct(orig),
            ready@ == ready_events(orig.take(k), now, window),
            rest@ == orig.take(k).filter(waiting_at(now, window)),
            paths_distinct(rest@),
            forall|j: int| 0 <= j < rest@.len() ==> exists|m: int| 0 <= m < k && #[trigger] rest@[j] == orig[m],
        decreases v@.len(),
    {
        let x = v.remove(0);
        proof {
            assert(x == orig[k]);
            assert(orig.take(k + 1) =~= orig.take(k).push(x));
            orig.take(k).lemma_filter_push(x, ready_at(now, window));
            orig.take(k).lemma_filter_push(x, waiting_at(now, window));
            orig.take(k).filter(ready_at(now, window)).lemma_push_map_commute(|x: (WatchEvent, u128)| event_of(x), x);
        }
        let age: u128 = if now >= x.1 { now - x.1 } else { 0 };
        if age >= window {
            ready.push(x.0);
        } else {
            let ghost before = rest@;
            rest.push(x);
            proof {
                assert forall|a: int, b: int| 0 <= a < b < rest@.len() implies rest@[a].0.spec_path() != rest@[b].0.spec_path() by {
                    if b == rest@.len() - 1 {
                        assert(rest@[a] == before[a]);
                        let m = choose|m: int| 0 <= m < k && before[a] == orig[m];
                        assert(orig[m].0.spec_path() != orig[k].0.spec_path());
                    } else {
                        assert(rest@[a] == before[a]);
                        assert(rest@[b] == before[b]);
                    }
                }
                assert forall|j: int| 0 <= j < rest@.len() implies exists|m: int| 0 <= m < k + 1 && #[trigger] rest@[j] == orig[m] by {
                    if j == rest@.len() - 1 {
                        assert(rest@[j] == orig[k]);
                    } else {
                        assert(rest@[j] == before[j]);
                        let m = choose|m: int| 0 <= m < k && before[j] == orig[m];
                        assert(rest@[j] == orig[m]);
                    }
                }
            }
        }
        proof {
            k = k + 1;
            assert(v@ =~= orig.skip(k));
        }
    }
    proof {
        assert(orig.take(k) =~= orig);
    }
    (ready, rest)
}

/// Keeps the pending entries whose path is not `path`, in order.
fn without_path(v: Vec<(WatchEvent, u128)>, path: &String) -> (r: Vec<(WatchEvent, u128)>)
    requires
        paths_distinct(v@),
    ensures
        r@ == v@.filter(other_path(path@)),
        paths_distinct(r@),
        forall|j: int| 0 <= j < r@.len() ==> (#[trigger] r@[j]).0.spec_path() != path@,
{
    let ghost orig = v@;
    let mut v = v;
    let mut rest: Vec<(WatchEvent, u128)> = Vec::new();
    let ghost mut k: int = 0;
    while v.len() > 0
        invariant
            0 <= k <= orig.len(),
            v@ == orig.skip(k),
            paths_distinct(orig),
            rest@ == orig.take(k).filter(other_path(path@)),
            paths_distinct(rest@),
            forall|j: int| 0 <= j < rest@.len() ==> (#[trigger] rest@[j]).0.spec_path() != path@,
            forall|j: int| 0 <= j < rest@.len() ==> exists|m: int| 0 <= m < k && #[trigger] rest@[j] == orig[m],
        decreases v@.len(),
    {
        let x = v.remove(0);
        proof {
            assert(x == orig[k]);
            assert(orig.take(k + 1) =~= orig.take(k).push(x));
            orig.take(k).lemma_filter_push(x, other_path(path@));
        }
        if !str_eq(x.0.path().as_str(), path.as_str()) {
            let ghost before = rest@;
            rest.push(x);
            proof {
                assert forall|a: int, b: int| 0 <= a < b < rest@.len() implies rest@[a].0.spec_path() != rest@[b].0.spec_path() by {
                    if b == rest@.len() - 1 {
                        assert(rest@[a] == before[a]);
                        let m = choose|m: int| 0 <= m < k && before[a] == orig[m];
                        assert(orig[m].0.spec_path() != orig[k].0.spec_path());
                    } else {
                        assert(rest@[a] == before[a]);
                        assert(rest@[b] == before[b]);
                    }
                }
                assert forall|j: int| 0 <= j < rest@.len() implies exists|m: int| 0 <= m < k + 1 && #[trigger] rest@[j] == orig[m] by {
                    if j == rest@.len() - 1 {
                        assert(rest@[j] == orig[k]);
                    } else {
                        assert(rest@[j] == before[j]);
                        let m = choose|m: int| 0 <= m < k && before[j] == orig[m];
                        assert(rest@[j] == orig[m]);
                    }
                }
                assert forall|j: int| 0 <= j < rest@.len() implies (#[trigger] rest@[j]).0.spec_path() != path@ by {
                    if j < rest@.len() - 1 {
                        assert(rest@[j] == before[j]);
                    }
                }
            }
        }
        proof {
            k = k + 1;
            assert(v@ =~= orig.skip(k));
        }
    }
    proof {
        assert(orig.take(k) =~= orig);
    }
    rest
}

impl Debouncer {
    /// The debounce window, in nanoseconds.
    pub closed spec fn window(&self) -> u128 {
        self.window_nanos
    }

    /// The debouncer's internal invariant: at most one pending event per path.
    pub open spec fn wf(&self) -> bool {
        paths_distinct(self@)
    }

    /// A debouncer with a window of `debounce_ms` milliseconds.
    pub fn new(debounce_ms: u64) -> (d: Self)
        ensures
            d.wf(),
            d@ == Seq::<(WatchEvent, u128)>::empty(),
            d.window() == debounce_ms * NANOS_PER_MILLI,
    {
        let window_nanos: u128 = (debounce_ms as u128) * NANOS_PER_MILLI;
        let d = Debouncer { pending: Vec::new(), window_nanos, origin: instant_now() };
        proof {
            assert(d@ =~= Seq::<(WatchEvent, u128)>::empty());
        }
        d
    }

    /// The clock reading used by the operations without `_at`.
    fn now(&self) -> (r: u128)
        ensures
            is_clock_reading(r),
    {
        nanos_since(&self.origin)
    }

    /// Hands out and removes the events that are ready at clock reading `now`.
    pub fn tick_at(&mut self, now: u128) -> (r: Vec<WatchEvent>)
        requires
            old(self).wf(),
        ensures
            final(self).wf(),
            final(self).window() == old(self).window(),
            r@ == ready_events(old(self)@, now, old(self).window()),
            final(self)@ == old(self)@.filter(waiting_at(now, old(self).window())),
    {
        let mut taken: Vec<(WatchEvent, u128)> = Vec::new();
        std::mem::swap(&mut taken, &mut self.pending);
        let (ready, rest) = partition_ready(taken, now, self.window_nanos);
        self.pending = rest;
        ready
    }

    /// Hands out and removes the events that have waited out the window.
    pub fn tick(&mut self) -> (r: Vec<WatchEvent>)
        requires
            old(self).wf(),
        ensures
            final(self).wf(),
            final(self).window() == old(self).window(),
            exists|now: u128|
                r@ == ready_events(old(self)@, now, old(self).window()) && final(self)@ == old(self)@.filter(
                    waiting_at(now, old(self).window()),
                ),
    {
        let now = self.now();
        self.tick_at(now)
    }

    /// Queues `event` at clock reading `now`, replacing any pending event for
    /// the same path, then hands out the events ready at `now`.
    pub fn add_event_at(&mut self, event: WatchEvent, now: u128) -> (r: Vec<WatchEvent>)
        requires
            old(self).wf(),
        ensures
            final(self).wf(),
            final(self).window() == old(self).window(),
            r@ == ready_events(upsert(old(self)@, event, now), now, old(self).window()),
            final(self)@ == upsert(old(self)@, event, now).filter(waiting_at(now, old(self).window())),
    {
        let mut taken: Vec<(WatchEvent, u128)> = Vec::new();
        std::mem::swap(&mut taken, &mut self.pending);
        let path = event.path().clone();
        let mut rest = without_path(taken, &path);
        let ghost before = rest@;
        rest.push((event, now));
        proof {
            assert forall|a: int, b: int| 0 <= a < b < rest@.len() implies rest@[a].0.spec_path() != rest@[b].0.spec_path() by {
                assert(rest@[a] == before[a]);
                if b < rest@.len() - 1 {
                    assert(rest@[b] == before[b]);
                }
            }
        }
        self.pending = rest;
        self.tick_at(now)
    }

    /// Queues `event`, replacing any pending event for the same path, then
    /// hands out the events that have waited out the window.
    pub fn add_event(&mut self, event: WatchEvent) -> (r: Vec<WatchEvent>)
        requires
            old(self).wf(),
        ensures
            final(self).wf(),
            final(self).window() == old(self).window(),
            exists|now: u128|
                r@ == ready_events(upsert(old(self)@, event, now), now, old(self).window()) && final(self)@
                    == upsert(old(self)@, event, now).filter(waiting_at(now, old(self).window())),
    {
        let now = self.now();
        self.add_event_at(event, now)
    }

    /// Expands a directory event into events for the files under it.
    /// `children` are the files found under the event's directory (empty when
    /// the path is not a directory or no longer exists).
    pub fn expand_directory_event(&self, event: WatchEvent, children: Vec<String>) -> (r: Vec<WatchEvent>)
        ensures
            r@.map_values(|e: WatchEvent| e@) == expanded_events(event@, children@.map_values(|c: String| c@)),
    {
        let ghost cv = children@.map_values(|c: String| c@);
        match &event {
            WatchEvent::Deleted(_) => {
                if children.len() > 0 {
                    let mut out: Vec<WatchEvent> = Vec::new();
                    let mut i: usize = 0;
                    while i < children.len()
                        invariant
                            i <= children@.len(),
                            cv == children@.map_values(|c: String| c@),
                            out@.map_values(|e: WatchEvent| e@) == cv.take(i as int).map_values(
                                |c: Seq<char>| WatchEventView::Deleted(c),
                            ),
                        decreases children@.len() - i,
                    {
                        let c = children[i].clone();
                        proof {
                            assert(cv[i as int] == children@[i as int]@);
                            assert(cv.take(i + 1) =~= cv.take(i as int).push(c@));
                        }
                        let ghost before = out@;
                        out.push(WatchEvent::Deleted(c));
                        i += 1;
                        proof {
                            let lhs = out@.map_values(|e: WatchEvent| e@);
                            let rhs = cv.take(i as int).map_values(|c: Seq<char>| WatchEventView::Deleted(c));
                            let prev = cv.take(i - 1).map_values(|c: Seq<char>| WatchEventView::Deleted(c));
                            assert(before.map_values(|e: WatchEvent| e@) == prev);
                            assert forall|j: int| 0 <= j < lhs.len() implies lhs[j] == rhs[j] by {
                                if j < lhs.len() - 1 {
                                    assert(lhs[j] == before.map_values(|e: WatchEvent| e@)[j]);
                                    assert(prev[j] == rhs[j]);
                                }
                            }
                            assert(lhs =~= rhs);
                        }
                    }
                    proof {
                        assert(cv.take(i as int) =~= cv);
                    }
                    return out;
                }
            },
            WatchEvent::Moved { from, to } => {
                if children.len() > 0 {
                    let mut out: Vec<WatchEvent> = Vec::new();
                    let mut i: usize = 0;
                    while i < children.len()
                        invariant
                            i <= children@.len(),
                            cv == children@.map_values(|c: String| c@),
                            out@.map_values(|e: WatchEvent| e@) == moved_children(cv.take(i as int), from@, to@),
                        decreases children@.len() - i,
                    {
                        let child = &children[i];
                        proof {
                            assert(cv.take(i + 1).drop_last() =~= cv.take(i as int));
                            assert(cv.take(i + 1).last() == child@);
                        }
                        match relative_to(child.as_str(), from.as_str()) {
                            Some(rel) => {
                                let new_path = join_path(to.as_str(), rel.as_str());
                                out.push(WatchEvent::Moved { from: child.clone(), to: new_path });
                                proof {
                                    assert(out@.map_values(|e: WatchEvent| e@) =~= moved_children(
                                        cv.take(i + 1),
                                        from@,
                                        to@,
                                    ));
                                }
                            },
                            None => {},
                        }
                        i += 1;
                    }
                    proof {
                        assert(cv.take(i as int) =~= cv);
                    }
                    return out;
                }
            },
            _ => {},
        }
        proof {
            assert(children@.len() == 0 ==> cv.len() == 0);
        }
        vec![event]
    }

    /// Number of pending events.
    pub fn pending_count(&self) -> (r: usize)
        ensures
            r == self@.len(),
    {
        self.pending.len()
    }

    /// Whether no event is pending.
    pub fn is_empty(&self) -> (r: bool)
        ensures
            r == (self@.len() == 0),
    {
        self.pending.len() == 0
    }
}

/// A tick loses no event: every pending event is either handed out or
/// still pending afterwards.
pub proof fn lemma_tick_keeps_every_event(s: Seq<(WatchEvent, u128)>, now: u128, window: u128)
    ensures
        ready_events(s, now, window).len() + s.filter(waiting_at(now, window)).len() == s.len(),
    decreases s.len(),
{
    if s.len() > 0 {
        lemma_tick_keeps_every_event(s.drop_last(), now, window);
        assert(s =~= s.drop_last().push(s.last()));
        s.drop_last().lemma_filter_push(s.last(), ready_at(now, window));
        s.drop_last().lemma_filter_push(s.last(), waiting_at(now, window));
    }
}

/// The latest event for a path wins: right after an event is queued with a
/// non-zero window, it is the one pending event for its path.
pub proof fn lemma_latest_event_wins(s: Seq<(WatchEvent, u128)>, event: WatchEvent, now: u128, window: u128)
    requires
        window > 0,
    ensures
        ({
            let after = upsert(s, event, now).filter(waiting_at(now, window));
            &&& after.contains((event, now))
            &&& forall|i: int| 0 <= i < after.len() && (#[trigger] after[i]).0.spec_path() == event.spec_path() ==> after[i] == (event, now)
        }),
{
    let kept = s.filter(other_path(event.spec_path()));
    kept.lemma_filter_push((event, now), waiting_at(now, window));
    let after = upsert(s, event, now).filter(waiting_at(now, window));
    let k2 = kept.filter(waiting_at(now, window));
    assert(after == k2.push((event, now)));
    assert(after[after.len() - 1] == (event, now));
    assert forall|i: int| 0 <= i < after.len() && (#[trigger] after[i]).0.spec_path() == event.spec_path() implies after[i] == (event, now) by {
        if i < after.len() - 1 {
            assert(after[i] == k2[i]);
            assert(k2.contains(k2[i]));
            kept.lemma_filter_contains_rev(waiting_at(now, window), k2[i]);
            let j = choose|j: int| 0 <= j < kept.len() && kept[j] == k2[i];
            s.lemma_filter_pred(other_path(event.spec_path()), j);
        }
    }
}

impl Default for Debouncer {
    fn default() -> (d: Self)
        ensures
            d.wf(),
            d@ == Seq::<(WatchEvent, u128)>::empty(),
            d.window() == 500 * NANOS_PER_MILLI,
    {
        Self::new(500)
    }
}

} // verus!
