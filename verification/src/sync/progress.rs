//! Progress of one sync exchange: how many changes the server announced in
//! its end message, how many have been handled, and whether the exchange is
//! complete.

use vstd::prelude::*;

verus! {

/// Counters of a sync exchange.
#[derive(Debug, Clone, Copy, PartialEq, Eq, Structural)]
pub struct Progress {
    /// Modifications announced by the server.
    pub expected_modify: usize,
    /// Deletions announced by the server.
    pub expected_delete: usize,
    /// Uploads requested by the server.
    pub expected_upload: usize,
    /// Modifications handled.
    pub received_modify: usize,
    /// Deletions handled.
    pub received_delete: usize,
    /// Uploads handled.
    pub received_upload: usize,
    /// Whether the end message has arrived.
    pub got_end: bool,
    /// Whether the exchange is complete.
    pub sync_complete: bool,
    /// The sync time the server reported, to be committed.
    pub pending_last_time: i64,
}

impl Progress {
    /// Changes announced in all.
    pub open spec fn total_expected(&self) -> int {
        self.expected_modify + self.expected_delete + self.expected_upload
    }

    /// Changes handled in all.
    pub open spec fn total_received(&self) -> int {
        self.received_modify + self.received_delete + self.received_upload
    }

    /// The totals fit in a `usize`.
    pub open spec fn wf(&self) -> bool {
        self.total_expected() <= usize::MAX && self.total_received() <= usize::MAX
    }

    /// The counters of an exchange that has not begun.
    pub open spec fn spec_fresh() -> Progress {
        Progress {
            expected_modify: 0,
            expected_delete: 0,
            expected_upload: 0,
            received_modify: 0,
            received_delete: 0,
            received_upload: 0,
            got_end: false,
            sync_complete: false,
            pending_last_time: 0,
        }
    }

    /// `self` after the completeness check: complete once the end message
    /// has arrived and at least as many changes were handled as announced.
    pub open spec fn checked(self) -> Progress {
        if self.got_end && self.total_received() >= self.total_expected() {
            Progress { sync_complete: true, ..self }
        } else {
            self
        }
    }

    /// The counters of an exchange that has not begun.
    pub fn fresh() -> (p: Progress)
        ensures
            p == Progress::spec_fresh(),
            p.wf(),
    {
        Progress {
            expected_modify: 0,
            expected_delete: 0,
            expected_upload: 0,
            received_modify: 0,
            received_delete: 0,
            received_upload: 0,
            got_end: false,
            sync_complete: false,
            pending_last_time: 0,
        }
    }

    /// Marks the exchange complete if the end message has arrived and every
    /// announced change was handled.
    pub fn check_all_received(&mut self)
        requires
            old(self).wf(),
        ensures
            *final(self) == old(self).checked(),
            final(self).wf(),
    {
        if !self.got_end {
            return;
        }
        let total_expected = self.expected_modify + self.expected_delete + self.expected_upload;
        let total_received = self.received_modify + self.received_delete + self.received_upload;
        if total_received >= total_expected {
            self.sync_complete = true;
        }
    }

    /// Counts one handled modification, then checks for completeness.
    pub fn count_modify(&mut self)
        requires
            old(self).wf(),
            old(self).total_received() < usize::MAX,
        ensures
            *final(self) == (Progress { received_modify: (old(self).received_modify + 1) as usize, ..*old(self) }).checked(),
            final(self).wf(),
    {
        self.received_modify = self.received_modify + 1;
        self.check_all_received();
    }

    /// Counts one handled deletion, then checks for completeness.
    pub fn count_delete(&mut self)
        requires
            old(self).wf(),
            old(self).total_received() < usize::MAX,
        ensures
            *final(self) == (Progress { received_delete: (old(self).received_delete + 1) as usize, ..*old(self) }).checked(),
            final(self).wf(),
    {
        self.received_delete = self.received_delete + 1;
        self.check_all_received();
    }

    /// Counts one handled upload, then checks for completeness.
    pub fn count_upload(&mut self)
        requires
            old(self).wf(),
            old(self).total_received() < usize::MAX,
        ensures
            *final(self) == (Progress { received_upload: (old(self).received_upload + 1) as usize, ..*old(self) }).checked(),
            final(self).wf(),
    {
        self.received_upload = self.received_upload + 1;
        self.check_all_received();
    }

    /// Counts one handled upload, without the completeness check.
    pub fn add_upload(&mut self)
        requires
            old(self).wf(),
            old(self).total_received() < usize::MAX,
        ensures
            *final(self) == (Progress { received_upload: (old(self).received_upload + 1) as usize, ..*old(self) }),
            final(self).wf(),
    {
        self.received_upload = self.received_upload + 1;
    }

    /// The counters after the end message announcing `need_modify`,
    /// `need_delete` and `need_upload` changes (each converted as `as usize`
    /// converts it) and the sync time `last_time`.
    pub open spec fn spec_after_end(self, last_time: i64, need_modify: i64, need_delete: i64, need_upload: i64) -> Progress {
        let p = Progress {
            pending_last_time: last_time,
            expected_modify: need_modify as usize,
            expected_delete: need_delete as usize,
            expected_upload: need_upload as usize,
            got_end: true,
            ..self
        };
        if p.total_expected() == 0 {
            Progress { sync_complete: true, ..p }
        } else {
            p.checked()
        }
    }

    /// Records the end message: the announced counts and sync time, then
    /// the completeness check (complete at once when nothing was announced).
    pub fn record_end(&mut self, last_time: i64, need_modify: i64, need_delete: i64, need_upload: i64)
        requires
            old(self).wf(),
            (need_modify as usize) + (need_delete as usize) + (need_upload as usize) <= usize::MAX,
        ensures
            *final(self) == old(self).spec_after_end(last_time, need_modify, need_delete, need_upload),
            final(self).wf(),
    {
        self.pending_last_time = last_time;
        self.expected_modify = need_modify as usize;
        self.expected_delete = need_delete as usize;
        self.expected_upload = need_upload as usize;
        self.got_end = true;
        let total_expected = self.expected_modify + self.expected_delete + self.expected_upload;
        if total_expected == 0 {
            self.sync_complete = true;
        } else {
            self.check_all_received();
        }
    }

    /// Whether the exchange is over: the end message arrived and the
    /// exchange is complete.
    pub fn is_done(&self) -> (r: bool)
        ensures
            r == (self.got_end && self.sync_complete),
    {
        self.got_end && self.sync_complete
    }
}

/// Completion is reached exactly when the end message has arrived and the
/// handled changes cover the announced ones: counting a change never
/// completes an exchange before its end message, and once complete an
/// exchange stays complete as more changes are counted.
pub proof fn lemma_completion_needs_end(p: Progress)
    ensures
        !p.got_end && !p.sync_complete ==> !p.checked().sync_complete,
        p.sync_complete ==> p.checked().sync_complete,
        p.got_end && p.total_received() >= p.total_expected() ==> p.checked().sync_complete,
{
}

} // verus!
