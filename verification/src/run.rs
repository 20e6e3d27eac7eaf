//! Run-wide state (cancellation flags and tallies) and the per-batch engine
//! that admits tasks, collects completions in arrival order and renumbers
//! the collected rows.
use vstd::prelude::*;
use crate::item::{CourseItem, Outcome, failed_row, is_blank_failed_row};

verus! {

/// Running tallies of one crawl invocation.
pub struct Tallies {
    pub done: u64,
    pub total: u64,
    pub success: u64,
    pub failed: u64,
    pub ignored: u64,
    pub started: u64,
}

/// Process-wide run state: the user-cancel flag, the per-run auth-failure
/// flag, and the tallies. Both flags are monotonic within a run.
pub struct RunState {
    pub user_cancel: bool,
    pub auth_expired: bool,
    pub tallies: Tallies,
}

/// Every completed task lands in exactly one tally, so `done` is their sum.
pub open spec fn tallies_wf(t: Tallies) -> bool {
    t.done == t.success + t.failed + t.ignored
}

impl RunState {
    /// Fresh state at the start of a run: flags down, tallies zero.
    pub fn start_run(total: u64) -> (st: RunState)
        ensures
            !st.user_cancel,
            !st.auth_expired,
            st.tallies.done == 0,
            st.tallies.success == 0,
            st.tallies.failed == 0,
            st.tallies.ignored == 0,
            st.tallies.started == 0,
            st.tallies.total == total,
            tallies_wf(st.tallies),
    {
        RunState {
            user_cancel: false,
            auth_expired: false,
            tallies: Tallies {
                done: 0,
                total,
                success: 0,
                failed: 0,
                ignored: 0,
                started: 0,
            },
        }
    }

    /// The cancel request: raises the user-cancel flag and touches nothing
    /// else. Idempotent.
    pub fn request_cancel(&mut self)
        ensures
            final(self).user_cancel,
            final(self).auth_expired == old(self).auth_expired,
            final(self).tallies == old(self).tallies,
    {
        self.user_cancel = true;
    }
}

/// A new task may start only while neither cancellation flag is up.
pub open spec fn submit_allowed(st: RunState) -> bool {
    !st.user_cancel && !st.auth_expired
}

/// Whether the run may move on to another batch once the current one has
/// drained: the auth-failure flag is the one condition that ends the batch
/// loop (a user cancel only stops admissions).
pub open spec fn spec_run_continues(st: RunState) -> bool {
    !st.auth_expired
}

/// The batch-loop decision, as the orchestrator asks it.
pub fn run_continues(st: &RunState) -> (b: bool)
    ensures
        b == spec_run_continues(*st),
{
    !st.auth_expired
}

/// What a finished task reports back to the engine.
pub enum Resolution {
    /// The resolver produced a row.
    Row(CourseItem),
    /// The remote rejected the credential: fatal for the run.
    AuthExpired,
    /// Any other transport, decode or API-status failure: non-fatal.
    TransportFailed,
}

/// Drives one batch: admits IDs in ascending order, accepts completions in
/// any order, renumbers collected rows from one.
pub struct BatchEngine {
    /// The batch's IDs, ascending.
    pub ids: Vec<u64>,
    /// How many IDs have been admitted (a prefix of `ids`).
    pub next: usize,
    /// Admitted tasks not yet completed.
    pub in_flight: usize,
    /// Completions that observed an authorization failure (they yield no row).
    pub auth_drops: usize,
    /// Collected rows, in completion order, renumbered.
    pub rows: Vec<CourseItem>,
}

impl BatchEngine {
    /// Everything admitted is either still in flight, collected as a row, or
    /// was dropped by an auth failure; collected rows are numbered `1..=n`.
    pub open spec fn wf(self) -> bool {
        &&& self.next <= self.ids@.len()
        &&& self.in_flight <= self.next
        &&& self.rows@.len() + self.auth_drops + self.in_flight == self.next
        &&& forall|i: int| 0 <= i < self.rows@.len() ==> (#[trigger] self.rows@[i]).index == i + 1
    }

    pub fn new(ids: Vec<u64>) -> (e: BatchEngine)
        ensures
            e.wf(),
            e.ids == ids,
            e.next == 0,
            e.in_flight == 0,
            e.auth_drops == 0,
            e.rows@.len() == 0,
    {
        BatchEngine { ids, next: 0, in_flight: 0, auth_drops: 0, rows: Vec::new() }
    }

    /// The admission decision: there is an ID left and no cancellation flag
    /// is up. Once either flag rises, this is false forever after.
    pub fn can_submit(&self, st: &RunState) -> (b: bool)
        ensures
            b == (submit_allowed(*st) && self.next < self.ids@.len()),
    {
        !st.user_cancel && !st.auth_expired && self.next < self.ids.len()
    }

    /// Admits the next ID of the batch and counts the start.
    pub fn record_submitted(&mut self, st: &mut RunState) -> (id: u64)
        requires
            old(self).wf(),
            submit_allowed(*old(st)),
            old(self).next < old(self).ids@.len(),
            old(st).tallies.started < u64::MAX,
        ensures
            final(self).wf(),
            id == old(self).ids@[old(self).next as int],
            final(self).ids == old(self).ids,
            final(self).next == old(self).next + 1,
            final(self).in_flight == old(self).in_flight + 1,
            final(self).auth_drops == old(self).auth_drops,
            final(self).rows == old(self).rows,
            final(st).user_cancel == old(st).user_cancel,
            final(st).auth_expired == old(st).auth_expired,
            final(st).tallies.started == old(st).tallies.started + 1,
            final(st).tallies.done == old(st).tallies.done,
            final(st).tallies.total == old(st).tallies.total,
            final(st).tallies.success == old(st).tallies.success,
            final(st).tallies.failed == old(st).tallies.failed,
            final(st).tallies.ignored == old(st).tallies.ignored,
    {
        let n = self.ids.len();
        let id = self.ids[self.next];
        proof {
            assert(self.next < n);
        }
        self.next = self.next + 1;
        self.in_flight = self.in_flight + 1;
        st.tallies.started = st.tallies.started + 1;
        id
    }

    /// Accepts one completion, in whatever order tasks finish. A row is
    /// renumbered to the next free index and tallied by its outcome; a
    /// transport failure contributes a synthesized failure row for its ID; an
    /// auth failure raises the run's fatal flag and contributes nothing.
    pub fn record_completion(&mut self, st: &mut RunState, id: u64, res: Resolution)
        requires
            old(self).wf(),
            old(self).in_flight > 0,
            old(st).tallies.done < u64::MAX,
            old(st).tallies.success < u64::MAX,
            old(st).tallies.failed < u64::MAX,
            old(st).tallies.ignored < u64::MAX,
            tallies_wf(old(st).tallies),
        ensures
            final(self).wf(),
            tallies_wf(final(st).tallies),
            final(self).ids == old(self).ids,
            final(self).next == old(self).next,
            final(self).in_flight == old(self).in_flight - 1,
            final(st).user_cancel == old(st).user_cancel,
            final(st).tallies.started == old(st).tallies.started,
            final(st).tallies.total == old(st).tallies.total,
            match res {
                Resolution::Row(it) => {
                    &&& final(self).rows@ == old(self).rows@.push(
                        (CourseItem { index: (old(self).rows@.len() + 1) as usize, ..it }),
                    )
                    &&& final(self).auth_drops == old(self).auth_drops
                    &&& final(st).auth_expired == old(st).auth_expired
                    &&& final(st).tallies.done == old(st).tallies.done + 1
                    &&& final(st).tallies.success == old(st).tallies.success + (
                    if it.result == Outcome::Success {
                        1int
                    } else {
                        0int
                    })
                    &&& final(st).tallies.failed == old(st).tallies.failed + (
                    if it.result == Outcome::Failed {
                        1int
                    } else {
                        0int
                    })
                    &&& final(st).tallies.ignored == old(st).tallies.ignored + (
                    if it.result == Outcome::NotParsed {
                        1int
                    } else {
                        0int
                    })
                },
                Resolution::TransportFailed => {
                    &&& final(self).rows@.len() == old(self).rows@.len() + 1
                    &&& final(self).rows@ == old(self).rows@.push(final(self).rows@.last())
                    &&& is_blank_failed_row(
                        final(self).rows@.last(),
                        id,
                        old(self).rows@.len() as int + 1,
                    )
                    &&& final(self).auth_drops == old(self).auth_drops
                    &&& final(st).auth_expired == old(st).auth_expired
                    &&& final(st).tallies.done == old(st).tallies.done + 1
                    &&& final(st).tallies.success == old(st).tallies.success
                    &&& final(st).tallies.failed == old(st).tallies.failed + 1
                    &&& final(st).tallies.ignored == old(st).tallies.ignored
                },
                Resolution::AuthExpired => {
                    &&& final(self).rows == old(self).rows
                    &&& final(self).auth_drops == old(self).auth_drops + 1
                    &&& final(st).auth_expired
                    &&& final(st).tallies.done == old(st).tallies.done
                    &&& final(st).tallies.success == old(st).tallies.success
                    &&& final(st).tallies.failed == old(st).tallies.failed
                    &&& final(st).tallies.ignored == old(st).tallies.ignored
                },
            },
    {
        self.in_flight = self.in_flight - 1;
        match res {
            Resolution::Row(mut it) => {
                let outcome = it.result;
                it.index = self.rows.len() + 1;
                self.rows.push(it);
                st.tallies.done = st.tallies.done + 1;
                match outcome {
                    Outcome::Success => {
                        st.tallies.success = st.tallies.success + 1;
                    },
                    Outcome::Failed => {
                        st.tallies.failed = st.tallies.failed + 1;
                    },
                    Outcome::NotParsed => {
                        st.tallies.ignored = st.tallies.ignored + 1;
                    },
                }
            },
            Resolution::TransportFailed => {
                let mut it = failed_row(id);
                it.index = self.rows.len() + 1;
                self.rows.push(it);
                st.tallies.done = st.tallies.done + 1;
                st.tallies.failed = st.tallies.failed + 1;
            },
            Resolution::AuthExpired => {
                self.auth_drops = self.auth_drops + 1;
                st.auth_expired = true;
            },
        }
    }
}

/// LAW: once the auth-failure flag is up no later ID may start a task, in
/// this batch or any other — admission is refused whatever the engine holds
/// — and the batch loop does not move on to a further batch.
pub proof fn lemma_auth_failure_blocks_admission(st: RunState)
    requires
        st.auth_expired,
    ensures
        !submit_allowed(st),
        !spec_run_continues(st),
{
}

/// LAW: once the user-cancel flag is up no new task starts; completions of
/// already-admitted tasks are still accepted (`record_completion` does not
/// read the flag) and keep contributing rows and tallies.
pub proof fn lemma_user_cancel_blocks_admission(st: RunState)
    requires
        st.user_cancel,
    ensures
        !submit_allowed(st),
{
}

/// LAW: when a batch has drained, the number of collected rows equals the
/// number of admitted IDs minus those whose task observed an auth failure
/// without producing a row.
pub proof fn lemma_batch_accounting(e: BatchEngine)
    requires
        e.wf(),
        e.in_flight == 0,
    ensures
        e.rows@.len() == e.next - e.auth_drops,
{
}

/// LAW: the indices of the collected rows are exactly `1..=n` with no gaps,
/// whatever order completions arrived in.
pub proof fn lemma_indices_contiguous(e: BatchEngine)
    requires
        e.wf(),
    ensures
        forall|i: int| 0 <= i < e.rows@.len() ==> (#[trigger] e.rows@[i]).index == i + 1,
{
}

} // verus!
