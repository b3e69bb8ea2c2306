//! The latest-wins mailbox behind the app shell's worker queue.
//!
//! Producers submit values to a one-slot mailbox and a consumer drains it.
//! A submission overwrites a value the consumer has not taken yet, so only
//! the newest value is ever processed (latest-wins coalescing). The threads,
//! the lock and the wake-up signal live around this mailbox.

use vstd::prelude::*;

verus! {

/// A one-slot latest-wins mailbox: at most one value is pending.
pub struct LatestWinsWorker<T> {
    pending: Option<T>,
}

impl<T> View for LatestWinsWorker<T> {
    type V = Option<T>;

    closed spec fn view(&self) -> Option<T> {
        self.pending
    }
}

impl<T> LatestWinsWorker<T> {
    /// An empty mailbox.
    pub fn new() -> (w: Self)
        ensures
            w@ is None,
    {
        LatestWinsWorker { pending: None }
    }

    /// Submits `v` for processing. A value still pending (the consumer is
    /// busy or wedged) is replaced: only the newest value is processed.
    pub fn submit(&mut self, v: T)
        ensures
            final(self)@ == submitted(old(self)@, v),
    {
        self.pending = Some(v);
    }

    /// Takes the pending value, leaving the mailbox empty.
    pub fn take(&mut self) -> (r: Option<T>)
        ensures
            r == old(self)@,
            final(self)@ is None,
    {
        self.pending.take()
    }

    /// Whether no value is pending.
    pub fn is_empty(&self) -> (r: bool)
        ensures
            r == (self@ is None),
    {
        self.pending.is_none()
    }
}

/// The mailbox after `v` is submitted to mailbox `m`: the new value
/// replaces whatever was pending.
pub open spec fn submitted<T>(m: Option<T>, v: T) -> Option<T> {
    Some(v)
}

/// The mailbox after submitting each of `vs` in turn, with no take in
/// between.
pub open spec fn after_submissions<T>(m: Option<T>, vs: Seq<T>) -> Option<T>
    decreases vs.len(),
{
    if vs.len() == 0 {
        m
    } else {
        submitted(after_submissions(m, vs.drop_last()), vs.last())
    }
}

/// Latest wins: whatever was pending before, after a run of submissions
/// with no take in between, the mailbox holds the last value submitted and
/// nothing older, so the consumer's next take gets exactly that value.
pub proof fn law_latest_submission_wins<T>(m: Option<T>, vs: Seq<T>)
    requires
        vs.len() > 0,
    ensures
        after_submissions(m, vs) == Some(vs.last()),
{
}

} // verus!
