//! The sync scheduler: decides when a pass over all mailboxes starts.
//!
//! A pass runs once at start-up, then on every timer tick or "sync now"
//! signal. Passes never overlap: a trigger that arrives while one runs is
//! remembered, and any number of them start a single further pass once the
//! current one ends.

use vstd::prelude::*;

verus! {

/// Seconds between two timer-driven passes.
pub const SYNC_INTERVAL_SECS: u64 = 300;

/// What can start a pass.
#[derive(Clone, Copy, Debug, PartialEq, Eq, Structural)]
pub enum Trigger {
    /// The periodic timer fired.
    Tick,
    /// A "sync now" signal arrived (for instance after a mailbox was added).
    SyncNow,
}

/// The scheduler's state: whether a pass runs, and whether another one is
/// owed when it ends.
#[derive(Clone, Copy, Debug, PartialEq, Eq, Structural)]
pub struct Scheduler {
    pub running: bool,
    pub pending: bool,
}

impl Scheduler {
    /// A wake-up is owed only while a pass runs.
    pub open spec fn wf(&self) -> bool {
        self.pending ==> self.running
    }

    /// The scheduler at process start, with its first pass running.
    pub fn startup() -> (r: Scheduler)
        ensures
            r.running,
            !r.pending,
            r.wf(),
    {
        Scheduler { running: true, pending: false }
    }

    /// A trigger arrived. Returns whether a pass starts now; while one runs,
    /// the trigger is coalesced into a single owed pass.
    pub fn on_trigger(&mut self, trigger: Trigger) -> (start: bool)
        requires
            old(self).wf(),
        ensures
            start == !old(self).running,
            final(self).running,
            final(self).pending == old(self).running,
            final(self).wf(),
    {
        if self.running {
            self.pending = true;
            false
        } else {
            self.running = true;
            true
        }
    }

    /// The running pass ended. Returns whether the owed pass starts now.
    pub fn on_pass_finished(&mut self) -> (start: bool)
        requires
            old(self).running,
            old(self).wf(),
        ensures
            start == old(self).pending,
            final(self).running == old(self).pending,
            !final(self).pending,
            final(self).wf(),
    {
        let start = self.pending;
        self.pending = false;
        self.running = start;
        start
    }
}

} // verus!
