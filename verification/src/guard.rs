//! Generation-based cooperative cancellation.
//!
//! Each background role (autosave, backup, scheduler, ad-hoc restart) has a
//! monotonically increasing counter.  A loop captures the counter's value
//! when it is spawned and is current only while the live value still equals
//! its captured value; bumping the counter is the sole cancellation
//! mechanism.  A stale loop must exit at its next safe-point without
//! performing its action.

use vstd::prelude::*;

verus! {

/// Fixed period of the autosave loop, in seconds (15 minutes).
pub const AUTOSAVE_PERIOD_SECS: u64 = 900;

/// Fixed period of the backup loop, in seconds (30 minutes).
pub const BACKUP_PERIOD_SECS: u64 = 1800;

/// A per-role generation counter.
#[derive(Clone, Copy, Debug, PartialEq, Eq, Structural)]
pub struct GenerationCounter {
    pub value: u64,
}

/// What a periodic loop does at a safe-point: run its action, or exit
/// because it has been superseded.
#[derive(Clone, Copy, Debug, PartialEq, Eq, Structural)]
pub enum TickDecision {
    /// The loop is current: perform the periodic action.
    RunAction,
    /// The loop is stale: exit with no further observable action.
    Exit,
}

/// The decision a loop holding `captured` makes against the live counter.
pub open spec fn spec_tick(live: u64, captured: u64) -> TickDecision {
    if live == captured {
        TickDecision::RunAction
    } else {
        TickDecision::Exit
    }
}

impl GenerationCounter {
    /// A fresh counter; no generation has been issued yet.
    pub fn new() -> (c: Self)
        ensures
            c.value == 0,
    {
        GenerationCounter { value: 0 }
    }

    /// Supersedes every loop spawned so far and returns the generation the
    /// next loop must capture.
    pub fn bump(&mut self) -> (id: u64)
        requires
            old(self).value < u64::MAX,
        ensures
            final(self).value == old(self).value + 1,
            id == final(self).value,
    {
        self.value = self.value + 1;
        self.value
    }

    /// Whether a loop holding `captured` is still the current one.
    pub fn is_current(&self, captured: u64) -> (r: bool)
        ensures
            r == (self.value == captured),
    {
        self.value == captured
    }

    /// The safe-point check of a periodic loop: exit exactly when stale.
    pub fn tick(&self, captured: u64) -> (r: TickDecision)
        ensures
            r == spec_tick(self.value, captured),
            r is Exit <==> self.value != captured,
    {
        if self.value == captured {
            TickDecision::RunAction
        } else {
            TickDecision::Exit
        }
    }
}

/// After any bump, a loop holding a generation issued earlier decides to
/// exit at its next safe-point: it performs no further action.
pub proof fn lemma_bump_invalidates_prior(live_before: u64, captured: u64, live_after: u64)
    requires
        captured <= live_before,
        live_before < live_after,
    ensures
        spec_tick(live_after, captured) is Exit,
{
}

/// At most one captured generation is current at a time, so after any storm
/// of bumps exactly the loop holding the latest generation remains active.
pub proof fn lemma_at_most_one_current(live: u64, a: u64, b: u64)
    requires
        spec_tick(live, a) is RunAction,
        spec_tick(live, b) is RunAction,
    ensures
        a == b,
{
}

/// One counter per background role, all bumped together when the
/// configuration snapshot is replaced, so that every loop reading the old
/// snapshot goes stale at once.
#[derive(Clone, Copy, Debug, PartialEq, Eq, Structural)]
pub struct RoleGenerations {
    pub autosave: GenerationCounter,
    pub backup: GenerationCounter,
    pub scheduler: GenerationCounter,
    pub restart: GenerationCounter,
}

impl RoleGenerations {
    /// All roles start at generation zero.
    pub fn new() -> (g: Self)
        ensures
            g.autosave.value == 0,
            g.backup.value == 0,
            g.scheduler.value == 0,
            g.restart.value == 0,
    {
        RoleGenerations {
            autosave: GenerationCounter::new(),
            backup: GenerationCounter::new(),
            scheduler: GenerationCounter::new(),
            restart: GenerationCounter::new(),
        }
    }

    /// Bumps the three configuration-driven roles together (a configuration
    /// replacement supersedes their loops as one step) and returns the
    /// generations the replacement loops must capture, in the order
    /// autosave, backup, scheduler.
    pub fn bump_for_update(&mut self) -> (ids: (u64, u64, u64))
        requires
            old(self).autosave.value < u64::MAX,
            old(self).backup.value < u64::MAX,
            old(self).scheduler.value < u64::MAX,
        ensures
            final(self).autosave.value == old(self).autosave.value + 1,
            final(self).backup.value == old(self).backup.value + 1,
            final(self).scheduler.value == old(self).scheduler.value + 1,
            final(self).restart == old(self).restart,
            ids.0 == final(self).autosave.value,
            ids.1 == final(self).backup.value,
            ids.2 == final(self).scheduler.value,
    {
        let a = self.autosave.bump();
        let b = self.backup.bump();
        let s = self.scheduler.bump();
        (a, b, s)
    }
}

} // verus!
