//! The idempotent-save gate and the save operation's reporting.
//!
//! One global flag serializes save attempts: a request that finds the flag
//! already set returns an informational "already in progress" result at
//! once, with no second network attempt; the flag is cleared
//! unconditionally when the one in-flight attempt completes.

use vstd::prelude::*;

use crate::strutil::{concat2, decimal_of, u64_to_string};

verus! {

/// The process-wide save-in-progress flag, exchanged with test-and-set
/// semantics by whoever owns (or locks) it.
#[derive(Clone, Copy, Debug, PartialEq, Eq, Structural)]
pub struct SaveGate {
    pub saving: bool,
}

/// The test-and-set transition: the flag is set afterwards in every case,
/// and the attempt is acquired exactly when the flag was clear before.
pub open spec fn spec_try_begin(g: SaveGate) -> (SaveGate, bool) {
    (SaveGate { saving: true }, !g.saving)
}

impl SaveGate {
    /// Initially no save is in progress.
    pub fn new() -> (g: Self)
        ensures
            !g.saving,
    {
        SaveGate { saving: false }
    }

    /// Claims the save slot.  Returns true when this caller must issue the
    /// one network save attempt, false when a save is already in progress
    /// and this caller must report so without issuing anything.
    pub fn try_begin(&mut self) -> (acquired: bool)
        ensures
            final(self).saving == true,
            acquired == !old(self).saving,
            (*final(self), acquired) == spec_try_begin(*old(self)),
    {
        let was = self.saving;
        self.saving = true;
        !was
    }

    /// Clears the flag when the one attempt completes, whether it
    /// succeeded or failed.
    pub fn finish(&mut self)
        ensures
            final(self).saving == false,
    {
        self.saving = false;
    }
}

/// A single save runs at a time: starting from the idle state the first
/// test-and-set succeeds, and a second test-and-set before `finish`
/// always reports a save already in progress.
pub proof fn lemma_save_gate_idempotent(g: SaveGate)
    ensures
        !g.saving ==> spec_try_begin(g).1,
        !spec_try_begin(spec_try_begin(g).0).1,
{
}

/// The informational result returned to a caller that found a save
/// already in progress.
pub fn save_in_progress_message() -> (r: String)
    ensures
        r@ == "save already in progress"@,
{
    "save already in progress".to_owned()
}

/// The announcement sent when the one save attempt completes, from the
/// status the peer answered with (`None` when the request itself failed).
pub fn save_result_message(status: Option<u16>) -> (r: String)
    ensures
        status is None ==> r@ == "Save error: request failed"@,
        status is Some && crate::errors::spec_is_success(status->0) ==> r@ == "Game saved"@,
        status is Some && !crate::errors::spec_is_success(status->0) ==> r@ == "Save failed: "@
            + decimal_of(status->0 as nat),
{
    match status {
        None => "Save error: request failed".to_owned(),
        Some(s) => {
            if crate::errors::is_success_status(s) {
                "Game saved".to_owned()
            } else {
                let num = u64_to_string(s as u64);
                concat2("Save failed: ", num.as_str())
            }
        },
    }
}

} // verus!
