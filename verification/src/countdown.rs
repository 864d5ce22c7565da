//! Staged restart warnings.
//!
//! Before a restart deadline, warnings go out at fixed checkpoints: 60, 30,
//! 20, 10 and 5 seconds before the deadline, skipping checkpoints larger
//! than the requested lead time.  The plan computed here lists, for each
//! retained checkpoint, how long to sleep before announcing it, plus a
//! final sleep, such that the total elapsed time equals the lead time.

use vstd::prelude::*;

use crate::strutil::{concat3, decimal_of, u64_to_string};

verus! {

/// The checkpoints retained for a lead time of `total` seconds: the fixed
/// offsets 60, 30, 20, 10, 5 that do not exceed it, largest first.
pub open spec fn spec_retained_checkpoints(total: u64) -> Seq<u64> {
    if total >= 60 {
        seq![60u64, 30u64, 20u64, 10u64, 5u64]
    } else if total >= 30 {
        seq![30u64, 20u64, 10u64, 5u64]
    } else if total >= 20 {
        seq![20u64, 10u64, 5u64]
    } else if total >= 10 {
        seq![10u64, 5u64]
    } else if total >= 5 {
        seq![5u64]
    } else {
        Seq::empty()
    }
}

/// One stage of the countdown: sleep, then announce the checkpoint.
#[derive(Clone, Copy, Debug, PartialEq, Eq, Structural)]
pub struct CountdownStep {
    /// Seconds to sleep before this announcement.
    pub sleep_before: u64,
    /// Seconds-before-deadline announced at this stage.
    pub checkpoint: u64,
}

/// The whole countdown: the staged announcements, then a final sleep that
/// carries the clock to the deadline itself.
pub struct CountdownPlan {
    pub steps: Vec<CountdownStep>,
    pub final_sleep: u64,
}

/// Total seconds slept across the listed steps.
pub open spec fn spec_sleep_sum(steps: Seq<CountdownStep>) -> int
    decreases steps.len(),
{
    if steps.len() == 0 {
        0
    } else {
        spec_sleep_sum(steps.drop_last()) + steps.last().sleep_before
    }
}

/// Computes the countdown plan for a lead time of `total` seconds.
///
/// The announced checkpoints are exactly the fixed offsets not exceeding
/// the lead time, in descending order; each stage sleeps the gap from the
/// previous checkpoint (from the lead time, for the first); and all sleeps
/// together, final one included, amount exactly to the lead time.
pub fn countdown_plan(total: u64) -> (p: CountdownPlan)
    ensures
        p.steps@.len() == spec_retained_checkpoints(total).len(),
        forall|i: int|
            0 <= i < p.steps@.len() ==> p.steps@[i].checkpoint == spec_retained_checkpoints(
                total,
            )[i],
        p.steps@.len() > 0 ==> p.steps@[0].sleep_before == total - spec_retained_checkpoints(
            total,
        )[0],
        forall|i: int|
            1 <= i < p.steps@.len() ==> p.steps@[i].sleep_before == spec_retained_checkpoints(
                total,
            )[i - 1] - spec_retained_checkpoints(total)[i],
        p.final_sleep == (if spec_retained_checkpoints(total).len() > 0 {
            spec_retained_checkpoints(total).last() as int
        } else {
            total as int
        }),
        spec_sleep_sum(p.steps@) + p.final_sleep == total,
{
    let ghost cps = spec_retained_checkpoints(total);
    let mut retained: Vec<u64> = Vec::new();
    if total >= 60 {
        retained.push(60);
    }
    if total >= 30 {
        retained.push(30);
    }
    if total >= 20 {
        retained.push(20);
    }
    if total >= 10 {
        retained.push(10);
    }
    if total >= 5 {
        retained.push(5);
    }
    proof {
        assert(retained@ =~= cps);
    }
    let n = retained.len();
    let mut steps: Vec<CountdownStep> = Vec::new();
    let mut remaining = total;
    let mut i: usize = 0;
    while i < n
        invariant
            i <= n,
            n == cps.len(),
            retained@ == cps,
            cps == spec_retained_checkpoints(total),
            forall|j: int| 0 <= j < cps.len() ==> cps[j] <= total,
            forall|j: int| 0 < j < cps.len() ==> cps[j - 1] > #[trigger] cps[j],
            remaining == (if i == 0 {
                total as int
            } else {
                cps[i - 1] as int
            }),
            steps@.len() == i,
            forall|j: int| 0 <= j < i ==> steps@[j].checkpoint == cps[j],
            i > 0 ==> steps@[0].sleep_before == total - cps[0],
            forall|j: int| 1 <= j < i ==> steps@[j].sleep_before == cps[j - 1] - cps[j],
            spec_sleep_sum(steps@) == total - remaining,
        decreases n - i,
    {
        let cp = retained[i];
        assert(remaining >= cp);
        let sleep = remaining - cp;
        let ghost prev = steps@;
        steps.push(CountdownStep { sleep_before: sleep, checkpoint: cp });
        proof {
            assert(steps@.drop_last() =~= prev);
        }
        remaining = cp;
        i += 1;
    }
    CountdownPlan { steps, final_sleep: remaining }
}

/// The warning text for one checkpoint: the final 5-second checkpoint gets
/// the explicit log-off notice, earlier ones the remaining-seconds form.
pub fn checkpoint_message(cp: u64) -> (r: String)
    ensures
        cp == 5 ==> r@ == "Log off now"@,
        cp != 5 ==> r@ == "Restart in "@ + decimal_of(cp as nat) + " seconds."@,
{
    if cp == 5 {
        "Log off now".to_owned()
    } else {
        let num = u64_to_string(cp);
        concat3("Restart in ", num.as_str(), " seconds.")
    }
}

} // verus!
