//! The staged restart state machine.
//!
//! One restart execution moves strictly forward through announcing the
//! countdown, saving, requesting shutdown, waiting for the peer to stop,
//! and relaunching: no stage is skipped and none is revisited.  Errors
//! along the way are recorded but do not abort the sequence.  The driver
//! performs the network and process work of each stage and advances the
//! machine.

use vstd::prelude::*;

use crate::errors::ApiError;
use crate::strutil::{concat3, decimal_of, trim_blank, trimmed_blank, u64_to_string};

verus! {

/// Ceiling on waiting for the peer to stop responding, in seconds.
pub const WAIT_FOR_STOP_CEILING_SECS: u64 = 120;

/// The stages of one restart execution, in order.
#[derive(Clone, Copy, Debug, PartialEq, Eq, Structural)]
pub enum RestartStage {
    /// Staged countdown notices go out.
    Announcing,
    /// One save operation is issued.
    Saving,
    /// Shutdown is requested through payload negotiation.
    ShuttingDown,
    /// The status endpoint is polled until the peer stops responding.
    WaitingForStop,
    /// The configured relaunch command fires (fire-and-forget).
    Relaunching,
    /// The sequence is over.
    Done,
}

/// The position of a stage in the fixed order.
pub open spec fn stage_index(s: RestartStage) -> int {
    match s {
        RestartStage::Announcing => 0,
        RestartStage::Saving => 1,
        RestartStage::ShuttingDown => 2,
        RestartStage::WaitingForStop => 3,
        RestartStage::Relaunching => 4,
        RestartStage::Done => 5,
    }
}

/// The stage that follows `s`.
pub open spec fn spec_next_stage(s: RestartStage) -> RestartStage {
    match s {
        RestartStage::Announcing => RestartStage::Saving,
        RestartStage::Saving => RestartStage::ShuttingDown,
        RestartStage::ShuttingDown => RestartStage::WaitingForStop,
        RestartStage::WaitingForStop => RestartStage::Relaunching,
        RestartStage::Relaunching => RestartStage::Done,
        RestartStage::Done => RestartStage::Done,
    }
}

/// Advancing never moves backwards and never skips: the next stage is one
/// position further until the sequence is done.
pub proof fn lemma_stages_strictly_forward(s: RestartStage)
    ensures
        s != RestartStage::Done ==> stage_index(spec_next_stage(s)) == stage_index(s) + 1,
        spec_next_stage(RestartStage::Done) == RestartStage::Done,
{
}

/// One restart execution: its current stage and the failures recorded so
/// far (recorded, never aborting).
pub struct RestartJob {
    pub stage: RestartStage,
    pub failures: Vec<ApiError>,
}

impl RestartJob {
    /// A fresh execution, about to announce.
    pub fn new() -> (j: Self)
        ensures
            j.stage == RestartStage::Announcing,
            j.failures@.len() == 0,
    {
        RestartJob { stage: RestartStage::Announcing, failures: Vec::new() }
    }

    /// Moves to the next stage when the current one's work is done.
    pub fn advance(&mut self)
        requires
            old(self).stage != RestartStage::Done,
        ensures
            final(self).stage == spec_next_stage(old(self).stage),
            stage_index(final(self).stage) == stage_index(old(self).stage) + 1,
            final(self).failures == old(self).failures,
    {
        self.stage = match self.stage {
            RestartStage::Announcing => RestartStage::Saving,
            RestartStage::Saving => RestartStage::ShuttingDown,
            RestartStage::ShuttingDown => RestartStage::WaitingForStop,
            RestartStage::WaitingForStop => RestartStage::Relaunching,
            RestartStage::Relaunching => RestartStage::Done,
            RestartStage::Done => RestartStage::Done,
        };
    }

    /// Records a failure without leaving the current stage: the sequence
    /// carries on regardless.
    pub fn record_failure(&mut self, e: ApiError)
        ensures
            final(self).stage == old(self).stage,
            final(self).failures@ == old(self).failures@.push(e),
    {
        self.failures.push(e);
    }
}

/// What the wait-for-stop poll decides each second.
#[derive(Clone, Copy, Debug, PartialEq, Eq, Structural)]
pub enum WaitDecision {
    /// The peer stopped responding: proceed, cleanly stopped.
    Stopped,
    /// The ceiling elapsed with the peer still up: proceed anyway.
    TimedOut,
    /// Still up, ceiling not reached: sleep one second and poll again.
    KeepWaiting,
}

/// One step of the wait-for-stop poll: stopped as soon as the peer stops
/// answering, timed out once `waited` reaches the ceiling, else keep
/// polling at one-second intervals.
pub fn wait_step(server_up: bool, waited: u64, max_secs: u64) -> (r: WaitDecision)
    ensures
        !server_up ==> r == WaitDecision::Stopped,
        server_up && waited >= max_secs ==> r == WaitDecision::TimedOut,
        server_up && waited < max_secs ==> r == WaitDecision::KeepWaiting,
{
    if !server_up {
        WaitDecision::Stopped
    } else if waited >= max_secs {
        WaitDecision::TimedOut
    } else {
        WaitDecision::KeepWaiting
    }
}

/// Case-insensitive match against an expected lowercase ASCII character.
pub open spec fn eq_ascii_ci(a: char, lower: char) -> bool {
    a == lower || ('A' <= a && a <= 'Z' && a as int + 32 == lower as int)
}

/// Whether a relaunch command names a batch script: after trimming, it
/// ends in `.bat` (ASCII letters compared case-insensitively).  Such a
/// command runs through the command interpreter; anything else is
/// launched directly.
pub open spec fn spec_runs_via_interpreter(cmd: Seq<char>) -> bool {
    let t = trimmed_blank(cmd);
    &&& t.len() >= 4
    &&& eq_ascii_ci(t[t.len() - 4], '.')
    &&& eq_ascii_ci(t[t.len() - 3], 'b')
    &&& eq_ascii_ci(t[t.len() - 2], 'a')
    &&& eq_ascii_ci(t[t.len() - 1], 't')
}

fn char_eq_ci(a: char, lower: char) -> (r: bool)
    ensures
        r == eq_ascii_ci(a, lower),
{
    a == lower || ('A' <= a && a <= 'Z' && (a as u32) + 32 == lower as u32)
}

/// How the relaunch stage runs the configured command.
#[derive(Clone, Debug)]
pub struct LaunchPlan {
    /// The command exactly as configured.
    pub command: String,
    /// Run through the command interpreter (batch script) rather than
    /// directly.
    pub via_interpreter: bool,
}

/// The relaunch decision: nothing to launch when no command is
/// configured; otherwise the command as configured, through the
/// interpreter exactly when it names a batch script.
pub fn relaunch_plan(start_cmd: &Option<String>) -> (r: Option<LaunchPlan>)
    ensures
        r is Some <==> start_cmd is Some,
        start_cmd matches Some(c) ==> r matches Some(p) && p.command@ == c@ && p.via_interpreter
            == spec_runs_via_interpreter(c@),
{
    match start_cmd {
        None => None,
        Some(cmd) => {
            let t = trim_blank(cmd.as_str());
            let len = t.unicode_len();
            let via_interpreter = if len >= 4 {
                char_eq_ci(t.get_char(len - 4), '.') && char_eq_ci(t.get_char(len - 3), 'b')
                    && char_eq_ci(t.get_char(len - 2), 'a') && char_eq_ci(
                    t.get_char(len - 1),
                    't',
                )
            } else {
                false
            };
            Some(LaunchPlan { command: cmd.clone(), via_interpreter })
        },
    }
}

/// The in-game notice announcing a delayed shutdown: the message, then
/// the delay in seconds.
pub fn delayed_shutdown_notice(msg: &str, seconds: u64) -> (r: String)
    ensures
        r@ == msg@ + " in "@ + decimal_of(seconds as nat) + " seconds."@,
{
    let num = u64_to_string(seconds);
    concat3(msg, " in ", num.as_str()).concat(" seconds.")
}

/// The announcement sent right before shutdown is requested.
pub fn restarting_notice() -> (r: String)
    ensures
        r@ == "Restarting server."@,
{
    "Restarting server.".to_owned()
}

} // verus!
