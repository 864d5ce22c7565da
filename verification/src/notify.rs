//! Notices pushed to the external notification collaborator.
//!
//! Delivery is best-effort and lives outside; here are the severities
//! with their display colors and the notice texts whose wording is part
//! of the control plane's behaviour.

use vstd::prelude::*;

use crate::config::ApiConfig;
use crate::strutil::{concat2, concat3, decimal_of, u64_to_string};

verus! {

/// How important a notice is; decides its display color.
#[derive(Clone, Copy, Debug, PartialEq, Eq, Structural)]
pub enum Severity {
    Info,
    Success,
    Error,
}

/// The display color of a severity (an RGB value: blue for information,
/// green for success, red for failure).
pub fn severity_color(s: Severity) -> (r: u32)
    ensures
        s is Info ==> r == 0x3B82F6,
        s is Success ==> r == 0x22C55E,
        s is Error ==> r == 0xEF4444,
{
    match s {
        Severity::Info => 0x3B82F6,
        Severity::Success => 0x22C55E,
        Severity::Error => 0xEF4444,
    }
}

/// The configured restart times joined with commas, in order.
pub open spec fn spec_join_comma(items: Seq<String>) -> Seq<char>
    decreases items.len(),
{
    if items.len() == 0 {
        Seq::empty()
    } else if items.len() == 1 {
        items.first()@
    } else {
        spec_join_comma(items.drop_last()) + ", "@ + items.last()@
    }
}

/// Joins strings with `", "`.
pub fn join_comma(items: &Vec<String>) -> (r: String)
    ensures
        r@ == spec_join_comma(items@),
{
    let n = items.len();
    let mut out = String::new();
    let mut i: usize = 0;
    while i < n
        invariant
            i <= n,
            n == items@.len(),
            out@ == spec_join_comma(items@.take(i as int)),
        decreases n - i,
    {
        proof {
            assert(items@.take(i + 1).drop_last() =~= items@.take(i as int));
            assert(items@.take(i + 1).last() == items@[i as int]);
            if i + 1 == 1 {
                assert(items@.take(1).first() == items@[0]);
            }
        }
        if i > 0 {
            out.append(", ");
        }
        out.append(items[i].as_str());
        i += 1;
    }
    proof {
        assert(items@.take(n as int) =~= items@);
    }
    out
}

/// The notice sent when the configuration snapshot is replaced: the new
/// base address, the restart times (or `(none)`), and whether actions
/// are enabled.
pub fn config_updated_message(cfg: &ApiConfig) -> (r: String)
    ensures
        r@ == "Config updated. Base: "@ + cfg.base_url@ + " | Restarts: "@ + (
        if cfg.restart_times@.len() == 0 {
            "(none)"@
        } else {
            spec_join_comma(cfg.restart_times@)
        }) + " | Actions: "@ + (if cfg.allow_actions {
            "enabled"@
        } else {
            "disabled"@
        }),
{
    let times: String = if cfg.restart_times.len() == 0 {
        "(none)".to_owned()
    } else {
        join_comma(&cfg.restart_times)
    };
    let actions: &str = if cfg.allow_actions {
        "enabled"
    } else {
        "disabled"
    };
    let head = concat3("Config updated. Base: ", cfg.base_url.as_str(), " | Restarts: ");
    let tail = concat3(times.as_str(), " | Actions: ", actions);
    concat2(head.as_str(), tail.as_str())
}

/// The notice opening an automatic save tick.
pub fn auto_save_started_message() -> (r: String)
    ensures
        r@ == "Auto save started."@,
{
    "Auto save started.".to_owned()
}

/// The notice closing an automatic save tick.
pub fn auto_save_completed_message() -> (r: String)
    ensures
        r@ == "Auto save completed."@,
{
    "Auto save completed.".to_owned()
}

/// The notice for a created backup archive.
pub fn backup_created_message(manual: bool, dest: &str) -> (r: String)
    ensures
        manual ==> r@ == "Manual backup created: "@ + dest@,
        !manual ==> r@ == "Auto backup created: "@ + dest@,
{
    if manual {
        concat2("Manual backup created: ", dest)
    } else {
        concat2("Auto backup created: ", dest)
    }
}

/// The notice for pruned archives: how many were older than the
/// retention window.
pub fn pruned_message(count: u64) -> (r: String)
    ensures
        r@ == "Pruned "@ + decimal_of(count as nat) + " backup(s) older than 3 days."@,
{
    let num = u64_to_string(count);
    concat3("Pruned ", num.as_str(), " backup(s) older than 3 days.")
}

/// The in-game announcement opening a save.
pub fn saving_world_message() -> (r: String)
    ensures
        r@ == "Saving world..."@,
{
    "Saving world...".to_owned()
}

} // verus!
