//! Backup planning and archive pruning rules.
//!
//! A backup tick archives the configured source directory into a
//! timestamped archive under the destination root (defaulting to a
//! `_backups` folder inside the source), then prunes archives older than
//! the retention window that match the backup naming convention.  The
//! archiver itself is an external collaborator; the decisions live here.

use vstd::prelude::*;

use crate::config::ApiConfig;
use crate::strutil::{
    concat2, concat3, decimal_of, is_prefix_of, is_suffix_of, str_ends_with, str_starts_with,
    u64_to_string,
};

verus! {

/// Days an archive is retained before a tick may prune it.
pub const RETENTION_DAYS: u64 = 3;

/// Why a backup cannot even be planned.
#[derive(Clone, Copy, Debug, PartialEq, Eq, Structural)]
pub enum BackupError {
    /// The configuration's actions-enabled flag is off.
    ActionsDisabled,
    /// No backup source directory is configured.
    SourceNotConfigured,
}

impl BackupError {
    /// A short description of the failure.
    pub fn describe(&self) -> (r: String)
        ensures
            *self is ActionsDisabled ==> r@ == "actions disabled"@,
            *self is SourceNotConfigured ==> r@ == "backup source not configured"@,
    {
        match self {
            BackupError::ActionsDisabled => "actions disabled".to_owned(),
            BackupError::SourceNotConfigured => "backup source not configured".to_owned(),
        }
    }
}

/// Where one backup tick reads from and writes to.
#[derive(Clone, Debug)]
pub struct BackupPlan {
    /// The directory to archive.
    pub source: String,
    /// The directory that receives archives.
    pub dest_root: String,
}

/// Plans one backup: explicit overrides win over the configured
/// directories; with no destination at all, a `_backups` folder inside
/// the source is used.  Fails fast when actions are disabled or no source
/// is available.
pub fn backup_plan(cfg: &ApiConfig, src_override: Option<String>, dest_override: Option<String>)
    -> (r: Result<BackupPlan, BackupError>)
    ensures
        !cfg.allow_actions ==> r == Err::<BackupPlan, BackupError>(BackupError::ActionsDisabled),
        cfg.allow_actions && src_override is None && cfg.backup_dir is None ==> r == Err::<
            BackupPlan,
            BackupError,
        >(BackupError::SourceNotConfigured),
        r matches Ok(p) ==> {
            &&& cfg.allow_actions
            &&& p.source@ == (if src_override is Some {
                src_override->0@
            } else {
                cfg.backup_dir->0@
            })
            &&& p.dest_root@ == (if dest_override is Some {
                dest_override->0@
            } else if cfg.backup_dest_dir is Some {
                cfg.backup_dest_dir->0@
            } else {
                p.source@ + "/_backups"@
            })
        },
        r is Ok <==> (cfg.allow_actions && (src_override is Some || cfg.backup_dir is Some)),
{
    if !cfg.allow_actions {
        return Err(BackupError::ActionsDisabled);
    }
    let source: String = match src_override {
        Some(s) => s,
        None => match &cfg.backup_dir {
            Some(d) => d.clone(),
            None => {
                return Err(BackupError::SourceNotConfigured);
            },
        },
    };
    let dest_root: String = match dest_override {
        Some(d) => d,
        None => match &cfg.backup_dest_dir {
            Some(d) => d.clone(),
            None => concat2(source.as_str(), "/_backups"),
        },
    };
    Ok(BackupPlan { source, dest_root })
}

/// `n` in decimal, zero-padded to at least two digits.
pub open spec fn padded2(n: nat) -> Seq<char> {
    if n < 10 {
        "0"@ + decimal_of(n)
    } else {
        decimal_of(n)
    }
}

fn pad2(n: u64) -> (r: String)
    ensures
        r@ == padded2(n as nat),
{
    let num = u64_to_string(n);
    if n < 10 {
        concat2("0", num.as_str())
    } else {
        num
    }
}

/// The timestamped name of one archive: `backup-YYYYMMDD-HHMMSS.zip`,
/// from a local calendar date and time.
pub open spec fn spec_archive_name(
    year: nat,
    month: nat,
    day: nat,
    hour: nat,
    minute: nat,
    second: nat,
) -> Seq<char> {
    "backup-"@ + decimal_of(year) + padded2(month) + padded2(day) + "-"@ + padded2(hour)
        + padded2(minute) + padded2(second) + ".zip"@
}

/// Builds the archive file name for a backup taken at the given local
/// date and time.
pub fn archive_name(year: u64, month: u64, day: u64, hour: u64, minute: u64, second: u64) -> (r:
    String)
    ensures
        r@ == spec_archive_name(
            year as nat,
            month as nat,
            day as nat,
            hour as nat,
            minute as nat,
            second as nat,
        ),
{
    let y = u64_to_string(year);
    let mo = pad2(month);
    let d = pad2(day);
    let h = pad2(hour);
    let mi = pad2(minute);
    let s = pad2(second);
    let head = concat3("backup-", y.as_str(), mo.as_str());
    let mid = concat3(d.as_str(), "-", h.as_str());
    let tail = concat3(mi.as_str(), s.as_str(), ".zip");
    concat2(head.as_str(), mid.as_str()).concat(tail.as_str())
}

/// A file name follows the backup naming convention: it starts with
/// `backup-` and ends with `.zip`.  Only such files are ever pruned.
pub open spec fn spec_is_backup_archive(name: Seq<char>) -> bool {
    is_prefix_of("backup-"@, name) && is_suffix_of(".zip"@, name)
}

/// Whether a file name names a backup archive.
pub fn is_backup_archive_name(name: &str) -> (r: bool)
    ensures
        r == spec_is_backup_archive(name@),
{
    str_starts_with(name, "backup-") && str_ends_with(name, ".zip")
}

/// The pruning cutoff: `days` before `now` in whole seconds, saturating
/// at the epoch.
pub open spec fn spec_prune_cutoff(now_unix: u64, days: u64) -> u64 {
    if days * 86400 > now_unix {
        0
    } else {
        (now_unix - days * 86400) as u64
    }
}

/// Computes the pruning cutoff instant.
pub fn prune_cutoff(now_unix: u64, days: u64) -> (r: u64)
    requires
        days <= 1000000,
    ensures
        r == spec_prune_cutoff(now_unix, days),
{
    let span = days * 86400;
    if span > now_unix {
        0
    } else {
        now_unix - span
    }
}

/// Whether one directory entry is pruned: it must follow the naming
/// convention and have been modified strictly before the cutoff.
pub fn should_prune(name: &str, modified_unix: u64, cutoff: u64) -> (r: bool)
    ensures
        r == (spec_is_backup_archive(name@) && modified_unix < cutoff),
{
    is_backup_archive_name(name) && modified_unix < cutoff
}

} // verus!
