//! The configuration snapshot and its atomic replacement.
//!
//! A configuration is held as one immutable snapshot; an update produces a
//! whole new snapshot (never a partial mutation), normalizing the base
//! address and keeping each optional field that the update leaves unset.

use vstd::prelude::*;

use crate::errors::ApiError;
use crate::strutil::{concat2, is_prefix_of, str_starts_with, trim_blank, trimmed_blank};

verus! {

/// The single current configuration.
#[derive(Clone, Debug)]
pub struct ApiConfig {
    /// Endpoint base address; empty means not yet configured.
    pub base_url: String,
    /// Optional credential for the challenge-response header scheme.
    pub password: Option<String>,
    /// Optional relaunch command for the final restart stage.
    pub start_cmd: Option<String>,
    /// Optional backup source directory.
    pub backup_dir: Option<String>,
    /// Optional backup destination directory.
    pub backup_dest_dir: Option<String>,
    /// Daily restart clock-times, `HH:MM`, zero or more.
    pub restart_times: Vec<String>,
    /// Optional notification target.
    pub discord_webhook: Option<String>,
    /// When false, every action-performing command fails fast.
    pub allow_actions: bool,
}

impl Default for ApiConfig {
    /// An unconfigured snapshot: no address, no optional fields, no
    /// scheduled restarts, actions allowed.
    fn default() -> (c: Self)
        ensures
            c.base_url@ == Seq::<char>::empty(),
            c.password is None,
            c.start_cmd is None,
            c.backup_dir is None,
            c.backup_dest_dir is None,
            c.restart_times@ == Seq::<String>::empty(),
            c.discord_webhook is None,
            c.allow_actions == true,
    {
        ApiConfig {
            base_url: String::new(),
            password: None,
            start_cmd: None,
            backup_dir: None,
            backup_dest_dir: None,
            restart_times: Vec::new(),
            discord_webhook: None,
            allow_actions: true,
        }
    }
}

/// A requested configuration change: the new base address, and for every
/// other field either a replacement or "keep the current value".
pub struct ConfigUpdate {
    pub base_url: String,
    pub password: Option<String>,
    pub restart_times: Option<Vec<String>>,
    pub start_cmd: Option<String>,
    pub backup_dir: Option<String>,
    pub backup_dest_dir: Option<String>,
    pub discord_webhook: Option<String>,
    pub allow_actions: Option<bool>,
}

/// The base address after normalization: surrounding blanks trimmed, and
/// `http://` prefixed unless a scheme is already present.
pub open spec fn spec_normalized_base(s: Seq<char>) -> Seq<char> {
    let t = trimmed_blank(s);
    if is_prefix_of("http://"@, t) || is_prefix_of("https://"@, t) {
        t
    } else {
        "http://"@ + t
    }
}

/// Builds the snapshot that replaces `cfg` under the update `upd`.
///
/// Fails (and changes nothing) exactly when the updated base address is
/// blank; otherwise every field of the result is the update's value where
/// one was given and the prior snapshot's value where not.
pub fn apply_update(cfg: &ApiConfig, upd: ConfigUpdate) -> (r: Result<ApiConfig, ApiError>)
    ensures
        r is Err <==> trimmed_blank(upd.base_url@).len() == 0,
        r is Err ==> r->Err_0 == ApiError::Configuration,
        r is Ok ==> {
            let c = r->Ok_0;
            &&& c.base_url@ == spec_normalized_base(upd.base_url@)
            &&& c.password == (if upd.password is Some {
                upd.password
            } else {
                cfg.password
            })
            &&& c.restart_times@ == (if upd.restart_times is Some {
                upd.restart_times->0@
            } else {
                cfg.restart_times@
            })
            &&& c.start_cmd == (if upd.start_cmd is Some {
                upd.start_cmd
            } else {
                cfg.start_cmd
            })
            &&& c.backup_dir == (if upd.backup_dir is Some {
                upd.backup_dir
            } else {
                cfg.backup_dir
            })
            &&& c.backup_dest_dir == (if upd.backup_dest_dir is Some {
                upd.backup_dest_dir
            } else {
                cfg.backup_dest_dir
            })
            &&& c.discord_webhook == (if upd.discord_webhook is Some {
                upd.discord_webhook
            } else {
                cfg.discord_webhook
            })
            &&& c.allow_actions == (if upd.allow_actions is Some {
                upd.allow_actions->0
            } else {
                cfg.allow_actions
            })
        },
{
    let trimmed = trim_blank(upd.base_url.as_str());
    if trimmed.unicode_len() == 0 {
        return Err(ApiError::Configuration);
    }
    let base_url: String = if str_starts_with(trimmed, "http://") || str_starts_with(
        trimmed,
        "https://",
    ) {
        trimmed.to_owned()
    } else {
        concat2("http://", trimmed)
    };
    let password = match upd.password {
        Some(p) => Some(p),
        None => cfg.password.clone(),
    };
    let restart_times = match upd.restart_times {
        Some(t) => t,
        None => cfg.restart_times.clone(),
    };
    let start_cmd = match upd.start_cmd {
        Some(c) => Some(c),
        None => cfg.start_cmd.clone(),
    };
    let backup_dir = match upd.backup_dir {
        Some(d) => Some(d),
        None => cfg.backup_dir.clone(),
    };
    let backup_dest_dir = match upd.backup_dest_dir {
        Some(d) => Some(d),
        None => cfg.backup_dest_dir.clone(),
    };
    let discord_webhook = match upd.discord_webhook {
        Some(h) => Some(h),
        None => cfg.discord_webhook.clone(),
    };
    let allow_actions = match upd.allow_actions {
        Some(v) => v,
        None => cfg.allow_actions,
    };
    Ok(
        ApiConfig {
            base_url,
            password,
            start_cmd,
            backup_dir,
            backup_dest_dir,
            restart_times,
            discord_webhook,
            allow_actions,
        },
    )
}

/// Guards every action-performing command: fails fast, before any network
/// attempt is planned, when the configuration disables actions.
pub fn require_actions(cfg: &ApiConfig) -> (r: Result<(), ApiError>)
    ensures
        r is Ok <==> cfg.allow_actions,
        r is Err ==> r->Err_0 == ApiError::ActionsDisabled,
{
    if cfg.allow_actions {
        Ok(())
    } else {
        Err(ApiError::ActionsDisabled)
    }
}

/// The base address is usable once it is non-blank.
pub open spec fn spec_base_configured(cfg: ApiConfig) -> bool {
    trimmed_blank(cfg.base_url@).len() > 0
}

/// Guards network operations: fails exactly when no base address is set.
pub fn require_base(cfg: &ApiConfig) -> (r: Result<(), ApiError>)
    ensures
        r is Ok <==> spec_base_configured(*cfg),
        r is Err ==> r->Err_0 == ApiError::Configuration,
{
    let trimmed = trim_blank(cfg.base_url.as_str());
    if trimmed.unicode_len() == 0 {
        Err(ApiError::Configuration)
    } else {
        Ok(())
    }
}

} // verus!
