use palworld_admin::backup::{
    archive_name, backup_plan, is_backup_archive_name, prune_cutoff, should_prune, BackupError,
};
use palworld_admin::config::ApiConfig;
use palworld_admin::restart::{
    delayed_shutdown_notice, relaunch_plan, wait_step, RestartJob, RestartStage, WaitDecision,
};

#[test]
fn stages_run_strictly_in_order() {
    let mut j = RestartJob::new();
    let mut seen = vec![j.stage];
    while j.stage != RestartStage::Done {
        j.advance();
        seen.push(j.stage);
    }
    assert_eq!(
        seen,
        vec![
            RestartStage::Announcing,
            RestartStage::Saving,
            RestartStage::ShuttingDown,
            RestartStage::WaitingForStop,
            RestartStage::Relaunching,
            RestartStage::Done,
        ]
    );
}

#[test]
fn failures_are_recorded_without_aborting() {
    let mut j = RestartJob::new();
    j.advance();
    j.record_failure(palworld_admin::errors::ApiError::Transport);
    assert_eq!(j.stage, RestartStage::Saving);
    assert_eq!(j.failures.len(), 1);
}

#[test]
fn wait_poll_decisions() {
    assert_eq!(wait_step(false, 0, 120), WaitDecision::Stopped);
    assert_eq!(wait_step(true, 119, 120), WaitDecision::KeepWaiting);
    assert_eq!(wait_step(true, 120, 120), WaitDecision::TimedOut);
    assert_eq!(wait_step(false, 120, 120), WaitDecision::Stopped);
}

#[test]
fn relaunch_decision_follows_the_extension_convention() {
    let p = relaunch_plan(&Some("C:\\srv\\start-server.BAT  ".to_string())).unwrap();
    assert!(p.via_interpreter);
    assert_eq!(p.command, "C:\\srv\\start-server.BAT  ");
    let q = relaunch_plan(&Some("./run.sh".to_string())).unwrap();
    assert!(!q.via_interpreter);
    assert!(relaunch_plan(&None).is_none());
}

#[test]
fn delayed_shutdown_text() {
    assert_eq!(
        delayed_shutdown_notice("Server restarting...", 60),
        "Server restarting... in 60 seconds."
    );
}

#[test]
fn backup_plan_respects_gates_and_defaults() {
    let mut c = ApiConfig::default();
    c.allow_actions = false;
    assert_eq!(
        backup_plan(&c, None, None).unwrap_err(),
        BackupError::ActionsDisabled
    );
    c.allow_actions = true;
    assert_eq!(
        backup_plan(&c, None, None).unwrap_err(),
        BackupError::SourceNotConfigured
    );
    c.backup_dir = Some("/srv/world".to_string());
    let p = backup_plan(&c, None, None).unwrap();
    assert_eq!(p.source, "/srv/world");
    assert_eq!(p.dest_root, "/srv/world/_backups");
    c.backup_dest_dir = Some("/srv/backups".to_string());
    let p2 = backup_plan(&c, None, None).unwrap();
    assert_eq!(p2.dest_root, "/srv/backups");
    let p3 = backup_plan(&c, Some("/tmp/src".to_string()), Some("/tmp/dst".to_string())).unwrap();
    assert_eq!(p3.source, "/tmp/src");
    assert_eq!(p3.dest_root, "/tmp/dst");
}

#[test]
fn archive_names_are_timestamped() {
    assert_eq!(
        archive_name(2024, 3, 7, 4, 5, 9),
        "backup-20240307-040509.zip"
    );
    assert_eq!(
        archive_name(2025, 12, 31, 23, 59, 59),
        "backup-20251231-235959.zip"
    );
}

#[test]
fn pruning_honours_the_naming_convention_and_cutoff() {
    assert!(is_backup_archive_name("backup-20240307-040509.zip"));
    assert!(!is_backup_archive_name("backup-notes.txt"));
    assert!(!is_backup_archive_name("world.zip"));
    let cutoff = prune_cutoff(1_000_000, 3);
    assert_eq!(cutoff, 1_000_000 - 3 * 86400);
    assert_eq!(prune_cutoff(100, 3), 0);
    assert!(should_prune("backup-a.zip", cutoff - 1, cutoff));
    assert!(!should_prune("backup-a.zip", cutoff, cutoff));
    assert!(!should_prune("other.zip", 0, cutoff));
}
