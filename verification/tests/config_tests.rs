use palworld_admin::config::{apply_update, require_actions, require_base, ApiConfig, ConfigUpdate};
use palworld_admin::errors::{
    aggregate_failures, error_for_status, is_success_status, ApiError, AttemptOutcome,
};
use palworld_admin::notify::{config_updated_message, join_comma};

fn update(base: &str) -> ConfigUpdate {
    ConfigUpdate {
        base_url: base.to_string(),
        password: None,
        restart_times: None,
        start_cmd: None,
        backup_dir: None,
        backup_dest_dir: None,
        discord_webhook: None,
        allow_actions: None,
    }
}

#[test]
fn default_config_is_unconfigured_with_actions_allowed() {
    let c = ApiConfig::default();
    assert_eq!(c.base_url, "");
    assert!(c.password.is_none());
    assert!(c.restart_times.is_empty());
    assert!(c.allow_actions);
}

#[test]
fn update_normalizes_the_base_address() {
    let c = ApiConfig::default();
    let n = apply_update(&c, update("  example.com:8212  ")).unwrap();
    assert_eq!(n.base_url, "http://example.com:8212");
    let n2 = apply_update(&c, update("https://example.com")).unwrap();
    assert_eq!(n2.base_url, "https://example.com");
}

#[test]
fn blank_base_address_is_rejected() {
    let c = ApiConfig::default();
    assert_eq!(
        apply_update(&c, update("   ")).unwrap_err(),
        ApiError::Configuration
    );
}

#[test]
fn update_keeps_fields_the_update_leaves_unset() {
    let mut c = ApiConfig::default();
    c.password = Some("old".to_string());
    c.restart_times = vec!["03:00".to_string()];
    let mut u = update("h");
    u.allow_actions = Some(false);
    let n = apply_update(&c, u).unwrap();
    assert_eq!(n.password, Some("old".to_string()));
    assert_eq!(n.restart_times, vec!["03:00".to_string()]);
    assert!(!n.allow_actions);

    let mut u2 = update("h");
    u2.password = Some("new".to_string());
    let n2 = apply_update(&n, u2).unwrap();
    assert_eq!(n2.password, Some("new".to_string()));
    assert!(!n2.allow_actions);
}

#[test]
fn actions_gate_fails_fast_when_disabled() {
    let mut c = ApiConfig::default();
    assert!(require_actions(&c).is_ok());
    c.allow_actions = false;
    assert_eq!(require_actions(&c).unwrap_err(), ApiError::ActionsDisabled);
}

#[test]
fn base_gate_requires_an_address() {
    let mut c = ApiConfig::default();
    assert_eq!(require_base(&c).unwrap_err(), ApiError::Configuration);
    c.base_url = "http://h".to_string();
    assert!(require_base(&c).is_ok());
}

#[test]
fn status_classification() {
    assert!(is_success_status(200));
    assert!(is_success_status(299));
    assert!(!is_success_status(300));
    assert!(!is_success_status(199));
    assert_eq!(error_for_status(401), ApiError::Authentication);
    assert_eq!(error_for_status(503), ApiError::Peer(503));
}

#[test]
fn error_descriptions() {
    assert_eq!(ApiError::Configuration.describe(), "config.base_url not set");
    assert_eq!(ApiError::ActionsDisabled.describe(), "actions disabled");
    assert_eq!(ApiError::Peer(500).describe(), "server returned status 500");
}

#[test]
fn config_update_notice() {
    let mut c = ApiConfig::default();
    c.base_url = "http://h".to_string();
    assert_eq!(
        config_updated_message(&c),
        "Config updated. Base: http://h | Restarts: (none) | Actions: enabled"
    );
    c.restart_times = vec!["03:00".to_string(), "15:00".to_string()];
    c.allow_actions = false;
    assert_eq!(
        config_updated_message(&c),
        "Config updated. Base: http://h | Restarts: 03:00, 15:00 | Actions: disabled"
    );
}

#[test]
fn exhausted_run_surfaces_the_first_failure() {
    let e = aggregate_failures(&vec![
        AttemptOutcome::Status(404),
        AttemptOutcome::TransportFailed,
    ]);
    assert_eq!(e, ApiError::Peer(404));
    let e2 = aggregate_failures(&vec![
        AttemptOutcome::TransportFailed,
        AttemptOutcome::Status(500),
    ]);
    assert_eq!(e2, ApiError::Transport);
    let e3 = aggregate_failures(&vec![AttemptOutcome::Status(401)]);
    assert_eq!(e3, ApiError::Authentication);
}

#[test]
fn comma_join() {
    assert_eq!(join_comma(&vec![]), "");
    assert_eq!(join_comma(&vec!["a".to_string()]), "a");
    assert_eq!(
        join_comma(&vec!["a".to_string(), "b".to_string(), "c".to_string()]),
        "a, b, c"
    );
}
