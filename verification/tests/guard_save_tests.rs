use palworld_admin::guard::{GenerationCounter, RoleGenerations, TickDecision};
use palworld_admin::save::{save_in_progress_message, save_result_message, SaveGate};

#[test]
fn stale_loop_exits_at_next_safe_point() {
    let mut c = GenerationCounter::new();
    let first = c.bump();
    assert_eq!(c.tick(first), TickDecision::RunAction);
    let second = c.bump();
    // The loop holding the prior generation performs no further action.
    assert_eq!(c.tick(first), TickDecision::Exit);
    assert_eq!(c.tick(second), TickDecision::RunAction);
}

#[test]
fn exactly_one_loop_survives_a_bump_storm() {
    let mut c = GenerationCounter::new();
    let mut ids = Vec::new();
    for _ in 0..5 {
        ids.push(c.bump());
    }
    let current: Vec<u64> = ids
        .iter()
        .copied()
        .filter(|id| c.tick(*id) == TickDecision::RunAction)
        .collect();
    assert_eq!(current, vec![5]);
}

#[test]
fn config_update_bumps_the_driven_roles_together() {
    let mut g = RoleGenerations::new();
    let (a, b, s) = g.bump_for_update();
    assert_eq!((a, b, s), (1, 1, 1));
    assert_eq!(g.restart.value, 0);
    let (a2, _, _) = g.bump_for_update();
    assert_eq!(a2, 2);
}

#[test]
fn concurrent_saves_issue_exactly_one_attempt() {
    let mut gate = SaveGate::new();
    let first = gate.try_begin();
    let second = gate.try_begin();
    assert!(first);
    assert!(!second);
    assert_eq!(save_in_progress_message(), "save already in progress");
    // The flag clears unconditionally when the attempt completes.
    gate.finish();
    assert!(gate.try_begin());
}

#[test]
fn save_result_messages() {
    assert_eq!(save_result_message(Some(200)), "Game saved");
    assert_eq!(save_result_message(Some(500)), "Save failed: 500");
    assert_eq!(save_result_message(None), "Save error: request failed");
}
