use palworld_admin::countdown::{checkpoint_message, countdown_plan};

#[test]
fn full_minute_hits_every_checkpoint() {
    let p = countdown_plan(60);
    let cps: Vec<u64> = p.steps.iter().map(|s| s.checkpoint).collect();
    assert_eq!(cps, vec![60, 30, 20, 10, 5]);
    let sleeps: Vec<u64> = p.steps.iter().map(|s| s.sleep_before).collect();
    assert_eq!(sleeps, vec![0, 30, 10, 10, 5]);
    assert_eq!(p.final_sleep, 5);
    let total: u64 = sleeps.iter().sum::<u64>() + p.final_sleep;
    assert_eq!(total, 60);
}

#[test]
fn checkpoints_above_lead_time_are_skipped() {
    let p = countdown_plan(59);
    let cps: Vec<u64> = p.steps.iter().map(|s| s.checkpoint).collect();
    assert_eq!(cps, vec![30, 20, 10, 5]);
    assert_eq!(p.steps[0].sleep_before, 29);
    let total: u64 = p.steps.iter().map(|s| s.sleep_before).sum::<u64>() + p.final_sleep;
    assert_eq!(total, 59);
}

#[test]
fn tiny_lead_time_has_no_checkpoints() {
    let p = countdown_plan(3);
    assert!(p.steps.is_empty());
    assert_eq!(p.final_sleep, 3);
}

#[test]
fn lead_time_five_announces_at_once() {
    let p = countdown_plan(5);
    assert_eq!(p.steps.len(), 1);
    assert_eq!(p.steps[0].checkpoint, 5);
    assert_eq!(p.steps[0].sleep_before, 0);
    assert_eq!(p.final_sleep, 5);
}

#[test]
fn final_checkpoint_message_differs() {
    assert_eq!(checkpoint_message(5), "Log off now");
    assert_eq!(checkpoint_message(30), "Restart in 30 seconds.");
    assert_eq!(checkpoint_message(60), "Restart in 60 seconds.");
}
