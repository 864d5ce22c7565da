use palworld_admin::countdown::{checkpoint_message, countdown_plan};
use palworld_admin::endpoint::StoredEndpoint;
use palworld_admin::guard::{GenerationCounter, TickDecision};
use palworld_admin::negotiate::run_negotiation;
use palworld_admin::ops::shutdown_body_candidates;
use palworld_admin::restart::{relaunch_plan, wait_step, WaitDecision};
use palworld_admin::save::SaveGate;
use palworld_admin::schedule::{next_fire_from, parse_times_hhmm};

// One scheduled restart, end to end: restart time 03:00, current local
// time 02:59:00.  The scheduler wakes at 03:00:00, announces at the
// checkpoints that fit the 60-second lead, issues one save, one shutdown
// with the first accepted body shape, polls until the peer is down, and
// invokes the configured relaunch command exactly once.
#[test]
fn scheduled_restart_at_three_in_the_morning() {
    // Configuration.
    let times = parse_times_hhmm(&vec!["03:00".to_string()]);
    assert_eq!(times, vec![180]);

    // The scheduler loop is current.
    let mut gen = GenerationCounter::new();
    let my_id = gen.bump();
    assert_eq!(gen.tick(my_id), TickDecision::RunAction);

    // 02:59:00 -> the next fire is 03:00:00 today, 60 seconds ahead.
    let now = 2 * 3600 + 59 * 60;
    let fire = next_fire_from(now, &times).unwrap();
    assert_eq!(fire.day_offset, 0);
    assert_eq!(fire.delay_secs, 60);

    // The countdown covers exactly the checkpoints within the lead time,
    // the first one firing immediately (nothing before 02:59:00).
    let plan = countdown_plan(fire.delay_secs as u64);
    let cps: Vec<u64> = plan.steps.iter().map(|s| s.checkpoint).collect();
    assert_eq!(cps, vec![60, 30, 20, 10, 5]);
    assert_eq!(plan.steps[0].sleep_before, 0);
    assert_eq!(checkpoint_message(plan.steps[4].checkpoint), "Log off now");
    let elapsed: u64 = plan.steps.iter().map(|s| s.sleep_before).sum::<u64>() + plan.final_sleep;
    assert_eq!(elapsed, 60);

    // Exactly one save is issued.
    let mut gate = SaveGate::new();
    assert!(gate.try_begin());
    assert!(!gate.try_begin());
    gate.finish();

    // The peer accepts the first shutdown body shape: one attempt, no
    // further shapes tried.
    let bodies = shutdown_body_candidates("Auto restart");
    let (attempts, winner) = run_negotiation(&vec![true, false, false, false]);
    assert_eq!(attempts, 1);
    assert_eq!(winner, Some(0));
    assert_eq!(bodies[winner.unwrap()].field, "waittime");

    // The status poll sees the peer go down before the 120s ceiling.
    let mut waited = 0;
    let ups = [true, true, false];
    let mut outcome = None;
    for up in ups {
        match wait_step(up, waited, 120) {
            WaitDecision::KeepWaiting => waited += 1,
            d => {
                outcome = Some(d);
                break;
            }
        }
    }
    assert_eq!(outcome, Some(WaitDecision::Stopped));

    // The configured relaunch command is invoked exactly once.
    let plans: Vec<_> = relaunch_plan(&Some("start.bat".to_string())).into_iter().collect();
    assert_eq!(plans.len(), 1);
    assert!(plans[0].via_interpreter);
}

#[test]
fn stored_endpoint_round_trip() {
    let mut e = StoredEndpoint::new();
    assert_eq!(e.get_server_info(), "::");
    e.store_server_info("10.0.0.1", "8212", "hunter2");
    assert_eq!(e.get_server_info(), "10.0.0.1:8212:hunter2");
}
