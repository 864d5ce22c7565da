use palworld_admin::coerce::Player;
use palworld_admin::presence::{backfill_connected, diff_ids, name_for, name_pairs};
use palworld_admin::tracker::PlayerTracker;

fn player(id: &str, name: &str) -> Player {
    Player {
        id: id.to_string(),
        name: name.to_string(),
        level: None,
        ping: None,
        connected_seconds: None,
    }
}

#[test]
fn first_seen_sticks_across_polls() {
    let mut t = PlayerTracker::new();
    t.observe("a", 100);
    t.observe("a", 200);
    assert_eq!(t.connected_for("a", 250), Some(150));
    assert_eq!(t.connected_for("missing", 250), None);
}

#[test]
fn update_with_records_every_player() {
    let mut t = PlayerTracker::new();
    let ps = vec![player("a", "A"), player("b", "B")];
    t.update_with(&ps, 1000);
    assert_eq!(t.len(), 2);
    assert_eq!(t.connected_for("a", 1060), Some(60));
    assert_eq!(t.connected_for("b", 1060), Some(60));
}

#[test]
fn durations_lists_every_identity() {
    let mut t = PlayerTracker::new();
    t.observe("a", 100);
    t.observe("b", 400);
    let mut d = t.durations(1000);
    d.sort();
    assert_eq!(d, vec![("a".to_string(), 900), ("b".to_string(), 600)]);
}

#[test]
fn prune_drops_only_long_absent_identities() {
    let mut t = PlayerTracker::new();
    t.observe("gone_long", 0);
    t.observe("gone_recent", 5000);
    t.observe("still_here", 0);
    // Now 10000: gone_long was last seen 10000s ago (over the 7200s
    // threshold), gone_recent only 5000s ago, still_here is present.
    t.prune_inactive(&vec!["still_here".to_string()], 10000);
    assert_eq!(t.connected_for("gone_long", 10000), None);
    assert_eq!(t.connected_for("gone_recent", 10000), Some(5000));
    assert_eq!(t.connected_for("still_here", 10000), Some(10000));
}

#[test]
fn present_identity_survives_any_age() {
    let mut t = PlayerTracker::new();
    t.observe("old_timer", 0);
    t.prune_inactive(&vec!["old_timer".to_string()], 1_000_000);
    assert_eq!(t.connected_for("old_timer", 1_000_000), Some(1_000_000));
}

#[test]
fn diff_detects_joins_and_leaves() {
    let prev = vec!["a".to_string(), "b".to_string()];
    let cur = vec!["b".to_string(), "c".to_string()];
    let (joined, left) = diff_ids(&prev, &cur);
    assert_eq!(joined, vec!["c".to_string()]);
    assert_eq!(left, vec!["a".to_string()]);
}

#[test]
fn diff_lists_each_identity_once() {
    let prev: Vec<String> = vec![];
    let cur = vec!["x".to_string(), "x".to_string(), "y".to_string()];
    let (joined, left) = diff_ids(&prev, &cur);
    assert_eq!(joined, vec!["x".to_string(), "y".to_string()]);
    assert!(left.is_empty());
}

#[test]
fn names_resolve_with_identity_fallback() {
    let ps = vec![player("a", "Alice"), player("b", "Bob")];
    let pairs = name_pairs(&ps);
    assert_eq!(name_for(&pairs, "a"), "Alice");
    assert_eq!(name_for(&pairs, "zzz"), "zzz");
}

#[test]
fn clock_backed_update_uses_one_consistent_reading() {
    let mut t = PlayerTracker::new();
    let ps = vec![player("a", "A")];
    let now = t.update_with_now(&ps);
    assert_eq!(t.connected_for("a", now), Some(0));
    let (reading, d) = t.connected_for_now("a");
    assert!(reading >= now);
    assert_eq!(d, Some(reading - now));
}

#[test]
fn backfill_fills_only_missing_durations() {
    let mut t = PlayerTracker::new();
    t.observe("a", 100);
    let mut ps = vec![player("a", "Alice"), player("b", "Bob")];
    ps[1].connected_seconds = Some(7);
    backfill_connected(&t, &mut ps, 160);
    assert_eq!(ps[0].connected_seconds, Some(60));
    assert_eq!(ps[1].connected_seconds, Some(7));
}
