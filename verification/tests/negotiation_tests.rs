use palworld_admin::negotiate::{run_negotiation, Negotiation, NegotiationAction};
use palworld_admin::ops::{
    announce_candidates, id_body_candidates, shutdown_body_candidates, unban_paths, AnnounceKind,
};

#[test]
fn third_candidate_wins_after_two_rejections() {
    // A peer that accepts only the third candidate body shape: exactly the
    // first two are attempted and rejected, then the third succeeds, and
    // nothing after it is attempted.
    let (attempts, winner) = run_negotiation(&vec![false, false, true, false]);
    assert_eq!(attempts, 3);
    assert_eq!(winner, Some(2));
}

#[test]
fn all_rejected_exhausts_the_list() {
    let (attempts, winner) = run_negotiation(&vec![false, false, false, false]);
    assert_eq!(attempts, 4);
    assert_eq!(winner, None);
}

#[test]
fn first_success_stops_immediately() {
    let (attempts, winner) = run_negotiation(&vec![true, true]);
    assert_eq!(attempts, 1);
    assert_eq!(winner, Some(0));
}

#[test]
fn machine_steps_in_order() {
    let mut n = Negotiation::begin(2);
    assert_eq!(n.current_action(), NegotiationAction::Try(0));
    n.record(false);
    assert_eq!(n.current_action(), NegotiationAction::Try(1));
    n.record(true);
    assert_eq!(n.current_action(), NegotiationAction::Accepted(1));
}

#[test]
fn machine_reports_exhaustion() {
    let mut n = Negotiation::begin(1);
    n.record(false);
    assert_eq!(n.current_action(), NegotiationAction::Exhausted);
}

#[test]
fn shutdown_bodies_in_documented_order() {
    let bodies = shutdown_body_candidates("Auto restart");
    let fields: Vec<&str> = bodies.iter().map(|b| b.field.as_str()).collect();
    assert_eq!(fields, vec!["waittime", "seconds", "time", "duration"]);
    for b in &bodies {
        assert_eq!(b.wait_seconds, 1);
        assert_eq!(b.message, "Auto restart");
    }
}

#[test]
fn announce_candidates_cover_paths_and_shapes() {
    let atts = announce_candidates("http://h", "hello world");
    assert_eq!(atts.len(), 6);
    assert_eq!(atts[0].url, "http://h/v1/api/announce");
    assert_eq!(atts[0].kind, AnnounceKind::PostJson);
    assert_eq!(atts[0].body, "{\"message\":\"hello world\"}");
    assert_eq!(atts[1].kind, AnnounceKind::PostText);
    assert_eq!(atts[1].body, "hello world");
    assert_eq!(atts[2].kind, AnnounceKind::GetQuery);
    assert_eq!(atts[2].url, "http://h/v1/api/announce?message=hello%20world");
    assert_eq!(atts[3].url, "http://h/v1/api/broadcast");
    assert_eq!(atts[5].url, "http://h/v1/api/broadcast?message=hello%20world");
}

#[test]
fn moderation_bodies_in_documented_order() {
    let bodies = id_body_candidates("steam_76561198000000001");
    let fields: Vec<&str> = bodies.iter().map(|b| b.field.as_str()).collect();
    assert_eq!(fields, vec!["steamId", "playerId", "id"]);
    for b in &bodies {
        assert_eq!(b.player_id, "steam_76561198000000001");
    }
}

#[test]
fn unban_tries_both_paths() {
    assert_eq!(unban_paths(), vec!["unban", "pardon"]);
}
