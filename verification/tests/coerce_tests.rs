use palworld_admin::coerce::{
    backfill_uptime, canonical_player_id, coerce_players, coerce_server_info, player_from_obj,
};
use palworld_admin::json::{JsonNumber, JsonValue};

fn num_u(u: u64) -> JsonValue {
    JsonValue::Num(JsonNumber { as_u: Some(u), as_i: Some(u as i64), trunc: u })
}

fn num_float(trunc: u64) -> JsonValue {
    // A non-integer number: no integer readings, only the truncation.
    JsonValue::Num(JsonNumber { as_u: None, as_i: None, trunc })
}

fn num_neg(i: i64) -> JsonValue {
    // A negative integer: signed reading only; the float cast saturates at 0.
    JsonValue::Num(JsonNumber { as_u: None, as_i: Some(i), trunc: 0 })
}

fn s(v: &str) -> JsonValue {
    JsonValue::Str(v.to_string())
}

fn obj(pairs: Vec<(&str, JsonValue)>) -> JsonValue {
    JsonValue::Obj(pairs.into_iter().map(|(k, v)| (k.to_string(), v)).collect())
}

#[test]
fn server_info_reads_alternate_keys_and_representations() {
    // players under a string key variant, capacity as a float, name under
    // the camel-case variant, all nested under a wrapping data field.
    let v = obj(vec![(
        "data",
        obj(vec![
            ("serverName", s("My Server")),
            ("players_online", s("7")),
            ("maxPlayers", num_float(32)),
            ("uptime", num_u(4711)),
        ]),
    )]);
    let info = coerce_server_info(&v);
    assert_eq!(info.name, "My Server");
    assert_eq!(info.players_online, 7);
    assert_eq!(info.max_players, Some(32));
    assert_eq!(info.uptime_seconds, Some(4711));
    assert_eq!(info.map, None);
}

#[test]
fn server_info_defaults_when_absent() {
    let info = coerce_server_info(&obj(vec![]));
    assert_eq!(info.name, "Unknown");
    assert_eq!(info.players_online, 0);
    assert_eq!(info.max_players, None);
    assert_eq!(info.uptime_seconds, None);
}

#[test]
fn uptime_backfilled_from_metrics_only_when_missing() {
    let mut info = coerce_server_info(&obj(vec![]));
    assert_eq!(info.uptime_seconds, None);
    backfill_uptime(&mut info, &obj(vec![("uptimeSeconds", num_u(99))]));
    assert_eq!(info.uptime_seconds, Some(99));
    // A supplied uptime is kept.
    backfill_uptime(&mut info, &obj(vec![("uptime", num_u(5))]));
    assert_eq!(info.uptime_seconds, Some(99));
}

#[test]
fn player_count_backfilled_from_collection() {
    let v = obj(vec![(
        "players",
        JsonValue::Arr(vec![
            obj(vec![("id", s("a"))]),
            obj(vec![("id", s("b"))]),
        ]),
    )]);
    let info = coerce_server_info(&v);
    assert_eq!(info.players_online, 2);
}

#[test]
fn negative_count_saturates_to_zero() {
    // A negative number has no unsigned reading; its float cast is 0.
    let v = obj(vec![("players_online", num_neg(-3))]);
    let info = coerce_server_info(&v);
    assert_eq!(info.players_online, 0);
}

#[test]
fn player_identity_prefers_string_id_and_canonicalizes() {
    let v = obj(vec![
        ("userId", s("STEAM_76561198000000001")),
        ("name", s("Alice")),
        ("level", num_float(12)),
        ("ping", s("42")),
        ("sessionSeconds", num_neg(-5)),
    ]);
    let p = player_from_obj(&v).unwrap();
    assert_eq!(p.id, "steam_76561198000000001");
    assert_eq!(p.name, "Alice");
    assert_eq!(p.level, Some(12));
    assert_eq!(p.ping, Some(42));
    assert_eq!(p.connected_seconds, Some(-5));
}

#[test]
fn player_identity_falls_back_to_numeric_fields() {
    let v = obj(vec![("steamId", num_u(7656119800000000))]);
    let p = player_from_obj(&v).unwrap();
    // 16 digits: no 17-digit platform pattern, kept as rendered.
    assert_eq!(p.id, "7656119800000000");
    assert_eq!(p.name, "Unknown");
}

#[test]
fn player_without_id_is_skipped() {
    assert!(player_from_obj(&obj(vec![("name", s("Ghost"))])).is_none());
}

#[test]
fn canonical_id_extracts_embedded_platform_number() {
    assert_eq!(
        canonical_player_id("user-76561198000000001-eu"),
        "steam_76561198000000001"
    );
    // An 18-digit run is not the platform pattern.
    assert_eq!(
        canonical_player_id("765611980000000012"),
        "765611980000000012"
    );
    assert_eq!(canonical_player_id("alice"), "alice");
}

#[test]
fn players_collected_from_array_and_object_shapes() {
    let arr = obj(vec![(
        "players",
        JsonValue::Arr(vec![
            obj(vec![("id", s("a"))]),
            obj(vec![("name", s("no id, skipped"))]),
            obj(vec![("id", s("b"))]),
        ]),
    )]);
    let ps = coerce_players(&arr);
    let ids: Vec<&str> = ps.iter().map(|p| p.id.as_str()).collect();
    assert_eq!(ids, vec!["a", "b"]);

    let objform = obj(vec![(
        "players",
        obj(vec![
            ("p1", obj(vec![("id", s("x"))])),
            ("p2", obj(vec![("id", s("y"))])),
        ]),
    )]);
    let ps2 = coerce_players(&objform);
    let ids2: Vec<&str> = ps2.iter().map(|p| p.id.as_str()).collect();
    assert_eq!(ids2, vec!["x", "y"]);
}

#[test]
fn players_default_to_empty_on_odd_shapes() {
    assert!(coerce_players(&s("nope")).is_empty());
    assert!(coerce_players(&obj(vec![("players", num_u(3))])).is_empty());
}
