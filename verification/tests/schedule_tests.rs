use palworld_admin::schedule::{next_fire_from, next_fire_now, parse_time_hhmm, parse_times_hhmm};

#[test]
fn parses_plain_time() {
    assert_eq!(parse_time_hhmm("03:00"), Some(180));
    assert_eq!(parse_time_hhmm("23:59"), Some(23 * 60 + 59));
    assert_eq!(parse_time_hhmm("0:0"), Some(0));
}

#[test]
fn parses_with_surrounding_blanks() {
    assert_eq!(parse_time_hhmm("  9:5 "), Some(9 * 60 + 5));
}

#[test]
fn rejects_out_of_range() {
    assert_eq!(parse_time_hhmm("24:00"), None);
    assert_eq!(parse_time_hhmm("3:60"), None);
}

#[test]
fn rejects_malformed() {
    assert_eq!(parse_time_hhmm("0300"), None);
    assert_eq!(parse_time_hhmm("03:001"), None);
    assert_eq!(parse_time_hhmm("3:"), None);
    assert_eq!(parse_time_hhmm(""), None);
    assert_eq!(parse_time_hhmm("a3:00"), None);
}

#[test]
fn parse_times_skips_bad_entries() {
    let v = vec![
        "03:00".to_string(),
        "oops".to_string(),
        "21:30".to_string(),
    ];
    assert_eq!(parse_times_hhmm(&v), vec![180, 21 * 60 + 30]);
}

#[test]
fn next_fire_empty_set_is_none() {
    assert_eq!(next_fire_from(0, &vec![]), None);
}

#[test]
fn next_fire_picks_next_same_day_time() {
    // 02:59:00; times 03:00 and 09:00.
    let f = next_fire_from(2 * 3600 + 59 * 60, &vec![180, 540]).unwrap();
    assert_eq!(f.day_offset, 0);
    assert_eq!(f.minute_of_day, 180);
    assert_eq!(f.delay_secs, 60);
}

#[test]
fn next_fire_skips_passed_times() {
    // 05:00:00; 03:00 has passed, 09:00 remains.
    let f = next_fire_from(5 * 3600, &vec![180, 540]).unwrap();
    assert_eq!(f.day_offset, 0);
    assert_eq!(f.minute_of_day, 540);
    assert_eq!(f.delay_secs, 4 * 3600);
}

#[test]
fn next_fire_rolls_to_following_day() {
    // 22:00:00; every time has passed: earliest fires tomorrow.
    let f = next_fire_from(22 * 3600, &vec![540, 180]).unwrap();
    assert_eq!(f.day_offset, 1);
    assert_eq!(f.minute_of_day, 180);
    assert_eq!(f.delay_secs, 86400 - 22 * 3600 + 3 * 3600);
}

#[test]
fn clock_backed_next_fire_reads_a_valid_second_of_day() {
    let (now, fire) = next_fire_now(&vec![180]);
    assert!(now < 86400);
    let f = fire.unwrap();
    assert!(f.delay_secs >= 1);
    assert_eq!(f.minute_of_day, 180);
}

#[test]
fn next_fire_is_strictly_future_at_exact_instant() {
    // Now is exactly 03:00:00: today's 03:00 is not strictly after now.
    let f = next_fire_from(3 * 3600, &vec![180]).unwrap();
    assert_eq!(f.day_offset, 1);
    assert!(f.delay_secs >= 1);
    assert_eq!(f.delay_secs, 86400);
}
