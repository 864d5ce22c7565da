use palworld_admin::auth::build_basic_header;
use palworld_admin::urls::{candidate_urls, v1_base};

#[test]
fn v1_base_appends_segment() {
    assert_eq!(v1_base("http://x"), "http://x/v1/api");
}

#[test]
fn v1_base_trims_trailing_slashes() {
    assert_eq!(v1_base("http://x///"), "http://x/v1/api");
}

#[test]
fn v1_base_keeps_existing_segment() {
    assert_eq!(v1_base("http://x/v1/api"), "http://x/v1/api");
    assert_eq!(v1_base("http://x/v1/api/"), "http://x/v1/api");
}

#[test]
fn candidate_urls_both_forms() {
    let urls = candidate_urls("http://x", "info");
    assert_eq!(urls.len(), 2);
    assert_eq!(urls[0], "http://x/info");
    assert_eq!(urls[1], "http://x/v1/api/info");
}

#[test]
fn candidate_urls_single_when_versioned() {
    let urls = candidate_urls("http://x/v1/api", "/players");
    assert_eq!(urls.len(), 1);
    assert_eq!(urls[0], "http://x/v1/api/players");
}

#[test]
fn basic_header_encodes_credential() {
    let h = build_basic_header(&Some("pw".to_string()));
    assert_eq!(h, Some("Basic YWRtaW46cHc=".to_string()));
}

#[test]
fn basic_header_absent_without_credential() {
    assert_eq!(build_basic_header(&None), None);
}

#[test]
fn basic_header_empty_credential() {
    let h = build_basic_header(&Some(String::new()));
    assert_eq!(h, Some("Basic YWRtaW46".to_string()));
}
