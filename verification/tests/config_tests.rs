use devstore_sdk::config::{sdk_version, ApiConfig, DEFAULT_BASE_URL};
use devstore_sdk::envelope::Status;

#[test]
fn default_base_url_is_the_production_endpoint() {
    let c = ApiConfig::new();
    assert_eq!(c.base_url, DEFAULT_BASE_URL);
    assert_eq!(c.base_url, "https://xbdev.store/api/");
    let d = ApiConfig::default();
    assert_eq!(d.base_url, DEFAULT_BASE_URL);
}

#[test]
fn set_base_url_appends_exactly_one_slash() {
    let mut c = ApiConfig::new();
    let e = c.set_base_url("https://example.com/api");
    assert_eq!(e.status, Status::Success);
    assert_eq!(e.message, "https://example.com/api/");
    assert_eq!(c.base_url, "https://example.com/api/");

    // Setting an already-normalized URL changes nothing.
    let e2 = c.set_base_url("https://example.com/api/");
    assert_eq!(e2.status, Status::Success);
    assert_eq!(c.base_url, "https://example.com/api/");
}

#[test]
fn networked_operations_target_base_plus_endpoint() {
    let mut c = ApiConfig::new();
    c.set_base_url("https://example.com/api");
    assert_eq!(c.endpoint_url("cloud-saves/"), "https://example.com/api/cloud-saves/");
    assert_eq!(c.endpoint_url("status-check"), "https://example.com/api/status-check");
    assert_eq!(
        c.query_url("get-latest-patch/", "product_id", "g1"),
        "https://example.com/api/get-latest-patch/?product_id=g1"
    );
}

#[test]
fn sdk_version_is_fixed() {
    assert_eq!(sdk_version(), "0.1.0");
}
