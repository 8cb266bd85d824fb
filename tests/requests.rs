use jamf_devices::inventory::InventoryFetch;
use jamf_devices::models::{JamfAuthReponse, JamfComputerInventoryResponse};
use jamf_devices::routes::{credentials, hello_world, CredentialsInput};
use jamf_devices::sections::{query_params, ComputerInventorySection};
use jamf_devices::session::{token_url, JamfClientError, JamfClientImpl};

fn pairs(v: &[(&str, &str)]) -> Vec<(String, String)> {
    v.iter().map(|(a, b)| (a.to_string(), b.to_string())).collect()
}

#[test]
fn section_wire_names() {
    assert_eq!(ComputerInventorySection::General.to_string(), "GENERAL");
    assert_eq!(ComputerInventorySection::Hardware.to_string(), "HARDWARE");
    assert_eq!(ComputerInventorySection::OperatingSystem.to_string(), "OPERATING_SYSTEM");
}

#[test]
fn query_repeats_sections_then_page() {
    let q = query_params(
        &vec![ComputerInventorySection::OperatingSystem, ComputerInventorySection::General],
        7,
    );
    assert_eq!(
        q,
        pairs(&[
            ("section", "OPERATING_SYSTEM"),
            ("section", "GENERAL"),
            ("page", "7"),
            ("page-size", "100"),
        ])
    );
}

#[test]
fn query_without_sections() {
    let q = query_params(&vec![], 12345);
    assert_eq!(q, pairs(&[("page", "12345"), ("page-size", "100")]));
}

#[test]
fn session_urls() {
    assert_eq!(token_url("https://j.example"), "https://j.example/api/v1/auth/token");
    let auth = JamfAuthReponse { token: "abc".to_string(), expires: "soon".to_string() };
    let s = JamfClientImpl::new("https://j.example".to_string(), Ok(auth)).unwrap();
    assert_eq!(s.bearer_token(), "abc");
    assert_eq!(s.jamf_url(), "https://j.example");
    assert_eq!(s.inventory_url(), "https://j.example/api/v1/computers-inventory");
    assert_eq!(
        s.updates_url(),
        "https://j.example/api/v1/managed-software-updates/available-updates"
    );
}

#[test]
fn failed_token_exchange_is_auth_error() {
    let r = JamfClientImpl::new("https://j.example".to_string(), Err("refused".to_string()));
    assert_eq!(r.err(), Some(JamfClientError::AuthError("refused".to_string())));
}

#[test]
fn inventory_fetch_merges_in_page_order() {
    let mut f = InventoryFetch::new(vec![ComputerInventorySection::General]);
    assert_eq!(f.next_page(), Some(0));
    let mut first = JamfComputerInventoryResponse { total_count: 250, results: vec![] };
    first.results.resize(100, empty_device("a"));
    f.receive(first);
    assert_eq!(f.next_page(), Some(1));
    let q = f.next_request().unwrap();
    assert_eq!(q, pairs(&[("section", "GENERAL"), ("page", "1"), ("page-size", "100")]));
    let mut second = JamfComputerInventoryResponse { total_count: 250, results: vec![] };
    second.results.resize(100, empty_device("b"));
    f.receive(second);
    let mut third = JamfComputerInventoryResponse { total_count: 250, results: vec![] };
    third.results.resize(50, empty_device("c"));
    f.receive(third);
    assert_eq!(f.next_page(), None);
    assert!(f.next_request().is_none());
    let merged = f.finish();
    assert_eq!(merged.total_count, 250);
    assert_eq!(merged.results.len(), 250);
    assert_eq!(merged.results[99].id, Some("a".to_string()));
    assert_eq!(merged.results[100].id, Some("b".to_string()));
    assert_eq!(merged.results[249].id, Some("c".to_string()));
}

fn empty_device(id: &str) -> jamf_devices::models::JamfComputer {
    jamf_devices::models::JamfComputer {
        hardware: None,
        security: None,
        software: None,
        configuration_profiles: None,
        operating_system: None,
        general: None,
        id: Some(id.to_string()),
        udid: None,
    }
}

#[test]
fn credentials_are_echoed() {
    let input = CredentialsInput {
        username: "u".to_string(),
        password: "p".to_string(),
        url: "https://j.example".to_string(),
    };
    let out = credentials(input);
    assert_eq!(out.username, "u");
    assert_eq!(out.password, "p");
    assert_eq!(out.url, "https://j.example");
}

#[test]
fn hello_world_greets() {
    assert_eq!(hello_world().data, "hello world");
}
