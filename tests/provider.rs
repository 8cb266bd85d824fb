use jamf_devices::models::{
    AvailableUpdates, Computer, DevicesOutput, JamfAuthReponse, JamfAvailableUpdates,
    JamfComputer, JamfComputerGeneral, JamfComputerHardware, JamfComputerInventoryResponse,
    JamfComputerOperatingSystem,
};
use jamf_devices::provider::{ComputerProvider, ProviderAction, ProviderEvent};
use jamf_devices::sections::ComputerInventorySection;
use jamf_devices::session::{JamfClientError, JamfClientImpl};

fn provider() -> ComputerProvider {
    let auth = JamfAuthReponse { token: "token".to_string(), expires: "later".to_string() };
    let client = JamfClientImpl::new("https://jamf.example".to_string(), Ok(auth)).unwrap();
    ComputerProvider::new(client)
}

fn section_params(query: &[(String, String)]) -> Vec<String> {
    query.iter().filter(|(k, _)| k == "section").map(|(_, v)| v.clone()).collect()
}

fn page_param(query: &[(String, String)]) -> String {
    query.iter().find(|(k, _)| k == "page").map(|(_, v)| v.clone()).unwrap()
}

/// Runs one aggregation, answering the inventory requests from `pages` and
/// the catalog request with `updates`; returns the outcome and the inventory
/// pages requested, in order.
fn run(
    pages: Vec<JamfComputerInventoryResponse>,
    updates: Result<JamfAvailableUpdates, String>,
) -> (Result<DevicesOutput, JamfClientError>, Vec<String>) {
    let provider = provider();
    let (mut fetch, mut action) = provider.start_fetch();
    let mut pages = pages.into_iter();
    let mut updates = Some(updates);
    let mut requested = Vec::new();
    loop {
        action = match action {
            ProviderAction::FetchInventoryPage(query) => {
                assert_eq!(section_params(&query), vec!["OPERATING_SYSTEM", "GENERAL", "HARDWARE"]);
                requested.push(page_param(&query));
                match pages.next() {
                    Some(page) => fetch.step(ProviderEvent::InventoryPage(page)),
                    None => fetch.step(ProviderEvent::RequestFailed("no such page".to_string())),
                }
            }
            ProviderAction::FetchUpdates => match updates.take().unwrap() {
                Ok(u) => fetch.step(ProviderEvent::Updates(u)),
                Err(cause) => fetch.step(ProviderEvent::RequestFailed(cause)),
            },
            ProviderAction::Finished(out) => return (Ok(out), requested),
            ProviderAction::Failed(e) => return (Err(e), requested),
        }
    }
}

fn test_computer_output() -> Computer {
    Computer {
        device_id: Some("test_id".to_string()),
        name: Some("test_name".to_string()),
        model: None,
        os: Some("MacOS".to_string()),
        os_is_latest: Some(true),
    }
}

fn test_inventory_response() -> JamfComputerInventoryResponse {
    JamfComputerInventoryResponse {
        total_count: 1,
        results: vec![JamfComputer {
            hardware: None,
            security: None,
            software: None,
            configuration_profiles: None,
            operating_system: Some(JamfComputerOperatingSystem {
                name: "MacOS".to_string(),
                version: "14.0.0".to_string(),
                build: "whatever".to_string(),
                software_updates: None,
            }),
            general: Some(JamfComputerGeneral { name: "test_name".to_string() }),
            id: Some("test_id".to_string()),
            udid: Some("udid_test".to_string()),
        }],
    }
}

fn test_available_updates() -> JamfAvailableUpdates {
    JamfAvailableUpdates {
        available_updates: AvailableUpdates { mac_os: vec!["14.0.0".to_string()], ios: vec![] },
    }
}

fn numbered(from: usize, count: usize, total: usize) -> JamfComputerInventoryResponse {
    let results = (from..from + count)
        .map(|i| JamfComputer {
            hardware: Some(JamfComputerHardware {
                make: "Apple".to_string(),
                model: format!("model{}", i),
            }),
            security: None,
            software: None,
            configuration_profiles: None,
            operating_system: None,
            general: None,
            id: Some(format!("{}", i)),
            udid: None,
        })
        .collect();
    JamfComputerInventoryResponse { total_count: total, results }
}

#[test]
fn provider_requests_the_three_sections() {
    let p = provider();
    assert_eq!(
        p.sections(),
        vec![
            ComputerInventorySection::OperatingSystem,
            ComputerInventorySection::General,
            ComputerInventorySection::Hardware,
        ]
    );
}

#[test]
fn fetch_computers_empty() {
    let empty = JamfComputerInventoryResponse { total_count: 0, results: vec![] };
    let (computers, _) = run(vec![empty], Ok(test_available_updates()));
    let computers = computers.expect("Should succeed");
    assert_eq!(computers, DevicesOutput { computers: vec![] });
}

#[test]
fn fetch_computers_one_computer() {
    let (computers, _) = run(vec![test_inventory_response()], Ok(test_available_updates()));
    let computers = computers.expect("Should succeed");
    assert_eq!(computers, DevicesOutput { computers: vec![test_computer_output()] });
}

#[test]
fn empty_inventory_takes_one_request() {
    let empty = JamfComputerInventoryResponse { total_count: 0, results: vec![] };
    let (computers, requested) = run(vec![empty], Ok(test_available_updates()));
    assert_eq!(requested, vec!["0"]);
    assert_eq!(computers.unwrap().computers.len(), 0);
}

#[test]
fn full_first_page_takes_one_request() {
    let (computers, requested) = run(vec![numbered(0, 100, 100)], Ok(test_available_updates()));
    assert_eq!(requested, vec!["0"]);
    assert_eq!(computers.unwrap().computers.len(), 100);
}

#[test]
fn hundred_fifty_records_take_two_requests_in_order() {
    let pages = vec![numbered(0, 100, 150), numbered(100, 50, 150)];
    let (computers, requested) = run(pages, Ok(test_available_updates()));
    assert_eq!(requested, vec!["0", "1"]);
    let computers = computers.unwrap().computers;
    assert_eq!(computers.len(), 150);
    for (i, c) in computers.iter().enumerate() {
        assert_eq!(c.device_id, Some(format!("{}", i)));
        assert_eq!(c.model, Some(format!("model{}", i)));
        assert_eq!(c.os_is_latest, None);
    }
}

#[test]
fn two_hundred_one_records_take_three_requests() {
    let pages = vec![numbered(0, 100, 201), numbered(100, 100, 201), numbered(200, 1, 201)];
    let (computers, requested) = run(pages, Ok(test_available_updates()));
    assert_eq!(requested, vec!["0", "1", "2"]);
    assert_eq!(computers.unwrap().computers.len(), 201);
}

#[test]
fn later_page_total_does_not_change_page_count() {
    let pages = vec![numbered(0, 100, 150), numbered(100, 50, 900)];
    let (computers, requested) = run(pages, Ok(test_available_updates()));
    assert_eq!(requested, vec!["0", "1"]);
    assert_eq!(computers.unwrap().computers.len(), 150);
}

#[test]
fn failed_page_aborts_the_fetch() {
    let pages = vec![numbered(0, 100, 150)];
    let (computers, requested) = run(pages, Ok(test_available_updates()));
    assert_eq!(requested, vec!["0", "1"]);
    assert_eq!(computers, Err(JamfClientError::FetchError("no such page".to_string())));
}

#[test]
fn failed_first_page_aborts_the_fetch() {
    let (computers, requested) = run(vec![], Ok(test_available_updates()));
    assert_eq!(requested, vec!["0"]);
    assert_eq!(computers, Err(JamfClientError::FetchError("no such page".to_string())));
}

#[test]
fn failed_catalog_aborts_after_inventory_succeeded() {
    let (computers, requested) =
        run(vec![test_inventory_response()], Err("catalog unreachable".to_string()));
    assert_eq!(requested, vec!["0"]);
    assert_eq!(computers, Err(JamfClientError::FetchError("catalog unreachable".to_string())));
}

#[test]
fn newer_catalog_entry_marks_device_outdated() {
    let updates = JamfAvailableUpdates {
        available_updates: AvailableUpdates { mac_os: vec!["14.1.0".to_string()], ios: vec![] },
    };
    let (computers, _) = run(vec![test_inventory_response()], Ok(updates));
    let computers = computers.unwrap().computers;
    assert_eq!(computers[0].os_is_latest, Some(false));
    assert_eq!(computers[0].os, Some("MacOS".to_string()));
}

#[test]
fn ios_list_is_not_consulted() {
    let updates = JamfAvailableUpdates {
        available_updates: AvailableUpdates {
            mac_os: vec!["13.0".to_string()],
            ios: vec!["99.0".to_string()],
        },
    };
    let (computers, _) = run(vec![test_inventory_response()], Ok(updates));
    assert_eq!(computers.unwrap().computers[0].os_is_latest, Some(true));
}
