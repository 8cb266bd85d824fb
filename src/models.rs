//! Records as the Jamf API reports them, and the summaries derived from them.
use vstd::prelude::*;

use crate::version::{is_os_updated, strings_view, up_to_date};

verus! {

/// The token handed out by the token endpoint.
#[derive(Clone, Debug, PartialEq, Eq)]
pub struct JamfAuthReponse {
    pub token: String,
    pub expires: String,
}

/// One inventory record of a managed computer; the API omits each section
/// that was not requested or is not populated for the device.
#[derive(Clone, Debug, PartialEq, Eq)]
pub struct JamfComputer {
    pub hardware: Option<JamfComputerHardware>,
    pub security: Option<JamfComputerSecurity>,
    pub software: Option<JamfComputerSoftware>,
    pub configuration_profiles: Option<Vec<JamfConfigurationProfile>>,
    pub operating_system: Option<JamfComputerOperatingSystem>,
    pub general: Option<JamfComputerGeneral>,
    pub id: Option<String>,
    pub udid: Option<String>,
}

#[derive(Clone, Debug, PartialEq, Eq)]
pub struct JamfComputerOperatingSystem {
    pub name: String,
    pub version: String,
    pub build: String,
    pub software_updates: Option<Vec<JamfSoftwareUpdate>>,
}

#[derive(Clone, Debug, PartialEq, Eq)]
pub struct JamfSoftwareUpdate {
    pub name: String,
    pub version: String,
    pub package_name: String,
}

#[derive(Clone, Debug, PartialEq, Eq)]
pub struct JamfComputerGeneral {
    pub name: String,
}

#[derive(Clone, Debug, PartialEq, Eq)]
pub struct JamfComputerHardware {
    pub make: String,
    pub model: String,
}

#[derive(Clone, Debug, PartialEq, Eq)]
pub struct JamfComputerSecurity {
    pub activation_lock: Option<bool>,
    pub recovery_lock_enabled: Option<bool>,
    pub secure_boot_level: String,
    pub external_boot_level: String,
    pub firewall_enabled: Option<bool>,
}

#[derive(Clone, Debug, PartialEq, Eq)]
pub struct JamfConfigurationProfile {
    pub id: i64,
    pub name: String,
    pub uuid: String,
    pub is_removable: bool,
}

#[derive(Clone, Debug, PartialEq, Eq)]
pub struct JamfComputerSoftware {
    pub available_software_updates: Vec<String>,
    pub available_updates: Vec<String>,
}

/// One page of the computer inventory: `total_count` counts the records of
/// all pages together.
#[derive(Clone, Debug, PartialEq, Eq)]
pub struct JamfComputerInventoryResponse {
    pub total_count: usize,
    pub results: Vec<JamfComputer>,
}

/// The OS update versions that the vendor currently offers, per platform.
#[derive(Clone, Debug, PartialEq, Eq)]
pub struct AvailableUpdates {
    pub mac_os: Vec<String>,
    pub ios: Vec<String>,
}

#[derive(Clone, Debug, PartialEq, Eq)]
pub struct JamfAvailableUpdates {
    pub available_updates: AvailableUpdates,
}

/// The externally visible summary of one managed computer.
#[derive(Clone, Debug, PartialEq, Eq)]
pub struct Computer {
    pub device_id: Option<String>,
    pub name: Option<String>,
    pub model: Option<String>,
    pub os: Option<String>,
    pub os_is_latest: Option<bool>,
}

/// The summaries of all managed computers, in inventory order.
#[derive(Clone, Debug, PartialEq, Eq)]
pub struct DevicesOutput {
    pub computers: Vec<Computer>,
}

/// The summary of `d`, judged against the update versions `updates`.
pub open spec fn summary_of(d: JamfComputer, updates: Seq<Seq<char>>) -> Computer {
    Computer {
        device_id: d.id,
        name: match d.general {
            Some(g) => Some(g.name),
            None => None,
        },
        model: match d.hardware {
            Some(h) => Some(h.model),
            None => None,
        },
        os: match d.operating_system {
            Some(o) => Some(o.name),
            None => None,
        },
        os_is_latest: match d.operating_system {
            Some(o) => Some(up_to_date(o.version@, updates)),
            None => None,
        },
    }
}

/// Maps one inventory record to its summary; `os_is_latest` says whether its
/// OS version is superseded by none of `mac_os_versions`.
pub fn convert_jamf_computer_details(
    jamf_computer_details: JamfComputer,
    mac_os_versions: &Vec<String>,
) -> (r: Computer)
    ensures
        r == summary_of(jamf_computer_details, strings_view(mac_os_versions@)),
{
    let JamfComputer {
        hardware,
        security: _,
        software: _,
        configuration_profiles: _,
        operating_system,
        general,
        id,
        udid: _,
    } = jamf_computer_details;
    let name = match general {
        Some(g) => Some(g.name),
        None => None,
    };
    let model = match hardware {
        Some(h) => Some(h.model),
        None => None,
    };
    let (os, os_is_latest) = match operating_system {
        Some(o) => {
            let latest = is_os_updated(o.version.as_str(), mac_os_versions);
            (Some(o.name), Some(latest))
        },
        None => (None, None),
    };
    Computer { device_id: id, name, model, os, os_is_latest }
}

} // verus!
