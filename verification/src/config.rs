use vstd::prelude::*;

verus! {

/// A device as the operator's configuration names it: address and plaintext
/// credentials for the ad-hoc scan path that bypasses the vault.
#[derive(Clone, Debug)]
pub struct Device {
    pub address: String,
    pub username: String,
    pub password: String,
}

/// Operator settings: which script files to load, in order, and which check
/// ids to suppress before any device scan begins.
#[derive(Clone, Debug)]
pub struct Settings {
    pub exclusion_ids: Vec<String>,
    pub check_files: Vec<String>,
}

/// A full run configuration: the device list and the settings.
#[derive(Clone, Debug)]
pub struct Config {
    pub devices: Vec<Device>,
    pub settings: Settings,
}

/// Command-line arguments: an optional path to the configuration file; with
/// none given, the configuration is read from standard input.
#[derive(Clone, Debug)]
pub struct Args {
    pub config: Option<String>,
}

} // verus!
