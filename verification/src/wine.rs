//! Wine runtime inventory types and their manager.

use vstd::prelude::*;

verus! {

/// One installed or installable wine runtime.
#[derive(Debug, Clone, PartialEq)]
pub struct WineVersion {
    pub name: String,
    pub version: String,
    pub path: String,
    pub wine_type: WineType,
    pub arch: Vec<String>,
    pub installed: bool,
    pub system: bool,
    pub download_url: Option<String>,
    pub checksum: Option<String>,
}

#[derive(Debug, Clone, Copy, PartialEq, Eq, Structural)]
pub enum WineType {
    Wine,
    WineStaging,
    Proton,
    ProtonGE,
    ProtonTKG,
    Lutris,
    Custom,
}

/// Tracks wine installations below two directories. Scanning the file
/// system happens outside.
#[derive(Debug, Clone, PartialEq)]
pub struct WineManager {
    pub wine_dir: String,
    pub config_dir: String,
}

impl WineManager {
    pub fn new(wine_dir: String, config_dir: String) -> (r: Self)
        ensures
            r.wine_dir == wine_dir,
            r.config_dir == config_dir,
    {
        WineManager { wine_dir, config_dir }
    }
}

} // verus!
