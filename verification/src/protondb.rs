//! Compatibility-advisory data: the tier scale and per-game reports that the
//! advisory client returns. The client's wire protocol lives outside; its
//! results enter the engine as these plain values.

use vstd::prelude::*;

verus! {

/// The compatibility tier reported for a game.
#[derive(Debug, Clone, Copy, PartialEq, Eq, Structural)]
pub enum ProtonDBTier {
    /// Works perfectly out of the box.
    Platinum,
    /// Works perfectly after tweaks.
    Gold,
    /// Works with minor issues.
    Silver,
    /// Runs, but crashes often or has major issues.
    Bronze,
    /// Does not work.
    Borked,
    /// Not enough reports.
    Pending,
}

/// One user-submitted compatibility report.
#[derive(Debug, Clone, PartialEq)]
pub struct GameReport {
    pub appid: u32,
    pub tier: ProtonDBTier,
    pub proton_version: String,
    pub timestamp: String,
    pub notes: Option<String>,
    pub specs: Option<SystemSpecs>,
    pub score: u8,
}

/// The reporting system's hardware description.
#[derive(Debug, Clone, PartialEq)]
pub struct SystemSpecs {
    pub gpu: Option<String>,
    pub gpu_driver: Option<String>,
    pub os: Option<String>,
    pub kernel: Option<String>,
    pub ram: Option<u32>,
    pub cpu: Option<String>,
}

/// The advisory consumed by the spec builder: a recommended runtime version
/// and the tier it rests on.
#[derive(Debug, Clone, PartialEq)]
pub struct Advisory {
    pub recommended_proton: String,
    pub tier: ProtonDBTier,
}

} // verus!
