//! The application configuration tree and launcher lookup.

use vstd::prelude::*;
use crate::strutil::{lower_of, lowercase, str_eq};

verus! {

#[derive(Debug, Clone, PartialEq)]
pub struct Config {
    pub general: GeneralConfig,
    pub wine: WineConfig,
    pub gpu: GpuConfig,
    pub paths: PathsConfig,
    pub launchers: LaunchersConfig,
}

#[derive(Debug, Clone, PartialEq)]
pub struct GeneralConfig {
    pub default_wine_version: String,
    pub enable_gamemode: bool,
    pub enable_mangohud: bool,
    pub enable_fsync: bool,
    pub enable_esync: bool,
    pub enable_dxvk: bool,
    pub enable_vkd3d: bool,
    pub cpu_governor: String,
    pub log_level: String,
}

#[derive(Debug, Clone, PartialEq)]
pub struct WineConfig {
    pub default_prefix_path: String,
    pub wine_versions_path: String,
    pub winetricks_path: Option<String>,
    pub dxvk_versions_path: String,
    pub vkd3d_versions_path: String,
    pub default_arch: String,
    pub default_windows_version: String,
}

#[derive(Debug, Clone, PartialEq)]
pub struct GpuConfig {
    pub nvidia_prime_render_offload: bool,
    pub amd_vulkan_icd: String,
    pub intel_vulkan_icd: String,
    pub enable_nvapi: bool,
    pub enable_nvidia_ngx: bool,
    pub enable_dlss: bool,
    pub enable_ray_tracing: bool,
    pub vram_limit: Option<u32>,
}

#[derive(Debug, Clone, PartialEq)]
pub struct PathsConfig {
    pub games_library: String,
    pub downloads: String,
    pub backups: String,
    pub logs: String,
    pub cache: String,
    pub database: String,
}

#[derive(Debug, Clone, PartialEq)]
pub struct LaunchersConfig {
    pub steam: Option<LauncherConfig>,
    pub battlenet: Option<LauncherConfig>,
    pub epic: Option<LauncherConfig>,
    pub gog: Option<LauncherConfig>,
    pub ubisoft: Option<LauncherConfig>,
    pub ea: Option<LauncherConfig>,
}

#[derive(Debug, Clone, PartialEq)]
pub struct LauncherConfig {
    pub enabled: bool,
    pub path: String,
    pub wine_version: Option<String>,
    pub prefix_path: Option<String>,
    pub auto_sync: bool,
}

/// Whether a borrowed lookup result presents exactly the stored option.
pub open spec fn presents(o: Option<LauncherConfig>, r: Option<&LauncherConfig>) -> bool {
    match r {
        Option::Some(c) => o == Option::Some(*c),
        Option::None => o is None,
    }
}

impl Config {
    /// The launcher configuration a name refers to, accepting the common
    /// aliases, case-insensitively.
    pub fn get_launcher(&self, name: &str) -> (r: Option<&LauncherConfig>)
        ensures
            ({
                let low = lower_of(name@);
                if low == "steam"@ {
                    presents(self.launchers.steam, r)
                } else if low == "battlenet"@ || low == "battle.net"@ {
                    presents(self.launchers.battlenet, r)
                } else if low == "epic"@ {
                    presents(self.launchers.epic, r)
                } else if low == "gog"@ {
                    presents(self.launchers.gog, r)
                } else if low == "ubisoft"@ || low == "uplay"@ {
                    presents(self.launchers.ubisoft, r)
                } else if low == "ea"@ || low == "origin"@ {
                    presents(self.launchers.ea, r)
                } else {
                    r is None
                }
            }),
    {
        let low = lowercase(name);
        let l = low.as_str();
        if str_eq(l, "steam") {
            self.launchers.steam.as_ref()
        } else if str_eq(l, "battlenet") || str_eq(l, "battle.net") {
            self.launchers.battlenet.as_ref()
        } else if str_eq(l, "epic") {
            self.launchers.epic.as_ref()
        } else if str_eq(l, "gog") {
            self.launchers.gog.as_ref()
        } else if str_eq(l, "ubisoft") || str_eq(l, "uplay") {
            self.launchers.ubisoft.as_ref()
        } else if str_eq(l, "ea") || str_eq(l, "origin") {
            self.launchers.ea.as_ref()
        } else {
            Option::None
        }
    }
}

} // verus!
