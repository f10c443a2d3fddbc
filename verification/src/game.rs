//! Per-game configuration: wine, graphics, performance and compatibility
//! settings attached to a game record.

use vstd::prelude::*;

verus! {

/// The full settings bundle of one game.
#[derive(Debug, Clone, PartialEq)]
pub struct GameSettings {
    pub wine_settings: WineSettings,
    pub graphics_settings: GraphicsSettings,
    pub performance_settings: PerformanceSettings,
    pub compatibility_settings: CompatibilitySettings,
}

/// Wine runtime selection and prefix configuration.
#[derive(Debug, Clone, PartialEq)]
pub struct WineSettings {
    pub wine_version: String,
    pub wine_arch: String,
    pub windows_version: String,
    pub prefix_path: String,
    pub enable_dxvk: bool,
    pub enable_vkd3d: bool,
    pub enable_nvapi: bool,
    pub enable_esync: bool,
    pub enable_fsync: bool,
    pub dll_overrides: Vec<(String, String)>,
    pub winetricks_verbs: Vec<String>,
}

/// Display and frame-presentation options.
#[derive(Debug, Clone, PartialEq)]
pub struct GraphicsSettings {
    pub resolution: Option<(u32, u32)>,
    pub fullscreen: bool,
    pub vsync: bool,
    pub fps_limit: Option<u32>,
    pub enable_mangohud: bool,
    pub enable_gamemode: bool,
    pub enable_gamescope: bool,
    pub gamescope_options: Option<String>,
    pub prime_run: bool,
    pub dri_prime: Option<u8>,
}

/// Scheduling and memory options applied around a launch.
#[derive(Debug, Clone, PartialEq)]
pub struct PerformanceSettings {
    pub cpu_affinity: Option<Vec<u32>>,
    pub cpu_governor: Option<String>,
    pub nice_level: Option<i8>,
    pub ionice_class: Option<u8>,
    pub ionice_level: Option<u8>,
    pub memory_limit: Option<u64>,
    pub disable_compositor: bool,
    pub pulse_latency_msec: Option<u32>,
}

/// Known compatibility constraints of a title.
#[derive(Debug, Clone, PartialEq)]
pub struct CompatibilitySettings {
    pub protondb_rating: Option<String>,
    pub known_issues: Vec<String>,
    pub required_winetricks: Vec<String>,
    pub required_overrides: Vec<(String, String)>,
    pub launch_through_steam: bool,
    pub use_steam_runtime: bool,
    pub battleye_support: bool,
    pub eac_support: bool,
}

} // verus!
