//! Launch-time options for running one game process.

use vstd::prelude::*;

verus! {

/// How a game's process is hosted.
#[derive(Debug, Clone, Copy, PartialEq, Eq, Structural)]
pub enum LauncherType {
    Native,
    Wine,
    Steam,
    Proton,
    Custom,
}

/// Everything configurable about one launch.
#[derive(Debug, Clone, PartialEq)]
pub struct LaunchOptions {
    pub wine_version: Option<String>,
    pub wine_prefix: Option<String>,
    pub environment_variables: Vec<(String, String)>,
    pub launch_arguments: Vec<String>,
    pub working_directory: Option<String>,
    pub enable_dxvk: bool,
    pub enable_vkd3d: bool,
    pub enable_gamemode: bool,
    pub enable_mangohud: bool,
    pub enable_gamescope: bool,
    pub gamescope_options: Option<String>,
    pub nvidia_prime: bool,
    pub amd_prime: Option<u8>,
    pub cpu_affinity: Option<Vec<u32>>,
    pub nice_level: Option<i8>,
    pub pre_launch_script: Option<String>,
    pub post_launch_script: Option<String>,
}

impl Default for LaunchOptions {
    /// No overrides: the DirectX translation layer and the system
    /// optimizer on, everything else off or unset.
    fn default() -> (r: Self)
        ensures
            r.wine_version is None,
            r.wine_prefix is None,
            r.environment_variables@.len() == 0,
            r.launch_arguments@.len() == 0,
            r.working_directory is None,
            r.enable_dxvk == true,
            r.enable_vkd3d == false,
            r.enable_gamemode == true,
            r.enable_mangohud == false,
            r.enable_gamescope == false,
            r.gamescope_options is None,
            r.nvidia_prime == false,
            r.amd_prime is None,
            r.cpu_affinity is None,
            r.nice_level is None,
            r.pre_launch_script is None,
            r.post_launch_script is None,
    {
        LaunchOptions {
            wine_version: Option::None,
            wine_prefix: Option::None,
            environment_variables: Vec::new(),
            launch_arguments: Vec::new(),
            working_directory: Option::None,
            enable_dxvk: true,
            enable_vkd3d: false,
            enable_gamemode: true,
            enable_mangohud: false,
            enable_gamescope: false,
            gamescope_options: Option::None,
            nvidia_prime: false,
            amd_prime: Option::None,
            cpu_affinity: Option::None,
            nice_level: Option::None,
            pre_launch_script: Option::None,
            post_launch_script: Option::None,
        }
    }
}

} // verus!
