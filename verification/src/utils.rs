//! Host system descriptions and the detector's pure parsing and
//! recommendation logic. Probing commands run outside; their text output
//! is parsed here.

use vstd::prelude::*;
use crate::strutil::{
    chars_of_str, find_char, lower_contains, name_contains, scan_char, spec_trim,
    substring_chars, trim_str,
};

verus! {

/// Everything detection learned about the host.
#[derive(Debug, Clone, PartialEq)]
pub struct SystemInfo {
    pub os: String,
    pub kernel: String,
    pub desktop: Option<String>,
    pub gpu: Vec<GpuInfo>,
    pub cpu: CpuInfo,
    pub memory: MemoryInfo,
    pub vulkan: VulkanInfo,
    pub wine_support: WineSupport,
    pub gaming_tools: GamingTools,
}

/// One detected graphics device.
#[derive(Debug, Clone, PartialEq)]
pub struct GpuInfo {
    pub vendor: GpuVendor,
    pub name: String,
    pub driver: Option<String>,
    pub vram: Option<u64>,
    pub vulkan_support: bool,
    pub dxvk_support: bool,
}

#[derive(Debug, Clone, Copy, PartialEq, Eq, Structural)]
pub enum GpuVendor {
    Nvidia,
    AMD,
    Intel,
    Unknown,
}

#[derive(Debug, Clone, PartialEq)]
pub struct CpuInfo {
    pub brand: String,
    pub cores: usize,
    pub threads: usize,
    pub frequency: u64,
}

#[derive(Debug, Clone, Copy, PartialEq, Eq, Structural)]
pub struct MemoryInfo {
    pub total: u64,
    pub available: u64,
    pub swap_total: u64,
}

#[derive(Debug, Clone, PartialEq)]
pub struct VulkanInfo {
    pub available: bool,
    pub driver_version: Option<String>,
    pub api_version: Option<String>,
    pub devices: Vec<String>,
}

#[derive(Debug, Clone, PartialEq)]
pub struct WineSupport {
    pub installed: bool,
    pub version: Option<String>,
    pub architecture: Vec<String>,
    pub multilib_support: bool,
    pub prefix_path: Option<String>,
}

#[derive(Debug, Clone, Copy, PartialEq, Eq, Structural)]
pub struct GamingTools {
    pub dxvk: bool,
    pub vkd3d: bool,
    pub mangohud: bool,
    pub gamemode: bool,
    pub gamescope: bool,
    pub winetricks: bool,
    pub protontricks: bool,
}

/// Pure parsing and recommendation logic of host detection.
#[derive(Debug, Clone, Copy, PartialEq, Eq, Structural)]
pub struct SystemDetector;

/// The vendor a device line names.
pub open spec fn spec_gpu_vendor(line: Seq<char>) -> GpuVendor {
    if lower_contains(line, "nvidia"@) {
        GpuVendor::Nvidia
    } else if lower_contains(line, "amd"@) || lower_contains(line, "ati"@) {
        GpuVendor::AMD
    } else if lower_contains(line, "intel"@) {
        GpuVendor::Intel
    } else {
        GpuVendor::Unknown
    }
}

/// The device name in a bus listing line: what follows the first colon, cut
/// before the first bracket, trimmed.
pub open spec fn spec_gpu_name(line: Seq<char>) -> Seq<char> {
    let c = scan_char(line, 0, ':');
    if c < line.len() {
        let after = line.subrange(c + 1, line.len() as int);
        spec_trim(after.take(scan_char(after, 0, '[')))
    } else {
        "Unknown GPU"@
    }
}

impl SystemDetector {
    /// Parses one graphics device line of the bus listing.
    pub fn parse_gpu_line(line: &str) -> (r: GpuInfo)
        ensures
            r.vendor == spec_gpu_vendor(line@),
            r.name@ == spec_gpu_name(line@),
            r.driver is None,
            r.vram is None,
            r.vulkan_support == false,
            r.dxvk_support == false,
    {
        let vendor = if name_contains(line, "nvidia") {
            GpuVendor::Nvidia
        } else if name_contains(line, "amd") || name_contains(line, "ati") {
            GpuVendor::AMD
        } else if name_contains(line, "intel") {
            GpuVendor::Intel
        } else {
            GpuVendor::Unknown
        };
        let chars = chars_of_str(line);
        let c = find_char(&chars, 0, ':');
        let name: String;
        if c < chars.len() {
            let after = substring_chars(&chars, c + 1, chars.len());
            let after_chars = chars_of_str(after.as_str());
            let b = find_char(&after_chars, 0, '[');
            let head = substring_chars(&after_chars, 0, b);
            name = trim_str(head.as_str());
            proof {
                assert(after_chars@ == line@.subrange(c as int + 1, line@.len() as int));
                assert(after_chars@.take(b as int) =~= head@);
            }
        } else {
            name = "Unknown GPU".to_owned();
        }
        GpuInfo { vendor, name, driver: Option::None, vram: Option::None, vulkan_support: false, dxvk_support: false }
    }

    /// The prefix recommendation for a game name: a fixed table keyed on
    /// well-known title families, with a sensible default.
    pub fn generate_wine_prefix_recommendation(game_name: &str) -> (r: String)
        ensures
            ({
                if lower_contains(game_name@, "world of warcraft"@) || lower_contains(
                    game_name@,
                    "wow"@,
                ) {
                    r@ == "Recommended: win10, DXVK enabled, vcrun2019, corefonts"@
                } else if lower_contains(game_name@, "diablo"@) {
                    r@ == "Recommended: win10, DXVK enabled, vcrun2019, dotnet48"@
                } else if lower_contains(game_name@, "overwatch"@) {
                    r@ == "Recommended: win10, DXVK enabled, vcrun2019, careful with anti-cheat"@
                } else if lower_contains(game_name@, "hearthstone"@) {
                    r@ == "Recommended: win10, vcrun2019, corefonts, dotnet48"@
                } else {
                    r@ == "Recommended: win10, DXVK enabled, vcrun2019, corefonts"@
                }
            }),
    {
        if name_contains(game_name, "world of warcraft") || name_contains(game_name, "wow") {
            "Recommended: win10, DXVK enabled, vcrun2019, corefonts".to_owned()
        } else if name_contains(game_name, "diablo") {
            "Recommended: win10, DXVK enabled, vcrun2019, dotnet48".to_owned()
        } else if name_contains(game_name, "overwatch") {
            "Recommended: win10, DXVK enabled, vcrun2019, careful with anti-cheat".to_owned()
        } else if name_contains(game_name, "hearthstone") {
            "Recommended: win10, vcrun2019, corefonts, dotnet48".to_owned()
        } else {
            "Recommended: win10, DXVK enabled, vcrun2019, corefonts".to_owned()
        }
    }
}

} // verus!
