use ghostforge::config::{Config, GeneralConfig, GpuConfig, LauncherConfig, LaunchersConfig,
    PathsConfig, WineConfig};
use ghostforge::strutil::name_contains;
use ghostforge::profiles::{create_nvidia_config_for_category, detect_game_category, GameCategory};
use ghostforge::utils::{GpuVendor, SystemDetector};
use ghostforge::winetricks::WinetricksManager;

#[test]
fn battlenet_essentials_hold_the_six_components() {
    let verbs = WinetricksManager::get_battlenet_essentials();
    let names: Vec<&str> = verbs.iter().map(|v| v.name.as_str()).collect();
    assert_eq!(
        names,
        vec!["corefonts", "vcrun2019", "vcrun2022", "dotnet48", "d3dcompiler_47", "dxvk"]
    );
    assert_eq!(verbs[1].conflicts_with, vec!["vcrun2022".to_string()]);
}

#[test]
fn wow_verbs_pin_windows_version_and_audio() {
    let verbs = WinetricksManager::get_wow_specific();
    assert_eq!(verbs.len(), 2);
    assert_eq!(verbs[0].name, "win10");
    assert_eq!(verbs[1].name, "sound=pulse");
    assert!(verbs[0].size_mb.is_none());
}

#[test]
fn verb_lookup_finds_both_tables() {
    let m = WinetricksManager::new("/usr/bin/winetricks".to_string(), "/cache".to_string());
    assert_eq!(m.get_verb_info("dxvk").map(|v| v.name), Some("dxvk".to_string()));
    assert_eq!(m.get_verb_info("win10").map(|v| v.name), Some("win10".to_string()));
    assert!(m.get_verb_info("unknown-verb").is_none());
}

#[test]
fn conflicting_selections_are_reported() {
    let m = WinetricksManager::new("/usr/bin/winetricks".to_string(), "/cache".to_string());
    let conflicts =
        m.check_conflicts(&vec!["vcrun2019".to_string(), "vcrun2022".to_string()]);
    assert_eq!(
        conflicts,
        vec![
            "vcrun2019 conflicts with vcrun2022".to_string(),
            "vcrun2022 conflicts with vcrun2019".to_string(),
        ]
    );
    let none = m.check_conflicts(&vec!["corefonts".to_string(), "dotnet48".to_string()]);
    assert!(none.is_empty());
}

#[test]
fn installed_verbs_follow_marker_files() {
    let m = WinetricksManager::new("/usr/bin/winetricks".to_string(), "/cache".to_string());
    assert_eq!(
        m.list_installed_verbs(true, false, true),
        vec!["corefonts".to_string(), "dotnet48".to_string()]
    );
    assert!(m.list_installed_verbs(false, false, false).is_empty());
    assert_eq!(m.verb_markers().len(), 3);
}

#[test]
fn dry_run_toggles() {
    let mut m = WinetricksManager::new("/usr/bin/winetricks".to_string(), "/cache".to_string());
    assert!(m.dry_run);
    m.set_dry_run(false);
    assert!(!m.dry_run);
}

fn sample_config() -> Config {
    let launcher = LauncherConfig {
        enabled: true,
        path: "/opt/steam".to_string(),
        wine_version: None,
        prefix_path: None,
        auto_sync: false,
    };
    Config {
        general: GeneralConfig {
            default_wine_version: "system".to_string(),
            enable_gamemode: true,
            enable_mangohud: false,
            enable_fsync: true,
            enable_esync: true,
            enable_dxvk: true,
            enable_vkd3d: true,
            cpu_governor: "ondemand".to_string(),
            log_level: "info".to_string(),
        },
        wine: WineConfig {
            default_prefix_path: "/data/prefixes".to_string(),
            wine_versions_path: "/data/wine-versions".to_string(),
            winetricks_path: None,
            dxvk_versions_path: "/data/dxvk".to_string(),
            vkd3d_versions_path: "/data/vkd3d".to_string(),
            default_arch: "win64".to_string(),
            default_windows_version: "win10".to_string(),
        },
        gpu: GpuConfig {
            nvidia_prime_render_offload: false,
            amd_vulkan_icd: "radv".to_string(),
            intel_vulkan_icd: "anv".to_string(),
            enable_nvapi: true,
            enable_nvidia_ngx: true,
            enable_dlss: true,
            enable_ray_tracing: true,
            vram_limit: None,
        },
        paths: PathsConfig {
            games_library: "/home/u/Games".to_string(),
            downloads: "/home/u/Downloads".to_string(),
            backups: "/data/backups".to_string(),
            logs: "/data/logs".to_string(),
            cache: "/data/cache".to_string(),
            database: "/data/db".to_string(),
        },
        launchers: LaunchersConfig {
            steam: Some(launcher),
            battlenet: None,
            epic: None,
            gog: None,
            ubisoft: None,
            ea: None,
        },
    }
}

#[test]
fn launcher_lookup_accepts_aliases() {
    let config = sample_config();
    assert!(config.get_launcher("Steam").is_some());
    assert!(config.get_launcher("STEAM").is_some());
    assert!(config.get_launcher("battle.net").is_none());
    assert!(config.get_launcher("nonexistent").is_none());
}

#[test]
fn gpu_lines_parse_vendor_and_name() {
    let line = "VGA compatible controller: NVIDIA Corporation GA104 [GeForce RTX 3070]";
    let info = SystemDetector::parse_gpu_line(line);
    assert_eq!(info.vendor, GpuVendor::Nvidia);
    assert_eq!(info.name, "NVIDIA Corporation GA104");
    let with_bus = "01:00.0 VGA compatible controller: AMD Radeon RX 6800";
    let bus_info = SystemDetector::parse_gpu_line(with_bus);
    assert_eq!(bus_info.vendor, GpuVendor::AMD);
    assert_eq!(bus_info.name, "00.0 VGA compatible controller: AMD Radeon RX 6800");
    assert!(info.driver.is_none());
    let odd = SystemDetector::parse_gpu_line("no separator here");
    assert_eq!(odd.vendor, GpuVendor::Unknown);
    assert_eq!(odd.name, "Unknown GPU");
}

#[test]
fn prefix_recommendations_follow_title_families() {
    assert_eq!(
        SystemDetector::generate_wine_prefix_recommendation("World of Warcraft"),
        "Recommended: win10, DXVK enabled, vcrun2019, corefonts"
    );
    assert_eq!(
        SystemDetector::generate_wine_prefix_recommendation("Diablo IV"),
        "Recommended: win10, DXVK enabled, vcrun2019, dotnet48"
    );
    assert_eq!(
        SystemDetector::generate_wine_prefix_recommendation("Hearthstone"),
        "Recommended: win10, vcrun2019, corefonts, dotnet48"
    );
}

#[test]
fn case_folding_reaches_the_heuristics() {
    assert!(name_contains("Apex Legends", "apex"));
    assert!(!name_contains("Apex Legends", "fortnite"));
    assert!(name_contains("CYBERPUNK 2077", "cyberpunk"));
}

#[test]
fn categories_follow_names_then_popularity() {
    assert_eq!(detect_game_category("Counter-Strike 2", None), GameCategory::Competitive);
    assert_eq!(detect_game_category("Beat Saber", None), GameCategory::VR);
    assert_eq!(detect_game_category("The Witcher 3", None), GameCategory::AAA);
    assert_eq!(detect_game_category("Obscure Title", Some(5000)), GameCategory::AAA);
    assert_eq!(detect_game_category("Obscure Title", Some(300)), GameCategory::Indie);
    assert_eq!(detect_game_category("Obscure Title", None), GameCategory::Unknown);
}

#[test]
fn category_configs_trade_latency_against_quality() {
    let comp = create_nvidia_config_for_category(&GameCategory::Competitive);
    assert!(comp.reflex_enabled && !comp.dlss_enabled && !comp.raytracing_enabled);
    let aaa = create_nvidia_config_for_category(&GameCategory::AAA);
    assert!(aaa.dlss_enabled && aaa.raytracing_enabled && !aaa.reflex_enabled);
    let neutral = create_nvidia_config_for_category(&GameCategory::Unknown);
    assert_eq!(neutral.memory_clock_offset, Some(0));
}
