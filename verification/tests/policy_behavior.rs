use ghostforge::graphics::{GameScopeConfig, GraphicsLayerType, GraphicsManager, NvidiaFeatures};
use ghostforge::policy::{
    build_workload_spec, calculate_resource_limits, determine_dependencies,
    determine_network_mode, determine_runtime_version, Game,
};
use ghostforge::protondb::{Advisory, ProtonDBTier};
use ghostforge::workload::NetworkMode;

fn sample_game(name: &str) -> Game {
    Game {
        id: "game-1".to_string(),
        name: name.to_string(),
        executable: "/games/title/run.exe".to_string(),
        install_path: "/games/title".to_string(),
        launcher: None,
        launcher_id: None,
        wine_version: None,
        launch_arguments: vec![],
        environment_variables: vec![],
    }
}

fn no_gpu() -> NvidiaFeatures {
    NvidiaFeatures {
        available: false,
        gpu_name: None,
        driver_version: None,
        vram_mb: None,
        supports_rtx: false,
        supports_dlss: false,
        supports_nvapi: false,
        optimus_available: false,
    }
}

#[test]
fn apex_legends_gets_host_networking() {
    let game = sample_game("Apex Legends");
    let spec = build_workload_spec(&game, &no_gpu(), None, &None, "/data", "id-1".to_string(), 7)
        .expect("spec should build");
    assert_eq!(spec.network_mode, NetworkMode::Host);
}

#[test]
fn ordinary_title_gets_bridge_networking() {
    assert_eq!(determine_network_mode("Stardew Valley"), NetworkMode::Bridge);
    assert_eq!(determine_network_mode("VALORANT"), NetworkMode::Host);
    assert_eq!(determine_network_mode("Call of Duty: Warzone"), NetworkMode::Host);
}

#[test]
fn generic_indie_title_gets_compact_tier() {
    let game = sample_game("Generic Indie Title");
    let spec = build_workload_spec(&game, &no_gpu(), None, &None, "/data", "id-2".to_string(), 7)
        .expect("spec should build");
    assert_eq!(spec.resource_limits.memory_mb, Some(2048));
    assert_eq!(spec.resource_limits.disk_mb, Some(5120));
    assert!(spec.resource_limits.gpu_access);
    assert_eq!(spec.resource_limits.cpu_cores, None);
}

#[test]
fn memory_limit_is_always_one_of_the_tiers() {
    for name in [
        "Cyberpunk 2077",
        "Metro Exodus",
        "Some Retro Pack",
        "A Totally Unknown Title",
        "",
    ] {
        let limits = calculate_resource_limits(name);
        let mem = limits.memory_mb.expect("memory limit must be set");
        assert!(mem == 2048 || mem == 4096 || mem == 8192);
        assert!(limits.disk_mb.is_some());
    }
}

#[test]
fn heavy_title_gets_heavy_tier() {
    let limits = calculate_resource_limits("Cyberpunk 2077");
    assert_eq!(limits.memory_mb, Some(8192));
    assert_eq!(limits.disk_mb, Some(20480));
}

#[test]
fn missing_install_path_is_invalid_game() {
    let mut game = sample_game("Anything");
    game.install_path = String::new();
    let r = build_workload_spec(&game, &no_gpu(), None, &None, "/data", "id-3".to_string(), 7);
    assert_eq!(r, Err(ghostforge::errors::ProvisionError::InvalidGame));
}

#[test]
fn advisory_version_wins_over_fallback() {
    let advisory = Advisory {
        recommended_proton: "GE-Proton9-1".to_string(),
        tier: ProtonDBTier::Gold,
    };
    assert_eq!(determine_runtime_version(Some(&advisory)), "GE-Proton9-1");
    assert_eq!(determine_runtime_version(None), "GE-Proton8-26");
}

#[test]
fn steam_launcher_selects_storefront_image() {
    let mut game = sample_game("Any Game");
    game.launcher = Some("steam".to_string());
    let spec = build_workload_spec(&game, &no_gpu(), None, &None, "/data", "id-4".to_string(), 7)
        .expect("spec should build");
    assert_eq!(spec.base_image.name, "ghcr.io/ghostforge/gaming-steam");
    assert_eq!(spec.base_image.tag, "proton");
}

#[test]
fn detected_gpu_selects_vendor_image() {
    let mut gpu = no_gpu();
    gpu.available = true;
    let game = sample_game("Any Game");
    let spec = build_workload_spec(&game, &gpu, None, &None, "/data", "id-5".to_string(), 7)
        .expect("spec should build");
    assert_eq!(spec.base_image.name, "ghcr.io/ghostforge/gaming-nvidia");
}

#[test]
fn dependencies_follow_name_hints() {
    let deps = determine_dependencies("Some Vulkan DX Game");
    let deps: Vec<&str> = deps.iter().map(|s| s.as_str()).collect();
    assert_eq!(deps, vec!["wine", "winetricks", "cabextract", "dxvk", "vulkan-tools"]);
}

#[test]
fn game_environment_overrides_are_single_keyed() {
    let mut game = sample_game("Any Game");
    game.environment_variables =
        vec![("WINEPREFIX".to_string(), "/custom_prefix".to_string())];
    let spec = build_workload_spec(&game, &no_gpu(), None, &None, "/data", "id-6".to_string(), 7)
        .expect("spec should build");
    let hits: Vec<&(String, String)> = spec
        .environment_variables
        .iter()
        .filter(|p| p.0 == "WINEPREFIX")
        .collect();
    assert_eq!(hits.len(), 1);
    assert_eq!(hits[0].1, "/custom_prefix");
}

#[test]
fn workload_name_is_lowercased_and_hyphenated() {
    let game = sample_game("World Of Warcraft");
    let spec = build_workload_spec(&game, &no_gpu(), None, &None, "/data", "id-7".to_string(), 7)
        .expect("spec should build");
    assert_eq!(spec.name, "ghostforge-world-of-warcraft");
}

#[test]
fn mounts_include_display_socket_only_with_session() {
    let game = sample_game("Any Game");
    let without = build_workload_spec(&game, &no_gpu(), None, &None, "/d", "i1".to_string(), 0)
        .unwrap();
    let with = build_workload_spec(
        &game,
        &no_gpu(),
        None,
        &Some(":0".to_string()),
        "/d",
        "i2".to_string(),
        0,
    )
    .unwrap();
    assert_eq!(without.mount_points.len(), 5);
    assert_eq!(with.mount_points.len(), 6);
    assert_eq!(with.mount_points[5].host_path, "/tmp/.X11-unix");
    assert_eq!(without.mount_points[0].container_path, "/game");
    assert!(without.mount_points[0].read_only);
    assert_eq!(without.mount_points[1].host_path, "/d/i1/wine_prefix");
}

#[test]
fn recommendations_follow_gpu_features() {
    let gm = GraphicsManager::new("/tmp/gfx");
    let mut gpu = no_gpu();
    gpu.available = true;
    gpu.supports_dlss = true;
    gpu.supports_rtx = true;
    let layers = gm.recommend_for_game("Cyberpunk 2077", &gpu);
    assert_eq!(
        layers,
        vec![
            GraphicsLayerType::DXVK,
            GraphicsLayerType::VKD3DProton,
            GraphicsLayerType::MangoHud,
            GraphicsLayerType::GameMode,
            GraphicsLayerType::NvidiaDlss,
            GraphicsLayerType::NvidiaRtx,
            GraphicsLayerType::GameScope,
        ]
    );
    let plain = gm.recommend_for_game("Plain Game", &no_gpu());
    assert_eq!(plain, vec![GraphicsLayerType::DXVK]);
}

#[test]
fn gamescope_arguments_are_deterministic() {
    let gm = GraphicsManager::new("/tmp/gfx");
    let config = GameScopeConfig::default();
    let args = gm.setup_gamescope(&config);
    assert_eq!(
        args,
        vec!["gamescope", "-w", "1920", "-h", "1080", "-b", "--adaptive-sync", "--filter",
            "linear", "--"]
            .into_iter()
            .map(String::from)
            .collect::<Vec<String>>()
    );
}

#[test]
fn mangohud_environment_gains_gpu_counters() {
    let gm = GraphicsManager::new("/tmp/gfx");
    let mut gpu = no_gpu();
    gpu.available = true;
    let env = gm.setup_mangohud_nvidia(&gpu);
    assert_eq!(env[0], ("MANGOHUD".to_string(), "1".to_string()));
    assert!(env[1].1.contains("gpu_temp"));
    assert_eq!(env[2].0, "MANGOHUD_DLSSG");
    let env_plain = gm.setup_mangohud_nvidia(&no_gpu());
    assert_eq!(env_plain.len(), 2);
    assert!(!env_plain[1].1.contains("gpu_temp"));
}

#[test]
fn nvidia_optimizations_follow_flags() {
    let gm = GraphicsManager::new("/tmp/gfx");
    let mut gpu = no_gpu();
    gpu.available = true;
    gpu.optimus_available = true;
    gpu.supports_dlss = true;
    let s = gm.setup_nvidia_optimizations(&gpu);
    assert!(s.prime_render_offload);
    assert!(s.dlss_enabled);
    assert!(!s.rtx_enabled);
    assert!(s.available());
    assert_eq!(s.environment_vars[0].0, "__NV_PRIME_RENDER_OFFLOAD");
    let none = gm.setup_nvidia_optimizations(&no_gpu());
    assert!(!none.available());
}

#[test]
fn gamemode_command_is_fixed() {
    let gm = GraphicsManager::new("/tmp/gfx");
    assert_eq!(gm.get_gamemode_command(), vec!["gamemoderun".to_string()]);
}

#[test]
fn prefix_graphics_info_reports_layers() {
    let gm = GraphicsManager::new("/tmp/gfx");
    let dxvk = gm.get_prefix_graphics_info(true, false);
    assert_eq!(dxvk, vec![("DXVK".to_string(), "Installed".to_string())]);
    let neither = gm.get_prefix_graphics_info(false, false);
    assert_eq!(neither, vec![("WineD3D".to_string(), "Active".to_string())]);
}
