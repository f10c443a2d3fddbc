//! Graphics-layer policy: which translation layers to recommend for a game,
//! and the deterministic environment and command-line fragments that realize
//! them. The probing of the host (driver queries) happens outside; results
//! enter here as plain values.

use vstd::prelude::*;
use crate::strutil::{dec_chars, lower_contains, name_contains};

verus! {

/// Host GPU capability flags, as reported by the driver query.
#[derive(Debug, Clone, PartialEq)]
pub struct NvidiaFeatures {
    pub available: bool,
    pub gpu_name: Option<String>,
    pub driver_version: Option<String>,
    pub vram_mb: Option<u32>,
    pub supports_rtx: bool,
    pub supports_dlss: bool,
    pub supports_nvapi: bool,
    pub optimus_available: bool,
}

impl Default for NvidiaFeatures {
    /// No GPU detected, no features.
    fn default() -> (r: Self)
        ensures
            r.available == false,
            r.gpu_name is None,
            r.driver_version is None,
            r.vram_mb is None,
            r.supports_rtx == false,
            r.supports_dlss == false,
            r.supports_nvapi == false,
            r.optimus_available == false,
    {
        NvidiaFeatures {
            available: false,
            gpu_name: Option::None,
            driver_version: Option::None,
            vram_mb: Option::None,
            supports_rtx: false,
            supports_dlss: false,
            supports_nvapi: false,
            optimus_available: false,
        }
    }
}

/// Per-game driver settings derived from the capability flags.
#[derive(Debug, Clone, PartialEq)]
pub struct NvidiaGameSettings {
    pub prime_render_offload: bool,
    pub dlss_enabled: bool,
    pub rtx_enabled: bool,
    pub environment_vars: Vec<(String, String)>,
}

impl NvidiaGameSettings {
    /// Whether any driver settings apply.
    pub fn available(&self) -> (r: bool)
        ensures
            r == (self.environment_vars@.len() != 0),
    {
        self.environment_vars.len() != 0
    }
}

/// Compositor configuration for the gamescope micro-compositor.
#[derive(Debug, Clone, PartialEq)]
pub struct GameScopeConfig {
    pub width: u32,
    pub height: u32,
    pub refresh_rate: Option<u32>,
    pub fullscreen: bool,
    pub borderless: bool,
    pub adaptive_sync: bool,
    pub hdr: bool,
    pub force_grab_cursor: bool,
    pub steam_integration: bool,
    pub upscaling: GameScopeUpscaling,
    pub scaling_filter: GameScopeFilter,
}

impl Default for GameScopeConfig {
    /// 1080p borderless with adaptive sync, no upscaling, linear filtering.
    fn default() -> (r: Self)
        ensures
            r.width == 1920u32,
            r.height == 1080u32,
            r.refresh_rate is None,
            r.fullscreen == false,
            r.borderless == true,
            r.adaptive_sync == true,
            r.hdr == false,
            r.force_grab_cursor == false,
            r.steam_integration == false,
            r.upscaling == GameScopeUpscaling::Off,
            r.scaling_filter == GameScopeFilter::Linear,
    {
        GameScopeConfig {
            width: 1920,
            height: 1080,
            refresh_rate: Option::None,
            fullscreen: false,
            borderless: true,
            adaptive_sync: true,
            hdr: false,
            force_grab_cursor: false,
            steam_integration: false,
            upscaling: GameScopeUpscaling::Off,
            scaling_filter: GameScopeFilter::Linear,
        }
    }
}

#[derive(Debug, Clone, Copy, PartialEq, Eq, Structural)]
pub enum GameScopeUpscaling {
    Off,
    FSR,
    NIS,
}

#[derive(Debug, Clone, Copy, PartialEq, Eq, Structural)]
pub enum GameScopeFilter {
    Nearest,
    Linear,
    FSR,
}

/// One installable graphics translation layer.
#[derive(Debug, Clone, PartialEq)]
pub struct GraphicsLayer {
    pub name: String,
    pub version: String,
    pub layer_type: GraphicsLayerType,
    pub path: String,
    pub installed: bool,
    pub download_url: Option<String>,
    pub checksum: Option<String>,
    pub supported_apis: Vec<String>,
}

#[derive(Debug, Clone, Copy, PartialEq, Eq, Structural)]
pub enum GraphicsLayerType {
    DXVK,
    VKD3D,
    DXVKDGPU,
    VKD3DProton,
    DXVKNVAPI,
    WineD3D,
    GameScope,
    NvidiaDlss,
    NvidiaRtx,
    MangoHud,
    GameMode,
}

/// The canonical name of a graphics layer, used in workload plans.
pub open spec fn spec_layer_name(t: GraphicsLayerType) -> Seq<char> {
    match t {
        GraphicsLayerType::DXVK => "DXVK"@,
        GraphicsLayerType::VKD3D => "VKD3D"@,
        GraphicsLayerType::DXVKDGPU => "DXVKDGPU"@,
        GraphicsLayerType::VKD3DProton => "VKD3DProton"@,
        GraphicsLayerType::DXVKNVAPI => "DXVKNVAPI"@,
        GraphicsLayerType::WineD3D => "WineD3D"@,
        GraphicsLayerType::GameScope => "GameScope"@,
        GraphicsLayerType::NvidiaDlss => "NvidiaDlss"@,
        GraphicsLayerType::NvidiaRtx => "NvidiaRtx"@,
        GraphicsLayerType::MangoHud => "MangoHud"@,
        GraphicsLayerType::GameMode => "GameMode"@,
    }
}

/// The canonical name of a graphics layer.
pub fn layer_name(t: GraphicsLayerType) -> (r: String)
    ensures
        r@ == spec_layer_name(t),
{
    match t {
        GraphicsLayerType::DXVK => "DXVK".to_owned(),
        GraphicsLayerType::VKD3D => "VKD3D".to_owned(),
        GraphicsLayerType::DXVKDGPU => "DXVKDGPU".to_owned(),
        GraphicsLayerType::VKD3DProton => "VKD3DProton".to_owned(),
        GraphicsLayerType::DXVKNVAPI => "DXVKNVAPI".to_owned(),
        GraphicsLayerType::WineD3D => "WineD3D".to_owned(),
        GraphicsLayerType::GameScope => "GameScope".to_owned(),
        GraphicsLayerType::NvidiaDlss => "NvidiaDlss".to_owned(),
        GraphicsLayerType::NvidiaRtx => "NvidiaRtx".to_owned(),
        GraphicsLayerType::MangoHud => "MangoHud".to_owned(),
        GraphicsLayerType::GameMode => "GameMode".to_owned(),
    }
}

/// The layer recommendation for a game, keyed on the lowercased game name
/// and the host capability flags. A small heuristic table, documented as
/// non-exhaustive.
pub open spec fn spec_recommend(low_has: RecommendKeys, f: NvidiaFeatures) -> Seq<
    GraphicsLayerType,
> {
    let base = if low_has.wow {
        seq![GraphicsLayerType::DXVK]
    } else if low_has.cyberpunk || low_has.metro_exodus {
        seq![GraphicsLayerType::DXVK, GraphicsLayerType::VKD3DProton]
    } else if low_has.diablo {
        seq![GraphicsLayerType::DXVK]
    } else {
        seq![GraphicsLayerType::DXVK]
    };
    if f.available {
        base + seq![GraphicsLayerType::MangoHud, GraphicsLayerType::GameMode] + (if f.supports_dlss {
            seq![GraphicsLayerType::NvidiaDlss]
        } else {
            Seq::empty()
        }) + (if f.supports_rtx {
            seq![GraphicsLayerType::NvidiaRtx]
        } else {
            Seq::empty()
        }) + (if low_has.cyberpunk || low_has.metro || low_has.control || low_has.battlefield {
            seq![GraphicsLayerType::GameScope]
        } else {
            Seq::empty()
        })
    } else {
        base
    }
}

/// Which heuristic name keys the lowercased game name matches.
pub ghost struct RecommendKeys {
    pub wow: bool,
    pub cyberpunk: bool,
    pub metro_exodus: bool,
    pub metro: bool,
    pub diablo: bool,
    pub control: bool,
    pub battlefield: bool,
}

/// The name keys of a game name.
pub open spec fn spec_recommend_keys(name: Seq<char>) -> RecommendKeys {
    RecommendKeys {
        wow: lower_contains(name, "world of warcraft"@),
        cyberpunk: lower_contains(name, "cyberpunk"@),
        metro_exodus: lower_contains(name, "metro exodus"@),
        metro: lower_contains(name, "metro"@),
        diablo: lower_contains(name, "diablo"@),
        control: lower_contains(name, "control"@),
        battlefield: lower_contains(name, "battlefield"@),
    }
}

/// Manages graphics-layer installations below a base directory.
#[derive(Debug, Clone, PartialEq)]
pub struct GraphicsManager {
    pub dxvk_dir: String,
    pub vkd3d_dir: String,
    pub cache_dir: String,
    pub dry_run: bool,
}

impl GraphicsManager {
    /// A manager rooted at `base_dir`. Creating the directories on disk is
    /// the embedding's duty.
    pub fn new(base_dir: &str) -> (r: Self)
        ensures
            r.dxvk_dir@ == base_dir@ + "/dxvk"@,
            r.vkd3d_dir@ == base_dir@ + "/vkd3d"@,
            r.cache_dir@ == base_dir@ + "/cache"@,
            r.dry_run == true,
    {
        GraphicsManager {
            dxvk_dir: crate::strutil::concat2(base_dir, "/dxvk"),
            vkd3d_dir: crate::strutil::concat2(base_dir, "/vkd3d"),
            cache_dir: crate::strutil::concat2(base_dir, "/cache"),
            dry_run: true,
        }
    }

    pub fn set_dry_run(&mut self, dry_run: bool)
        ensures
            final(self).dry_run == dry_run,
            final(self).dxvk_dir == old(self).dxvk_dir,
            final(self).vkd3d_dir == old(self).vkd3d_dir,
            final(self).cache_dir == old(self).cache_dir,
    {
        self.dry_run = dry_run;
    }

    /// The graphics layers recommended for a game, per the heuristic table.
    pub fn recommend_for_game(&self, game_name: &str, nvidia_features: &NvidiaFeatures) -> (r: Vec<
        GraphicsLayerType,
    >)
        ensures
            r@ == spec_recommend(spec_recommend_keys(game_name@), *nvidia_features),
    {
        recommend_layers(game_name, nvidia_features)
    }

    /// Driver environment derived from the capability flags: Prime render
    /// offload on hybrid graphics, NVAPI for DLSS, ray tracing, and the
    /// shader disk cache.
    pub fn setup_nvidia_optimizations(&self, nvidia_features: &NvidiaFeatures) -> (r:
        NvidiaGameSettings)
        ensures
            r.prime_render_offload == (nvidia_features.available
                && nvidia_features.optimus_available),
            r.dlss_enabled == (nvidia_features.available && nvidia_features.supports_dlss),
            r.rtx_enabled == (nvidia_features.available && nvidia_features.supports_rtx),
            r.environment_vars@.map_values(|p: (String, String)| (p.0@, p.1@))
                == spec_nvidia_env(*nvidia_features),
    {
        let mut settings = NvidiaGameSettings {
            prime_render_offload: false,
            dlss_enabled: false,
            rtx_enabled: false,
            environment_vars: Vec::new(),
        };
        if !nvidia_features.available {
            proof {
                assert(settings.environment_vars@.map_values(|p: (String, String)| (p.0@, p.1@))
                    =~= spec_nvidia_env(*nvidia_features));
            }
            return settings;
        }
        if nvidia_features.optimus_available {
            settings.prime_render_offload = true;
            settings.environment_vars.push(
                ("__NV_PRIME_RENDER_OFFLOAD".to_owned(), "1".to_owned()),
            );
            settings.environment_vars.push(
                ("__GLX_VENDOR_LIBRARY_NAME".to_owned(), "nvidia".to_owned()),
            );
        }
        if nvidia_features.supports_dlss {
            settings.dlss_enabled = true;
            settings.environment_vars.push(("DXVK_ENABLE_NVAPI".to_owned(), "1".to_owned()));
            settings.environment_vars.push(
                ("DXVK_NVAPI_ALLOW_OTHER_DRIVERS".to_owned(), "0".to_owned()),
            );
        }
        if nvidia_features.supports_rtx {
            settings.rtx_enabled = true;
            settings.environment_vars.push(("VKD3D_CONFIG".to_owned(), "dxr".to_owned()));
        }
        settings.environment_vars.push(("__GL_SHADER_DISK_CACHE".to_owned(), "1".to_owned()));
        settings.environment_vars.push(
            ("__GL_SHADER_DISK_CACHE_PATH".to_owned(), "/tmp/nvidia_shader_cache".to_owned()),
        );
        settings.environment_vars.push(
            ("NVIDIA_DRIVER_CAPABILITIES".to_owned(), "all".to_owned()),
        );
        proof {
            assert(settings.environment_vars@.map_values(|p: (String, String)| (p.0@, p.1@))
                =~= spec_nvidia_env(*nvidia_features));
        }
        settings
    }

    /// The gamescope invocation for a configuration, ending with the `--`
    /// separator before the game command.
    pub fn setup_gamescope(&self, config: &GameScopeConfig) -> (r: Vec<String>)
        ensures
            r@.map_values(|s: String| s@) == spec_gamescope_args(*config),
    {
        let mut args: Vec<String> = Vec::new();
        args.push("gamescope".to_owned());
        args.push("-w".to_owned());
        args.push(crate::strutil::u64_string(config.width as u64));
        args.push("-h".to_owned());
        args.push(crate::strutil::u64_string(config.height as u64));
        let ghost mut exp = seq![
            "gamescope"@,
            "-w"@,
            dec_chars(config.width as nat),
            "-h"@,
            dec_chars(config.height as nat),
        ];
        proof {
            assert(args@.map_values(|s: String| s@) =~= exp);
        }
        let mut g = gs_refresh(config);
        proof {
            exp = exp + g@.map_values(|s: String| s@);
        }
        append_mapped(&mut args, &mut g, Ghost(exp));
        let mut g = gs_mode(config);
        proof {
            exp = exp + g@.map_values(|s: String| s@);
        }
        append_mapped(&mut args, &mut g, Ghost(exp));
        let mut g = flag_arg(config.adaptive_sync, "--adaptive-sync");
        proof {
            exp = exp + g@.map_values(|s: String| s@);
        }
        append_mapped(&mut args, &mut g, Ghost(exp));
        let mut g = flag_arg(config.hdr, "--hdr-enabled");
        proof {
            exp = exp + g@.map_values(|s: String| s@);
        }
        append_mapped(&mut args, &mut g, Ghost(exp));
        let mut g = flag_arg(config.force_grab_cursor, "--force-grab-cursor");
        proof {
            exp = exp + g@.map_values(|s: String| s@);
        }
        append_mapped(&mut args, &mut g, Ghost(exp));
        let mut g = flag_arg(config.steam_integration, "--steam");
        proof {
            exp = exp + g@.map_values(|s: String| s@);
        }
        append_mapped(&mut args, &mut g, Ghost(exp));
        let mut g = gs_upscaling(config);
        proof {
            exp = exp + g@.map_values(|s: String| s@);
        }
        append_mapped(&mut args, &mut g, Ghost(exp));
        let mut g = gs_filter(config);
        proof {
            exp = exp + g@.map_values(|s: String| s@);
        }
        append_mapped(&mut args, &mut g, Ghost(exp));
        args.push("--".to_owned());
        proof {
            assert(args@.map_values(|s: String| s@) =~= exp + seq!["--"@]);
            assert(exp + seq!["--"@] =~= spec_gamescope_args(*config));
        }
        args
    }

    /// Performance-overlay environment: the overlay configuration string
    /// gains the GPU counters when a GPU is available.
    pub fn setup_mangohud_nvidia(&self, nvidia_features: &NvidiaFeatures) -> (r: Vec<
        (String, String),
    >)
        ensures
            r@.map_values(|p: (String, String)| (p.0@, p.1@)) == spec_mangohud_env(
                *nvidia_features,
            ),
    {
        let mut env: Vec<(String, String)> = Vec::new();
        env.push(("MANGOHUD".to_owned(), "1".to_owned()));
        if nvidia_features.available {
            env.push(
                (
                    "MANGOHUD_CONFIG".to_owned(),
                    "fps,frametime=0,cpu_temp,cpu_power,cpu_mhz,ram,vram,gpu_temp,gpu_power,gpu_core_clock,gpu_mem_clock,gpu_load_change,gpu_load_value=60,90".to_owned(),
                ),
            );
            env.push(("MANGOHUD_DLSSG".to_owned(), "1".to_owned()));
        } else {
            env.push(
                (
                    "MANGOHUD_CONFIG".to_owned(),
                    "fps,frametime=0,cpu_temp,cpu_power,cpu_mhz,ram,vram".to_owned(),
                ),
            );
        }
        proof {
            assert(env@.map_values(|p: (String, String)| (p.0@, p.1@)) =~= spec_mangohud_env(
                *nvidia_features,
            ));
        }
        env
    }

    /// The command prefix that runs a game under the system optimizer.
    pub fn get_gamemode_command(&self) -> (r: Vec<String>)
        ensures
            r@.map_values(|s: String| s@) == seq!["gamemoderun"@],
    {
        let mut r: Vec<String> = Vec::new();
        r.push("gamemoderun".to_owned());
        proof {
            assert(r@.map_values(|s: String| s@) =~= seq!["gamemoderun"@]);
        }
        r
    }

    /// Which translation layers a prefix holds, given whether its Direct3D
    /// 11 and 12 libraries are present on disk.
    pub fn get_prefix_graphics_info(&self, d3d11_present: bool, d3d12_present: bool) -> (r: Vec<
        (String, String),
    >)
        ensures
            r@.map_values(|p: (String, String)| (p.0@, p.1@)) == spec_prefix_graphics_info(
                d3d11_present,
                d3d12_present,
            ),
    {
        let mut info: Vec<(String, String)> = Vec::new();
        if d3d11_present {
            info.push(("DXVK".to_owned(), "Installed".to_owned()));
        }
        if d3d12_present {
            info.push(("VKD3D".to_owned(), "Installed".to_owned()));
        }
        if !d3d11_present && !d3d12_present {
            info.push(("WineD3D".to_owned(), "Active".to_owned()));
        }
        proof {
            assert(info@.map_values(|p: (String, String)| (p.0@, p.1@))
                =~= spec_prefix_graphics_info(d3d11_present, d3d12_present));
        }
        info
    }
}



/// The graphics layers recommended for a game, per the heuristic table.
pub fn recommend_layers(game_name: &str, nvidia_features: &NvidiaFeatures) -> (r: Vec<
    GraphicsLayerType,
>)
    ensures
        r@ == spec_recommend(spec_recommend_keys(game_name@), *nvidia_features),
{
    let mut r: Vec<GraphicsLayerType> = Vec::new();
    if name_contains(game_name, "world of warcraft") {
        r.push(GraphicsLayerType::DXVK);
    } else if name_contains(game_name, "cyberpunk") || name_contains(game_name, "metro exodus") {
        r.push(GraphicsLayerType::DXVK);
        r.push(GraphicsLayerType::VKD3DProton);
    } else if name_contains(game_name, "diablo") {
        r.push(GraphicsLayerType::DXVK);
    } else {
        r.push(GraphicsLayerType::DXVK);
    }
    if nvidia_features.available {
        r.push(GraphicsLayerType::MangoHud);
        r.push(GraphicsLayerType::GameMode);
        if nvidia_features.supports_dlss {
            r.push(GraphicsLayerType::NvidiaDlss);
        }
        if nvidia_features.supports_rtx {
            r.push(GraphicsLayerType::NvidiaRtx);
        }
        if name_contains(game_name, "cyberpunk") || name_contains(game_name, "metro")
            || name_contains(game_name, "control") || name_contains(game_name, "battlefield") {
            r.push(GraphicsLayerType::GameScope);
        }
    }
    proof {
        assert(r@ =~= spec_recommend(spec_recommend_keys(game_name@), *nvidia_features));
    }
    r
}

/// Appends `extra` to `args`, carrying the view-level equality along.
fn append_mapped(args: &mut Vec<String>, extra: &mut Vec<String>, expected: Ghost<Seq<Seq<char>>>)
    requires
        old(args)@.map_values(|s: String| s@) + old(extra)@.map_values(|s: String| s@)
            == expected@,
    ensures
        final(args)@.map_values(|s: String| s@) == expected@,
        final(extra)@.len() == 0,
{
    args.append(extra);
    proof {
        assert(args@.map_values(|s: String| s@) =~= expected@);
    }
}

/// A single optional flag argument.
fn flag_arg(enabled: bool, flag: &str) -> (r: Vec<String>)
    ensures
        r@.map_values(|s: String| s@) == (if enabled {
            seq![flag@]
        } else {
            Seq::<Seq<char>>::empty()
        }),
{
    let mut r: Vec<String> = Vec::new();
    if enabled {
        r.push(flag.to_owned());
    }
    proof {
        assert(r@.map_values(|s: String| s@) =~= (if enabled {
            seq![flag@]
        } else {
            Seq::<Seq<char>>::empty()
        }));
    }
    r
}

/// The refresh-rate arguments of a gamescope invocation.
fn gs_refresh(c: &GameScopeConfig) -> (r: Vec<String>)
    ensures
        r@.map_values(|s: String| s@) == (match c.refresh_rate {
            Option::Some(rate) => seq!["-r"@, dec_chars(rate as nat)],
            Option::None => Seq::<Seq<char>>::empty(),
        }),
{
    let mut r: Vec<String> = Vec::new();
    if let Option::Some(rate) = c.refresh_rate {
        r.push("-r".to_owned());
        r.push(crate::strutil::u64_string(rate as u64));
    }
    proof {
        assert(r@.map_values(|s: String| s@) =~= (match c.refresh_rate {
            Option::Some(rate) => seq!["-r"@, dec_chars(rate as nat)],
            Option::None => Seq::<Seq<char>>::empty(),
        }));
    }
    r
}

/// The display-mode argument of a gamescope invocation.
fn gs_mode(c: &GameScopeConfig) -> (r: Vec<String>)
    ensures
        r@.map_values(|s: String| s@) == (if c.fullscreen {
            seq!["-f"@]
        } else if c.borderless {
            seq!["-b"@]
        } else {
            Seq::<Seq<char>>::empty()
        }),
{
    let mut r: Vec<String> = Vec::new();
    if c.fullscreen {
        r.push("-f".to_owned());
    } else if c.borderless {
        r.push("-b".to_owned());
    }
    proof {
        assert(r@.map_values(|s: String| s@) =~= (if c.fullscreen {
            seq!["-f"@]
        } else if c.borderless {
            seq!["-b"@]
        } else {
            Seq::<Seq<char>>::empty()
        }));
    }
    r
}

/// The upscaling argument of a gamescope invocation.
fn gs_upscaling(c: &GameScopeConfig) -> (r: Vec<String>)
    ensures
        r@.map_values(|s: String| s@) == (match c.upscaling {
            GameScopeUpscaling::FSR => seq!["--fsr-upscaling"@],
            GameScopeUpscaling::NIS => seq!["--nis-upscaling"@],
            GameScopeUpscaling::Off => Seq::<Seq<char>>::empty(),
        }),
{
    let mut r: Vec<String> = Vec::new();
    match c.upscaling {
        GameScopeUpscaling::FSR => {
            r.push("--fsr-upscaling".to_owned());
        },
        GameScopeUpscaling::NIS => {
            r.push("--nis-upscaling".to_owned());
        },
        GameScopeUpscaling::Off => {},
    }
    proof {
        assert(r@.map_values(|s: String| s@) =~= (match c.upscaling {
            GameScopeUpscaling::FSR => seq!["--fsr-upscaling"@],
            GameScopeUpscaling::NIS => seq!["--nis-upscaling"@],
            GameScopeUpscaling::Off => Seq::<Seq<char>>::empty(),
        }));
    }
    r
}

/// The scaling-filter arguments of a gamescope invocation.
fn gs_filter(c: &GameScopeConfig) -> (r: Vec<String>)
    ensures
        r@.map_values(|s: String| s@) == (match c.scaling_filter {
            GameScopeFilter::Nearest => seq!["--filter"@, "nearest"@],
            GameScopeFilter::Linear => seq!["--filter"@, "linear"@],
            GameScopeFilter::FSR => seq!["--filter"@, "fsr"@],
        }),
{
    let mut r: Vec<String> = Vec::new();
    match c.scaling_filter {
        GameScopeFilter::Nearest => {
            r.push("--filter".to_owned());
            r.push("nearest".to_owned());
        },
        GameScopeFilter::Linear => {
            r.push("--filter".to_owned());
            r.push("linear".to_owned());
        },
        GameScopeFilter::FSR => {
            r.push("--filter".to_owned());
            r.push("fsr".to_owned());
        },
    }
    proof {
        assert(r@.map_values(|s: String| s@) =~= (match c.scaling_filter {
            GameScopeFilter::Nearest => seq!["--filter"@, "nearest"@],
            GameScopeFilter::Linear => seq!["--filter"@, "linear"@],
            GameScopeFilter::FSR => seq!["--filter"@, "fsr"@],
        }));
    }
    r
}

/// The driver environment for given capability flags.
pub open spec fn spec_nvidia_env(f: NvidiaFeatures) -> Seq<(Seq<char>, Seq<char>)> {
    if !f.available {
        Seq::empty()
    } else {
        (if f.optimus_available {
            seq![
                ("__NV_PRIME_RENDER_OFFLOAD"@, "1"@),
                ("__GLX_VENDOR_LIBRARY_NAME"@, "nvidia"@),
            ]
        } else {
            Seq::empty()
        }) + (if f.supports_dlss {
            seq![("DXVK_ENABLE_NVAPI"@, "1"@), ("DXVK_NVAPI_ALLOW_OTHER_DRIVERS"@, "0"@)]
        } else {
            Seq::empty()
        }) + (if f.supports_rtx {
            seq![("VKD3D_CONFIG"@, "dxr"@)]
        } else {
            Seq::empty()
        }) + seq![
            ("__GL_SHADER_DISK_CACHE"@, "1"@),
            ("__GL_SHADER_DISK_CACHE_PATH"@, "/tmp/nvidia_shader_cache"@),
            ("NVIDIA_DRIVER_CAPABILITIES"@, "all"@),
        ]
    }
}

/// The gamescope argument vector for a configuration.
pub open spec fn spec_gamescope_args(c: GameScopeConfig) -> Seq<Seq<char>> {
    seq!["gamescope"@, "-w"@, dec_chars(c.width as nat), "-h"@, dec_chars(c.height as nat)] + (match c.refresh_rate {
        Option::Some(rate) => seq!["-r"@, dec_chars(rate as nat)],
        Option::None => Seq::empty(),
    }) + (if c.fullscreen {
        seq!["-f"@]
    } else if c.borderless {
        seq!["-b"@]
    } else {
        Seq::empty()
    }) + (if c.adaptive_sync {
        seq!["--adaptive-sync"@]
    } else {
        Seq::empty()
    }) + (if c.hdr {
        seq!["--hdr-enabled"@]
    } else {
        Seq::empty()
    }) + (if c.force_grab_cursor {
        seq!["--force-grab-cursor"@]
    } else {
        Seq::empty()
    }) + (if c.steam_integration {
        seq!["--steam"@]
    } else {
        Seq::empty()
    }) + (match c.upscaling {
        GameScopeUpscaling::FSR => seq!["--fsr-upscaling"@],
        GameScopeUpscaling::NIS => seq!["--nis-upscaling"@],
        GameScopeUpscaling::Off => Seq::empty(),
    }) + (match c.scaling_filter {
        GameScopeFilter::Nearest => seq!["--filter"@, "nearest"@],
        GameScopeFilter::Linear => seq!["--filter"@, "linear"@],
        GameScopeFilter::FSR => seq!["--filter"@, "fsr"@],
    }) + seq!["--"@]
}

/// The performance-overlay environment for given capability flags.
pub open spec fn spec_mangohud_env(f: NvidiaFeatures) -> Seq<(Seq<char>, Seq<char>)> {
    if f.available {
        seq![
            ("MANGOHUD"@, "1"@),
            (
                "MANGOHUD_CONFIG"@,
                "fps,frametime=0,cpu_temp,cpu_power,cpu_mhz,ram,vram,gpu_temp,gpu_power,gpu_core_clock,gpu_mem_clock,gpu_load_change,gpu_load_value=60,90"@,
            ),
            ("MANGOHUD_DLSSG"@, "1"@),
        ]
    } else {
        seq![
            ("MANGOHUD"@, "1"@),
            ("MANGOHUD_CONFIG"@, "fps,frametime=0,cpu_temp,cpu_power,cpu_mhz,ram,vram"@),
        ]
    }
}

/// The prefix diagnostic table for the given library presence flags.
pub open spec fn spec_prefix_graphics_info(d3d11: bool, d3d12: bool) -> Seq<
    (Seq<char>, Seq<char>),
> {
    (if d3d11 {
        seq![("DXVK"@, "Installed"@)]
    } else {
        Seq::empty()
    }) + (if d3d12 {
        seq![("VKD3D"@, "Installed"@)]
    } else {
        Seq::empty()
    }) + (if !d3d11 && !d3d12 {
        seq![("WineD3D"@, "Active"@)]
    } else {
        Seq::empty()
    })
}

} // verus!
