//! The spec builder: a pure function from a game's metadata, the host's
//! capability flags and an optional advisory to a declarative workload plan.
//! Every policy rule — image selection, runtime version, graphics layers,
//! mounts, resource tiers and network mode — is stated exactly.

use vstd::prelude::*;
use crate::errors::ProvisionError;
use crate::graphics::{
    recommend_layers, layer_name, spec_layer_name, spec_recommend, spec_recommend_keys,
    NvidiaFeatures,
};
use crate::protondb::Advisory;
use crate::strutil::{concat2, concat3, lower_contains, lower_of, name_contains, replace_spaces,
    replace_spaces_str, str_eq};
use crate::workload::{
    BindType, ContainerImage, ContainerImageV, GameWorkloadSpec, MountPoint, MountPointV,
    NetworkMode, NetworkModeV, ResourceLimits, env_keys_unique,
};

verus! {

/// The game metadata a provisioning request carries. Immutable for the
/// duration of the request.
#[derive(Debug, Clone, PartialEq)]
pub struct Game {
    pub id: String,
    pub name: String,
    pub executable: String,
    pub install_path: String,
    pub launcher: Option<String>,
    pub launcher_id: Option<String>,
    pub wine_version: Option<String>,
    pub launch_arguments: Vec<String>,
    pub environment_variables: Vec<(String, String)>,
}

/// The index of the first entry of `env` with key `k`, or `-1`.
pub open spec fn env_key_index(env: Seq<(Seq<char>, Seq<char>)>, k: Seq<char>) -> int
    decreases env.len(),
{
    if env.len() == 0 {
        -1
    } else if env[0].0 == k {
        0
    } else {
        let r = env_key_index(env.subrange(1, env.len() as int), k);
        if r < 0 {
            -1
        } else {
            r + 1
        }
    }
}

/// `env` with `k` bound to `v`: the first entry with key `k` is replaced in
/// place, or the pair is appended when the key is new.
pub open spec fn env_upsert(
    env: Seq<(Seq<char>, Seq<char>)>,
    k: Seq<char>,
    v: Seq<char>,
) -> Seq<(Seq<char>, Seq<char>)> {
    let i = env_key_index(env, k);
    if i >= 0 {
        env.update(i, (k, v))
    } else {
        env.push((k, v))
    }
}

proof fn lemma_env_key_index_range(env: Seq<(Seq<char>, Seq<char>)>, k: Seq<char>)
    ensures
        -1 <= env_key_index(env, k) < env.len(),
        env_key_index(env, k) >= 0 ==> env[env_key_index(env, k)].0 == k,
        env_key_index(env, k) == -1 ==> forall|i: int|
            0 <= i < env.len() ==> (#[trigger] env[i]).0 != k,
    decreases env.len(),
{
    if env.len() > 0 && env[0].0 != k {
        lemma_env_key_index_range(env.subrange(1, env.len() as int), k);
        let tail = env.subrange(1, env.len() as int);
        assert forall|i: int| 0 <= i < env.len() && env_key_index(env, k) == -1 implies (
        #[trigger] env[i]).0 != k by {
            if i > 0 {
                assert(env[i] == tail[i - 1]);
            }
        }
    }
}

/// Upserting preserves key uniqueness.
pub proof fn lemma_env_upsert_unique(env: Seq<(Seq<char>, Seq<char>)>, k: Seq<char>, v: Seq<char>)
    requires
        env_keys_unique(env),
    ensures
        env_keys_unique(env_upsert(env, k, v)),
{
    lemma_env_key_index_range(env, k);
    let i = env_key_index(env, k);
    if i >= 0 {
        let out = env.update(i, (k, v));
        assert forall|a: int, b: int| 0 <= a < b < out.len() implies (#[trigger] out[a]).0 != (
        #[trigger] out[b]).0 by {
            if a != i && b != i {
                assert(out[a] == env[a] && out[b] == env[b]);
            } else if a == i {
                assert(out[b] == env[b] && env[i].0 == k);
            } else {
                assert(out[a] == env[a] && env[i].0 == k);
            }
        }
    } else {
        let out = env.push((k, v));
        assert forall|a: int, b: int| 0 <= a < b < out.len() implies (#[trigger] out[a]).0 != (
        #[trigger] out[b]).0 by {
            if b < env.len() {
                assert(out[a] == env[a] && out[b] == env[b]);
            } else {
                assert(out[b].0 == k && out[a] == env[a]);
            }
        }
    }
}

/// The view of an environment vector.
pub open spec fn env_view(env: Seq<(String, String)>) -> Seq<(Seq<char>, Seq<char>)> {
    env.map_values(|p: (String, String)| (p.0@, p.1@))
}

/// Binds `key` to `value` in `env`, replacing the first entry with that key
/// or appending a new one.
pub fn env_insert(env: &mut Vec<(String, String)>, key: &str, value: &str)
    ensures
        env_view(final(env)@) == env_upsert(env_view(old(env)@), key@, value@),
{
    let mut i: usize = 0;
    let n = env.len();
    while i < n
        invariant
            n == env@.len(),
            env@ == old(env)@,
            0 <= i <= n,
            forall|t: int| 0 <= t < i ==> (#[trigger] env@[t]).0@ != key@,
        decreases n - i,
    {
        if str_eq(env[i].0.as_str(), key) {
            proof {
                let ev = env_view(old(env)@);
                assert forall|t: int| 0 <= t < i implies (#[trigger] ev[t]).0 != key@ by {
                    assert(ev[t].0 == old(env)@[t].0@);
                }
                assert(ev[i as int].0 == old(env)@[i as int].0@);
                lemma_env_index_found(ev, key@, i as int);
            }
            env[i] = (key.to_owned(), value.to_owned());
            proof {
                assert(env_view(env@) =~= env_upsert(env_view(old(env)@), key@, value@));
            }
            return ;
        }
        i += 1;
    }
    proof {
        let ev = env_view(old(env)@);
        assert forall|t: int| 0 <= t < ev.len() implies (#[trigger] ev[t]).0 != key@ by {
            assert(ev[t].0 == old(env)@[t].0@);
        }
        lemma_env_index_missing(ev, key@);
    }
    env.push((key.to_owned(), value.to_owned()));
    proof {
        assert(env_view(env@) =~= env_upsert(env_view(old(env)@), key@, value@));
    }
}

proof fn lemma_env_index_found(env: Seq<(Seq<char>, Seq<char>)>, k: Seq<char>, i: int)
    requires
        0 <= i < env.len(),
        env[i].0 == k,
        forall|t: int| 0 <= t < i ==> (#[trigger] env[t]).0 != k,
    ensures
        env_key_index(env, k) == i,
    decreases env.len(),
{
    if i > 0 {
        let tail = env.subrange(1, env.len() as int);
        assert forall|t: int| 0 <= t < i - 1 implies (#[trigger] tail[t]).0 != k by {
            assert(tail[t] == env[t + 1]);
        }
        assert(tail[i - 1] == env[i]);
        lemma_env_index_found(tail, k, i - 1);
    }
}

proof fn lemma_env_index_missing(env: Seq<(Seq<char>, Seq<char>)>, k: Seq<char>)
    requires
        forall|t: int| 0 <= t < env.len() ==> (#[trigger] env[t]).0 != k,
    ensures
        env_key_index(env, k) == -1,
    decreases env.len(),
{
    if env.len() > 0 {
        let tail = env.subrange(1, env.len() as int);
        assert forall|t: int| 0 <= t < tail.len() implies (#[trigger] tail[t]).0 != k by {
            assert(tail[t] == env[t + 1]);
        }
        lemma_env_index_missing(tail, k);
    }
}

/// The resource tier for a game name: a heavy tier for known high-footprint
/// title families, a compact tier for known low-footprint ones, and the
/// defaults otherwise. Memory and disk are always set.
pub open spec fn spec_resource_limits(name: Seq<char>) -> ResourceLimits {
    if lower_contains(name, "cyberpunk"@) || lower_contains(name, "metro"@) {
        ResourceLimits {
            memory_mb: Option::Some(8192u64),
            cpu_cores: Option::None,
            disk_mb: Option::Some(20480u64),
            gpu_access: true,
        }
    } else if lower_contains(name, "indie"@) || lower_contains(name, "retro"@) {
        ResourceLimits {
            memory_mb: Option::Some(2048u64),
            cpu_cores: Option::None,
            disk_mb: Option::Some(5120u64),
            gpu_access: true,
        }
    } else {
        ResourceLimits {
            memory_mb: Option::Some(4096u64),
            cpu_cores: Option::None,
            disk_mb: Option::Some(10240u64),
            gpu_access: true,
        }
    }
}

/// Memory and disk limits are always set, and memory is one of the three
/// policy tiers, whatever the game name.
pub proof fn lemma_resource_limits_tiers(name: Seq<char>)
    ensures
        spec_resource_limits(name).memory_mb is Some,
        spec_resource_limits(name).disk_mb is Some,
        spec_resource_limits(name).memory_mb == Option::Some(2048u64)
            || spec_resource_limits(name).memory_mb == Option::Some(4096u64)
            || spec_resource_limits(name).memory_mb == Option::Some(8192u64),
        spec_resource_limits(name).gpu_access,
        spec_resource_limits(name).cpu_cores is None,
{
}

/// The resource tier for a game name.
pub fn calculate_resource_limits(game_name: &str) -> (r: ResourceLimits)
    ensures
        r == spec_resource_limits(game_name@),
{
    if name_contains(game_name, "cyberpunk") || name_contains(game_name, "metro") {
        ResourceLimits {
            memory_mb: Option::Some(8192),
            cpu_cores: Option::None,
            disk_mb: Option::Some(20480),
            gpu_access: true,
        }
    } else if name_contains(game_name, "indie") || name_contains(game_name, "retro") {
        ResourceLimits {
            memory_mb: Option::Some(2048),
            cpu_cores: Option::None,
            disk_mb: Option::Some(5120),
            gpu_access: true,
        }
    } else {
        ResourceLimits {
            memory_mb: Option::Some(4096),
            cpu_cores: Option::None,
            disk_mb: Option::Some(10240),
            gpu_access: true,
        }
    }
}

/// Host networking is selected exactly for the fixed anti-cheat and
/// low-latency title list; every other game gets the bridge network.
pub open spec fn spec_network_mode(name: Seq<char>) -> NetworkModeV {
    if lower_contains(name, "valorant"@) || lower_contains(name, "apex"@) || lower_contains(
        name,
        "fortnite"@,
    ) || lower_contains(name, "call of duty"@) {
        NetworkModeV::Host
    } else {
        NetworkModeV::Bridge
    }
}

/// The network mode for a game name.
pub fn determine_network_mode(game_name: &str) -> (r: NetworkMode)
    ensures
        r@ == spec_network_mode(game_name@),
{
    if name_contains(game_name, "valorant") || name_contains(game_name, "apex") || name_contains(
        game_name,
        "fortnite",
    ) || name_contains(game_name, "call of duty") {
        NetworkMode::Host
    } else {
        NetworkMode::Bridge
    }
}

/// The system packages a workload image needs.
pub open spec fn spec_dependencies(name: Seq<char>) -> Seq<Seq<char>> {
    seq!["wine"@, "winetricks"@, "cabextract"@] + (if lower_contains(name, "directx"@)
        || lower_contains(name, "dx"@) {
        seq!["dxvk"@]
    } else {
        Seq::empty()
    }) + (if lower_contains(name, "vulkan"@) {
        seq!["vulkan-tools"@]
    } else {
        Seq::empty()
    })
}

/// The system package list for a game name.
pub fn determine_dependencies(game_name: &str) -> (r: Vec<String>)
    ensures
        r@.map_values(|s: String| s@) == spec_dependencies(game_name@),
{
    let mut deps: Vec<String> = Vec::new();
    deps.push("wine".to_owned());
    deps.push("winetricks".to_owned());
    deps.push("cabextract".to_owned());
    if name_contains(game_name, "directx") || name_contains(game_name, "dx") {
        deps.push("dxvk".to_owned());
    }
    if name_contains(game_name, "vulkan") {
        deps.push("vulkan-tools".to_owned());
    }
    proof {
        assert(deps@.map_values(|s: String| s@) =~= spec_dependencies(game_name@));
    }
    deps
}

/// The generic base image.
pub open spec fn spec_base_image() -> ContainerImageV {
    ContainerImageV {
        name: "ghcr.io/ghostforge/gaming-base"@,
        tag: "ubuntu22.04"@,
        digest: Option::None,
        platform: "linux/amd64"@,
    }
}

/// The vendor-specialized image.
pub open spec fn spec_nvidia_image() -> ContainerImageV {
    ContainerImageV {
        name: "ghcr.io/ghostforge/gaming-nvidia"@,
        tag: "latest"@,
        digest: Option::None,
        platform: "linux/amd64"@,
    }
}

/// The storefront image.
pub open spec fn spec_steam_image() -> ContainerImageV {
    ContainerImageV {
        name: "ghcr.io/ghostforge/gaming-steam"@,
        tag: "proton"@,
        digest: Option::None,
        platform: "linux/amd64"@,
    }
}

/// Image selection: the storefront image for storefront-launched games, the
/// vendor image when the vendor GPU is detected, the generic image otherwise.
pub open spec fn spec_select_image(launcher: Option<Seq<char>>, gpu_available: bool) -> (r:
    ContainerImageV) {
    if launcher == Option::Some("steam"@) {
        spec_steam_image()
    } else if gpu_available {
        spec_nvidia_image()
    } else {
        spec_base_image()
    }
}

/// The base image for a provisioning request.
pub fn select_base_image(launcher: &Option<String>, gpu: &NvidiaFeatures) -> (r: ContainerImage)
    ensures
        r@ == spec_select_image(
            match launcher {
                Option::Some(l) => Option::Some(l@),
                Option::None => Option::None,
            },
            gpu.available,
        ),
{
    let is_steam = match launcher {
        Option::Some(l) => str_eq(l.as_str(), "steam"),
        Option::None => false,
    };
    if is_steam {
        ContainerImage {
            name: "ghcr.io/ghostforge/gaming-steam".to_owned(),
            tag: "proton".to_owned(),
            digest: Option::None,
            platform: "linux/amd64".to_owned(),
        }
    } else if gpu.available {
        ContainerImage {
            name: "ghcr.io/ghostforge/gaming-nvidia".to_owned(),
            tag: "latest".to_owned(),
            digest: Option::None,
            platform: "linux/amd64".to_owned(),
        }
    } else {
        ContainerImage {
            name: "ghcr.io/ghostforge/gaming-base".to_owned(),
            tag: "ubuntu22.04".to_owned(),
            digest: Option::None,
            platform: "linux/amd64".to_owned(),
        }
    }
}

/// The fallback runtime version when no advisory is available.
pub open spec fn spec_fallback_runtime() -> Seq<char> {
    "GE-Proton8-26"@
}

/// The runtime version: the advisory's recommendation when present, the
/// fixed fallback otherwise. An unavailable advisory is not an error.
pub fn determine_runtime_version(advisory: Option<&Advisory>) -> (r: String)
    ensures
        match advisory {
            Option::Some(a) => r@ == a.recommended_proton@,
            Option::None => r@ == spec_fallback_runtime(),
        },
{
    match advisory {
        Option::Some(a) => a.recommended_proton.clone(),
        Option::None => "GE-Proton8-26".to_owned(),
    }
}

/// The mount plan: game files read-only, a persistent runtime prefix and
/// save volume, the GPU and audio device nodes, and the display socket when
/// a display session is present. Volume host directories must exist before
/// a backend builds the plan; creating them is the embedding's duty.
pub open spec fn spec_mount_points(
    install_path: Seq<char>,
    data_dir: Seq<char>,
    id: Seq<char>,
    display: Option<Seq<char>>,
) -> Seq<MountPointV> {
    seq![
        MountPointV {
            host_path: install_path,
            container_path: "/game"@,
            read_only: true,
            bind_type: BindType::Bind,
        },
        MountPointV {
            host_path: data_dir + "/"@ + id + "/wine_prefix"@,
            container_path: "/wine_prefix"@,
            read_only: false,
            bind_type: BindType::Volume,
        },
        MountPointV {
            host_path: data_dir + "/"@ + id + "/saves"@,
            container_path: "/saves"@,
            read_only: false,
            bind_type: BindType::Volume,
        },
        MountPointV {
            host_path: "/dev/dri"@,
            container_path: "/dev/dri"@,
            read_only: false,
            bind_type: BindType::DeviceNode,
        },
        MountPointV {
            host_path: "/dev/snd"@,
            container_path: "/dev/snd"@,
            read_only: false,
            bind_type: BindType::DeviceNode,
        },
    ] + (if display is Some {
        seq![
            MountPointV {
                host_path: "/tmp/.X11-unix"@,
                container_path: "/tmp/.X11-unix"@,
                read_only: false,
                bind_type: BindType::Bind,
            },
        ]
    } else {
        Seq::empty()
    })
}

/// The mount plan for a provisioning request.
pub fn create_mount_points(
    install_path: &str,
    data_dir: &str,
    id: &str,
    display: &Option<String>,
) -> (r: Vec<MountPoint>)
    ensures
        r@.map_values(|m: MountPoint| m@) == spec_mount_points(
            install_path@,
            data_dir@,
            id@,
            match display {
                Option::Some(d) => Option::Some(d@),
                Option::None => Option::None,
            },
        ),
{
    let workload_dir = concat3(data_dir, "/", id);
    let mut mounts: Vec<MountPoint> = Vec::new();
    mounts.push(
        MountPoint {
            host_path: install_path.to_owned(),
            container_path: "/game".to_owned(),
            read_only: true,
            bind_type: BindType::Bind,
        },
    );
    mounts.push(
        MountPoint {
            host_path: concat2(workload_dir.as_str(), "/wine_prefix"),
            container_path: "/wine_prefix".to_owned(),
            read_only: false,
            bind_type: BindType::Volume,
        },
    );
    mounts.push(
        MountPoint {
            host_path: concat2(workload_dir.as_str(), "/saves"),
            container_path: "/saves".to_owned(),
            read_only: false,
            bind_type: BindType::Volume,
        },
    );
    mounts.push(
        MountPoint {
            host_path: "/dev/dri".to_owned(),
            container_path: "/dev/dri".to_owned(),
            read_only: false,
            bind_type: BindType::DeviceNode,
        },
    );
    mounts.push(
        MountPoint {
            host_path: "/dev/snd".to_owned(),
            container_path: "/dev/snd".to_owned(),
            read_only: false,
            bind_type: BindType::DeviceNode,
        },
    );
    if display.is_some() {
        mounts.push(
            MountPoint {
                host_path: "/tmp/.X11-unix".to_owned(),
                container_path: "/tmp/.X11-unix".to_owned(),
                read_only: false,
                bind_type: BindType::Bind,
            },
        );
    }
    proof {
        assert(mounts@.map_values(|m: MountPoint| m@) =~= spec_mount_points(
            install_path@,
            data_dir@,
            id@,
            match display {
                Option::Some(d) => Option::Some(d@),
                Option::None => Option::None,
            },
        ));
    }
    mounts
}

} // verus!

verus! {

/// One graphics layer's contribution to the environment.
pub open spec fn spec_graphics_env_step(
    env: Seq<(Seq<char>, Seq<char>)>,
    layer: Seq<char>,
) -> Seq<(Seq<char>, Seq<char>)> {
    if layer == "DXVK"@ {
        env_upsert(
            env_upsert(env, "DXVK_ENABLE_NVAPI"@, "1"@),
            "DXVK_CONFIG"@,
            "dxr,dxgi.nvapiHack=False"@,
        )
    } else if layer == "VKD3DProton"@ {
        env_upsert(env, "VKD3D_CONFIG"@, "dxr"@)
    } else if layer == "NvidiaDlss"@ {
        env_upsert(
            env_upsert(env, "DXVK_ENABLE_NVAPI"@, "1"@),
            "DXVK_NVAPI_ALLOW_OTHER_DRIVERS"@,
            "0"@,
        )
    } else if layer == "MangoHud"@ {
        env_upsert(env, "MANGOHUD"@, "1"@)
    } else {
        env
    }
}

/// The environment after the first `i` graphics layers.
pub open spec fn spec_graphics_env_upto(
    env0: Seq<(Seq<char>, Seq<char>)>,
    layers: Seq<Seq<char>>,
    i: int,
) -> Seq<(Seq<char>, Seq<char>)>
    decreases i,
{
    if i <= 0 {
        env0
    } else {
        spec_graphics_env_step(spec_graphics_env_upto(env0, layers, i - 1), layers[i - 1])
    }
}

/// The environment after the first `i` game-specific variables.
pub open spec fn spec_pairs_env_upto(
    env0: Seq<(Seq<char>, Seq<char>)>,
    pairs: Seq<(Seq<char>, Seq<char>)>,
    i: int,
) -> Seq<(Seq<char>, Seq<char>)>
    decreases i,
{
    if i <= 0 {
        env0
    } else {
        env_upsert(spec_pairs_env_upto(env0, pairs, i - 1), pairs[i - 1].0, pairs[i - 1].1)
    }
}

/// The wine runtime environment.
pub open spec fn spec_wine_env(runtime_version: Seq<char>) -> Seq<(Seq<char>, Seq<char>)> {
    env_upsert(
        env_upsert(
            env_upsert(
                env_upsert(Seq::empty(), "WINE_VERSION"@, runtime_version),
                "WINEPREFIX"@,
                "/wine_prefix"@,
            ),
            "WINEDLLOVERRIDES"@,
            "mscoree,mshtml="@,
        ),
        "WINE_LARGE_ADDRESS_AWARE"@,
        "1"@,
    )
}

/// The full workload environment: wine runtime variables, graphics layer
/// variables, the game's own variables, then display and audio session
/// variables. Later bindings replace earlier ones key-wise.
pub open spec fn spec_build_env(
    runtime_version: Seq<char>,
    layers: Seq<Seq<char>>,
    game_env: Seq<(Seq<char>, Seq<char>)>,
    display: Option<Seq<char>>,
) -> Seq<(Seq<char>, Seq<char>)> {
    let e_wine = spec_wine_env(runtime_version);
    let e_gfx = spec_graphics_env_upto(e_wine, layers, layers.len() as int);
    let e_game = spec_pairs_env_upto(e_gfx, game_env, game_env.len() as int);
    let e_disp = match display {
        Option::Some(d) => env_upsert(e_game, "DISPLAY"@, d),
        Option::None => e_game,
    };
    env_upsert(
        env_upsert(e_disp, "PULSE_RUNTIME_PATH"@, "/run/user/1000/pulse"@),
        "XDG_RUNTIME_DIR"@,
        "/run/user/1000"@,
    )
}

/// Assembles the workload environment. Keys stay unique throughout.
pub fn build_environment(
    runtime_version: &str,
    layers: &Vec<String>,
    game_env: &Vec<(String, String)>,
    display: &Option<String>,
) -> (r: Vec<(String, String)>)
    ensures
        env_view(r@) == spec_build_env(
            runtime_version@,
            layers@.map_values(|s: String| s@),
            env_view(game_env@),
            match display {
                Option::Some(d) => Option::Some(d@),
                Option::None => Option::None,
            },
        ),
        env_keys_unique(env_view(r@)),
{
    let mut env: Vec<(String, String)> = Vec::new();
    proof {
        assert(env_view(env@) =~= Seq::<(Seq<char>, Seq<char>)>::empty());
        assert(env_keys_unique(env_view(env@)));
    }
    insert_unique(&mut env, "WINE_VERSION", runtime_version);
    insert_unique(&mut env, "WINEPREFIX", "/wine_prefix");
    insert_unique(&mut env, "WINEDLLOVERRIDES", "mscoree,mshtml=");
    insert_unique(&mut env, "WINE_LARGE_ADDRESS_AWARE", "1");
    proof {
        assert(env_view(env@) == spec_wine_env(runtime_version@));
    }
    let ghost lv = layers@.map_values(|s: String| s@);
    let mut i: usize = 0;
    while i < layers.len()
        invariant
            lv == layers@.map_values(|s: String| s@),
            0 <= i <= layers@.len(),
            env_view(env@) == spec_graphics_env_upto(spec_wine_env(runtime_version@), lv, i as int),
            env_keys_unique(env_view(env@)),
        decreases layers@.len() - i,
    {
        let layer = &layers[i];
        proof {
            assert(lv[i as int] == layers@[i as int]@);
        }
        if str_eq(layer.as_str(), "DXVK") {
            insert_unique(&mut env, "DXVK_ENABLE_NVAPI", "1");
            insert_unique(&mut env, "DXVK_CONFIG", "dxr,dxgi.nvapiHack=False");
        } else if str_eq(layer.as_str(), "VKD3DProton") {
            insert_unique(&mut env, "VKD3D_CONFIG", "dxr");
        } else if str_eq(layer.as_str(), "NvidiaDlss") {
            insert_unique(&mut env, "DXVK_ENABLE_NVAPI", "1");
            insert_unique(&mut env, "DXVK_NVAPI_ALLOW_OTHER_DRIVERS", "0");
        } else if str_eq(layer.as_str(), "MangoHud") {
            insert_unique(&mut env, "MANGOHUD", "1");
        }
        i += 1;
    }
    let ghost e_gfx = env_view(env@);
    let mut j: usize = 0;
    while j < game_env.len()
        invariant
            0 <= j <= game_env@.len(),
            env_view(env@) == spec_pairs_env_upto(e_gfx, env_view(game_env@), j as int),
            env_keys_unique(env_view(env@)),
        decreases game_env@.len() - j,
    {
        let key = game_env[j].0.clone();
        let value = game_env[j].1.clone();
        proof {
            assert(env_view(game_env@)[j as int] == (game_env@[j as int].0@, game_env@[
                j as int
            ].1@));
        }
        insert_unique(&mut env, key.as_str(), value.as_str());
        j += 1;
    }
    if let Option::Some(d) = display {
        insert_unique(&mut env, "DISPLAY", d.as_str());
    }
    insert_unique(&mut env, "PULSE_RUNTIME_PATH", "/run/user/1000/pulse");
    insert_unique(&mut env, "XDG_RUNTIME_DIR", "/run/user/1000");
    env
}

/// Binds `key` to `value`, preserving key uniqueness.
fn insert_unique(env: &mut Vec<(String, String)>, key: &str, value: &str)
    requires
        env_keys_unique(env_view(old(env)@)),
    ensures
        env_view(final(env)@) == env_upsert(env_view(old(env)@), key@, value@),
        env_keys_unique(env_view(final(env)@)),
{
    proof {
        lemma_env_upsert_unique(env_view(env@), key@, value@);
    }
    env_insert(env, key, value);
}

} // verus!

verus! {

/// The deterministic workload name for a game.
pub open spec fn spec_workload_name(game_name: Seq<char>) -> Seq<char> {
    "ghostforge-"@ + lower_of(replace_spaces(game_name, '-'))
}

/// Builds the declarative workload plan for a game.
///
/// The request fails only when the game's install path is missing; an
/// unavailable advisory degrades to the fixed fallback runtime version.
/// Every policy output is pinned: image, runtime version, graphics layers,
/// dependencies, environment, mounts, network mode, resource tiers.
pub fn build_workload_spec(
    game: &Game,
    gpu: &NvidiaFeatures,
    advisory: Option<&Advisory>,
    display: &Option<String>,
    data_dir: &str,
    id: String,
    now: u64,
) -> (r: Result<GameWorkloadSpec, ProvisionError>)
    ensures
        r is Err <==> game.install_path@.len() == 0,
        r is Err ==> r->Err_0 == ProvisionError::InvalidGame,
        r matches Ok(s) ==> {
            let sv = s@;
            &&& sv.id == id@
            &&& sv.name == spec_workload_name(game.name@)
            &&& sv.game_id == game.id@
            &&& sv.base_image == spec_select_image(
                match game.launcher {
                    Option::Some(l) => Option::Some(l@),
                    Option::None => Option::None,
                },
                gpu.available,
            )
            &&& (match advisory {
                Option::Some(a) => sv.runtime_version == a.recommended_proton@,
                Option::None => sv.runtime_version == spec_fallback_runtime(),
            })
            &&& sv.graphics_layers == spec_recommend(
                spec_recommend_keys(game.name@),
                *gpu,
            ).map_values(|t: crate::graphics::GraphicsLayerType| spec_layer_name(t))
            &&& sv.system_dependencies == spec_dependencies(game.name@)
            &&& sv.environment_variables == spec_build_env(
                sv.runtime_version,
                sv.graphics_layers,
                env_view(game.environment_variables@),
                match display {
                    Option::Some(d) => Option::Some(d@),
                    Option::None => Option::None,
                },
            )
            &&& env_keys_unique(sv.environment_variables)
            &&& sv.mount_points == spec_mount_points(
                game.install_path@,
                data_dir@,
                id@,
                match display {
                    Option::Some(d) => Option::Some(d@),
                    Option::None => Option::None,
                },
            )
            &&& sv.network_mode == spec_network_mode(game.name@)
            &&& sv.resource_limits == spec_resource_limits(game.name@)
            &&& sv.resource_limits.memory_mb is Some
            &&& sv.created_at == now
        },
{
    if game.install_path.as_str().unicode_len() == 0 {
        return Result::Err(ProvisionError::InvalidGame);
    }
    let hyphened = replace_spaces_str(game.name.as_str(), '-');
    let lowered = crate::strutil::lowercase(hyphened.as_str());
    let workload_name = concat2("ghostforge-", lowered.as_str());
    let base_image = select_base_image(&game.launcher, gpu);
    let runtime_version = determine_runtime_version(advisory);
    let layer_types = recommend_layers(game.name.as_str(), gpu);
    let mut graphics_layers: Vec<String> = Vec::new();
    let mut i: usize = 0;
    while i < layer_types.len()
        invariant
            layer_types@ == spec_recommend(spec_recommend_keys(game.name@), *gpu),
            0 <= i <= layer_types@.len(),
            graphics_layers@.map_values(|s: String| s@) =~= layer_types@.take(i as int).map_values(
                |t: crate::graphics::GraphicsLayerType| spec_layer_name(t),
            ),
        decreases layer_types@.len() - i,
    {
        let ghost before = graphics_layers@;
        graphics_layers.push(layer_name(layer_types[i]));
        proof {
            let f = |t: crate::graphics::GraphicsLayerType| spec_layer_name(t);
            let prev = layer_types@.take(i as int);
            assert(graphics_layers@ =~= before.push(graphics_layers@.last()));
            assert(graphics_layers@.map_values(|s: String| s@) =~= before.map_values(
                |s: String| s@,
            ).push(spec_layer_name(layer_types@[i as int])));
            assert(layer_types@.take(i as int + 1) =~= prev.push(layer_types@[i as int]));
            prev.lemma_push_map_commute(f, layer_types@[i as int]);
            assert(graphics_layers@.map_values(|s: String| s@) =~= layer_types@.take(
                i as int + 1,
            ).map_values(f));
        }
        i += 1;
    }
    proof {
        assert(layer_types@.take(layer_types@.len() as int) =~= layer_types@);
        assert(graphics_layers@.map_values(|s: String| s@) =~= layer_types@.map_values(
            |t: crate::graphics::GraphicsLayerType| spec_layer_name(t),
        ));
    }
    let system_dependencies = determine_dependencies(game.name.as_str());
    let environment_variables = build_environment(
        runtime_version.as_str(),
        &graphics_layers,
        &game.environment_variables,
        display,
    );
    let mount_points = create_mount_points(
        game.install_path.as_str(),
        data_dir,
        id.as_str(),
        display,
    );
    let network_mode = determine_network_mode(game.name.as_str());
    let resource_limits = calculate_resource_limits(game.name.as_str());
    let spec_out = GameWorkloadSpec {
        id,
        name: workload_name,
        game_id: game.id.clone(),
        base_image,
        runtime_version,
        graphics_layers,
        system_dependencies,
        environment_variables,
        mount_points,
        network_mode,
        resource_limits,
        created_at: now,
    };
    Result::Ok(spec_out)
}

} // verus!
