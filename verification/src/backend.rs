//! Runtime backends. The text-based backends compose a deterministic
//! argument vector and a build context; the gaming-optimized backend is a
//! stub contract that fails clearly while its runtime library is not linked
//! in. Probing and command execution happen outside; their outcomes enter
//! as plain values.

use vstd::prelude::*;
use crate::errors::{LaunchError, ProvisionError};
use crate::strutil::{
    chars_of_str, concat2, concat3, dec_chars, find_line, sp_find_line, spec_trim,
    substring_chars, trim_str, u64_string,
};
use crate::workload::{GameWorkloadSpec, GameWorkloadSpecV, MountPointV, NetworkModeV};

verus! {

/// A backend in the abstract: the gaming-optimized runtime, the rootless
/// container engine, the standard container engine, or a user-defined one.
#[derive(Debug, Clone, PartialEq)]
pub enum RuntimeBackendKind {
    GamingOptimized,
    Rootless,
    Standard,
    Custom(String),
}

/// The concrete runtime behind a backend kind.
#[derive(Debug, Clone, PartialEq)]
pub enum RuntimeType {
    /// Gaming-optimized runtime (preferred).
    Bolt,
    /// Rootless containers.
    Podman,
    /// Traditional containers.
    Docker,
    /// Low-level runtime.
    Containerd,
    /// User-defined runtime.
    Custom(String),
}

/// A configured runtime: its kind and its directories.
#[derive(Debug, Clone, PartialEq)]
pub struct ContainerRuntime {
    pub runtime_type: RuntimeType,
    pub socket_path: Option<String>,
    pub config_dir: String,
    pub data_dir: String,
}

/// Which backends a host probe found available.
#[derive(Debug, Clone, Copy, PartialEq, Eq, Structural)]
pub struct BackendProbe {
    pub gaming_optimized: bool,
    pub rootless: bool,
    pub standard: bool,
}

/// The display name of a backend kind.
pub open spec fn spec_kind_name(k: RuntimeBackendKind) -> Seq<char> {
    match k {
        RuntimeBackendKind::GamingOptimized => "GamingOptimized"@,
        RuntimeBackendKind::Rootless => "Rootless"@,
        RuntimeBackendKind::Standard => "Standard"@,
        RuntimeBackendKind::Custom(n) => n@,
    }
}

/// The display name of a backend kind.
pub fn kind_name(k: &RuntimeBackendKind) -> (r: String)
    ensures
        r@ == spec_kind_name(*k),
{
    match k {
        RuntimeBackendKind::GamingOptimized => "GamingOptimized".to_owned(),
        RuntimeBackendKind::Rootless => "Rootless".to_owned(),
        RuntimeBackendKind::Standard => "Standard".to_owned(),
        RuntimeBackendKind::Custom(n) => n.clone(),
    }
}

/// The runtime binary a text-based backend invokes.
pub open spec fn spec_runtime_binary(k: RuntimeBackendKind) -> Option<Seq<char>> {
    match k {
        RuntimeBackendKind::Rootless => Option::Some("podman"@),
        RuntimeBackendKind::Standard => Option::Some("docker"@),
        _ => Option::None,
    }
}

/// The concrete runtime type for a backend kind.
pub fn runtime_type_of(k: &RuntimeBackendKind) -> (r: RuntimeType)
    ensures
        k is GamingOptimized ==> r is Bolt,
        k is Rootless ==> r is Podman,
        k is Standard ==> r is Docker,
        k matches RuntimeBackendKind::Custom(n) ==> r matches RuntimeType::Custom(m) && m@ == n@,
{
    match k {
        RuntimeBackendKind::GamingOptimized => RuntimeType::Bolt,
        RuntimeBackendKind::Rootless => RuntimeType::Podman,
        RuntimeBackendKind::Standard => RuntimeType::Docker,
        RuntimeBackendKind::Custom(n) => RuntimeType::Custom(n.clone()),
    }
}

/// The display name of a runtime type, as diagnostics report it.
pub open spec fn spec_runtime_type_name(t: RuntimeType) -> Seq<char> {
    match t {
        RuntimeType::Bolt => "Bolt"@,
        RuntimeType::Podman => "Podman"@,
        RuntimeType::Docker => "Docker"@,
        RuntimeType::Containerd => "Containerd"@,
        RuntimeType::Custom(n) => "Custom("@ + n@ + ")"@,
    }
}

/// The display name of a runtime type.
pub fn runtime_type_name(t: &RuntimeType) -> (r: String)
    ensures
        r@ == spec_runtime_type_name(*t),
{
    match t {
        RuntimeType::Bolt => "Bolt".to_owned(),
        RuntimeType::Podman => "Podman".to_owned(),
        RuntimeType::Docker => "Docker".to_owned(),
        RuntimeType::Containerd => "Containerd".to_owned(),
        RuntimeType::Custom(n) => concat3("Custom(", n.as_str(), ")"),
    }
}

/// The `--volume` value for one mount: `host:container`, with `:ro`
/// appended for read-only mounts.
pub open spec fn spec_mount_arg(m: MountPointV) -> Seq<char> {
    m.host_path + ":"@ + m.container_path + (if m.read_only {
        ":ro"@
    } else {
        Seq::empty()
    })
}

/// The mount flags for the first `i` mounts.
pub open spec fn spec_mount_flags_upto(ms: Seq<MountPointV>, i: int) -> Seq<Seq<char>>
    decreases i,
{
    if i <= 0 {
        Seq::empty()
    } else {
        spec_mount_flags_upto(ms, i - 1) + seq!["--volume"@, spec_mount_arg(ms[i - 1])]
    }
}

/// The environment flags for the first `i` variables.
pub open spec fn spec_env_flags_upto(env: Seq<(Seq<char>, Seq<char>)>, i: int) -> Seq<Seq<char>>
    decreases i,
{
    if i <= 0 {
        Seq::empty()
    } else {
        spec_env_flags_upto(env, i - 1) + seq!["--env"@, env[i - 1].0 + "="@ + env[i - 1].1]
    }
}

/// The network flag: only non-bridge modes emit one.
pub open spec fn spec_network_flag(n: NetworkModeV) -> Seq<Seq<char>> {
    match n {
        NetworkModeV::Host => seq!["--network=host"@],
        NetworkModeV::Disabled => seq!["--network=none"@],
        NetworkModeV::Custom(name) => seq!["--network="@ + name],
        NetworkModeV::Bridge => Seq::empty(),
    }
}

/// The full deterministic argument vector for running a workload: runtime
/// binary, `run`, ephemeral and interactive flags, resource-limit flags
/// (only when the limit is set), one volume flag per mount, one environment
/// flag per variable, a network flag for non-bridge modes, the image
/// reference, then the game command and its arguments — in that fixed order.
pub open spec fn spec_run_args(
    sv: GameWorkloadSpecV,
    binary: Seq<char>,
    command: Seq<char>,
    args: Seq<Seq<char>>,
) -> Seq<Seq<char>> {
    seq![binary, "run"@, "--rm"@, "--interactive"@, "--tty"@] + (match sv.resource_limits.memory_mb {
        Option::Some(m) => seq!["--memory="@ + dec_chars(m as nat) + "m"@],
        Option::None => Seq::empty(),
    }) + (match sv.resource_limits.cpu_cores {
        Option::Some(c) => seq!["--cpus="@ + dec_chars(c as nat)],
        Option::None => Seq::empty(),
    }) + spec_mount_flags_upto(sv.mount_points, sv.mount_points.len() as int)
        + spec_env_flags_upto(sv.environment_variables, sv.environment_variables.len() as int)
        + spec_network_flag(sv.network_mode) + seq!["ghostforge-"@ + sv.id] + seq![command] + args
}

/// Composes the run command for a workload on a text-based backend.
///
/// The gaming-optimized backend launches through its native interface, which
/// is not linked into this build, and a custom backend has no known binary:
/// both fail, exactly as stated.
pub fn build_run_command(
    workload: &GameWorkloadSpec,
    kind: &RuntimeBackendKind,
    command: &str,
    args: &Vec<String>,
) -> (r: Result<Vec<String>, LaunchError>)
    ensures
        kind is GamingOptimized ==> r == Result::<Vec<String>, LaunchError>::Err(
            LaunchError::BackendNotLinked,
        ),
        kind is Custom ==> r == Result::<Vec<String>, LaunchError>::Err(
            LaunchError::UnsupportedRuntime,
        ),
        (kind is Rootless || kind is Standard) ==> (r matches Ok(v) && v@.map_values(
            |s: String| s@,
        ) == spec_run_args(
            workload@,
            spec_runtime_binary(*kind)->0,
            command@,
            args@.map_values(|s: String| s@),
        )),
{
    let binary: &str = match kind {
        RuntimeBackendKind::Rootless => "podman",
        RuntimeBackendKind::Standard => "docker",
        RuntimeBackendKind::GamingOptimized => {
            return Result::Err(LaunchError::BackendNotLinked);
        },
        RuntimeBackendKind::Custom(_) => {
            return Result::Err(LaunchError::UnsupportedRuntime);
        },
    };
    let mut cmd: Vec<String> = Vec::new();
    cmd.push(binary.to_owned());
    cmd.push("run".to_owned());
    cmd.push("--rm".to_owned());
    cmd.push("--interactive".to_owned());
    cmd.push("--tty".to_owned());
    let ghost mut exp = seq![binary@, "run"@, "--rm"@, "--interactive"@, "--tty"@];
    proof {
        assert(cmd@.map_values(|s: String| s@) =~= exp);
    }
    if let Option::Some(m) = workload.resource_limits.memory_mb {
        let mut flag = "--memory=".to_owned();
        flag.append(u64_string(m).as_str());
        flag.append("m");
        cmd.push(flag);
    }
    proof {
        exp = exp + (match workload.resource_limits.memory_mb {
            Option::Some(m) => seq!["--memory="@ + dec_chars(m as nat) + "m"@],
            Option::None => Seq::empty(),
        });
        assert(cmd@.map_values(|s: String| s@) =~= exp);
    }
    if let Option::Some(c) = workload.resource_limits.cpu_cores {
        let mut flag = "--cpus=".to_owned();
        flag.append(u64_string(c as u64).as_str());
        cmd.push(flag);
    }
    proof {
        exp = exp + (match workload.resource_limits.cpu_cores {
            Option::Some(c) => seq!["--cpus="@ + dec_chars(c as nat)],
            Option::None => Seq::empty(),
        });
        assert(cmd@.map_values(|s: String| s@) =~= exp);
    }
    let ghost mv = workload@.mount_points;
    proof {
        assert(cmd@.map_values(|s: String| s@) =~= exp + spec_mount_flags_upto(mv, 0));
    }
    let mut i: usize = 0;
    while i < workload.mount_points.len()
        invariant
            mv == workload@.mount_points,
            mv.len() == workload.mount_points@.len(),
            0 <= i <= mv.len(),
            cmd@.map_values(|s: String| s@) == exp + spec_mount_flags_upto(mv, i as int),
        decreases mv.len() - i,
    {
        let m = &workload.mount_points[i];
        let mut arg = m.host_path.clone();
        arg.append(":");
        arg.append(m.container_path.as_str());
        if m.read_only {
            arg.append(":ro");
        }
        let vol = "--volume".to_owned();
        let ghost volg = vol;
        let ghost argg = arg;
        let ghost before = cmd@;
        cmd.push(vol);
        cmd.push(arg);
        proof {
            let f = |s: String| s@;
            assert(mv[i as int] == workload.mount_points@[i as int]@);
            assert(argg@ =~= spec_mount_arg(mv[i as int]));
            before.lemma_push_map_commute(f, volg);
            before.push(volg).lemma_push_map_commute(f, argg);
            assert(cmd@.map_values(f) =~= before.map_values(f).push(volg@).push(argg@));
            assert(spec_mount_flags_upto(mv, i as int + 1) =~= spec_mount_flags_upto(mv, i as int)
                + seq!["--volume"@, spec_mount_arg(mv[i as int])]);
            assert(cmd@.map_values(f) =~= exp + spec_mount_flags_upto(mv, i as int + 1));
        }
        i += 1;
    }
    proof {
        exp = exp + spec_mount_flags_upto(mv, mv.len() as int);
        assert(cmd@.map_values(|s: String| s@) =~= exp);
    }
    let ghost ev = workload@.environment_variables;
    proof {
        assert(cmd@.map_values(|s: String| s@) =~= exp + spec_env_flags_upto(ev, 0));
    }
    let mut j: usize = 0;
    while j < workload.environment_variables.len()
        invariant
            ev == workload@.environment_variables,
            ev.len() == workload.environment_variables@.len(),
            0 <= j <= ev.len(),
            cmd@.map_values(|s: String| s@) == exp + spec_env_flags_upto(ev, j as int),
        decreases ev.len() - j,
    {
        let pair = &workload.environment_variables[j];
        let mut arg = pair.0.clone();
        arg.append("=");
        arg.append(pair.1.as_str());
        let flag = "--env".to_owned();
        let ghost flagg = flag;
        let ghost argg = arg;
        let ghost before = cmd@;
        cmd.push(flag);
        cmd.push(arg);
        proof {
            let f = |s: String| s@;
            assert(ev[j as int] == (workload.environment_variables@[j as int].0@,
            workload.environment_variables@[j as int].1@));
            assert(argg@ =~= ev[j as int].0 + "="@ + ev[j as int].1);
            before.lemma_push_map_commute(f, flagg);
            before.push(flagg).lemma_push_map_commute(f, argg);
            assert(cmd@.map_values(f) =~= before.map_values(f).push(flagg@).push(argg@));
            assert(spec_env_flags_upto(ev, j as int + 1) =~= spec_env_flags_upto(ev, j as int)
                + seq!["--env"@, ev[j as int].0 + "="@ + ev[j as int].1]);
            assert(cmd@.map_values(f) =~= exp + spec_env_flags_upto(ev, j as int + 1));
        }
        j += 1;
    }
    proof {
        exp = exp + spec_env_flags_upto(ev, ev.len() as int);
        assert(cmd@.map_values(|s: String| s@) =~= exp);
    }
    match &workload.network_mode {
        crate::workload::NetworkMode::Host => {
            cmd.push("--network=host".to_owned());
        },
        crate::workload::NetworkMode::Disabled => {
            cmd.push("--network=none".to_owned());
        },
        crate::workload::NetworkMode::Custom(name) => {
            cmd.push(concat2("--network=", name.as_str()));
        },
        crate::workload::NetworkMode::Bridge => {},
    }
    proof {
        exp = exp + spec_network_flag(workload@.network_mode);
        assert(cmd@.map_values(|s: String| s@) =~= exp);
    }
    cmd.push(concat2("ghostforge-", workload.id.as_str()));
    cmd.push(command.to_owned());
    proof {
        exp = exp + seq!["ghostforge-"@ + workload@.id] + seq![command@];
        assert(cmd@.map_values(|s: String| s@) =~= exp);
    }
    proof {
        assert(cmd@.map_values(|s: String| s@) =~= exp + args@.map_values(|s: String| s@).take(0));
    }
    let mut k: usize = 0;
    while k < args.len()
        invariant
            0 <= k <= args@.len(),
            cmd@.map_values(|s: String| s@) == exp + args@.map_values(|s: String| s@).take(
                k as int,
            ),
        decreases args@.len() - k,
    {
        let a = args[k].clone();
        let ghost ag = a;
        let ghost before = cmd@;
        cmd.push(a);
        proof {
            let f = |s: String| s@;
            before.lemma_push_map_commute(f, ag);
            assert(cmd@.map_values(f) =~= before.map_values(f).push(ag@));
            assert(ag@ == args@.map_values(f)[k as int]);
            assert(args@.map_values(f).take(k as int + 1) =~= args@.map_values(f).take(
                k as int,
            ).push(args@.map_values(f)[k as int]));
            assert(cmd@.map_values(f) =~= exp + args@.map_values(f).take(k as int + 1));
        }
        k += 1;
    }
    proof {
        assert(args@.map_values(|s: String| s@).take(args@.len() as int) =~= args@.map_values(
            |s: String| s@,
        ));
        assert(cmd@.map_values(|s: String| s@) =~= spec_run_args(
            workload@,
            binary@,
            command@,
            args@.map_values(|s: String| s@),
        ));
    }
    Result::Ok(cmd)
}

} // verus!

verus! {

/// One dependency line of the build file.
pub open spec fn spec_dep_line(d: Seq<char>) -> Seq<char> {
    "    "@ + d + " \\\n"@
}

/// The dependency lines for the first `i` packages.
pub open spec fn spec_dep_lines_upto(deps: Seq<Seq<char>>, i: int) -> Seq<char>
    decreases i,
{
    if i <= 0 {
        Seq::empty()
    } else {
        spec_dep_lines_upto(deps, i - 1) + spec_dep_line(deps[i - 1])
    }
}

/// The full build file for an image name, package list and runtime version:
/// base image, package installation, wine environment, directories, an
/// unprivileged user, and the working directory.
pub open spec fn spec_build_file(
    image: Seq<char>,
    deps: Seq<Seq<char>>,
    runtime_version: Seq<char>,
) -> Seq<char> {
    "FROM "@ + image + "\n"@ + "USER root\n"@
        + "RUN apt-get update && apt-get install -y \\\n"@ + spec_dep_lines_upto(
        deps,
        deps.len() as int,
    ) + "    && rm -rf /var/lib/apt/lists/*\n"@ + "ENV WINE_VERSION="@ + runtime_version
        + "\nENV WINEPREFIX=/wine_prefix\n"@ + "RUN mkdir -p /wine_prefix /game /saves\n"@
        + "RUN useradd -m -s /bin/bash gameuser\n"@
        + "RUN chown -R gameuser:gameuser /wine_prefix /game /saves\n"@ + "USER gameuser\n"@
        + "WORKDIR /game\n"@
}

/// Renders the build file for a workload.
pub fn generate_build_file(workload: &GameWorkloadSpec) -> (r: String)
    ensures
        r@ == spec_build_file(
            workload@.base_image.name,
            workload@.system_dependencies,
            workload@.runtime_version,
        ),
{
    let ghost deps = workload@.system_dependencies;
    let mut out = "FROM ".to_owned();
    out.append(workload.base_image.name.as_str());
    out.append("\n");
    out.append("USER root\n");
    out.append("RUN apt-get update && apt-get install -y \\\n");
    let ghost head = out@;
    let mut i: usize = 0;
    while i < workload.system_dependencies.len()
        invariant
            deps == workload@.system_dependencies,
            deps.len() == workload.system_dependencies@.len(),
            0 <= i <= deps.len(),
            out@ == head + spec_dep_lines_upto(deps, i as int),
        decreases deps.len() - i,
    {
        out.append("    ");
        out.append(workload.system_dependencies[i].as_str());
        out.append(" \\\n");
        proof {
            assert(deps[i as int] == workload.system_dependencies@[i as int]@);
            assert(out@ =~= head + spec_dep_lines_upto(deps, i as int + 1));
        }
        i += 1;
    }
    out.append("    && rm -rf /var/lib/apt/lists/*\n");
    out.append("ENV WINE_VERSION=");
    out.append(workload.runtime_version.as_str());
    out.append("\nENV WINEPREFIX=/wine_prefix\n");
    out.append("RUN mkdir -p /wine_prefix /game /saves\n");
    out.append("RUN useradd -m -s /bin/bash gameuser\n");
    out.append("RUN chown -R gameuser:gameuser /wine_prefix /game /saves\n");
    out.append("USER gameuser\n");
    out.append("WORKDIR /game\n");
    proof {
        assert(out@ =~= spec_build_file(
            workload@.base_image.name,
            workload@.system_dependencies,
            workload@.runtime_version,
        ));
    }
    out
}

/// A materializable build request: the build context file, where it goes,
/// and the command that builds it.
#[derive(Debug, Clone, PartialEq)]
pub struct BuildPlan {
    pub build_file: String,
    pub context_dir: String,
    pub command: Vec<String>,
}

/// Plans the build of a workload on the active backend.
///
/// Text-based backends get a build context and a deterministic build
/// command. The gaming-optimized backend fails with a clear not-linked
/// error while its runtime library is absent, rather than silently
/// doing nothing; a custom backend has no build procedure here.
pub fn plan_build(
    workload: &GameWorkloadSpec,
    kind: &RuntimeBackendKind,
    data_dir: &str,
) -> (r: Result<BuildPlan, ProvisionError>)
    ensures
        kind is GamingOptimized ==> r == Result::<BuildPlan, ProvisionError>::Err(
            ProvisionError::BackendNotLinked,
        ),
        kind is Custom ==> r == Result::<BuildPlan, ProvisionError>::Err(
            ProvisionError::UnsupportedRuntime,
        ),
        (kind is Rootless || kind is Standard) ==> (r matches Ok(p) && {
            &&& p.build_file@ == spec_build_file(
                workload@.base_image.name,
                workload@.system_dependencies,
                workload@.runtime_version,
            )
            &&& p.context_dir@ == data_dir@ + "/"@ + workload@.id
            &&& p.command@.map_values(|s: String| s@) == seq![
                spec_runtime_binary(*kind)->0,
                "build"@,
                "-t"@,
                "ghostforge-"@ + workload@.id,
                data_dir@ + "/"@ + workload@.id,
            ]
        }),
{
    let binary: &str = match kind {
        RuntimeBackendKind::Rootless => "podman",
        RuntimeBackendKind::Standard => "docker",
        RuntimeBackendKind::GamingOptimized => {
            return Result::Err(ProvisionError::BackendNotLinked);
        },
        RuntimeBackendKind::Custom(_) => {
            return Result::Err(ProvisionError::UnsupportedRuntime);
        },
    };
    let build_file = generate_build_file(workload);
    let context_dir = concat3(data_dir, "/", workload.id.as_str());
    let mut command: Vec<String> = Vec::new();
    command.push(binary.to_owned());
    command.push("build".to_owned());
    command.push("-t".to_owned());
    command.push(concat2("ghostforge-", workload.id.as_str()));
    command.push(context_dir.clone());
    proof {
        assert(command@.map_values(|s: String| s@) =~= seq![
            binary@,
            "build"@,
            "-t"@,
            "ghostforge-"@ + workload@.id,
            data_dir@ + "/"@ + workload@.id,
        ]);
    }
    Result::Ok(BuildPlan { build_file, context_dir, command })
}

/// A diagnostics view of the available runtimes and how to improve them.
#[derive(Debug, Clone, PartialEq)]
pub struct RuntimeInfo {
    pub current_runtime: String,
    pub available_runtimes: Vec<String>,
    pub recommendations: Vec<String>,
    pub bolt_optimized: bool,
}

/// Detailed status of one runtime, for troubleshooting.
#[derive(Debug, Clone, PartialEq)]
pub struct RuntimeDiagnostics {
    pub runtime_type: String,
    pub version: String,
    pub features: Vec<String>,
    pub issues: Vec<String>,
    pub suggestions: Vec<String>,
}

/// The available-runtime names for a probe outcome.
pub open spec fn spec_available_runtimes(probe: BackendProbe) -> Seq<Seq<char>> {
    (if probe.gaming_optimized {
        seq!["Bolt (gaming-optimized)"@]
    } else {
        Seq::empty()
    }) + (if probe.rootless {
        seq!["Podman (rootless)"@]
    } else {
        Seq::empty()
    }) + (if probe.standard {
        seq!["Docker (compatible)"@]
    } else {
        Seq::empty()
    })
}

/// Summarizes the available runtimes for a probe outcome: the active
/// backend's name, the detected runtimes, and an install recommendation
/// when the gaming-optimized runtime is missing.
pub fn get_runtime_info(active: &RuntimeBackendKind, probe: &BackendProbe) -> (r: RuntimeInfo)
    ensures
        active is GamingOptimized ==> r.current_runtime@ == "Bolt"@,
        active is Rootless ==> r.current_runtime@ == "Podman"@,
        active is Standard ==> r.current_runtime@ == "Docker"@,
        active matches RuntimeBackendKind::Custom(n) ==> r.current_runtime@ == "Custom("@ + n@
            + ")"@,
        r.available_runtimes@.map_values(|s: String| s@) == spec_available_runtimes(*probe),
        r.recommendations@.map_values(|s: String| s@) == (if !probe.gaming_optimized {
            seq!["Install Bolt for optimal gaming performance"@]
        } else {
            Seq::<Seq<char>>::empty()
        }),
        r.bolt_optimized == (active is GamingOptimized),
{
    let rt = runtime_type_of(active);
    let current_runtime = runtime_type_name(&rt);
    let mut available_runtimes: Vec<String> = Vec::new();
    let mut recommendations: Vec<String> = Vec::new();
    if probe.gaming_optimized {
        available_runtimes.push("Bolt (gaming-optimized)".to_owned());
    } else {
        recommendations.push("Install Bolt for optimal gaming performance".to_owned());
    }
    if probe.rootless {
        available_runtimes.push("Podman (rootless)".to_owned());
    }
    if probe.standard {
        available_runtimes.push("Docker (compatible)".to_owned());
    }
    let bolt_optimized = match active {
        RuntimeBackendKind::GamingOptimized => true,
        _ => false,
    };
    proof {
        assert(available_runtimes@.map_values(|s: String| s@) =~= spec_available_runtimes(*probe));
        assert(recommendations@.map_values(|s: String| s@) =~= (if !probe.gaming_optimized {
            seq!["Install Bolt for optimal gaming performance"@]
        } else {
            Seq::<Seq<char>>::empty()
        }));
    }
    RuntimeInfo { current_runtime, available_runtimes, recommendations, bolt_optimized }
}

} // verus!

verus! {

/// The version string extracted from a probe's output for a backend kind:
/// the gaming-optimized and standard runtimes report a single line, which
/// is trimmed; the rootless runtime reports a block in which the line
/// holding `Version:` is picked out.
pub open spec fn spec_probe_version(kind: RuntimeBackendKind, out: Seq<char>) -> Seq<char> {
    if kind is Rootless {
        match sp_find_line(out, 0, "Version:"@) {
            Option::Some(b) => out.subrange(b.0, b.1),
            Option::None => "Unknown"@,
        }
    } else {
        spec_trim(out)
    }
}

/// Detailed status of one backend for troubleshooting: its version as the
/// probe reported it, its feature list, and what to do when it is missing.
pub fn diagnose_runtime(kind: &RuntimeBackendKind, version_output: Option<&str>) -> (r:
    RuntimeDiagnostics)
    ensures
        kind is GamingOptimized ==> r.runtime_type@ == "Bolt"@,
        kind is Rootless ==> r.runtime_type@ == "Podman"@,
        kind is Standard ==> r.runtime_type@ == "Docker"@,
        (match version_output {
            Option::Some(out) => !(kind is Custom) ==> r.version@ == spec_probe_version(
                *kind,
                out@,
            ),
            Option::None => r.version@ == "Unknown"@,
        }),
        kind is GamingOptimized && version_output is Some ==> r.features@.map_values(
            |s: String| s@,
        ) == seq![
            "Gaming optimization"@,
            "GPU passthrough"@,
            "Snapshot system"@,
            "QUIC networking"@,
        ] && r.issues@.len() == 0,
        kind is GamingOptimized && version_output is None ==> r.issues@.map_values(|s: String| s@)
            == seq!["Bolt binary not found"@] && r.suggestions@.map_values(|s: String| s@)
            == seq!["Install Bolt from https://bolt.dev/"@],
        kind is Rootless && version_output is Some ==> r.features@.map_values(|s: String| s@)
            == seq!["Rootless containers"@, "OCI compatible"@],
        kind is Rootless && version_output is None ==> r.issues@.map_values(|s: String| s@)
            == seq!["Podman not installed"@],
        kind is Standard && version_output is Some ==> r.features@.map_values(|s: String| s@)
            == seq!["Wide compatibility"@, "Extensive ecosystem"@],
        kind is Standard && version_output is None ==> r.issues@.map_values(|s: String| s@)
            == seq!["Docker not installed"@],
        kind is Custom ==> r.issues@.map_values(|s: String| s@) == seq![
            "Unsupported runtime type"@,
        ],
{
    let rt = runtime_type_of(kind);
    let runtime_type = runtime_type_name(&rt);
    let mut version = "Unknown".to_owned();
    let mut features: Vec<String> = Vec::new();
    let mut issues: Vec<String> = Vec::new();
    let mut suggestions: Vec<String> = Vec::new();
    match kind {
        RuntimeBackendKind::GamingOptimized => {
            match version_output {
                Option::Some(out) => {
                    version = trim_str(out);
                    features.push("Gaming optimization".to_owned());
                    features.push("GPU passthrough".to_owned());
                    features.push("Snapshot system".to_owned());
                    features.push("QUIC networking".to_owned());
                },
                Option::None => {
                    issues.push("Bolt binary not found".to_owned());
                    suggestions.push("Install Bolt from https://bolt.dev/".to_owned());
                },
            }
        },
        RuntimeBackendKind::Rootless => {
            match version_output {
                Option::Some(out) => {
                    let chars = chars_of_str(out);
                    let needle = chars_of_str("Version:");
                    match find_line(&chars, 0, &needle) {
                        Option::Some((a, b)) => {
                            version = substring_chars(&chars, a, b);
                        },
                        Option::None => {},
                    }
                    features.push("Rootless containers".to_owned());
                    features.push("OCI compatible".to_owned());
                },
                Option::None => {
                    issues.push("Podman not installed".to_owned());
                },
            }
        },
        RuntimeBackendKind::Standard => {
            match version_output {
                Option::Some(out) => {
                    version = trim_str(out);
                    features.push("Wide compatibility".to_owned());
                    features.push("Extensive ecosystem".to_owned());
                },
                Option::None => {
                    issues.push("Docker not installed".to_owned());
                },
            }
        },
        RuntimeBackendKind::Custom(_) => {
            issues.push("Unsupported runtime type".to_owned());
        },
    }
    proof {
        assert(features@.map_values(|s: String| s@) =~= features@.map_values(|s: String| s@));
        if kind is GamingOptimized && version_output is Some {
            assert(features@.map_values(|s: String| s@) =~= seq![
                "Gaming optimization"@,
                "GPU passthrough"@,
                "Snapshot system"@,
                "QUIC networking"@,
            ]);
        }
        if kind is Rootless && version_output is Some {
            assert(features@.map_values(|s: String| s@) =~= seq![
                "Rootless containers"@,
                "OCI compatible"@,
            ]);
        }
        if kind is Standard && version_output is Some {
            assert(features@.map_values(|s: String| s@) =~= seq![
                "Wide compatibility"@,
                "Extensive ecosystem"@,
            ]);
        }
        if version_output is None || kind is Custom {
            if issues@.len() == 1 {
                assert(issues@.map_values(|s: String| s@) =~= seq![issues@[0]@]);
            }
            if suggestions@.len() == 1 {
                assert(suggestions@.map_values(|s: String| s@) =~= seq![suggestions@[0]@]);
            }
        }
    }
    RuntimeDiagnostics { runtime_type, version, features, issues, suggestions }
}

} // verus!

verus! {

use crate::strutil::{contains_chars, contains_seq};

/// The gaming-optimized runtime's capsule for a workload: the wine build
/// family its runtime version and image imply.
pub open spec fn spec_gaming_capsule(sv: GameWorkloadSpecV) -> Seq<char> {
    if contains_seq(sv.runtime_version, "Proton"@) {
        "proton-ge"@
    } else if contains_seq(sv.base_image.name, "nvidia"@) {
        "wine-nvidia"@
    } else if contains_seq(sv.base_image.name, "steam"@) {
        "steam-runtime"@
    } else {
        "wine-base"@
    }
}

/// The capsule name for a workload on the gaming-optimized runtime.
pub fn determine_gaming_capsule(workload: &GameWorkloadSpec) -> (r: String)
    ensures
        r@ == spec_gaming_capsule(workload@),
{
    let rv = chars_of_str(workload.runtime_version.as_str());
    let img = chars_of_str(workload.base_image.name.as_str());
    if contains_chars(&rv, &chars_of_str("Proton")) {
        "proton-ge".to_owned()
    } else if contains_chars(&img, &chars_of_str("nvidia")) {
        "wine-nvidia".to_owned()
    } else if contains_chars(&img, &chars_of_str("steam")) {
        "steam-runtime".to_owned()
    } else {
        "wine-base".to_owned()
    }
}

} // verus!

verus! {

/// The command that removes a workload's image, for the active backend:
/// the text-based runtimes get their image-removal invocation; the others
/// have none here.
pub open spec fn spec_remove_image_args(
    active: Option<RuntimeBackendKind>,
    id: Seq<char>,
) -> Option<Seq<Seq<char>>> {
    match active {
        Option::Some(RuntimeBackendKind::Rootless) => Option::Some(
            seq!["podman"@, "rmi"@, "ghostforge-"@ + id],
        ),
        Option::Some(RuntimeBackendKind::Standard) => Option::Some(
            seq!["docker"@, "rmi"@, "ghostforge-"@ + id],
        ),
        _ => Option::None,
    }
}

/// The image-removal command for a workload on the active backend.
pub fn remove_image_command(active: &Option<RuntimeBackendKind>, id: &str) -> (r: Option<
    Vec<String>,
>)
    ensures
        match r {
            Option::Some(v) => spec_remove_image_args(*active, id@) == Option::Some(
                v@.map_values(|s: String| s@),
            ),
            Option::None => spec_remove_image_args(*active, id@) is None,
        },
{
    match active {
        Option::Some(RuntimeBackendKind::Rootless) => {
            let mut c: Vec<String> = Vec::new();
            c.push("podman".to_owned());
            c.push("rmi".to_owned());
            c.push(concat2("ghostforge-", id));
            proof {
                assert(c@.map_values(|s: String| s@) =~= seq![
                    "podman"@,
                    "rmi"@,
                    "ghostforge-"@ + id@,
                ]);
            }
            Option::Some(c)
        },
        Option::Some(RuntimeBackendKind::Standard) => {
            let mut c: Vec<String> = Vec::new();
            c.push("docker".to_owned());
            c.push("rmi".to_owned());
            c.push(concat2("ghostforge-", id));
            proof {
                assert(c@.map_values(|s: String| s@) =~= seq![
                    "docker"@,
                    "rmi"@,
                    "ghostforge-"@ + id@,
                ]);
            }
            Option::Some(c)
        },
        _ => Option::None,
    }
}

} // verus!
