//! The workload data model: the declarative execution plan built for a game
//! (image, mounts, environment, resources, network mode) and the mutable
//! record that the lifecycle manager keeps per provisioned workload.

use vstd::prelude::*;

verus! {

/// A container base image reference.
#[derive(Debug, Clone, PartialEq)]
pub struct ContainerImage {
    pub name: String,
    pub tag: String,
    pub digest: Option<String>,
    pub platform: String,
}

pub ghost struct ContainerImageV {
    pub name: Seq<char>,
    pub tag: Seq<char>,
    pub digest: Option<Seq<char>>,
    pub platform: Seq<char>,
}

impl View for ContainerImage {
    type V = ContainerImageV;

    open spec fn view(&self) -> ContainerImageV {
        ContainerImageV {
            name: self.name@,
            tag: self.tag@,
            digest: match self.digest {
                Option::Some(d) => Option::Some(d@),
                Option::None => Option::None,
            },
            platform: self.platform@,
        }
    }
}

/// How a mount is realized inside the container.
#[derive(Debug, Clone, Copy, PartialEq, Eq, Structural)]
pub enum BindType {
    Bind,
    Volume,
    TmpFs,
    DeviceNode,
}

/// One mount of a host path into the container.
#[derive(Debug, Clone, PartialEq)]
pub struct MountPoint {
    pub host_path: String,
    pub container_path: String,
    pub read_only: bool,
    pub bind_type: BindType,
}

pub ghost struct MountPointV {
    pub host_path: Seq<char>,
    pub container_path: Seq<char>,
    pub read_only: bool,
    pub bind_type: BindType,
}

impl View for MountPoint {
    type V = MountPointV;

    open spec fn view(&self) -> MountPointV {
        MountPointV {
            host_path: self.host_path@,
            container_path: self.container_path@,
            read_only: self.read_only,
            bind_type: self.bind_type,
        }
    }
}

/// The network attachment of a workload. Host networking is selected only by
/// explicit anti-cheat or low-latency policy, never as a silent default.
#[derive(Debug, Clone, PartialEq)]
pub enum NetworkMode {
    Bridge,
    Host,
    /// No network access at all.
    Disabled,
    Custom(String),
}

pub ghost enum NetworkModeV {
    Bridge,
    Host,
    Disabled,
    Custom(Seq<char>),
}

impl View for NetworkMode {
    type V = NetworkModeV;

    open spec fn view(&self) -> NetworkModeV {
        match self {
            NetworkMode::Bridge => NetworkModeV::Bridge,
            NetworkMode::Host => NetworkModeV::Host,
            NetworkMode::Disabled => NetworkModeV::Disabled,
            NetworkMode::Custom(n) => NetworkModeV::Custom(n@),
        }
    }
}

/// Resource caps for a workload; `None` means unlimited.
#[derive(Debug, Clone, PartialEq, Eq, Structural)]
pub struct ResourceLimits {
    pub memory_mb: Option<u64>,
    pub cpu_cores: Option<u32>,
    pub disk_mb: Option<u64>,
    pub gpu_access: bool,
}

impl Default for ResourceLimits {
    /// The default sizing tier: 4 GiB memory, 10 GiB disk, GPU access on,
    /// no CPU cap.
    fn default() -> (r: Self)
        ensures
            r.memory_mb == Option::Some(4096u64),
            r.cpu_cores is None,
            r.disk_mb == Option::Some(10240u64),
            r.gpu_access == true,
    {
        ResourceLimits {
            memory_mb: Option::Some(4096),
            cpu_cores: Option::None,
            disk_mb: Option::Some(10240),
            gpu_access: true,
        }
    }
}

/// The lifecycle state of a workload record.
#[derive(Debug, Clone, PartialEq)]
pub enum ContainerStatus {
    Creating,
    Stopped,
    Running,
    Paused,
    Updating,
    Error(String),
}

pub ghost enum ContainerStatusV {
    Creating,
    Stopped,
    Running,
    Paused,
    Updating,
    Error(Seq<char>),
}

impl View for ContainerStatus {
    type V = ContainerStatusV;

    open spec fn view(&self) -> ContainerStatusV {
        match self {
            ContainerStatus::Creating => ContainerStatusV::Creating,
            ContainerStatus::Stopped => ContainerStatusV::Stopped,
            ContainerStatus::Running => ContainerStatusV::Running,
            ContainerStatus::Paused => ContainerStatusV::Paused,
            ContainerStatus::Updating => ContainerStatusV::Updating,
            ContainerStatus::Error(e) => ContainerStatusV::Error(e@),
        }
    }
}

/// The immutable, declarative execution plan for one workload. Created fresh
/// for every provisioning request and never mutated afterwards.
#[derive(Debug, Clone, PartialEq)]
pub struct GameWorkloadSpec {
    pub id: String,
    pub name: String,
    pub game_id: String,
    pub base_image: ContainerImage,
    pub runtime_version: String,
    pub graphics_layers: Vec<String>,
    pub system_dependencies: Vec<String>,
    pub environment_variables: Vec<(String, String)>,
    pub mount_points: Vec<MountPoint>,
    pub network_mode: NetworkMode,
    pub resource_limits: ResourceLimits,
    pub created_at: u64,
}

pub ghost struct GameWorkloadSpecV {
    pub id: Seq<char>,
    pub name: Seq<char>,
    pub game_id: Seq<char>,
    pub base_image: ContainerImageV,
    pub runtime_version: Seq<char>,
    pub graphics_layers: Seq<Seq<char>>,
    pub system_dependencies: Seq<Seq<char>>,
    pub environment_variables: Seq<(Seq<char>, Seq<char>)>,
    pub mount_points: Seq<MountPointV>,
    pub network_mode: NetworkModeV,
    pub resource_limits: ResourceLimits,
    pub created_at: u64,
}

impl View for GameWorkloadSpec {
    type V = GameWorkloadSpecV;

    open spec fn view(&self) -> GameWorkloadSpecV {
        GameWorkloadSpecV {
            id: self.id@,
            name: self.name@,
            game_id: self.game_id@,
            base_image: self.base_image@,
            runtime_version: self.runtime_version@,
            graphics_layers: self.graphics_layers@.map_values(|s: String| s@),
            system_dependencies: self.system_dependencies@.map_values(|s: String| s@),
            environment_variables: self.environment_variables@.map_values(
                |p: (String, String)| (p.0@, p.1@),
            ),
            mount_points: self.mount_points@.map_values(|m: MountPoint| m@),
            network_mode: self.network_mode@,
            resource_limits: self.resource_limits,
            created_at: self.created_at,
        }
    }
}

/// No two environment entries share a key.
pub open spec fn env_keys_unique(env: Seq<(Seq<char>, Seq<char>)>) -> bool {
    forall|i: int, j: int| 0 <= i < j < env.len() ==> (#[trigger] env[i]).0 != (#[trigger] env[j]).0
}

/// Well-formedness of a workload plan.
pub open spec fn spec_wf(s: GameWorkloadSpecV) -> bool {
    env_keys_unique(s.environment_variables)
}

/// The mutable registry entry wrapping an immutable workload plan.
#[derive(Debug, Clone, PartialEq)]
pub struct WorkloadRecord {
    pub workload: GameWorkloadSpec,
    pub status: ContainerStatus,
    pub last_used: Option<u64>,
    pub size_mb: Option<u64>,
}

pub ghost struct WorkloadRecordV {
    pub workload: GameWorkloadSpecV,
    pub status: ContainerStatusV,
    pub last_used: Option<u64>,
    pub size_mb: Option<u64>,
}

impl View for WorkloadRecord {
    type V = WorkloadRecordV;

    open spec fn view(&self) -> WorkloadRecordV {
        WorkloadRecordV {
            workload: self.workload@,
            status: self.status@,
            last_used: self.last_used,
            size_mb: self.size_mb,
        }
    }
}

impl ContainerStatus {
    /// Whether the workload is currently running.
    pub fn is_running(&self) -> (r: bool)
        ensures
            r == (self@ is Running),
    {
        match self {
            ContainerStatus::Running => true,
            _ => false,
        }
    }
}

} // verus!
