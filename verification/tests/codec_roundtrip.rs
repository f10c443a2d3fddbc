use ghostforge::store::{encode_record, parse_record};
use ghostforge::workload::{
    BindType, ContainerImage, ContainerStatus, GameWorkloadSpec, MountPoint, NetworkMode,
    ResourceLimits, WorkloadRecord,
};

fn sample_record() -> WorkloadRecord {
    WorkloadRecord {
        workload: GameWorkloadSpec {
            id: "11111111-2222-4333-8444-555555555555".to_string(),
            name: "ghostforge-some-game".to_string(),
            game_id: "game-9".to_string(),
            base_image: ContainerImage {
                name: "ghcr.io/ghostforge/gaming-base".to_string(),
                tag: "ubuntu22.04".to_string(),
                digest: Some("sha256:abc".to_string()),
                platform: "linux/amd64".to_string(),
            },
            runtime_version: "GE-Proton8-26".to_string(),
            graphics_layers: vec!["DXVK".to_string(), "MangoHud".to_string()],
            system_dependencies: vec!["wine".to_string(), "winetricks".to_string()],
            environment_variables: vec![
                ("WINEPREFIX".to_string(), "/wine_prefix".to_string()),
                ("ODD VALUE".to_string(), "with spaces and 123 numbers".to_string()),
            ],
            mount_points: vec![
                MountPoint {
                    host_path: "/games/some game".to_string(),
                    container_path: "/game".to_string(),
                    read_only: true,
                    bind_type: BindType::Bind,
                },
                MountPoint {
                    host_path: "/dev/dri".to_string(),
                    container_path: "/dev/dri".to_string(),
                    read_only: false,
                    bind_type: BindType::DeviceNode,
                },
            ],
            network_mode: NetworkMode::Custom("lan-party".to_string()),
            resource_limits: ResourceLimits {
                memory_mb: Some(8192),
                cpu_cores: Some(4),
                disk_mb: None,
                gpu_access: true,
            },
            created_at: 1_700_000_000,
        },
        status: ContainerStatus::Error("spawn failed".to_string()),
        last_used: Some(1_700_000_999),
        size_mb: None,
    }
}

#[test]
fn record_roundtrips_field_for_field() {
    let rec = sample_record();
    let doc = encode_record(&rec);
    let back = parse_record(&doc).expect("the encoding must parse");
    assert_eq!(back, rec);
}

#[test]
fn roundtrip_covers_every_status_and_network_mode() {
    let mut rec = sample_record();
    for status in [
        ContainerStatus::Creating,
        ContainerStatus::Stopped,
        ContainerStatus::Running,
        ContainerStatus::Paused,
        ContainerStatus::Updating,
    ] {
        rec.status = status;
        for net in [NetworkMode::Bridge, NetworkMode::Host, NetworkMode::Disabled] {
            rec.workload.network_mode = net;
            let doc = encode_record(&rec);
            assert_eq!(parse_record(&doc), Some(rec.clone()));
        }
    }
}

#[test]
fn roundtrip_handles_newlines_and_unicode_in_strings() {
    let mut rec = sample_record();
    rec.workload.name = "weird \n name\twith breaks".to_string();
    rec.workload.game_id = "hëllo wörld ünïcode".to_string();
    let doc = encode_record(&rec);
    assert_eq!(parse_record(&doc), Some(rec));
}

#[test]
fn truncated_documents_are_rejected() {
    let rec = sample_record();
    let doc = encode_record(&rec);
    let cut: String = doc.chars().take(doc.chars().count() - 3).collect();
    assert_eq!(parse_record(&cut), None);
    let padded = format!("{} trailing", doc);
    assert_eq!(parse_record(&padded), None);
    assert_eq!(parse_record(""), None);
    assert_eq!(parse_record("not a record"), None);
}

#[test]
fn roundtrip_handles_extreme_numbers() {
    let mut rec = sample_record();
    rec.workload.resource_limits = ResourceLimits {
        memory_mb: Some(u64::MAX),
        cpu_cores: Some(u32::MAX),
        disk_mb: Some(0),
        gpu_access: false,
    };
    rec.workload.created_at = u64::MAX;
    rec.last_used = Some(0);
    rec.size_mb = Some(u64::MAX);
    let doc = encode_record(&rec);
    assert_eq!(parse_record(&doc), Some(rec));
}

#[test]
fn roundtrip_handles_empty_collections() {
    let mut rec = sample_record();
    rec.workload.graphics_layers = vec![];
    rec.workload.system_dependencies = vec![];
    rec.workload.environment_variables = vec![];
    rec.workload.mount_points = vec![];
    rec.workload.base_image.digest = None;
    rec.workload.id = String::new();
    let doc = encode_record(&rec);
    assert_eq!(parse_record(&doc), Some(rec));
}
