use ghostforge::backend::{
    build_run_command, diagnose_runtime, generate_build_file, get_runtime_info, plan_build,
    BackendProbe, RuntimeBackendKind,
};
use ghostforge::errors::{ProvisionError, RemoveError};
use ghostforge::graphics::NvidiaFeatures;
use ghostforge::host::fresh_workload_id;
use ghostforge::manager::{BuildOutcome, SpawnOutcome, StoreAction, WorkloadLifecycleManager};
use ghostforge::policy::Game;
use ghostforge::registry::RuntimeRegistry;
use ghostforge::workload::{ContainerStatus, WorkloadRecord};

fn sample_game(name: &str) -> Game {
    Game {
        id: "game-1".to_string(),
        name: name.to_string(),
        executable: "/games/title/run.exe".to_string(),
        install_path: "/games/title".to_string(),
        launcher: None,
        launcher_id: None,
        wine_version: None,
        launch_arguments: vec![],
        environment_variables: vec![],
    }
}

fn no_gpu() -> NvidiaFeatures {
    NvidiaFeatures {
        available: false,
        gpu_name: None,
        driver_version: None,
        vram_mb: None,
        supports_rtx: false,
        supports_dlss: false,
        supports_nvapi: false,
        optimus_available: false,
    }
}

fn standard_manager() -> WorkloadLifecycleManager {
    let mut m = WorkloadLifecycleManager::new("/data".to_string());
    let probe = BackendProbe { gaming_optimized: false, rootless: false, standard: true };
    m.select_backend(&probe).expect("standard backend should be selected");
    m
}

fn ok_build() -> BuildOutcome {
    BuildOutcome { success: true, stderr: String::new() }
}

#[test]
fn gaming_optimized_wins_priority() {
    let mut reg = RuntimeRegistry::new();
    let probe = BackendProbe { gaming_optimized: true, rootless: false, standard: true };
    assert_eq!(reg.select_active(&probe), Ok(RuntimeBackendKind::GamingOptimized));
    let rootless_probe = BackendProbe { gaming_optimized: false, rootless: true, standard: true };
    assert_eq!(reg.refresh(&rootless_probe), Ok(RuntimeBackendKind::Rootless));
}

#[test]
fn no_backend_lists_all_candidates() {
    let mut m = WorkloadLifecycleManager::new("/data".to_string());
    let probe = BackendProbe { gaming_optimized: false, rootless: false, standard: false };
    assert!(m.select_backend(&probe).is_err());
    let game = sample_game("Any Game");
    let (r, act) =
        m.create_and_build(&game, &no_gpu(), None, &None, "w-1".to_string(), 5, &ok_build());
    match r {
        Err(ProvisionError::BackendUnavailable { candidates }) => {
            assert_eq!(candidates, vec!["GamingOptimized", "Rootless", "Standard"]);
        },
        other => panic!("expected BackendUnavailable, got {:?}", other),
    }
    assert!(act.is_none());
    assert!(m.records.is_empty());
}

#[test]
fn gaming_backend_fails_clearly_when_not_linked() {
    let mut m = WorkloadLifecycleManager::new("/data".to_string());
    let probe = BackendProbe { gaming_optimized: true, rootless: true, standard: true };
    m.select_backend(&probe).unwrap();
    let game = sample_game("Any Game");
    let (r, _) =
        m.create_and_build(&game, &no_gpu(), None, &None, "w-2".to_string(), 5, &ok_build());
    assert_eq!(r, Err(ProvisionError::BackendNotLinked));
    assert!(m.records.is_empty());
}

#[test]
fn failed_build_inserts_nothing() {
    let mut m = standard_manager();
    let game = sample_game("Any Game");
    let bad = BuildOutcome { success: false, stderr: "no space left".to_string() };
    let (r, act) = m.create_and_build(&game, &no_gpu(), None, &None, "w-3".to_string(), 5, &bad);
    assert_eq!(r, Err(ProvisionError::BuildFailed { stderr: "no space left".to_string() }));
    assert!(act.is_none());
    assert!(m.records.is_empty());
    assert!(m.store_docs.is_empty());
}

#[test]
fn successful_build_inserts_stopped_record_and_persists() {
    let mut m = standard_manager();
    let game = sample_game("Any Game");
    let (r, act) =
        m.create_and_build(&game, &no_gpu(), None, &None, "w-4".to_string(), 5, &ok_build());
    assert_eq!(r, Ok("w-4".to_string()));
    assert_eq!(m.records.len(), 1);
    assert_eq!(m.records[0].status, ContainerStatus::Stopped);
    assert_eq!(m.records[0].last_used, None);
    match act {
        Some(StoreAction::Write { id, document }) => {
            assert_eq!(id, "w-4");
            assert_eq!(ghostforge::store::parse_record(&document), Some(m.records[0].clone()));
        },
        other => panic!("expected a store write, got {:?}", other),
    }
}

#[test]
fn duplicate_id_is_rejected() {
    let mut m = standard_manager();
    let game = sample_game("Any Game");
    let (r1, _) =
        m.create_and_build(&game, &no_gpu(), None, &None, "w-5".to_string(), 5, &ok_build());
    assert!(r1.is_ok());
    let (r2, _) =
        m.create_and_build(&game, &no_gpu(), None, &None, "w-5".to_string(), 6, &ok_build());
    assert_eq!(r2, Err(ProvisionError::DuplicateId));
    assert_eq!(m.records.len(), 1);
}

#[test]
fn workload_ids_are_fresh_uuids() {
    let a = fresh_workload_id();
    let b = fresh_workload_id();
    assert_ne!(a, b);
    for id in [&a, &b] {
        let chars: Vec<char> = id.chars().collect();
        assert_eq!(chars.len(), 36);
        assert_eq!(chars[8], '-');
        assert_eq!(chars[13], '-');
        assert_eq!(chars[18], '-');
        assert_eq!(chars[23], '-');
        assert_eq!(chars[14], '4');
        assert!(matches!(chars[19], '8' | '9' | 'a' | 'b'));
    }
    let mut m = standard_manager();
    let game = sample_game("Same Name");
    let (r1, _) = m.create_and_build(&game, &no_gpu(), None, &None, a.clone(), 5, &ok_build());
    let (r2, _) = m.create_and_build(&game, &no_gpu(), None, &None, b.clone(), 5, &ok_build());
    assert_eq!(r1, Ok(a));
    assert_eq!(r2, Ok(b));
}

#[test]
fn remove_twice_reports_not_found_and_leaves_no_file() {
    let mut m = standard_manager();
    let game = sample_game("Any Game");
    let (r, _) =
        m.create_and_build(&game, &no_gpu(), None, &None, "w-6".to_string(), 5, &ok_build());
    assert!(r.is_ok());
    let (first, act, cmd) = m.remove("w-6");
    assert_eq!(first, Ok(()));
    assert_eq!(act, Some(StoreAction::Delete { id: "w-6".to_string() }));
    assert_eq!(
        cmd,
        Some(vec!["docker".to_string(), "rmi".to_string(), "ghostforge-w-6".to_string()])
    );
    assert!(m.store_docs.iter().all(|d| d.0 != "w-6"));
    let (second, act2, cmd2) = m.remove("w-6");
    assert_eq!(second, Err(RemoveError::NotFound));
    assert!(act2.is_none());
    assert!(cmd2.is_none());
    assert!(m.store_docs.iter().all(|d| d.0 != "w-6"));
}

#[test]
fn launch_stop_transitions_follow_state_machine() {
    let mut m = standard_manager();
    let game = sample_game("Any Game");
    m.create_and_build(&game, &no_gpu(), None, &None, "w-7".to_string(), 5, &ok_build())
        .0
        .unwrap();
    let args = m
        .run_arguments("w-7", "wine", &vec!["run.exe".to_string()])
        .expect("stopped workload should be launchable");
    assert_eq!(args[0], "docker");
    assert_eq!(args[1], "run");
    assert_eq!(args.last().unwrap(), "run.exe");
    let spawn = SpawnOutcome { success: true, pid: 4242, detail: String::new() };
    let (launched, act) = m.launch("w-7", 100, &spawn);
    assert_eq!(launched, Ok(4242));
    assert!(act.is_some());
    assert_eq!(m.records[0].status, ContainerStatus::Running);
    assert_eq!(m.records[0].last_used, Some(100));
    let (removed, _, _) = m.remove("w-7");
    assert_eq!(removed, Err(RemoveError::WorkloadRunning));
    let (stopped, act2) = m.stop("w-7", true, "");
    assert_eq!(stopped, Ok(()));
    assert!(act2.is_some());
    assert_eq!(m.records[0].status, ContainerStatus::Stopped);
}

#[test]
fn supervisor_exit_marks_error_on_abnormal_exit() {
    let mut m = standard_manager();
    let game = sample_game("Any Game");
    m.create_and_build(&game, &no_gpu(), None, &None, "w-8".to_string(), 5, &ok_build())
        .0
        .unwrap();
    let spawn = SpawnOutcome { success: true, pid: 1, detail: String::new() };
    m.launch("w-8", 100, &spawn).0.unwrap();
    let act = m.handle_exit("w-8", false, "exit code 139");
    assert!(act.is_some());
    assert_eq!(m.records[0].status, ContainerStatus::Error("exit code 139".to_string()));
    assert!(m.handle_exit("w-8", true, "").is_none());
}

#[test]
fn cleanup_respects_the_age_boundary() {
    let mut m = standard_manager();
    let game = sample_game("Any Game");
    let now: u64 = 10_000_000;
    let week: u64 = 7 * 24 * 3600;
    for (id, used) in [("old", Some(now - week - 1)), ("fresh", Some(now - week + 3600)),
        ("unused", None)] {
        m.create_and_build(&game, &no_gpu(), None, &None, id.to_string(), 1, &ok_build())
            .0
            .unwrap();
        let k = m.records.len() - 1;
        if let Some(t) = used {
            let spawn = SpawnOutcome { success: true, pid: 1, detail: String::new() };
            m.launch(id, t, &spawn).0.unwrap();
            m.stop(id, true, "").0.unwrap();
        }
        assert_eq!(m.records[k].last_used, used);
    }
    let (report, actions) = m.cleanup_older_than(now, week);
    assert_eq!(report.removed, vec!["old".to_string(), "unused".to_string()]);
    assert!(report.failed.is_empty());
    assert_eq!(actions.len(), 2);
    assert_eq!(m.records.len(), 1);
    assert_eq!(m.records[0].workload.id, "fresh");
}

#[test]
fn cleanup_keeps_running_workloads_as_failures() {
    let mut m = standard_manager();
    let game = sample_game("Any Game");
    m.create_and_build(&game, &no_gpu(), None, &None, "busy".to_string(), 1, &ok_build())
        .0
        .unwrap();
    let spawn = SpawnOutcome { success: true, pid: 1, detail: String::new() };
    m.launch("busy", 10, &spawn).0.unwrap();
    let (report, actions) = m.cleanup_older_than(1_000_000, 10);
    assert!(report.removed.is_empty());
    assert_eq!(report.failed.len(), 1);
    assert_eq!(report.failed[0].0, "busy");
    assert!(actions.is_empty());
    assert_eq!(m.records.len(), 1);
}

#[test]
fn load_repopulates_from_documents() {
    let mut m = standard_manager();
    let game = sample_game("Any Game");
    m.create_and_build(&game, &no_gpu(), None, &None, "w-9".to_string(), 5, &ok_build())
        .0
        .unwrap();
    let doc = match &m.store_docs[0] {
        (_, d) => d.clone(),
    };
    let record: WorkloadRecord = m.records[0].clone();
    let mut fresh = WorkloadLifecycleManager::new("/data".to_string());
    fresh.load(&vec![doc, "garbage that does not parse".to_string()]);
    assert_eq!(fresh.records.len(), 1);
    assert_eq!(fresh.records[0], record);
}

#[test]
fn run_command_vector_is_fully_deterministic() {
    let mut m = standard_manager();
    let mut game = sample_game("Apex Legends");
    game.environment_variables = vec![("MY_VAR".to_string(), "7".to_string())];
    m.create_and_build(&game, &no_gpu(), None, &None, "w-10".to_string(), 5, &ok_build())
        .0
        .unwrap();
    let args = m.run_arguments("w-10", "wine", &vec!["run.exe".to_string()]).unwrap();
    let expected_prefix =
        vec!["docker", "run", "--rm", "--interactive", "--tty", "--memory=4096m"];
    assert_eq!(&args[..6], &expected_prefix.iter().map(|s| s.to_string()).collect::<Vec<_>>()[..]);
    assert!(args.contains(&"--volume".to_string()));
    assert!(args.contains(&"/games/title:/game:ro".to_string()));
    assert!(args.contains(&"--env".to_string()));
    assert!(args.contains(&"MY_VAR=7".to_string()));
    assert!(args.contains(&"--network=host".to_string()));
    assert!(args.contains(&"ghostforge-w-10".to_string()));
    let image_pos = args.iter().position(|a| a == "ghostforge-w-10").unwrap();
    assert_eq!(args[image_pos + 1], "wine");
    assert_eq!(args[image_pos + 2], "run.exe");
}

#[test]
fn build_plan_materializes_the_context() {
    let game = sample_game("Any Game");
    let spec = ghostforge::policy::build_workload_spec(
        &game,
        &no_gpu(),
        None,
        &None,
        "/data",
        "w-11".to_string(),
        5,
    )
    .unwrap();
    let plan = plan_build(&spec, &RuntimeBackendKind::Rootless, "/data").unwrap();
    assert_eq!(plan.context_dir, "/data/w-11");
    assert_eq!(
        plan.command,
        vec!["podman", "build", "-t", "ghostforge-w-11", "/data/w-11"]
            .into_iter()
            .map(String::from)
            .collect::<Vec<String>>()
    );
    let file = generate_build_file(&spec);
    assert!(file.starts_with("FROM ghcr.io/ghostforge/gaming-base\n"));
    assert!(file.contains("    wine \\\n"));
    assert!(file.contains("ENV WINE_VERSION=GE-Proton8-26\n"));
    assert!(file.ends_with("WORKDIR /game\n"));
    assert_eq!(
        plan_build(&spec, &RuntimeBackendKind::GamingOptimized, "/data"),
        Err(ProvisionError::BackendNotLinked)
    );
    assert_eq!(
        build_run_command(&spec, &RuntimeBackendKind::GamingOptimized, "wine", &vec![]),
        Err(ghostforge::errors::LaunchError::BackendNotLinked)
    );
}

#[test]
fn runtime_info_reports_availability() {
    let probe = BackendProbe { gaming_optimized: false, rootless: true, standard: true };
    let info = get_runtime_info(&RuntimeBackendKind::Rootless, &probe);
    assert_eq!(info.current_runtime, "Podman");
    assert_eq!(info.available_runtimes, vec!["Podman (rootless)", "Docker (compatible)"]);
    assert_eq!(info.recommendations, vec!["Install Bolt for optimal gaming performance"]);
    assert!(!info.bolt_optimized);
}

#[test]
fn diagnostics_extract_versions() {
    let d = diagnose_runtime(
        &RuntimeBackendKind::Rootless,
        Some("Client:\nVersion:      4.9.3\nAPI Version: 4.9.3\n"),
    );
    assert_eq!(d.runtime_type, "Podman");
    assert_eq!(d.version, "Version:      4.9.3");
    assert_eq!(d.features, vec!["Rootless containers", "OCI compatible"]);
    let docker = diagnose_runtime(&RuntimeBackendKind::Standard, Some("Docker version 24.0.5\n"));
    assert_eq!(docker.version, "Docker version 24.0.5");
    let missing = diagnose_runtime(&RuntimeBackendKind::Standard, None);
    assert_eq!(missing.version, "Unknown");
    assert_eq!(missing.issues, vec!["Docker not installed"]);
}

#[test]
fn clock_reports_a_plausible_time() {
    let t = ghostforge::host::now_unix_seconds();
    assert!(t > 1_000_000_000);
}

#[test]
fn cleanup_retains_a_workload_used_exactly_at_the_cutoff() {
    let mut m = standard_manager();
    let game = sample_game("Any Game");
    let now: u64 = 20_000_000;
    let week: u64 = 7 * 24 * 3600;
    m.create_and_build(&game, &no_gpu(), None, &None, "edge".to_string(), 1, &ok_build())
        .0
        .unwrap();
    let spawn = SpawnOutcome { success: true, pid: 1, detail: String::new() };
    m.launch("edge", now - week, &spawn).0.unwrap();
    m.stop("edge", true, "").0.unwrap();
    let (report, _) = m.cleanup_older_than(now, week);
    assert!(report.removed.is_empty());
    assert_eq!(m.records.len(), 1);
}

#[test]
fn gaming_capsule_follows_runtime_then_image() {
    let game = sample_game("Any Game");
    let spec = ghostforge::policy::build_workload_spec(
        &game,
        &no_gpu(),
        None,
        &None,
        "/data",
        "w-12".to_string(),
        5,
    )
    .unwrap();
    assert_eq!(ghostforge::backend::determine_gaming_capsule(&spec), "proton-ge");
    let mut plain = spec.clone();
    plain.runtime_version = "wine-9.0".to_string();
    assert_eq!(ghostforge::backend::determine_gaming_capsule(&plain), "wine-base");
    plain.base_image.name = "ghcr.io/ghostforge/gaming-nvidia".to_string();
    assert_eq!(ghostforge::backend::determine_gaming_capsule(&plain), "wine-nvidia");
}

#[test]
fn load_keeps_the_first_document_per_id() {
    let mut m = standard_manager();
    let game = sample_game("Any Game");
    m.create_and_build(&game, &no_gpu(), None, &None, "w-13".to_string(), 5, &ok_build())
        .0
        .unwrap();
    let first_doc = m.store_docs[0].1.clone();
    let first_record = m.records[0].clone();
    let mut renamed = first_record.clone();
    renamed.workload.name = "another-name".to_string();
    let second_doc = ghostforge::store::encode_record(&renamed);
    let mut fresh = WorkloadLifecycleManager::new("/data".to_string());
    fresh.load(&vec![first_doc, second_doc]);
    assert_eq!(fresh.records.len(), 1);
    assert_eq!(fresh.records[0], first_record);
}
