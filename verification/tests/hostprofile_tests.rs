use capsule_run::hostprofile::{
    generate_sandbox_profile, oom_suspected, rlimit_plan, usage_from_rusage, MacOSResourceUsage,
    MacOSSandbox, ProcessLimits, RlimitKind, RlimitSetting,
};
use capsule_run::schema::{IsolationConfig, ResourceLimits};

#[test]
fn test_macos_sandbox_creation() {
    let sandbox = MacOSSandbox::new("run-9".to_string());
    assert_eq!(sandbox.execution_id, "run-9");
    assert!(sandbox.sandbox_profile.is_none());
    assert_eq!(sandbox.process_limits.max_file_descriptors, Some(1024));
    assert_eq!(sandbox.process_limits.max_processes, Some(64));
}

#[test]
fn test_sandbox_profile_generation() {
    let isolation = IsolationConfig {
        network: false,
        working_directory: "/tmp".to_string(),
        readonly_paths: vec!["/usr".to_string()],
        writable_paths: vec!["/tmp".to_string()],
        bind_mounts: vec![],
    };
    let mut sandbox = MacOSSandbox::new("run-10".to_string());
    sandbox.setup(&ResourceLimits {
        memory_bytes: 268_435_456,
        cpu_shares: 1024,
        max_output_bytes: 1_048_576,
        max_pids: 100,
    }, &isolation);
    assert!(sandbox.sandbox_profile.is_some());
    assert_eq!(sandbox.process_limits.max_memory_bytes, Some(268_435_456));
    assert_eq!(sandbox.process_limits.max_processes, Some(100));
    let stored = String::from_utf8(sandbox.sandbox_profile.unwrap()).unwrap();
    assert!(stored.contains("(deny network*)"));

    let profile = String::from_utf8(generate_sandbox_profile(&isolation)).unwrap();
    assert!(profile.contains("(deny network*)"));
    assert!(profile.contains("/tmp"));
    assert!(profile.contains("/usr"));
    assert!(profile.contains("(deny default)"));
    assert!(profile.starts_with("(version 1)\n"));

    let mut networked = isolation;
    networked.network = true;
    let profile = String::from_utf8(generate_sandbox_profile(&networked)).unwrap();
    assert!(profile.contains("(allow network*)"));
    assert!(!profile.contains("(deny network*)"));
}

#[test]
fn test_rlimit_plan() {
    let limits = ResourceLimits {
        memory_bytes: 1_048_576,
        cpu_shares: 1024,
        max_output_bytes: 1000,
        max_pids: 10,
    };
    let process = ProcessLimits {
        max_memory_bytes: Some(1_048_576),
        max_cpu_time_seconds: None,
        max_file_descriptors: Some(1024),
        max_processes: Some(64),
    };
    let plan = rlimit_plan(&limits, &process);
    assert_eq!(
        plan,
        vec![
            RlimitSetting { kind: RlimitKind::AddressSpace, value: 1_048_576 },
            RlimitSetting { kind: RlimitKind::OpenFiles, value: 1024 },
            RlimitSetting { kind: RlimitKind::Processes, value: 64 },
        ]
    );
}

#[test]
fn test_resource_usage() {
    let usage = usage_from_rusage(100, 2, 500_000, 1, 250_000, 8, 4);
    assert_eq!(usage.memory_bytes, 102_400);
    assert_eq!(usage.user_time_us, 2_500_000);
    assert_eq!(usage.kernel_time_us, 1_250_000);
    assert_eq!(usage.cpu_time_us, 3_750_000);
    assert_eq!(usage.io_bytes_read, 4096);
    assert_eq!(usage.io_bytes_written, 2048);
}

#[test]
fn test_oom_approximation() {
    let usage = MacOSResourceUsage {
        memory_bytes: 11,
        cpu_time_us: 0,
        user_time_us: 0,
        kernel_time_us: 0,
        io_bytes_read: 0,
        io_bytes_written: 0,
    };
    assert!(oom_suspected(&usage, Some(10)));
    // Use exactly at the limit already counts as running out.
    assert!(oom_suspected(&usage, Some(11)));
    assert!(!oom_suspected(&usage, Some(12)));
    assert!(!oom_suspected(&usage, None));
}
