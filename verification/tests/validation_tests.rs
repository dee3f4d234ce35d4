use capsule_run::schema::{EnvVar, IsolationConfig, ResourceLimits};
use capsule_run::validation::{
    is_safe_path, validate_command, validate_environment, validate_isolation, validate_path,
    validate_resources, validate_timeout,
};

#[test]
fn test_validate_command_empty() {
    let result = validate_command(&[]);
    assert!(result.is_err());
}

#[test]
fn test_validate_command_valid() {
    let result = validate_command(
        &["python".to_string(), "-c".to_string(), "print('hello')".to_string()],
    );
    assert!(result.is_ok());
}

#[test]
fn test_validate_command_null_byte() {
    let result = validate_command(&["python\0".to_string()]);
    assert!(result.is_err());
}

#[test]
fn test_validate_environment_valid() {
    let env = vec![EnvVar { name: "PATH".to_string(), value: "/usr/bin".to_string() }];
    let result = validate_environment(&env);
    assert!(result.is_ok());
}

#[test]
fn test_validate_environment_invalid_key() {
    let env = vec![EnvVar { name: "PATH=".to_string(), value: "/usr/bin".to_string() }];
    let result = validate_environment(&env);
    assert!(result.is_err());
}

#[test]
fn test_validate_path_dangerous() {
    let result = validate_path("/proc/sys/kernel", "Test path");
    assert!(result.is_err());
}

#[test]
fn test_validate_path_parent_dir() {
    let result = validate_path("/some/../path", "Test path");
    assert!(result.is_err());
}

#[test]
fn test_safe_path_rules() {
    assert!(is_safe_path("/usr/local/data"));
    assert!(!is_safe_path("/etc/shadow"));
    assert!(!is_safe_path("/home/someone"));
    assert!(!is_safe_path("/a/b/../c"));
    assert!(is_safe_path("/tmp"));
}

#[test]
fn test_validate_timeout_bounds() {
    assert!(validate_timeout(0).is_err());
    assert!(validate_timeout(1).is_ok());
    assert!(validate_timeout(600_000).is_ok());
    assert!(validate_timeout(600_001).is_err());
}

#[test]
fn test_validate_resources_bounds() {
    let good = ResourceLimits {
        memory_bytes: 268_435_456,
        cpu_shares: 1024,
        max_output_bytes: 1_048_576,
        max_pids: 100,
    };
    assert!(validate_resources(&good).is_ok());

    let mut r = good;
    r.memory_bytes = 1_048_575;
    assert!(validate_resources(&r).is_err());
    r.memory_bytes = 2_147_483_649;
    assert!(validate_resources(&r).is_err());

    let mut r = good;
    r.cpu_shares = 0;
    assert!(validate_resources(&r).is_err());
    r.cpu_shares = 10_241;
    assert!(validate_resources(&r).is_err());

    let mut r = good;
    r.max_output_bytes = 10_485_761;
    assert!(validate_resources(&r).is_err());

    let mut r = good;
    r.max_pids = 0;
    assert!(validate_resources(&r).is_err());
    r.max_pids = 1001;
    assert!(validate_resources(&r).is_err());
}

#[test]
fn test_validate_isolation_limits() {
    let mut iso = IsolationConfig::default();
    assert!(validate_isolation(&iso).is_ok());

    iso.readonly_paths = (0..30).map(|i| format!("/data{}", i)).collect();
    iso.writable_paths = (0..21).map(|i| format!("/scratch{}", i)).collect();
    assert!(validate_isolation(&iso).is_err());

    iso.writable_paths = vec!["/scratch".to_string()];
    assert!(validate_isolation(&iso).is_ok());

    iso.working_directory = "relative/path".to_string();
    assert!(validate_isolation(&iso).is_err());
}
