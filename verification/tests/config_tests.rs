use capsule_run::config::{Config, ExecutionProfile};

#[test]
fn test_default_config() {
    let config = Config::default();
    assert_eq!(config.defaults.timeout_ms, 30_000);
    assert!(config.security.blocked_commands.is_some());
    assert!(config.monitoring.enabled);
}

#[test]
fn test_command_validation() {
    let config = Config::default();

    assert!(!config.validate_command(&["rm".to_string(), "-rf".to_string()]));

    assert!(config.validate_command(&["echo".to_string(), "hello".to_string()]));

    assert!(!config.validate_command(&[]));
}

#[test]
fn test_profile_merging() {
    let mut config = Config::default();

    let profile = ExecutionProfile {
        description: Some("Test profile".to_string()),
        timeout_ms: Some(60_000),
        resources: None,
        isolation: None,
        environment: None,
    };
    config.add_profile("test".to_string(), profile);

    let merged = config.clone().merge_with_profile(Some("test"));
    assert_eq!(merged.defaults.timeout_ms, 60_000);

    let merged = config.merge_with_profile(Some("nonexistent"));
    assert_eq!(merged.defaults.timeout_ms, 30_000);
}

#[test]
fn test_allow_list() {
    let mut config = Config::default();
    config.security.allowed_commands = Some(vec!["echo".to_string(), "cat".to_string()]);
    assert!(config.validate_command(&["echo".to_string()]));
    assert!(!config.validate_command(&["ls".to_string()]));
}

#[test]
fn test_get_profile_first_match() {
    let mut config = Config::default();
    let mk = |t: u64| ExecutionProfile {
        description: None,
        timeout_ms: Some(t),
        resources: None,
        isolation: None,
        environment: None,
    };
    config.add_profile("a".to_string(), mk(1));
    config.add_profile("a".to_string(), mk(2));
    let p = config.get_profile("a").expect("profile");
    assert_eq!(p.timeout_ms, Some(1));
    assert!(config.get_profile("b").is_none());
}
