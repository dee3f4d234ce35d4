use capsule_run::cli::{parse_bind_mount, parse_size};

#[test]
fn test_parse_size() {
    assert_eq!(parse_size("1024").unwrap(), 1024);
    assert_eq!(parse_size("1K").unwrap(), 1024);
    assert_eq!(parse_size("1M").unwrap(), 1024 * 1024);
    assert_eq!(parse_size("1G").unwrap(), 1024 * 1024 * 1024);
    assert_eq!(parse_size("256m").unwrap(), 256 * 1024 * 1024);
}

#[test]
fn test_parse_bind_mount() {
    let bind = parse_bind_mount("/host/path:/container/path").unwrap();
    assert_eq!(bind.source, "/host/path");
    assert_eq!(bind.destination, "/container/path");
    assert!(bind.readonly);

    let bind = parse_bind_mount("/host/path:/container/path:rw").unwrap();
    assert_eq!(bind.source, "/host/path");
    assert_eq!(bind.destination, "/container/path");
    assert!(!bind.readonly);

    let bind = parse_bind_mount("/host/path:/container/path:ro").unwrap();
    assert!(bind.readonly);

    assert!(parse_bind_mount("/invalid").is_err());
    assert!(parse_bind_mount("/a:/b:/c:/d").is_err());
    assert!(parse_bind_mount("/a:/b:invalid").is_err());
}

#[test]
fn test_parse_size_rejects() {
    assert!(parse_size("").is_err());
    assert!(parse_size("  ").is_err());
    assert!(parse_size("12x").is_err());
    assert!(parse_size("-5").is_err());
    // A count whose scaled value exceeds the unsigned 64-bit range.
    assert!(parse_size("18014398509481984G").is_err());
    assert_eq!(parse_size(" 42 ").unwrap(), 42);
}
