use capsule_run::error::{
    CapsuleError, ErrorCategory, ErrorCode, ExecutionError, SandboxError,
};
use capsule_run::clock::format_stamp;
use capsule_run::ident::new_execution_id;
use capsule_run::textutil::{contains_substring, parse_u64_dec, split_lines, u64_to_dec_bytes};

#[test]
fn test_error_code_new() {
    let code = ErrorCode::new("E1001", "bad request".to_string(), ErrorCategory::Configuration);
    assert_eq!(code.code, "E1001");
    assert_eq!(code.message, "bad request");
    assert_eq!(code.category, ErrorCategory::Configuration);
}

#[test]
fn test_error_code_mapping() {
    let cases: Vec<(CapsuleError, &str)> = vec![
        (CapsuleError::Config("x".to_string()), "E1001"),
        (
            CapsuleError::SandboxSetup(SandboxError::NamespaceCreation {
                namespace: "user".to_string(),
            }),
            "E2001",
        ),
        (CapsuleError::SandboxSetup(SandboxError::CgroupSetup("x".to_string())), "E2002"),
        (CapsuleError::SandboxSetup(SandboxError::SeccompSetup("x".to_string())), "E2003"),
        (CapsuleError::SandboxSetup(SandboxError::FilesystemSetup("x".to_string())), "E2004"),
        (CapsuleError::SandboxSetup(SandboxError::CapabilityDrop("x".to_string())), "E2005"),
        (CapsuleError::SandboxSetup(SandboxError::UserMapping("x".to_string())), "E2006"),
        (CapsuleError::Execution(ExecutionError::Timeout { timeout_ms: 9 }), "E3001"),
        (CapsuleError::Execution(ExecutionError::Signal { signal: -3 }), "E3002"),
        (CapsuleError::Execution(ExecutionError::SpawnFailed("x".to_string())), "E3003"),
        (CapsuleError::Execution(ExecutionError::IoCaptureError("x".to_string())), "E3004"),
        (CapsuleError::Execution(ExecutionError::MonitoringError("x".to_string())), "E3005"),
        (CapsuleError::Execution(ExecutionError::OutputSizeLimit { limit: 64 }), "E3006"),
        (CapsuleError::ResourceLimit("x".to_string()), "E4001"),
        (CapsuleError::Security("x".to_string()), "E5001"),
        (CapsuleError::Io("x".to_string()), "E6001"),
        (CapsuleError::Json("x".to_string()), "E6002"),
        (CapsuleError::Syscall("x".to_string()), "E6003"),
    ];
    for (err, want) in cases {
        assert_eq!(ErrorCode::from_error(err).code, want);
    }
}

#[test]
fn test_error_messages() {
    let code = ErrorCode::from_error(CapsuleError::Execution(ExecutionError::Timeout {
        timeout_ms: 1500,
    }));
    assert_eq!(code.message, "Command exceeded timeout limit of 1500ms");
    let code = ErrorCode::from_error(CapsuleError::Execution(ExecutionError::Signal {
        signal: -3,
    }));
    assert_eq!(code.message, "Command killed by signal -3");
    let code = ErrorCode::from_error(CapsuleError::SandboxSetup(
        SandboxError::NamespaceCreation { namespace: "user".to_string() },
    ));
    assert_eq!(code.message, "Failed to create user namespace");
}

#[test]
fn test_decimal_rendering() {
    assert_eq!(u64_to_dec_bytes(0), b"0".to_vec());
    assert_eq!(u64_to_dec_bytes(90217), b"90217".to_vec());
    assert_eq!(u64_to_dec_bytes(u64::MAX), b"18446744073709551615".to_vec());
}

#[test]
fn test_decimal_parsing() {
    assert_eq!(parse_u64_dec(b"0"), Some(0));
    assert_eq!(parse_u64_dec(b"90217"), Some(90217));
    assert_eq!(parse_u64_dec(b"18446744073709551615"), Some(u64::MAX));
    assert_eq!(parse_u64_dec(b"18446744073709551616"), None);
    assert_eq!(parse_u64_dec(b""), None);
    assert_eq!(parse_u64_dec(b"12a"), None);
}

#[test]
fn test_split_lines() {
    let lines = split_lines(b"a\nbc\n\nd");
    assert_eq!(lines, vec![b"a".to_vec(), b"bc".to_vec(), b"".to_vec(), b"d".to_vec()]);
    assert_eq!(split_lines(b""), Vec::<Vec<u8>>::new());
    assert_eq!(split_lines(b"x\n"), vec![b"x".to_vec()]);
}

#[test]
fn test_substring_search() {
    assert!(contains_substring(b"hello world", b"lo wo"));
    assert!(!contains_substring(b"hello", b"world"));
    assert!(contains_substring(b"abc", b""));
}

#[test]
fn test_identifier_shape() {
    let id = new_execution_id();
    assert_eq!(id.len(), 36);
    assert!(id.chars().all(|c| c.is_ascii_hexdigit() || c == '-'));
    assert_ne!(new_execution_id(), id);
}

#[test]
fn test_stamp_rendering() {
    assert_eq!(format_stamp(0), "1970-01-01T00:00:00.000Z");
    assert_eq!(format_stamp(1_700_000_000_123), "2023-11-14T22:13:20.123Z");
}
