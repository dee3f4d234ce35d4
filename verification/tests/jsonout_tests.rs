use capsule_run::jsonout::{emit_response, parse_execution_id};
use capsule_run::schema::{ExecutionMetrics, ExecutionResponse};
use capsule_run::supervisor::signal_response;

#[test]
fn test_response_round_trip() {
    // The emitted document parses back to a record whose execution_id
    // equals the one emitted.
    let metrics = ExecutionMetrics {
        wall_time_ms: 12,
        cpu_time_ms: 3,
        user_time_ms: 1,
        kernel_time_ms: 1,
        max_memory_bytes: 4096,
        io_bytes_read: 10,
        io_bytes_written: 20,
    };
    let r = ExecutionResponse::success(
        "0e3af3b2-9d7c-4c3a-8f21-0123456789ab".to_string(),
        0,
        "hello world\n".to_string(),
        String::new(),
        metrics,
        1700000000000,
        1700000000123,
    );
    let doc = emit_response(&r);
    let v: serde_json::Value = serde_json::from_slice(&doc).expect("well-formed document");
    assert_eq!(
        v["execution_id"].as_str(),
        Some("0e3af3b2-9d7c-4c3a-8f21-0123456789ab")
    );
    assert_eq!(v["status"].as_str(), Some("success"));
    assert_eq!(v["exit_code"].as_i64(), Some(0));
    assert_eq!(v["stdout"].as_str(), Some("hello world\n"));
    assert_eq!(v["metrics"]["wall_time_ms"].as_u64(), Some(12));
    assert!(v.get("error").is_none());

    let id = parse_execution_id(&doc).expect("identifier present");
    assert_eq!(id, b"0e3af3b2-9d7c-4c3a-8f21-0123456789ab".to_vec());
}

#[test]
fn test_error_document() {
    let r = signal_response("abc-123".to_string(), 9, 50, 60);
    let doc = emit_response(&r);
    let v: serde_json::Value = serde_json::from_slice(&doc).expect("well-formed document");
    assert_eq!(v["status"].as_str(), Some("error"));
    assert_eq!(v["error"]["code"].as_str(), Some("E3003"));
    assert_eq!(v["error"]["details"]["signal"].as_i64(), Some(9));
    assert_eq!(v["error"]["details"]["signal_name"].as_str(), Some("SIGKILL"));
    assert!(v.get("exit_code").is_none());
    assert!(v.get("stdout").is_none());
}

#[test]
fn test_escaping() {
    let r = ExecutionResponse::success(
        "x".to_string(),
        0,
        "say \"hi\"\\\n\u{1}".to_string(),
        String::new(),
        ExecutionMetrics {
            wall_time_ms: 0,
            cpu_time_ms: 0,
            user_time_ms: 0,
            kernel_time_ms: 0,
            max_memory_bytes: 0,
            io_bytes_read: 0,
            io_bytes_written: 0,
        },
        0,
        0,
    );
    let doc = emit_response(&r);
    let v: serde_json::Value = serde_json::from_slice(&doc).expect("well-formed document");
    assert_eq!(v["stdout"].as_str(), Some("say \"hi\"\\\n\u{1}"));
}

#[test]
fn test_timestamps_rendered() {
    let r = ExecutionResponse::timeout("t".to_string(), 100, 0, 250);
    let doc = emit_response(&r);
    let v: serde_json::Value = serde_json::from_slice(&doc).expect("well-formed document");
    assert_eq!(
        v["timestamps"]["started"].as_str(),
        Some("1970-01-01T00:00:00.000Z")
    );
    assert_eq!(
        v["timestamps"]["completed"].as_str(),
        Some("1970-01-01T00:00:00.250Z")
    );
    assert_eq!(v["error"]["details"]["timeout_ms"].as_u64(), Some(100));
    assert_eq!(v["error"]["details"]["elapsed_ms"].as_u64(), Some(250));
}
