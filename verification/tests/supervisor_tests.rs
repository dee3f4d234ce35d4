use capsule_run::capture::{IoEvent, IoStats, StreamAccumulator};
use capsule_run::error::{CapsuleError, SandboxError};
use capsule_run::monitor::{MonitorState, MonitoringResult, ResourceUsage};
use capsule_run::schema::{ErrorDetail, ExecutionResponse, ExecutionStatus};
use capsule_run::supervisor::{
    compose_metrics, conclude_exit, decide_tick, failure_response, oom_response,
    process_exit_code, signal_name, signal_response, TickDecision, TickObservation, WaitOutcome,
};

fn usage(memory: u64, cpu: u64) -> ResourceUsage {
    ResourceUsage {
        memory_bytes: memory,
        cpu_time_us: cpu,
        user_time_us: cpu / 2,
        kernel_time_us: cpu / 2,
        io_bytes_read: 1024,
        io_bytes_written: 512,
    }
}

#[test]
fn test_monitor_peak_tracking() {
    let mut state = MonitorState::new();
    state.observe(usage(1024 * 1024, 1000));
    state.observe(usage(512, 2000));
    assert_eq!(state.max_memory, 1024 * 1024);
    assert_eq!(state.latest_cpu_us, 2000);
    state.note_oom(false);
    assert!(!state.oom_killed);
    state.note_oom(true);
    state.note_oom(false);
    assert!(state.oom_killed);
    let result = state.finish(75);
    assert_eq!(
        result,
        MonitoringResult {
            peak_memory: 1024 * 1024,
            total_cpu_time: 2000,
            user_time_us: 1000,
            kernel_time_us: 1000,
            max_io_read: 1024,
            max_io_written: 512,
            wall_time_ms: 75,
            oom_killed: true,
        }
    );
}

#[test]
fn test_tick_timeout_first() {
    // The deadline beats a simultaneous exit, and a simultaneous oom.
    let obs = TickObservation {
        elapsed_ms: 1,
        wait: WaitOutcome::Exited { code: 0, signal: None },
        oom: true,
    };
    assert_eq!(decide_tick(1, obs), TickDecision::DeadlinePassed);
}

#[test]
fn test_tick_oom_beats_exit() {
    let obs = TickObservation {
        elapsed_ms: 10,
        wait: WaitOutcome::Exited { code: 0, signal: None },
        oom: true,
    };
    assert_eq!(decide_tick(5000, obs), TickDecision::OomKilled);
}

#[test]
fn test_tick_signal_beats_code() {
    let obs = TickObservation {
        elapsed_ms: 10,
        wait: WaitOutcome::Exited { code: 0, signal: Some(9) },
        oom: false,
    };
    assert_eq!(decide_tick(5000, obs), TickDecision::Signaled(9));
}

#[test]
fn test_tick_running_proceeds() {
    let obs = TickObservation { elapsed_ms: 10, wait: WaitOutcome::StillRunning, oom: false };
    assert_eq!(decide_tick(5000, obs), TickDecision::Proceed);
}

#[test]
fn test_signal_names() {
    assert_eq!(signal_name(9), "SIGKILL");
    assert_eq!(signal_name(15), "SIGTERM");
    assert_eq!(signal_name(11), "SIGSEGV");
    assert_eq!(signal_name(99), "UNKNOWN");
}

#[test]
fn test_timeout_response_shape() {
    // A command held to one millisecond that spins: status timeout, stable code.
    let r = ExecutionResponse::timeout("id-1".to_string(), 1, 1000, 1002);
    assert_eq!(r.status, ExecutionStatus::Timeout);
    let e = r.error.expect("error record");
    assert_eq!(e.code, "E3001");
    assert!(r.metrics.is_none());
    assert_eq!(e.details, Some(ErrorDetail::Timeout { timeout_ms: 1, elapsed_ms: 2 }));
}

#[test]
fn test_signal_response_shape() {
    let r = signal_response("id-2".to_string(), 9, 5, 6);
    assert_eq!(r.status, ExecutionStatus::Error);
    let e = r.error.expect("error record");
    assert_eq!(e.code, "E3003");
    match e.details {
        Some(ErrorDetail::Signal { signal, signal_name }) => {
            assert_eq!(signal, 9);
            assert_eq!(signal_name, "SIGKILL");
        }
        _ => panic!("expected signal details"),
    }
}

#[test]
fn test_oom_response_shape() {
    // A 10 MiB limit breached: stable code and the limit in the details.
    let r = oom_response("id-3".to_string(), 10_485_760, 5, 9);
    assert_eq!(r.status, ExecutionStatus::Error);
    let e = r.error.expect("error record");
    assert_eq!(e.code, "E4002");
    assert_eq!(e.details, Some(ErrorDetail::MemoryLimit { memory_limit: 10_485_760 }));
}

#[test]
fn test_setup_failure_response() {
    let err = CapsuleError::SandboxSetup(SandboxError::CgroupSetup("cgroups v2 not mounted".to_string()));
    let r = failure_response("id-4".to_string(), err, 1, 2);
    assert_eq!(r.status, ExecutionStatus::Error);
    assert_eq!(r.error.expect("error record").code, "E2002");
}

fn filled(cap: usize, bytes: &[u8]) -> StreamAccumulator {
    let mut acc = StreamAccumulator::new(cap);
    if !bytes.is_empty() {
        let _ = acc.push_chunk(bytes);
    }
    acc
}

#[test]
fn test_conclude_exit_success() {
    let monitoring = MonitoringResult {
        peak_memory: 2048,
        total_cpu_time: 9000,
        user_time_us: 6000,
        kernel_time_us: 3000,
        max_io_read: 11,
        max_io_written: 22,
        wall_time_ms: 40,
        oom_killed: false,
    };
    let io = IoStats::default();
    let r = conclude_exit(
        "id-5".to_string(),
        0,
        filled(1024, b"hello world\n"),
        StreamAccumulator::new(1024),
        1024,
        monitoring,
        io,
        100,
        140,
    );
    assert_eq!(r.status, ExecutionStatus::Success);
    assert_eq!(r.exit_code, Some(0));
    assert_eq!(r.stdout.as_deref(), Some("hello world\n"));
    assert_eq!(r.stderr.as_deref(), Some(""));
    let m = r.metrics.expect("metrics");
    assert_eq!(m.wall_time_ms, 40);
    assert_eq!(m.cpu_time_ms, 9);
    assert_eq!(m.user_time_ms, 6);
    assert_eq!(m.kernel_time_ms, 3);
    assert_eq!(m.max_memory_bytes, 2048);
    assert_eq!(m.io_bytes_read, 11);
    assert_eq!(m.io_bytes_written, 22);
    assert!(r.error.is_none());
}

#[test]
fn test_conclude_exit_output_limit() {
    // A 100-byte cap with a thousand bytes on one stream: the capture latch
    // carries the breach to the conclusion as the stable size code, even
    // though the buffer itself kept at most the cap.
    let monitoring = MonitoringResult {
        peak_memory: 0,
        total_cpu_time: 0,
        user_time_us: 0,
        kernel_time_us: 0,
        max_io_read: 0,
        max_io_written: 0,
        wall_time_ms: 0,
        oom_killed: false,
    };
    let io = IoStats::default();
    let stdout = filled(100, &vec![b'x'; 1000]);
    assert!(stdout.failed.is_some());
    let r = conclude_exit(
        "id-6".to_string(),
        0,
        stdout,
        StreamAccumulator::new(100),
        100,
        monitoring,
        io,
        0,
        1,
    );
    assert_eq!(r.status, ExecutionStatus::Error);
    let e = r.error.expect("error record");
    assert_eq!(e.code, "E3006");
    assert_eq!(e.message, "Output exceeded size limit of 100 bytes");
    assert!(r.exit_code.is_none());
    assert!(r.stdout.is_none());
}

#[test]
fn test_conclude_exit_combined_limit() {
    // Each stream within its own cap, but the pair over the combined cap.
    let monitoring = MonitoringResult {
        peak_memory: 0,
        total_cpu_time: 0,
        user_time_us: 0,
        kernel_time_us: 0,
        max_io_read: 0,
        max_io_written: 0,
        wall_time_ms: 0,
        oom_killed: false,
    };
    let r = conclude_exit(
        "id-6b".to_string(),
        0,
        filled(100, &[b'a'; 60]),
        filled(100, &[b'b'; 60]),
        100,
        monitoring,
        IoStats::default(),
        0,
        1,
    );
    assert_eq!(r.status, ExecutionStatus::Error);
    assert_eq!(r.error.expect("error record").code, "E3006");
}

#[test]
fn test_conclude_exit_read_failure() {
    // A failed stream read surfaces as the capture error, not as success.
    let monitoring = MonitoringResult {
        peak_memory: 0,
        total_cpu_time: 0,
        user_time_us: 0,
        kernel_time_us: 0,
        max_io_read: 0,
        max_io_written: 0,
        wall_time_ms: 0,
        oom_killed: false,
    };
    let mut stderr = StreamAccumulator::new(100);
    let _ = stderr.apply_event(IoEvent::Error("pipe gone".to_string()));
    let r = conclude_exit(
        "id-6c".to_string(),
        0,
        StreamAccumulator::new(100),
        stderr,
        100,
        monitoring,
        IoStats::default(),
        0,
        1,
    );
    assert_eq!(r.status, ExecutionStatus::Error);
    let e = r.error.expect("error record");
    assert_eq!(e.code, "E3004");
    assert_eq!(e.message, "stream capture failed: pipe gone");
}

#[test]
fn test_compose_metrics_formula() {
    let monitoring = MonitoringResult {
        peak_memory: 7,
        total_cpu_time: 5000,
        user_time_us: 3000,
        kernel_time_us: 2000,
        max_io_read: 0,
        max_io_written: 0,
        wall_time_ms: 0,
        oom_killed: false,
    };
    // With no monitored I/O, the per-process counters stand in.
    let io = IoStats { read_bytes: 1, write_bytes: 2, read_calls: 0, write_calls: 0 };
    let m = compose_metrics(monitoring, io, 123);
    assert_eq!(m.wall_time_ms, 123);
    assert_eq!(m.cpu_time_ms, 5);
    assert_eq!(m.user_time_ms, 3);
    assert_eq!(m.kernel_time_ms, 2);
    assert_eq!(m.io_bytes_read, 1);
    assert_eq!(m.io_bytes_written, 2);
    // With monitored cgroup I/O present, it is preferred.
    let mut with_io = monitoring;
    with_io.max_io_read = 70;
    with_io.max_io_written = 80;
    let m = compose_metrics(with_io, io, 123);
    assert_eq!(m.io_bytes_read, 70);
    assert_eq!(m.io_bytes_written, 80);
}

#[test]
fn test_conclude_terminal_decisions() {
    // Every terminal verdict yields exactly one well-formed response.
    let monitoring = MonitoringResult {
        peak_memory: 1,
        total_cpu_time: 2,
        user_time_us: 1,
        kernel_time_us: 1,
        max_io_read: 0,
        max_io_written: 0,
        wall_time_ms: 3,
        oom_killed: false,
    };
    let io = IoStats::default();
    let mk = |decision| {
        capsule_run::supervisor::conclude(
            "run".to_string(),
            decision,
            100,
            10_485_760,
            StreamAccumulator::new(1024),
            StreamAccumulator::new(1024),
            1024,
            monitoring,
            io,
            10,
            260,
        )
    };

    // A sleeping command held to a 100 ms deadline: timeout, no metrics.
    let r = mk(TickDecision::DeadlinePassed);
    assert_eq!(r.status, ExecutionStatus::Timeout);
    assert_eq!(r.error.as_ref().unwrap().code, "E3001");
    assert!(r.metrics.is_none());
    assert_eq!(r.timestamps.completed_ms - r.timestamps.started_ms, 250);

    let r = mk(TickDecision::OomKilled);
    assert_eq!(r.error.as_ref().unwrap().code, "E4002");

    let r = mk(TickDecision::Signaled(15));
    assert_eq!(r.error.as_ref().unwrap().code, "E3003");

    let r = mk(TickDecision::WaitError("gone".to_string()));
    assert_eq!(r.error.as_ref().unwrap().code, "E3005");

    let r = mk(TickDecision::Exited(3));
    assert_eq!(r.status, ExecutionStatus::Success);
    assert_eq!(r.exit_code, Some(3));
}

#[test]
fn test_process_exit_codes() {
    let timeout = ExecutionResponse::timeout("t".to_string(), 1, 0, 1);
    assert_eq!(process_exit_code(&timeout), 124);
    let errored = oom_response("o".to_string(), 1, 0, 1);
    assert_eq!(process_exit_code(&errored), 1);
    let monitoring = MonitoringResult {
        peak_memory: 0,
        total_cpu_time: 0,
        user_time_us: 0,
        kernel_time_us: 0,
        max_io_read: 0,
        max_io_written: 0,
        wall_time_ms: 0,
        oom_killed: false,
    };
    let success = conclude_exit(
        "s".to_string(),
        7,
        StreamAccumulator::new(10),
        StreamAccumulator::new(10),
        10,
        monitoring,
        IoStats::default(),
        0,
        1,
    );
    assert_eq!(process_exit_code(&success), 7);
}
