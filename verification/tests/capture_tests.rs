use capsule_run::capture::{CapturedStreams, IoEvent, IoMonitor, IoStats, StreamAccumulator, lossy_string};
use capsule_run::error::{CapsuleError, ExecutionError};

#[test]
fn test_io_stats_creation() {
    let stats = IoStats::default();
    assert_eq!(stats.read_bytes, 0);
    assert_eq!(stats.write_bytes, 0);
}

#[test]
fn test_io_monitor_new() {
    let monitor = IoMonitor::new(42);
    assert_eq!(monitor.pid, 42);
    assert_eq!(monitor.last_stats, IoStats::default());
}

#[test]
fn test_io_monitor_record_delta() {
    let mut monitor = IoMonitor::new(1);
    let first = IoStats { read_bytes: 100, write_bytes: 50, read_calls: 4, write_calls: 2 };
    let d1 = monitor.record(first);
    assert_eq!(d1, first);
    let second = IoStats { read_bytes: 180, write_bytes: 45, read_calls: 6, write_calls: 2 };
    let d2 = monitor.record(second);
    assert_eq!(d2.read_bytes, 80);
    assert_eq!(d2.write_bytes, 0);
    assert_eq!(d2.read_calls, 2);
    assert_eq!(d2.write_calls, 0);
    assert_eq!(monitor.last_stats, second);
}

#[test]
fn test_accumulator_respects_cap() {
    let mut acc = StreamAccumulator::new(100);
    assert!(acc.push_chunk(&[7u8; 60]).is_ok());
    assert!(acc.failed.is_none());
    let over = acc.push_chunk(&[7u8; 41]);
    match over {
        Err(CapsuleError::Execution(ExecutionError::OutputSizeLimit { limit })) => {
            assert_eq!(limit, 100);
        }
        _ => panic!("expected the output-size error"),
    }
    assert_eq!(acc.data.len(), 60);
    // The breach stays latched even though later chunks fit.
    assert!(matches!(
        acc.failed,
        Some(ExecutionError::OutputSizeLimit { limit: 100 })
    ));
    assert!(acc.push_chunk(&[7u8; 40]).is_ok());
    assert_eq!(acc.data.len(), 100);
    assert!(acc.failed.is_some());
}

#[test]
fn test_apply_event() {
    let mut acc = StreamAccumulator::new(10);
    assert_eq!(acc.apply_event(IoEvent::Data(vec![1, 2, 3])).unwrap(), false);
    assert_eq!(acc.apply_event(IoEvent::Eof).unwrap(), true);
    assert_eq!(acc.data, vec![1, 2, 3]);
    assert!(acc.apply_event(IoEvent::Error("boom".to_string())).is_err());
    assert!(acc.apply_event(IoEvent::Data(vec![0u8; 8])).is_err());
}

#[test]
fn test_assemble_combined_cap() {
    let ok = CapturedStreams::assemble(vec![1u8; 60], vec![2u8; 40], 100);
    assert!(ok.is_ok());
    let over = CapturedStreams::assemble(vec![1u8; 61], vec![2u8; 40], 100);
    match over {
        Err(CapsuleError::Execution(ExecutionError::OutputSizeLimit { limit })) => {
            assert_eq!(limit, 100);
        }
        _ => panic!("expected the output-size error"),
    }
}

#[test]
fn test_lossy_decode() {
    assert_eq!(lossy_string(b"hello"), "hello");
    assert_eq!(lossy_string(&[0xff, 0x68]), "\u{fffd}h");
}
