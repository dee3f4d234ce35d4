use capsule_run::capture::IoStats;
use capsule_run::cgroup::{leaf_path, limit_writes, usage_from_files};
use capsule_run::procfs::{
    find_cgroup2_mount, parse_cgroup_u64, parse_cpu_stat, parse_io_stat, parse_oom_killed,
    parse_proc_io,
};
use capsule_run::schema::ResourceLimits;

#[test]
fn test_parse_proc_io() {
    let content = b"rchar: 10\nwchar: 20\nsyscr: 5\nsyscw: 6\nread_bytes: 4096\nwrite_bytes: 8192\n";
    let stats = parse_proc_io(content);
    assert_eq!(
        stats,
        IoStats { read_bytes: 4096, write_bytes: 8192, read_calls: 5, write_calls: 6 }
    );
}

#[test]
fn test_parse_cpu_stat() {
    let content = b"usage_usec 123456\nuser_usec 100000\nsystem_usec 23456\n";
    assert_eq!(parse_cpu_stat(content), (123456, 100000, 23456));
    assert_eq!(parse_cpu_stat(b""), (0, 0, 0));
}

#[test]
fn test_parse_io_stat_sums_devices() {
    let content = b"8:0 rbytes=1000 wbytes=200 rios=10 wios=2\n8:16 rbytes=500 wbytes=300\n";
    assert_eq!(parse_io_stat(content), (1500, 500));
}

#[test]
fn test_parse_oom_killed() {
    assert!(parse_oom_killed(b"low 0\nhigh 0\nmax 3\noom 1\noom_kill 1\n"));
    assert!(!parse_oom_killed(b"low 0\noom 0\noom_kill 0\n"));
    assert!(!parse_oom_killed(b"low 0\n"));
}

#[test]
fn test_parse_cgroup_u64() {
    assert_eq!(parse_cgroup_u64(b"123456\n"), Some(123456));
    assert_eq!(parse_cgroup_u64(b"  42 \n"), Some(42));
    assert_eq!(parse_cgroup_u64(b"nan\n"), None);
}

#[test]
fn test_find_cgroup_mount() {
    let mounts = b"proc /proc proc rw 0 0\ncgroup2 /sys/fs/cgroup cgroup2 rw 0 0\n";
    assert_eq!(find_cgroup2_mount(mounts), Some(b"/sys/fs/cgroup".to_vec()));
    assert_eq!(find_cgroup2_mount(b"proc /proc proc rw 0 0\n"), None);
}

#[test]
fn test_cgroup_manager_creation() {
    let id = "0e3af3b2-9d7c-4c3a-8f21-0123456789ab";
    let path = leaf_path(b"/sys/fs/cgroup", id);
    let text = String::from_utf8(path).unwrap();
    assert!(text.contains(id));
    assert_eq!(text, format!("/sys/fs/cgroup/capsule-run/{}", id));
}

#[test]
fn test_limit_writes_clamp() {
    let limits = ResourceLimits {
        memory_bytes: 10_485_760,
        cpu_shares: 10_240,
        max_output_bytes: 1000,
        max_pids: 16,
    };
    let writes = limit_writes(&limits);
    assert_eq!(writes.len(), 6);
    assert_eq!(writes[0].file, b"memory.max".to_vec());
    assert_eq!(writes[0].content, b"10485760".to_vec());
    assert_eq!(writes[1].file, b"memory.swap.max".to_vec());
    assert_eq!(writes[1].content, b"0".to_vec());
    assert_eq!(writes[2].content, b"5242880".to_vec());
    // The requested weight exceeds the cgroup-v2 range and is clamped.
    assert_eq!(writes[3].file, b"cpu.weight".to_vec());
    assert_eq!(writes[3].content, b"10000".to_vec());
    assert_eq!(writes[4].content, b"16".to_vec());
    assert_eq!(writes[5].file, b"io.weight".to_vec());
    assert_eq!(writes[5].content, b"100".to_vec());
}

#[test]
fn test_usage_from_files() {
    let usage = usage_from_files(
        b"2048\n",
        b"usage_usec 900\nuser_usec 600\nsystem_usec 300\n",
        b"8:0 rbytes=7 wbytes=9\n",
    )
    .expect("usage");
    assert_eq!(usage.memory_bytes, 2048);
    assert_eq!(usage.cpu_time_us, 900);
    assert_eq!(usage.user_time_us, 600);
    assert_eq!(usage.kernel_time_us, 300);
    assert_eq!(usage.io_bytes_read, 7);
    assert_eq!(usage.io_bytes_written, 9);
    assert!(usage_from_files(b"junk", b"", b"").is_err());
}
