//! The host sandbox for systems without kernel namespaces: a declarative
//! profile text, resource limits applied at spawn, and usage read from the
//! accounting the host gives.

use crate::schema::{IsolationConfig, ResourceLimits};
use crate::textutil::{ascii_bytes, lit_bytes};
use vstd::prelude::*;
use vstd::string::StringSliceAdditionalSpecFns;

verus! {

/// Limits applied to the child at spawn.
#[derive(Clone, Copy, Debug, PartialEq, Eq, Structural)]
pub struct ProcessLimits {
    pub max_memory_bytes: Option<u64>,
    pub max_cpu_time_seconds: Option<u64>,
    pub max_file_descriptors: Option<u32>,
    pub max_processes: Option<u32>,
}

/// A usage snapshot on the host, from child accounting.
#[derive(Clone, Copy, Debug, PartialEq, Eq, Structural)]
pub struct MacOSResourceUsage {
    pub memory_bytes: u64,
    pub cpu_time_us: u64,
    pub user_time_us: u64,
    pub kernel_time_us: u64,
    pub io_bytes_read: u64,
    pub io_bytes_written: u64,
}

/// One resource limit set in the child before it runs the command.
#[derive(Clone, Copy, Debug, PartialEq, Eq, Structural)]
pub enum RlimitKind {
    AddressSpace,
    OpenFiles,
    Processes,
}

#[derive(Clone, Copy, Debug, PartialEq, Eq, Structural)]
pub struct RlimitSetting {
    pub kind: RlimitKind,
    pub value: u64,
}

/// The subpath lines naming each path inside an allow block.
pub open spec fn subpath_lines(paths: Seq<Seq<char>>) -> Seq<u8>
    decreases paths.len(),
{
    if paths.len() == 0 {
        Seq::empty()
    } else {
        ascii_bytes("    (subpath \""@) + vstd::utf8::encode_utf8(paths[0]) + ascii_bytes(
            "\")\n"@,
        ) + subpath_lines(paths.drop_first())
    }
}

/// The profile's fixed opening: deny by default, allow process control, and
/// allow reading the system library roots and the standard streams.
pub open spec fn profile_base() -> Seq<char> {
    "(version 1)\n(deny default)\n(allow process-exec)\n(allow process-fork)\n(allow signal)\n(allow file-read*\n    (subpath \"/System\")\n    (subpath \"/usr/lib\")\n    (subpath \"/usr/share\")\n    (subpath \"/Library/Frameworks\")\n    (subpath \"/private/var/db/dyld\")\n)\n(allow file-read-data file-write-data\n    (literal \"/dev/null\")\n    (literal \"/dev/stdin\")\n    (literal \"/dev/stdout\")\n    (literal \"/dev/stderr\")\n)\n"@
}

/// The profile's fixed close: privileged operations stay denied.
pub open spec fn profile_trailer() -> Seq<char> {
    "(deny system-privilege)\n(deny system-audit)\n(deny system-socket)\n"@
}

/// The whole profile text for an isolation configuration: the fixed base;
/// write access under the writable paths; read access under the readonly
/// paths; full access under the working directory; the network allowed or
/// denied by the flag; and the fixed close.
pub open spec fn spec_profile(iso: IsolationConfig) -> Seq<u8> {
    ascii_bytes(profile_base()) + (if iso.writable_paths@.len() > 0 {
        ascii_bytes("(allow file*\n"@) + subpath_lines(
            iso.writable_paths@.map_values(|s: String| s@),
        ) + ascii_bytes(")\n"@)
    } else {
        Seq::empty()
    }) + (if iso.readonly_paths@.len() > 0 {
        ascii_bytes("(allow file-read*\n"@) + subpath_lines(
            iso.readonly_paths@.map_values(|s: String| s@),
        ) + ascii_bytes(")\n"@)
    } else {
        Seq::empty()
    }) + (if vstd::utf8::encode_utf8(iso.working_directory@).len() > 0 {
        ascii_bytes("(allow file* (subpath \""@) + vstd::utf8::encode_utf8(
            iso.working_directory@,
        ) + ascii_bytes("\"))\n"@)
    } else {
        Seq::empty()
    }) + (if iso.network {
        ascii_bytes("(allow network*)\n"@)
    } else {
        ascii_bytes("(deny network*)\n"@)
    }) + ascii_bytes(profile_trailer())
}

/// Appends bytes to a buffer.
fn append_bytes(out: &mut Vec<u8>, s: &[u8])
    ensures
        final(out)@ == old(out)@ + s@,
{
    let mut i: usize = 0;
    while i < s.len()
        invariant
            i <= s@.len(),
            out@ =~= old(out)@ + s@.subrange(0, i as int),
        decreases s@.len() - i,
    {
        out.push(s[i]);
        i = i + 1;
    }
    assert(out@ =~= old(out)@ + s@);
}

/// Appends an ASCII literal.
fn append_lit(out: &mut Vec<u8>, s: &str)
    requires
        s.is_ascii(),
    ensures
        final(out)@ == old(out)@ + ascii_bytes(s@),
{
    let b = lit_bytes(s);
    append_bytes(out, b);
}

/// Appends one subpath line for each path in the list.
fn append_subpath_lines(out: &mut Vec<u8>, paths: &Vec<String>)
    ensures
        final(out)@ == old(out)@ + subpath_lines(paths@.map_values(|s: String| s@)),
{
    proof {
        reveal_strlit("    (subpath \"");
        reveal_strlit("\")\n");
    }
    let ghost pv = paths@.map_values(|s: String| s@);
    proof {
        assert(pv.subrange(0, pv.len() as int) =~= pv);
    }
    let mut i: usize = 0;
    while i < paths.len()
        invariant
            i <= paths@.len(),
            pv == paths@.map_values(|s: String| s@),
            out@ + subpath_lines(pv.subrange(i as int, pv.len() as int)) == old(out)@
                + subpath_lines(pv),
        decreases paths@.len() - i,
    {
        let ghost rest = pv.subrange(i as int, pv.len() as int);
        let ghost before = out@;
        proof {
            reveal_strlit("    (subpath \"");
            reveal_strlit("\")\n");
            assert(rest[0] == pv[i as int]);
            assert(rest.drop_first() =~= pv.subrange(i + 1, pv.len() as int));
        }
        append_lit(out, "    (subpath \"");
        append_bytes(out, paths[i].as_str().as_bytes());
        append_lit(out, "\")\n");
        proof {
            assert(out@ =~= before + (ascii_bytes("    (subpath \""@) + vstd::utf8::encode_utf8(
                pv[i as int],
            ) + ascii_bytes("\")\n"@)));
            assert(out@ + subpath_lines(pv.subrange(i + 1, pv.len() as int)) =~= before
                + subpath_lines(rest));
        }
        i = i + 1;
    }
    proof {
        assert(subpath_lines(pv.subrange(pv.len() as int, pv.len() as int)) =~= Seq::<u8>::empty());
        assert(out@ =~= out@ + subpath_lines(pv.subrange(pv.len() as int, pv.len() as int)));
    }
}

/// Composes the whole profile text, matching `spec_profile`.
#[verifier::rlimit(100)]
pub fn generate_sandbox_profile(isolation: &IsolationConfig) -> (r: Vec<u8>)
    ensures
        r@ == spec_profile(*isolation),
{
    proof {
        reveal_strlit(
            "(version 1)\n(deny default)\n(allow process-exec)\n(allow process-fork)\n(allow signal)\n(allow file-read*\n    (subpath \"/System\")\n    (subpath \"/usr/lib\")\n    (subpath \"/usr/share\")\n    (subpath \"/Library/Frameworks\")\n    (subpath \"/private/var/db/dyld\")\n)\n(allow file-read-data file-write-data\n    (literal \"/dev/null\")\n    (literal \"/dev/stdin\")\n    (literal \"/dev/stdout\")\n    (literal \"/dev/stderr\")\n)\n",
        );
        reveal_strlit("(allow file*\n");
        reveal_strlit("(allow file-read*\n");
        reveal_strlit(")\n");
        reveal_strlit("(allow file* (subpath \"");
        reveal_strlit("\"))\n");
        reveal_strlit("(allow network*)\n");
        reveal_strlit("(deny network*)\n");
        reveal_strlit("(deny system-privilege)\n(deny system-audit)\n(deny system-socket)\n");
    }
    let mut out: Vec<u8> = Vec::new();
    append_lit(
        &mut out,
        "(version 1)\n(deny default)\n(allow process-exec)\n(allow process-fork)\n(allow signal)\n(allow file-read*\n    (subpath \"/System\")\n    (subpath \"/usr/lib\")\n    (subpath \"/usr/share\")\n    (subpath \"/Library/Frameworks\")\n    (subpath \"/private/var/db/dyld\")\n)\n(allow file-read-data file-write-data\n    (literal \"/dev/null\")\n    (literal \"/dev/stdin\")\n    (literal \"/dev/stdout\")\n    (literal \"/dev/stderr\")\n)\n",
    );
    if isolation.writable_paths.len() > 0 {
        append_lit(&mut out, "(allow file*\n");
        append_subpath_lines(&mut out, &isolation.writable_paths);
        append_lit(&mut out, ")\n");
    }
    if isolation.readonly_paths.len() > 0 {
        append_lit(&mut out, "(allow file-read*\n");
        append_subpath_lines(&mut out, &isolation.readonly_paths);
        append_lit(&mut out, ")\n");
    }
    if isolation.working_directory.as_str().as_bytes().len() > 0 {
        append_lit(&mut out, "(allow file* (subpath \"");
        append_bytes(&mut out, isolation.working_directory.as_str().as_bytes());
        append_lit(&mut out, "\"))\n");
    }
    if isolation.network {
        append_lit(&mut out, "(allow network*)\n");
    } else {
        append_lit(&mut out, "(deny network*)\n");
    }
    append_lit(&mut out, "(deny system-privilege)\n(deny system-audit)\n(deny system-socket)\n");
    assert(out@ =~= spec_profile(*isolation));
    out
}

/// The rlimit settings applied in the child: the address-space cap when a
/// memory limit is set, then the open-file cap, then the process cap.
pub fn rlimit_plan(limits: &ResourceLimits, process: &ProcessLimits) -> (r: Vec<RlimitSetting>)
    ensures
        r@ == (if limits.memory_bytes > 0 {
            seq![RlimitSetting { kind: RlimitKind::AddressSpace, value: limits.memory_bytes }]
        } else {
            Seq::empty()
        }) + (match process.max_file_descriptors {
            Some(fd) => seq![RlimitSetting { kind: RlimitKind::OpenFiles, value: fd as u64 }],
            None => Seq::empty(),
        }) + (match process.max_processes {
            Some(p) => seq![RlimitSetting { kind: RlimitKind::Processes, value: p as u64 }],
            None => Seq::empty(),
        }),
{
    let mut out: Vec<RlimitSetting> = Vec::new();
    if limits.memory_bytes > 0 {
        out.push(RlimitSetting { kind: RlimitKind::AddressSpace, value: limits.memory_bytes });
    }
    match process.max_file_descriptors {
        Some(fd) => {
            out.push(RlimitSetting { kind: RlimitKind::OpenFiles, value: fd as u64 });
        },
        None => {},
    }
    match process.max_processes {
        Some(p) => {
            out.push(RlimitSetting { kind: RlimitKind::Processes, value: p as u64 });
        },
        None => {},
    }
    proof {
        assert(out@ =~= (if limits.memory_bytes > 0 {
            seq![RlimitSetting { kind: RlimitKind::AddressSpace, value: limits.memory_bytes }]
        } else {
            Seq::<RlimitSetting>::empty()
        }) + (match process.max_file_descriptors {
            Some(fd) => seq![RlimitSetting { kind: RlimitKind::OpenFiles, value: fd as u64 }],
            None => Seq::<RlimitSetting>::empty(),
        }) + (match process.max_processes {
            Some(p) => seq![RlimitSetting { kind: RlimitKind::Processes, value: p as u64 }],
            None => Seq::<RlimitSetting>::empty(),
        }));
    }
    out
}

/// Multiplication clamped at the largest `u64`.
pub open spec fn sat_mul(a: u64, b: u64) -> u64 {
    if a * b > u64::MAX {
        u64::MAX
    } else {
        (a * b) as u64
    }
}

/// A usage snapshot from the host's child accounting: the resident maximum
/// arrives in kilobytes, times as second and microsecond pairs, and I/O as
/// 512-byte block counts. Sums and products clamp at the largest `u64`.
pub fn usage_from_rusage(
    maxrss_kb: u64,
    utime_sec: u64,
    utime_usec: u64,
    stime_sec: u64,
    stime_usec: u64,
    inblock: u64,
    oublock: u64,
) -> (r: MacOSResourceUsage)
    ensures
        r.memory_bytes == sat_mul(maxrss_kb, 1024),
        r.user_time_us == crate::procfs::sat_add(sat_mul(utime_sec, 1000000), utime_usec),
        r.kernel_time_us == crate::procfs::sat_add(sat_mul(stime_sec, 1000000), stime_usec),
        r.cpu_time_us == crate::procfs::sat_add(r.user_time_us, r.kernel_time_us),
        r.io_bytes_read == sat_mul(inblock, 512),
        r.io_bytes_written == sat_mul(oublock, 512),
{
    let memory_bytes = sat_mul_exec(maxrss_kb, 1024);
    let user_time_us = sat_add_exec(sat_mul_exec(utime_sec, 1000000), utime_usec);
    let kernel_time_us = sat_add_exec(sat_mul_exec(stime_sec, 1000000), stime_usec);
    let cpu_time_us = sat_add_exec(user_time_us, kernel_time_us);
    MacOSResourceUsage {
        memory_bytes,
        cpu_time_us,
        user_time_us,
        kernel_time_us,
        io_bytes_read: sat_mul_exec(inblock, 512),
        io_bytes_written: sat_mul_exec(oublock, 512),
    }
}

/// Multiplication clamped at the largest `u64`.
fn sat_mul_exec(a: u64, b: u64) -> (r: u64)
    ensures
        r == sat_mul(a, b),
{
    match a.checked_mul(b) {
        Some(v) => v,
        None => u64::MAX,
    }
}

/// Addition clamped at the largest `u64`.
fn sat_add_exec(a: u64, b: u64) -> (r: u64)
    ensures
        r == crate::procfs::sat_add(a, b),
{
    match a.checked_add(b) {
        Some(v) => v,
        None => u64::MAX,
    }
}

/// The host gives no kill signal for memory, so running out is approximated
/// as current use at or above the limit.
pub open spec fn spec_oom_suspected(usage: MacOSResourceUsage, limit: Option<u64>) -> bool {
    match limit {
        Some(l) => usage.memory_bytes >= l,
        None => false,
    }
}

/// Decides the out-of-memory approximation.
pub fn oom_suspected(usage: &MacOSResourceUsage, limit: Option<u64>) -> (r: bool)
    ensures
        r == spec_oom_suspected(*usage, limit),
{
    match limit {
        Some(l) => usage.memory_bytes >= l,
        None => false,
    }
}


/// The host sandbox for one execution: what was asked for, the profile text
/// composed for it, and the limits applied at spawn.
pub struct MacOSSandbox {
    pub execution_id: String,
    pub resource_limits: Option<ResourceLimits>,
    pub isolation_config: Option<IsolationConfig>,
    pub sandbox_profile: Option<Vec<u8>>,
    pub process_limits: ProcessLimits,
}

impl MacOSSandbox {
    /// A fresh sandbox: nothing configured, safe descriptor and process
    /// caps.
    pub fn new(execution_id: String) -> (r: Self)
        ensures
            r.execution_id == execution_id,
            r.resource_limits is None,
            r.isolation_config is None,
            r.sandbox_profile is None,
            r.process_limits == (ProcessLimits {
                max_memory_bytes: None,
                max_cpu_time_seconds: None,
                max_file_descriptors: Some(1024u32),
                max_processes: Some(64u32),
            }),
    {
        MacOSSandbox {
            execution_id,
            resource_limits: None,
            isolation_config: None,
            sandbox_profile: None,
            process_limits: ProcessLimits {
                max_memory_bytes: None,
                max_cpu_time_seconds: None,
                max_file_descriptors: Some(1024),
                max_processes: Some(64),
            },
        }
    }

    /// Stores the request, derives the memory and process caps, and
    /// composes the profile.
    pub fn setup(&mut self, resources: &ResourceLimits, isolation: &IsolationConfig)
        ensures
            final(self).execution_id == old(self).execution_id,
            final(self).resource_limits == Some(*resources),
            (final(self).isolation_config matches Some(c) && crate::schema::iso_view(c)
                == crate::schema::iso_view(*isolation)),
            final(self).process_limits.max_memory_bytes == (if resources.memory_bytes > 0 {
                Some(resources.memory_bytes)
            } else {
                None
            }),
            final(self).process_limits.max_cpu_time_seconds is None,
            final(self).process_limits.max_file_descriptors == old(
                self,
            ).process_limits.max_file_descriptors,
            final(self).process_limits.max_processes == (if resources.max_pids > 0 {
                Some(resources.max_pids)
            } else {
                old(self).process_limits.max_processes
            }),
            (final(self).sandbox_profile matches Some(p) && p@ == spec_profile(*isolation)),
    {
        self.resource_limits = Some(*resources);
        self.isolation_config = Some(isolation.clone());
        self.process_limits.max_memory_bytes = if resources.memory_bytes > 0 {
            Some(resources.memory_bytes)
        } else {
            None
        };
        self.process_limits.max_cpu_time_seconds = None;
        if resources.max_pids > 0 {
            self.process_limits.max_processes = Some(resources.max_pids);
        }
        self.sandbox_profile = Some(generate_sandbox_profile(isolation));
    }
}

} // verus!
