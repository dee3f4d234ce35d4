//! The cgroup-v2 plan: where the leaf lives, exactly which control files are
//! written with what, and how the usage counters are read back.

use crate::error::{CapsuleError, SandboxError};
pub use crate::monitor::ResourceUsage;
use crate::procfs::{parse_cgroup_u64, parse_cpu_stat, parse_io_stat, spec_cgroup_u64, spec_cpu_stat, spec_io_stat};
use crate::schema::ResourceLimits;
use crate::textutil::{ascii_bytes, dec_bytes, lit_bytes, u64_to_dec_bytes};
use vstd::prelude::*;
use vstd::string::StringSliceAdditionalSpecFns;

verus! {

/// One write to a control file of the leaf.
pub struct CgroupWrite {
    pub file: Vec<u8>,
    pub content: Vec<u8>,
}

/// The leaf directory for one execution, under the v2 mount.
pub open spec fn spec_leaf_path(mount: Seq<u8>, id: Seq<char>) -> Seq<u8> {
    mount + ascii_bytes("/capsule-run/"@) + vstd::utf8::encode_utf8(id)
}

/// Builds the leaf path for one execution.
pub fn leaf_path(mount: &[u8], execution_id: &str) -> (r: Vec<u8>)
    ensures
        r@ == spec_leaf_path(mount@, execution_id@),
{
    proof {
        reveal_strlit("/capsule-run/");
    }
    let mut out: Vec<u8> = Vec::new();
    append_bytes(&mut out, mount);
    append_bytes(&mut out, lit_bytes("/capsule-run/"));
    append_bytes(&mut out, execution_id.as_bytes());
    assert(out@ =~= spec_leaf_path(mount@, execution_id@));
    out
}

/// Appends bytes to a buffer.
fn append_bytes(out: &mut Vec<u8>, s: &[u8])
    ensures
        final(out)@ == old(out)@ + s@,
{
    let mut i: usize = 0;
    while i < s.len()
        invariant
            i <= s@.len(),
            out@ =~= old(out)@ + s@.subrange(0, i as int),
        decreases s@.len() - i,
    {
        out.push(s[i]);
        i = i + 1;
    }
    assert(out@ =~= old(out)@ + s@);
}

/// The controllers enabled on the parent before the leaf is used.
pub fn subtree_control_write() -> (r: CgroupWrite)
    ensures
        r.file@ == ascii_bytes("cgroup.subtree_control"@),
        r.content@ == ascii_bytes("+memory +cpu +pids +io"@),
{
    proof {
        reveal_strlit("cgroup.subtree_control");
        reveal_strlit("+memory +cpu +pids +io");
    }
    CgroupWrite {
        file: slice_to_vec_local(lit_bytes("cgroup.subtree_control")),
        content: slice_to_vec_local(lit_bytes("+memory +cpu +pids +io")),
    }
}

/// Copies a slice into an owned buffer.
fn slice_to_vec_local(s: &[u8]) -> (r: Vec<u8>)
    ensures
        r@ == s@,
{
    let mut out: Vec<u8> = Vec::new();
    append_bytes(&mut out, s);
    out
}

/// The cpu weight actually written: the requested shares clamped into the
/// cgroup-v2 weight range.
pub open spec fn weight_clamped(cpu_shares: u32) -> u32 {
    if cpu_shares < 1 {
        1u32
    } else if cpu_shares > 10000 {
        10000u32
    } else {
        cpu_shares
    }
}

/// The ordered control-file writes for the leaf: the memory limit first —
/// it must hold before any process is attached — with swap off and the soft
/// limit at half; then the clamped cpu weight, the pid cap, and the static
/// I/O weight.
pub fn limit_writes(limits: &ResourceLimits) -> (r: Vec<CgroupWrite>)
    ensures
        r@.len() == 6,
        r@[0].file@ == ascii_bytes("memory.max"@) && r@[0].content@ == dec_bytes(
            limits.memory_bytes as nat,
        ),
        r@[1].file@ == ascii_bytes("memory.swap.max"@) && r@[1].content@ == ascii_bytes("0"@),
        r@[2].file@ == ascii_bytes("memory.low"@) && r@[2].content@ == dec_bytes(
            (limits.memory_bytes / 2) as nat,
        ),
        r@[3].file@ == ascii_bytes("cpu.weight"@) && r@[3].content@ == dec_bytes(
            weight_clamped(limits.cpu_shares) as nat,
        ),
        r@[4].file@ == ascii_bytes("pids.max"@) && r@[4].content@ == dec_bytes(
            limits.max_pids as nat,
        ),
        r@[5].file@ == ascii_bytes("io.weight"@) && r@[5].content@ == ascii_bytes("100"@),
{
    proof {
        reveal_strlit("memory.max");
        reveal_strlit("memory.swap.max");
        reveal_strlit("0");
        reveal_strlit("memory.low");
        reveal_strlit("cpu.weight");
        reveal_strlit("pids.max");
        reveal_strlit("io.weight");
        reveal_strlit("100");
    }
    let mut out: Vec<CgroupWrite> = Vec::new();
    out.push(
        CgroupWrite {
            file: slice_to_vec_local(lit_bytes("memory.max")),
            content: u64_to_dec_bytes(limits.memory_bytes),
        },
    );
    out.push(
        CgroupWrite {
            file: slice_to_vec_local(lit_bytes("memory.swap.max")),
            content: slice_to_vec_local(lit_bytes("0")),
        },
    );
    out.push(
        CgroupWrite {
            file: slice_to_vec_local(lit_bytes("memory.low")),
            content: u64_to_dec_bytes(limits.memory_bytes / 2),
        },
    );
    let weight: u32 = if limits.cpu_shares < 1 {
        1
    } else if limits.cpu_shares > 10000 {
        10000
    } else {
        limits.cpu_shares
    };
    out.push(
        CgroupWrite {
            file: slice_to_vec_local(lit_bytes("cpu.weight")),
            content: u64_to_dec_bytes(weight as u64),
        },
    );
    out.push(
        CgroupWrite {
            file: slice_to_vec_local(lit_bytes("pids.max")),
            content: u64_to_dec_bytes(limits.max_pids as u64),
        },
    );
    out.push(
        CgroupWrite {
            file: slice_to_vec_local(lit_bytes("io.weight")),
            content: slice_to_vec_local(lit_bytes("100")),
        },
    );
    out
}

/// The write that moves a process into the leaf, so its children inherit.
pub fn join_write(pid: u32) -> (r: CgroupWrite)
    ensures
        r.file@ == ascii_bytes("cgroup.procs"@),
        r.content@ == dec_bytes(pid as nat),
{
    proof {
        reveal_strlit("cgroup.procs");
    }
    CgroupWrite {
        file: slice_to_vec_local(lit_bytes("cgroup.procs")),
        content: u64_to_dec_bytes(pid as u64),
    }
}

/// Assembles a usage snapshot from the three counter files. A memory file
/// that is not a number is a cgroup error; the statistics files read
/// missing counters as zero.
pub fn usage_from_files(memory_current: &[u8], cpu_stat: &[u8], io_stat: &[u8]) -> (r: Result<
    ResourceUsage,
    CapsuleError,
>)
    ensures
        match r {
            Ok(u) => spec_cgroup_u64(memory_current@) == Some(u.memory_bytes) && (u.cpu_time_us,
            u.user_time_us, u.kernel_time_us) == spec_cpu_stat(cpu_stat@) && (u.io_bytes_read,
            u.io_bytes_written) == spec_io_stat(io_stat@),
            Err(e) => spec_cgroup_u64(memory_current@) is None && (e matches
                CapsuleError::SandboxSetup(s) && s is CgroupSetup),
        },
{
    let memory_bytes = match parse_cgroup_u64(memory_current) {
        Some(v) => v,
        None => {
            return Err(
                CapsuleError::SandboxSetup(
                    SandboxError::CgroupSetup(String::from_str("Failed to parse memory usage")),
                ),
            );
        },
    };
    let (cpu_time_us, user_time_us, kernel_time_us) = parse_cpu_stat(cpu_stat);
    let (io_bytes_read, io_bytes_written) = parse_io_stat(io_stat);
    Ok(
        ResourceUsage {
            memory_bytes,
            cpu_time_us,
            user_time_us,
            kernel_time_us,
            io_bytes_read,
            io_bytes_written,
        },
    )
}

} // verus!
