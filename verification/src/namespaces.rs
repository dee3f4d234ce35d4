//! The namespace plan: which namespaces are unshared, the user and group
//! mapping writes in their required order, and exit-status propagation.

use crate::monitor::ProcessStatus;
use crate::textutil::{ascii_bytes, dec_bytes, lit_bytes, u64_to_dec_bytes};
use vstd::prelude::*;
use vstd::string::StringSliceAdditionalSpecFns;

verus! {

/// One kind of kernel namespace the sandbox unshares.
#[derive(Clone, Copy, Debug, PartialEq, Eq, Structural)]
pub enum NamespaceKind {
    User,
    Pid,
    Mount,
    Ipc,
    Uts,
    Net,
}

/// The set of namespaces unshared in one call: always user, pid, mount, ipc
/// and uts; the network namespace exactly when the network is disabled.
pub fn unshare_set(network: bool) -> (r: Vec<NamespaceKind>)
    ensures
        r@ == seq![
            NamespaceKind::User,
            NamespaceKind::Pid,
            NamespaceKind::Mount,
            NamespaceKind::Ipc,
            NamespaceKind::Uts,
        ] + (if !network {
            seq![NamespaceKind::Net]
        } else {
            Seq::empty()
        }),
{
    let mut out: Vec<NamespaceKind> = Vec::new();
    out.push(NamespaceKind::User);
    out.push(NamespaceKind::Pid);
    out.push(NamespaceKind::Mount);
    out.push(NamespaceKind::Ipc);
    out.push(NamespaceKind::Uts);
    if !network {
        out.push(NamespaceKind::Net);
        assert(out@ =~= seq![
            NamespaceKind::User,
            NamespaceKind::Pid,
            NamespaceKind::Mount,
            NamespaceKind::Ipc,
            NamespaceKind::Uts,
        ] + seq![NamespaceKind::Net]);
    } else {
        assert(out@ =~= seq![
            NamespaceKind::User,
            NamespaceKind::Pid,
            NamespaceKind::Mount,
            NamespaceKind::Ipc,
            NamespaceKind::Uts,
        ] + Seq::<NamespaceKind>::empty());
    }
    out
}

/// One write under the process's entry in the process filesystem.
pub struct MapWrite {
    pub path: Vec<u8>,
    pub content: Vec<u8>,
}

/// The map-file content binding container identity zero to one host id.
pub open spec fn spec_map_content(host_id: u32) -> Seq<u8> {
    ascii_bytes("0 "@) + dec_bytes(host_id as nat) + ascii_bytes(" 1\n"@)
}

/// The path of one map file for a process.
pub open spec fn spec_proc_file(pid: u32, name: Seq<char>) -> Seq<u8> {
    ascii_bytes("/proc/"@) + dec_bytes(pid as nat) + ascii_bytes("/"@) + ascii_bytes(name)
}

/// Builds the map-file content for one host id.
fn map_content(host_id: u32) -> (r: Vec<u8>)
    ensures
        r@ == spec_map_content(host_id),
{
    proof {
        reveal_strlit("0 ");
        reveal_strlit(" 1\n");
    }
    let mut out: Vec<u8> = Vec::new();
    append_bytes(&mut out, lit_bytes("0 "));
    let d = u64_to_dec_bytes(host_id as u64);
    append_bytes(&mut out, d.as_slice());
    append_bytes(&mut out, lit_bytes(" 1\n"));
    assert(out@ =~= spec_map_content(host_id));
    out
}

/// Builds the path of one map file.
fn proc_file(pid: u32, name: &str) -> (r: Vec<u8>)
    requires
        name.is_ascii(),
    ensures
        r@ == spec_proc_file(pid, name@),
{
    proof {
        reveal_strlit("/proc/");
        reveal_strlit("/");
    }
    let mut out: Vec<u8> = Vec::new();
    append_bytes(&mut out, lit_bytes("/proc/"));
    let d = u64_to_dec_bytes(pid as u64);
    append_bytes(&mut out, d.as_slice());
    append_bytes(&mut out, lit_bytes("/"));
    append_bytes(&mut out, lit_bytes(name));
    assert(out@ =~= spec_proc_file(pid, name@));
    out
}

/// Appends bytes to a buffer.
fn append_bytes(out: &mut Vec<u8>, s: &[u8])
    ensures
        final(out)@ == old(out)@ + s@,
{
    let mut i: usize = 0;
    while i < s.len()
        invariant
            i <= s@.len(),
            out@ =~= old(out)@ + s@.subrange(0, i as int),
        decreases s@.len() - i,
    {
        out.push(s[i]);
        i = i + 1;
    }
    assert(out@ =~= old(out)@ + s@);
}

/// The ordered user-mapping writes for a process: the uid map, then the
/// setgroups denial — which must precede the gid map — then the gid map.
pub fn user_map_plan(pid: u32, uid: u32, gid: u32) -> (r: Vec<MapWrite>)
    ensures
        r@.len() == 3,
        r@[0].path@ == spec_proc_file(pid, "uid_map"@) && r@[0].content@ == spec_map_content(uid),
        r@[1].path@ == spec_proc_file(pid, "setgroups"@) && r@[1].content@ == ascii_bytes(
            "deny\n"@,
        ),
        r@[2].path@ == spec_proc_file(pid, "gid_map"@) && r@[2].content@ == spec_map_content(gid),
{
    proof {
        reveal_strlit("uid_map");
        reveal_strlit("setgroups");
        reveal_strlit("gid_map");
        reveal_strlit("deny\n");
    }
    let mut out: Vec<MapWrite> = Vec::new();
    out.push(MapWrite { path: proc_file(pid, "uid_map"), content: map_content(uid) });
    let mut deny: Vec<u8> = Vec::new();
    append_bytes(&mut deny, lit_bytes("deny\n"));
    out.push(MapWrite { path: proc_file(pid, "setgroups"), content: deny });
    out.push(MapWrite { path: proc_file(pid, "gid_map"), content: map_content(gid) });
    out
}

/// The exit code the parent propagates for a child of the new pid
/// namespace: the child's own code, or conventionally 128 plus the signal
/// number for a signal death, or one for anything else.
pub open spec fn spec_propagated_exit(status: ProcessStatus) -> i32 {
    match status {
        ProcessStatus::Exited(code) => code,
        ProcessStatus::Signaled(sig) => (128 + (if 0 <= sig <= 128 {
            sig as int
        } else {
            0int
        })) as i32,
        _ => 1i32,
    }
}

/// Propagates a child's exit status verbatim, signals as 128 plus the
/// number.
pub fn propagated_exit(status: ProcessStatus) -> (r: i32)
    ensures
        r == spec_propagated_exit(status),
{
    match status {
        ProcessStatus::Exited(code) => code,
        ProcessStatus::Signaled(sig) => {
            if 0 <= sig && sig <= 128 {
                128 + sig
            } else {
                128
            }
        },
        _ => 1,
    }
}

} // verus!
