//! The filesystem plan: the ordered steps that build the minimal root
//! filesystem, bind the host directories read-only, mount the virtual
//! filesystems, apply the user's paths, pivot, and tear the old root down.

use crate::schema::{BindMount, IsolationConfig};
use crate::textutil::{ascii_bytes, lit_bytes};
use crate::validation::string_bytes;
use vstd::prelude::*;
use vstd::string::StringSliceAdditionalSpecFns;

verus! {

/// One step of the filesystem setup, in the order the plan lists them.
pub enum MountStep {
    MakeDir { path: Vec<u8> },
    BindRo { source: Vec<u8>, target: Vec<u8> },
    BindRw { source: Vec<u8>, target: Vec<u8> },
    MountProc { target: Vec<u8>, options: Vec<u8> },
    MountSys { target: Vec<u8> },
    MountTmpfs { target: Vec<u8>, options: Vec<u8> },
    DevNode { path: Vec<u8>, major: u64, minor: u64 },
    SymlinkTo { text: Vec<u8>, link: Vec<u8> },
    PivotRoot { new_root: Vec<u8>, old_root: Vec<u8> },
    Chdir { path: Vec<u8> },
    UmountDetach { path: Vec<u8> },
    RemoveDir { path: Vec<u8> },
}

/// The value of one step, with paths as byte sequences.
#[verifier::ext_equal]
pub enum StepView {
    MakeDir { path: Seq<u8> },
    BindRo { source: Seq<u8>, target: Seq<u8> },
    BindRw { source: Seq<u8>, target: Seq<u8> },
    MountProc { target: Seq<u8>, options: Seq<u8> },
    MountSys { target: Seq<u8> },
    MountTmpfs { target: Seq<u8>, options: Seq<u8> },
    DevNode { path: Seq<u8>, major: u64, minor: u64 },
    SymlinkTo { text: Seq<u8>, link: Seq<u8> },
    PivotRoot { new_root: Seq<u8>, old_root: Seq<u8> },
    Chdir { path: Seq<u8> },
    UmountDetach { path: Seq<u8> },
    RemoveDir { path: Seq<u8> },
}

pub open spec fn step_view(s: MountStep) -> StepView {
    match s {
        MountStep::MakeDir { path } => StepView::MakeDir { path: path@ },
        MountStep::BindRo { source, target } => StepView::BindRo {
            source: source@,
            target: target@,
        },
        MountStep::BindRw { source, target } => StepView::BindRw {
            source: source@,
            target: target@,
        },
        MountStep::MountProc { target, options } => StepView::MountProc {
            target: target@,
            options: options@,
        },
        MountStep::MountSys { target } => StepView::MountSys { target: target@ },
        MountStep::MountTmpfs { target, options } => StepView::MountTmpfs {
            target: target@,
            options: options@,
        },
        MountStep::DevNode { path, major, minor } => StepView::DevNode { path: path@, major, minor },
        MountStep::SymlinkTo { text, link } => StepView::SymlinkTo { text: text@, link: link@ },
        MountStep::PivotRoot { new_root, old_root } => StepView::PivotRoot {
            new_root: new_root@,
            old_root: old_root@,
        },
        MountStep::Chdir { path } => StepView::Chdir { path: path@ },
        MountStep::UmountDetach { path } => StepView::UmountDetach { path: path@ },
        MountStep::RemoveDir { path } => StepView::RemoveDir { path: path@ },
    }
}

pub open spec fn plan_view(v: Seq<MountStep>) -> Seq<StepView> {
    v.map_values(|s: MountStep| step_view(s))
}

/// The scratch root of one execution.
pub open spec fn spec_rootfs_path(id: Seq<char>) -> Seq<u8> {
    ascii_bytes("/tmp/capsule-"@) + vstd::utf8::encode_utf8(id)
}

/// The sub-path of the root where an ASCII name lives.
pub open spec fn under(root: Seq<u8>, rel: Seq<char>) -> Seq<u8> {
    root + seq![47u8] + ascii_bytes(rel)
}

/// Where an absolute host path appears under the new root.
pub open spec fn target_of(root: Seq<u8>, p: Seq<u8>) -> Seq<u8> {
    if p.len() > 0 && p[0] == 47 {
        root + p
    } else {
        root + seq![47u8] + p
    }
}

/// The skeleton: the scratch root, the old-root landing, and the directory
/// tree the mounts need.
pub open spec fn skeleton_steps(root: Seq<u8>) -> Seq<StepView> {
    seq![
        StepView::MakeDir { path: root },
        StepView::MakeDir { path: under(root, "old_root"@) },
        StepView::MakeDir { path: under(root, "bin"@) },
        StepView::MakeDir { path: under(root, "sbin"@) },
        StepView::MakeDir { path: under(root, "usr"@) },
        StepView::MakeDir { path: under(root, "lib"@) },
        StepView::MakeDir { path: under(root, "lib64"@) },
        StepView::MakeDir { path: under(root, "etc"@) },
        StepView::MakeDir { path: under(root, "dev"@) },
        StepView::MakeDir { path: under(root, "proc"@) },
        StepView::MakeDir { path: under(root, "sys"@) },
        StepView::MakeDir { path: under(root, "tmp"@) },
        StepView::MakeDir { path: under(root, "var"@) },
        StepView::MakeDir { path: under(root, "workspace"@) },
    ]
}

/// The system directories bound read-only into the root. A source missing
/// on the host is skipped when the plan runs.
pub open spec fn system_bind_steps(root: Seq<u8>) -> Seq<StepView> {
    seq![
        StepView::BindRo { source: ascii_bytes("/bin"@), target: under(root, "bin"@) },
        StepView::BindRo { source: ascii_bytes("/sbin"@), target: under(root, "sbin"@) },
        StepView::BindRo { source: ascii_bytes("/usr"@), target: under(root, "usr"@) },
        StepView::BindRo { source: ascii_bytes("/lib"@), target: under(root, "lib"@) },
        StepView::BindRo { source: ascii_bytes("/lib64"@), target: under(root, "lib64"@) },
        StepView::BindRo { source: ascii_bytes("/etc"@), target: under(root, "etc"@) },
    ]
}

/// The virtual filesystems: a device tree with its nodes and stream links,
/// then the process and system filesystems and the writable scratch mounts.
pub open spec fn virtual_mount_steps(root: Seq<u8>) -> Seq<StepView> {
    seq![
        StepView::MountTmpfs {
            target: under(root, "dev"@),
            options: ascii_bytes("size=5M,mode=755"@),
        },
        StepView::DevNode { path: under(root, "dev/null"@), major: 1, minor: 3 },
        StepView::DevNode { path: under(root, "dev/zero"@), major: 1, minor: 5 },
        StepView::DevNode { path: under(root, "dev/full"@), major: 1, minor: 7 },
        StepView::DevNode { path: under(root, "dev/random"@), major: 1, minor: 8 },
        StepView::DevNode { path: under(root, "dev/urandom"@), major: 1, minor: 9 },
        StepView::SymlinkTo {
            text: ascii_bytes("/proc/self/fd/0"@),
            link: under(root, "dev/stdin"@),
        },
        StepView::SymlinkTo {
            text: ascii_bytes("/proc/self/fd/1"@),
            link: under(root, "dev/stdout"@),
        },
        StepView::SymlinkTo {
            text: ascii_bytes("/proc/self/fd/2"@),
            link: under(root, "dev/stderr"@),
        },
        StepView::MountProc {
            target: under(root, "proc"@),
            options: ascii_bytes("hidepid=2,gid=proc"@),
        },
        StepView::MountSys { target: under(root, "sys"@) },
        StepView::MountTmpfs {
            target: under(root, "tmp"@),
            options: ascii_bytes("size=64M,mode=1777"@),
        },
        StepView::MountTmpfs {
            target: under(root, "var"@),
            options: ascii_bytes("size=32M,mode=755"@),
        },
    ]
}

/// One read-only bind for each user path, at its place under the root.
pub open spec fn ro_steps(root: Seq<u8>, paths: Seq<Seq<u8>>) -> Seq<StepView>
    decreases paths.len(),
{
    if paths.len() == 0 {
        Seq::empty()
    } else {
        seq![StepView::BindRo { source: paths[0], target: target_of(root, paths[0]) }] + ro_steps(
            root,
            paths.drop_first(),
        )
    }
}

/// One writable bind for each user path, at its place under the root.
pub open spec fn rw_steps(root: Seq<u8>, paths: Seq<Seq<u8>>) -> Seq<StepView>
    decreases paths.len(),
{
    if paths.len() == 0 {
        Seq::empty()
    } else {
        seq![StepView::BindRw { source: paths[0], target: target_of(root, paths[0]) }] + rw_steps(
            root,
            paths.drop_first(),
        )
    }
}

/// One bind for each user mount, read-only or writable as declared.
pub open spec fn user_bind_steps(root: Seq<u8>, binds: Seq<(Seq<u8>, Seq<u8>, bool)>) -> Seq<
    StepView,
>
    decreases binds.len(),
{
    if binds.len() == 0 {
        Seq::empty()
    } else {
        seq![
            if binds[0].2 {
                StepView::BindRo { source: binds[0].0, target: target_of(root, binds[0].1) }
            } else {
                StepView::BindRw { source: binds[0].0, target: target_of(root, binds[0].1) }
            },
        ] + user_bind_steps(root, binds.drop_first())
    }
}

/// The close of the plan: pivot into the new root, enter the working
/// directory, and detach and remove the old root.
pub open spec fn pivot_steps(root: Seq<u8>, workdir: Seq<u8>) -> Seq<StepView> {
    seq![
        StepView::PivotRoot { new_root: root, old_root: under(root, "old_root"@) },
        StepView::Chdir { path: ascii_bytes("/"@) },
        StepView::MakeDir { path: workdir },
        StepView::Chdir { path: workdir },
        StepView::UmountDetach { path: ascii_bytes("/old_root"@) },
        StepView::RemoveDir { path: ascii_bytes("/old_root"@) },
    ]
}

/// The bind-mount triples of an isolation configuration.
pub open spec fn bind_views(binds: Seq<BindMount>) -> Seq<(Seq<u8>, Seq<u8>, bool)> {
    binds.map_values(
        |b: BindMount| (string_bytes(b.source), string_bytes(b.destination), b.readonly),
    )
}

/// The byte forms of a path list.
pub open spec fn path_views(paths: Seq<String>) -> Seq<Seq<u8>> {
    paths.map_values(|s: String| string_bytes(s))
}

/// The whole plan for one execution: skeleton, system binds, virtual
/// mounts, the user's read-only, writable and bind paths, then the pivot
/// and the teardown of the old root.
pub open spec fn spec_mount_plan(id: Seq<char>, iso: IsolationConfig) -> Seq<StepView> {
    let root = spec_rootfs_path(id);
    skeleton_steps(root) + system_bind_steps(root) + virtual_mount_steps(root) + ro_steps(
        root,
        path_views(iso.readonly_paths@),
    ) + rw_steps(root, path_views(iso.writable_paths@)) + user_bind_steps(
        root,
        bind_views(iso.bind_mounts@),
    ) + pivot_steps(root, string_bytes(iso.working_directory))
}

/// Copies a slice into an owned buffer.
fn to_vec(s: &[u8]) -> (r: Vec<u8>)
    ensures
        r@ == s@,
{
    let mut out: Vec<u8> = Vec::new();
    let mut i: usize = 0;
    while i < s.len()
        invariant
            i <= s@.len(),
            out@ =~= s@.subrange(0, i as int),
        decreases s@.len() - i,
    {
        out.push(s[i]);
        i = i + 1;
    }
    assert(out@ =~= s@);
    out
}

/// Appends bytes to a buffer.
fn append_bytes(out: &mut Vec<u8>, s: &[u8])
    ensures
        final(out)@ == old(out)@ + s@,
{
    let mut i: usize = 0;
    while i < s.len()
        invariant
            i <= s@.len(),
            out@ =~= old(out)@ + s@.subrange(0, i as int),
        decreases s@.len() - i,
    {
        out.push(s[i]);
        i = i + 1;
    }
    assert(out@ =~= old(out)@ + s@);
}

/// Builds the scratch root path for one execution.
pub fn rootfs_path(execution_id: &str) -> (r: Vec<u8>)
    ensures
        r@ == spec_rootfs_path(execution_id@),
{
    proof {
        reveal_strlit("/tmp/capsule-");
    }
    let mut out: Vec<u8> = Vec::new();
    append_bytes(&mut out, lit_bytes("/tmp/capsule-"));
    append_bytes(&mut out, execution_id.as_bytes());
    assert(out@ =~= spec_rootfs_path(execution_id@));
    out
}

/// Builds the sub-path of the root where an ASCII name lives.
fn under_path(root: &[u8], rel: &str) -> (r: Vec<u8>)
    requires
        rel.is_ascii(),
    ensures
        r@ == under(root@, rel@),
{
    let mut out: Vec<u8> = Vec::new();
    append_bytes(&mut out, root);
    out.push(47u8);
    let b = lit_bytes(rel);
    append_bytes(&mut out, b);
    assert(out@ =~= under(root@, rel@));
    out
}

/// Builds the place of an absolute host path under the new root.
fn target_path(root: &[u8], p: &[u8]) -> (r: Vec<u8>)
    ensures
        r@ == target_of(root@, p@),
{
    let mut out: Vec<u8> = Vec::new();
    append_bytes(&mut out, root);
    if !(p.len() > 0 && p[0] == 47) {
        out.push(47u8);
    }
    append_bytes(&mut out, p);
    assert(out@ =~= target_of(root@, p@));
    out
}

/// Appends the skeleton steps.
fn push_skeleton(out: &mut Vec<MountStep>, root: &[u8])
    ensures
        plan_view(final(out)@) == plan_view(old(out)@) + skeleton_steps(root@),
{
    proof {
        reveal_strlit("old_root");
        reveal_strlit("bin");
        reveal_strlit("sbin");
        reveal_strlit("usr");
        reveal_strlit("lib");
        reveal_strlit("lib64");
        reveal_strlit("etc");
        reveal_strlit("dev");
        reveal_strlit("proc");
        reveal_strlit("sys");
        reveal_strlit("tmp");
        reveal_strlit("var");
        reveal_strlit("workspace");
    }
    out.push(MountStep::MakeDir { path: to_vec(root) });
    out.push(MountStep::MakeDir { path: under_path(root, "old_root") });
    out.push(MountStep::MakeDir { path: under_path(root, "bin") });
    out.push(MountStep::MakeDir { path: under_path(root, "sbin") });
    out.push(MountStep::MakeDir { path: under_path(root, "usr") });
    out.push(MountStep::MakeDir { path: under_path(root, "lib") });
    out.push(MountStep::MakeDir { path: under_path(root, "lib64") });
    out.push(MountStep::MakeDir { path: under_path(root, "etc") });
    out.push(MountStep::MakeDir { path: under_path(root, "dev") });
    out.push(MountStep::MakeDir { path: under_path(root, "proc") });
    out.push(MountStep::MakeDir { path: under_path(root, "sys") });
    out.push(MountStep::MakeDir { path: under_path(root, "tmp") });
    out.push(MountStep::MakeDir { path: under_path(root, "var") });
    out.push(MountStep::MakeDir { path: under_path(root, "workspace") });
    assert(plan_view(out@) =~= plan_view(old(out)@) + skeleton_steps(root@));
}

/// Appends the system read-only binds.
fn push_system_binds(out: &mut Vec<MountStep>, root: &[u8])
    ensures
        plan_view(final(out)@) == plan_view(old(out)@) + system_bind_steps(root@),
{
    proof {
        reveal_strlit("/bin");
        reveal_strlit("/sbin");
        reveal_strlit("/usr");
        reveal_strlit("/lib");
        reveal_strlit("/lib64");
        reveal_strlit("/etc");
        reveal_strlit("bin");
        reveal_strlit("sbin");
        reveal_strlit("usr");
        reveal_strlit("lib");
        reveal_strlit("lib64");
        reveal_strlit("etc");
    }
    out.push(
        MountStep::BindRo { source: to_vec(lit_bytes("/bin")), target: under_path(root, "bin") },
    );
    out.push(
        MountStep::BindRo { source: to_vec(lit_bytes("/sbin")), target: under_path(root, "sbin") },
    );
    out.push(
        MountStep::BindRo { source: to_vec(lit_bytes("/usr")), target: under_path(root, "usr") },
    );
    out.push(
        MountStep::BindRo { source: to_vec(lit_bytes("/lib")), target: under_path(root, "lib") },
    );
    out.push(
        MountStep::BindRo {
            source: to_vec(lit_bytes("/lib64")),
            target: under_path(root, "lib64"),
        },
    );
    out.push(
        MountStep::BindRo { source: to_vec(lit_bytes("/etc")), target: under_path(root, "etc") },
    );
    assert(plan_view(out@) =~= plan_view(old(out)@) + system_bind_steps(root@));
}

/// Appends the virtual-filesystem mounts and device nodes.
fn push_virtual_mounts(out: &mut Vec<MountStep>, root: &[u8])
    ensures
        plan_view(final(out)@) == plan_view(old(out)@) + virtual_mount_steps(root@),
{
    proof {
        reveal_strlit("dev");
        reveal_strlit("size=5M,mode=755");
        reveal_strlit("dev/null");
        reveal_strlit("dev/zero");
        reveal_strlit("dev/full");
        reveal_strlit("dev/random");
        reveal_strlit("dev/urandom");
        reveal_strlit("/proc/self/fd/0");
        reveal_strlit("/proc/self/fd/1");
        reveal_strlit("/proc/self/fd/2");
        reveal_strlit("dev/stdin");
        reveal_strlit("dev/stdout");
        reveal_strlit("dev/stderr");
        reveal_strlit("proc");
        reveal_strlit("hidepid=2,gid=proc");
        reveal_strlit("sys");
        reveal_strlit("tmp");
        reveal_strlit("size=64M,mode=1777");
        reveal_strlit("var");
        reveal_strlit("size=32M,mode=755");
    }
    out.push(
        MountStep::MountTmpfs {
            target: under_path(root, "dev"),
            options: to_vec(lit_bytes("size=5M,mode=755")),
        },
    );
    out.push(MountStep::DevNode { path: under_path(root, "dev/null"), major: 1, minor: 3 });
    out.push(MountStep::DevNode { path: under_path(root, "dev/zero"), major: 1, minor: 5 });
    out.push(MountStep::DevNode { path: under_path(root, "dev/full"), major: 1, minor: 7 });
    out.push(MountStep::DevNode { path: under_path(root, "dev/random"), major: 1, minor: 8 });
    out.push(MountStep::DevNode { path: under_path(root, "dev/urandom"), major: 1, minor: 9 });
    out.push(
        MountStep::SymlinkTo {
            text: to_vec(lit_bytes("/proc/self/fd/0")),
            link: under_path(root, "dev/stdin"),
        },
    );
    out.push(
        MountStep::SymlinkTo {
            text: to_vec(lit_bytes("/proc/self/fd/1")),
            link: under_path(root, "dev/stdout"),
        },
    );
    out.push(
        MountStep::SymlinkTo {
            text: to_vec(lit_bytes("/proc/self/fd/2")),
            link: under_path(root, "dev/stderr"),
        },
    );
    out.push(
        MountStep::MountProc {
            target: under_path(root, "proc"),
            options: to_vec(lit_bytes("hidepid=2,gid=proc")),
        },
    );
    out.push(MountStep::MountSys { target: under_path(root, "sys") });
    out.push(
        MountStep::MountTmpfs {
            target: under_path(root, "tmp"),
            options: to_vec(lit_bytes("size=64M,mode=1777")),
        },
    );
    out.push(
        MountStep::MountTmpfs {
            target: under_path(root, "var"),
            options: to_vec(lit_bytes("size=32M,mode=755")),
        },
    );
    assert(plan_view(out@) =~= plan_view(old(out)@) + virtual_mount_steps(root@));
}

/// Appends one read-only bind per user path.
fn push_ro_paths(out: &mut Vec<MountStep>, root: &[u8], paths: &Vec<String>)
    ensures
        plan_view(final(out)@) == plan_view(old(out)@) + ro_steps(
            root@,
            path_views(paths@),
        ),
{
    let ghost pv = path_views(paths@);
    proof {
        assert(pv.subrange(0, pv.len() as int) =~= pv);
    }
    let mut i: usize = 0;
    while i < paths.len()
        invariant
            i <= paths@.len(),
            pv == path_views(paths@),
            plan_view(out@) + ro_steps(root@, pv.subrange(i as int, pv.len() as int)) == plan_view(
                old(out)@,
            ) + ro_steps(root@, pv),
        decreases paths@.len() - i,
    {
        let ghost rest = pv.subrange(i as int, pv.len() as int);
        let ghost before = plan_view(out@);
        proof {
            assert(rest[0] == pv[i as int]);
            assert(rest.drop_first() =~= pv.subrange(i + 1, pv.len() as int));
        }
        let pb = paths[i].as_str().as_bytes();
        out.push(MountStep::BindRo { source: to_vec(pb), target: target_path(root, pb) });
        proof {
            assert(plan_view(out@) =~= before + seq![
                StepView::BindRo { source: pv[i as int], target: target_of(root@, pv[i as int]) },
            ]);
            assert(plan_view(out@) + ro_steps(root@, pv.subrange(i + 1, pv.len() as int)) =~= before
                + ro_steps(root@, rest));
        }
        i = i + 1;
    }
    proof {
        assert(ro_steps(root@, pv.subrange(pv.len() as int, pv.len() as int)) =~= Seq::<
            StepView,
        >::empty());
        assert(plan_view(out@) =~= plan_view(out@) + ro_steps(
            root@,
            pv.subrange(pv.len() as int, pv.len() as int),
        ));
    }
}

/// Appends one writable bind per user path.
fn push_rw_paths(out: &mut Vec<MountStep>, root: &[u8], paths: &Vec<String>)
    ensures
        plan_view(final(out)@) == plan_view(old(out)@) + rw_steps(
            root@,
            path_views(paths@),
        ),
{
    let ghost pv = path_views(paths@);
    proof {
        assert(pv.subrange(0, pv.len() as int) =~= pv);
    }
    let mut i: usize = 0;
    while i < paths.len()
        invariant
            i <= paths@.len(),
            pv == path_views(paths@),
            plan_view(out@) + rw_steps(root@, pv.subrange(i as int, pv.len() as int)) == plan_view(
                old(out)@,
            ) + rw_steps(root@, pv),
        decreases paths@.len() - i,
    {
        let ghost rest = pv.subrange(i as int, pv.len() as int);
        let ghost before = plan_view(out@);
        proof {
            assert(rest[0] == pv[i as int]);
            assert(rest.drop_first() =~= pv.subrange(i + 1, pv.len() as int));
        }
        let pb = paths[i].as_str().as_bytes();
        out.push(MountStep::BindRw { source: to_vec(pb), target: target_path(root, pb) });
        proof {
            assert(plan_view(out@) =~= before + seq![
                StepView::BindRw { source: pv[i as int], target: target_of(root@, pv[i as int]) },
            ]);
            assert(plan_view(out@) + rw_steps(root@, pv.subrange(i + 1, pv.len() as int)) =~= before
                + rw_steps(root@, rest));
        }
        i = i + 1;
    }
    proof {
        assert(rw_steps(root@, pv.subrange(pv.len() as int, pv.len() as int)) =~= Seq::<
            StepView,
        >::empty());
        assert(plan_view(out@) =~= plan_view(out@) + rw_steps(
            root@,
            pv.subrange(pv.len() as int, pv.len() as int),
        ));
    }
}

/// Appends one bind per user mount, honouring the read-only flag.
fn push_user_binds(out: &mut Vec<MountStep>, root: &[u8], binds: &Vec<BindMount>)
    ensures
        plan_view(final(out)@) == plan_view(old(out)@) + user_bind_steps(
            root@,
            bind_views(binds@),
        ),
{
    let ghost bv = bind_views(binds@);
    proof {
        assert(bv.subrange(0, bv.len() as int) =~= bv);
    }
    let mut i: usize = 0;
    while i < binds.len()
        invariant
            i <= binds@.len(),
            bv == bind_views(binds@),
            plan_view(out@) + user_bind_steps(root@, bv.subrange(i as int, bv.len() as int))
                == plan_view(old(out)@) + user_bind_steps(root@, bv),
        decreases binds@.len() - i,
    {
        let ghost rest = bv.subrange(i as int, bv.len() as int);
        let ghost before = plan_view(out@);
        proof {
            assert(rest[0] == bv[i as int]);
            assert(rest.drop_first() =~= bv.subrange(i + 1, bv.len() as int));
        }
        let sb = binds[i].source.as_str().as_bytes();
        let db = binds[i].destination.as_str().as_bytes();
        if binds[i].readonly {
            out.push(MountStep::BindRo { source: to_vec(sb), target: target_path(root, db) });
        } else {
            out.push(MountStep::BindRw { source: to_vec(sb), target: target_path(root, db) });
        }
        proof {
            assert(plan_view(out@) + user_bind_steps(root@, bv.subrange(i + 1, bv.len() as int))
                =~= before + user_bind_steps(root@, rest));
        }
        i = i + 1;
    }
    proof {
        assert(user_bind_steps(root@, bv.subrange(bv.len() as int, bv.len() as int)) =~= Seq::<
            StepView,
        >::empty());
        assert(plan_view(out@) =~= plan_view(out@) + user_bind_steps(
            root@,
            bv.subrange(bv.len() as int, bv.len() as int),
        ));
    }
}

/// Appends the pivot and old-root teardown.
fn push_pivot(out: &mut Vec<MountStep>, root: &[u8], workdir: &[u8])
    ensures
        plan_view(final(out)@) == plan_view(old(out)@) + pivot_steps(root@, workdir@),
{
    proof {
        reveal_strlit("old_root");
        reveal_strlit("/");
        reveal_strlit("/old_root");
    }
    out.push(
        MountStep::PivotRoot { new_root: to_vec(root), old_root: under_path(root, "old_root") },
    );
    out.push(MountStep::Chdir { path: to_vec(lit_bytes("/")) });
    out.push(MountStep::MakeDir { path: to_vec(workdir) });
    out.push(MountStep::Chdir { path: to_vec(workdir) });
    out.push(MountStep::UmountDetach { path: to_vec(lit_bytes("/old_root")) });
    out.push(MountStep::RemoveDir { path: to_vec(lit_bytes("/old_root")) });
    assert(plan_view(out@) =~= plan_view(old(out)@) + pivot_steps(root@, workdir@));
}

/// The whole ordered plan for one execution, matching `spec_mount_plan`.
pub fn mount_plan(execution_id: &str, isolation: &IsolationConfig) -> (r: Vec<MountStep>)
    ensures
        plan_view(r@) == spec_mount_plan(execution_id@, *isolation),
{
    let root = rootfs_path(execution_id);
    let mut out: Vec<MountStep> = Vec::new();
    push_skeleton(&mut out, root.as_slice());
    push_system_binds(&mut out, root.as_slice());
    push_virtual_mounts(&mut out, root.as_slice());
    push_ro_paths(&mut out, root.as_slice(), &isolation.readonly_paths);
    push_rw_paths(&mut out, root.as_slice(), &isolation.writable_paths);
    push_user_binds(&mut out, root.as_slice(), &isolation.bind_mounts);
    push_pivot(&mut out, root.as_slice(), isolation.working_directory.as_str().as_bytes());
    assert(plan_view(out@) =~= spec_mount_plan(execution_id@, *isolation));
    out
}

} // verus!
