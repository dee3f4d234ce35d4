//! The sandbox façade: the fixed order of the setup stages, and the cleanup
//! plan that names exactly the execution's filesystem footprint.

use crate::cgroup::spec_leaf_path;
use crate::fsplan::spec_rootfs_path;
use vstd::prelude::*;

verus! {

pub use crate::monitor::ResourceUsage;

/// One stage of isolation setup. The order is fixed: namespaces first, so
/// everything after runs in the new user and mount space; then the cgroup
/// leaf and its limits, before any fork; then the root filesystem and the
/// pivot, which need the new mount namespace; then the filter is composed;
/// capabilities are dropped and the filter loaded last, in the child, so
/// its restrictions cannot block the setup itself.
#[derive(Clone, Copy, Debug, PartialEq, Eq, Structural)]
pub enum SetupStage {
    Namespaces,
    CgroupLimits,
    Filesystem,
    FilterCompose,
    DropCapsAndLoadFilter,
}

/// The stages in their one valid order.
pub fn setup_order() -> (r: Vec<SetupStage>)
    ensures
        r@ == seq![
            SetupStage::Namespaces,
            SetupStage::CgroupLimits,
            SetupStage::Filesystem,
            SetupStage::FilterCompose,
            SetupStage::DropCapsAndLoadFilter,
        ],
{
    let mut out: Vec<SetupStage> = Vec::new();
    out.push(SetupStage::Namespaces);
    out.push(SetupStage::CgroupLimits);
    out.push(SetupStage::Filesystem);
    out.push(SetupStage::FilterCompose);
    out.push(SetupStage::DropCapsAndLoadFilter);
    assert(out@ =~= seq![
        SetupStage::Namespaces,
        SetupStage::CgroupLimits,
        SetupStage::Filesystem,
        SetupStage::FilterCompose,
        SetupStage::DropCapsAndLoadFilter,
    ]);
    out
}

/// What a finished execution must remove: its scratch root and its cgroup
/// leaf, and nothing else.
pub struct CleanupPlan {
    pub rootfs: Vec<u8>,
    pub cgroup_leaf: Vec<u8>,
}

/// The cleanup plan for one execution: exactly the scratch root under the
/// temporary directory and the leaf under the cgroup mount. Removing both,
/// recursively and tolerating absence, leaves no footprint behind.
pub fn cleanup_plan(cgroup_mount: &[u8], execution_id: &str) -> (r: CleanupPlan)
    ensures
        r.rootfs@ == spec_rootfs_path(execution_id@),
        r.cgroup_leaf@ == spec_leaf_path(cgroup_mount@, execution_id@),
{
    CleanupPlan {
        rootfs: crate::fsplan::rootfs_path(execution_id),
        cgroup_leaf: crate::cgroup::leaf_path(cgroup_mount, execution_id),
    }
}

} // verus!
