use capsule_run::fsplan::{mount_plan, rootfs_path, MountStep};
use capsule_run::namespaces::{propagated_exit, unshare_set, user_map_plan, NamespaceKind};
use capsule_run::monitor::ProcessStatus;
use capsule_run::sandbox::{cleanup_plan, setup_order, SetupStage};
use capsule_run::schema::{BindMount, IsolationConfig};
use capsule_run::seccomp_policy::{compose_filter, ArgRule, Sc};

#[test]
fn test_namespace_set() {
    let isolated = unshare_set(false);
    assert!(isolated.contains(&NamespaceKind::Net));
    assert_eq!(isolated.len(), 6);
    let networked = unshare_set(true);
    assert!(!networked.contains(&NamespaceKind::Net));
    assert_eq!(networked.len(), 5);
}

#[test]
fn test_user_namespace_files() {
    let plan = user_map_plan(4242, 1000, 1000);
    assert_eq!(plan.len(), 3);
    assert_eq!(plan[0].path, b"/proc/4242/uid_map".to_vec());
    assert_eq!(plan[0].content, b"0 1000 1\n".to_vec());
    assert_eq!(plan[1].path, b"/proc/4242/setgroups".to_vec());
    assert_eq!(plan[1].content, b"deny\n".to_vec());
    assert_eq!(plan[2].path, b"/proc/4242/gid_map".to_vec());
    assert_eq!(plan[2].content, b"0 1000 1\n".to_vec());
}

#[test]
fn test_exit_propagation() {
    assert_eq!(propagated_exit(ProcessStatus::Exited(7)), 7);
    assert_eq!(propagated_exit(ProcessStatus::Signaled(9)), 137);
    assert_eq!(propagated_exit(ProcessStatus::Unknown), 1);
}

#[test]
fn test_network_isolation() {
    // With the network disabled, the filter names no socket-family syscall
    // without a condition, and connect not at all; the default kills.
    let closed = compose_filter(false);
    assert!(closed.default_kill);
    for rule in &closed.rules {
        assert!(rule.sc != Sc::Connect);
        assert!(rule.sc != Sc::Bind);
        assert!(rule.sc != Sc::Sendto);
        if rule.sc == Sc::Socket {
            assert_eq!(rule.cond, Some(ArgRule::Equal { arg: 0, value: 1 }));
        }
        if rule.sc == Sc::Clone {
            assert_eq!(
                rule.cond,
                Some(ArgRule::MaskedEqual { arg: 0, mask: 65536, value: 65536 })
            );
        }
    }
    let open = compose_filter(true);
    assert!(open.rules.iter().any(|r| r.sc == Sc::Connect && r.cond.is_none()));
    assert_eq!(open.rules.len(), closed.rules.len() + 15);
    // The whole socket pack stands at the tail, unconditional, with every
    // base rule retained before it.
    let tail = &open.rules[open.rules.len() - 15..];
    let pack = [
        Sc::Socket, Sc::Bind, Sc::Listen, Sc::Accept, Sc::Accept4, Sc::Connect,
        Sc::Getsockname, Sc::Getpeername, Sc::Sendto, Sc::Recvfrom, Sc::Sendmsg,
        Sc::Recvmsg, Sc::Shutdown, Sc::Setsockopt, Sc::Getsockopt,
    ];
    for (rule, want) in tail.iter().zip(pack.iter()) {
        assert_eq!(rule.sc, *want);
        assert!(rule.cond.is_none());
    }
    for (kept, base) in open.rules.iter().zip(closed.rules.iter()) {
        assert_eq!(kept, base);
    }
}

#[test]
fn test_syscall_names() {
    assert_eq!(Sc::Openat.name(), "openat");
    assert_eq!(Sc::ExitGroup.name(), "exit_group");
    assert_eq!(Sc::RtSigaction.name(), "rt_sigaction");
}

#[test]
fn test_filesystem_manager_creation() {
    let id = "0e3af3b2-9d7c-4c3a-8f21-0123456789ab";
    let root = rootfs_path(id);
    let text = String::from_utf8(root).unwrap();
    assert!(text.contains(id));
    assert_eq!(text, format!("/tmp/capsule-{}", id));
}

#[test]
fn test_essential_directories() {
    let iso = IsolationConfig::default();
    let plan = mount_plan("abc", &iso);
    match &plan[0] {
        MountStep::MakeDir { path } => assert_eq!(path, &b"/tmp/capsule-abc".to_vec()),
        _ => panic!("the plan must begin by creating the scratch root"),
    }
    match &plan[1] {
        MountStep::MakeDir { path } => assert_eq!(path, &b"/tmp/capsule-abc/old_root".to_vec()),
        _ => panic!("the old-root landing comes second"),
    }
    // The plan ends by unmounting and removing the old root.
    match &plan[plan.len() - 1] {
        MountStep::RemoveDir { path } => assert_eq!(path, &b"/old_root".to_vec()),
        _ => panic!("the plan must end by removing the old root"),
    }
    match &plan[plan.len() - 2] {
        MountStep::UmountDetach { path } => assert_eq!(path, &b"/old_root".to_vec()),
        _ => panic!("the detach comes before the removal"),
    }
    // The pivot stands after every mount step.
    let pivot_at = plan
        .iter()
        .position(|s| matches!(s, MountStep::PivotRoot { .. }))
        .expect("a pivot step");
    for step in &plan[pivot_at..] {
        assert!(!matches!(
            step,
            MountStep::BindRo { .. }
                | MountStep::BindRw { .. }
                | MountStep::MountTmpfs { .. }
                | MountStep::MountProc { .. }
                | MountStep::MountSys { .. }
        ));
    }
}

#[test]
fn test_user_paths_in_plan() {
    let iso = IsolationConfig {
        network: false,
        readonly_paths: vec!["/opt/data".to_string()],
        writable_paths: vec!["/scratch".to_string()],
        working_directory: "/workspace".to_string(),
        bind_mounts: vec![BindMount {
            source: "/host/a".to_string(),
            destination: "/a".to_string(),
            readonly: false,
        }],
    };
    let plan = mount_plan("x", &iso);
    assert!(plan.iter().any(|s| matches!(
        s,
        MountStep::BindRo { source, target }
            if source == &b"/opt/data".to_vec() && target == &b"/tmp/capsule-x/opt/data".to_vec()
    )));
    assert!(plan.iter().any(|s| matches!(
        s,
        MountStep::BindRw { source, target }
            if source == &b"/scratch".to_vec() && target == &b"/tmp/capsule-x/scratch".to_vec()
    )));
    assert!(plan.iter().any(|s| matches!(
        s,
        MountStep::BindRw { source, target }
            if source == &b"/host/a".to_vec() && target == &b"/tmp/capsule-x/a".to_vec()
    )));
}

#[test]
fn test_setup_order() {
    let order = setup_order();
    assert_eq!(
        order,
        vec![
            SetupStage::Namespaces,
            SetupStage::CgroupLimits,
            SetupStage::Filesystem,
            SetupStage::FilterCompose,
            SetupStage::DropCapsAndLoadFilter,
        ]
    );
}

#[test]
fn test_cleanup_footprint() {
    // After cleanup, nothing of the execution remains: the plan names the
    // scratch root and the cgroup leaf, the only paths the engine creates.
    let plan = cleanup_plan(b"/sys/fs/cgroup", "run-1");
    assert_eq!(plan.rootfs, b"/tmp/capsule-run-1".to_vec());
    assert_eq!(plan.cgroup_leaf, b"/sys/fs/cgroup/capsule-run/run-1".to_vec());
}
