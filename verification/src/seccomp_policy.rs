//! The syscall filter policy: a kill-by-default allowlist with argument
//! conditions on the delicate calls, and a socket pack appended only when
//! the network is enabled.

use vstd::prelude::*;

verus! {

/// The system calls the policy can name.
#[derive(Clone, Copy, Debug, PartialEq, Eq, Structural)]
pub enum Sc {
    Read,
    Write,
    Readv,
    Writev,
    Pread64,
    Pwrite64,
    Close,
    Lseek,
    Open,
    Openat,
    Creat,
    Access,
    Faccessat,
    Stat,
    Fstat,
    Lstat,
    Newfstatat,
    Readlink,
    Readlinkat,
    Getcwd,
    Chdir,
    Fchdir,
    Mkdir,
    Mkdirat,
    Rmdir,
    Unlink,
    Unlinkat,
    Rename,
    Renameat,
    Renameat2,
    Link,
    Linkat,
    Symlink,
    Symlinkat,
    Chmod,
    Fchmod,
    Fchmodat,
    Chown,
    Fchown,
    Lchown,
    Fchownat,
    Truncate,
    Ftruncate,
    Fallocate,
    Fsync,
    Fdatasync,
    Sync,
    Syncfs,
    Dup,
    Dup2,
    Dup3,
    Pipe,
    Pipe2,
    Getdents,
    Getdents64,
    Mmap,
    Munmap,
    Mprotect,
    Madvise,
    Mlock,
    Munlock,
    Mlockall,
    Munlockall,
    Brk,
    Mlock2,
    MemfdCreate,
    Getpid,
    Getppid,
    Getuid,
    Geteuid,
    Getgid,
    Getegid,
    Getgroups,
    Setuid,
    Setgid,
    Setgroups,
    Setsid,
    Getpgrp,
    Setpgid,
    Getpgid,
    Getsid,
    Time,
    Gettimeofday,
    Settimeofday,
    ClockGettime,
    ClockSettime,
    ClockGetres,
    ClockNanosleep,
    Nanosleep,
    Alarm,
    Pause,
    Kill,
    Tkill,
    Tgkill,
    Sigaltstack,
    RtSigaction,
    RtSigprocmask,
    RtSigpending,
    RtSigsuspend,
    RtSigtimedwait,
    RtSigqueueinfo,
    RtSigreturn,
    Execve,
    Execveat,
    Fork,
    Vfork,
    Wait4,
    Waitid,
    Exit,
    ExitGroup,
    Select,
    Pselect6,
    Poll,
    Ppoll,
    EpollCreate,
    EpollCreate1,
    EpollCtl,
    EpollWait,
    EpollPwait,
    Eventfd,
    Eventfd2,
    Signalfd,
    Signalfd4,
    TimerfdCreate,
    TimerfdSettime,
    TimerfdGettime,
    Getrlimit,
    Setrlimit,
    Prlimit64,
    Getrusage,
    Futex,
    SetThreadArea,
    GetThreadArea,
    SetTidAddress,
    Gettid,
    ArchPrctl,
    Statfs,
    Fstatfs,
    Fcntl,
    Ioctl,
    Socket,
    Bind,
    Listen,
    Accept,
    Accept4,
    Connect,
    Getsockname,
    Getpeername,
    Sendto,
    Recvfrom,
    Sendmsg,
    Recvmsg,
    Shutdown,
    Setsockopt,
    Getsockopt,
    Clone,
    Prctl,
}

/// The kernel name of each system call, for loading the filter.
pub open spec fn spec_sc_name(sc: Sc) -> Seq<char> {
    match sc {
        Sc::Read => "read"@,
        Sc::Write => "write"@,
        Sc::Readv => "readv"@,
        Sc::Writev => "writev"@,
        Sc::Pread64 => "pread64"@,
        Sc::Pwrite64 => "pwrite64"@,
        Sc::Close => "close"@,
        Sc::Lseek => "lseek"@,
        Sc::Open => "open"@,
        Sc::Openat => "openat"@,
        Sc::Creat => "creat"@,
        Sc::Access => "access"@,
        Sc::Faccessat => "faccessat"@,
        Sc::Stat => "stat"@,
        Sc::Fstat => "fstat"@,
        Sc::Lstat => "lstat"@,
        Sc::Newfstatat => "newfstatat"@,
        Sc::Readlink => "readlink"@,
        Sc::Readlinkat => "readlinkat"@,
        Sc::Getcwd => "getcwd"@,
        Sc::Chdir => "chdir"@,
        Sc::Fchdir => "fchdir"@,
        Sc::Mkdir => "mkdir"@,
        Sc::Mkdirat => "mkdirat"@,
        Sc::Rmdir => "rmdir"@,
        Sc::Unlink => "unlink"@,
        Sc::Unlinkat => "unlinkat"@,
        Sc::Rename => "rename"@,
        Sc::Renameat => "renameat"@,
        Sc::Renameat2 => "renameat2"@,
        Sc::Link => "link"@,
        Sc::Linkat => "linkat"@,
        Sc::Symlink => "symlink"@,
        Sc::Symlinkat => "symlinkat"@,
        Sc::Chmod => "chmod"@,
        Sc::Fchmod => "fchmod"@,
        Sc::Fchmodat => "fchmodat"@,
        Sc::Chown => "chown"@,
        Sc::Fchown => "fchown"@,
        Sc::Lchown => "lchown"@,
        Sc::Fchownat => "fchownat"@,
        Sc::Truncate => "truncate"@,
        Sc::Ftruncate => "ftruncate"@,
        Sc::Fallocate => "fallocate"@,
        Sc::Fsync => "fsync"@,
        Sc::Fdatasync => "fdatasync"@,
        Sc::Sync => "sync"@,
        Sc::Syncfs => "syncfs"@,
        Sc::Dup => "dup"@,
        Sc::Dup2 => "dup2"@,
        Sc::Dup3 => "dup3"@,
        Sc::Pipe => "pipe"@,
        Sc::Pipe2 => "pipe2"@,
        Sc::Getdents => "getdents"@,
        Sc::Getdents64 => "getdents64"@,
        Sc::Mmap => "mmap"@,
        Sc::Munmap => "munmap"@,
        Sc::Mprotect => "mprotect"@,
        Sc::Madvise => "madvise"@,
        Sc::Mlock => "mlock"@,
        Sc::Munlock => "munlock"@,
        Sc::Mlockall => "mlockall"@,
        Sc::Munlockall => "munlockall"@,
        Sc::Brk => "brk"@,
        Sc::Mlock2 => "mlock2"@,
        Sc::MemfdCreate => "memfd_create"@,
        Sc::Getpid => "getpid"@,
        Sc::Getppid => "getppid"@,
        Sc::Getuid => "getuid"@,
        Sc::Geteuid => "geteuid"@,
        Sc::Getgid => "getgid"@,
        Sc::Getegid => "getegid"@,
        Sc::Getgroups => "getgroups"@,
        Sc::Setuid => "setuid"@,
        Sc::Setgid => "setgid"@,
        Sc::Setgroups => "setgroups"@,
        Sc::Setsid => "setsid"@,
        Sc::Getpgrp => "getpgrp"@,
        Sc::Setpgid => "setpgid"@,
        Sc::Getpgid => "getpgid"@,
        Sc::Getsid => "getsid"@,
        Sc::Time => "time"@,
        Sc::Gettimeofday => "gettimeofday"@,
        Sc::Settimeofday => "settimeofday"@,
        Sc::ClockGettime => "clock_gettime"@,
        Sc::ClockSettime => "clock_settime"@,
        Sc::ClockGetres => "clock_getres"@,
        Sc::ClockNanosleep => "clock_nanosleep"@,
        Sc::Nanosleep => "nanosleep"@,
        Sc::Alarm => "alarm"@,
        Sc::Pause => "pause"@,
        Sc::Kill => "kill"@,
        Sc::Tkill => "tkill"@,
        Sc::Tgkill => "tgkill"@,
        Sc::Sigaltstack => "sigaltstack"@,
        Sc::RtSigaction => "rt_sigaction"@,
        Sc::RtSigprocmask => "rt_sigprocmask"@,
        Sc::RtSigpending => "rt_sigpending"@,
        Sc::RtSigsuspend => "rt_sigsuspend"@,
        Sc::RtSigtimedwait => "rt_sigtimedwait"@,
        Sc::RtSigqueueinfo => "rt_sigqueueinfo"@,
        Sc::RtSigreturn => "rt_sigreturn"@,
        Sc::Execve => "execve"@,
        Sc::Execveat => "execveat"@,
        Sc::Fork => "fork"@,
        Sc::Vfork => "vfork"@,
        Sc::Wait4 => "wait4"@,
        Sc::Waitid => "waitid"@,
        Sc::Exit => "exit"@,
        Sc::ExitGroup => "exit_group"@,
        Sc::Select => "select"@,
        Sc::Pselect6 => "pselect6"@,
        Sc::Poll => "poll"@,
        Sc::Ppoll => "ppoll"@,
        Sc::EpollCreate => "epoll_create"@,
        Sc::EpollCreate1 => "epoll_create1"@,
        Sc::EpollCtl => "epoll_ctl"@,
        Sc::EpollWait => "epoll_wait"@,
        Sc::EpollPwait => "epoll_pwait"@,
        Sc::Eventfd => "eventfd"@,
        Sc::Eventfd2 => "eventfd2"@,
        Sc::Signalfd => "signalfd"@,
        Sc::Signalfd4 => "signalfd4"@,
        Sc::TimerfdCreate => "timerfd_create"@,
        Sc::TimerfdSettime => "timerfd_settime"@,
        Sc::TimerfdGettime => "timerfd_gettime"@,
        Sc::Getrlimit => "getrlimit"@,
        Sc::Setrlimit => "setrlimit"@,
        Sc::Prlimit64 => "prlimit64"@,
        Sc::Getrusage => "getrusage"@,
        Sc::Futex => "futex"@,
        Sc::SetThreadArea => "set_thread_area"@,
        Sc::GetThreadArea => "get_thread_area"@,
        Sc::SetTidAddress => "set_tid_address"@,
        Sc::Gettid => "gettid"@,
        Sc::ArchPrctl => "arch_prctl"@,
        Sc::Statfs => "statfs"@,
        Sc::Fstatfs => "fstatfs"@,
        Sc::Fcntl => "fcntl"@,
        Sc::Ioctl => "ioctl"@,
        Sc::Socket => "socket"@,
        Sc::Bind => "bind"@,
        Sc::Listen => "listen"@,
        Sc::Accept => "accept"@,
        Sc::Accept4 => "accept4"@,
        Sc::Connect => "connect"@,
        Sc::Getsockname => "getsockname"@,
        Sc::Getpeername => "getpeername"@,
        Sc::Sendto => "sendto"@,
        Sc::Recvfrom => "recvfrom"@,
        Sc::Sendmsg => "sendmsg"@,
        Sc::Recvmsg => "recvmsg"@,
        Sc::Shutdown => "shutdown"@,
        Sc::Setsockopt => "setsockopt"@,
        Sc::Getsockopt => "getsockopt"@,
        Sc::Clone => "clone"@,
        Sc::Prctl => "prctl"@,
    }
}

impl Sc {
    /// The kernel name of this system call.
    pub fn name(&self) -> (r: &'static str)
        ensures
            r@ == spec_sc_name(*self),
    {
        match self {
            Sc::Read => "read",
            Sc::Write => "write",
            Sc::Readv => "readv",
            Sc::Writev => "writev",
            Sc::Pread64 => "pread64",
            Sc::Pwrite64 => "pwrite64",
            Sc::Close => "close",
            Sc::Lseek => "lseek",
            Sc::Open => "open",
            Sc::Openat => "openat",
            Sc::Creat => "creat",
            Sc::Access => "access",
            Sc::Faccessat => "faccessat",
            Sc::Stat => "stat",
            Sc::Fstat => "fstat",
            Sc::Lstat => "lstat",
            Sc::Newfstatat => "newfstatat",
            Sc::Readlink => "readlink",
            Sc::Readlinkat => "readlinkat",
            Sc::Getcwd => "getcwd",
            Sc::Chdir => "chdir",
            Sc::Fchdir => "fchdir",
            Sc::Mkdir => "mkdir",
            Sc::Mkdirat => "mkdirat",
            Sc::Rmdir => "rmdir",
            Sc::Unlink => "unlink",
            Sc::Unlinkat => "unlinkat",
            Sc::Rename => "rename",
            Sc::Renameat => "renameat",
            Sc::Renameat2 => "renameat2",
            Sc::Link => "link",
            Sc::Linkat => "linkat",
            Sc::Symlink => "symlink",
            Sc::Symlinkat => "symlinkat",
            Sc::Chmod => "chmod",
            Sc::Fchmod => "fchmod",
            Sc::Fchmodat => "fchmodat",
            Sc::Chown => "chown",
            Sc::Fchown => "fchown",
            Sc::Lchown => "lchown",
            Sc::Fchownat => "fchownat",
            Sc::Truncate => "truncate",
            Sc::Ftruncate => "ftruncate",
            Sc::Fallocate => "fallocate",
            Sc::Fsync => "fsync",
            Sc::Fdatasync => "fdatasync",
            Sc::Sync => "sync",
            Sc::Syncfs => "syncfs",
            Sc::Dup => "dup",
            Sc::Dup2 => "dup2",
            Sc::Dup3 => "dup3",
            Sc::Pipe => "pipe",
            Sc::Pipe2 => "pipe2",
            Sc::Getdents => "getdents",
            Sc::Getdents64 => "getdents64",
            Sc::Mmap => "mmap",
            Sc::Munmap => "munmap",
            Sc::Mprotect => "mprotect",
            Sc::Madvise => "madvise",
            Sc::Mlock => "mlock",
            Sc::Munlock => "munlock",
            Sc::Mlockall => "mlockall",
            Sc::Munlockall => "munlockall",
            Sc::Brk => "brk",
            Sc::Mlock2 => "mlock2",
            Sc::MemfdCreate => "memfd_create",
            Sc::Getpid => "getpid",
            Sc::Getppid => "getppid",
            Sc::Getuid => "getuid",
            Sc::Geteuid => "geteuid",
            Sc::Getgid => "getgid",
            Sc::Getegid => "getegid",
            Sc::Getgroups => "getgroups",
            Sc::Setuid => "setuid",
            Sc::Setgid => "setgid",
            Sc::Setgroups => "setgroups",
            Sc::Setsid => "setsid",
            Sc::Getpgrp => "getpgrp",
            Sc::Setpgid => "setpgid",
            Sc::Getpgid => "getpgid",
            Sc::Getsid => "getsid",
            Sc::Time => "time",
            Sc::Gettimeofday => "gettimeofday",
            Sc::Settimeofday => "settimeofday",
            Sc::ClockGettime => "clock_gettime",
            Sc::ClockSettime => "clock_settime",
            Sc::ClockGetres => "clock_getres",
            Sc::ClockNanosleep => "clock_nanosleep",
            Sc::Nanosleep => "nanosleep",
            Sc::Alarm => "alarm",
            Sc::Pause => "pause",
            Sc::Kill => "kill",
            Sc::Tkill => "tkill",
            Sc::Tgkill => "tgkill",
            Sc::Sigaltstack => "sigaltstack",
            Sc::RtSigaction => "rt_sigaction",
            Sc::RtSigprocmask => "rt_sigprocmask",
            Sc::RtSigpending => "rt_sigpending",
            Sc::RtSigsuspend => "rt_sigsuspend",
            Sc::RtSigtimedwait => "rt_sigtimedwait",
            Sc::RtSigqueueinfo => "rt_sigqueueinfo",
            Sc::RtSigreturn => "rt_sigreturn",
            Sc::Execve => "execve",
            Sc::Execveat => "execveat",
            Sc::Fork => "fork",
            Sc::Vfork => "vfork",
            Sc::Wait4 => "wait4",
            Sc::Waitid => "waitid",
            Sc::Exit => "exit",
            Sc::ExitGroup => "exit_group",
            Sc::Select => "select",
            Sc::Pselect6 => "pselect6",
            Sc::Poll => "poll",
            Sc::Ppoll => "ppoll",
            Sc::EpollCreate => "epoll_create",
            Sc::EpollCreate1 => "epoll_create1",
            Sc::EpollCtl => "epoll_ctl",
            Sc::EpollWait => "epoll_wait",
            Sc::EpollPwait => "epoll_pwait",
            Sc::Eventfd => "eventfd",
            Sc::Eventfd2 => "eventfd2",
            Sc::Signalfd => "signalfd",
            Sc::Signalfd4 => "signalfd4",
            Sc::TimerfdCreate => "timerfd_create",
            Sc::TimerfdSettime => "timerfd_settime",
            Sc::TimerfdGettime => "timerfd_gettime",
            Sc::Getrlimit => "getrlimit",
            Sc::Setrlimit => "setrlimit",
            Sc::Prlimit64 => "prlimit64",
            Sc::Getrusage => "getrusage",
            Sc::Futex => "futex",
            Sc::SetThreadArea => "set_thread_area",
            Sc::GetThreadArea => "get_thread_area",
            Sc::SetTidAddress => "set_tid_address",
            Sc::Gettid => "gettid",
            Sc::ArchPrctl => "arch_prctl",
            Sc::Statfs => "statfs",
            Sc::Fstatfs => "fstatfs",
            Sc::Fcntl => "fcntl",
            Sc::Ioctl => "ioctl",
            Sc::Socket => "socket",
            Sc::Bind => "bind",
            Sc::Listen => "listen",
            Sc::Accept => "accept",
            Sc::Accept4 => "accept4",
            Sc::Connect => "connect",
            Sc::Getsockname => "getsockname",
            Sc::Getpeername => "getpeername",
            Sc::Sendto => "sendto",
            Sc::Recvfrom => "recvfrom",
            Sc::Sendmsg => "sendmsg",
            Sc::Recvmsg => "recvmsg",
            Sc::Shutdown => "shutdown",
            Sc::Setsockopt => "setsockopt",
            Sc::Getsockopt => "getsockopt",
            Sc::Clone => "clone",
            Sc::Prctl => "prctl",
        }
    }
}

/// An argument condition on a rule.
#[derive(Clone, Copy, Debug, PartialEq, Eq, Structural)]
pub enum ArgRule {
    Equal { arg: u32, value: u64 },
    MaskedEqual { arg: u32, mask: u64, value: u64 },
}

/// One allowlist entry: a syscall, admitted unconditionally or under an
/// argument condition.
#[derive(Clone, Copy, Debug, PartialEq, Eq, Structural)]
pub struct SyscallRule {
    pub sc: Sc,
    pub cond: Option<ArgRule>,
}

/// The whole filter: kill the process by default, admit the listed rules.
pub struct FilterPolicy {
    pub default_kill: bool,
    pub rules: Vec<SyscallRule>,
}

/// The clone-flags bit that marks thread creation.
pub const CLONE_THREAD_FLAG: u64 = 65536;

/// The two thread-name operations admitted through prctl.
pub const PR_SET_NAME_OP: u64 = 15;

pub const PR_GET_NAME_OP: u64 = 16;

/// The local socket family admitted without the network pack.
pub const AF_UNIX_FAMILY: u64 = 1;

/// True of the socket-family syscalls that only the network pack admits
/// unconditionally.
pub open spec fn is_net_syscall(sc: Sc) -> bool {
    sc == Sc::Socket || sc == Sc::Bind || sc == Sc::Listen || sc == Sc::Accept || sc == Sc::Accept4
        || sc == Sc::Connect || sc == Sc::Getsockname || sc == Sc::Getpeername || sc == Sc::Sendto
        || sc == Sc::Recvfrom || sc == Sc::Sendmsg || sc == Sc::Recvmsg || sc == Sc::Shutdown
        || sc == Sc::Setsockopt || sc == Sc::Getsockopt
}

/// True when some rule names the syscall, under any condition.
pub open spec fn rule_present(rules: Seq<SyscallRule>, sc: Sc) -> bool {
    exists|i: int| 0 <= i < rules.len() && (#[trigger] rules[i]).sc == sc
}

/// No socket-family syscall is admitted without a condition.
pub open spec fn no_net_unconditional(rules: Seq<SyscallRule>) -> bool {
    forall|i: int|
        0 <= i < rules.len() && is_net_syscall((#[trigger] rules[i]).sc) ==> rules[i].cond is Some
}

/// No rule names connect at all.
pub open spec fn no_connect(rules: Seq<SyscallRule>) -> bool {
    forall|i: int| 0 <= i < rules.len() ==> (#[trigger] rules[i]).sc != Sc::Connect
}

/// Thread creation and thread naming carry exactly their conditions.
pub open spec fn rules_conditioned(rules: Seq<SyscallRule>) -> bool {
    (forall|i: int|
        0 <= i < rules.len() && (#[trigger] rules[i]).sc == Sc::Clone ==> rules[i].cond == Some(
            ArgRule::MaskedEqual { arg: 0, mask: CLONE_THREAD_FLAG, value: CLONE_THREAD_FLAG },
        )) && (forall|i: int|
        0 <= i < rules.len() && (#[trigger] rules[i]).sc == Sc::Prctl ==> rules[i].cond == Some(
            ArgRule::Equal { arg: 0, value: PR_SET_NAME_OP },
        ) || rules[i].cond == Some(ArgRule::Equal { arg: 0, value: PR_GET_NAME_OP }))
}

/// Every socket rule admits only the local family.
pub open spec fn socket_local_only(rules: Seq<SyscallRule>) -> bool {
    forall|i: int|
        0 <= i < rules.len() && (#[trigger] rules[i]).sc == Sc::Socket ==> rules[i].cond == Some(
            ArgRule::Equal { arg: 0, value: AF_UNIX_FAMILY },
        )
}

/// The socket pack: the fifteen socket-family syscalls, unconditional, in
/// their listed order.
pub open spec fn net_pack() -> Seq<SyscallRule> {
    seq![
        SyscallRule { sc: Sc::Socket, cond: None },
        SyscallRule { sc: Sc::Bind, cond: None },
        SyscallRule { sc: Sc::Listen, cond: None },
        SyscallRule { sc: Sc::Accept, cond: None },
        SyscallRule { sc: Sc::Accept4, cond: None },
        SyscallRule { sc: Sc::Connect, cond: None },
        SyscallRule { sc: Sc::Getsockname, cond: None },
        SyscallRule { sc: Sc::Getpeername, cond: None },
        SyscallRule { sc: Sc::Sendto, cond: None },
        SyscallRule { sc: Sc::Recvfrom, cond: None },
        SyscallRule { sc: Sc::Sendmsg, cond: None },
        SyscallRule { sc: Sc::Recvmsg, cond: None },
        SyscallRule { sc: Sc::Shutdown, cond: None },
        SyscallRule { sc: Sc::Setsockopt, cond: None },
        SyscallRule { sc: Sc::Getsockopt, cond: None },
    ]
}

/// The composed rules end with exactly the socket pack.
pub open spec fn net_pack_at_tail(rules: Seq<SyscallRule>) -> bool {
    rules.len() >= net_pack().len() && rules.subrange(
        rules.len() - net_pack().len(),
        rules.len() as int,
    ) == net_pack()
}

/// What a composed filter guarantees: everything refused by default; with
/// the network off, no socket-family rule stands unconditioned, connect has
/// no rule at all, and sockets admit only the local family; thread creation
/// and naming always carry their conditions; execution and basic I/O are
/// admitted; with the network on, connect is admitted and the whole socket
/// pack stands, appended after every base rule.
pub open spec fn filter_well_formed(p: FilterPolicy, network: bool) -> bool {
    &&& p.default_kill
    &&& (!network ==> no_net_unconditional(p.rules@))
    &&& (!network ==> no_connect(p.rules@))
    &&& (!network ==> socket_local_only(p.rules@))
    &&& rules_conditioned(p.rules@)
    &&& rule_present(p.rules@, Sc::Execve)
    &&& rule_present(p.rules@, Sc::Read)
    &&& rule_present(p.rules@, Sc::Write)
    &&& rule_present(p.rules@, Sc::ExitGroup)
    &&& (network ==> rule_present(p.rules@, Sc::Connect))
    &&& (network ==> net_pack_at_tail(p.rules@))
}

/// Appends one unconditional rule for a syscall outside the delicate set,
/// carrying every structural property forward.
fn allow(rules: &mut Vec<SyscallRule>, sc: Sc)
    requires
        !is_net_syscall(sc),
        sc != Sc::Connect,
        sc != Sc::Clone,
        sc != Sc::Prctl,
    ensures
        final(rules)@.len() == old(rules)@.len() + 1,
        no_net_unconditional(old(rules)@) ==> no_net_unconditional(final(rules)@),
        no_connect(old(rules)@) ==> no_connect(final(rules)@),
        rules_conditioned(old(rules)@) ==> rules_conditioned(final(rules)@),
        socket_local_only(old(rules)@) ==> socket_local_only(final(rules)@),
        forall|x: Sc| rule_present(old(rules)@, x) ==> rule_present(final(rules)@, x),
        rule_present(final(rules)@, sc),
{
    let ghost before = rules@;
    rules.push(SyscallRule { sc, cond: None });
    proof {
        assert(rules@.last().sc == sc);
        assert forall|x: Sc| rule_present(before, x) implies rule_present(rules@, x) by {
            let i = choose|i: int| 0 <= i < before.len() && (#[trigger] before[i]).sc == x;
            assert((rules@[i]).sc == x);
        }
        assert((rules@[rules@.len() - 1]).sc == sc);
    }
}

/// Appends one conditional rule for a delicate syscall, carrying every
/// structural property forward.
fn allow_when(rules: &mut Vec<SyscallRule>, sc: Sc, cond: ArgRule)
    requires
        sc != Sc::Connect,
        sc == Sc::Clone ==> cond == (ArgRule::MaskedEqual {
            arg: 0,
            mask: CLONE_THREAD_FLAG,
            value: CLONE_THREAD_FLAG,
        }),
        sc == Sc::Prctl ==> cond == (ArgRule::Equal { arg: 0, value: PR_SET_NAME_OP }) || cond == (
        ArgRule::Equal { arg: 0, value: PR_GET_NAME_OP }),
        sc == Sc::Socket ==> cond == (ArgRule::Equal { arg: 0, value: AF_UNIX_FAMILY }),
    ensures
        final(rules)@.len() == old(rules)@.len() + 1,
        no_net_unconditional(old(rules)@) ==> no_net_unconditional(final(rules)@),
        no_connect(old(rules)@) ==> no_connect(final(rules)@),
        rules_conditioned(old(rules)@) ==> rules_conditioned(final(rules)@),
        socket_local_only(old(rules)@) ==> socket_local_only(final(rules)@),
        forall|x: Sc| rule_present(old(rules)@, x) ==> rule_present(final(rules)@, x),
        rule_present(final(rules)@, sc),
{
    let ghost before = rules@;
    rules.push(SyscallRule { sc, cond: Some(cond) });
    proof {
        assert forall|x: Sc| rule_present(before, x) implies rule_present(rules@, x) by {
            let i = choose|i: int| 0 <= i < before.len() && (#[trigger] before[i]).sc == x;
            assert((rules@[i]).sc == x);
        }
        assert((rules@[rules@.len() - 1]).sc == sc);
    }
}

/// Appends one unconditional socket-family rule of the network pack.
fn allow_net(rules: &mut Vec<SyscallRule>, sc: Sc)
    requires
        sc != Sc::Clone,
        sc != Sc::Prctl,
    ensures
        final(rules)@ == old(rules)@ + seq![SyscallRule { sc, cond: None }],
        rules_conditioned(old(rules)@) ==> rules_conditioned(final(rules)@),
        forall|x: Sc| rule_present(old(rules)@, x) ==> rule_present(final(rules)@, x),
        rule_present(final(rules)@, sc),
{
    let ghost before = rules@;
    rules.push(SyscallRule { sc, cond: None });
    proof {
        assert forall|x: Sc| rule_present(before, x) implies rule_present(rules@, x) by {
            let i = choose|i: int| 0 <= i < before.len() && (#[trigger] before[i]).sc == x;
            assert((rules@[i]).sc == x);
        }
        assert((rules@[rules@.len() - 1]).sc == sc);
    }
}

/// Basic I/O and file and directory operations.
fn push_file_rules(rules: &mut Vec<SyscallRule>)
    ensures
        no_net_unconditional(old(rules)@) ==> no_net_unconditional(final(rules)@),
        no_connect(old(rules)@) ==> no_connect(final(rules)@),
        rules_conditioned(old(rules)@) ==> rules_conditioned(final(rules)@),
        socket_local_only(old(rules)@) ==> socket_local_only(final(rules)@),
        forall|x: Sc| rule_present(old(rules)@, x) ==> rule_present(final(rules)@, x),
        rule_present(final(rules)@, Sc::Read),
        rule_present(final(rules)@, Sc::Write),
{
    allow(rules, Sc::Read);
    allow(rules, Sc::Write);
    allow(rules, Sc::Readv);
    allow(rules, Sc::Writev);
    allow(rules, Sc::Pread64);
    allow(rules, Sc::Pwrite64);
    allow(rules, Sc::Close);
    allow(rules, Sc::Lseek);
    allow(rules, Sc::Open);
    allow(rules, Sc::Openat);
    allow(rules, Sc::Creat);
    allow(rules, Sc::Access);
    allow(rules, Sc::Faccessat);
    allow(rules, Sc::Stat);
    allow(rules, Sc::Fstat);
    allow(rules, Sc::Lstat);
    allow(rules, Sc::Newfstatat);
    allow(rules, Sc::Readlink);
    allow(rules, Sc::Readlinkat);
    allow(rules, Sc::Getcwd);
    allow(rules, Sc::Chdir);
    allow(rules, Sc::Fchdir);
    allow(rules, Sc::Mkdir);
    allow(rules, Sc::Mkdirat);
    allow(rules, Sc::Rmdir);
    allow(rules, Sc::Unlink);
    allow(rules, Sc::Unlinkat);
    allow(rules, Sc::Rename);
    allow(rules, Sc::Renameat);
    allow(rules, Sc::Renameat2);
    allow(rules, Sc::Link);
    allow(rules, Sc::Linkat);
    allow(rules, Sc::Symlink);
    allow(rules, Sc::Symlinkat);
    allow(rules, Sc::Chmod);
    allow(rules, Sc::Fchmod);
    allow(rules, Sc::Fchmodat);
    allow(rules, Sc::Chown);
    allow(rules, Sc::Fchown);
    allow(rules, Sc::Lchown);
    allow(rules, Sc::Fchownat);
    allow(rules, Sc::Truncate);
    allow(rules, Sc::Ftruncate);
    allow(rules, Sc::Fallocate);
    allow(rules, Sc::Fsync);
    allow(rules, Sc::Fdatasync);
    allow(rules, Sc::Sync);
    allow(rules, Sc::Syncfs);
    allow(rules, Sc::Dup);
    allow(rules, Sc::Dup2);
    allow(rules, Sc::Dup3);
    allow(rules, Sc::Pipe);
    allow(rules, Sc::Pipe2);
    allow(rules, Sc::Getdents);
    allow(rules, Sc::Getdents64);
}

/// Memory management and descriptor duplication.
fn push_fs_info_rules(rules: &mut Vec<SyscallRule>)
    ensures
        no_net_unconditional(old(rules)@) ==> no_net_unconditional(final(rules)@),
        no_connect(old(rules)@) ==> no_connect(final(rules)@),
        rules_conditioned(old(rules)@) ==> rules_conditioned(final(rules)@),
        socket_local_only(old(rules)@) ==> socket_local_only(final(rules)@),
        forall|x: Sc| rule_present(old(rules)@, x) ==> rule_present(final(rules)@, x),
{
    allow(rules, Sc::Mmap);
    allow(rules, Sc::Munmap);
    allow(rules, Sc::Mprotect);
    allow(rules, Sc::Madvise);
    allow(rules, Sc::Mlock);
    allow(rules, Sc::Munlock);
    allow(rules, Sc::Mlockall);
    allow(rules, Sc::Munlockall);
    allow(rules, Sc::Brk);
    allow(rules, Sc::Mlock2);
    allow(rules, Sc::MemfdCreate);
    allow(rules, Sc::Getpid);
    allow(rules, Sc::Getppid);
    allow(rules, Sc::Getuid);
    allow(rules, Sc::Geteuid);
    allow(rules, Sc::Getgid);
    allow(rules, Sc::Getegid);
    allow(rules, Sc::Getgroups);
    allow(rules, Sc::Setuid);
    allow(rules, Sc::Setgid);
    allow(rules, Sc::Setgroups);
    allow(rules, Sc::Setsid);
    allow(rules, Sc::Getpgrp);
    allow(rules, Sc::Setpgid);
    allow(rules, Sc::Getpgid);
}

/// Process identity and time operations.
fn push_identity_rules(rules: &mut Vec<SyscallRule>)
    ensures
        no_net_unconditional(old(rules)@) ==> no_net_unconditional(final(rules)@),
        no_connect(old(rules)@) ==> no_connect(final(rules)@),
        rules_conditioned(old(rules)@) ==> rules_conditioned(final(rules)@),
        socket_local_only(old(rules)@) ==> socket_local_only(final(rules)@),
        forall|x: Sc| rule_present(old(rules)@, x) ==> rule_present(final(rules)@, x),
        rule_present(final(rules)@, Sc::Execve),
{
    allow(rules, Sc::Getsid);
    allow(rules, Sc::Time);
    allow(rules, Sc::Gettimeofday);
    allow(rules, Sc::Settimeofday);
    allow(rules, Sc::ClockGettime);
    allow(rules, Sc::ClockSettime);
    allow(rules, Sc::ClockGetres);
    allow(rules, Sc::ClockNanosleep);
    allow(rules, Sc::Nanosleep);
    allow(rules, Sc::Alarm);
    allow(rules, Sc::Pause);
    allow(rules, Sc::Kill);
    allow(rules, Sc::Tkill);
    allow(rules, Sc::Tgkill);
    allow(rules, Sc::Sigaltstack);
    allow(rules, Sc::RtSigaction);
    allow(rules, Sc::RtSigprocmask);
    allow(rules, Sc::RtSigpending);
    allow(rules, Sc::RtSigsuspend);
    allow(rules, Sc::RtSigtimedwait);
    allow(rules, Sc::RtSigqueueinfo);
    allow(rules, Sc::RtSigreturn);
    allow(rules, Sc::Execve);
    allow(rules, Sc::Execveat);
    allow(rules, Sc::Fork);
}

/// Signals, execution, and exit.
fn push_signal_exec_rules(rules: &mut Vec<SyscallRule>)
    ensures
        no_net_unconditional(old(rules)@) ==> no_net_unconditional(final(rules)@),
        no_connect(old(rules)@) ==> no_connect(final(rules)@),
        rules_conditioned(old(rules)@) ==> rules_conditioned(final(rules)@),
        socket_local_only(old(rules)@) ==> socket_local_only(final(rules)@),
        forall|x: Sc| rule_present(old(rules)@, x) ==> rule_present(final(rules)@, x),
        rule_present(final(rules)@, Sc::ExitGroup),
{
    allow(rules, Sc::Vfork);
    allow(rules, Sc::Wait4);
    allow(rules, Sc::Waitid);
    allow(rules, Sc::Exit);
    allow(rules, Sc::ExitGroup);
    allow(rules, Sc::Select);
    allow(rules, Sc::Pselect6);
    allow(rules, Sc::Poll);
    allow(rules, Sc::Ppoll);
    allow(rules, Sc::EpollCreate);
    allow(rules, Sc::EpollCreate1);
    allow(rules, Sc::EpollCtl);
    allow(rules, Sc::EpollWait);
    allow(rules, Sc::EpollPwait);
    allow(rules, Sc::Eventfd);
}

/// Polling, limits, threads, and miscellany.
fn push_poll_misc_rules(rules: &mut Vec<SyscallRule>)
    ensures
        no_net_unconditional(old(rules)@) ==> no_net_unconditional(final(rules)@),
        no_connect(old(rules)@) ==> no_connect(final(rules)@),
        rules_conditioned(old(rules)@) ==> rules_conditioned(final(rules)@),
        socket_local_only(old(rules)@) ==> socket_local_only(final(rules)@),
        forall|x: Sc| rule_present(old(rules)@, x) ==> rule_present(final(rules)@, x),
{
    allow(rules, Sc::Eventfd2);
    allow(rules, Sc::Signalfd);
    allow(rules, Sc::Signalfd4);
    allow(rules, Sc::TimerfdCreate);
    allow(rules, Sc::TimerfdSettime);
    allow(rules, Sc::TimerfdGettime);
    allow(rules, Sc::Getrlimit);
    allow(rules, Sc::Setrlimit);
    allow(rules, Sc::Prlimit64);
    allow(rules, Sc::Getrusage);
    allow(rules, Sc::Futex);
    allow(rules, Sc::SetThreadArea);
    allow(rules, Sc::GetThreadArea);
    allow(rules, Sc::SetTidAddress);
    allow(rules, Sc::Gettid);
    allow(rules, Sc::ArchPrctl);
    allow(rules, Sc::Statfs);
    allow(rules, Sc::Fstatfs);
    allow(rules, Sc::Fcntl);
    allow(rules, Sc::Ioctl);
}

/// The base allowlist: the unconditional rules, then thread creation,
/// thread naming, and local sockets under their argument conditions.
fn push_base_rules(rules: &mut Vec<SyscallRule>)
    requires
        old(rules)@.len() == 0,
    ensures
        no_net_unconditional(final(rules)@),
        no_connect(final(rules)@),
        rules_conditioned(final(rules)@),
        socket_local_only(final(rules)@),
        rule_present(final(rules)@, Sc::Execve),
        rule_present(final(rules)@, Sc::Read),
        rule_present(final(rules)@, Sc::Write),
        rule_present(final(rules)@, Sc::ExitGroup),
{
    proof {
        assert(no_net_unconditional(rules@));
        assert(no_connect(rules@));
        assert(rules_conditioned(rules@));
        assert(socket_local_only(rules@));
    }
    push_file_rules(rules);
    push_fs_info_rules(rules);
    push_identity_rules(rules);
    push_signal_exec_rules(rules);
    push_poll_misc_rules(rules);
    allow_when(
        rules,
        Sc::Clone,
        ArgRule::MaskedEqual { arg: 0, mask: CLONE_THREAD_FLAG, value: CLONE_THREAD_FLAG },
    );
    allow_when(rules, Sc::Prctl, ArgRule::Equal { arg: 0, value: PR_SET_NAME_OP });
    allow_when(rules, Sc::Prctl, ArgRule::Equal { arg: 0, value: PR_GET_NAME_OP });
    allow_when(rules, Sc::Socket, ArgRule::Equal { arg: 0, value: AF_UNIX_FAMILY });
}

/// The socket pack appended when the network is enabled, in three runs.
pub open spec fn net_pack_part_0() -> Seq<SyscallRule> {
    seq![
        SyscallRule { sc: Sc::Socket, cond: None },
        SyscallRule { sc: Sc::Bind, cond: None },
        SyscallRule { sc: Sc::Listen, cond: None },
        SyscallRule { sc: Sc::Accept, cond: None },
        SyscallRule { sc: Sc::Accept4, cond: None },
    ]
}

pub open spec fn net_pack_part_1() -> Seq<SyscallRule> {
    seq![
        SyscallRule { sc: Sc::Connect, cond: None },
        SyscallRule { sc: Sc::Getsockname, cond: None },
        SyscallRule { sc: Sc::Getpeername, cond: None },
        SyscallRule { sc: Sc::Sendto, cond: None },
        SyscallRule { sc: Sc::Recvfrom, cond: None },
    ]
}

pub open spec fn net_pack_part_2() -> Seq<SyscallRule> {
    seq![
        SyscallRule { sc: Sc::Sendmsg, cond: None },
        SyscallRule { sc: Sc::Recvmsg, cond: None },
        SyscallRule { sc: Sc::Shutdown, cond: None },
        SyscallRule { sc: Sc::Setsockopt, cond: None },
        SyscallRule { sc: Sc::Getsockopt, cond: None },
    ]
}

fn push_net_part_0(rules: &mut Vec<SyscallRule>)
    ensures
        final(rules)@ == old(rules)@ + net_pack_part_0(),
        rules_conditioned(old(rules)@) ==> rules_conditioned(final(rules)@),
        forall|x: Sc| rule_present(old(rules)@, x) ==> rule_present(final(rules)@, x),
{
    allow_net(rules, Sc::Socket);
    allow_net(rules, Sc::Bind);
    allow_net(rules, Sc::Listen);
    allow_net(rules, Sc::Accept);
    allow_net(rules, Sc::Accept4);
    assert(rules@ =~= old(rules)@ + net_pack_part_0());
}

fn push_net_part_1(rules: &mut Vec<SyscallRule>)
    ensures
        final(rules)@ == old(rules)@ + net_pack_part_1(),
        rules_conditioned(old(rules)@) ==> rules_conditioned(final(rules)@),
        forall|x: Sc| rule_present(old(rules)@, x) ==> rule_present(final(rules)@, x),
{
    allow_net(rules, Sc::Connect);
    allow_net(rules, Sc::Getsockname);
    allow_net(rules, Sc::Getpeername);
    allow_net(rules, Sc::Sendto);
    allow_net(rules, Sc::Recvfrom);
    assert(rules@ =~= old(rules)@ + net_pack_part_1());
}

fn push_net_part_2(rules: &mut Vec<SyscallRule>)
    ensures
        final(rules)@ == old(rules)@ + net_pack_part_2(),
        rules_conditioned(old(rules)@) ==> rules_conditioned(final(rules)@),
        forall|x: Sc| rule_present(old(rules)@, x) ==> rule_present(final(rules)@, x),
{
    allow_net(rules, Sc::Sendmsg);
    allow_net(rules, Sc::Recvmsg);
    allow_net(rules, Sc::Shutdown);
    allow_net(rules, Sc::Setsockopt);
    allow_net(rules, Sc::Getsockopt);
    assert(rules@ =~= old(rules)@ + net_pack_part_2());
}

fn push_net_rules(rules: &mut Vec<SyscallRule>)
    ensures
        final(rules)@ == old(rules)@ + net_pack(),
        rules_conditioned(old(rules)@) ==> rules_conditioned(final(rules)@),
        forall|x: Sc| rule_present(old(rules)@, x) ==> rule_present(final(rules)@, x),
        rule_present(final(rules)@, Sc::Connect),
{
    push_net_part_0(rules);
    push_net_part_1(rules);
    push_net_part_2(rules);
    proof {
        assert(rules@ =~= old(rules)@ + net_pack());
        assert(net_pack()[5] == (SyscallRule { sc: Sc::Connect, cond: None }));
        assert((rules@[old(rules)@.len() as int + 5]).sc == Sc::Connect);
    }
}

/// Composes the filter for one execution: the base allowlist, and the
/// socket pack exactly when the network is enabled, killing on anything
/// else.
pub fn compose_filter(network: bool) -> (r: FilterPolicy)
    ensures
        filter_well_formed(r, network),
        r.default_kill,
{
    let mut rules: Vec<SyscallRule> = Vec::new();
    push_base_rules(&mut rules);
    if network {
        let ghost base = rules@;
        push_net_rules(&mut rules);
        proof {
            assert(rules@.subrange(
                rules@.len() - net_pack().len(),
                rules@.len() as int,
            ) =~= net_pack());
        }
    }
    FilterPolicy { default_kill: true, rules }
}

} // verus!
