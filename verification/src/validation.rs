//! Request validation: every rule on commands, environment, timeout,
//! resource limits, and isolation paths, stated exactly and proved.

use crate::error::{CapsuleError, CapsuleResult};
use crate::schema::{EnvVar, ExecutionRequest, IsolationConfig, ResourceLimits};
use crate::textutil::{
    ascii_bytes, bytes_eq, contains_byte, find_byte, is_prefix_of, lit_bytes, spec_split,
    split_bytes, starts_with, u64_to_string,
};
use vstd::prelude::*;
use vstd::string::StringSliceAdditionalSpecFns;

verus! {

/// The byte form of a `String`'s text.
pub open spec fn string_bytes(s: String) -> Seq<u8> {
    vstd::utf8::encode_utf8(s@)
}

/// A command argument: nonempty, at most 4096 bytes, no null byte.
pub open spec fn valid_arg(a: Seq<u8>) -> bool {
    0 < a.len() <= 4096 && !contains_byte(a, 0)
}

/// The path prefixes that no request may reach.
pub open spec fn dangerous_prefixes() -> Seq<Seq<char>> {
    seq![
        "/proc/sys"@,
        "/proc/sysrq-trigger"@,
        "/proc/kcore"@,
        "/proc/kmem"@,
        "/proc/mem"@,
        "/sys/kernel"@,
        "/sys/devices"@,
        "/dev/mem"@,
        "/dev/kmem"@,
        "/dev/port"@,
        "/boot"@,
        "/etc/passwd"@,
        "/etc/shadow"@,
        "/etc/sudoers"@,
        "/etc/ssh"@,
        "/root"@,
        "/home"@,
    ]
}

/// True when some `/`-separated component of `p` is exactly `..`.
pub open spec fn has_parent_component(p: Seq<u8>) -> bool {
    exists|i: int|
        0 <= i < spec_split(p, 47).len() && #[trigger] spec_split(p, 47)[i] == seq![46u8, 46u8]
}

/// True when `p` starts with one of the dangerous prefixes.
pub open spec fn has_dangerous_prefix(p: Seq<u8>) -> bool {
    exists|i: int|
        0 <= i < dangerous_prefixes().len() && is_prefix_of(
            ascii_bytes(#[trigger] dangerous_prefixes()[i]),
            p,
        )
}

/// A safe path climbs to no parent directory and reaches no protected prefix.
pub open spec fn safe_path_bytes(p: Seq<u8>) -> bool {
    !has_parent_component(p) && !has_dangerous_prefix(p)
}

/// A valid path is nonempty, absolute, at most 4096 bytes, free of null
/// bytes, and safe.
pub open spec fn valid_path_bytes(p: Seq<u8>) -> bool {
    0 < p.len() <= 4096 && p[0] == 47 && !contains_byte(p, 0) && safe_path_bytes(p)
}

/// A valid command has one to a thousand arguments, each valid, and an
/// absolute executable path must be safe.
pub open spec fn valid_command_bytes(c: Seq<Seq<u8>>) -> bool {
    0 < c.len() <= 1000 && (forall|i: int| 0 <= i < c.len() ==> valid_arg(#[trigger] c[i])) && ((
    c[0].len() > 0 && c[0][0] == 47) ==> safe_path_bytes(c[0]))
}

/// The byte forms of a command's arguments.
pub open spec fn command_bytes(c: Seq<String>) -> Seq<Seq<u8>> {
    c.map_values(|s: String| string_bytes(s))
}

/// An environment name: nonempty, at most 256 bytes, only ASCII letters,
/// digits and underscore.
pub open spec fn is_word_byte(b: u8) -> bool {
    (48 <= b <= 57) || (65 <= b <= 90) || (97 <= b <= 122) || b == 95
}

pub open spec fn valid_env_name(n: Seq<u8>) -> bool {
    0 < n.len() <= 256 && forall|i: int| 0 <= i < n.len() ==> is_word_byte(#[trigger] n[i])
}

/// An environment value: at most 4096 bytes, no null byte.
pub open spec fn valid_env_value(v: Seq<u8>) -> bool {
    v.len() <= 4096 && !contains_byte(v, 0)
}

pub open spec fn valid_env_var(e: EnvVar) -> bool {
    valid_env_name(string_bytes(e.name)) && valid_env_value(string_bytes(e.value))
}

/// At most one hundred bindings, each valid.
pub open spec fn valid_environment_seq(env: Seq<EnvVar>) -> bool {
    env.len() <= 100 && forall|i: int| 0 <= i < env.len() ==> valid_env_var(#[trigger] env[i])
}

/// A timeout is positive and at most ten minutes.
pub open spec fn valid_timeout(t: u64) -> bool {
    0 < t <= 600000
}

/// Resource limits: memory within one megabyte and two gigabytes, positive
/// bounded cpu weight and pid cap, bounded output cap.
pub open spec fn valid_resources_spec(r: ResourceLimits) -> bool {
    1048576 <= r.memory_bytes <= 2147483648u64 && 0 < r.cpu_shares <= 10240
        && r.max_output_bytes <= 10485760 && 0 < r.max_pids <= 1000
}

/// Isolation: all named paths valid, at most fifty extra paths and twenty
/// bind mounts.
pub open spec fn valid_isolation_spec(iso: IsolationConfig) -> bool {
    valid_path_bytes(string_bytes(iso.working_directory)) && (forall|i: int|
        0 <= i < iso.readonly_paths@.len() ==> valid_path_bytes(
            string_bytes(#[trigger] iso.readonly_paths@[i]),
        )) && (forall|i: int|
        0 <= i < iso.writable_paths@.len() ==> valid_path_bytes(
            string_bytes(#[trigger] iso.writable_paths@[i]),
        )) && (forall|i: int|
        0 <= i < iso.bind_mounts@.len() ==> valid_path_bytes(
            string_bytes(#[trigger] iso.bind_mounts@[i].source),
        ) && valid_path_bytes(string_bytes(iso.bind_mounts@[i].destination)))
        && iso.readonly_paths@.len() + iso.writable_paths@.len() <= 50 && iso.bind_mounts@.len()
        <= 20
}

/// A request is valid when every part of it is.
pub open spec fn valid_request(r: ExecutionRequest) -> bool {
    valid_command_bytes(command_bytes(r.command@)) && valid_environment_seq(r.environment@)
        && valid_timeout(r.timeout_ms) && valid_resources_spec(r.resources) && valid_isolation_spec(
        r.isolation,
    )
}

/// Decides `safe_path_bytes` for a path.
pub fn is_safe_path(path: &str) -> (r: bool)
    ensures
        r == safe_path_bytes(path.spec_bytes()),
{
    let b = path.as_bytes();
    proof {
        reveal_strlit("..");
    }
    let dotdot = lit_bytes("..");
    assert(dotdot@ =~= seq![46u8, 46u8]);
    let comps = split_bytes(b, 47);
    let ghost split = spec_split(b@, 47);
    let mut i: usize = 0;
    while i < comps.len()
        invariant
            comps@.map_values(|v: Vec<u8>| v@) == spec_split(b@, 47),
            b@ == path.spec_bytes(),
            dotdot@ == seq![46u8, 46u8],
            i <= comps@.len(),
            forall|j: int| 0 <= j < i ==> #[trigger] spec_split(b@, 47)[j] != seq![46u8, 46u8],
        decreases comps@.len() - i,
    {
        assert(comps@[i as int]@ == spec_split(b@, 47)[i as int]);
        if bytes_eq(comps[i].as_slice(), dotdot) {
            assert(has_parent_component(b@));
            return false;
        }
        i = i + 1;
    }
    assert(!has_parent_component(path.spec_bytes()));
    if has_dangerous_prefix_exec(b) {
        return false;
    }
    true
}

/// Decides `has_dangerous_prefix` by testing each protected prefix.
fn has_dangerous_prefix_exec(b: &[u8]) -> (r: bool)
    ensures
        r == has_dangerous_prefix(b@),
{
    proof {
        reveal_strlit("/proc/sys");
        reveal_strlit("/proc/sysrq-trigger");
        reveal_strlit("/proc/kcore");
        reveal_strlit("/proc/kmem");
        reveal_strlit("/proc/mem");
        reveal_strlit("/sys/kernel");
        reveal_strlit("/sys/devices");
        reveal_strlit("/dev/mem");
        reveal_strlit("/dev/kmem");
        reveal_strlit("/dev/port");
        reveal_strlit("/boot");
        reveal_strlit("/etc/passwd");
        reveal_strlit("/etc/shadow");
        reveal_strlit("/etc/sudoers");
        reveal_strlit("/etc/ssh");
        reveal_strlit("/root");
        reveal_strlit("/home");
    }
    if starts_with(b, lit_bytes("/proc/sys")) {
        assert(dangerous_prefixes()[0] == "/proc/sys"@);
        return true;
    }
    if starts_with(b, lit_bytes("/proc/sysrq-trigger")) {
        assert(dangerous_prefixes()[1] == "/proc/sysrq-trigger"@);
        return true;
    }
    if starts_with(b, lit_bytes("/proc/kcore")) {
        assert(dangerous_prefixes()[2] == "/proc/kcore"@);
        return true;
    }
    if starts_with(b, lit_bytes("/proc/kmem")) {
        assert(dangerous_prefixes()[3] == "/proc/kmem"@);
        return true;
    }
    if starts_with(b, lit_bytes("/proc/mem")) {
        assert(dangerous_prefixes()[4] == "/proc/mem"@);
        return true;
    }
    if starts_with(b, lit_bytes("/sys/kernel")) {
        assert(dangerous_prefixes()[5] == "/sys/kernel"@);
        return true;
    }
    if starts_with(b, lit_bytes("/sys/devices")) {
        assert(dangerous_prefixes()[6] == "/sys/devices"@);
        return true;
    }
    if starts_with(b, lit_bytes("/dev/mem")) {
        assert(dangerous_prefixes()[7] == "/dev/mem"@);
        return true;
    }
    if starts_with(b, lit_bytes("/dev/kmem")) {
        assert(dangerous_prefixes()[8] == "/dev/kmem"@);
        return true;
    }
    if starts_with(b, lit_bytes("/dev/port")) {
        assert(dangerous_prefixes()[9] == "/dev/port"@);
        return true;
    }
    if starts_with(b, lit_bytes("/boot")) {
        assert(dangerous_prefixes()[10] == "/boot"@);
        return true;
    }
    if starts_with(b, lit_bytes("/etc/passwd")) {
        assert(dangerous_prefixes()[11] == "/etc/passwd"@);
        return true;
    }
    if starts_with(b, lit_bytes("/etc/shadow")) {
        assert(dangerous_prefixes()[12] == "/etc/shadow"@);
        return true;
    }
    if starts_with(b, lit_bytes("/etc/sudoers")) {
        assert(dangerous_prefixes()[13] == "/etc/sudoers"@);
        return true;
    }
    if starts_with(b, lit_bytes("/etc/ssh")) {
        assert(dangerous_prefixes()[14] == "/etc/ssh"@);
        return true;
    }
    if starts_with(b, lit_bytes("/root")) {
        assert(dangerous_prefixes()[15] == "/root"@);
        return true;
    }
    if starts_with(b, lit_bytes("/home")) {
        assert(dangerous_prefixes()[16] == "/home"@);
        return true;
    }
    proof {
        assert forall|i: int| 0 <= i < dangerous_prefixes().len() implies !is_prefix_of(
            ascii_bytes(#[trigger] dangerous_prefixes()[i]),
            b@,
        ) by {
            if i == 0 {
                assert(dangerous_prefixes()[0] == "/proc/sys"@);
            } else if i == 1 {
                assert(dangerous_prefixes()[1] == "/proc/sysrq-trigger"@);
            } else if i == 2 {
                assert(dangerous_prefixes()[2] == "/proc/kcore"@);
            } else if i == 3 {
                assert(dangerous_prefixes()[3] == "/proc/kmem"@);
            } else if i == 4 {
                assert(dangerous_prefixes()[4] == "/proc/mem"@);
            } else if i == 5 {
                assert(dangerous_prefixes()[5] == "/sys/kernel"@);
            } else if i == 6 {
                assert(dangerous_prefixes()[6] == "/sys/devices"@);
            } else if i == 7 {
                assert(dangerous_prefixes()[7] == "/dev/mem"@);
            } else if i == 8 {
                assert(dangerous_prefixes()[8] == "/dev/kmem"@);
            } else if i == 9 {
                assert(dangerous_prefixes()[9] == "/dev/port"@);
            } else if i == 10 {
                assert(dangerous_prefixes()[10] == "/boot"@);
            } else if i == 11 {
                assert(dangerous_prefixes()[11] == "/etc/passwd"@);
            } else if i == 12 {
                assert(dangerous_prefixes()[12] == "/etc/shadow"@);
            } else if i == 13 {
                assert(dangerous_prefixes()[13] == "/etc/sudoers"@);
            } else if i == 14 {
                assert(dangerous_prefixes()[14] == "/etc/ssh"@);
            } else if i == 15 {
                assert(dangerous_prefixes()[15] == "/root"@);
            } else {
                assert(dangerous_prefixes()[16] == "/home"@);
            }
        }
    }
    false
}

/// Accepts exactly the valid commands; every rejection is a `Config` error.
pub fn validate_command(command: &[String]) -> (r: CapsuleResult<()>)
    ensures
        r is Ok <==> valid_command_bytes(command_bytes(command@)),
        r matches Err(e) ==> e is Config,
{
    let ghost cb = command_bytes(command@);
    if command.len() == 0 {
        return Err(CapsuleError::Config(String::from_str("Command cannot be empty")));
    }
    if command.len() > 1000 {
        return Err(
            CapsuleError::Config(String::from_str("Command too long")),
        );
    }
    let mut i: usize = 0;
    while i < command.len()
        invariant
            0 < command@.len() <= 1000,
            i <= command@.len(),
            cb == command_bytes(command@),
            forall|j: int| 0 <= j < i ==> valid_arg(#[trigger] cb[j]),
        decreases command@.len() - i,
    {
        let arg = &command[i];
        let ab = arg.as_str().as_bytes();
        assert(ab@ == cb[i as int]);
        if ab.len() == 0 {
            let idx = u64_to_string(i as u64);
            let m = String::from_str("Command argument ").concat(idx.as_str()).concat(
                " cannot be empty",
            );
            return Err(CapsuleError::Config(m));
        }
        if ab.len() > 4096 {
            let idx = u64_to_string(i as u64);
            let m = String::from_str("Command argument ").concat(idx.as_str()).concat(" too long");
            return Err(CapsuleError::Config(m));
        }
        match find_byte(ab, 0u8) {
            Some(_) => {
                let idx = u64_to_string(i as u64);
                let m = String::from_str("Command argument ").concat(idx.as_str()).concat(
                    " contains null byte",
                );
                return Err(CapsuleError::Config(m));
            },
            None => {},
        }
        i = i + 1;
    }
    let exe = &command[0];
    let eb = exe.as_str().as_bytes();
    assert(eb@ == cb[0]);
    if eb.len() > 0 && eb[0] == 47 {
        if !is_safe_path(exe.as_str()) {
            let m = String::from_str("Executable path '").concat(exe.as_str()).concat(
                "' is not allowed",
            );
            return Err(CapsuleError::Config(m));
        }
    }
    Ok(())
}

/// Accepts exactly the valid environments; every rejection is a `Config`
/// error.
pub fn validate_environment(env: &[EnvVar]) -> (r: CapsuleResult<()>)
    ensures
        r is Ok <==> valid_environment_seq(env@),
        r matches Err(e) ==> e is Config,
{
    if env.len() > 100 {
        return Err(CapsuleError::Config(String::from_str("Too many environment variables")));
    }
    let mut i: usize = 0;
    while i < env.len()
        invariant
            env@.len() <= 100,
            i <= env@.len(),
            forall|j: int| 0 <= j < i ==> valid_env_var(#[trigger] env@[j]),
        decreases env@.len() - i,
    {
        let e = &env[i];
        let nb = e.name.as_str().as_bytes();
        let vb = e.value.as_str().as_bytes();
        if nb.len() == 0 {
            return Err(
                CapsuleError::Config(String::from_str("Environment variable key cannot be empty")),
            );
        }
        if nb.len() > 256 {
            let m = String::from_str("Environment variable key '").concat(e.name.as_str()).concat(
                "' too long",
            );
            return Err(CapsuleError::Config(m));
        }
        let mut k: usize = 0;
        while k < nb.len()
            invariant
                k <= nb@.len(),
                i < env@.len(),
                nb@ == string_bytes(env@[i as int].name),
                forall|t: int| 0 <= t < k ==> is_word_byte(#[trigger] nb@[t]),
            decreases nb@.len() - k,
        {
            let b = nb[k];
            let ok = (48 <= b && b <= 57) || (65 <= b && b <= 90) || (97 <= b && b <= 122) || b
                == 95;
            if !ok {
                let m = String::from_str("Environment variable key '").concat(
                    e.name.as_str(),
                ).concat("' contains invalid characters");
                return Err(CapsuleError::Config(m));
            }
            k = k + 1;
        }
        if vb.len() > 4096 {
            let m = String::from_str("Environment variable '").concat(e.name.as_str()).concat(
                "' value too long",
            );
            return Err(CapsuleError::Config(m));
        }
        match find_byte(vb, 0u8) {
            Some(_) => {
                let m = String::from_str("Environment variable '").concat(e.name.as_str()).concat(
                    "' value contains null byte",
                );
                return Err(CapsuleError::Config(m));
            },
            None => {},
        }
        i = i + 1;
    }
    Ok(())
}

/// Accepts exactly the timeouts between one millisecond and ten minutes.
pub fn validate_timeout(timeout_ms: u64) -> (r: CapsuleResult<()>)
    ensures
        r is Ok <==> valid_timeout(timeout_ms),
        r matches Err(e) ==> e is Config,
{
    if timeout_ms == 0 {
        return Err(CapsuleError::Config(String::from_str("Timeout must be greater than 0")));
    }
    if timeout_ms > 600000 {
        return Err(CapsuleError::Config(String::from_str("Timeout too long")));
    }
    Ok(())
}

/// Accepts exactly the valid resource limits.
pub fn validate_resources(resources: &ResourceLimits) -> (r: CapsuleResult<()>)
    ensures
        r is Ok <==> valid_resources_spec(*resources),
        r matches Err(e) ==> e is Config,
{
    if resources.memory_bytes == 0 {
        return Err(CapsuleError::Config(String::from_str("Memory limit must be greater than 0")));
    }
    if resources.memory_bytes > 2147483648u64 {
        return Err(CapsuleError::Config(String::from_str("Memory limit too high")));
    }
    if resources.memory_bytes < 1048576 {
        return Err(
            CapsuleError::Config(String::from_str("Memory limit too low: minimum 1MB required")),
        );
    }
    if resources.cpu_shares == 0 {
        return Err(CapsuleError::Config(String::from_str("CPU shares must be greater than 0")));
    }
    if resources.cpu_shares > 10240 {
        return Err(CapsuleError::Config(String::from_str("CPU shares too high")));
    }
    if resources.max_output_bytes > 10485760 {
        return Err(CapsuleError::Config(String::from_str("Output limit too high")));
    }
    if resources.max_pids == 0 {
        return Err(CapsuleError::Config(String::from_str("PID limit must be greater than 0")));
    }
    if resources.max_pids > 1000 {
        return Err(CapsuleError::Config(String::from_str("PID limit too high")));
    }
    Ok(())
}

/// Accepts exactly the valid paths; the message names what the path was for.
pub fn validate_path(path: &str, path_type: &str) -> (r: CapsuleResult<()>)
    ensures
        r is Ok <==> valid_path_bytes(path.spec_bytes()),
        r matches Err(e) ==> e is Config,
{
    let b = path.as_bytes();
    if b.len() == 0 {
        let m = String::from_str(path_type).concat(" cannot be empty");
        return Err(CapsuleError::Config(m));
    }
    if b[0] != 47 {
        let m = String::from_str(path_type).concat(" must be absolute: ").concat(path);
        return Err(CapsuleError::Config(m));
    }
    if b.len() > 4096 {
        let m = String::from_str(path_type).concat(" too long");
        return Err(CapsuleError::Config(m));
    }
    match find_byte(b, 0u8) {
        Some(_) => {
            let m = String::from_str(path_type).concat(" contains null byte: ").concat(path);
            return Err(CapsuleError::Config(m));
        },
        None => {},
    }
    if !is_safe_path(path) {
        let m = String::from_str(path_type).concat(" is not safe: ").concat(path);
        return Err(CapsuleError::Config(m));
    }
    Ok(())
}

/// Accepts exactly the valid isolation settings.
pub fn validate_isolation(isolation: &IsolationConfig) -> (r: CapsuleResult<()>)
    ensures
        r is Ok <==> valid_isolation_spec(*isolation),
        r matches Err(e) ==> e is Config,
{
    match validate_path(isolation.working_directory.as_str(), "Working directory") {
        Ok(_) => {},
        Err(e) => {
            return Err(e);
        },
    }
    let mut i: usize = 0;
    while i < isolation.readonly_paths.len()
        invariant
            i <= isolation.readonly_paths@.len(),
            forall|j: int|
                0 <= j < i ==> valid_path_bytes(
                    string_bytes(#[trigger] isolation.readonly_paths@[j]),
                ),
        decreases isolation.readonly_paths@.len() - i,
    {
        match validate_path(isolation.readonly_paths[i].as_str(), "Read-only path") {
            Ok(_) => {},
            Err(e) => {
                return Err(e);
            },
        }
        i = i + 1;
    }
    let mut i: usize = 0;
    while i < isolation.writable_paths.len()
        invariant
            i <= isolation.writable_paths@.len(),
            forall|j: int|
                0 <= j < i ==> valid_path_bytes(
                    string_bytes(#[trigger] isolation.writable_paths@[j]),
                ),
        decreases isolation.writable_paths@.len() - i,
    {
        match validate_path(isolation.writable_paths[i].as_str(), "Writable path") {
            Ok(_) => {},
            Err(e) => {
                return Err(e);
            },
        }
        i = i + 1;
    }
    let mut i: usize = 0;
    while i < isolation.bind_mounts.len()
        invariant
            i <= isolation.bind_mounts@.len(),
            forall|j: int|
                0 <= j < i ==> valid_path_bytes(
                    string_bytes(#[trigger] isolation.bind_mounts@[j].source),
                ) && valid_path_bytes(string_bytes(isolation.bind_mounts@[j].destination)),
        decreases isolation.bind_mounts@.len() - i,
    {
        let entry = &isolation.bind_mounts[i];
        match validate_path(entry.source.as_str(), "Bind mount source") {
            Ok(_) => {},
            Err(e) => {
                return Err(e);
            },
        }
        assert(valid_path_bytes(string_bytes(isolation.bind_mounts@[i as int].source)));
        match validate_path(entry.destination.as_str(), "Bind mount destination") {
            Ok(_) => {},
            Err(e) => {
                return Err(e);
            },
        }
        assert(valid_path_bytes(string_bytes(isolation.bind_mounts@[i as int].destination)));
        i = i + 1;
    }
    let ro = isolation.readonly_paths.len();
    let rw = isolation.writable_paths.len();
    if ro > 50 {
        return Err(CapsuleError::Config(String::from_str("Too many path configurations")));
    }
    if rw > 50 - ro {
        return Err(CapsuleError::Config(String::from_str("Too many path configurations")));
    }
    if isolation.bind_mounts.len() > 20 {
        return Err(CapsuleError::Config(String::from_str("Too many bind mounts")));
    }
    Ok(())
}

/// Accepts exactly the valid requests; every rejection is a `Config` error.
pub fn validate_execution_request(request: &ExecutionRequest) -> (r: CapsuleResult<()>)
    ensures
        r is Ok <==> valid_request(*request),
        r matches Err(e) ==> e is Config,
{
    match validate_command(request.command.as_slice()) {
        Ok(_) => {},
        Err(e) => {
            return Err(e);
        },
    }
    match validate_environment(request.environment.as_slice()) {
        Ok(_) => {},
        Err(e) => {
            return Err(e);
        },
    }
    match validate_timeout(request.timeout_ms) {
        Ok(_) => {},
        Err(e) => {
            return Err(e);
        },
    }
    match validate_resources(&request.resources) {
        Ok(_) => {},
        Err(e) => {
            return Err(e);
        },
    }
    match validate_isolation(&request.isolation) {
        Ok(_) => {},
        Err(e) => {
            return Err(e);
        },
    }
    Ok(())
}

} // verus!
