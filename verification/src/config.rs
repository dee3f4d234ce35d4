//! Runtime configuration: defaults, named profiles, and the security policy
//! on command names.

use crate::schema::{iso_view, EnvVar, IsolationConfig, ResourceLimits};
use crate::textutil::{contains_substring, is_substring_of};
use crate::validation::string_bytes;
use vstd::prelude::*;

verus! {

/// The whole configuration document.
#[derive(Clone, Debug)]
pub struct Config {
    pub defaults: DefaultConfig,
    pub profiles: Vec<ProfileEntry>,
    pub security: SecurityConfig,
    pub monitoring: MonitoringConfig,
}

/// A named execution profile.
#[derive(Clone, Debug)]
pub struct ProfileEntry {
    pub name: String,
    pub profile: ExecutionProfile,
}

/// Settings applied when a request names none.
#[derive(Clone, Debug)]
pub struct DefaultConfig {
    pub timeout_ms: u64,
    pub resources: ResourceLimits,
    pub isolation: IsolationConfig,
}

/// Overrides that a profile may carry.
#[derive(Debug)]
pub struct ExecutionProfile {
    pub description: Option<String>,
    pub timeout_ms: Option<u64>,
    pub resources: Option<ResourceLimits>,
    pub isolation: Option<IsolationConfig>,
    pub environment: Option<Vec<EnvVar>>,
}

/// Allow and block lists for command names, and audit settings.
#[derive(Clone, Debug)]
pub struct SecurityConfig {
    pub allowed_commands: Option<Vec<String>>,
    pub blocked_commands: Option<Vec<String>>,
    pub max_concurrent_executions: Option<u32>,
    pub audit_log: Option<AuditConfig>,
}

#[derive(Clone, Debug)]
pub struct AuditConfig {
    pub enabled: bool,
    pub log_file: Option<String>,
    pub log_level: String,
}

#[derive(Clone, Debug)]
pub struct MonitoringConfig {
    pub enabled: bool,
    pub interval_ms: u64,
    pub metrics_export: Option<MetricsExportConfig>,
}

#[derive(Clone, Debug)]
pub struct MetricsExportConfig {
    pub prometheus: Option<PrometheusConfig>,
}

#[derive(Clone, Debug)]
pub struct PrometheusConfig {
    pub enabled: bool,
    pub port: u16,
    pub path: String,
}

impl Default for Config {
    /// The stock configuration: thirty-second timeout, stock limits, a block
    /// list of destructive commands, and monitoring every hundred
    /// milliseconds.
    fn default() -> (r: Self)
        ensures
            r.defaults.timeout_ms == 30000,
            r.defaults.resources == (ResourceLimits {
                memory_bytes: 268435456u64,
                cpu_shares: 1024u32,
                max_output_bytes: 1048576usize,
                max_pids: 100u32,
            }),
            r.defaults.isolation.network == false,
            r.profiles@.len() == 0,
            r.security.allowed_commands is None,
            r.security.blocked_commands matches Some(b) && b@.len() == 6 && b@[0]@ == "rm"@ && b@[1]@
                == "rmdir"@ && b@[2]@ == "sudo"@ && b@[3]@ == "su"@ && b@[4]@ == "chmod"@ && b@[5]@
                == "chown"@,
            r.security.max_concurrent_executions == Some(10u32),
            r.security.audit_log matches Some(a) && a.enabled == false && a.log_file is None
                && a.log_level@ == "info"@,
            r.monitoring.enabled == true,
            r.monitoring.interval_ms == 100,
            r.monitoring.metrics_export is None,
    {
        let mut blocked: Vec<String> = Vec::new();
        blocked.push(String::from_str("rm"));
        blocked.push(String::from_str("rmdir"));
        blocked.push(String::from_str("sudo"));
        blocked.push(String::from_str("su"));
        blocked.push(String::from_str("chmod"));
        blocked.push(String::from_str("chown"));
        Self {
            defaults: DefaultConfig {
                timeout_ms: 30000,
                resources: ResourceLimits::default(),
                isolation: IsolationConfig::default(),
            },
            profiles: Vec::new(),
            security: SecurityConfig {
                allowed_commands: None,
                blocked_commands: Some(blocked),
                max_concurrent_executions: Some(10),
                audit_log: Some(
                    AuditConfig {
                        enabled: false,
                        log_file: None,
                        log_level: String::from_str("info"),
                    },
                ),
            },
            monitoring: MonitoringConfig { enabled: true, interval_ms: 100, metrics_export: None },
        }
    }
}

/// The first profile whose name matches, if any.
pub open spec fn spec_find_profile(ps: Seq<ProfileEntry>, name: Seq<char>) -> Option<
    ExecutionProfile,
>
    decreases ps.len(),
{
    if ps.len() == 0 {
        None
    } else if ps[0].name@ == name {
        Some(ps[0].profile)
    } else {
        spec_find_profile(ps.drop_first(), name)
    }
}

/// True when some entry of `list` occurs inside `name`.
pub open spec fn some_entry_occurs_in(list: Seq<String>, name: Seq<u8>) -> bool {
    exists|i: int|
        0 <= i < list.len() && is_substring_of(string_bytes(#[trigger] list[i]), name)
}

/// True when the security policy admits the command.
pub open spec fn spec_command_allowed(c: Config, command: Seq<String>) -> bool {
    if command.len() == 0 {
        false
    } else {
        let name = string_bytes(command[0]);
        (match c.security.blocked_commands {
            Some(b) => !some_entry_occurs_in(b@, name),
            None => true,
        }) && (match c.security.allowed_commands {
            Some(a) => some_entry_occurs_in(a@, name),
            None => true,
        })
    }
}

impl Config {
    /// Looks a profile up by name: the first entry that matches.
    pub fn get_profile(&self, name: &str) -> (r: Option<&ExecutionProfile>)
        ensures
            match r {
                Some(p) => spec_find_profile(self.profiles@, name@) == Some(*p),
                None => spec_find_profile(self.profiles@, name@) is None,
            },
    {
        let name_owned = String::from_str(name);
        proof {
            assert(self.profiles@.subrange(0, self.profiles@.len() as int) =~= self.profiles@);
        }
        let mut i: usize = 0;
        while i < self.profiles.len()
            invariant
                i <= self.profiles@.len(),
                name_owned@ == name@,
                spec_find_profile(self.profiles@, name@) == spec_find_profile(
                    self.profiles@.subrange(i as int, self.profiles@.len() as int),
                    name@,
                ),
            decreases self.profiles@.len() - i,
        {
            let ghost rest = self.profiles@.subrange(i as int, self.profiles@.len() as int);
            assert(rest[0] == self.profiles@[i as int]);
            let hit = self.profiles[i].name.eq(&name_owned);
            if hit {
                proof {
                    assert(self.profiles@[i as int].name@ == name@);
                    assert(rest.len() > 0);
                    assert(spec_find_profile(rest, name@) == Some(rest[0].profile));
                }
                return Some(&self.profiles[i].profile);
            }
            proof {
                assert(rest.drop_first() =~= self.profiles@.subrange(
                    i + 1,
                    self.profiles@.len() as int,
                ));
            }
            i = i + 1;
        }
        proof {
            assert(self.profiles@.subrange(
                self.profiles@.len() as int,
                self.profiles@.len() as int,
            ) =~= Seq::<ProfileEntry>::empty());
        }
        None
    }

    /// Adds a profile under a name; later lookups that match an earlier entry
    /// are unaffected.
    pub fn add_profile(&mut self, name: String, profile: ExecutionProfile)
        ensures
            final(self).profiles@ == old(self).profiles@ + seq![
                ProfileEntry { name, profile },
            ],
            final(self).defaults == old(self).defaults,
            final(self).security == old(self).security,
            final(self).monitoring == old(self).monitoring,
    {
        self.profiles.push(ProfileEntry { name, profile });
    }

    /// Applies a named profile's overrides to the defaults. A missing name or
    /// an unknown profile changes nothing.
    pub fn merge_with_profile(self, profile_name: Option<&str>) -> (r: Config)
        ensures
            r.profiles@ == self.profiles@,
            r.security == self.security,
            r.monitoring == self.monitoring,
            match profile_name {
                None => r.defaults == self.defaults,
                Some(n) => match spec_find_profile(self.profiles@, n@) {
                    None => r.defaults == self.defaults,
                    Some(p) => r.defaults.timeout_ms == (match p.timeout_ms {
                        Some(t) => t,
                        None => self.defaults.timeout_ms,
                    }) && r.defaults.resources == (match p.resources {
                        Some(x) => x,
                        None => self.defaults.resources,
                    }) && iso_view(r.defaults.isolation) == (match p.isolation {
                        Some(x) => iso_view(x),
                        None => iso_view(self.defaults.isolation),
                    }),
                },
            },
    {
        let mut config = self;
        let found: Option<ExecutionProfile> = match profile_name {
            Some(name) => {
                let p = config.get_profile(name);
                match p {
                    Some(profile) => Some(profile.clone()),
                    None => None,
                }
            },
            None => None,
        };
        match found {
            Some(profile) => {
                match profile.timeout_ms {
                    Some(t) => {
                        config.defaults.timeout_ms = t;
                    },
                    None => {},
                }
                match profile.resources {
                    Some(x) => {
                        config.defaults.resources = x;
                    },
                    None => {},
                }
                match profile.isolation {
                    Some(x) => {
                        config.defaults.isolation = x;
                    },
                    None => {},
                }
            },
            None => {},
        }
        config
    }

    /// Decides whether the security policy admits the command: nothing on the
    /// block list may occur in the command name, and when an allow list is
    /// given, something on it must.
    pub fn validate_command(&self, command: &[String]) -> (r: bool)
        ensures
            r == spec_command_allowed(*self, command@),
    {
        if command.len() == 0 {
            return false;
        }
        let name = command[0].as_str().as_bytes();
        match &self.security.blocked_commands {
            Some(blocked) => {
                let mut i: usize = 0;
                while i < blocked.len()
                    invariant
                        i <= blocked@.len(),
                        command@.len() > 0,
                        self.security.blocked_commands matches Some(b) && b@ == blocked@,
                        name@ == string_bytes(command@[0]),
                        forall|j: int|
                            0 <= j < i ==> !is_substring_of(
                                string_bytes(#[trigger] blocked@[j]),
                                name@,
                            ),
                    decreases blocked@.len() - i,
                {
                    if contains_substring(name, blocked[i].as_str().as_bytes()) {
                        return false;
                    }
                    i = i + 1;
                }
            },
            None => {},
        }
        match &self.security.allowed_commands {
            Some(allowed) => {
                let mut i: usize = 0;
                while i < allowed.len()
                    invariant
                        i <= allowed@.len(),
                        command@.len() > 0,
                        self.security.allowed_commands matches Some(a) && a@ == allowed@,
                        name@ == string_bytes(command@[0]),
                        (self.security.blocked_commands matches Some(b) ==> !some_entry_occurs_in(
                            b@,
                            name@,
                        )),
                        forall|j: int|
                            0 <= j < i ==> !is_substring_of(
                                string_bytes(#[trigger] allowed@[j]),
                                name@,
                            ),
                    decreases allowed@.len() - i,
                {
                    if contains_substring(name, allowed[i].as_str().as_bytes()) {
                        return true;
                    }
                    i = i + 1;
                }
                false
            },
            None => true,
        }
    }
}

} // verus!

// A profile clone carries the same value, so merging can work on a copy.

verus! {

/// The value of a profile: every field, the optional vectors as sequences.
pub open spec fn profile_view(p: ExecutionProfile) -> (Option<String>, Option<u64>, Option<
    ResourceLimits,
>, Option<(bool, Seq<String>, Seq<String>, String, Seq<crate::schema::BindMount>)>, Option<
    Seq<EnvVar>,
>) {
    (
        p.description,
        p.timeout_ms,
        p.resources,
        match p.isolation {
            Some(c) => Some(iso_view(c)),
            None => None,
        },
        match p.environment {
            Some(e) => Some(e@),
            None => None,
        },
    )
}

impl Clone for ExecutionProfile {
    fn clone(&self) -> (res: Self)
        ensures
            profile_view(res) == profile_view(*self),
    {
        let res = ExecutionProfile {
            description: match &self.description {
                Some(d) => Some(d.clone()),
                None => None,
            },
            timeout_ms: self.timeout_ms,
            resources: self.resources,
            isolation: match &self.isolation {
                Some(i) => Some(i.clone()),
                None => None,
            },
            environment: match &self.environment {
                Some(e) => {
                    let c = e.clone();
                    proof {
                        assert(c@ =~= e@);
                    }
                    Some(c)
                },
                None => None,
            },
        };
        res
    }
}

} // verus!
