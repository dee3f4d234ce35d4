//! The request and response data model: limits, isolation settings, status,
//! metrics, timestamps, and the response constructors.

use crate::textutil::dec_chars;
use vstd::prelude::*;

verus! {

/// A single validated execution request.
#[derive(Clone, Debug)]
pub struct ExecutionRequest {
    pub command: Vec<String>,
    pub environment: Vec<EnvVar>,
    pub timeout_ms: u64,
    pub resources: ResourceLimits,
    pub isolation: IsolationConfig,
}

/// One environment binding handed to the child.
#[derive(Debug, PartialEq)]
pub struct EnvVar {
    pub name: String,
    pub value: String,
}

/// Resource bounds applied to the execution.
#[derive(Clone, Copy, Debug, PartialEq, Eq, Structural)]
pub struct ResourceLimits {
    pub memory_bytes: u64,
    pub cpu_shares: u32,
    pub max_output_bytes: usize,
    pub max_pids: u32,
}

/// Isolation settings: network, visible paths, and the working directory.
#[derive(Debug)]
pub struct IsolationConfig {
    pub network: bool,
    pub readonly_paths: Vec<String>,
    pub writable_paths: Vec<String>,
    pub working_directory: String,
    pub bind_mounts: Vec<BindMount>,
}

/// A host path made visible inside the sandbox.
#[derive(Debug, PartialEq)]
pub struct BindMount {
    pub source: String,
    pub destination: String,
    pub readonly: bool,
}

/// The terminal classification of one execution.
#[derive(Clone, Copy, Debug, PartialEq, Eq, Structural)]
pub enum ExecutionStatus {
    Success,
    Error,
    Timeout,
    Killed,
}

/// Measured resource usage reported with a successful execution.
#[derive(Clone, Copy, Debug, PartialEq, Eq, Structural)]
pub struct ExecutionMetrics {
    pub wall_time_ms: u64,
    pub cpu_time_ms: u64,
    pub user_time_ms: u64,
    pub kernel_time_ms: u64,
    pub max_memory_bytes: u64,
    pub io_bytes_read: u64,
    pub io_bytes_written: u64,
}

/// Start and completion instants, in milliseconds since the Unix epoch.
#[derive(Clone, Copy, Debug, PartialEq, Eq, Structural)]
pub struct ExecutionTimestamps {
    pub started_ms: u64,
    pub completed_ms: u64,
}

/// Structured data attached to an error response.
#[derive(Clone, Debug, PartialEq)]
pub enum ErrorDetail {
    Timeout { timeout_ms: u64, elapsed_ms: u64 },
    Signal { signal: i32, signal_name: String },
    MemoryLimit { memory_limit: u64 },
}

/// The error record of a non-success response.
#[derive(Clone, Debug, PartialEq)]
pub struct ErrorResponse {
    pub code: String,
    pub message: String,
    pub details: Option<ErrorDetail>,
}

/// The complete result of one execution.
#[derive(Clone, Debug)]
pub struct ExecutionResponse {
    pub execution_id: String,
    pub status: ExecutionStatus,
    pub exit_code: Option<i32>,
    pub stdout: Option<String>,
    pub stderr: Option<String>,
    pub metrics: Option<ExecutionMetrics>,
    pub timestamps: ExecutionTimestamps,
    pub error: Option<ErrorResponse>,
}


/// Every response the engine emits is well formed: its status is one of the
/// four terminal states, its timestamps are ordered, a success carries an
/// exit code and no error, and every other status carries an error.
pub open spec fn response_well_formed(r: ExecutionResponse) -> bool {
    &&& (r.status == ExecutionStatus::Success || r.status == ExecutionStatus::Error || r.status
        == ExecutionStatus::Timeout || r.status == ExecutionStatus::Killed)
    &&& r.timestamps.started_ms <= r.timestamps.completed_ms
    &&& (r.status == ExecutionStatus::Success <==> r.exit_code is Some)
    &&& (r.status == ExecutionStatus::Success <==> r.error is None)
}

impl ExecutionResponse {
    /// A success carries the exit code, both streams, and the metrics.
    pub fn success(
        execution_id: String,
        exit_code: i32,
        stdout: String,
        stderr: String,
        metrics: ExecutionMetrics,
        started_ms: u64,
        completed_ms: u64,
    ) -> (r: Self)
        requires
            started_ms <= completed_ms,
        ensures
            r.execution_id == execution_id,
            r.status == ExecutionStatus::Success,
            r.exit_code == Some(exit_code),
            r.stdout == Some(stdout),
            r.stderr == Some(stderr),
            r.metrics == Some(metrics),
            r.timestamps == (ExecutionTimestamps { started_ms, completed_ms }),
            r.error is None,
            response_well_formed(r),
    {
        Self {
            execution_id,
            status: ExecutionStatus::Success,
            exit_code: Some(exit_code),
            stdout: Some(stdout),
            stderr: Some(stderr),
            metrics: Some(metrics),
            timestamps: ExecutionTimestamps { started_ms, completed_ms },
            error: None,
        }
    }

    /// An error response carries the error record and nothing of the streams.
    pub fn error(
        execution_id: String,
        error: ErrorResponse,
        started_ms: u64,
        completed_ms: u64,
    ) -> (r: Self)
        requires
            started_ms <= completed_ms,
        ensures
            r.execution_id == execution_id,
            r.status == ExecutionStatus::Error,
            r.exit_code is None,
            r.stdout is None,
            r.stderr is None,
            r.metrics is None,
            r.timestamps == (ExecutionTimestamps { started_ms, completed_ms }),
            r.error == Some(error),
            response_well_formed(r),
    {
        Self {
            execution_id,
            status: ExecutionStatus::Error,
            exit_code: None,
            stdout: None,
            stderr: None,
            metrics: None,
            timestamps: ExecutionTimestamps { started_ms, completed_ms },
            error: Some(error),
        }
    }

    /// A timeout response carries the stable timeout code and the elapsed
    /// time, and neither streams nor metrics.
    pub fn timeout(execution_id: String, timeout_ms: u64, started_ms: u64, completed_ms: u64) -> (r:
        Self)
        requires
            started_ms <= completed_ms,
        ensures
            r.execution_id == execution_id,
            r.status == ExecutionStatus::Timeout,
            r.exit_code is None,
            r.stdout is None,
            r.stderr is None,
            r.metrics is None,
            r.timestamps == (ExecutionTimestamps { started_ms, completed_ms }),
            r.error matches Some(e) && e.code@ == "E3001"@ && e.message@
                == "Command exceeded timeout limit of "@ + dec_chars(timeout_ms as nat) + "ms"@
                && e.details == Some(ErrorDetail::Timeout {
                timeout_ms,
                elapsed_ms: (completed_ms - started_ms) as u64,
            }),
            response_well_formed(r),
    {
        let elapsed_ms: u64 = completed_ms - started_ms;
        let t = crate::textutil::u64_to_string(timeout_ms);
        let message = String::from_str("Command exceeded timeout limit of ").concat(
            t.as_str(),
        ).concat("ms");
        let error = ErrorResponse {
            code: String::from_str("E3001"),
            message,
            details: Some(ErrorDetail::Timeout { timeout_ms, elapsed_ms }),
        };
        Self {
            execution_id,
            status: ExecutionStatus::Timeout,
            exit_code: None,
            stdout: None,
            stderr: None,
            metrics: None,
            timestamps: ExecutionTimestamps { started_ms, completed_ms },
            error: Some(error),
        }
    }
}

/// Default request timeout, in milliseconds.
pub fn default_timeout() -> (r: u64)
    ensures
        r == 30000u64,
{
    30000
}

/// Default memory limit, in bytes.
pub fn default_memory() -> (r: u64)
    ensures
        r == 268435456u64,
{
    268435456
}

/// Default relative CPU weight.
pub fn default_cpu_shares() -> (r: u32)
    ensures
        r == 1024u32,
{
    1024
}

/// Default cap on captured output, in bytes.
pub fn default_max_output() -> (r: usize)
    ensures
        r == 1048576usize,
{
    1048576
}

/// Default cap on the number of processes.
pub fn default_max_pids() -> (r: u32)
    ensures
        r == 100u32,
{
    100
}

/// Network access is disabled unless asked for.
pub fn default_network() -> (r: bool)
    ensures
        r == false,
{
    false
}

/// Default working directory inside the sandbox.
pub fn default_working_directory() -> (r: String)
    ensures
        r@ == "/workspace"@,
{
    String::from_str("/workspace")
}

impl Default for ResourceLimits {
    /// The stock limits used when a request names none.
    fn default() -> (r: Self)
        ensures
            r == (ResourceLimits {
                memory_bytes: 268435456u64,
                cpu_shares: 1024u32,
                max_output_bytes: 1048576usize,
                max_pids: 100u32,
            }),
    {
        Self {
            memory_bytes: default_memory(),
            cpu_shares: default_cpu_shares(),
            max_output_bytes: default_max_output(),
            max_pids: default_max_pids(),
        }
    }
}

impl Default for IsolationConfig {
    /// The stock isolation settings: no network, no extra paths.
    fn default() -> (r: Self)
        ensures
            r.network == false,
            r.readonly_paths@.len() == 0,
            r.writable_paths@.len() == 0,
            r.working_directory@ == "/workspace"@,
            r.bind_mounts@.len() == 0,
    {
        Self {
            network: default_network(),
            readonly_paths: Vec::new(),
            writable_paths: Vec::new(),
            working_directory: default_working_directory(),
            bind_mounts: Vec::new(),
        }
    }
}

} // verus!

// Clone impls are written by hand so that verified callers know a clone
// carries the same value.

verus! {

impl Clone for EnvVar {
    fn clone(&self) -> (res: Self)
        ensures
            res == *self,
    {
        EnvVar { name: self.name.clone(), value: self.value.clone() }
    }
}

impl Clone for BindMount {
    fn clone(&self) -> (res: Self)
        ensures
            res == *self,
    {
        BindMount {
            source: self.source.clone(),
            destination: self.destination.clone(),
            readonly: self.readonly,
        }
    }
}

/// The value of an isolation configuration: every field, with the vectors
/// taken as sequences. Two configurations with equal views behave alike.
pub open spec fn iso_view(c: IsolationConfig) -> (bool, Seq<String>, Seq<String>, String, Seq<
    BindMount,
>) {
    (c.network, c.readonly_paths@, c.writable_paths@, c.working_directory, c.bind_mounts@)
}

impl Clone for IsolationConfig {
    fn clone(&self) -> (res: Self)
        ensures
            iso_view(res) == iso_view(*self),
    {
        let res = IsolationConfig {
            network: self.network,
            readonly_paths: self.readonly_paths.clone(),
            writable_paths: self.writable_paths.clone(),
            working_directory: self.working_directory.clone(),
            bind_mounts: self.bind_mounts.clone(),
        };
        proof {
            assert(res.readonly_paths@ =~= self.readonly_paths@);
            assert(res.writable_paths@ =~= self.writable_paths@);
            assert(res.bind_mounts@ =~= self.bind_mounts@);
        }
        res
    }
}

} // verus!
