//! The supervised-execution core: what one poll tick decides, how every
//! terminal state becomes a response, and the shape guarantees that every
//! response carries.

use crate::capture::{
    first_capture_failure, lossy_of, lossy_string, CapturedStreams, IoStats, StreamAccumulator,
};
use crate::error::{code_str_of, message_of, CapsuleError, ErrorCode, ExecutionError};
use crate::monitor::MonitoringResult;
use crate::schema::{
    response_well_formed, ErrorDetail, ErrorResponse, ExecutionMetrics, ExecutionResponse,
    ExecutionStatus,
};
use crate::textutil::{dec_chars, dec_chars_i64, i32_to_string};
use vstd::prelude::*;

verus! {

/// What the supervisor learns from one attempt to reap the child.
pub enum WaitOutcome {
    StillRunning,
    Exited { code: i32, signal: Option<i32> },
    WaitFailed(String),
}

/// What the supervisor sees in one poll tick.
pub struct TickObservation {
    pub elapsed_ms: u64,
    pub wait: WaitOutcome,
    pub oom: bool,
}

/// The supervisor's verdict for one tick.
#[derive(Clone, Debug, PartialEq)]
pub enum TickDecision {
    Proceed,
    DeadlinePassed,
    OomKilled,
    Signaled(i32),
    Exited(i32),
    WaitError(String),
}

/// The tick order: the deadline is checked first, then the out-of-memory
/// latch, then the child's exit. A signal exit beats its exit code. Only a
/// running child with no other finding lets the loop proceed.
pub open spec fn spec_decide(timeout_ms: u64, obs: TickObservation) -> TickDecision {
    if obs.elapsed_ms >= timeout_ms {
        TickDecision::DeadlinePassed
    } else if obs.oom {
        TickDecision::OomKilled
    } else {
        match obs.wait {
            WaitOutcome::Exited { code, signal } => match signal {
                Some(s) => TickDecision::Signaled(s),
                None => TickDecision::Exited(code),
            },
            WaitOutcome::StillRunning => TickDecision::Proceed,
            WaitOutcome::WaitFailed(m) => TickDecision::WaitError(m),
        }
    }
}

/// Decides one poll tick, exactly as `spec_decide` orders it.
pub fn decide_tick(timeout_ms: u64, obs: TickObservation) -> (r: TickDecision)
    ensures
        r == spec_decide(timeout_ms, obs),
{
    if obs.elapsed_ms >= timeout_ms {
        return TickDecision::DeadlinePassed;
    }
    if obs.oom {
        return TickDecision::OomKilled;
    }
    match obs.wait {
        WaitOutcome::Exited { code, signal } => match signal {
            Some(s) => TickDecision::Signaled(s),
            None => TickDecision::Exited(code),
        },
        WaitOutcome::StillRunning => TickDecision::Proceed,
        WaitOutcome::WaitFailed(m) => TickDecision::WaitError(m),
    }
}

/// The conventional name of a signal number.
pub open spec fn spec_signal_name(signal: i32) -> Seq<char> {
    if signal == 1 {
        "SIGHUP"@
    } else if signal == 2 {
        "SIGINT"@
    } else if signal == 3 {
        "SIGQUIT"@
    } else if signal == 4 {
        "SIGILL"@
    } else if signal == 5 {
        "SIGTRAP"@
    } else if signal == 6 {
        "SIGABRT"@
    } else if signal == 7 {
        "SIGBUS"@
    } else if signal == 8 {
        "SIGFPE"@
    } else if signal == 9 {
        "SIGKILL"@
    } else if signal == 10 {
        "SIGUSR1"@
    } else if signal == 11 {
        "SIGSEGV"@
    } else if signal == 12 {
        "SIGUSR2"@
    } else if signal == 13 {
        "SIGPIPE"@
    } else if signal == 14 {
        "SIGALRM"@
    } else if signal == 15 {
        "SIGTERM"@
    } else if signal == 16 {
        "SIGSTKFLT"@
    } else if signal == 17 {
        "SIGCHLD"@
    } else if signal == 18 {
        "SIGCONT"@
    } else if signal == 19 {
        "SIGSTOP"@
    } else if signal == 20 {
        "SIGTSTP"@
    } else if signal == 21 {
        "SIGTTIN"@
    } else if signal == 22 {
        "SIGTTOU"@
    } else if signal == 23 {
        "SIGURG"@
    } else if signal == 24 {
        "SIGXCPU"@
    } else if signal == 25 {
        "SIGXFSZ"@
    } else if signal == 26 {
        "SIGVTALRM"@
    } else if signal == 27 {
        "SIGPROF"@
    } else if signal == 28 {
        "SIGWINCH"@
    } else if signal == 29 {
        "SIGIO"@
    } else if signal == 30 {
        "SIGPWR"@
    } else if signal == 31 {
        "SIGSYS"@
    } else {
        "UNKNOWN"@
    }
}

/// The conventional name of a signal number.
pub fn signal_name(signal: i32) -> (r: &'static str)
    ensures
        r@ == spec_signal_name(signal),
{
    match signal {
        1 => "SIGHUP",
        2 => "SIGINT",
        3 => "SIGQUIT",
        4 => "SIGILL",
        5 => "SIGTRAP",
        6 => "SIGABRT",
        7 => "SIGBUS",
        8 => "SIGFPE",
        9 => "SIGKILL",
        10 => "SIGUSR1",
        11 => "SIGSEGV",
        12 => "SIGUSR2",
        13 => "SIGPIPE",
        14 => "SIGALRM",
        15 => "SIGTERM",
        16 => "SIGSTKFLT",
        17 => "SIGCHLD",
        18 => "SIGCONT",
        19 => "SIGSTOP",
        20 => "SIGTSTP",
        21 => "SIGTTIN",
        22 => "SIGTTOU",
        23 => "SIGURG",
        24 => "SIGXCPU",
        25 => "SIGXFSZ",
        26 => "SIGVTALRM",
        27 => "SIGPROF",
        28 => "SIGWINCH",
        29 => "SIGIO",
        30 => "SIGPWR",
        31 => "SIGSYS",
        _ => "UNKNOWN",
    }
}

/// Execution metrics composed from the monitor's report and the final
/// per-process I/O counters: times in milliseconds from the measured totals
/// and their measured user and kernel parts; I/O from the monitored cgroup
/// maxima, falling back to the per-process counters only when the monitor
/// saw no I/O at all.
pub open spec fn spec_compose_metrics(
    monitoring: MonitoringResult,
    io: IoStats,
    wall_time_ms: u64,
) -> ExecutionMetrics {
    ExecutionMetrics {
        wall_time_ms,
        cpu_time_ms: (monitoring.total_cpu_time / 1000) as u64,
        user_time_ms: (monitoring.user_time_us / 1000) as u64,
        kernel_time_ms: (monitoring.kernel_time_us / 1000) as u64,
        max_memory_bytes: monitoring.peak_memory,
        io_bytes_read: if monitoring.max_io_read == 0 && monitoring.max_io_written == 0 {
            io.read_bytes
        } else {
            monitoring.max_io_read
        },
        io_bytes_written: if monitoring.max_io_read == 0 && monitoring.max_io_written == 0 {
            io.write_bytes
        } else {
            monitoring.max_io_written
        },
    }
}

/// Composes the reported metrics, matching `spec_compose_metrics`.
pub fn compose_metrics(monitoring: MonitoringResult, io: IoStats, wall_time_ms: u64) -> (r:
    ExecutionMetrics)
    ensures
        r == spec_compose_metrics(monitoring, io, wall_time_ms),
{
    let cgroup_io_seen = monitoring.max_io_read != 0 || monitoring.max_io_written != 0;
    ExecutionMetrics {
        wall_time_ms,
        cpu_time_ms: monitoring.total_cpu_time / 1000,
        user_time_ms: monitoring.user_time_us / 1000,
        kernel_time_ms: monitoring.kernel_time_us / 1000,
        max_memory_bytes: monitoring.peak_memory,
        io_bytes_read: if cgroup_io_seen {
            monitoring.max_io_read
        } else {
            io.read_bytes
        },
        io_bytes_written: if cgroup_io_seen {
            monitoring.max_io_written
        } else {
            io.write_bytes
        },
    }
}

/// The response for a child the kernel killed for memory: an error with the
/// stable out-of-memory code and the limit in its details.
pub fn oom_response(execution_id: String, memory_limit: u64, started_ms: u64, completed_ms: u64) -> (r:
    ExecutionResponse)
    requires
        started_ms <= completed_ms,
    ensures
        r.execution_id == execution_id,
        r.status == ExecutionStatus::Error,
        r.exit_code is None,
        r.stdout is None,
        r.stderr is None,
        r.metrics is None,
        r.timestamps.started_ms == started_ms,
        r.timestamps.completed_ms == completed_ms,
        r.error matches Some(e) && e.code@ == "E4002"@ && e.message@
            == "Process killed due to memory limit"@ && e.details == Some(
            ErrorDetail::MemoryLimit { memory_limit },
        ),
        response_well_formed(r),
{
    let error = ErrorResponse {
        code: String::from_str("E4002"),
        message: String::from_str("Process killed due to memory limit"),
        details: Some(ErrorDetail::MemoryLimit { memory_limit }),
    };
    ExecutionResponse::error(execution_id, error, started_ms, completed_ms)
}

/// The response for a child that a signal killed: an error with the stable
/// signal code, and the signal number and name in its details.
pub fn signal_response(execution_id: String, signal: i32, started_ms: u64, completed_ms: u64) -> (r:
    ExecutionResponse)
    requires
        started_ms <= completed_ms,
    ensures
        r.execution_id == execution_id,
        r.status == ExecutionStatus::Error,
        r.exit_code is None,
        r.stdout is None,
        r.stderr is None,
        r.metrics is None,
        r.timestamps.started_ms == started_ms,
        r.timestamps.completed_ms == completed_ms,
        r.error matches Some(e) && e.code@ == "E3003"@ && e.message@ == "Process killed by signal "@
            + dec_chars_i64(signal as int) && (e.details matches Some(
            ErrorDetail::Signal { signal: s, signal_name: n },
        ) && s == signal && n@ == spec_signal_name(signal)),
        response_well_formed(r),
{
    let s = i32_to_string(signal);
    let message = String::from_str("Process killed by signal ").concat(s.as_str());
    let name = signal_name(signal);
    let error = ErrorResponse {
        code: String::from_str("E3003"),
        message,
        details: Some(
            ErrorDetail::Signal { signal, signal_name: String::from_str(name) },
        ),
    };
    ExecutionResponse::error(execution_id, error, started_ms, completed_ms)
}

/// The response for an internal failure: the error mapped to its stable
/// code and message.
pub fn failure_response(
    execution_id: String,
    error: CapsuleError,
    started_ms: u64,
    completed_ms: u64,
) -> (r: ExecutionResponse)
    requires
        started_ms <= completed_ms,
    ensures
        r.execution_id == execution_id,
        r.status == ExecutionStatus::Error,
        r.exit_code is None,
        r.stdout is None,
        r.stderr is None,
        r.metrics is None,
        r.timestamps.started_ms == started_ms,
        r.timestamps.completed_ms == completed_ms,
        r.error matches Some(e) && e.code@ == code_str_of(error) && e.message@ == message_of(error)
            && e.details is None,
        response_well_formed(r),
{
    let code = ErrorCode::from_error(error);
    let err = ErrorResponse {
        code: String::from_str(code.code),
        message: code.message,
        details: None,
    };
    ExecutionResponse::error(execution_id, err, started_ms, completed_ms)
}

/// What concluding a plain exit yields. A capture failure — an oversize
/// stream or a failed read, standard output consulted first — becomes an
/// error response with that failure's stable code and message. With both
/// streams whole, the combined size decides between the success record and
/// the output-size error.
pub open spec fn exit_outcome(
    r: ExecutionResponse,
    exit_code: i32,
    stdout: StreamAccumulator,
    stderr: StreamAccumulator,
    max_output_bytes: usize,
    monitoring: MonitoringResult,
    io: IoStats,
    started_ms: u64,
    completed_ms: u64,
) -> bool {
    match first_capture_failure(stdout, stderr) {
        Some(x) => r.status == ExecutionStatus::Error && r.exit_code is None && r.stdout is None
            && r.stderr is None && r.metrics is None && (r.error matches Some(e) && e.code@
            == code_str_of(CapsuleError::Execution(x)) && e.message@ == message_of(
            CapsuleError::Execution(x),
        ) && e.details is None),
        None => (stdout.data@.len() + stderr.data@.len() <= max_output_bytes ==> r.status
            == ExecutionStatus::Success && r.exit_code == Some(exit_code) && (
        r.stdout matches Some(o) && o@ == lossy_of(stdout.data@)) && (r.stderr matches Some(e) && e@
            == lossy_of(stderr.data@)) && r.metrics == Some(
            spec_compose_metrics(monitoring, io, (completed_ms - started_ms) as u64),
        ) && r.error is None) && (stdout.data@.len() + stderr.data@.len() > max_output_bytes
            ==> r.status == ExecutionStatus::Error && r.exit_code is None && r.stdout is None
            && r.stderr is None && r.metrics is None && (r.error matches Some(e) && e.code@
            == "E3006"@ && e.message@ == "Output exceeded size limit of "@ + dec_chars(
            max_output_bytes as nat,
        ) + " bytes"@ && e.details is None)),
    }
}

/// The response for a child that exited on its own: the success record with
/// decoded streams and measured metrics, or the error that capture raised.
pub fn conclude_exit(
    execution_id: String,
    exit_code: i32,
    stdout: StreamAccumulator,
    stderr: StreamAccumulator,
    max_output_bytes: usize,
    monitoring: MonitoringResult,
    io: IoStats,
    started_ms: u64,
    completed_ms: u64,
) -> (r: ExecutionResponse)
    requires
        started_ms <= completed_ms,
    ensures
        r.execution_id == execution_id,
        r.timestamps.started_ms == started_ms,
        r.timestamps.completed_ms == completed_ms,
        exit_outcome(
            r,
            exit_code,
            stdout,
            stderr,
            max_output_bytes,
            monitoring,
            io,
            started_ms,
            completed_ms,
        ),
        response_well_formed(r),
{
    match stdout.failed {
        Some(x) => {
            return failure_response(
                execution_id,
                CapsuleError::Execution(x),
                started_ms,
                completed_ms,
            );
        },
        None => {},
    }
    match stderr.failed {
        Some(x) => {
            return failure_response(
                execution_id,
                CapsuleError::Execution(x),
                started_ms,
                completed_ms,
            );
        },
        None => {},
    }
    match CapturedStreams::assemble(stdout.data, stderr.data, max_output_bytes) {
        Ok(streams) => {
            let out = lossy_string(streams.stdout.as_slice());
            let err = lossy_string(streams.stderr.as_slice());
            let wall = completed_ms - started_ms;
            let metrics = compose_metrics(monitoring, io, wall);
            ExecutionResponse::success(
                execution_id,
                exit_code,
                out,
                err,
                metrics,
                started_ms,
                completed_ms,
            )
        },
        Err(e) => failure_response(execution_id, e, started_ms, completed_ms),
    }
}

/// Concludes an execution: every terminal verdict yields exactly one
/// response, well formed, carrying the verdict's stable code — the timeout
/// code past the deadline, the out-of-memory code with the limit, the
/// signal code with the number and name, the monitoring failure mapped by
/// the error table, and for a plain exit the full exit outcome: success
/// with decoded streams and measured metrics, or the capture failure's
/// code, or the output-size error.
pub fn conclude(
    execution_id: String,
    decision: TickDecision,
    timeout_ms: u64,
    memory_limit: u64,
    stdout: StreamAccumulator,
    stderr: StreamAccumulator,
    max_output_bytes: usize,
    monitoring: MonitoringResult,
    io: IoStats,
    started_ms: u64,
    completed_ms: u64,
) -> (r: ExecutionResponse)
    requires
        started_ms <= completed_ms,
        !(decision is Proceed),
    ensures
        response_well_formed(r),
        r.execution_id == execution_id,
        r.timestamps.started_ms == started_ms,
        r.timestamps.completed_ms == completed_ms,
        match decision {
            TickDecision::Proceed => false,
            TickDecision::DeadlinePassed => r.status == ExecutionStatus::Timeout && (
            r.error matches Some(e) && e.code@ == "E3001"@),
            TickDecision::OomKilled => r.status == ExecutionStatus::Error && (r.error matches Some(
                e,
            ) && e.code@ == "E4002"@ && e.details == Some(
                ErrorDetail::MemoryLimit { memory_limit },
            )),
            TickDecision::Signaled(s) => r.status == ExecutionStatus::Error && (
            r.error matches Some(e) && e.code@ == "E3003"@ && (e.details matches Some(
                ErrorDetail::Signal { signal, .. },
            ) && signal == s)),
            TickDecision::Exited(c) => exit_outcome(
                r,
                c,
                stdout,
                stderr,
                max_output_bytes,
                monitoring,
                io,
                started_ms,
                completed_ms,
            ),
            TickDecision::WaitError(m) => r.status == ExecutionStatus::Error && (
            r.error matches Some(e) && e.code@ == "E3005"@ && e.message@ == m@),
        },
{
    match decision {
        TickDecision::Proceed => {
            // Unreachable: the caller concludes only on a terminal verdict.
            ExecutionResponse::timeout(execution_id, timeout_ms, started_ms, completed_ms)
        },
        TickDecision::DeadlinePassed => ExecutionResponse::timeout(
            execution_id,
            timeout_ms,
            started_ms,
            completed_ms,
        ),
        TickDecision::OomKilled => oom_response(
            execution_id,
            memory_limit,
            started_ms,
            completed_ms,
        ),
        TickDecision::Signaled(signal) => signal_response(
            execution_id,
            signal,
            started_ms,
            completed_ms,
        ),
        TickDecision::Exited(code) => conclude_exit(
            execution_id,
            code,
            stdout,
            stderr,
            max_output_bytes,
            monitoring,
            io,
            started_ms,
            completed_ms,
        ),
        TickDecision::WaitError(message) => failure_response(
            execution_id,
            CapsuleError::Execution(ExecutionError::MonitoringError(message)),
            started_ms,
            completed_ms,
        ),
    }
}


/// The exit code the surrounding process reports for a response: a success
/// passes the child's code through, an error is one, a timeout the
/// conventional 124, a kill the conventional 128 plus the kill signal.
pub open spec fn spec_process_exit_code(r: ExecutionResponse) -> i32 {
    match r.status {
        ExecutionStatus::Success => match r.exit_code {
            Some(c) => c,
            None => 0i32,
        },
        ExecutionStatus::Error => 1i32,
        ExecutionStatus::Timeout => 124i32,
        ExecutionStatus::Killed => 137i32,
    }
}

/// Maps a response to the process exit code, matching
/// `spec_process_exit_code`.
pub fn process_exit_code(r: &ExecutionResponse) -> (c: i32)
    ensures
        c == spec_process_exit_code(*r),
{
    match r.status {
        ExecutionStatus::Success => match r.exit_code {
            Some(code) => code,
            None => 0,
        },
        ExecutionStatus::Error => 1,
        ExecutionStatus::Timeout => 124,
        ExecutionStatus::Killed => 137,
    }
}

} // verus!
