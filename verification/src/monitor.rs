//! Resource-monitor bookkeeping: the running peaks a sampler maintains, the
//! result it hands back, and the classification of a watched process.

use vstd::prelude::*;

verus! {

/// A point-in-time reading of the execution's resource use.
#[derive(Clone, Copy, Debug, PartialEq, Eq, Structural)]
pub struct ResourceUsage {
    pub memory_bytes: u64,
    pub cpu_time_us: u64,
    pub user_time_us: u64,
    pub kernel_time_us: u64,
    pub io_bytes_read: u64,
    pub io_bytes_written: u64,
}

/// What the monitor reports when it stops: the peaks seen, the last cpu
/// totals split as the kernel reported them, and the I/O maxima.
#[derive(Clone, Copy, Debug, PartialEq, Eq, Structural)]
pub struct MonitoringResult {
    pub peak_memory: u64,
    pub total_cpu_time: u64,
    pub user_time_us: u64,
    pub kernel_time_us: u64,
    pub max_io_read: u64,
    pub max_io_written: u64,
    pub wall_time_ms: u64,
    pub oom_killed: bool,
}

/// The classification of a watched process at one glance.
#[derive(Clone, Copy, Debug, PartialEq, Eq, Structural)]
pub enum ProcessStatus {
    Running,
    Exited(i32),
    Signaled(i32),
    Stopped(i32),
    Unknown,
}

/// The state a sampling loop carries between readings: the running maximum
/// of memory and I/O, the latest cpu totals, and the out-of-memory latch.
#[derive(Clone, Copy, Debug, PartialEq, Eq, Structural)]
pub struct MonitorState {
    pub max_memory: u64,
    pub latest_cpu_us: u64,
    pub latest_user_us: u64,
    pub latest_kernel_us: u64,
    pub max_io_read: u64,
    pub max_io_written: u64,
    pub oom_killed: bool,
}

impl MonitorState {
    /// The state before any reading.
    pub fn new() -> (r: Self)
        ensures
            r == (MonitorState {
                max_memory: 0u64,
                latest_cpu_us: 0u64,
                latest_user_us: 0u64,
                latest_kernel_us: 0u64,
                max_io_read: 0u64,
                max_io_written: 0u64,
                oom_killed: false,
            }),
    {
        MonitorState {
            max_memory: 0,
            latest_cpu_us: 0,
            latest_user_us: 0,
            latest_kernel_us: 0,
            max_io_read: 0,
            max_io_written: 0,
            oom_killed: false,
        }
    }

    /// Folds one reading in: memory and I/O keep their running maximum, the
    /// cpu totals take the latest value, the latch is untouched.
    pub fn observe(&mut self, usage: ResourceUsage)
        ensures
            final(self).max_memory == (if usage.memory_bytes > old(self).max_memory {
                usage.memory_bytes
            } else {
                old(self).max_memory
            }),
            final(self).latest_cpu_us == usage.cpu_time_us,
            final(self).latest_user_us == usage.user_time_us,
            final(self).latest_kernel_us == usage.kernel_time_us,
            final(self).max_io_read == (if usage.io_bytes_read > old(self).max_io_read {
                usage.io_bytes_read
            } else {
                old(self).max_io_read
            }),
            final(self).max_io_written == (if usage.io_bytes_written > old(self).max_io_written {
                usage.io_bytes_written
            } else {
                old(self).max_io_written
            }),
            final(self).oom_killed == old(self).oom_killed,
    {
        if usage.memory_bytes > self.max_memory {
            self.max_memory = usage.memory_bytes;
        }
        self.latest_cpu_us = usage.cpu_time_us;
        self.latest_user_us = usage.user_time_us;
        self.latest_kernel_us = usage.kernel_time_us;
        if usage.io_bytes_read > self.max_io_read {
            self.max_io_read = usage.io_bytes_read;
        }
        if usage.io_bytes_written > self.max_io_written {
            self.max_io_written = usage.io_bytes_written;
        }
    }

    /// Latches an out-of-memory sighting: once set, it stays set.
    pub fn note_oom(&mut self, killed: bool)
        ensures
            final(self).oom_killed == (old(self).oom_killed || killed),
            final(self).max_memory == old(self).max_memory,
            final(self).latest_cpu_us == old(self).latest_cpu_us,
            final(self).latest_user_us == old(self).latest_user_us,
            final(self).latest_kernel_us == old(self).latest_kernel_us,
            final(self).max_io_read == old(self).max_io_read,
            final(self).max_io_written == old(self).max_io_written,
    {
        if killed {
            self.oom_killed = true;
        }
    }

    /// The monitor's report: every measured value is carried out — the
    /// memory and I/O peaks, the latest cpu totals with their user and
    /// kernel parts, the wall time the caller measured, and the latch.
    pub fn finish(self, wall_time_ms: u64) -> (r: MonitoringResult)
        ensures
            r == (MonitoringResult {
                peak_memory: self.max_memory,
                total_cpu_time: self.latest_cpu_us,
                user_time_us: self.latest_user_us,
                kernel_time_us: self.latest_kernel_us,
                max_io_read: self.max_io_read,
                max_io_written: self.max_io_written,
                wall_time_ms,
                oom_killed: self.oom_killed,
            }),
    {
        MonitoringResult {
            peak_memory: self.max_memory,
            total_cpu_time: self.latest_cpu_us,
            user_time_us: self.latest_user_us,
            kernel_time_us: self.latest_kernel_us,
            max_io_read: self.max_io_read,
            max_io_written: self.max_io_written,
            wall_time_ms,
            oom_killed: self.oom_killed,
        }
    }
}

/// After any run of readings, the peak is at least every memory value seen.
/// Stated for one step: observing never lowers the peak, and never lowers it
/// below the reading just folded in.
pub proof fn lemma_observe_peak_monotonic(before: MonitorState, after: MonitorState, usage: ResourceUsage)
    requires
        after.max_memory == (if usage.memory_bytes > before.max_memory {
            usage.memory_bytes
        } else {
            before.max_memory
        }),
    ensures
        after.max_memory >= before.max_memory,
        after.max_memory >= usage.memory_bytes,
{
}

} // verus!
