//! Output capture accounting: size-bounded stream buffers, capture events,
//! and per-process I/O statistics tracking.

use crate::error::{CapsuleError, ExecutionError};
use vstd::prelude::*;

verus! {

/// Names what `String::from_utf8_lossy` returns for a byte sequence.
pub uninterp spec fn lossy_of(b: Seq<u8>) -> Seq<char>;

/// Relies on `String::from_utf8_lossy`: the decoding depends on the bytes
/// alone; invalid sequences become the replacement character, and empty
/// bytes decode to the empty text.
#[verifier::external_body]
pub fn lossy_string(b: &[u8]) -> (r: String)
    ensures
        r@ == lossy_of(b@),
        b@.len() == 0 ==> r@.len() == 0,
{
    String::from_utf8_lossy(b).to_string()
}

/// One event from a stream drainer.
#[derive(Clone, Debug)]
pub enum IoEvent {
    Data(Vec<u8>),
    Error(String),
    Eof,
}

/// A size-bounded buffer for one captured stream. `limit` is the cap on the
/// bytes this buffer may hold; `failed` latches the first capture failure —
/// an oversize chunk or a read error — so that no failure can be lost
/// between draining and the conclusion of the run.
pub struct StreamAccumulator {
    pub data: Vec<u8>,
    pub limit: usize,
    pub failed: Option<ExecutionError>,
}

impl StreamAccumulator {
    /// The buffer never holds more than its cap.
    pub open spec fn wf(self) -> bool {
        self.data@.len() <= self.limit
    }

    /// An empty buffer with the given cap and no failure.
    pub fn new(limit: usize) -> (r: Self)
        ensures
            r.data@.len() == 0,
            r.limit == limit,
            r.failed is None,
            r.wf(),
    {
        StreamAccumulator { data: Vec::new(), limit, failed: None }
    }

    /// Appends a chunk; a chunk that would push the buffer past its cap is
    /// refused whole, the buffer unchanged, the output-size failure latched
    /// and returned.
    pub fn push_chunk(&mut self, chunk: &[u8]) -> (r: Result<(), CapsuleError>)
        requires
            old(self).wf(),
        ensures
            final(self).limit == old(self).limit,
            final(self).wf(),
            match r {
                Ok(()) => old(self).data@.len() + chunk@.len() <= old(self).limit
                    && final(self).data@ == old(self).data@ + chunk@ && final(self).failed == old(
                    self,
                ).failed,
                Err(e) => old(self).data@.len() + chunk@.len() > old(self).limit && final(self).data@
                    == old(self).data@ && e == CapsuleError::Execution(
                    ExecutionError::OutputSizeLimit { limit: old(self).limit },
                ) && final(self).failed == (if old(self).failed is Some {
                    old(self).failed
                } else {
                    Some(ExecutionError::OutputSizeLimit { limit: old(self).limit })
                }),
            },
    {
        if chunk.len() > self.limit - self.data.len() {
            if self.failed.is_none() {
                self.failed = Some(ExecutionError::OutputSizeLimit { limit: self.limit });
            }
            return Err(
                CapsuleError::Execution(ExecutionError::OutputSizeLimit { limit: self.limit }),
            );
        }
        let ghost before = self.data@;
        let mut i: usize = 0;
        while i < chunk.len()
            invariant
                i <= chunk@.len(),
                before.len() + chunk@.len() <= self.limit,
                self.data@ =~= before + chunk@.subrange(0, i as int),
                self.limit == old(self).limit,
                self.failed == old(self).failed,
            decreases chunk@.len() - i,
        {
            self.data.push(chunk[i]);
            i = i + 1;
        }
        assert(self.data@ =~= before + chunk@);
        Ok(())
    }

    /// Feeds one drainer event into the buffer. `Ok(true)` means the stream
    /// ended; a data chunk past the cap or a drainer error is an error, and
    /// is latched in the buffer as well as returned.
    pub fn apply_event(&mut self, event: IoEvent) -> (r: Result<bool, CapsuleError>)
        requires
            old(self).wf(),
        ensures
            final(self).limit == old(self).limit,
            final(self).wf(),
            match r {
                Ok(eof) => final(self).failed == old(self).failed && (match event {
                    IoEvent::Data(d) => !eof && final(self).data@ == old(self).data@ + d@
                        && old(self).data@.len() + d@.len() <= old(self).limit,
                    IoEvent::Eof => eof && final(self).data@ == old(self).data@,
                    IoEvent::Error(_) => false,
                }),
                Err(e) => final(self).data@ == old(self).data@ && (match e {
                    CapsuleError::Execution(x) => final(self).failed == (if old(
                        self,
                    ).failed is Some {
                        old(self).failed
                    } else {
                        Some(x)
                    }),
                    _ => false,
                }) && (match event {
                    IoEvent::Data(d) => old(self).data@.len() + d@.len() > old(self).limit && e
                        == CapsuleError::Execution(
                        ExecutionError::OutputSizeLimit { limit: old(self).limit },
                    ),
                    IoEvent::Error(m) => (e matches CapsuleError::Execution(
                        ExecutionError::IoCaptureError(t),
                    ) && t@ == "stream capture failed: "@ + m@),
                    IoEvent::Eof => false,
                }),
            },
    {
        match event {
            IoEvent::Data(d) => {
                match self.push_chunk(d.as_slice()) {
                    Ok(()) => Ok(false),
                    Err(e) => Err(e),
                }
            },
            IoEvent::Error(msg) => {
                let m = String::from_str("stream capture failed: ").concat(msg.as_str());
                let m2 = m.clone();
                if self.failed.is_none() {
                    self.failed = Some(ExecutionError::IoCaptureError(m2));
                } else {
                    let _unused = m2;
                }
                Err(CapsuleError::Execution(ExecutionError::IoCaptureError(m)))
            },
            IoEvent::Eof => Ok(true),
        }
    }
}

/// The first capture failure across both streams, standard output first, as
/// the conclusion of a run consults it.
pub open spec fn first_capture_failure(
    stdout: StreamAccumulator,
    stderr: StreamAccumulator,
) -> Option<ExecutionError> {
    if stdout.failed is Some {
        stdout.failed
    } else {
        stderr.failed
    }
}

/// Both captured streams, proven within the shared output cap.
pub struct CapturedStreams {
    pub stdout: Vec<u8>,
    pub stderr: Vec<u8>,
}

impl CapturedStreams {
    /// The combined size respects the cap.
    pub open spec fn within(self, max_output_bytes: usize) -> bool {
        self.stdout@.len() + self.stderr@.len() <= max_output_bytes
    }

    /// Accepts the two buffers exactly when their combined size is within
    /// the cap; otherwise the output-size error.
    pub fn assemble(stdout: Vec<u8>, stderr: Vec<u8>, max_output_bytes: usize) -> (r: Result<
        CapturedStreams,
        CapsuleError,
    >)
        ensures
            match r {
                Ok(c) => c.stdout@ == stdout@ && c.stderr@ == stderr@ && c.within(max_output_bytes),
                Err(e) => stdout@.len() + stderr@.len() > max_output_bytes && e
                    == CapsuleError::Execution(
                    ExecutionError::OutputSizeLimit { limit: max_output_bytes },
                ),
            },
    {
        if stdout.len() > max_output_bytes || stderr.len() > max_output_bytes - stdout.len() {
            return Err(
                CapsuleError::Execution(ExecutionError::OutputSizeLimit { limit: max_output_bytes }),
            );
        }
        Ok(CapturedStreams { stdout, stderr })
    }
}

/// Per-process I/O counters.
#[derive(Clone, Copy, Debug, PartialEq, Eq, Structural)]
pub struct IoStats {
    pub read_bytes: u64,
    pub write_bytes: u64,
    pub read_calls: u64,
    pub write_calls: u64,
}

impl Default for IoStats {
    /// All counters start at zero.
    fn default() -> (r: Self)
        ensures
            r == (IoStats { read_bytes: 0u64, write_bytes: 0u64, read_calls: 0u64, write_calls: 0u64 }),
    {
        IoStats { read_bytes: 0, write_bytes: 0, read_calls: 0, write_calls: 0 }
    }
}

/// Tracks a process's I/O counters and the change since the last reading.
pub struct IoMonitor {
    pub pid: u32,
    pub last_stats: IoStats,
}

impl IoMonitor {
    /// A monitor for one process, with zeroed counters.
    pub fn new(pid: u32) -> (r: Self)
        ensures
            r.pid == pid,
            r.last_stats == (IoStats {
                read_bytes: 0u64,
                write_bytes: 0u64,
                read_calls: 0u64,
                write_calls: 0u64,
            }),
    {
        IoMonitor { pid, last_stats: IoStats::default() }
    }

    /// Records a fresh reading and returns the saturating change since the
    /// previous one. Counters that moved backwards read as zero change.
    pub fn record(&mut self, current: IoStats) -> (delta: IoStats)
        ensures
            final(self).pid == old(self).pid,
            final(self).last_stats == current,
            delta.read_bytes == (if current.read_bytes >= old(self).last_stats.read_bytes {
                (current.read_bytes - old(self).last_stats.read_bytes) as u64
            } else {
                0u64
            }),
            delta.write_bytes == (if current.write_bytes >= old(self).last_stats.write_bytes {
                (current.write_bytes - old(self).last_stats.write_bytes) as u64
            } else {
                0u64
            }),
            delta.read_calls == (if current.read_calls >= old(self).last_stats.read_calls {
                (current.read_calls - old(self).last_stats.read_calls) as u64
            } else {
                0u64
            }),
            delta.write_calls == (if current.write_calls >= old(self).last_stats.write_calls {
                (current.write_calls - old(self).last_stats.write_calls) as u64
            } else {
                0u64
            }),
    {
        let delta = IoStats {
            read_bytes: saturating_sub_u64(current.read_bytes, self.last_stats.read_bytes),
            write_bytes: saturating_sub_u64(current.write_bytes, self.last_stats.write_bytes),
            read_calls: saturating_sub_u64(current.read_calls, self.last_stats.read_calls),
            write_calls: saturating_sub_u64(current.write_calls, self.last_stats.write_calls),
        };
        self.last_stats = current;
        delta
    }
}

/// `a - b`, or zero when `b` exceeds `a`.
fn saturating_sub_u64(a: u64, b: u64) -> (r: u64)
    ensures
        r == (if a >= b {
            (a - b) as u64
        } else {
            0u64
        }),
{
    if a >= b {
        a - b
    } else {
        0
    }
}


/// The output-cap law: any pair of captured streams that assembly accepted
/// fits the cap — the lengths of standard output and standard error sum to
/// at most the configured maximum.
pub proof fn lemma_streams_within_cap(c: CapturedStreams, max_output_bytes: usize)
    requires
        c.within(max_output_bytes),
    ensures
        c.stdout@.len() + c.stderr@.len() <= max_output_bytes,
{
}

} // verus!
