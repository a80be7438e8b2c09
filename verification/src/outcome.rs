//! Execution outcomes: classifying what the sandbox observed.
//!
//! The sandbox driver runs the compile and run phases as isolated
//! subprocesses and reports what it observed of each: exit code, captured
//! bytes, duration, peak memory. This module holds the engine's decisions on
//! those observations: which status a phase earned, and how captured output
//! is capped — excess is truncated, never silently dropped, so truncation is
//! recorded in the outcome.

use vstd::prelude::*;

use crate::job::Constraints;

verus! {

/// Classification of one execution attempt.
#[derive(Clone, Copy, PartialEq, Eq, Structural, Debug)]
pub enum ExecStatus {
    /// Both phases finished cleanly within their bounds.
    Succeeded,
    /// The compile phase exited non-zero or exceeded the timeout.
    CompileFailed,
    /// The run phase exited non-zero with no resource violation.
    RuntimeFailed,
    /// The run phase exceeded the wall-clock timeout.
    TimedOut,
    /// The run phase exceeded the memory limit.
    ResourceExceeded,
}

/// What the sandbox driver observed of one subprocess phase.
#[derive(Debug)]
pub struct PhaseReport {
    /// Exit code of the process; by convention the driver reports a non-zero
    /// code for a process it had to terminate.
    pub exit_code: i32,
    /// Captured standard output, as observed (not yet capped).
    pub stdout: Vec<u8>,
    /// Captured standard error, as observed (not yet capped).
    pub stderr: Vec<u8>,
    /// Observed wall-clock duration of the phase, in milliseconds.
    pub duration_ms: u64,
    /// Observed peak memory of the phase, in bytes.
    pub peak_memory_bytes: u64,
}

/// The outcome of one job attempt: produced exactly once per attempt, never
/// mutated after it is handed to the binder.
#[derive(Debug)]
pub struct ExecutionOutcome {
    /// The attempt's classification.
    pub status: ExecStatus,
    /// Exit code of the phase the classification came from.
    pub exit_code: i32,
    /// Captured standard output, capped at the job's output limit.
    pub stdout: Vec<u8>,
    /// Captured standard error, capped at the job's output limit.
    pub stderr: Vec<u8>,
    /// Wall-clock duration of the phase, in milliseconds.
    pub duration_ms: u64,
    /// Whether standard output was longer than the cap and was truncated.
    pub stdout_truncated: bool,
    /// Whether standard error was longer than the cap and was truncated.
    pub stderr_truncated: bool,
}

/// Status the compile phase earned: exceeding the timeout or exiting
/// non-zero fails the compile; anything else proceeds.
pub open spec fn compile_status_of(r: PhaseReport, c: Constraints) -> ExecStatus {
    if r.duration_ms > c.timeout_ms || r.exit_code != 0 {
        ExecStatus::CompileFailed
    } else {
        ExecStatus::Succeeded
    }
}

/// Status the run phase earned. A timeout outranks a memory violation,
/// which outranks a plain non-zero exit; a clean exit within bounds
/// succeeds.
pub open spec fn run_status_of(r: PhaseReport, c: Constraints) -> ExecStatus {
    if r.duration_ms > c.timeout_ms {
        ExecStatus::TimedOut
    } else if r.peak_memory_bytes > c.max_memory_bytes {
        ExecStatus::ResourceExceeded
    } else if r.exit_code != 0 {
        ExecStatus::RuntimeFailed
    } else {
        ExecStatus::Succeeded
    }
}

/// A byte sequence capped at `cap` bytes.
pub open spec fn capped(s: Seq<u8>, cap: u64) -> Seq<u8> {
    if s.len() <= cap {
        s
    } else {
        s.subrange(0, cap as int)
    }
}

/// An outcome records a phase report under given constraints: it carries the
/// report's exit code and duration, its captured bytes capped at the output
/// limit, and a truncation mark wherever the cap cut anything off.
pub open spec fn records_report(
    o: ExecutionOutcome,
    status: ExecStatus,
    r: PhaseReport,
    c: Constraints,
) -> bool {
    &&& o.status == status
    &&& o.exit_code == r.exit_code
    &&& o.duration_ms == r.duration_ms
    &&& o.stdout@ == capped(r.stdout@, c.max_output_bytes)
    &&& o.stderr@ == capped(r.stderr@, c.max_output_bytes)
    &&& o.stdout_truncated == (r.stdout@.len() > c.max_output_bytes)
    &&& o.stderr_truncated == (r.stderr@.len() > c.max_output_bytes)
}

/// Cap captured bytes at `cap`, reporting whether anything was cut off.
pub fn cap_bytes(bytes: Vec<u8>, cap: u64) -> (r: (Vec<u8>, bool))
    ensures
        r.0@ == capped(bytes@, cap),
        r.1 == (bytes@.len() > cap),
{
    let mut bytes = bytes;
    if bytes.len() as u64 > cap {
        bytes.truncate(cap as usize);
        (bytes, true)
    } else {
        (bytes, false)
    }
}

/// Classify the compile phase under the job's constraints.
pub fn classify_compile(report: &PhaseReport, c: &Constraints) -> (s: ExecStatus)
    ensures
        s == compile_status_of(*report, *c),
        s == ExecStatus::Succeeded || s == ExecStatus::CompileFailed,
{
    if report.duration_ms > c.timeout_ms || report.exit_code != 0 {
        ExecStatus::CompileFailed
    } else {
        ExecStatus::Succeeded
    }
}

/// Classify the run phase under the job's constraints. A phase that ran
/// longer than the configured timeout is always classified `TimedOut`,
/// whatever else was observed of it.
pub fn classify_run(report: &PhaseReport, c: &Constraints) -> (s: ExecStatus)
    ensures
        s == run_status_of(*report, *c),
        report.duration_ms > c.timeout_ms ==> s == ExecStatus::TimedOut,
        s == ExecStatus::Succeeded ==> report.exit_code == 0 && report.duration_ms
            <= c.timeout_ms && report.peak_memory_bytes <= c.max_memory_bytes,
{
    if report.duration_ms > c.timeout_ms {
        ExecStatus::TimedOut
    } else if report.peak_memory_bytes > c.max_memory_bytes {
        ExecStatus::ResourceExceeded
    } else if report.exit_code != 0 {
        ExecStatus::RuntimeFailed
    } else {
        ExecStatus::Succeeded
    }
}

/// Build the outcome that records `report` with `status` under the job's
/// constraints, capping both captured streams.
pub fn build_outcome(status: ExecStatus, report: PhaseReport, c: &Constraints) -> (o:
    ExecutionOutcome)
    ensures
        records_report(o, status, report, *c),
{
    let exit_code = report.exit_code;
    let duration_ms = report.duration_ms;
    let (stdout, stdout_truncated) = cap_bytes(report.stdout, c.max_output_bytes);
    let (stderr, stderr_truncated) = cap_bytes(report.stderr, c.max_output_bytes);
    ExecutionOutcome {
        status,
        exit_code,
        stdout,
        stderr,
        duration_ms,
        stdout_truncated,
        stderr_truncated,
    }
}

} // verus!
