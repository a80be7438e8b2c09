//! Binding an execution outcome to its job.
//!
//! A result record combines the job's identity, the outcome, a deterministic
//! hash of the outcome's observable bytes, and the attempt counter. The hash
//! binds the produced output to the job: two independent executions of the
//! same deterministic job yield identical output hashes. Only a record whose
//! outcome succeeded may be submitted; records of failed attempts exist for
//! audit alone.

use vstd::prelude::*;

use crate::hash::{digest_bytes, extend_bytes, extend_word, fold_word, FNV_OFFSET};
use crate::job::JobDescriptor;
use crate::outcome::{ExecStatus, ExecutionOutcome};

verus! {

/// Encoding of an exit code as a digest word: the sign in the top bit, the
/// magnitude below it.
pub open spec fn exit_word(e: i32) -> u64 {
    if e >= 0 {
        e as u64
    } else {
        0x8000000000000000u64 | ((-(e as int)) as u64)
    }
}

/// Deterministic digest of an outcome's observable content: stdout and its
/// length, stderr and its length, then the exit code.
pub open spec fn output_hash_of(stdout: Seq<u8>, stderr: Seq<u8>, exit_code: i32) -> u64 {
    fold_word(
        fold_word(
            digest_bytes(fold_word(digest_bytes(FNV_OFFSET, stdout), stdout.len() as u64), stderr),
            stderr.len() as u64,
        ),
        exit_word(exit_code),
    )
}

/// The unit submitted to the ledger: immutable once bound.
#[derive(Debug)]
pub struct ResultRecord {
    /// Identity of the job the outcome belongs to.
    pub job_id: u64,
    /// The attempt's outcome.
    pub outcome: ExecutionOutcome,
    /// [`output_hash_of`] the outcome's stdout, stderr and exit code.
    pub output_hash: u64,
    /// Which attempt of the job produced the outcome, counted from one.
    pub attempt: u64,
}

impl ResultRecord {
    /// The held hash is the digest of the held outcome's content.
    pub open spec fn wf(self) -> bool {
        self.output_hash == output_hash_of(
            self.outcome.stdout@,
            self.outcome.stderr@,
            self.outcome.exit_code,
        )
    }

    /// A record may be handed to the submission gateway only when its
    /// outcome succeeded.
    pub open spec fn submittable(self) -> bool {
        self.outcome.status == ExecStatus::Succeeded
    }

    /// Whether this record may be submitted: exactly when the outcome's
    /// status is `Succeeded`.
    pub fn is_submittable(&self) -> (r: bool)
        ensures
            r == self.submittable(),
    {
        self.outcome.status == ExecStatus::Succeeded
    }
}

/// Compute the output hash of captured content.
pub fn compute_output_hash(stdout: &Vec<u8>, stderr: &Vec<u8>, exit_code: i32) -> (h: u64)
    ensures
        h == output_hash_of(stdout@, stderr@, exit_code),
{
    let h = extend_bytes(FNV_OFFSET, stdout);
    let h = extend_word(h, stdout.len() as u64);
    let h = extend_bytes(h, stderr);
    let h = extend_word(h, stderr.len() as u64);
    let e: u64 = if exit_code >= 0 {
        exit_code as u64
    } else {
        0x8000000000000000u64 | ((-(exit_code as i64)) as u64)
    };
    extend_word(h, e)
}

/// Bind an outcome to its job: a pure transformation of the outcome's bytes,
/// the job's identity and the attempt counter into an immutable record. The
/// record is submittable exactly when the outcome succeeded.
pub fn bind(job: &JobDescriptor, outcome: ExecutionOutcome, attempt: u64) -> (r: ResultRecord)
    ensures
        r.job_id == job.id,
        r.outcome == outcome,
        r.attempt == attempt,
        r.output_hash == output_hash_of(outcome.stdout@, outcome.stderr@, outcome.exit_code),
        r.wf(),
        r.submittable() <==> outcome.status == ExecStatus::Succeeded,
{
    let output_hash = compute_output_hash(&outcome.stdout, &outcome.stderr, outcome.exit_code);
    ResultRecord { job_id: job.id, outcome, output_hash, attempt }
}

/// Binding is deterministic in the outcome's observable content: two
/// outcomes with identical stdout, stderr and exit code — as two independent
/// successful executions of the same deterministic job produce — are bound
/// to identical output hashes.
pub proof fn lemma_output_hash_deterministic(o1: ExecutionOutcome, o2: ExecutionOutcome)
    requires
        o1.stdout@ == o2.stdout@,
        o1.stderr@ == o2.stderr@,
        o1.exit_code == o2.exit_code,
    ensures
        output_hash_of(o1.stdout@, o1.stderr@, o1.exit_code) == output_hash_of(
            o2.stdout@,
            o2.stderr@,
            o2.exit_code,
        ),
{
}

} // verus!
