//! Job descriptors and submission validation.
//!
//! An incoming submission is a raw kernel source plus declared resource
//! constraints. Validation rejects empty or oversized sources and constraints
//! outside the configured bounds, and computes the job's content-addressed
//! identity: a deterministic digest of the source bytes and the constraints,
//! so that a later verifier can confirm that a result came from this exact
//! job.

use vstd::prelude::*;

use crate::hash::{digest_bytes, digest_of_bytes, extend_word, fold_word, FNV_OFFSET};

verus! {

/// Largest accepted kernel source, in bytes.
pub const MAX_SOURCE_BYTES: u64 = 1048576;

/// Largest accepted wall-clock timeout, in milliseconds.
pub const MAX_TIMEOUT_MS: u64 = 3600000;

/// Largest accepted memory limit, in bytes.
pub const MAX_MEMORY_BYTES: u64 = 68719476736;

/// Largest accepted captured-output cap, in bytes.
pub const MAX_OUTPUT_CAP_BYTES: u64 = 16777216;

/// Resource limits declared with a job: all required, all finite.
#[derive(Clone, Copy, PartialEq, Eq, Structural, Debug)]
pub struct Constraints {
    /// Maximum wall-clock time of each phase, in milliseconds.
    pub timeout_ms: u64,
    /// Maximum memory of the run phase, in bytes.
    pub max_memory_bytes: u64,
    /// Cap on captured stdout and stderr, in bytes each.
    pub max_output_bytes: u64,
}

impl Constraints {
    /// The constraints lie inside the configured bounds: positive and finite.
    pub open spec fn wf(self) -> bool {
        &&& 0 < self.timeout_ms <= MAX_TIMEOUT_MS
        &&& 0 < self.max_memory_bytes <= MAX_MEMORY_BYTES
        &&& 0 < self.max_output_bytes <= MAX_OUTPUT_CAP_BYTES
    }
}

/// Why a submission was refused.
#[derive(Clone, Copy, PartialEq, Eq, Structural, Debug)]
pub enum ValidationError {
    /// The source was empty.
    EmptySource,
    /// The source exceeded [`MAX_SOURCE_BYTES`].
    SourceTooLarge,
    /// The timeout was zero or exceeded [`MAX_TIMEOUT_MS`].
    BadTimeout,
    /// The memory limit was zero or exceeded [`MAX_MEMORY_BYTES`].
    BadMemoryLimit,
    /// The output cap was zero or exceeded [`MAX_OUTPUT_CAP_BYTES`].
    BadOutputCap,
}

/// A validated job: immutable once created.
#[derive(Debug)]
pub struct JobDescriptor {
    /// Content-addressed identity: [`job_id_of`] the source and constraints.
    pub id: u64,
    /// The submitted kernel source.
    pub source: Vec<u8>,
    /// The declared resource limits.
    pub constraints: Constraints,
}

/// Content-addressed identity of a job: digest of the source bytes, the
/// source length, and the three constraint fields, in that order.
pub open spec fn job_id_of(source: Seq<u8>, c: Constraints) -> u64 {
    fold_word(
        fold_word(
            fold_word(
                fold_word(digest_bytes(FNV_OFFSET, source), source.len() as u64),
                c.timeout_ms,
            ),
            c.max_memory_bytes,
        ),
        c.max_output_bytes,
    )
}

impl JobDescriptor {
    /// A descriptor is well formed when its source and constraints would be
    /// accepted by validation and its identity is the digest of both.
    pub open spec fn wf(self) -> bool {
        &&& 0 < self.source@.len() <= MAX_SOURCE_BYTES
        &&& self.constraints.wf()
        &&& self.id == job_id_of(self.source@, self.constraints)
    }

    /// Recompute the identity from the source and constraints held by the
    /// descriptor, as every stage does before trusting it.
    pub fn recompute_id(&self) -> (id: u64)
        ensures
            id == job_id_of(self.source@, self.constraints),
    {
        let h = digest_of_bytes(&self.source);
        let h = extend_word(h, self.source.len() as u64);
        let h = extend_word(h, self.constraints.timeout_ms);
        let h = extend_word(h, self.constraints.max_memory_bytes);
        extend_word(h, self.constraints.max_output_bytes)
    }

    /// The held identity matches the held source and constraints.
    pub fn id_matches(&self) -> (r: bool)
        ensures
            r == (self.id == job_id_of(self.source@, self.constraints)),
    {
        let id = self.recompute_id();
        self.id == id
    }
}

/// What validation decides for a given source and constraints: the identity
/// of the accepted job, or the first error in checking order.
pub open spec fn spec_validate(source: Seq<u8>, c: Constraints) -> Result<u64, ValidationError> {
    if source.len() == 0 {
        Err(ValidationError::EmptySource)
    } else if source.len() > MAX_SOURCE_BYTES {
        Err(ValidationError::SourceTooLarge)
    } else if !(0 < c.timeout_ms <= MAX_TIMEOUT_MS) {
        Err(ValidationError::BadTimeout)
    } else if !(0 < c.max_memory_bytes <= MAX_MEMORY_BYTES) {
        Err(ValidationError::BadMemoryLimit)
    } else if !(0 < c.max_output_bytes <= MAX_OUTPUT_CAP_BYTES) {
        Err(ValidationError::BadOutputCap)
    } else {
        Ok(job_id_of(source, c))
    }
}

/// Validate a submission and build its descriptor.
///
/// Accepts exactly the pairs that [`spec_validate`] accepts, returns the
/// error it names otherwise, and computes the identity deterministically:
/// a pure transformation with no hidden state.
pub fn validate(source: Vec<u8>, constraints: Constraints) -> (r: Result<
    JobDescriptor,
    ValidationError,
>)
    ensures
        match r {
            Ok(job) => {
                &&& spec_validate(source@, constraints) == Ok::<u64, ValidationError>(job.id)
                &&& job.source@ == source@
                &&& job.constraints == constraints
                &&& job.wf()
            },
            Err(e) => spec_validate(source@, constraints) == Err::<u64, ValidationError>(e),
        },
{
    if source.len() == 0 {
        Err(ValidationError::EmptySource)
    } else if source.len() as u64 > MAX_SOURCE_BYTES {
        Err(ValidationError::SourceTooLarge)
    } else if constraints.timeout_ms == 0 || constraints.timeout_ms > MAX_TIMEOUT_MS {
        Err(ValidationError::BadTimeout)
    } else if constraints.max_memory_bytes == 0 || constraints.max_memory_bytes
        > MAX_MEMORY_BYTES {
        Err(ValidationError::BadMemoryLimit)
    } else if constraints.max_output_bytes == 0 || constraints.max_output_bytes
        > MAX_OUTPUT_CAP_BYTES {
        Err(ValidationError::BadOutputCap)
    } else {
        let h = digest_of_bytes(&source);
        let h = extend_word(h, source.len() as u64);
        let h = extend_word(h, constraints.timeout_ms);
        let h = extend_word(h, constraints.max_memory_bytes);
        let id = extend_word(h, constraints.max_output_bytes);
        Ok(JobDescriptor { id, source, constraints })
    }
}

/// Validation is a pure function of the submission: identical source bytes
/// and identical constraints always decide identically, and in particular
/// yield the identical job identity.
pub proof fn lemma_validate_deterministic(
    s1: Seq<u8>,
    c1: Constraints,
    s2: Seq<u8>,
    c2: Constraints,
)
    requires
        s1 == s2,
        c1 == c2,
    ensures
        spec_validate(s1, c1) == spec_validate(s2, c2),
{
}

} // verus!
