//! Execution core of a decentralized compute marketplace.
//!
//! A requester submits a kernel source together with resource constraints; a
//! provider validates the submission, compiles and runs it in an isolated
//! sandbox, binds the captured output to the job's content-addressed identity,
//! and hands the bound result to a ledger-submission gateway.
//!
//! The crate holds the decision logic of that pipeline: job validation and
//! identity ([`job`]), classification of sandbox observations into execution
//! outcomes ([`outcome`]), binding of outcomes to result records ([`binder`]),
//! the per-job state machine that sequences the stages and owns the retry
//! and cancellation policy ([`controller`]), the content digest beneath job
//! and output identity ([`hash`]), and the ledger of device slots a worker
//! must hold through the run phase ([`slots`]). The surrounding driver
//! performs the actual subprocess and network work and feeds its
//! observations back as events.

pub mod binder;
pub mod controller;
pub mod hash;
pub mod job;
pub mod outcome;
pub mod slots;
