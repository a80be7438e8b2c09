//! The per-job pipeline controller.
//!
//! One [`Pipeline`] drives one job through validation, execution, binding and
//! submission, in that order, never skipping a stage. The controller owns the
//! retry and cancellation policy; the components below it never retry on
//! their own. All outside work — running the compiler, running the artifact,
//! calling the submission gateway — is done by a driver, which obeys the
//! [`Action`] the controller hands out and feeds what it observed back as an
//! [`Event`]. Every transition is a pure decision on the current state and
//! the event, given by [`step_rel`].

use vstd::prelude::*;

use crate::binder::{bind, ResultRecord};
use crate::job::{spec_validate, validate, Constraints, JobDescriptor, ValidationError};
use crate::outcome::{
    build_outcome, classify_compile, classify_run, compile_status_of, records_report,
    run_status_of, ExecStatus, ExecutionOutcome, PhaseReport,
};

verus! {

/// Stage of a job's pipeline. Exactly one stage is live at any time;
/// `Committed`, `Rejected` and `Abandoned` are terminal and never left.
#[derive(Clone, Copy, PartialEq, Eq, Structural, Debug)]
pub enum Stage {
    /// No submission accepted yet.
    Pending,
    /// The submission is being validated.
    Validating,
    /// Waiting for the compile phase to finish.
    Compiling,
    /// Waiting for the run phase to finish.
    Running,
    /// The outcome succeeded and awaits binding.
    Binding,
    /// A bound record awaits the gateway's answer.
    Submitting,
    /// The gateway committed the result: terminal.
    Committed,
    /// The job itself was defective, or the ledger refused it: terminal.
    Rejected,
    /// Cancelled, or the provider's infrastructure gave out: terminal.
    Abandoned,
}

impl Stage {
    /// Terminal stages are final: no event moves a job out of them.
    pub open spec fn is_terminal(self) -> bool {
        self == Stage::Committed || self == Stage::Rejected || self == Stage::Abandoned
    }

    /// Whether this stage is terminal.
    pub fn terminal(&self) -> (r: bool)
        ensures
            r == self.is_terminal(),
    {
        match self {
            Stage::Committed | Stage::Rejected | Stage::Abandoned => true,
            _ => false,
        }
    }
}

/// The gateway's answer to a submission. `Rejected` is permanent,
/// `Unavailable` transient and retryable.
#[derive(Clone, Copy, PartialEq, Eq, Structural, Debug)]
pub enum SubmitResponse {
    /// The ledger committed the result.
    Committed,
    /// The ledger refused the result for good (duplicate, bad signature).
    RejectedPermanently,
    /// The gateway could not be reached; worth retrying.
    Unavailable,
}

/// What the driver must do next for this job.
#[derive(Clone, Copy, PartialEq, Eq, Structural, Debug)]
pub enum Action {
    /// Compile the job's source in a fresh, isolated workspace.
    Compile,
    /// Run the compiled artifact under the job's resource bounds.
    RunArtifact,
    /// Bind the successful outcome to the job, then report back.
    Bind,
    /// Hand the bound record to the submission gateway.
    Submit,
    /// The job reached a terminal stage: report its outcome to the caller.
    Report,
}

/// An observation the driver hands back to the controller.
#[derive(Debug)]
pub enum Event {
    /// The compile phase ended, with what was observed of it.
    CompileFinished(PhaseReport),
    /// The run phase ended, with what was observed of it.
    RunFinished(PhaseReport),
    /// The driver acknowledged the bind instruction.
    Bound,
    /// The gateway answered a submission.
    SubmitResponded(SubmitResponse),
    /// The job was cancelled from outside.
    Cancelled,
    /// Workspace or toolchain gave out before the phase could finish.
    InfraFailed,
}

/// The controller's retry policy, fixed when the pipeline is created.
#[derive(Clone, Copy, PartialEq, Eq, Structural, Debug)]
pub struct RetryPolicy {
    /// Whether a timed-out or resource-exceeded attempt is retried once
    /// with unchanged constraints. Off by default: resource limits are a
    /// contract with the requester, not a transient fault.
    pub retry_limits_once: bool,
    /// How many transient infrastructure failures are retried before the
    /// job is abandoned.
    pub max_infra_retries: u8,
    /// How many unavailable-gateway answers are retried before the job is
    /// abandoned.
    pub max_submit_retries: u8,
}

/// One job's pipeline instance, end to end.
#[derive(Debug)]
pub struct Pipeline {
    /// The retry policy this pipeline was created with.
    pub policy: RetryPolicy,
    /// The live stage.
    pub stage: Stage,
    /// The validated job, present from successful validation on.
    pub job: Option<JobDescriptor>,
    /// Why validation refused the submission, if it did.
    pub validation_error: Option<ValidationError>,
    /// Which attempt is in flight, counted from one.
    pub attempt: u64,
    /// The attempt's outcome, held between run and binding, or kept for
    /// audit when the job was rejected on a failed phase.
    pub outcome: Option<ExecutionOutcome>,
    /// The bound record, present from binding on.
    pub record: Option<ResultRecord>,
    /// Whether the single limit retry was already spent.
    pub limit_retry_used: bool,
    /// Infrastructure retries spent so far.
    pub infra_retries: u8,
    /// Submission retries spent so far.
    pub submit_retries: u8,
}

impl Pipeline {
    /// The controller's invariant, held before and after every step.
    pub open spec fn wf(self) -> bool {
        &&& (self.stage == Stage::Compiling || self.stage == Stage::Running || self.stage
            == Stage::Binding || self.stage == Stage::Submitting) ==> (self.job matches Some(j)
            && j.wf())
        &&& (self.stage == Stage::Compiling || self.stage == Stage::Running) ==> (self.outcome
            is None && self.record is None)
        &&& self.stage == Stage::Binding ==> (self.outcome matches Some(o) && o.status
            == ExecStatus::Succeeded && self.record is None)
        &&& self.stage == Stage::Submitting ==> (self.record matches Some(r) && r.wf()
            && r.submittable() && r.job_id == self.job->Some_0.id && r.attempt <= self.attempt)
        &&& self.job is Some ==> (1 <= self.attempt && self.attempt <= 1 + self.infra_retries + (
        if self.limit_retry_used {
            1int
        } else {
            0int
        }))
        &&& self.infra_retries <= self.policy.max_infra_retries
        &&& self.stage == Stage::Pending ==> (self.job is None && self.outcome is None
            && self.record is None)
    }

    /// A fresh pipeline: no job yet, nothing spent.
    pub fn new(policy: RetryPolicy) -> (p: Pipeline)
        ensures
            p.wf(),
            p.policy == policy,
            p.stage == Stage::Pending,
            p.job is None,
            p.validation_error is None,
            p.outcome is None,
            p.record is None,
            p.attempt == 0,
            !p.limit_retry_used,
            p.infra_retries == 0,
            p.submit_retries == 0,
    {
        Pipeline {
            policy,
            stage: Stage::Pending,
            job: None,
            validation_error: None,
            attempt: 0,
            outcome: None,
            record: None,
            limit_retry_used: false,
            infra_retries: 0,
            submit_retries: 0,
        }
    }

    /// Accept a submission: validate it and enter the pipeline.
    ///
    /// On the pairs that [`spec_validate`] accepts, the job enters
    /// `Compiling` as attempt one and the driver is told to compile; on the
    /// pairs it refuses, the job is `Rejected` with exactly the error
    /// validation names, and nothing is ever executed or submitted.
    pub fn submit(&mut self, source: Vec<u8>, constraints: Constraints) -> (a: Option<Action>)
        requires
            old(self).wf(),
        ensures
            final(self).wf(),
            final(self).policy == old(self).policy,
            final(self).infra_retries == old(self).infra_retries,
            final(self).submit_retries == old(self).submit_retries,
            final(self).limit_retry_used == old(self).limit_retry_used,
            old(self).outcome is None ==> final(self).outcome is None,
            old(self).stage != Stage::Pending ==> (*final(self) == *old(self) && a is None),
            old(self).stage == Stage::Pending ==> match spec_validate(source@, constraints) {
                Ok(id) => {
                    &&& final(self).stage == Stage::Compiling
                    &&& a == Some(Action::Compile)
                    &&& (final(self).job matches Some(j) && j.id == id && j.source@ == source@
                        && j.constraints == constraints && j.wf())
                    &&& final(self).attempt == 1
                    &&& final(self).outcome is None
                    &&& final(self).record is None
                    &&& final(self).validation_error is None
                },
                Err(e) => {
                    &&& final(self).stage == Stage::Rejected
                    &&& a == Some(Action::Report)
                    &&& final(self).validation_error == Some(e)
                    &&& final(self).job is None
                    &&& final(self).record is None
                    &&& final(self).attempt == old(self).attempt
                },
            },
    {
        if !(self.stage == Stage::Pending) {
            return None;
        }
        self.stage = Stage::Validating;
        match validate(source, constraints) {
            Ok(job) => {
                self.job = Some(job);
                self.attempt = 1;
                self.validation_error = None;
                self.stage = Stage::Compiling;
                Some(Action::Compile)
            },
            Err(e) => {
                self.validation_error = Some(e);
                self.stage = Stage::Rejected;
                Some(Action::Report)
            },
        }
    }

    /// The constraints of the held job.
    pub open spec fn constraints(self) -> Constraints {
        self.job->Some_0.constraints
    }
}

/// Longest pause between two retries of a transient failure, in
/// milliseconds.
pub const MAX_BACKOFF_MS: u64 = 60000;

/// The pause before retry `n` of a transient failure, counted from zero:
/// the base doubled `n` times, capped at [`MAX_BACKOFF_MS`].
pub open spec fn spec_backoff(base_ms: u64, n: nat) -> u64
    decreases n,
{
    if n == 0 {
        if base_ms <= MAX_BACKOFF_MS {
            base_ms
        } else {
            MAX_BACKOFF_MS
        }
    } else {
        let prev = spec_backoff(base_ms, (n - 1) as nat);
        if 2 * prev <= MAX_BACKOFF_MS {
            (2 * prev) as u64
        } else {
            MAX_BACKOFF_MS
        }
    }
}

/// Exponential backoff: how long to pause before the retry that `retries`
/// earlier transient failures lead to.
pub fn backoff_ms(base_ms: u64, retries: u8) -> (d: u64)
    ensures
        d == spec_backoff(base_ms, retries as nat),
        d <= MAX_BACKOFF_MS,
{
    let mut d: u64 = if base_ms <= MAX_BACKOFF_MS {
        base_ms
    } else {
        MAX_BACKOFF_MS
    };
    let mut i: u8 = 0;
    while i < retries
        invariant
            i <= retries,
            d == spec_backoff(base_ms, i as nat),
            d <= MAX_BACKOFF_MS,
        decreases retries - i,
    {
        d = if d <= MAX_BACKOFF_MS / 2 {
            2 * d
        } else {
            MAX_BACKOFF_MS
        };
        i = i + 1;
    }
    d
}

/// Nothing happened: the event did not concern the live stage.
pub open spec fn ignores(pre: Pipeline, post: Pipeline, a: Option<Action>) -> bool {
    &&& post == pre
    &&& a is None
}

/// The controller's complete transition relation: what one [`Pipeline::step`]
/// does for every state and event.
pub open spec fn step_rel(pre: Pipeline, event: Event, post: Pipeline, a: Option<Action>) -> bool {
    if pre.stage.is_terminal() {
        ignores(pre, post, a)
    } else {
        match event {
            Event::Cancelled => {
                &&& post == (Pipeline { stage: Stage::Abandoned, ..pre })
                &&& a == Some(Action::Report)
            },
            Event::InfraFailed => {
                if pre.stage == Stage::Compiling || pre.stage == Stage::Running {
                    if pre.infra_retries < pre.policy.max_infra_retries {
                        &&& post == (Pipeline {
                            stage: Stage::Compiling,
                            infra_retries: (pre.infra_retries + 1) as u8,
                            attempt: (pre.attempt + 1) as u64,
                            ..pre
                        })
                        &&& a == Some(Action::Compile)
                    } else {
                        &&& post == (Pipeline { stage: Stage::Abandoned, ..pre })
                        &&& a == Some(Action::Report)
                    }
                } else {
                    ignores(pre, post, a)
                }
            },
            Event::CompileFinished(rep) => {
                if pre.stage == Stage::Compiling {
                    if compile_status_of(rep, pre.constraints()) == ExecStatus::Succeeded {
                        &&& post == (Pipeline { stage: Stage::Running, ..pre })
                        &&& a == Some(Action::RunArtifact)
                    } else {
                        &&& (post.outcome matches Some(o) && records_report(
                            o,
                            ExecStatus::CompileFailed,
                            rep,
                            pre.constraints(),
                        ))
                        &&& post == (Pipeline {
                            stage: Stage::Rejected,
                            outcome: post.outcome,
                            ..pre
                        })
                        &&& a == Some(Action::Report)
                    }
                } else {
                    ignores(pre, post, a)
                }
            },
            Event::RunFinished(rep) => {
                if pre.stage == Stage::Running {
                    let st = run_status_of(rep, pre.constraints());
                    if st == ExecStatus::Succeeded {
                        &&& (post.outcome matches Some(o) && records_report(
                            o,
                            ExecStatus::Succeeded,
                            rep,
                            pre.constraints(),
                        ))
                        &&& post == (Pipeline {
                            stage: Stage::Binding,
                            outcome: post.outcome,
                            ..pre
                        })
                        &&& a == Some(Action::Bind)
                    } else if (st == ExecStatus::TimedOut || st == ExecStatus::ResourceExceeded)
                        && pre.policy.retry_limits_once && !pre.limit_retry_used {
                        &&& post == (Pipeline {
                            stage: Stage::Compiling,
                            limit_retry_used: true,
                            attempt: (pre.attempt + 1) as u64,
                            ..pre
                        })
                        &&& a == Some(Action::Compile)
                    } else {
                        &&& (post.outcome matches Some(o) && records_report(
                            o,
                            st,
                            rep,
                            pre.constraints(),
                        ))
                        &&& post == (Pipeline {
                            stage: Stage::Rejected,
                            outcome: post.outcome,
                            ..pre
                        })
                        &&& a == Some(Action::Report)
                    }
                } else {
                    ignores(pre, post, a)
                }
            },
            Event::Bound => {
                if pre.stage == Stage::Binding {
                    &&& (post.record matches Some(r) && {
                        &&& r.job_id == pre.job->Some_0.id
                        &&& r.outcome == pre.outcome->Some_0
                        &&& r.attempt == pre.attempt
                        &&& r.wf()
                    })
                    &&& post == (Pipeline {
                        stage: Stage::Submitting,
                        outcome: None,
                        record: post.record,
                        ..pre
                    })
                    &&& a == Some(Action::Submit)
                } else {
                    ignores(pre, post, a)
                }
            },
            Event::SubmitResponded(resp) => {
                if pre.stage == Stage::Submitting {
                    match resp {
                        SubmitResponse::Committed => {
                            &&& post == (Pipeline { stage: Stage::Committed, ..pre })
                            &&& a == Some(Action::Report)
                        },
                        SubmitResponse::RejectedPermanently => {
                            &&& post == (Pipeline { stage: Stage::Rejected, ..pre })
                            &&& a == Some(Action::Report)
                        },
                        SubmitResponse::Unavailable => {
                            if pre.submit_retries < pre.policy.max_submit_retries {
                                &&& post == (Pipeline {
                                    submit_retries: (pre.submit_retries + 1) as u8,
                                    ..pre
                                })
                                &&& a == Some(Action::Submit)
                            } else {
                                &&& post == (Pipeline { stage: Stage::Abandoned, ..pre })
                                &&& a == Some(Action::Report)
                            }
                        },
                    }
                } else {
                    ignores(pre, post, a)
                }
            },
        }
    }
}

/// Terminal stages are final: once a job is committed, rejected or
/// abandoned, no event changes it and no action is ever instructed again.
pub proof fn lemma_terminal_is_final(pre: Pipeline, event: Event, post: Pipeline, a: Option<Action>)
    requires
        step_rel(pre, event, post, a),
        pre.stage.is_terminal(),
    ensures
        post == pre,
        a is None,
{
}

/// No stage is ever skipped: the run phase is entered only from `Compiling`,
/// binding only from `Running`, submission only from `Binding` or retried in
/// place, and a commit only from `Submitting`.
pub proof fn lemma_stages_in_order(pre: Pipeline, event: Event, post: Pipeline, a: Option<Action>)
    requires
        step_rel(pre, event, post, a),
    ensures
        post.stage == Stage::Running ==> (pre.stage == Stage::Compiling || pre.stage
            == Stage::Running),
        post.stage == Stage::Binding ==> (pre.stage == Stage::Running || pre.stage
            == Stage::Binding),
        post.stage == Stage::Submitting ==> (pre.stage == Stage::Binding || pre.stage
            == Stage::Submitting),
        post.stage == Stage::Committed ==> (pre.stage == Stage::Submitting || pre.stage
            == Stage::Committed),
{
}

/// A job whose compilation failed never reaches the run phase: the failing
/// compile event never instructs the driver to run the artifact, and from
/// `Compiling` it leads straight to a terminal stage.
pub proof fn lemma_failed_compile_never_runs(
    pre: Pipeline,
    event: Event,
    post: Pipeline,
    a: Option<Action>,
)
    requires
        step_rel(pre, event, post, a),
        event matches Event::CompileFinished(rep) && compile_status_of(rep, pre.constraints())
            != ExecStatus::Succeeded,
    ensures
        a != Some(Action::RunArtifact),
        pre.stage == Stage::Compiling ==> (post.stage == Stage::Rejected
            && post.stage.is_terminal()),
{
}

/// A record is handed to the submission gateway only while its outcome
/// succeeded: every transition that instructs a submission leaves the
/// controller holding a well-formed record whose status is `Succeeded`.
pub proof fn lemma_submit_only_when_succeeded(
    pre: Pipeline,
    event: Event,
    post: Pipeline,
    a: Option<Action>,
)
    requires
        pre.wf(),
        step_rel(pre, event, post, a),
        a == Some(Action::Submit),
    ensures
        post.record matches Some(r) && r.wf() && r.submittable(),
{
}

impl Pipeline {
    /// Feed one observation to the controller and learn what to do next.
    ///
    /// The transition is exactly [`step_rel`]. In particular: a terminal
    /// stage is never left and answers no action; the artifact is run only
    /// on the heels of a successful compile, so a failed compilation never
    /// reaches the run phase; and a submission is instructed only while a
    /// well-formed, submittable record — one whose outcome succeeded — is
    /// held.
    pub fn step(&mut self, event: Event) -> (a: Option<Action>)
        requires
            old(self).wf(),
        ensures
            final(self).wf(),
            step_rel(*old(self), event, *final(self), a),
            final(self).policy == old(self).policy,
            final(self).job == old(self).job,
            old(self).stage.is_terminal() ==> (*final(self) == *old(self) && a is None),
            a == Some(Action::RunArtifact) ==> (old(self).stage == Stage::Compiling && (event
                matches Event::CompileFinished(rep) && compile_status_of(
                rep,
                old(self).constraints(),
            ) == ExecStatus::Succeeded)),
            a == Some(Action::Submit) ==> (final(self).record matches Some(r) && r.wf()
                && r.submittable()),
    {
        if self.stage.terminal() {
            return None;
        }
        match event {
            Event::Cancelled => {
                self.stage = Stage::Abandoned;
                Some(Action::Report)
            },
            Event::InfraFailed => {
                if self.stage == Stage::Compiling || self.stage == Stage::Running {
                    if self.infra_retries < self.policy.max_infra_retries {
                        self.infra_retries = self.infra_retries + 1;
                        self.attempt = self.attempt + 1;
                        self.outcome = None;
                        self.stage = Stage::Compiling;
                        Some(Action::Compile)
                    } else {
                        self.stage = Stage::Abandoned;
                        Some(Action::Report)
                    }
                } else {
                    None
                }
            },
            Event::CompileFinished(rep) => {
                if self.stage == Stage::Compiling {
                    let c = self.job.as_ref().unwrap().constraints;
                    let st = classify_compile(&rep, &c);
                    if st == ExecStatus::Succeeded {
                        self.stage = Stage::Running;
                        Some(Action::RunArtifact)
                    } else {
                        let o = build_outcome(ExecStatus::CompileFailed, rep, &c);
                        self.outcome = Some(o);
                        self.stage = Stage::Rejected;
                        Some(Action::Report)
                    }
                } else {
                    None
                }
            },
            Event::RunFinished(rep) => {
                if self.stage == Stage::Running {
                    let c = self.job.as_ref().unwrap().constraints;
                    let st = classify_run(&rep, &c);
                    if st == ExecStatus::Succeeded {
                        let o = build_outcome(st, rep, &c);
                        self.outcome = Some(o);
                        self.stage = Stage::Binding;
                        Some(Action::Bind)
                    } else if (st == ExecStatus::TimedOut || st == ExecStatus::ResourceExceeded)
                        && self.policy.retry_limits_once && !self.limit_retry_used {
                        self.limit_retry_used = true;
                        self.attempt = self.attempt + 1;
                        self.stage = Stage::Compiling;
                        Some(Action::Compile)
                    } else {
                        let o = build_outcome(st, rep, &c);
                        self.outcome = Some(o);
                        self.stage = Stage::Rejected;
                        Some(Action::Report)
                    }
                } else {
                    None
                }
            },
            Event::Bound => {
                if self.stage == Stage::Binding {
                    let o = self.outcome.take().unwrap();
                    let r = bind(self.job.as_ref().unwrap(), o, self.attempt);
                    self.record = Some(r);
                    self.stage = Stage::Submitting;
                    Some(Action::Submit)
                } else {
                    None
                }
            },
            Event::SubmitResponded(resp) => {
                if self.stage == Stage::Submitting {
                    match resp {
                        SubmitResponse::Committed => {
                            self.stage = Stage::Committed;
                            Some(Action::Report)
                        },
                        SubmitResponse::RejectedPermanently => {
                            self.stage = Stage::Rejected;
                            Some(Action::Report)
                        },
                        SubmitResponse::Unavailable => {
                            if self.submit_retries < self.policy.max_submit_retries {
                                self.submit_retries = self.submit_retries + 1;
                                Some(Action::Submit)
                            } else {
                                self.stage = Stage::Abandoned;
                                Some(Action::Report)
                            }
                        },
                    }
                } else {
                    None
                }
            },
        }
    }
}

} // verus!
