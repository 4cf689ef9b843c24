use vstd::prelude::*;
use crate::response::{CResult, Response};
use crate::transfer::{transfer_error_text, TransferError};
use crate::retry::{attempt_limit, retry_decision, ErrorClass, RetryDecision, RetryPolicy};

verus! {

/// Where a dispatched request stands.
#[derive(Debug, Clone, Copy, PartialEq, Eq, Structural)]
pub enum JobStage {
    /// Waiting for the storage client of its connection.
    Resolving,
    /// Running its transfer; `attempts` runs have failed so far.
    Transferring { attempts: usize },
    /// Its outcome is recorded and the host has been told.
    Completed,
}

/// What happened to a dispatched request since its last step.
pub enum JobEvent {
    /// The storage client is available.
    ClientReady,
    /// The storage client could not be built.
    ClientFailed(String),
    /// The transfer moved this many bytes.
    TransferSucceeded(usize),
    /// The transfer failed.
    TransferFailed(ErrorClass, String),
}

/// What the runner of a request does next.
#[derive(Debug, Clone, Copy, PartialEq, Eq, Structural)]
pub enum JobAction {
    /// Run the transfer.
    StartTransfer,
    /// Wait this many milliseconds, then run the transfer again.
    RetryAfter(u64),
    /// Signal the host's notifier: the record is final.
    NotifyHost,
    /// Nothing: the request has already completed.
    Ignore,
}

/// The decisions for one dispatched request, from the resolution of its
/// client to its single completion.
#[derive(Debug, Clone, Copy, PartialEq, Eq, Structural)]
pub struct Job {
    pub stage: JobStage,
    pub policy: RetryPolicy,
}

pub open spec fn success_record(length: usize) -> Response {
    Response { result: CResult::Success, length, error_message: None }
}

pub open spec fn error_record(message: String) -> Response {
    Response { result: CResult::Error, length: 0, error_message: Some(message) }
}

/// One step of a request: its next stage, its record, and the action to take.
pub open spec fn job_next(job: Job, response: Response, event: JobEvent) -> (Job, Response, JobAction) {
    match job.stage {
        JobStage::Completed => (job, response, JobAction::Ignore),
        JobStage::Resolving => match event {
            JobEvent::ClientReady => (
                Job { stage: JobStage::Transferring { attempts: 0 }, ..job },
                response,
                JobAction::StartTransfer,
            ),
            JobEvent::ClientFailed(m) => (
                Job { stage: JobStage::Completed, ..job },
                error_record(m),
                JobAction::NotifyHost,
            ),
            _ => (job, response, JobAction::Ignore),
        },
        JobStage::Transferring { attempts } => match event {
            JobEvent::TransferSucceeded(n) => (
                Job { stage: JobStage::Completed, ..job },
                success_record(n),
                JobAction::NotifyHost,
            ),
            JobEvent::TransferFailed(class, m) => if attempts < usize::MAX {
                match retry_decision(job.policy, (attempts + 1) as nat, class) {
                    RetryDecision::Retry { delay_ms } => (
                        Job { stage: JobStage::Transferring { attempts: (attempts + 1) as usize }, ..job },
                        response,
                        JobAction::RetryAfter(delay_ms),
                    ),
                    RetryDecision::Stop => (
                        Job { stage: JobStage::Completed, ..job },
                        error_record(m),
                        JobAction::NotifyHost,
                    ),
                }
            } else {
                (Job { stage: JobStage::Completed, ..job }, error_record(m), JobAction::NotifyHost)
            },
            _ => (job, response, JobAction::Ignore),
        },
    }
}

/// The event that the outcome of filling a destination buffer makes. A buffer
/// too small is a definitive failure: running the transfer again cannot help.
pub fn fill_event(outcome: Result<usize, TransferError>) -> (r: JobEvent)
    ensures
        match outcome {
            Ok(n) => r == JobEvent::TransferSucceeded(n),
            Err(e) => match r {
                JobEvent::TransferFailed(class, m) => class == ErrorClass::Other && m@
                    == transfer_error_text(e),
                _ => false,
            },
        },
{
    match outcome {
        Ok(n) => JobEvent::TransferSucceeded(n),
        Err(e) => JobEvent::TransferFailed(ErrorClass::Other, e.message()),
    }
}

impl Job {
    /// A request that has just been taken from the queue.
    pub fn new(policy: RetryPolicy) -> (r: Job)
        ensures
            r.stage == JobStage::Resolving,
            r.policy == policy,
    {
        Job { stage: JobStage::Resolving, policy }
    }

    /// Takes `event` into account: records the outcome in `response` when the
    /// request completes, and says what to do next.
    pub fn step(&mut self, response: &mut Response, event: JobEvent) -> (r: JobAction)
        ensures
            (*final(self), *final(response), r) == job_next(*old(self), *old(response), event),
    {
        match self.stage {
            JobStage::Completed => JobAction::Ignore,
            JobStage::Resolving => match event {
                JobEvent::ClientReady => {
                    self.stage = JobStage::Transferring { attempts: 0 };
                    JobAction::StartTransfer
                },
                JobEvent::ClientFailed(m) => {
                    self.stage = JobStage::Completed;
                    response.from_error(m);
                    JobAction::NotifyHost
                },
                _ => JobAction::Ignore,
            },
            JobStage::Transferring { attempts } => match event {
                JobEvent::TransferSucceeded(n) => {
                    self.stage = JobStage::Completed;
                    response.success(n);
                    JobAction::NotifyHost
                },
                JobEvent::TransferFailed(class, m) => {
                    if attempts < usize::MAX {
                        match self.policy.decide(attempts + 1, class) {
                            RetryDecision::Retry { delay_ms } => {
                                self.stage = JobStage::Transferring { attempts: attempts + 1 };
                                JobAction::RetryAfter(delay_ms)
                            },
                            RetryDecision::Stop => {
                                self.stage = JobStage::Completed;
                                response.from_error(m);
                                JobAction::NotifyHost
                            },
                        }
                    } else {
                        self.stage = JobStage::Completed;
                        response.from_error(m);
                        JobAction::NotifyHost
                    }
                },
                _ => JobAction::Ignore,
            },
        }
    }
}

/// The state after a request has taken `events` in order.
pub open spec fn job_run(job: Job, response: Response, events: Seq<JobEvent>) -> (Job, Response)
    decreases events.len(),
{
    if events.len() == 0 {
        (job, response)
    } else {
        let (j, r) = job_run(job, response, events.drop_last());
        let (j2, r2, _) = job_next(j, r, events.last());
        (j2, r2)
    }
}

/// How many times the host is signalled while a request takes `events`.
pub open spec fn notify_count(job: Job, response: Response, events: Seq<JobEvent>) -> nat
    decreases events.len(),
{
    if events.len() == 0 {
        0
    } else {
        let (j, r) = job_run(job, response, events.drop_last());
        let (_, _, a) = job_next(j, r, events.last());
        notify_count(job, response, events.drop_last()) + if a == JobAction::NotifyHost {
            1nat
        } else {
            0nat
        }
    }
}

/// Whatever happens to a request, the host is signalled at most once: exactly
/// once when the request has completed and never before, and the record
/// holds a final status whenever it is.
pub proof fn lemma_notified_exactly_once(job: Job, response: Response, events: Seq<JobEvent>)
    requires
        job.stage == JobStage::Resolving,
    ensures
        notify_count(job, response, events) == (if job_run(job, response, events).0.stage
            == JobStage::Completed {
            1nat
        } else {
            0nat
        }),
        job_run(job, response, events).0.stage == JobStage::Completed ==> job_run(
            job,
            response,
            events,
        ).1.is_terminal(),
    decreases events.len(),
{
    if events.len() > 0 {
        lemma_notified_exactly_once(job, response, events.drop_last());
    }
}

/// Whether every event of `events` is a transient transfer failure.
pub open spec fn all_transient_failures(events: Seq<JobEvent>) -> bool {
    forall|i: int|
        0 <= i < events.len() ==> match #[trigger] events[i] {
            JobEvent::TransferFailed(class, _) => class == ErrorClass::Transient,
            _ => false,
        }
}

proof fn lemma_transient_prefix(job: Job, response: Response, failures: Seq<JobEvent>, j: nat)
    requires
        job.stage == JobStage::Resolving,
        j <= failures.len(),
        j < attempt_limit(job.policy),
        all_transient_failures(failures),
    ensures
        job_run(job, response, seq![JobEvent::ClientReady] + failures.take(j as int)) == (
            Job { stage: (JobStage::Transferring { attempts: j as usize }), ..job },
            response,
        ),
    decreases j,
{
    let evs = seq![JobEvent::ClientReady] + failures.take(j as int);
    if j == 0 {
        assert(evs.drop_last() =~= Seq::<JobEvent>::empty());
        assert(evs.last() == JobEvent::ClientReady);
        assert(job_run(job, response, Seq::<JobEvent>::empty()) == (job, response));
    } else {
        lemma_transient_prefix(job, response, failures, (j - 1) as nat);
        assert(evs.drop_last() =~= seq![JobEvent::ClientReady] + failures.take(j - 1));
        assert(evs.last() == failures[j - 1]);
        match failures[j - 1] {
            JobEvent::TransferFailed(class, _) => {
                assert(class == ErrorClass::Transient);
                assert(retry_decision(job.policy, j, class) == (RetryDecision::Retry { delay_ms: job.policy.delay_ms }));
            },
            _ => {
                assert(false);
            },
        }
    }
}

/// A transfer that fails transiently `failures.len()` times, fewer than the
/// policy's attempts, and then moves `n` bytes completes with success and `n`.
pub proof fn lemma_transient_failures_recover(
    job: Job,
    response: Response,
    failures: Seq<JobEvent>,
    n: usize,
)
    requires
        job.stage == JobStage::Resolving,
        failures.len() < attempt_limit(job.policy),
        all_transient_failures(failures),
    ensures
        job_run(
            job,
            response,
            seq![JobEvent::ClientReady] + failures + seq![JobEvent::TransferSucceeded(n)],
        ) == ((Job { stage: JobStage::Completed, ..job }), success_record(n)),
{
    let k = failures.len();
    lemma_transient_prefix(job, response, failures, k);
    let evs = seq![JobEvent::ClientReady] + failures + seq![JobEvent::TransferSucceeded(n)];
    assert(failures.take(k as int) =~= failures);
    assert(evs.drop_last() =~= seq![JobEvent::ClientReady] + failures.take(k as int));
}

/// A transfer that always fails transiently is run exactly as many times as
/// the policy allows (once for a limit of zero): it is still running after each earlier failure, and it
/// completes with the last failure's error after the last allowed run.
pub proof fn lemma_persistent_failure_exhausts(job: Job, response: Response, failures: Seq<JobEvent>)
    requires
        job.stage == JobStage::Resolving,
        failures.len() == attempt_limit(job.policy),
        all_transient_failures(failures),
    ensures
        forall|j: int|
            0 <= j < failures.len() ==> (#[trigger] job_run(
                job,
                response,
                seq![JobEvent::ClientReady] + failures.take(j),
            )).0.stage == (JobStage::Transferring { attempts: j as usize }),
        job_run(job, response, seq![JobEvent::ClientReady] + failures) == (
            (Job { stage: JobStage::Completed, ..job }),
            error_record(failures.last()->TransferFailed_1),
        ),
{
    assert forall|j: int| 0 <= j < failures.len() implies (#[trigger] job_run(
        job,
        response,
        seq![JobEvent::ClientReady] + failures.take(j),
    )).0.stage == (JobStage::Transferring { attempts: j as usize }) by {
        lemma_transient_prefix(job, response, failures, j as nat);
    }
    let k = failures.len();
    lemma_transient_prefix(job, response, failures, (k - 1) as nat);
    let evs = seq![JobEvent::ClientReady] + failures;
    assert(evs.drop_last() =~= seq![JobEvent::ClientReady] + failures.take(k - 1));
    assert(evs.last() == failures[k - 1]);
}

} // verus!
