//! The course of one invocation.
//!
//! An invocation is a small state machine. `Invocation::start` decodes the
//! delivered batch and yields the first state. A state that is `Fetching` or
//! `Dispatching` names the one network call to make next; the caller makes it
//! and hands the reply to `resolve`, which yields the state after it. `Done`
//! and `Failed` are final. Nothing is retried. Only the first record of a
//! batch is processed; the records behind it are ignored.

use crate::decoder::{
    decode, decode_log, decoded, reference_models, DecodeOutcome, MalformedRecord,
};
use crate::exchange::{
    dispatch_reply_model, fetch_reply_model, submission_for, DispatchFault, FetchFault, JobModel,
    JobSubmission, ObjectContent, SubmissionModel, TextDetectionJob,
};
use crate::journal::{log_models, LogEntry, LogModel};
use crate::notification::{NotificationBatch, RecordModel};
use crate::reference::{ObjectReference, ReferenceModel};
use vstd::prelude::*;

verus! {

/// The object store did not return the object `reference`.
#[derive(Debug, PartialEq, Eq)]
pub struct FetchError {
    pub fault: FetchFault,
    pub reference: ObjectReference,
}

/// A fetch error, as sequences.
pub struct FetchErrorModel {
    pub fault: FetchFault,
    pub reference: ReferenceModel,
}

impl View for FetchError {
    type V = FetchErrorModel;

    open spec fn view(&self) -> FetchErrorModel {
        FetchErrorModel { fault: self.fault, reference: self.reference@ }
    }
}

/// The document-analysis service did not start the job.
#[derive(Clone, Copy, Debug, PartialEq, Eq)]
pub struct DispatchError {
    pub fault: DispatchFault,
}

/// Why an invocation failed.
#[derive(Debug, PartialEq, Eq)]
pub enum InvocationError {
    /// A record of the batch lacks its bucket name or its object key.
    MalformedRecord(MalformedRecord),
    /// The object could not be fetched.
    FetchFailure(FetchError),
    /// The job could not be started.
    DispatchFailure(DispatchError),
}

/// An invocation error, as sequences.
pub enum InvocationErrorModel {
    MalformedRecord(MalformedRecord),
    FetchFailure(FetchErrorModel),
    DispatchFailure(DispatchError),
}

impl View for InvocationError {
    type V = InvocationErrorModel;

    open spec fn view(&self) -> InvocationErrorModel {
        match self {
            InvocationError::MalformedRecord(m) => InvocationErrorModel::MalformedRecord(*m),
            InvocationError::FetchFailure(e) => InvocationErrorModel::FetchFailure(e@),
            InvocationError::DispatchFailure(e) => InvocationErrorModel::DispatchFailure(*e),
        }
    }
}

/// How an invocation that did not fail ended.
#[derive(Debug, PartialEq, Eq)]
pub enum Completion {
    /// The batch was empty: no work was required.
    NoOp,
    /// The job for the first record's object was accepted.
    Success(TextDetectionJob),
}

/// A completion, as sequences.
pub enum CompletionModel {
    NoOp,
    Success(JobModel),
}

impl View for Completion {
    type V = CompletionModel;

    open spec fn view(&self) -> CompletionModel {
        match self {
            Completion::NoOp => CompletionModel::NoOp,
            Completion::Success(job) => CompletionModel::Success(job@),
        }
    }
}

/// An invocation that waits for the content of one object.
#[derive(Debug, PartialEq, Eq)]
pub struct PendingFetch {
    reference: ObjectReference,
}

impl View for PendingFetch {
    type V = ReferenceModel;

    closed spec fn view(&self) -> ReferenceModel {
        self.reference@
    }
}

/// An invocation that waits for the document-analysis service to accept one
/// job.
#[derive(Debug, PartialEq, Eq)]
pub struct PendingDispatch {
    submission: JobSubmission,
}

impl View for PendingDispatch {
    type V = SubmissionModel;

    closed spec fn view(&self) -> SubmissionModel {
        self.submission@
    }
}

/// The state of an invocation.
#[derive(Debug, PartialEq, Eq)]
pub enum Invocation {
    /// The object is to be fetched from the object store.
    Fetching(PendingFetch),
    /// The job is to be submitted to the document-analysis service.
    Dispatching(PendingDispatch),
    /// The invocation succeeded.
    Done(Completion),
    /// The invocation failed.
    Failed(InvocationError),
}

/// The state of an invocation, as sequences.
pub enum InvocationModel {
    Fetching(ReferenceModel),
    Dispatching(SubmissionModel),
    Done(CompletionModel),
    Failed(InvocationErrorModel),
}

impl View for Invocation {
    type V = InvocationModel;

    open spec fn view(&self) -> InvocationModel {
        match self {
            Invocation::Fetching(pending) => InvocationModel::Fetching(pending@),
            Invocation::Dispatching(pending) => InvocationModel::Dispatching(pending@),
            Invocation::Done(completion) => InvocationModel::Done(completion@),
            Invocation::Failed(error) => InvocationModel::Failed(error@),
        }
    }
}

/// Whether a state is final: no call is left to make.
pub open spec fn finished(state: InvocationModel) -> bool {
    state is Done || state is Failed
}

/// One transition: the state reached and the entries to log for it.
#[derive(Debug, PartialEq, Eq)]
pub struct Step {
    pub next: Invocation,
    pub log: Vec<LogEntry>,
}

/// A transition, as sequences.
pub struct StepModel {
    pub next: InvocationModel,
    pub log: Seq<LogModel>,
}

impl View for Step {
    type V = StepModel;

    open spec fn view(&self) -> StepModel {
        StepModel { next: self.next@, log: log_models(self.log@) }
    }
}

/// The first transition of an invocation that `batch` starts.
///
/// The batch is decoded, and what decoding logs is logged. An empty batch ends
/// the invocation as a no-op. A first record that lacks a field fails it.
/// Otherwise the object that the first record names is to be fetched. The
/// records behind the first are ignored.
pub open spec fn started(batch: Seq<RecordModel>) -> StepModel {
    StepModel {
        next: match decoded(batch) {
            Err(DecodeOutcome::NothingToDo) => InvocationModel::Done(CompletionModel::NoOp),
            Err(DecodeOutcome::Malformed(malformed)) => InvocationModel::Failed(
                InvocationErrorModel::MalformedRecord(malformed),
            ),
            Ok(references) => InvocationModel::Fetching(references[0]),
        },
        log: decode_log(batch),
    }
}

/// The transition on the object store's reply to the fetch of `reference`.
///
/// Content leads to the submission of a job for it, under the fixed tag. A
/// fault fails the invocation, with the fault as the store classified it and
/// the reference it was met on.
pub open spec fn fetch_resolved(reference: ReferenceModel, reply: Result<Seq<u8>, FetchFault>)
    -> StepModel {
    match reply {
        Ok(content) => StepModel {
            next: InvocationModel::Dispatching(submission_for(reference, content)),
            log: seq![],
        },
        Err(fault) => StepModel {
            next: InvocationModel::Failed(
                InvocationErrorModel::FetchFailure(FetchErrorModel { fault, reference }),
            ),
            log: seq![],
        },
    }
}

/// The transition on the document-analysis service's reply to `submission`.
///
/// An accepted job ends the invocation successfully, and its handle is logged.
/// A fault fails the invocation, and so does a reply without a job identifier,
/// since a job handle holds at least that.
pub open spec fn dispatch_resolved(
    submission: SubmissionModel,
    reply: Result<Option<Seq<char>>, DispatchFault>,
) -> StepModel {
    match reply {
        Ok(Some(job_id)) => StepModel {
            next: InvocationModel::Done(
                CompletionModel::Success(JobModel { job_id, tag: submission.tag }),
            ),
            log: seq![LogModel::JobAccepted { job_id, tag: submission.tag }],
        },
        Ok(None) => StepModel {
            next: InvocationModel::Failed(
                InvocationErrorModel::DispatchFailure(
                    DispatchError { fault: DispatchFault::NoIdentifier },
                ),
            ),
            log: seq![],
        },
        Err(fault) => StepModel {
            next: InvocationModel::Failed(
                InvocationErrorModel::DispatchFailure(DispatchError { fault }),
            ),
            log: seq![],
        },
    }
}

impl Invocation {
    /// Starts an invocation on a delivered batch.
    pub fn start(batch: &NotificationBatch) -> (step: Step)
        ensures
            step@ == started(batch@),
    {
        let mut log: Vec<LogEntry> = Vec::new();
        let result = decode(batch, &mut log);
        assert(log_models(log@) =~= decode_log(batch@));
        let next = match result {
            Err(DecodeOutcome::NothingToDo) => Invocation::Done(Completion::NoOp),
            Err(DecodeOutcome::Malformed(malformed)) => Invocation::Failed(
                InvocationError::MalformedRecord(malformed),
            ),
            Ok(mut references) => {
                proof {
                    let models = reference_models(references@);
                    assert(models.len() == references@.len());
                    assert(models[0] == references@[0]@);
                }
                Invocation::Fetching(PendingFetch { reference: references.swap_remove(0) })
            },
        };
        Step { next, log }
    }

    /// Whether the invocation has ended, with or without success.
    pub fn is_finished(&self) -> (ended: bool)
        ensures
            ended == finished(self@),
    {
        match self {
            Invocation::Done(_) => true,
            Invocation::Failed(_) => true,
            _ => false,
        }
    }
}

impl PendingFetch {
    /// The object to fetch.
    pub fn reference(&self) -> (reference: &ObjectReference)
        ensures
            reference@ == self@,
    {
        &self.reference
    }

    /// Takes the object store's reply to the fetch.
    pub fn resolve(self, reply: Result<ObjectContent, FetchFault>) -> (step: Step)
        ensures
            step@ == fetch_resolved(self@, fetch_reply_model(reply)),
    {
        let log: Vec<LogEntry> = Vec::new();
        let step = match reply {
            Ok(content) => Step {
                next: Invocation::Dispatching(
                    PendingDispatch { submission: JobSubmission::new(self.reference, content) },
                ),
                log,
            },
            Err(fault) => Step {
                next: Invocation::Failed(
                    InvocationError::FetchFailure(FetchError { fault, reference: self.reference }),
                ),
                log,
            },
        };
        assert(step@.log =~= Seq::<LogModel>::empty());
        step
    }
}

impl PendingDispatch {
    /// The job to submit.
    pub fn submission(&self) -> (submission: &JobSubmission)
        ensures
            submission@ == self@,
    {
        &self.submission
    }

    /// Takes the document-analysis service's reply to the submission.
    pub fn resolve(self, reply: Result<Option<String>, DispatchFault>) -> (step: Step)
        ensures
            step@ == dispatch_resolved(self@, dispatch_reply_model(reply)),
    {
        let mut log: Vec<LogEntry> = Vec::new();
        let step = match reply {
            Ok(None) => Step {
                next: Invocation::Failed(
                    InvocationError::DispatchFailure(
                        DispatchError { fault: DispatchFault::NoIdentifier },
                    ),
                ),
                log,
            },
            Ok(Some(job_id)) => {
                let tag = self.submission.tag().to_owned();
                log.push(LogEntry::JobAccepted { job_id: job_id.clone(), tag: tag.clone() });
                Step {
                    next: Invocation::Done(Completion::Success(TextDetectionJob { job_id, tag })),
                    log,
                }
            },
            Err(fault) => Step {
                next: Invocation::Failed(InvocationError::DispatchFailure(DispatchError { fault })),
                log,
            },
        };
        assert(step@.log =~= dispatch_resolved(self@, dispatch_reply_model(reply)).log);
        step
    }
}

} // verus!
