//! What a whole invocation does, whatever the two services answer.
//!
//! The object store and the document-analysis service are taken as two
//! arbitrary functions from a request to a reply. `invocation` plays an
//! invocation against them: it makes each call that a state asks for and
//! resolves the state with the reply. The lemmas of this module state what
//! then holds of the calls made, of the log and of the final state.

use crate::decoder::{actionable, missing_field, reference_of, MalformedRecord, RequiredField};
use crate::exchange::{submission_for, DispatchFault, FetchFault, JobModel, SubmissionModel, JOB_TAG};
use crate::journal::LogModel;
use crate::notification::RecordModel;
use crate::orchestrator::{
    dispatch_resolved, fetch_resolved, finished, started, CompletionModel, DispatchError,
    FetchErrorModel, InvocationErrorModel, InvocationModel, StepModel,
};
use crate::reference::ReferenceModel;
use vstd::prelude::*;

verus! {

/// The two services, each as a function from a request to its reply.
pub struct Services {
    pub store: spec_fn(ReferenceModel) -> Result<Seq<u8>, FetchFault>,
    pub analysis: spec_fn(SubmissionModel) -> Result<Option<Seq<char>>, DispatchFault>,
}

/// One network call.
pub enum Call {
    /// The object store is asked for the content of an object.
    Fetch(ReferenceModel),
    /// The document-analysis service is asked to start a job.
    Dispatch(SubmissionModel),
}

/// The calls made, the entries logged and the state reached.
pub struct Trace {
    pub calls: Seq<Call>,
    pub log: Seq<LogModel>,
    pub end: InvocationModel,
}

/// Plays an invocation on from `step`, making at most `budget` calls.
pub open spec fn run(step: StepModel, services: Services, budget: nat) -> Trace
    decreases budget,
{
    if budget == 0 {
        Trace { calls: seq![], log: step.log, end: step.next }
    } else {
        match step.next {
            InvocationModel::Fetching(reference) => {
                let reply = (services.store)(reference);
                let rest = run(fetch_resolved(reference, reply), services, (budget - 1) as nat);
                Trace {
                    calls: seq![Call::Fetch(reference)] + rest.calls,
                    log: step.log + rest.log,
                    end: rest.end,
                }
            },
            InvocationModel::Dispatching(submission) => {
                let reply = (services.analysis)(submission);
                let rest = run(dispatch_resolved(submission, reply), services, (budget - 1) as nat);
                Trace {
                    calls: seq![Call::Dispatch(submission)] + rest.calls,
                    log: step.log + rest.log,
                    end: rest.end,
                }
            },
            _ => Trace { calls: seq![], log: step.log, end: step.next },
        }
    }
}

/// The invocation that `batch` starts, played against `services`.
pub open spec fn invocation(batch: Seq<RecordModel>, services: Services) -> Trace {
    run(started(batch), services, 2)
}

/// From a final state nothing more happens.
proof fn lemma_run_finished(step: StepModel, services: Services, budget: nat)
    requires
        finished(step.next),
    ensures
        run(step, services, budget) == (Trace { calls: seq![], log: step.log, end: step.next }),
{
}

/// After the dispatch reply the invocation has ended.
proof fn lemma_run_dispatching(step: StepModel, services: Services, budget: nat)
    requires
        step.next is Dispatching,
        budget >= 1,
    ensures
        ({
            let submission = step.next->Dispatching_0;
            let last = dispatch_resolved(submission, (services.analysis)(submission));
            let trace = run(step, services, budget);
            &&& finished(last.next)
            &&& trace.calls =~= seq![Call::Dispatch(submission)]
            &&& trace.log =~= step.log + last.log
            &&& trace.end == last.next
        }),
{
    let submission = step.next->Dispatching_0;
    let last = dispatch_resolved(submission, (services.analysis)(submission));
    lemma_run_finished(last, services, (budget - 1) as nat);
}

/// The whole course of an invocation, step by step, for any budget of two
/// calls or more.
proof fn lemma_run_unfolds(batch: Seq<RecordModel>, services: Services, budget: nat)
    requires
        budget >= 2,
    ensures
        ({
            let first = started(batch);
            let trace = run(first, services, budget);
            match first.next {
                InvocationModel::Fetching(reference) => {
                    let second = fetch_resolved(reference, (services.store)(reference));
                    match second.next {
                        InvocationModel::Dispatching(submission) => {
                            let last = dispatch_resolved(
                                submission,
                                (services.analysis)(submission),
                            );
                            &&& finished(last.next)
                            &&& trace.calls =~= seq![
                                Call::Fetch(reference),
                                Call::Dispatch(submission),
                            ]
                            &&& trace.log =~= first.log + last.log
                            &&& trace.end == last.next
                        },
                        _ => {
                            &&& finished(second.next)
                            &&& trace.calls =~= seq![Call::Fetch(reference)]
                            &&& trace.log =~= first.log
                            &&& trace.end == second.next
                        },
                    }
                },
                _ => {
                    &&& finished(first.next)
                    &&& trace.calls =~= Seq::<Call>::empty()
                    &&& trace.log =~= first.log
                    &&& trace.end == first.next
                },
            }
        }),
{
    let first = started(batch);
    match first.next {
        InvocationModel::Fetching(reference) => {
            let second = fetch_resolved(reference, (services.store)(reference));
            if second.next is Dispatching {
                lemma_run_dispatching(second, services, (budget - 1) as nat);
            } else {
                lemma_run_finished(second, services, (budget - 1) as nat);
            }
        },
        _ => {
            lemma_run_finished(first, services, budget);
        },
    }
}

/// An invocation ends after two calls at most: a larger budget changes
/// nothing.
pub proof fn lemma_invocation_ends(batch: Seq<RecordModel>, services: Services, budget: nat)
    requires
        budget >= 2,
    ensures
        run(started(batch), services, budget) == invocation(batch, services),
        finished(invocation(batch, services).end),
        invocation(batch, services).calls.len() <= 2,
{
    lemma_run_unfolds(batch, services, budget);
    lemma_run_unfolds(batch, services, 2);
    let wide = run(started(batch), services, budget);
    let trace = invocation(batch, services);
    assert(wide.calls =~= trace.calls);
    assert(wide.log =~= trace.log);
}

/// An empty batch ends the invocation successfully, as a no-op, without any
/// call.
pub proof fn lemma_empty_batch_is_a_no_op(batch: Seq<RecordModel>, services: Services)
    requires
        batch.len() == 0,
    ensures
        ({
            let trace = invocation(batch, services);
            &&& trace.end == InvocationModel::Done(CompletionModel::NoOp)
            &&& trace.calls =~= Seq::<Call>::empty()
            &&& trace.log =~= seq![LogModel::BatchReceived { records: 0 }, LogModel::EmptyBatch]
        }),
{
    lemma_run_unfolds(batch, services, 2);
}

/// A batch whose first record lacks its bucket name or its object key fails
/// before any call is made, with that record and the field that it lacks.
pub proof fn lemma_malformed_first_record_fails_without_calls(
    batch: Seq<RecordModel>,
    services: Services,
    field: RequiredField,
)
    requires
        batch.len() >= 1,
        missing_field(batch[0]) == Some(field),
    ensures
        ({
            let trace = invocation(batch, services);
            &&& trace.calls =~= Seq::<Call>::empty()
            &&& trace.end == InvocationModel::Failed(
                InvocationErrorModel::MalformedRecord(MalformedRecord { index: 0, field }),
            )
            &&& trace.log =~= seq![LogModel::BatchReceived { records: batch.len() }]
        }),
{
    lemma_run_unfolds(batch, services, 2);
}

/// Of a batch whose first record is actionable, only the first record is
/// processed: its object is fetched, once, and a job is submitted for it, once,
/// if and only if the fetch returned content. The records behind the first
/// cause no call and do not change how the invocation ends.
pub proof fn lemma_only_first_record_is_processed(batch: Seq<RecordModel>, services: Services)
    requires
        batch.len() >= 1,
        actionable(batch[0]),
    ensures
        ({
            let first = reference_of(batch[0]);
            let calls = invocation(batch, services).calls;
            match (services.store)(first) {
                Ok(content) => calls =~= seq![
                    Call::Fetch(first),
                    Call::Dispatch(submission_for(first, content)),
                ],
                Err(_) => calls =~= seq![Call::Fetch(first)],
            }
        }),
        invocation(batch, services).calls == invocation(seq![batch[0]], services).calls,
        invocation(batch, services).end == invocation(seq![batch[0]], services).end,
{
    let alone = seq![batch[0]];
    assert(alone[0] == batch[0]);
    lemma_run_unfolds(batch, services, 2);
    lemma_run_unfolds(alone, services, 2);
    assert(invocation(batch, services).calls =~= invocation(alone, services).calls);
}

/// Calls are made if and only if the batch is not empty and its first record
/// is actionable. The first call is then the fetch of the first record's
/// object, and no other call is a fetch.
pub proof fn lemma_calls_begin_with_one_fetch(batch: Seq<RecordModel>, services: Services)
    ensures
        ({
            let calls = invocation(batch, services).calls;
            &&& calls.len() >= 1 <==> batch.len() >= 1 && actionable(batch[0])
            &&& calls.len() >= 1 ==> calls[0] == Call::Fetch(reference_of(batch[0]))
            &&& forall|i: int| 1 <= i < calls.len() ==> !(#[trigger] calls[i] is Fetch)
        }),
{
    lemma_run_unfolds(batch, services, 2);
}

/// A job is submitted only for content that the object store returned:
/// whatever the batch and the services, a dispatch call is the second call, the
/// first call fetched the object it names, and the store's reply to that fetch
/// was the content it carries.
pub proof fn lemma_dispatch_follows_fetched_content(
    batch: Seq<RecordModel>,
    services: Services,
    position: int,
)
    requires
        0 <= position < invocation(batch, services).calls.len(),
        invocation(batch, services).calls[position] is Dispatch,
    ensures
        position == 1,
        ({
            let calls = invocation(batch, services).calls;
            let submission = calls[1]->Dispatch_0;
            &&& calls.len() == 2
            &&& calls[0] == Call::Fetch(submission.document)
            &&& (services.store)(submission.document) == Ok::<Seq<u8>, FetchFault>(
                submission.content,
            )
            &&& submission.tag == JOB_TAG@
        }),
{
    lemma_run_unfolds(batch, services, 2);
}

/// When the fetch fails, the fetch was made once, the invocation fails with
/// the store's fault and the reference, and no job is submitted.
pub proof fn lemma_failed_fetch_stops_the_invocation(
    batch: Seq<RecordModel>,
    services: Services,
    fault: FetchFault,
)
    requires
        batch.len() >= 1,
        actionable(batch[0]),
        (services.store)(reference_of(batch[0])) == Err::<Seq<u8>, FetchFault>(fault),
    ensures
        ({
            let first = reference_of(batch[0]);
            let trace = invocation(batch, services);
            &&& trace.calls =~= seq![Call::Fetch(first)]
            &&& trace.end == InvocationModel::Failed(
                InvocationErrorModel::FetchFailure(FetchErrorModel { fault, reference: first }),
            )
        }),
{
    lemma_run_unfolds(batch, services, 2);
}

/// When the fetch returns content, exactly one job is submitted, after the
/// fetch: for the fetched object, with its content, under the fixed tag.
pub proof fn lemma_fetched_object_is_dispatched_once(
    batch: Seq<RecordModel>,
    services: Services,
    content: Seq<u8>,
)
    requires
        batch.len() >= 1,
        actionable(batch[0]),
        (services.store)(reference_of(batch[0])) == Ok::<Seq<u8>, FetchFault>(content),
    ensures
        ({
            let first = reference_of(batch[0]);
            invocation(batch, services).calls =~= seq![
                Call::Fetch(first),
                Call::Dispatch(SubmissionModel { document: first, content, tag: JOB_TAG@ }),
            ]
        }),
{
    lemma_run_unfolds(batch, services, 2);
}

/// When the job is accepted, the invocation succeeds with the job's handle,
/// and the identifier that the service returned is the last entry of the log.
pub proof fn lemma_accepted_job_is_logged(
    batch: Seq<RecordModel>,
    services: Services,
    content: Seq<u8>,
    job_id: Seq<char>,
)
    requires
        batch.len() >= 1,
        actionable(batch[0]),
        (services.store)(reference_of(batch[0])) == Ok::<Seq<u8>, FetchFault>(content),
        (services.analysis)(submission_for(reference_of(batch[0]), content)) == Ok::<
            Option<Seq<char>>,
            DispatchFault,
        >(Some(job_id)),
    ensures
        ({
            let first = reference_of(batch[0]);
            let trace = invocation(batch, services);
            &&& trace.end == InvocationModel::Done(
                CompletionModel::Success(JobModel { job_id, tag: JOB_TAG@ }),
            )
            &&& trace.log =~= seq![
                LogModel::BatchReceived { records: batch.len() },
                LogModel::ObjectSelected { bucket: first.bucket, key: first.key },
                LogModel::JobAccepted { job_id, tag: JOB_TAG@ },
            ]
        }),
{
    lemma_run_unfolds(batch, services, 2);
}

/// The fault that a dispatch reply without a job stands for, if it is one: the
/// service's own fault, or the lack of a job identifier in its answer.
pub open spec fn dispatch_fault_of(reply: Result<Option<Seq<char>>, DispatchFault>) -> Option<
    DispatchFault,
> {
    match reply {
        Ok(Some(_)) => None,
        Ok(None) => Some(DispatchFault::NoIdentifier),
        Err(fault) => Some(fault),
    }
}

/// When the job is not accepted, the invocation fails with the dispatch
/// fault, and the submission is not repeated.
pub proof fn lemma_failed_dispatch_fails_the_invocation(
    batch: Seq<RecordModel>,
    services: Services,
    content: Seq<u8>,
    fault: DispatchFault,
)
    requires
        batch.len() >= 1,
        actionable(batch[0]),
        (services.store)(reference_of(batch[0])) == Ok::<Seq<u8>, FetchFault>(content),
        dispatch_fault_of((services.analysis)(submission_for(reference_of(batch[0]), content)))
            == Some(fault),
    ensures
        ({
            let trace = invocation(batch, services);
            &&& trace.calls.len() == 2
            &&& trace.end == InvocationModel::Failed(
                InvocationErrorModel::DispatchFailure(DispatchError { fault }),
            )
        }),
{
    lemma_run_unfolds(batch, services, 2);
}

/// How every invocation ends. It succeeds exactly when the batch is empty, or
/// the first record is actionable, the fetch returns content and the job is
/// accepted. Otherwise it fails: for the malformed record if the first record
/// is not actionable, else for the fetch if that failed, else for the
/// dispatch.
pub proof fn lemma_outcome(batch: Seq<RecordModel>, services: Services)
    ensures
        ({
            let end = invocation(batch, services).end;
            let first = reference_of(batch[0]);
            let fetched = (services.store)(first);
            let dispatched = (services.analysis)(submission_for(first, fetched.unwrap()));
            if batch.len() == 0 {
                end == InvocationModel::Done(CompletionModel::NoOp)
            } else if !actionable(batch[0]) {
                end is Failed && end->Failed_0 is MalformedRecord
            } else if fetched is Err {
                end is Failed && end->Failed_0 is FetchFailure
            } else if dispatch_fault_of(dispatched) is Some {
                end is Failed && end->Failed_0 is DispatchFailure
            } else {
                end is Done && end->Done_0 is Success
            }
        }),
{
    lemma_run_unfolds(batch, services, 2);
}

} // verus!
