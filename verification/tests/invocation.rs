use ingest_relay::decoder::{MalformedRecord, RequiredField};
use ingest_relay::exchange::{
    DispatchFault, FetchFault, JobSubmission, ObjectContent, TextDetectionJob, JOB_TAG,
};
use ingest_relay::journal::LogEntry;
use ingest_relay::notification::{NotificationBatch, NotificationRecord};
use ingest_relay::orchestrator::{
    Completion, DispatchError, FetchError, Invocation, InvocationError,
};
use ingest_relay::reference::ObjectReference;

/// One call that the harness made for an invocation.
#[derive(Debug, PartialEq, Eq)]
enum Call {
    Fetch { bucket: String, key: String },
    Dispatch { bucket: String, key: String, bytes: Vec<u8>, tag: String },
}

/// What an invocation did when played against two stand-in services.
#[derive(Debug)]
struct Played {
    calls: Vec<Call>,
    log: Vec<LogEntry>,
    end: Invocation,
}

/// Plays an invocation to its end: makes each call that a state asks for
/// against the stand-in services, and records it.
fn play(
    batch: &NotificationBatch,
    store: &dyn Fn(&ObjectReference) -> Result<ObjectContent, FetchFault>,
    analysis: &dyn Fn(&JobSubmission) -> Result<Option<String>, DispatchFault>,
) -> Played {
    let mut calls = Vec::new();
    let mut log = Vec::new();
    let mut step = Invocation::start(batch);
    loop {
        log.append(&mut step.log);
        step = match step.next {
            Invocation::Fetching(pending) => {
                let reference = pending.reference();
                calls.push(Call::Fetch {
                    bucket: reference.bucket().to_string(),
                    key: reference.key().to_string(),
                });
                let reply = store(reference);
                pending.resolve(reply)
            }
            Invocation::Dispatching(pending) => {
                let submission = pending.submission();
                calls.push(Call::Dispatch {
                    bucket: submission.document().bucket().to_string(),
                    key: submission.document().key().to_string(),
                    bytes: submission.content().bytes.clone(),
                    tag: submission.tag().to_string(),
                });
                let reply = analysis(submission);
                pending.resolve(reply)
            }
            end => return Played { calls, log, end },
        };
    }
}

fn record(bucket: Option<&str>, key: Option<&str>) -> NotificationRecord {
    NotificationRecord::new(bucket.map(|b| b.to_string()), key.map(|k| k.to_string()))
}

fn batch(records: Vec<NotificationRecord>) -> NotificationBatch {
    NotificationBatch::new(records)
}

fn reference(bucket: &str, key: &str) -> ObjectReference {
    ObjectReference::new(bucket.to_string(), key.to_string()).unwrap()
}

fn fetch_call(bucket: &str, key: &str) -> Call {
    Call::Fetch { bucket: bucket.to_string(), key: key.to_string() }
}

fn dispatch_call(bucket: &str, key: &str, bytes: Vec<u8>) -> Call {
    Call::Dispatch { bucket: bucket.to_string(), key: key.to_string(), bytes, tag: "testtag".to_string() }
}

fn selected(bucket: &str, key: &str) -> LogEntry {
    LogEntry::ObjectSelected { bucket: bucket.to_string(), key: key.to_string() }
}

fn accepted(job_id: &str) -> LogEntry {
    LogEntry::JobAccepted { job_id: job_id.to_string(), tag: "testtag".to_string() }
}

fn success(job_id: &str) -> Invocation {
    Invocation::Done(Completion::Success(TextDetectionJob {
        job_id: job_id.to_string(),
        tag: "testtag".to_string(),
    }))
}

fn malformed(index: usize, field: RequiredField) -> Invocation {
    Invocation::Failed(InvocationError::MalformedRecord(MalformedRecord { index, field }))
}

fn fetch_failure(fault: FetchFault, bucket: &str, key: &str) -> Invocation {
    Invocation::Failed(InvocationError::FetchFailure(FetchError {
        fault,
        reference: reference(bucket, key),
    }))
}

fn dispatch_failure(fault: DispatchFault) -> Invocation {
    Invocation::Failed(InvocationError::DispatchFailure(DispatchError { fault }))
}

fn store_of_1024_bytes(_: &ObjectReference) -> Result<ObjectContent, FetchFault> {
    Ok(ObjectContent::new(vec![0xAB; 1024]))
}

fn store_without_objects(_: &ObjectReference) -> Result<ObjectContent, FetchFault> {
    Err(FetchFault::NotFound)
}

fn store_that_must_not_be_called(_: &ObjectReference) -> Result<ObjectContent, FetchFault> {
    panic!("the object store was called")
}

fn analysis_returning_job_1(_: &JobSubmission) -> Result<Option<String>, DispatchFault> {
    Ok(Some("job-1".to_string()))
}

fn analysis_that_must_not_be_called(_: &JobSubmission) -> Result<Option<String>, DispatchFault> {
    panic!("the document-analysis service was called")
}

#[test]
fn job_tag_is_the_fixed_label() {
    assert_eq!(JOB_TAG, "testtag");
}

#[test]
fn scenario_empty_batch_succeeds_without_calls() {
    let played = play(&batch(vec![]), &store_that_must_not_be_called, &analysis_that_must_not_be_called);
    assert_eq!(played.end, Invocation::Done(Completion::NoOp));
    assert_eq!(played.calls, vec![]);
}

#[test]
fn scenario_single_record_is_fetched_and_dispatched() {
    let played = play(
        &batch(vec![record(Some("docs"), Some("in/a.png"))]),
        &store_of_1024_bytes,
        &analysis_returning_job_1,
    );
    assert_eq!(played.end, success("job-1"));
    assert_eq!(
        played.calls,
        vec![fetch_call("docs", "in/a.png"), dispatch_call("docs", "in/a.png", vec![0xAB; 1024])]
    );
    assert_eq!(
        played.log,
        vec![LogEntry::BatchReceived { records: 1 }, selected("docs", "in/a.png"), accepted("job-1")]
    );
}

#[test]
fn scenario_empty_key_fails_before_any_call() {
    let played = play(
        &batch(vec![record(Some("docs"), Some(""))]),
        &store_that_must_not_be_called,
        &analysis_that_must_not_be_called,
    );
    assert_eq!(played.end, malformed(0, RequiredField::ObjectKey));
    assert_eq!(played.calls, vec![]);
}

#[test]
fn scenario_fetch_not_found_fails_without_dispatch() {
    let played = play(
        &batch(vec![record(Some("docs"), Some("in/a.png"))]),
        &store_without_objects,
        &analysis_that_must_not_be_called,
    );
    assert_eq!(played.end, fetch_failure(FetchFault::NotFound, "docs", "in/a.png"));
    assert_eq!(played.calls, vec![fetch_call("docs", "in/a.png")]);
}

#[test]
fn empty_batch_logs_the_count_and_the_notice() {
    let step = Invocation::start(&batch(vec![]));
    assert_eq!(step.next, Invocation::Done(Completion::NoOp));
    assert_eq!(step.log, vec![LogEntry::BatchReceived { records: 0 }, LogEntry::EmptyBatch]);
}

#[test]
fn start_logs_the_count_and_the_selected_object() {
    let step = Invocation::start(&batch(vec![
        record(Some("docs"), Some("in/a.png")),
        record(Some("scans"), Some("b.pdf")),
        record(Some("scans"), Some("c.pdf")),
    ]));
    assert_eq!(step.log, vec![LogEntry::BatchReceived { records: 3 }, selected("docs", "in/a.png")]);
    match step.next {
        Invocation::Fetching(pending) => assert_eq!(pending.reference(), &reference("docs", "in/a.png")),
        other => panic!("expected a fetch, got {:?}", other),
    }
}

#[test]
fn absent_bucket_name_fails_before_any_call() {
    let played = play(
        &batch(vec![record(None, Some("in/a.png"))]),
        &store_that_must_not_be_called,
        &analysis_that_must_not_be_called,
    );
    assert_eq!(played.end, malformed(0, RequiredField::BucketName));
    assert_eq!(played.calls, vec![]);
    assert_eq!(played.log, vec![LogEntry::BatchReceived { records: 1 }]);
}

#[test]
fn absent_object_key_fails_before_any_call() {
    let played = play(
        &batch(vec![record(Some("docs"), None)]),
        &store_that_must_not_be_called,
        &analysis_that_must_not_be_called,
    );
    assert_eq!(played.end, malformed(0, RequiredField::ObjectKey));
    assert_eq!(played.calls, vec![]);
}

#[test]
fn malformed_record_behind_the_first_is_ignored() {
    let played = play(
        &batch(vec![
            record(Some("docs"), Some("in/a.png")),
            record(Some(""), Some("in/b.png")),
            record(Some("docs"), None),
        ]),
        &store_of_1024_bytes,
        &analysis_returning_job_1,
    );
    assert_eq!(played.end, success("job-1"));
    assert_eq!(
        played.calls,
        vec![fetch_call("docs", "in/a.png"), dispatch_call("docs", "in/a.png", vec![0xAB; 1024])]
    );
    assert_eq!(
        played.log,
        vec![LogEntry::BatchReceived { records: 3 }, selected("docs", "in/a.png"), accepted("job-1")]
    );
}

#[test]
fn malformed_first_record_fails_though_later_records_are_valid() {
    let played = play(
        &batch(vec![
            record(Some("docs"), None),
            record(Some("docs"), Some("in/b.png")),
            record(Some("docs"), Some("in/c.png")),
        ]),
        &store_that_must_not_be_called,
        &analysis_that_must_not_be_called,
    );
    assert_eq!(played.end, malformed(0, RequiredField::ObjectKey));
    assert_eq!(played.calls, vec![]);
    assert_eq!(played.log, vec![LogEntry::BatchReceived { records: 3 }]);
}

#[test]
fn failed_fetch_is_made_once_though_a_later_record_is_malformed() {
    let played = play(
        &batch(vec![record(Some("docs"), Some("in/a.png")), record(None, None)]),
        &store_without_objects,
        &analysis_that_must_not_be_called,
    );
    assert_eq!(played.calls, vec![fetch_call("docs", "in/a.png")]);
    assert_eq!(played.end, fetch_failure(FetchFault::NotFound, "docs", "in/a.png"));
}

#[test]
fn only_the_first_record_of_a_batch_is_processed() {
    let played = play(
        &batch(vec![
            record(Some("docs"), Some("in/a.png")),
            record(Some("scans"), Some("b.pdf")),
            record(Some("scans"), Some("c.pdf")),
        ]),
        &store_of_1024_bytes,
        &analysis_returning_job_1,
    );
    assert_eq!(
        played.calls,
        vec![fetch_call("docs", "in/a.png"), dispatch_call("docs", "in/a.png", vec![0xAB; 1024])]
    );
    assert_eq!(played.end, success("job-1"));
    assert_eq!(
        played.log,
        vec![LogEntry::BatchReceived { records: 3 }, selected("docs", "in/a.png"), accepted("job-1")]
    );
}

#[test]
fn later_records_do_not_change_the_calls() {
    let alone = play(
        &batch(vec![record(Some("docs"), Some("in/a.png"))]),
        &store_of_1024_bytes,
        &analysis_returning_job_1,
    );
    let followed = play(
        &batch(vec![record(Some("docs"), Some("in/a.png")), record(Some("scans"), Some("b.pdf"))]),
        &store_of_1024_bytes,
        &analysis_returning_job_1,
    );
    assert_eq!(alone.calls, followed.calls);
    assert_eq!(alone.end, followed.end);
}

#[test]
fn every_fetch_fault_prevents_the_dispatch() {
    for fault in [
        FetchFault::NotFound,
        FetchFault::AccessDenied,
        FetchFault::Unavailable,
        FetchFault::Interrupted,
    ] {
        let played = play(
            &batch(vec![record(Some("docs"), Some("in/a.png")), record(Some("docs"), Some("in/b.png"))]),
            &|_: &ObjectReference| Err(fault),
            &analysis_that_must_not_be_called,
        );
        assert_eq!(played.calls, vec![fetch_call("docs", "in/a.png")]);
        assert_eq!(played.end, fetch_failure(fault, "docs", "in/a.png"));
        assert_eq!(
            played.log,
            vec![LogEntry::BatchReceived { records: 2 }, selected("docs", "in/a.png")]
        );
    }
}

#[test]
fn fetched_content_is_dispatched_once_under_the_fixed_tag() {
    let played = play(
        &batch(vec![record(Some("docs"), Some("in/a.png"))]),
        &|_: &ObjectReference| Ok(ObjectContent::new(vec![1, 2, 3])),
        &analysis_returning_job_1,
    );
    assert_eq!(
        played.calls,
        vec![
            fetch_call("docs", "in/a.png"),
            Call::Dispatch {
                bucket: "docs".to_string(),
                key: "in/a.png".to_string(),
                bytes: vec![1, 2, 3],
                tag: "testtag".to_string(),
            },
        ]
    );
}

#[test]
fn the_tag_does_not_depend_on_the_object() {
    let first = JobSubmission::new(reference("docs", "in/a.png"), ObjectContent::new(vec![1]));
    let second = JobSubmission::new(reference("scans", "testtag"), ObjectContent::new(vec![]));
    assert_eq!(first.tag(), "testtag");
    assert_eq!(second.tag(), "testtag");
    assert_eq!(first.tag(), JOB_TAG);
}

#[test]
fn submission_keeps_document_and_content() {
    let submission = JobSubmission::new(reference("docs", "in/a.png"), ObjectContent::new(vec![9, 8, 7]));
    assert_eq!(submission.document(), &reference("docs", "in/a.png"));
    assert_eq!(submission.content(), &ObjectContent::new(vec![9, 8, 7]));
    assert_eq!(submission.content().len(), 3);
}

#[test]
fn empty_content_is_dispatched_too() {
    let played = play(
        &batch(vec![record(Some("docs"), Some("in/empty.png"))]),
        &|_: &ObjectReference| Ok(ObjectContent::new(vec![])),
        &analysis_returning_job_1,
    );
    assert_eq!(
        played.calls,
        vec![fetch_call("docs", "in/empty.png"), dispatch_call("docs", "in/empty.png", vec![])]
    );
    assert_eq!(played.end, success("job-1"));
}

#[test]
fn accepted_job_identifier_appears_in_the_log() {
    let played = play(
        &batch(vec![record(Some("docs"), Some("in/a.png"))]),
        &store_of_1024_bytes,
        &|_: &JobSubmission| Ok(Some("0123456789abcdef".to_string())),
    );
    assert_eq!(played.end, success("0123456789abcdef"));
    assert_eq!(played.log.last(), Some(&accepted("0123456789abcdef")));
    assert!(played.log.contains(&LogEntry::JobAccepted {
        job_id: "0123456789abcdef".to_string(),
        tag: "testtag".to_string(),
    }));
}

#[test]
fn every_dispatch_fault_fails_the_invocation() {
    for fault in [
        DispatchFault::Throttled,
        DispatchFault::MalformedInput,
        DispatchFault::Unavailable,
        DispatchFault::NoIdentifier,
    ] {
        let played = play(
            &batch(vec![record(Some("docs"), Some("in/a.png"))]),
            &store_of_1024_bytes,
            &|_: &JobSubmission| Err(fault),
        );
        assert_eq!(played.end, dispatch_failure(fault));
        assert_eq!(
            played.calls,
            vec![fetch_call("docs", "in/a.png"), dispatch_call("docs", "in/a.png", vec![0xAB; 1024])]
        );
        assert_eq!(
            played.log,
            vec![LogEntry::BatchReceived { records: 1 }, selected("docs", "in/a.png")]
        );
    }
}

#[test]
fn fetch_reply_with_content_logs_nothing() {
    let step = Invocation::start(&batch(vec![record(Some("docs"), Some("in/a.png"))]));
    match step.next {
        Invocation::Fetching(pending) => {
            let after = pending.resolve(Ok(ObjectContent::new(vec![5; 16])));
            assert_eq!(after.log, vec![]);
            match after.next {
                Invocation::Dispatching(dispatch) => {
                    assert_eq!(dispatch.submission().tag(), "testtag");
                    assert_eq!(dispatch.submission().content().bytes, vec![5; 16]);
                    assert_eq!(dispatch.submission().document(), &reference("docs", "in/a.png"));
                }
                other => panic!("expected a dispatch, got {:?}", other),
            }
        }
        other => panic!("expected a fetch, got {:?}", other),
    }
}

#[test]
fn keys_reach_the_object_store_verbatim() {
    let played = play(
        &batch(vec![record(Some("My.Bucket"), Some("in/a%20b+c d.png"))]),
        &store_without_objects,
        &analysis_that_must_not_be_called,
    );
    assert_eq!(played.calls, vec![fetch_call("My.Bucket", "in/a%20b+c d.png")]);
}

#[test]
fn only_final_states_are_finished() {
    assert!(Invocation::start(&batch(vec![])).next.is_finished());
    assert!(Invocation::start(&batch(vec![record(None, None)])).next.is_finished());
    let step = Invocation::start(&batch(vec![record(Some("docs"), Some("in/a.png"))]));
    assert!(!step.next.is_finished());
    match step.next {
        Invocation::Fetching(pending) => {
            let after = pending.resolve(Ok(ObjectContent::new(vec![])));
            assert!(!after.next.is_finished());
            match after.next {
                Invocation::Dispatching(dispatch) => {
                    assert!(dispatch.resolve(Err(DispatchFault::Throttled)).next.is_finished());
                }
                other => panic!("expected a dispatch, got {:?}", other),
            }
        }
        other => panic!("expected a fetch, got {:?}", other),
    }
}

#[test]
fn reply_without_a_job_identifier_fails_the_invocation() {
    let played = play(
        &batch(vec![record(Some("docs"), Some("in/a.png"))]),
        &store_of_1024_bytes,
        &|_: &JobSubmission| Ok(None),
    );
    assert_eq!(played.end, dispatch_failure(DispatchFault::NoIdentifier));
    assert_eq!(
        played.calls,
        vec![fetch_call("docs", "in/a.png"), dispatch_call("docs", "in/a.png", vec![0xAB; 1024])]
    );
    assert_eq!(
        played.log,
        vec![LogEntry::BatchReceived { records: 1 }, selected("docs", "in/a.png")]
    );
}

#[test]
fn empty_job_identifier_is_kept_as_it_is() {
    let played = play(
        &batch(vec![record(Some("docs"), Some("in/a.png"))]),
        &store_of_1024_bytes,
        &|_: &JobSubmission| Ok(Some(String::new())),
    );
    assert_eq!(played.end, success(""));
    assert_eq!(played.log.last(), Some(&accepted("")));
}

#[test]
fn store_codes_for_missing_objects_mean_not_found() {
    assert_eq!(FetchFault::of_store_code(Some("NoSuchKey")), FetchFault::NotFound);
    assert_eq!(FetchFault::of_store_code(Some("NoSuchBucket")), FetchFault::NotFound);
}

#[test]
fn store_code_for_a_denied_request_means_access_denied() {
    assert_eq!(FetchFault::of_store_code(Some("AccessDenied")), FetchFault::AccessDenied);
}

#[test]
fn other_store_codes_mean_unavailable() {
    assert_eq!(FetchFault::of_store_code(None), FetchFault::Unavailable);
    assert_eq!(FetchFault::of_store_code(Some("")), FetchFault::Unavailable);
    assert_eq!(FetchFault::of_store_code(Some("SlowDown")), FetchFault::Unavailable);
    assert_eq!(FetchFault::of_store_code(Some("InternalError")), FetchFault::Unavailable);
    assert_eq!(FetchFault::of_store_code(Some("nosuchkey")), FetchFault::Unavailable);
    assert_eq!(FetchFault::of_store_code(Some("NoSuchKey ")), FetchFault::Unavailable);
    assert_eq!(FetchFault::of_store_code(Some("InvalidObjectState")), FetchFault::Unavailable);
}

#[test]
fn analysis_codes_for_used_up_quota_mean_throttled() {
    for code in [
        "ThrottlingException",
        "ProvisionedThroughputExceededException",
        "LimitExceededException",
    ] {
        assert_eq!(DispatchFault::of_analysis_code(Some(code)), DispatchFault::Throttled);
    }
}

#[test]
fn analysis_codes_for_rejected_requests_mean_malformed_input() {
    for code in [
        "BadDocumentException",
        "DocumentTooLargeException",
        "UnsupportedDocumentException",
        "InvalidParameterException",
        "InvalidS3ObjectException",
        "InvalidKMSKeyException",
        "IdempotentParameterMismatchException",
    ] {
        assert_eq!(DispatchFault::of_analysis_code(Some(code)), DispatchFault::MalformedInput);
    }
}

#[test]
fn other_analysis_codes_mean_unavailable() {
    for code in ["InternalServerError", "AccessDeniedException", "", "throttlingexception"] {
        assert_eq!(DispatchFault::of_analysis_code(Some(code)), DispatchFault::Unavailable);
    }
    assert_eq!(DispatchFault::of_analysis_code(None), DispatchFault::Unavailable);
}
