//! What is exchanged with the object store and with the document-analysis
//! service: the content fetched, the job submitted, the job handle returned,
//! and the ways in which either service can fail.

use crate::reference::{ObjectReference, ReferenceModel};
use vstd::prelude::*;

verus! {

/// The label attached to every text-detection job. It is the same for every
/// object: it is not derived from the bucket or the key.
pub const JOB_TAG: &'static str = "testtag";

/// Why the object store did not return an object's content.
#[derive(Clone, Copy, Debug, PartialEq, Eq)]
pub enum FetchFault {
    /// The bucket or the key does not exist.
    NotFound,
    /// The caller may not read the object.
    AccessDenied,
    /// The object store could not be reached or could not answer.
    Unavailable,
    /// The content stream broke off before its end.
    Interrupted,
}

/// Why the document-analysis service did not start a job.
#[derive(Clone, Copy, Debug, PartialEq, Eq)]
pub enum DispatchFault {
    /// The service's request quota is used up.
    Throttled,
    /// The service rejected the request as malformed.
    MalformedInput,
    /// The service could not be reached or could not answer.
    Unavailable,
    /// The service answered, but without a job identifier: there is no job
    /// handle to speak of.
    NoIdentifier,
}

/// The fault that an error code of the object store stands for. The codes for
/// a missing key and a missing bucket mean that the object was not found, the
/// code for a denied request means that access was denied, and any other
/// code, or none, means that the store could not answer.
pub open spec fn store_fault_of(code: Option<Seq<char>>) -> FetchFault {
    match code {
        Some(code) => if code == "NoSuchKey"@ || code == "NoSuchBucket"@ {
            FetchFault::NotFound
        } else if code == "AccessDenied"@ {
            FetchFault::AccessDenied
        } else {
            FetchFault::Unavailable
        },
        None => FetchFault::Unavailable,
    }
}

/// The characters of an optional string slice.
pub open spec fn code_model(code: Option<&str>) -> Option<Seq<char>> {
    match code {
        Some(code) => Some(code@),
        None => None,
    }
}

impl FetchFault {
    /// Classifies a failed retrieval by the error code that the object store
    /// gave for it, if it gave one.
    pub fn of_store_code(code: Option<&str>) -> (fault: FetchFault)
        ensures
            fault == store_fault_of(code_model(code)),
    {
        match code {
            None => FetchFault::Unavailable,
            Some(code) => {
                let code = code.to_owned();
                if code == "NoSuchKey".to_owned() || code == "NoSuchBucket".to_owned() {
                    FetchFault::NotFound
                } else if code == "AccessDenied".to_owned() {
                    FetchFault::AccessDenied
                } else {
                    FetchFault::Unavailable
                }
            },
        }
    }
}

/// The fault that an error code of the document-analysis service stands for.
/// The codes for throttling and for exceeded limits mean that the quota is
/// used up, the codes for a bad, oversized or unsupported document and for
/// invalid parameters mean that the request was malformed, and any other
/// code, or none, means that the service could not answer.
pub open spec fn analysis_fault_of(code: Option<Seq<char>>) -> DispatchFault {
    match code {
        Some(code) => if code == "ThrottlingException"@
            || code == "ProvisionedThroughputExceededException"@
            || code == "LimitExceededException"@ {
            DispatchFault::Throttled
        } else if code == "BadDocumentException"@ || code == "DocumentTooLargeException"@
            || code == "UnsupportedDocumentException"@ || code == "InvalidParameterException"@
            || code == "InvalidS3ObjectException"@ || code == "InvalidKMSKeyException"@
            || code == "IdempotentParameterMismatchException"@ {
            DispatchFault::MalformedInput
        } else {
            DispatchFault::Unavailable
        },
        None => DispatchFault::Unavailable,
    }
}

impl DispatchFault {
    /// Classifies a failed submission by the error code that the
    /// document-analysis service gave for it, if it gave one.
    pub fn of_analysis_code(code: Option<&str>) -> (fault: DispatchFault)
        ensures
            fault == analysis_fault_of(code_model(code)),
    {
        match code {
            None => DispatchFault::Unavailable,
            Some(code) => {
                let code = code.to_owned();
                if code == "ThrottlingException".to_owned()
                    || code == "ProvisionedThroughputExceededException".to_owned()
                    || code == "LimitExceededException".to_owned() {
                    DispatchFault::Throttled
                } else if code == "BadDocumentException".to_owned()
                    || code == "DocumentTooLargeException".to_owned()
                    || code == "UnsupportedDocumentException".to_owned()
                    || code == "InvalidParameterException".to_owned()
                    || code == "InvalidS3ObjectException".to_owned()
                    || code == "InvalidKMSKeyException".to_owned()
                    || code == "IdempotentParameterMismatchException".to_owned() {
                    DispatchFault::MalformedInput
                } else {
                    DispatchFault::Unavailable
                }
            },
        }
    }
}

/// The complete content of one object, held in memory.
#[derive(Debug, PartialEq, Eq)]
pub struct ObjectContent {
    pub bytes: Vec<u8>,
}

impl View for ObjectContent {
    type V = Seq<u8>;

    open spec fn view(&self) -> Seq<u8> {
        self.bytes@
    }
}

impl ObjectContent {
    /// The content made of `bytes`.
    pub fn new(bytes: Vec<u8>) -> (content: Self)
        ensures
            content@ == bytes@,
    {
        ObjectContent { bytes }
    }

    /// The number of bytes.
    pub fn len(&self) -> (n: usize)
        ensures
            n == self@.len(),
    {
        self.bytes.len()
    }
}

/// A job submission, as sequences.
pub struct SubmissionModel {
    pub document: ReferenceModel,
    pub content: Seq<u8>,
    pub tag: Seq<char>,
}

/// The submission that a fixed-tag job for `document` with `content` makes.
pub open spec fn submission_for(document: ReferenceModel, content: Seq<u8>) -> SubmissionModel {
    SubmissionModel { document, content, tag: JOB_TAG@ }
}

/// A request to start a text-detection job: the document's location in the
/// object store, its fetched content, and the job's tag.
///
/// The content is held for the duration of the submission and dropped with it.
#[derive(Debug, PartialEq, Eq)]
pub struct JobSubmission {
    document: ObjectReference,
    content: ObjectContent,
    tag: String,
}

impl View for JobSubmission {
    type V = SubmissionModel;

    closed spec fn view(&self) -> SubmissionModel {
        SubmissionModel { document: self.document@, content: self.content@, tag: self.tag@ }
    }
}

impl JobSubmission {
    #[verifier::type_invariant]
    spec fn well_formed(&self) -> bool {
        self.tag@ == JOB_TAG@
    }

    /// The submission for `document`, whose content is `content`, under the
    /// fixed tag.
    pub fn new(document: ObjectReference, content: ObjectContent) -> (submission: Self)
        ensures
            submission@ == submission_for(document@, content@),
    {
        JobSubmission { document, content, tag: JOB_TAG.to_owned() }
    }

    /// Where the document lies in the object store.
    pub fn document(&self) -> (document: &ObjectReference)
        ensures
            document@ == self@.document,
    {
        &self.document
    }

    /// The document's content.
    pub fn content(&self) -> (content: &ObjectContent)
        ensures
            content@ == self@.content,
    {
        &self.content
    }

    /// The job's tag: always `JOB_TAG`.
    pub fn tag(&self) -> (tag: &str)
        ensures
            tag@ == self@.tag,
            tag@ == JOB_TAG@,
    {
        proof {
            use_type_invariant(self);
        }
        self.tag.as_str()
    }
}

/// A job handle, as sequences.
pub struct JobModel {
    pub job_id: Seq<char>,
    pub tag: Seq<char>,
}

/// The handle of a text-detection job that the service accepted: the
/// identifier it returned and the tag the job was submitted under.
#[derive(Debug, PartialEq, Eq)]
pub struct TextDetectionJob {
    pub job_id: String,
    pub tag: String,
}

impl View for TextDetectionJob {
    type V = JobModel;

    open spec fn view(&self) -> JobModel {
        JobModel { job_id: self.job_id@, tag: self.tag@ }
    }
}

/// The content that a fetch reply carries, as a sequence of bytes.
pub open spec fn fetch_reply_model(reply: Result<ObjectContent, FetchFault>) -> Result<
    Seq<u8>,
    FetchFault,
> {
    match reply {
        Ok(content) => Ok(content@),
        Err(fault) => Err(fault),
    }
}

/// What a dispatch reply carries, with the job identifier, if the service gave
/// one, as a sequence of characters.
pub open spec fn dispatch_reply_model(reply: Result<Option<String>, DispatchFault>) -> Result<
    Option<Seq<char>>,
    DispatchFault,
> {
    match reply {
        Ok(Some(job_id)) => Ok(Some(job_id@)),
        Ok(None) => Ok(None),
        Err(fault) => Err(fault),
    }
}

} // verus!
