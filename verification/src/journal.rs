//! The informational entries that an invocation hands to the caller's log, one
//! at each stage boundary.

use vstd::prelude::*;

verus! {

/// One entry for the log. How it is rendered is the caller's business.
#[derive(Debug, PartialEq, Eq)]
pub enum LogEntry {
    /// A batch was delivered, with this many records.
    BatchReceived { records: usize },
    /// The delivered batch holds no record.
    EmptyBatch,
    /// The object that this invocation processes.
    ObjectSelected { bucket: String, key: String },
    /// The document-analysis service accepted the job.
    JobAccepted { job_id: String, tag: String },
}

/// A log entry, as sequences.
pub enum LogModel {
    BatchReceived { records: nat },
    EmptyBatch,
    ObjectSelected { bucket: Seq<char>, key: Seq<char> },
    JobAccepted { job_id: Seq<char>, tag: Seq<char> },
}

impl View for LogEntry {
    type V = LogModel;

    open spec fn view(&self) -> LogModel {
        match self {
            LogEntry::BatchReceived { records } => LogModel::BatchReceived {
                records: *records as nat,
            },
            LogEntry::EmptyBatch => LogModel::EmptyBatch,
            LogEntry::ObjectSelected { bucket, key } => LogModel::ObjectSelected {
                bucket: bucket@,
                key: key@,
            },
            LogEntry::JobAccepted { job_id, tag } => LogModel::JobAccepted {
                job_id: job_id@,
                tag: tag@,
            },
        }
    }
}

/// The views of the entries in `entries`, in order.
pub open spec fn log_models(entries: Seq<LogEntry>) -> Seq<LogModel> {
    entries.map_values(|e: LogEntry| e@)
}

} // verus!
