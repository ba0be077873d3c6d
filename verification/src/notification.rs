//! The batch of object-created notifications that starts an invocation.

use vstd::prelude::*;

verus! {

/// One object-created notification, as delivered. Either field may be absent.
#[derive(Debug, PartialEq, Eq)]
pub struct NotificationRecord {
    pub bucket_name: Option<String>,
    pub object_key: Option<String>,
}

/// What a `NotificationRecord` holds, as sequences of characters.
pub struct RecordModel {
    pub bucket_name: Option<Seq<char>>,
    pub object_key: Option<Seq<char>>,
}

impl View for NotificationRecord {
    type V = RecordModel;

    open spec fn view(&self) -> RecordModel {
        RecordModel {
            bucket_name: self.bucket_name.deep_view(),
            object_key: self.object_key.deep_view(),
        }
    }
}

impl NotificationRecord {
    /// A record with the given bucket name and object key.
    pub fn new(bucket_name: Option<String>, object_key: Option<String>) -> (record: Self)
        ensures
            record@.bucket_name == bucket_name.deep_view(),
            record@.object_key == object_key.deep_view(),
    {
        NotificationRecord { bucket_name, object_key }
    }
}

/// The ordered records of one delivery. May be empty.
#[derive(Debug, PartialEq, Eq)]
pub struct NotificationBatch {
    pub records: Vec<NotificationRecord>,
}

impl View for NotificationBatch {
    type V = Seq<RecordModel>;

    open spec fn view(&self) -> Seq<RecordModel> {
        self.records@.map_values(|r: NotificationRecord| r@)
    }
}

impl NotificationBatch {
    /// A batch of the given records, in their order.
    pub fn new(records: Vec<NotificationRecord>) -> (batch: Self)
        ensures
            batch@ == records@.map_values(|r: NotificationRecord| r@),
    {
        NotificationBatch { records }
    }

    /// The number of records in the batch.
    pub fn len(&self) -> (n: usize)
        ensures
            n == self@.len(),
    {
        self.records.len()
    }

    /// Whether the batch holds no record.
    pub fn is_empty(&self) -> (empty: bool)
        ensures
            empty == (self@.len() == 0),
    {
        self.records.len() == 0
    }
}

} // verus!
