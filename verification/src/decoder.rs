//! Decoding a notification batch into object references.
//!
//! Only the first record of a batch is selected for processing, so only the
//! first record is looked at: the records behind it are ignored, whatever they
//! hold. The bucket name and the object key are taken verbatim: nothing is
//! trimmed, unescaped or normalised.

use crate::journal::{log_models, LogEntry, LogModel};
use crate::notification::{NotificationBatch, NotificationRecord, RecordModel};
use crate::reference::{ObjectReference, ReferenceModel};
use vstd::prelude::*;

verus! {

/// A field that a record needs in order to name an object.
#[derive(Clone, Copy, Debug, PartialEq, Eq)]
pub enum RequiredField {
    BucketName,
    ObjectKey,
}

/// A record that does not name an object: its position in the batch and the
/// field that it lacks.
#[derive(Clone, Copy, Debug, PartialEq, Eq)]
pub struct MalformedRecord {
    pub index: usize,
    pub field: RequiredField,
}

/// Why decoding a batch yielded no references.
#[derive(Clone, Copy, Debug, PartialEq, Eq)]
pub enum DecodeOutcome {
    /// The batch holds no record: there is nothing to do, and nothing failed.
    NothingToDo,
    /// The selected record lacks its bucket name or its object key.
    Malformed(MalformedRecord),
}

/// The field that `record` lacks, if any. A field that is present but empty is
/// lacking. The bucket name is looked at before the object key.
pub open spec fn missing_field(record: RecordModel) -> Option<RequiredField> {
    if record.bucket_name is None || record.bucket_name.unwrap().len() == 0 {
        Some(RequiredField::BucketName)
    } else if record.object_key is None || record.object_key.unwrap().len() == 0 {
        Some(RequiredField::ObjectKey)
    } else {
        None
    }
}

/// Whether `record` names an object: both fields are present and non-empty.
pub open spec fn actionable(record: RecordModel) -> bool {
    missing_field(record) is None
}

/// The object that an actionable record names.
pub open spec fn reference_of(record: RecordModel) -> ReferenceModel
    recommends
        actionable(record),
{
    ReferenceModel { bucket: record.bucket_name.unwrap(), key: record.object_key.unwrap() }
}

/// What decoding `records` yields: nothing to do for an empty batch, and
/// otherwise what the first record gives, which is the reference it names or
/// the field it lacks. The records behind the first have no part in it.
pub open spec fn decoded(records: Seq<RecordModel>) -> Result<Seq<ReferenceModel>, DecodeOutcome> {
    if records.len() == 0 {
        Err(DecodeOutcome::NothingToDo)
    } else {
        match missing_field(records[0]) {
            Some(field) => Err(DecodeOutcome::Malformed(MalformedRecord { index: 0, field })),
            None => Ok(seq![reference_of(records[0])]),
        }
    }
}

/// What decoding `records` writes to the log: the number of records, and then
/// either that the batch is empty or, if the first record is actionable, the
/// object it names, which is the one selected for processing.
pub open spec fn decode_log(records: Seq<RecordModel>) -> Seq<LogModel> {
    let received = LogModel::BatchReceived { records: records.len() };
    match decoded(records) {
        Err(DecodeOutcome::NothingToDo) => seq![received, LogModel::EmptyBatch],
        Err(DecodeOutcome::Malformed(_)) => seq![received],
        Ok(references) => seq![
            received,
            LogModel::ObjectSelected { bucket: references[0].bucket, key: references[0].key },
        ],
    }
}

/// The views of the references in `references`, in order.
pub open spec fn reference_models(references: Seq<ObjectReference>) -> Seq<ReferenceModel> {
    references.map_values(|r: ObjectReference| r@)
}

/// The records behind the first are ignored: a batch decodes as its first
/// record alone does, and logs the same but for the number of records.
pub proof fn lemma_later_records_are_ignored(records: Seq<RecordModel>)
    requires
        records.len() >= 1,
    ensures
        decoded(records) == decoded(seq![records[0]]),
        decode_log(records) == decode_log(seq![records[0]]).update(
            0,
            LogModel::BatchReceived { records: records.len() },
        ),
{
    let alone = seq![records[0]];
    assert(alone[0] == records[0]);
    assert(decode_log(records) =~= decode_log(alone).update(
        0,
        LogModel::BatchReceived { records: records.len() },
    ));
}

/// A batch whose first record is actionable decodes to the one reference that
/// this record names, with its bucket name and object key as they are.
pub proof fn lemma_first_record_decodes_verbatim(records: Seq<RecordModel>)
    requires
        records.len() >= 1,
        actionable(records[0]),
    ensures
        decoded(records) is Ok,
        decoded(records).unwrap().len() == 1,
        Some(decoded(records).unwrap()[0].bucket) == records[0].bucket_name,
        Some(decoded(records).unwrap()[0].key) == records[0].object_key,
{
}

/// Validates one record: the reference it names, or the field it lacks.
pub fn validate(record: &NotificationRecord) -> (result: Result<ObjectReference, RequiredField>)
    ensures
        match result {
            Ok(reference) => actionable(record@) && reference@ == reference_of(record@),
            Err(field) => missing_field(record@) == Some(field),
        },
{
    match &record.bucket_name {
        None => Err(RequiredField::BucketName),
        Some(bucket) => {
            if bucket.as_str().is_empty() {
                return Err(RequiredField::BucketName);
            }
            match &record.object_key {
                None => Err(RequiredField::ObjectKey),
                Some(key) => match ObjectReference::new(bucket.clone(), key.clone()) {
                    Some(reference) => Ok(reference),
                    None => Err(RequiredField::ObjectKey),
                },
            }
        },
    }
}

/// Decodes a batch into the reference of the record that is selected for
/// processing, which is the first, and appends to `log` what there is to say
/// of the batch.
///
/// An empty batch is not a failure: it yields `DecodeOutcome::NothingToDo`.
/// Where the first record lacks its bucket name or its object key, the batch
/// is rejected. The records behind the first are neither validated nor
/// decoded.
pub fn decode(batch: &NotificationBatch, log: &mut Vec<LogEntry>) -> (result: Result<
    Vec<ObjectReference>,
    DecodeOutcome,
>)
    ensures
        match result {
            Ok(references) => decoded(batch@) == Ok::<Seq<ReferenceModel>, DecodeOutcome>(
                reference_models(references@),
            ),
            Err(outcome) => decoded(batch@) == Err::<Seq<ReferenceModel>, DecodeOutcome>(outcome),
        },
        log_models(final(log)@) == log_models(old(log)@) + decode_log(batch@),
{
    let ghost before = log_models(log@);
    log.push(LogEntry::BatchReceived { records: batch.len() });
    if batch.is_empty() {
        log.push(LogEntry::EmptyBatch);
        assert(log_models(log@) =~= before + decode_log(batch@));
        return Err(DecodeOutcome::NothingToDo);
    }
    assert(batch@[0] == batch.records[0]@);
    match validate(&batch.records[0]) {
        Err(field) => {
            assert(log_models(log@) =~= before + decode_log(batch@));
            Err(DecodeOutcome::Malformed(MalformedRecord { index: 0, field }))
        },
        Ok(reference) => {
            log.push(
                LogEntry::ObjectSelected {
                    bucket: reference.bucket().to_owned(),
                    key: reference.key().to_owned(),
                },
            );
            let mut references: Vec<ObjectReference> = Vec::new();
            references.push(reference);
            assert(reference_models(references@) =~= seq![reference_of(batch@[0])]);
            assert(log_models(log@) =~= before + decode_log(batch@));
            Ok(references)
        },
    }
}

} // verus!
