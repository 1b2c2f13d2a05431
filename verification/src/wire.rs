//! The provider's wire schema: the shapes its JSON documents must have,
//! and the decoders that check a `JsonValue` against them. A document that
//! misses a required field, or carries one with the wrong type, is a
//! `ServiceError::Decode`; nothing here panics.

use vstd::prelude::*;
use crate::error::ServiceError;
use crate::json::JsonValue;
use crate::json::lookup;
use crate::json::object_get;

verus! {

/// Whether `n` fits the 32-bit ids the wire schema uses.
pub open spec fn in_i32(n: int) -> bool {
    i32::MIN as int <= n <= i32::MAX as int
}

/// The mathematical content of a `Submitter`.
pub ghost struct SubmitterModel {
    pub id_row: int,
    pub name: Seq<char>,
}

/// The author of a record, as the wire carries it.
#[derive(Debug, Clone)]
pub struct Submitter {
    pub id_row: i32,
    pub name: String,
}

impl View for Submitter {
    type V = SubmitterModel;

    open spec fn view(&self) -> SubmitterModel {
        SubmitterModel { id_row: self.id_row as int, name: self.name@ }
    }
}

/// The mathematical content of a `Metadata`.
pub ghost struct MetadataModel {
    pub record_count: int,
    pub is_complete: bool,
}

/// The listing's count header, as the wire carries it.
#[derive(Debug, Clone)]
pub struct Metadata {
    pub record_count: i32,
    pub is_complete: bool,
}

impl View for Metadata {
    type V = MetadataModel;

    open spec fn view(&self) -> MetadataModel {
        MetadataModel { record_count: self.record_count as int, is_complete: self.is_complete }
    }
}

/// The mathematical content of a `SubfeedRecord`.
pub ghost struct RecordModel {
    pub id_row: int,
    pub name: Seq<char>,
    pub date_added: int,
    pub date_modified: int,
    pub submitter: SubmitterModel,
    pub version: Option<Seq<char>>,
}

/// One mod summary, as the wire carries it. `version` is the one
/// optional field of the schema.
#[derive(Debug, Clone)]
pub struct SubfeedRecord {
    pub id_row: i32,
    pub name: String,
    pub date_added: i64,
    pub date_modified: i64,
    pub submitter: Submitter,
    pub version: Option<String>,
}

impl View for SubfeedRecord {
    type V = RecordModel;

    open spec fn view(&self) -> RecordModel {
        RecordModel {
            id_row: self.id_row as int,
            name: self.name@,
            date_added: self.date_added as int,
            date_modified: self.date_modified as int,
            submitter: self.submitter@,
            version: match self.version {
                Some(v) => Some(v@),
                None => None,
            },
        }
    }
}

/// The mathematical content of a `SubfeedResult`.
pub ghost struct SubfeedModel {
    pub metadata: MetadataModel,
    pub records: Seq<RecordModel>,
}

/// One page of the listing endpoint: its count header and its records.
#[derive(Debug, Clone)]
pub struct SubfeedResult {
    pub metadata: Metadata,
    pub records: Vec<SubfeedRecord>,
}

/// The models of a sequence of wire records.
pub open spec fn records_view(v: Seq<SubfeedRecord>) -> Seq<RecordModel> {
    v.map_values(|r: SubfeedRecord| r@)
}

impl View for SubfeedResult {
    type V = SubfeedModel;

    open spec fn view(&self) -> SubfeedModel {
        SubfeedModel { metadata: self.metadata@, records: records_view(self.records@) }
    }
}

/// What a well-formed submitter object holds: a 32-bit `_idRow` and a
/// string `_sName`. Anything else is malformed.
pub open spec fn submitter_of(j: JsonValue) -> Option<SubmitterModel> {
    match j {
        JsonValue::Object(fields) => match (
            lookup(fields@, "_idRow"@),
            lookup(fields@, "_sName"@),
        ) {
            (Some(JsonValue::Int(id)), Some(JsonValue::Text(name))) => if in_i32(id as int) {
                Some(SubmitterModel { id_row: id as int, name: name@ })
            } else {
                None
            },
            _ => None,
        },
        _ => None,
    }
}

/// What a well-formed metadata object holds: a 32-bit `_nRecordCount`
/// and a boolean `_bIsComplete`.
pub open spec fn metadata_of(j: JsonValue) -> Option<MetadataModel> {
    match j {
        JsonValue::Object(fields) => match (
            lookup(fields@, "_nRecordCount"@),
            lookup(fields@, "_bIsComplete"@),
        ) {
            (Some(JsonValue::Int(count)), Some(JsonValue::Bool(complete))) => if in_i32(
                count as int,
            ) {
                Some(MetadataModel { record_count: count as int, is_complete: complete })
            } else {
                None
            },
            _ => None,
        },
        _ => None,
    }
}

/// The version a record declares: an absent or null `_sVersion` is a
/// record without one, a string is kept, any other shape is malformed.
pub open spec fn version_of(v: Option<JsonValue>) -> Option<Option<Seq<char>>> {
    match v {
        None => Some(None),
        Some(JsonValue::Null) => Some(None),
        Some(JsonValue::Text(s)) => Some(Some(s@)),
        Some(_) => None,
    }
}

/// What a well-formed record object holds: `_idRow`, `_sName`,
/// `_tsDateAdded`, `_tsDateModified` and `_aSubmitter` are required,
/// `_sVersion` is optional.
pub open spec fn record_of(j: JsonValue) -> Option<RecordModel> {
    match j {
        JsonValue::Object(fields) => match (
            lookup(fields@, "_idRow"@),
            lookup(fields@, "_sName"@),
            lookup(fields@, "_tsDateAdded"@),
            lookup(fields@, "_tsDateModified"@),
            lookup(fields@, "_aSubmitter"@),
        ) {
            (
                Some(JsonValue::Int(id)),
                Some(JsonValue::Text(name)),
                Some(JsonValue::Int(added)),
                Some(JsonValue::Int(modified)),
                Some(sub),
            ) => match (submitter_of(sub), version_of(lookup(fields@, "_sVersion"@))) {
                (Some(submitter), Some(version)) => if in_i32(id as int) {
                    Some(
                        RecordModel {
                            id_row: id as int,
                            name: name@,
                            date_added: added as int,
                            date_modified: modified as int,
                            submitter,
                            version,
                        },
                    )
                } else {
                    None
                },
                _ => None,
            },
            _ => None,
        },
        _ => None,
    }
}

/// What a well-formed record array holds: every element a well-formed
/// record. One malformed element makes the whole array malformed.
pub open spec fn records_of(s: Seq<JsonValue>) -> Option<Seq<RecordModel>> {
    if forall|i: int| 0 <= i < s.len() ==> (#[trigger] record_of(s[i])) is Some {
        Some(Seq::new(s.len(), |i: int| record_of(s[i]).unwrap()))
    } else {
        None
    }
}

/// What a well-formed listing page holds: a well-formed `_aMetadata`
/// object and an `_aRecords` array of well-formed records.
pub open spec fn subfeed_of(j: JsonValue) -> Option<SubfeedModel> {
    match j {
        JsonValue::Object(fields) => match (
            lookup(fields@, "_aMetadata"@),
            lookup(fields@, "_aRecords"@),
        ) {
            (Some(meta), Some(JsonValue::Array(items))) => match (
                metadata_of(meta),
                records_of(items@),
            ) {
                (Some(metadata), Some(records)) => Some(SubfeedModel { metadata, records }),
                _ => None,
            },
            _ => None,
        },
        _ => None,
    }
}

/// Checks a document against the submitter shape.
pub fn decode_submitter(j: &JsonValue) -> (r: Result<Submitter, ServiceError>)
    ensures
        match r {
            Ok(s) => submitter_of(*j) == Some(s@),
            Err(e) => submitter_of(*j) is None && e == ServiceError::Decode,
        },
{
    let fields = match j {
        JsonValue::Object(fields) => fields,
        _ => {
            return Err(ServiceError::Decode);
        },
    };
    let id = match object_get(fields, "_idRow") {
        Some(v) => match v {
            JsonValue::Int(i) => *i,
            _ => {
                return Err(ServiceError::Decode);
            },
        },
        None => {
            return Err(ServiceError::Decode);
        },
    };
    let name = match object_get(fields, "_sName") {
        Some(v) => match v {
            JsonValue::Text(s) => s.clone(),
            _ => {
                return Err(ServiceError::Decode);
            },
        },
        None => {
            return Err(ServiceError::Decode);
        },
    };
    if id < (i32::MIN as i64) || id > (i32::MAX as i64) {
        return Err(ServiceError::Decode);
    }
    Ok(Submitter { id_row: id as i32, name })
}

/// Checks a document against the metadata shape.
pub fn decode_metadata(j: &JsonValue) -> (r: Result<Metadata, ServiceError>)
    ensures
        match r {
            Ok(m) => metadata_of(*j) == Some(m@),
            Err(e) => metadata_of(*j) is None && e == ServiceError::Decode,
        },
{
    let fields = match j {
        JsonValue::Object(fields) => fields,
        _ => {
            return Err(ServiceError::Decode);
        },
    };
    let count = match object_get(fields, "_nRecordCount") {
        Some(v) => match v {
            JsonValue::Int(i) => *i,
            _ => {
                return Err(ServiceError::Decode);
            },
        },
        None => {
            return Err(ServiceError::Decode);
        },
    };
    let complete = match object_get(fields, "_bIsComplete") {
        Some(v) => match v {
            JsonValue::Bool(b) => *b,
            _ => {
                return Err(ServiceError::Decode);
            },
        },
        None => {
            return Err(ServiceError::Decode);
        },
    };
    if count < (i32::MIN as i64) || count > (i32::MAX as i64) {
        return Err(ServiceError::Decode);
    }
    Ok(Metadata { record_count: count as i32, is_complete: complete })
}

/// Checks a document against the record shape.
pub fn decode_record(j: &JsonValue) -> (r: Result<SubfeedRecord, ServiceError>)
    ensures
        match r {
            Ok(rec) => record_of(*j) == Some(rec@),
            Err(e) => record_of(*j) is None && e == ServiceError::Decode,
        },
{
    let fields = match j {
        JsonValue::Object(fields) => fields,
        _ => {
            return Err(ServiceError::Decode);
        },
    };
    let id = match object_get(fields, "_idRow") {
        Some(v) => match v {
            JsonValue::Int(i) => *i,
            _ => {
                return Err(ServiceError::Decode);
            },
        },
        None => {
            return Err(ServiceError::Decode);
        },
    };
    let name = match object_get(fields, "_sName") {
        Some(v) => match v {
            JsonValue::Text(s) => s.clone(),
            _ => {
                return Err(ServiceError::Decode);
            },
        },
        None => {
            return Err(ServiceError::Decode);
        },
    };
    let date_added = match object_get(fields, "_tsDateAdded") {
        Some(v) => match v {
            JsonValue::Int(i) => *i,
            _ => {
                return Err(ServiceError::Decode);
            },
        },
        None => {
            return Err(ServiceError::Decode);
        },
    };
    let date_modified = match object_get(fields, "_tsDateModified") {
        Some(v) => match v {
            JsonValue::Int(i) => *i,
            _ => {
                return Err(ServiceError::Decode);
            },
        },
        None => {
            return Err(ServiceError::Decode);
        },
    };
    let submitter = match object_get(fields, "_aSubmitter") {
        Some(v) => match decode_submitter(v) {
            Ok(s) => s,
            Err(e) => {
                return Err(e);
            },
        },
        None => {
            return Err(ServiceError::Decode);
        },
    };
    let version = match object_get(fields, "_sVersion") {
        None => None,
        Some(v) => match v {
            JsonValue::Null => None,
            JsonValue::Text(s) => Some(s.clone()),
            _ => {
                return Err(ServiceError::Decode);
            },
        },
    };
    if id < (i32::MIN as i64) || id > (i32::MAX as i64) {
        return Err(ServiceError::Decode);
    }
    Ok(
        SubfeedRecord {
            id_row: id as i32,
            name,
            date_added,
            date_modified,
            submitter,
            version,
        },
    )
}

/// Checks every element of `items` against the record shape.
pub fn decode_records(items: &Vec<JsonValue>) -> (r: Result<Vec<SubfeedRecord>, ServiceError>)
    ensures
        match r {
            Ok(v) => records_of(items@) == Some(records_view(v@)),
            Err(e) => records_of(items@) is None && e == ServiceError::Decode,
        },
{
    let mut out: Vec<SubfeedRecord> = Vec::new();
    let mut i: usize = 0;
    while i < items.len()
        invariant
            i <= items@.len(),
            out@.len() == i as int,
            forall|j: int| 0 <= j < i ==> #[trigger] record_of(items@[j]) == Some(out@[j]@),
        decreases items@.len() - i,
    {
        let rec = match decode_record(&items[i]) {
            Ok(rec) => rec,
            Err(e) => {
                proof {
                    assert(record_of(items@[i as int]) is None);
                    assert(records_of(items@) is None);
                }
                return Err(e);
            },
        };
        out.push(rec);
        i = i + 1;
    }
    proof {
        assert(Seq::new(items@.len(), |k: int| record_of(items@[k]).unwrap()) =~= records_view(
            out@,
        ));
    }
    Ok(out)
}

/// Checks a document against the listing-page shape.
pub fn decode_subfeed(j: &JsonValue) -> (r: Result<SubfeedResult, ServiceError>)
    ensures
        match r {
            Ok(res) => subfeed_of(*j) == Some(res@),
            Err(e) => subfeed_of(*j) is None && e == ServiceError::Decode,
        },
{
    let fields = match j {
        JsonValue::Object(fields) => fields,
        _ => {
            return Err(ServiceError::Decode);
        },
    };
    let metadata = match object_get(fields, "_aMetadata") {
        Some(v) => match decode_metadata(v) {
            Ok(m) => m,
            Err(e) => {
                return Err(e);
            },
        },
        None => {
            return Err(ServiceError::Decode);
        },
    };
    let records = match object_get(fields, "_aRecords") {
        Some(v) => match v {
            JsonValue::Array(items) => match decode_records(items) {
                Ok(rs) => rs,
                Err(e) => {
                    return Err(e);
                },
            },
            _ => {
                return Err(ServiceError::Decode);
            },
        },
        None => {
            return Err(ServiceError::Decode);
        },
    };
    Ok(SubfeedResult { metadata, records })
}

} // verus!
