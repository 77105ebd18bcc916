//! The persisted SIP record, the description of a persistence
//! operation (create or update), and the specification of how an
//! update rewrites one record.

use vstd::prelude::*;

verus! {

use crate::event::Status;

/// One persisted SIP record, keyed by `correlation_id`.
///
/// `first_event_date` is set once, at creation; `last_event_type`,
/// `last_event_date` and `status` are rewritten by every event of the
/// workflow.  Timestamps are microseconds since the Unix epoch.
#[derive(PartialEq, Debug)]
pub struct SipRecord {
    pub correlation_id: String,
    pub bag_name: Option<String>,
    pub cp_id: Option<String>,
    pub local_id: Option<String>,
    pub md5_hash_essence_manifest: Option<String>,
    pub md5_hash_essence_sidecar: Option<String>,
    pub essence_filename: Option<String>,
    pub essence_filesize: Option<i64>,
    pub ingest_host: Option<String>,
    pub ingest_bucket: Option<String>,
    pub ingest_path_or_key: Option<String>,
    pub bag_filesize: Option<i64>,
    pub pid: Option<String>,
    pub sip_profile: Option<String>,
    pub first_event_date: i64,
    pub last_event_type: String,
    pub last_event_date: i64,
    pub status: Status,
}

/// Specification-level form of a SIP record: every string as a
/// character sequence, every timestamp as an integer.
pub struct SipRecordV {
    pub correlation_id: Seq<char>,
    pub bag_name: Option<Seq<char>>,
    pub cp_id: Option<Seq<char>>,
    pub local_id: Option<Seq<char>>,
    pub md5_hash_essence_manifest: Option<Seq<char>>,
    pub md5_hash_essence_sidecar: Option<Seq<char>>,
    pub essence_filename: Option<Seq<char>>,
    pub essence_filesize: Option<i64>,
    pub ingest_host: Option<Seq<char>>,
    pub ingest_bucket: Option<Seq<char>>,
    pub ingest_path_or_key: Option<Seq<char>>,
    pub bag_filesize: Option<i64>,
    pub pid: Option<Seq<char>>,
    pub sip_profile: Option<Seq<char>>,
    pub first_event_date: int,
    pub last_event_type: Seq<char>,
    pub last_event_date: int,
    pub status: Status,
}

/// The view of an optional string field.
pub open spec fn opt_view(o: Option<String>) -> Option<Seq<char>> {
    match o {
        Some(s) => Some(s@),
        None => None,
    }
}

impl View for SipRecord {
    type V = SipRecordV;

    open spec fn view(&self) -> SipRecordV {
        SipRecordV {
            correlation_id: self.correlation_id@,
            bag_name: opt_view(self.bag_name),
            cp_id: opt_view(self.cp_id),
            local_id: opt_view(self.local_id),
            md5_hash_essence_manifest: opt_view(self.md5_hash_essence_manifest),
            md5_hash_essence_sidecar: opt_view(self.md5_hash_essence_sidecar),
            essence_filename: opt_view(self.essence_filename),
            essence_filesize: self.essence_filesize,
            ingest_host: opt_view(self.ingest_host),
            ingest_bucket: opt_view(self.ingest_bucket),
            ingest_path_or_key: opt_view(self.ingest_path_or_key),
            bag_filesize: self.bag_filesize,
            pid: opt_view(self.pid),
            sip_profile: opt_view(self.sip_profile),
            first_event_date: self.first_event_date as int,
            last_event_type: self.last_event_type@,
            last_event_date: self.last_event_date as int,
            status: self.status,
        }
    }
}

/// How an update treats one nullable string column: leave it as it is,
/// rewrite it to null, or rewrite it to a value.
pub enum ColUpdate {
    Keep,
    ToNull,
    To(String),
}

/// Specification-level form of a column update.
pub enum ColUpdateV {
    Keep,
    ToNull,
    To(Seq<char>),
}

impl View for ColUpdate {
    type V = ColUpdateV;

    open spec fn view(&self) -> ColUpdateV {
        match self {
            ColUpdate::Keep => ColUpdateV::Keep,
            ColUpdate::ToNull => ColUpdateV::ToNull,
            ColUpdate::To(s) => ColUpdateV::To(s@),
        }
    }
}

/// The fields an update-class event rewrites on the matching record.
///
/// `status`, `last_event_type` and `last_event_date` are rewritten
/// unconditionally; the remaining columns only as the event kind
/// demands.
pub struct UpdateFields {
    pub status: Status,
    pub last_event_type: String,
    pub last_event_date: i64,
    pub cp_id: ColUpdate,
    pub pid: ColUpdate,
    pub sip_profile: ColUpdate,
}

/// Specification-level form of the update fields.
pub struct UpdateFieldsV {
    pub status: Status,
    pub last_event_type: Seq<char>,
    pub last_event_date: int,
    pub cp_id: ColUpdateV,
    pub pid: ColUpdateV,
    pub sip_profile: ColUpdateV,
}

impl View for UpdateFields {
    type V = UpdateFieldsV;

    open spec fn view(&self) -> UpdateFieldsV {
        UpdateFieldsV {
            status: self.status,
            last_event_type: self.last_event_type@,
            last_event_date: self.last_event_date as int,
            cp_id: self.cp_id@,
            pid: self.pid@,
            sip_profile: self.sip_profile@,
        }
    }
}

/// The value a nullable column holds after a column update.
pub open spec fn apply_col(old_col: Option<Seq<char>>, u: ColUpdateV) -> Option<Seq<char>> {
    match u {
        ColUpdateV::Keep => old_col,
        ColUpdateV::ToNull => None,
        ColUpdateV::To(s) => Some(s),
    }
}

/// The record that results from applying update fields `f` to `row`:
/// `status`, `last_event_type` and `last_event_date` are rewritten, the
/// named columns follow their column updates, and every other field is
/// unchanged.
pub open spec fn apply_update_row(row: SipRecordV, f: UpdateFieldsV) -> SipRecordV {
    SipRecordV {
        status: f.status,
        last_event_type: f.last_event_type,
        last_event_date: f.last_event_date,
        cp_id: apply_col(row.cp_id, f.cp_id),
        pid: apply_col(row.pid, f.pid),
        sip_profile: apply_col(row.sip_profile, f.sip_profile),
        ..row
    }
}

/// One persistence operation selected by the transition table.
pub enum Operation {
    /// Insert a new record; its correlation id must not exist yet.
    Create(SipRecord),
    /// Rewrite the fields of every record with this correlation id.
    Update { correlation_id: String, fields: UpdateFields },
}

/// Specification-level form of a persistence operation.
pub enum OperationV {
    Create(SipRecordV),
    Update { correlation_id: Seq<char>, fields: UpdateFieldsV },
}

impl View for Operation {
    type V = OperationV;

    open spec fn view(&self) -> OperationV {
        match self {
            Operation::Create(rec) => OperationV::Create(rec@),
            Operation::Update { correlation_id, fields } => OperationV::Update {
                correlation_id: correlation_id@,
                fields: fields@,
            },
        }
    }
}

/// Copies an optional string field.
pub fn clone_opt(o: &Option<String>) -> (r: Option<String>)
    ensures
        r == *o,
{
    match o {
        Some(s) => Some(s.clone()),
        None => None,
    }
}

impl SipRecord {
    /// Copies a record field by field.
    pub fn duplicate(&self) -> (r: SipRecord)
        ensures
            r == *self,
    {
        SipRecord {
            correlation_id: self.correlation_id.clone(),
            bag_name: clone_opt(&self.bag_name),
            cp_id: clone_opt(&self.cp_id),
            local_id: clone_opt(&self.local_id),
            md5_hash_essence_manifest: clone_opt(&self.md5_hash_essence_manifest),
            md5_hash_essence_sidecar: clone_opt(&self.md5_hash_essence_sidecar),
            essence_filename: clone_opt(&self.essence_filename),
            essence_filesize: self.essence_filesize,
            ingest_host: clone_opt(&self.ingest_host),
            ingest_bucket: clone_opt(&self.ingest_bucket),
            ingest_path_or_key: clone_opt(&self.ingest_path_or_key),
            bag_filesize: self.bag_filesize,
            pid: clone_opt(&self.pid),
            sip_profile: clone_opt(&self.sip_profile),
            first_event_date: self.first_event_date,
            last_event_type: self.last_event_type.clone(),
            last_event_date: self.last_event_date,
            status: self.status,
        }
    }
}

} // verus!
