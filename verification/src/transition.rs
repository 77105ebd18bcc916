//! The status transition table: the mapping from an incoming event's
//! type and payload to a persistence operation.
//!
//! Each known event kind defines the operation (create or update), the
//! payload paths it extracts, and the resulting status.  Unknown types
//! map to no operation at all; a missing required field rejects the
//! event with a typed error.

use vstd::prelude::*;

verus! {

use vstd::string::StringExecFns;
use crate::event::CloudEvent;
use crate::event::EventKind;
use crate::event::Status;
use crate::event::canonical_type;
use crate::event::canonical_type_string;
use crate::event::kind_of_type;
use crate::event::parse_event_kind;
use crate::event::status_of_kind;
use crate::event::status_for_kind;
use crate::extract::ExtractError;
use crate::extract::base_pid;
use crate::extract::basename;
use crate::extract::filename_from_path;
use crate::extract::has_basename;
use crate::extract::split_pid_by_underscore;
use crate::payload::PathSeg;
use crate::payload::SegV;
use crate::payload::get_i64;
use crate::payload::get_str;
use crate::payload::lookup_i64;
use crate::payload::lookup_str;
use crate::payload::segs_view;
use crate::record::ColUpdate;
use crate::record::ColUpdateV;
use crate::record::Operation;
use crate::record::OperationV;
use crate::record::SipRecord;
use crate::record::SipRecordV;
use crate::record::UpdateFields;
use crate::record::UpdateFieldsV;
use crate::record::opt_view;

/// What the transition table decides for one event.
pub enum TransitionOutcome {
    /// Execute this persistence operation.
    Persist(Operation),
    /// The event type is unrecognized; nothing is persisted.
    UnknownType,
    /// A required payload field is missing; nothing is persisted.
    Rejected(ExtractError),
}

/// Specification-level form of a transition outcome.
pub enum TransitionOutcomeV {
    Persist(OperationV),
    UnknownType,
    Rejected(ExtractError),
}

impl View for TransitionOutcome {
    type V = TransitionOutcomeV;

    open spec fn view(&self) -> TransitionOutcomeV {
        match self {
            TransitionOutcome::Persist(op) => TransitionOutcomeV::Persist(op@),
            TransitionOutcome::UnknownType => TransitionOutcomeV::UnknownType,
            TransitionOutcome::Rejected(e) => TransitionOutcomeV::Rejected(*e),
        }
    }
}

/// A one-key lookup path.
pub open spec fn key_path(name: Seq<char>) -> Seq<SegV> {
    seq![SegV::Key(name)]
}

/// The path to one leaf of a storage notification: under its first
/// record's `s3` object, the field `leaf` of the object `parent`.
pub open spec fn s3_path(parent: Seq<char>, leaf: Seq<char>) -> Seq<SegV> {
    seq![
        SegV::Key("s3_message"@),
        SegV::Key("Records"@),
        SegV::Idx(0),
        SegV::Key("s3"@),
        SegV::Key(parent),
        SegV::Key(leaf),
    ]
}

/// How an update treats a nullable column extracted from the payload:
/// an absent value rewrites the column to null.
pub open spec fn col_set_opt(o: Option<Seq<char>>) -> ColUpdateV {
    match o {
        Some(s) => ColUpdateV::To(s),
        None => ColUpdateV::ToNull,
    }
}

/// The record inserted for an object-storage creation event.
pub open spec fn s3_create_record(e: CloudEvent) -> SipRecordV {
    SipRecordV {
        correlation_id: e.correlation_id@,
        bag_name: Some(e.subject@),
        cp_id: None,
        local_id: None,
        md5_hash_essence_manifest: None,
        md5_hash_essence_sidecar: None,
        essence_filename: None,
        essence_filesize: None,
        ingest_host: lookup_str(e.data, s3_path("domain"@, "s3-endpoint"@)),
        ingest_bucket: lookup_str(e.data, s3_path("bucket"@, "name"@)),
        ingest_path_or_key: lookup_str(e.data, s3_path("object"@, "key"@)),
        bag_filesize: None,
        pid: None,
        sip_profile: None,
        first_event_date: e.time as int,
        last_event_type: canonical_type(EventKind::S3ObjectCreate),
        last_event_date: e.time as int,
        status: Status::S3ObjectCreated,
    }
}

/// The record inserted for a legacy SIP creation event, whose payload
/// holds the ingest path `p`.
pub open spec fn sip_create_record(e: CloudEvent, p: Seq<char>) -> SipRecordV {
    SipRecordV {
        correlation_id: e.correlation_id@,
        bag_name: Some(basename(p)),
        cp_id: lookup_str(e.data, key_path("cp_id"@)),
        local_id: lookup_str(e.data, key_path("local_id"@)),
        md5_hash_essence_manifest: lookup_str(e.data, key_path("md5_hash_essence_manifest"@)),
        md5_hash_essence_sidecar: lookup_str(e.data, key_path("md5_hash_essence_sidecar"@)),
        essence_filename: lookup_str(e.data, key_path("essence_filename"@)),
        essence_filesize: lookup_i64(e.data, key_path("essence_filesize"@)),
        ingest_host: lookup_str(e.data, key_path("host"@)),
        ingest_bucket: None,
        ingest_path_or_key: Some(p),
        bag_filesize: lookup_i64(e.data, key_path("bag_filesize"@)),
        pid: None,
        sip_profile: None,
        first_event_date: e.time as int,
        last_event_type: canonical_type(EventKind::SipCreate),
        last_event_date: e.time as int,
        status: Status::SipCreated,
    }
}

/// The fields rewritten by an update-class event that extracts nothing
/// from its payload: only the unconditional status, type and time.
pub open spec fn plain_update_fields(k: EventKind, time: int) -> UpdateFieldsV {
    UpdateFieldsV {
        status: status_of_kind(k),
        last_event_type: canonical_type(k),
        last_event_date: time,
        cp_id: ColUpdateV::Keep,
        pid: ColUpdateV::Keep,
        sip_profile: ColUpdateV::Keep,
    }
}

/// The fields rewritten by an archival-package creation event: the
/// content partner and the base persistent identifier `pid`.
pub open spec fn aip_create_fields(e: CloudEvent, pid: Seq<char>) -> UpdateFieldsV {
    UpdateFieldsV {
        status: Status::AipCreated,
        last_event_type: canonical_type(EventKind::AipCreate),
        last_event_date: e.time as int,
        cp_id: col_set_opt(lookup_str(e.data, key_path("cp_id"@))),
        pid: ColUpdateV::To(base_pid(pid)),
        sip_profile: ColUpdateV::Keep,
    }
}

/// The fields rewritten by a higher-level SIP creation event: as the
/// archival creation, plus the SIP profile.
pub open spec fn mh_sip_create_fields(e: CloudEvent, pid: Seq<char>) -> UpdateFieldsV {
    UpdateFieldsV {
        status: Status::MhSipCreated,
        last_event_type: canonical_type(EventKind::MhSipCreate),
        last_event_date: e.time as int,
        cp_id: col_set_opt(lookup_str(e.data, key_path("cp_id"@))),
        pid: ColUpdateV::To(base_pid(pid)),
        sip_profile: col_set_opt(lookup_str(e.data, key_path("sip_profile"@))),
    }
}

/// The transition table: what one event decides, given its type string
/// and payload.
pub open spec fn spec_transition(e: CloudEvent) -> TransitionOutcomeV {
    match kind_of_type(e.type_field@) {
        None => TransitionOutcomeV::UnknownType,
        Some(k) => match k {
            EventKind::S3ObjectCreate => TransitionOutcomeV::Persist(
                OperationV::Create(s3_create_record(e)),
            ),
            EventKind::SipCreate => match lookup_str(e.data, key_path("path"@)) {
                None => TransitionOutcomeV::Rejected(ExtractError::MissingPath),
                Some(p) => {
                    if has_basename(p) {
                        TransitionOutcomeV::Persist(OperationV::Create(sip_create_record(e, p)))
                    } else {
                        TransitionOutcomeV::Rejected(ExtractError::EmptyBasename)
                    }
                },
            },
            EventKind::AipCreate => match lookup_str(e.data, key_path("pid"@)) {
                None => TransitionOutcomeV::Rejected(ExtractError::MissingPid),
                Some(pid) => TransitionOutcomeV::Persist(
                    OperationV::Update {
                        correlation_id: e.correlation_id@,
                        fields: aip_create_fields(e, pid),
                    },
                ),
            },
            EventKind::MhSipCreate => match lookup_str(e.data, key_path("pid"@)) {
                None => TransitionOutcomeV::Rejected(ExtractError::MissingPid),
                Some(pid) => TransitionOutcomeV::Persist(
                    OperationV::Update {
                        correlation_id: e.correlation_id@,
                        fields: mh_sip_create_fields(e, pid),
                    },
                ),
            },
            _ => TransitionOutcomeV::Persist(
                OperationV::Update {
                    correlation_id: e.correlation_id@,
                    fields: plain_update_fields(k, e.time as int),
                },
            ),
        },
    }
}

/// Builds the one-key lookup path for `name`.
fn key_path_vec(name: &str) -> (r: Vec<PathSeg>)
    ensures
        segs_view(r@) == key_path(name@),
{
    let mut v: Vec<PathSeg> = Vec::new();
    v.push(PathSeg::Key(String::from_str(name)));
    proof {
        assert(segs_view(v@) =~= key_path(name@));
    }
    v
}

/// Builds the storage-notification path to the field `leaf` of the
/// object `parent`.
fn s3_path_vec(parent: &str, leaf: &str) -> (r: Vec<PathSeg>)
    ensures
        segs_view(r@) == s3_path(parent@, leaf@),
{
    let mut v: Vec<PathSeg> = Vec::new();
    v.push(PathSeg::Key(String::from_str("s3_message")));
    v.push(PathSeg::Key(String::from_str("Records")));
    v.push(PathSeg::Idx(0));
    v.push(PathSeg::Key(String::from_str("s3")));
    v.push(PathSeg::Key(String::from_str(parent)));
    v.push(PathSeg::Key(String::from_str(leaf)));
    proof {
        assert(segs_view(v@) =~= s3_path(parent@, leaf@));
    }
    v
}

/// Copies an optionally found string out of the payload.
fn opt_str_clone(o: Option<&String>) -> (r: Option<String>)
    ensures
        opt_view(r) == match o {
            Some(s) => Some(s@),
            None => None::<Seq<char>>,
        },
{
    match o {
        Some(s) => Some(s.clone()),
        None => None,
    }
}

/// Turns an optionally extracted column value into a column update: an
/// absent value rewrites the column to null.
fn col_from_opt(o: Option<String>) -> (r: ColUpdate)
    ensures
        r@ == col_set_opt(opt_view(o)),
{
    match o {
        Some(s) => ColUpdate::To(s),
        None => ColUpdate::ToNull,
    }
}

/// Decides what one event does: the persistence operation for its kind
/// and payload, or no operation for an unrecognized type or a missing
/// required field.
pub fn transition(event: &CloudEvent) -> (out: TransitionOutcome)
    ensures
        out@ == spec_transition(*event),
{
    let kind = parse_event_kind(event.type_field.as_str());
    match kind {
        None => TransitionOutcome::UnknownType,
        Some(k) => match k {
            EventKind::S3ObjectCreate => {
                let endpoint_path = s3_path_vec("domain", "s3-endpoint");
                let bucket_path = s3_path_vec("bucket", "name");
                let key_path_segs = s3_path_vec("object", "key");
                let rec = SipRecord {
                    correlation_id: event.correlation_id.clone(),
                    bag_name: Some(event.subject.clone()),
                    cp_id: None,
                    local_id: None,
                    md5_hash_essence_manifest: None,
                    md5_hash_essence_sidecar: None,
                    essence_filename: None,
                    essence_filesize: None,
                    ingest_host: opt_str_clone(get_str(&event.data, endpoint_path.as_slice())),
                    ingest_bucket: opt_str_clone(get_str(&event.data, bucket_path.as_slice())),
                    ingest_path_or_key: opt_str_clone(
                        get_str(&event.data, key_path_segs.as_slice()),
                    ),
                    bag_filesize: None,
                    pid: None,
                    sip_profile: None,
                    first_event_date: event.time,
                    last_event_type: canonical_type_string(EventKind::S3ObjectCreate),
                    last_event_date: event.time,
                    status: Status::S3ObjectCreated,
                };
                proof {
                    assert(rec@ == s3_create_record(*event));
                }
                TransitionOutcome::Persist(Operation::Create(rec))
            },
            EventKind::SipCreate => {
                let path_segs = key_path_vec("path");
                match get_str(&event.data, path_segs.as_slice()) {
                    None => TransitionOutcome::Rejected(ExtractError::MissingPath),
                    Some(p) => match filename_from_path(Some(p.as_str())) {
                        Err(err) => TransitionOutcome::Rejected(err),
                        Ok(f) => {
                            let cp_segs = key_path_vec("cp_id");
                            let local_segs = key_path_vec("local_id");
                            let manifest_segs = key_path_vec("md5_hash_essence_manifest");
                            let sidecar_segs = key_path_vec("md5_hash_essence_sidecar");
                            let essence_name_segs = key_path_vec("essence_filename");
                            let essence_size_segs = key_path_vec("essence_filesize");
                            let host_segs = key_path_vec("host");
                            let bag_size_segs = key_path_vec("bag_filesize");
                            let rec = SipRecord {
                                correlation_id: event.correlation_id.clone(),
                                bag_name: Some(String::from_str(f)),
                                cp_id: opt_str_clone(get_str(&event.data, cp_segs.as_slice())),
                                local_id: opt_str_clone(
                                    get_str(&event.data, local_segs.as_slice()),
                                ),
                                md5_hash_essence_manifest: opt_str_clone(
                                    get_str(&event.data, manifest_segs.as_slice()),
                                ),
                                md5_hash_essence_sidecar: opt_str_clone(
                                    get_str(&event.data, sidecar_segs.as_slice()),
                                ),
                                essence_filename: opt_str_clone(
                                    get_str(&event.data, essence_name_segs.as_slice()),
                                ),
                                essence_filesize: get_i64(
                                    &event.data,
                                    essence_size_segs.as_slice(),
                                ),
                                ingest_host: opt_str_clone(
                                    get_str(&event.data, host_segs.as_slice()),
                                ),
                                ingest_bucket: None,
                                ingest_path_or_key: Some(p.clone()),
                                bag_filesize: get_i64(&event.data, bag_size_segs.as_slice()),
                                pid: None,
                                sip_profile: None,
                                first_event_date: event.time,
                                last_event_type: canonical_type_string(EventKind::SipCreate),
                                last_event_date: event.time,
                                status: Status::SipCreated,
                            };
                            proof {
                                assert(rec@ == sip_create_record(*event, p@));
                            }
                            TransitionOutcome::Persist(Operation::Create(rec))
                        },
                    },
                }
            },
            EventKind::AipCreate => {
                let pid_segs = key_path_vec("pid");
                match get_str(&event.data, pid_segs.as_slice()) {
                    None => TransitionOutcome::Rejected(ExtractError::MissingPid),
                    Some(pid_s) => {
                        let base = split_pid_by_underscore(pid_s.as_str());
                        let cp_segs = key_path_vec("cp_id");
                        let cp = opt_str_clone(get_str(&event.data, cp_segs.as_slice()));
                        let fields = UpdateFields {
                            status: Status::AipCreated,
                            last_event_type: canonical_type_string(EventKind::AipCreate),
                            last_event_date: event.time,
                            cp_id: col_from_opt(cp),
                            pid: ColUpdate::To(String::from_str(base)),
                            sip_profile: ColUpdate::Keep,
                        };
                        proof {
                            assert(fields@ == aip_create_fields(*event, pid_s@));
                        }
                        TransitionOutcome::Persist(
                            Operation::Update {
                                correlation_id: event.correlation_id.clone(),
                                fields,
                            },
                        )
                    },
                }
            },
            EventKind::MhSipCreate => {
                let pid_segs = key_path_vec("pid");
                match get_str(&event.data, pid_segs.as_slice()) {
                    None => TransitionOutcome::Rejected(ExtractError::MissingPid),
                    Some(pid_s) => {
                        let base = split_pid_by_underscore(pid_s.as_str());
                        let cp_segs = key_path_vec("cp_id");
                        let cp = opt_str_clone(get_str(&event.data, cp_segs.as_slice()));
                        let profile_segs = key_path_vec("sip_profile");
                        let profile = opt_str_clone(
                            get_str(&event.data, profile_segs.as_slice()),
                        );
                        let fields = UpdateFields {
                            status: Status::MhSipCreated,
                            last_event_type: canonical_type_string(EventKind::MhSipCreate),
                            last_event_date: event.time,
                            cp_id: col_from_opt(cp),
                            pid: ColUpdate::To(String::from_str(base)),
                            sip_profile: col_from_opt(profile),
                        };
                        proof {
                            assert(fields@ == mh_sip_create_fields(*event, pid_s@));
                        }
                        TransitionOutcome::Persist(
                            Operation::Update {
                                correlation_id: event.correlation_id.clone(),
                                fields,
                            },
                        )
                    },
                }
            },
            EventKind::BagTransfer
            | EventKind::BagUnzip
            | EventKind::BagValidate
            | EventKind::SipValidate
            | EventKind::AipTransfer => {
                let fields = UpdateFields {
                    status: status_for_kind(k),
                    last_event_type: canonical_type_string(k),
                    last_event_date: event.time,
                    cp_id: ColUpdate::Keep,
                    pid: ColUpdate::Keep,
                    sip_profile: ColUpdate::Keep,
                };
                proof {
                    assert(fields@ == plain_update_fields(k, event.time as int));
                }
                TransitionOutcome::Persist(
                    Operation::Update {
                        correlation_id: event.correlation_id.clone(),
                        fields,
                    },
                )
            },
        },
    }
}

/// Two events whose type strings are aliases of the same semantic
/// transition, with identical payloads, correlation ids, subjects and
/// timestamps, decide the same outcome — down to the stored
/// `last_event_type`, which is the canonical type string of the kind,
/// not the alias the event arrived under.
pub proof fn lemma_alias_types_equivalent(e1: CloudEvent, e2: CloudEvent)
    requires
        kind_of_type(e1.type_field@) is Some,
        kind_of_type(e1.type_field@) == kind_of_type(e2.type_field@),
        e1.correlation_id@ == e2.correlation_id@,
        e1.subject@ == e2.subject@,
        e1.time == e2.time,
        e1.data == e2.data,
    ensures
        spec_transition(e1) == spec_transition(e2),
{
}

} // verus!
