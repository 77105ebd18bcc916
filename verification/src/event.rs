//! The decoded lifecycle event, the closed set of semantic event kinds
//! with their type-string aliases, and the closed set of status labels.

use vstd::prelude::*;

verus! {

use vstd::string::StringExecFns;
use crate::extract::str_eq;
use crate::payload::Value;

/// One decoded lifecycle event, as delivered by the message broker.
///
/// `time` is the event timestamp in microseconds since the Unix epoch;
/// `data` is the structured payload whose shape depends on
/// `type_field`.
pub struct CloudEvent {
    pub type_field: String,
    pub source: String,
    pub correlation_id: String,
    pub content_type: String,
    pub time: i64,
    pub datacontenttype: String,
    pub outcome: String,
    pub specversion: String,
    pub id: String,
    pub subject: String,
    pub data: Value,
}

/// The decoded shape of a legacy transfer payload.
pub struct Data {
    pub path: String,
    pub host: String,
    pub outcome: String,
    pub message: String,
}

/// The semantic kind of an event, after alias normalization: several
/// literal type strings (legacy and current topic names) may name the
/// same kind.
#[derive(Clone, Copy, PartialEq, Eq, Structural, Debug)]
pub enum EventKind {
    S3ObjectCreate,
    SipCreate,
    BagTransfer,
    BagUnzip,
    BagValidate,
    SipValidate,
    AipCreate,
    MhSipCreate,
    AipTransfer,
}

/// The closed set of lifecycle status labels a record can carry.
#[derive(Clone, Copy, PartialEq, Eq, Structural, Debug)]
pub enum Status {
    S3ObjectCreated,
    SipCreated,
    BagTransferredToSipin,
    BagUnzipped,
    BagValidated,
    SipValidated,
    AipCreated,
    MhSipCreated,
    AipDeliveredToMam,
}

/// The semantic kind named by an event type string, or absence for an
/// unrecognized type.  Exact match; alias strings map to the same kind.
pub open spec fn kind_of_type(t: Seq<char>) -> Option<EventKind> {
    if t == "persistent://public/sipin/s3.object.create"@ {
        Some(EventKind::S3ObjectCreate)
    } else if t == "be.meemoo.sipin.sip.create"@ {
        Some(EventKind::SipCreate)
    } else if t == "be.meemoo.sipin.bag.transfer"@
        || t == "persistent://public/default/be.meemoo.sipin.bag.transfer"@ {
        Some(EventKind::BagTransfer)
    } else if t == "be.meemoo.sipin.bag.unzip"@ || t == "persistent://public/sipin/bag.unzip"@ {
        Some(EventKind::BagUnzip)
    } else if t == "be.meemoo.sipin.bag.validate"@
        || t == "persistent://public/sipin/bag.validate"@ {
        Some(EventKind::BagValidate)
    } else if t == "be.meemoo.sipin.sip.validate"@ {
        Some(EventKind::SipValidate)
    } else if t == "be.meemoo.sipin.aip.create"@ {
        Some(EventKind::AipCreate)
    } else if t == "persistent://public/sipin/mh-sip.create"@ {
        Some(EventKind::MhSipCreate)
    } else if t == "be.meemoo.sipin.aip.transfer"@ {
        Some(EventKind::AipTransfer)
    } else {
        None
    }
}

/// The canonical type string of a kind: the one stored as
/// `last_event_type`, whichever alias the event arrived under.
pub open spec fn canonical_type(k: EventKind) -> Seq<char> {
    match k {
        EventKind::S3ObjectCreate => "persistent://public/sipin/s3.object.create"@,
        EventKind::SipCreate => "be.meemoo.sipin.sip.create"@,
        EventKind::BagTransfer => "be.meemoo.sipin.bag.transfer"@,
        EventKind::BagUnzip => "be.meemoo.sipin.bag.unzip"@,
        EventKind::BagValidate => "be.meemoo.sipin.bag.validate"@,
        EventKind::SipValidate => "be.meemoo.sipin.sip.validate"@,
        EventKind::AipCreate => "be.meemoo.sipin.aip.create"@,
        EventKind::MhSipCreate => "persistent://public/sipin/mh-sip.create"@,
        EventKind::AipTransfer => "be.meemoo.sipin.aip.transfer"@,
    }
}

/// The status a record takes when an event of kind `k` is applied.
pub open spec fn status_of_kind(k: EventKind) -> Status {
    match k {
        EventKind::S3ObjectCreate => Status::S3ObjectCreated,
        EventKind::SipCreate => Status::SipCreated,
        EventKind::BagTransfer => Status::BagTransferredToSipin,
        EventKind::BagUnzip => Status::BagUnzipped,
        EventKind::BagValidate => Status::BagValidated,
        EventKind::SipValidate => Status::SipValidated,
        EventKind::AipCreate => Status::AipCreated,
        EventKind::MhSipCreate => Status::MhSipCreated,
        EventKind::AipTransfer => Status::AipDeliveredToMam,
    }
}

/// The text representation of a status label, as stored by the entity
/// store.
pub open spec fn status_label(s: Status) -> Seq<char> {
    match s {
        Status::S3ObjectCreated => "S3_OBJECT_CREATED"@,
        Status::SipCreated => "SIP_CREATED"@,
        Status::BagTransferredToSipin => "BAG_TRANSFERRED_TO_SIPIN"@,
        Status::BagUnzipped => "BAG_UNZIPPED"@,
        Status::BagValidated => "BAG_VALIDATED"@,
        Status::SipValidated => "SIP_VALIDATED"@,
        Status::AipCreated => "AIP_CREATED"@,
        Status::MhSipCreated => "MH-SIP_CREATED"@,
        Status::AipDeliveredToMam => "AIP_DELIVERED_TO_MAM"@,
    }
}

impl Status {
    /// The text representation of this status label.
    pub fn label(&self) -> (r: String)
        ensures
            r@ == status_label(*self),
    {
        match self {
            Status::S3ObjectCreated => String::from_str("S3_OBJECT_CREATED"),
            Status::SipCreated => String::from_str("SIP_CREATED"),
            Status::BagTransferredToSipin => String::from_str("BAG_TRANSFERRED_TO_SIPIN"),
            Status::BagUnzipped => String::from_str("BAG_UNZIPPED"),
            Status::BagValidated => String::from_str("BAG_VALIDATED"),
            Status::SipValidated => String::from_str("SIP_VALIDATED"),
            Status::AipCreated => String::from_str("AIP_CREATED"),
            Status::MhSipCreated => String::from_str("MH-SIP_CREATED"),
            Status::AipDeliveredToMam => String::from_str("AIP_DELIVERED_TO_MAM"),
        }
    }
}

/// Normalizes an event type string to its semantic kind, or absence for
/// an unrecognized type.
pub fn parse_event_kind(t: &str) -> (r: Option<EventKind>)
    ensures
        r == kind_of_type(t@),
{
    if str_eq(t, "persistent://public/sipin/s3.object.create") {
        Some(EventKind::S3ObjectCreate)
    } else if str_eq(t, "be.meemoo.sipin.sip.create") {
        Some(EventKind::SipCreate)
    } else if str_eq(t, "be.meemoo.sipin.bag.transfer") || str_eq(
        t,
        "persistent://public/default/be.meemoo.sipin.bag.transfer",
    ) {
        Some(EventKind::BagTransfer)
    } else if str_eq(t, "be.meemoo.sipin.bag.unzip") || str_eq(
        t,
        "persistent://public/sipin/bag.unzip",
    ) {
        Some(EventKind::BagUnzip)
    } else if str_eq(t, "be.meemoo.sipin.bag.validate") || str_eq(
        t,
        "persistent://public/sipin/bag.validate",
    ) {
        Some(EventKind::BagValidate)
    } else if str_eq(t, "be.meemoo.sipin.sip.validate") {
        Some(EventKind::SipValidate)
    } else if str_eq(t, "be.meemoo.sipin.aip.create") {
        Some(EventKind::AipCreate)
    } else if str_eq(t, "persistent://public/sipin/mh-sip.create") {
        Some(EventKind::MhSipCreate)
    } else if str_eq(t, "be.meemoo.sipin.aip.transfer") {
        Some(EventKind::AipTransfer)
    } else {
        None
    }
}

/// The canonical type string of a kind, as an owned string.
pub fn canonical_type_string(k: EventKind) -> (r: String)
    ensures
        r@ == canonical_type(k),
{
    match k {
        EventKind::S3ObjectCreate => String::from_str("persistent://public/sipin/s3.object.create"),
        EventKind::SipCreate => String::from_str("be.meemoo.sipin.sip.create"),
        EventKind::BagTransfer => String::from_str("be.meemoo.sipin.bag.transfer"),
        EventKind::BagUnzip => String::from_str("be.meemoo.sipin.bag.unzip"),
        EventKind::BagValidate => String::from_str("be.meemoo.sipin.bag.validate"),
        EventKind::SipValidate => String::from_str("be.meemoo.sipin.sip.validate"),
        EventKind::AipCreate => String::from_str("be.meemoo.sipin.aip.create"),
        EventKind::MhSipCreate => String::from_str("persistent://public/sipin/mh-sip.create"),
        EventKind::AipTransfer => String::from_str("be.meemoo.sipin.aip.transfer"),
    }
}

/// The status written by an event of kind `k`.
pub fn status_for_kind(k: EventKind) -> (r: Status)
    ensures
        r == status_of_kind(k),
{
    match k {
        EventKind::S3ObjectCreate => Status::S3ObjectCreated,
        EventKind::SipCreate => Status::SipCreated,
        EventKind::BagTransfer => Status::BagTransferredToSipin,
        EventKind::BagUnzip => Status::BagUnzipped,
        EventKind::BagValidate => Status::BagValidated,
        EventKind::SipValidate => Status::SipValidated,
        EventKind::AipCreate => Status::AipCreated,
        EventKind::MhSipCreate => Status::MhSipCreated,
        EventKind::AipTransfer => Status::AipDeliveredToMam,
    }
}

} // verus!
