use pulsar2db::event::CloudEvent;
use pulsar2db::event::Status;
use pulsar2db::extract::ExtractError;
use pulsar2db::payload::PathSeg;
use pulsar2db::payload::Value;
use pulsar2db::payload::get_i64;
use pulsar2db::payload::get_str;
use pulsar2db::payload::lookup;
use pulsar2db::record::ColUpdate;
use pulsar2db::record::Operation;
use pulsar2db::transition::transition;
use pulsar2db::transition::TransitionOutcome;

fn s(v: &str) -> Value {
    Value::Str(v.to_string())
}

fn kv(k: &str, v: Value) -> (String, Value) {
    (k.to_string(), v)
}

fn event(type_field: &str, correlation_id: &str, subject: &str, time: i64, data: Value) -> CloudEvent {
    CloudEvent {
        type_field: type_field.to_string(),
        source: "sipin".to_string(),
        correlation_id: correlation_id.to_string(),
        content_type: "application/cloudevents+json".to_string(),
        time,
        datacontenttype: "application/json".to_string(),
        outcome: "success".to_string(),
        specversion: "1.0".to_string(),
        id: "evt-1".to_string(),
        subject: subject.to_string(),
        data,
    }
}

fn s3_payload(endpoint: &str, bucket: &str, key: &str) -> Value {
    Value::Obj(vec![kv(
        "s3_message",
        Value::Obj(vec![kv(
            "Records",
            Value::Arr(vec![Value::Obj(vec![kv(
                "s3",
                Value::Obj(vec![
                    kv("domain", Value::Obj(vec![kv("s3-endpoint", s(endpoint))])),
                    kv("bucket", Value::Obj(vec![kv("name", s(bucket))])),
                    kv("object", Value::Obj(vec![kv("key", s(key))])),
                ]),
            )])]),
        )]),
    )])
}

#[test]
fn nested_lookup_reaches_deep_values() {
    let data = s3_payload("http://s3.example", "bucket-1", "uploads/bag.zip");
    let path = vec![
        PathSeg::Key("s3_message".to_string()),
        PathSeg::Key("Records".to_string()),
        PathSeg::Idx(0),
        PathSeg::Key("s3".to_string()),
        PathSeg::Key("bucket".to_string()),
        PathSeg::Key("name".to_string()),
    ];
    assert_eq!(get_str(&data, &path), Some(&"bucket-1".to_string()));
}

#[test]
fn nested_lookup_misses_absent_key_and_bad_index() {
    let data = s3_payload("e", "b", "k");
    let missing = vec![
        PathSeg::Key("s3_message".to_string()),
        PathSeg::Key("NoSuchKey".to_string()),
    ];
    assert!(lookup(&data, &missing).is_none());
    let out_of_range = vec![
        PathSeg::Key("s3_message".to_string()),
        PathSeg::Key("Records".to_string()),
        PathSeg::Idx(1),
    ];
    assert!(lookup(&data, &out_of_range).is_none());
}

#[test]
fn lookup_i64_rejects_string_values() {
    let data = Value::Obj(vec![kv("essence_filesize", s("big"))]);
    let path = vec![PathSeg::Key("essence_filesize".to_string())];
    assert_eq!(get_i64(&data, &path), None);
}

#[test]
fn s3_object_create_builds_full_record() {
    let ev = event(
        "persistent://public/sipin/s3.object.create",
        "corr-1",
        "bag-42.zip",
        1_700_000_000_000_000,
        s3_payload("http://s3.example", "bucket-1", "uploads/bag-42.zip"),
    );
    match transition(&ev) {
        TransitionOutcome::Persist(Operation::Create(rec)) => {
            assert_eq!(rec.correlation_id, "corr-1");
            assert_eq!(rec.bag_name, Some("bag-42.zip".to_string()));
            assert_eq!(rec.ingest_host, Some("http://s3.example".to_string()));
            assert_eq!(rec.ingest_bucket, Some("bucket-1".to_string()));
            assert_eq!(rec.ingest_path_or_key, Some("uploads/bag-42.zip".to_string()));
            assert_eq!(rec.first_event_date, 1_700_000_000_000_000);
            assert_eq!(rec.last_event_date, 1_700_000_000_000_000);
            assert_eq!(rec.last_event_type, "persistent://public/sipin/s3.object.create");
            assert_eq!(rec.status, Status::S3ObjectCreated);
            assert_eq!(rec.status.label(), "S3_OBJECT_CREATED");
            assert_eq!(rec.cp_id, None);
            assert_eq!(rec.pid, None);
        }
        _ => panic!("expected a create operation"),
    }
}

#[test]
fn sip_create_derives_bag_name_from_path() {
    let ev = event(
        "be.meemoo.sipin.sip.create",
        "corr-2",
        "ignored",
        7,
        Value::Obj(vec![
            kv("path", s("/ftp/in/dir/filename-123.bag.zip")),
            kv("cp_id", s("CP1")),
            kv("local_id", s("L9")),
            kv("md5_hash_essence_manifest", s("aaa")),
            kv("md5_hash_essence_sidecar", s("bbb")),
            kv("essence_filename", s("essence.mxf")),
            kv("essence_filesize", Value::Int(123456)),
            kv("host", s("ftp.example")),
            kv("bag_filesize", Value::Int(654321)),
        ]),
    );
    match transition(&ev) {
        TransitionOutcome::Persist(Operation::Create(rec)) => {
            assert_eq!(rec.bag_name, Some("filename-123.bag.zip".to_string()));
            assert_eq!(rec.cp_id, Some("CP1".to_string()));
            assert_eq!(rec.local_id, Some("L9".to_string()));
            assert_eq!(rec.md5_hash_essence_manifest, Some("aaa".to_string()));
            assert_eq!(rec.md5_hash_essence_sidecar, Some("bbb".to_string()));
            assert_eq!(rec.essence_filename, Some("essence.mxf".to_string()));
            assert_eq!(rec.essence_filesize, Some(123456));
            assert_eq!(rec.ingest_host, Some("ftp.example".to_string()));
            assert_eq!(rec.ingest_path_or_key, Some("/ftp/in/dir/filename-123.bag.zip".to_string()));
            assert_eq!(rec.bag_filesize, Some(654321));
            assert_eq!(rec.status, Status::SipCreated);
            assert_eq!(rec.status.label(), "SIP_CREATED");
        }
        _ => panic!("expected a create operation"),
    }
}

#[test]
fn sip_create_without_path_is_rejected() {
    let ev = event("be.meemoo.sipin.sip.create", "corr-3", "x", 7, Value::Obj(vec![]));
    match transition(&ev) {
        TransitionOutcome::Rejected(err) => assert_eq!(err, ExtractError::MissingPath),
        _ => panic!("expected a rejection"),
    }
}

#[test]
fn sip_create_with_separator_ending_path_uses_directory_name() {
    let ev = event(
        "be.meemoo.sipin.sip.create",
        "corr-3b",
        "x",
        7,
        Value::Obj(vec![kv("path", s("/ftp/in/dir/"))]),
    );
    match transition(&ev) {
        TransitionOutcome::Persist(Operation::Create(rec)) => {
            assert_eq!(rec.bag_name, Some("dir".to_string()));
        }
        _ => panic!("expected a create operation"),
    }
}

#[test]
fn sip_create_with_separators_only_path_is_rejected() {
    let ev = event(
        "be.meemoo.sipin.sip.create",
        "corr-3c",
        "x",
        7,
        Value::Obj(vec![kv("path", s("/"))]),
    );
    match transition(&ev) {
        TransitionOutcome::Rejected(err) => assert_eq!(err, ExtractError::EmptyBasename),
        _ => panic!("expected a rejection"),
    }
}

#[test]
fn aip_create_strips_collateral_suffix_from_pid() {
    let ev = event(
        "be.meemoo.sipin.aip.create",
        "corr-4",
        "x",
        9,
        Value::Obj(vec![kv("pid", s("a1b2c3d4e5_srt")), kv("cp_id", s("CP2"))]),
    );
    match transition(&ev) {
        TransitionOutcome::Persist(Operation::Update { correlation_id, fields }) => {
            assert_eq!(correlation_id, "corr-4");
            assert_eq!(fields.status, Status::AipCreated);
            assert_eq!(fields.last_event_type, "be.meemoo.sipin.aip.create");
            assert_eq!(fields.last_event_date, 9);
            assert!(matches!(fields.pid, ColUpdate::To(ref p) if p == "a1b2c3d4e5"));
            assert!(matches!(fields.cp_id, ColUpdate::To(ref c) if c == "CP2"));
            assert!(matches!(fields.sip_profile, ColUpdate::Keep));
        }
        _ => panic!("expected an update operation"),
    }
}

#[test]
fn aip_create_without_pid_is_rejected() {
    let ev = event("be.meemoo.sipin.aip.create", "corr-5", "x", 9, Value::Obj(vec![]));
    match transition(&ev) {
        TransitionOutcome::Rejected(err) => assert_eq!(err, ExtractError::MissingPid),
        _ => panic!("expected a rejection"),
    }
}

#[test]
fn aip_create_without_cp_id_rewrites_it_to_null() {
    let ev = event(
        "be.meemoo.sipin.aip.create",
        "corr-6",
        "x",
        9,
        Value::Obj(vec![kv("pid", s("plainpid"))]),
    );
    match transition(&ev) {
        TransitionOutcome::Persist(Operation::Update { fields, .. }) => {
            assert!(matches!(fields.cp_id, ColUpdate::ToNull));
            assert!(matches!(fields.pid, ColUpdate::To(ref p) if p == "plainpid"));
        }
        _ => panic!("expected an update operation"),
    }
}

#[test]
fn mh_sip_create_sets_sip_profile() {
    let ev = event(
        "persistent://public/sipin/mh-sip.create",
        "corr-7",
        "x",
        11,
        Value::Obj(vec![
            kv("pid", s("pid_1")),
            kv("cp_id", s("CP3")),
            kv("sip_profile", s("basic")),
        ]),
    );
    match transition(&ev) {
        TransitionOutcome::Persist(Operation::Update { fields, .. }) => {
            assert_eq!(fields.status, Status::MhSipCreated);
            assert_eq!(fields.status.label(), "MH-SIP_CREATED");
            assert!(matches!(fields.sip_profile, ColUpdate::To(ref p) if p == "basic"));
            assert!(matches!(fields.pid, ColUpdate::To(ref p) if p == "pid"));
        }
        _ => panic!("expected an update operation"),
    }
}

#[test]
fn plain_update_kinds_touch_no_extra_columns() {
    let cases = vec![
        ("be.meemoo.sipin.bag.transfer", Status::BagTransferredToSipin, "BAG_TRANSFERRED_TO_SIPIN"),
        ("persistent://public/sipin/bag.unzip", Status::BagUnzipped, "BAG_UNZIPPED"),
        ("be.meemoo.sipin.bag.validate", Status::BagValidated, "BAG_VALIDATED"),
        ("be.meemoo.sipin.sip.validate", Status::SipValidated, "SIP_VALIDATED"),
        ("be.meemoo.sipin.aip.transfer", Status::AipDeliveredToMam, "AIP_DELIVERED_TO_MAM"),
    ];
    for (type_field, status, label) in cases {
        let ev = event(type_field, "corr-8", "x", 13, Value::Null);
        match transition(&ev) {
            TransitionOutcome::Persist(Operation::Update { correlation_id, fields }) => {
                assert_eq!(correlation_id, "corr-8");
                assert_eq!(fields.status, status);
                assert_eq!(fields.status.label(), label);
                assert_eq!(fields.last_event_date, 13);
                assert!(matches!(fields.cp_id, ColUpdate::Keep));
                assert!(matches!(fields.pid, ColUpdate::Keep));
                assert!(matches!(fields.sip_profile, ColUpdate::Keep));
            }
            _ => panic!("expected an update operation for {}", type_field),
        }
    }
}

#[test]
fn unknown_type_maps_to_no_operation() {
    let ev = event("be.meemoo.sipin.something.else", "corr-9", "x", 13, Value::Null);
    assert!(matches!(transition(&ev), TransitionOutcome::UnknownType));
}
