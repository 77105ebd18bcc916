use pulsar2db::anomaly::classify_update_outcome;
use pulsar2db::anomaly::Signal;
use pulsar2db::event::CloudEvent;
use pulsar2db::event::Status;
use pulsar2db::extract::ExtractError;
use pulsar2db::payload::Value;
use pulsar2db::process::process_event;
use pulsar2db::store::SipStore;

fn s(v: &str) -> Value {
    Value::Str(v.to_string())
}

fn kv(k: &str, v: Value) -> (String, Value) {
    (k.to_string(), v)
}

fn event(type_field: &str, correlation_id: &str, subject: &str, time: i64, data: Value) -> CloudEvent {
    CloudEvent {
        type_field: type_field.to_string(),
        source: "sipin".to_string(),
        correlation_id: correlation_id.to_string(),
        content_type: "application/cloudevents+json".to_string(),
        time,
        datacontenttype: "application/json".to_string(),
        outcome: "success".to_string(),
        specversion: "1.0".to_string(),
        id: "evt-1".to_string(),
        subject: subject.to_string(),
        data,
    }
}

fn sip_create_event(correlation_id: &str, time: i64) -> CloudEvent {
    event(
        "be.meemoo.sipin.sip.create",
        correlation_id,
        "ignored",
        time,
        Value::Obj(vec![
            kv("path", s("/ftp/in/dir/filename-123.bag.zip")),
            kv("cp_id", s("CP1")),
            kv("local_id", s("L9")),
            kv("md5_hash_essence_manifest", s("aaa")),
            kv("md5_hash_essence_sidecar", s("bbb")),
            kv("essence_filename", s("essence.mxf")),
            kv("essence_filesize", Value::Int(123456)),
            kv("host", s("ftp.example")),
            kv("bag_filesize", Value::Int(654321)),
        ]),
    )
}

#[test]
fn create_event_on_fresh_correlation_id_inserts_one_record() {
    let mut store = SipStore::new();
    let ev = sip_create_event("corr-1", 100);
    let report = process_event(&mut store, &ev);
    assert_eq!(report.persistence_calls, 1);
    assert_eq!(report.rows_affected, Some(1));
    assert_eq!(report.signals, Vec::<Signal>::new());
    assert_eq!(store.len(), 1);
    let rec = store.find("corr-1").expect("record should exist");
    assert_eq!(rec.status, Status::SipCreated);
    assert_eq!(rec.last_event_type, "be.meemoo.sipin.sip.create");
    assert_eq!(rec.last_event_date, 100);
    assert_eq!(rec.first_event_date, 100);
}

#[test]
fn matching_update_mutates_only_the_rewritten_fields() {
    let mut store = SipStore::new();
    process_event(&mut store, &sip_create_event("corr-1", 100));
    let before = store.find("corr-1").expect("record should exist");
    let before_bag_name = before.bag_name.clone();
    let before_cp_id = before.cp_id.clone();
    let before_local_id = before.local_id.clone();
    let before_first_date = before.first_event_date;
    let before_host = before.ingest_host.clone();

    let update = event("be.meemoo.sipin.bag.transfer", "corr-1", "x", 200, Value::Null);
    let report = process_event(&mut store, &update);
    assert_eq!(report.persistence_calls, 1);
    assert_eq!(report.rows_affected, Some(1));
    assert_eq!(report.signals, Vec::<Signal>::new());

    let after = store.find("corr-1").expect("record should exist");
    assert_eq!(after.status, Status::BagTransferredToSipin);
    assert_eq!(after.last_event_type, "be.meemoo.sipin.bag.transfer");
    assert_eq!(after.last_event_date, 200);
    assert_eq!(after.bag_name, before_bag_name);
    assert_eq!(after.cp_id, before_cp_id);
    assert_eq!(after.local_id, before_local_id);
    assert_eq!(after.first_event_date, before_first_date);
    assert_eq!(after.ingest_host, before_host);
    assert_eq!(store.len(), 1);
}

#[test]
fn update_without_predecessor_mutates_nothing_and_signals_once() {
    let mut store = SipStore::new();
    let update = event("be.meemoo.sipin.bag.unzip", "corr-absent", "x", 200, Value::Null);
    let report = process_event(&mut store, &update);
    assert_eq!(report.persistence_calls, 1);
    assert_eq!(report.rows_affected, Some(0));
    assert_eq!(report.signals, vec![Signal::MissingPredecessor]);
    assert_eq!(store.len(), 0);
}

#[test]
fn alias_type_strings_produce_identical_record_state() {
    let mut store_a = SipStore::new();
    let mut store_b = SipStore::new();
    process_event(&mut store_a, &sip_create_event("corr-1", 100));
    process_event(&mut store_b, &sip_create_event("corr-1", 100));

    let legacy = event("be.meemoo.sipin.bag.transfer", "corr-1", "x", 200, Value::Null);
    let current = event(
        "persistent://public/default/be.meemoo.sipin.bag.transfer",
        "corr-1",
        "x",
        200,
        Value::Null,
    );
    process_event(&mut store_a, &legacy);
    process_event(&mut store_b, &current);

    let rec_a = store_a.find("corr-1").expect("record should exist");
    let rec_b = store_b.find("corr-1").expect("record should exist");
    assert_eq!(rec_a, rec_b);
}

#[test]
fn unknown_event_type_makes_no_persistence_call() {
    let mut store = SipStore::new();
    process_event(&mut store, &sip_create_event("corr-1", 100));
    let unknown = event("be.meemoo.sipin.no.such.topic", "corr-1", "x", 300, Value::Null);
    let report = process_event(&mut store, &unknown);
    assert_eq!(report.persistence_calls, 0);
    assert_eq!(report.rows_affected, None);
    assert_eq!(report.signals, vec![Signal::UnknownEventType]);
    let rec = store.find("corr-1").expect("record should exist");
    assert_eq!(rec.last_event_date, 100);
    assert_eq!(rec.status, Status::SipCreated);
}

#[test]
fn duplicate_create_signals_a_conflict_and_keeps_the_first_record() {
    let mut store = SipStore::new();
    process_event(&mut store, &sip_create_event("corr-1", 100));
    let report = process_event(&mut store, &sip_create_event("corr-1", 500));
    assert_eq!(report.persistence_calls, 1);
    assert_eq!(report.rows_affected, None);
    assert_eq!(report.signals, vec![Signal::StoreConflict]);
    assert_eq!(store.len(), 1);
    let rec = store.find("corr-1").expect("record should exist");
    assert_eq!(rec.first_event_date, 100);
}

#[test]
fn rejected_event_makes_no_persistence_call() {
    let mut store = SipStore::new();
    let ev = event("be.meemoo.sipin.aip.create", "corr-1", "x", 100, Value::Obj(vec![]));
    let report = process_event(&mut store, &ev);
    assert_eq!(report.persistence_calls, 0);
    assert_eq!(
        report.signals,
        vec![Signal::MalformedPayload(ExtractError::MissingPid)]
    );
    assert_eq!(store.len(), 0);
}

#[test]
fn aip_create_update_rewrites_pid_and_cp_id() {
    let mut store = SipStore::new();
    process_event(&mut store, &sip_create_event("corr-1", 100));
    let ev = event(
        "be.meemoo.sipin.aip.create",
        "corr-1",
        "x",
        400,
        Value::Obj(vec![kv("pid", s("a1b2c3d4e5_srt")), kv("cp_id", s("CP2"))]),
    );
    let report = process_event(&mut store, &ev);
    assert_eq!(report.rows_affected, Some(1));
    let rec = store.find("corr-1").expect("record should exist");
    assert_eq!(rec.pid, Some("a1b2c3d4e5".to_string()));
    assert_eq!(rec.cp_id, Some("CP2".to_string()));
    assert_eq!(rec.status, Status::AipCreated);
    assert_eq!(rec.status.label(), "AIP_CREATED");
    assert_eq!(rec.bag_name, Some("filename-123.bag.zip".to_string()));
}

#[test]
fn classify_update_outcome_covers_all_row_counts() {
    assert_eq!(classify_update_outcome(0), Some(Signal::MissingPredecessor));
    assert_eq!(classify_update_outcome(1), None);
    assert_eq!(classify_update_outcome(2), Some(Signal::AmbiguousCorrelation));
    assert_eq!(classify_update_outcome(17), Some(Signal::AmbiguousCorrelation));
}
