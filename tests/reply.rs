use strata_node::command::{CommandKind, Output};
use strata_node::reply::{
    read_maybe_version, read_version, read_versions,
    history_to_host, maybe_history_to_host, read_bool, read_event, read_events, read_hits,
    read_key_page, read_matches, read_time_range, read_unit, read_vector, texts_to_host,
};
use strata_node::value::{HostValue, Value, VersionedValue};

fn vv(i: i64, version: u64) -> VersionedValue {
    VersionedValue { value: Value::Int(i), version, timestamp: version * 10 }
}

fn field<'a>(h: &'a HostValue, name: &str) -> &'a HostValue {
    match h {
        HostValue::Object(fields) => &fields.iter().find(|(k, _)| k == name).unwrap().1,
        other => panic!("not an object: {:?}", other),
    }
}

#[test]
fn event_read_shows_versioned_event() {
    let h = read_event(Output::MaybeVersioned(Some(vv(5, 2)))).unwrap();
    assert!(matches!(field(&h, "value"), HostValue::Int(5)));
    assert!(matches!(field(&h, "version"), HostValue::UInt(2)));
    assert!(matches!(field(&h, "timestamp"), HostValue::UInt(20)));
    let bare = read_event(Output::Maybe(Some(Value::Bool(true)))).unwrap();
    assert!(matches!(field(&bare, "value"), HostValue::Bool(true)));
    assert!(matches!(read_event(Output::Maybe(None)).unwrap(), HostValue::Null));
    let e = read_event(Output::Unit).unwrap_err();
    assert_eq!(e.message(), "Unexpected output for EventGet");
}

#[test]
fn event_list_keeps_order() {
    let h = read_events(Output::VersionedValues(vec![vv(1, 1), vv(2, 2), vv(3, 3)])).unwrap();
    match h {
        HostValue::Array(items) => {
            assert_eq!(items.len(), 3);
            for (i, item) in items.iter().enumerate() {
                assert!(matches!(field(item, "value"), HostValue::Int(n) if *n == i as i64 + 1));
            }
        }
        other => panic!("unexpected {:?}", other),
    }
    assert!(read_events(Output::Other).is_err());
}

#[test]
fn histories_and_absence() {
    assert!(matches!(maybe_history_to_host(None), HostValue::Null));
    match maybe_history_to_host(Some(vec![])) {
        HostValue::Array(a) => assert!(a.is_empty()),
        other => panic!("unexpected {:?}", other),
    }
    match history_to_host(&vec![vv(9, 4)]) {
        HostValue::Array(a) => assert!(matches!(field(&a[0], "version"), HostValue::UInt(4))),
        other => panic!("unexpected {:?}", other),
    }
}

#[test]
fn time_range_stamps() {
    let h = read_time_range(Output::TimeRange { oldest_ts: Some(100), latest_ts: None }).unwrap();
    assert!(matches!(field(&h, "oldestTs"), HostValue::Int(100)));
    assert!(matches!(field(&h, "latestTs"), HostValue::Null));
    let e = read_time_range(Output::Bool(false)).unwrap_err();
    assert_eq!(e.message(), "Unexpected output for TimeRange");
}

#[test]
fn key_page_and_texts() {
    let h = read_key_page(Output::Keys(vec!["a".to_string(), "b".to_string()])).unwrap();
    match field(&h, "keys") {
        HostValue::Array(a) => {
            assert_eq!(a.len(), 2);
            assert!(matches!(&a[1], HostValue::Str(s) if s == "b"));
        }
        other => panic!("unexpected {:?}", other),
    }
    match texts_to_host(vec![]) {
        HostValue::Array(a) => assert!(a.is_empty()),
        other => panic!("unexpected {:?}", other),
    }
}

#[test]
fn simple_answers_are_tag_checked() {
    assert!(read_bool(CommandKind::SpaceExists, Output::Bool(true)).unwrap());
    assert_eq!(
        read_bool(CommandKind::SpaceExists, Output::Unit).unwrap_err().message(),
        "Unexpected output for SpaceExists"
    );
    assert!(read_unit(CommandKind::RetentionApply, Output::Unit).is_ok());
    assert!(read_unit(CommandKind::SpaceCreate, Output::Bool(true)).is_err());
    assert!(read_vector(Output::VectorData(None)).unwrap().is_none());
    assert!(read_vector(Output::Keys(vec![])).is_err());
    assert!(read_matches(Output::VectorMatches(vec![])).unwrap().is_empty());
    assert_eq!(
        read_matches(Output::Unit).unwrap_err().message(),
        "Unexpected output for VectorSearch"
    );
    assert!(read_hits(Output::SearchResults(vec![])).unwrap().is_empty());
    assert!(read_hits(Output::Other).is_err());
}

#[test]
fn write_versions_are_read() {
    assert_eq!(read_version(CommandKind::KvPut, Output::Version(4)).unwrap(), 4);
    assert_eq!(read_version(CommandKind::KvPut, Output::Version(u64::MAX)).unwrap(), -1);
    assert_eq!(
        read_version(CommandKind::JsonSet, Output::Unit).unwrap_err().message(),
        "Unexpected output for JsonSet"
    );
    assert_eq!(read_maybe_version(Output::MaybeVersion(Some(2))).unwrap(), Some(2));
    assert_eq!(read_maybe_version(Output::MaybeVersion(None)).unwrap(), None);
    assert_eq!(read_versions(Output::Versions(vec![1, 2, 3])).unwrap(), vec![1, 2, 3]);
    assert!(read_versions(Output::Other).is_err());
}
