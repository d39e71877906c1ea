use strata_node::command::{Command, DistanceMetric, FilterOp, MergeStrategy, Output};
use strata_node::error::{BindingError, Category, InputError};
use strata_node::request::{
    collection_metric, get_field, parse_batch, parse_filter_op, parse_merge_strategy,
    parse_metric, prepare_vector_search, search_metric, Context, Element,
};
use strata_node::value::{HostValue, Value};
use strata_node::command::CommandKind;
use strata_node::options::JsOpenOptions;
use strata_node::reply::{latest_to_host, read_json_page, read_keys, read_value};
use strata_node::value::VersionedValue;

fn s(x: &str) -> String {
    x.to_string()
}

fn obj(fields: Vec<(&str, HostValue)>) -> HostValue {
    HostValue::Object(fields.into_iter().map(|(k, v)| (k.to_string(), v)).collect())
}

fn filter(field: &str, op: &str, value: HostValue) -> HostValue {
    obj(vec![("field", HostValue::Str(s(field))), ("op", HostValue::Str(s(op))), ("value", value)])
}

fn query() -> Vec<u64> {
    vec![0.5f64.to_bits(), 1.0f64.to_bits()]
}

#[test]
fn metric_names() {
    assert_eq!(parse_metric(&s("cosine")).unwrap(), DistanceMetric::Cosine);
    assert_eq!(parse_metric(&s("euclidean")).unwrap(), DistanceMetric::Euclidean);
    assert_eq!(parse_metric(&s("dot_product")).unwrap(), DistanceMetric::DotProduct);
    assert_eq!(parse_metric(&s("dotproduct")).unwrap(), DistanceMetric::DotProduct);
    let e = parse_metric(&s("manhattan")).unwrap_err();
    assert_eq!(e.message(), "[VALIDATION] Invalid metric: manhattan");
    assert_eq!(collection_metric(&None).unwrap(), DistanceMetric::Cosine);
    assert_eq!(search_metric(&None).unwrap(), None);
    assert_eq!(search_metric(&Some(s("euclidean"))).unwrap(), Some(DistanceMetric::Euclidean));
}

#[test]
fn merge_strategy_names() {
    assert_eq!(parse_merge_strategy(&None).unwrap(), MergeStrategy::LastWriterWins);
    assert_eq!(parse_merge_strategy(&Some(s("strict"))).unwrap(), MergeStrategy::Strict);
    let e = parse_merge_strategy(&Some(s("ours"))).unwrap_err();
    assert_eq!(e.message(), "[VALIDATION] Invalid merge strategy");
}

#[test]
fn filter_op_tokens() {
    let table = [
        ("eq", FilterOp::Eq),
        ("ne", FilterOp::Ne),
        ("gt", FilterOp::Gt),
        ("gte", FilterOp::Gte),
        ("lt", FilterOp::Lt),
        ("lte", FilterOp::Lte),
        ("in", FilterOp::In),
        ("contains", FilterOp::Contains),
    ];
    for (t, op) in table {
        assert_eq!(parse_filter_op(&s(t)), Some(op));
    }
    assert_eq!(parse_filter_op(&s("EQ")), None);
    assert_eq!(parse_filter_op(&s("between")), None);
}

#[test]
fn unknown_filter_op_fails_before_engine() {
    let filters = vec![filter("age", "eq", HostValue::Int(3)), filter("age", "between", HostValue::Int(1))];
    let e = prepare_vector_search(s("c"), query(), 5, None, Some(filters), None).unwrap_err();
    assert!(matches!(&e, BindingError::Invalid(InputError::InvalidFilterOp(op)) if op == "between"));
    assert_eq!(e.category(), Some(Category::Validation));
    assert_eq!(e.message(), "[VALIDATION] Invalid filter op: between");
}

#[test]
fn filtered_search_reads_filters() {
    let filters = vec![filter("tag", "contains", HostValue::Str(s("x")))];
    let req = prepare_vector_search(s("docs"), query(), 3, Some(s("dot_product")), Some(filters), Some(-1))
        .unwrap();
    assert_eq!(req.collection, "docs");
    assert_eq!(req.k, 3);
    assert_eq!(req.metric, Some(DistanceMetric::DotProduct));
    assert_eq!(req.as_of, Some(u64::MAX));
    let fs = req.filter.as_ref().unwrap();
    assert_eq!(fs.len(), 1);
    assert_eq!(fs[0].field, "tag");
    assert_eq!(fs[0].op, FilterOp::Contains);
    assert!(matches!(&fs[0].value, Value::Str(x) if x == "x"));
    let ctx = Context { branch: s("main"), space: s("default") };
    match ctx.vector_search(req) {
        Command::VectorSearch { branch, space, collection, k, .. } => {
            assert_eq!(branch.as_deref(), Some("main"));
            assert_eq!(space.as_deref(), Some("default"));
            assert_eq!(collection, "docs");
            assert_eq!(k, 3);
        }
        other => panic!("unexpected {:?}", other),
    }
}

#[test]
fn filtered_search_checks_in_order() {
    let bad_query = vec![f64::NAN.to_bits()];
    let e = prepare_vector_search(s("c"), bad_query, 1, Some(s("nope")), None, None).unwrap_err();
    assert!(matches!(e, BindingError::Invalid(InputError::NonFiniteElement(0))));
    let e = prepare_vector_search(s("c"), query(), 1, Some(s("nope")), None, None).unwrap_err();
    assert!(matches!(e, BindingError::Invalid(InputError::InvalidMetric(_))));
    let missing_op = obj(vec![("field", HostValue::Str(s("a"))), ("value", HostValue::Null)]);
    let e = prepare_vector_search(s("c"), query(), 1, None, Some(vec![missing_op]), None).unwrap_err();
    assert!(matches!(e, BindingError::Invalid(InputError::FilterMissingOp)));
    let e = prepare_vector_search(s("c"), query(), 1, None, Some(vec![HostValue::Int(1)]), None)
        .unwrap_err();
    assert!(matches!(e, BindingError::Invalid(InputError::FilterNotObject)));
    let missing_value = obj(vec![("field", HostValue::Str(s("a"))), ("op", HostValue::Str(s("eq")))]);
    let e = prepare_vector_search(s("c"), query(), 1, None, Some(vec![missing_value]), None)
        .unwrap_err();
    assert!(matches!(e, BindingError::Invalid(InputError::FilterMissingValue)));
    let no_field = obj(vec![("op", HostValue::Str(s("eq"))), ("value", HostValue::Null)]);
    let e = prepare_vector_search(s("c"), query(), 1, None, Some(vec![no_field]), None).unwrap_err();
    assert!(matches!(e, BindingError::Invalid(InputError::FilterMissingField)));
}

#[test]
fn batch_entries_are_read() {
    let items = vec![
        obj(vec![
            ("key", HostValue::Str(s("a"))),
            ("vector", HostValue::Array(vec![HostValue::Int(1), HostValue::Float(0.5f64.to_bits())])),
            ("metadata", obj(vec![("k", HostValue::Bool(true))])),
        ]),
        obj(vec![("key", HostValue::Str(s("b"))), ("vector", HostValue::Array(vec![]))]),
    ];
    let entries = parse_batch(&items).unwrap();
    assert_eq!(entries.len(), 2);
    assert_eq!(entries[0].key, "a");
    assert_eq!(entries[0].vector, vec![Element::Int(1), Element::Float(0.5f64.to_bits())]);
    assert!(entries[0].metadata.is_some());
    assert!(entries[1].metadata.is_none());
}

#[test]
fn batch_entry_faults() {
    let e = parse_batch(&vec![HostValue::Null]).unwrap_err();
    assert_eq!(e.message(), "[VALIDATION] Expected object");
    let e = parse_batch(&vec![obj(vec![("vector", HostValue::Array(vec![]))])]).unwrap_err();
    assert_eq!(e.message(), "[VALIDATION] Missing 'key'");
    let e = parse_batch(&vec![obj(vec![("key", HostValue::Str(s("a")))])]).unwrap_err();
    assert_eq!(e.message(), "[VALIDATION] Missing 'vector'");
    let e = parse_batch(&vec![obj(vec![
        ("key", HostValue::Str(s("a"))),
        ("vector", HostValue::Array(vec![HostValue::Str(s("1"))])),
    ])])
    .unwrap_err();
    assert_eq!(e.message(), "[VALIDATION] Vector element is not a number");
    let e = parse_batch(&vec![obj(vec![
        ("key", HostValue::Str(s("a"))),
        ("vector", HostValue::Array(vec![HostValue::Int(1), HostValue::Float(f64::INFINITY.to_bits())])),
    ])])
    .unwrap_err();
    assert_eq!(e.message(), "[VALIDATION] Vector element at index 1 is not a finite number");
}

#[test]
fn field_lookup_takes_first_match() {
    let fields = vec![
        (s("a"), HostValue::Int(1)),
        (s("b"), HostValue::Int(2)),
        (s("a"), HostValue::Int(3)),
    ];
    assert!(matches!(get_field(&fields, "a"), Some(HostValue::Int(1))));
    assert!(matches!(get_field(&fields, "b"), Some(HostValue::Int(2))));
    assert!(get_field(&fields, "c").is_none());
}

#[test]
fn commands_default_to_current_branch_and_space() {
    let ctx = Context { branch: s("feature"), space: s("tenant") };
    match ctx.kv_get(s("k"), Some(5)) {
        Command::KvGet { branch, space, key, as_of } => {
            assert_eq!(branch.as_deref(), Some("feature"));
            assert_eq!(space.as_deref(), Some("tenant"));
            assert_eq!(key, "k");
            assert_eq!(as_of, Some(5));
        }
        other => panic!("unexpected {:?}", other),
    }
    match ctx.kv_list(None, Some(10), None) {
        Command::KvList { branch, limit, cursor, .. } => {
            assert_eq!(branch.as_deref(), Some("feature"));
            assert_eq!(limit, Some(10));
            assert!(cursor.is_none());
        }
        other => panic!("unexpected {:?}", other),
    }
    match ctx.events_by_type(s("click"), None, Some(4), None) {
        Command::EventGetByType { space, after_sequence, limit, .. } => {
            assert_eq!(space.as_deref(), Some("tenant"));
            assert_eq!(after_sequence, Some(4));
            assert_eq!(limit, None);
        }
        other => panic!("unexpected {:?}", other),
    }
    match ctx.time_range() {
        Command::TimeRange { branch } => assert_eq!(branch.as_deref(), Some("feature")),
        other => panic!("unexpected {:?}", other),
    }
    assert_eq!(ctx.json_list(20, None, Some(s("c1")), None).kind(), CommandKind::JsonList);
}

#[test]
fn mismatched_output_is_reported() {
    let e = read_value(CommandKind::KvGet, Output::Keys(vec![])).unwrap_err();
    assert_eq!(e.message(), "Unexpected output for KvGet");
    assert_eq!(e.category(), None);
    let e = read_keys(CommandKind::StateList, Output::Bool(true)).unwrap_err();
    assert_eq!(e.message(), "Unexpected output for StateList");
}

#[test]
fn point_reads_decode_or_give_null() {
    let vv = VersionedValue { value: Value::Bytes(vec![1, 2, 3]), version: 1, timestamp: 2 };
    match read_value(CommandKind::KvGet, Output::MaybeVersioned(Some(vv))).unwrap() {
        HostValue::Str(x) => assert_eq!(x, "AQID"),
        other => panic!("unexpected {:?}", other),
    }
    assert!(matches!(read_value(CommandKind::StateGet, Output::Maybe(None)).unwrap(), HostValue::Null));
    assert!(matches!(latest_to_host(Some(vec![])), HostValue::Null));
    assert!(matches!(latest_to_host(None), HostValue::Null));
}

#[test]
fn json_page_has_keys_and_cursor() {
    match read_json_page(Output::Keys(vec![s("d1")])).unwrap() {
        HostValue::Object(fields) => {
            assert_eq!(fields[0].0, "keys");
            assert!(matches!(&fields[0].1, HostValue::Array(a) if a.len() == 1));
            assert_eq!(fields[1].0, "cursor");
            assert!(matches!(fields[1].1, HostValue::Null));
        }
        other => panic!("unexpected {:?}", other),
    }
}

#[test]
fn open_options_default_off() {
    let none = JsOpenOptions::settings(None);
    assert!(!none.auto_embed && !none.read_only);
    let some = JsOpenOptions::settings(Some(JsOpenOptions { auto_embed: None, read_only: Some(true) }));
    assert!(!some.auto_embed && some.read_only);
}

#[test]
fn unknown_collection_metric_text() {
    let e = collection_metric(&Some(s("manhattan"))).unwrap_err();
    assert!(matches!(e, BindingError::Invalid(InputError::UnknownMetric)));
    assert_eq!(e.category(), Some(Category::Validation));
    assert_eq!(e.message(), "[VALIDATION] Invalid metric");
    assert_eq!(collection_metric(&Some(s("dotproduct"))).unwrap(), DistanceMetric::DotProduct);
}

#[test]
fn search_reports_first_non_finite_query_element() {
    let q = vec![1.0f64.to_bits(), 2.0f64.to_bits(), f64::INFINITY.to_bits(), f64::NAN.to_bits()];
    let e = prepare_vector_search(s("c"), q, 2, None, None, None).unwrap_err();
    assert_eq!(e.message(), "[VALIDATION] Vector element at index 2 is not a finite number");
}

#[test]
fn writes_and_defaulted_commands_are_scoped() {
    let ctx = Context { branch: s("b1"), space: s("sp") };
    match ctx.kv_put(s("k"), Value::Int(1)) {
        Command::KvPut { branch, space, key, value } => {
            assert_eq!(branch.as_deref(), Some("b1"));
            assert_eq!(space.as_deref(), Some("sp"));
            assert_eq!(key, "k");
            assert!(matches!(value, Value::Int(1)));
        }
        other => panic!("unexpected {:?}", other),
    }
    match ctx.state_cas(s("c"), Some(3), Value::Null) {
        Command::StateCas { expected_version, space, .. } => {
            assert_eq!(expected_version, Some(3));
            assert_eq!(space.as_deref(), Some("sp"));
        }
        other => panic!("unexpected {:?}", other),
    }
    match ctx.state_delete(s("c")) {
        Command::StateDelete { branch, space, cell } => {
            assert_eq!(branch.as_deref(), Some("b1"));
            assert_eq!(space.as_deref(), Some("sp"));
            assert_eq!(cell, "c");
        }
        other => panic!("unexpected {:?}", other),
    }
    match ctx.search(s("q"), Some(7), None) {
        Command::Search { branch, space, k, .. } => {
            assert_eq!(branch.as_deref(), Some("b1"));
            assert_eq!(space.as_deref(), Some("sp"));
            assert_eq!(k, Some(7));
        }
        other => panic!("unexpected {:?}", other),
    }
    match ctx.space_create(s("new")) {
        Command::SpaceCreate { branch, space } => {
            assert_eq!(branch.as_deref(), Some("b1"));
            assert_eq!(space, "new");
        }
        other => panic!("unexpected {:?}", other),
    }
    assert!(matches!(ctx.space_exists(s("x")), Command::SpaceExists { branch: Some(_), .. }));
    match ctx.retention_apply() {
        Command::RetentionApply { branch } => assert_eq!(branch.as_deref(), Some("b1")),
        other => panic!("unexpected {:?}", other),
    }
    assert_eq!(ctx.vector_batch_upsert(s("c"), vec![]).kind(), CommandKind::VectorBatchUpsert);
    assert_eq!(ctx.json_delete(s("k"), s("$")).kind(), CommandKind::JsonDelete);
}
