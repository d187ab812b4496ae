//! The typed, ordered metadata store.

use qubit_metadata::{
    DataType, Date, DateTime, Duration, Instant, JsonNumber, JsonValue, Metadata, MetadataError,
    MetadataFilter, MetadataSchema, Time, Value,
};

fn nested_json() -> JsonValue {
    JsonValue::Object(vec![("nested".to_string(), JsonValue::Bool(true))])
}

#[test]
fn metadata_tests_new_is_empty() {
    let meta = Metadata::new();
    assert!(meta.is_empty());
    assert_eq!(meta.len(), 0);
}

#[test]
fn metadata_tests_default_is_empty() {
    let meta = Metadata::default();
    assert!(meta.is_empty());
}

#[test]
fn with_builds_metadata_fluently() {
    let meta = Metadata::new()
        .with("author", "alice")
        .with("priority", 42_i64)
        .with("reviewed", true);
    assert_eq!(meta.get::<String>("author").as_deref(), Some("alice"));
    assert_eq!(meta.get::<i64>("priority"), Some(42));
    assert_eq!(meta.get::<bool>("reviewed"), Some(true));
}

#[test]
fn set_and_get_scalar_values() {
    let mut meta = Metadata::new();
    meta.set("author", "alice");
    meta.set("priority", 42_i64);
    meta.set("reviewed", true);
    meta.set("score", Value::Float64(std::f64::consts::PI.to_bits()));
    assert_eq!(meta.get::<String>("author").as_deref(), Some("alice"));
    assert_eq!(meta.get::<i64>("priority"), Some(42));
    assert_eq!(meta.get::<bool>("reviewed"), Some(true));
    match meta.get_raw("score") {
        Some(Value::Float64(bits)) => {
            assert!((f64::from_bits(*bits) - std::f64::consts::PI).abs() < 1e-10)
        }
        other => panic!("unexpected value {other:?}"),
    }
}

#[test]
fn metadata_tests_set_overwrites_previous_value() {
    let mut meta = Metadata::new();
    meta.set("key", "first");
    let old = meta.set("key", "second");
    assert_eq!(old, Some(Value::String("first".to_string())));
    assert_eq!(meta.get::<String>("key").as_deref(), Some("second"));
}

#[test]
fn metadata_tests_get_missing_key_returns_none() {
    let meta = Metadata::new();
    let value: Option<String> = meta.get("missing");
    assert!(value.is_none());
}

#[test]
fn metadata_tests_get_wrong_type_returns_none() {
    let mut meta = Metadata::new();
    meta.set("key", "not-a-number");
    let value: Option<i64> = meta.get("key");
    assert!(value.is_none());
}

#[test]
fn try_get_missing_key_reports_error() {
    let meta = Metadata::new();
    let error = meta.try_get::<String>("missing").unwrap_err();
    assert_eq!(error, MetadataError::MissingKey("missing".to_string()));
}

#[test]
fn try_get_type_mismatch_reports_expected_and_actual_type() {
    let mut meta = Metadata::new();
    meta.set("key", "not-a-number");
    let error = meta.try_get::<i64>("key").unwrap_err();
    match error {
        MetadataError::TypeMismatch { key, expected, actual, message } => {
            assert_eq!(key, "key");
            assert_eq!(expected, DataType::Int64);
            assert_eq!(actual, DataType::String);
            assert!(!message.is_empty());
            assert_eq!(message, "Type mismatch: expected int64, actual string");
        }
        other => panic!("expected TypeMismatch, got {other:?}"),
    }
}

#[test]
fn get_or_returns_default_for_missing_key_or_type_mismatch() {
    let mut meta = Metadata::new();
    meta.set("key", "text");
    assert_eq!(meta.get_or("missing", 42_i64), 42);
    assert_eq!(meta.get_or("key", 7_i64), 7);
}

#[test]
fn set_checked_returns_previous_value() {
    let schema = MetadataSchema::builder().required("key", DataType::String).build();
    let mut meta = Metadata::new();
    meta.set_checked(&schema, "key", "first").unwrap();
    let old = meta.set_checked(&schema, "key", "second").unwrap();
    assert_eq!(old, Some(Value::String("first".to_string())));
}

#[test]
fn set_checked_rejects_type_mismatch() {
    let schema = MetadataSchema::builder().required("key", DataType::String).build();
    let mut meta = Metadata::new();
    let error = meta.set_checked(&schema, "key", 1_i64).unwrap_err();
    match error {
        MetadataError::TypeMismatch { key, expected, actual, message } => {
            assert_eq!(key, "key");
            assert_eq!(expected, DataType::String);
            assert_eq!(actual, DataType::Int64);
            assert_eq!(message, "expected string, got int64");
        }
        other => panic!("expected TypeMismatch, got {other:?}"),
    }
    assert!(meta.is_empty());
}

#[test]
fn with_checked_rejects_unknown_field() {
    let schema = MetadataSchema::builder().required("known", DataType::String).build();
    let error = Metadata::new().with_checked(&schema, "unknown", "value").unwrap_err();
    assert_eq!(error, MetadataError::UnknownField { key: "unknown".to_string() });
}

#[test]
fn get_raw_and_set_raw_use_qubit_value() {
    let mut meta = Metadata::new();
    meta.set_raw("raw", Value::Json(nested_json()));
    assert_eq!(meta.get_raw("raw"), Some(&Value::Json(nested_json())));
    assert_eq!(meta.get::<JsonValue>("raw").map(Value::Json), Some(Value::Json(nested_json())));
}

#[test]
fn with_raw_builds_metadata_fluently() {
    let meta = Metadata::new().with_raw("raw", Value::Json(nested_json()));
    assert_eq!(meta.get_raw("raw"), Some(&Value::Json(nested_json())));
}

#[test]
fn data_type_reports_value_data_type() {
    let mut meta = Metadata::new();
    meta.set("flag", true);
    meta.set("count", 7_i64);
    meta.set("name", "alice");
    meta.set_raw("payload", Value::Json(nested_json()));
    assert_eq!(meta.data_type("flag"), Some(DataType::Bool));
    assert_eq!(meta.data_type("count"), Some(DataType::Int64));
    assert_eq!(meta.data_type("name"), Some(DataType::String));
    assert_eq!(meta.data_type("payload"), Some(DataType::Json));
    assert_eq!(meta.data_type("missing"), None);
}

#[test]
fn metadata_error_display_messages_are_human_readable() {
    let missing = MetadataError::MissingKey("missing".to_string());
    assert_eq!(missing.to_string(), "Metadata key not found: missing");

    let mismatch = MetadataError::TypeMismatch {
        key: "answer".to_string(),
        expected: DataType::Int64,
        actual: DataType::String,
        message: "invalid type".to_string(),
    };
    assert_eq!(
        mismatch.to_string(),
        "Metadata key 'answer' expected int64 but actual string: invalid type"
    );
}

#[test]
fn contains_key_and_len_track_entries() {
    let mut meta = Metadata::new();
    assert!(!meta.contains_key("k"));
    assert_eq!(meta.len(), 0);
    meta.set("k", "v");
    assert!(meta.contains_key("k"));
    assert_eq!(meta.len(), 1);
    meta.set("k", "new");
    assert_eq!(meta.len(), 1);
}

#[test]
fn remove_and_clear_work() {
    let mut meta = Metadata::new();
    meta.set("a", 1_i64);
    meta.set("b", 2_i64);
    assert_eq!(meta.remove("a"), Some(Value::Int64(1)));
    assert!(!meta.contains_key("a"));
    meta.clear();
    assert!(meta.is_empty());
}

#[test]
fn iterators_return_sorted_entries() {
    let mut meta = Metadata::new();
    meta.set("z", "last");
    meta.set("a", 1_i64);
    meta.set("m", true);

    let keys: Vec<&str> = meta.iter().into_iter().map(|(key, _)| key).collect();
    assert_eq!(keys, vec!["a", "m", "z"]);

    let keys: Vec<&str> = meta.keys();
    assert_eq!(keys, vec!["a", "m", "z"]);

    let values: Vec<&Value> = meta.values();
    assert_eq!(
        values,
        vec![&Value::Int64(1), &Value::Bool(true), &Value::String("last".to_string())]
    );
}

#[test]
fn metadata_tests_into_iter_consumes_metadata() {
    let mut meta = Metadata::new();
    meta.set("x", 10_i64);
    let pairs: Vec<(String, Value)> = meta.into_inner();
    assert_eq!(pairs, vec![("x".to_string(), Value::Int64(10))]);
}

#[test]
fn ref_into_iter_counts_entries() {
    let mut meta = Metadata::new();
    meta.set("k", "v");
    assert_eq!(meta.iter().len(), 1);
}

#[test]
fn merge_and_merged_work() {
    let mut a = Metadata::new();
    a.set("x", 1_i64);
    let mut b = Metadata::new();
    b.set("y", 2_i64);

    let c = a.merged(&b);
    assert_eq!(a.len(), 1);
    assert_eq!(c.len(), 2);

    a.merge(b);
    assert_eq!(a.get::<i64>("x"), Some(1));
    assert_eq!(a.get::<i64>("y"), Some(2));
}

#[test]
fn metadata_tests_merge_overwrites_on_conflict() {
    let mut a = Metadata::new();
    a.set("k", "original");
    let mut b = Metadata::new();
    b.set("k", "overwritten");
    a.merge(b);
    assert_eq!(a.get::<String>("k").as_deref(), Some("overwritten"));
}

#[test]
fn metadata_tests_retain_keeps_matching_entries() {
    let mut meta = Metadata::new();
    meta.set("a", 1_i64);
    meta.set("b", 2_i64);
    meta.set("c", 3_i64);
    meta.retain(|key, _| key != "b");
    assert!(!meta.contains_key("b"));
    assert_eq!(meta.len(), 2);
}

#[test]
fn btreemap_conversions_work() {
    let meta = Metadata::from_entries(vec![("k".to_string(), Value::String("v".to_string()))]);
    assert_eq!(meta.get::<String>("k").as_deref(), Some("v"));
    let entries = meta.into_inner();
    assert_eq!(entries, vec![("k".to_string(), Value::String("v".to_string()))]);
}

#[test]
fn into_inner_returns_underlying_map() {
    let mut meta = Metadata::new();
    meta.set("k", 1_i64);
    let inner = meta.into_inner();
    assert_eq!(inner, vec![("k".to_string(), Value::Int64(1))]);
}

#[test]
fn from_iterator_and_extend_work() {
    let pairs = vec![("a".to_string(), Value::Int64(1)), ("b".to_string(), Value::Int64(2))];
    let mut meta = Metadata::from_entries(pairs);
    meta.extend(vec![("c".to_string(), Value::Int64(3))]);
    assert_eq!(meta.len(), 3);
}

#[test]
fn metadata_tests_clone_is_independent() {
    let mut original = Metadata::new();
    original.set("k", "v");
    let mut cloned = original.clone();
    cloned.set("k", "changed");
    assert_eq!(original.get::<String>("k").as_deref(), Some("v"));
}

#[test]
fn partial_eq_compares_values() {
    let mut a = Metadata::new();
    a.set("x", 1_i64);
    let mut b = Metadata::new();
    b.set("x", 1_i64);
    assert_eq!(a, b);
    b.set("x", 2_i64);
    assert_ne!(a, b);
}

#[test]
fn test_metadata_new_is_empty() {
    let meta = Metadata::new();
    assert!(meta.is_empty());
    assert_eq!(meta.len(), 0);
}

#[test]
fn test_metadata_default_is_empty() {
    assert!(Metadata::default().is_empty());
}

#[test]
fn set_and_get_string() {
    let mut meta = Metadata::new();
    meta.set("author", "alice");
    let v: Option<String> = meta.get("author");
    assert_eq!(v.as_deref(), Some("alice"));
}

#[test]
fn set_and_get_i64() {
    let mut meta = Metadata::new();
    meta.set("priority", 42_i64);
    let v: Option<i64> = meta.get("priority");
    assert_eq!(v, Some(42));
}

#[test]
fn set_and_get_bool() {
    let mut meta = Metadata::new();
    meta.set("reviewed", true);
    let v: Option<bool> = meta.get("reviewed");
    assert_eq!(v, Some(true));
}

#[test]
fn set_and_get_f64() {
    let mut meta = Metadata::new();
    meta.set("score", Value::Float64(3.14_f64.to_bits()));
    match meta.get_raw("score") {
        Some(Value::Float64(bits)) => assert!((f64::from_bits(*bits) - 3.14).abs() < 1e-10),
        other => panic!("unexpected value {other:?}"),
    }
}

#[test]
fn test_metadata_set_overwrites_previous_value() {
    let mut meta = Metadata::new();
    meta.set("key", "first");
    let old = meta.set("key", "second");
    assert_eq!(old, Some(Value::String("first".to_string())));
    let v: Option<String> = meta.get("key");
    assert_eq!(v.as_deref(), Some("second"));
}

#[test]
fn test_metadata_get_missing_key_returns_none() {
    let meta = Metadata::new();
    let v: Option<String> = meta.get("missing");
    assert!(v.is_none());
}

#[test]
fn test_metadata_get_wrong_type_returns_none() {
    let mut meta = Metadata::new();
    meta.set("key", "not-a-number");
    let v: Option<i64> = meta.get("key");
    assert!(v.is_none());
}

#[test]
fn get_raw_returns_value_ref() {
    let mut meta = Metadata::new();
    meta.set("x", 1_i64);
    assert_eq!(meta.get_raw("x"), Some(&Value::Int64(1)));
}

#[test]
fn set_raw_inserts_value() {
    let mut meta = Metadata::new();
    meta.set_raw("raw", Value::Json(nested_json()));
    assert_eq!(meta.get_raw("raw"), Some(&Value::Json(nested_json())));
}

#[test]
fn contains_key() {
    let mut meta = Metadata::new();
    assert!(!meta.contains_key("k"));
    meta.set("k", "v");
    assert!(meta.contains_key("k"));
}

#[test]
fn len_tracks_entries() {
    let mut meta = Metadata::new();
    assert_eq!(meta.len(), 0);
    meta.set("a", 1_i64);
    assert_eq!(meta.len(), 1);
    meta.set("b", 2_i64);
    assert_eq!(meta.len(), 2);
    meta.set("a", 99_i64);
    assert_eq!(meta.len(), 2);
}

#[test]
fn remove_existing_key() {
    let mut meta = Metadata::new();
    meta.set("k", "v");
    let removed = meta.remove("k");
    assert_eq!(removed, Some(Value::String("v".to_string())));
    assert!(!meta.contains_key("k"));
}

#[test]
fn remove_missing_key_returns_none() {
    let mut meta = Metadata::new();
    assert!(meta.remove("missing").is_none());
}

#[test]
fn clear_empties_metadata() {
    let mut meta = Metadata::new();
    meta.set("a", 1_i64);
    meta.set("b", 2_i64);
    meta.clear();
    assert!(meta.is_empty());
}

#[test]
fn iter_returns_sorted_pairs() {
    let mut meta = Metadata::new();
    meta.set("z", "last");
    meta.set("a", "first");
    meta.set("m", "middle");
    let keys: Vec<&str> = meta.iter().into_iter().map(|(k, _)| k).collect();
    assert_eq!(keys, vec!["a", "m", "z"]);
}

#[test]
fn keys_iterator() {
    let mut meta = Metadata::new();
    meta.set("b", 1_i64);
    meta.set("a", 2_i64);
    assert_eq!(meta.keys(), vec!["a", "b"]);
}

#[test]
fn values_iterator() {
    let mut meta = Metadata::new();
    meta.set("a", 1_i64);
    meta.set("b", 2_i64);
    assert_eq!(meta.values(), vec![&Value::Int64(1), &Value::Int64(2)]);
}

#[test]
fn test_metadata_into_iter_consumes_metadata() {
    let mut meta = Metadata::new();
    meta.set("x", 10_i64);
    assert_eq!(meta.into_inner(), vec![("x".to_string(), Value::Int64(10))]);
}

#[test]
fn ref_into_iter() {
    let mut meta = Metadata::new();
    meta.set("k", "v");
    assert_eq!(meta.iter().len(), 1);
}

#[test]
fn merge_adds_entries_from_other() {
    let mut a = Metadata::new();
    a.set("x", 1_i64);
    let mut b = Metadata::new();
    b.set("y", 2_i64);
    a.merge(b);
    assert_eq!(a.len(), 2);
    assert_eq!(a.get::<i64>("x"), Some(1));
    assert_eq!(a.get::<i64>("y"), Some(2));
}

#[test]
fn test_metadata_merge_overwrites_on_conflict() {
    let mut a = Metadata::new();
    a.set("k", "original");
    let mut b = Metadata::new();
    b.set("k", "overwritten");
    a.merge(b);
    assert_eq!(a.get::<String>("k").as_deref(), Some("overwritten"));
}

#[test]
fn merged_does_not_mutate_self() {
    let mut a = Metadata::new();
    a.set("x", 1_i64);
    let mut b = Metadata::new();
    b.set("y", 2_i64);
    let c = a.merged(&b);
    assert_eq!(a.len(), 1);
    assert_eq!(c.len(), 2);
}

#[test]
fn test_metadata_retain_keeps_matching_entries() {
    let mut meta = Metadata::new();
    meta.set("a", 1_i64);
    meta.set("b", 2_i64);
    meta.set("c", 3_i64);
    meta.retain(|k, _| k != "b");
    assert!(!meta.contains_key("b"));
    assert_eq!(meta.len(), 2);
}

#[test]
fn from_btreemap() {
    let meta = Metadata::from_entries(vec![("k".to_string(), Value::String("v".to_string()))]);
    assert_eq!(meta.get::<String>("k").as_deref(), Some("v"));
}

#[test]
fn into_btreemap() {
    let mut meta = Metadata::new();
    meta.set("k", "v");
    let entries = meta.into_inner();
    assert_eq!(entries, vec![("k".to_string(), Value::String("v".to_string()))]);
}

#[test]
fn into_inner() {
    let mut meta = Metadata::new();
    meta.set("k", 1_i64);
    assert_eq!(meta.into_inner(), vec![("k".to_string(), Value::Int64(1))]);
}

#[test]
fn from_iterator() {
    let pairs = vec![("a".to_string(), Value::Int64(1)), ("b".to_string(), Value::Int64(2))];
    let meta = Metadata::from_entries(pairs);
    assert_eq!(meta.len(), 2);
}

#[test]
fn extend() {
    let mut meta = Metadata::new();
    meta.set("a", 1_i64);
    meta.extend(vec![("b".to_string(), Value::Int64(2)), ("c".to_string(), Value::Int64(3))]);
    assert_eq!(meta.len(), 3);
}

#[test]
fn test_metadata_clone_is_independent() {
    let mut original = Metadata::new();
    original.set("k", "v");
    let mut cloned = original.clone();
    cloned.set("k", "changed");
    assert_eq!(original.get::<String>("k").as_deref(), Some("v"));
}

#[test]
fn partial_eq() {
    let mut a = Metadata::new();
    a.set("x", 1_i64);
    let mut b = Metadata::new();
    b.set("x", 1_i64);
    assert_eq!(a, b);
    b.set("x", 2_i64);
    assert_ne!(a, b);
}

#[test]
fn later_entries_win_when_built_from_pairs() {
    let meta = Metadata::from_entries(vec![
        ("k".to_string(), Value::Int64(1)),
        ("k".to_string(), Value::Int64(2)),
    ]);
    assert_eq!(meta.len(), 1);
    assert_eq!(meta.get::<i64>("k"), Some(2));
}

#[test]
fn json_numbers_compare_negative_zero_equal() {
    let a = Value::Json(JsonValue::Number(JsonNumber::Float(0x8000_0000_0000_0000)));
    let b = Value::Json(JsonValue::Number(JsonNumber::Float(0)));
    assert_eq!(a, b);
}

#[test]
fn temporal_and_url_values_round_trip_through_typed_reads() {
    let date = Date { year: 2024, month: 2, day: 29 };
    let time = Time { hour: 23, minute: 59, second: 58, nanosecond: 5 };
    let meta = Metadata::new()
        .with("d", date)
        .with("t", time)
        .with("dt", DateTime { date, time })
        .with("i", Instant { seconds: -1, nanosecond: 7 })
        .with("s", Duration { seconds: 3, nanosecond: 0 })
        .with_raw("u", Value::Url("https://example.com/a".to_string()));
    assert_eq!(meta.get::<Date>("d"), Some(date));
    assert_eq!(meta.get::<Time>("t"), Some(time));
    assert_eq!(meta.get::<DateTime>("dt"), Some(DateTime { date, time }));
    assert_eq!(meta.get::<Instant>("i"), Some(Instant { seconds: -1, nanosecond: 7 }));
    assert_eq!(meta.get::<Duration>("s"), Some(Duration { seconds: 3, nanosecond: 0 }));
    assert_eq!(meta.get::<Date>("t"), None);
    assert_eq!(meta.data_type("u"), Some(DataType::Url));
    assert_eq!(meta.data_type("dt"), Some(DataType::DateTime));
    assert!(MetadataFilter::eq("d", date).matches(&meta));
    assert!(!MetadataFilter::eq("d", Date { year: 2024, month: 3, day: 1 }).matches(&meta));
    assert!(!MetadataFilter::gt("d", date).matches(&meta));
}
