//! Error messages and JSON value classes.

use std::collections::hash_map::DefaultHasher;
use std::hash::{Hash, Hasher};
use std::str::FromStr;

use qubit_metadata::{DataType, JsonNumber, JsonValue, MetadataError, MetadataResult, MetadataValueType};

#[test]
fn display_formats_all_variants() {
    assert_eq!(MetadataError::MissingKey("k".to_string()).to_string(), "Metadata key not found: k");

    let mismatch = MetadataError::TypeMismatch {
        key: "b".to_string(),
        expected: DataType::Bool,
        actual: DataType::Int64,
        message: "bad".to_string(),
    };
    assert_eq!(mismatch.to_string(), "Metadata key 'b' expected bool but actual int64: bad");

    let missing = MetadataError::MissingRequiredField { key: "score".to_string(), expected: DataType::Int64 };
    assert_eq!(missing.to_string(), "Required metadata key 'score' is missing (expected int64)");

    let unknown = MetadataError::UnknownField { key: "extra".to_string() };
    assert_eq!(unknown.to_string(), "Metadata key 'extra' is not defined in schema");

    let unknown_filter = MetadataError::UnknownFilterField { key: "extra".to_string() };
    assert_eq!(
        unknown_filter.to_string(),
        "Metadata filter references key 'extra' not defined in schema"
    );

    let invalid_operator = MetadataError::InvalidFilterOperator {
        key: "active".to_string(),
        operator: "gt",
        data_type: DataType::Bool,
        message: "range operators require a numeric or string field".to_string(),
    };
    assert_eq!(
        invalid_operator.to_string(),
        "Metadata filter operator 'gt' is invalid for key 'active' with type bool: range operators require a numeric or string field"
    );

    let invalid_expression = MetadataError::InvalidFilterExpression {
        message: "empty 'and' filter group is not allowed".to_string(),
    };
    assert_eq!(
        invalid_expression.to_string(),
        "Metadata filter expression is invalid: empty 'and' filter group is not allowed"
    );
}

#[test]
fn partial_eq_distinct_missing_keys() {
    assert_eq!(MetadataError::MissingKey("a".to_string()), MetadataError::MissingKey("a".to_string()));
    assert_ne!(MetadataError::MissingKey("a".to_string()), MetadataError::MissingKey("b".to_string()));
}

#[test]
fn metadata_result_alias_compiles() {
    let value: MetadataResult<i32> = Ok(7);
    assert!(matches!(value, Ok(7)));
}

#[test]
fn data_type_names_are_lower_case() {
    assert_eq!(DataType::UInt128.as_str(), "uint128");
    assert_eq!(DataType::BigDecimal.as_str(), "bigdecimal");
    assert_eq!(DataType::DateTime.as_str(), "datetime");
}

fn obj(members: Vec<(&str, JsonValue)>) -> JsonValue {
    JsonValue::Object(members.into_iter().map(|(k, v)| (k.to_string(), v)).collect())
}

#[test]
fn of_classifies_all_json_variants() {
    assert_eq!(MetadataValueType::of(&JsonValue::Null), MetadataValueType::Null);
    assert_eq!(MetadataValueType::of(&JsonValue::Bool(false)), MetadataValueType::Bool);
    assert_eq!(MetadataValueType::of(&JsonValue::Number(JsonNumber::PosInt(0))), MetadataValueType::Number);
    assert_eq!(
        MetadataValueType::of(&JsonValue::Number(JsonNumber::Float((-1.5f64).to_bits()))),
        MetadataValueType::Number
    );
    assert_eq!(MetadataValueType::of(&JsonValue::String("x".to_string())), MetadataValueType::String);
    assert_eq!(MetadataValueType::of(&JsonValue::Array(vec![])), MetadataValueType::Array);
    assert_eq!(
        MetadataValueType::of(&JsonValue::Array(vec![
            JsonValue::Number(JsonNumber::PosInt(1)),
            JsonValue::Number(JsonNumber::PosInt(2)),
        ])),
        MetadataValueType::Array
    );
    assert_eq!(MetadataValueType::of(&obj(vec![])), MetadataValueType::Object);
    assert_eq!(
        MetadataValueType::of(&obj(vec![("a", JsonValue::Number(JsonNumber::PosInt(1)))])),
        MetadataValueType::Object
    );
}

#[test]
fn from_matches_of() {
    let v = obj(vec![("nested", JsonValue::Array(vec![JsonValue::Bool(true), JsonValue::Null]))]);
    assert_eq!(MetadataValueType::from(&v), MetadataValueType::of(&v));
}

#[test]
fn display_uses_lowercase_json_type_names() {
    assert_eq!(MetadataValueType::Null.to_string(), "null");
    assert_eq!(MetadataValueType::Bool.to_string(), "bool");
    assert_eq!(MetadataValueType::Number.to_string(), "number");
    assert_eq!(MetadataValueType::String.to_string(), "string");
    assert_eq!(MetadataValueType::Array.to_string(), "array");
    assert_eq!(MetadataValueType::Object.to_string(), "object");
}

#[test]
fn from_str_uses_lowercase_snake_case() {
    assert_eq!(MetadataValueType::from_str("null").unwrap(), MetadataValueType::Null);
    assert_eq!(MetadataValueType::from_str("BOOL").unwrap(), MetadataValueType::Bool);
    assert_eq!(MetadataValueType::from_str("number").unwrap(), MetadataValueType::Number);
    assert_eq!(MetadataValueType::from_str("object").unwrap(), MetadataValueType::Object);
}

#[test]
fn from_str_invalid_value() {
    assert!(MetadataValueType::from_str("str").is_err());
}

#[test]
fn from_str_accepts_mixed_case_and_long_s() {
    assert_eq!(MetadataValueType::from_str("ArRaY").unwrap(), MetadataValueType::Array);
    assert_eq!(MetadataValueType::from_str("\u{17f}tring").unwrap(), MetadataValueType::String);
    assert!(MetadataValueType::from_str("nulls").is_err());
    assert!(MetadataValueType::from_str("").is_err());
}

#[test]
fn equality_and_hash_consistent() {
    let a = MetadataValueType::String;
    let b = MetadataValueType::String;
    assert_eq!(a, b);

    let mut h1 = DefaultHasher::new();
    let mut h2 = DefaultHasher::new();
    a.hash(&mut h1);
    b.hash(&mut h2);
    assert_eq!(h1.finish(), h2.finish());
}
