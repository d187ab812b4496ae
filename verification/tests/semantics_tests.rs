//! Numeric semantics, wire format and cross-operation properties on
//! concrete values.

use qubit_metadata::compare::{compare_numbers, compare_values, values_equal};
use qubit_metadata::expr::FilterExpr;
use qubit_metadata::text::Order;
use qubit_metadata::wire::{FilterExprWire, MetadataFilterWire};
use qubit_metadata::{
    compare_i128_u128, compare_i64_u64, metadata_filter_wire_version, BigDecimal, BigInteger,
    FilterMatchOptions, JsonNumber, JsonValue, Metadata, MetadataFilter, MissingKeyPolicy,
    NumberComparisonPolicy, Value,
};

const C: NumberComparisonPolicy = NumberComparisonPolicy::Conservative;
const A: NumberComparisonPolicy = NumberComparisonPolicy::Approximate;

fn f64v(x: f64) -> Value {
    Value::Float64(x.to_bits())
}

fn dec(int_val: i128, scale: i64) -> Value {
    Value::BigDecimal(BigDecimal { int_val: BigInteger::from_i128(int_val), scale })
}

#[test]
fn signed_unsigned_comparisons_are_exact() {
    assert_eq!(compare_i64_u64(-1, 0), Order::Less);
    assert_eq!(compare_i64_u64(5, 5), Order::Equal);
    assert_eq!(compare_i64_u64(i64::MAX, i64::MAX as u64 + 1), Order::Less);
    assert_eq!(compare_i64_u64(7, 3), Order::Greater);
    assert_eq!(compare_i128_u128(i128::MIN, 0), Order::Less);
    assert_eq!(compare_i128_u128(i128::MAX, i128::MAX as u128), Order::Equal);
    assert_eq!(compare_i128_u128(i128::MAX, u128::MAX), Order::Less);
}

#[test]
fn wire_version_is_one() {
    assert_eq!(metadata_filter_wire_version(), 1);
}

#[test]
fn missing_key_policy_decides_negative_predicates() {
    assert!(MissingKeyPolicy::Match.matches_negative_predicates());
    assert!(!MissingKeyPolicy::NoMatch.matches_negative_predicates());
}

#[test]
fn floats_compare_as_ieee() {
    assert_eq!(compare_values(&f64v(0.0), &f64v(-0.0), C), Some(Order::Equal));
    assert_eq!(compare_values(&f64v(f64::NAN), &f64v(1.0), C), None);
    assert_eq!(compare_values(&f64v(f64::INFINITY), &f64v(f64::MAX), C), Some(Order::Greater));
    assert_eq!(
        compare_values(&Value::Float32(0.1f32.to_bits()), &f64v(0.1), C),
        Some(Order::Greater)
    );
    assert!(!values_equal(&f64v(f64::NAN), &f64v(f64::NAN), C));
}

#[test]
fn integers_against_floats() {
    assert_eq!(compare_values(&Value::Int64(3), &f64v(3.5), C), Some(Order::Less));
    assert_eq!(compare_values(&f64v(3.5), &Value::Int64(3), C), Some(Order::Greater));
    assert_eq!(compare_values(&Value::UInt64(5), &f64v(-0.5), C), Some(Order::Greater));
    assert_eq!(compare_values(&Value::Int64(i64::MIN), &f64v(-9_223_372_036_854_775_808.0), C), Some(Order::Equal));
    assert_eq!(compare_values(&Value::Int64(1), &f64v(f64::NAN), C), None);
    assert_eq!(compare_values(&Value::Int64(i64::MAX), &f64v(0.5), C), None);
    assert_eq!(compare_values(&Value::Int64(i64::MAX), &f64v(0.5), A), Some(Order::Greater));
    assert!(values_equal(&Value::Int32(10), &f64v(10.0), C));
}

#[test]
fn strings_and_other_values() {
    assert_eq!(
        compare_values(&Value::String("abc".to_string()), &Value::String("abd".to_string()), C),
        Some(Order::Less)
    );
    assert_eq!(
        compare_values(&Value::String("ab".to_string()), &Value::String("a".to_string()), C),
        Some(Order::Greater)
    );
    assert_eq!(compare_values(&Value::Bool(true), &Value::Bool(false), C), None);
    assert_eq!(compare_values(&Value::String("1".to_string()), &Value::Int64(1), C), None);
    assert!(values_equal(&Value::Bool(true), &Value::Bool(true), C));
    assert!(!values_equal(&Value::String("1".to_string()), &Value::Int64(1), C));
    assert!(values_equal(&Value::UInt8(200), &Value::Int128(200), C));
}

#[test]
fn big_decimals_compare_by_value() {
    assert!(values_equal(&dec(10, 1), &dec(1, 0), C));
    assert!(values_equal(&dec(100, 2), &Value::Int64(1), C));
    assert_eq!(compare_values(&dec(-15, 1), &Value::Int8(-1), C), Some(Order::Less));
    assert_eq!(compare_values(&dec(1, -2), &Value::Int64(99), C), Some(Order::Greater));
    assert!(!values_equal(&dec(10, 1), &f64v(1.0), C));
    assert!(values_equal(&dec(10, 1), &f64v(1.0), A));
    assert_eq!(compare_values(&dec(25, 1), &f64v(2.4), A), Some(Order::Greater));
    assert_eq!(
        compare_values(&Value::BigInteger(BigInteger::from_i128(-7)), &f64v(-7.5), A),
        Some(Order::Greater)
    );
}

#[test]
fn big_integers_compare_exactly() {
    let big = BigInteger::from_parts(false, vec![0, 0, 0, 0, 1]);
    assert_eq!(
        compare_values(&Value::BigInteger(big), &Value::UInt128(u128::MAX), C),
        Some(Order::Greater)
    );
    let negative = BigInteger::from_parts(true, vec![5, 0, 0]);
    assert!(values_equal(&Value::BigInteger(negative), &Value::Int64(-5), C));
    let zero = BigInteger::from_parts(true, vec![0, 0]);
    assert!(!zero.is_negative());
    assert!(zero.magnitude().is_empty());
}

#[test]
fn json_payloads_compare_structurally() {
    let a = Value::Json(JsonValue::Array(vec![
        JsonValue::Number(JsonNumber::PosInt(1)),
        JsonValue::String("x".to_string()),
    ]));
    let b = Value::Json(JsonValue::Array(vec![
        JsonValue::Number(JsonNumber::PosInt(1)),
        JsonValue::String("x".to_string()),
    ]));
    let c = Value::Json(JsonValue::Array(vec![JsonValue::Number(JsonNumber::PosInt(1))]));
    assert!(values_equal(&a, &b, C));
    assert!(!values_equal(&a, &c, C));
    assert_eq!(compare_values(&a, &b, C), None);
}

#[test]
fn negation_inverts_on_concrete_values() {
    let meta = Metadata::new().with("status", "active");
    for f in [
        MetadataFilter::eq("status", "active"),
        MetadataFilter::eq("status", "other"),
        MetadataFilter::all(),
        MetadataFilter::none(),
        MetadataFilter::eq("status", "active").not(),
    ] {
        let before = f.matches(&meta);
        assert_eq!(f.not().matches(&meta), !before);
    }
}

#[test]
fn and_or_combine_on_concrete_values() {
    let meta = Metadata::new().with("a", 1_i64).with("b", 2_i64);
    let yes = || MetadataFilter::eq("a", 1_i64);
    let no = || MetadataFilter::eq("b", 1_i64);
    assert!(yes().and(yes()).matches(&meta));
    assert!(!yes().and(no()).matches(&meta));
    assert!(yes().or(no()).matches(&meta));
    assert!(!no().or(no()).matches(&meta));
    assert!(MetadataFilter::all().and(yes()).matches(&meta));
    assert!(!MetadataFilter::all().and(no()).matches(&meta));
    assert!(MetadataFilter::all().or(no()).matches(&meta));
    assert!(!MetadataFilter::none().or(no()).matches(&meta));
}

#[test]
fn missing_key_policy_leaves_positive_predicates_alone() {
    let meta = Metadata::new();
    let strict = FilterMatchOptions {
        missing_key_policy: MissingKeyPolicy::NoMatch,
        number_comparison_policy: C,
    };
    let f = MetadataFilter::not_exists("k");
    assert!(f.matches_with_options(&meta, strict));
    assert!(f.matches(&meta));
    let g = MetadataFilter::in_values("k", Vec::<i64>::new()).unwrap();
    assert!(!g.matches_with_options(&meta, strict));
    assert!(!g.matches(&meta));
    let h = MetadataFilter::not_in_values("k", vec![1_i64]).unwrap();
    assert!(h.matches_with_policies(&meta, MissingKeyPolicy::Match, C));
    assert!(!h.matches_with_policies(&meta, MissingKeyPolicy::NoMatch, C));
}

#[test]
fn wire_round_trip_keeps_filters() {
    let meta = Metadata::new().with("score", 42_i64).with("tag", "rust");
    let f = MetadataFilter::builder()
        .ge("score", 10_i64)
        .and(|g| g.eq("tag", "rust").or_eq("tag", "go"))
        .not()
        .missing_key_policy(MissingKeyPolicy::NoMatch)
        .build()
        .unwrap();
    let w = MetadataFilterWire::from_filter(&f);
    assert_eq!(w.version, 1);
    let g = w.into_filter().unwrap();
    assert_eq!(g.options(), f.options());
    assert_eq!(g.matches(&meta), f.matches(&meta));
    assert!(!g.matches(&meta));
}

#[test]
fn wire_rejects_other_versions() {
    let f = MetadataFilter::all();
    for (version, text) in [(0u8, "0"), (2, "2"), (42, "42"), (255, "255")] {
        let mut w = MetadataFilterWire::from_filter(&f);
        w.version = version;
        let error = w.into_filter().unwrap_err();
        assert_eq!(
            error,
            format!("unsupported MetadataFilter wire format version {text}; expected 1")
        );
    }
}

#[test]
fn wire_rejects_empty_groups_in_order() {
    let nested = FilterExprWire::Not {
        expr: Box::new(FilterExprWire::And {
            children: vec![FilterExprWire::False, FilterExprWire::Or { children: vec![] }],
        }),
    };
    assert_eq!(nested.into_expr().unwrap_err(), "empty 'or' filter group is not allowed");
    let empty_and = FilterExprWire::And { children: vec![] };
    assert_eq!(empty_and.into_expr().unwrap_err(), "empty 'and' filter group is not allowed");
    let fine = FilterExprWire::Or { children: vec![FilterExprWire::False] };
    assert!(matches!(fine.into_expr(), Ok(FilterExpr::Or(_))));
}

#[test]
fn builder_errors_keep_the_first_one() {
    let error = MetadataFilter::builder()
        .or(|g| g)
        .and(|g| g)
        .eq("a", 1_i64)
        .build()
        .unwrap_err();
    assert_eq!(error.to_string(), "Metadata filter expression is invalid: empty 'or' filter group is not allowed");
    let nested = MetadataFilter::builder()
        .eq("a", 1_i64)
        .and(|g| g.eq("b", 2_i64).or_not(|h| h))
        .build()
        .unwrap_err();
    assert_eq!(
        nested.to_string(),
        "Metadata filter expression is invalid: empty 'or_not' filter group is not allowed"
    );
}

#[test]
fn or_not_group_accepts_the_complement() {
    let meta = Metadata::new().with("a", 1_i64);
    let f = MetadataFilter::builder()
        .eq("a", 2_i64)
        .or_not(|g| g.eq("a", 3_i64))
        .build()
        .unwrap();
    assert!(f.matches(&meta));
    let h = MetadataFilter::builder()
        .eq("a", 1_i64)
        .and_not(|g| g.eq("a", 1_i64))
        .build()
        .unwrap();
    assert!(!h.matches(&meta));
}

#[test]
fn retain_sees_every_entry_once_in_key_order() {
    let mut meta = Metadata::new().with("c", 3_i64).with("a", 1_i64).with("b", 2_i64);
    let seen = std::cell::RefCell::new(Vec::new());
    meta.retain(|k, v| {
        seen.borrow_mut().push(k.clone());
        *v != Value::Int64(2)
    });
    assert_eq!(seen.into_inner(), vec!["a", "b", "c"]);
    assert_eq!(meta.keys(), vec!["a", "c"]);
}

#[test]
fn typed_reads_are_strict_about_the_variant() {
    let meta = Metadata::new().with("n", 5_i32).with("e", Value::Empty(qubit_metadata::DataType::Int64));
    assert_eq!(meta.get::<i32>("n"), Some(5));
    assert_eq!(meta.get::<i64>("n"), None);
    assert!(meta.try_get::<i64>("e").is_err());
    assert_eq!(meta.get_or("n", 0_i64), 0);
}

#[test]
fn swapping_operands_reverses_numeric_order() {
    let samples = vec![
        Value::Int64(-3),
        Value::UInt64(u64::MAX),
        f64v(2.5),
        f64v(f64::NAN),
        Value::Float32(1.5f32.to_bits()),
        dec(25, 1),
        Value::BigInteger(BigInteger::from_i128(-7)),
    ];
    for p in [C, A] {
        for a in &samples {
            for b in &samples {
                assert_eq!(compare_numbers(a, b, p), compare_numbers(b, a, p).map(|o| o.reverse()));
            }
        }
    }
}

#[test]
fn big_numbers_meet_floats_through_their_decimal_text() {
    let huge = Value::BigDecimal(BigDecimal {
        int_val: BigInteger::from_parts(false, vec![1, 2, 3, 4, 5, 6]),
        scale: i64::MIN,
    });
    assert_eq!(compare_values(&huge, &f64v(1.0), A), Some(Order::Greater));
    assert_eq!(compare_values(&f64v(1.0), &huge, A), Some(Order::Less));
    assert_eq!(compare_values(&huge, &f64v(1.0), C), None);
    let e20 = dec(1, -20);
    assert_eq!(compare_values(&e20, &f64v(1e20), A), Some(Order::Equal));
    assert_eq!(compare_values(&e20, &f64v(1e20), A), compare_values(&e20, &f64v(1e20), A));
    assert_eq!(compare_values(&dec(-25, 1), &f64v(-2.5), A), Some(Order::Equal));
    assert_eq!(compare_values(&dec(-25, 1), &f64v(-2.4), A), Some(Order::Less));
}

#[test]
fn and_appends_the_right_filter_as_one_child() {
    let f = MetadataFilter::exists_key("a")
        .and(MetadataFilter::exists_key("b").and(MetadataFilter::exists_key("c")));
    match MetadataFilterWire::from_filter(&f).expr {
        Some(FilterExprWire::And { children }) => assert_eq!(children.len(), 2),
        other => panic!("expected an and node, got {other:?}"),
    }
    let g = MetadataFilter::exists_key("a")
        .and(MetadataFilter::exists_key("b"))
        .and(MetadataFilter::exists_key("c"));
    match MetadataFilterWire::from_filter(&g).expr {
        Some(FilterExprWire::And { children }) => assert_eq!(children.len(), 3),
        other => panic!("expected an and node, got {other:?}"),
    }
    let h = MetadataFilter::exists_key("a")
        .or(MetadataFilter::exists_key("b").or(MetadataFilter::exists_key("c")));
    match MetadataFilterWire::from_filter(&h).expr {
        Some(FilterExprWire::Or { children }) => assert_eq!(children.len(), 2),
        other => panic!("expected an or node, got {other:?}"),
    }
}

#[test]
fn filters_match_under_their_own_options() {
    let meta = Metadata::new();
    let f = MetadataFilter::builder().ne("k", 1_i64).build().unwrap();
    assert_eq!(f.options(), FilterMatchOptions::default());
    assert_eq!(f.matches(&meta), f.matches_with_options(&meta, f.options()));
    let g = f.with_missing_key_policy(MissingKeyPolicy::NoMatch);
    assert_eq!(g.matches(&meta), g.matches_with_options(&meta, g.options()));
    assert!(!g.matches(&meta));
}

#[test]
fn json_zeros_are_equal_but_keep_their_sign() {
    let neg = JsonValue::Number(JsonNumber::Float((-0.0f64).to_bits()));
    let pos = JsonValue::Number(JsonNumber::Float(0.0f64.to_bits()));
    assert!(Value::Json(neg.clone()) == Value::Json(pos.clone()));
    assert!(values_equal(&Value::Json(JsonValue::Array(vec![neg.clone()])), &Value::Json(JsonValue::Array(vec![pos])), C));
    match neg.clone() {
        JsonValue::Number(JsonNumber::Float(bits)) => assert_eq!(bits, (-0.0f64).to_bits()),
        other => panic!("unexpected {other:?}"),
    }
}
