//! Leaf predicate semantics of metadata filters.

use qubit_metadata::condition::Condition;
use qubit_metadata::wire::ConditionWire;
use qubit_metadata::{
    BigDecimal, BigInteger, FilterMatchOptions, Metadata, MetadataFilter, MissingKeyPolicy,
    NumberComparisonPolicy, Value,
};

fn f64v(x: f64) -> Value {
    Value::Float64(x.to_bits())
}

fn f32v(x: f32) -> Value {
    Value::Float32(x.to_bits())
}

fn sample() -> Metadata {
    let mut m = Metadata::new();
    m.set("status", "active");
    m.set("score", 42_i64);
    m.set("ratio", f64v(0.75));
    m.set("verified", true);
    m.set("tag", "rust");
    m
}

/// The integer `2^bits`.
fn pow2(bits: usize) -> BigInteger {
    let mut digits = vec![0u32; bits / 32 + 1];
    digits[bits / 32] = 1u32 << (bits % 32);
    BigInteger::from_parts(false, digits)
}

#[test]
fn condition_tests_eq_matches_equal_string() {
    let f = MetadataFilter::builder().eq("status", "active");
    assert!(f.build().unwrap().matches(&sample()));
}

#[test]
fn condition_tests_eq_does_not_match_different_string() {
    let f = MetadataFilter::builder().eq("status", "inactive");
    assert!(!f.build().unwrap().matches(&sample()));
}

#[test]
fn condition_tests_eq_missing_key_does_not_match() {
    let f = MetadataFilter::builder().eq("missing", "x");
    assert!(!f.build().unwrap().matches(&sample()));
}

#[test]
fn condition_tests_ne_matches_different_value() {
    let f = MetadataFilter::builder().ne("status", "inactive");
    assert!(f.build().unwrap().matches(&sample()));
}

#[test]
fn condition_tests_ne_does_not_match_equal_value() {
    let f = MetadataFilter::builder().ne("status", "active");
    assert!(!f.build().unwrap().matches(&sample()));
}

#[test]
fn ne_missing_key_matches_by_default() {
    let f = MetadataFilter::builder().ne("missing", "anything");
    assert!(f.build().unwrap().matches(&sample()));
}

#[test]
fn ne_missing_key_respects_policy() {
    let f = MetadataFilter::builder().ne("missing", "anything");
    let match_options = FilterMatchOptions {
        missing_key_policy: MissingKeyPolicy::Match,
        number_comparison_policy: NumberComparisonPolicy::Conservative,
    };
    let no_match_options = FilterMatchOptions {
        missing_key_policy: MissingKeyPolicy::NoMatch,
        number_comparison_policy: NumberComparisonPolicy::Conservative,
    };
    assert!(f.clone().build().unwrap().matches_with_options(&sample(), match_options));
    assert!(!f.build().unwrap().matches_with_options(&sample(), no_match_options));
}

#[test]
fn condition_tests_gt_integer() {
    assert!(MetadataFilter::builder().gt("score", 10_i64).build().unwrap().matches(&sample()));
    assert!(!MetadataFilter::builder().gt("score", 42_i64).build().unwrap().matches(&sample()));
    assert!(!MetadataFilter::builder().gt("score", 100_i64).build().unwrap().matches(&sample()));
}

#[test]
fn ge_integer() {
    assert!(MetadataFilter::builder().ge("score", 42_i64).build().unwrap().matches(&sample()));
    assert!(MetadataFilter::builder().ge("score", 10_i64).build().unwrap().matches(&sample()));
    assert!(!MetadataFilter::builder().ge("score", 43_i64).build().unwrap().matches(&sample()));
}

#[test]
fn condition_tests_lt_integer() {
    assert!(MetadataFilter::builder().lt("score", 100_i64).build().unwrap().matches(&sample()));
    assert!(!MetadataFilter::builder().lt("score", 42_i64).build().unwrap().matches(&sample()));
    assert!(!MetadataFilter::builder().lt("score", 10_i64).build().unwrap().matches(&sample()));
}

#[test]
fn le_integer() {
    assert!(MetadataFilter::builder().le("score", 42_i64).build().unwrap().matches(&sample()));
    assert!(MetadataFilter::builder().le("score", 100_i64).build().unwrap().matches(&sample()));
    assert!(!MetadataFilter::builder().le("score", 41_i64).build().unwrap().matches(&sample()));
}

#[test]
fn condition_tests_gt_string_lexicographic() {
    assert!(MetadataFilter::builder().gt("status", "aaa").build().unwrap().matches(&sample()));
    assert!(!MetadataFilter::builder().gt("status", "zzz").build().unwrap().matches(&sample()));
}

#[test]
fn condition_tests_range_filter_missing_key_does_not_match() {
    assert!(!MetadataFilter::builder().gt("missing", 0_i64).build().unwrap().matches(&sample()));
    assert!(!MetadataFilter::builder().ge("missing", 0_i64).build().unwrap().matches(&sample()));
    assert!(!MetadataFilter::builder().lt("missing", 100_i64).build().unwrap().matches(&sample()));
    assert!(!MetadataFilter::builder().le("missing", 100_i64).build().unwrap().matches(&sample()));
}

#[test]
fn condition_tests_range_filter_float_values() {
    assert!(MetadataFilter::builder().gt("ratio", f64v(0.5)).build().unwrap().matches(&sample()));
    assert!(MetadataFilter::builder().ge("ratio", f64v(0.75)).build().unwrap().matches(&sample()));
    assert!(MetadataFilter::builder().lt("ratio", f64v(1.0)).build().unwrap().matches(&sample()));
    assert!(MetadataFilter::builder().le("ratio", f64v(0.75)).build().unwrap().matches(&sample()));
}

#[test]
fn condition_tests_range_filter_u64_values() {
    let mut m = Metadata::new();
    m.set("count", 10_u64);
    assert!(MetadataFilter::builder().gt("count", 9_u64).build().unwrap().matches(&m));
    assert!(MetadataFilter::builder().ge("count", 10_u64).build().unwrap().matches(&m));
    assert!(MetadataFilter::builder().lt("count", 11_u64).build().unwrap().matches(&m));
    assert!(MetadataFilter::builder().le("count", 10_u64).build().unwrap().matches(&m));
}

#[test]
fn condition_tests_range_filter_mixed_signed_unsigned_values() {
    let mut a = Metadata::new();
    a.set("score", -1_i64);
    assert!(MetadataFilter::builder().lt("score", 0_u64).build().unwrap().matches(&a));

    let mut b = Metadata::new();
    b.set("score", 5_u64);
    assert!(MetadataFilter::builder().gt("score", 4_i64).build().unwrap().matches(&b));
}

#[test]
fn condition_tests_range_filter_mixed_signed_unsigned_with_huge_unsigned_values() {
    let huge = (i64::MAX as u64) + 10;

    let mut negative = Metadata::new();
    negative.set("score", -1_i64);
    assert!(MetadataFilter::builder().lt("score", huge).build().unwrap().matches(&negative));

    let mut positive = Metadata::new();
    positive.set("score", 5_i64);
    assert!(MetadataFilter::builder().lt("score", huge).build().unwrap().matches(&positive));

    let mut huge_unsigned = Metadata::new();
    huge_unsigned.set("score", huge);
    assert!(MetadataFilter::builder().gt("score", i64::MAX).build().unwrap().matches(&huge_unsigned));
    assert!(MetadataFilter::builder().gt("score", -1_i64).build().unwrap().matches(&huge_unsigned));
    assert!(MetadataFilter::builder().gt("score", huge - 1).build().unwrap().matches(&huge_unsigned));
}

#[test]
fn condition_tests_range_filter_mixed_u64_and_f64() {
    let mut m = Metadata::new();
    m.set("count", 5_u64);
    assert!(MetadataFilter::builder().gt("count", f64v(4.5)).build().unwrap().matches(&m));
    assert!(!MetadataFilter::builder().lt("count", f64v(4.5)).build().unwrap().matches(&m));
}

#[test]
fn condition_tests_range_filter_large_integer_vs_float_precision_regression() {
    let mut m = Metadata::new();
    m.set("n", 9_007_199_254_740_993_i64);
    assert!(MetadataFilter::builder()
        .gt("n", f64v(9_007_199_254_740_992.0))
        .build()
        .unwrap()
        .matches(&m));
    assert!(MetadataFilter::builder()
        .ge("n", f64v(9_007_199_254_740_992.0))
        .build()
        .unwrap()
        .matches(&m));
}

#[test]
fn condition_tests_range_filter_large_unsigned_vs_float_precision_regression() {
    let mut m = Metadata::new();
    m.set("n", 9_007_199_254_740_993_u64);
    assert!(MetadataFilter::builder()
        .gt("n", f64v(9_007_199_254_740_992.0))
        .build()
        .unwrap()
        .matches(&m));
    assert!(MetadataFilter::builder()
        .ge("n", f64v(9_007_199_254_740_992.0))
        .build()
        .unwrap()
        .matches(&m));
}

#[test]
fn condition_tests_range_filter_float_vs_integer_and_huge_unsigned() {
    let huge_u = (i64::MAX as u64) + 1;

    let mut m = Metadata::new();
    m.set("ratio", f64v(3.5));
    assert!(MetadataFilter::builder().gt("ratio", 3_i64).build().unwrap().matches(&m));

    let mut n = Metadata::new();
    n.set("value", f64v(9_223_372_036_854_777_856.0));
    assert!(MetadataFilter::builder().gt("value", huge_u).build().unwrap().matches(&n));
}

#[test]
fn condition_tests_range_filter_large_integer_float_non_integral_fallback() {
    let mut signed = Metadata::new();
    signed.set("n", 9_007_199_254_740_993_i64);
    assert!(!MetadataFilter::builder().gt("n", f64v(0.5)).build().unwrap().matches(&signed));

    let mut unsigned = Metadata::new();
    unsigned.set("n", (i64::MAX as u64) + 123);
    assert!(!MetadataFilter::builder().gt("n", f64v(0.5)).build().unwrap().matches(&unsigned));
    assert!(MetadataFilter::builder().gt("n", f64v(-1.0)).build().unwrap().matches(&unsigned));
}

#[test]
fn approximate_number_policy_enables_lossy_fallback_for_large_i64() {
    let mut m = Metadata::new();
    m.set("n", 9_007_199_254_740_993_i64);

    let conservative = MetadataFilter::builder().gt("n", f64v(0.5));
    assert!(!conservative.clone().build().unwrap().matches(&m));

    let approximate = conservative
        .clone()
        .number_comparison_policy(NumberComparisonPolicy::Approximate);
    assert!(approximate.build().unwrap().matches(&m));
}

#[test]
fn approximate_number_policy_enables_lossy_fallback_for_large_u64() {
    let mut m = Metadata::new();
    m.set("n", (i64::MAX as u64) + 123);

    let conservative = MetadataFilter::builder().gt("n", f64v(0.5));
    assert!(!conservative.clone().build().unwrap().matches(&m));

    let approximate = conservative
        .clone()
        .number_comparison_policy(NumberComparisonPolicy::Approximate);
    assert!(approximate.build().unwrap().matches(&m));
}

fn assert_gt(stored: Value, bound: Value) {
    let meta = Metadata::new().with("n", stored);
    assert!(MetadataFilter::builder().gt("n", bound).build().unwrap().matches(&meta));
}

#[test]
fn range_filter_covers_numeric_value_variants() {
    assert_gt(Value::Int8(2), Value::Int8(1));
    assert_gt(Value::Int16(2), Value::Int16(1));
    assert_gt(Value::Int32(2), Value::Int32(1));
    assert_gt(Value::Int128(2), Value::Int128(1));
    assert_gt(Value::UInt8(2), Value::UInt8(1));
    assert_gt(Value::UInt16(2), Value::UInt16(1));
    assert_gt(Value::UInt32(2), Value::UInt32(1));
    assert_gt(Value::UInt128(2), Value::UInt128(1));
    assert_gt(Value::IntSize(2), Value::IntSize(1));
    assert_gt(Value::UIntSize(2), Value::UIntSize(1));
    assert_gt(f32v(2.0), f32v(1.0));
}

#[test]
fn range_filter_i128_and_u128_float_edges_respect_policy() {
    let signed = Metadata::new().with("n", i128::MAX);
    let signed_conservative = MetadataFilter::builder().gt("n", f64v(0.5));
    assert!(!signed_conservative.clone().build().unwrap().matches(&signed));
    assert!(signed_conservative
        .number_comparison_policy(NumberComparisonPolicy::Approximate)
        .build()
        .unwrap()
        .matches(&signed));

    let unsigned = Metadata::new().with("n", u128::MAX);
    let unsigned_conservative = MetadataFilter::builder().gt("n", f64v(0.5));
    assert!(!unsigned_conservative.clone().build().unwrap().matches(&unsigned));
    assert!(unsigned_conservative
        .number_comparison_policy(NumberComparisonPolicy::Approximate)
        .build()
        .unwrap()
        .matches(&unsigned));
}

#[test]
fn range_filter_i128_and_u128_mixed_integral_edges_compare_exactly() {
    let negative = Metadata::new().with("n", -1_i128);
    assert!(MetadataFilter::builder().lt("n", 0_u128).build().unwrap().matches(&negative));

    let huge = Metadata::new().with("n", u128::MAX);
    assert!(MetadataFilter::builder().gt("n", i128::MAX).build().unwrap().matches(&huge));
}

#[test]
fn big_integer_equality_matches_in_conservative_policy() {
    let mut m = Metadata::new();
    m.set("n", pow2(127));
    assert!(MetadataFilter::builder().eq("n", pow2(127)).build().unwrap().matches(&m));
    assert!(!MetadataFilter::builder()
        .eq("n", BigInteger::from_i128(i128::MAX))
        .build()
        .unwrap()
        .matches(&m));
}

#[test]
fn big_integer_range_matches_integral_values_exactly() {
    let mut m = Metadata::new();
    m.set("n", pow2(128));
    assert!(MetadataFilter::builder().gt("n", u128::MAX).build().unwrap().matches(&m));
    assert!(MetadataFilter::builder().ge("n", pow2(128)).build().unwrap().matches(&m));
}

#[test]
fn big_decimal_equality_matches_integral_values_exactly() {
    let mut m = Metadata::new();
    m.set("n", BigDecimal { int_val: BigInteger::from_i128(10), scale: 0 });
    assert!(MetadataFilter::builder().eq("n", 10_i64).build().unwrap().matches(&m));
    assert!(!MetadataFilter::builder().eq("n", 11_i64).build().unwrap().matches(&m));
}

#[test]
fn big_decimal_range_matches_big_integer_exactly() {
    let mut m = Metadata::new();
    m.set("n", BigDecimal { int_val: BigInteger::from_u128(u128::MAX), scale: 0 });
    assert!(MetadataFilter::builder()
        .ge("n", BigInteger::from_u128(u128::MAX))
        .build()
        .unwrap()
        .matches(&m));
    assert!(MetadataFilter::builder().lt("n", pow2(128)).build().unwrap().matches(&m));
}

#[test]
fn big_decimal_float_comparison_requires_approximate_policy() {
    let mut m = Metadata::new();
    m.set("n", BigDecimal { int_val: BigInteger::from_i128(10), scale: 0 });

    let conservative = MetadataFilter::builder().eq("n", f64v(10.0));
    assert!(!conservative.clone().build().unwrap().matches(&m));

    let approximate = conservative.number_comparison_policy(NumberComparisonPolicy::Approximate);
    assert!(approximate.build().unwrap().matches(&m));
}

fn assert_eq_big_integer(stored: Value) {
    let meta = Metadata::new().with("n", stored);
    assert!(MetadataFilter::builder()
        .eq("n", BigInteger::from_i128(5))
        .build()
        .unwrap()
        .matches(&meta));
}

#[test]
fn big_integer_comparison_accepts_integral_variants() {
    assert_eq_big_integer(Value::Int8(5));
    assert_eq_big_integer(Value::Int16(5));
    assert_eq_big_integer(Value::Int32(5));
    assert_eq_big_integer(Value::Int64(5));
    assert_eq_big_integer(Value::Int128(5));
    assert_eq_big_integer(Value::UInt8(5));
    assert_eq_big_integer(Value::UInt16(5));
    assert_eq_big_integer(Value::UInt32(5));
    assert_eq_big_integer(Value::UInt64(5));
    assert_eq_big_integer(Value::UInt128(5));
    assert_eq_big_integer(Value::IntSize(5));
    assert_eq_big_integer(Value::UIntSize(5));
}

#[test]
fn condition_tests_range_filter_incomparable_types_do_not_match() {
    assert!(!MetadataFilter::builder().gt("status", 1_i64).build().unwrap().matches(&sample()));
    assert!(!MetadataFilter::builder().lt("verified", 1_i64).build().unwrap().matches(&sample()));
}

#[test]
fn condition_tests_exists_present_key() {
    assert!(MetadataFilter::builder().exists_key("status").build().unwrap().matches(&sample()));
}

#[test]
fn condition_tests_exists_missing_key() {
    assert!(!MetadataFilter::builder().exists_key("nope").build().unwrap().matches(&sample()));
}

#[test]
fn condition_tests_not_exists_missing_key() {
    assert!(MetadataFilter::builder().not_exists("nope").build().unwrap().matches(&sample()));
}

#[test]
fn condition_tests_not_exists_present_key() {
    assert!(!MetadataFilter::builder().not_exists("status").build().unwrap().matches(&sample()));
}

#[test]
fn condition_tests_in_values_matches() {
    let f = MetadataFilter::builder().in_set("status", vec!["active", "pending"]);
    assert!(f.build().unwrap().matches(&sample()));
}

#[test]
fn condition_tests_in_values_no_match() {
    let f = MetadataFilter::builder().in_set("status", vec!["inactive", "pending"]);
    assert!(!f.build().unwrap().matches(&sample()));
}

#[test]
fn condition_tests_in_values_missing_key() {
    let f = MetadataFilter::builder().in_set("missing", vec!["x"]);
    assert!(!f.build().unwrap().matches(&sample()));
}

#[test]
fn in_values_empty_set_matches_nothing() {
    let f = MetadataFilter::builder().in_set("status", Vec::<&str>::new());
    assert!(!f.clone().build().unwrap().matches(&sample()));
    assert!(!f.build().unwrap().matches(&Metadata::new()));
}

#[test]
fn condition_tests_not_in_values_matches() {
    let f = MetadataFilter::builder().not_in_set("status", vec!["inactive", "pending"]);
    assert!(f.build().unwrap().matches(&sample()));
}

#[test]
fn condition_tests_not_in_values_no_match() {
    let f = MetadataFilter::builder().not_in_set("status", vec!["active", "pending"]);
    assert!(!f.build().unwrap().matches(&sample()));
}

#[test]
fn condition_tests_not_in_values_missing_key_matches() {
    let f = MetadataFilter::builder().not_in_set("missing", vec!["x"]);
    assert!(f.build().unwrap().matches(&sample()));
}

#[test]
fn not_in_values_missing_key_respects_policy() {
    let f = MetadataFilter::builder().not_in_set("missing", vec!["x"]);
    let strict = f.clone().missing_key_policy(MissingKeyPolicy::NoMatch);
    assert!(f.build().unwrap().matches(&sample()));
    assert!(!strict.build().unwrap().matches(&sample()));
}

#[test]
fn not_in_values_empty_set_matches_present_keys_and_respects_missing_key_policy() {
    let f = MetadataFilter::builder().not_in_set("status", Vec::<&str>::new());
    assert!(f.build().unwrap().matches(&sample()));

    let missing = MetadataFilter::builder().not_in_set("missing", Vec::<&str>::new());
    let strict = missing.clone().missing_key_policy(MissingKeyPolicy::NoMatch);
    assert!(missing.build().unwrap().matches(&sample()));
    assert!(!strict.build().unwrap().matches(&sample()));
}

#[test]
fn condition_tests_missing_key_policy_applies_recursively_in_filter_tree() {
    let f = MetadataFilter::builder()
        .ne("missing", "x")
        .and_not_in_set("missing-2", vec!["y"])
        .or_eq("status", "inactive");
    assert!(f.clone().build().unwrap().matches(&sample()));

    let strict = f.missing_key_policy(MissingKeyPolicy::NoMatch);
    assert!(!strict.build().unwrap().matches(&sample()));
}

#[test]
fn condition_tests_condition_serde_round_trip() {
    let c = Condition::Equal { key: "status".into(), value: Value::String("active".to_string()) };
    let wire = ConditionWire::from_condition(&c);
    assert!(matches!(wire, ConditionWire::Eq { .. }));
    let restored = wire.into_condition();
    match restored {
        Condition::Equal { key, value } => {
            assert_eq!(key, "status");
            assert_eq!(value, Value::String("active".to_string()));
        }
        _ => panic!("expected an equality condition"),
    }
}
