//! The direct filter constructors and combinators.

use qubit_metadata::expr::FilterExpr;
use qubit_metadata::wire::{FilterExprWire, MetadataFilterWire};
use qubit_metadata::condition::Condition;
use qubit_metadata::{FilterMatchOptions, Metadata, MetadataFilter, MissingKeyPolicy, Value};

fn f64v(x: f64) -> Value {
    Value::Float64(x.to_bits())
}

fn sample() -> Metadata {
    let mut m = Metadata::new();
    m.set("status", "active");
    m.set("score", 42_i64);
    m.set("ratio", f64v(0.75));
    m.set("verified", true);
    m.set("tag", "rust");
    m
}

/// Writes a filter in interchange form and reads it back.
fn round_trip(f: &MetadataFilter) -> MetadataFilter {
    MetadataFilterWire::from_filter(f).into_filter().unwrap()
}

/// The number of children of the top-level node of a filter.
fn top_children(f: &MetadataFilter, and: bool) -> usize {
    match (MetadataFilterWire::from_filter(f).expr, and) {
        (Some(FilterExprWire::And { children }), true) => children.len(),
        (Some(FilterExprWire::Or { children }), false) => children.len(),
        _ => panic!("unexpected top-level node"),
    }
}

#[test]
fn test_condition_condition_serde_round_trip() {
    let c = Condition::Equal { key: "status".into(), value: Value::String("active".to_string()) };
    let f = MetadataFilter::condition(c.clone());
    let restored = round_trip(&f);
    let meta = sample();
    assert_eq!(f.matches(&meta), restored.matches(&meta));
    assert!(restored.matches(&meta));
}

#[test]
fn test_filter_and_flattens_children() {
    let f = MetadataFilter::eq("status", "active")
        .and(MetadataFilter::exists_key("score"))
        .and(MetadataFilter::exists_key("tag"));
    assert_eq!(top_children(&f, true), 3);
}

#[test]
fn test_filter_or_flattens_children() {
    let f = MetadataFilter::eq("status", "a")
        .or(MetadataFilter::eq("status", "b"))
        .or(MetadataFilter::eq("status", "active"));
    assert_eq!(top_children(&f, false), 3);
}

#[test]
fn test_filter_empty_and_matches_everything() {
    let f = MetadataFilter::from_parts(Some(FilterExpr::And(vec![])), FilterMatchOptions::default());
    assert!(f.matches(&sample()));
    assert!(f.matches(&Metadata::new()));
}

#[test]
fn test_filter_empty_or_matches_nothing() {
    let f = MetadataFilter::from_parts(Some(FilterExpr::Or(vec![])), FilterMatchOptions::default());
    assert!(!f.matches(&sample()));
    assert!(!f.matches(&Metadata::new()));
}

#[test]
fn test_filter_filter_serde_round_trip() {
    let f = MetadataFilter::eq("status", "active")
        .and(MetadataFilter::gte("score", 10_i64))
        .or(MetadataFilter::exists_key("tag").not());
    let restored = round_trip(&f);
    assert_eq!(f.matches(&sample()), restored.matches(&sample()));
    assert_eq!(top_children(&f, false), top_children(&restored, false));
}

#[test]
fn test_metadata_filter_and_flattens_children() {
    let f = MetadataFilter::equal("status", "active")
        .unwrap()
        .and(MetadataFilter::exists_key("score"))
        .and(MetadataFilter::exists_key("tag"));
    assert_eq!(top_children(&f, true), 3);
}

#[test]
fn test_metadata_filter_or_flattens_children() {
    let f = MetadataFilter::equal("status", "a")
        .unwrap()
        .or(MetadataFilter::equal("status", "b").unwrap())
        .or(MetadataFilter::equal("status", "active").unwrap());
    assert_eq!(top_children(&f, false), 3);
}

#[test]
fn test_metadata_filter_empty_and_matches_everything() {
    let f = MetadataFilter::from_parts(Some(FilterExpr::And(vec![])), FilterMatchOptions::default());
    assert!(f.matches(&sample()));
    assert!(f.matches(&Metadata::new()));
}

#[test]
fn test_metadata_filter_empty_or_matches_nothing() {
    let f = MetadataFilter::from_parts(Some(FilterExpr::Or(vec![])), FilterMatchOptions::default());
    assert!(!f.matches(&sample()));
    assert!(!f.matches(&Metadata::new()));
}

#[test]
fn test_metadata_filter_filter_serde_round_trip() {
    let f = MetadataFilter::equal("status", "active")
        .unwrap()
        .and(MetadataFilter::greater_equal("score", 10_i64).unwrap())
        .or(MetadataFilter::exists_key("tag").not());
    let restored = round_trip(&f);
    assert_eq!(f.matches(&sample()), restored.matches(&sample()));
}

#[test]
fn test_condition_eq_matches_equal_string() {
    let f = MetadataFilter::equal("status", "active").unwrap();
    assert!(f.matches(&sample()));
}

#[test]
fn test_condition_eq_does_not_match_different_string() {
    let f = MetadataFilter::equal("status", "inactive").unwrap();
    assert!(!f.matches(&sample()));
}

#[test]
fn test_condition_eq_missing_key_does_not_match() {
    let f = MetadataFilter::equal("missing", "x").unwrap();
    assert!(!f.matches(&sample()));
}

#[test]
fn test_condition_ne_matches_different_value() {
    let f = MetadataFilter::not_equal("status", "inactive").unwrap();
    assert!(f.matches(&sample()));
}

#[test]
fn test_condition_ne_does_not_match_equal_value() {
    let f = MetadataFilter::not_equal("status", "active").unwrap();
    assert!(!f.matches(&sample()));
}

#[test]
fn test_condition_ne_missing_key_matches() {
    let f = MetadataFilter::not_equal("missing", "anything").unwrap();
    assert!(f.matches(&sample()));
}

#[test]
fn ne_missing_key_respects_missing_key_policy() {
    let f = MetadataFilter::not_equal("missing", "anything").unwrap();
    assert!(f.matches_with_missing_key_policy(&sample(), MissingKeyPolicy::Match));
    assert!(!f.matches_with_missing_key_policy(&sample(), MissingKeyPolicy::NoMatch));
}

#[test]
fn test_condition_gt_integer() {
    assert!(MetadataFilter::greater("score", 10_i64).unwrap().matches(&sample()));
    assert!(!MetadataFilter::greater("score", 42_i64).unwrap().matches(&sample()));
    assert!(!MetadataFilter::greater("score", 100_i64).unwrap().matches(&sample()));
}

#[test]
fn test_condition_gte_integer() {
    assert!(MetadataFilter::greater_equal("score", 42_i64).unwrap().matches(&sample()));
    assert!(MetadataFilter::greater_equal("score", 10_i64).unwrap().matches(&sample()));
    assert!(!MetadataFilter::greater_equal("score", 43_i64).unwrap().matches(&sample()));
}

#[test]
fn test_condition_lt_integer() {
    assert!(MetadataFilter::less("score", 100_i64).unwrap().matches(&sample()));
    assert!(!MetadataFilter::less("score", 42_i64).unwrap().matches(&sample()));
    assert!(!MetadataFilter::less("score", 10_i64).unwrap().matches(&sample()));
}

#[test]
fn test_condition_lte_integer() {
    assert!(MetadataFilter::less_equal("score", 42_i64).unwrap().matches(&sample()));
    assert!(MetadataFilter::less_equal("score", 100_i64).unwrap().matches(&sample()));
    assert!(!MetadataFilter::less_equal("score", 41_i64).unwrap().matches(&sample()));
}

#[test]
fn test_condition_gt_string_lexicographic() {
    assert!(MetadataFilter::greater("status", "aaa").unwrap().matches(&sample()));
    assert!(!MetadataFilter::greater("status", "zzz").unwrap().matches(&sample()));
}

#[test]
fn test_condition_range_filter_missing_key_does_not_match() {
    assert!(!MetadataFilter::greater("missing", 0_i64).unwrap().matches(&sample()));
    assert!(!MetadataFilter::greater_equal("missing", 0_i64).unwrap().matches(&sample()));
    assert!(!MetadataFilter::less("missing", 100_i64).unwrap().matches(&sample()));
    assert!(!MetadataFilter::less_equal("missing", 100_i64).unwrap().matches(&sample()));
}

#[test]
fn test_condition_range_filter_float_values() {
    assert!(MetadataFilter::greater("ratio", f64v(0.5)).unwrap().matches(&sample()));
    assert!(MetadataFilter::greater_equal("ratio", f64v(0.75)).unwrap().matches(&sample()));
    assert!(MetadataFilter::less("ratio", f64v(1.0)).unwrap().matches(&sample()));
    assert!(MetadataFilter::less_equal("ratio", f64v(0.75)).unwrap().matches(&sample()));
}

#[test]
fn test_condition_range_filter_u64_values() {
    let mut m = Metadata::new();
    m.set("count", 10_u64);

    assert!(MetadataFilter::greater("count", 9_u64).unwrap().matches(&m));
    assert!(MetadataFilter::greater_equal("count", 10_u64).unwrap().matches(&m));
    assert!(MetadataFilter::less("count", 11_u64).unwrap().matches(&m));
    assert!(MetadataFilter::less_equal("count", 10_u64).unwrap().matches(&m));
}

#[test]
fn test_condition_range_filter_mixed_signed_unsigned_values() {
    let mut a = Metadata::new();
    a.set("score", -1_i64);
    assert!(MetadataFilter::less("score", 0_u64).unwrap().matches(&a));

    let mut b = Metadata::new();
    b.set("score", 5_u64);
    assert!(MetadataFilter::greater("score", 4_i64).unwrap().matches(&b));
}

#[test]
fn test_condition_range_filter_mixed_signed_unsigned_with_huge_unsigned_values() {
    let huge = (i64::MAX as u64) + 10;

    let mut negative = Metadata::new();
    negative.set("score", -1_i64);
    assert!(MetadataFilter::less("score", huge).unwrap().matches(&negative));

    let mut positive = Metadata::new();
    positive.set("score", 5_i64);
    assert!(MetadataFilter::less("score", huge).unwrap().matches(&positive));

    let mut huge_unsigned = Metadata::new();
    huge_unsigned.set("score", huge);
    assert!(MetadataFilter::greater("score", i64::MAX).unwrap().matches(&huge_unsigned));
    assert!(MetadataFilter::greater("score", -1_i64).unwrap().matches(&huge_unsigned));
    assert!(MetadataFilter::greater("score", huge - 1).unwrap().matches(&huge_unsigned));
}

#[test]
fn test_condition_range_filter_mixed_u64_and_f64() {
    let mut m = Metadata::new();
    m.set("count", 5_u64);

    assert!(MetadataFilter::greater("count", f64v(4.5)).unwrap().matches(&m));
    assert!(!MetadataFilter::less("count", f64v(4.5)).unwrap().matches(&m));
}

#[test]
fn test_condition_range_filter_large_integer_vs_float_precision_regression() {
    let mut m = Metadata::new();
    m.set("n", 9_007_199_254_740_993_i64);

    assert!(MetadataFilter::greater("n", f64v(9_007_199_254_740_992.0)).unwrap().matches(&m));
    assert!(MetadataFilter::greater_equal("n", f64v(9_007_199_254_740_992.0)).unwrap().matches(&m));
}

#[test]
fn test_condition_range_filter_large_unsigned_vs_float_precision_regression() {
    let mut m = Metadata::new();
    m.set("n", 9_007_199_254_740_993_u64);

    assert!(MetadataFilter::greater("n", f64v(9_007_199_254_740_992.0)).unwrap().matches(&m));
    assert!(MetadataFilter::greater_equal("n", f64v(9_007_199_254_740_992.0)).unwrap().matches(&m));
}

#[test]
fn test_condition_range_filter_float_vs_integer_and_huge_unsigned() {
    let huge_u = (i64::MAX as u64) + 1;

    let mut m = Metadata::new();
    m.set("ratio", f64v(3.5));
    assert!(MetadataFilter::greater("ratio", 3_i64).unwrap().matches(&m));

    let mut n = Metadata::new();
    n.set("value", f64v(9_223_372_036_854_777_856.0));
    assert!(MetadataFilter::greater("value", huge_u).unwrap().matches(&n));
}

#[test]
fn test_condition_range_filter_large_integer_float_non_integral_fallback() {
    let mut signed = Metadata::new();
    signed.set("n", 9_007_199_254_740_993_i64);
    assert!(!MetadataFilter::greater("n", f64v(0.5)).unwrap().matches(&signed));

    let mut unsigned = Metadata::new();
    unsigned.set("n", (i64::MAX as u64) + 123);
    assert!(!MetadataFilter::greater("n", f64v(0.5)).unwrap().matches(&unsigned));
    assert!(MetadataFilter::greater("n", f64v(-1.0)).unwrap().matches(&unsigned));
}

#[test]
fn test_condition_range_filter_incomparable_types_do_not_match() {
    assert!(!MetadataFilter::greater("status", 1_i64).unwrap().matches(&sample()));
    assert!(!MetadataFilter::less("verified", 1_i64).unwrap().matches(&sample()));
}

#[test]
fn test_condition_exists_present_key() {
    assert!(MetadataFilter::exists_key("status").matches(&sample()));
}

#[test]
fn test_condition_exists_missing_key() {
    assert!(!MetadataFilter::exists_key("nope").matches(&sample()));
}

#[test]
fn test_condition_not_exists_missing_key() {
    assert!(MetadataFilter::not_exists("nope").matches(&sample()));
}

#[test]
fn test_condition_not_exists_present_key() {
    assert!(!MetadataFilter::not_exists("status").matches(&sample()));
}

#[test]
fn test_condition_in_values_matches() {
    let f = MetadataFilter::in_values("status", vec!["active", "pending"]).unwrap();
    assert!(f.matches(&sample()));
}

#[test]
fn test_condition_in_values_no_match() {
    let f = MetadataFilter::in_values("status", vec!["inactive", "pending"]).unwrap();
    assert!(!f.matches(&sample()));
}

#[test]
fn test_condition_in_values_missing_key() {
    let f = MetadataFilter::in_values("missing", vec!["x"]).unwrap();
    assert!(!f.matches(&sample()));
}

#[test]
fn test_condition_not_in_values_matches() {
    let f = MetadataFilter::not_in_values("status", vec!["inactive", "pending"]).unwrap();
    assert!(f.matches(&sample()));
}

#[test]
fn test_condition_not_in_values_no_match() {
    let f = MetadataFilter::not_in_values("status", vec!["active", "pending"]).unwrap();
    assert!(!f.matches(&sample()));
}

#[test]
fn test_condition_not_in_values_missing_key_matches() {
    let f = MetadataFilter::not_in_values("missing", vec!["x"]).unwrap();
    assert!(f.matches(&sample()));
}

#[test]
fn not_in_values_missing_key_respects_missing_key_policy() {
    let f = MetadataFilter::not_in_values("missing", vec!["x"]).unwrap();
    assert!(f.matches_with_missing_key_policy(&sample(), MissingKeyPolicy::Match));
    assert!(!f.matches_with_missing_key_policy(&sample(), MissingKeyPolicy::NoMatch));
}

#[test]
fn test_condition_missing_key_policy_applies_recursively_in_filter_tree() {
    let f = MetadataFilter::not_equal("missing", "x").unwrap()
        .and(MetadataFilter::not_in_values("missing-2", vec!["y"]).unwrap())
        .or(MetadataFilter::equal("status", "inactive").unwrap());
    assert!(f.matches(&sample()));
    assert!(!f.matches_with_missing_key_policy(&sample(), MissingKeyPolicy::NoMatch));
}

#[test]
fn test_filter_eq_matches_equal_string() {
    let f = MetadataFilter::eq("status", "active");
    assert!(f.matches(&sample()));
}

#[test]
fn test_filter_eq_does_not_match_different_string() {
    let f = MetadataFilter::eq("status", "inactive");
    assert!(!f.matches(&sample()));
}

#[test]
fn test_filter_eq_missing_key_does_not_match() {
    let f = MetadataFilter::eq("missing", "x");
    assert!(!f.matches(&sample()));
}

#[test]
fn test_filter_ne_matches_different_value() {
    let f = MetadataFilter::ne("status", "inactive");
    assert!(f.matches(&sample()));
}

#[test]
fn test_filter_ne_does_not_match_equal_value() {
    let f = MetadataFilter::ne("status", "active");
    assert!(!f.matches(&sample()));
}

#[test]
fn test_filter_ne_missing_key_matches() {
    let f = MetadataFilter::ne("missing", "anything");
    assert!(f.matches(&sample()));
}

#[test]
fn test_filter_gt_integer() {
    assert!(MetadataFilter::gt("score", 10_i64).matches(&sample()));
    assert!(!MetadataFilter::gt("score", 42_i64).matches(&sample()));
    assert!(!MetadataFilter::gt("score", 100_i64).matches(&sample()));
}

#[test]
fn test_filter_gte_integer() {
    assert!(MetadataFilter::gte("score", 42_i64).matches(&sample()));
    assert!(MetadataFilter::gte("score", 10_i64).matches(&sample()));
    assert!(!MetadataFilter::gte("score", 43_i64).matches(&sample()));
}

#[test]
fn test_filter_lt_integer() {
    assert!(MetadataFilter::lt("score", 100_i64).matches(&sample()));
    assert!(!MetadataFilter::lt("score", 42_i64).matches(&sample()));
    assert!(!MetadataFilter::lt("score", 10_i64).matches(&sample()));
}

#[test]
fn test_filter_lte_integer() {
    assert!(MetadataFilter::lte("score", 42_i64).matches(&sample()));
    assert!(MetadataFilter::lte("score", 100_i64).matches(&sample()));
    assert!(!MetadataFilter::lte("score", 41_i64).matches(&sample()));
}

#[test]
fn test_filter_gt_string_lexicographic() {
    assert!(MetadataFilter::gt("status", "aaa").matches(&sample()));
    assert!(!MetadataFilter::gt("status", "zzz").matches(&sample()));
}

#[test]
fn test_filter_range_filter_missing_key_does_not_match() {
    assert!(!MetadataFilter::gt("missing", 0_i64).matches(&sample()));
    assert!(!MetadataFilter::gte("missing", 0_i64).matches(&sample()));
    assert!(!MetadataFilter::lt("missing", 100_i64).matches(&sample()));
    assert!(!MetadataFilter::lte("missing", 100_i64).matches(&sample()));
}

#[test]
fn test_filter_exists_present_key() {
    assert!(MetadataFilter::exists_key("status").matches(&sample()));
}

#[test]
fn test_filter_exists_missing_key() {
    assert!(!MetadataFilter::exists_key("nope").matches(&sample()));
}

#[test]
fn test_filter_not_exists_missing_key() {
    assert!(MetadataFilter::not_exists("nope").matches(&sample()));
}

#[test]
fn test_filter_not_exists_present_key() {
    assert!(!MetadataFilter::not_exists("status").matches(&sample()));
}

#[test]
fn test_filter_in_values_matches() {
    let f = MetadataFilter::in_values("status", vec!["active", "pending"]).unwrap();
    assert!(f.matches(&sample()));
}

#[test]
fn test_filter_in_values_no_match() {
    let f = MetadataFilter::in_values("status", vec!["inactive", "pending"]).unwrap();
    assert!(!f.matches(&sample()));
}

#[test]
fn test_filter_in_values_missing_key() {
    let f = MetadataFilter::in_values("missing", vec!["x"]).unwrap();
    assert!(!f.matches(&sample()));
}

#[test]
fn test_filter_not_in_values_matches() {
    let f = MetadataFilter::not_in_values("status", vec!["inactive", "pending"]).unwrap();
    assert!(f.matches(&sample()));
}

#[test]
fn test_filter_not_in_values_no_match() {
    let f = MetadataFilter::not_in_values("status", vec!["active", "pending"]).unwrap();
    assert!(!f.matches(&sample()));
}

#[test]
fn test_filter_not_in_values_missing_key_matches() {
    let f = MetadataFilter::not_in_values("missing", vec!["x"]).unwrap();
    assert!(f.matches(&sample()));
}

#[test]
fn test_filter_and_all_true() {
    let f = MetadataFilter::eq("status", "active")
        .and(MetadataFilter::gte("score", 10_i64))
        .and(MetadataFilter::exists_key("verified"));
    assert!(f.matches(&sample()));
}

#[test]
fn test_filter_and_one_false() {
    let f = MetadataFilter::eq("status", "active")
        .and(MetadataFilter::gt("score", 100_i64));
    assert!(!f.matches(&sample()));
}

#[test]
fn test_filter_or_one_true() {
    let f = MetadataFilter::eq("status", "inactive")
        .or(MetadataFilter::eq("status", "active"));
    assert!(f.matches(&sample()));
}

#[test]
fn test_filter_or_all_false() {
    let f = MetadataFilter::eq("status", "inactive")
        .or(MetadataFilter::eq("status", "pending"));
    assert!(!f.matches(&sample()));
}

#[test]
fn test_filter_not_inverts_true() {
    let f = MetadataFilter::eq("status", "active").not();
    assert!(!f.matches(&sample()));
}

#[test]
fn test_filter_not_inverts_false() {
    let f = MetadataFilter::eq("status", "inactive").not();
    assert!(f.matches(&sample()));
}

#[test]
fn test_filter_complex_and_or_not() {
    // (status == "active" AND score >= 10) OR (NOT exists("nope"))
    let f = MetadataFilter::eq("status", "active")
        .and(MetadataFilter::gte("score", 10_i64))
        .or(MetadataFilter::exists_key("nope").not());
    assert!(f.matches(&sample()));
}

#[test]
fn test_metadata_filter_and_all_true() {
    let f = MetadataFilter::equal("status", "active")
        .unwrap()
        .and(MetadataFilter::greater_equal("score", 10_i64).unwrap())
        .and(MetadataFilter::exists_key("verified"));
    assert!(f.matches(&sample()));
}

#[test]
fn test_metadata_filter_and_one_false() {
    let f = MetadataFilter::equal("status", "active")
        .unwrap()
        .and(MetadataFilter::greater("score", 100_i64).unwrap());
    assert!(!f.matches(&sample()));
}

#[test]
fn test_metadata_filter_or_one_true() {
    let f = MetadataFilter::equal("status", "inactive")
        .unwrap()
        .or(MetadataFilter::equal("status", "active").unwrap());
    assert!(f.matches(&sample()));
}

#[test]
fn test_metadata_filter_or_all_false() {
    let f = MetadataFilter::equal("status", "inactive")
        .unwrap()
        .or(MetadataFilter::equal("status", "pending").unwrap());
    assert!(!f.matches(&sample()));
}

#[test]
fn test_metadata_filter_not_inverts_true() {
    let f = MetadataFilter::equal("status", "active").unwrap().not();
    assert!(!f.matches(&sample()));
}

#[test]
fn test_metadata_filter_not_inverts_false() {
    let f = MetadataFilter::equal("status", "inactive").unwrap().not();
    assert!(f.matches(&sample()));
}

#[test]
fn test_metadata_filter_complex_and_or_not() {
    // (status == "active" AND score >= 10) OR (NOT exists("nope"))
    let f = MetadataFilter::equal("status", "active")
        .unwrap()
        .and(MetadataFilter::greater_equal("score", 10_i64).unwrap())
        .or(MetadataFilter::exists_key("nope").not());
    assert!(f.matches(&sample()));
}
