//! Properties that hold across the operations of the library.
use vstd::prelude::*;
use crate::compare::{big_order, number_order, numbers_order, spec_values_equal};
use crate::condition::{ConditionModel, condition_holds, equals_any};
use crate::data_type::DataType;
use crate::expr::{
    ExprModel, and_model, eval, eval_opt, lemma_and_append_model, lemma_and_model,
    lemma_negate_model, lemma_or_append_model, lemma_or_model, negate_model, or_model,
};
use crate::filter::{
    BuilderModel, FilterModel, GroupOp, and_opt, append_and, append_or, empty_group_message,
    filter_matches, or_opt,
};
use crate::float::{i128_float_order, u128_float_order, i64_float_order, u64_float_order};
use crate::policy::{FilterMatchOptions, MissingKeyPolicy, NumberComparisonPolicy};
use crate::schema::{SchemaModel, range_problem, value_problem};
use crate::value::{FromValue, NumberModel, ValueModel, value_same};
use crate::wire::{METADATA_FILTER_WIRE_VERSION, first_empty_group, wire_read};

verus! {

/// Negating a filter inverts its verdict on every metadata object.
pub proof fn law_not_inverts(f: FilterModel, m: Map<Seq<char>, ValueModel>)
    ensures
        filter_matches(FilterModel { expr: negate_model(f.expr), options: f.options }, m)
            == !filter_matches(f, m),
{
    lemma_negate_model(f.expr, m, f.options);
}

/// Combining two filters with AND matches exactly what both match.
pub proof fn law_and_conjoins(
    a: Option<ExprModel>,
    b: Option<ExprModel>,
    m: Map<Seq<char>, ValueModel>,
    options: FilterMatchOptions,
)
    ensures
        eval_opt(and_opt(a, b), m, options) == (eval_opt(a, m, options) && eval_opt(b, m, options)),
{
    if let (Some(x), Some(y)) = (a, b) {
        lemma_and_append_model(x, y, m, options);
    }
}

/// Combining two filters with OR matches exactly what either matches.
pub proof fn law_or_disjoins(
    a: Option<ExprModel>,
    b: Option<ExprModel>,
    m: Map<Seq<char>, ValueModel>,
    options: FilterMatchOptions,
)
    ensures
        eval_opt(or_opt(a, b), m, options) == (eval_opt(a, m, options) || eval_opt(b, m, options)),
{
    if let (Some(x), Some(y)) = (a, b) {
        lemma_or_append_model(x, y, m, options);
    }
}

/// Appending a predicate with AND (the plain and `and_*` builder methods)
/// requires it on top of what the builder had; the first predicate stands
/// alone.
pub proof fn law_builder_and_appends(
    b: BuilderModel,
    c: ConditionModel,
    m: Map<Seq<char>, ValueModel>,
    options: FilterMatchOptions,
)
    ensures
        eval_opt(b.and_condition(c).expr, m, options) == (eval_opt(b.expr, m, options)
            && condition_holds(c, m, options)),
{
    if let Some(x) = b.expr {
        lemma_and_model(x, ExprModel::Condition(c), m, options);
    }
}

/// Appending a predicate with OR (the `or_*` builder methods) accepts what
/// the builder had or the predicate; the first predicate stands alone.
pub proof fn law_builder_or_appends(
    b: BuilderModel,
    c: ConditionModel,
    m: Map<Seq<char>, ValueModel>,
    options: FilterMatchOptions,
)
    ensures
        eval_opt(b.or_condition(c).expr, m, options) == (match b.expr {
            Some(x) => eval(x, m, options) || condition_holds(c, m, options),
            None => condition_holds(c, m, options),
        }),
{
    if let Some(x) = b.expr {
        lemma_or_model(x, ExprModel::Condition(c), m, options);
    }
}

/// A group with predicates joins the builder's expression as one child:
/// `and` requires the group, `and_not` its negation, `or` accepts the group
/// and `or_not` its negation as an alternative to an earlier expression.
pub proof fn law_builder_group(
    b: BuilderModel,
    op: GroupOp,
    g: BuilderModel,
    m: Map<Seq<char>, ValueModel>,
    options: FilterMatchOptions,
)
    requires
        b.error is None,
        g.error is None,
        g.has_predicate,
    ensures
        b.add_group(op, g).error is None,
        op is And ==> eval_opt(b.add_group(op, g).expr, m, options) == (eval_opt(b.expr, m, options)
            && eval_opt(g.expr, m, options)),
        op is AndNot ==> eval_opt(b.add_group(op, g).expr, m, options) == (eval_opt(
            b.expr,
            m,
            options,
        ) && !eval_opt(g.expr, m, options)),
        op is Or && b.expr is Some ==> eval_opt(b.add_group(op, g).expr, m, options) == (eval_opt(
            b.expr,
            m,
            options,
        ) || eval_opt(g.expr, m, options)),
        op is OrNot && b.expr is Some ==> eval_opt(b.add_group(op, g).expr, m, options) == (
        eval_opt(b.expr, m, options) || !eval_opt(g.expr, m, options)),
        b.expr is None && (op is And || op is Or) ==> eval_opt(b.add_group(op, g).expr, m, options)
            == eval_opt(g.expr, m, options),
        b.expr is None && (op is AndNot || op is OrNot) ==> eval_opt(b.add_group(op, g).expr, m, options)
            == !eval_opt(g.expr, m, options),
{
    lemma_negate_model(g.expr, m, options);
    let x = match op {
        GroupOp::And | GroupOp::Or => g.expr,
        GroupOp::AndNot | GroupOp::OrNot => negate_model(g.expr),
    };
    match (b.expr, x) {
        (Some(e), Some(y)) => {
            lemma_and_model(e, y, m, options);
            lemma_or_model(e, y, m, options);
        },
        _ => {},
    }
}

/// A group without predicates is an error naming the group operation.
pub proof fn law_builder_empty_group(b: BuilderModel, op: GroupOp, g: BuilderModel)
    requires
        b.error is None,
        g.error is None,
        !g.has_predicate,
    ensures
        b.add_group(op, g).error == Some(empty_group_message(op)),
{
}

/// The missing-key policy only matters for the negative predicates
/// (not-equal and not-in) on a missing key, where it alone decides.
pub proof fn law_missing_key_policy_scope(
    c: ConditionModel,
    m: Map<Seq<char>, ValueModel>,
    o1: FilterMatchOptions,
    o2: FilterMatchOptions,
)
    requires
        o1.number_comparison_policy == o2.number_comparison_policy,
    ensures
        !(c is NotEqual || c is NotIn) || m.contains_key(c.key()) ==> condition_holds(c, m, o1)
            == condition_holds(c, m, o2),
        (c is NotEqual || c is NotIn) && !m.contains_key(c.key()) ==> condition_holds(c, m, o1)
            == o1.missing_key_policy.spec_matches_negative_predicates(),
{
}

/// An empty candidate list matches nothing for membership; for exclusion it
/// matches every present key and follows the missing-key policy otherwise.
pub proof fn law_empty_membership(key: Seq<char>, m: Map<Seq<char>, ValueModel>, options: FilterMatchOptions)
    ensures
        !condition_holds(ConditionModel::In { key, values: Seq::empty() }, m, options),
        condition_holds(ConditionModel::NotIn { key, values: Seq::empty() }, m, options) == if m.contains_key(key) {
            true
        } else {
            options.missing_key_policy.spec_matches_negative_predicates()
        },
{
}

/// The approximate policy only decides comparisons that the conservative
/// policy leaves incomparable: wherever the conservative policy orders two
/// numbers, the approximate one orders them the same way.
pub proof fn law_approximate_extends_conservative(a: ValueModel, b: ValueModel)
    requires
        numbers_order(a, b, NumberComparisonPolicy::Conservative) is Some,
    ensures
        numbers_order(a, b, NumberComparisonPolicy::Approximate) == numbers_order(
            a,
            b,
            NumberComparisonPolicy::Conservative,
        ),
{
    if !(a.is_big() || b.is_big()) {
        match (a.number(), b.number()) {
            (Some(x), Some(y)) => {
                lemma_number_order_extends(x, y);
            },
            _ => {},
        }
    }
}

/// The integer-float rules keep every order they find without rounding
/// when rounding is allowed.
proof fn lemma_number_order_extends(x: NumberModel, y: NumberModel)
    requires
        number_order(x, y, false) is Some,
    ensures
        number_order(x, y, true) == number_order(x, y, false),
{
    match (x, y) {
        (NumberModel::Signed(i), NumberModel::Float(f)) => {
            lemma_int_float_extends(i, f);
        },
        (NumberModel::Float(f), NumberModel::Signed(i)) => {
            lemma_int_float_extends(i, f);
        },
        (NumberModel::Unsigned(u), NumberModel::Float(f)) => {
            lemma_uint_float_extends(u, f);
        },
        (NumberModel::Float(f), NumberModel::Unsigned(u)) => {
            lemma_uint_float_extends(u, f);
        },
        _ => {},
    }
}

/// A signed integer against a float keeps its conservative order.
proof fn lemma_int_float_extends(x: int, y: crate::float::FloatKind)
    ensures
        i128_float_order(x, y, false) is Some ==> i128_float_order(x, y, true) == i128_float_order(
            x,
            y,
            false,
        ),
{
}

/// An unsigned integer against a float keeps its conservative order.
proof fn lemma_uint_float_extends(x: int, y: crate::float::FloatKind)
    ensures
        u128_float_order(x, y, false) is Some ==> u128_float_order(x, y, true) == u128_float_order(
            x,
            y,
            false,
        ),
{
}

/// Filter validation treats every numeric type as compatible with every
/// numeric field: a numeric value never has a type problem on a declared
/// numeric field.
pub proof fn law_numeric_values_fit_numeric_fields(
    s: SchemaModel,
    key: Seq<char>,
    op: Seq<char>,
    v: ValueModel,
)
    requires
        s.fields.contains_key(key),
        s.fields[key].spec_data_type().spec_is_numeric(),
        v.data_type().spec_is_numeric(),
    ensures
        value_problem(s, key, op, v) is None,
{
}

/// Storing a value under a key makes it the key's value and leaves every
/// other key as it was.
pub proof fn law_get_after_set(m: Map<Seq<char>, ValueModel>, k: Seq<char>, v: ValueModel, other: Seq<char>)
    ensures
        m.insert(k, v).contains_key(k),
        m.insert(k, v)[k] == v,
        other != k ==> m.insert(k, v).contains_key(other) == m.contains_key(other),
        other != k && m.contains_key(other) ==> m.insert(k, v)[other] == m[other],
{
}

/// A typed value stored under a key reads back, as the same type, to the
/// same value.
pub proof fn law_typed_get_after_set<T: FromValue>(m: Map<Seq<char>, ValueModel>, k: Seq<char>, x: T)
    ensures
        m.insert(k, x.value_model()).contains_key(k),
        m.insert(k, x.value_model())[k].data_type() == T::spec_data_type(),
        !(m.insert(k, x.value_model())[k] is Empty),
        m.insert(k, x.value_model())[k] == x.value_model(),
{
    T::lemma_value_model(x);
}

/// Removing a key leaves no value under it and every other key as it was.
pub proof fn law_get_after_remove(m: Map<Seq<char>, ValueModel>, k: Seq<char>, other: Seq<char>)
    ensures
        !m.remove(k).contains_key(k),
        other != k ==> m.remove(k).contains_key(other) == m.contains_key(other),
        other != k && m.contains_key(other) ==> m.remove(k)[other] == m[other],
{
}

/// Merging keeps every key of both sides, and the right side wins where
/// both hold a key.
pub proof fn law_merge_prefers_right(a: Map<Seq<char>, ValueModel>, b: Map<Seq<char>, ValueModel>, k: Seq<char>)
    ensures
        a.union_prefer_right(b).contains_key(k) == (a.contains_key(k) || b.contains_key(k)),
        b.contains_key(k) ==> a.union_prefer_right(b)[k] == b[k],
        a.contains_key(k) && !b.contains_key(k) ==> a.union_prefer_right(b)[k] == a[k],
{
}

/// A filter written in interchange form at the current version reads back
/// as the same filter, whenever its expression holds no empty group.
pub proof fn law_wire_round_trip(f: FilterModel)
    requires
        f.expr matches Some(e) ==> first_empty_group(e) is None,
    ensures
        wire_read(METADATA_FILTER_WIRE_VERSION, f.expr, f.options) == Ok::<FilterModel, Seq<char>>(f),
{
}

/// A filter matches under its own options: matching is matching with the
/// options the filter carries.
pub proof fn law_matches_uses_own_options(f: FilterModel, m: Map<Seq<char>, ValueModel>)
    ensures
        filter_matches(f, m) == eval_opt(f.expr, m, f.options),
{
}

/// A fresh builder carries the default options (missing keys match negative
/// predicates, numbers compare conservatively), and appending predicates or
/// groups never changes the options; only the policy setters do.
pub proof fn law_builder_keeps_options(b: BuilderModel, c: ConditionModel, op: GroupOp, g: BuilderModel)
    ensures
        BuilderModel::empty().options == (FilterMatchOptions {
            missing_key_policy: MissingKeyPolicy::Match,
            number_comparison_policy: NumberComparisonPolicy::Conservative,
        }),
        b.and_condition(c).options == b.options,
        b.or_condition(c).options == b.options,
        b.add_group(op, g).options == b.options,
{
}

/// Combining two filters that carry the same options with AND matches
/// exactly what both match, and with OR what either matches.
pub proof fn law_filter_combinations_match(a: FilterModel, b: FilterModel, m: Map<Seq<char>, ValueModel>)
    requires
        a.options == b.options,
    ensures
        filter_matches(FilterModel { expr: and_opt(a.expr, b.expr), options: a.options }, m) == (
        filter_matches(a, m) && filter_matches(b, m)),
        filter_matches(FilterModel { expr: or_opt(a.expr, b.expr), options: a.options }, m) == (
        filter_matches(a, m) || filter_matches(b, m)),
{
    law_and_conjoins(a.expr, b.expr, m, a.options);
    law_or_disjoins(a.expr, b.expr, m, a.options);
}

/// Range predicates are allowed on every numeric field, floats and
/// arbitrary-precision numbers included, and on string fields: on such a
/// declared field a range predicate has exactly the problems of an equality
/// predicate.
pub proof fn law_numeric_and_string_fields_admit_ranges(
    s: SchemaModel,
    key: Seq<char>,
    op: Seq<char>,
    v: ValueModel,
)
    requires
        s.fields.contains_key(key),
        s.fields[key].spec_data_type().spec_is_numeric() || s.fields[key].spec_data_type()
            == DataType::String,
    ensures
        range_problem(s, key, op, v) == value_problem(s, key, op, v),
{
}

/// The numeric data types are the fixed-width integers, the two float
/// widths and the arbitrary-precision numbers.
pub proof fn law_numeric_data_types(t: DataType)
    ensures
        t.spec_is_numeric() <==> (t == DataType::Int8 || t == DataType::Int16 || t == DataType::Int32
            || t == DataType::Int64 || t == DataType::Int128 || t == DataType::UInt8 || t
            == DataType::UInt16 || t == DataType::UInt32 || t == DataType::UInt64 || t
            == DataType::UInt128 || t == DataType::IntSize || t == DataType::UIntSize || t
            == DataType::Float32 || t == DataType::Float64 || t == DataType::BigInteger || t
            == DataType::BigDecimal),
{
}

/// Outside JSON payloads, two values are the same exactly when they are
/// equal: the same variant holding the same contents.
pub proof fn law_same_value_is_equality(a: ValueModel, b: ValueModel)
    requires
        !(a is Json && b is Json),
    ensures
        value_same(a, b) <==> a == b,
{
}

/// Two values that are not both numbers are equal under either policy
/// exactly when they are the same; outside JSON payloads that is plain
/// equality, so `true` and `false` differ.
pub proof fn law_non_numeric_equality(a: ValueModel, b: ValueModel, policy: NumberComparisonPolicy)
    requires
        !(a.is_numeric() && b.is_numeric()),
        !(a is Json && b is Json),
    ensures
        spec_values_equal(a, b, policy) <==> a == b,
{
}

} // verus!
