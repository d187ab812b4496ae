//! [`Condition`]: one comparison predicate against one metadata key.
use vstd::prelude::*;
use crate::compare::{compare_values, spec_compare_values, spec_values_equal, values_equal};
use crate::metadata::Metadata;
use crate::policy::{FilterMatchOptions, MissingKeyPolicy, NumberComparisonPolicy};
use crate::text::Order;
use crate::value::{Value, ValueModel, copy_value};

verus! {

/// A single comparison operator applied to one metadata key.
#[derive(Debug)]
pub enum Condition {
    /// The stored value equals `value`.
    Equal {
        /// The metadata key.
        key: String,
        /// The expected value.
        value: Value,
    },
    /// The stored value differs from `value`.
    NotEqual {
        /// The metadata key.
        key: String,
        /// The value to compare against.
        value: Value,
    },
    /// The stored value is less than `value`.
    Less {
        /// The metadata key.
        key: String,
        /// The upper bound (exclusive).
        value: Value,
    },
    /// The stored value is at most `value`.
    LessEqual {
        /// The metadata key.
        key: String,
        /// The upper bound (inclusive).
        value: Value,
    },
    /// The stored value is greater than `value`.
    Greater {
        /// The metadata key.
        key: String,
        /// The lower bound (exclusive).
        value: Value,
    },
    /// The stored value is at least `value`.
    GreaterEqual {
        /// The metadata key.
        key: String,
        /// The lower bound (inclusive).
        value: Value,
    },
    /// The stored value is one of `values`.
    In {
        /// The metadata key.
        key: String,
        /// The acceptable values.
        values: Vec<Value>,
    },
    /// The stored value is none of `values`.
    NotIn {
        /// The metadata key.
        key: String,
        /// The excluded values.
        values: Vec<Value>,
    },
    /// The key is present, whatever its value.
    Exists {
        /// The metadata key.
        key: String,
    },
    /// The key is absent.
    NotExists {
        /// The metadata key.
        key: String,
    },
}

/// The mathematical model of a [`Condition`].
pub enum ConditionModel {
    /// The stored value equals `value`.
    Equal { key: Seq<char>, value: ValueModel },
    /// The stored value differs from `value`.
    NotEqual { key: Seq<char>, value: ValueModel },
    /// The stored value is less than `value`.
    Less { key: Seq<char>, value: ValueModel },
    /// The stored value is at most `value`.
    LessEqual { key: Seq<char>, value: ValueModel },
    /// The stored value is greater than `value`.
    Greater { key: Seq<char>, value: ValueModel },
    /// The stored value is at least `value`.
    GreaterEqual { key: Seq<char>, value: ValueModel },
    /// The stored value is one of `values`.
    In { key: Seq<char>, values: Seq<ValueModel> },
    /// The stored value is none of `values`.
    NotIn { key: Seq<char>, values: Seq<ValueModel> },
    /// The key is present.
    Exists { key: Seq<char> },
    /// The key is absent.
    NotExists { key: Seq<char> },
}

/// The models of a sequence of values.
pub open spec fn values_model(v: Seq<Value>) -> Seq<ValueModel> {
    v.map_values(|x: Value| x@)
}

impl View for Condition {
    type V = ConditionModel;

    open spec fn view(&self) -> ConditionModel {
        match self {
            Condition::Equal { key, value } => ConditionModel::Equal { key: key@, value: value@ },
            Condition::NotEqual { key, value } => ConditionModel::NotEqual { key: key@, value: value@ },
            Condition::Less { key, value } => ConditionModel::Less { key: key@, value: value@ },
            Condition::LessEqual { key, value } => ConditionModel::LessEqual {
                key: key@,
                value: value@,
            },
            Condition::Greater { key, value } => ConditionModel::Greater { key: key@, value: value@ },
            Condition::GreaterEqual { key, value } => ConditionModel::GreaterEqual {
                key: key@,
                value: value@,
            },
            Condition::In { key, values } => ConditionModel::In {
                key: key@,
                values: values_model(values@),
            },
            Condition::NotIn { key, values } => ConditionModel::NotIn {
                key: key@,
                values: values_model(values@),
            },
            Condition::Exists { key } => ConditionModel::Exists { key: key@ },
            Condition::NotExists { key } => ConditionModel::NotExists { key: key@ },
        }
    }
}

impl ConditionModel {
    /// The key a condition looks at.
    pub open spec fn key(self) -> Seq<char> {
        match self {
            ConditionModel::Equal { key, .. } => key,
            ConditionModel::NotEqual { key, .. } => key,
            ConditionModel::Less { key, .. } => key,
            ConditionModel::LessEqual { key, .. } => key,
            ConditionModel::Greater { key, .. } => key,
            ConditionModel::GreaterEqual { key, .. } => key,
            ConditionModel::In { key, .. } => key,
            ConditionModel::NotIn { key, .. } => key,
            ConditionModel::Exists { key } => key,
            ConditionModel::NotExists { key } => key,
        }
    }
}

/// The stored value equals one of the candidates.
pub open spec fn equals_any(
    stored: ValueModel,
    values: Seq<ValueModel>,
    policy: NumberComparisonPolicy,
) -> bool {
    exists|i: int| 0 <= i < values.len() && spec_values_equal(stored, #[trigger] values[i], policy)
}

/// Whether metadata `m` satisfies condition `c` under `options`.
///
/// Equality and membership compare numbers by value; ranges order numbers
/// by value and strings lexicographically, and fail on incomparable values.
/// A missing key fails every predicate but the negative ones (not-equal,
/// not-in), for which the missing-key policy decides, and `NotExists`.
pub open spec fn condition_holds(
    c: ConditionModel,
    m: Map<Seq<char>, ValueModel>,
    options: FilterMatchOptions,
) -> bool {
    let p = options.number_comparison_policy;
    let missing = options.missing_key_policy.spec_matches_negative_predicates();
    match c {
        ConditionModel::Equal { key, value } => m.contains_key(key) && spec_values_equal(
            m[key],
            value,
            p,
        ),
        ConditionModel::NotEqual { key, value } => if m.contains_key(key) {
            !spec_values_equal(m[key], value, p)
        } else {
            missing
        },
        ConditionModel::Less { key, value } => m.contains_key(key) && spec_compare_values(
            m[key],
            value,
            p,
        ) == Some(Order::Less),
        ConditionModel::LessEqual { key, value } => m.contains_key(key) && (spec_compare_values(
            m[key],
            value,
            p,
        ) == Some(Order::Less) || spec_compare_values(m[key], value, p) == Some(Order::Equal)),
        ConditionModel::Greater { key, value } => m.contains_key(key) && spec_compare_values(
            m[key],
            value,
            p,
        ) == Some(Order::Greater),
        ConditionModel::GreaterEqual { key, value } => m.contains_key(key) && (
        spec_compare_values(m[key], value, p) == Some(Order::Greater) || spec_compare_values(
            m[key],
            value,
            p,
        ) == Some(Order::Equal)),
        ConditionModel::In { key, values } => m.contains_key(key) && equals_any(
            m[key],
            values,
            p,
        ),
        ConditionModel::NotIn { key, values } => if m.contains_key(key) {
            !equals_any(m[key], values, p)
        } else {
            missing
        },
        ConditionModel::Exists { key } => m.contains_key(key),
        ConditionModel::NotExists { key } => !m.contains_key(key),
    }
}

/// Copies a sequence of values.
pub fn copy_values(v: &Vec<Value>) -> (r: Vec<Value>)
    ensures
        values_model(r@) == values_model(v@),
{
    let mut r: Vec<Value> = Vec::new();
    let mut i: usize = 0;
    while i < v.len()
        invariant
            i <= v@.len(),
            values_model(r@) == values_model(v@).take(i as int),
        decreases v.len() - i,
    {
        let x = copy_value(&v[i]);
        let ghost before = r@;
        r.push(x);
        proof {
            assert(r@ == before.push(x));
            assert(values_model(r@) =~= values_model(before).push(x@));
            assert(values_model(r@) =~= values_model(v@).take(i + 1));
        }
        i = i + 1;
    }
    proof {
        assert(values_model(v@).take(i as int) =~= values_model(v@));
    }
    r
}

/// Returns `true` when `stored` equals one of `values`.
fn any_equal(stored: &Value, values: &Vec<Value>, policy: NumberComparisonPolicy) -> (r: bool)
    ensures
        r == equals_any(stored@, values_model(values@), policy),
{
    let ghost vs = values_model(values@);
    let mut i: usize = 0;
    while i < values.len()
        invariant
            vs == values_model(values@),
            i <= values@.len(),
            forall|j: int| 0 <= j < i ==> !spec_values_equal(stored@, #[trigger] vs[j], policy),
        decreases values.len() - i,
    {
        if values_equal(stored, &values[i], policy) {
            proof {
                assert(vs[i as int] == values@[i as int]@);
            }
            return true;
        }
        i = i + 1;
    }
    false
}

impl Condition {
    /// Returns `true` when `meta` satisfies this condition under the given
    /// policies.
    pub fn matches(
        &self,
        meta: &Metadata,
        missing_key_policy: MissingKeyPolicy,
        number_comparison_policy: NumberComparisonPolicy,
    ) -> (r: bool)
        ensures
            r == condition_holds(
                self@,
                meta@,
                FilterMatchOptions { missing_key_policy, number_comparison_policy },
            ),
    {
        let p = number_comparison_policy;
        match self {
            Condition::Equal { key, value } => match meta.get_raw(key.as_str()) {
                Some(stored) => values_equal(stored, value, p),
                None => false,
            },
            Condition::NotEqual { key, value } => match meta.get_raw(key.as_str()) {
                Some(stored) => !values_equal(stored, value, p),
                None => missing_key_policy.matches_negative_predicates(),
            },
            Condition::Less { key, value } => match meta.get_raw(key.as_str()) {
                Some(stored) => matches!(compare_values(stored, value, p), Some(Order::Less)),
                None => false,
            },
            Condition::LessEqual { key, value } => match meta.get_raw(key.as_str()) {
                Some(stored) => matches!(
                    compare_values(stored, value, p),
                    Some(Order::Less) | Some(Order::Equal)
                ),
                None => false,
            },
            Condition::Greater { key, value } => match meta.get_raw(key.as_str()) {
                Some(stored) => matches!(compare_values(stored, value, p), Some(Order::Greater)),
                None => false,
            },
            Condition::GreaterEqual { key, value } => match meta.get_raw(key.as_str()) {
                Some(stored) => matches!(
                    compare_values(stored, value, p),
                    Some(Order::Greater) | Some(Order::Equal)
                ),
                None => false,
            },
            Condition::In { key, values } => match meta.get_raw(key.as_str()) {
                Some(stored) => any_equal(stored, values, p),
                None => false,
            },
            Condition::NotIn { key, values } => match meta.get_raw(key.as_str()) {
                Some(stored) => !any_equal(stored, values, p),
                None => missing_key_policy.matches_negative_predicates(),
            },
            Condition::Exists { key } => meta.contains_key(key.as_str()),
            Condition::NotExists { key } => !meta.contains_key(key.as_str()),
        }
    }
}

impl Clone for Condition {
    fn clone(&self) -> (r: Self)
        ensures
            r@ == self@,
    {
        match self {
            Condition::Equal { key, value } => Condition::Equal {
                key: key.clone(),
                value: copy_value(value),
            },
            Condition::NotEqual { key, value } => Condition::NotEqual {
                key: key.clone(),
                value: copy_value(value),
            },
            Condition::Less { key, value } => Condition::Less {
                key: key.clone(),
                value: copy_value(value),
            },
            Condition::LessEqual { key, value } => Condition::LessEqual {
                key: key.clone(),
                value: copy_value(value),
            },
            Condition::Greater { key, value } => Condition::Greater {
                key: key.clone(),
                value: copy_value(value),
            },
            Condition::GreaterEqual { key, value } => Condition::GreaterEqual {
                key: key.clone(),
                value: copy_value(value),
            },
            Condition::In { key, values } => Condition::In {
                key: key.clone(),
                values: copy_values(values),
            },
            Condition::NotIn { key, values } => Condition::NotIn {
                key: key.clone(),
                values: copy_values(values),
            },
            Condition::Exists { key } => Condition::Exists { key: key.clone() },
            Condition::NotExists { key } => Condition::NotExists { key: key.clone() },
        }
    }
}

} // verus!
