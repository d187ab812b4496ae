//! [`MetadataFilter`] and its builder [`MetadataFilterBuilder`].
use vstd::prelude::*;
use crate::condition::{Condition, ConditionModel, values_model};
use crate::error::{MetadataError, MetadataResult};
use crate::expr::{
    ExprModel, FilterExpr, and_append_model, and_model, copy_expr, eval, eval_opt, expr_opt_model,
    negate_model, or_append_model, or_model,
};
use crate::metadata::Metadata;
use crate::policy::{FilterMatchOptions, MissingKeyPolicy, NumberComparisonPolicy};
use crate::schema::{MetadataSchema, error_is, expr_problem};
use crate::value::{IntoValue, Value, ValueModel};

verus! {

/// An immutable, composable filter over [`Metadata`].
///
/// A filter holds an optional expression, where `None` matches every
/// metadata object, and the policies used by [`MetadataFilter::matches`].
#[derive(Debug)]
pub struct MetadataFilter {
    expr: Option<FilterExpr>,
    options: FilterMatchOptions,
}

/// The mathematical model of a [`MetadataFilter`].
pub struct FilterModel {
    /// The expression; `None` matches everything.
    pub expr: Option<ExprModel>,
    /// The policies used when matching.
    pub options: FilterMatchOptions,
}

impl View for MetadataFilter {
    type V = FilterModel;

    closed spec fn view(&self) -> FilterModel {
        FilterModel { expr: expr_opt_model(self.expr), options: self.options }
    }
}

/// Whether metadata `m` satisfies filter `f` under its own policies.
pub open spec fn filter_matches(f: FilterModel, m: Map<Seq<char>, ValueModel>) -> bool {
    eval_opt(f.expr, m, f.options)
}

/// The conjunction of two optional expressions, where `None` matches
/// everything: the right one joins the left one's `And` node as one more
/// child, or a new `And` node of the two is made.
pub open spec fn and_opt(a: Option<ExprModel>, b: Option<ExprModel>) -> Option<ExprModel> {
    match (a, b) {
        (None, _) => b,
        (_, None) => a,
        (Some(x), Some(y)) => Some(and_append_model(x, y)),
    }
}

/// The disjunction of two optional expressions, where `None` matches
/// everything: the right one joins the left one's `Or` node as one more
/// child, or a new `Or` node of the two is made.
pub open spec fn or_opt(a: Option<ExprModel>, b: Option<ExprModel>) -> Option<ExprModel> {
    match (a, b) {
        (None, _) => None,
        (_, None) => None,
        (Some(x), Some(y)) => Some(or_append_model(x, y)),
    }
}

/// Converts typed values into [`Value`]s, in order.
fn into_values<T: IntoValue>(values: Vec<T>) -> (r: Vec<Value>)
    ensures
        values_model(r@) == values@.map_values(|x: T| x.value_model()),
{
    let ghost orig = values@;
    let mut rest = values;
    let mut out: Vec<Value> = Vec::new();
    while rest.len() > 0
        invariant
            orig.len() == out@.len() + rest@.len(),
            rest@ == orig.skip(out@.len() as int),
            values_model(out@) == orig.map_values(|x: T| x.value_model()).take(out@.len() as int),
        decreases rest.len(),
    {
        let x = rest.remove(0);
        let ghost n = out@.len() as int;
        let v = x.into_value();
        let ghost before = out@;
        out.push(v);
        proof {
            assert(rest@ =~= orig.skip(n + 1));
            assert(x == orig[n]);
            assert(values_model(out@) =~= values_model(before).push(v@));
            assert(values_model(out@) =~= orig.map_values(|x: T| x.value_model()).take(n + 1));
        }
    }
    proof {
        assert(orig.map_values(|x: T| x.value_model()).take(out@.len() as int) =~= orig.map_values(
            |x: T| x.value_model(),
        ));
    }
    out
}

impl MetadataFilter {
    /// Builds a filter from an expression and options.
    pub fn from_parts(expr: Option<FilterExpr>, options: FilterMatchOptions) -> (r: MetadataFilter)
        ensures
            r@.expr == expr_opt_model(expr),
            r@.options == options,
    {
        MetadataFilter { expr, options }
    }

    /// The filter's expression.
    pub(crate) fn expr(&self) -> (r: &Option<FilterExpr>)
        ensures
            expr_opt_model(*r) == self@.expr,
    {
        &self.expr
    }

    /// Creates a builder for a metadata filter.
    pub fn builder() -> (r: MetadataFilterBuilder)
        ensures
            r@ == BuilderModel::empty(),
    {
        MetadataFilterBuilder::new()
    }

    /// Creates a filter that matches every metadata object.
    pub fn all() -> (r: MetadataFilter)
        ensures
            r@.expr is None,
            r@.options == FilterMatchOptions::spec_default(),
    {
        MetadataFilter { expr: None, options: FilterMatchOptions::default() }
    }

    /// Creates a filter that matches no metadata object.
    pub fn none() -> (r: MetadataFilter)
        ensures
            r@.expr == Some(ExprModel::False),
            r@.options == FilterMatchOptions::spec_default(),
    {
        MetadataFilter { expr: Some(FilterExpr::False), options: FilterMatchOptions::default() }
    }

    /// Returns the match options.
    pub fn options(&self) -> (r: FilterMatchOptions)
        ensures
            r == self@.options,
    {
        self.options
    }

    /// Returns this filter with the match options replaced.
    pub fn with_options(self, options: FilterMatchOptions) -> (r: MetadataFilter)
        ensures
            r@.expr == self@.expr,
            r@.options == options,
    {
        MetadataFilter { expr: self.expr, options }
    }

    /// Returns this filter with the missing-key policy replaced.
    pub fn with_missing_key_policy(self, missing_key_policy: MissingKeyPolicy) -> (r: MetadataFilter)
        ensures
            r@.expr == self@.expr,
            r@.options == (FilterMatchOptions { missing_key_policy, ..self@.options }),
    {
        let options = FilterMatchOptions { missing_key_policy, ..self.options };
        MetadataFilter { expr: self.expr, options }
    }

    /// Returns this filter with the number-comparison policy replaced.
    pub fn with_number_comparison_policy(self, number_comparison_policy: NumberComparisonPolicy) -> (r:
        MetadataFilter)
        ensures
            r@.expr == self@.expr,
            r@.options == (FilterMatchOptions { number_comparison_policy, ..self@.options }),
    {
        let options = FilterMatchOptions { number_comparison_policy, ..self.options };
        MetadataFilter { expr: self.expr, options }
    }

    /// Returns the negation of this filter.
    pub fn not(self) -> (r: MetadataFilter)
        ensures
            r@.expr == negate_model(self@.expr),
            r@.options == self@.options,
    {
        MetadataFilter { expr: FilterExpr::negate(self.expr), options: self.options }
    }

    /// Returns `true` if `meta` satisfies this filter.
    pub fn matches(&self, meta: &Metadata) -> (r: bool)
        ensures
            r == filter_matches(self@, meta@),
    {
        self.matches_with_options(meta, self.options)
    }

    /// Returns `true` if `meta` satisfies this filter under `options`.
    pub fn matches_with_options(&self, meta: &Metadata, options: FilterMatchOptions) -> (r: bool)
        ensures
            r == eval_opt(self@.expr, meta@, options),
    {
        match &self.expr {
            None => true,
            Some(e) => e.matches(meta, options),
        }
    }

    /// Returns `true` if `meta` satisfies this filter under
    /// `missing_key_policy` and the conservative number-comparison policy.
    pub fn matches_with_missing_key_policy(&self, meta: &Metadata, missing_key_policy: MissingKeyPolicy) -> (r:
        bool)
        ensures
            r == eval_opt(
                self@.expr,
                meta@,
                FilterMatchOptions {
                    missing_key_policy,
                    number_comparison_policy: NumberComparisonPolicy::Conservative,
                },
            ),
    {
        self.matches_with_options(
            meta,
            FilterMatchOptions {
                missing_key_policy,
                number_comparison_policy: NumberComparisonPolicy::Conservative,
            },
        )
    }

    /// Returns `true` if `meta` satisfies this filter under the given
    /// policies.
    pub fn matches_with_policies(
        &self,
        meta: &Metadata,
        missing_key_policy: MissingKeyPolicy,
        number_comparison_policy: NumberComparisonPolicy,
    ) -> (r: bool)
        ensures
            r == eval_opt(
                self@.expr,
                meta@,
                FilterMatchOptions { missing_key_policy, number_comparison_policy },
            ),
    {
        self.matches_with_options(meta, FilterMatchOptions { missing_key_policy, number_comparison_policy })
    }

    /// A filter of one condition, with the default options.
    pub open spec fn condition_model(c: ConditionModel) -> FilterModel {
        FilterModel {
            expr: Some(ExprModel::Condition(c)),
            options: FilterMatchOptions::spec_default(),
        }
    }

    /// Creates a filter of one condition, with the default options.
    pub fn condition(c: Condition) -> (r: MetadataFilter)
        ensures
            r@ == Self::condition_model(c@),
    {
        MetadataFilter {
            expr: Some(FilterExpr::Condition(c)),
            options: FilterMatchOptions::default(),
        }
    }

    /// Creates the filter `key == value`.
    pub fn eq<T: IntoValue>(key: &str, value: T) -> (r: MetadataFilter)
        ensures
            r@ == Self::condition_model(
                ConditionModel::Equal { key: key@, value: value.value_model() },
            ),
    {
        Self::condition(Condition::Equal { key: key.to_string(), value: value.into_value() })
    }

    /// Creates the filter `key != value`.
    pub fn ne<T: IntoValue>(key: &str, value: T) -> (r: MetadataFilter)
        ensures
            r@ == Self::condition_model(
                ConditionModel::NotEqual { key: key@, value: value.value_model() },
            ),
    {
        Self::condition(Condition::NotEqual { key: key.to_string(), value: value.into_value() })
    }

    /// Creates the filter `key > value`.
    pub fn gt<T: IntoValue>(key: &str, value: T) -> (r: MetadataFilter)
        ensures
            r@ == Self::condition_model(
                ConditionModel::Greater { key: key@, value: value.value_model() },
            ),
    {
        Self::condition(Condition::Greater { key: key.to_string(), value: value.into_value() })
    }

    /// Creates the filter `key >= value`.
    pub fn gte<T: IntoValue>(key: &str, value: T) -> (r: MetadataFilter)
        ensures
            r@ == Self::condition_model(
                ConditionModel::GreaterEqual { key: key@, value: value.value_model() },
            ),
    {
        Self::condition(Condition::GreaterEqual { key: key.to_string(), value: value.into_value() })
    }

    /// Creates the filter `key < value`.
    pub fn lt<T: IntoValue>(key: &str, value: T) -> (r: MetadataFilter)
        ensures
            r@ == Self::condition_model(
                ConditionModel::Less { key: key@, value: value.value_model() },
            ),
    {
        Self::condition(Condition::Less { key: key.to_string(), value: value.into_value() })
    }

    /// Creates the filter `key <= value`.
    pub fn lte<T: IntoValue>(key: &str, value: T) -> (r: MetadataFilter)
        ensures
            r@ == Self::condition_model(
                ConditionModel::LessEqual { key: key@, value: value.value_model() },
            ),
    {
        Self::condition(Condition::LessEqual { key: key.to_string(), value: value.into_value() })
    }

    /// Creates the filter `key == value`; it never fails.
    pub fn equal<T: IntoValue>(key: &str, value: T) -> (r: MetadataResult<MetadataFilter>)
        ensures
            r matches Ok(f) && f@ == Self::condition_model(
                ConditionModel::Equal { key: key@, value: value.value_model() },
            ),
    {
        Ok(Self::eq(key, value))
    }

    /// Creates the filter `key != value`; it never fails.
    pub fn not_equal<T: IntoValue>(key: &str, value: T) -> (r: MetadataResult<MetadataFilter>)
        ensures
            r matches Ok(f) && f@ == Self::condition_model(
                ConditionModel::NotEqual { key: key@, value: value.value_model() },
            ),
    {
        Ok(Self::ne(key, value))
    }

    /// Creates the filter `key > value`; it never fails.
    pub fn greater<T: IntoValue>(key: &str, value: T) -> (r: MetadataResult<MetadataFilter>)
        ensures
            r matches Ok(f) && f@ == Self::condition_model(
                ConditionModel::Greater { key: key@, value: value.value_model() },
            ),
    {
        Ok(Self::gt(key, value))
    }

    /// Creates the filter `key >= value`; it never fails.
    pub fn greater_equal<T: IntoValue>(key: &str, value: T) -> (r: MetadataResult<MetadataFilter>)
        ensures
            r matches Ok(f) && f@ == Self::condition_model(
                ConditionModel::GreaterEqual { key: key@, value: value.value_model() },
            ),
    {
        Ok(Self::gte(key, value))
    }

    /// Creates the filter `key < value`; it never fails.
    pub fn less<T: IntoValue>(key: &str, value: T) -> (r: MetadataResult<MetadataFilter>)
        ensures
            r matches Ok(f) && f@ == Self::condition_model(
                ConditionModel::Less { key: key@, value: value.value_model() },
            ),
    {
        Ok(Self::lt(key, value))
    }

    /// Creates the filter `key <= value`; it never fails.
    pub fn less_equal<T: IntoValue>(key: &str, value: T) -> (r: MetadataResult<MetadataFilter>)
        ensures
            r matches Ok(f) && f@ == Self::condition_model(
                ConditionModel::LessEqual { key: key@, value: value.value_model() },
            ),
    {
        Ok(Self::lte(key, value))
    }

    /// Creates the filter "`key` is present".
    pub fn exists_key(key: &str) -> (r: MetadataFilter)
        ensures
            r@ == Self::condition_model(ConditionModel::Exists { key: key@ }),
    {
        Self::condition(Condition::Exists { key: key.to_string() })
    }

    /// Creates the filter "`key` is absent".
    pub fn not_exists(key: &str) -> (r: MetadataFilter)
        ensures
            r@ == Self::condition_model(ConditionModel::NotExists { key: key@ }),
    {
        Self::condition(Condition::NotExists { key: key.to_string() })
    }

    /// Creates the filter "the value of `key` is one of `values`"; it never
    /// fails.
    pub fn in_values<T: IntoValue>(key: &str, values: Vec<T>) -> (r: MetadataResult<MetadataFilter>)
        ensures
            r matches Ok(f) && f@ == Self::condition_model(
                ConditionModel::In {
                    key: key@,
                    values: values@.map_values(|x: T| x.value_model()),
                },
            ),
    {
        Ok(Self::condition(Condition::In { key: key.to_string(), values: into_values(values) }))
    }

    /// Creates the filter "the value of `key` is none of `values`"; it
    /// never fails.
    pub fn not_in_values<T: IntoValue>(key: &str, values: Vec<T>) -> (r: MetadataResult<MetadataFilter>)
        ensures
            r matches Ok(f) && f@ == Self::condition_model(
                ConditionModel::NotIn {
                    key: key@,
                    values: values@.map_values(|x: T| x.value_model()),
                },
            ),
    {
        Ok(Self::condition(Condition::NotIn { key: key.to_string(), values: into_values(values) }))
    }

    /// Combines two filters with a logical AND. When this filter is already
    /// an `And` node, `other` is appended to its children as one child;
    /// otherwise a new `And` node holds the two. A filter that matches
    /// everything leaves the other unchanged. The result carries this
    /// filter's options; `other`'s are not kept.
    pub fn and(self, other: MetadataFilter) -> (r: MetadataFilter)
        ensures
            r@.expr == and_opt(self@.expr, other@.expr),
            r@.options == self@.options,
    {
        let expr = match (self.expr, other.expr) {
            (None, b) => b,
            (a, None) => a,
            (Some(x), Some(y)) => Some(FilterExpr::and_append(x, y)),
        };
        MetadataFilter { expr, options: self.options }
    }

    /// Combines two filters with a logical OR. When this filter is already
    /// an `Or` node, `other` is appended to its children as one child;
    /// otherwise a new `Or` node holds the two. A filter that matches
    /// everything makes the result match everything. The result carries
    /// this filter's options; `other`'s are not kept.
    pub fn or(self, other: MetadataFilter) -> (r: MetadataFilter)
        ensures
            r@.expr == or_opt(self@.expr, other@.expr),
            r@.options == self@.options,
    {
        let expr = match (self.expr, other.expr) {
            (None, _) => None,
            (_, None) => None,
            (Some(x), Some(y)) => Some(FilterExpr::or_append(x, y)),
        };
        MetadataFilter { expr, options: self.options }
    }
}

impl Clone for MetadataFilter {
    fn clone(&self) -> (r: Self)
        ensures
            r@ == self@,
    {
        let expr = match &self.expr {
            None => None,
            Some(e) => Some(copy_expr(e)),
        };
        MetadataFilter { expr, options: self.options }
    }
}

impl Default for MetadataFilter {
    fn default() -> (r: Self)
        ensures
            r@.expr is None,
            r@.options == FilterMatchOptions::spec_default(),
    {
        MetadataFilter::all()
    }
}

/// How a group built by a closure joins the builder's expression.
pub enum GroupOp {
    /// `and(..)`: conjunction with the group.
    And,
    /// `or(..)`: disjunction with the group.
    Or,
    /// `and_not(..)`: conjunction with the negated group.
    AndNot,
    /// `or_not(..)`: disjunction with the negated group.
    OrNot,
}

/// The name of a group operation, as error messages print it.
pub open spec fn group_name(op: GroupOp) -> Seq<char> {
    match op {
        GroupOp::And => "and"@,
        GroupOp::Or => "or"@,
        GroupOp::AndNot => "and_not"@,
        GroupOp::OrNot => "or_not"@,
    }
}

/// The message of an empty group: `empty '<op>' filter group is not
/// allowed`.
pub open spec fn empty_group_message(op: GroupOp) -> Seq<char> {
    "empty '"@ + group_name(op) + "' filter group is not allowed"@
}

/// A fluent builder of [`MetadataFilter`]s.
///
/// Predicates are appended to the expression built so far, joined by AND
/// (the plain and `and_*` methods) or OR (the `or_*` methods); the first
/// predicate starts the expression. Groups built by closures are appended
/// as one child. A group without any predicate is an error reported by
/// [`MetadataFilterBuilder::build`].
#[derive(Debug)]
pub struct MetadataFilterBuilder {
    expr: Option<FilterExpr>,
    options: FilterMatchOptions,
    has_predicate: bool,
    error: Option<String>,
}

/// The mathematical model of a [`MetadataFilterBuilder`].
pub struct BuilderModel {
    /// The expression built so far; `None` before the first predicate.
    pub expr: Option<ExprModel>,
    /// The options the filter will carry.
    pub options: FilterMatchOptions,
    /// Some predicate has been appended.
    pub has_predicate: bool,
    /// The first structural error met, if any.
    pub error: Option<Seq<char>>,
}

impl View for MetadataFilterBuilder {
    type V = BuilderModel;

    closed spec fn view(&self) -> BuilderModel {
        BuilderModel {
            expr: expr_opt_model(self.expr),
            options: self.options,
            has_predicate: self.has_predicate,
            error: match self.error {
                Some(s) => Some(s@),
                None => None,
            },
        }
    }
}

/// Appends `x` to `e` with AND; the first predicate starts the expression.
pub open spec fn append_and(e: Option<ExprModel>, x: ExprModel) -> Option<ExprModel> {
    match e {
        None => Some(x),
        Some(a) => Some(and_model(a, x)),
    }
}

/// Appends `x` to `e` with OR; the first predicate starts the expression.
pub open spec fn append_or(e: Option<ExprModel>, x: ExprModel) -> Option<ExprModel> {
    match e {
        None => Some(x),
        Some(a) => Some(or_model(a, x)),
    }
}

impl BuilderModel {
    /// A fresh builder: no expression, default options, no error.
    pub open spec fn empty() -> BuilderModel {
        BuilderModel {
            expr: None,
            options: FilterMatchOptions::spec_default(),
            has_predicate: false,
            error: None,
        }
    }

    /// The builder with `c` appended by AND.
    pub open spec fn and_condition(self, c: ConditionModel) -> BuilderModel {
        BuilderModel {
            expr: append_and(self.expr, ExprModel::Condition(c)),
            has_predicate: true,
            ..self
        }
    }

    /// The builder with `c` appended by OR.
    pub open spec fn or_condition(self, c: ConditionModel) -> BuilderModel {
        BuilderModel {
            expr: append_or(self.expr, ExprModel::Condition(c)),
            has_predicate: true,
            ..self
        }
    }

    /// The builder with the group built in `g` appended by `op`.
    ///
    /// An earlier error stays; an error of the group is taken over; a group
    /// without predicates records an empty-group error. Otherwise the
    /// group's expression, negated for `and_not` and `or_not`, is joined to
    /// the builder's; a negated group that matches everything leaves a
    /// conjunction unchanged and turns a disjunction into match-all.
    pub open spec fn add_group(self, op: GroupOp, g: BuilderModel) -> BuilderModel {
        if self.error is Some {
            self
        } else if g.error is Some {
            BuilderModel { error: g.error, ..self }
        } else if !g.has_predicate {
            BuilderModel { error: Some(empty_group_message(op)), ..self }
        } else {
            let x = match op {
                GroupOp::And | GroupOp::Or => g.expr,
                GroupOp::AndNot | GroupOp::OrNot => negate_model(g.expr),
            };
            let expr = match (op, x) {
                (GroupOp::And, Some(y)) | (GroupOp::AndNot, Some(y)) => append_and(self.expr, y),
                (GroupOp::Or, Some(y)) | (GroupOp::OrNot, Some(y)) => append_or(self.expr, y),
                (GroupOp::And, None) | (GroupOp::AndNot, None) => self.expr,
                (_, None) => None,
            };
            BuilderModel { expr, has_predicate: true, ..self }
        }
    }
}

impl MetadataFilterBuilder {
    /// Creates a fresh builder.
    pub fn new() -> (r: MetadataFilterBuilder)
        ensures
            r@ == BuilderModel::empty(),
    {
        MetadataFilterBuilder {
            expr: None,
            options: FilterMatchOptions::default(),
            has_predicate: false,
            error: None,
        }
    }

    /// Appends one condition with AND.
    fn push_and(self, c: Condition) -> (r: MetadataFilterBuilder)
        ensures
            r@ == self@.and_condition(c@),
    {
        let x = FilterExpr::Condition(c);
        let expr = match self.expr {
            None => Some(x),
            Some(a) => Some(FilterExpr::and(a, x)),
        };
        MetadataFilterBuilder { expr, has_predicate: true, ..self }
    }

    /// Appends one condition with OR.
    fn push_or(self, c: Condition) -> (r: MetadataFilterBuilder)
        ensures
            r@ == self@.or_condition(c@),
    {
        let x = FilterExpr::Condition(c);
        let expr = match self.expr {
            None => Some(x),
            Some(a) => Some(FilterExpr::or(a, x)),
        };
        MetadataFilterBuilder { expr, has_predicate: true, ..self }
    }

    /// Appends the group built by `group` from a fresh builder.
    fn push_group<F: FnOnce(MetadataFilterBuilder) -> MetadataFilterBuilder>(self, op: GroupOp, group: F) -> (r:
        MetadataFilterBuilder)
        requires
            forall|b: MetadataFilterBuilder| group.requires((b,)),
        ensures
            exists|b: MetadataFilterBuilder, g: MetadataFilterBuilder|
                b@ == BuilderModel::empty() && group.ensures((b,), g) && r@ == self@.add_group(
                    op,
                    g@,
                ),
    {
        let b = MetadataFilterBuilder::new();
        let ghost b0 = b;
        let g = group(b);
        if self.error.is_some() {
            return self;
        }
        if g.error.is_some() {
            return MetadataFilterBuilder { error: g.error, ..self };
        }
        if !g.has_predicate {
            let message = match op {
                GroupOp::And => String::from_str("empty 'and' filter group is not allowed"),
                GroupOp::Or => String::from_str("empty 'or' filter group is not allowed"),
                GroupOp::AndNot => String::from_str("empty 'and_not' filter group is not allowed"),
                GroupOp::OrNot => String::from_str("empty 'or_not' filter group is not allowed"),
            };
            proof {
                reveal_strlit("empty 'and' filter group is not allowed");
                reveal_strlit("empty 'or' filter group is not allowed");
                reveal_strlit("empty 'and_not' filter group is not allowed");
                reveal_strlit("empty 'or_not' filter group is not allowed");
                reveal_strlit("empty '");
                reveal_strlit("' filter group is not allowed");
                reveal_strlit("and");
                reveal_strlit("or");
                reveal_strlit("and_not");
                reveal_strlit("or_not");
                assert(message@ =~= empty_group_message(op));
            }
            return MetadataFilterBuilder { error: Some(message), ..self };
        }
        let x = match op {
            GroupOp::And | GroupOp::Or => g.expr,
            GroupOp::AndNot | GroupOp::OrNot => FilterExpr::negate(g.expr),
        };
        let expr = match op {
            GroupOp::And | GroupOp::AndNot => match x {
                Some(y) => match self.expr {
                    None => Some(y),
                    Some(a) => Some(FilterExpr::and(a, y)),
                },
                None => self.expr,
            },
            GroupOp::Or | GroupOp::OrNot => match x {
                Some(y) => match self.expr {
                    None => Some(y),
                    Some(a) => Some(FilterExpr::or(a, y)),
                },
                None => None,
            },
        };
        MetadataFilterBuilder { expr, has_predicate: true, ..self }
    }

    /// Appends with AND the predicate "the value of `key` equals `value`".
    pub fn eq<T: IntoValue>(self, key: &str, value: T) -> (r: MetadataFilterBuilder)
        ensures
            r@ == self@.and_condition(ConditionModel::Equal { key: key@, value: value.value_model() }),
    {
        self.push_and(Condition::Equal { key: key.to_string(), value: value.into_value() })
    }

    /// Appends with AND the predicate "the value of `key` differs from `value`".
    pub fn ne<T: IntoValue>(self, key: &str, value: T) -> (r: MetadataFilterBuilder)
        ensures
            r@ == self@.and_condition(ConditionModel::NotEqual { key: key@, value: value.value_model() }),
    {
        self.push_and(Condition::NotEqual { key: key.to_string(), value: value.into_value() })
    }

    /// Appends with AND the predicate "the value of `key` is less than `value`".
    pub fn lt<T: IntoValue>(self, key: &str, value: T) -> (r: MetadataFilterBuilder)
        ensures
            r@ == self@.and_condition(ConditionModel::Less { key: key@, value: value.value_model() }),
    {
        self.push_and(Condition::Less { key: key.to_string(), value: value.into_value() })
    }

    /// Appends with AND the predicate "the value of `key` is at most `value`".
    pub fn le<T: IntoValue>(self, key: &str, value: T) -> (r: MetadataFilterBuilder)
        ensures
            r@ == self@.and_condition(ConditionModel::LessEqual { key: key@, value: value.value_model() }),
    {
        self.push_and(Condition::LessEqual { key: key.to_string(), value: value.into_value() })
    }

    /// Appends with AND the predicate "the value of `key` is greater than `value`".
    pub fn gt<T: IntoValue>(self, key: &str, value: T) -> (r: MetadataFilterBuilder)
        ensures
            r@ == self@.and_condition(ConditionModel::Greater { key: key@, value: value.value_model() }),
    {
        self.push_and(Condition::Greater { key: key.to_string(), value: value.into_value() })
    }

    /// Appends with AND the predicate "the value of `key` is at least `value`".
    pub fn ge<T: IntoValue>(self, key: &str, value: T) -> (r: MetadataFilterBuilder)
        ensures
            r@ == self@.and_condition(ConditionModel::GreaterEqual { key: key@, value: value.value_model() }),
    {
        self.push_and(Condition::GreaterEqual { key: key.to_string(), value: value.into_value() })
    }

    /// Appends with AND the predicate "the value of `key` is one of `values`".
    pub fn in_set<T: IntoValue>(self, key: &str, values: Vec<T>) -> (r: MetadataFilterBuilder)
        ensures
            r@ == self@.and_condition(
                ConditionModel::In { key: key@, values: values@.map_values(|x: T| x.value_model()) },
            ),
    {
        self.push_and(Condition::In { key: key.to_string(), values: into_values(values) })
    }

    /// Appends with AND the predicate "the value of `key` is none of `values`".
    pub fn not_in_set<T: IntoValue>(self, key: &str, values: Vec<T>) -> (r: MetadataFilterBuilder)
        ensures
            r@ == self@.and_condition(
                ConditionModel::NotIn { key: key@, values: values@.map_values(|x: T| x.value_model()) },
            ),
    {
        self.push_and(Condition::NotIn { key: key.to_string(), values: into_values(values) })
    }

    /// Appends with AND the predicate "`key` is present".
    pub fn exists_key(self, key: &str) -> (r: MetadataFilterBuilder)
        ensures
            r@ == self@.and_condition(ConditionModel::Exists { key: key@ }),
    {
        self.push_and(Condition::Exists { key: key.to_string() })
    }

    /// Appends with AND the predicate "`key` is absent".
    pub fn not_exists(self, key: &str) -> (r: MetadataFilterBuilder)
        ensures
            r@ == self@.and_condition(ConditionModel::NotExists { key: key@ }),
    {
        self.push_and(Condition::NotExists { key: key.to_string() })
    }

    /// Appends with AND the predicate "the value of `key` equals `value`".
    pub fn and_eq<T: IntoValue>(self, key: &str, value: T) -> (r: MetadataFilterBuilder)
        ensures
            r@ == self@.and_condition(ConditionModel::Equal { key: key@, value: value.value_model() }),
    {
        self.push_and(Condition::Equal { key: key.to_string(), value: value.into_value() })
    }

    /// Appends with AND the predicate "the value of `key` differs from `value`".
    pub fn and_ne<T: IntoValue>(self, key: &str, value: T) -> (r: MetadataFilterBuilder)
        ensures
            r@ == self@.and_condition(ConditionModel::NotEqual { key: key@, value: value.value_model() }),
    {
        self.push_and(Condition::NotEqual { key: key.to_string(), value: value.into_value() })
    }

    /// Appends with AND the predicate "the value of `key` is less than `value`".
    pub fn and_lt<T: IntoValue>(self, key: &str, value: T) -> (r: MetadataFilterBuilder)
        ensures
            r@ == self@.and_condition(ConditionModel::Less { key: key@, value: value.value_model() }),
    {
        self.push_and(Condition::Less { key: key.to_string(), value: value.into_value() })
    }

    /// Appends with AND the predicate "the value of `key` is at most `value`".
    pub fn and_le<T: IntoValue>(self, key: &str, value: T) -> (r: MetadataFilterBuilder)
        ensures
            r@ == self@.and_condition(ConditionModel::LessEqual { key: key@, value: value.value_model() }),
    {
        self.push_and(Condition::LessEqual { key: key.to_string(), value: value.into_value() })
    }

    /// Appends with AND the predicate "the value of `key` is greater than `value`".
    pub fn and_gt<T: IntoValue>(self, key: &str, value: T) -> (r: MetadataFilterBuilder)
        ensures
            r@ == self@.and_condition(ConditionModel::Greater { key: key@, value: value.value_model() }),
    {
        self.push_and(Condition::Greater { key: key.to_string(), value: value.into_value() })
    }

    /// Appends with AND the predicate "the value of `key` is at least `value`".
    pub fn and_ge<T: IntoValue>(self, key: &str, value: T) -> (r: MetadataFilterBuilder)
        ensures
            r@ == self@.and_condition(ConditionModel::GreaterEqual { key: key@, value: value.value_model() }),
    {
        self.push_and(Condition::GreaterEqual { key: key.to_string(), value: value.into_value() })
    }

    /// Appends with AND the predicate "the value of `key` is one of `values`".
    pub fn and_in_set<T: IntoValue>(self, key: &str, values: Vec<T>) -> (r: MetadataFilterBuilder)
        ensures
            r@ == self@.and_condition(
                ConditionModel::In { key: key@, values: values@.map_values(|x: T| x.value_model()) },
            ),
    {
        self.push_and(Condition::In { key: key.to_string(), values: into_values(values) })
    }

    /// Appends with AND the predicate "the value of `key` is none of `values`".
    pub fn and_not_in_set<T: IntoValue>(self, key: &str, values: Vec<T>) -> (r: MetadataFilterBuilder)
        ensures
            r@ == self@.and_condition(
                ConditionModel::NotIn { key: key@, values: values@.map_values(|x: T| x.value_model()) },
            ),
    {
        self.push_and(Condition::NotIn { key: key.to_string(), values: into_values(values) })
    }

    /// Appends with AND the predicate "`key` is present".
    pub fn and_exists(self, key: &str) -> (r: MetadataFilterBuilder)
        ensures
            r@ == self@.and_condition(ConditionModel::Exists { key: key@ }),
    {
        self.push_and(Condition::Exists { key: key.to_string() })
    }

    /// Appends with AND the predicate "`key` is absent".
    pub fn and_not_exists(self, key: &str) -> (r: MetadataFilterBuilder)
        ensures
            r@ == self@.and_condition(ConditionModel::NotExists { key: key@ }),
    {
        self.push_and(Condition::NotExists { key: key.to_string() })
    }

    /// Appends with OR the predicate "the value of `key` equals `value`".
    pub fn or_eq<T: IntoValue>(self, key: &str, value: T) -> (r: MetadataFilterBuilder)
        ensures
            r@ == self@.or_condition(ConditionModel::Equal { key: key@, value: value.value_model() }),
    {
        self.push_or(Condition::Equal { key: key.to_string(), value: value.into_value() })
    }

    /// Appends with OR the predicate "the value of `key` differs from `value`".
    pub fn or_ne<T: IntoValue>(self, key: &str, value: T) -> (r: MetadataFilterBuilder)
        ensures
            r@ == self@.or_condition(ConditionModel::NotEqual { key: key@, value: value.value_model() }),
    {
        self.push_or(Condition::NotEqual { key: key.to_string(), value: value.into_value() })
    }

    /// Appends with OR the predicate "the value of `key` is less than `value`".
    pub fn or_lt<T: IntoValue>(self, key: &str, value: T) -> (r: MetadataFilterBuilder)
        ensures
            r@ == self@.or_condition(ConditionModel::Less { key: key@, value: value.value_model() }),
    {
        self.push_or(Condition::Less { key: key.to_string(), value: value.into_value() })
    }

    /// Appends with OR the predicate "the value of `key` is at most `value`".
    pub fn or_le<T: IntoValue>(self, key: &str, value: T) -> (r: MetadataFilterBuilder)
        ensures
            r@ == self@.or_condition(ConditionModel::LessEqual { key: key@, value: value.value_model() }),
    {
        self.push_or(Condition::LessEqual { key: key.to_string(), value: value.into_value() })
    }

    /// Appends with OR the predicate "the value of `key` is greater than `value`".
    pub fn or_gt<T: IntoValue>(self, key: &str, value: T) -> (r: MetadataFilterBuilder)
        ensures
            r@ == self@.or_condition(ConditionModel::Greater { key: key@, value: value.value_model() }),
    {
        self.push_or(Condition::Greater { key: key.to_string(), value: value.into_value() })
    }

    /// Appends with OR the predicate "the value of `key` is at least `value`".
    pub fn or_ge<T: IntoValue>(self, key: &str, value: T) -> (r: MetadataFilterBuilder)
        ensures
            r@ == self@.or_condition(ConditionModel::GreaterEqual { key: key@, value: value.value_model() }),
    {
        self.push_or(Condition::GreaterEqual { key: key.to_string(), value: value.into_value() })
    }

    /// Appends with OR the predicate "the value of `key` is one of `values`".
    pub fn or_in_set<T: IntoValue>(self, key: &str, values: Vec<T>) -> (r: MetadataFilterBuilder)
        ensures
            r@ == self@.or_condition(
                ConditionModel::In { key: key@, values: values@.map_values(|x: T| x.value_model()) },
            ),
    {
        self.push_or(Condition::In { key: key.to_string(), values: into_values(values) })
    }

    /// Appends with OR the predicate "the value of `key` is none of `values`".
    pub fn or_not_in_set<T: IntoValue>(self, key: &str, values: Vec<T>) -> (r: MetadataFilterBuilder)
        ensures
            r@ == self@.or_condition(
                ConditionModel::NotIn { key: key@, values: values@.map_values(|x: T| x.value_model()) },
            ),
    {
        self.push_or(Condition::NotIn { key: key.to_string(), values: into_values(values) })
    }

    /// Appends with OR the predicate "`key` is present".
    pub fn or_exists(self, key: &str) -> (r: MetadataFilterBuilder)
        ensures
            r@ == self@.or_condition(ConditionModel::Exists { key: key@ }),
    {
        self.push_or(Condition::Exists { key: key.to_string() })
    }

    /// Appends with OR the predicate "`key` is absent".
    pub fn or_not_exists(self, key: &str) -> (r: MetadataFilterBuilder)
        ensures
            r@ == self@.or_condition(ConditionModel::NotExists { key: key@ }),
    {
        self.push_or(Condition::NotExists { key: key.to_string() })
    }

    /// Appends the group built by `group`, joined with AND; `group` receives a fresh builder.
    pub fn and<F: FnOnce(MetadataFilterBuilder) -> MetadataFilterBuilder>(self, group: F) -> (r:
        MetadataFilterBuilder)
        requires
            forall|b: MetadataFilterBuilder| group.requires((b,)),
        ensures
            exists|b: MetadataFilterBuilder, g: MetadataFilterBuilder|
                b@ == BuilderModel::empty() && group.ensures((b,), g) && r@ == self@.add_group(
                    GroupOp::And,
                    g@,
                ),
    {
        self.push_group(GroupOp::And, group)
    }

    /// Appends the group built by `group`, joined with OR; `group` receives a fresh builder.
    pub fn or<F: FnOnce(MetadataFilterBuilder) -> MetadataFilterBuilder>(self, group: F) -> (r:
        MetadataFilterBuilder)
        requires
            forall|b: MetadataFilterBuilder| group.requires((b,)),
        ensures
            exists|b: MetadataFilterBuilder, g: MetadataFilterBuilder|
                b@ == BuilderModel::empty() && group.ensures((b,), g) && r@ == self@.add_group(
                    GroupOp::Or,
                    g@,
                ),
    {
        self.push_group(GroupOp::Or, group)
    }

    /// Appends the negation of the group built by `group`, joined with AND; `group` receives a fresh builder.
    pub fn and_not<F: FnOnce(MetadataFilterBuilder) -> MetadataFilterBuilder>(self, group: F) -> (r:
        MetadataFilterBuilder)
        requires
            forall|b: MetadataFilterBuilder| group.requires((b,)),
        ensures
            exists|b: MetadataFilterBuilder, g: MetadataFilterBuilder|
                b@ == BuilderModel::empty() && group.ensures((b,), g) && r@ == self@.add_group(
                    GroupOp::AndNot,
                    g@,
                ),
    {
        self.push_group(GroupOp::AndNot, group)
    }

    /// Appends the negation of the group built by `group`, joined with OR; `group` receives a fresh builder.
    pub fn or_not<F: FnOnce(MetadataFilterBuilder) -> MetadataFilterBuilder>(self, group: F) -> (r:
        MetadataFilterBuilder)
        requires
            forall|b: MetadataFilterBuilder| group.requires((b,)),
        ensures
            exists|b: MetadataFilterBuilder, g: MetadataFilterBuilder|
                b@ == BuilderModel::empty() && group.ensures((b,), g) && r@ == self@.add_group(
                    GroupOp::OrNot,
                    g@,
                ),
    {
        self.push_group(GroupOp::OrNot, group)
    }

    /// Negates the expression built so far (see [`negate_model`]).
    pub fn not(self) -> (r: MetadataFilterBuilder)
        ensures
            r@ == (BuilderModel { expr: negate_model(self@.expr), ..self@ }),
    {
        MetadataFilterBuilder { expr: FilterExpr::negate(self.expr), ..self }
    }

    /// Sets the missing-key policy of the filter.
    pub fn missing_key_policy(self, policy: MissingKeyPolicy) -> (r: MetadataFilterBuilder)
        ensures
            r@ == (BuilderModel {
                options: FilterMatchOptions { missing_key_policy: policy, ..self@.options },
                ..self@
            }),
    {
        let options = FilterMatchOptions { missing_key_policy: policy, ..self.options };
        MetadataFilterBuilder { options, ..self }
    }

    /// Sets the number-comparison policy of the filter.
    pub fn number_comparison_policy(self, policy: NumberComparisonPolicy) -> (r: MetadataFilterBuilder)
        ensures
            r@ == (BuilderModel {
                options: FilterMatchOptions { number_comparison_policy: policy, ..self@.options },
                ..self@
            }),
    {
        let options = FilterMatchOptions { number_comparison_policy: policy, ..self.options };
        MetadataFilterBuilder { options, ..self }
    }

    /// Replaces the options of the filter.
    pub fn with_options(self, options: FilterMatchOptions) -> (r: MetadataFilterBuilder)
        ensures
            r@ == (BuilderModel { options, ..self@ }),
    {
        MetadataFilterBuilder { options, ..self }
    }

    /// Builds the filter.
    ///
    /// # Errors
    ///
    /// [`MetadataError::InvalidFilterExpression`] with the first structural
    /// error met, such as an empty group.
    pub fn build(self) -> (r: MetadataResult<MetadataFilter>)
        ensures
            match r {
                Ok(f) => self@.error is None && f@ == (FilterModel {
                    expr: self@.expr,
                    options: self@.options,
                }),
                Err(MetadataError::InvalidFilterExpression { message }) => self@.error == Some(
                    message@,
                ),
                Err(_) => false,
            },
    {
        match self.error {
            Some(message) => Err(MetadataError::InvalidFilterExpression { message }),
            None => Ok(MetadataFilter { expr: self.expr, options: self.options }),
        }
    }

    /// Builds the filter and validates it against `schema`.
    ///
    /// # Errors
    ///
    /// The error of [`MetadataFilterBuilder::build`], or else the schema's
    /// error for the first condition with a problem (see
    /// [`MetadataSchema::validate_filter`]).
    pub fn build_checked(self, schema: &MetadataSchema) -> (r: MetadataResult<MetadataFilter>)
        ensures
            match self@.error {
                Some(m) => r matches Err(MetadataError::InvalidFilterExpression { message }) && message@
                    == m,
                None => match self@.expr {
                    Some(x) if expr_problem(schema@, x) is Some => r matches Err(e) && error_is(
                        e,
                        expr_problem(schema@, x)->0,
                    ),
                    _ => r matches Ok(f) && f@ == (FilterModel {
                        expr: self@.expr,
                        options: self@.options,
                    }),
                },
            },
    {
        let filter = match self.build() {
            Ok(f) => f,
            Err(e) => {
                return Err(e);
            },
        };
        match schema.validate_filter(&filter) {
            Ok(()) => Ok(filter),
            Err(e) => Err(e),
        }
    }
}

impl Default for MetadataFilterBuilder {
    fn default() -> (r: Self)
        ensures
            r@ == BuilderModel::empty(),
    {
        MetadataFilterBuilder::new()
    }
}

impl Clone for MetadataFilterBuilder {
    fn clone(&self) -> (r: Self)
        ensures
            r@ == self@,
    {
        let expr = match &self.expr {
            None => None,
            Some(e) => Some(copy_expr(e)),
        };
        let error = match &self.error {
            None => None,
            Some(s) => Some(s.clone()),
        };
        MetadataFilterBuilder { expr, options: self.options, has_predicate: self.has_predicate, error }
    }
}

} // verus!
