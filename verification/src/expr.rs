//! [`FilterExpr`]: the expression tree behind a metadata filter.
use vstd::prelude::*;
use crate::condition::{Condition, ConditionModel, condition_holds};
use crate::metadata::Metadata;
use crate::policy::FilterMatchOptions;
use crate::value::ValueModel;

verus! {

/// A filter expression tree.
#[derive(Debug)]
pub enum FilterExpr {
    /// A leaf condition.
    Condition(Condition),
    /// All child expressions must match.
    And(Vec<FilterExpr>),
    /// At least one child expression must match.
    Or(Vec<FilterExpr>),
    /// Negates the child expression.
    Not(Box<FilterExpr>),
    /// Matches nothing.
    False,
}

/// The mathematical model of a [`FilterExpr`].
pub enum ExprModel {
    /// A leaf condition.
    Condition(ConditionModel),
    /// All children must match.
    And(Seq<ExprModel>),
    /// At least one child must match.
    Or(Seq<ExprModel>),
    /// Negation.
    Not(Box<ExprModel>),
    /// Matches nothing.
    False,
}

/// The model of an expression.
pub open spec fn expr_model(e: FilterExpr) -> ExprModel
    decreases e,
{
    match e {
        FilterExpr::Condition(c) => ExprModel::Condition(c@),
        FilterExpr::And(v) => ExprModel::And(exprs_model(v@)),
        FilterExpr::Or(v) => ExprModel::Or(exprs_model(v@)),
        FilterExpr::Not(b) => ExprModel::Not(Box::new(expr_model(*b))),
        FilterExpr::False => ExprModel::False,
    }
}

/// The models of a sequence of expressions.
pub open spec fn exprs_model(s: Seq<FilterExpr>) -> Seq<ExprModel>
    decreases s,
{
    if s.len() == 0 {
        Seq::empty()
    } else {
        exprs_model(s.drop_last()).push(expr_model(s.last()))
    }
}

/// The models of a sequence are taken element by element.
pub proof fn lemma_exprs_model(s: Seq<FilterExpr>)
    ensures
        exprs_model(s).len() == s.len(),
        forall|i: int| 0 <= i < s.len() ==> #[trigger] exprs_model(s)[i] == expr_model(s[i]),
    decreases s.len(),
{
    if s.len() > 0 {
        lemma_exprs_model(s.drop_last());
    }
}

impl View for FilterExpr {
    type V = ExprModel;

    open spec fn view(&self) -> ExprModel {
        expr_model(*self)
    }
}

/// Whether metadata `m` satisfies expression `e` under `options`.
pub open spec fn eval(e: ExprModel, m: Map<Seq<char>, ValueModel>, options: FilterMatchOptions) -> bool
    decreases e,
{
    match e {
        ExprModel::Condition(c) => condition_holds(c, m, options),
        ExprModel::And(cs) => eval_all(cs, m, options),
        ExprModel::Or(cs) => eval_any(cs, m, options),
        ExprModel::Not(b) => !eval(*b, m, options),
        ExprModel::False => false,
    }
}

/// Every expression of the sequence matches.
pub open spec fn eval_all(
    cs: Seq<ExprModel>,
    m: Map<Seq<char>, ValueModel>,
    options: FilterMatchOptions,
) -> bool
    decreases cs,
{
    if cs.len() == 0 {
        true
    } else {
        eval_all(cs.drop_last(), m, options) && eval(cs.last(), m, options)
    }
}

/// Some expression of the sequence matches.
pub open spec fn eval_any(
    cs: Seq<ExprModel>,
    m: Map<Seq<char>, ValueModel>,
    options: FilterMatchOptions,
) -> bool
    decreases cs,
{
    if cs.len() == 0 {
        false
    } else {
        eval_any(cs.drop_last(), m, options) || eval(cs.last(), m, options)
    }
}

/// `eval_all` holds when every element matches, `eval_any` when some does.
pub proof fn lemma_eval_seq(cs: Seq<ExprModel>, m: Map<Seq<char>, ValueModel>, options: FilterMatchOptions)
    ensures
        eval_all(cs, m, options) <==> forall|i: int| 0 <= i < cs.len() ==> #[trigger] eval(cs[i], m, options),
        eval_any(cs, m, options) <==> exists|i: int| 0 <= i < cs.len() && #[trigger] eval(cs[i], m, options),
    decreases cs.len(),
{
    if cs.len() > 0 {
        let d = cs.drop_last();
        lemma_eval_seq(d, m, options);
        assert forall|i: int| 0 <= i < d.len() implies d[i] == cs[i] by {}
        if eval_any(cs, m, options) {
            if eval_any(d, m, options) {
                let i = choose|i: int| 0 <= i < d.len() && #[trigger] eval(d[i], m, options);
                assert(eval(cs[i], m, options));
            } else {
                assert(eval(cs[cs.len() - 1], m, options));
            }
        }
        if eval_all(d, m, options) && eval(cs.last(), m, options) {
            assert forall|i: int| 0 <= i < cs.len() implies #[trigger] eval(cs[i], m, options) by {
                if i < d.len() {
                    assert(eval(d[i], m, options));
                }
            }
        }
        if forall|i: int| 0 <= i < cs.len() ==> #[trigger] eval(cs[i], m, options) {
            assert(eval(cs[cs.len() - 1], m, options));
            assert forall|i: int| 0 <= i < d.len() implies #[trigger] eval(d[i], m, options) by {
                assert(eval(cs[i], m, options));
            }
        }
        if exists|i: int| 0 <= i < cs.len() && #[trigger] eval(cs[i], m, options) {
            let i = choose|i: int| 0 <= i < cs.len() && #[trigger] eval(cs[i], m, options);
            if i < d.len() {
                assert(eval(d[i], m, options));
            }
        }
    }
}

/// The children an expression contributes to an `And` node: the children
/// of an `And`, or the expression itself.
pub open spec fn and_children(e: ExprModel) -> Seq<ExprModel> {
    match e {
        ExprModel::And(cs) => cs,
        _ => seq![e],
    }
}

/// The children an expression contributes to an `Or` node: the children of
/// an `Or`, or the expression itself.
pub open spec fn or_children(e: ExprModel) -> Seq<ExprModel> {
    match e {
        ExprModel::Or(cs) => cs,
        _ => seq![e],
    }
}

/// The conjunction of two expressions: `False` when either is `False`, else
/// one `And` node holding the children of both, nested `And` nodes
/// flattened.
pub open spec fn and_model(l: ExprModel, r: ExprModel) -> ExprModel {
    if l is False || r is False {
        ExprModel::False
    } else {
        ExprModel::And(and_children(l) + and_children(r))
    }
}

/// The disjunction of two expressions: the other one when either is
/// `False`, else one `Or` node holding the children of both, nested `Or`
/// nodes flattened.
pub open spec fn or_model(l: ExprModel, r: ExprModel) -> ExprModel {
    if l is False {
        r
    } else if r is False {
        l
    } else {
        ExprModel::Or(or_children(l) + or_children(r))
    }
}

/// `l` extended by `r` as one more `And` child: the children of `l` when it
/// is an `And` node, else `l` itself, followed by `r` as it stands.
pub open spec fn and_append_model(l: ExprModel, r: ExprModel) -> ExprModel {
    ExprModel::And(and_children(l).push(r))
}

/// `l` extended by `r` as one more `Or` child: the children of `l` when it
/// is an `Or` node, else `l` itself, followed by `r` as it stands.
pub open spec fn or_append_model(l: ExprModel, r: ExprModel) -> ExprModel {
    ExprModel::Or(or_children(l).push(r))
}

/// The negation of an optional expression, where `None` matches everything:
/// `None` becomes `False`, `False` becomes `None`, a double negation
/// cancels, and anything else is wrapped in `Not`.
pub open spec fn negate_model(e: Option<ExprModel>) -> Option<ExprModel> {
    match e {
        None => Some(ExprModel::False),
        Some(ExprModel::False) => None,
        Some(ExprModel::Not(b)) => Some(*b),
        Some(x) => Some(ExprModel::Not(Box::new(x))),
    }
}

/// Whether metadata satisfies an optional expression; `None` matches
/// everything.
pub open spec fn eval_opt(e: Option<ExprModel>, m: Map<Seq<char>, ValueModel>, options: FilterMatchOptions) -> bool {
    match e {
        None => true,
        Some(x) => eval(x, m, options),
    }
}

/// The children of two expressions concatenated match together exactly when
/// each side's children do.
proof fn lemma_eval_concat(
    a: Seq<ExprModel>,
    b: Seq<ExprModel>,
    m: Map<Seq<char>, ValueModel>,
    options: FilterMatchOptions,
)
    ensures
        eval_all(a + b, m, options) == (eval_all(a, m, options) && eval_all(b, m, options)),
        eval_any(a + b, m, options) == (eval_any(a, m, options) || eval_any(b, m, options)),
{
    lemma_eval_seq(a, m, options);
    lemma_eval_seq(b, m, options);
    lemma_eval_seq(a + b, m, options);
    if eval_all(a, m, options) && eval_all(b, m, options) {
        assert forall|i: int| 0 <= i < (a + b).len() implies #[trigger] eval((a + b)[i], m, options) by {
            if i < a.len() {
                assert(eval(a[i], m, options));
            } else {
                assert(eval(b[i - a.len()], m, options));
            }
        }
    }
    if eval_all(a + b, m, options) {
        assert forall|i: int| 0 <= i < a.len() implies #[trigger] eval(a[i], m, options) by {
            assert(eval((a + b)[i], m, options));
        }
        assert forall|i: int| 0 <= i < b.len() implies #[trigger] eval(b[i], m, options) by {
            assert(eval((a + b)[i + a.len()], m, options));
        }
    }
    if eval_any(a + b, m, options) {
        let i = choose|i: int| 0 <= i < (a + b).len() && #[trigger] eval((a + b)[i], m, options);
        if i < a.len() {
            assert(eval(a[i], m, options));
        } else {
            assert(eval(b[i - a.len()], m, options));
        }
    }
    if eval_any(a, m, options) {
        let i = choose|i: int| 0 <= i < a.len() && #[trigger] eval(a[i], m, options);
        assert(eval((a + b)[i], m, options));
    }
    if eval_any(b, m, options) {
        let i = choose|i: int| 0 <= i < b.len() && #[trigger] eval(b[i], m, options);
        assert(eval((a + b)[i + a.len()], m, options));
    }
}

/// An expression matches exactly when the children it contributes to an
/// `And` (or an `Or`) node do.
proof fn lemma_eval_children(e: ExprModel, m: Map<Seq<char>, ValueModel>, options: FilterMatchOptions)
    ensures
        eval_all(and_children(e), m, options) == eval(e, m, options),
        eval_any(or_children(e), m, options) == eval(e, m, options),
{
    let s = seq![e];
    assert(s.drop_last() =~= Seq::<ExprModel>::empty());
    assert(s.last() == e);
    assert(eval_all(Seq::<ExprModel>::empty(), m, options));
    assert(!eval_any(Seq::<ExprModel>::empty(), m, options));
    assert(eval_all(s.drop_last(), m, options));
    assert(!eval_any(s.drop_last(), m, options));
    assert(eval_all(s, m, options) == eval(e, m, options));
    assert(eval_any(s, m, options) == eval(e, m, options));
    match e {
        ExprModel::And(cs) => {
            assert(and_children(e) == cs);
            assert(or_children(e) == s);
        },
        ExprModel::Or(cs) => {
            assert(and_children(e) == s);
            assert(or_children(e) == cs);
        },
        _ => {
            assert(and_children(e) == s);
            assert(or_children(e) == s);
        },
    }
}

/// Conjunction matches exactly when both operands match.
pub proof fn lemma_and_model(l: ExprModel, r: ExprModel, m: Map<Seq<char>, ValueModel>, options: FilterMatchOptions)
    ensures
        eval(and_model(l, r), m, options) == (eval(l, m, options) && eval(r, m, options)),
{
    lemma_eval_children(l, m, options);
    lemma_eval_children(r, m, options);
    lemma_eval_concat(and_children(l), and_children(r), m, options);
}

/// Disjunction matches exactly when either operand matches.
pub proof fn lemma_or_model(l: ExprModel, r: ExprModel, m: Map<Seq<char>, ValueModel>, options: FilterMatchOptions)
    ensures
        eval(or_model(l, r), m, options) == (eval(l, m, options) || eval(r, m, options)),
{
    lemma_eval_children(l, m, options);
    lemma_eval_children(r, m, options);
    lemma_eval_concat(or_children(l), or_children(r), m, options);
}

/// A single child matches exactly when the expression does.
proof fn lemma_eval_single(e: ExprModel, m: Map<Seq<char>, ValueModel>, options: FilterMatchOptions)
    ensures
        eval_all(seq![e], m, options) == eval(e, m, options),
        eval_any(seq![e], m, options) == eval(e, m, options),
{
    let s = seq![e];
    assert(s.drop_last() =~= Seq::<ExprModel>::empty());
    assert(s.last() == e);
    assert(eval_all(Seq::<ExprModel>::empty(), m, options));
    assert(!eval_any(Seq::<ExprModel>::empty(), m, options));
}

/// Appending a child to a conjunction matches exactly when both operands
/// match.
pub proof fn lemma_and_append_model(
    l: ExprModel,
    r: ExprModel,
    m: Map<Seq<char>, ValueModel>,
    options: FilterMatchOptions,
)
    ensures
        eval(and_append_model(l, r), m, options) == (eval(l, m, options) && eval(r, m, options)),
{
    lemma_eval_children(l, m, options);
    lemma_eval_single(r, m, options);
    assert(and_children(l).push(r) =~= and_children(l) + seq![r]);
    lemma_eval_concat(and_children(l), seq![r], m, options);
}

/// Appending a child to a disjunction matches exactly when either operand
/// matches.
pub proof fn lemma_or_append_model(
    l: ExprModel,
    r: ExprModel,
    m: Map<Seq<char>, ValueModel>,
    options: FilterMatchOptions,
)
    ensures
        eval(or_append_model(l, r), m, options) == (eval(l, m, options) || eval(r, m, options)),
{
    lemma_eval_children(l, m, options);
    lemma_eval_single(r, m, options);
    assert(or_children(l).push(r) =~= or_children(l) + seq![r]);
    lemma_eval_concat(or_children(l), seq![r], m, options);
}

/// Negation matches exactly when the operand does not.
pub proof fn lemma_negate_model(e: Option<ExprModel>, m: Map<Seq<char>, ValueModel>, options: FilterMatchOptions)
    ensures
        eval_opt(negate_model(e), m, options) == !eval_opt(e, m, options),
{
}

impl FilterExpr {
    /// Appends the children an expression contributes to an `And` node.
    fn append_and_child(children: &mut Vec<FilterExpr>, expr: FilterExpr)
        ensures
            exprs_model(final(children)@) == exprs_model(old(children)@) + and_children(expr@),
    {
        proof {
            lemma_exprs_model(children@);
        }
        match expr {
            FilterExpr::And(nested) => {
                let mut nested = nested;
                let ghost a = children@;
                let ghost b = nested@;
                children.append(&mut nested);
                proof {
                    lemma_exprs_model(a);
                    lemma_exprs_model(b);
                    lemma_exprs_model(children@);
                    assert(exprs_model(children@) =~= exprs_model(a) + exprs_model(b));
                }
            },
            other => {
                let ghost a = children@;
                let ghost o = other;
                children.push(other);
                proof {
                    lemma_exprs_model(a);
                    lemma_exprs_model(children@);
                    assert(exprs_model(children@) =~= exprs_model(a) + seq![expr_model(o)]);
                }
            },
        }
    }

    /// Appends the children an expression contributes to an `Or` node.
    fn append_or_child(children: &mut Vec<FilterExpr>, expr: FilterExpr)
        ensures
            exprs_model(final(children)@) == exprs_model(old(children)@) + or_children(expr@),
    {
        proof {
            lemma_exprs_model(children@);
        }
        match expr {
            FilterExpr::Or(nested) => {
                let mut nested = nested;
                let ghost a = children@;
                let ghost b = nested@;
                children.append(&mut nested);
                proof {
                    lemma_exprs_model(a);
                    lemma_exprs_model(b);
                    lemma_exprs_model(children@);
                    assert(exprs_model(children@) =~= exprs_model(a) + exprs_model(b));
                }
            },
            other => {
                let ghost a = children@;
                let ghost o = other;
                children.push(other);
                proof {
                    lemma_exprs_model(a);
                    lemma_exprs_model(children@);
                    assert(exprs_model(children@) =~= exprs_model(a) + seq![expr_model(o)]);
                }
            },
        }
    }

    /// Appends `rhs` as one more child of the conjunction `lhs` (see
    /// [`and_append_model`]).
    pub fn and_append(lhs: FilterExpr, rhs: FilterExpr) -> (r: FilterExpr)
        ensures
            r@ == and_append_model(lhs@, rhs@),
    {
        let mut children: Vec<FilterExpr> = Vec::new();
        let ghost l = lhs@;
        FilterExpr::append_and_child(&mut children, lhs);
        proof {
            assert(exprs_model(children@) =~= and_children(l)) by {
                assert(exprs_model(Seq::<FilterExpr>::empty()) =~= Seq::<ExprModel>::empty());
            }
        }
        let ghost before = children@;
        let ghost rm = rhs@;
        children.push(rhs);
        proof {
            assert(children@.drop_last() =~= before);
            assert(exprs_model(children@) =~= exprs_model(before).push(rm));
        }
        FilterExpr::And(children)
    }

    /// Appends `rhs` as one more child of the disjunction `lhs` (see
    /// [`or_append_model`]).
    pub fn or_append(lhs: FilterExpr, rhs: FilterExpr) -> (r: FilterExpr)
        ensures
            r@ == or_append_model(lhs@, rhs@),
    {
        let mut children: Vec<FilterExpr> = Vec::new();
        let ghost l = lhs@;
        FilterExpr::append_or_child(&mut children, lhs);
        proof {
            assert(exprs_model(children@) =~= or_children(l)) by {
                assert(exprs_model(Seq::<FilterExpr>::empty()) =~= Seq::<ExprModel>::empty());
            }
        }
        let ghost before = children@;
        let ghost rm = rhs@;
        children.push(rhs);
        proof {
            assert(children@.drop_last() =~= before);
            assert(exprs_model(children@) =~= exprs_model(before).push(rm));
        }
        FilterExpr::Or(children)
    }

    /// Builds the conjunction of two expressions (see [`and_model`]).
    pub fn and(lhs: FilterExpr, rhs: FilterExpr) -> (r: FilterExpr)
        ensures
            r@ == and_model(lhs@, rhs@),
    {
        if matches!(lhs, FilterExpr::False) || matches!(rhs, FilterExpr::False) {
            return FilterExpr::False;
        }
        let mut children: Vec<FilterExpr> = Vec::new();
        proof {
            assert(exprs_model(children@) =~= Seq::<ExprModel>::empty());
        }
        FilterExpr::append_and_child(&mut children, lhs);
        FilterExpr::append_and_child(&mut children, rhs);
        proof {
            assert(and_children(lhs@) + and_children(rhs@) =~= Seq::<ExprModel>::empty() + and_children(lhs@) + and_children(rhs@));
        }
        FilterExpr::And(children)
    }

    /// Builds the disjunction of two expressions (see [`or_model`]).
    pub fn or(lhs: FilterExpr, rhs: FilterExpr) -> (r: FilterExpr)
        ensures
            r@ == or_model(lhs@, rhs@),
    {
        if matches!(lhs, FilterExpr::False) {
            return rhs;
        }
        if matches!(rhs, FilterExpr::False) {
            return lhs;
        }
        let mut children: Vec<FilterExpr> = Vec::new();
        proof {
            assert(exprs_model(children@) =~= Seq::<ExprModel>::empty());
        }
        FilterExpr::append_or_child(&mut children, lhs);
        FilterExpr::append_or_child(&mut children, rhs);
        proof {
            assert(or_children(lhs@) + or_children(rhs@) =~= Seq::<ExprModel>::empty() + or_children(lhs@) + or_children(rhs@));
        }
        FilterExpr::Or(children)
    }

    /// Negates an optional expression (see [`negate_model`]).
    pub fn negate(expr: Option<FilterExpr>) -> (r: Option<FilterExpr>)
        ensures
            match (r, expr) {
                (Some(x), _) => negate_model(expr_opt_model(expr)) == Some(x@),
                (None, _) => negate_model(expr_opt_model(expr)) is None,
            },
    {
        match expr {
            None => Some(FilterExpr::False),
            Some(FilterExpr::False) => None,
            Some(FilterExpr::Not(inner)) => Some(*inner),
            Some(other) => Some(FilterExpr::Not(Box::new(other))),
        }
    }

    /// Returns `true` when `meta` satisfies this expression under `options`.
    pub fn matches(&self, meta: &Metadata, options: FilterMatchOptions) -> (r: bool)
        ensures
            r == eval(self@, meta@, options),
        decreases self,
    {
        match self {
            FilterExpr::Condition(c) => c.matches(
                meta,
                options.missing_key_policy,
                options.number_comparison_policy,
            ),
            FilterExpr::And(children) => {
                let ghost cs = exprs_model(children@);
                proof {
                    lemma_exprs_model(children@);
                    lemma_eval_seq(cs, meta@, options);
                }
                let mut i: usize = 0;
                while i < children.len()
                    invariant
                        cs == exprs_model(children@),
                        *self == FilterExpr::And(*children),
                        i <= children@.len(),
                        cs.len() == children@.len(),
                        forall|j: int| 0 <= j < i ==> #[trigger] eval(cs[j], meta@, options),
                        forall|j: int| 0 <= j < children@.len() ==> #[trigger] cs[j] == children@[j]@,
                    decreases children.len() - i,
                {
                    proof {
                        assert(decreases_to!(*self => (*self)->And_0));
                        assert(decreases_to!(*children => children[i as int]));
                    }
                    if !children[i].matches(meta, options) {
                        proof {
                            lemma_eval_seq(cs, meta@, options);
                            assert(!eval(cs[i as int], meta@, options));
                        }
                        return false;
                    }
                    i = i + 1;
                }
                proof {
                    lemma_eval_seq(cs, meta@, options);
                }
                true
            },
            FilterExpr::Or(children) => {
                let ghost cs = exprs_model(children@);
                proof {
                    lemma_exprs_model(children@);
                    lemma_eval_seq(cs, meta@, options);
                }
                let mut i: usize = 0;
                while i < children.len()
                    invariant
                        cs == exprs_model(children@),
                        *self == FilterExpr::Or(*children),
                        i <= children@.len(),
                        cs.len() == children@.len(),
                        forall|j: int| 0 <= j < i ==> !#[trigger] eval(cs[j], meta@, options),
                        forall|j: int| 0 <= j < children@.len() ==> #[trigger] cs[j] == children@[j]@,
                    decreases children.len() - i,
                {
                    proof {
                        assert(decreases_to!(*self => (*self)->Or_0));
                        assert(decreases_to!(*children => children[i as int]));
                    }
                    if children[i].matches(meta, options) {
                        proof {
                            lemma_eval_seq(cs, meta@, options);
                            assert(eval(cs[i as int], meta@, options));
                        }
                        return true;
                    }
                    i = i + 1;
                }
                proof {
                    lemma_eval_seq(cs, meta@, options);
                }
                false
            },
            FilterExpr::Not(inner) => !inner.matches(meta, options),
            FilterExpr::False => false,
        }
    }
}

/// The model of an optional expression.
pub open spec fn expr_opt_model(e: Option<FilterExpr>) -> Option<ExprModel> {
    match e {
        Some(x) => Some(x@),
        None => None,
    }
}

/// Copies an expression tree.
pub fn copy_expr(e: &FilterExpr) -> (r: FilterExpr)
    ensures
        r@ == e@,
    decreases e,
{
    match e {
        FilterExpr::Condition(c) => FilterExpr::Condition(c.clone()),
        FilterExpr::And(children) => FilterExpr::And(copy_exprs(e, children)),
        FilterExpr::Or(children) => FilterExpr::Or(copy_exprs(e, children)),
        FilterExpr::Not(inner) => FilterExpr::Not(Box::new(copy_expr(inner))),
        FilterExpr::False => FilterExpr::False,
    }
}

/// Copies the children of an `And` or `Or` node.
fn copy_exprs(parent: &FilterExpr, children: &Vec<FilterExpr>) -> (r: Vec<FilterExpr>)
    requires
        *parent == FilterExpr::And(*children) || *parent == FilterExpr::Or(*children),
    ensures
        exprs_model(r@) == exprs_model(children@),
    decreases parent, 0nat,
{
    let mut out: Vec<FilterExpr> = Vec::new();
    let mut i: usize = 0;
    while i < children.len()
        invariant
            *parent == FilterExpr::And(*children) || *parent == FilterExpr::Or(*children),
            i <= children@.len(),
            out@.len() == i,
            forall|j: int| 0 <= j < i ==> expr_model(#[trigger] out@[j]) == expr_model(children@[j]),
        decreases children.len() - i,
    {
        proof {
            if *parent == FilterExpr::And(*children) {
                assert(decreases_to!(*parent => (*parent)->And_0));
            } else {
                assert(decreases_to!(*parent => (*parent)->Or_0));
            }
            assert(decreases_to!(*children => children[i as int]));
        }
        let c = copy_expr(&children[i]);
        out.push(c);
        i = i + 1;
    }
    proof {
        lemma_exprs_model(out@);
        lemma_exprs_model(children@);
        assert(exprs_model(out@) =~= exprs_model(children@));
    }
    out
}

impl Clone for FilterExpr {
    fn clone(&self) -> (r: Self)
        ensures
            r@ == self@,
    {
        copy_expr(self)
    }
}

} // verus!
