//! The versioned interchange form of filters: conditions tagged by stable
//! operator names, expression nodes by type, and a format version.
use vstd::prelude::*;
use crate::condition::{Condition, ConditionModel, copy_values, values_model};
use crate::expr::{
    ExprModel, FilterExpr, and_append_model, and_children, and_model, exprs_model, lemma_exprs_model,
    negate_model, or_append_model, or_children, or_model,
};
use crate::filter::{FilterModel, MetadataFilter};
use crate::policy::FilterMatchOptions;
use crate::value::{Value, ValueModel, copy_value};

verus! {

/// The wire format version this library writes and reads.
pub const METADATA_FILTER_WIRE_VERSION: u8 = 1;

/// Returns the wire format version this library writes and reads.
pub fn metadata_filter_wire_version() -> (r: u8)
    ensures
        r == METADATA_FILTER_WIRE_VERSION,
{
    METADATA_FILTER_WIRE_VERSION
}

/// A condition in interchange form, tagged by its operator name (`eq`,
/// `ne`, `lt`, `le`, `gt`, `ge`, `in`, `not_in`, `exists`, `not_exists`).
#[derive(Debug)]
pub enum ConditionWire {
    /// `eq`.
    Eq { key: String, value: Value },
    /// `ne`.
    Ne { key: String, value: Value },
    /// `lt`.
    Lt { key: String, value: Value },
    /// `le`.
    Le { key: String, value: Value },
    /// `gt`.
    Gt { key: String, value: Value },
    /// `ge`.
    Ge { key: String, value: Value },
    /// `in`.
    In { key: String, values: Vec<Value> },
    /// `not_in`.
    NotIn { key: String, values: Vec<Value> },
    /// `exists`.
    Exists { key: String },
    /// `not_exists`.
    NotExists { key: String },
}

impl View for ConditionWire {
    type V = ConditionModel;

    /// The condition a wire condition stands for.
    open spec fn view(&self) -> ConditionModel {
        match self {
            ConditionWire::Eq { key, value } => ConditionModel::Equal { key: key@, value: value@ },
            ConditionWire::Ne { key, value } => ConditionModel::NotEqual { key: key@, value: value@ },
            ConditionWire::Lt { key, value } => ConditionModel::Less { key: key@, value: value@ },
            ConditionWire::Le { key, value } => ConditionModel::LessEqual { key: key@, value: value@ },
            ConditionWire::Gt { key, value } => ConditionModel::Greater { key: key@, value: value@ },
            ConditionWire::Ge { key, value } => ConditionModel::GreaterEqual {
                key: key@,
                value: value@,
            },
            ConditionWire::In { key, values } => ConditionModel::In {
                key: key@,
                values: values_model(values@),
            },
            ConditionWire::NotIn { key, values } => ConditionModel::NotIn {
                key: key@,
                values: values_model(values@),
            },
            ConditionWire::Exists { key } => ConditionModel::Exists { key: key@ },
            ConditionWire::NotExists { key } => ConditionModel::NotExists { key: key@ },
        }
    }
}

/// The stable operator name of a condition in interchange form.
pub open spec fn operator_name(c: ConditionModel) -> Seq<char> {
    match c {
        ConditionModel::Equal { .. } => "eq"@,
        ConditionModel::NotEqual { .. } => "ne"@,
        ConditionModel::Less { .. } => "lt"@,
        ConditionModel::LessEqual { .. } => "le"@,
        ConditionModel::Greater { .. } => "gt"@,
        ConditionModel::GreaterEqual { .. } => "ge"@,
        ConditionModel::In { .. } => "in"@,
        ConditionModel::NotIn { .. } => "not_in"@,
        ConditionModel::Exists { .. } => "exists"@,
        ConditionModel::NotExists { .. } => "not_exists"@,
    }
}

/// The `op` tag a wire condition is written with.
pub open spec fn wire_tag(w: &ConditionWire) -> Seq<char> {
    match w {
        ConditionWire::Eq { .. } => "eq"@,
        ConditionWire::Ne { .. } => "ne"@,
        ConditionWire::Lt { .. } => "lt"@,
        ConditionWire::Le { .. } => "le"@,
        ConditionWire::Gt { .. } => "gt"@,
        ConditionWire::Ge { .. } => "ge"@,
        ConditionWire::In { .. } => "in"@,
        ConditionWire::NotIn { .. } => "not_in"@,
        ConditionWire::Exists { .. } => "exists"@,
        ConditionWire::NotExists { .. } => "not_exists"@,
    }
}

/// Every wire condition stands for the condition its `op` tag names: `lt`
/// is strictly less, `le` less or equal, and so on for each operator.
pub proof fn law_wire_tags_name_operators(w: ConditionWire)
    ensures
        operator_name(w@) == wire_tag(&w),
{
}

impl ConditionWire {
    /// Writes a condition in interchange form, tagged by its operator.
    pub fn from_condition(c: &Condition) -> (r: ConditionWire)
        ensures
            r@ == c@,
            wire_tag(&r) == operator_name(c@),
    {
        match c {
            Condition::Equal { key, value } => ConditionWire::Eq {
                key: key.clone(),
                value: copy_value(value),
            },
            Condition::NotEqual { key, value } => ConditionWire::Ne {
                key: key.clone(),
                value: copy_value(value),
            },
            Condition::Less { key, value } => ConditionWire::Lt {
                key: key.clone(),
                value: copy_value(value),
            },
            Condition::LessEqual { key, value } => ConditionWire::Le {
                key: key.clone(),
                value: copy_value(value),
            },
            Condition::Greater { key, value } => ConditionWire::Gt {
                key: key.clone(),
                value: copy_value(value),
            },
            Condition::GreaterEqual { key, value } => ConditionWire::Ge {
                key: key.clone(),
                value: copy_value(value),
            },
            Condition::In { key, values } => ConditionWire::In {
                key: key.clone(),
                values: copy_values(values),
            },
            Condition::NotIn { key, values } => ConditionWire::NotIn {
                key: key.clone(),
                values: copy_values(values),
            },
            Condition::Exists { key } => ConditionWire::Exists { key: key.clone() },
            Condition::NotExists { key } => ConditionWire::NotExists { key: key.clone() },
        }
    }

    /// Reads a condition back from interchange form, as its tag names it.
    pub fn into_condition(self) -> (r: Condition)
        ensures
            r@ == self@,
            operator_name(r@) == wire_tag(&self),
    {
        match self {
            ConditionWire::Eq { key, value } => Condition::Equal { key, value },
            ConditionWire::Ne { key, value } => Condition::NotEqual { key, value },
            ConditionWire::Lt { key, value } => Condition::Less { key, value },
            ConditionWire::Le { key, value } => Condition::LessEqual { key, value },
            ConditionWire::Gt { key, value } => Condition::Greater { key, value },
            ConditionWire::Ge { key, value } => Condition::GreaterEqual { key, value },
            ConditionWire::In { key, values } => Condition::In { key, values },
            ConditionWire::NotIn { key, values } => Condition::NotIn { key, values },
            ConditionWire::Exists { key } => Condition::Exists { key },
            ConditionWire::NotExists { key } => Condition::NotExists { key },
        }
    }
}

/// An expression node in interchange form, tagged by its type
/// (`condition`, `and`, `or`, `not`, `false`).
#[derive(Debug)]
pub enum FilterExprWire {
    /// A leaf condition.
    Condition { condition: ConditionWire },
    /// All children must match.
    And { children: Vec<FilterExprWire> },
    /// At least one child must match.
    Or { children: Vec<FilterExprWire> },
    /// Negation.
    Not { expr: Box<FilterExprWire> },
    /// Matches nothing.
    False,
}

/// The expression a wire node stands for.
pub open spec fn wire_model(w: FilterExprWire) -> ExprModel
    decreases w,
{
    match w {
        FilterExprWire::Condition { condition } => ExprModel::Condition(condition@),
        FilterExprWire::And { children } => ExprModel::And(wires_model(children@)),
        FilterExprWire::Or { children } => ExprModel::Or(wires_model(children@)),
        FilterExprWire::Not { expr } => ExprModel::Not(Box::new(wire_model(*expr))),
        FilterExprWire::False => ExprModel::False,
    }
}

/// The expressions a sequence of wire nodes stands for.
pub open spec fn wires_model(s: Seq<FilterExprWire>) -> Seq<ExprModel>
    decreases s,
{
    if s.len() == 0 {
        Seq::empty()
    } else {
        wires_model(s.drop_last()).push(wire_model(s.last()))
    }
}

/// The models of a sequence of wire nodes are taken node by node.
pub proof fn lemma_wires_model(s: Seq<FilterExprWire>)
    ensures
        wires_model(s).len() == s.len(),
        forall|i: int| 0 <= i < s.len() ==> #[trigger] wires_model(s)[i] == wire_model(s[i]),
    decreases s.len(),
{
    if s.len() > 0 {
        lemma_wires_model(s.drop_last());
    }
}

impl View for FilterExprWire {
    type V = ExprModel;

    open spec fn view(&self) -> ExprModel {
        wire_model(*self)
    }
}

/// The message of the first empty `and` or `or` group of an expression, in
/// order, if it has one.
pub open spec fn first_empty_group(e: ExprModel) -> Option<Seq<char>>
    decreases e,
{
    match e {
        ExprModel::And(cs) => if cs.len() == 0 {
            Some("empty 'and' filter group is not allowed"@)
        } else {
            first_empty_group_of(cs)
        },
        ExprModel::Or(cs) => if cs.len() == 0 {
            Some("empty 'or' filter group is not allowed"@)
        } else {
            first_empty_group_of(cs)
        },
        ExprModel::Not(b) => first_empty_group(*b),
        _ => None,
    }
}

/// The message of the first empty group among a sequence of expressions.
pub open spec fn first_empty_group_of(cs: Seq<ExprModel>) -> Option<Seq<char>>
    decreases cs,
{
    if cs.len() == 0 {
        None
    } else {
        match first_empty_group_of(cs.drop_last()) {
            Some(m) => Some(m),
            None => first_empty_group(cs.last()),
        }
    }
}

/// An empty group among the first expressions is the first of them all.
proof fn lemma_first_empty_prefix(cs: Seq<ExprModel>, k: int)
    requires
        0 <= k <= cs.len(),
        first_empty_group_of(cs.take(k)) is Some,
    ensures
        first_empty_group_of(cs) == first_empty_group_of(cs.take(k)),
    decreases cs.len(),
{
    if k == cs.len() {
        assert(cs.take(k) =~= cs);
    } else {
        assert(cs.drop_last().take(k) =~= cs.take(k));
        lemma_first_empty_prefix(cs.drop_last(), k);
    }
}

/// The first empty group of two concatenated sequences is the first one of
/// the left, else of the right.
proof fn lemma_first_empty_concat(a: Seq<ExprModel>, b: Seq<ExprModel>)
    ensures
        first_empty_group_of(a + b) == match first_empty_group_of(a) {
            Some(m) => Some(m),
            None => first_empty_group_of(b),
        },
    decreases b.len(),
{
    if b.len() == 0 {
        assert(a + b =~= a);
    } else {
        lemma_first_empty_concat(a, b.drop_last());
        assert((a + b).drop_last() =~= a + b.drop_last());
        assert((a + b).last() == b.last());
    }
}

/// The children an expression without empty groups contributes to an
/// `and` or `or` node hold no empty group either.
proof fn lemma_children_no_empty(e: ExprModel)
    requires
        first_empty_group(e) is None,
    ensures
        and_children(e).len() > 0,
        or_children(e).len() > 0,
        first_empty_group_of(and_children(e)) is None,
        first_empty_group_of(or_children(e)) is None,
{
    let s = seq![e];
    assert(s.drop_last() =~= Seq::<ExprModel>::empty());
    assert(first_empty_group_of(Seq::<ExprModel>::empty()) is None);
    assert(first_empty_group_of(s) == first_empty_group(e));
}

/// Expressions composed by the library hold no empty `and` or `or` group
/// when their parts hold none, so they always survive the wire round trip:
/// conjunction, disjunction and negation all keep the property.
pub proof fn law_compositions_survive_wire(l: ExprModel, r: ExprModel, e: Option<ExprModel>)
    requires
        first_empty_group(l) is None,
        first_empty_group(r) is None,
        e matches Some(x) ==> first_empty_group(x) is None,
    ensures
        first_empty_group(and_model(l, r)) is None,
        first_empty_group(or_model(l, r)) is None,
        first_empty_group(and_append_model(l, r)) is None,
        first_empty_group(or_append_model(l, r)) is None,
        negate_model(e) matches Some(x) ==> first_empty_group(x) is None,
{
    lemma_children_no_empty(l);
    lemma_children_no_empty(r);
    lemma_first_empty_concat(and_children(l), and_children(r));
    lemma_first_empty_concat(or_children(l), or_children(r));
    lemma_children_no_empty(r);
    let s = seq![r];
    assert(s.drop_last() =~= Seq::<ExprModel>::empty());
    assert(first_empty_group_of(s) == first_empty_group(r));
    assert(and_children(l).push(r) =~= and_children(l) + s);
    assert(or_children(l).push(r) =~= or_children(l) + s);
    lemma_first_empty_concat(and_children(l), s);
    lemma_first_empty_concat(or_children(l), s);
}

impl FilterExprWire {
    /// Writes an expression in interchange form.
    pub fn from_expr(e: &FilterExpr) -> (r: FilterExprWire)
        ensures
            r@ == e@,
        decreases e,
    {
        match e {
            FilterExpr::Condition(c) => FilterExprWire::Condition {
                condition: ConditionWire::from_condition(c),
            },
            FilterExpr::And(children) => FilterExprWire::And {
                children: FilterExprWire::from_exprs(e, children),
            },
            FilterExpr::Or(children) => FilterExprWire::Or {
                children: FilterExprWire::from_exprs(e, children),
            },
            FilterExpr::Not(inner) => FilterExprWire::Not {
                expr: Box::new(FilterExprWire::from_expr(inner)),
            },
            FilterExpr::False => FilterExprWire::False,
        }
    }

    /// Writes the children of an `and` or `or` node.
    fn from_exprs(parent: &FilterExpr, children: &Vec<FilterExpr>) -> (r: Vec<FilterExprWire>)
        requires
            *parent == FilterExpr::And(*children) || *parent == FilterExpr::Or(*children),
        ensures
            wires_model(r@) == exprs_model(children@),
        decreases parent, 0nat,
    {
        let mut out: Vec<FilterExprWire> = Vec::new();
        let mut i: usize = 0;
        while i < children.len()
            invariant
                *parent == FilterExpr::And(*children) || *parent == FilterExpr::Or(*children),
                i <= children@.len(),
                out@.len() == i,
                forall|j: int| 0 <= j < i ==> wire_model(#[trigger] out@[j]) == children@[j]@,
            decreases children.len() - i,
        {
            proof {
                if *parent == FilterExpr::And(*children) {
                    assert(decreases_to!(*parent => (*parent)->And_0));
                } else {
                    assert(decreases_to!(*parent => (*parent)->Or_0));
                }
                assert(decreases_to!(*children => children[i as int]));
            }
            let w = FilterExprWire::from_expr(&children[i]);
            out.push(w);
            i = i + 1;
        }
        proof {
            lemma_wires_model(out@);
            lemma_exprs_model(children@);
            assert(wires_model(out@) =~= exprs_model(children@));
        }
        out
    }

    /// Reads an expression back from interchange form.
    ///
    /// # Errors
    ///
    /// The message of the first empty `and` or `or` group, in order (see
    /// [`first_empty_group`]).
    pub fn into_expr(self) -> (r: Result<FilterExpr, String>)
        ensures
            match first_empty_group(self@) {
                None => r matches Ok(e) && e@ == self@,
                Some(m) => r matches Err(msg) && msg@ == m,
            },
        decreases self,
    {
        let ghost whole = self;
        match self {
            FilterExprWire::Condition { condition } => Ok(FilterExpr::Condition(condition.into_condition())),
            FilterExprWire::And { children } => {
                proof {
                    lemma_wires_model(children@);
                }
                if children.len() == 0 {
                    return Err(String::from_str("empty 'and' filter group is not allowed"));
                }
                match FilterExprWire::into_exprs(Ghost(whole), children) {
                    Ok(v) => Ok(FilterExpr::And(v)),
                    Err(m) => Err(m),
                }
            },
            FilterExprWire::Or { children } => {
                proof {
                    lemma_wires_model(children@);
                }
                if children.len() == 0 {
                    return Err(String::from_str("empty 'or' filter group is not allowed"));
                }
                match FilterExprWire::into_exprs(Ghost(whole), children) {
                    Ok(v) => Ok(FilterExpr::Or(v)),
                    Err(m) => Err(m),
                }
            },
            FilterExprWire::Not { expr } => match (*expr).into_expr() {
                Ok(e) => Ok(FilterExpr::Not(Box::new(e))),
                Err(m) => Err(m),
            },
            FilterExprWire::False => Ok(FilterExpr::False),
        }
    }

    /// Reads the children of an `and` or `or` node back, in order.
    fn into_exprs(Ghost(parent): Ghost<FilterExprWire>, children: Vec<FilterExprWire>) -> (r: Result<
        Vec<FilterExpr>,
        String,
    >)
        requires
            parent == (FilterExprWire::And { children }) || parent == (FilterExprWire::Or { children }),
        ensures
            match first_empty_group_of(wires_model(children@)) {
                None => r matches Ok(v) && exprs_model(v@) == wires_model(children@),
                Some(m) => r matches Err(msg) && msg@ == m,
            },
        decreases parent, 0nat,
    {
        let ghost ws = wires_model(children@);
        let ghost orig = children@;
        proof {
            lemma_wires_model(children@);
            assert(ws.take(0) =~= Seq::<ExprModel>::empty());
        }
        let mut rest = children;
        let mut out: Vec<FilterExpr> = Vec::new();
        while rest.len() > 0
            invariant
                parent == (FilterExprWire::And { children: orig_vec_of(parent) }) || parent == (
                FilterExprWire::Or { children: orig_vec_of(parent) }),
                orig_vec_of(parent)@ == orig,
                orig == children@,
                ws == wires_model(orig),
                ws.len() == orig.len(),
                forall|j: int| 0 <= j < orig.len() ==> #[trigger] ws[j] == wire_model(orig[j]),
                orig.len() == out@.len() + rest@.len(),
                rest@ == orig.skip(out@.len() as int),
                first_empty_group_of(ws.take(out@.len() as int)) is None,
                forall|j: int| 0 <= j < out@.len() ==> (#[trigger] out@[j])@ == ws[j],
            decreases rest.len(),
        {
            let n = out.len();
            let w = rest.remove(0);
            proof {
                assert(w == orig[n as int]);
                if parent == (FilterExprWire::And { children: orig_vec_of(parent) }) {
                    assert(decreases_to!(parent => parent->And_children));
                } else {
                    assert(decreases_to!(parent => parent->Or_children));
                }
                assert(decreases_to!(orig_vec_of(parent) => orig_vec_of(parent)[n as int]));
                assert(ws.take(n + 1).drop_last() =~= ws.take(n as int));
                assert(ws.take(n + 1).last() == ws[n as int]);
                assert(rest@ =~= orig.skip(n + 1));
            }
            match w.into_expr() {
                Ok(e) => {
                    out.push(e);
                },
                Err(m) => {
                    proof {
                        assert(ws[n as int] == w@);
                        assert(first_empty_group(w@) is Some);
                        assert(first_empty_group_of(ws.take(n + 1)) == first_empty_group(ws[n as int]));
                        lemma_first_empty_prefix(ws, n + 1);
                        assert(first_empty_group_of(ws) == Some(m@));
                        assert(ws == wires_model(orig));
                    }
                    return Err(m);
                },
            }
        }
        proof {
            lemma_exprs_model(out@);
            assert(ws.take(out@.len() as int) =~= ws);
            assert(exprs_model(out@) =~= ws);
        }
        Ok(out)
    }
}

/// The children of an `and` or `or` wire node.
pub open spec fn orig_vec_of(w: FilterExprWire) -> Vec<FilterExprWire> {
    match w {
        FilterExprWire::And { children } => children,
        FilterExprWire::Or { children } => children,
        _ => arbitrary(),
    }
}

/// A filter in interchange form: a format version, an optional expression
/// and the match options.
#[derive(Debug)]
pub struct MetadataFilterWire {
    /// The format version.
    pub version: u8,
    /// The expression; `None` matches everything.
    pub expr: Option<FilterExprWire>,
    /// The match options.
    pub options: FilterMatchOptions,
}

/// The decimal digits of a number.
pub open spec fn decimal(n: nat) -> Seq<char>
    decreases n,
{
    if n < 10 {
        seq![digit_char(n)]
    } else {
        decimal(n / 10) + seq![digit_char(n % 10)]
    }
}

/// The character of a decimal digit.
pub open spec fn digit_char(d: nat) -> char {
    if d == 0 { '0' } else if d == 1 { '1' } else if d == 2 { '2' } else if d == 3 { '3' } else if d
        == 4 { '4' } else if d == 5 { '5' } else if d == 6 { '6' } else if d == 7 { '7' } else if d
        == 8 { '8' } else { '9' }
}

/// Returns the digit `d` as a one-character string.
fn digit_str(d: u8) -> (r: &'static str)
    requires
        d < 10,
    ensures
        r@ == seq![digit_char(d as nat)],
{
    proof {
        reveal_strlit("0");
        reveal_strlit("1");
        reveal_strlit("2");
        reveal_strlit("3");
        reveal_strlit("4");
        reveal_strlit("5");
        reveal_strlit("6");
        reveal_strlit("7");
        reveal_strlit("8");
        reveal_strlit("9");
    }
    let r = if d == 0 { "0" } else if d == 1 { "1" } else if d == 2 { "2" } else if d == 3 { "3" } else if d
        == 4 { "4" } else if d == 5 { "5" } else if d == 6 { "6" } else if d == 7 { "7" } else if d
        == 8 { "8" } else { "9" };
    proof {
        assert(r@ =~= seq![digit_char(d as nat)]);
    }
    r
}

/// Writes a byte in decimal.
fn u8_decimal(n: u8) -> (r: String)
    ensures
        r@ == decimal(n as nat),
{
    if n < 10 {
        String::from_str(digit_str(n))
    } else if n < 100 {
        let r = String::from_str(digit_str(n / 10)).concat(digit_str(n % 10));
        proof {
            let q = (n / 10) as nat;
            assert(q < 10);
            assert(decimal(q) == seq![digit_char(q)]);
            assert(decimal(n as nat) == decimal(q) + seq![digit_char((n % 10) as nat)]);
            assert(r@ =~= decimal(n as nat));
        }
        r
    } else {
        let r = String::from_str(digit_str(n / 100)).concat(digit_str((n / 10) % 10)).concat(
            digit_str(n % 10),
        );
        proof {
            let q = (n / 10) as nat;
            let h = (n / 100) as nat;
            assert(q / 10 == h);
            assert(h < 10);
            assert(q >= 10);
            assert(decimal(h) == seq![digit_char(h)]);
            assert(decimal(q) == decimal(h) + seq![digit_char(q % 10)]);
            assert(decimal(n as nat) == decimal(q) + seq![digit_char((n % 10) as nat)]);
            assert(r@ =~= decimal(n as nat));
        }
        r
    }
}

/// The message for an unsupported wire format version.
pub open spec fn version_message(version: u8) -> Seq<char> {
    "unsupported MetadataFilter wire format version "@ + decimal(version as nat) + "; expected 1"@
}

/// The expression of a filter in interchange form, as the expression it
/// stands for.
pub open spec fn wire_opt_model(w: Option<FilterExprWire>) -> Option<ExprModel> {
    match w {
        Some(x) => Some(x@),
        None => None,
    }
}

/// What reading a filter back from interchange form gives: an unsupported
/// version is refused, then an expression with an empty group, and anything
/// else is the filter it stands for.
pub open spec fn wire_read(version: u8, expr: Option<ExprModel>, options: FilterMatchOptions) -> Result<
    FilterModel,
    Seq<char>,
> {
    if version != METADATA_FILTER_WIRE_VERSION {
        Err(version_message(version))
    } else {
        match expr {
            None => Ok(FilterModel { expr: None, options }),
            Some(e) => match first_empty_group(e) {
                None => Ok(FilterModel { expr: Some(e), options }),
                Some(m) => Err(m),
            },
        }
    }
}

impl MetadataFilterWire {
    /// Writes a filter in interchange form, with the current version.
    pub fn from_filter(filter: &MetadataFilter) -> (r: MetadataFilterWire)
        ensures
            r.version == METADATA_FILTER_WIRE_VERSION,
            match (r.expr, filter@.expr) {
                (Some(w), Some(e)) => w@ == e,
                (None, None) => true,
                _ => false,
            },
            r.options == filter@.options,
            wire_opt_model(r.expr) == filter@.expr,
    {
        let expr = match filter.expr() {
            None => None,
            Some(e) => Some(FilterExprWire::from_expr(e)),
        };
        MetadataFilterWire { version: METADATA_FILTER_WIRE_VERSION, expr, options: filter.options() }
    }

    /// Reads a filter back from interchange form.
    ///
    /// # Errors
    ///
    /// The version message when the version is not the current one, and
    /// otherwise the message of the first empty group of the expression.
    pub fn into_filter(self) -> (r: Result<MetadataFilter, String>)
        ensures
            self.version != METADATA_FILTER_WIRE_VERSION ==> (r matches Err(m) && m@ == version_message(
                self.version,
            )),
            self.version == METADATA_FILTER_WIRE_VERSION ==> match self.expr {
                None => r matches Ok(f) && f@ == (FilterModel { expr: None, options: self.options }),
                Some(w) => match first_empty_group(w@) {
                    None => r matches Ok(f) && f@ == (FilterModel {
                        expr: Some(w@),
                        options: self.options,
                    }),
                    Some(m) => r matches Err(msg) && msg@ == m,
                },
            },
            match (r, wire_read(self.version, wire_opt_model(self.expr), self.options)) {
                (Ok(f), Ok(g)) => f@ == g,
                (Err(msg), Err(m)) => msg@ == m,
                _ => false,
            },
    {
        if self.version != METADATA_FILTER_WIRE_VERSION {
            return Err(
                String::from_str("unsupported MetadataFilter wire format version ").concat(
                    u8_decimal(self.version).as_str(),
                ).concat("; expected 1"),
            );
        }
        match self.expr {
            None => Ok(MetadataFilter::from_parts(None, self.options)),
            Some(w) => match w.into_expr() {
                Ok(e) => Ok(MetadataFilter::from_parts(Some(e), self.options)),
                Err(m) => Err(m),
            },
        }
    }
}

/// An expression in the earlier interchange form, which carried no version
/// and named its nodes after the expression variants.
#[derive(Debug)]
pub enum LegacyFilterExpr {
    /// A leaf condition.
    Condition(Condition),
    /// All children must match.
    And(Vec<LegacyFilterExpr>),
    /// At least one child must match.
    Or(Vec<LegacyFilterExpr>),
    /// Negation.
    Not(Box<LegacyFilterExpr>),
    /// Matches nothing.
    False,
}

/// The expression an earlier-form node stands for.
pub open spec fn legacy_model(w: LegacyFilterExpr) -> ExprModel
    decreases w,
{
    match w {
        LegacyFilterExpr::Condition(c) => ExprModel::Condition(c@),
        LegacyFilterExpr::And(v) => ExprModel::And(legacies_model(v@)),
        LegacyFilterExpr::Or(v) => ExprModel::Or(legacies_model(v@)),
        LegacyFilterExpr::Not(b) => ExprModel::Not(Box::new(legacy_model(*b))),
        LegacyFilterExpr::False => ExprModel::False,
    }
}

/// The expressions a sequence of earlier-form nodes stands for.
pub open spec fn legacies_model(s: Seq<LegacyFilterExpr>) -> Seq<ExprModel>
    decreases s,
{
    if s.len() == 0 {
        Seq::empty()
    } else {
        legacies_model(s.drop_last()).push(legacy_model(s.last()))
    }
}

/// The models of a sequence of earlier-form nodes are taken node by node.
pub proof fn lemma_legacies_model(s: Seq<LegacyFilterExpr>)
    ensures
        legacies_model(s).len() == s.len(),
        forall|i: int| 0 <= i < s.len() ==> #[trigger] legacies_model(s)[i] == legacy_model(s[i]),
    decreases s.len(),
{
    if s.len() > 0 {
        lemma_legacies_model(s.drop_last());
    }
}

/// The children of an `And` or `Or` earlier-form node.
pub open spec fn legacy_children(w: LegacyFilterExpr) -> Vec<LegacyFilterExpr> {
    match w {
        LegacyFilterExpr::And(v) => v,
        LegacyFilterExpr::Or(v) => v,
        _ => arbitrary(),
    }
}

impl LegacyFilterExpr {
    /// Reads an expression from the earlier form; every node is kept as it
    /// is.
    pub fn into_expr(self) -> (r: FilterExpr)
        ensures
            r@ == legacy_model(self),
        decreases self,
    {
        let ghost whole = self;
        match self {
            LegacyFilterExpr::Condition(c) => FilterExpr::Condition(c),
            LegacyFilterExpr::And(children) => FilterExpr::And(
                LegacyFilterExpr::into_exprs(Ghost(whole), children),
            ),
            LegacyFilterExpr::Or(children) => FilterExpr::Or(
                LegacyFilterExpr::into_exprs(Ghost(whole), children),
            ),
            LegacyFilterExpr::Not(inner) => FilterExpr::Not(Box::new((*inner).into_expr())),
            LegacyFilterExpr::False => FilterExpr::False,
        }
    }

    /// Reads the children of an `And` or `Or` node, in order.
    fn into_exprs(Ghost(parent): Ghost<LegacyFilterExpr>, children: Vec<LegacyFilterExpr>) -> (r: Vec<
        FilterExpr,
    >)
        requires
            parent == LegacyFilterExpr::And(children) || parent == LegacyFilterExpr::Or(children),
        ensures
            exprs_model(r@) == legacies_model(children@),
        decreases parent, 0nat,
    {
        let ghost orig = children@;
        let ghost ls = legacies_model(children@);
        proof {
            lemma_legacies_model(children@);
        }
        let mut rest = children;
        let mut out: Vec<FilterExpr> = Vec::new();
        while rest.len() > 0
            invariant
                parent == LegacyFilterExpr::And(legacy_children(parent)) || parent
                    == LegacyFilterExpr::Or(legacy_children(parent)),
                legacy_children(parent)@ == orig,
                ls == legacies_model(orig),
                ls.len() == orig.len(),
                forall|j: int| 0 <= j < orig.len() ==> #[trigger] ls[j] == legacy_model(orig[j]),
                orig.len() == out@.len() + rest@.len(),
                rest@ == orig.skip(out@.len() as int),
                forall|j: int| 0 <= j < out@.len() ==> (#[trigger] out@[j])@ == ls[j],
            decreases rest.len(),
        {
            let n = out.len();
            let w = rest.remove(0);
            proof {
                assert(w == orig[n as int]);
                if parent == LegacyFilterExpr::And(legacy_children(parent)) {
                    assert(decreases_to!(parent => parent->And_0));
                } else {
                    assert(decreases_to!(parent => parent->Or_0));
                }
                assert(decreases_to!(legacy_children(parent) => legacy_children(parent)[n as int]));
                assert(rest@ =~= orig.skip(n + 1));
            }
            let e = w.into_expr();
            out.push(e);
        }
        proof {
            lemma_exprs_model(out@);
            assert(exprs_model(out@) =~= ls);
        }
        out
    }
}

/// A filter in the earlier interchange form: an optional expression and the
/// match options, without a version.
#[derive(Debug)]
pub struct LegacyMetadataFilterWire {
    /// The expression; `None` matches everything.
    pub expr: Option<LegacyFilterExpr>,
    /// The match options.
    pub options: FilterMatchOptions,
}

impl LegacyMetadataFilterWire {
    /// Reads a filter from the earlier form.
    pub fn into_filter(self) -> (r: MetadataFilter)
        ensures
            r@.options == self.options,
            match self.expr {
                None => r@.expr is None,
                Some(w) => r@.expr == Some(legacy_model(w)),
            },
    {
        match self.expr {
            None => MetadataFilter::from_parts(None, self.options),
            Some(w) => MetadataFilter::from_parts(Some(w.into_expr()), self.options),
        }
    }
}

/// A filter in either interchange form.
#[derive(Debug)]
pub enum MetadataFilterInput {
    /// The versioned form.
    Wire(MetadataFilterWire),
    /// The earlier form.
    Legacy(LegacyMetadataFilterWire),
}

impl MetadataFilterInput {
    /// Reads a filter from either form: the versioned form is checked, the
    /// earlier one is taken as it is.
    pub fn into_filter(self) -> (r: Result<MetadataFilter, String>)
        ensures
            match self {
                MetadataFilterInput::Legacy(l) => r matches Ok(f) && f@.options == l.options && match l.expr {
                    None => f@.expr is None,
                    Some(w) => f@.expr == Some(legacy_model(w)),
                },
                MetadataFilterInput::Wire(w) => (w.version != METADATA_FILTER_WIRE_VERSION ==> (r matches Err(m)
                    && m@ == version_message(w.version))) && (w.version == METADATA_FILTER_WIRE_VERSION
                    ==> match w.expr {
                    None => r matches Ok(f) && f@ == (FilterModel { expr: None, options: w.options }),
                    Some(x) => match first_empty_group(x@) {
                        None => r matches Ok(f) && f@ == (FilterModel {
                            expr: Some(x@),
                            options: w.options,
                        }),
                        Some(m) => r matches Err(msg) && msg@ == m,
                    },
                }),
            },
    {
        match self {
            MetadataFilterInput::Wire(w) => w.into_filter(),
            MetadataFilterInput::Legacy(l) => Ok(l.into_filter()),
        }
    }
}

} // verus!
