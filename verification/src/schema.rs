//! [`MetadataSchema`]: declared fields, validation of metadata and filters.
use vstd::prelude::*;
use crate::condition::{Condition, ConditionModel, values_model};
use crate::data_type::DataType;
use crate::entries::{
    entries_map, lemma_entries_insert, lemma_entries_map_index, lemma_entries_update,
    lemma_sorted_before, sorted_keys,
};
use crate::error::{MetadataError, MetadataResult, type_mismatch_message};
use crate::expr::{ExprModel, FilterExpr, exprs_model, lemma_exprs_model};
use crate::filter::MetadataFilter;
use crate::metadata::Metadata;
use crate::text::{Order, lemma_seq_lt_irreflexive, lemma_seq_lt_total, lemma_seq_lt_transitive, seq_lt, str_order};
use crate::value::{Value, ValueModel};

verus! {

/// Definition of one metadata field in a [`MetadataSchema`].
#[derive(Debug, Clone, Copy, PartialEq, Eq, Hash, Structural)]
pub struct MetadataField {
    data_type: DataType,
    required: bool,
}

impl MetadataField {
    /// The declared data type.
    pub closed spec fn spec_data_type(&self) -> DataType {
        self.data_type
    }

    /// The field must be present.
    pub closed spec fn spec_required(&self) -> bool {
        self.required
    }

    /// The field definition of the given type and requirement.
    pub closed spec fn spec_new(data_type: DataType, required: bool) -> MetadataField {
        MetadataField { data_type, required }
    }

    /// A field definition holds the type and requirement it was made with.
    pub proof fn lemma_spec_new(data_type: DataType, required: bool)
        ensures
            MetadataField::spec_new(data_type, required).spec_data_type() == data_type,
            MetadataField::spec_new(data_type, required).spec_required() == required,
    {
    }

    /// Creates a field definition.
    pub fn new(data_type: DataType, required: bool) -> (r: MetadataField)
        ensures
            r == MetadataField::spec_new(data_type, required),
            r.spec_data_type() == data_type,
            r.spec_required() == required,
    {
        MetadataField { data_type, required }
    }

    /// Returns the declared data type.
    pub fn data_type(&self) -> (r: DataType)
        ensures
            r == self.spec_data_type(),
    {
        self.data_type
    }

    /// Returns `true` when this field is required.
    pub fn is_required(&self) -> (r: bool)
        ensures
            r == self.spec_required(),
    {
        self.required
    }
}

/// How validation treats keys that the schema does not declare.
#[derive(Debug, Clone, Copy, PartialEq, Eq, Hash, Structural)]
pub enum UnknownFieldPolicy {
    /// Reject undeclared keys (the default).
    Reject,
    /// Allow undeclared keys.
    Allow,
}

impl Default for UnknownFieldPolicy {
    fn default() -> (r: Self)
        ensures
            r == UnknownFieldPolicy::Reject,
    {
        UnknownFieldPolicy::Reject
    }
}

/// A schema: declared fields by key, and the policy for other keys.
#[derive(Debug)]
pub struct MetadataSchema {
    fields: Vec<(String, MetadataField)>,
    unknown_field_policy: UnknownFieldPolicy,
}

/// The mathematical model of a [`MetadataSchema`].
pub struct SchemaModel {
    /// The declared fields by key.
    pub fields: Map<Seq<char>, MetadataField>,
    /// The policy for undeclared keys.
    pub unknown_field_policy: UnknownFieldPolicy,
}

/// The model of stored field definitions.
pub open spec fn fields_model(v: Seq<(String, MetadataField)>) -> Seq<(Seq<char>, MetadataField)> {
    v.map_values(|e: (String, MetadataField)| (e.0@, e.1))
}

impl View for MetadataSchema {
    type V = SchemaModel;

    open spec fn view(&self) -> SchemaModel {
        SchemaModel {
            fields: entries_map(self.field_seq()),
            unknown_field_policy: self.policy(),
        }
    }
}

/// A reason why a schema rejects metadata or a filter.
pub enum Problem {
    /// A required field is missing.
    MissingRequired { key: Seq<char>, expected: DataType },
    /// A stored value does not have the declared type.
    Mismatch { key: Seq<char>, expected: DataType, actual: DataType },
    /// A stored key is not declared.
    Unknown { key: Seq<char> },
    /// A filter key is not declared.
    UnknownFilter { key: Seq<char> },
    /// A range operator on a field that is neither numeric nor a string.
    RangeOperator { key: Seq<char>, op: Seq<char>, data_type: DataType },
    /// A filter value whose type does not fit the field.
    Incompatible { key: Seq<char>, op: Seq<char>, data_type: DataType, value_type: DataType },
}

/// The message of a range operator on a field that is neither numeric nor a
/// string.
pub open spec fn range_message() -> Seq<char> {
    "range operators require a numeric or string field"@
}

/// The message of a filter value whose type does not fit the field.
pub open spec fn incompatible_message(value_type: DataType, field_type: DataType) -> Seq<char> {
    "filter value type "@ + value_type.name() + " is not compatible with field type "@
        + field_type.name()
}

/// `e` is the error that reports problem `p`.
pub open spec fn error_is(e: MetadataError, p: Problem) -> bool {
    match p {
        Problem::MissingRequired { key, expected } => e matches MetadataError::MissingRequiredField {
            key: k,
            expected: t,
        } && k@ == key && t == expected,
        Problem::Mismatch { key, expected, actual } => e matches MetadataError::TypeMismatch {
            key: k,
            expected: x,
            actual: a,
            message: m,
        } && k@ == key && x == expected && a == actual && m@ == type_mismatch_message(
            expected,
            actual,
        ),
        Problem::Unknown { key } => e matches MetadataError::UnknownField { key: k } && k@ == key,
        Problem::UnknownFilter { key } => e matches MetadataError::UnknownFilterField { key: k } && k@
            == key,
        Problem::RangeOperator { key, op, data_type } => e matches MetadataError::InvalidFilterOperator {
            key: k,
            operator: o,
            data_type: t,
            message: m,
        } && k@ == key && o@ == op && t == data_type && m@ == range_message(),
        Problem::Incompatible { key, op, data_type, value_type } =>
            e matches MetadataError::InvalidFilterOperator {
            key: k,
            operator: o,
            data_type: t,
            message: m,
        } && k@ == key && o@ == op && t == data_type && m@ == incompatible_message(
            value_type,
            data_type,
        ),
    }
}

/// What is wrong with storing `v` under `key`, if anything: a declared key
/// needs a value of exactly its type; an undeclared key is rejected unless
/// the policy allows it.
pub open spec fn entry_problem(s: SchemaModel, key: Seq<char>, v: ValueModel) -> Option<Problem> {
    if s.fields.contains_key(key) {
        if s.fields[key].spec_data_type() != v.data_type() {
            Some(
                Problem::Mismatch {
                    key,
                    expected: s.fields[key].spec_data_type(),
                    actual: v.data_type(),
                },
            )
        } else {
            None
        }
    } else if s.unknown_field_policy == UnknownFieldPolicy::Reject {
        Some(Problem::Unknown { key })
    } else {
        None
    }
}

/// A filter value fits a field: the same type, or both numeric.
pub open spec fn value_fits(v: ValueModel, field_type: DataType) -> bool {
    v.data_type() == field_type || (v.data_type().spec_is_numeric() && field_type.spec_is_numeric())
}

/// What is wrong with a value predicate, if anything.
pub open spec fn value_problem(s: SchemaModel, key: Seq<char>, op: Seq<char>, v: ValueModel) -> Option<
    Problem,
> {
    if !s.fields.contains_key(key) {
        if s.unknown_field_policy == UnknownFieldPolicy::Reject {
            Some(Problem::UnknownFilter { key })
        } else {
            None
        }
    } else if value_fits(v, s.fields[key].spec_data_type()) {
        None
    } else {
        Some(
            Problem::Incompatible {
                key,
                op,
                data_type: s.fields[key].spec_data_type(),
                value_type: v.data_type(),
            },
        )
    }
}

/// What is wrong with a range predicate, if anything.
pub open spec fn range_problem(s: SchemaModel, key: Seq<char>, op: Seq<char>, v: ValueModel) -> Option<
    Problem,
> {
    if s.fields.contains_key(key) && !s.fields[key].spec_data_type().spec_is_range_comparable() {
        Some(Problem::RangeOperator { key, op, data_type: s.fields[key].spec_data_type() })
    } else {
        value_problem(s, key, op, v)
    }
}

/// The first problem among the values of a membership predicate.
pub open spec fn values_problem(
    s: SchemaModel,
    key: Seq<char>,
    op: Seq<char>,
    vs: Seq<ValueModel>,
) -> Option<Problem>
    decreases vs.len(),
{
    if vs.len() == 0 {
        None
    } else {
        match values_problem(s, key, op, vs.drop_last()) {
            Some(p) => Some(p),
            None => value_problem(s, key, op, vs.last()),
        }
    }
}

/// What is wrong with a membership predicate, if anything: an undeclared key
/// is rejected unless the policy allows it, even with no values; otherwise
/// the first value that does not fit.
pub open spec fn membership_problem(
    s: SchemaModel,
    key: Seq<char>,
    op: Seq<char>,
    vs: Seq<ValueModel>,
) -> Option<Problem> {
    if !s.fields.contains_key(key) && s.unknown_field_policy == UnknownFieldPolicy::Reject {
        Some(Problem::UnknownFilter { key })
    } else {
        values_problem(s, key, op, vs)
    }
}

/// What is wrong with a filter condition, if anything.
pub open spec fn condition_problem(s: SchemaModel, c: ConditionModel) -> Option<Problem> {
    match c {
        ConditionModel::Equal { key, value } => value_problem(s, key, "eq"@, value),
        ConditionModel::NotEqual { key, value } => value_problem(s, key, "ne"@, value),
        ConditionModel::Less { key, value } => range_problem(s, key, "lt"@, value),
        ConditionModel::LessEqual { key, value } => range_problem(s, key, "le"@, value),
        ConditionModel::Greater { key, value } => range_problem(s, key, "gt"@, value),
        ConditionModel::GreaterEqual { key, value } => range_problem(s, key, "ge"@, value),
        ConditionModel::In { key, values } => membership_problem(s, key, "in_set"@, values),
        ConditionModel::NotIn { key, values } => membership_problem(s, key, "not_in_set"@, values),
        ConditionModel::Exists { key } | ConditionModel::NotExists { key } => if !s.fields.contains_key(key)
            && s.unknown_field_policy == UnknownFieldPolicy::Reject {
            Some(Problem::UnknownFilter { key })
        } else {
            None
        },
    }
}

/// The first problem among the conditions of an expression, in order.
pub open spec fn expr_problem(s: SchemaModel, e: ExprModel) -> Option<Problem>
    decreases e,
{
    match e {
        ExprModel::Condition(c) => condition_problem(s, c),
        ExprModel::And(cs) => exprs_problem(s, cs),
        ExprModel::Or(cs) => exprs_problem(s, cs),
        ExprModel::Not(b) => expr_problem(s, *b),
        ExprModel::False => None,
    }
}

/// The first problem among a sequence of expressions, in order.
pub open spec fn exprs_problem(s: SchemaModel, cs: Seq<ExprModel>) -> Option<Problem>
    decreases cs,
{
    if cs.len() == 0 {
        None
    } else {
        match exprs_problem(s, cs.drop_last()) {
            Some(p) => Some(p),
            None => expr_problem(s, cs.last()),
        }
    }
}

/// Every required field of the sequence is present in `m`.
pub open spec fn required_present(fs: Seq<(Seq<char>, MetadataField)>, m: Map<Seq<char>, ValueModel>) -> bool {
    forall|i: int| 0 <= i < fs.len() ==> (#[trigger] fs[i]).1.spec_required() ==> m.contains_key(fs[i].0)
}

/// Field `i` is the first required field, in key order, that `m` lacks.
pub open spec fn first_missing_at(fs: Seq<(Seq<char>, MetadataField)>, m: Map<Seq<char>, ValueModel>, i: int) -> bool {
    &&& 0 <= i < fs.len()
    &&& fs[i].1.spec_required() && !m.contains_key(fs[i].0)
    &&& forall|j: int| 0 <= j < i ==> (#[trigger] fs[j]).1.spec_required() ==> m.contains_key(fs[j].0)
}

/// `k` is the smallest required field key that `m` lacks.
pub open spec fn first_missing_key(s: SchemaModel, m: Map<Seq<char>, ValueModel>, k: Seq<char>) -> bool {
    &&& s.fields.contains_key(k) && s.fields[k].spec_required() && !m.contains_key(k)
    &&& forall|j: Seq<char>|
        #[trigger] s.fields.contains_key(j) && s.fields[j].spec_required() && seq_lt(j, k) ==> m.contains_key(j)
}

/// `k` is the smallest key of `m` whose entry has a problem.
pub open spec fn first_bad_key(s: SchemaModel, m: Map<Seq<char>, ValueModel>, k: Seq<char>) -> bool {
    &&& m.contains_key(k) && entry_problem(s, k, m[k]) is Some
    &&& forall|j: Seq<char>| #[trigger] m.contains_key(j) && seq_lt(j, k) ==> entry_problem(s, j, m[j]) is None
}

/// Entry `i` is the first entry, in key order, with a problem.
pub open spec fn first_bad_entry_at(s: SchemaModel, ms: Seq<(Seq<char>, ValueModel)>, i: int) -> bool {
    &&& 0 <= i < ms.len()
    &&& entry_problem(s, ms[i].0, ms[i].1) is Some
    &&& forall|j: int| 0 <= j < i ==> entry_problem(s, (#[trigger] ms[j]).0, ms[j].1) is None
}

/// A problem among the first values is the first problem of them all.
proof fn lemma_values_problem_prefix(s: SchemaModel, key: Seq<char>, op: Seq<char>, vs: Seq<ValueModel>, k: int)
    requires
        0 <= k <= vs.len(),
        values_problem(s, key, op, vs.take(k)) is Some,
    ensures
        values_problem(s, key, op, vs) == values_problem(s, key, op, vs.take(k)),
    decreases vs.len(),
{
    if k == vs.len() {
        assert(vs.take(k) =~= vs);
    } else {
        assert(vs.drop_last().take(k) =~= vs.take(k));
        lemma_values_problem_prefix(s, key, op, vs.drop_last(), k);
    }
}

/// A problem among the first expressions is the first problem of them all.
proof fn lemma_exprs_problem_prefix(s: SchemaModel, cs: Seq<ExprModel>, k: int)
    requires
        0 <= k <= cs.len(),
        exprs_problem(s, cs.take(k)) is Some,
    ensures
        exprs_problem(s, cs) == exprs_problem(s, cs.take(k)),
    decreases cs.len(),
{
    if k == cs.len() {
        assert(cs.take(k) =~= cs);
    } else {
        assert(cs.drop_last().take(k) =~= cs.take(k));
        lemma_exprs_problem_prefix(s, cs.drop_last(), k);
    }
}

/// Locates `key` among key-sorted field definitions.
fn find_field(fields: &Vec<(String, MetadataField)>, key: &str) -> (r: Result<usize, usize>)
    requires
        sorted_keys(fields_model(fields@)),
    ensures
        match r {
            Ok(i) => i < fields@.len() && fields_model(fields@)[i as int].0 == key@,
            Err(i) => i <= fields@.len() && (forall|j: int|
                0 <= j < i ==> seq_lt(#[trigger] fields_model(fields@)[j].0, key@)) && (forall|
                j: int,
            |
                i <= j < fields@.len() ==> seq_lt(key@, #[trigger] fields_model(fields@)[j].0)),
        },
{
    let ghost s = fields_model(fields@);
    let mut i: usize = 0;
    while i < fields.len()
        invariant
            s == fields_model(fields@),
            sorted_keys(s),
            i <= fields@.len(),
            forall|j: int| 0 <= j < i ==> seq_lt(#[trigger] s[j].0, key@),
        decreases fields.len() - i,
    {
        match str_order(fields[i].0.as_str(), key) {
            Order::Less => {
                assert(seq_lt(s[i as int].0, key@));
            },
            Order::Equal => {
                return Ok(i);
            },
            Order::Greater => {
                proof {
                    lemma_seq_lt_total(s[i as int].0, key@);
                    assert forall|j: int| i <= j < fields@.len() implies seq_lt(
                        key@,
                        #[trigger] s[j].0,
                    ) by {
                        if j > i {
                            lemma_seq_lt_transitive(key@, s[i as int].0, s[j].0);
                        }
                    }
                }
                return Err(i);
            },
        }
        i = i + 1;
    }
    Err(i)
}

impl MetadataSchema {
    /// The declared fields in key order.
    pub closed spec fn field_seq(&self) -> Seq<(Seq<char>, MetadataField)> {
        fields_model(self.fields@)
    }

    /// The policy for undeclared keys.
    pub closed spec fn policy(&self) -> UnknownFieldPolicy {
        self.unknown_field_policy
    }

    /// Fields are kept strictly sorted by key.
    #[verifier::type_invariant]
    closed spec fn fields_are_sorted(&self) -> bool {
        sorted_keys(fields_model(self.fields@))
    }

    /// Creates a schema builder.
    pub fn builder() -> (r: MetadataSchemaBuilder)
        ensures
            r@.fields == Map::<Seq<char>, MetadataField>::empty(),
            r@.unknown_field_policy == UnknownFieldPolicy::Reject,
    {
        MetadataSchemaBuilder::new()
    }

    /// Creates a schema without fields that rejects undeclared keys.
    pub fn new() -> (r: MetadataSchema)
        ensures
            r@.fields == Map::<Seq<char>, MetadataField>::empty(),
            r@.unknown_field_policy == UnknownFieldPolicy::Reject,
    {
        let r = MetadataSchema { fields: Vec::new(), unknown_field_policy: UnknownFieldPolicy::Reject };
        proof {
            assert(r.field_seq() =~= Seq::<(Seq<char>, MetadataField)>::empty());
            assert(entries_map(r.field_seq()) =~= Map::<Seq<char>, MetadataField>::empty());
        }
        r
    }

    /// Declares (or redeclares) the field `key`.
    fn put_field(&mut self, key: &str, field: MetadataField)
        ensures
            final(self)@.fields == old(self)@.fields.insert(key@, field),
            final(self)@.unknown_field_policy == old(self)@.unknown_field_policy,
    {
        proof {
            use_type_invariant(&*self);
        }
        let mut fields: Vec<(String, MetadataField)> = Vec::new();
        std::mem::swap(&mut fields, &mut self.fields);
        let ghost s = fields_model(fields@);
        match find_field(&fields, key) {
            Ok(i) => {
                let (k, _) = fields.remove(i);
                fields.insert(i, (k, field));
                proof {
                    lemma_entries_update(s, i as int, field);
                    assert(fields_model(fields@) =~= s.update(i as int, (s[i as int].0, field)));
                }
            },
            Err(i) => {
                fields.insert(i, (key.to_string(), field));
                proof {
                    lemma_entries_insert(s, i as int, key@, field);
                    assert(fields_model(fields@) =~= s.insert(i as int, (key@, field)));
                }
            },
        }
        self.fields = fields;
    }

    /// Returns the field definition of `key`.
    pub fn field(&self, key: &str) -> (r: Option<&MetadataField>)
        ensures
            match r {
                Some(f) => self@.fields.contains_key(key@) && *f == self@.fields[key@],
                None => !self@.fields.contains_key(key@),
            },
    {
        proof {
            use_type_invariant(self);
        }
        let ghost s = self.field_seq();
        match find_field(&self.fields, key) {
            Ok(i) => {
                proof {
                    lemma_entries_map_index(s, i as int);
                }
                Some(&self.fields[i].1)
            },
            Err(i) => {
                proof {
                    lemma_seq_lt_irreflexive(key@);
                    if entries_map(s).contains_key(key@) {
                        let j = choose|j: int| 0 <= j < s.len() && (#[trigger] s[j]).0 == key@;
                        if j < i {
                            assert(seq_lt(s[j].0, key@));
                        } else {
                            assert(seq_lt(key@, s[j].0));
                        }
                    }
                }
                None
            },
        }
    }

    /// Returns the declared data type of `key`.
    pub fn field_type(&self, key: &str) -> (r: Option<DataType>)
        ensures
            match r {
                Some(t) => self@.fields.contains_key(key@) && t == self@.fields[key@].spec_data_type(),
                None => !self@.fields.contains_key(key@),
            },
    {
        match self.field(key) {
            Some(f) => Some(f.data_type()),
            None => None,
        }
    }

    /// Returns the policy for undeclared keys.
    pub fn unknown_field_policy(&self) -> (r: UnknownFieldPolicy)
        ensures
            r == self@.unknown_field_policy,
    {
        self.unknown_field_policy
    }

    /// Returns the field definitions in ascending key order.
    pub fn fields(&self) -> (r: Vec<(&str, &MetadataField)>)
        ensures
            sorted_keys(self.field_seq()),
            r@.len() == self.field_seq().len(),
            forall|i: int|
                0 <= i < r@.len() ==> (#[trigger] r@[i]).0@ == self.field_seq()[i].0 && *r@[i].1
                    == self.field_seq()[i].1,
    {
        proof {
            use_type_invariant(self);
        }
        let mut r: Vec<(&str, &MetadataField)> = Vec::new();
        let mut i: usize = 0;
        while i < self.fields.len()
            invariant
                i <= self.fields@.len(),
                r@.len() == i,
                forall|j: int|
                    0 <= j < i ==> (#[trigger] r@[j]).0@ == self.field_seq()[j].0 && *r@[j].1
                        == self.field_seq()[j].1,
            decreases self.fields.len() - i,
        {
            r.push((self.fields[i].0.as_str(), &self.fields[i].1));
            i = i + 1;
        }
        r
    }

    /// Validates storing `value` under `key` (see [`entry_problem`]).
    ///
    /// # Errors
    ///
    /// [`MetadataError::TypeMismatch`] for a declared key with a value of
    /// another type; [`MetadataError::UnknownField`] for an undeclared key
    /// when the policy rejects them.
    pub fn validate_entry(&self, key: &str, value: &Value) -> (r: MetadataResult<()>)
        ensures
            match entry_problem(self@, key@, value@) {
                None => r is Ok,
                Some(p) => r matches Err(e) && error_is(e, p),
            },
    {
        match self.field(key) {
            Some(f) => {
                let expected = f.data_type();
                let actual = value.data_type();
                if expected != actual {
                    Err(MetadataError::type_mismatch(key, expected, actual))
                } else {
                    Ok(())
                }
            },
            None => match self.unknown_field_policy {
                UnknownFieldPolicy::Reject => Err(MetadataError::UnknownField { key: key.to_string() }),
                UnknownFieldPolicy::Allow => Ok(()),
            },
        }
    }

    /// Validates a metadata object against this schema: every required
    /// field must be present, and every entry must pass
    /// [`entry_problem`].
    ///
    /// # Errors
    ///
    /// [`MetadataError::MissingRequiredField`] for the first missing
    /// required field in key order; otherwise the error of the first entry,
    /// in key order, with a problem.
    pub fn validate(&self, meta: &Metadata) -> (r: MetadataResult<()>)
        ensures
            r is Ok <==> ((forall|k: Seq<char>|
                #[trigger] self@.fields.contains_key(k) && self@.fields[k].spec_required()
                    ==> meta@.contains_key(k)) && (forall|k: Seq<char>|
                #[trigger] meta@.contains_key(k) ==> entry_problem(self@, k, meta@[k]) is None)),
            r matches Err(e) ==> (exists|i: int|
                first_missing_at(self.field_seq(), meta@, i) && error_is(
                    e,
                    Problem::MissingRequired {
                        key: self.field_seq()[i].0,
                        expected: self.field_seq()[i].1.spec_data_type(),
                    },
                )) || (required_present(self.field_seq(), meta@) && exists|i: int|
                first_bad_entry_at(self@, meta.entry_seq(), i) && error_is(
                    e,
                    entry_problem(self@, meta.entry_seq()[i].0, meta.entry_seq()[i].1)->0,
                )),
            r matches Err(e) ==> (exists|k: Seq<char>|
                first_missing_key(self@, meta@, k) && error_is(
                    e,
                    Problem::MissingRequired { key: k, expected: self@.fields[k].spec_data_type() },
                )) || ((forall|k: Seq<char>|
                #[trigger] self@.fields.contains_key(k) && self@.fields[k].spec_required()
                    ==> meta@.contains_key(k)) && exists|k: Seq<char>|
                first_bad_key(self@, meta@, k) && error_is(e, entry_problem(self@, k, meta@[k])->0)),
    {
        proof {
            use_type_invariant(self);
        }
        let ghost fs = self.field_seq();
        let mut i: usize = 0;
        while i < self.fields.len()
            invariant
                fs == self.field_seq(),
                sorted_keys(fs),
                i <= self.fields@.len(),
                forall|j: int| 0 <= j < i ==> (#[trigger] fs[j]).1.spec_required() ==> meta@.contains_key(fs[j].0),
            decreases self.fields.len() - i,
        {
            if self.fields[i].1.is_required() && !meta.contains_key(self.fields[i].0.as_str()) {
                let r = Err(MetadataError::MissingRequiredField {
                    key: self.fields[i].0.clone(),
                    expected: self.fields[i].1.data_type(),
                });
                proof {
                    assert(first_missing_at(fs, meta@, i as int));
                    lemma_entries_map_index(fs, i as int);
                    let k = fs[i as int].0;
                    assert forall|j: Seq<char>|
                        #[trigger] self@.fields.contains_key(j) && self@.fields[j].spec_required() && seq_lt(j, k)
                            implies meta@.contains_key(j) by {
                        let jj = lemma_sorted_before(fs, i as int, j);
                    }
                    assert(first_missing_key(self@, meta@, k));
                }
                return r;
            }
            i = i + 1;
        }
        proof {
            assert forall|k: Seq<char>|
                #[trigger] self@.fields.contains_key(k) && self@.fields[k].spec_required()
                    implies meta@.contains_key(k) by {
                let j = choose|j: int| 0 <= j < fs.len() && (#[trigger] fs[j]).0 == k;
                lemma_entries_map_index(fs, j);
            }
        }
        let entries = meta.iter();
        let ghost ms = meta.entry_seq();
        let mut n: usize = 0;
        while n < entries.len()
            invariant
                ms == meta.entry_seq(),
                sorted_keys(ms),
                meta@ == entries_map(ms),
                required_present(fs, meta@),
                forall|k: Seq<char>|
                    #[trigger] self@.fields.contains_key(k) && self@.fields[k].spec_required()
                        ==> meta@.contains_key(k),
                fs == self.field_seq(),
                entries@.len() == ms.len(),
                forall|j: int|
                    0 <= j < entries@.len() ==> (#[trigger] entries@[j]).0@ == ms[j].0 && entries@[j].1@
                        == ms[j].1,
                n <= entries@.len(),
                forall|j: int| 0 <= j < n ==> entry_problem(self@, (#[trigger] ms[j]).0, ms[j].1) is None,
            decreases entries.len() - n,
        {
            let (key, value) = entries[n];
            match self.validate_entry(key, value) {
                Ok(()) => {},
                Err(e) => {
                    proof {
                        assert(first_bad_entry_at(self@, ms, n as int));
                        lemma_entries_map_index(ms, n as int);
                        assert(meta@.contains_key(ms[n as int].0));
                        assert(entry_problem(self@, ms[n as int].0, meta@[ms[n as int].0]) is Some);
                        let k = ms[n as int].0;
                        assert forall|j: Seq<char>| #[trigger] meta@.contains_key(j) && seq_lt(j, k) implies entry_problem(
                            self@,
                            j,
                            meta@[j],
                        ) is None by {
                            let jj = lemma_sorted_before(ms, n as int, j);
                        }
                        assert(first_bad_key(self@, meta@, k));
                    }
                    return Err(e);
                },
            }
            n = n + 1;
        }
        proof {
            assert forall|k: Seq<char>| #[trigger] meta@.contains_key(k) implies entry_problem(
                self@,
                k,
                meta@[k],
            ) is None by {
                let j = choose|j: int| 0 <= j < ms.len() && (#[trigger] ms[j]).0 == k;
                lemma_entries_map_index(ms, j);
            }
        }
        Ok(())
    }

    /// Checks a value predicate (see [`value_problem`]).
    fn validate_value_condition(&self, key: &str, op: &'static str, value: &Value) -> (r: MetadataResult<()>)
        ensures
            match value_problem(self@, key@, op@, value@) {
                None => r is Ok,
                Some(p) => r matches Err(e) && error_is(e, p),
            },
    {
        match self.field(key) {
            None => match self.unknown_field_policy {
                UnknownFieldPolicy::Reject => Err(MetadataError::UnknownFilterField { key: key.to_string() }),
                UnknownFieldPolicy::Allow => Ok(()),
            },
            Some(f) => {
                let field_type = f.data_type();
                let value_type = value.data_type();
                if value_type == field_type || (value_type.is_numeric() && field_type.is_numeric()) {
                    Ok(())
                } else {
                    Err(MetadataError::InvalidFilterOperator {
                        key: key.to_string(),
                        operator: op,
                        data_type: field_type,
                        message: String::from_str("filter value type ").concat(value_type.as_str()).concat(
                            " is not compatible with field type ",
                        ).concat(field_type.as_str()),
                    })
                }
            },
        }
    }

    /// Checks a range predicate (see [`range_problem`]).
    fn validate_range_condition(&self, key: &str, op: &'static str, value: &Value) -> (r: MetadataResult<()>)
        ensures
            match range_problem(self@, key@, op@, value@) {
                None => r is Ok,
                Some(p) => r matches Err(e) && error_is(e, p),
            },
    {
        match self.field(key) {
            Some(f) => {
                if !f.data_type().is_range_comparable() {
                    return Err(MetadataError::InvalidFilterOperator {
                        key: key.to_string(),
                        operator: op,
                        data_type: f.data_type(),
                        message: String::from_str("range operators require a numeric or string field"),
                    });
                }
            },
            None => {},
        }
        self.validate_value_condition(key, op, value)
    }

    /// Checks a membership predicate: its key, then its values in order (see
    /// [`membership_problem`]).
    fn validate_values_condition(&self, key: &str, op: &'static str, values: &Vec<Value>) -> (r: MetadataResult<()>)
        ensures
            match membership_problem(self@, key@, op@, values_model(values@)) {
                None => r is Ok,
                Some(p) => r matches Err(e) && error_is(e, p),
            },
    {
        if self.field(key).is_none() && matches!(self.unknown_field_policy, UnknownFieldPolicy::Reject) {
            return Err(MetadataError::UnknownFilterField { key: key.to_string() });
        }
        let ghost vs = values_model(values@);
        let mut i: usize = 0;
        proof {
            assert(vs.take(0) =~= Seq::<ValueModel>::empty());
        }
        while i < values.len()
            invariant
                vs == values_model(values@),
                i <= values@.len(),
                values_problem(self@, key@, op@, vs.take(i as int)) is None,
            decreases values.len() - i,
        {
            proof {
                assert(vs.take(i + 1).drop_last() =~= vs.take(i as int));
                assert(vs.take(i + 1).last() == values@[i as int]@);
            }
            match self.validate_value_condition(key, op, &values[i]) {
                Ok(()) => {},
                Err(e) => {
                    proof {
                        lemma_values_problem_prefix(self@, key@, op@, vs, i + 1);
                    }
                    return Err(e);
                },
            }
            i = i + 1;
        }
        proof {
            assert(vs.take(i as int) =~= vs);
        }
        Ok(())
    }

    /// Checks one filter condition (see [`condition_problem`]).
    fn validate_condition(&self, c: &Condition) -> (r: MetadataResult<()>)
        ensures
            match condition_problem(self@, c@) {
                None => r is Ok,
                Some(p) => r matches Err(e) && error_is(e, p),
            },
    {
        match c {
            Condition::Equal { key, value } => self.validate_value_condition(key.as_str(), "eq", value),
            Condition::NotEqual { key, value } => self.validate_value_condition(key.as_str(), "ne", value),
            Condition::Less { key, value } => self.validate_range_condition(key.as_str(), "lt", value),
            Condition::LessEqual { key, value } => self.validate_range_condition(key.as_str(), "le", value),
            Condition::Greater { key, value } => self.validate_range_condition(key.as_str(), "gt", value),
            Condition::GreaterEqual { key, value } => self.validate_range_condition(key.as_str(), "ge", value),
            Condition::In { key, values } => self.validate_values_condition(key.as_str(), "in_set", values),
            Condition::NotIn { key, values } => self.validate_values_condition(key.as_str(), "not_in_set", values),
            Condition::Exists { key } | Condition::NotExists { key } => {
                if self.field(key.as_str()).is_none() && matches!(
                    self.unknown_field_policy,
                    UnknownFieldPolicy::Reject
                ) {
                    Err(MetadataError::UnknownFilterField { key: key.clone() })
                } else {
                    Ok(())
                }
            },
        }
    }

    /// Checks every condition of an expression, in order (see
    /// [`expr_problem`]).
    fn validate_expr_conditions(&self, e: &FilterExpr) -> (r: MetadataResult<()>)
        ensures
            match expr_problem(self@, e@) {
                None => r is Ok,
                Some(p) => r matches Err(err) && error_is(err, p),
            },
        decreases e,
    {
        match e {
            FilterExpr::Condition(c) => self.validate_condition(c),
            FilterExpr::And(children) | FilterExpr::Or(children) => {
                let ghost cs = exprs_model(children@);
                proof {
                    lemma_exprs_model(children@);
                    assert(cs.take(0) =~= Seq::<ExprModel>::empty());
                }
                let mut i: usize = 0;
                while i < children.len()
                    invariant
                        cs == exprs_model(children@),
                        cs.len() == children@.len(),
                        forall|j: int| 0 <= j < children@.len() ==> #[trigger] cs[j] == children@[j]@,
                        *e == FilterExpr::And(*children) || *e == FilterExpr::Or(*children),
                        i <= children@.len(),
                        exprs_problem(self@, cs.take(i as int)) is None,
                    decreases children.len() - i,
                {
                    proof {
                        if *e == FilterExpr::And(*children) {
                            assert(decreases_to!(*e => (*e)->And_0));
                        } else {
                            assert(decreases_to!(*e => (*e)->Or_0));
                        }
                        assert(decreases_to!(*children => children[i as int]));
                        assert(cs.take(i + 1).drop_last() =~= cs.take(i as int));
                        assert(cs.take(i + 1).last() == children@[i as int]@);
                    }
                    match self.validate_expr_conditions(&children[i]) {
                        Ok(()) => {},
                        Err(err) => {
                            proof {
                                lemma_exprs_problem_prefix(self@, cs, i + 1);
                            }
                            return Err(err);
                        },
                    }
                    i = i + 1;
                }
                proof {
                    assert(cs.take(i as int) =~= cs);
                }
                Ok(())
            },
            FilterExpr::Not(inner) => self.validate_expr_conditions(inner),
            FilterExpr::False => Ok(()),
        }
    }

    /// Validates a filter against this schema: the first condition, in
    /// expression order, with a problem is reported (see [`expr_problem`]).
    ///
    /// # Errors
    ///
    /// [`MetadataError::UnknownFilterField`] for an undeclared key when the
    /// policy rejects them, and [`MetadataError::InvalidFilterOperator`] for
    /// a range operator on a field that is neither numeric nor a string or a
    /// value whose type does not fit the field.
    pub fn validate_filter(&self, filter: &MetadataFilter) -> (r: MetadataResult<()>)
        ensures
            match filter@.expr {
                None => r is Ok,
                Some(x) => match expr_problem(self@, x) {
                    None => r is Ok,
                    Some(p) => r matches Err(e) && error_is(e, p),
                },
            },
    {
        match filter.expr() {
            None => Ok(()),
            Some(e) => self.validate_expr_conditions(e),
        }
    }
}

impl Clone for MetadataSchema {
    fn clone(&self) -> (r: Self)
        ensures
            r.field_seq() == self.field_seq(),
            r@ == self@,
    {
        proof {
            use_type_invariant(self);
        }
        let mut fields: Vec<(String, MetadataField)> = Vec::new();
        let mut i: usize = 0;
        while i < self.fields.len()
            invariant
                i <= self.fields@.len(),
                fields_model(fields@) == self.field_seq().take(i as int),
            decreases self.fields.len() - i,
        {
            let k = self.fields[i].0.clone();
            let f = self.fields[i].1;
            let ghost before = fields@;
            fields.push((k, f));
            proof {
                assert(fields@ == before.push((k, f)));
                assert(fields_model(fields@) =~= fields_model(before).push((k@, f)));
                assert(fields_model(fields@) =~= self.field_seq().take(i + 1));
            }
            i = i + 1;
        }
        proof {
            assert(self.field_seq().take(i as int) =~= self.field_seq());
        }
        MetadataSchema { fields, unknown_field_policy: self.unknown_field_policy }
    }
}

impl Default for MetadataSchema {
    fn default() -> (r: Self)
        ensures
            r@.fields == Map::<Seq<char>, MetadataField>::empty(),
            r@.unknown_field_policy == UnknownFieldPolicy::Reject,
    {
        MetadataSchema::new()
    }
}

/// A fluent builder of [`MetadataSchema`]s.
#[derive(Debug, Clone)]
pub struct MetadataSchemaBuilder {
    schema: MetadataSchema,
}

impl View for MetadataSchemaBuilder {
    type V = SchemaModel;

    closed spec fn view(&self) -> SchemaModel {
        self.schema@
    }
}

impl MetadataSchemaBuilder {
    /// Creates a builder of a schema without fields that rejects undeclared
    /// keys.
    pub fn new() -> (r: MetadataSchemaBuilder)
        ensures
            r@.fields == Map::<Seq<char>, MetadataField>::empty(),
            r@.unknown_field_policy == UnknownFieldPolicy::Reject,
    {
        MetadataSchemaBuilder { schema: MetadataSchema::new() }
    }

    /// Declares the required field `key` of type `data_type`.
    pub fn required(self, key: &str, data_type: DataType) -> (r: MetadataSchemaBuilder)
        ensures
            r@.fields == self@.fields.insert(key@, MetadataField::spec_new(data_type, true)),
            r@.unknown_field_policy == self@.unknown_field_policy,
    {
        let mut schema = self.schema;
        schema.put_field(key, MetadataField::new(data_type, true));
        MetadataSchemaBuilder { schema }
    }

    /// Declares the optional field `key` of type `data_type`.
    pub fn optional(self, key: &str, data_type: DataType) -> (r: MetadataSchemaBuilder)
        ensures
            r@.fields == self@.fields.insert(key@, MetadataField::spec_new(data_type, false)),
            r@.unknown_field_policy == self@.unknown_field_policy,
    {
        let mut schema = self.schema;
        schema.put_field(key, MetadataField::new(data_type, false));
        MetadataSchemaBuilder { schema }
    }

    /// Sets the policy for undeclared keys.
    pub fn unknown_field_policy(self, policy: UnknownFieldPolicy) -> (r: MetadataSchemaBuilder)
        ensures
            r@.fields == self@.fields,
            r@.unknown_field_policy == policy,
    {
        let mut schema = self.schema;
        proof {
            use_type_invariant(&schema);
        }
        schema.unknown_field_policy = policy;
        MetadataSchemaBuilder { schema }
    }

    /// Builds the schema.
    pub fn build(self) -> (r: MetadataSchema)
        ensures
            r@ == self@,
    {
        self.schema
    }
}

impl Default for MetadataSchemaBuilder {
    fn default() -> (r: Self)
        ensures
            r@.fields == Map::<Seq<char>, MetadataField>::empty(),
            r@.unknown_field_policy == UnknownFieldPolicy::Reject,
    {
        MetadataSchemaBuilder::new()
    }
}

} // verus!
