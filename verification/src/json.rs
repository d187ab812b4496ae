//! JSON payloads and their coarse value classification.
use vstd::prelude::*;
use crate::text::{eq_ignoring_case, matches_ignoring_case, str_eq};

verus! {

/// A JSON number, as `serde_json` distinguishes them.
#[derive(Debug, Clone, Copy, PartialEq, Eq, Structural)]
pub enum JsonNumber {
    /// A non-negative integer.
    PosInt(u64),
    /// A negative integer.
    NegInt(i64),
    /// A finite binary64 float, held as its bit pattern.
    Float(u64),
}

/// A JSON value. Object members are held in key order.
#[derive(Debug)]
pub enum JsonValue {
    /// JSON `null`.
    Null,
    /// A JSON boolean.
    Bool(bool),
    /// A JSON number.
    Number(JsonNumber),
    /// A JSON string.
    String(String),
    /// A JSON array.
    Array(Vec<JsonValue>),
    /// A JSON object.
    Object(Vec<(String, JsonValue)>),
}

/// The mathematical model of a JSON value.
pub enum JsonModel {
    /// JSON `null`.
    Null,
    /// A JSON boolean.
    Bool(bool),
    /// A JSON number.
    Number(JsonNumber),
    /// A JSON string.
    String(Seq<char>),
    /// A JSON array.
    Array(Seq<JsonModel>),
    /// A JSON object, members in key order.
    Object(Seq<(Seq<char>, JsonModel)>),
}

/// The bit pattern of `-0.0`.
pub const NEGATIVE_ZERO_BITS: u64 = 0x8000_0000_0000_0000;

/// A JSON number as equality sees it: `-0.0` and `0.0` are one number.
pub open spec fn number_model(n: JsonNumber) -> JsonNumber {
    match n {
        JsonNumber::Float(b) => if b == NEGATIVE_ZERO_BITS {
            JsonNumber::Float(0)
        } else {
            n
        },
        _ => n,
    }
}

/// The model of a JSON value.
pub open spec fn json_model(j: JsonValue) -> JsonModel
    decreases j,
{
    match j {
        JsonValue::Null => JsonModel::Null,
        JsonValue::Bool(b) => JsonModel::Bool(b),
        JsonValue::Number(n) => JsonModel::Number(n),
        JsonValue::String(s) => JsonModel::String(s@),
        JsonValue::Array(v) => JsonModel::Array(json_models(v@)),
        JsonValue::Object(v) => JsonModel::Object(member_models(v@)),
    }
}

/// The models of a sequence of JSON values.
pub open spec fn json_models(s: Seq<JsonValue>) -> Seq<JsonModel>
    decreases s,
{
    if s.len() == 0 {
        Seq::empty()
    } else {
        json_models(s.drop_last()).push(json_model(s.last()))
    }
}

/// The models of a sequence of JSON object members.
pub open spec fn member_models(s: Seq<(String, JsonValue)>) -> Seq<(Seq<char>, JsonModel)>
    decreases s,
{
    if s.len() == 0 {
        Seq::empty()
    } else {
        member_models(s.drop_last()).push((s.last().0@, json_model(s.last().1)))
    }
}

/// The models of a sequence are taken element by element.
pub proof fn lemma_json_models(s: Seq<JsonValue>)
    ensures
        json_models(s).len() == s.len(),
        forall|i: int| 0 <= i < s.len() ==> #[trigger] json_models(s)[i] == json_model(s[i]),
    decreases s.len(),
{
    if s.len() > 0 {
        lemma_json_models(s.drop_last());
    }
}

/// The models of a sequence of members are taken member by member.
pub proof fn lemma_member_models(s: Seq<(String, JsonValue)>)
    ensures
        member_models(s).len() == s.len(),
        forall|i: int|
            0 <= i < s.len() ==> #[trigger] member_models(s)[i] == (s[i].0@, json_model(s[i].1)),
    decreases s.len(),
{
    if s.len() > 0 {
        lemma_member_models(s.drop_last());
    }
}

impl View for JsonValue {
    type V = JsonModel;

    open spec fn view(&self) -> JsonModel {
        json_model(*self)
    }
}

/// Two JSON values are equal: numbers compare with `-0.0` taken as `0.0`,
/// arrays element by element, objects member by member in order, and
/// anything else by its contents.
pub open spec fn json_same(a: JsonModel, b: JsonModel) -> bool
    decreases a,
{
    match (a, b) {
        (JsonModel::Number(x), JsonModel::Number(y)) => number_model(x) == number_model(y),
        (JsonModel::Array(xs), JsonModel::Array(ys)) => json_seq_same(xs, ys),
        (JsonModel::Object(xs), JsonModel::Object(ys)) => members_same(xs, ys),
        _ => a == b,
    }
}

/// Two sequences of JSON values are equal element by element.
pub open spec fn json_seq_same(xs: Seq<JsonModel>, ys: Seq<JsonModel>) -> bool
    decreases xs,
{
    xs.len() == ys.len() && (xs.len() == 0 || (json_seq_same(xs.drop_last(), ys.drop_last())
        && json_same(xs.last(), ys.last())))
}

/// Two object members are equal: the same name and equal values.
pub open spec fn member_same(x: (Seq<char>, JsonModel), y: (Seq<char>, JsonModel)) -> bool
    decreases x,
{
    x.0 == y.0 && json_same(x.1, y.1)
}

/// Two sequences of object members are equal member by member, in order.
pub open spec fn members_same(xs: Seq<(Seq<char>, JsonModel)>, ys: Seq<(Seq<char>, JsonModel)>) -> bool
    decreases xs,
{
    xs.len() == ys.len() && (xs.len() == 0 || (members_same(xs.drop_last(), ys.drop_last())
        && member_same(xs.last(), ys.last())))
}

/// Sequences are equal exactly when they are equal at every position.
proof fn lemma_json_seq_same(xs: Seq<JsonModel>, ys: Seq<JsonModel>)
    ensures
        json_seq_same(xs, ys) == (xs.len() == ys.len() && forall|i: int|
            0 <= i < xs.len() ==> #[trigger] json_same(xs[i], ys[i])),
    decreases xs.len(),
{
    if xs.len() > 0 && xs.len() == ys.len() {
        lemma_json_seq_same(xs.drop_last(), ys.drop_last());
        if json_seq_same(xs, ys) {
            assert forall|i: int| 0 <= i < xs.len() implies #[trigger] json_same(xs[i], ys[i]) by {
                if i < xs.len() - 1 {
                    assert(xs.drop_last()[i] == xs[i] && ys.drop_last()[i] == ys[i]);
                }
            }
        }
        if forall|i: int| 0 <= i < xs.len() ==> #[trigger] json_same(xs[i], ys[i]) {
            assert forall|i: int| 0 <= i < xs.drop_last().len() implies #[trigger] json_same(
                xs.drop_last()[i],
                ys.drop_last()[i],
            ) by {
                assert(json_same(xs[i], ys[i]));
            }
            assert(json_same(xs[xs.len() - 1], ys[xs.len() - 1]));
        }
    }
}

/// Member sequences are equal exactly when they are equal at every
/// position.
proof fn lemma_members_same(xs: Seq<(Seq<char>, JsonModel)>, ys: Seq<(Seq<char>, JsonModel)>)
    ensures
        members_same(xs, ys) == (xs.len() == ys.len() && forall|i: int|
            0 <= i < xs.len() ==> #[trigger] member_same(xs[i], ys[i])),
    decreases xs.len(),
{
    if xs.len() > 0 && xs.len() == ys.len() {
        lemma_members_same(xs.drop_last(), ys.drop_last());
        if members_same(xs, ys) {
            assert forall|i: int| 0 <= i < xs.len() implies #[trigger] member_same(xs[i], ys[i]) by {
                if i < xs.len() - 1 {
                    assert(xs.drop_last()[i] == xs[i] && ys.drop_last()[i] == ys[i]);
                }
            }
        }
        if forall|i: int| 0 <= i < xs.len() ==> #[trigger] member_same(xs[i], ys[i]) {
            assert forall|i: int| 0 <= i < xs.drop_last().len() implies #[trigger] member_same(
                xs.drop_last()[i],
                ys.drop_last()[i],
            ) by {
                assert(member_same(xs[i], ys[i]));
            }
            assert(member_same(xs[xs.len() - 1], ys[xs.len() - 1]));
        }
    }
}

/// Compares two JSON numbers for equality; for floats the bit patterns, with
/// `-0.0` taken as `0.0`.
pub fn json_number_equal(a: JsonNumber, b: JsonNumber) -> (r: bool)
    ensures
        r == (number_model(a) == number_model(b)),
{
    match (a, b) {
        (JsonNumber::PosInt(x), JsonNumber::PosInt(y)) => x == y,
        (JsonNumber::NegInt(x), JsonNumber::NegInt(y)) => x == y,
        (JsonNumber::Float(x), JsonNumber::Float(y)) => {
            let nx: u64 = if x == NEGATIVE_ZERO_BITS { 0 } else { x };
            let ny: u64 = if y == NEGATIVE_ZERO_BITS { 0 } else { y };
            nx == ny
        },
        _ => false,
    }
}

/// Compares two JSON values for equality.
pub fn json_equal(a: &JsonValue, b: &JsonValue) -> (r: bool)
    ensures
        r == json_same(a@, b@),
    decreases a,
{
    match (a, b) {
        (JsonValue::Null, JsonValue::Null) => true,
        (JsonValue::Bool(x), JsonValue::Bool(y)) => *x == *y,
        (JsonValue::Number(x), JsonValue::Number(y)) => json_number_equal(*x, *y),
        (JsonValue::String(x), JsonValue::String(y)) => str_eq(x.as_str(), y.as_str()),
        (JsonValue::Array(x), JsonValue::Array(y)) => {
            proof {
                lemma_json_models(x@);
                lemma_json_models(y@);
            }
            if x.len() != y.len() {
                return false;
            }
            let mut i: usize = 0;
            while i < x.len()
                invariant
                    x.len() == y.len(),
                    i <= x.len(),
                    *a == JsonValue::Array(*x),
                    *b == JsonValue::Array(*y),
                    forall|j: int| 0 <= j < i ==> json_same(json_model(#[trigger] x@[j]), json_model(y@[j])),
                decreases x.len() - i,
            {
                proof {
                    assert(decreases_to!(*a => (*a)->Array_0));
                    assert(decreases_to!(*x => x[i as int]));
                }
                if !json_equal(&x[i], &y[i]) {
                    proof {
                        lemma_json_models(x@);
                        lemma_json_models(y@);
                        assert(!json_same(json_models(x@)[i as int], json_models(y@)[i as int]));
                        assert(a@ == JsonModel::Array(json_models(x@)));
                        assert(b@ == JsonModel::Array(json_models(y@)));
                        lemma_json_seq_same(json_models(x@), json_models(y@));
                    }
                    return false;
                }
                i = i + 1;
            }
            proof {
                lemma_json_models(x@);
                lemma_json_models(y@);
                assert forall|j: int| 0 <= j < json_models(x@).len() implies #[trigger] json_same(
                    json_models(x@)[j],
                    json_models(y@)[j],
                ) by {
                    assert(json_same(json_model(x@[j]), json_model(y@[j])));
                }
                lemma_json_seq_same(json_models(x@), json_models(y@));
            }
            true
        },
        (JsonValue::Object(x), JsonValue::Object(y)) => {
            proof {
                lemma_member_models(x@);
                lemma_member_models(y@);
            }
            if x.len() != y.len() {
                return false;
            }
            let mut i: usize = 0;
            while i < x.len()
                invariant
                    x.len() == y.len(),
                    i <= x.len(),
                    *a == JsonValue::Object(*x),
                    *b == JsonValue::Object(*y),
                    forall|j: int|
                        0 <= j < i ==> (#[trigger] x@[j]).0@ == y@[j].0@ && json_same(
                            json_model(x@[j].1),
                            json_model(y@[j].1),
                        ),
                decreases x.len() - i,
            {
                proof {
                    assert(decreases_to!(*a => (*a)->Object_0));
                    assert(decreases_to!(*x => x[i as int]));
                }
                if !str_eq(x[i].0.as_str(), y[i].0.as_str()) {
                    proof {
                        lemma_member_models(x@);
                        lemma_member_models(y@);
                        assert(member_models(x@)[i as int].0 != member_models(y@)[i as int].0);
                        assert(!member_same(member_models(x@)[i as int], member_models(y@)[i as int]));
                        assert(a@ == JsonModel::Object(member_models(x@)));
                        assert(b@ == JsonModel::Object(member_models(y@)));
                        lemma_members_same(member_models(x@), member_models(y@));
                    }
                    return false;
                }
                if !json_equal(&x[i].1, &y[i].1) {
                    proof {
                        lemma_member_models(x@);
                        lemma_member_models(y@);
                        assert(!json_same(member_models(x@)[i as int].1, member_models(y@)[i as int].1));
                        assert(!member_same(member_models(x@)[i as int], member_models(y@)[i as int]));
                        assert(a@ == JsonModel::Object(member_models(x@)));
                        assert(b@ == JsonModel::Object(member_models(y@)));
                        lemma_members_same(member_models(x@), member_models(y@));
                    }
                    return false;
                }
                i = i + 1;
            }
            proof {
                lemma_member_models(x@);
                lemma_member_models(y@);
                assert forall|j: int| 0 <= j < member_models(x@).len() implies #[trigger] member_same(
                    member_models(x@)[j],
                    member_models(y@)[j],
                ) by {
                    assert(x@[j].0@ == y@[j].0@);
                    assert(json_same(json_model(x@[j].1), json_model(y@[j].1)));
                }
                lemma_members_same(member_models(x@), member_models(y@));
            }
            true
        },
        _ => false,
    }
}

/// Copies a JSON value.
pub fn json_copy(a: &JsonValue) -> (r: JsonValue)
    ensures
        r@ == a@,
    decreases a,
{
    match a {
        JsonValue::Null => JsonValue::Null,
        JsonValue::Bool(x) => JsonValue::Bool(*x),
        JsonValue::Number(n) => JsonValue::Number(*n),
        JsonValue::String(s) => JsonValue::String(s.clone()),
        JsonValue::Array(x) => {
            let mut out: Vec<JsonValue> = Vec::new();
            let mut i: usize = 0;
            while i < x.len()
                invariant
                    i <= x.len(),
                    out.len() == i,
                    *a == JsonValue::Array(*x),
                    forall|j: int| 0 <= j < i ==> json_model(#[trigger] out@[j]) == json_model(x@[j]),
                decreases x.len() - i,
            {
                proof {
                    assert(decreases_to!(*a => (*a)->Array_0));
                    assert(decreases_to!(*x => x[i as int]));
                }
                let c = json_copy(&x[i]);
                out.push(c);
                i = i + 1;
            }
            proof {
                lemma_json_models(out@);
                lemma_json_models(x@);
                assert(json_models(out@) =~= json_models(x@));
            }
            JsonValue::Array(out)
        },
        JsonValue::Object(x) => {
            let mut out: Vec<(String, JsonValue)> = Vec::new();
            let mut i: usize = 0;
            while i < x.len()
                invariant
                    i <= x.len(),
                    out.len() == i,
                    *a == JsonValue::Object(*x),
                    forall|j: int|
                        0 <= j < i ==> (#[trigger] out@[j]).0@ == x@[j].0@ && json_model(out@[j].1)
                            == json_model(x@[j].1),
                decreases x.len() - i,
            {
                proof {
                    assert(decreases_to!(*a => (*a)->Object_0));
                    assert(decreases_to!(*x => x[i as int]));
                }
                let k = x[i].0.clone();
                let c = json_copy(&x[i].1);
                out.push((k, c));
                i = i + 1;
            }
            proof {
                lemma_member_models(out@);
                lemma_member_models(x@);
                assert(member_models(out@) =~= member_models(x@));
            }
            JsonValue::Object(out)
        },
    }
}

impl Clone for JsonValue {
    fn clone(&self) -> (r: Self)
        ensures
            r@ == self@,
    {
        json_copy(self)
    }
}

/// Coarse JSON value classes.
#[derive(Debug, Clone, Copy, PartialEq, Eq, Hash, Structural)]
pub enum MetadataValueType {
    /// JSON `null`.
    Null,
    /// JSON boolean.
    Bool,
    /// JSON number.
    Number,
    /// JSON string.
    String,
    /// JSON array.
    Array,
    /// JSON object.
    Object,
}

impl MetadataValueType {
    /// The class of a JSON value.
    pub open spec fn spec_of(value: JsonValue) -> MetadataValueType {
        match value {
            JsonValue::Null => MetadataValueType::Null,
            JsonValue::Bool(_) => MetadataValueType::Bool,
            JsonValue::Number(_) => MetadataValueType::Number,
            JsonValue::String(_) => MetadataValueType::String,
            JsonValue::Array(_) => MetadataValueType::Array,
            JsonValue::Object(_) => MetadataValueType::Object,
        }
    }

    /// Returns the JSON value type of `value`.
    pub fn of(value: &JsonValue) -> (r: MetadataValueType)
        ensures
            r == Self::spec_of(*value),
    {
        match value {
            JsonValue::Null => MetadataValueType::Null,
            JsonValue::Bool(_) => MetadataValueType::Bool,
            JsonValue::Number(_) => MetadataValueType::Number,
            JsonValue::String(_) => MetadataValueType::String,
            JsonValue::Array(_) => MetadataValueType::Array,
            JsonValue::Object(_) => MetadataValueType::Object,
        }
    }

    /// The snake-case name of a class.
    pub open spec fn spec_name(self) -> Seq<char> {
        match self {
            MetadataValueType::Null => "null"@,
            MetadataValueType::Bool => "bool"@,
            MetadataValueType::Number => "number"@,
            MetadataValueType::String => "string"@,
            MetadataValueType::Array => "array"@,
            MetadataValueType::Object => "object"@,
        }
    }

    /// Returns the snake-case name of this class.
    pub fn as_str(&self) -> (r: &'static str)
        ensures
            r@ == self.spec_name(),
    {
        match self {
            MetadataValueType::Null => "null",
            MetadataValueType::Bool => "bool",
            MetadataValueType::Number => "number",
            MetadataValueType::String => "string",
            MetadataValueType::Array => "array",
            MetadataValueType::Object => "object",
        }
    }
    /// Parses a class from its name, ignoring case; any other text gives
    /// `None`.
    pub fn parse(s: &str) -> (r: Option<MetadataValueType>)
        ensures
            match r {
                Some(t) => matches_ignoring_case(s@, t.spec_name()),
                None => forall|t: MetadataValueType| !matches_ignoring_case(s@, #[trigger] t.spec_name()),
            },
    {
        if eq_ignoring_case(s, "null") {
            Some(MetadataValueType::Null)
        } else if eq_ignoring_case(s, "bool") {
            Some(MetadataValueType::Bool)
        } else if eq_ignoring_case(s, "number") {
            Some(MetadataValueType::Number)
        } else if eq_ignoring_case(s, "string") {
            Some(MetadataValueType::String)
        } else if eq_ignoring_case(s, "array") {
            Some(MetadataValueType::Array)
        } else if eq_ignoring_case(s, "object") {
            Some(MetadataValueType::Object)
        } else {
            proof {
                assert forall|t: MetadataValueType| !matches_ignoring_case(s@, #[trigger] t.spec_name()) by {
                    match t {
                        MetadataValueType::Null => {},
                        MetadataValueType::Bool => {},
                        MetadataValueType::Number => {},
                        MetadataValueType::String => {},
                        MetadataValueType::Array => {},
                        MetadataValueType::Object => {},
                    }
                }
            }
            None
        }
    }

    /// Returns the snake-case name of this class.
    pub fn to_string(&self) -> (r: String)
        ensures
            r@ == self.spec_name(),
    {
        String::from_str(self.as_str())
    }
}

impl<'a> From<&'a JsonValue> for MetadataValueType {
    fn from(value: &'a JsonValue) -> (r: MetadataValueType) {
        MetadataValueType::of(value)
    }
}

impl<'a> vstd::std_specs::convert::FromSpecImpl<&'a JsonValue> for MetadataValueType {
    open spec fn obeys_from_spec() -> bool {
        true
    }

    open spec fn from_spec(v: &'a JsonValue) -> MetadataValueType {
        MetadataValueType::spec_of(*v)
    }
}

/// The error of parsing an unknown value class name.
#[derive(Debug, Clone, Copy, PartialEq, Eq)]
pub struct ParseValueTypeError;

impl std::str::FromStr for MetadataValueType {
    type Err = ParseValueTypeError;

    /// Parses a class from its name, ignoring case; any other text is an
    /// error.
    fn from_str(s: &str) -> (r: Result<MetadataValueType, ParseValueTypeError>)
        ensures
            match r {
                Ok(t) => matches_ignoring_case(s@, t.spec_name()),
                Err(_) => forall|t: MetadataValueType| !matches_ignoring_case(s@, #[trigger] t.spec_name()),
            },
    {
        match MetadataValueType::parse(s) {
            Some(t) => Ok(t),
            None => Err(ParseValueTypeError),
        }
    }
}

} // verus!
