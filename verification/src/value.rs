//! Typed runtime values stored in metadata, and their conversions.
use vstd::prelude::*;
use crate::big::{BigDecimal, BigInteger};
use crate::data_type::DataType;
use crate::float::{FloatKind, float_order, spec_decode_f32, spec_decode_f64};
use crate::json::{JsonModel, JsonValue, json_copy, json_equal, json_same};
use crate::text::str_eq;

verus! {

/// A calendar date in the proleptic Gregorian calendar.
#[derive(Debug, Clone, Copy, PartialEq, Eq, Hash, Structural)]
pub struct Date {
    /// The year.
    pub year: i32,
    /// The month, from 1.
    pub month: u32,
    /// The day of the month, from 1.
    pub day: u32,
}

/// A time of day.
#[derive(Debug, Clone, Copy, PartialEq, Eq, Hash, Structural)]
pub struct Time {
    /// The hour, from 0.
    pub hour: u32,
    /// The minute, from 0.
    pub minute: u32,
    /// The second, from 0.
    pub second: u32,
    /// The fraction of the second, in nanoseconds.
    pub nanosecond: u32,
}

/// A date and a time of day, without a time zone.
#[derive(Debug, Clone, Copy, PartialEq, Eq, Hash, Structural)]
pub struct DateTime {
    /// The date.
    pub date: Date,
    /// The time of day.
    pub time: Time,
}

/// A point in time: whole seconds and nanoseconds since the Unix epoch, UTC.
#[derive(Debug, Clone, Copy, PartialEq, Eq, Hash, Structural)]
pub struct Instant {
    /// Seconds since the epoch.
    pub seconds: i64,
    /// The fraction of the second, in nanoseconds.
    pub nanosecond: u32,
}

/// A span of time: whole seconds and nanoseconds.
#[derive(Debug, Clone, Copy, PartialEq, Eq, Hash, Structural)]
pub struct Duration {
    /// Whole seconds.
    pub seconds: u64,
    /// The fraction of the second, in nanoseconds.
    pub nanosecond: u32,
}

/// A typed runtime value.
///
/// Floating-point values are held as their IEEE-754 bit patterns.
#[derive(Debug)]
pub enum Value {
    /// A typed slot that holds no value.
    Empty(DataType),
    /// A boolean.
    Bool(bool),
    /// A character.
    Char(char),
    /// An 8-bit signed integer.
    Int8(i8),
    /// A 16-bit signed integer.
    Int16(i16),
    /// A 32-bit signed integer.
    Int32(i32),
    /// A 64-bit signed integer.
    Int64(i64),
    /// A 128-bit signed integer.
    Int128(i128),
    /// An 8-bit unsigned integer.
    UInt8(u8),
    /// A 16-bit unsigned integer.
    UInt16(u16),
    /// A 32-bit unsigned integer.
    UInt32(u32),
    /// A 64-bit unsigned integer.
    UInt64(u64),
    /// A 128-bit unsigned integer.
    UInt128(u128),
    /// A pointer-sized signed integer.
    IntSize(isize),
    /// A pointer-sized unsigned integer.
    UIntSize(usize),
    /// A binary32 float, as its bit pattern.
    Float32(u32),
    /// A binary64 float, as its bit pattern.
    Float64(u64),
    /// A string.
    String(String),
    /// A calendar date.
    Date(Date),
    /// A time of day.
    Time(Time),
    /// A date and time of day.
    DateTime(DateTime),
    /// A point in time.
    Instant(Instant),
    /// A span of time.
    Duration(Duration),
    /// A URL, as its text.
    Url(String),
    /// An arbitrary-precision integer.
    BigInteger(BigInteger),
    /// An arbitrary-precision decimal.
    BigDecimal(BigDecimal),
    /// A JSON payload.
    Json(JsonValue),
}

/// The mathematical model of a [`Value`].
pub enum ValueModel {
    /// A typed slot that holds no value.
    Empty(DataType),
    /// A boolean.
    Bool(bool),
    /// A character.
    Char(char),
    /// An 8-bit signed integer.
    Int8(i8),
    /// A 16-bit signed integer.
    Int16(i16),
    /// A 32-bit signed integer.
    Int32(i32),
    /// A 64-bit signed integer.
    Int64(i64),
    /// A 128-bit signed integer.
    Int128(i128),
    /// An 8-bit unsigned integer.
    UInt8(u8),
    /// A 16-bit unsigned integer.
    UInt16(u16),
    /// A 32-bit unsigned integer.
    UInt32(u32),
    /// A 64-bit unsigned integer.
    UInt64(u64),
    /// A 128-bit unsigned integer.
    UInt128(u128),
    /// A pointer-sized signed integer.
    IntSize(isize),
    /// A pointer-sized unsigned integer.
    UIntSize(usize),
    /// A binary32 float bit pattern.
    Float32(u32),
    /// A binary64 float bit pattern.
    Float64(u64),
    /// A string.
    String(Seq<char>),
    /// A calendar date.
    Date(Date),
    /// A time of day.
    Time(Time),
    /// A date and time of day.
    DateTime(DateTime),
    /// A point in time.
    Instant(Instant),
    /// A span of time.
    Duration(Duration),
    /// A URL's text.
    Url(Seq<char>),
    /// An integer.
    BigInteger(int),
    /// The decimal `int_val * 10^(-scale)`, as `(int_val, scale)`.
    BigDecimal(int, int),
    /// A JSON payload.
    Json(JsonModel),
}

/// A number as the comparison rules see it.
pub enum NumberModel {
    /// A signed integer.
    Signed(int),
    /// An unsigned integer.
    Unsigned(int),
    /// A float.
    Float(FloatKind),
}

impl View for Value {
    type V = ValueModel;

    open spec fn view(&self) -> ValueModel {
        match self {
            Value::Empty(t) => ValueModel::Empty(*t),
            Value::Bool(x) => ValueModel::Bool(*x),
            Value::Char(x) => ValueModel::Char(*x),
            Value::Int8(x) => ValueModel::Int8(*x),
            Value::Int16(x) => ValueModel::Int16(*x),
            Value::Int32(x) => ValueModel::Int32(*x),
            Value::Int64(x) => ValueModel::Int64(*x),
            Value::Int128(x) => ValueModel::Int128(*x),
            Value::UInt8(x) => ValueModel::UInt8(*x),
            Value::UInt16(x) => ValueModel::UInt16(*x),
            Value::UInt32(x) => ValueModel::UInt32(*x),
            Value::UInt64(x) => ValueModel::UInt64(*x),
            Value::UInt128(x) => ValueModel::UInt128(*x),
            Value::IntSize(x) => ValueModel::IntSize(*x),
            Value::UIntSize(x) => ValueModel::UIntSize(*x),
            Value::Float32(x) => ValueModel::Float32(*x),
            Value::Float64(x) => ValueModel::Float64(*x),
            Value::String(s) => ValueModel::String(s@),
            Value::Date(x) => ValueModel::Date(*x),
            Value::Time(x) => ValueModel::Time(*x),
            Value::DateTime(x) => ValueModel::DateTime(*x),
            Value::Instant(x) => ValueModel::Instant(*x),
            Value::Duration(x) => ValueModel::Duration(*x),
            Value::Url(s) => ValueModel::Url(s@),
            Value::BigInteger(b) => ValueModel::BigInteger(b.spec_value()),
            Value::BigDecimal(d) => ValueModel::BigDecimal(d.int_val.spec_value(), d.scale as int),
            Value::Json(j) => ValueModel::Json(j@),
        }
    }
}

impl ValueModel {
    /// The concrete data type of a value.
    pub open spec fn data_type(self) -> DataType {
        match self {
            ValueModel::Empty(t) => t,
            ValueModel::Bool(_) => DataType::Bool,
            ValueModel::Char(_) => DataType::Char,
            ValueModel::Int8(_) => DataType::Int8,
            ValueModel::Int16(_) => DataType::Int16,
            ValueModel::Int32(_) => DataType::Int32,
            ValueModel::Int64(_) => DataType::Int64,
            ValueModel::Int128(_) => DataType::Int128,
            ValueModel::UInt8(_) => DataType::UInt8,
            ValueModel::UInt16(_) => DataType::UInt16,
            ValueModel::UInt32(_) => DataType::UInt32,
            ValueModel::UInt64(_) => DataType::UInt64,
            ValueModel::UInt128(_) => DataType::UInt128,
            ValueModel::IntSize(_) => DataType::IntSize,
            ValueModel::UIntSize(_) => DataType::UIntSize,
            ValueModel::Float32(_) => DataType::Float32,
            ValueModel::Float64(_) => DataType::Float64,
            ValueModel::String(_) => DataType::String,
            ValueModel::Date(_) => DataType::Date,
            ValueModel::Time(_) => DataType::Time,
            ValueModel::DateTime(_) => DataType::DateTime,
            ValueModel::Instant(_) => DataType::Instant,
            ValueModel::Duration(_) => DataType::Duration,
            ValueModel::Url(_) => DataType::Url,
            ValueModel::BigInteger(_) => DataType::BigInteger,
            ValueModel::BigDecimal(_, _) => DataType::BigDecimal,
            ValueModel::Json(_) => DataType::Json,
        }
    }

    /// The value holds a number (an empty slot holds none).
    pub open spec fn is_numeric(self) -> bool {
        !(self is Empty) && self.data_type().spec_is_numeric()
    }

    /// The value is an arbitrary-precision number.
    pub open spec fn is_big(self) -> bool {
        self is BigInteger || self is BigDecimal
    }

    /// The value as a fixed-width number: integers keep their sign class,
    /// floats are decoded; other values have none.
    pub open spec fn number(self) -> Option<NumberModel> {
        match self {
            ValueModel::Int8(x) => Some(NumberModel::Signed(x as int)),
            ValueModel::Int16(x) => Some(NumberModel::Signed(x as int)),
            ValueModel::Int32(x) => Some(NumberModel::Signed(x as int)),
            ValueModel::Int64(x) => Some(NumberModel::Signed(x as int)),
            ValueModel::Int128(x) => Some(NumberModel::Signed(x as int)),
            ValueModel::IntSize(x) => Some(NumberModel::Signed(x as int)),
            ValueModel::UInt8(x) => Some(NumberModel::Unsigned(x as int)),
            ValueModel::UInt16(x) => Some(NumberModel::Unsigned(x as int)),
            ValueModel::UInt32(x) => Some(NumberModel::Unsigned(x as int)),
            ValueModel::UInt64(x) => Some(NumberModel::Unsigned(x as int)),
            ValueModel::UInt128(x) => Some(NumberModel::Unsigned(x as int)),
            ValueModel::UIntSize(x) => Some(NumberModel::Unsigned(x as int)),
            ValueModel::Float32(b) => Some(NumberModel::Float(spec_decode_f32(b))),
            ValueModel::Float64(b) => Some(NumberModel::Float(spec_decode_f64(b))),
            _ => None,
        }
    }

    /// The value as an exact integer: every integer type and big integers.
    pub open spec fn big_int(self) -> Option<int> {
        match self {
            ValueModel::Int8(x) => Some(x as int),
            ValueModel::Int16(x) => Some(x as int),
            ValueModel::Int32(x) => Some(x as int),
            ValueModel::Int64(x) => Some(x as int),
            ValueModel::Int128(x) => Some(x as int),
            ValueModel::IntSize(x) => Some(x as int),
            ValueModel::UInt8(x) => Some(x as int),
            ValueModel::UInt16(x) => Some(x as int),
            ValueModel::UInt32(x) => Some(x as int),
            ValueModel::UInt64(x) => Some(x as int),
            ValueModel::UInt128(x) => Some(x as int),
            ValueModel::UIntSize(x) => Some(x as int),
            ValueModel::BigInteger(x) => Some(x),
            _ => None,
        }
    }

    /// The value as an exact decimal `(int_val, scale)`: big decimals, and
    /// exact integers with scale zero.
    pub open spec fn big_dec(self) -> Option<(int, int)> {
        match self {
            ValueModel::BigDecimal(x, s) => Some((x, s)),
            _ => match self.big_int() {
                Some(x) => Some((x, 0)),
                None => None,
            },
        }
    }
}

impl NumberModel {
    /// The class of a number: signed integer, unsigned integer or float.
    pub open spec fn class(self) -> int {
        match self {
            NumberModel::Signed(_) => 0,
            NumberModel::Unsigned(_) => 1,
            NumberModel::Float(_) => 2,
        }
    }
}

/// Copies a value.
pub fn copy_value(v: &Value) -> (r: Value)
    ensures
        r@ == v@,
{
    match v {
        Value::Empty(t) => Value::Empty(*t),
        Value::Bool(x) => Value::Bool(*x),
        Value::Char(x) => Value::Char(*x),
        Value::Int8(x) => Value::Int8(*x),
        Value::Int16(x) => Value::Int16(*x),
        Value::Int32(x) => Value::Int32(*x),
        Value::Int64(x) => Value::Int64(*x),
        Value::Int128(x) => Value::Int128(*x),
        Value::UInt8(x) => Value::UInt8(*x),
        Value::UInt16(x) => Value::UInt16(*x),
        Value::UInt32(x) => Value::UInt32(*x),
        Value::UInt64(x) => Value::UInt64(*x),
        Value::UInt128(x) => Value::UInt128(*x),
        Value::IntSize(x) => Value::IntSize(*x),
        Value::UIntSize(x) => Value::UIntSize(*x),
        Value::Float32(x) => Value::Float32(*x),
        Value::Float64(x) => Value::Float64(*x),
        Value::String(s) => Value::String(s.clone()),
        Value::Date(x) => Value::Date(*x),
        Value::Time(x) => Value::Time(*x),
        Value::DateTime(x) => Value::DateTime(*x),
        Value::Instant(x) => Value::Instant(*x),
        Value::Duration(x) => Value::Duration(*x),
        Value::Url(s) => Value::Url(s.clone()),
        Value::BigInteger(b) => Value::BigInteger(b.clone()),
        Value::BigDecimal(d) => Value::BigDecimal(d.clone()),
        Value::Json(j) => Value::Json(json_copy(j)),
    }
}

impl Clone for Value {
    fn clone(&self) -> (r: Self)
        ensures
            r@ == self@,
    {
        copy_value(self)
    }
}

/// Two values are the same: the same variant holding the same contents,
/// JSON payloads compared by [`json_same`].
pub open spec fn value_same(a: ValueModel, b: ValueModel) -> bool {
    match (a, b) {
        (ValueModel::Json(x), ValueModel::Json(y)) => json_same(x, y),
        _ => a == b,
    }
}

/// Returns `true` when both values are the same (see [`value_same`]).
pub fn same_value(a: &Value, b: &Value) -> (r: bool)
    ensures
        r == value_same(a@, b@),
{
    match (a, b) {
        (Value::Empty(x), Value::Empty(y)) => *x == *y,
        (Value::Bool(x), Value::Bool(y)) => *x == *y,
        (Value::Char(x), Value::Char(y)) => *x == *y,
        (Value::Int8(x), Value::Int8(y)) => *x == *y,
        (Value::Int16(x), Value::Int16(y)) => *x == *y,
        (Value::Int32(x), Value::Int32(y)) => *x == *y,
        (Value::Int64(x), Value::Int64(y)) => *x == *y,
        (Value::Int128(x), Value::Int128(y)) => *x == *y,
        (Value::UInt8(x), Value::UInt8(y)) => *x == *y,
        (Value::UInt16(x), Value::UInt16(y)) => *x == *y,
        (Value::UInt32(x), Value::UInt32(y)) => *x == *y,
        (Value::UInt64(x), Value::UInt64(y)) => *x == *y,
        (Value::UInt128(x), Value::UInt128(y)) => *x == *y,
        (Value::IntSize(x), Value::IntSize(y)) => *x == *y,
        (Value::UIntSize(x), Value::UIntSize(y)) => *x == *y,
        (Value::Float32(x), Value::Float32(y)) => *x == *y,
        (Value::Float64(x), Value::Float64(y)) => *x == *y,
        (Value::String(x), Value::String(y)) => str_eq(x.as_str(), y.as_str()),
        (Value::Date(x), Value::Date(y)) => *x == *y,
        (Value::Time(x), Value::Time(y)) => *x == *y,
        (Value::DateTime(x), Value::DateTime(y)) => *x == *y,
        (Value::Instant(x), Value::Instant(y)) => *x == *y,
        (Value::Duration(x), Value::Duration(y)) => *x == *y,
        (Value::Url(x), Value::Url(y)) => str_eq(x.as_str(), y.as_str()),
        (Value::BigInteger(x), Value::BigInteger(y)) => {
            match crate::big::big_integer_order(x, y) {
                crate::text::Order::Equal => true,
                _ => false,
            }
        },
        (Value::BigDecimal(x), Value::BigDecimal(y)) => {
            if x.scale != y.scale {
                false
            } else {
                match crate::big::big_integer_order(&x.int_val, &y.int_val) {
                    crate::text::Order::Equal => true,
                    _ => false,
                }
            }
        },
        (Value::Json(x), Value::Json(y)) => json_equal(x, y),
        _ => false,
    }
}

impl PartialEq for Value {
    fn eq(&self, other: &Self) -> (r: bool) {
        same_value(self, other)
    }
}

impl vstd::std_specs::cmp::PartialEqSpecImpl for Value {
    open spec fn obeys_eq_spec() -> bool {
        true
    }

    open spec fn eq_spec(&self, other: &Self) -> bool {
        value_same(self@, other@)
    }
}

impl Value {
    /// Returns the concrete data type of this value.
    pub fn data_type(&self) -> (r: DataType)
        ensures
            r == self@.data_type(),
    {
        match self {
            Value::Empty(t) => *t,
            Value::Bool(_) => DataType::Bool,
            Value::Char(_) => DataType::Char,
            Value::Int8(_) => DataType::Int8,
            Value::Int16(_) => DataType::Int16,
            Value::Int32(_) => DataType::Int32,
            Value::Int64(_) => DataType::Int64,
            Value::Int128(_) => DataType::Int128,
            Value::UInt8(_) => DataType::UInt8,
            Value::UInt16(_) => DataType::UInt16,
            Value::UInt32(_) => DataType::UInt32,
            Value::UInt64(_) => DataType::UInt64,
            Value::UInt128(_) => DataType::UInt128,
            Value::IntSize(_) => DataType::IntSize,
            Value::UIntSize(_) => DataType::UIntSize,
            Value::Float32(_) => DataType::Float32,
            Value::Float64(_) => DataType::Float64,
            Value::String(_) => DataType::String,
            Value::Date(_) => DataType::Date,
            Value::Time(_) => DataType::Time,
            Value::DateTime(_) => DataType::DateTime,
            Value::Instant(_) => DataType::Instant,
            Value::Duration(_) => DataType::Duration,
            Value::Url(_) => DataType::Url,
            Value::BigInteger(_) => DataType::BigInteger,
            Value::BigDecimal(_) => DataType::BigDecimal,
            Value::Json(_) => DataType::Json,
        }
    }

    /// Returns `true` when this value holds nothing.
    pub fn is_empty(&self) -> (r: bool)
        ensures
            r == (self@ is Empty),
    {
        match self {
            Value::Empty(_) => true,
            _ => false,
        }
    }
}

/// A Rust value that converts into a [`Value`].
pub trait IntoValue: Sized {
    /// The model of the value this Rust value becomes.
    spec fn value_model(&self) -> ValueModel;

    /// Wraps this Rust value in a [`Value`].
    fn into_value(self) -> (r: Value)
        ensures
            r@ == self.value_model(),
    ;
}

/// A Rust type that maps to exactly one [`Value`] variant and is read back
/// from that variant alone.
pub trait FromValue: IntoValue {
    /// The data type of the variant this Rust type maps to.
    spec fn spec_data_type() -> DataType;

    /// Every value of this Rust type becomes a non-empty value of its data
    /// type.
    proof fn lemma_value_model(x: Self)
        ensures
            x.value_model().data_type() == Self::spec_data_type(),
            !(x.value_model() is Empty),
    ;

    /// Returns the data type of the variant this Rust type maps to.
    fn data_type() -> (r: DataType)
        ensures
            r == Self::spec_data_type(),
    ;

    /// Reads a Rust value back from its own [`Value`] variant; any other
    /// variant, and an empty slot, gives `None`.
    fn from_value(v: &Value) -> (r: Option<Self>)
        ensures
            r is Some <==> (v@.data_type() == Self::spec_data_type() && !(v@ is Empty)),
            r matches Some(x) ==> x.value_model() == v@,
    ;
}

impl IntoValue for Value {
    open spec fn value_model(&self) -> ValueModel {
        self@
    }

    fn into_value(self) -> (r: Value) {
        self
    }
}

impl IntoValue for bool {
    open spec fn value_model(&self) -> ValueModel {
        ValueModel::Bool(*self)
    }

    fn into_value(self) -> (r: Value) {
        Value::Bool(self)
    }
}

impl FromValue for bool {
    open spec fn spec_data_type() -> DataType {
        DataType::Bool
    }

    proof fn lemma_value_model(x: Self) {
    }

    fn data_type() -> (r: DataType) {
        DataType::Bool
    }

    fn from_value(v: &Value) -> (r: Option<Self>) {
        match v {
            Value::Bool(x) => Some(*x),
            _ => None,
        }
    }
}

impl IntoValue for char {
    open spec fn value_model(&self) -> ValueModel {
        ValueModel::Char(*self)
    }

    fn into_value(self) -> (r: Value) {
        Value::Char(self)
    }
}

impl FromValue for char {
    open spec fn spec_data_type() -> DataType {
        DataType::Char
    }

    proof fn lemma_value_model(x: Self) {
    }

    fn data_type() -> (r: DataType) {
        DataType::Char
    }

    fn from_value(v: &Value) -> (r: Option<Self>) {
        match v {
            Value::Char(x) => Some(*x),
            _ => None,
        }
    }
}

impl IntoValue for i8 {
    open spec fn value_model(&self) -> ValueModel {
        ValueModel::Int8(*self)
    }

    fn into_value(self) -> (r: Value) {
        Value::Int8(self)
    }
}

impl FromValue for i8 {
    open spec fn spec_data_type() -> DataType {
        DataType::Int8
    }

    proof fn lemma_value_model(x: Self) {
    }

    fn data_type() -> (r: DataType) {
        DataType::Int8
    }

    fn from_value(v: &Value) -> (r: Option<Self>) {
        match v {
            Value::Int8(x) => Some(*x),
            _ => None,
        }
    }
}

impl IntoValue for i16 {
    open spec fn value_model(&self) -> ValueModel {
        ValueModel::Int16(*self)
    }

    fn into_value(self) -> (r: Value) {
        Value::Int16(self)
    }
}

impl FromValue for i16 {
    open spec fn spec_data_type() -> DataType {
        DataType::Int16
    }

    proof fn lemma_value_model(x: Self) {
    }

    fn data_type() -> (r: DataType) {
        DataType::Int16
    }

    fn from_value(v: &Value) -> (r: Option<Self>) {
        match v {
            Value::Int16(x) => Some(*x),
            _ => None,
        }
    }
}

impl IntoValue for i32 {
    open spec fn value_model(&self) -> ValueModel {
        ValueModel::Int32(*self)
    }

    fn into_value(self) -> (r: Value) {
        Value::Int32(self)
    }
}

impl FromValue for i32 {
    open spec fn spec_data_type() -> DataType {
        DataType::Int32
    }

    proof fn lemma_value_model(x: Self) {
    }

    fn data_type() -> (r: DataType) {
        DataType::Int32
    }

    fn from_value(v: &Value) -> (r: Option<Self>) {
        match v {
            Value::Int32(x) => Some(*x),
            _ => None,
        }
    }
}

impl IntoValue for i64 {
    open spec fn value_model(&self) -> ValueModel {
        ValueModel::Int64(*self)
    }

    fn into_value(self) -> (r: Value) {
        Value::Int64(self)
    }
}

impl FromValue for i64 {
    open spec fn spec_data_type() -> DataType {
        DataType::Int64
    }

    proof fn lemma_value_model(x: Self) {
    }

    fn data_type() -> (r: DataType) {
        DataType::Int64
    }

    fn from_value(v: &Value) -> (r: Option<Self>) {
        match v {
            Value::Int64(x) => Some(*x),
            _ => None,
        }
    }
}

impl IntoValue for i128 {
    open spec fn value_model(&self) -> ValueModel {
        ValueModel::Int128(*self)
    }

    fn into_value(self) -> (r: Value) {
        Value::Int128(self)
    }
}

impl FromValue for i128 {
    open spec fn spec_data_type() -> DataType {
        DataType::Int128
    }

    proof fn lemma_value_model(x: Self) {
    }

    fn data_type() -> (r: DataType) {
        DataType::Int128
    }

    fn from_value(v: &Value) -> (r: Option<Self>) {
        match v {
            Value::Int128(x) => Some(*x),
            _ => None,
        }
    }
}

impl IntoValue for u8 {
    open spec fn value_model(&self) -> ValueModel {
        ValueModel::UInt8(*self)
    }

    fn into_value(self) -> (r: Value) {
        Value::UInt8(self)
    }
}

impl FromValue for u8 {
    open spec fn spec_data_type() -> DataType {
        DataType::UInt8
    }

    proof fn lemma_value_model(x: Self) {
    }

    fn data_type() -> (r: DataType) {
        DataType::UInt8
    }

    fn from_value(v: &Value) -> (r: Option<Self>) {
        match v {
            Value::UInt8(x) => Some(*x),
            _ => None,
        }
    }
}

impl IntoValue for u16 {
    open spec fn value_model(&self) -> ValueModel {
        ValueModel::UInt16(*self)
    }

    fn into_value(self) -> (r: Value) {
        Value::UInt16(self)
    }
}

impl FromValue for u16 {
    open spec fn spec_data_type() -> DataType {
        DataType::UInt16
    }

    proof fn lemma_value_model(x: Self) {
    }

    fn data_type() -> (r: DataType) {
        DataType::UInt16
    }

    fn from_value(v: &Value) -> (r: Option<Self>) {
        match v {
            Value::UInt16(x) => Some(*x),
            _ => None,
        }
    }
}

impl IntoValue for u32 {
    open spec fn value_model(&self) -> ValueModel {
        ValueModel::UInt32(*self)
    }

    fn into_value(self) -> (r: Value) {
        Value::UInt32(self)
    }
}

impl FromValue for u32 {
    open spec fn spec_data_type() -> DataType {
        DataType::UInt32
    }

    proof fn lemma_value_model(x: Self) {
    }

    fn data_type() -> (r: DataType) {
        DataType::UInt32
    }

    fn from_value(v: &Value) -> (r: Option<Self>) {
        match v {
            Value::UInt32(x) => Some(*x),
            _ => None,
        }
    }
}

impl IntoValue for u64 {
    open spec fn value_model(&self) -> ValueModel {
        ValueModel::UInt64(*self)
    }

    fn into_value(self) -> (r: Value) {
        Value::UInt64(self)
    }
}

impl FromValue for u64 {
    open spec fn spec_data_type() -> DataType {
        DataType::UInt64
    }

    proof fn lemma_value_model(x: Self) {
    }

    fn data_type() -> (r: DataType) {
        DataType::UInt64
    }

    fn from_value(v: &Value) -> (r: Option<Self>) {
        match v {
            Value::UInt64(x) => Some(*x),
            _ => None,
        }
    }
}

impl IntoValue for u128 {
    open spec fn value_model(&self) -> ValueModel {
        ValueModel::UInt128(*self)
    }

    fn into_value(self) -> (r: Value) {
        Value::UInt128(self)
    }
}

impl FromValue for u128 {
    open spec fn spec_data_type() -> DataType {
        DataType::UInt128
    }

    proof fn lemma_value_model(x: Self) {
    }

    fn data_type() -> (r: DataType) {
        DataType::UInt128
    }

    fn from_value(v: &Value) -> (r: Option<Self>) {
        match v {
            Value::UInt128(x) => Some(*x),
            _ => None,
        }
    }
}

impl IntoValue for isize {
    open spec fn value_model(&self) -> ValueModel {
        ValueModel::IntSize(*self)
    }

    fn into_value(self) -> (r: Value) {
        Value::IntSize(self)
    }
}

impl FromValue for isize {
    open spec fn spec_data_type() -> DataType {
        DataType::IntSize
    }

    proof fn lemma_value_model(x: Self) {
    }

    fn data_type() -> (r: DataType) {
        DataType::IntSize
    }

    fn from_value(v: &Value) -> (r: Option<Self>) {
        match v {
            Value::IntSize(x) => Some(*x),
            _ => None,
        }
    }
}

impl IntoValue for usize {
    open spec fn value_model(&self) -> ValueModel {
        ValueModel::UIntSize(*self)
    }

    fn into_value(self) -> (r: Value) {
        Value::UIntSize(self)
    }
}

impl FromValue for usize {
    open spec fn spec_data_type() -> DataType {
        DataType::UIntSize
    }

    proof fn lemma_value_model(x: Self) {
    }

    fn data_type() -> (r: DataType) {
        DataType::UIntSize
    }

    fn from_value(v: &Value) -> (r: Option<Self>) {
        match v {
            Value::UIntSize(x) => Some(*x),
            _ => None,
        }
    }
}

impl IntoValue for String {
    open spec fn value_model(&self) -> ValueModel {
        ValueModel::String(self@)
    }

    fn into_value(self) -> (r: Value) {
        Value::String(self)
    }
}

impl FromValue for String {
    open spec fn spec_data_type() -> DataType {
        DataType::String
    }

    proof fn lemma_value_model(x: Self) {
    }

    fn data_type() -> (r: DataType) {
        DataType::String
    }

    fn from_value(v: &Value) -> (r: Option<Self>) {
        match v {
            Value::String(x) => Some(x.clone()),
            _ => None,
        }
    }
}

impl<'a> IntoValue for &'a str {
    open spec fn value_model(&self) -> ValueModel {
        ValueModel::String(self@)
    }

    fn into_value(self) -> (r: Value) {
        Value::String(self.to_string())
    }
}

impl IntoValue for BigInteger {
    open spec fn value_model(&self) -> ValueModel {
        ValueModel::BigInteger(self.spec_value())
    }

    fn into_value(self) -> (r: Value) {
        Value::BigInteger(self)
    }
}

impl FromValue for BigInteger {
    open spec fn spec_data_type() -> DataType {
        DataType::BigInteger
    }

    proof fn lemma_value_model(x: Self) {
    }

    fn data_type() -> (r: DataType) {
        DataType::BigInteger
    }

    fn from_value(v: &Value) -> (r: Option<Self>) {
        match v {
            Value::BigInteger(x) => Some(x.clone()),
            _ => None,
        }
    }
}

impl IntoValue for BigDecimal {
    open spec fn value_model(&self) -> ValueModel {
        ValueModel::BigDecimal(self.int_val.spec_value(), self.scale as int)
    }

    fn into_value(self) -> (r: Value) {
        Value::BigDecimal(self)
    }
}

impl FromValue for BigDecimal {
    open spec fn spec_data_type() -> DataType {
        DataType::BigDecimal
    }

    proof fn lemma_value_model(x: Self) {
    }

    fn data_type() -> (r: DataType) {
        DataType::BigDecimal
    }

    fn from_value(v: &Value) -> (r: Option<Self>) {
        match v {
            Value::BigDecimal(x) => Some(x.clone()),
            _ => None,
        }
    }
}

impl IntoValue for JsonValue {
    open spec fn value_model(&self) -> ValueModel {
        ValueModel::Json(self@)
    }

    fn into_value(self) -> (r: Value) {
        Value::Json(self)
    }
}

impl FromValue for JsonValue {
    open spec fn spec_data_type() -> DataType {
        DataType::Json
    }

    proof fn lemma_value_model(x: Self) {
    }

    fn data_type() -> (r: DataType) {
        DataType::Json
    }

    fn from_value(v: &Value) -> (r: Option<Self>) {
        match v {
            Value::Json(x) => Some(json_copy(x)),
            _ => None,
        }
    }
}

impl IntoValue for Date {
    open spec fn value_model(&self) -> ValueModel {
        ValueModel::Date(*self)
    }

    fn into_value(self) -> (r: Value) {
        Value::Date(self)
    }
}

impl FromValue for Date {
    open spec fn spec_data_type() -> DataType {
        DataType::Date
    }

    proof fn lemma_value_model(x: Self) {
    }

    fn data_type() -> (r: DataType) {
        DataType::Date
    }

    fn from_value(v: &Value) -> (r: Option<Self>) {
        match v {
            Value::Date(x) => Some(*x),
            _ => None,
        }
    }
}

impl IntoValue for Time {
    open spec fn value_model(&self) -> ValueModel {
        ValueModel::Time(*self)
    }

    fn into_value(self) -> (r: Value) {
        Value::Time(self)
    }
}

impl FromValue for Time {
    open spec fn spec_data_type() -> DataType {
        DataType::Time
    }

    proof fn lemma_value_model(x: Self) {
    }

    fn data_type() -> (r: DataType) {
        DataType::Time
    }

    fn from_value(v: &Value) -> (r: Option<Self>) {
        match v {
            Value::Time(x) => Some(*x),
            _ => None,
        }
    }
}

impl IntoValue for DateTime {
    open spec fn value_model(&self) -> ValueModel {
        ValueModel::DateTime(*self)
    }

    fn into_value(self) -> (r: Value) {
        Value::DateTime(self)
    }
}

impl FromValue for DateTime {
    open spec fn spec_data_type() -> DataType {
        DataType::DateTime
    }

    proof fn lemma_value_model(x: Self) {
    }

    fn data_type() -> (r: DataType) {
        DataType::DateTime
    }

    fn from_value(v: &Value) -> (r: Option<Self>) {
        match v {
            Value::DateTime(x) => Some(*x),
            _ => None,
        }
    }
}

impl IntoValue for Instant {
    open spec fn value_model(&self) -> ValueModel {
        ValueModel::Instant(*self)
    }

    fn into_value(self) -> (r: Value) {
        Value::Instant(self)
    }
}

impl FromValue for Instant {
    open spec fn spec_data_type() -> DataType {
        DataType::Instant
    }

    proof fn lemma_value_model(x: Self) {
    }

    fn data_type() -> (r: DataType) {
        DataType::Instant
    }

    fn from_value(v: &Value) -> (r: Option<Self>) {
        match v {
            Value::Instant(x) => Some(*x),
            _ => None,
        }
    }
}

impl IntoValue for Duration {
    open spec fn value_model(&self) -> ValueModel {
        ValueModel::Duration(*self)
    }

    fn into_value(self) -> (r: Value) {
        Value::Duration(self)
    }
}

impl FromValue for Duration {
    open spec fn spec_data_type() -> DataType {
        DataType::Duration
    }

    proof fn lemma_value_model(x: Self) {
    }

    fn data_type() -> (r: DataType) {
        DataType::Duration
    }

    fn from_value(v: &Value) -> (r: Option<Self>) {
        match v {
            Value::Duration(x) => Some(*x),
            _ => None,
        }
    }
}

} // verus!
