//! Equality and ordering of values, numbers by their numeric value.
//!
//! Numbers of different representations compare exactly wherever that is
//! possible without loss; comparisons that would need a lossy conversion are
//! incomparable under the conservative policy and go through doubles under
//! the approximate one.
use vstd::prelude::*;
use crate::big::{
    BigDecimal, BigInteger, big_decimal_order, big_decimal_order_of, big_decimal_scientific,
    big_integer_order, lemma_decimal_order_swap, parse_double, parsed_double_bits, scientific_text,
};
use crate::float::{
    FloatKind, compare_i128_f64, compare_u128_f64, decode_f32, decode_f64, float_compare,
    float_order, i128_float_order, lemma_float_order_swap, spec_decode_f32, spec_decode_f64,
    u128_float_order,
};
use crate::policy::NumberComparisonPolicy;
use crate::text::{Order, int_order, seq_order, str_order};
use crate::value::{NumberModel, Value, ValueModel, same_value, value_same};

verus! {

/// An optional order with its operands swapped.
pub open spec fn reverse_order(o: Option<Order>) -> Option<Order> {
    match o {
        Some(x) => Some(x.spec_reverse()),
        None => None,
    }
}

/// Orders two fixed-width numbers: integers exactly, whatever their sign
/// class; an integer and a float by the integer-float rules; two floats as
/// IEEE-754 does.
pub open spec fn number_order(a: NumberModel, b: NumberModel, approx: bool) -> Option<Order> {
    match (a, b) {
        (NumberModel::Signed(x), NumberModel::Signed(y)) => Some(int_order(x, y)),
        (NumberModel::Unsigned(x), NumberModel::Unsigned(y)) => Some(int_order(x, y)),
        (NumberModel::Signed(x), NumberModel::Unsigned(y)) => Some(int_order(x, y)),
        (NumberModel::Unsigned(x), NumberModel::Signed(y)) => Some(int_order(x, y)),
        (NumberModel::Signed(x), NumberModel::Float(y)) => i128_float_order(x, y, approx),
        (NumberModel::Float(x), NumberModel::Signed(y)) => reverse_order(
            i128_float_order(y, x, approx),
        ),
        (NumberModel::Unsigned(x), NumberModel::Float(y)) => u128_float_order(x, y, approx),
        (NumberModel::Float(x), NumberModel::Unsigned(y)) => reverse_order(
            u128_float_order(y, x, approx),
        ),
        (NumberModel::Float(x), NumberModel::Float(y)) => float_order(x, y),
    }
}

/// A big decimal `x * 10^(-s)` converted to a double: its scientific
/// notation as `bigdecimal` writes it, read back by std's parser.
pub open spec fn approx_big(x: int, s: int) -> Option<FloatKind> {
    match parsed_double_bits(scientific_text(x, s)) {
        Some(bits) => Some(spec_decode_f64(bits)),
        None => None,
    }
}

/// A value converted to a double for the approximate comparison of big
/// numbers: floats as they are, big numbers through [`approx_big`].
pub open spec fn approx_float(v: ValueModel) -> Option<FloatKind> {
    match v {
        ValueModel::Float32(b) => Some(spec_decode_f32(b)),
        ValueModel::Float64(b) => Some(spec_decode_f64(b)),
        ValueModel::BigInteger(x) => approx_big(x, 0),
        ValueModel::BigDecimal(x, s) => approx_big(x, s),
        _ => None,
    }
}

/// Orders two numbers of which at least one is a big number: exactly as
/// integers when both are integral, exactly as decimals when neither is a
/// float, and otherwise (a big number against a float) as doubles under the
/// approximate policy only.
pub open spec fn big_order(a: ValueModel, b: ValueModel, policy: NumberComparisonPolicy) -> Option<
    Order,
> {
    if a.big_int() is Some && b.big_int() is Some {
        Some(int_order(a.big_int()->0, b.big_int()->0))
    } else if a.big_dec() is Some && b.big_dec() is Some {
        let (x, sx) = a.big_dec()->0;
        let (y, sy) = b.big_dec()->0;
        Some(big_decimal_order_of(x, sx, y, sy))
    } else if policy.spec_is_approximate() {
        match (approx_float(a), approx_float(b)) {
            (Some(x), Some(y)) => float_order(x, y),
            _ => None,
        }
    } else {
        None
    }
}

/// Orders two numeric values, or finds them incomparable.
pub open spec fn numbers_order(a: ValueModel, b: ValueModel, policy: NumberComparisonPolicy) -> Option<
    Order,
> {
    if a.is_big() || b.is_big() {
        big_order(a, b, policy)
    } else {
        match (a.number(), b.number()) {
            (Some(x), Some(y)) => number_order(x, y, policy.spec_is_approximate()),
            _ => None,
        }
    }
}

/// Two values are equal: numbers when they compare equal, anything else
/// when both are the same (see [`value_same`]).
pub open spec fn spec_values_equal(a: ValueModel, b: ValueModel, policy: NumberComparisonPolicy) -> bool {
    if a.is_numeric() && b.is_numeric() {
        numbers_order(a, b, policy) == Some(Order::Equal)
    } else {
        value_same(a, b)
    }
}

/// Orders two values: numbers by value, strings lexicographically; any other
/// pair is incomparable.
pub open spec fn spec_compare_values(
    a: ValueModel,
    b: ValueModel,
    policy: NumberComparisonPolicy,
) -> Option<Order> {
    if a.is_numeric() && b.is_numeric() {
        numbers_order(a, b, policy)
    } else {
        match (a, b) {
            (ValueModel::String(x), ValueModel::String(y)) => Some(seq_order(x, y)),
            _ => None,
        }
    }
}

/// A fixed-width number normalised for comparison.
#[derive(Debug, Clone, Copy)]
pub enum NumberValue {
    /// A signed integer.
    Signed(i128),
    /// An unsigned integer.
    Unsigned(u128),
    /// A decoded float.
    Float(FloatKind),
}

impl NumberValue {
    /// The model of a normalised number.
    pub open spec fn model(self) -> NumberModel {
        match self {
            NumberValue::Signed(x) => NumberModel::Signed(x as int),
            NumberValue::Unsigned(x) => NumberModel::Unsigned(x as int),
            NumberValue::Float(f) => NumberModel::Float(f),
        }
    }

    /// Decoded floats are well formed.
    pub open spec fn wf(self) -> bool {
        match self {
            NumberValue::Float(f) => f.wf(),
            _ => true,
        }
    }
}

/// Returns `true` when `value` holds a number.
pub fn is_numeric_value(value: &Value) -> (r: bool)
    ensures
        r == value@.is_numeric(),
{
    match value {
        Value::Empty(_) => false,
        _ => value.data_type().is_numeric(),
    }
}

/// Returns `true` when `value` is a big integer or a big decimal.
fn is_big_value(value: &Value) -> (r: bool)
    ensures
        r == value@.is_big(),
{
    match value {
        Value::BigInteger(_) | Value::BigDecimal(_) => true,
        _ => false,
    }
}

/// Normalises a fixed-width number for comparison.
pub fn number_value(value: &Value) -> (r: Option<NumberValue>)
    ensures
        match r {
            Some(n) => value@.number() == Some(n.model()) && n.wf(),
            None => value@.number() is None,
        },
{
    match value {
        Value::Int8(v) => Some(NumberValue::Signed(*v as i128)),
        Value::Int16(v) => Some(NumberValue::Signed(*v as i128)),
        Value::Int32(v) => Some(NumberValue::Signed(*v as i128)),
        Value::Int64(v) => Some(NumberValue::Signed(*v as i128)),
        Value::Int128(v) => Some(NumberValue::Signed(*v)),
        Value::IntSize(v) => Some(NumberValue::Signed(*v as i128)),
        Value::UInt8(v) => Some(NumberValue::Unsigned(*v as u128)),
        Value::UInt16(v) => Some(NumberValue::Unsigned(*v as u128)),
        Value::UInt32(v) => Some(NumberValue::Unsigned(*v as u128)),
        Value::UInt64(v) => Some(NumberValue::Unsigned(*v as u128)),
        Value::UInt128(v) => Some(NumberValue::Unsigned(*v)),
        Value::UIntSize(v) => Some(NumberValue::Unsigned(*v as u128)),
        Value::Float32(b) => Some(NumberValue::Float(decode_f32(*b))),
        Value::Float64(b) => Some(NumberValue::Float(decode_f64(*b))),
        _ => None,
    }
}

/// Compares a signed and an unsigned 64-bit integer exactly.
pub fn compare_i64_u64(x: i64, y: u64) -> (r: Order)
    ensures
        r == int_order(x as int, y as int),
{
    if x < 0 {
        Order::Less
    } else {
        let xu = x as u64;
        if xu < y {
            Order::Less
        } else if xu == y {
            Order::Equal
        } else {
            Order::Greater
        }
    }
}

/// Compares a signed and an unsigned 128-bit integer exactly.
pub fn compare_i128_u128(x: i128, y: u128) -> (r: Order)
    ensures
        r == int_order(x as int, y as int),
{
    if x < 0 {
        Order::Less
    } else {
        let xu = x as u128;
        if xu < y {
            Order::Less
        } else if xu == y {
            Order::Equal
        } else {
            Order::Greater
        }
    }
}

/// Swaps the operands of an optional order.
fn reverse_option(o: Option<Order>) -> (r: Option<Order>)
    ensures
        r == reverse_order(o),
{
    match o {
        Some(x) => Some(x.reverse()),
        None => None,
    }
}

/// Orders two normalised fixed-width numbers (see [`number_order`]).
pub fn compare_number_values(a: NumberValue, b: NumberValue, policy: NumberComparisonPolicy) -> (r:
    Option<Order>)
    requires
        a.wf(),
        b.wf(),
    ensures
        r == number_order(a.model(), b.model(), policy.spec_is_approximate()),
{
    let approx = policy.is_approximate();
    match (a, b) {
        (NumberValue::Signed(x), NumberValue::Signed(y)) => Some(
            if x < y {
                Order::Less
            } else if x == y {
                Order::Equal
            } else {
                Order::Greater
            },
        ),
        (NumberValue::Unsigned(x), NumberValue::Unsigned(y)) => Some(
            if x < y {
                Order::Less
            } else if x == y {
                Order::Equal
            } else {
                Order::Greater
            },
        ),
        (NumberValue::Signed(x), NumberValue::Unsigned(y)) => Some(compare_i128_u128(x, y)),
        (NumberValue::Unsigned(x), NumberValue::Signed(y)) => Some(compare_i128_u128(y, x).reverse()),
        (NumberValue::Signed(x), NumberValue::Float(y)) => compare_i128_f64(x, y, approx),
        (NumberValue::Float(x), NumberValue::Signed(y)) => reverse_option(
            compare_i128_f64(y, x, approx),
        ),
        (NumberValue::Unsigned(x), NumberValue::Float(y)) => compare_u128_f64(x, y, approx),
        (NumberValue::Float(x), NumberValue::Unsigned(y)) => reverse_option(
            compare_u128_f64(y, x, approx),
        ),
        (NumberValue::Float(x), NumberValue::Float(y)) => float_compare(x, y),
    }
}

/// Converts an integral value to a big integer.
pub fn big_integer_value(value: &Value) -> (r: Option<BigInteger>)
    ensures
        match r {
            Some(b) => value@.big_int() == Some(b.spec_value()),
            None => value@.big_int() is None,
        },
{
    match value {
        Value::Int8(v) => Some(BigInteger::from_i128(*v as i128)),
        Value::Int16(v) => Some(BigInteger::from_i128(*v as i128)),
        Value::Int32(v) => Some(BigInteger::from_i128(*v as i128)),
        Value::Int64(v) => Some(BigInteger::from_i128(*v as i128)),
        Value::Int128(v) => Some(BigInteger::from_i128(*v)),
        Value::IntSize(v) => Some(BigInteger::from_i128(*v as i128)),
        Value::UInt8(v) => Some(BigInteger::from_u128(*v as u128)),
        Value::UInt16(v) => Some(BigInteger::from_u128(*v as u128)),
        Value::UInt32(v) => Some(BigInteger::from_u128(*v as u128)),
        Value::UInt64(v) => Some(BigInteger::from_u128(*v as u128)),
        Value::UInt128(v) => Some(BigInteger::from_u128(*v)),
        Value::UIntSize(v) => Some(BigInteger::from_u128(*v as u128)),
        Value::BigInteger(v) => Some(v.clone()),
        _ => None,
    }
}

/// Converts an integral or decimal value to a big decimal.
pub fn big_decimal_value(value: &Value) -> (r: Option<BigDecimal>)
    ensures
        match r {
            Some(d) => value@.big_dec() == Some((d.int_val.spec_value(), d.scale as int)),
            None => value@.big_dec() is None,
        },
{
    match value {
        Value::BigDecimal(v) => Some(v.clone()),
        _ => match big_integer_value(value) {
            Some(b) => Some(BigDecimal { int_val: b, scale: 0 }),
            None => None,
        },
    }
}

/// Converts a big decimal to a double (see [`approx_big`]).
fn big_decimal_double(d: &BigDecimal) -> (r: Option<FloatKind>)
    ensures
        r == approx_big(d.int_val.spec_value(), d.scale as int),
        r matches Some(f) ==> f.wf(),
{
    let text = big_decimal_scientific(d);
    match parse_double(text.as_str()) {
        Some(bits) => Some(decode_f64(bits)),
        None => None,
    }
}

/// Converts a float or a big number to a double for the approximate
/// comparison of big numbers (see [`approx_float`]).
fn approx_float_value(value: &Value) -> (r: Option<FloatKind>)
    ensures
        r == approx_float(value@),
        r matches Some(f) ==> f.wf(),
{
    match value {
        Value::Float32(b) => Some(decode_f32(*b)),
        Value::Float64(b) => Some(decode_f64(*b)),
        Value::BigInteger(v) => {
            let d = BigDecimal { int_val: v.clone(), scale: 0 };
            big_decimal_double(&d)
        },
        Value::BigDecimal(v) => big_decimal_double(v),
        _ => None,
    }
}

/// Orders two numbers of which at least one is a big number (see
/// [`big_order`]).
pub fn compare_big_numbers(a: &Value, b: &Value, policy: NumberComparisonPolicy) -> (r: Option<Order>)
    ensures
        r == big_order(a@, b@, policy),
{
    match (big_integer_value(a), big_integer_value(b)) {
        (Some(x), Some(y)) => {
            return Some(big_integer_order(&x, &y));
        },
        _ => {},
    }
    match (big_decimal_value(a), big_decimal_value(b)) {
        (Some(x), Some(y)) => {
            return Some(big_decimal_order(&x, &y));
        },
        _ => {},
    }
    if policy.is_approximate() {
        match (approx_float_value(a), approx_float_value(b)) {
            (Some(x), Some(y)) => float_compare(x, y),
            _ => None,
        }
    } else {
        None
    }
}

/// Orders two numeric values (see [`numbers_order`]).
pub fn compare_numbers(a: &Value, b: &Value, policy: NumberComparisonPolicy) -> (r: Option<Order>)
    ensures
        r == numbers_order(a@, b@, policy),
{
    if is_big_value(a) || is_big_value(b) {
        return compare_big_numbers(a, b, policy);
    }
    match (number_value(a), number_value(b)) {
        (Some(x), Some(y)) => compare_number_values(x, y, policy),
        _ => None,
    }
}

/// Returns `true` when two values are equal (see [`spec_values_equal`]).
pub fn values_equal(a: &Value, b: &Value, policy: NumberComparisonPolicy) -> (r: bool)
    ensures
        r == spec_values_equal(a@, b@, policy),
{
    if is_numeric_value(a) && is_numeric_value(b) {
        return match compare_numbers(a, b, policy) {
            Some(Order::Equal) => true,
            _ => false,
        };
    }
    same_value(a, b)
}

/// Orders two values (see [`spec_compare_values`]).
pub fn compare_values(a: &Value, b: &Value, policy: NumberComparisonPolicy) -> (r: Option<Order>)
    ensures
        r == spec_compare_values(a@, b@, policy),
{
    if is_numeric_value(a) && is_numeric_value(b) {
        return compare_numbers(a, b, policy);
    }
    match (a, b) {
        (Value::String(x), Value::String(y)) => Some(str_order(x.as_str(), y.as_str())),
        _ => None,
    }
}

/// Reversing an order twice gives it back.
proof fn lemma_reverse_twice(o: Option<Order>)
    ensures
        reverse_order(reverse_order(o)) == o,
{
}

/// Swapping two fixed-width numbers reverses their order.
proof fn lemma_number_order_swap(a: NumberModel, b: NumberModel, approx: bool)
    ensures
        number_order(b, a, approx) == reverse_order(number_order(a, b, approx)),
{
    match (a, b) {
        (NumberModel::Float(x), NumberModel::Float(y)) => lemma_float_order_swap(x, y),
        (NumberModel::Signed(x), NumberModel::Float(y)) => lemma_reverse_twice(i128_float_order(x, y, approx)),
        (NumberModel::Float(x), NumberModel::Signed(y)) => lemma_reverse_twice(i128_float_order(y, x, approx)),
        (NumberModel::Unsigned(x), NumberModel::Float(y)) => lemma_reverse_twice(u128_float_order(x, y, approx)),
        (NumberModel::Float(x), NumberModel::Unsigned(y)) => lemma_reverse_twice(u128_float_order(y, x, approx)),
        _ => {},
    }
}

/// Swapping the operands of a numeric comparison reverses the answer, under
/// either policy; incomparable stays incomparable.
pub proof fn law_swapping_operands_reverses_order(a: ValueModel, b: ValueModel, policy: NumberComparisonPolicy)
    ensures
        numbers_order(b, a, policy) == reverse_order(numbers_order(a, b, policy)),
{
    if a.is_big() || b.is_big() {
        if a.big_int() is Some && b.big_int() is Some {
        } else if a.big_dec() is Some && b.big_dec() is Some {
            let (x, sx) = a.big_dec()->0;
            let (y, sy) = b.big_dec()->0;
            lemma_decimal_order_swap(x, sx, y, sy);
        } else if policy.spec_is_approximate() {
            match (approx_float(a), approx_float(b)) {
                (Some(x), Some(y)) => lemma_float_order_swap(x, y),
                _ => {},
            }
        }
    } else {
        match (a.number(), b.number()) {
            (Some(x), Some(y)) => lemma_number_order_swap(x, y, policy.spec_is_approximate()),
            _ => {},
        }
    }
}

} // verus!
