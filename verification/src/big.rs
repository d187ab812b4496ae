//! Arbitrary-precision integers and decimals held as plain digits.
//!
//! Comparisons are delegated to `num_bigint` and `bigdecimal`, whose results
//! are stated exactly in terms of the mathematical values.
use vstd::prelude::*;
use vstd::arithmetic::power::pow;
use crate::text::{Order, int_order};
use crate::wire::decimal;
use bigdecimal::num_bigint::{BigInt, Sign};

verus! {

/// The radix of the magnitude digits.
pub open spec fn radix() -> int {
    0x1_0000_0000
}

/// The value of little-endian base-2^32 digits.
pub open spec fn digits_value(d: Seq<u32>) -> int
    decreases d.len(),
{
    if d.len() == 0 {
        0
    } else {
        digits_value(d.drop_last()) + d.last() * pow(radix(), (d.len() - 1) as nat)
    }
}

/// An arbitrary-precision signed integer.
///
/// The magnitude is stored in little-endian base-2^32 digits without trailing
/// zero digits; zero is stored with no digits and is never negative.
#[derive(Debug)]
pub struct BigInteger {
    negative: bool,
    magnitude: Vec<u32>,
}

/// Canonical digits carry no most-significant zero digit.
pub open spec fn canonical_digits(d: Seq<u32>) -> bool {
    d.len() > 0 ==> d.last() != 0
}

impl BigInteger {
    /// The representation is canonical.
    #[verifier::type_invariant]
    pub closed spec fn wf(&self) -> bool {
        &&& canonical_digits(self.magnitude@)
        &&& (self.magnitude@.len() == 0 ==> !self.negative)
    }

    /// The mathematical value.
    pub closed spec fn spec_value(&self) -> int {
        if self.negative {
            -digits_value(self.magnitude@)
        } else {
            digits_value(self.magnitude@)
        }
    }

    /// The sign of the stored value is negative.
    pub closed spec fn spec_negative(&self) -> bool {
        self.negative
    }

    /// The stored magnitude digits.
    pub closed spec fn spec_magnitude(&self) -> Seq<u32> {
        self.magnitude@
    }

    /// Builds an integer from a sign and little-endian base-2^32 digits.
    ///
    /// Most-significant zero digits are dropped, and zero is never negative.
    pub fn from_parts(negative: bool, magnitude: Vec<u32>) -> (r: BigInteger)
        ensures
            r.wf(),
            r.spec_value() == (if negative {
                -digits_value(magnitude@)
            } else {
                digits_value(magnitude@)
            }),
    {
        let mut m = magnitude;
        while m.len() > 0 && m[m.len() - 1] == 0
            invariant
                digits_value(m@) == digits_value(magnitude@),
            decreases m.len(),
        {
            let ghost before = m@;
            m.pop();
            assert(m@ =~= before.drop_last());
        }
        let neg = negative && m.len() > 0;
        proof {
            if m.len() == 0 {
                assert(digits_value(m@) == 0);
            }
        }
        BigInteger { negative: neg, magnitude: m }
    }

    /// Returns `true` when the value is negative.
    pub fn is_negative(&self) -> (r: bool)
        ensures
            r == self.spec_negative(),
    {
        self.negative
    }

    /// Returns the little-endian base-2^32 magnitude digits.
    pub fn magnitude(&self) -> (r: &Vec<u32>)
        ensures
            r@ == self.spec_magnitude(),
    {
        &self.magnitude
    }

    /// Builds the integer holding `x`.
    pub fn from_u128(x: u128) -> (r: BigInteger)
        ensures
            r.wf(),
            r.spec_value() == x as int,
    {
        let digits = u128_digits(x);
        BigInteger::from_parts(false, digits)
    }

    /// Builds the integer holding `x`.
    pub fn from_i128(x: i128) -> (r: BigInteger)
        ensures
            r.wf(),
            r.spec_value() == x as int,
    {
        if x < 0 {
            let m: u128 = if x == i128::MIN {
                0x8000_0000_0000_0000_0000_0000_0000_0000u128
            } else {
                (-x) as u128
            };
            let digits = u128_digits(m);
            BigInteger::from_parts(true, digits)
        } else {
            let digits = u128_digits(x as u128);
            BigInteger::from_parts(false, digits)
        }
    }
}

impl Clone for BigInteger {
    fn clone(&self) -> (r: Self)
        ensures
            r.spec_value() == self.spec_value(),
            r.wf() == self.wf(),
    {
        let mut digits: Vec<u32> = Vec::new();
        let mut i: usize = 0;
        while i < self.magnitude.len()
            invariant
                i <= self.magnitude.len(),
                digits@ == self.magnitude@.subrange(0, i as int),
            decreases self.magnitude.len() - i,
        {
            digits.push(self.magnitude[i]);
            i = i + 1;
        }
        proof {
            use_type_invariant(self);
            assert(digits@ =~= self.magnitude@);
        }
        BigInteger { negative: self.negative, magnitude: digits }
    }
}

/// Appending a digit adds it at the next power of the radix.
proof fn lemma_digits_push(d: Seq<u32>, x: u32)
    ensures
        digits_value(d.push(x)) == digits_value(d) + x * pow(radix(), d.len()),
{
    assert(d.push(x).drop_last() =~= d);
}

/// Splits `x` into little-endian base-2^32 digits.
fn u128_digits(x: u128) -> (r: Vec<u32>)
    ensures
        digits_value(r@) == x as int,
{
    let mut digits: Vec<u32> = Vec::new();
    let mut rest: u128 = x;
    proof {
        assert(pow(radix(), 0) == 1) by {
            vstd::arithmetic::power::lemma_pow0(radix());
        }
    }
    while rest > 0
        invariant
            digits_value(digits@) + rest * pow(radix(), digits@.len()) == x as int,
        decreases rest,
    {
        let low = (rest % 0x1_0000_0000u128) as u32;
        let high = rest / 0x1_0000_0000u128;
        proof {
            lemma_digits_push(digits@, low);
            let p = pow(radix(), digits@.len());
            assert(pow(radix(), digits@.len() + 1) == radix() * p) by {
                vstd::arithmetic::power::lemma_pow_adds(radix(), digits@.len(), 1);
                vstd::arithmetic::power::lemma_pow1(radix());
            }
            assert(rest == low + radix() * high);
            assert(rest * p == low * p + high * (radix() * p)) by (nonlinear_arith)
                requires
                    rest == low + radix() * high,
            ;
        }
        digits.push(low);
        rest = high;
    }
    digits
}

/// An arbitrary-precision decimal: `int_val * 10^(-scale)`.
#[derive(Debug)]
pub struct BigDecimal {
    /// The unscaled integer digits.
    pub int_val: BigInteger,
    /// The number of decimal places; negative scales multiply by powers of ten.
    pub scale: i64,
}

impl Clone for BigDecimal {
    fn clone(&self) -> (r: Self)
        ensures
            r.int_val.spec_value() == self.int_val.spec_value(),
            r.int_val.wf() == self.int_val.wf(),
            r.scale == self.scale,
    {
        BigDecimal { int_val: self.int_val.clone(), scale: self.scale }
    }
}

/// Compares `a * 10^(-sa)` with `b * 10^(-sb)`.
pub open spec fn decimal_order(a: int, sa: int, b: int, sb: int) -> Order {
    if sa >= sb {
        int_order(a, b * pow(10, (sa - sb) as nat))
    } else {
        int_order(a * pow(10, (sb - sa) as nat), b)
    }
}

/// Compares two big integers with `num_bigint`.
///
/// Trusted: `num_bigint::BigInt::from_slice` builds the integer of a sign and
/// little-endian base-2^32 digits, and `Ord::cmp` on `BigInt` orders by value.
#[verifier::external_body]
pub(crate) fn big_integer_order(a: &BigInteger, b: &BigInteger) -> (r: Order)
    ensures
        r == int_order(a.spec_value(), b.spec_value()),
{
    let x = BigInt::from_slice(if a.negative { Sign::Minus } else { Sign::Plus }, &a.magnitude);
    let y = BigInt::from_slice(if b.negative { Sign::Minus } else { Sign::Plus }, &b.magnitude);
    match x.cmp(&y) {
        std::cmp::Ordering::Less => Order::Less,
        std::cmp::Ordering::Equal => Order::Equal,
        std::cmp::Ordering::Greater => Order::Greater,
    }
}

/// The order `bigdecimal` gives two non-zero decimals of equal sign whose
/// scales differ by more than an `i64` can hold: the larger scale is taken as
/// the smaller magnitude.
pub open spec fn far_scale_order(a: int, sa: int, sb: int) -> Order {
    if sa > sb {
        if a > 0 { Order::Less } else { Order::Greater }
    } else {
        if a > 0 { Order::Greater } else { Order::Less }
    }
}

/// The scales of two decimals lie at most `i64::MAX` apart, as
/// `bigdecimal` measures the gap: the larger less the smaller, in an `i64`.
pub open spec fn scales_close(sa: int, sb: int) -> bool {
    -i64::MAX <= sa - sb <= i64::MAX
}

/// The order `bigdecimal` gives `x * 10^(-sx)` and `y * 10^(-sy)`: exact,
/// except for non-zero values of equal sign whose scales lie further apart
/// than an `i64` reaches.
pub open spec fn big_decimal_order_of(x: int, sx: int, y: int, sy: int) -> Order {
    if scales_close(sx, sy) || x == 0 || y == 0 || (x < 0) != (y < 0) {
        decimal_order(x, sx, y, sy)
    } else {
        far_scale_order(x, sx, sy)
    }
}

/// The order `bigdecimal` gives two decimals (see `big_decimal_order_of`).
pub open spec fn spec_big_decimal_order(a: &BigDecimal, b: &BigDecimal) -> Order {
    big_decimal_order_of(a.int_val.spec_value(), a.scale as int, b.int_val.spec_value(), b.scale as int)
}

/// Compares two big decimals with `bigdecimal`.
///
/// Trusted: `bigdecimal::BigDecimal::new` builds `int_val * 10^(-scale)`, and
/// its `Ord::cmp` compares signs first, then the scaled magnitudes exactly when
/// the distance between the scales fits in an `i64`; otherwise it treats the larger scale
/// as the smaller magnitude (see `far_scale_order`).
#[verifier::external_body]
pub(crate) fn big_decimal_order(a: &BigDecimal, b: &BigDecimal) -> (r: Order)
    ensures
        r == spec_big_decimal_order(a, b),
{
    let sa = if a.int_val.negative { Sign::Minus } else { Sign::Plus };
    let sb = if b.int_val.negative { Sign::Minus } else { Sign::Plus };
    let x = bigdecimal::BigDecimal::new(BigInt::from_slice(sa, &a.int_val.magnitude), a.scale);
    let y = bigdecimal::BigDecimal::new(BigInt::from_slice(sb, &b.int_val.magnitude), b.scale);
    match x.cmp(&y) {
        std::cmp::Ordering::Less => Order::Less,
        std::cmp::Ordering::Equal => Order::Equal,
        std::cmp::Ordering::Greater => Order::Greater,
    }
}

/// A signed integer in decimal digits, with a minus sign when negative.
pub open spec fn signed_decimal(n: int) -> Seq<char> {
    if n < 0 {
        "-"@ + decimal((-n) as nat)
    } else {
        decimal(n as nat)
    }
}

/// The scientific notation `bigdecimal` writes for `x * 10^(-scale)`: `0e0`
/// for zero; otherwise an optional minus sign, the first decimal digit of
/// `|x|`, a point and the other digits when there are any, `e`, and the
/// exponent `(digits - 1) - scale`.
pub open spec fn scientific_text(x: int, scale: int) -> Seq<char> {
    if x == 0 {
        "0e0"@
    } else {
        let d = decimal((if x < 0 { -x } else { x }) as nat);
        let sign = if x < 0 { "-"@ } else { Seq::<char>::empty() };
        let mantissa = if d.len() == 1 {
            d
        } else {
            seq![d[0]] + "."@ + d.subrange(1, d.len() as int)
        };
        sign + mantissa + "e"@ + signed_decimal((d.len() - 1) - scale)
    }
}

/// Writes a big decimal in scientific notation with `bigdecimal`.
///
/// Trusted: `bigdecimal::BigDecimal::to_scientific_notation` (impl_fmt.rs,
/// `write_scientific_notation`) writes the decimal digits of the unscaled
/// integer as `scientific_text` states them, the exponent being computed in
/// `i128`; `BigDecimal::new` keeps the digits and scale it is given.
#[verifier::external_body]
pub(crate) fn big_decimal_scientific(a: &BigDecimal) -> (r: String)
    ensures
        r@ == scientific_text(a.int_val.spec_value(), a.scale as int),
{
    let sa = if a.int_val.negative { Sign::Minus } else { Sign::Plus };
    bigdecimal::BigDecimal::new(BigInt::from_slice(sa, &a.int_val.magnitude), a.scale).to_scientific_notation()
}

/// The bit pattern of the double that std's `f64::from_str` reads from a
/// text, when it reads one.
pub uninterp spec fn parsed_double_bits(text: Seq<char>) -> Option<u64>;

/// Reads a double from decimal text with std's `str::parse`.
///
/// Trusted: `FromStr for f64` is a function of the text alone; its rounding
/// is not restated here, and no clause says on which texts it succeeds.
#[verifier::external_body]
pub(crate) fn parse_double(text: &str) -> (r: Option<u64>)
    ensures
        r == parsed_double_bits(text@),
{
    // `to_f64` only gives the slot its type, a double, for the parse below.
    let mut read = bigdecimal::ToPrimitive::to_f64(&0u8);
    read = text.parse().ok();
    read.map(|x| x.to_bits())
}

/// Swapping two decimals reverses their order.
pub proof fn lemma_decimal_order_swap(x: int, sx: int, y: int, sy: int)
    ensures
        big_decimal_order_of(y, sy, x, sx) == big_decimal_order_of(x, sx, y, sy).spec_reverse(),
{
    if sx == sy {
        vstd::arithmetic::power::lemma_pow0(10);
        assert(x * pow(10, 0) == x && y * pow(10, 0) == y) by (nonlinear_arith)
            requires
                pow(10, 0) == 1,
        ;
    }
}

} // verus!
