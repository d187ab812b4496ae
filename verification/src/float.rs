//! IEEE-754 binary floating-point values held as their bit patterns.
//!
//! A float is decoded into a sign, an integer significand and a binary
//! exponent; every comparison below is exact arithmetic on those integers.
use vstd::prelude::*;
use crate::text::{Order, int_order};

verus! {

/// `2^e` as a natural number.
pub open spec fn pow2i(e: nat) -> nat
    decreases e,
{
    if e == 0 {
        1
    } else {
        2 * pow2i((e - 1) as nat)
    }
}

/// Powers of two are positive.
pub proof fn lemma_pow2i_pos(e: nat)
    ensures
        pow2i(e) >= 1,
    decreases e,
{
    if e > 0 {
        lemma_pow2i_pos((e - 1) as nat);
    }
}

/// `2^(a + b) == 2^a * 2^b`.
pub proof fn lemma_pow2i_adds(a: nat, b: nat)
    ensures
        pow2i(a + b) == pow2i(a) * pow2i(b),
    decreases a,
{
    if a > 0 {
        lemma_pow2i_adds((a - 1) as nat, b);
        assert(pow2i(a + b) == 2 * pow2i((a - 1 + b) as nat));
        assert(2 * (pow2i((a - 1) as nat) * pow2i(b)) == (2 * pow2i((a - 1) as nat)) * pow2i(b))
            by (nonlinear_arith);
    } else {
        assert(pow2i(a) == 1);
        assert(a + b == b);
    }
}

/// Powers of two grow strictly with the exponent.
pub proof fn lemma_pow2i_strict(a: nat, b: nat)
    requires
        a < b,
    ensures
        pow2i(a) < pow2i(b),
    decreases b,
{
    lemma_pow2i_pos((b - 1) as nat);
    if a < b - 1 {
        lemma_pow2i_strict(a, (b - 1) as nat);
    }
}

/// Powers of two grow with the exponent.
pub proof fn lemma_pow2i_mono(a: nat, b: nat)
    requires
        a <= b,
    ensures
        pow2i(a) <= pow2i(b),
{
    if a < b {
        lemma_pow2i_strict(a, b);
    }
}

/// The powers of two that bound the machine integer types.
pub proof fn lemma_pow2i_values()
    ensures
        pow2i(5) == 32,
        pow2i(16) == 0x1_0000,
        pow2i(32) == 0x1_0000_0000,
        pow2i(52) == 0x10_0000_0000_0000,
        pow2i(53) == 0x20_0000_0000_0000,
        pow2i(63) == 0x8000_0000_0000_0000,
        pow2i(64) == 0x1_0000_0000_0000_0000,
        pow2i(127) == 0x8000_0000_0000_0000_0000_0000_0000_0000,
        pow2i(128) == 0x1_0000_0000_0000_0000_0000_0000_0000_0000,
{
    reveal_with_fuel(pow2i, 17);
    lemma_pow2i_adds(16, 16);
    lemma_pow2i_adds(32, 16);
    lemma_pow2i_adds(48, 5);
    lemma_pow2i_adds(32, 32);
    lemma_pow2i_adds(64, 64);
    let p64 = pow2i(64);
    assert(pow2i(128) == p64 * p64);
    assert(p64 * p64 == 0x1_0000_0000_0000_0000_0000_0000_0000_0000) by (nonlinear_arith)
        requires
            p64 == 0x1_0000_0000_0000_0000,
    ;
    assert(pow2i(53) == 2 * pow2i(52));
    assert(pow2i(64) == 2 * pow2i(63));
    assert(pow2i(128) == 2 * pow2i(127));
}

/// The number of binary digits of `m`.
pub open spec fn bitlen(m: nat) -> nat
    decreases m,
{
    if m == 0 {
        0
    } else {
        1 + bitlen(m / 2)
    }
}

/// A positive `m` lies in `[2^(bitlen(m) - 1), 2^bitlen(m))`.
pub proof fn lemma_bitlen_bounds(m: nat)
    ensures
        m < pow2i(bitlen(m)),
        m > 0 ==> pow2i((bitlen(m) - 1) as nat) <= m,
    decreases m,
{
    if m > 0 {
        lemma_bitlen_bounds(m / 2);
        if m / 2 > 0 {
            assert(pow2i((bitlen(m / 2) - 1) as nat) <= m / 2);
        }
    }
}

/// `m < 2^n` exactly when `m` has at most `n` binary digits.
pub proof fn lemma_bitlen_below(m: nat, n: nat)
    ensures
        (m < pow2i(n)) == (bitlen(m) <= n),
{
    lemma_bitlen_bounds(m);
    if bitlen(m) <= n {
        lemma_pow2i_mono(bitlen(m), n);
    } else {
        lemma_pow2i_mono(n, (bitlen(m) - 1) as nat);
    }
}

/// Compares `a * 2^ea` with `b * 2^eb`.
pub open spec fn scaled_order(a: int, ea: int, b: int, eb: int) -> Order {
    if ea >= eb {
        int_order(a * pow2i((ea - eb) as nat), b)
    } else {
        int_order(a, b * pow2i((eb - ea) as nat))
    }
}

/// A float decoded into sign, integer significand and binary exponent.
#[derive(Debug, Clone, Copy, PartialEq, Eq, Structural)]
pub enum FloatKind {
    /// Not a number.
    Nan,
    /// Positive or negative infinity.
    Infinite {
        /// The sign bit.
        negative: bool,
    },
    /// The finite value `(-1)^negative * mantissa * 2^exponent`.
    Finite {
        /// The sign bit.
        negative: bool,
        /// The integer significand.
        mantissa: u64,
        /// The binary exponent.
        exponent: i32,
    },
}

impl FloatKind {
    /// Decoded values carry a significand below `2^53` and an exponent in the
    /// range of a double.
    pub open spec fn wf(self) -> bool {
        match self {
            FloatKind::Finite { mantissa, exponent, .. } => mantissa < 0x20_0000_0000_0000 && -1074
                <= exponent <= 971,
            _ => true,
        }
    }

    /// The signed significand of a finite float.
    pub open spec fn num(self) -> int {
        match self {
            FloatKind::Finite { negative, mantissa, .. } => if negative {
                -(mantissa as int)
            } else {
                mantissa as int
            },
            _ => 0,
        }
    }

    /// The binary exponent of a finite float.
    pub open spec fn exp(self) -> int {
        match self {
            FloatKind::Finite { exponent, .. } => exponent as int,
            _ => 0,
        }
    }

    /// The float is finite and has no fractional part.
    pub open spec fn is_integral(self) -> bool {
        match self {
            FloatKind::Finite { mantissa, exponent, .. } => exponent >= 0 || (mantissa as int) % (
            pow2i((-exponent) as nat) as int) == 0,
            _ => false,
        }
    }

    /// The value of an integral float.
    pub open spec fn int_value(self) -> int {
        if self.exp() >= 0 {
            self.num() * pow2i(self.exp() as nat)
        } else {
            self.num() / (pow2i((-self.exp()) as nat) as int)
        }
    }

    /// The float is negative: a negative non-zero finite value or minus
    /// infinity (not minus zero, not NaN).
    pub open spec fn is_negative(self) -> bool {
        match self {
            FloatKind::Finite { .. } => self.num() < 0,
            FloatKind::Infinite { negative } => negative,
            FloatKind::Nan => false,
        }
    }
}

/// The IEEE-754 binary64 value of a bit pattern.
pub open spec fn spec_decode_f64(bits: u64) -> FloatKind {
    let negative = (bits >> 63u64) == 1;
    let biased = (bits >> 52u64) & 0x7ff;
    let fraction = bits & 0xf_ffff_ffff_ffff;
    if biased == 0x7ff {
        if fraction == 0 {
            FloatKind::Infinite { negative }
        } else {
            FloatKind::Nan
        }
    } else if biased == 0 {
        FloatKind::Finite { negative, mantissa: fraction, exponent: -1074i32 }
    } else {
        FloatKind::Finite {
            negative,
            mantissa: (fraction + 0x10_0000_0000_0000) as u64,
            exponent: (biased - 1075) as i32,
        }
    }
}

/// The IEEE-754 binary32 value of a bit pattern.
pub open spec fn spec_decode_f32(bits: u32) -> FloatKind {
    let negative = (bits >> 31u32) == 1;
    let biased = (bits >> 23u32) & 0xff;
    let fraction = bits & 0x7f_ffff;
    if biased == 0xff {
        if fraction == 0 {
            FloatKind::Infinite { negative }
        } else {
            FloatKind::Nan
        }
    } else if biased == 0 {
        FloatKind::Finite { negative, mantissa: fraction as u64, exponent: -149i32 }
    } else {
        FloatKind::Finite {
            negative,
            mantissa: (fraction + 0x80_0000) as u64,
            exponent: (biased - 150) as i32,
        }
    }
}

/// Decodes a binary64 bit pattern.
pub fn decode_f64(bits: u64) -> (r: FloatKind)
    ensures
        r == spec_decode_f64(bits),
        r.wf(),
{
    let negative = (bits >> 63u64) == 1;
    let biased = (bits >> 52u64) & 0x7ff;
    let fraction = bits & 0xf_ffff_ffff_ffff;
    assert(biased <= 0x7ff) by (bit_vector)
        requires
            biased == (bits >> 52u64) & 0x7ff,
    ;
    assert(fraction < 0x10_0000_0000_0000) by (bit_vector)
        requires
            fraction == bits & 0xf_ffff_ffff_ffff,
    ;
    if biased == 0x7ff {
        if fraction == 0 {
            FloatKind::Infinite { negative }
        } else {
            FloatKind::Nan
        }
    } else if biased == 0 {
        FloatKind::Finite { negative, mantissa: fraction, exponent: -1074i32 }
    } else {
        FloatKind::Finite {
            negative,
            mantissa: fraction + 0x10_0000_0000_0000,
            exponent: (biased as i32) - 1075,
        }
    }
}

/// Decodes a binary32 bit pattern.
pub fn decode_f32(bits: u32) -> (r: FloatKind)
    ensures
        r == spec_decode_f32(bits),
        r.wf(),
{
    let negative = (bits >> 31u32) == 1;
    let biased = (bits >> 23u32) & 0xff;
    let fraction = bits & 0x7f_ffff;
    assert(biased <= 0xff) by (bit_vector)
        requires
            biased == (bits >> 23u32) & 0xff,
    ;
    assert(fraction < 0x80_0000) by (bit_vector)
        requires
            fraction == bits & 0x7f_ffff,
    ;
    if biased == 0xff {
        if fraction == 0 {
            FloatKind::Infinite { negative }
        } else {
            FloatKind::Nan
        }
    } else if biased == 0 {
        FloatKind::Finite { negative, mantissa: fraction as u64, exponent: -149i32 }
    } else {
        FloatKind::Finite {
            negative,
            mantissa: (fraction + 0x80_0000) as u64,
            exponent: (biased as i32) - 150,
        }
    }
}

/// Swapping the operands reverses the order.
pub proof fn lemma_scaled_order_swap(a: int, ea: int, b: int, eb: int)
    ensures
        scaled_order(b, eb, a, ea) == scaled_order(a, ea, b, eb).spec_reverse(),
{
    if ea == eb {
        let p = pow2i((ea - eb) as nat);
        assert(p == 1);
        assert(a * p == a && b * p == b) by (nonlinear_arith)
            requires
                p == 1,
        ;
    }
}

/// A magnitude whose leading bit sits lower is the smaller one.
proof fn lemma_mag_less(m1: nat, e1: int, m2: nat, e2: int)
    requires
        m1 > 0,
        m2 > 0,
        bitlen(m1) + e1 < bitlen(m2) + e2,
    ensures
        scaled_order(m1 as int, e1, m2 as int, e2) == Order::Less,
{
    let b1 = bitlen(m1);
    let b2 = bitlen(m2);
    lemma_bitlen_bounds(m1);
    lemma_bitlen_bounds(m2);
    if e1 >= e2 {
        let d = (e1 - e2) as nat;
        let p = pow2i(d);
        lemma_pow2i_pos(d);
        assert(m1 * p < pow2i(b1) * p) by (nonlinear_arith)
            requires
                m1 < pow2i(b1),
                p >= 1,
        ;
        lemma_pow2i_adds(b1, d);
        lemma_pow2i_mono(b1 + d, (b2 - 1) as nat);
    } else {
        let d = (e2 - e1) as nat;
        let p = pow2i(d);
        lemma_pow2i_pos(d);
        assert(pow2i((b2 - 1) as nat) * p <= m2 * p) by (nonlinear_arith)
            requires
                pow2i((b2 - 1) as nat) <= m2,
                p >= 1,
        ;
        lemma_pow2i_adds((b2 - 1) as nat, d);
        lemma_pow2i_mono(b1, (b2 - 1 + d) as nat);
    }
}

/// `2^k` for `k < 128`.
pub fn pow2_u128(k: u32) -> (r: u128)
    requires
        k < 128,
    ensures
        r == pow2i(k as nat),
{
    let mut r: u128 = 1;
    let mut i: u32 = 0;
    while i < k
        invariant
            i <= k,
            k < 128,
            r == pow2i(i as nat),
        decreases k - i,
    {
        proof {
            lemma_pow2i_strict(i as nat, 127);
            lemma_pow2i_values();
        }
        r = r * 2;
        i = i + 1;
    }
    r
}

/// The number of binary digits of `m`.
pub fn bit_length(m: u128) -> (r: u32)
    ensures
        r == bitlen(m as nat),
        r <= 128,
{
    let mut t: u128 = m;
    let mut r: u32 = 0;
    proof {
        lemma_bitlen_below(m as nat, 128);
        lemma_pow2i_values();
    }
    while t > 0
        invariant
            r + bitlen(t as nat) == bitlen(m as nat),
            bitlen(m as nat) <= 128,
        decreases t,
    {
        t = t / 2;
        r = r + 1;
    }
    r
}

/// Compares the non-negative magnitudes `m1 * 2^e1` and `m2 * 2^e2`.
pub fn mag_order(m1: u128, e1: i32, m2: u128, e2: i32) -> (r: Order)
    requires
        -4096 <= e1 <= 4096,
        -4096 <= e2 <= 4096,
    ensures
        r == scaled_order(m1 as int, e1 as int, m2 as int, e2 as int),
{
    if m1 == 0 || m2 == 0 {
        proof {
            lemma_pow2i_pos((e1 - e2) as nat);
            lemma_pow2i_pos((e2 - e1) as nat);
            if m1 == 0 {
                assert(0 * pow2i((e1 - e2) as nat) == 0);
                assert(m2 * pow2i((e2 - e1) as nat) >= m2) by (nonlinear_arith)
                    requires
                        pow2i((e2 - e1) as nat) >= 1,
                ;
            } else {
                assert(0 * pow2i((e2 - e1) as nat) == 0);
                assert(m1 * pow2i((e1 - e2) as nat) >= m1) by (nonlinear_arith)
                    requires
                        pow2i((e1 - e2) as nat) >= 1,
                ;
            }
        }
        if m1 == 0 && m2 == 0 {
            return Order::Equal;
        } else if m1 == 0 {
            return Order::Less;
        } else {
            return Order::Greater;
        }
    }
    let b1 = bit_length(m1);
    let b2 = bit_length(m2);
    let t1: i64 = b1 as i64 + e1 as i64;
    let t2: i64 = b2 as i64 + e2 as i64;
    if t1 < t2 {
        proof {
            lemma_mag_less(m1 as nat, e1 as int, m2 as nat, e2 as int);
        }
        Order::Less
    } else if t2 < t1 {
        proof {
            lemma_mag_less(m2 as nat, e2 as int, m1 as nat, e1 as int);
            lemma_scaled_order_swap(m1 as int, e1 as int, m2 as int, e2 as int);
        }
        Order::Greater
    } else if e1 >= e2 {
        let d: u32 = (e1 - e2) as u32;
        proof {
            lemma_bitlen_bounds(m1 as nat);
            lemma_pow2i_adds(b1 as nat, d as nat);
            lemma_pow2i_mono(b2 as nat, 128);
            lemma_pow2i_values();
            lemma_pow2i_pos(d as nat);
            assert(m1 * pow2i(d as nat) < pow2i(b1 as nat) * pow2i(d as nat)) by (nonlinear_arith)
                requires
                    m1 < pow2i(b1 as nat),
                    pow2i(d as nat) >= 1,
            ;
        }
        let p = pow2_u128(d);
        let x = m1 * p;
        if x < m2 {
            Order::Less
        } else if x == m2 {
            Order::Equal
        } else {
            Order::Greater
        }
    } else {
        let d: u32 = (e2 - e1) as u32;
        proof {
            lemma_bitlen_bounds(m2 as nat);
            lemma_pow2i_adds(b2 as nat, d as nat);
            lemma_pow2i_mono(b1 as nat, 128);
            lemma_pow2i_values();
            lemma_pow2i_pos(d as nat);
            assert(m2 * pow2i(d as nat) < pow2i(b2 as nat) * pow2i(d as nat)) by (nonlinear_arith)
                requires
                    m2 < pow2i(b2 as nat),
                    pow2i(d as nat) >= 1,
            ;
        }
        let p = pow2_u128(d);
        let y = m2 * p;
        if m1 < y {
            Order::Less
        } else if m1 == y {
            Order::Equal
        } else {
            Order::Greater
        }
    }
}

/// The sign of a scaled value follows the sign of its integer part.
proof fn lemma_scaled_sign(a: int, ea: int, b: int, eb: int)
    ensures
        a < 0 && b >= 0 ==> scaled_order(a, ea, b, eb) == Order::Less,
        a <= 0 && b > 0 ==> scaled_order(a, ea, b, eb) == Order::Less,
        a == 0 && b == 0 ==> scaled_order(a, ea, b, eb) == Order::Equal,
{
    let p = pow2i((ea - eb) as nat);
    let q = pow2i((eb - ea) as nat);
    lemma_pow2i_pos((ea - eb) as nat);
    lemma_pow2i_pos((eb - ea) as nat);
    assert((a < 0 ==> a * p < 0) && (a == 0 ==> a * p == 0) && (a > 0 ==> a * p > 0)) by (nonlinear_arith)
        requires
            p >= 1,
    ;
    assert((b < 0 ==> b * q < 0) && (b == 0 ==> b * q == 0) && (b > 0 ==> b * q > 0)) by (nonlinear_arith)
        requires
            q >= 1,
    ;
}

/// Negating both operands swaps them.
proof fn lemma_scaled_neg(a: int, ea: int, b: int, eb: int)
    ensures
        scaled_order(-a, ea, -b, eb) == scaled_order(b, eb, a, ea),
{
    let p = pow2i((ea - eb) as nat);
    let q = pow2i((eb - ea) as nat);
    assert((-a) * p == -(a * p)) by (nonlinear_arith);
    assert((-b) * q == -(b * q)) by (nonlinear_arith);
    lemma_scaled_order_swap(a, ea, b, eb);
}

/// The signed integer `(-1)^negative * magnitude`.
pub open spec fn signed(negative: bool, magnitude: int) -> int {
    if negative {
        -magnitude
    } else {
        magnitude
    }
}

/// Compares the signed values `±m1 * 2^e1` and `±m2 * 2^e2`.
pub fn signed_order(neg1: bool, m1: u128, e1: i32, neg2: bool, m2: u128, e2: i32) -> (r: Order)
    requires
        -4096 <= e1 <= 4096,
        -4096 <= e2 <= 4096,
    ensures
        r == scaled_order(signed(neg1, m1 as int), e1 as int, signed(neg2, m2 as int), e2 as int),
{
    let ghost a = signed(neg1, m1 as int);
    let ghost b = signed(neg2, m2 as int);
    proof {
        lemma_scaled_sign(a, e1 as int, b, e2 as int);
        lemma_scaled_sign(b, e2 as int, a, e1 as int);
        lemma_scaled_order_swap(a, e1 as int, b, e2 as int);
    }
    let s1: i8 = if m1 == 0 { 0 } else if neg1 { -1 } else { 1 };
    let s2: i8 = if m2 == 0 { 0 } else if neg2 { -1 } else { 1 };
    if s1 < s2 {
        Order::Less
    } else if s1 > s2 {
        Order::Greater
    } else if s1 == 0 {
        Order::Equal
    } else if s1 > 0 {
        mag_order(m1, e1, m2, e2)
    } else {
        proof {
            lemma_scaled_neg(m1 as int, e1 as int, m2 as int, e2 as int);
        }
        mag_order(m2, e2, m1, e1)
    }
}

/// Compares the scaled integer `n * 2^e` with a float; NaN is incomparable.
pub open spec fn scaled_float_order(n: int, e: int, y: FloatKind) -> Option<Order> {
    match y {
        FloatKind::Nan => None,
        FloatKind::Infinite { negative } => Some(if negative { Order::Greater } else { Order::Less }),
        FloatKind::Finite { .. } => Some(scaled_order(n, e, y.num(), y.exp())),
    }
}

/// Compares two floats as IEEE-754 `partial_cmp` does.
pub open spec fn float_order(x: FloatKind, y: FloatKind) -> Option<Order> {
    match (x, y) {
        (FloatKind::Nan, _) => None,
        (_, FloatKind::Nan) => None,
        (FloatKind::Infinite { negative: a }, FloatKind::Infinite { negative: b }) => Some(
            if a == b {
                Order::Equal
            } else if a {
                Order::Less
            } else {
                Order::Greater
            },
        ),
        (FloatKind::Infinite { negative }, _) => Some(
            if negative {
                Order::Less
            } else {
                Order::Greater
            },
        ),
        (FloatKind::Finite { .. }, _) => scaled_float_order(x.num(), x.exp(), y),
    }
}

/// Compares the scaled integer `±m * 2^e` with a decoded float.
pub fn scaled_float_compare(negative: bool, m: u128, e: i32, y: FloatKind) -> (r: Option<Order>)
    requires
        -4096 <= e <= 4096,
        y.wf(),
    ensures
        r == scaled_float_order(signed(negative, m as int), e as int, y),
{
    match y {
        FloatKind::Nan => None,
        FloatKind::Infinite { negative: yn } => Some(if yn { Order::Greater } else { Order::Less }),
        FloatKind::Finite { negative: yn, mantissa, exponent } => Some(
            signed_order(negative, m, e, yn, mantissa as u128, exponent),
        ),
    }
}

/// Compares two decoded floats as IEEE-754 `partial_cmp` does.
pub fn float_compare(x: FloatKind, y: FloatKind) -> (r: Option<Order>)
    requires
        x.wf(),
        y.wf(),
    ensures
        r == float_order(x, y),
{
    match (x, y) {
        (FloatKind::Nan, _) => None,
        (_, FloatKind::Nan) => None,
        (FloatKind::Infinite { negative: a }, FloatKind::Infinite { negative: b }) => Some(
            if a == b {
                Order::Equal
            } else if a {
                Order::Less
            } else {
                Order::Greater
            },
        ),
        (FloatKind::Infinite { negative }, _) => Some(
            if negative {
                Order::Less
            } else {
                Order::Greater
            },
        ),
        (FloatKind::Finite { negative, mantissa, exponent }, _) => scaled_float_compare(
            negative,
            mantissa as u128,
            exponent,
            y,
        ),
    }
}

/// The magnitude `m` rounded to a double, ties to even, as `(q, k)` with
/// value `q * 2^k`.
pub open spec fn round_mag(m: nat) -> (nat, nat) {
    let b = bitlen(m);
    if b <= 53 {
        (m, 0)
    } else {
        let k = (b - 53) as nat;
        let p = pow2i(k);
        let q = m / p;
        let rest = m % p;
        let half = pow2i((k - 1) as nat);
        (if rest > half || (rest == half && q % 2 == 1) {
            (q + 1) as nat
        } else {
            q
        }, k)
    }
}

/// Compares the integer `±m`, rounded to a double, with a float.
pub open spec fn rounded_order(negative: bool, m: nat, y: FloatKind) -> Option<Order> {
    let (q, k) = round_mag(m);
    scaled_float_order(signed(negative, q as int), k as int, y)
}

/// Rounds a magnitude to a double, ties to even.
pub fn round_to_double(m: u128) -> (r: (u128, u32))
    ensures
        r.0 as nat == round_mag(m as nat).0,
        r.1 as nat == round_mag(m as nat).1,
        r.1 <= 75,
{
    let b = bit_length(m);
    if b <= 53 {
        (m, 0)
    } else {
        let k = b - 53;
        let p = pow2_u128(k);
        proof {
            lemma_pow2i_pos(k as nat);
        }
        let q = m / p;
        let rest = m % p;
        let half = p / 2;
        proof {
            assert(pow2i(k as nat) == 2 * pow2i((k - 1) as nat));
            lemma_bitlen_bounds(m as nat);
            lemma_pow2i_adds(53, k as nat);
            lemma_pow2i_values();
            lemma_pow2i_pos(k as nat);
            assert(q < pow2i(53)) by (nonlinear_arith)
                requires
                    q == m / p,
                    m < pow2i(53) * p,
                    p >= 1,
            ;
        }
        let q2 = if rest > half || (rest == half && q % 2 == 1) {
            q + 1
        } else {
            q
        };
        (q2, k)
    }
}

/// The integer value of a float that has no fractional part and a magnitude
/// below `2^64`.
pub open spec fn small_integral(y: FloatKind) -> bool {
    y.is_integral() && -(pow2i(64) as int) < y.int_value() < pow2i(64)
}

/// Returns the value of `y` when it is integral with magnitude below `2^64`.
pub fn integral_value(y: FloatKind) -> (r: Option<i128>)
    requires
        y.wf(),
    ensures
        r == (if small_integral(y) {
            Some(y.int_value() as i128)
        } else {
            None
        }),
{
    proof {
        lemma_pow2i_values();
    }
    match y {
        FloatKind::Finite { negative, mantissa, exponent } => {
            if mantissa == 0 {
                proof {
                    lemma_pow2i_pos((-exponent) as nat);
                    assert(0int % (pow2i((-exponent) as nat) as int) == 0);
                    assert(0 * pow2i(exponent as nat) == 0);
                }
                return Some(0);
            }
            if exponent >= 0 {
                let b = bit_length(mantissa as u128);
                if b as i64 + exponent as i64 <= 64 {
                    let p = pow2_u128(exponent as u32);
                    proof {
                        lemma_bitlen_bounds(mantissa as nat);
                        lemma_pow2i_adds(b as nat, exponent as nat);
                        lemma_pow2i_mono((b + exponent) as nat, 64);
                        lemma_pow2i_pos(exponent as nat);
                        assert(mantissa * p < pow2i(b as nat) * p) by (nonlinear_arith)
                            requires
                                mantissa < pow2i(b as nat),
                                p >= 1,
                        ;
                        lemma_pow2i_pos(exponent as nat);
                    }
                    let v = (mantissa as u128 * p) as i128;
                    if negative {
                        proof {
                            assert((-(mantissa as int)) * p == -(mantissa * p)) by (nonlinear_arith);
                        }
                        Some(-v)
                    } else {
                        Some(v)
                    }
                } else {
                    proof {
                        lemma_bitlen_bounds(mantissa as nat);
                        let p = pow2i(exponent as nat);
                        lemma_pow2i_pos(exponent as nat);
                        lemma_pow2i_adds((b - 1) as nat, exponent as nat);
                        lemma_pow2i_mono(64, (b - 1 + exponent) as nat);
                        assert(pow2i((b - 1) as nat) * p <= mantissa * p) by (nonlinear_arith)
                            requires
                                pow2i((b - 1) as nat) <= mantissa,
                                p >= 1,
                        ;
                        assert((-(mantissa as int)) * p == -(mantissa * p)) by (nonlinear_arith);
                    }
                    None
                }
            } else {
                let k: u32 = (-exponent) as u32;
                if k >= 64 {
                    proof {
                        lemma_pow2i_mono(53, k as nat);
                        let pk = pow2i(k as nat) as int;
                        assert((mantissa as int) % pk == mantissa as int) by (nonlinear_arith)
                            requires
                                0 <= mantissa < pk,
                        ;
                    }
                    None
                } else {
                    let p = pow2_u128(k);
                    proof {
                        lemma_pow2i_pos(k as nat);
                    }
                    if (mantissa as u128) % p == 0 {
                        let q = (mantissa as u128) / p;
                        proof {
                            assert(q <= mantissa) by (nonlinear_arith)
                                requires
                                    q as int == (mantissa as int) / (p as int),
                                    p >= 1,
                            ;
                            if negative {
                                assert((-(mantissa as int)) / (p as int) == -(q as int)) by (nonlinear_arith)
                                    requires
                                        q as int == (mantissa as int) / (p as int),
                                        (mantissa as int) % (p as int) == 0,
                                        p >= 1,
                                ;
                            }
                        }
                        if negative {
                            Some(-(q as i128))
                        } else {
                            Some(q as i128)
                        }
                    } else {
                        None
                    }
                }
            }
        },
        _ => None,
    }
}

/// The absolute value of an integer.
pub open spec fn abs(x: int) -> nat {
    if x < 0 {
        (-x) as nat
    } else {
        x as nat
    }
}

/// Compares a signed 64-bit integer with a float: exactly against an
/// integral float in the `i64` range or when the integer is at most `2^53` in
/// magnitude; otherwise after rounding the integer to a double when `approx`
/// is set, and not at all when it is not.
pub open spec fn i64_float_order(x: int, y: FloatKind, approx: bool) -> Option<Order> {
    if y.is_integral() && -(pow2i(63) as int) <= y.int_value() < pow2i(63) {
        Some(int_order(x, y.int_value()))
    } else if abs(x) <= pow2i(53) {
        scaled_float_order(x, 0, y)
    } else if approx {
        rounded_order(x < 0, abs(x), y)
    } else {
        None
    }
}

/// Compares an unsigned 64-bit integer with a float: greater than any
/// negative float, exactly against an integral float in the `u64` range or
/// when the integer is at most `2^53`; otherwise after rounding the integer to
/// a double when `approx` is set, and not at all when it is not.
pub open spec fn u64_float_order(x: int, y: FloatKind, approx: bool) -> Option<Order> {
    if y.is_negative() {
        Some(Order::Greater)
    } else if y.is_integral() && 0 <= y.int_value() < pow2i(64) {
        Some(int_order(x, y.int_value()))
    } else if x <= pow2i(53) {
        scaled_float_order(x, 0, y)
    } else if approx {
        rounded_order(false, x as nat, y)
    } else {
        None
    }
}

/// Compares a signed 128-bit integer with a float: as an `i64` when it fits,
/// otherwise after rounding to a double when `approx` is set.
pub open spec fn i128_float_order(x: int, y: FloatKind, approx: bool) -> Option<Order> {
    if i64::MIN <= x <= i64::MAX {
        i64_float_order(x, y, approx)
    } else if approx {
        rounded_order(x < 0, abs(x), y)
    } else {
        None
    }
}

/// Compares an unsigned 128-bit integer with a float: as a `u64` when it
/// fits, otherwise after rounding to a double when `approx` is set.
pub open spec fn u128_float_order(x: int, y: FloatKind, approx: bool) -> Option<Order> {
    if x <= u64::MAX {
        u64_float_order(x, y, approx)
    } else if approx {
        rounded_order(false, x as nat, y)
    } else {
        None
    }
}

/// The magnitude and sign of an `i128`.
fn split_i128(x: i128) -> (r: (bool, u128))
    ensures
        r.0 == (x < 0),
        r.1 as nat == abs(x as int),
{
    if x < 0 {
        if x == i128::MIN {
            (true, 0x8000_0000_0000_0000_0000_0000_0000_0000u128)
        } else {
            (true, (-x) as u128)
        }
    } else {
        (false, x as u128)
    }
}

/// Compares the integer `±m`, rounded to a double, with a float.
fn rounded_compare(negative: bool, m: u128, y: FloatKind) -> (r: Option<Order>)
    requires
        y.wf(),
    ensures
        r == rounded_order(negative, m as nat, y),
{
    let (q, k) = round_to_double(m);
    scaled_float_compare(negative, q, k as i32, y)
}

/// Compares a signed 64-bit integer with a float (see `i64_float_order`).
pub fn compare_i64_f64(x: i64, y: FloatKind, approx: bool) -> (r: Option<Order>)
    requires
        y.wf(),
    ensures
        r == i64_float_order(x as int, y, approx),
{
    proof {
        lemma_pow2i_values();
    }
    match integral_value(y) {
        Some(v) => {
            if -0x8000_0000_0000_0000i128 <= v && v < 0x8000_0000_0000_0000i128 {
                let xv = x as i128;
                return Some(
                    if xv < v {
                        Order::Less
                    } else if xv == v {
                        Order::Equal
                    } else {
                        Order::Greater
                    },
                );
            }
        },
        None => {},
    }
    let (negative, m) = split_i128(x as i128);
    if m <= 0x20_0000_0000_0000u128 {
        scaled_float_compare(negative, m, 0, y)
    } else if approx {
        rounded_compare(negative, m, y)
    } else {
        None
    }
}

/// Returns `true` when `y` is a negative non-zero value or minus infinity.
fn float_is_negative(y: FloatKind) -> (r: bool)
    ensures
        r == y.is_negative(),
{
    match y {
        FloatKind::Finite { negative, mantissa, .. } => negative && mantissa != 0,
        FloatKind::Infinite { negative } => negative,
        FloatKind::Nan => false,
    }
}

/// Compares an unsigned 64-bit integer with a float (see `u64_float_order`).
pub fn compare_u64_f64(x: u64, y: FloatKind, approx: bool) -> (r: Option<Order>)
    requires
        y.wf(),
    ensures
        r == u64_float_order(x as int, y, approx),
{
    proof {
        lemma_pow2i_values();
    }
    if float_is_negative(y) {
        return Some(Order::Greater);
    }
    match integral_value(y) {
        Some(v) => {
            if 0 <= v {
                let xv = x as i128;
                return Some(
                    if xv < v {
                        Order::Less
                    } else if xv == v {
                        Order::Equal
                    } else {
                        Order::Greater
                    },
                );
            }
        },
        None => {},
    }
    if x <= 0x20_0000_0000_0000u64 {
        scaled_float_compare(false, x as u128, 0, y)
    } else if approx {
        rounded_compare(false, x as u128, y)
    } else {
        None
    }
}

/// Compares a signed 128-bit integer with a float (see `i128_float_order`).
pub fn compare_i128_f64(x: i128, y: FloatKind, approx: bool) -> (r: Option<Order>)
    requires
        y.wf(),
    ensures
        r == i128_float_order(x as int, y, approx),
{
    if i64::MIN as i128 <= x && x <= i64::MAX as i128 {
        compare_i64_f64(x as i64, y, approx)
    } else if approx {
        let (negative, m) = split_i128(x);
        rounded_compare(negative, m, y)
    } else {
        None
    }
}

/// Compares an unsigned 128-bit integer with a float (see `u128_float_order`).
pub fn compare_u128_f64(x: u128, y: FloatKind, approx: bool) -> (r: Option<Order>)
    requires
        y.wf(),
    ensures
        r == u128_float_order(x as int, y, approx),
{
    if x <= u64::MAX as u128 {
        compare_u64_f64(x as u64, y, approx)
    } else if approx {
        rounded_compare(false, x, y)
    } else {
        None
    }
}

/// Swapping two floats reverses their IEEE-754 order; NaN stays
/// incomparable.
pub proof fn lemma_float_order_swap(x: FloatKind, y: FloatKind)
    ensures
        float_order(y, x) == match float_order(x, y) {
            Some(o) => Some(o.spec_reverse()),
            None => None,
        },
{
    lemma_scaled_order_swap(x.num(), x.exp(), y.num(), y.exp());
}

} // verus!
