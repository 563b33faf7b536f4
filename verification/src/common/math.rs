//! Checked 80.48 fixed-point arithmetic on raw bits.
//!
//! A fixed-point number is handled here as its raw `i128` bits: the number
//! of 2^-48 units it holds. The arithmetic itself is done by the `fixed`
//! crate; the functions below that call it state what the crate documents.

use fixed::types::I80F48;
use vstd::prelude::*;

verus! {

/// Raw bits of the fixed-point number 1.0, that is 2^48.
pub const ONE_BITS: i128 = 0x1_0000_0000_0000;

/// Largest integer whose fixed-point form fits: 2^79 - 1.
pub const MAX_INT: i128 = 0x7fff_ffff_ffff_ffff_ffff;

/// Smallest integer whose fixed-point form fits: -2^79.
pub const MIN_INT: i128 = -0x8000_0000_0000_0000_0000;

/// Whether `v` can be the raw bits of a fixed-point number.
pub open spec fn in_range(v: int) -> bool {
    i128::MIN <= v <= i128::MAX
}

/// Quotient of `n` by `d` rounded toward zero (`d` non-zero).
pub open spec fn trunc_div(n: int, d: int) -> int {
    if n >= 0 && d > 0 {
        n / d
    } else if n >= 0 {
        -(n / (-d))
    } else if d > 0 {
        -((-n) / d)
    } else {
        (-n) / (-d)
    }
}

/// Bits of the sum of two fixed-point numbers.
pub open spec fn add_bits(a: int, b: int) -> int {
    a + b
}

/// Bits of the difference of two fixed-point numbers.
pub open spec fn sub_bits(a: int, b: int) -> int {
    a - b
}

/// Bits of the product of two fixed-point numbers: the exact product of the
/// values, rounded toward negative infinity to a multiple of 2^-48.
pub open spec fn mul_bits(a: int, b: int) -> int {
    (a * b) / (ONE_BITS as int)
}

/// Bits of the quotient of two fixed-point numbers: the exact quotient of
/// the values, rounded toward zero to a multiple of 2^-48.
pub open spec fn div_bits(a: int, b: int) -> int {
    trunc_div(a * ONE_BITS, b)
}

/// Bits of the largest whole number not above the fixed-point number `a`.
pub open spec fn floor_bits(a: int) -> int {
    (a / (ONE_BITS as int)) * ONE_BITS
}

/// The whole number that `floor_bits(a)` stands for.
pub open spec fn floor_int(a: int) -> int {
    a / (ONE_BITS as int)
}

/// `bits` when they fit in a fixed-point number, `None` otherwise.
pub open spec fn checked(bits: int) -> Option<i128> {
    if in_range(bits) {
        Some(bits as i128)
    } else {
        None
    }
}

/// `FixedI128::checked_add` on 80.48 numbers: the sum of the raw bits, or
/// `None` when that sum leaves the 128-bit range.
#[verifier::external_body]
pub(crate) fn checked_add(a: i128, b: i128) -> (r: Option<i128>)
    ensures
        r == checked(add_bits(a as int, b as int)),
{
    match I80F48::from_bits(a).checked_add(I80F48::from_bits(b)) {
        Some(v) => Some(v.to_bits()),
        None => None,
    }
}

/// `FixedI128::checked_sub` on 80.48 numbers: the difference of the raw
/// bits, or `None` when it leaves the 128-bit range.
#[verifier::external_body]
pub(crate) fn checked_sub(a: i128, b: i128) -> (r: Option<i128>)
    ensures
        r == checked(sub_bits(a as int, b as int)),
{
    match I80F48::from_bits(a).checked_sub(I80F48::from_bits(b)) {
        Some(v) => Some(v.to_bits()),
        None => None,
    }
}

/// `FixedI128::checked_mul` on 80.48 numbers: the full product of the raw
/// bits shifted right by 48 (rounding toward negative infinity), or `None`
/// when the shifted product leaves the 128-bit range.
#[verifier::external_body]
pub(crate) fn checked_mul(a: i128, b: i128) -> (r: Option<i128>)
    ensures
        r == checked(mul_bits(a as int, b as int)),
{
    match I80F48::from_bits(a).checked_mul(I80F48::from_bits(b)) {
        Some(v) => Some(v.to_bits()),
        None => None,
    }
}

/// `FixedI128::checked_div` on 80.48 numbers: `None` for a zero divisor;
/// otherwise the dividend's bits shifted left by 48 and divided by the
/// divisor's bits, rounding toward zero, or `None` when that quotient
/// leaves the 128-bit range.
#[verifier::external_body]
pub(crate) fn checked_div(a: i128, b: i128) -> (r: Option<i128>)
    ensures
        b == 0 ==> r.is_none(),
        b != 0 ==> r == checked(div_bits(a as int, b as int)),
{
    match I80F48::from_bits(a).checked_div(I80F48::from_bits(b)) {
        Some(v) => Some(v.to_bits()),
        None => None,
    }
}

/// `FixedI128::floor` on an 80.48 number: the fractional bits are cleared,
/// which rounds toward negative infinity. With 80 integer bits this never
/// overflows.
#[verifier::external_body]
pub(crate) fn floor(a: i128) -> (r: i128)
    ensures
        r == floor_bits(a as int),
{
    I80F48::from_bits(a).floor().to_bits()
}

/// `FixedI128::checked_from_num` with an `i128` source: the integer scaled
/// by 2^48 when it lies within the 80 integer bits, `None` otherwise.
#[verifier::external_body]
pub(crate) fn checked_from_num(n: i128) -> (r: Option<i128>)
    ensures
        MIN_INT <= n <= MAX_INT ==> r == Some((n * ONE_BITS) as i128),
        !(MIN_INT <= n <= MAX_INT) ==> r.is_none(),
{
    match I80F48::checked_from_num(n) {
        Some(v) => Some(v.to_bits()),
        None => None,
    }
}

/// `FixedI128::checked_to_num` with an `i128` destination: the fractional
/// bits are discarded, which rounds toward negative infinity. The result
/// always fits in 128 bits.
#[verifier::external_body]
pub(crate) fn checked_to_num(a: i128) -> (r: Option<i128>)
    ensures
        r == Some(floor_int(a as int) as i128),
{
    I80F48::from_bits(a).checked_to_num::<i128>()
}

/// The most that converting an actual amount to scaled units with the
/// multiplier `m` and back can lose, in units of 2^-48: `m` rounded up to
/// a whole number.
pub open spec fn rounding_allowance(m: int) -> int {
    (m + ONE_BITS - 1) / (ONE_BITS as int)
}

/// A product grows with a factor when the other factor is not negative.
pub proof fn lemma_mul_bits_increasing(a1: int, a2: int, b: int)
    requires
        a1 <= a2,
        b >= 0,
    ensures
        mul_bits(a1, b) <= mul_bits(a2, b),
        mul_bits(b, a1) <= mul_bits(b, a2),
{
    assert(a1 * b <= a2 * b && b * a1 <= b * a2) by (nonlinear_arith)
        requires
            a1 <= a2,
            b >= 0,
    ;
}

/// A product shrinks as a factor grows when the other factor is not
/// positive.
pub proof fn lemma_mul_bits_decreasing(a1: int, a2: int, b: int)
    requires
        a1 <= a2,
        b <= 0,
    ensures
        mul_bits(a1, b) >= mul_bits(a2, b),
        mul_bits(b, a1) >= mul_bits(b, a2),
{
    assert(a1 * b >= a2 * b && b * a1 >= b * a2) by (nonlinear_arith)
        requires
            a1 <= a2,
            b <= 0,
    ;
}

/// The product of two factors that are not negative is not negative, and
/// a factor of at most 1 does not enlarge the other.
pub proof fn lemma_mul_bits_fraction(a: int, b: int)
    requires
        0 <= a <= ONE_BITS,
        0 <= b,
    ensures
        0 <= mul_bits(a, b) <= b,
{
    assert(0 <= a * b <= ONE_BITS * b) by (nonlinear_arith)
        requires
            0 <= a <= ONE_BITS,
            0 <= b,
    ;
}

/// Multiplying and dividing by exactly 1 change nothing.
pub proof fn lemma_unit_multiplier(a: int)
    ensures
        mul_bits(a, ONE_BITS as int) == a,
        div_bits(a, ONE_BITS as int) == a,
{
}

/// Dividing by a positive multiplier and multiplying back returns the
/// amount up to the multiplier's rounding allowance, and never moves it
/// away from zero.
pub proof fn lemma_div_mul_round_trip(a: int, m: int)
    requires
        m > 0,
    ensures
        a >= 0 ==> div_bits(a, m) >= 0 && a - rounding_allowance(m) <= mul_bits(div_bits(a, m), m)
            <= a,
        a < 0 ==> div_bits(a, m) <= 0 && a <= mul_bits(div_bits(a, m), m) <= a
            + rounding_allowance(m),
        -abs_bits(a) * ONE_BITS <= div_bits(a, m) <= abs_bits(a) * ONE_BITS,
{
    let n = if a >= 0 {
        a * ONE_BITS
    } else {
        -a * ONE_BITS
    };
    let t = n / m;
    vstd::arithmetic::div_mod::lemma_fundamental_div_mod(n, m);
    vstd::arithmetic::div_mod::lemma_mod_pos_bound(n, m);
    assert(0 <= t) by (nonlinear_arith)
        requires
            n == m * t + n % m,
            0 <= n % m < m,
            n >= 0,
            m > 0,
    ;
    assert(t <= n) by (nonlinear_arith)
        requires
            n == m * t + n % m,
            0 <= n % m < m,
            t >= 0,
            m > 0,
    ;
    let p = t * m;
    assert(p == m * t) by (nonlinear_arith)
        requires
            p == t * m,
    ;
    if a >= 0 {
        assert(div_bits(a, m) == t);
        assert(mul_bits(t, m) == p / (ONE_BITS as int));
    } else {
        assert(div_bits(a, m) == -t);
        assert((-t) * m == -p) by (nonlinear_arith)
            requires
                p == t * m,
        ;
        assert(mul_bits(-t, m) == (-p) / (ONE_BITS as int));
    }
}

/// The size of `a`.
pub open spec fn abs_bits(a: int) -> int {
    if a >= 0 {
        a
    } else {
        -a
    }
}

/// A quotient by a divisor of 1 or more is no larger than the dividend.
pub proof fn lemma_div_bits_shrinks(a: int, m: int)
    requires
        m >= ONE_BITS,
    ensures
        -abs_bits(a) <= div_bits(a, m) <= abs_bits(a),
{
    let n = abs_bits(a) * ONE_BITS;
    let t = n / m;
    vstd::arithmetic::div_mod::lemma_fundamental_div_mod(n, m);
    vstd::arithmetic::div_mod::lemma_mod_pos_bound(n, m);
    assert(0 <= t <= abs_bits(a)) by (nonlinear_arith)
        requires
            n == m * t + n % m,
            0 <= n % m < m,
            n == abs_bits(a) * ONE_BITS,
            abs_bits(a) >= 0,
            m >= ONE_BITS,
    ;
}

/// The power of ten with exponent `n`.
pub open spec fn pow10(n: nat) -> int
    decreases n,
{
    if n == 0 {
        1
    } else {
        10 * pow10((n - 1) as nat)
    }
}

/// Powers of ten grow with the exponent, and start at 1.
pub proof fn lemma_pow10_increases(i: nat, j: nat)
    requires
        i <= j,
    ensures
        1 <= pow10(i) <= pow10(j),
    decreases j,
{
    if i < j {
        lemma_pow10_increases(i, (j - 1) as nat);
    } else if i > 0 {
        lemma_pow10_increases((i - 1) as nat, (j - 1) as nat);
    }
}

/// The largest power of ten that fits in 64 bits.
pub proof fn lemma_pow10_of_19()
    ensures
        pow10(19) == 10_000_000_000_000_000_000,
{
    reveal_with_fuel(pow10, 20);
}

/// The power of ten with exponent `decimals`, which has to fit in 64 bits.
pub(crate) fn pow10_u64(decimals: u32) -> (r: u64)
    requires
        decimals <= 19,
    ensures
        r == pow10(decimals as nat),
{
    let mut p: u64 = 1;
    let mut i: u32 = 0;
    while i < decimals
        invariant
            i <= decimals <= 19,
            p == pow10(i as nat),
        decreases decimals - i,
    {
        proof {
            lemma_pow10_increases((i + 1) as nat, 19);
            lemma_pow10_of_19();
        }
        p = p * 10;
        i += 1;
    }
    p
}

} // verus!
