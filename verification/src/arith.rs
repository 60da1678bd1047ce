use vstd::arithmetic::div_mod::lemma_div_pos_is_pos;
use vstd::arithmetic::div_mod::lemma_fundamental_div_mod;
use vstd::arithmetic::div_mod::lemma_mod_pos_bound;
use vstd::arithmetic::div_mod::lemma_multiply_divide_le;
use vstd::arithmetic::div_mod::lemma_multiply_divide_lt;
use vstd::prelude::*;

verus! {

/// The product of two 64-bit quantities always fits in the 128-bit wide
/// domain: this is what makes "widen, multiply, narrow" safe.
pub proof fn lemma_u64_product_fits_u128(a: u64, b: u64)
    ensures
        (a as int) * (b as int) <= u128::MAX,
{
    assert((a as int) * (b as int) <= u128::MAX) by (nonlinear_arith)
        requires
            a <= u64::MAX,
            b <= u64::MAX,
    ;
}

/// Floor division of nonnegative values by a positive divisor gives a
/// nonnegative quotient that, multiplied back, does not exceed the dividend.
pub proof fn lemma_div_mul_le(x: int, d: int)
    requires
        0 <= x,
        0 < d,
    ensures
        0 <= x / d,
        d * (x / d) <= x,
{
    lemma_fundamental_div_mod(x, d);
    lemma_mod_pos_bound(x, d);
    lemma_div_pos_is_pos(x, d);
}

/// A quotient of nonnegative values stays below any bound whose product with
/// the divisor exceeds the dividend, and at or below one whose product
/// reaches it.
pub proof fn lemma_div_bounded_by(x: int, d: int, c: int)
    requires
        0 <= x,
        0 < d,
        0 <= c,
    ensures
        x <= d * c ==> x / d <= c,
        x < d * c ==> x / d < c,
{
    if x < d * c {
        lemma_multiply_divide_lt(x, d, c);
    } else if x <= d * c {
        lemma_multiply_divide_le(x, d, c);
    }
}

/// `r` is the truncating square root of `v`.
pub open spec fn is_floor_sqrt(v: int, r: int) -> bool {
    0 <= r && r * r <= v && v < (r + 1) * (r + 1)
}

/// The largest `s <= bound` whose square is at most `v` (0 if there is none).
pub open spec fn sqrt_upto(v: nat, bound: nat) -> nat
    decreases bound,
{
    if bound * bound <= v {
        bound
    } else if bound == 0 {
        0
    } else {
        sqrt_upto(v, (bound - 1) as nat)
    }
}

/// The truncating square root of `v`: the geometric-mean seed computation is
/// specified against this function.
pub open spec fn floor_sqrt(v: nat) -> nat {
    sqrt_upto(v, v)
}

proof fn lemma_sqrt_upto_correct(v: nat, bound: nat)
    requires
        v < (bound + 1) * (bound + 1),
    ensures
        is_floor_sqrt(v as int, sqrt_upto(v, bound) as int),
    decreases bound,
{
    if bound * bound <= v {
    } else {
        assert(bound != 0) by (nonlinear_arith)
            requires
                !(bound * bound <= v),
                0 <= v,
        ;
        lemma_sqrt_upto_correct(v, (bound - 1) as nat);
    }
}

/// `floor_sqrt` satisfies the square-root characterization.
pub proof fn lemma_floor_sqrt_correct(v: nat)
    ensures
        is_floor_sqrt(v as int, floor_sqrt(v) as int),
{
    assert(v < (v + 1) * (v + 1)) by (nonlinear_arith);
    lemma_sqrt_upto_correct(v, v);
}

/// Only one integer satisfies the square-root characterization of a value.
pub proof fn lemma_floor_sqrt_unique(v: int, r1: int, r2: int)
    requires
        is_floor_sqrt(v, r1),
        is_floor_sqrt(v, r2),
    ensures
        r1 == r2,
{
    assert(r1 == r2) by (nonlinear_arith)
        requires
            0 <= r1,
            r1 * r1 <= v,
            v < (r1 + 1) * (r1 + 1),
            0 <= r2,
            r2 * r2 <= v,
            v < (r2 + 1) * (r2 + 1),
    ;
}

/// The square root of a value at most `m * m` is at most `m`.
pub proof fn lemma_floor_sqrt_le(v: int, r: int, m: int)
    requires
        is_floor_sqrt(v, r),
        0 <= m,
        v <= m * m,
    ensures
        r <= m,
{
    assert(r <= m) by (nonlinear_arith)
        requires
            0 <= r,
            r * r <= v,
            0 <= m,
            v <= m * m,
    ;
}

/// Relies on `integer_sqrt::IntegerSquareRoot` for `u128`: the truncating
/// square root, total on unsigned inputs.
#[verifier::external_body]
pub(crate) fn isqrt_u128(v: u128) -> (r: u128)
    ensures
        is_floor_sqrt(v as int, r as int),
{
    integer_sqrt::IntegerSquareRoot::integer_sqrt(&v)
}

/// `10^e`: the minimum-liquidity lock for `e` ownership-unit decimals.
pub open spec fn pow10(e: nat) -> nat
    decreases e,
{
    if e == 0 {
        1
    } else {
        10 * pow10((e - 1) as nat)
    }
}

/// Powers of ten grow with the exponent.
pub proof fn lemma_pow10_monotonic(a: nat, b: nat)
    requires
        a <= b,
    ensures
        pow10(a) <= pow10(b),
    decreases b,
{
    if a < b {
        lemma_pow10_monotonic(a, (b - 1) as nat);
    }
}

/// The two powers of ten bracketing the 64-bit range.
pub proof fn lemma_pow10_values()
    ensures
        pow10(19) == 10_000_000_000_000_000_000,
        pow10(20) == 100_000_000_000_000_000_000,
{
    reveal_with_fuel(pow10, 21);
}

/// `10^e` for the exponents whose power fits in 64 bits.
pub(crate) fn pow10_u64(e: u8) -> (r: u64)
    requires
        e <= 19,
    ensures
        r == pow10(e as nat),
{
    let mut i: u8 = 0;
    let mut acc: u64 = 1;
    while i < e
        invariant
            i <= e,
            e <= 19,
            acc == pow10(i as nat),
        decreases e - i,
    {
        proof {
            lemma_pow10_values();
            lemma_pow10_monotonic((i + 1) as nat, 19);
        }
        acc = acc * 10;
        i = i + 1;
    }
    acc
}

} // verus!
