//! The engine-wide guarantees, stated and proved over the same spec
//! functions that the operations' contracts use.

use vstd::arithmetic::div_mod::lemma_fundamental_div_mod;
use vstd::arithmetic::div_mod::lemma_mod_pos_bound;
use vstd::prelude::*;

use crate::arith::lemma_div_bounded_by;
use crate::arith::lemma_div_mul_le;
use crate::math::minted_units;
use crate::math::mul_div;
use crate::math::other_required;
use crate::math::swap_output;
use crate::math::withdraw_share;

verus! {

/// A valid swap never decreases the product of the reserves: paying
/// `amount_in` into the `r_in` side (of which `fee` units are charged and
/// stay in the pool) and paying the constant-product output out of the
/// `r_out` side leaves `r_in' * r_out' >= r_in * r_out`.
pub proof fn lemma_swap_product_no_decrease(amount_in: int, fee: int, r_in: int, r_out: int)
    requires
        0 <= fee < amount_in,
        0 <= r_in,
        0 <= r_out,
    ensures
        ({
            let out = swap_output(amount_in - fee, r_in, r_out);
            0 <= out <= r_out && (r_in + amount_in) * (r_out - out) >= r_in * r_out
        }),
{
    let ain = amount_in - fee;
    let d = r_in + ain;
    let x = r_out * ain;
    let out = swap_output(ain, r_in, r_out);
    assert(0 <= x) by (nonlinear_arith)
        requires
            x == r_out * ain,
            0 <= r_out,
            0 < ain,
    ;
    lemma_fundamental_div_mod(x, d);
    lemma_mod_pos_bound(x, d);
    lemma_div_mul_le(x, d);
    assert(d * (r_out - out) == r_in * r_out + x % d) by (nonlinear_arith)
        requires
            x == d * out + x % d,
            d == r_in + ain,
            x == r_out * ain,
    ;
    assert(0 <= r_out - out) by (nonlinear_arith)
        requires
            0 < d,
            0 <= d * (r_out - out),
    ;
    assert((r_in + amount_in) * (r_out - out) >= d * (r_out - out)) by (nonlinear_arith)
        requires
            d <= r_in + amount_in,
            0 <= r_out - out,
    ;
}

/// Invariant growth under fees: a swap that charges a positive fee against
/// positive reserves strictly increases the product of the reserves. Together
/// with `lemma_swap_product_no_decrease` this is the protocol's revenue
/// mechanism: the invariant is preserved exactly only when no fee is charged.
pub proof fn lemma_swap_product_increases(amount_in: int, fee: int, r_in: int, r_out: int)
    requires
        1 <= fee < amount_in,
        1 <= r_in,
        1 <= r_out,
    ensures
        ({
            let out = swap_output(amount_in - fee, r_in, r_out);
            (r_in + amount_in) * (r_out - out) > r_in * r_out
        }),
{
    let ain = amount_in - fee;
    let d = r_in + ain;
    let x = r_out * ain;
    let out = swap_output(ain, r_in, r_out);
    lemma_swap_product_no_decrease(amount_in, fee, r_in, r_out);
    assert(x < d * r_out) by (nonlinear_arith)
        requires
            0 < ain,
            1 <= r_in,
            1 <= r_out,
            d == r_in + ain,
            x == r_out * ain,
    ;
    assert(0 <= x) by (nonlinear_arith)
        requires
            x == r_out * ain,
            0 <= r_out,
            0 < ain,
    ;
    lemma_div_bounded_by(x, d, r_out);
    lemma_fundamental_div_mod(x, d);
    lemma_mod_pos_bound(x, d);
    assert(d * (r_out - out) == r_in * r_out + x % d) by (nonlinear_arith)
        requires
            x == d * out + x % d,
            d == r_in + ain,
            x == r_out * ain,
    ;
    assert((r_in + amount_in) * (r_out - out) > r_in * r_out) by (nonlinear_arith)
        requires
            d * (r_out - out) >= r_in * r_out,
            1 <= r_out - out,
            1 <= fee,
            r_in + amount_in == d + fee,
            0 < d,
    ;
}

/// Ratio preservation on deposit: the derived paired amount is, up to one
/// rounding step, proportional to the contribution — the drift
/// `side_in * r_out - r_in * other` is nonnegative (never tilted toward the
/// depositor) and smaller than the in-side reserve.
pub proof fn lemma_deposit_preserves_ratio(side_in: int, r_in: int, r_out: int)
    requires
        0 <= side_in,
        1 <= r_in,
        0 <= r_out,
    ensures
        ({
            let other = other_required(side_in, r_in, r_out);
            0 <= side_in * r_out - r_in * other < r_in
        }),
{
    let x = side_in * r_out;
    assert(0 <= x) by (nonlinear_arith)
        requires
            x == side_in * r_out,
            0 <= side_in,
            0 <= r_out,
    ;
    lemma_fundamental_div_mod(x, r_in);
    lemma_mod_pos_bound(x, r_in);
}

/// Pool-favoring rounding on a round trip: depositing `side_in` (with the
/// derived paired amount) and then immediately redeeming exactly the minted
/// units never returns strictly more of either asset than was deposited.
pub proof fn lemma_deposit_withdraw_round_trip(side_in: int, r_in: int, r_out: int, supply: int)
    requires
        1 <= side_in,
        1 <= r_in,
        1 <= r_out,
        1 <= supply,
    ensures
        ({
            let other = other_required(side_in, r_in, r_out);
            let minted = minted_units(side_in, other, r_in, r_out, supply);
            withdraw_share(minted, r_in + side_in, supply + minted) <= side_in
                && withdraw_share(minted, r_out + other, supply + minted) <= other
        }),
{
    let other = other_required(side_in, r_in, r_out);
    let q_in = mul_div(side_in, supply, r_in);
    let q_out = mul_div(other, supply, r_out);
    let minted = minted_units(side_in, other, r_in, r_out, supply);
    lemma_div_mul_le(side_in * r_out, r_in);
    lemma_div_mul_le(side_in * supply, r_in);
    lemma_div_mul_le(other * supply, r_out);
    assert(0 <= other && 0 <= q_in && 0 <= q_out);
    assert(0 <= minted && minted <= q_in && minted <= q_out);
    let s_after = supply + minted;
    // The in-side share: minted * r_in <= side_in * supply, so the redeemed
    // share of the grown reserve stays within the contribution.
    assert(minted * (r_in + side_in) <= side_in * s_after) by (nonlinear_arith)
        requires
            minted <= q_in,
            r_in * q_in <= side_in * supply,
            0 <= minted,
            0 <= r_in,
            s_after == supply + minted,
    ;
    lemma_div_bounded_by(minted * (r_in + side_in), s_after, side_in);
    // The paired-side share, by the same argument through q_out.
    assert(minted * (r_out + other) <= other * s_after) by (nonlinear_arith)
        requires
            minted <= q_out,
            r_out * q_out <= other * supply,
            0 <= minted,
            0 <= r_out,
            s_after == supply + minted,
    ;
    lemma_div_bounded_by(minted * (r_out + other), s_after, other);
}

} // verus!
