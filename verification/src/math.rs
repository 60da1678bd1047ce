use vstd::prelude::*;

use crate::error::AMMError;

verus! {

/// Direction of a swap relative to the pool's two sides: base ("coin") in and
/// paired ("pc") out, or the reverse.
#[derive(Clone, Copy, Debug, PartialEq, Eq, Structural)]
pub enum SwapDirection {
    Coin2Pc,
    Pc2Coin,
}

/// `floor(amount * num / den)`: the proportional-share formula behind every
/// ratio computation of the engine, taken over the mathematical integers.
pub open spec fn mul_div(amount: int, num: int, den: int) -> int {
    amount * num / den
}

/// Output of a constant-product swap of `amount_in` (already net of fees)
/// against reserves `r_in`/`r_out`: `floor(r_out * amount_in / (r_in + amount_in))`.
pub open spec fn swap_output(amount_in: int, r_in: int, r_out: int) -> int {
    r_out * amount_in / (r_in + amount_in)
}

/// Fee charged on a swap input of `amount_in` at the rate `num / den`.
pub open spec fn fee_charged(amount_in: int, num: int, den: int) -> int {
    mul_div(amount_in, num, den)
}

/// Paired-side amount owed when `side_in` is contributed against reserves
/// `r_in` / `r_out`, keeping the reserve ratio.
pub open spec fn other_required(side_in: int, r_in: int, r_out: int) -> int {
    mul_div(side_in, r_out, r_in)
}

/// Ownership units minted for the contribution pair (`side_in`, `other`): the
/// lesser of the two sides' proportional computations, so the depositor never
/// receives more ownership than either side's contribution justifies.
pub open spec fn minted_units(side_in: int, other: int, r_in: int, r_out: int, supply: int) -> int {
    vstd::math::min(mul_div(side_in, supply, r_in), mul_div(other, supply, r_out))
}

/// One reserve's share owed to `units` ownership units redeemed out of a
/// total supply of `supply`.
pub open spec fn withdraw_share(units: int, reserve: int, supply: int) -> int {
    mul_div(units, reserve, supply)
}

/// Conversions between the 64-bit storage domain and the 128-bit wide domain
/// in which every product is computed.
pub struct Converter {}

impl Converter {
    /// Widening always succeeds.
    pub fn to_u128(val: u64) -> (r: Result<u128, AMMError>)
        ensures
            r == Ok::<u128, AMMError>(val as u128),
    {
        Ok(val as u128)
    }

    /// Narrowing succeeds exactly when the value fits in 64 bits.
    pub fn to_u64(val: u128) -> (r: Result<u64, AMMError>)
        ensures
            val <= u64::MAX ==> r == Ok::<u64, AMMError>(val as u64),
            val > u64::MAX ==> r == Err::<u64, AMMError>(AMMError::ConversionOverflow),
    {
        if val <= u64::MAX as u128 {
            Ok(val as u64)
        } else {
            Err(AMMError::ConversionOverflow)
        }
    }
}

/// The constant-product swap formula, on wide-domain operands.
pub struct AMMCalculator {}

impl AMMCalculator {
    /// Amount owed out of the pool for `amount_in` paid in, keeping
    /// `reserve_in * reserve_out` constant up to rounding in the pool's
    /// favor. `total_coin`/`total_pc` are the two reserves; the direction
    /// says which one receives `amount_in`.
    pub fn swap_token_base_amount_in(
        amount_in: u128,
        total_coin: u128,
        total_pc: u128,
        swap_direction: SwapDirection,
    ) -> (amount_out: u128)
        requires
            swap_direction == SwapDirection::Coin2Pc ==> {
                &&& total_pc * amount_in <= u128::MAX
                &&& total_coin + amount_in <= u128::MAX
                &&& 0 < total_coin + amount_in
            },
            swap_direction == SwapDirection::Pc2Coin ==> {
                &&& total_coin * amount_in <= u128::MAX
                &&& total_pc + amount_in <= u128::MAX
                &&& 0 < total_pc + amount_in
            },
        ensures
            swap_direction == SwapDirection::Coin2Pc ==> amount_out == swap_output(
                amount_in as int,
                total_coin as int,
                total_pc as int,
            ),
            swap_direction == SwapDirection::Pc2Coin ==> amount_out == swap_output(
                amount_in as int,
                total_pc as int,
                total_coin as int,
            ),
    {
        let amount_out: u128;
        match swap_direction {
            SwapDirection::Coin2Pc => {
                let numerator = total_pc * amount_in;
                let denominator = total_coin + amount_in;
                amount_out = numerator / denominator;
            },
            SwapDirection::Pc2Coin => {
                let numerator = total_coin * amount_in;
                let denominator = total_pc + amount_in;
                amount_out = numerator / denominator;
            },
        }
        amount_out
    }
}

/// Ratio math for joining a pool: given the two current reserves, how much of
/// the paired side must accompany a one-sided contribution, and how many
/// ownership units the pair of contributions is worth.
pub struct TokenCalculator {
    pub base_token: u64,
    pub pc_token: u64,
}

impl TokenCalculator {
    /// Paired amount that keeps the reserve ratio when `base_token` is added
    /// on the base side: `floor(base_token * pc_reserve / base_reserve)`.
    pub fn exchange_base_to_pc(&self, base_token: u64) -> (r: u64)
        requires
            0 < self.base_token,
            mul_div(base_token as int, self.pc_token as int, self.base_token as int) <= u64::MAX,
        ensures
            r == mul_div(base_token as int, self.pc_token as int, self.base_token as int),
    {
        mul_div_fits(base_token, self.pc_token, self.base_token)
    }

    /// Base amount that keeps the reserve ratio when `pc_token` is added on
    /// the paired side: `floor(pc_token * base_reserve / pc_reserve)`.
    pub fn exchange_pc_to_base(&self, pc_token: u64) -> (r: u64)
        requires
            0 < self.pc_token,
            mul_div(pc_token as int, self.base_token as int, self.pc_token as int) <= u64::MAX,
        ensures
            r == mul_div(pc_token as int, self.base_token as int, self.pc_token as int),
    {
        mul_div_fits(pc_token, self.base_token, self.pc_token)
    }

    /// Ownership units a deposit of (`base_token`, `pc_token`) is worth: the
    /// minimum of the two sides' proportional computations, so the caller
    /// never receives more ownership than either contribution justifies.
    pub fn exchange_token_to_pool(
        &self,
        pool_total_amount: u64,
        base_token: u64,
        pc_token: u64,
    ) -> (r: u64)
        requires
            0 < self.base_token,
            0 < self.pc_token,
            mul_div(base_token as int, pool_total_amount as int, self.base_token as int)
                <= u64::MAX,
            mul_div(pc_token as int, pool_total_amount as int, self.pc_token as int) <= u64::MAX,
        ensures
            r == vstd::math::min(
                mul_div(base_token as int, pool_total_amount as int, self.base_token as int),
                mul_div(pc_token as int, pool_total_amount as int, self.pc_token as int),
            ),
    {
        let base_token_pool_share = mul_div_fits(
            base_token,
            pool_total_amount,
            self.base_token,
        );
        let pc_token_pool_share = mul_div_fits(
            pc_token,
            pool_total_amount,
            self.pc_token,
        );
        if base_token_pool_share <= pc_token_pool_share {
            base_token_pool_share
        } else {
            pc_token_pool_share
        }
    }
}

/// Ratio math for leaving a pool: each asset's share of the vaults owed to a
/// quantity of ownership units being redeemed.
pub struct TokenShareCalculator {
    pub lp_token_input: u64,
    pub lp_total_token: u64,
}

impl TokenShareCalculator {
    /// Share of a reserve owed to `lp_token_input` units out of a total
    /// supply of `lp_total_token`: `floor(lp_token_input * reserve / supply)`.
    pub fn exchange_pool_to_token(&self, total_pool_token: u64) -> (r: u64)
        requires
            0 < self.lp_total_token,
            mul_div(self.lp_token_input as int, total_pool_token as int, self.lp_total_token as int)
                <= u64::MAX,
        ensures
            r == mul_div(
                self.lp_token_input as int,
                total_pool_token as int,
                self.lp_total_token as int,
            ),
    {
        mul_div_fits(self.lp_token_input, total_pool_token, self.lp_total_token)
    }
}

/// Widened `floor(amount * num / den)` whose result is already known to fit
/// back in 64 bits.
fn mul_div_fits(amount: u64, num: u64, den: u64) -> (r: u64)
    requires
        0 < den,
        mul_div(amount as int, num as int, den as int) <= u64::MAX,
    ensures
        r == mul_div(amount as int, num as int, den as int),
{
    proof {
        crate::arith::lemma_u64_product_fits_u128(amount, num);
    }
    let wide = (amount as u128) * (num as u128);
    let q = wide / (den as u128);
    q as u64
}

/// Widened `floor(amount * num / den)`, failing exactly when the quotient
/// does not fit back in 64 bits.
pub(crate) fn try_mul_div(amount: u64, num: u64, den: u64) -> (r: Result<u64, AMMError>)
    requires
        0 < den,
    ensures
        mul_div(amount as int, num as int, den as int) <= u64::MAX ==> r == Ok::<u64, AMMError>(
            mul_div(amount as int, num as int, den as int) as u64,
        ),
        mul_div(amount as int, num as int, den as int) > u64::MAX ==> r == Err::<u64, AMMError>(
            AMMError::ConversionOverflow,
        ),
{
    proof {
        crate::arith::lemma_u64_product_fits_u128(amount, num);
    }
    let wide = (amount as u128) * (num as u128);
    Converter::to_u64(wide / (den as u128))
}

} // verus!
