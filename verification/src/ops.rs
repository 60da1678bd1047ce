//! The four operations of the engine. Each validates its inputs against the
//! pool record, computes the exact ledger effects in the wide domain, applies
//! the reserve deltas, and returns the amounts the external ledger must move,
//! mint or burn. On any failure the pool is left untouched.

use vstd::prelude::*;

use crate::arith::floor_sqrt;
use crate::arith::isqrt_u128;
use crate::arith::lemma_div_bounded_by;
use crate::arith::lemma_floor_sqrt_correct;
use crate::arith::lemma_floor_sqrt_le;
use crate::arith::lemma_floor_sqrt_unique;
use crate::arith::lemma_pow10_monotonic;
use crate::arith::lemma_pow10_values;
use crate::arith::lemma_u64_product_fits_u128;
use crate::arith::pow10;
use crate::arith::pow10_u64;
use crate::error::AMMError;
use crate::laws::lemma_swap_product_no_decrease;
use crate::math::fee_charged;
use crate::math::minted_units;
use crate::math::mul_div;
use crate::math::other_required;
use crate::math::try_mul_div;
use crate::math::swap_output;
use crate::math::withdraw_share;
use crate::math::AMMCalculator;
use crate::math::SwapDirection;
use crate::state::AccountId;
use crate::state::Fees;
use crate::state::InitalizeLiquidityAccount;

verus! {

/// Ledger effects of a completed deposit: what to take from the depositor on
/// each side and how many ownership units to mint to them.
#[derive(Clone, Copy, Debug, PartialEq, Eq, Structural)]
pub struct DepositOutcome {
    pub deduct_base_amount: u64,
    pub deduct_pc_amount: u64,
    pub mint_lp_amount: u64,
}

/// Ledger effects of a completed withdrawal: what each vault pays out to the
/// redeemer (the redeemed units themselves are burned).
#[derive(Clone, Copy, Debug, PartialEq, Eq, Structural)]
pub struct WithdrawOutcome {
    pub base_token_share: u64,
    pub pc_token_share: u64,
}

/// Ledger effects of a completed swap: the fee retained by the pool, the
/// output owed to the caller, and the direction that was matched.
#[derive(Clone, Copy, Debug, PartialEq, Eq, Structural)]
pub struct SwapOutcome {
    pub swap_fee: u64,
    pub swap_amount_out: u64,
    pub direction: SwapDirection,
}

/// Seeds a pool: records the asset pair, the starting reserves and the
/// default fee, and returns how many ownership units to mint to the provider.
///
/// The seed share count is the truncated geometric mean of the two starting
/// reserves; `10^lp_coin_mint_decimal` of it is permanently locked, so the
/// pool stays non-empty even if every minted unit is later redeemed, and the
/// mean must strictly exceed that lock.
pub fn initialize_liquidity(
    pool: &mut InitalizeLiquidityAccount,
    lp_coin_mint_decimal: u8,
    base_coin: AccountId,
    pc_coin: AccountId,
    liquidity_provider: AccountId,
    base_coin_amount: u64,
    pc_coin_amount: u64,
    open_time: i64,
) -> (r: Result<u64, AMMError>)
    ensures
        lp_coin_mint_decimal == 0 ==> r == Err::<u64, AMMError>(AMMError::InvalidLPMintDecimal)
            && *final(pool) == *old(pool),
        lp_coin_mint_decimal > 0 && (base_coin_amount == 0 || pc_coin_amount == 0) ==> r == Err::<
            u64,
            AMMError,
        >(AMMError::InvalidAssetAmount) && *final(pool) == *old(pool),
        lp_coin_mint_decimal > 0 && base_coin_amount > 0 && pc_coin_amount > 0 ==> ({
            let seed = floor_sqrt((base_coin_amount * pc_coin_amount) as nat) as int;
            let lock = pow10(lp_coin_mint_decimal as nat) as int;
            if seed <= lock {
                r == Err::<u64, AMMError>(AMMError::InsufficientInitialLiquidity) && *final(pool)
                    == *old(pool)
            } else {
                r == Ok::<u64, AMMError>((seed - lock) as u64) && *final(pool)
                    == (InitalizeLiquidityAccount {
                    base_token: base_coin,
                    pc_token: pc_coin,
                    liquidity_provider,
                    base_token_amount: base_coin_amount,
                    pc_token_amount: pc_coin_amount,
                    open_time,
                    fees: Fees { swap_fee_numerator: 25, swap_fee_denominator: 10000 },
                }) && final(pool).wf()
            }
        }),
{
    if lp_coin_mint_decimal == 0 {
        return Err(AMMError::InvalidLPMintDecimal);
    }
    if base_coin_amount == 0 || pc_coin_amount == 0 {
        return Err(AMMError::InvalidAssetAmount);
    }
    proof {
        lemma_u64_product_fits_u128(base_coin_amount, pc_coin_amount);
    }
    let product = (base_coin_amount as u128) * (pc_coin_amount as u128);
    let seed_wide = isqrt_u128(product);
    proof {
        assert(product <= (u64::MAX as int) * (u64::MAX as int)) by (nonlinear_arith)
            requires
                product == (base_coin_amount as int) * (pc_coin_amount as int),
                base_coin_amount <= u64::MAX,
                pc_coin_amount <= u64::MAX,
        ;
        lemma_floor_sqrt_le(product as int, seed_wide as int, u64::MAX as int);
        lemma_floor_sqrt_correct(product as nat);
        lemma_floor_sqrt_unique(
            product as int,
            seed_wide as int,
            floor_sqrt(product as nat) as int,
        );
    }
    let total_share = seed_wide as u64;
    if lp_coin_mint_decimal >= 20 {
        proof {
            lemma_pow10_values();
            lemma_pow10_monotonic(20, lp_coin_mint_decimal as nat);
        }
        return Err(AMMError::InsufficientInitialLiquidity);
    }
    let minimum_liquidity = pow10_u64(lp_coin_mint_decimal);
    if total_share <= minimum_liquidity {
        return Err(AMMError::InsufficientInitialLiquidity);
    }
    let lp_token_to_mint = total_share - minimum_liquidity;
    if let Err(e) = pool.initialize(
        base_coin,
        pc_coin,
        liquidity_provider,
        base_coin_amount,
        pc_coin_amount,
        open_time,
    ) {
        return Err(e);
    }
    Ok(lp_token_to_mint)
}

/// Joins a pool one-sidedly: the chosen side contributes its full amount, the
/// paired amount is derived from the current reserve ratio (never chosen by
/// the caller), and the minted ownership is the lesser of the two sides'
/// proportional computations. Both contributions must stay strictly below the
/// caller's balances.
pub fn deposit(
    pool: &mut InitalizeLiquidityAccount,
    lp_supply: u64,
    max_base_coin_amount: u64,
    max_pc_coin_amount: u64,
    base_side: u8,
    user_base_balance: u64,
    user_pc_balance: u64,
) -> (r: Result<DepositOutcome, AMMError>)
    ensures
        max_base_coin_amount == 0 || max_pc_coin_amount == 0 ==> r == Err::<
            DepositOutcome,
            AMMError,
        >(AMMError::InvalidAmount) && *final(pool) == *old(pool),
        max_base_coin_amount > 0 && max_pc_coin_amount > 0 && lp_supply == 0 ==> r == Err::<
            DepositOutcome,
            AMMError,
        >(AMMError::NotAllowZeroLP) && *final(pool) == *old(pool),
        max_base_coin_amount > 0 && max_pc_coin_amount > 0 && lp_supply > 0
            && (old(pool).base_token_amount == 0 || old(pool).pc_token_amount == 0) ==> r == Err::<
            DepositOutcome,
            AMMError,
        >(AMMError::MathOverflow) && *final(pool) == *old(pool),
        max_base_coin_amount > 0 && max_pc_coin_amount > 0 && lp_supply > 0
            && old(pool).base_token_amount > 0 && old(pool).pc_token_amount > 0 ==> ({
            let rb = old(pool).base_token_amount as int;
            let rp = old(pool).pc_token_amount as int;
            let side_in: int = if base_side == 0 {
                max_base_coin_amount as int
            } else {
                max_pc_coin_amount as int
            };
            let r_in: int = if base_side == 0 {
                rb
            } else {
                rp
            };
            let r_out: int = if base_side == 0 {
                rp
            } else {
                rb
            };
            let other = other_required(side_in, r_in, r_out);
            let q_in = mul_div(side_in, lp_supply as int, r_in);
            let q_out = mul_div(other, lp_supply as int, r_out);
            let deduct_base: int = if base_side == 0 {
                side_in
            } else {
                other
            };
            let deduct_pc: int = if base_side == 0 {
                other
            } else {
                side_in
            };
            if other > u64::MAX || q_in > u64::MAX || q_out > u64::MAX {
                r == Err::<DepositOutcome, AMMError>(AMMError::ConversionOverflow) && *final(pool)
                    == *old(pool)
            } else if deduct_base >= user_base_balance || deduct_pc >= user_pc_balance {
                r == Err::<DepositOutcome, AMMError>(AMMError::InsufficientFund) && *final(pool)
                    == *old(pool)
            } else if rb + deduct_base > u64::MAX || rp + deduct_pc > u64::MAX {
                r == Err::<DepositOutcome, AMMError>(AMMError::MathOverflow) && *final(pool)
                    == *old(pool)
            } else {
                r == Ok::<DepositOutcome, AMMError>(DepositOutcome {
                    deduct_base_amount: deduct_base as u64,
                    deduct_pc_amount: deduct_pc as u64,
                    mint_lp_amount: minted_units(side_in, other, r_in, r_out, lp_supply as int) as u64,
                }) && *final(pool) == (InitalizeLiquidityAccount {
                    base_token_amount: (rb + deduct_base) as u64,
                    pc_token_amount: (rp + deduct_pc) as u64,
                    ..*old(pool)
                })
            }
        }),
{
    if max_pc_coin_amount == 0 || max_base_coin_amount == 0 {
        return Err(AMMError::InvalidAmount);
    }
    if lp_supply == 0 {
        return Err(AMMError::NotAllowZeroLP);
    }
    if pool.base_token_amount == 0 || pool.pc_token_amount == 0 {
        return Err(AMMError::MathOverflow);
    }
    let side_in: u64;
    let r_in: u64;
    let r_out: u64;
    if base_side == 0 {
        side_in = max_base_coin_amount;
        r_in = pool.base_token_amount;
        r_out = pool.pc_token_amount;
    } else {
        side_in = max_pc_coin_amount;
        r_in = pool.pc_token_amount;
        r_out = pool.base_token_amount;
    }
    let other = match try_mul_div(side_in, r_out, r_in) {
        Ok(v) => v,
        Err(e) => {
            return Err(e);
        },
    };
    let q_in = match try_mul_div(side_in, lp_supply, r_in) {
        Ok(v) => v,
        Err(e) => {
            return Err(e);
        },
    };
    let q_out = match try_mul_div(other, lp_supply, r_out) {
        Ok(v) => v,
        Err(e) => {
            return Err(e);
        },
    };
    let mint_lp_amount = if q_in <= q_out {
        q_in
    } else {
        q_out
    };
    let deduct_base_amount: u64;
    let deduct_pc_amount: u64;
    if base_side == 0 {
        deduct_base_amount = side_in;
        deduct_pc_amount = other;
    } else {
        deduct_base_amount = other;
        deduct_pc_amount = side_in;
    }
    if !(deduct_base_amount < user_base_balance) {
        return Err(AMMError::InsufficientFund);
    }
    if !(deduct_pc_amount < user_pc_balance) {
        return Err(AMMError::InsufficientFund);
    }
    let new_base = (pool.base_token_amount as u128) + (deduct_base_amount as u128);
    let new_pc = (pool.pc_token_amount as u128) + (deduct_pc_amount as u128);
    if new_base > (u64::MAX as u128) || new_pc > (u64::MAX as u128) {
        return Err(AMMError::MathOverflow);
    }
    pool.base_token_amount = new_base as u64;
    pool.pc_token_amount = new_pc as u64;
    Ok(DepositOutcome { deduct_base_amount, deduct_pc_amount, mint_lp_amount })
}

/// Redeems `max_lp_token_amount` ownership units for both assets: each vault
/// owes the redeemed fraction of its reserve, rounded down. The request must
/// stay strictly below both the caller's units and the total supply, and each
/// computed share strictly below its reserve.
pub fn withdraw(
    pool: &mut InitalizeLiquidityAccount,
    lp_supply: u64,
    user_lp_balance: u64,
    max_lp_token_amount: u64,
) -> (r: Result<WithdrawOutcome, AMMError>)
    ensures
        max_lp_token_amount >= user_lp_balance ==> r == Err::<WithdrawOutcome, AMMError>(
            AMMError::InsufficientFund,
        ) && *final(pool) == *old(pool),
        max_lp_token_amount < user_lp_balance && max_lp_token_amount >= lp_supply ==> r == Err::<
            WithdrawOutcome,
            AMMError,
        >(AMMError::NotEnoughTokenSupply) && *final(pool) == *old(pool),
        max_lp_token_amount < user_lp_balance && max_lp_token_amount < lp_supply ==> ({
            let rb = old(pool).base_token_amount as int;
            let rp = old(pool).pc_token_amount as int;
            let sb = withdraw_share(max_lp_token_amount as int, rb, lp_supply as int);
            let sp = withdraw_share(max_lp_token_amount as int, rp, lp_supply as int);
            if sb >= rb || sp >= rp {
                r == Err::<WithdrawOutcome, AMMError>(AMMError::InsufficientPoolFund)
                    && *final(pool) == *old(pool)
            } else {
                r == Ok::<WithdrawOutcome, AMMError>(WithdrawOutcome {
                    base_token_share: sb as u64,
                    pc_token_share: sp as u64,
                }) && *final(pool) == (InitalizeLiquidityAccount {
                    base_token_amount: (rb - sb) as u64,
                    pc_token_amount: (rp - sp) as u64,
                    ..*old(pool)
                })
            }
        }),
{
    if !(max_lp_token_amount < user_lp_balance) {
        return Err(AMMError::InsufficientFund);
    }
    if !(max_lp_token_amount < lp_supply) {
        return Err(AMMError::NotEnoughTokenSupply);
    }
    proof {
        lemma_withdraw_share_fits(
            max_lp_token_amount as int,
            pool.base_token_amount as int,
            lp_supply as int,
        );
        lemma_withdraw_share_fits(
            max_lp_token_amount as int,
            pool.pc_token_amount as int,
            lp_supply as int,
        );
    }
    let base_token_share = match try_mul_div(max_lp_token_amount, pool.base_token_amount, lp_supply,
    ) {
        Ok(v) => v,
        Err(e) => {
            return Err(e);
        },
    };
    let pc_token_share = match try_mul_div(max_lp_token_amount, pool.pc_token_amount, lp_supply) {
        Ok(v) => v,
        Err(e) => {
            return Err(e);
        },
    };
    if !(base_token_share < pool.base_token_amount) {
        return Err(AMMError::InsufficientPoolFund);
    }
    if !(pc_token_share < pool.pc_token_amount) {
        return Err(AMMError::InsufficientPoolFund);
    }
    pool.base_token_amount = pool.base_token_amount - base_token_share;
    pool.pc_token_amount = pool.pc_token_amount - pc_token_share;
    Ok(WithdrawOutcome { base_token_share, pc_token_share })
}

/// A share of a reserve owed to fewer units than the whole supply never
/// exceeds the reserve itself, so it always narrows back to 64 bits.
proof fn lemma_withdraw_share_fits(units: int, reserve: int, supply: int)
    requires
        0 <= units < supply,
        0 <= reserve <= u64::MAX,
    ensures
        0 <= withdraw_share(units, reserve, supply) <= reserve,
{
    crate::arith::lemma_div_mul_le(units * reserve, supply);
    assert(units * reserve <= supply * reserve) by (nonlinear_arith)
        requires
            0 <= units < supply,
            0 <= reserve,
    ;
    lemma_div_bounded_by(units * reserve, supply, reserve);
    assert(0 <= units * reserve) by (nonlinear_arith)
        requires
            0 <= units,
            0 <= reserve,
    ;
}

/// Swaps `amount_in` of the declared source asset for the paired asset at the
/// constant-product rate, after charging the pool's fee on the input. The fee
/// stays in the receiving reserve, so the reserve product never decreases.
///
/// The computed output is not compared against `min_amount_out` beyond the
/// positivity check: slippage enforcement is left to the caller.
pub fn swap_base_in(
    pool: &mut InitalizeLiquidityAccount,
    amount_in: u64,
    min_amount_out: u64,
    user_source_mint: AccountId,
    user_destination_mint: AccountId,
) -> (r: Result<SwapOutcome, AMMError>)
    requires
        old(pool).wf(),
    ensures
        final(pool).wf(),
        amount_in == 0 || min_amount_out == 0 ==> r == Err::<SwapOutcome, AMMError>(
            AMMError::InvalidAmount,
        ) && *final(pool) == *old(pool),
        amount_in > 0 && min_amount_out > 0 ==> ({
            let c2p = user_source_mint == old(pool).base_token
                && user_destination_mint == old(pool).pc_token;
            let p2c = user_source_mint == old(pool).pc_token
                && user_destination_mint == old(pool).base_token;
            let rb = old(pool).base_token_amount as int;
            let rp = old(pool).pc_token_amount as int;
            let fee = fee_charged(
                amount_in as int,
                old(pool).fees.swap_fee_numerator as int,
                old(pool).fees.swap_fee_denominator as int,
            );
            if !c2p && !p2c {
                r == Err::<SwapOutcome, AMMError>(AMMError::InvalidUserToken) && *final(pool)
                    == *old(pool)
            } else {
                let r_in: int = if c2p {
                    rb
                } else {
                    rp
                };
                let r_out: int = if c2p {
                    rp
                } else {
                    rb
                };
                let out = swap_output(amount_in - fee, r_in, r_out);
                if r_in + amount_in > u64::MAX {
                    r == Err::<SwapOutcome, AMMError>(AMMError::MathOverflow) && *final(pool)
                        == *old(pool)
                } else {
                    r == Ok::<SwapOutcome, AMMError>(SwapOutcome {
                        swap_fee: fee as u64,
                        swap_amount_out: out as u64,
                        direction: if c2p {
                            SwapDirection::Coin2Pc
                        } else {
                            SwapDirection::Pc2Coin
                        },
                    }) && *final(pool) == (InitalizeLiquidityAccount {
                        base_token_amount: (if c2p {
                            rb + amount_in
                        } else {
                            rb - out
                        }) as u64,
                        pc_token_amount: (if c2p {
                            rp - out
                        } else {
                            rp + amount_in
                        }) as u64,
                        ..*old(pool)
                    })
                }
            }
        }),
        r is Ok ==> (final(pool).base_token_amount as int) * (final(pool).pc_token_amount as int)
            >= (old(pool).base_token_amount as int) * (old(pool).pc_token_amount as int),
        r is Ok && old(pool).base_token_amount > 0 && old(pool).pc_token_amount > 0 && fee_charged(
            amount_in as int,
            old(pool).fees.swap_fee_numerator as int,
            old(pool).fees.swap_fee_denominator as int,
        ) > 0 ==> (final(pool).base_token_amount as int) * (final(pool).pc_token_amount as int) > (
        old(pool).base_token_amount as int) * (old(pool).pc_token_amount as int),
{
    if amount_in == 0 || min_amount_out == 0 {
        return Err(AMMError::InvalidAmount);
    }
    let swap_direction: SwapDirection;
    if user_source_mint == pool.base_token && user_destination_mint == pool.pc_token {
        swap_direction = SwapDirection::Coin2Pc;
    } else if user_source_mint == pool.pc_token && user_destination_mint == pool.base_token {
        swap_direction = SwapDirection::Pc2Coin;
    } else {
        return Err(AMMError::InvalidUserToken);
    }
    proof {
        lemma_u64_product_fits_u128(amount_in, pool.fees.swap_fee_numerator);
    }
    let fee_wide = (amount_in as u128) * (pool.fees.swap_fee_numerator as u128);
    let swap_fee_wide = fee_wide / (pool.fees.swap_fee_denominator as u128);
    proof {
        lemma_fee_below_input(
            amount_in as int,
            pool.fees.swap_fee_numerator as int,
            pool.fees.swap_fee_denominator as int,
        );
    }
    let swap_fee = swap_fee_wide as u64;
    let swap_in_after_deduct_fee = amount_in - swap_fee;
    let r_in: u64;
    let r_out: u64;
    match swap_direction {
        SwapDirection::Coin2Pc => {
            r_in = pool.base_token_amount;
            r_out = pool.pc_token_amount;
        },
        SwapDirection::Pc2Coin => {
            r_in = pool.pc_token_amount;
            r_out = pool.base_token_amount;
        },
    }
    proof {
        lemma_u64_product_fits_u128(r_out, swap_in_after_deduct_fee);
        lemma_swap_output_fits(swap_in_after_deduct_fee as int, r_in as int, r_out as int);
    }
    let amount_out_wide = AMMCalculator::swap_token_base_amount_in(
        swap_in_after_deduct_fee as u128,
        pool.base_token_amount as u128,
        pool.pc_token_amount as u128,
        swap_direction,
    );
    let swap_amount_out = amount_out_wide as u64;
    let new_r_in = (r_in as u128) + (amount_in as u128);
    if new_r_in > (u64::MAX as u128) {
        return Err(AMMError::MathOverflow);
    }
    let new_r_out = r_out - swap_amount_out;
    proof {
        lemma_swap_product_no_decrease(
            amount_in as int,
            swap_fee as int,
            r_in as int,
            r_out as int,
        );
    }
    match swap_direction {
        SwapDirection::Coin2Pc => {
            pool.base_token_amount = new_r_in as u64;
            pool.pc_token_amount = new_r_out;
        },
        SwapDirection::Pc2Coin => {
            pool.pc_token_amount = new_r_in as u64;
            pool.base_token_amount = new_r_out;
        },
    }
    proof {
        // The ensured product is written base-first; in the reverse direction
        // the factors come out swapped.
        let out = swap_output(amount_in - swap_fee, r_in as int, r_out as int);
        assert((r_out - out) * (r_in + amount_in) == (r_in + amount_in) * (r_out - out))
            by (nonlinear_arith);
        assert((r_out as int) * (r_in as int) == (r_in as int) * (r_out as int))
            by (nonlinear_arith);
        if swap_fee > 0 && r_in > 0 && r_out > 0 {
            crate::laws::lemma_swap_product_increases(
                amount_in as int,
                swap_fee as int,
                r_in as int,
                r_out as int,
            );
        }
    }
    Ok(SwapOutcome { swap_fee, swap_amount_out, direction: swap_direction })
}

/// A fee at a rate strictly below one stays strictly below the amount it is
/// charged on.
proof fn lemma_fee_below_input(amount_in: int, num: int, den: int)
    requires
        1 <= amount_in,
        0 <= num < den,
    ensures
        0 <= fee_charged(amount_in, num, den) < amount_in,
{
    crate::arith::lemma_div_mul_le(amount_in * num, den);
    assert(amount_in * num < den * amount_in) by (nonlinear_arith)
        requires
            1 <= amount_in,
            0 <= num < den,
    ;
    lemma_div_bounded_by(amount_in * num, den, amount_in);
    assert(0 <= amount_in * num) by (nonlinear_arith)
        requires
            1 <= amount_in,
            0 <= num,
    ;
}

/// The constant-product output never exceeds the paying reserve, so it always
/// narrows back to 64 bits.
proof fn lemma_swap_output_fits(amount_in: int, r_in: int, r_out: int)
    requires
        1 <= amount_in,
        0 <= r_in,
        0 <= r_out <= u64::MAX,
    ensures
        0 <= swap_output(amount_in, r_in, r_out) <= r_out,
{
    crate::arith::lemma_div_mul_le(r_out * amount_in, r_in + amount_in);
    assert(r_out * amount_in <= (r_in + amount_in) * r_out) by (nonlinear_arith)
        requires
            1 <= amount_in,
            0 <= r_in,
            0 <= r_out,
    ;
    lemma_div_bounded_by(r_out * amount_in, r_in + amount_in, r_out);
    assert(0 <= r_out * amount_in) by (nonlinear_arith)
        requires
            1 <= amount_in,
            0 <= r_out,
    ;
}

} // verus!
