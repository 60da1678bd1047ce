use amm::deposit;
use amm::initialize_liquidity;
use amm::swap_base_in;
use amm::withdraw;
use amm::AMMError;
use amm::AccountId;
use amm::DepositOutcome;
use amm::Fees;
use amm::InitalizeLiquidityAccount;
use amm::SwapDirection;
use amm::SwapOutcome;
use amm::WithdrawOutcome;

const BASE: AccountId = AccountId { value: 11 };
const PC: AccountId = AccountId { value: 22 };
const PROVIDER: AccountId = AccountId { value: 33 };
const OTHER: AccountId = AccountId { value: 44 };

fn blank_pool() -> InitalizeLiquidityAccount {
    InitalizeLiquidityAccount {
        base_token: AccountId { value: 0 },
        pc_token: AccountId { value: 0 },
        liquidity_provider: AccountId { value: 0 },
        base_token_amount: 0,
        pc_token_amount: 0,
        open_time: 0,
        fees: Fees { swap_fee_numerator: 0, swap_fee_denominator: 1 },
    }
}

fn seeded_pool(base_amount: u64, pc_amount: u64) -> InitalizeLiquidityAccount {
    InitalizeLiquidityAccount {
        base_token: BASE,
        pc_token: PC,
        liquidity_provider: PROVIDER,
        base_token_amount: base_amount,
        pc_token_amount: pc_amount,
        open_time: 7,
        fees: Fees { swap_fee_numerator: 25, swap_fee_denominator: 10000 },
    }
}

#[test]
fn initialize_mints_geometric_mean_minus_lock() {
    let mut pool = blank_pool();
    // seed = floor(sqrt(4_000_000 * 1_000_000)) = 2_000_000; lock = 10^6
    let r = initialize_liquidity(&mut pool, 6, BASE, PC, PROVIDER, 4_000_000, 1_000_000, 99);
    assert_eq!(r, Ok(1_000_000));
    assert_eq!(pool.base_token, BASE);
    assert_eq!(pool.pc_token, PC);
    assert_eq!(pool.liquidity_provider, PROVIDER);
    assert_eq!(pool.base_token_amount, 4_000_000);
    assert_eq!(pool.pc_token_amount, 1_000_000);
    assert_eq!(pool.open_time, 99);
    assert_eq!(pool.fees.swap_fee_numerator, 25);
    assert_eq!(pool.fees.swap_fee_denominator, 10000);
}

#[test]
fn initialize_truncates_the_root() {
    let mut pool = blank_pool();
    // sqrt(2 * 10^13) = 4472135.95...; seed = 4_472_135, lock = 10^6
    let r = initialize_liquidity(&mut pool, 6, BASE, PC, PROVIDER, 20_000_000, 1_000_000, 0);
    assert_eq!(r, Ok(3_472_135));
}

#[test]
fn initialize_seed_floor_is_strict() {
    let mut pool = blank_pool();
    let before = pool;
    // seed = sqrt(10^12) = 10^6 equals the lock: must fail, boundary is strict.
    let r = initialize_liquidity(&mut pool, 6, BASE, PC, PROVIDER, 1_000_000, 1_000_000, 0);
    assert_eq!(r, Err(AMMError::InsufficientInitialLiquidity));
    assert_eq!(pool, before);
}

#[test]
fn initialize_rejects_zero_decimals() {
    let mut pool = blank_pool();
    let r = initialize_liquidity(&mut pool, 0, BASE, PC, PROVIDER, 4_000_000, 1_000_000, 0);
    assert_eq!(r, Err(AMMError::InvalidLPMintDecimal));
}

#[test]
fn initialize_rejects_zero_amounts() {
    let mut pool = blank_pool();
    let r = initialize_liquidity(&mut pool, 6, BASE, PC, PROVIDER, 0, 1_000_000, 0);
    assert_eq!(r, Err(AMMError::InvalidAssetAmount));
    let r = initialize_liquidity(&mut pool, 6, BASE, PC, PROVIDER, 1_000_000, 0, 0);
    assert_eq!(r, Err(AMMError::InvalidAssetAmount));
}

#[test]
fn initialize_rejects_locks_beyond_the_storage_width() {
    let mut pool = blank_pool();
    // 10^25 exceeds any possible 64-bit seed: the lock swallows everything.
    let r = initialize_liquidity(&mut pool, 25, BASE, PC, PROVIDER, u64::MAX, u64::MAX, 0);
    assert_eq!(r, Err(AMMError::InsufficientInitialLiquidity));
}

#[test]
fn deposit_derives_the_paired_amount() {
    // The worked proportional-join example: reserves (1000, 2000), supply 1500,
    // 100 on the base side requires 100 * 2000 / 1000 = 200 of the pair.
    let mut pool = seeded_pool(1000, 2000);
    let r = deposit(&mut pool, 1500, 100, u64::MAX, 0, 101, 201);
    assert_eq!(
        r,
        Ok(DepositOutcome {
            deduct_base_amount: 100,
            deduct_pc_amount: 200,
            mint_lp_amount: 150,
        })
    );
    assert_eq!(pool.base_token_amount, 1100);
    assert_eq!(pool.pc_token_amount, 2200);
}

#[test]
fn deposit_on_the_pc_side() {
    let mut pool = seeded_pool(1000, 2000);
    let r = deposit(&mut pool, 1500, u64::MAX, 200, 1, 101, 201);
    assert_eq!(
        r,
        Ok(DepositOutcome {
            deduct_base_amount: 100,
            deduct_pc_amount: 200,
            mint_lp_amount: 150,
        })
    );
    assert_eq!(pool.base_token_amount, 1100);
    assert_eq!(pool.pc_token_amount, 2200);
}

#[test]
fn deposit_rejects_zero_amounts() {
    let mut pool = seeded_pool(1000, 2000);
    let before = pool;
    assert_eq!(
        deposit(&mut pool, 1500, 0, 200, 0, 101, 201),
        Err(AMMError::InvalidAmount)
    );
    assert_eq!(
        deposit(&mut pool, 1500, 100, 0, 0, 101, 201),
        Err(AMMError::InvalidAmount)
    );
    assert_eq!(pool, before);
}

#[test]
fn deposit_rejects_unseeded_pool() {
    let mut pool = seeded_pool(1000, 2000);
    assert_eq!(
        deposit(&mut pool, 0, 100, 200, 0, 101, 201),
        Err(AMMError::NotAllowZeroLP)
    );
}

#[test]
fn deposit_rejects_drained_reserve() {
    let mut pool = seeded_pool(0, 2000);
    assert_eq!(
        deposit(&mut pool, 1500, 100, 200, 0, 101, 201),
        Err(AMMError::MathOverflow)
    );
}

#[test]
fn deposit_balance_check_is_strict() {
    // A balance exactly equal to the deduction is rejected.
    let mut pool = seeded_pool(1000, 2000);
    let before = pool;
    assert_eq!(
        deposit(&mut pool, 1500, 100, u64::MAX, 0, 100, 201),
        Err(AMMError::InsufficientFund)
    );
    assert_eq!(
        deposit(&mut pool, 1500, 100, u64::MAX, 0, 101, 200),
        Err(AMMError::InsufficientFund)
    );
    assert_eq!(pool, before);
}

#[test]
fn deposit_rejects_unrepresentable_pair() {
    // 10^19 * (2 * 10^19) / 1 cannot be narrowed back to 64 bits.
    let mut pool = seeded_pool(1, u64::MAX);
    let r = deposit(&mut pool, 1, u64::MAX, u64::MAX, 0, u64::MAX, u64::MAX);
    assert_eq!(r, Err(AMMError::ConversionOverflow));
}

#[test]
fn withdraw_pays_proportional_shares() {
    let mut pool = seeded_pool(1100, 2200);
    let r = withdraw(&mut pool, 1650, 1651, 150);
    assert_eq!(
        r,
        Ok(WithdrawOutcome { base_token_share: 100, pc_token_share: 200 })
    );
    assert_eq!(pool.base_token_amount, 1000);
    assert_eq!(pool.pc_token_amount, 2000);
}

#[test]
fn withdraw_rounds_toward_the_pool() {
    let mut pool = seeded_pool(999, 1000);
    // 100 * 999 / 1500 = 66.6 -> 66; 100 * 1000 / 1500 = 66.66 -> 66
    let r = withdraw(&mut pool, 1500, 200, 100);
    assert_eq!(
        r,
        Ok(WithdrawOutcome { base_token_share: 66, pc_token_share: 66 })
    );
    assert_eq!(pool.base_token_amount, 933);
    assert_eq!(pool.pc_token_amount, 934);
}

#[test]
fn withdraw_of_entire_supply_is_rejected() {
    let mut pool = seeded_pool(1000, 2000);
    let before = pool;
    let r = withdraw(&mut pool, 1500, 1600, 1500);
    assert_eq!(r, Err(AMMError::NotEnoughTokenSupply));
    assert_eq!(pool, before);
}

#[test]
fn withdraw_balance_check_is_strict() {
    let mut pool = seeded_pool(1000, 2000);
    let r = withdraw(&mut pool, 1500, 150, 150);
    assert_eq!(r, Err(AMMError::InsufficientFund));
}

#[test]
fn withdraw_from_drained_reserve_is_rejected() {
    let mut pool = seeded_pool(0, 2000);
    let r = withdraw(&mut pool, 1500, 200, 100);
    assert_eq!(r, Err(AMMError::InsufficientPoolFund));
}

#[test]
fn swap_worked_example() {
    // Reserves (1000, 1000), amount_in 100, fee 25/10000: the fee truncates
    // to 0 and the output is floor(1000 * 100 / 1100) = 90.
    let mut pool = seeded_pool(1000, 1000);
    let r = swap_base_in(&mut pool, 100, 1, BASE, PC);
    assert_eq!(
        r,
        Ok(SwapOutcome { swap_fee: 0, swap_amount_out: 90, direction: SwapDirection::Coin2Pc })
    );
    assert_eq!(pool.base_token_amount, 1100);
    assert_eq!(pool.pc_token_amount, 910);
    // The reserve product never decreases.
    assert!(1100u128 * 910u128 >= 1000u128 * 1000u128);
}

#[test]
fn swap_charges_the_fee_into_the_reserve() {
    let mut pool = seeded_pool(10_000, 10_000);
    // fee = 10000 * 25 / 10000 = 25; out = 10000 * 9975 / 19975 = 4993
    let r = swap_base_in(&mut pool, 10_000, 1, BASE, PC);
    assert_eq!(
        r,
        Ok(SwapOutcome { swap_fee: 25, swap_amount_out: 4993, direction: SwapDirection::Coin2Pc })
    );
    assert_eq!(pool.base_token_amount, 20_000);
    assert_eq!(pool.pc_token_amount, 5_007);
    // With a positive fee the product strictly grows.
    assert!(20_000u128 * 5_007u128 > 10_000u128 * 10_000u128);
}

#[test]
fn swap_in_the_reverse_direction() {
    let mut pool = seeded_pool(1000, 1000);
    let r = swap_base_in(&mut pool, 100, 1, PC, BASE);
    assert_eq!(
        r,
        Ok(SwapOutcome { swap_fee: 0, swap_amount_out: 90, direction: SwapDirection::Pc2Coin })
    );
    assert_eq!(pool.base_token_amount, 910);
    assert_eq!(pool.pc_token_amount, 1100);
}

#[test]
fn swap_rejects_unknown_pairings() {
    let mut pool = seeded_pool(1000, 1000);
    let before = pool;
    assert_eq!(
        swap_base_in(&mut pool, 100, 1, OTHER, PC),
        Err(AMMError::InvalidUserToken)
    );
    assert_eq!(
        swap_base_in(&mut pool, 100, 1, BASE, OTHER),
        Err(AMMError::InvalidUserToken)
    );
    assert_eq!(
        swap_base_in(&mut pool, 100, 1, BASE, BASE),
        Err(AMMError::InvalidUserToken)
    );
    assert_eq!(pool, before);
}

#[test]
fn swap_rejects_zero_amounts() {
    let mut pool = seeded_pool(1000, 1000);
    assert_eq!(
        swap_base_in(&mut pool, 0, 1, BASE, PC),
        Err(AMMError::InvalidAmount)
    );
    assert_eq!(
        swap_base_in(&mut pool, 100, 0, BASE, PC),
        Err(AMMError::InvalidAmount)
    );
}

#[test]
fn swap_does_not_enforce_the_minimum_output() {
    // The minimum is only checked for positivity; an output below it still
    // completes. Slippage enforcement is the caller's.
    let mut pool = seeded_pool(1000, 1000);
    let r = swap_base_in(&mut pool, 100, 1_000_000, BASE, PC);
    assert_eq!(
        r,
        Ok(SwapOutcome { swap_fee: 0, swap_amount_out: 90, direction: SwapDirection::Coin2Pc })
    );
}

#[test]
fn swap_rejects_reserve_overflow() {
    let mut pool = seeded_pool(u64::MAX - 10, 1000);
    let before = pool;
    let r = swap_base_in(&mut pool, 100, 1, BASE, PC);
    assert_eq!(r, Err(AMMError::MathOverflow));
    assert_eq!(pool, before);
}

#[test]
fn deposit_then_withdraw_never_profits() {
    // Round trip: deposit, then redeem exactly the minted units; neither side
    // returns more than was deposited.
    let mut pool = seeded_pool(1000, 2000);
    let deposited = deposit(&mut pool, 1500, 100, u64::MAX, 0, 101, 201).unwrap();
    let supply_after = 1500 + deposited.mint_lp_amount;
    let returned = withdraw(
        &mut pool,
        supply_after,
        deposited.mint_lp_amount + 1,
        deposited.mint_lp_amount,
    )
    .unwrap();
    assert!(returned.base_token_share <= deposited.deduct_base_amount);
    assert!(returned.pc_token_share <= deposited.deduct_pc_amount);
}

#[test]
fn deposit_then_withdraw_never_profits_with_rough_ratios() {
    let mut pool = seeded_pool(997, 2003);
    let deposited = deposit(&mut pool, 1213, 89, u64::MAX, 0, u64::MAX, u64::MAX).unwrap();
    let supply_after = 1213 + deposited.mint_lp_amount;
    let returned = withdraw(
        &mut pool,
        supply_after,
        deposited.mint_lp_amount + 1,
        deposited.mint_lp_amount,
    )
    .unwrap();
    assert!(returned.base_token_share <= deposited.deduct_base_amount);
    assert!(returned.pc_token_share <= deposited.deduct_pc_amount);
}
