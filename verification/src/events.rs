use vstd::prelude::*;

use crate::math::SwapDirection;
use crate::state::AccountId;

verus! {

/// Record of a completed pool seeding: who provided, which pair, how much of
/// each side moved into the vaults.
#[derive(Clone, Copy, Debug, PartialEq, Eq, Structural)]
pub struct InitializeLiquidityPoolEvent {
    pub liquidity_provider: AccountId,
    pub base_token_mint: AccountId,
    pub pc_token_mint: AccountId,
    pub base_token_amount: u64,
    pub pc_token_amount: u64,
}

/// Record of a completed swap: what was paid in, in which direction, between
/// which asset types, and what was paid out.
#[derive(Clone, Copy, Debug, PartialEq, Eq, Structural)]
pub struct SwapEvent {
    pub amount_in: u64,
    pub direction: SwapDirection,
    pub user_source: AccountId,
    pub user_destination: AccountId,
    pub swap_amount_out: u64,
}

/// Record of a completed proportional join: who deposited and how much of
/// each side was taken.
#[derive(Clone, Copy, Debug, PartialEq, Eq, Structural)]
pub struct DepositEvent {
    pub liquidity_provider: AccountId,
    pub base_token_mint: AccountId,
    pub pc_token_mint: AccountId,
    pub base_token_amount: u64,
    pub pc_token_amount: u64,
}

/// Record of a completed redemption: who burned how many ownership units and
/// what each vault paid out.
#[derive(Clone, Copy, Debug, PartialEq, Eq, Structural)]
pub struct WithdrawEvent {
    pub user: AccountId,
    pub lp_amount: u64,
    pub base_token_amount: u64,
    pub pc_token_amount: u64,
}

} // verus!
