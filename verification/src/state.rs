use vstd::prelude::*;

use crate::error::AMMError;

verus! {

/// Opaque identifier of an asset type or participant, as the external
/// environment names it. The engine only ever compares identifiers.
#[derive(Clone, Copy, Debug, PartialEq, Eq, Structural)]
pub struct AccountId {
    pub value: u128,
}

/// Swap-fee parameters: a swap of `amount_in` is charged
/// `floor(amount_in * swap_fee_numerator / swap_fee_denominator)`.
#[derive(Clone, Copy, Debug, PartialEq, Eq, Structural)]
pub struct Fees {
    pub swap_fee_numerator: u64,
    pub swap_fee_denominator: u64,
}

impl Fees {
    /// A usable fee rate is below 100%: the divisor is positive and the
    /// charged fee always stays strictly below the amount swapped in.
    pub open spec fn wf(self) -> bool {
        self.swap_fee_numerator < self.swap_fee_denominator
    }
}

/// The authoritative record of one pool: the asset pair, the account that
/// seeded it, the cached reserves, the fee parameters and the creation time.
/// The reserves mirror the external vault balances; every completed
/// operation writes its deltas back through this record.
#[derive(Clone, Copy, Debug, PartialEq, Eq, Structural)]
pub struct InitalizeLiquidityAccount {
    pub base_token: AccountId,
    pub pc_token: AccountId,
    pub liquidity_provider: AccountId,
    pub base_token_amount: u64,
    pub pc_token_amount: u64,
    pub open_time: i64,
    pub fees: Fees,
}

impl InitalizeLiquidityAccount {
    /// Well-formedness established at initialization and preserved by every
    /// operation.
    pub open spec fn wf(self) -> bool {
        self.fees.wf()
    }

    /// Records the pool's immutable identity, its starting reserves and the
    /// default fee of 25/10000, rejecting a zero reserve on either side.
    pub fn initialize(
        &mut self,
        base_token: AccountId,
        pc_token: AccountId,
        liquidity_provider: AccountId,
        base_token_amount: u64,
        pc_token_amount: u64,
        open_time: i64,
    ) -> (r: Result<(), AMMError>)
        ensures
            base_token_amount == 0 || pc_token_amount == 0 ==> r == Err::<(), AMMError>(
                AMMError::InvalidAssetAmount,
            ) && *final(self) == *old(self),
            base_token_amount > 0 && pc_token_amount > 0 ==> r == Ok::<(), AMMError>(())
                && *final(self) == (InitalizeLiquidityAccount {
                base_token,
                pc_token,
                liquidity_provider,
                base_token_amount,
                pc_token_amount,
                open_time,
                fees: Fees { swap_fee_numerator: 25, swap_fee_denominator: 10000 },
            }),
            r is Ok ==> final(self).wf(),
    {
        if base_token_amount == 0 || pc_token_amount == 0 {
            return Err(AMMError::InvalidAssetAmount);
        }
        self.base_token = base_token;
        self.pc_token = pc_token;
        self.liquidity_provider = liquidity_provider;
        self.base_token_amount = base_token_amount;
        self.pc_token_amount = pc_token_amount;
        self.open_time = open_time;
        self.fees.swap_fee_numerator = 25;
        self.fees.swap_fee_denominator = 10000;
        Ok(())
    }
}

/// An earlier, simpler shape of the pool record that tracks the minted
/// ownership units itself. Kept for callers that still store it.
#[derive(Clone, Copy, Debug, PartialEq, Eq, Structural)]
pub struct InitalizeLiquidity {
    pub base_coin: AccountId,
    pub pc_coin: AccountId,
    pub liquidity_provider: AccountId,
    pub base_coin_ammount: u64,
    pub pc_coin_ammount: u64,
    pub lp_minted: u64,
    pub open_time: i64,
}

impl InitalizeLiquidity {
    /// Fills every field of the record from the completed seeding.
    pub fn initialize(
        &mut self,
        base_coin: AccountId,
        pc_coin: AccountId,
        liquidity_provider: AccountId,
        base_coin_ammount: u64,
        pc_coin_ammount: u64,
        lp_minted: u64,
        open_time: i64,
    )
        ensures
            *final(self) == (InitalizeLiquidity {
                base_coin,
                pc_coin,
                liquidity_provider,
                base_coin_ammount,
                pc_coin_ammount,
                lp_minted,
                open_time,
            }),
    {
        self.base_coin = base_coin;
        self.pc_coin = pc_coin;
        self.liquidity_provider = liquidity_provider;
        self.base_coin_ammount = base_coin_ammount;
        self.pc_coin_ammount = pc_coin_ammount;
        self.lp_minted = lp_minted;
        self.open_time = open_time;
    }
}

} // verus!
