use vstd::prelude::*;

verus! {

/// Every way an operation of the pool engine can fail.
///
/// All failures are synchronous and leave the pool untouched: an operation
/// either validates and completes, or returns the first failing check.
#[derive(Clone, Copy, Debug, PartialEq, Eq, Structural)]
pub enum AMMError {
    /// An initial reserve amount of zero was offered at pool creation.
    InvalidAssetAmount,
    /// The requested number of decimals for the ownership unit is zero.
    InvalidLPMintDecimal,
    /// The geometric-mean seed shares do not exceed the minimum-liquidity lock.
    InsufficientInitialLiquidity,
    /// A 128-bit intermediate value does not fit back into 64 bits.
    ConversionOverflow,
    /// A zero amount was passed where a positive amount is needed.
    InvalidAmount,
    /// A deposit was attempted while the ownership supply is zero.
    NotAllowZeroLP,
    /// The caller's balance does not cover the amount to be taken.
    InsufficientFund,
    /// A redemption asked for at least the entire ownership supply.
    NotEnoughTokenSupply,
    /// A computed withdrawal share would not leave the reserve positive.
    InsufficientPoolFund,
    /// The declared source/destination assets match neither side pairing.
    InvalidUserToken,
    /// An addition or multiplication left the representable range.
    MathOverflow,
}

} // verus!
