//! Accounting engine for a constant-product liquidity pool.
//!
//! The pool tracks two token reserves and a swap fee. The engine computes,
//! for each of the four operations (initialize, deposit, withdraw, swap),
//! the exact amounts the external ledger must move, mint or burn, and it
//! updates the cached reserves. All multiplicative steps run in the 128-bit
//! domain before narrowing back to 64 bits.

pub mod arith;
pub mod error;
pub mod events;
pub mod laws;
pub mod math;
pub mod ops;
pub mod state;

pub use error::AMMError;
pub use events::DepositEvent;
pub use events::InitializeLiquidityPoolEvent;
pub use events::SwapEvent;
pub use events::WithdrawEvent;
pub use math::AMMCalculator;
pub use math::Converter;
pub use math::SwapDirection;
pub use math::TokenCalculator;
pub use math::TokenShareCalculator;
pub use ops::deposit;
pub use ops::initialize_liquidity;
pub use ops::swap_base_in;
pub use ops::withdraw;
pub use ops::DepositOutcome;
pub use ops::SwapOutcome;
pub use ops::WithdrawOutcome;
pub use state::AccountId;
pub use state::Fees;
pub use state::InitalizeLiquidity;
pub use state::InitalizeLiquidityAccount;
