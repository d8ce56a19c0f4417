//! Pricing and liquidity engine of a two-token automated market maker.
//!
//! Given the reserves of a pool, a fee schedule and a trade or liquidity
//! request, the functions here compute token amounts with checked integer
//! arithmetic and fixed rounding directions.

pub mod address;
pub mod curve;
pub mod error;
pub mod processor;
pub mod state;

pub use crate::address::authority_key;
pub use crate::error::SwapError;
pub use crate::processor::{DepositLiquidity, Initialize, Swap, WithdrawLiquidity};
pub use crate::state::{build_curve, build_fees, Amm, CurveInput, FeeInput};
