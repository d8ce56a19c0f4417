//! The failures that the engine and the instructions around it report.

use vstd::prelude::*;

verus! {

/// Why an operation on a pool was refused.
#[derive(Debug, Clone, Copy, PartialEq, Eq, Structural)]
pub enum SwapError {
    /// Swap account already in use
    AlreadyInUse,
    /// Invalid program address generated from bump seed and key
    InvalidProgramAddress,
    /// Input account owner is not the program address
    InvalidOwner,
    /// Output pool account owner cannot be the program address
    InvalidOuputOwner,
    /// Swap input token accounts have the same mint
    RepeatedMint,
    /// Token account has a delegate
    InvalidDelegate,
    /// Token account has a close authority
    InvalidCloseAuthority,
    /// Pool token supply is non-zero
    InvalidSupply,
    /// Pool token has a freeze authority
    InvalidFreezeAuthority,
    /// Address of the provided pool token mint is incorrect
    IncorrectPoolMint,
    /// Empty supply
    EmptySupply,
    /// Invalid fees
    InvalidFees,
    /// Incorrect swap account
    IncorrectSwapAccount,
    /// Invalid input token for swap
    InvalidInput,
    /// Incorrect fee account
    IncorrectFeeAccount,
    /// Incorrect token program id
    IncorrectTokenProgramId,
    /// Given pool token amount results in zero trading tokens
    ZeroTradingTokens,
    /// Fee calculation failed
    FeeCalculationFailure,
    /// Conversion overflow
    ConversionFailure,
    /// The provided slippage limit has been exceeded
    ExceededSlippage,
    /// Zero owner trading fee
    ZeroOwnerTradeFee,
    /// Zero host fee
    ZeroHostFee,
    /// Invalid fee percentage
    InvalidPercentage,
    /// AMM not initialized
    NotInitialized,
    /// A stored curve names no curve type, or holds a non-zero byte where
    /// its curve type has no parameter
    InvalidArgument,
    /// The curve type is declared but has no calculator yet
    UnsupportedCurveType,
}

} // verus!
