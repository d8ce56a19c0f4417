//! Vocabulary shared by every curve: directions, result values and the
//! capability set a curve has to offer.

use crate::curve::precise_number::{opt_view, PreciseNumber};
use crate::error::SwapError;
use vstd::prelude::*;

verus! {

/// Amount of pool tokens minted when a pool is created, whatever the deposit.
pub const INITIAL_SWAP_POOL_AMOUNT: u128 = 1_000_000_000;

/// Number of token kinds in a pool.
pub const TOKENS_IN_POOL: u128 = 2;

/// Turns a zero amount into `None`, so that a trade too small to yield
/// anything is reported as a failure.
pub fn map_zero_to_none(x: u128) -> (r: Option<u128>)
    ensures
        r == (if x == 0 { None } else { Some(x) }),
{
    if x == 0 {
        None
    } else {
        Some(x)
    }
}

/// Which reserve is the source of a trade.
#[derive(Debug, Clone, Copy, PartialEq, Eq, Structural)]
pub enum TradeDirection {
    /// Token A goes in, token B comes out.
    AtoB,
    /// Token B goes in, token A comes out.
    BtoA,
}

impl TradeDirection {
    /// The direction that trades the other way.
    pub open spec fn opposite_spec(self) -> TradeDirection {
        match self {
            TradeDirection::AtoB => TradeDirection::BtoA,
            TradeDirection::BtoA => TradeDirection::AtoB,
        }
    }

    /// The direction that trades the other way.
    pub fn oppsoite(&self) -> (r: Self)
        ensures
            r == self.opposite_spec(),
    {
        match self {
            Self::AtoB => Self::BtoA,
            Self::BtoA => Self::AtoB,
        }
    }
}

/// Which way a fractional amount of tokens is rounded.
#[derive(Debug, Clone, Copy, PartialEq, Eq, Structural)]
pub enum RoundDirection {
    /// Round up.
    Ceil,
    /// Round down.
    Floor,
}

/// What a fee-free swap moves on each side.
#[derive(Debug, Clone, Copy, PartialEq, Eq, Structural)]
pub struct SwapWithoutFeesResult {
    /// Amount of source token swapped
    pub source_amount_swapped: u128,
    /// Amount of destination token swapped
    pub destination_amount_swapped: u128,
}

/// The two token amounts that a number of pool tokens stands for.
#[derive(Debug, Clone, Copy, PartialEq, Eq, Structural)]
pub struct TradingTokenResult {
    /// Amount of token A
    pub token_a_amount: u128,
    /// Amount of token B
    pub token_b_amount: u128,
}

/// Whether both initial reserves hold something. A pool with an empty side
/// has an invariant of zero and cannot be created.
pub open spec fn spec_validate_supply(token_a_amount: u64, token_b_amount: u64) -> Result<
    (),
    SwapError,
> {
    if token_a_amount == 0 || token_b_amount == 0 {
        Err(SwapError::EmptySupply)
    } else {
        Ok(())
    }
}

/// Writing the parameters of a curve into the payload of its stored form.
pub trait DynPack {
    /// What a buffer that held `dst` holds after the parameters were written
    /// into it.
    spec fn spec_pack(&self, dst: Seq<u8>) -> Seq<u8>;

    /// Writes the parameters into `dst`, which keeps its length.
    fn pack_into_slice(&self, dst: &mut [u8])
        ensures
            final(dst)@ == self.spec_pack(old(dst)@),
            final(dst)@.len() == old(dst)@.len(),
    ;
}

/// What every curve offers: the fee-free swap, the conversions between pool
/// tokens and trading tokens, a valuation of the pool and its own
/// validation. Each operation is a function of its arguments, named by the
/// spec function beside it.
pub trait CurveCalculator: core::fmt::Debug + DynPack {
    /// The result of [`CurveCalculator::swap_without_token_fees`].
    spec fn spec_swap_without_token_fees(
        &self,
        source_amount: u128,
        swap_source_amount: u128,
        swap_destination_amount: u128,
        trade_direction: TradeDirection,
    ) -> Option<SwapWithoutFeesResult>;

    /// The result of [`CurveCalculator::pool_tokens_to_trading_tokens`].
    spec fn spec_pool_tokens_to_trading_tokens(
        &self,
        pool_tokens: u128,
        pool_token_supply: u128,
        swap_token_a_amount: u128,
        swap_token_b_amount: u128,
        round_direction: RoundDirection,
    ) -> Option<TradingTokenResult>;

    /// The result of [`CurveCalculator::deposit_single_token_type`].
    spec fn spec_deposit_single_token_type(
        &self,
        source_amount: u128,
        swap_token_a_amount: u128,
        swap_token_b_amount: u128,
        pool_supply: u128,
        trade_direction: TradeDirection,
        round_direction: RoundDirection,
    ) -> Option<u128>;

    /// The result of [`CurveCalculator::withdraw_single_token_type_exact_out`].
    spec fn spec_withdraw_single_token_type_exact_out(
        &self,
        source_amount: u128,
        swap_token_a_amount: u128,
        swap_token_b_amount: u128,
        pool_supply: u128,
        trade_direction: TradeDirection,
        round_direction: RoundDirection,
    ) -> Option<u128>;

    /// The result of [`CurveCalculator::validate`].
    spec fn spec_validate(&self) -> Result<(), SwapError>;

    /// The scaled integer of the result of
    /// [`CurveCalculator::normalized_value`].
    spec fn spec_normalized_value(&self, swap_token_a_amount: u128, swap_token_b_amount: u128)
        -> Option<nat>;

    /// Swaps `source_amount` into the pool without charging a fee, or
    /// returns nothing where the arithmetic fails or no destination token
    /// would move.
    fn swap_without_token_fees(
        &self,
        source_amount: u128,
        swap_source_amount: u128,
        swap_destination_amount: u128,
        trade_direction: TradeDirection,
    ) -> (r: Option<SwapWithoutFeesResult>)
        ensures
            r == self.spec_swap_without_token_fees(
                source_amount,
                swap_source_amount,
                swap_destination_amount,
                trade_direction,
            ),
    ;

    /// The pool tokens minted when a pool is created, whatever was deposited.
    fn new_supply_pool(&self) -> (r: u128)
        ensures
            r == INITIAL_SWAP_POOL_AMOUNT,
    {
        INITIAL_SWAP_POOL_AMOUNT
    }

    /// The trading tokens that `pool_tokens` out of `pool_token_supply`
    /// stand for, rounded in `round_direction`.
    fn pool_tokens_to_trading_tokens(
        &self,
        pool_tokens: u128,
        pool_token_supply: u128,
        swap_token_a_amount: u128,
        swap_token_b_amount: u128,
        round_direction: RoundDirection,
    ) -> (r: Option<TradingTokenResult>)
        ensures
            r == self.spec_pool_tokens_to_trading_tokens(
                pool_tokens,
                pool_token_supply,
                swap_token_a_amount,
                swap_token_b_amount,
                round_direction,
            ),
    ;

    /// The pool tokens to mint for a deposit of one token only.
    fn deposit_single_token_type(
        &self,
        source_amount: u128,
        swap_token_a_amount: u128,
        swap_token_b_amount: u128,
        pool_supply: u128,
        trade_direction: TradeDirection,
        round_direction: RoundDirection,
    ) -> (r: Option<u128>)
        ensures
            r == self.spec_deposit_single_token_type(
                source_amount,
                swap_token_a_amount,
                swap_token_b_amount,
                pool_supply,
                trade_direction,
                round_direction,
            ),
    ;

    /// The pool tokens to burn for a withdrawal of exactly `source_amount`
    /// of one token only.
    fn withdraw_single_token_type_exact_out(
        &self,
        source_amount: u128,
        swap_token_a_amount: u128,
        swap_token_b_amount: u128,
        pool_supply: u128,
        trade_direction: TradeDirection,
        round_direction: RoundDirection,
    ) -> (r: Option<u128>)
        ensures
            r == self.spec_withdraw_single_token_type_exact_out(
                source_amount,
                swap_token_a_amount,
                swap_token_b_amount,
                pool_supply,
                trade_direction,
                round_direction,
            ),
    ;

    /// Checks the parameters of the curve itself.
    fn validate(&self) -> (r: Result<(), SwapError>)
        ensures
            r == self.spec_validate(),
    ;

    /// Refuses to create a pool with an empty side.
    fn validate_supply(&self, token_a_amount: u64, token_b_amount: u64) -> (r: Result<
        (),
        SwapError,
    >)
        ensures
            r == spec_validate_supply(token_a_amount, token_b_amount),
    {
        if token_a_amount == 0 {
            return Err(SwapError::EmptySupply);
        }
        if token_b_amount == 0 {
            return Err(SwapError::EmptySupply);
        }
        Ok(())
    }

    /// Whether the curve takes deposits. Every curve does.
    fn allow_deposits(&self) -> (r: bool)
        ensures
            r,
    {
        true
    }

    /// The value of the pool in a unit that does not depend on a price.
    fn normalized_value(&self, swap_token_a_amount: u128, swap_token_b_amount: u128) -> (r: Option<
        PreciseNumber,
    >)
        ensures
            opt_view(r) == self.spec_normalized_value(swap_token_a_amount, swap_token_b_amount),
    ;
}

} // verus!
