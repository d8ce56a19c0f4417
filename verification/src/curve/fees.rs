//! The fee schedule: four rates, each a numerator over a denominator.

use crate::curve::arith::lemma_div_monotone;
use crate::error::SwapError;
use vstd::prelude::*;

verus! {

/// The rates charged on trades and withdrawals.
///
/// A rate with a zero numerator is switched off, whatever its denominator.
#[derive(Debug, Clone, Copy, PartialEq, Eq, Structural)]
pub struct CurveFees {
    /// Trade fee numerator
    pub trade_fee_numerator: u64,
    /// Trade fee denominator
    pub trade_fee_denominator: u64,
    /// Owner trade fee numerator
    pub owner_trade_fee_numerator: u64,
    /// Owner trade fee denominator
    pub owner_trade_fee_denominator: u64,
    /// Owner withdraw fee numerator
    pub owner_withdraw_fee_numerator: u64,
    /// Owner withdraw fee denominator
    pub owner_withdraw_fee_denominator: u64,
    /// Host fee numerator, a share of the owner trade fee
    pub host_fee_numerator: u64,
    /// Host fee denominator
    pub host_fee_denominator: u64,
}

/// The fee on `amount` at the rate `numerator / denominator`, rounded down.
///
/// A zero numerator gives a fee of zero without dividing. Otherwise there is
/// no fee to give where the denominator is zero or where `amount * numerator`
/// does not fit in 128 bits.
pub open spec fn spec_fee(amount: u128, numerator: u64, denominator: u64) -> Option<u128> {
    if numerator == 0 {
        Some(0)
    } else if denominator == 0 || amount * numerator > u128::MAX {
        None
    } else {
        Some(((amount * numerator) / (denominator as int)) as u128)
    }
}

/// Whether a rate is at most one hundred percent.
pub open spec fn spec_valid_rate(numerator: u64, denominator: u64) -> bool {
    numerator <= denominator
}

/// Computes [`spec_fee`] with checked arithmetic.
fn calculate_fee(amount: u128, numerator: u64, denominator: u64) -> (r: Option<u128>)
    ensures
        r == spec_fee(amount, numerator, denominator),
{
    if numerator == 0 {
        return Some(0);
    }
    let product = amount.checked_mul(numerator as u128)?;
    proof {
        if denominator != 0 {
            lemma_div_monotone(0, product as int, denominator as int);
            vstd::arithmetic::div_mod::lemma_div_nonincreasing(product as int, denominator as int);
        }
    }
    product.checked_div(denominator as u128)
}

impl CurveFees {
    /// The fee that stays in the pool for a trade of `trading_tokens`.
    pub open spec fn spec_trading_fee(&self, trading_tokens: u128) -> Option<u128> {
        spec_fee(trading_tokens, self.trade_fee_numerator, self.trade_fee_denominator)
    }

    /// The fee that goes to the owner for a trade of `trading_tokens`.
    pub open spec fn spec_owner_trading_fee(&self, trading_tokens: u128) -> Option<u128> {
        spec_fee(trading_tokens, self.owner_trade_fee_numerator, self.owner_trade_fee_denominator)
    }

    /// The fee that goes to the owner for a withdrawal of `pool_tokens`.
    pub open spec fn spec_owner_withdraw_fee(&self, pool_tokens: u128) -> Option<u128> {
        spec_fee(pool_tokens, self.owner_withdraw_fee_numerator, self.owner_withdraw_fee_denominator)
    }

    /// The host's share of an owner fee of `owner_fee`.
    pub open spec fn spec_host_fee(&self, owner_fee: u128) -> Option<u128> {
        spec_fee(owner_fee, self.host_fee_numerator, self.host_fee_denominator)
    }

    /// Whether no rate is above one hundred percent.
    pub open spec fn spec_valid(&self) -> bool {
        &&& spec_valid_rate(self.trade_fee_numerator, self.trade_fee_denominator)
        &&& spec_valid_rate(self.owner_trade_fee_numerator, self.owner_trade_fee_denominator)
        &&& spec_valid_rate(self.owner_withdraw_fee_numerator, self.owner_withdraw_fee_denominator)
        &&& spec_valid_rate(self.host_fee_numerator, self.host_fee_denominator)
    }

    /// The trading fee on `trading_tokens`.
    pub fn trading_fee(&self, trading_tokens: u128) -> (r: Option<u128>)
        ensures
            r == self.spec_trading_fee(trading_tokens),
    {
        calculate_fee(trading_tokens, self.trade_fee_numerator, self.trade_fee_denominator)
    }

    /// The owner's trading fee on `trading_tokens`.
    pub fn owner_trading_fee(&self, trading_tokens: u128) -> (r: Option<u128>)
        ensures
            r == self.spec_owner_trading_fee(trading_tokens),
    {
        calculate_fee(
            trading_tokens,
            self.owner_trade_fee_numerator,
            self.owner_trade_fee_denominator,
        )
    }

    /// The owner's fee on a withdrawal of `pool_tokens`.
    pub fn owner_withdraw_fee(&self, pool_tokens: u128) -> (r: Option<u128>)
        ensures
            r == self.spec_owner_withdraw_fee(pool_tokens),
    {
        calculate_fee(
            pool_tokens,
            self.owner_withdraw_fee_numerator,
            self.owner_withdraw_fee_denominator,
        )
    }

    /// The host's fee, taken as a share of the owner fee and not of the
    /// amount traded.
    pub fn host_fee(&self, owner_fee: u128) -> (r: Option<u128>)
        ensures
            r == self.spec_host_fee(owner_fee),
    {
        calculate_fee(owner_fee, self.host_fee_numerator, self.host_fee_denominator)
    }

    /// Accepts the schedule where every rate, the host's share of the owner
    /// fee included, is at most one hundred percent.
    pub fn validate(&self) -> (r: Result<(), SwapError>)
        ensures
            r == (if self.spec_valid() {
                Ok::<(), SwapError>(())
            } else {
                Err::<(), SwapError>(SwapError::InvalidFees)
            }),
    {
        if self.trade_fee_numerator > self.trade_fee_denominator {
            return Err(SwapError::InvalidFees);
        }
        if self.owner_trade_fee_numerator > self.owner_trade_fee_denominator {
            return Err(SwapError::InvalidFees);
        }
        if self.owner_withdraw_fee_numerator > self.owner_withdraw_fee_denominator {
            return Err(SwapError::InvalidFees);
        }
        if self.host_fee_numerator > self.host_fee_denominator {
            return Err(SwapError::InvalidFees);
        }
        Ok(())
    }
}

/// A fee at a rate of at most one hundred percent is at most the amount.
pub proof fn lemma_fee_at_most_amount(amount: u128, numerator: u64, denominator: u64)
    requires
        spec_valid_rate(numerator, denominator),
    ensures
        spec_fee(amount, numerator, denominator) matches Some(fee) ==> fee <= amount,
{
    if numerator != 0 && amount * numerator <= u128::MAX {
        let d = denominator as int;
        let p = amount * numerator;
        assert(p <= amount * d) by (nonlinear_arith)
            requires
                p == amount * numerator,
                numerator <= d,
        ;
        lemma_div_monotone(p, amount * d, d);
        vstd::arithmetic::div_mod::lemma_div_by_multiple(amount as int, d);
    }
}

/// With the denominator held fixed, a larger numerator never gives a smaller
/// fee: where it gives a fee at all, so does the smaller numerator, and that
/// fee is no larger.
pub proof fn lemma_fee_monotone(amount: u128, numerator_1: u64, numerator_2: u64, denominator: u64)
    requires
        numerator_1 <= numerator_2,
    ensures
        spec_fee(amount, numerator_2, denominator) is Some ==> spec_fee(
            amount,
            numerator_1,
            denominator,
        ) is Some,
        spec_fee(amount, numerator_2, denominator) is Some ==> spec_fee(
            amount,
            numerator_1,
            denominator,
        )->0 <= spec_fee(amount, numerator_2, denominator)->0,
{
    if numerator_2 != 0 && denominator != 0 && amount * numerator_2 <= u128::MAX {
        let d = denominator as int;
        assert(0 <= amount * numerator_1 <= amount * numerator_2) by (nonlinear_arith)
            requires
                0 <= numerator_1 <= numerator_2,
        ;
        lemma_div_monotone(0, amount * numerator_1, d);
        lemma_div_monotone(amount * numerator_1, amount * numerator_2, d);
    }
}

} // verus!
