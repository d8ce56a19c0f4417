//! The constant-product curve: a swap keeps the product of the two reserves
//! from falling.

use crate::curve::arith::{
    ceil_div, lemma_ceil_div_bounds, lemma_ceil_div_by_cases, lemma_ceil_div_unique,
};
use crate::curve::calculator::{
    map_zero_to_none, CurveCalculator, DynPack, RoundDirection, SwapWithoutFeesResult,
    TradeDirection, TradingTokenResult,
};
use crate::curve::precise_number::{
    opt_view, spec_add, spec_ceiling, spec_div, spec_floor, spec_mul, spec_sub,
    spec_to_imprecise, sqrt_value, PreciseNumber, ONE,
};
use crate::error::SwapError;
use vstd::prelude::*;

verus! {

/// The curve `x * y = k`. It has no parameter.
#[derive(Debug, Clone, Copy, PartialEq, Eq, Structural)]
pub struct ConstantProductCurve;

impl Default for ConstantProductCurve {
    fn default() -> (r: Self)
        ensures
            r == ConstantProductCurve,
    {
        ConstantProductCurve
    }
}

/// Whether every byte is zero.
pub open spec fn all_zero(bytes: Seq<u8>) -> bool {
    forall|i: int| 0 <= i < bytes.len() ==> bytes[i] == 0
}

impl ConstantProductCurve {
    /// The number of payload bytes that the curve has a use for.
    pub const LEN: usize = 0;

    /// The curve that a payload stands for. The curve has no parameter, so
    /// every byte reserved for one has to be zero.
    pub open spec fn spec_unpack(payload: Seq<u8>) -> Result<ConstantProductCurve, SwapError> {
        if all_zero(payload) {
            Ok(ConstantProductCurve)
        } else {
            Err(SwapError::InvalidArgument)
        }
    }

    /// The curve needs no initialisation.
    pub fn is_initialized(&self) -> (r: bool)
        ensures
            r,
    {
        true
    }

    /// Reads the curve from its payload, which has to be zero throughout.
    pub fn unpack_from_slice(src: &[u8]) -> (r: Result<Self, SwapError>)
        ensures
            r == ConstantProductCurve::spec_unpack(src@),
    {
        let mut i: usize = 0;
        while i < src.len()
            invariant
                i <= src@.len(),
                forall|j: int| 0 <= j < i ==> src@[j] == 0,
            decreases src@.len() - i,
        {
            if src[i] != 0 {
                return Err(SwapError::InvalidArgument);
            }
            i += 1;
        }
        Ok(ConstantProductCurve)
    }
}

/// What the ceiling division of `spl-math` returns for 128-bit numbers: the
/// quotient rounded up, and with it the smallest divisor that still gives
/// that quotient. It refuses a zero divisor and a dividend below the divisor.
pub open spec fn spec_checked_ceil_div(lhs: u128, rhs: u128) -> Option<(u128, u128)> {
    if rhs == 0 || lhs / rhs == 0 {
        None
    } else if lhs % rhs == 0 {
        Some((lhs / rhs, rhs))
    } else if lhs / rhs + 1 > u128::MAX {
        None
    } else {
        let quotient = lhs / rhs + 1;
        let divisor = lhs as int / quotient;
        if lhs as int % quotient == 0 {
            Some((quotient as u128, divisor as u128))
        } else if divisor + 1 > u128::MAX {
            None
        } else {
            Some((quotient as u128, (divisor + 1) as u128))
        }
    }
}

/// Calls `CheckedCeilDiv::checked_ceil_div` of `spl-math` on two 128-bit
/// numbers. It divides with a checked division and gives up on a zero
/// quotient. Where a remainder is left it adds one to the quotient, divides
/// the dividend by the new quotient for the divisor, and adds one to that
/// too where this second division leaves a remainder. Each addition is
/// checked.
#[verifier::external_body]
fn spl_checked_ceil_div(lhs: u128, rhs: u128) -> (r: Option<(u128, u128)>)
    ensures
        r == spec_checked_ceil_div(lhs, rhs),
{
    spl_math::checked_ceil_div::CheckedCeilDiv::checked_ceil_div(&lhs, rhs)
}

/// Whether a fee-free swap of `source_amount` into the given reserves can be
/// made: the invariant and the new source reserve fit in 128 bits, the
/// invariant is at least the new source reserve, and the destination
/// reserve falls by at least one token.
pub open spec fn swap_defined(
    source_amount: u128,
    swap_source_amount: u128,
    swap_destination_amount: u128,
) -> bool {
    let product = swap_source_amount * swap_destination_amount;
    let new_source = swap_source_amount + source_amount;
    &&& product <= u128::MAX
    &&& new_source <= u128::MAX
    &&& 0 < new_source <= product
    &&& ceil_div(product, new_source) < swap_destination_amount
}

/// The destination reserve after a fee-free swap: the invariant divided by
/// the new source reserve, rounded up.
pub open spec fn new_destination_amount(
    source_amount: u128,
    swap_source_amount: u128,
    swap_destination_amount: u128,
) -> int {
    ceil_div(swap_source_amount * swap_destination_amount, swap_source_amount + source_amount)
}

/// The source reserve after a fee-free swap: the smallest reserve that, with
/// the new destination reserve, still covers the invariant.
pub open spec fn new_source_amount(
    source_amount: u128,
    swap_source_amount: u128,
    swap_destination_amount: u128,
) -> int {
    ceil_div(
        swap_source_amount * swap_destination_amount,
        new_destination_amount(source_amount, swap_source_amount, swap_destination_amount),
    )
}

/// The result of a fee-free swap on the constant-product curve.
pub open spec fn spec_swap(
    source_amount: u128,
    swap_source_amount: u128,
    swap_destination_amount: u128,
) -> Option<SwapWithoutFeesResult> {
    if swap_defined(source_amount, swap_source_amount, swap_destination_amount) {
        Some(
            SwapWithoutFeesResult {
                source_amount_swapped: (new_source_amount(
                    source_amount,
                    swap_source_amount,
                    swap_destination_amount,
                ) - swap_source_amount) as u128,
                destination_amount_swapped: (swap_destination_amount - new_destination_amount(
                    source_amount,
                    swap_source_amount,
                    swap_destination_amount,
                )) as u128,
            },
        )
    } else {
        None
    }
}

/// Where the ceiling division succeeds it returns the ceiling quotient and
/// the ceiling of the dividend over that quotient, and it succeeds exactly
/// where the divisor is positive and not above the dividend.
pub proof fn lemma_checked_ceil_div(lhs: u128, rhs: u128)
    ensures
        spec_checked_ceil_div(lhs, rhs) is Some <==> 0 < rhs <= lhs,
        spec_checked_ceil_div(lhs, rhs) matches Some(pair) ==> {
            &&& pair.0 == ceil_div(lhs as int, rhs as int)
            &&& pair.1 == ceil_div(lhs as int, pair.0 as int)
            &&& 0 < pair.0 <= lhs
            &&& 0 < pair.1 <= rhs
        },
{
    if rhs != 0 {
        let l = lhs as int;
        let d = rhs as int;
        vstd::arithmetic::div_mod::lemma_fundamental_div_mod(l, d);
        assert(0 <= l % d < d) by (nonlinear_arith)
            requires
                0 < d,
        ;
        let q0 = l / d;
        assert(q0 >= 0 && (q0 == 0 <==> l < d) && q0 <= l) by (nonlinear_arith)
            requires
                l == d * q0 + l % d,
                0 <= l % d < d,
                0 < d,
                0 <= l,
        ;
        if q0 != 0 {
            lemma_ceil_div_by_cases(l, d);
            lemma_ceil_div_bounds(l, d);
            let q = ceil_div(l, d);
            if l % d == 0 {
                assert(d * q0 == q * d) by (nonlinear_arith)
                    requires
                        q == q0,
                ;
                lemma_ceil_div_unique(l, q, d);
            } else {
                // A remainder needs a divisor of at least two, so the
                // quotient is at most half the dividend.
                assert(q <= l) by (nonlinear_arith)
                    requires
                        q == q0 + 1,
                        l == d * q0 + l % d,
                        0 < l % d < d,
                        0 < q0,
                ;
                lemma_ceil_div_by_cases(l, q);
                lemma_ceil_div_bounds(l, q);
                let r = ceil_div(l, q);
                assert(r <= d) by (nonlinear_arith)
                    requires
                        0 < q,
                        0 < d,
                        l <= q * d,
                        r * q < l + q,
                ;
            }
        }
    }
}

/// The new reserves of a swap that can be made: the destination reserve
/// falls, the source reserve grows by no more than what was offered, and the
/// product of the two does not fall below the invariant.
pub proof fn lemma_swap_reserves(
    source_amount: u128,
    swap_source_amount: u128,
    swap_destination_amount: u128,
)
    requires
        swap_defined(source_amount, swap_source_amount, swap_destination_amount),
    ensures
        0 < new_destination_amount(source_amount, swap_source_amount, swap_destination_amount)
            < swap_destination_amount,
        swap_source_amount <= new_source_amount(
            source_amount,
            swap_source_amount,
            swap_destination_amount,
        ) <= swap_source_amount + source_amount,
        new_source_amount(source_amount, swap_source_amount, swap_destination_amount)
            * new_destination_amount(source_amount, swap_source_amount, swap_destination_amount)
            >= swap_source_amount * swap_destination_amount,
{
    let k = swap_source_amount * swap_destination_amount;
    let n = swap_source_amount + source_amount;
    let s = swap_source_amount as int;
    let q = new_destination_amount(source_amount, swap_source_amount, swap_destination_amount);
    let r = new_source_amount(source_amount, swap_source_amount, swap_destination_amount);
    lemma_ceil_div_bounds(k, n);
    lemma_ceil_div_bounds(k, q);
    assert(r <= n) by (nonlinear_arith)
        requires
            0 < q,
            0 < n,
            k <= q * n,
            r * q < k + q,
    ;
    assert(s <= r) by (nonlinear_arith)
        requires
            0 < q < swap_destination_amount,
            k == s * swap_destination_amount,
            k <= r * q,
            0 <= s,
    ;
}

/// Swaps `source_amount` into the pool without charging a fee.
///
/// The invariant is the product of the two reserves. The new destination
/// reserve is the invariant over the new source reserve, rounded up, so the
/// pool never pays out more than the invariant allows; the source amount
/// taken is what it takes to reach that destination reserve. A swap that
/// would overflow, or that would move no destination token, is refused.
pub fn swap(source_amount: u128, swap_source_amount: u128, swap_destination_amount: u128) -> (r:
    Option<SwapWithoutFeesResult>)
    ensures
        r == spec_swap(source_amount, swap_source_amount, swap_destination_amount),
{
    let product = swap_source_amount.checked_mul(swap_destination_amount)?;
    let new_swap_source_amount = swap_source_amount.checked_add(source_amount)?;
    proof {
        lemma_checked_ceil_div(product, new_swap_source_amount);
    }
    let (new_swap_destination_amount, new_swap_source_amount) = spl_checked_ceil_div(
        product,
        new_swap_source_amount,
    )?;
    proof {
        let k = swap_source_amount * swap_destination_amount;
        let n = swap_source_amount + source_amount;
        lemma_ceil_div_bounds(k, n);
        assert(new_swap_destination_amount <= swap_destination_amount) by (nonlinear_arith)
            requires
                k == swap_source_amount * swap_destination_amount,
                n == swap_source_amount + source_amount,
                0 < n,
                new_swap_destination_amount * n < k + n,
        ;
        if new_swap_destination_amount < swap_destination_amount {
            lemma_swap_reserves(source_amount, swap_source_amount, swap_destination_amount);
        }
    }
    let destination_amount_swapped = map_zero_to_none(
        swap_destination_amount.checked_sub(new_swap_destination_amount)?,
    )?;
    let source_amount_swapped = new_swap_source_amount.checked_sub(swap_source_amount)?;

    Some(SwapWithoutFeesResult { source_amount_swapped, destination_amount_swapped })
}

/// The share of one reserve that `pool_tokens` out of `pool_token_supply`
/// stand for: the exact share rounded down, and one more for `Ceil` where the
/// division left a remainder and the rounded share is not zero.
pub open spec fn spec_share(
    pool_tokens: u128,
    pool_token_supply: u128,
    reserve: u128,
    round_direction: RoundDirection,
) -> int {
    let floor = (pool_tokens * reserve) / (pool_token_supply as int);
    let remainder = (pool_tokens * reserve) % (pool_token_supply as int);
    if round_direction == RoundDirection::Ceil && remainder > 0 && floor > 0 {
        floor + 1
    } else {
        floor
    }
}

/// The trading tokens that `pool_tokens` stand for, or nothing where the
/// supply is zero or a product overflows.
pub open spec fn spec_pool_tokens_to_trading_tokens(
    pool_tokens: u128,
    pool_token_supply: u128,
    swap_token_a_amount: u128,
    swap_token_b_amount: u128,
    round_direction: RoundDirection,
) -> Option<TradingTokenResult> {
    if pool_token_supply == 0 || pool_tokens * swap_token_a_amount > u128::MAX || pool_tokens
        * swap_token_b_amount > u128::MAX {
        None
    } else {
        Some(
            TradingTokenResult {
                token_a_amount: spec_share(
                    pool_tokens,
                    pool_token_supply,
                    swap_token_a_amount,
                    round_direction,
                ) as u128,
                token_b_amount: spec_share(
                    pool_tokens,
                    pool_token_supply,
                    swap_token_b_amount,
                    round_direction,
                ) as u128,
            },
        )
    }
}

/// A share fits in 128 bits wherever the product it is taken from does.
pub proof fn lemma_share_fits(
    pool_tokens: u128,
    pool_token_supply: u128,
    reserve: u128,
    round_direction: RoundDirection,
)
    requires
        pool_token_supply > 0,
        pool_tokens * reserve <= u128::MAX,
    ensures
        0 <= spec_share(pool_tokens, pool_token_supply, reserve, round_direction) <= u128::MAX,
        (pool_tokens * reserve) % (pool_token_supply as int) > 0 ==> (pool_tokens * reserve) / (
        pool_token_supply as int) < u128::MAX,
{
    let p = pool_tokens * reserve;
    let s = pool_token_supply as int;
    vstd::arithmetic::div_mod::lemma_fundamental_div_mod(p, s);
    assert(0 <= p % s < s) by (nonlinear_arith)
        requires
            0 < s,
    ;
    assert(0 <= p / s <= p && (p % s > 0 ==> p / s < p)) by (nonlinear_arith)
        requires
            p == s * (p / s) + p % s,
            0 <= p % s < s,
            0 <= p,
    ;
}

/// One reserve's share, computed with checked arithmetic.
fn share(pool_tokens: u128, pool_token_supply: u128, reserve: u128, round_direction: RoundDirection)
    -> (r: Option<u128>)
    ensures
        r == (if pool_token_supply == 0 || pool_tokens * reserve > u128::MAX {
            None
        } else {
            Some(spec_share(pool_tokens, pool_token_supply, reserve, round_direction) as u128)
        }),
{
    let product = pool_tokens.checked_mul(reserve)?;
    let mut amount = product.checked_div(pool_token_supply)?;
    proof {
        lemma_share_fits(pool_tokens, pool_token_supply, reserve, round_direction);
    }
    match round_direction {
        RoundDirection::Floor => {},
        RoundDirection::Ceil => {
            let remainder = product.checked_rem(pool_token_supply)?;
            if remainder > 0 && amount > 0 {
                amount += 1;
            }
        },
    }
    Some(amount)
}

/// Converts pool tokens into the amounts of both trading tokens that they
/// stand for, each rounded in `round_direction`.
pub fn pool_tokens_to_trading_tokens(
    pool_tokens: u128,
    pool_token_supply: u128,
    swap_token_a_amount: u128,
    swap_token_b_amount: u128,
    round_direction: RoundDirection,
) -> (r: Option<TradingTokenResult>)
    ensures
        r == spec_pool_tokens_to_trading_tokens(
            pool_tokens,
            pool_token_supply,
            swap_token_a_amount,
            swap_token_b_amount,
            round_direction,
        ),
{
    let token_a_amount = share(pool_tokens, pool_token_supply, swap_token_a_amount, round_direction)?;
    let token_b_amount = share(pool_tokens, pool_token_supply, swap_token_b_amount, round_direction)?;
    Some(TradingTokenResult { token_a_amount, token_b_amount })
}

/// The reserve that a single-sided deposit or withdrawal touches.
pub open spec fn source_reserve(
    swap_token_a_amount: u128,
    swap_token_b_amount: u128,
    trade_direction: TradeDirection,
) -> u128 {
    match trade_direction {
        TradeDirection::AtoB => swap_token_a_amount,
        TradeDirection::BtoA => swap_token_b_amount,
    }
}

/// The fixed-point square root of one plus `source_amount / reserve`, as a
/// scaled integer; nothing for an empty reserve or where a step overflows.
pub open spec fn spec_growth_root(source_amount: u128, reserve: u128) -> Option<nat> {
    match spec_div((source_amount * ONE) as nat, (reserve * ONE) as nat) {
        Some(ratio) => match spec_add(ONE as nat, ratio) {
            Some(base) => sqrt_value(base),
            None => None,
        },
        None => None,
    }
}

/// A fixed-point number of pool tokens as a whole number: the scaled integer
/// over [`ONE`], rounded in `round_direction`; nothing where that does not
/// fit in 128 bits.
pub open spec fn spec_round(tokens: nat, round_direction: RoundDirection) -> Option<u128> {
    let whole = match round_direction {
        RoundDirection::Floor => tokens as int / ONE as int,
        RoundDirection::Ceil => ceil_div(tokens as int, ONE as int),
    };
    if whole <= u128::MAX {
        Some(whole as u128)
    } else {
        None
    }
}

/// The pool supply times the fixed-point factor `root`, as a whole number of
/// pool tokens.
pub open spec fn spec_supply_share(
    pool_supply: u128,
    root: nat,
    round_direction: RoundDirection,
) -> Option<u128> {
    match spec_mul((pool_supply * ONE) as nat, root) {
        Some(tokens) => spec_round(tokens, round_direction),
        None => None,
    }
}

/// The pool tokens for a deposit of one token: the supply times
/// `1 - sqrt(1 + source_amount / reserve)`. A deposit of nothing is worth
/// nothing; any other has a result only where the subtraction does not fall
/// below zero.
pub open spec fn spec_deposit_single_token_type(
    source_amount: u128,
    swap_token_a_amount: u128,
    swap_token_b_amount: u128,
    pool_supply: u128,
    trade_direction: TradeDirection,
    round_direction: RoundDirection,
) -> Option<u128> {
    if source_amount == 0 {
        Some(0)
    } else {
        match spec_growth_root(
            source_amount,
            source_reserve(swap_token_a_amount, swap_token_b_amount, trade_direction),
        ) {
            Some(growth) => match spec_sub(ONE as nat, growth) {
                Some(root) => spec_supply_share(pool_supply, root, round_direction),
                None => None,
            },
            None => None,
        }
    }
}

/// The pool tokens to burn for a withdrawal of exactly `source_amount` of
/// one token: the supply times `sqrt(1 + source_amount / reserve) - 1`.
pub open spec fn spec_withdraw_single_token_type_exact_out(
    source_amount: u128,
    swap_token_a_amount: u128,
    swap_token_b_amount: u128,
    pool_supply: u128,
    trade_direction: TradeDirection,
    round_direction: RoundDirection,
) -> Option<u128> {
    if source_amount == 0 {
        Some(0)
    } else {
        match spec_growth_root(
            source_amount,
            source_reserve(swap_token_a_amount, swap_token_b_amount, trade_direction),
        ) {
            Some(growth) => match spec_sub(growth, ONE as nat) {
                Some(root) => spec_supply_share(pool_supply, root, round_direction),
                None => None,
            },
            None => None,
        }
    }
}

/// The geometric mean of the two reserves as a scaled integer: the
/// fixed-point square root of their fixed-point product.
pub open spec fn spec_normalize_value(swap_token_a_amount: u128, swap_token_b_amount: u128)
    -> Option<nat> {
    match spec_mul((swap_token_a_amount * ONE) as nat, (swap_token_b_amount * ONE) as nat) {
        Some(product) => sqrt_value(product),
        None => None,
    }
}

/// Rounding a whole fixed-point number to nearest gives that whole number.
proof fn lemma_round_of_whole(tokens: nat, round_direction: RoundDirection)
    ensures
        round_direction == RoundDirection::Floor ==> spec_round(tokens, round_direction)
            == spec_to_imprecise(spec_floor(tokens)),
        round_direction == RoundDirection::Ceil ==> spec_round(tokens, round_direction) == (
        match spec_ceiling(tokens) {
            Some(c) => spec_to_imprecise(c),
            None => None,
        }),
{
}

/// `sqrt(1 + source_amount / reserve)` in fixed point.
fn growth_root(source_amount: u128, reserve: u128) -> (r: Option<PreciseNumber>)
    ensures
        opt_view(r) == spec_growth_root(source_amount, reserve),
{
    let swap_source_amount = PreciseNumber::new(reserve)?;
    let source_amount = PreciseNumber::new(source_amount)?;
    let ratio = source_amount.checked_div(&swap_source_amount)?;
    let one = PreciseNumber::new(1)?;
    let base = one.checked_add(&ratio)?;
    base.sqrt()
}

/// The pool supply times `root`, rounded to a whole number of pool tokens.
fn supply_share(pool_supply: u128, root: &PreciseNumber, round_direction: RoundDirection) -> (r:
    Option<u128>)
    ensures
        r == spec_supply_share(pool_supply, root@, round_direction),
{
    let pool_supply = PreciseNumber::new(pool_supply)?;
    let pool_tokens = pool_supply.checked_mul(root)?;
    proof {
        lemma_round_of_whole(pool_tokens@, round_direction);
    }
    match round_direction {
        RoundDirection::Floor => pool_tokens.floor()?.to_imprecise(),
        RoundDirection::Ceil => pool_tokens.ceiling()?.to_imprecise(),
    }
}

/// Pool tokens to mint for a deposit of `source_amount` of one token only.
///
/// With `ratio = source_amount / reserve` of the deposited side, the result
/// is `pool_supply * (1 - sqrt(1 + ratio))` in fixed-point arithmetic,
/// rounded in `round_direction`. A deposit of zero gives zero without any
/// computation. Every failed step, the subtraction included, gives `None`.
pub fn deposit_single_token_type(
    source_amount: u128,
    swap_token_a_amount: u128,
    swap_token_b_amount: u128,
    pool_supply: u128,
    trade_direction: TradeDirection,
    round_direction: RoundDirection,
) -> (r: Option<u128>)
    ensures
        r == spec_deposit_single_token_type(
            source_amount,
            swap_token_a_amount,
            swap_token_b_amount,
            pool_supply,
            trade_direction,
            round_direction,
        ),
        source_amount == 0 ==> r == Some(0u128),
{
    if source_amount == 0 {
        return Some(0);
    }
    let swap_source_amount = match trade_direction {
        TradeDirection::AtoB => swap_token_a_amount,
        TradeDirection::BtoA => swap_token_b_amount,
    };
    let growth = growth_root(source_amount, swap_source_amount)?;
    let one = PreciseNumber::new(1)?;
    let root = one.checked_sub(&growth)?;
    supply_share(pool_supply, &root, round_direction)
}

/// Pool tokens to burn for a withdrawal of exactly `source_amount` of one
/// token only.
///
/// With `ratio = source_amount / reserve` of the withdrawn side, the result
/// is `pool_supply * (sqrt(1 + ratio) - 1)` in fixed-point arithmetic,
/// rounded in `round_direction`. A withdrawal of zero gives zero without any
/// computation. Every failed step gives `None`.
pub fn withdraw_single_token_type_exact_out(
    source_amount: u128,
    swap_token_a_amount: u128,
    swap_token_b_amount: u128,
    pool_supply: u128,
    trade_direction: TradeDirection,
    round_direction: RoundDirection,
) -> (r: Option<u128>)
    ensures
        r == spec_withdraw_single_token_type_exact_out(
            source_amount,
            swap_token_a_amount,
            swap_token_b_amount,
            pool_supply,
            trade_direction,
            round_direction,
        ),
        source_amount == 0 ==> r == Some(0u128),
{
    if source_amount == 0 {
        return Some(0);
    }
    let swap_source_amount = match trade_direction {
        TradeDirection::AtoB => swap_token_a_amount,
        TradeDirection::BtoA => swap_token_b_amount,
    };
    let growth = growth_root(source_amount, swap_source_amount)?;
    let one = PreciseNumber::new(1)?;
    let root = growth.checked_sub(&one)?;
    supply_share(pool_supply, &root, round_direction)
}

/// The value of the pool as the geometric mean of its reserves,
/// `sqrt(a * b)`, in fixed point.
pub fn normalize_value(swap_token_a_amount: u128, swap_token_b_amount: u128) -> (r: Option<
    PreciseNumber,
>)
    ensures
        opt_view(r) == spec_normalize_value(swap_token_a_amount, swap_token_b_amount),
{
    let swap_token_a_amount = PreciseNumber::new(swap_token_a_amount)?;
    let swap_token_b_amount = PreciseNumber::new(swap_token_b_amount)?;
    swap_token_a_amount.checked_mul(&swap_token_b_amount)?.sqrt()
}

impl CurveCalculator for ConstantProductCurve {
    open spec fn spec_swap_without_token_fees(
        &self,
        source_amount: u128,
        swap_source_amount: u128,
        swap_destination_amount: u128,
        trade_direction: TradeDirection,
    ) -> Option<SwapWithoutFeesResult> {
        spec_swap(source_amount, swap_source_amount, swap_destination_amount)
    }

    open spec fn spec_pool_tokens_to_trading_tokens(
        &self,
        pool_tokens: u128,
        pool_token_supply: u128,
        swap_token_a_amount: u128,
        swap_token_b_amount: u128,
        round_direction: RoundDirection,
    ) -> Option<TradingTokenResult> {
        spec_pool_tokens_to_trading_tokens(
            pool_tokens,
            pool_token_supply,
            swap_token_a_amount,
            swap_token_b_amount,
            round_direction,
        )
    }

    open spec fn spec_deposit_single_token_type(
        &self,
        source_amount: u128,
        swap_token_a_amount: u128,
        swap_token_b_amount: u128,
        pool_supply: u128,
        trade_direction: TradeDirection,
        round_direction: RoundDirection,
    ) -> Option<u128> {
        spec_deposit_single_token_type(
            source_amount,
            swap_token_a_amount,
            swap_token_b_amount,
            pool_supply,
            trade_direction,
            round_direction,
        )
    }

    open spec fn spec_withdraw_single_token_type_exact_out(
        &self,
        source_amount: u128,
        swap_token_a_amount: u128,
        swap_token_b_amount: u128,
        pool_supply: u128,
        trade_direction: TradeDirection,
        round_direction: RoundDirection,
    ) -> Option<u128> {
        spec_withdraw_single_token_type_exact_out(
            source_amount,
            swap_token_a_amount,
            swap_token_b_amount,
            pool_supply,
            trade_direction,
            round_direction,
        )
    }

    /// The curve has no parameter to check.
    open spec fn spec_validate(&self) -> Result<(), SwapError> {
        Ok(())
    }

    open spec fn spec_normalized_value(&self, swap_token_a_amount: u128, swap_token_b_amount: u128)
        -> Option<nat> {
        spec_normalize_value(swap_token_a_amount, swap_token_b_amount)
    }

    fn swap_without_token_fees(
        &self,
        source_amount: u128,
        swap_source_amount: u128,
        swap_destination_amount: u128,
        _trade_direction: TradeDirection,
    ) -> (r: Option<SwapWithoutFeesResult>) {
        swap(source_amount, swap_source_amount, swap_destination_amount)
    }

    fn pool_tokens_to_trading_tokens(
        &self,
        pool_tokens: u128,
        pool_token_supply: u128,
        swap_token_a_amount: u128,
        swap_token_b_amount: u128,
        round_direction: RoundDirection,
    ) -> (r: Option<TradingTokenResult>) {
        pool_tokens_to_trading_tokens(
            pool_tokens,
            pool_token_supply,
            swap_token_a_amount,
            swap_token_b_amount,
            round_direction,
        )
    }

    fn deposit_single_token_type(
        &self,
        source_amount: u128,
        swap_token_a_amount: u128,
        swap_token_b_amount: u128,
        pool_supply: u128,
        trade_direction: TradeDirection,
        round_direction: RoundDirection,
    ) -> (r: Option<u128>) {
        deposit_single_token_type(
            source_amount,
            swap_token_a_amount,
            swap_token_b_amount,
            pool_supply,
            trade_direction,
            round_direction,
        )
    }

    fn withdraw_single_token_type_exact_out(
        &self,
        source_amount: u128,
        swap_token_a_amount: u128,
        swap_token_b_amount: u128,
        pool_supply: u128,
        trade_direction: TradeDirection,
        round_direction: RoundDirection,
    ) -> (r: Option<u128>) {
        withdraw_single_token_type_exact_out(
            source_amount,
            swap_token_a_amount,
            swap_token_b_amount,
            pool_supply,
            trade_direction,
            round_direction,
        )
    }

    fn validate(&self) -> (r: Result<(), SwapError>) {
        Ok(())
    }

    fn normalized_value(&self, swap_token_a_amount: u128, swap_token_b_amount: u128) -> (r: Option<
        PreciseNumber,
    >) {
        normalize_value(swap_token_a_amount, swap_token_b_amount)
    }
}

impl DynPack for ConstantProductCurve {
    /// The curve has no parameter, so it writes nothing.
    open spec fn spec_pack(&self, dst: Seq<u8>) -> Seq<u8> {
        dst
    }

    fn pack_into_slice(&self, _dst: &mut [u8]) {
    }
}

/// A swap on the constant-product curve never lets the product of the two
/// reserves fall: the reserves after it multiply to at least what the
/// reserves before it did. It also takes no more than was offered and
/// leaves the destination reserve positive.
pub proof fn lemma_swap_invariant_non_decreasing(
    source_amount: u128,
    swap_source_amount: u128,
    swap_destination_amount: u128,
)
    requires
        spec_swap(source_amount, swap_source_amount, swap_destination_amount) is Some,
    ensures
        ({
            let swapped = spec_swap(source_amount, swap_source_amount, swap_destination_amount)->0;
            &&& (swap_source_amount + swapped.source_amount_swapped) * (swap_destination_amount
                - swapped.destination_amount_swapped) >= swap_source_amount
                * swap_destination_amount
            &&& swapped.source_amount_swapped <= source_amount
            &&& 0 < swapped.destination_amount_swapped < swap_destination_amount
        }),
{
    lemma_swap_reserves(source_amount, swap_source_amount, swap_destination_amount);
}

/// Rounding up never gives less than rounding down, and never over one
/// token more, for either token; and the two directions fail together.
pub proof fn lemma_ceil_at_most_one_above_floor(
    pool_tokens: u128,
    pool_token_supply: u128,
    swap_token_a_amount: u128,
    swap_token_b_amount: u128,
)
    ensures
        match (
            spec_pool_tokens_to_trading_tokens(
                pool_tokens,
                pool_token_supply,
                swap_token_a_amount,
                swap_token_b_amount,
                RoundDirection::Floor,
            ),
            spec_pool_tokens_to_trading_tokens(
                pool_tokens,
                pool_token_supply,
                swap_token_a_amount,
                swap_token_b_amount,
                RoundDirection::Ceil,
            ),
        ) {
            (Some(floor), Some(ceil)) => {
                &&& floor.token_a_amount <= ceil.token_a_amount <= floor.token_a_amount + 1
                &&& floor.token_b_amount <= ceil.token_b_amount <= floor.token_b_amount + 1
            },
            (None, None) => true,
            _ => false,
        },
{
    if pool_token_supply != 0 && pool_tokens * swap_token_a_amount <= u128::MAX && pool_tokens
        * swap_token_b_amount <= u128::MAX {
        lemma_share_fits(pool_tokens, pool_token_supply, swap_token_a_amount, RoundDirection::Floor);
        lemma_share_fits(pool_tokens, pool_token_supply, swap_token_a_amount, RoundDirection::Ceil);
        lemma_share_fits(pool_tokens, pool_token_supply, swap_token_b_amount, RoundDirection::Floor);
        lemma_share_fits(pool_tokens, pool_token_supply, swap_token_b_amount, RoundDirection::Ceil);
    }
}

/// A deposit of nothing mints nothing and a withdrawal of nothing burns
/// nothing, whatever the reserves, the supply and the directions are.
pub proof fn lemma_zero_amount(
    swap_token_a_amount: u128,
    swap_token_b_amount: u128,
    pool_supply: u128,
    trade_direction: TradeDirection,
    round_direction: RoundDirection,
)
    ensures
        spec_deposit_single_token_type(
            0,
            swap_token_a_amount,
            swap_token_b_amount,
            pool_supply,
            trade_direction,
            round_direction,
        ) == Some(0u128),
        spec_withdraw_single_token_type_exact_out(
            0,
            swap_token_a_amount,
            swap_token_b_amount,
            pool_supply,
            trade_direction,
            round_direction,
        ) == Some(0u128),
{
}

/// On one pool, the pool tokens minted for a deposit of an amount are never
/// more than the pool tokens burned for a withdrawal of the same amount,
/// whichever way each is rounded. So the tokens minted for a deposit cannot
/// pay for a withdrawal of more than was deposited at that price.
pub proof fn lemma_deposit_at_most_withdrawal(
    source_amount: u128,
    swap_token_a_amount: u128,
    swap_token_b_amount: u128,
    pool_supply: u128,
    trade_direction: TradeDirection,
    deposit_rounding: RoundDirection,
    withdraw_rounding: RoundDirection,
)
    requires
        spec_deposit_single_token_type(
            source_amount,
            swap_token_a_amount,
            swap_token_b_amount,
            pool_supply,
            trade_direction,
            deposit_rounding,
        ) is Some,
        spec_withdraw_single_token_type_exact_out(
            source_amount,
            swap_token_a_amount,
            swap_token_b_amount,
            pool_supply,
            trade_direction,
            withdraw_rounding,
        ) is Some,
    ensures
        spec_deposit_single_token_type(
            source_amount,
            swap_token_a_amount,
            swap_token_b_amount,
            pool_supply,
            trade_direction,
            deposit_rounding,
        )->0 <= spec_withdraw_single_token_type_exact_out(
            source_amount,
            swap_token_a_amount,
            swap_token_b_amount,
            pool_supply,
            trade_direction,
            withdraw_rounding,
        )->0,
{
    if source_amount != 0 {
        // Both subtractions succeed only where the root is exactly one, and
        // then both factors are zero.
        let supply = (pool_supply * ONE) as nat;
        assert(supply * 0 == 0) by (nonlinear_arith);
        assert(spec_mul(supply, 0) == Some(0nat));
        assert(spec_round(0, deposit_rounding) == Some(0u128));
    }
}

} // verus!
