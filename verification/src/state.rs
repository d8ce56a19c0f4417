//! The stored state of a pool and the plain values that the instructions
//! read from the accounts handed to them.

use crate::curve::base::{Calculator, CurveType, SwapCurve};
use crate::curve::constant_product::ConstantProductCurve;
use crate::curve::fees::CurveFees;
use crate::error::SwapError;
use vstd::prelude::*;

verus! {

/// The address of an account: thirty-two bytes.
pub type Key = [u8; 32];

/// Whether two addresses are the same.
pub fn same_key(a: &Key, b: &Key) -> (r: bool)
    ensures
        r == (a@ == b@),
{
    let mut i: usize = 0;
    while i < 32
        invariant
            i <= 32,
            forall|j: int| 0 <= j < i ==> a@[j] == b@[j],
        decreases 32 - i,
    {
        if a[i] != b[i] {
            return false;
        }
        i += 1;
    }
    assert(a@ =~= b@);
    true
}

/// The fee schedule as it is handed in and stored: eight numbers.
#[derive(Debug, Clone, Copy, PartialEq, Eq, Structural)]
pub struct FeeInput {
    /// Trade fee numerator
    pub trade_fee_numerator: u64,
    /// Trade fee denominator
    pub trade_fee_denominator: u64,
    /// Owner trade fee numerator
    pub owner_trade_fee_numerator: u64,
    /// Owner trade fee denominator
    pub owner_trade_fee_denominator: u64,
    /// Owner withdraw fee numerator
    pub owner_withdraw_fee_numerator: u64,
    /// Owner withdraw fee denominator
    pub owner_withdraw_fee_denominator: u64,
    /// Host fee numerator
    pub host_fee_numerator: u64,
    /// Host fee denominator
    pub host_fee_denominator: u64,
}

impl Default for FeeInput {
    /// Every rate switched off.
    fn default() -> (r: Self)
        ensures
            r == (FeeInput {
                trade_fee_numerator: 0,
                trade_fee_denominator: 0,
                owner_trade_fee_numerator: 0,
                owner_trade_fee_denominator: 0,
                owner_withdraw_fee_numerator: 0,
                owner_withdraw_fee_denominator: 0,
                host_fee_numerator: 0,
                host_fee_denominator: 0,
            }),
    {
        FeeInput {
            trade_fee_numerator: 0,
            trade_fee_denominator: 0,
            owner_trade_fee_numerator: 0,
            owner_trade_fee_denominator: 0,
            owner_withdraw_fee_numerator: 0,
            owner_withdraw_fee_denominator: 0,
            host_fee_numerator: 0,
            host_fee_denominator: 0,
        }
    }
}

/// The fee schedule that a fee input stands for: the same eight numbers.
pub open spec fn spec_build_fees(fee_input: FeeInput) -> CurveFees {
    CurveFees {
        trade_fee_numerator: fee_input.trade_fee_numerator,
        trade_fee_denominator: fee_input.trade_fee_denominator,
        owner_trade_fee_numerator: fee_input.owner_trade_fee_numerator,
        owner_trade_fee_denominator: fee_input.owner_trade_fee_denominator,
        owner_withdraw_fee_numerator: fee_input.owner_withdraw_fee_numerator,
        owner_withdraw_fee_denominator: fee_input.owner_withdraw_fee_denominator,
        host_fee_numerator: fee_input.host_fee_numerator,
        host_fee_denominator: fee_input.host_fee_denominator,
    }
}

/// Builds the fee schedule from its input. It does not validate it.
pub fn build_fees(fee_input: &FeeInput) -> (r: Result<CurveFees, SwapError>)
    ensures
        r == Ok::<CurveFees, SwapError>(spec_build_fees(*fee_input)),
{
    let fees = CurveFees {
        trade_fee_numerator: fee_input.trade_fee_numerator,
        trade_fee_denominator: fee_input.trade_fee_denominator,
        owner_trade_fee_numerator: fee_input.owner_trade_fee_numerator,
        owner_trade_fee_denominator: fee_input.owner_trade_fee_denominator,
        owner_withdraw_fee_numerator: fee_input.owner_withdraw_fee_numerator,
        owner_withdraw_fee_denominator: fee_input.owner_withdraw_fee_denominator,
        host_fee_numerator: fee_input.host_fee_numerator,
        host_fee_denominator: fee_input.host_fee_denominator,
    };
    Ok(fees)
}

/// The curve as it is handed in and stored: the tag of its type and a
/// parameter field that no curve uses yet.
#[derive(Debug, Clone, Copy, PartialEq, Eq, Structural)]
pub struct CurveInput {
    /// 0 for constant product, 1 for constant price, 2 for constant
    /// product with offset
    pub curve_type: u8,
    /// Reserved
    pub curve_params: u64,
}

impl Default for CurveInput {
    /// The constant-product curve.
    fn default() -> (r: Self)
        ensures
            r == (CurveInput { curve_type: 0, curve_params: 0 }),
    {
        CurveInput { curve_type: 0, curve_params: 0 }
    }
}

/// The swap curve that a curve input stands for. A tag that names no curve
/// type is an invalid argument; a curve type without a calculator is
/// refused as unsupported.
pub open spec fn spec_build_curve(curve_input: CurveInput) -> Result<SwapCurve, SwapError> {
    match CurveType::spec_from_tag(curve_input.curve_type) {
        Ok(CurveType::ConstantProduct) => Ok(
            SwapCurve {
                curve_type: CurveType::ConstantProduct,
                calculator: Calculator::ConstantProduct(ConstantProductCurve),
            },
        ),
        Ok(_) => Err(SwapError::UnsupportedCurveType),
        Err(e) => Err(e),
    }
}

/// Builds the swap curve with the calculator that the tag selects.
pub fn build_curve(curve_input: &CurveInput) -> (r: Result<SwapCurve, SwapError>)
    ensures
        r == spec_build_curve(*curve_input),
        r matches Ok(curve) ==> curve.wf(),
{
    let curve_type = match CurveType::try_from(curve_input.curve_type) {
        Ok(t) => t,
        Err(e) => { return Err(e); },
    };
    let calculator = match curve_type {
        CurveType::ConstantProduct => Calculator::ConstantProduct(ConstantProductCurve {  }),
        CurveType::ConstantPrice => { return Err(SwapError::UnsupportedCurveType); },
        CurveType::ConstantProductWithOffset => { return Err(SwapError::UnsupportedCurveType); },
    };
    let curve = SwapCurve { curve_type, calculator };
    Ok(curve)
}

/// The state of a pool.
#[derive(Debug, Clone, Copy, PartialEq, Eq)]
pub struct Amm {
    /// Whether the pool was created
    pub is_initialized: bool,
    /// The seed that, with the pool's address, gives its authority
    pub bump_seed: u8,
    /// The token program that moves the pool's tokens
    pub token_program_id: Key,
    /// Token A liquidity account
    pub token_a_account: Key,
    /// Token B liquidity account
    pub token_b_account: Key,
    /// Mint of the pool tokens
    pub pool_mint: Key,
    /// Mint of token A
    pub token_a_mint: Key,
    /// Mint of token B
    pub token_b_mint: Key,
    /// Account that collects the fees
    pub pool_fee_account: Key,
    /// Fees associated with swap
    pub fees: FeeInput,
    /// Curve associated with swap
    pub curve: CurveInput,
}

/// What the instructions read of a token account.
#[derive(Debug, Clone, Copy, PartialEq, Eq)]
pub struct TokenAccount {
    /// The address of the account
    pub key: Key,
    /// The mint of the token it holds
    pub mint: Key,
    /// Who may move the tokens
    pub owner: Key,
    /// How many tokens it holds
    pub amount: u64,
    /// Who else may move some of the tokens, if anyone
    pub delegate: Option<Key>,
    /// Who may close the account, if not the owner
    pub close_authority: Option<Key>,
}

/// What the instructions read of a mint.
#[derive(Debug, Clone, Copy, PartialEq, Eq)]
pub struct Mint {
    /// The address of the mint
    pub key: Key,
    /// Who may mint, if anyone
    pub mint_authority: Option<Key>,
    /// How many tokens exist
    pub supply: u64,
    /// Who may freeze accounts, if anyone
    pub freeze_authority: Option<Key>,
}

} // verus!
