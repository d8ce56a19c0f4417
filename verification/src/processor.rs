//! What the four instructions of the pool decide: which requests are
//! refused and why, and which amounts are moved, minted and burned. Moving
//! tokens is left to the caller; the functions here work on plain values
//! read from the accounts.

use crate::address::{authority_key, find_authority, found_program_address, program_address};
use crate::curve::base::SwapCurve;
use crate::curve::constant_product::{lemma_swap_reserves, swap_defined};
use crate::curve::calculator::{
    spec_validate_supply, CurveCalculator, RoundDirection, TradeDirection, TradingTokenResult,
    INITIAL_SWAP_POOL_AMOUNT,
};
use crate::curve::fees::CurveFees;
use crate::error::SwapError;
use crate::state::{
    build_curve, build_fees, same_key, spec_build_curve, spec_build_fees, Amm, CurveInput,
    FeeInput, Key, Mint, TokenAccount,
};
use vstd::prelude::*;

verus! {

/// Whether an optional address is there and is `key`.
pub open spec fn spec_holds_key(holder: Option<Key>, key: Key) -> bool {
    match holder {
        Some(held) => held@ == key@,
        None => false,
    }
}

/// Whether an optional address is there and is `key`.
fn holds_key(holder: &Option<Key>, key: &Key) -> (r: bool)
    ensures
        r == spec_holds_key(*holder, *key),
{
    match holder {
        Some(held) => same_key(held, key),
        None => false,
    }
}

/// A 128-bit amount as a 64-bit one, or the failure of the conversion.
pub open spec fn spec_to_u64(amount: u128) -> Result<u64, SwapError> {
    if amount <= u64::MAX {
        Ok(amount as u64)
    } else {
        Err(SwapError::ConversionFailure)
    }
}

/// Narrows an amount to 64 bits, and fails where it does not fit.
pub fn to_u64(amount: u128) -> (r: Result<u64, SwapError>)
    ensures
        r == spec_to_u64(amount),
{
    if amount > u64::MAX as u128 {
        Err(SwapError::ConversionFailure)
    } else {
        Ok(amount as u64)
    }
}

/// The accounts of the instruction that creates a pool.
#[derive(Debug, Clone, Copy, PartialEq, Eq)]
pub struct Initialize {
    /// The program that runs the instruction
    pub program_id: Key,
    /// The authority given for the pool
    pub authority: Key,
    /// The address of the pool's state
    pub amm_key: Key,
    /// The state of the pool to create
    pub amm: Amm,
    /// The mint of the pool tokens
    pub pool_mint: Mint,
    /// The pool's account of token A
    pub token_a: TokenAccount,
    /// The pool's account of token B
    pub token_b: TokenAccount,
    /// The account that will collect the fees
    pub fee_account: TokenAccount,
    /// The account that receives the first pool tokens
    pub destination: TokenAccount,
    /// The token program
    pub token_program: Key,
}

impl Initialize {
    /// The first reason, in the order of the checks, to refuse the accounts
    /// handed in for a new pool.
    pub open spec fn spec_validate_input_accounts(&self, swap_authority: Seq<u8>) -> Result<
        (),
        SwapError,
    > {
        if self.amm.is_initialized {
            Err(SwapError::AlreadyInUse)
        } else if self.authority@ != swap_authority {
            Err(SwapError::InvalidProgramAddress)
        } else if self.authority@ != self.token_a.owner@ || self.authority@
            != self.token_b.owner@ {
            Err(SwapError::InvalidOwner)
        } else if self.authority@ == self.fee_account.owner@ && self.authority@
            == self.destination.owner@ {
            Err(SwapError::InvalidOuputOwner)
        } else if !spec_holds_key(self.pool_mint.mint_authority, self.authority) {
            Err(SwapError::InvalidOwner)
        } else if self.token_a.mint@ == self.token_b.mint@ {
            Err(SwapError::RepeatedMint)
        } else if self.token_a.delegate is Some || self.token_b.delegate is Some {
            Err(SwapError::InvalidDelegate)
        } else if self.token_a.close_authority is Some || self.token_b.close_authority is Some {
            Err(SwapError::InvalidCloseAuthority)
        } else if self.pool_mint.supply != 0 {
            Err(SwapError::InvalidSupply)
        } else if self.pool_mint.freeze_authority is Some {
            Err(SwapError::InvalidFreezeAuthority)
        } else if self.pool_mint.key@ != self.fee_account.mint@ {
            Err(SwapError::IncorrectPoolMint)
        } else {
            Ok(())
        }
    }

    /// The curve of a new pool, or the first reason to refuse its curve,
    /// its reserves or its fees.
    pub open spec fn spec_validate_amm_fees_and_curve(
        &self,
        fees_input: FeeInput,
        curve_input: CurveInput,
    ) -> Result<SwapCurve, SwapError> {
        match spec_build_curve(curve_input) {
            Err(e) => Err(e),
            Ok(curve) => match spec_validate_supply(self.token_a.amount, self.token_b.amount) {
                Err(e) => Err(e),
                Ok(_) => if !spec_build_fees(fees_input).spec_valid() {
                    Err(SwapError::InvalidFees)
                } else {
                    match curve.calculator.spec_validate() {
                        Err(e) => Err(e),
                        Ok(_) => Ok(curve),
                    }
                },
            },
        }
    }

    /// The state of the pool once it is created.
    pub open spec fn spec_created_state(
        &self,
        bump_seed: u8,
        curve_input: CurveInput,
        fee_input: FeeInput,
    ) -> Amm {
        Amm {
            is_initialized: true,
            bump_seed,
            token_program_id: self.token_program,
            token_a_account: self.token_a.key,
            token_b_account: self.token_b.key,
            pool_mint: self.pool_mint.key,
            token_a_mint: self.token_a.mint,
            token_b_mint: self.token_b.mint,
            pool_fee_account: self.fee_account.key,
            fees: fee_input,
            curve: curve_input,
        }
    }

    /// Checks the accounts handed in for a new pool.
    ///
    /// The pool must be new and its authority the derived one. The
    /// authority must own both token accounts and be the mint authority of
    /// the pool mint, and must not own both the fee account and the
    /// destination. The two tokens must differ and their accounts be free
    /// of delegates and close authorities. The pool mint must be unused,
    /// without freeze authority, and be the mint of the fee account.
    pub fn validate_input_accounts(&self, swap_authority: Key) -> (r: Result<(), SwapError>)
        ensures
            r == self.spec_validate_input_accounts(swap_authority@),
    {
        if self.amm.is_initialized {
            return Err(SwapError::AlreadyInUse);
        }
        if !same_key(&self.authority, &swap_authority) {
            return Err(SwapError::InvalidProgramAddress);
        }
        if !same_key(&self.authority, &self.token_a.owner) || !same_key(
            &self.authority,
            &self.token_b.owner,
        ) {
            return Err(SwapError::InvalidOwner);
        }
        if same_key(&self.authority, &self.fee_account.owner) && same_key(
            &self.authority,
            &self.destination.owner,
        ) {
            return Err(SwapError::InvalidOuputOwner);
        }
        if !holds_key(&self.pool_mint.mint_authority, &self.authority) {
            return Err(SwapError::InvalidOwner);
        }
        if same_key(&self.token_a.mint, &self.token_b.mint) {
            return Err(SwapError::RepeatedMint);
        }
        if self.token_a.delegate.is_some() || self.token_b.delegate.is_some() {
            return Err(SwapError::InvalidDelegate);
        }
        if self.token_a.close_authority.is_some() || self.token_b.close_authority.is_some() {
            return Err(SwapError::InvalidCloseAuthority);
        }
        if self.pool_mint.supply != 0 {
            return Err(SwapError::InvalidSupply);
        }
        if self.pool_mint.freeze_authority.is_some() {
            return Err(SwapError::InvalidFreezeAuthority);
        }
        if !same_key(&self.pool_mint.key, &self.fee_account.mint) {
            return Err(SwapError::IncorrectPoolMint);
        }
        Ok(())
    }

    /// Sets the state of the pool to that of a created pool and returns the
    /// number of pool tokens to mint to the destination.
    pub fn mint_create_state_account(
        &mut self,
        bump_seed: u8,
        curve_input: CurveInput,
        fee_input: FeeInput,
        curve: &SwapCurve,
    ) -> (initial_amount: u64)
        ensures
            initial_amount == INITIAL_SWAP_POOL_AMOUNT,
            *final(self) == (Initialize {
                amm: old(self).spec_created_state(bump_seed, curve_input, fee_input),
                ..*old(self)
            }),
    {
        let initial_amount = curve.calculator.new_supply_pool();

        self.amm.is_initialized = true;
        self.amm.bump_seed = bump_seed;
        self.amm.token_program_id = self.token_program;
        self.amm.token_a_account = self.token_a.key;
        self.amm.token_b_account = self.token_b.key;
        self.amm.pool_mint = self.pool_mint.key;
        self.amm.token_a_mint = self.token_a.mint;
        self.amm.token_b_mint = self.token_b.mint;
        self.amm.pool_fee_account = self.fee_account.key;
        self.amm.fees = fee_input;
        self.amm.curve = curve_input;

        initial_amount as u64
    }

    /// Builds the curve of a new pool and checks it, the reserves and the
    /// fees: the curve must have a calculator, both reserves must hold
    /// something, and no fee may be above one hundred percent.
    pub fn validate_amm_fees_and_curve(&self, fees_input: &FeeInput, curve_input: &CurveInput) -> (r:
        Result<SwapCurve, SwapError>)
        ensures
            r == self.spec_validate_amm_fees_and_curve(*fees_input, *curve_input),
    {
        let curve = match build_curve(curve_input) {
            Ok(curve) => curve,
            Err(e) => { return Err(e); },
        };
        match curve.calculator.validate_supply(self.token_a.amount, self.token_b.amount) {
            Ok(_) => {},
            Err(e) => { return Err(e); },
        }
        let fees = match build_fees(fees_input) {
            Ok(fees) => fees,
            Err(e) => { return Err(e); },
        };
        match fees.validate() {
            Ok(_) => {},
            Err(e) => { return Err(e); },
        }
        match curve.calculator.validate() {
            Ok(_) => {},
            Err(e) => { return Err(e); },
        }
        Ok(curve)
    }
}

/// What creating a pool comes to, or why it is refused: the authority of
/// the pool is derived first, then the curve, the reserves and the fees are
/// checked, and the accounts last. Success gives the bump seed of the
/// authority.
pub open spec fn spec_initialize(accounts: Initialize, fees_input: FeeInput, curve_input: CurveInput)
    -> Result<u8, SwapError> {
    match found_program_address(accounts.amm_key@, accounts.program_id@) {
        None => Err(SwapError::InvalidProgramAddress),
        Some((swap_authority, bump_seed)) => match accounts.spec_validate_amm_fees_and_curve(
            fees_input,
            curve_input,
        ) {
            Err(e) => Err(e),
            Ok(_) => match accounts.spec_validate_input_accounts(swap_authority) {
                Err(e) => Err(e),
                Ok(_) => Ok(bump_seed),
            },
        },
    }
}

/// Creates a pool: derives its authority, checks the curve, the fees and
/// the accounts, and sets the state of the pool.
///
/// On success the caller mints the returned number of pool tokens to the
/// destination, signing with the bump seed now in the state, and stores the
/// state. A refused request leaves the accounts as they were.
pub fn initialize(accounts: &mut Initialize, fees_input: FeeInput, curve_input: CurveInput) -> (r:
    Result<u64, SwapError>)
    ensures
        match spec_initialize(*old(accounts), fees_input, curve_input) {
            Ok(bump_seed) => {
                &&& r == Ok::<u64, SwapError>(INITIAL_SWAP_POOL_AMOUNT as u64)
                &&& *final(accounts) == (Initialize {
                    amm: old(accounts).spec_created_state(bump_seed, curve_input, fees_input),
                    ..*old(accounts)
                })
                &&& program_address(old(accounts).amm_key@, bump_seed, old(accounts).program_id@)
                    == Some(old(accounts).authority@)
            },
            Err(e) => r == Err::<u64, SwapError>(e) && *final(accounts) == *old(accounts),
        },
{
    let (swap_authority, bump_seed) = match find_authority(
        &accounts.program_id,
        &accounts.amm_key,
    ) {
        Some(found) => found,
        None => { return Err(SwapError::InvalidProgramAddress); },
    };
    let curve = match accounts.validate_amm_fees_and_curve(&fees_input, &curve_input) {
        Ok(curve) => curve,
        Err(e) => { return Err(e); },
    };
    match accounts.validate_input_accounts(swap_authority) {
        Ok(_) => {},
        Err(e) => { return Err(e); },
    }
    let initial_amount = accounts.mint_create_state_account(
        bump_seed,
        curve_input,
        fees_input,
        &curve,
    );
    Ok(initial_amount)
}

/// The accounts of the instruction that swaps one token for the other.
#[derive(Debug, Clone, Copy, PartialEq, Eq)]
pub struct Swap {
    /// The program that runs the instruction
    pub program_id: Key,
    /// The program that owns the account of the pool's state
    pub amm_owner: Key,
    /// The address of the pool's state
    pub amm_key: Key,
    /// The state of the pool
    pub amm: Amm,
    /// The authority given for the pool
    pub authority: Key,
    /// The account the trader pays from
    pub source_info: Key,
    /// The account the trader is paid into
    pub destination_info: Key,
    /// The account handed in as the source of the swap
    pub swap_source: TokenAccount,
    /// The account handed in as the destination of the swap
    pub swap_destination: TokenAccount,
    /// The mint of the pool tokens
    pub pool_mint: Mint,
    /// The token program
    pub token_program: Key,
    /// The account that collects the host fee
    pub host_fee_account: Key,
}

/// What a swap moves: the direction, what the trader receives, and the
/// fees, in destination tokens, that become pool tokens.
#[derive(Debug, Clone, Copy, PartialEq, Eq, Structural)]
pub struct SwapAmounts {
    /// Which token the trader pays with
    pub trade_direction: TradeDirection,
    /// What the trader receives, after all fees
    pub output_amount: u64,
    /// The fee that stays in the pool
    pub trade_fee: u128,
    /// The owner's fee, less the host's share
    pub owner_fee: u128,
    /// The host's share of the owner's fee
    pub host_fee: u128,
}

/// The host's share of an owner fee: nothing of nothing.
pub open spec fn spec_host_share(fees: CurveFees, owner_fee: u128) -> Option<u128> {
    if owner_fee > 0 {
        fees.spec_host_fee(owner_fee)
    } else {
        Some(0)
    }
}

/// What the trader receives for `amount_in`, and the fees on it.
///
/// The curve swaps the whole amount without fees. The trading fee and the
/// owner fee are then taken on the destination amount, the host's share is
/// split off the owner fee, and what is left after the trading fee and the
/// owner's remaining fee goes to the trader, who must get at least
/// `minimum_amount_out`.
pub open spec fn spec_swap_amounts(
    curve: SwapCurve,
    fees: CurveFees,
    amount_in: u64,
    minimum_amount_out: u64,
    swap_source_amount: u64,
    swap_destination_amount: u64,
    trade_direction: TradeDirection,
) -> Result<SwapAmounts, SwapError> {
    match curve.calculator.spec_swap_without_token_fees(
        amount_in as u128,
        swap_source_amount as u128,
        swap_destination_amount as u128,
        trade_direction,
    ) {
        None => Err(SwapError::ZeroTradingTokens),
        Some(swapped) => match (
            fees.spec_trading_fee(swapped.destination_amount_swapped),
            fees.spec_owner_trading_fee(swapped.destination_amount_swapped),
        ) {
            (Some(trade_fee), Some(whole_owner_fee)) => match spec_host_share(
                fees,
                whole_owner_fee,
            ) {
                Some(host_fee) => if host_fee > whole_owner_fee || trade_fee + whole_owner_fee
                    - host_fee > swapped.destination_amount_swapped {
                    Err(SwapError::FeeCalculationFailure)
                } else {
                    let owner_fee = (whole_owner_fee - host_fee) as u128;
                    let left = (swapped.destination_amount_swapped - trade_fee
                        - owner_fee) as u128;
                    match spec_to_u64(left) {
                        Err(e) => Err(e),
                        Ok(output_amount) => if output_amount < minimum_amount_out {
                            Err(SwapError::ExceededSlippage)
                        } else {
                            Ok(
                                SwapAmounts {
                                    trade_direction,
                                    output_amount,
                                    trade_fee,
                                    owner_fee,
                                    host_fee,
                                },
                            )
                        },
                    }
                },
                None => Err(SwapError::FeeCalculationFailure),
            },
            _ => Err(SwapError::FeeCalculationFailure),
        },
    }
}

/// The pool tokens minted for a fee: what a deposit of the fee alone,
/// rounded down, is worth. A fee of zero mints nothing; a fee whose deposit
/// has no value fails with `failure`.
pub open spec fn spec_fee_pool_tokens(
    curve: SwapCurve,
    fee: u128,
    swap_source_amount: u64,
    swap_destination_amount: u64,
    pool_supply: u64,
    trade_direction: TradeDirection,
    failure: SwapError,
) -> Result<Option<u64>, SwapError> {
    if fee == 0 {
        Ok(None)
    } else {
        match curve.calculator.spec_deposit_single_token_type(
            fee,
            swap_source_amount as u128,
            swap_destination_amount as u128,
            pool_supply as u128,
            trade_direction,
            RoundDirection::Floor,
        ) {
            None => Err(failure),
            Some(pool_tokens) => match spec_to_u64(pool_tokens) {
                Ok(amount) => Ok(Some(amount)),
                Err(e) => Err(e),
            },
        }
    }
}

/// Computes [`spec_swap_amounts`].
fn swap_amounts(
    curve: &SwapCurve,
    fees: &CurveFees,
    amount_in: u64,
    minimum_amount_out: u64,
    swap_source_amount: u64,
    swap_destination_amount: u64,
    trade_direction: TradeDirection,
) -> (r: Result<SwapAmounts, SwapError>)
    ensures
        r == spec_swap_amounts(
            *curve,
            *fees,
            amount_in,
            minimum_amount_out,
            swap_source_amount,
            swap_destination_amount,
            trade_direction,
        ),
{
    let result = match curve.calculator.swap_without_token_fees(
        amount_in as u128,
        swap_source_amount as u128,
        swap_destination_amount as u128,
        trade_direction,
    ) {
        Some(result) => result,
        None => { return Err(SwapError::ZeroTradingTokens); },
    };
    let trade_fee = match fees.trading_fee(result.destination_amount_swapped) {
        Some(fee) => fee,
        None => { return Err(SwapError::FeeCalculationFailure); },
    };
    let mut owner_fee = match fees.owner_trading_fee(result.destination_amount_swapped) {
        Some(fee) => fee,
        None => { return Err(SwapError::FeeCalculationFailure); },
    };
    let host_fee = if owner_fee > 0 {
        match fees.host_fee(owner_fee) {
            Some(fee) => fee,
            None => { return Err(SwapError::FeeCalculationFailure); },
        }
    } else {
        0
    };
    if host_fee > 0 {
        owner_fee = match owner_fee.checked_sub(host_fee) {
            Some(fee) => fee,
            None => { return Err(SwapError::FeeCalculationFailure); },
        };
    }
    let total_fees = match trade_fee.checked_add(owner_fee) {
        Some(fees) => fees,
        None => { return Err(SwapError::FeeCalculationFailure); },
    };
    let destination_amount_swapped = match result.destination_amount_swapped.checked_sub(
        total_fees,
    ) {
        Some(amount) => amount,
        None => { return Err(SwapError::FeeCalculationFailure); },
    };
    let output_amount = match to_u64(destination_amount_swapped) {
        Ok(amount) => amount,
        Err(e) => { return Err(e); },
    };
    if output_amount < minimum_amount_out {
        return Err(SwapError::ExceededSlippage);
    }
    Ok(SwapAmounts { trade_direction, output_amount, trade_fee, owner_fee, host_fee })
}

/// Computes [`spec_fee_pool_tokens`].
fn fee_pool_tokens(
    curve: &SwapCurve,
    fee: u128,
    swap_source_amount: u64,
    swap_destination_amount: u64,
    pool_supply: u64,
    trade_direction: TradeDirection,
    failure: SwapError,
) -> (r: Result<Option<u64>, SwapError>)
    ensures
        r == spec_fee_pool_tokens(
            *curve,
            fee,
            swap_source_amount,
            swap_destination_amount,
            pool_supply,
            trade_direction,
            failure,
        ),
{
    if fee > 0 {
        let pool_mint_amount = match curve.calculator.deposit_single_token_type(
            fee,
            swap_source_amount as u128,
            swap_destination_amount as u128,
            pool_supply as u128,
            trade_direction,
            RoundDirection::Floor,
        ) {
            Some(amount) => amount,
            None => { return Err(failure); },
        };
        match to_u64(pool_mint_amount) {
            Ok(amount) => Ok(Some(amount)),
            Err(e) => Err(e),
        }
    } else {
        Ok(None)
    }
}

impl Swap {
    /// The first reason, in the order of the checks, to refuse the accounts
    /// handed in for a swap.
    pub open spec fn spec_validate_accounts(&self) -> Result<(), SwapError> {
        if self.amm_owner@ != self.program_id@ {
            Err(SwapError::InvalidOwner)
        } else if program_address(self.amm_key@, self.amm.bump_seed, self.program_id@) != Some(
            self.authority@,
        ) {
            Err(SwapError::InvalidProgramAddress)
        } else if !(self.swap_source.key@ == self.amm.token_a_account@ || self.swap_source.key@
            == self.amm.token_b_account@) {
            Err(SwapError::IncorrectSwapAccount)
        } else if !(self.swap_destination.key@ == self.amm.token_a_account@
            || self.swap_destination.key@ == self.amm.token_b_account@) {
            Err(SwapError::IncorrectSwapAccount)
        } else if self.swap_source.key@ == self.swap_destination.key@ {
            Err(SwapError::InvalidInput)
        } else if self.swap_source.key@ != self.source_info@ {
            Err(SwapError::InvalidInput)
        } else if self.swap_destination.key@ != self.destination_info@ {
            Err(SwapError::InvalidInput)
        } else if self.pool_mint.key@ != self.amm.pool_mint@ {
            Err(SwapError::IncorrectPoolMint)
        } else if self.host_fee_account@ != self.amm.pool_fee_account@ {
            Err(SwapError::IncorrectFeeAccount)
        } else if self.token_program@ != self.amm.token_program_id@ {
            Err(SwapError::IncorrectTokenProgramId)
        } else {
            Ok(())
        }
    }

    /// The direction of the swap: from A to B where the source of the swap
    /// is the pool's account of token A.
    pub open spec fn spec_trade_direction(&self) -> TradeDirection {
        if self.swap_source.key@ == self.amm.token_a_account@ {
            TradeDirection::AtoB
        } else {
            TradeDirection::BtoA
        }
    }

    /// Checks the accounts handed in for a swap.
    ///
    /// The program must own the pool's state and the authority be the one
    /// that the bump seed in the state derives. Source and destination must be the pool's two token
    /// accounts, one each, and the accounts named beside them must be the
    /// same. The pool mint, the fee account and the token program must be
    /// the ones in the pool's state.
    pub fn validate_accounts(&self) -> (r: Result<(), SwapError>)
        ensures
            r == self.spec_validate_accounts(),
    {
        if !same_key(&self.amm_owner, &self.program_id) {
            return Err(SwapError::InvalidOwner);
        }
        match authority_key(&self.program_id, self.amm_key, self.amm.bump_seed) {
            Ok(derived) => {
                if !same_key(&self.authority, &derived) {
                    return Err(SwapError::InvalidProgramAddress);
                }
            },
            Err(e) => { return Err(e); },
        }
        if !(same_key(&self.swap_source.key, &self.amm.token_a_account) || same_key(
            &self.swap_source.key,
            &self.amm.token_b_account,
        )) {
            return Err(SwapError::IncorrectSwapAccount);
        }
        if !(same_key(&self.swap_destination.key, &self.amm.token_a_account) || same_key(
            &self.swap_destination.key,
            &self.amm.token_b_account,
        )) {
            return Err(SwapError::IncorrectSwapAccount);
        }
        if same_key(&self.swap_source.key, &self.swap_destination.key) {
            return Err(SwapError::InvalidInput);
        }
        if !same_key(&self.swap_source.key, &self.source_info) {
            return Err(SwapError::InvalidInput);
        }
        if !same_key(&self.swap_destination.key, &self.destination_info) {
            return Err(SwapError::InvalidInput);
        }
        if !same_key(&self.pool_mint.key, &self.amm.pool_mint) {
            return Err(SwapError::IncorrectPoolMint);
        }
        if !same_key(&self.host_fee_account, &self.amm.pool_fee_account) {
            return Err(SwapError::IncorrectFeeAccount);
        }
        if !same_key(&self.token_program, &self.amm.token_program_id) {
            return Err(SwapError::IncorrectTokenProgramId);
        }
        Ok(())
    }

    /// The direction of the swap.
    pub fn trade_direction(&self) -> (r: TradeDirection)
        ensures
            r == self.spec_trade_direction(),
    {
        if same_key(&self.swap_source.key, &self.amm.token_a_account) {
            TradeDirection::AtoB
        } else {
            TradeDirection::BtoA
        }
    }
}

/// What a swap comes to, or why it is refused: the accounts are checked
/// first, then the stored curve is built, then the amounts are computed.
pub open spec fn spec_swap(accounts: Swap, amount_in: u64, minimum_amount_out: u64) -> Result<
    SwapAmounts,
    SwapError,
> {
    match accounts.spec_validate_accounts() {
        Err(e) => Err(e),
        Ok(_) => match spec_build_curve(accounts.amm.curve) {
            Err(e) => Err(e),
            Ok(curve) => spec_swap_amounts(
                curve,
                spec_build_fees(accounts.amm.fees),
                amount_in,
                minimum_amount_out,
                accounts.swap_source.amount,
                accounts.swap_destination.amount,
                accounts.spec_trade_direction(),
            ),
        },
    }
}

/// The pool tokens minted to the owner for the owner's fee on a swap.
pub open spec fn spec_owner_fee_pool_tokens(accounts: Swap, amounts: SwapAmounts) -> Result<
    Option<u64>,
    SwapError,
> {
    match spec_build_curve(accounts.amm.curve) {
        Err(e) => Err(e),
        Ok(curve) => spec_fee_pool_tokens(
            curve,
            amounts.owner_fee,
            accounts.swap_source.amount,
            accounts.swap_destination.amount,
            accounts.pool_mint.supply,
            amounts.trade_direction,
            SwapError::ZeroOwnerTradeFee,
        ),
    }
}

/// The pool tokens minted to the host for the host's fee on a swap.
pub open spec fn spec_host_fee_pool_tokens(accounts: Swap, amounts: SwapAmounts) -> Result<
    Option<u64>,
    SwapError,
> {
    match spec_build_curve(accounts.amm.curve) {
        Err(e) => Err(e),
        Ok(curve) => spec_fee_pool_tokens(
            curve,
            amounts.host_fee,
            accounts.swap_source.amount,
            accounts.swap_destination.amount,
            accounts.pool_mint.supply,
            amounts.trade_direction,
            SwapError::ZeroHostFee,
        ),
    }
}

/// Swaps `amount_in` of the source token for at least `minimum_amount_out`
/// of the destination token.
///
/// On success the caller moves `amount_in` from the trader into the source
/// of the swap and the output amount from the destination of the swap to
/// the trader, and then mints pool tokens for the owner's and the host's
/// fee as [`owner_fee_pool_tokens`] and [`host_fee_pool_tokens`] say.
pub fn swap(accounts: &Swap, amount_in: u64, minimum_amount_out: u64) -> (r: Result<
    SwapAmounts,
    SwapError,
>)
    ensures
        r == spec_swap(*accounts, amount_in, minimum_amount_out),
        r matches Ok(amounts) ==> {
            &&& amounts.output_amount >= minimum_amount_out
            &&& amounts.output_amount + amounts.trade_fee + amounts.owner_fee
                < accounts.swap_destination.amount
            &&& amounts.trade_direction == accounts.spec_trade_direction()
        },
{
    proof {
        if let Ok(curve) = spec_build_curve(accounts.amm.curve) {
            if swap_defined(
                amount_in as u128,
                accounts.swap_source.amount as u128,
                accounts.swap_destination.amount as u128,
            ) {
                lemma_swap_reserves(
                    amount_in as u128,
                    accounts.swap_source.amount as u128,
                    accounts.swap_destination.amount as u128,
                );
            }
        }
    }
    match accounts.validate_accounts() {
        Ok(_) => {},
        Err(e) => { return Err(e); },
    }
    let trade_direction = accounts.trade_direction();
    let curve = match build_curve(&accounts.amm.curve) {
        Ok(curve) => curve,
        Err(e) => { return Err(e); },
    };
    let fees = match build_fees(&accounts.amm.fees) {
        Ok(fees) => fees,
        Err(e) => { return Err(e); },
    };
    swap_amounts(
        &curve,
        &fees,
        amount_in,
        minimum_amount_out,
        accounts.swap_source.amount,
        accounts.swap_destination.amount,
        trade_direction,
    )
}

/// The pool tokens to mint to the pool's fee account for the owner's fee
/// on a swap: none for no fee, and otherwise what a deposit of the fee,
/// rounded down, is worth.
pub fn owner_fee_pool_tokens(accounts: &Swap, amounts: &SwapAmounts) -> (r: Result<
    Option<u64>,
    SwapError,
>)
    ensures
        r == spec_owner_fee_pool_tokens(*accounts, *amounts),
{
    let curve = match build_curve(&accounts.amm.curve) {
        Ok(curve) => curve,
        Err(e) => { return Err(e); },
    };
    fee_pool_tokens(
        &curve,
        amounts.owner_fee,
        accounts.swap_source.amount,
        accounts.swap_destination.amount,
        accounts.pool_mint.supply,
        amounts.trade_direction,
        SwapError::ZeroOwnerTradeFee,
    )
}

/// The pool tokens to mint to the host's fee account for the host's fee on
/// a swap: none for no fee, and otherwise what a deposit of the fee,
/// rounded down, is worth.
pub fn host_fee_pool_tokens(accounts: &Swap, amounts: &SwapAmounts) -> (r: Result<
    Option<u64>,
    SwapError,
>)
    ensures
        r == spec_host_fee_pool_tokens(*accounts, *amounts),
{
    let curve = match build_curve(&accounts.amm.curve) {
        Ok(curve) => curve,
        Err(e) => { return Err(e); },
    };
    fee_pool_tokens(
        &curve,
        amounts.host_fee,
        accounts.swap_source.amount,
        accounts.swap_destination.amount,
        accounts.pool_mint.supply,
        amounts.trade_direction,
        SwapError::ZeroHostFee,
    )
}

/// The accounts of the instruction that deposits both tokens.
#[derive(Debug, Clone, Copy, PartialEq, Eq)]
pub struct DepositLiquidity {
    /// The state of the pool
    pub amm: Amm,
    /// The pool's account of token A
    pub token_a: TokenAccount,
    /// The pool's account of token B
    pub token_b: TokenAccount,
    /// The mint of the pool tokens
    pub pool_mint: Mint,
}

/// The amounts of both tokens that a deposit moves into the pool.
#[derive(Debug, Clone, Copy, PartialEq, Eq, Structural)]
pub struct DepositAmounts {
    /// Amount of token A to move into the pool
    pub token_a_amount: u64,
    /// Amount of token B to move into the pool
    pub token_b_amount: u64,
}

/// Both amounts of a pair of trading tokens as 64-bit amounts.
pub open spec fn spec_narrow(tokens: TradingTokenResult) -> Result<(u64, u64), SwapError> {
    match (spec_to_u64(tokens.token_a_amount), spec_to_u64(tokens.token_b_amount)) {
        (Ok(a), Ok(b)) => Ok((a, b)),
        _ => Err(SwapError::ConversionFailure),
    }
}

/// What a deposit for `pool_token_amount` pool tokens comes to, or why it
/// is refused.
///
/// Into a pool with pool tokens the depositor pays the share of both
/// reserves that the pool tokens stand for, rounded up, and neither amount
/// may be above its maximum. Into a pool without pool tokens the
/// depositor pays both maximums.
pub open spec fn spec_deposit_liquidity(
    accounts: DepositLiquidity,
    pool_token_amount: u64,
    maximum_token_a_amount: u64,
    maximum_token_b_amount: u64,
) -> Result<DepositAmounts, SwapError> {
    if !accounts.amm.is_initialized {
        Err(SwapError::NotInitialized)
    } else {
        match spec_build_curve(accounts.amm.curve) {
            Err(e) => Err(e),
            Ok(curve) => if accounts.pool_mint.supply > 0 {
                match curve.calculator.spec_pool_tokens_to_trading_tokens(
                    pool_token_amount as u128,
                    accounts.pool_mint.supply as u128,
                    accounts.token_a.amount as u128,
                    accounts.token_b.amount as u128,
                    RoundDirection::Ceil,
                ) {
                    None => Err(SwapError::ZeroTradingTokens),
                    Some(tokens) => match spec_narrow(tokens) {
                        Err(e) => Err(e),
                        Ok((token_a_amount, token_b_amount)) => if token_a_amount
                            > maximum_token_a_amount || token_b_amount > maximum_token_b_amount {
                            Err(SwapError::ExceededSlippage)
                        } else {
                            Ok(DepositAmounts { token_a_amount, token_b_amount })
                        },
                    },
                }
            } else {
                Ok(
                    DepositAmounts {
                        token_a_amount: maximum_token_a_amount,
                        token_b_amount: maximum_token_b_amount,
                    },
                )
            },
        }
    }
}

/// Deposits both tokens for `pool_token_amount` pool tokens.
///
/// On success the caller moves the two amounts from the depositor into the
/// pool and mints `pool_token_amount` pool tokens to the depositor.
pub fn deposit_liquidity(
    accounts: &DepositLiquidity,
    pool_token_amount: u64,
    maximum_token_a_amount: u64,
    maximum_token_b_amount: u64,
) -> (r: Result<DepositAmounts, SwapError>)
    ensures
        r == spec_deposit_liquidity(
            *accounts,
            pool_token_amount,
            maximum_token_a_amount,
            maximum_token_b_amount,
        ),
        r matches Ok(amounts) ==> amounts.token_a_amount <= maximum_token_a_amount
            && amounts.token_b_amount <= maximum_token_b_amount,
{
    if !accounts.amm.is_initialized {
        return Err(SwapError::NotInitialized);
    }
    let curve = match build_curve(&accounts.amm.curve) {
        Ok(curve) => curve,
        Err(e) => { return Err(e); },
    };

    let current_pool_mint_supply = accounts.pool_mint.supply as u128;
    let (token_a_amount, token_b_amount) = if current_pool_mint_supply > 0 {
        let tokens = match curve.calculator.pool_tokens_to_trading_tokens(
            pool_token_amount as u128,
            accounts.pool_mint.supply as u128,
            accounts.token_a.amount as u128,
            accounts.token_b.amount as u128,
            RoundDirection::Ceil,
        ) {
            Some(tokens) => tokens,
            None => { return Err(SwapError::ZeroTradingTokens); },
        };

        let token_a_amount = match to_u64(tokens.token_a_amount) {
            Ok(amount) => amount,
            Err(e) => { return Err(e); },
        };
        let token_b_amount = match to_u64(tokens.token_b_amount) {
            Ok(amount) => amount,
            Err(e) => { return Err(e); },
        };

        if token_a_amount > maximum_token_a_amount {
            return Err(SwapError::ExceededSlippage);
        }
        if token_b_amount > maximum_token_b_amount {
            return Err(SwapError::ExceededSlippage);
        }

        (token_a_amount, token_b_amount)
    } else {
        (maximum_token_a_amount, maximum_token_b_amount)
    };
    Ok(DepositAmounts { token_a_amount, token_b_amount })
}

/// The accounts of the instruction that withdraws both tokens.
#[derive(Debug, Clone, Copy, PartialEq, Eq)]
pub struct WithdrawLiquidity {
    /// The state of the pool
    pub amm: Amm,
    /// The pool's account of token A
    pub token_a: TokenAccount,
    /// The pool's account of token B
    pub token_b: TokenAccount,
    /// The mint of the pool tokens
    pub pool_mint: Mint,
}

/// The amounts that a withdrawal burns, mints and moves out of the pool.
#[derive(Debug, Clone, Copy, PartialEq, Eq, Structural)]
pub struct WithdrawAmounts {
    /// Pool tokens to mint to the fee account, out of those burned
    pub withdraw_fee: u64,
    /// Amount of token A to move out of the pool
    pub token_a_amount: u64,
    /// Amount of token B to move out of the pool
    pub token_b_amount: u64,
}

/// What a withdrawal of `pool_token_amount` pool tokens comes to, or why
/// it is refused.
///
/// The owner's withdrawal fee is taken off the pool tokens. The rest
/// stands for a share of both reserves, rounded down, and neither amount
/// may be below its minimum.
pub open spec fn spec_withdraw_liquidity(
    accounts: WithdrawLiquidity,
    pool_token_amount: u64,
    minimum_token_a_amount: u64,
    minimum_token_b_amount: u64,
) -> Result<WithdrawAmounts, SwapError> {
    if !accounts.amm.is_initialized {
        Err(SwapError::NotInitialized)
    } else {
        match spec_build_curve(accounts.amm.curve) {
            Err(e) => Err(e),
            Ok(curve) => match spec_build_fees(accounts.amm.fees).spec_owner_withdraw_fee(
                pool_token_amount as u128,
            ) {
                None => Err(SwapError::FeeCalculationFailure),
                Some(withdraw_fee) => if withdraw_fee > pool_token_amount {
                    Err(SwapError::FeeCalculationFailure)
                } else {
                    match curve.calculator.spec_pool_tokens_to_trading_tokens(
                        (pool_token_amount - withdraw_fee) as u128,
                        accounts.pool_mint.supply as u128,
                        accounts.token_a.amount as u128,
                        accounts.token_b.amount as u128,
                        RoundDirection::Floor,
                    ) {
                        None => Err(SwapError::ZeroTradingTokens),
                        Some(tokens) => match spec_narrow(tokens) {
                            Err(e) => Err(e),
                            Ok((token_a_amount, token_b_amount)) => if token_a_amount
                                < minimum_token_a_amount || token_b_amount
                                < minimum_token_b_amount {
                                Err(SwapError::ExceededSlippage)
                            } else {
                                Ok(
                                    WithdrawAmounts {
                                        withdraw_fee: withdraw_fee as u64,
                                        token_a_amount,
                                        token_b_amount,
                                    },
                                )
                            },
                        },
                    }
                },
            },
        }
    }
}

/// Withdraws both tokens for `pool_token_amount` pool tokens.
///
/// On success the caller burns `pool_token_amount` pool tokens of the
/// withdrawer, mints the withdrawal fee to the fee account where it is not
/// zero, and moves the two amounts out of the pool.
pub fn withdraw_liquidity(
    accounts: &WithdrawLiquidity,
    pool_token_amount: u64,
    minimum_token_a_amount: u64,
    minimum_token_b_amount: u64,
) -> (r: Result<WithdrawAmounts, SwapError>)
    ensures
        r == spec_withdraw_liquidity(
            *accounts,
            pool_token_amount,
            minimum_token_a_amount,
            minimum_token_b_amount,
        ),
        r matches Ok(amounts) ==> {
            &&& amounts.token_a_amount >= minimum_token_a_amount
            &&& amounts.token_b_amount >= minimum_token_b_amount
            &&& amounts.withdraw_fee <= pool_token_amount
        },
{
    if !accounts.amm.is_initialized {
        return Err(SwapError::NotInitialized);
    }
    let curve = match build_curve(&accounts.amm.curve) {
        Ok(curve) => curve,
        Err(e) => { return Err(e); },
    };
    let fees = match build_fees(&accounts.amm.fees) {
        Ok(fees) => fees,
        Err(e) => { return Err(e); },
    };

    let withdraw_fee = match fees.owner_withdraw_fee(pool_token_amount as u128) {
        Some(fee) => fee,
        None => { return Err(SwapError::FeeCalculationFailure); },
    };
    let pool_token_amount_after_fee = match (pool_token_amount as u128).checked_sub(withdraw_fee) {
        Some(amount) => amount,
        None => { return Err(SwapError::FeeCalculationFailure); },
    };

    let tokens = match curve.calculator.pool_tokens_to_trading_tokens(
        pool_token_amount_after_fee,
        accounts.pool_mint.supply as u128,
        accounts.token_a.amount as u128,
        accounts.token_b.amount as u128,
        RoundDirection::Floor,
    ) {
        Some(tokens) => tokens,
        None => { return Err(SwapError::ZeroTradingTokens); },
    };

    let token_a_amount = match to_u64(tokens.token_a_amount) {
        Ok(amount) => amount,
        Err(e) => { return Err(e); },
    };
    let token_b_amount = match to_u64(tokens.token_b_amount) {
        Ok(amount) => amount,
        Err(e) => { return Err(e); },
    };

    if token_a_amount < minimum_token_a_amount {
        return Err(SwapError::ExceededSlippage);
    }
    if token_b_amount < minimum_token_b_amount {
        return Err(SwapError::ExceededSlippage);
    }
    Ok(WithdrawAmounts { withdraw_fee: withdraw_fee as u64, token_a_amount, token_b_amount })
}

} // verus!
