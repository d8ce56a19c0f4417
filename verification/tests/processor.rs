use dexy::address::find_authority;
use dexy::curve::calculator::TradeDirection;
use dexy::processor::{
    deposit_liquidity, host_fee_pool_tokens, initialize, owner_fee_pool_tokens, swap, to_u64,
    withdraw_liquidity, DepositAmounts, SwapAmounts, WithdrawAmounts,
};
use dexy::state::{Key, Mint, TokenAccount};
use dexy::{Amm, CurveInput, DepositLiquidity, FeeInput, Initialize, Swap, SwapError, WithdrawLiquidity};

const PROGRAM: Key = [1; 32];
const AMM: Key = [2; 32];
const TOKEN_PROGRAM: Key = [3; 32];
const ACCOUNT_A: Key = [4; 32];
const ACCOUNT_B: Key = [5; 32];
const POOL_MINT: Key = [6; 32];
const MINT_A: Key = [7; 32];
const MINT_B: Key = [8; 32];
const FEE_ACCOUNT: Key = [9; 32];
const DESTINATION: Key = [10; 32];
const SOMEONE: Key = [11; 32];

/// The authority of the pool and the bump seed that derives it.
fn derived() -> (Key, u8) {
    find_authority(&PROGRAM, &AMM).unwrap()
}

fn authority() -> Key {
    derived().0
}

fn usual_fees() -> FeeInput {
    FeeInput {
        trade_fee_numerator: 25,
        trade_fee_denominator: 10_000,
        owner_trade_fee_numerator: 5,
        owner_trade_fee_denominator: 10_000,
        owner_withdraw_fee_numerator: 1,
        owner_withdraw_fee_denominator: 6,
        host_fee_numerator: 20,
        host_fee_denominator: 100,
    }
}

fn token_account(key: Key, mint: Key, owner: Key, amount: u64) -> TokenAccount {
    TokenAccount { key, mint, owner, amount, delegate: None, close_authority: None }
}

fn pool_mint(supply: u64) -> Mint {
    Mint { key: POOL_MINT, mint_authority: Some(authority()), supply, freeze_authority: None }
}

fn blank_amm() -> Amm {
    Amm {
        is_initialized: false,
        bump_seed: 0,
        token_program_id: [0; 32],
        token_a_account: [0; 32],
        token_b_account: [0; 32],
        pool_mint: [0; 32],
        token_a_mint: [0; 32],
        token_b_mint: [0; 32],
        pool_fee_account: [0; 32],
        fees: FeeInput::default(),
        curve: CurveInput::default(),
    }
}

fn live_amm(fees: FeeInput) -> Amm {
    Amm {
        is_initialized: true,
        bump_seed: derived().1,
        token_program_id: TOKEN_PROGRAM,
        token_a_account: ACCOUNT_A,
        token_b_account: ACCOUNT_B,
        pool_mint: POOL_MINT,
        token_a_mint: MINT_A,
        token_b_mint: MINT_B,
        pool_fee_account: FEE_ACCOUNT,
        fees,
        curve: CurveInput::default(),
    }
}

fn new_pool() -> Initialize {
    Initialize {
        program_id: PROGRAM,
        authority: authority(),
        amm_key: AMM,
        amm: blank_amm(),
        pool_mint: pool_mint(0),
        token_a: token_account(ACCOUNT_A, MINT_A, authority(), 50_000),
        token_b: token_account(ACCOUNT_B, MINT_B, authority(), 60_000),
        fee_account: token_account(FEE_ACCOUNT, POOL_MINT, SOMEONE, 0),
        destination: token_account(DESTINATION, POOL_MINT, SOMEONE, 0),
        token_program: TOKEN_PROGRAM,
    }
}

fn a_swap(fees: FeeInput) -> Swap {
    Swap {
        program_id: PROGRAM,
        amm_owner: PROGRAM,
        amm_key: AMM,
        amm: live_amm(fees),
        authority: authority(),
        source_info: ACCOUNT_A,
        destination_info: ACCOUNT_B,
        swap_source: token_account(ACCOUNT_A, MINT_A, authority(), 1_000_000),
        swap_destination: token_account(ACCOUNT_B, MINT_B, authority(), 2_000_000),
        pool_mint: pool_mint(1_000_000_000),
        token_program: TOKEN_PROGRAM,
        host_fee_account: FEE_ACCOUNT,
    }
}

fn a_deposit() -> DepositLiquidity {
    DepositLiquidity {
        amm: live_amm(usual_fees()),
        token_a: token_account(ACCOUNT_A, MINT_A, authority(), 50_000),
        token_b: token_account(ACCOUNT_B, MINT_B, authority(), 60_000),
        pool_mint: pool_mint(1_000_000_000),
    }
}

fn a_withdrawal() -> WithdrawLiquidity {
    WithdrawLiquidity {
        amm: live_amm(usual_fees()),
        token_a: token_account(ACCOUNT_A, MINT_A, authority(), 50_000),
        token_b: token_account(ACCOUNT_B, MINT_B, authority(), 60_000),
        pool_mint: pool_mint(1_000_000_000),
    }
}

#[test]
fn narrowing_keeps_what_fits() {
    assert_eq!(to_u64(0), Ok(0));
    assert_eq!(to_u64(u64::MAX as u128), Ok(u64::MAX));
}

#[test]
fn narrowing_refuses_what_does_not_fit() {
    assert_eq!(to_u64(u64::MAX as u128 + 1), Err(SwapError::ConversionFailure));
    assert_eq!(to_u64(u128::MAX), Err(SwapError::ConversionFailure));
}

#[test]
fn new_pool_accounts_are_accepted() {
    assert_eq!(new_pool().validate_input_accounts(authority()), Ok(()));
}

#[test]
fn pool_in_use_is_refused() {
    let mut accounts = new_pool();
    accounts.amm.is_initialized = true;
    assert_eq!(accounts.validate_input_accounts(authority()), Err(SwapError::AlreadyInUse));
}

#[test]
fn authority_other_than_the_derived_one_is_refused() {
    assert_eq!(new_pool().validate_input_accounts(SOMEONE), Err(SwapError::InvalidProgramAddress));
}

#[test]
fn token_account_of_another_owner_is_refused() {
    let mut accounts = new_pool();
    accounts.token_a.owner = SOMEONE;
    assert_eq!(accounts.validate_input_accounts(authority()), Err(SwapError::InvalidOwner));
    let mut accounts = new_pool();
    accounts.token_b.owner = SOMEONE;
    assert_eq!(accounts.validate_input_accounts(authority()), Err(SwapError::InvalidOwner));
}

#[test]
fn fee_account_and_destination_both_owned_by_the_authority_are_refused() {
    let mut accounts = new_pool();
    accounts.fee_account.owner = authority();
    accounts.destination.owner = authority();
    assert_eq!(accounts.validate_input_accounts(authority()), Err(SwapError::InvalidOuputOwner));
}

#[test]
fn one_of_fee_account_and_destination_owned_by_the_authority_is_accepted() {
    let mut accounts = new_pool();
    accounts.fee_account.owner = authority();
    assert_eq!(accounts.validate_input_accounts(authority()), Ok(()));
    let mut accounts = new_pool();
    accounts.destination.owner = authority();
    assert_eq!(accounts.validate_input_accounts(authority()), Ok(()));
}

#[test]
fn pool_mint_of_another_authority_is_refused() {
    let mut accounts = new_pool();
    accounts.pool_mint.mint_authority = Some(SOMEONE);
    assert_eq!(accounts.validate_input_accounts(authority()), Err(SwapError::InvalidOwner));
    accounts.pool_mint.mint_authority = None;
    assert_eq!(accounts.validate_input_accounts(authority()), Err(SwapError::InvalidOwner));
}

#[test]
fn same_mint_on_both_sides_is_refused() {
    let mut accounts = new_pool();
    accounts.token_b.mint = MINT_A;
    assert_eq!(accounts.validate_input_accounts(authority()), Err(SwapError::RepeatedMint));
}

#[test]
fn delegate_is_refused() {
    let mut accounts = new_pool();
    accounts.token_a.delegate = Some(SOMEONE);
    assert_eq!(accounts.validate_input_accounts(authority()), Err(SwapError::InvalidDelegate));
    let mut accounts = new_pool();
    accounts.token_b.delegate = Some(SOMEONE);
    assert_eq!(accounts.validate_input_accounts(authority()), Err(SwapError::InvalidDelegate));
}

#[test]
fn close_authority_is_refused() {
    let mut accounts = new_pool();
    accounts.token_a.close_authority = Some(SOMEONE);
    assert_eq!(accounts.validate_input_accounts(authority()), Err(SwapError::InvalidCloseAuthority));
    let mut accounts = new_pool();
    accounts.token_b.close_authority = Some(SOMEONE);
    assert_eq!(accounts.validate_input_accounts(authority()), Err(SwapError::InvalidCloseAuthority));
}

#[test]
fn pool_mint_with_supply_is_refused() {
    let mut accounts = new_pool();
    accounts.pool_mint.supply = 1;
    assert_eq!(accounts.validate_input_accounts(authority()), Err(SwapError::InvalidSupply));
}

#[test]
fn pool_mint_with_freeze_authority_is_refused() {
    let mut accounts = new_pool();
    accounts.pool_mint.freeze_authority = Some(SOMEONE);
    assert_eq!(accounts.validate_input_accounts(authority()), Err(SwapError::InvalidFreezeAuthority));
}

#[test]
fn fee_account_of_another_mint_is_refused() {
    let mut accounts = new_pool();
    accounts.fee_account.mint = MINT_A;
    assert_eq!(accounts.validate_input_accounts(authority()), Err(SwapError::IncorrectPoolMint));
}

#[test]
fn first_failing_check_decides() {
    let mut accounts = new_pool();
    accounts.pool_mint.supply = 1;
    accounts.token_a.delegate = Some(SOMEONE);
    accounts.token_b.mint = MINT_A;
    assert_eq!(accounts.validate_input_accounts(authority()), Err(SwapError::RepeatedMint));
}

#[test]
fn curve_and_fees_of_a_new_pool_are_accepted() {
    assert!(new_pool().validate_amm_fees_and_curve(&usual_fees(), &CurveInput::default()).is_ok());
}

#[test]
fn new_pool_with_an_empty_side_is_refused() {
    let mut accounts = new_pool();
    accounts.token_b.amount = 0;
    assert!(matches!(
        accounts.validate_amm_fees_and_curve(&usual_fees(), &CurveInput::default()),
        Err(SwapError::EmptySupply)
    ));
}

#[test]
fn new_pool_with_invalid_fees_is_refused() {
    let fees = FeeInput { trade_fee_numerator: 10_001, ..usual_fees() };
    assert!(matches!(
        new_pool().validate_amm_fees_and_curve(&fees, &CurveInput::default()),
        Err(SwapError::InvalidFees)
    ));
}

#[test]
fn new_pool_with_a_reserved_curve_is_refused() {
    let curve = CurveInput { curve_type: 1, curve_params: 0 };
    assert!(matches!(
        new_pool().validate_amm_fees_and_curve(&usual_fees(), &curve),
        Err(SwapError::UnsupportedCurveType)
    ));
}

#[test]
fn initialize_sets_the_state_and_mints_the_initial_supply() {
    let mut accounts = new_pool();
    let curve = CurveInput { curve_type: 0, curve_params: 17 };
    assert_eq!(initialize(&mut accounts, usual_fees(), curve), Ok(1_000_000_000));
    assert_eq!(
        accounts.amm,
        Amm {
            is_initialized: true,
            bump_seed: derived().1,
            token_program_id: TOKEN_PROGRAM,
            token_a_account: ACCOUNT_A,
            token_b_account: ACCOUNT_B,
            pool_mint: POOL_MINT,
            token_a_mint: MINT_A,
            token_b_mint: MINT_B,
            pool_fee_account: FEE_ACCOUNT,
            fees: usual_fees(),
            curve,
        }
    );
}

#[test]
fn refused_initialize_leaves_the_accounts_alone() {
    let mut accounts = new_pool();
    accounts.token_a.amount = 0;
    assert_eq!(
        initialize(&mut accounts, usual_fees(), CurveInput::default()),
        Err(SwapError::EmptySupply)
    );
    let mut empty = new_pool();
    empty.token_a.amount = 0;
    assert_eq!(accounts, empty);
}

#[test]
fn initialize_checks_the_curve_before_the_accounts() {
    let mut accounts = new_pool();
    accounts.amm.is_initialized = true;
    accounts.token_a.amount = 0;
    assert_eq!(
        initialize(&mut accounts, usual_fees(), CurveInput::default()),
        Err(SwapError::EmptySupply)
    );
    accounts.token_a.amount = 1;
    assert_eq!(
        initialize(&mut accounts, usual_fees(), CurveInput::default()),
        Err(SwapError::AlreadyInUse)
    );
}

#[test]
fn swap_accounts_are_accepted() {
    assert_eq!(a_swap(usual_fees()).validate_accounts(), Ok(()));
}

#[test]
fn swap_on_a_pool_of_another_program_is_refused() {
    let mut accounts = a_swap(usual_fees());
    accounts.amm_owner = SOMEONE;
    assert_eq!(swap(&accounts, 10_000, 0), Err(SwapError::InvalidOwner));
}

#[test]
fn swap_with_another_authority_is_refused() {
    let mut accounts = a_swap(usual_fees());
    accounts.authority = SOMEONE;
    assert_eq!(swap(&accounts, 10_000, 0), Err(SwapError::InvalidProgramAddress));
    let mut accounts = a_swap(usual_fees());
    accounts.amm_key = SOMEONE;
    assert_eq!(swap(&accounts, 10_000, 0), Err(SwapError::InvalidProgramAddress));
    let mut accounts = a_swap(usual_fees());
    accounts.amm.bump_seed = accounts.amm.bump_seed.wrapping_sub(1);
    assert_eq!(swap(&accounts, 10_000, 0), Err(SwapError::InvalidProgramAddress));
}

#[test]
fn initialize_with_another_authority_is_refused() {
    let mut accounts = new_pool();
    accounts.authority = SOMEONE;
    assert_eq!(
        initialize(&mut accounts, usual_fees(), CurveInput::default()),
        Err(SwapError::InvalidProgramAddress)
    );
}

#[test]
fn pool_created_by_initialize_accepts_a_swap() {
    let mut accounts = new_pool();
    initialize(&mut accounts, usual_fees(), CurveInput::default()).unwrap();
    let mut swap_accounts = a_swap(usual_fees());
    swap_accounts.amm = accounts.amm;
    assert_eq!(swap_accounts.validate_accounts(), Ok(()));
}

#[test]
fn swap_on_accounts_that_are_not_the_pool_s_is_refused() {
    let mut accounts = a_swap(usual_fees());
    accounts.swap_source.key = SOMEONE;
    assert_eq!(swap(&accounts, 10_000, 0), Err(SwapError::IncorrectSwapAccount));
    let mut accounts = a_swap(usual_fees());
    accounts.swap_destination.key = SOMEONE;
    assert_eq!(swap(&accounts, 10_000, 0), Err(SwapError::IncorrectSwapAccount));
}

#[test]
fn swap_from_an_account_into_itself_is_refused() {
    let mut accounts = a_swap(usual_fees());
    accounts.swap_destination.key = ACCOUNT_A;
    assert_eq!(swap(&accounts, 10_000, 0), Err(SwapError::InvalidInput));
}

#[test]
fn swap_with_mismatched_account_infos_is_refused() {
    let mut accounts = a_swap(usual_fees());
    accounts.source_info = SOMEONE;
    assert_eq!(swap(&accounts, 10_000, 0), Err(SwapError::InvalidInput));
    let mut accounts = a_swap(usual_fees());
    accounts.destination_info = SOMEONE;
    assert_eq!(swap(&accounts, 10_000, 0), Err(SwapError::InvalidInput));
}

#[test]
fn swap_with_another_pool_mint_is_refused() {
    let mut accounts = a_swap(usual_fees());
    accounts.pool_mint.key = SOMEONE;
    assert_eq!(swap(&accounts, 10_000, 0), Err(SwapError::IncorrectPoolMint));
}

#[test]
fn swap_with_another_fee_account_is_refused() {
    let mut accounts = a_swap(usual_fees());
    accounts.host_fee_account = SOMEONE;
    assert_eq!(swap(&accounts, 10_000, 0), Err(SwapError::IncorrectFeeAccount));
}

#[test]
fn swap_with_another_token_program_is_refused() {
    let mut accounts = a_swap(usual_fees());
    accounts.token_program = SOMEONE;
    assert_eq!(swap(&accounts, 10_000, 0), Err(SwapError::IncorrectTokenProgramId));
}

#[test]
fn swap_direction_follows_the_source() {
    let accounts = a_swap(usual_fees());
    assert_eq!(accounts.trade_direction(), TradeDirection::AtoB);
    let mut back = a_swap(usual_fees());
    back.swap_source.key = ACCOUNT_B;
    back.swap_destination.key = ACCOUNT_A;
    assert_eq!(back.trade_direction(), TradeDirection::BtoA);
}

#[test]
fn swap_takes_the_fees_off_the_destination_amount() {
    // The curve gives 19801 for 10000. Of that the trading fee is 49 and
    // the owner fee 9, of which the host gets 1.
    assert_eq!(
        swap(&a_swap(usual_fees()), 10_000, 19_744),
        Ok(SwapAmounts {
            trade_direction: TradeDirection::AtoB,
            output_amount: 19_744,
            trade_fee: 49,
            owner_fee: 8,
            host_fee: 1,
        })
    );
}

#[test]
fn swap_of_half_the_pool() {
    assert_eq!(
        swap(&a_swap(usual_fees()), 1_000_000, 0),
        Ok(SwapAmounts {
            trade_direction: TradeDirection::AtoB,
            output_amount: 997_100,
            trade_fee: 2500,
            owner_fee: 400,
            host_fee: 100,
        })
    );
}

#[test]
fn swap_without_fees_gives_what_the_curve_gives() {
    assert_eq!(
        swap(&a_swap(FeeInput::default()), 10_000, 0),
        Ok(SwapAmounts {
            trade_direction: TradeDirection::AtoB,
            output_amount: 19_801,
            trade_fee: 0,
            owner_fee: 0,
            host_fee: 0,
        })
    );
}

#[test]
fn swap_below_the_minimum_is_refused() {
    assert_eq!(swap(&a_swap(usual_fees()), 10_000, 19_745), Err(SwapError::ExceededSlippage));
}

#[test]
fn swap_instruction_that_moves_nothing_is_refused() {
    assert_eq!(swap(&a_swap(usual_fees()), 0, 0), Err(SwapError::ZeroTradingTokens));
}

#[test]
fn swap_instruction_with_a_fee_that_cannot_be_computed_is_refused() {
    let fees = FeeInput { trade_fee_numerator: 1, trade_fee_denominator: 0, ..usual_fees() };
    assert_eq!(swap(&a_swap(fees), 10_000, 0), Err(SwapError::FeeCalculationFailure));
    let fees = FeeInput { host_fee_numerator: 1, host_fee_denominator: 0, ..usual_fees() };
    assert_eq!(swap(&a_swap(fees), 10_000, 0), Err(SwapError::FeeCalculationFailure));
}

#[test]
fn swap_with_fees_above_the_destination_amount_is_refused() {
    let fees = FeeInput {
        trade_fee_numerator: 2,
        trade_fee_denominator: 3,
        owner_trade_fee_numerator: 2,
        owner_trade_fee_denominator: 3,
        ..FeeInput::default()
    };
    assert_eq!(swap(&a_swap(fees), 10_000, 0), Err(SwapError::FeeCalculationFailure));
}

#[test]
fn swap_with_a_host_share_above_the_owner_fee_is_refused() {
    let fees = FeeInput { host_fee_numerator: 3, host_fee_denominator: 2, ..usual_fees() };
    assert_eq!(swap(&a_swap(fees), 10_000, 0), Err(SwapError::FeeCalculationFailure));
}

#[test]
fn swap_on_a_stored_curve_without_calculator_is_refused() {
    let mut accounts = a_swap(usual_fees());
    accounts.amm.curve.curve_type = 2;
    assert_eq!(swap(&accounts, 10_000, 0), Err(SwapError::UnsupportedCurveType));
    accounts.amm.curve.curve_type = 9;
    assert_eq!(swap(&accounts, 10_000, 0), Err(SwapError::InvalidArgument));
}

#[test]
fn no_fee_mints_no_pool_tokens() {
    let accounts = a_swap(FeeInput::default());
    let amounts = swap(&accounts, 10_000, 0).unwrap();
    assert_eq!(owner_fee_pool_tokens(&accounts, &amounts), Ok(None));
    assert_eq!(host_fee_pool_tokens(&accounts, &amounts), Ok(None));
}

#[test]
fn fee_whose_deposit_has_no_value_fails_by_its_kind() {
    let accounts = a_swap(usual_fees());
    let amounts = swap(&accounts, 1_000_000, 0).unwrap();
    assert_eq!(owner_fee_pool_tokens(&accounts, &amounts), Err(SwapError::ZeroOwnerTradeFee));
    assert_eq!(host_fee_pool_tokens(&accounts, &amounts), Err(SwapError::ZeroHostFee));
}

#[test]
fn fee_too_small_to_change_the_ratio_mints_nothing() {
    let mut accounts = a_swap(usual_fees());
    accounts.swap_source.amount = u64::MAX;
    let amounts = SwapAmounts {
        trade_direction: TradeDirection::AtoB,
        output_amount: 0,
        trade_fee: 0,
        owner_fee: 1,
        host_fee: 1,
    };
    assert_eq!(owner_fee_pool_tokens(&accounts, &amounts), Ok(Some(0)));
    assert_eq!(host_fee_pool_tokens(&accounts, &amounts), Ok(Some(0)));
}

#[test]
fn deposit_pays_the_share_rounded_up() {
    assert_eq!(
        deposit_liquidity(&a_deposit(), 333_333_333, 16_667, 20_000),
        Ok(DepositAmounts { token_a_amount: 16_667, token_b_amount: 20_000 })
    );
    assert_eq!(
        deposit_liquidity(&a_deposit(), 1_000_000, u64::MAX, u64::MAX),
        Ok(DepositAmounts { token_a_amount: 50, token_b_amount: 60 })
    );
}

#[test]
fn deposit_above_a_maximum_is_refused() {
    assert_eq!(deposit_liquidity(&a_deposit(), 333_333_333, 16_666, 20_000), Err(SwapError::ExceededSlippage));
    assert_eq!(deposit_liquidity(&a_deposit(), 333_333_333, 16_667, 19_999), Err(SwapError::ExceededSlippage));
}

#[test]
fn deposit_into_a_pool_without_pool_tokens_pays_the_maximums() {
    let mut accounts = a_deposit();
    accounts.pool_mint.supply = 0;
    assert_eq!(
        deposit_liquidity(&accounts, 1000, 11, 22),
        Ok(DepositAmounts { token_a_amount: 11, token_b_amount: 22 })
    );
}

#[test]
fn deposit_into_a_pool_that_was_not_created_is_refused() {
    let mut accounts = a_deposit();
    accounts.amm.is_initialized = false;
    assert_eq!(deposit_liquidity(&accounts, 1000, 11, 22), Err(SwapError::NotInitialized));
}

#[test]
fn deposit_that_does_not_fit_in_64_bits_is_refused() {
    let mut accounts = a_deposit();
    accounts.token_a.amount = u64::MAX;
    accounts.pool_mint.supply = 1;
    assert_eq!(deposit_liquidity(&accounts, 2, u64::MAX, u64::MAX), Err(SwapError::ConversionFailure));
}

#[test]
fn deposit_on_a_stored_curve_without_calculator_is_refused() {
    let mut accounts = a_deposit();
    accounts.amm.curve.curve_type = 1;
    assert_eq!(deposit_liquidity(&accounts, 1000, 11, 22), Err(SwapError::UnsupportedCurveType));
}

#[test]
fn withdrawal_pays_the_share_after_the_fee_rounded_down() {
    assert_eq!(
        withdraw_liquidity(&a_withdrawal(), 600_000_000, 25_000, 30_000),
        Ok(WithdrawAmounts { withdraw_fee: 100_000_000, token_a_amount: 25_000, token_b_amount: 30_000 })
    );
    assert_eq!(
        withdraw_liquidity(&a_withdrawal(), 333_333_333, 0, 0),
        Ok(WithdrawAmounts { withdraw_fee: 55_555_555, token_a_amount: 13_888, token_b_amount: 16_666 })
    );
}

#[test]
fn withdrawal_below_a_minimum_is_refused() {
    assert_eq!(withdraw_liquidity(&a_withdrawal(), 600_000_000, 25_001, 30_000), Err(SwapError::ExceededSlippage));
    assert_eq!(withdraw_liquidity(&a_withdrawal(), 600_000_000, 25_000, 30_001), Err(SwapError::ExceededSlippage));
}

#[test]
fn withdrawal_from_a_pool_that_was_not_created_is_refused() {
    let mut accounts = a_withdrawal();
    accounts.amm.is_initialized = false;
    assert_eq!(withdraw_liquidity(&accounts, 1000, 0, 0), Err(SwapError::NotInitialized));
}

#[test]
fn withdrawal_with_a_fee_that_cannot_be_computed_is_refused() {
    let mut accounts = a_withdrawal();
    accounts.amm.fees.owner_withdraw_fee_denominator = 0;
    assert_eq!(withdraw_liquidity(&accounts, 1000, 0, 0), Err(SwapError::FeeCalculationFailure));
}

#[test]
fn withdrawal_with_a_fee_above_the_amount_is_refused() {
    let mut accounts = a_withdrawal();
    accounts.amm.fees.owner_withdraw_fee_numerator = 7;
    assert_eq!(withdraw_liquidity(&accounts, 1000, 0, 0), Err(SwapError::FeeCalculationFailure));
}

#[test]
fn withdrawal_from_a_pool_without_pool_tokens_is_refused() {
    let mut accounts = a_withdrawal();
    accounts.pool_mint.supply = 0;
    assert_eq!(withdraw_liquidity(&accounts, 1000, 0, 0), Err(SwapError::ZeroTradingTokens));
}

#[test]
fn withdrawal_that_does_not_fit_in_64_bits_is_refused() {
    let mut accounts = a_withdrawal();
    accounts.amm.fees = FeeInput::default();
    accounts.token_b.amount = u64::MAX;
    accounts.pool_mint.supply = 1;
    assert_eq!(withdraw_liquidity(&accounts, 2, 0, 0), Err(SwapError::ConversionFailure));
}
