use dexy::curve::base::{Calculator, CurveType};
use dexy::curve::constant_product::ConstantProductCurve;
use dexy::curve::fees::CurveFees;
use dexy::state::same_key;
use dexy::{build_curve, build_fees, CurveInput, FeeInput, SwapError};

#[test]
fn keys_compare_byte_by_byte() {
    let a = [7u8; 32];
    let mut b = [7u8; 32];
    assert!(same_key(&a, &b));
    b[31] = 8;
    assert!(!same_key(&a, &b));
    b[31] = 7;
    b[0] = 0;
    assert!(!same_key(&a, &b));
}

#[test]
fn fees_are_built_field_by_field() {
    let input = FeeInput {
        trade_fee_numerator: 1,
        trade_fee_denominator: 2,
        owner_trade_fee_numerator: 3,
        owner_trade_fee_denominator: 4,
        owner_withdraw_fee_numerator: 5,
        owner_withdraw_fee_denominator: 6,
        host_fee_numerator: 7,
        host_fee_denominator: 8,
    };
    assert_eq!(
        build_fees(&input),
        Ok(CurveFees {
            trade_fee_numerator: 1,
            trade_fee_denominator: 2,
            owner_trade_fee_numerator: 3,
            owner_trade_fee_denominator: 4,
            owner_withdraw_fee_numerator: 5,
            owner_withdraw_fee_denominator: 6,
            host_fee_numerator: 7,
            host_fee_denominator: 8,
        })
    );
}

#[test]
fn fees_are_built_without_validation() {
    let input = FeeInput { trade_fee_numerator: 9, trade_fee_denominator: 1, ..FeeInput::default() };
    let fees = build_fees(&input).unwrap();
    assert_eq!(fees.validate(), Err(SwapError::InvalidFees));
}

#[test]
fn default_fee_input_switches_every_rate_off() {
    let fees = build_fees(&FeeInput::default()).unwrap();
    assert_eq!(fees.trading_fee(1000), Some(0));
    assert_eq!(fees.owner_trading_fee(1000), Some(0));
    assert_eq!(fees.owner_withdraw_fee(1000), Some(0));
    assert_eq!(fees.host_fee(1000), Some(0));
}

#[test]
fn default_curve_input_is_constant_product() {
    assert_eq!(CurveInput::default(), CurveInput { curve_type: 0, curve_params: 0 });
}

#[test]
fn constant_product_curve_is_built() {
    let curve = build_curve(&CurveInput { curve_type: 0, curve_params: 0 }).unwrap();
    assert_eq!(curve.curve_type, CurveType::ConstantProduct);
    assert_eq!(curve.calculator, Calculator::ConstantProduct(ConstantProductCurve));
}

#[test]
fn curve_parameter_is_not_looked_at() {
    let curve = build_curve(&CurveInput { curve_type: 0, curve_params: u64::MAX }).unwrap();
    assert_eq!(curve.curve_type, CurveType::ConstantProduct);
}

#[test]
fn reserved_curve_types_are_not_built() {
    assert!(matches!(
        build_curve(&CurveInput { curve_type: 1, curve_params: 0 }),
        Err(SwapError::UnsupportedCurveType)
    ));
    assert!(matches!(
        build_curve(&CurveInput { curve_type: 2, curve_params: 0 }),
        Err(SwapError::UnsupportedCurveType)
    ));
}

#[test]
fn unknown_curve_type_is_not_built() {
    assert!(matches!(build_curve(&CurveInput { curve_type: 3, curve_params: 0 }), Err(SwapError::InvalidArgument)));
    assert!(matches!(build_curve(&CurveInput { curve_type: 255, curve_params: 0 }), Err(SwapError::InvalidArgument)));
}
