//! The swap curve: a curve calculator together with the fee rules that turn
//! its fee-free results into what a trader or a liquidity provider sees.

use crate::curve::arith::lemma_ceil_div_antitone;
use crate::curve::calculator::{
    CurveCalculator, DynPack, RoundDirection, SwapWithoutFeesResult, TradeDirection,
    TradingTokenResult,
};
use crate::curve::constant_product::{
    all_zero, lemma_swap_reserves, spec_swap, swap_defined, ConstantProductCurve,
};
use crate::curve::fees::{lemma_fee_monotone, CurveFees};
use crate::curve::precise_number::PreciseNumber;
use crate::error::SwapError;
use vstd::prelude::*;

verus! {

/// The curve types that a stored pool can name.
///
/// - `ConstantProduct`: `x * y = k`, the only one with a calculator.
/// - `ConstantPrice`: `y = m * x`, reserved.
/// - `ConstantProductWithOffset`: `(x + a) * (y + b) = k`, reserved.
#[derive(Clone, Copy, Debug, PartialEq, Eq, Structural)]
pub enum CurveType {
    /// Standard constant product curve
    ConstantProduct,
    /// Constant price curve
    ConstantPrice,
    /// Constant product curve with offset
    ConstantProductWithOffset,
}

impl CurveType {
    /// The byte that stands for the curve type in a stored curve.
    pub open spec fn spec_tag(self) -> u8 {
        match self {
            CurveType::ConstantProduct => 0,
            CurveType::ConstantPrice => 1,
            CurveType::ConstantProductWithOffset => 2,
        }
    }

    /// The curve type that a byte stands for.
    pub open spec fn spec_from_tag(value: u8) -> Result<CurveType, SwapError> {
        if value == 0 {
            Ok(CurveType::ConstantProduct)
        } else if value == 1 {
            Ok(CurveType::ConstantPrice)
        } else if value == 2 {
            Ok(CurveType::ConstantProductWithOffset)
        } else {
            Err(SwapError::InvalidArgument)
        }
    }

    /// The byte that stands for the curve type in a stored curve.
    pub fn tag(&self) -> (r: u8)
        ensures
            r == self.spec_tag(),
    {
        match self {
            CurveType::ConstantProduct => 0,
            CurveType::ConstantPrice => 1,
            CurveType::ConstantProductWithOffset => 2,
        }
    }
}

impl Default for CurveType {
    fn default() -> (r: Self)
        ensures
            r == CurveType::ConstantProduct,
    {
        Self::ConstantProduct
    }
}

impl TryFrom<u8> for CurveType {
    type Error = SwapError;

    fn try_from(value: u8) -> (r: Result<Self, SwapError>) {
        match value {
            0 => Ok(Self::ConstantProduct),
            1 => Ok(Self::ConstantPrice),
            2 => Ok(Self::ConstantProductWithOffset),
            _ => Err(SwapError::InvalidArgument),
        }
    }
}

impl vstd::std_specs::convert::TryFromSpecImpl<u8> for CurveType {
    open spec fn obeys_try_from_spec() -> bool {
        true
    }

    open spec fn try_from_spec(value: u8) -> Result<Self, SwapError> {
        CurveType::spec_from_tag(value)
    }
}

/// A byte is the tag of the curve type it stands for, and of no other.
pub proof fn lemma_tag_round_trip(curve_type: CurveType, value: u8)
    ensures
        CurveType::spec_from_tag(curve_type.spec_tag()) == Ok::<CurveType, SwapError>(curve_type),
        CurveType::spec_from_tag(value) matches Ok(t) ==> t.spec_tag() == value,
{
}

/// What a swap with fees does to the pool and asks of the trader.
#[derive(Debug, Clone, Copy, PartialEq, Eq, Structural)]
pub struct SwapResult {
    /// New amount of source token
    pub new_swap_source_amount: u128,
    /// New amount of destination token
    pub new_swap_destination_amount: u128,
    /// Amount of source token swapped (includes fees)
    pub source_amount_swapped: u128,
    /// Amount of destination token swapped
    pub destination_amount_swapped: u128,
    /// Amount of source tokens going to pool holders
    pub trade_fee: u128,
    /// Amount of source tokens going to owner
    pub owner_fee: u128,
}

/// The calculators that exist, one variant for each curve type that has one.
#[derive(Debug, Clone, Copy, PartialEq, Eq, Structural)]
pub enum Calculator {
    /// The calculator of the constant-product curve
    ConstantProduct(ConstantProductCurve),
}

impl Calculator {
    /// The curve type that this calculator belongs to.
    pub open spec fn spec_curve_type(&self) -> CurveType {
        match self {
            Calculator::ConstantProduct(_) => CurveType::ConstantProduct,
        }
    }

    /// The calculator that a curve type and a payload stand for.
    pub open spec fn spec_unpack(curve_type: CurveType, payload: Seq<u8>) -> Result<
        Calculator,
        SwapError,
    > {
        match curve_type {
            CurveType::ConstantProduct => match ConstantProductCurve::spec_unpack(payload) {
                Ok(c) => Ok(Calculator::ConstantProduct(c)),
                Err(e) => Err(e),
            },
            CurveType::ConstantPrice => Err(SwapError::UnsupportedCurveType),
            CurveType::ConstantProductWithOffset => Err(SwapError::UnsupportedCurveType),
        }
    }

    /// The curve type that this calculator belongs to.
    pub fn curve_type(&self) -> (r: CurveType)
        ensures
            r == self.spec_curve_type(),
    {
        match self {
            Calculator::ConstantProduct(_) => CurveType::ConstantProduct,
        }
    }

    /// Builds the calculator of `curve_type` from its payload. A curve type
    /// without a calculator is refused as such.
    pub fn unpack(curve_type: CurveType, payload: &[u8]) -> (r: Result<Calculator, SwapError>)
        ensures
            r == Calculator::spec_unpack(curve_type, payload@),
    {
        match curve_type {
            CurveType::ConstantProduct => {
                match ConstantProductCurve::unpack_from_slice(payload) {
                    Ok(c) => Ok(Calculator::ConstantProduct(c)),
                    Err(e) => Err(e),
                }
            },
            CurveType::ConstantPrice => Err(SwapError::UnsupportedCurveType),
            CurveType::ConstantProductWithOffset => Err(SwapError::UnsupportedCurveType),
        }
    }
}

impl DynPack for Calculator {
    open spec fn spec_pack(&self, dst: Seq<u8>) -> Seq<u8> {
        match self {
            Calculator::ConstantProduct(c) => c.spec_pack(dst),
        }
    }

    fn pack_into_slice(&self, dst: &mut [u8]) {
        match self {
            Calculator::ConstantProduct(c) => c.pack_into_slice(dst),
        }
    }
}

impl CurveCalculator for Calculator {
    open spec fn spec_swap_without_token_fees(
        &self,
        source_amount: u128,
        swap_source_amount: u128,
        swap_destination_amount: u128,
        trade_direction: TradeDirection,
    ) -> Option<SwapWithoutFeesResult> {
        match self {
            Calculator::ConstantProduct(c) => c.spec_swap_without_token_fees(
                source_amount,
                swap_source_amount,
                swap_destination_amount,
                trade_direction,
            ),
        }
    }

    open spec fn spec_pool_tokens_to_trading_tokens(
        &self,
        pool_tokens: u128,
        pool_token_supply: u128,
        swap_token_a_amount: u128,
        swap_token_b_amount: u128,
        round_direction: RoundDirection,
    ) -> Option<TradingTokenResult> {
        match self {
            Calculator::ConstantProduct(c) => c.spec_pool_tokens_to_trading_tokens(
                pool_tokens,
                pool_token_supply,
                swap_token_a_amount,
                swap_token_b_amount,
                round_direction,
            ),
        }
    }

    open spec fn spec_deposit_single_token_type(
        &self,
        source_amount: u128,
        swap_token_a_amount: u128,
        swap_token_b_amount: u128,
        pool_supply: u128,
        trade_direction: TradeDirection,
        round_direction: RoundDirection,
    ) -> Option<u128> {
        match self {
            Calculator::ConstantProduct(c) => c.spec_deposit_single_token_type(
                source_amount,
                swap_token_a_amount,
                swap_token_b_amount,
                pool_supply,
                trade_direction,
                round_direction,
            ),
        }
    }

    open spec fn spec_withdraw_single_token_type_exact_out(
        &self,
        source_amount: u128,
        swap_token_a_amount: u128,
        swap_token_b_amount: u128,
        pool_supply: u128,
        trade_direction: TradeDirection,
        round_direction: RoundDirection,
    ) -> Option<u128> {
        match self {
            Calculator::ConstantProduct(c) => c.spec_withdraw_single_token_type_exact_out(
                source_amount,
                swap_token_a_amount,
                swap_token_b_amount,
                pool_supply,
                trade_direction,
                round_direction,
            ),
        }
    }

    open spec fn spec_validate(&self) -> Result<(), SwapError> {
        match self {
            Calculator::ConstantProduct(c) => c.spec_validate(),
        }
    }

    open spec fn spec_normalized_value(&self, swap_token_a_amount: u128, swap_token_b_amount: u128)
        -> Option<nat> {
        match self {
            Calculator::ConstantProduct(c) => c.spec_normalized_value(
                swap_token_a_amount,
                swap_token_b_amount,
            ),
        }
    }

    fn swap_without_token_fees(
        &self,
        source_amount: u128,
        swap_source_amount: u128,
        swap_destination_amount: u128,
        trade_direction: TradeDirection,
    ) -> (r: Option<SwapWithoutFeesResult>) {
        match self {
            Calculator::ConstantProduct(c) => c.swap_without_token_fees(
                source_amount,
                swap_source_amount,
                swap_destination_amount,
                trade_direction,
            ),
        }
    }

    fn pool_tokens_to_trading_tokens(
        &self,
        pool_tokens: u128,
        pool_token_supply: u128,
        swap_token_a_amount: u128,
        swap_token_b_amount: u128,
        round_direction: RoundDirection,
    ) -> (r: Option<TradingTokenResult>) {
        match self {
            Calculator::ConstantProduct(c) => c.pool_tokens_to_trading_tokens(
                pool_tokens,
                pool_token_supply,
                swap_token_a_amount,
                swap_token_b_amount,
                round_direction,
            ),
        }
    }

    fn deposit_single_token_type(
        &self,
        source_amount: u128,
        swap_token_a_amount: u128,
        swap_token_b_amount: u128,
        pool_supply: u128,
        trade_direction: TradeDirection,
        round_direction: RoundDirection,
    ) -> (r: Option<u128>) {
        match self {
            Calculator::ConstantProduct(c) => c.deposit_single_token_type(
                source_amount,
                swap_token_a_amount,
                swap_token_b_amount,
                pool_supply,
                trade_direction,
                round_direction,
            ),
        }
    }

    fn withdraw_single_token_type_exact_out(
        &self,
        source_amount: u128,
        swap_token_a_amount: u128,
        swap_token_b_amount: u128,
        pool_supply: u128,
        trade_direction: TradeDirection,
        round_direction: RoundDirection,
    ) -> (r: Option<u128>) {
        match self {
            Calculator::ConstantProduct(c) => c.withdraw_single_token_type_exact_out(
                source_amount,
                swap_token_a_amount,
                swap_token_b_amount,
                pool_supply,
                trade_direction,
                round_direction,
            ),
        }
    }

    fn validate(&self) -> (r: Result<(), SwapError>) {
        match self {
            Calculator::ConstantProduct(c) => c.validate(),
        }
    }

    fn normalized_value(&self, swap_token_a_amount: u128, swap_token_b_amount: u128) -> (r: Option<
        PreciseNumber,
    >) {
        match self {
            Calculator::ConstantProduct(c) => c.normalized_value(
                swap_token_a_amount,
                swap_token_b_amount,
            ),
        }
    }
}

/// A curve type tag with the calculator that does its arithmetic.
#[derive(Debug)]
pub struct SwapCurve {
    /// The type of curve, as stored with the pool
    pub curve_type: CurveType,
    /// The calculator that does the curve's arithmetic
    pub calculator: Calculator,
}

/// The basis of the fee on a single-sided deposit or withdrawal: half the
/// amount, since half of it is in effect swapped, but no less than one.
pub open spec fn spec_half_source_amount(source_amount: u128) -> u128 {
    if source_amount / 2 < 1 {
        1
    } else {
        source_amount / 2
    }
}

/// What is left of a single-sided amount once the trading fee on half of it
/// is taken off; nothing where the fee has no value or exceeds the amount.
pub open spec fn spec_amount_after_half_fee(source_amount: u128, fees: &CurveFees) -> Option<
    u128,
> {
    match fees.spec_trading_fee(spec_half_source_amount(source_amount)) {
        Some(trade_fee) => if trade_fee <= source_amount {
            Some((source_amount - trade_fee) as u128)
        } else {
            None
        },
        None => None,
    }
}

/// The fees on a swap of `source_amount`: the trading fee and the owner fee,
/// both on the whole amount; nothing where one has no value or where their
/// sum overflows or exceeds the amount.
pub open spec fn spec_swap_fees(source_amount: u128, fees: &CurveFees) -> Option<(u128, u128)> {
    match (fees.spec_trading_fee(source_amount), fees.spec_owner_trading_fee(source_amount)) {
        (Some(trade_fee), Some(owner_fee)) => if trade_fee + owner_fee <= source_amount {
            Some((trade_fee, owner_fee))
        } else {
            None
        },
        _ => None,
    }
}

/// What a swap reports once the calculator has swapped the amount left
/// after fees: the fees go back onto the source side, so that they stay in
/// the source reserve. Nothing where a sum overflows or where more would
/// leave the destination reserve than it holds.
pub open spec fn spec_swap_result(
    swap_source_amount: u128,
    swap_destination_amount: u128,
    trade_fee: u128,
    owner_fee: u128,
    swapped: SwapWithoutFeesResult,
) -> Option<SwapResult> {
    let source_amount_swapped = swapped.source_amount_swapped + trade_fee + owner_fee;
    if swap_source_amount + source_amount_swapped <= u128::MAX
        && swapped.destination_amount_swapped <= swap_destination_amount {
        Some(
            SwapResult {
                new_swap_source_amount: (swap_source_amount + source_amount_swapped) as u128,
                new_swap_destination_amount: (swap_destination_amount
                    - swapped.destination_amount_swapped) as u128,
                source_amount_swapped: source_amount_swapped as u128,
                destination_amount_swapped: swapped.destination_amount_swapped,
                trade_fee,
                owner_fee,
            },
        )
    } else {
        None
    }
}

impl SwapCurve {
    /// The length of a stored curve: one byte for the curve type and
    /// thirty-two for the calculator's parameters.
    pub const LEN: usize = 33;

    /// Whether the tag is the curve type of the calculator.
    pub open spec fn wf(&self) -> bool {
        self.curve_type == self.calculator.spec_curve_type()
    }

    /// The stored form: the tag byte, then the payload that the calculator
    /// writes over thirty-two zero bytes.
    pub open spec fn spec_packed(&self) -> Seq<u8> {
        seq![self.curve_type.spec_tag()] + self.calculator.spec_pack(Seq::new(32, |i: int| 0u8))
    }

    /// The curve that the first thirty-three bytes of `src` stand for.
    pub open spec fn spec_unpack(src: Seq<u8>) -> Result<SwapCurve, SwapError> {
        match CurveType::spec_from_tag(src[0]) {
            Ok(curve_type) => match Calculator::spec_unpack(curve_type, src.subrange(1, 33)) {
                Ok(calculator) => Ok(SwapCurve { curve_type, calculator }),
                Err(e) => Err(e),
            },
            Err(e) => Err(e),
        }
    }

    /// The result of [`SwapCurve::swap`].
    pub open spec fn spec_swap(
        &self,
        source_amount: u128,
        swap_source_amount: u128,
        swap_destination_amount: u128,
        trade_direction: TradeDirection,
        fees: &CurveFees,
    ) -> Option<SwapResult> {
        match spec_swap_fees(source_amount, fees) {
            Some((trade_fee, owner_fee)) => match self.calculator.spec_swap_without_token_fees(
                (source_amount - trade_fee - owner_fee) as u128,
                swap_source_amount,
                swap_destination_amount,
                trade_direction,
            ) {
                Some(swapped) => spec_swap_result(
                    swap_source_amount,
                    swap_destination_amount,
                    trade_fee,
                    owner_fee,
                    swapped,
                ),
                None => None,
            },
            None => None,
        }
    }

    /// The result of [`SwapCurve::deposit_single_token_type`].
    pub open spec fn spec_deposit_single_token_type(
        &self,
        source_amount: u128,
        swap_token_a_amount: u128,
        swap_token_b_amount: u128,
        pool_supply: u128,
        trade_direction: TradeDirection,
        round_direction: RoundDirection,
        fees: &CurveFees,
    ) -> Option<u128> {
        if source_amount == 0 {
            Some(0)
        } else {
            match spec_amount_after_half_fee(source_amount, fees) {
                Some(amount) => self.calculator.spec_deposit_single_token_type(
                    amount,
                    swap_token_a_amount,
                    swap_token_b_amount,
                    pool_supply,
                    trade_direction,
                    round_direction,
                ),
                None => None,
            }
        }
    }

    /// The result of [`SwapCurve::withdraw_single_token_type_exact_out`].
    pub open spec fn spec_withdraw_single_token_type_exact_out(
        &self,
        source_amount: u128,
        swap_token_a_amount: u128,
        swap_token_b_amount: u128,
        pool_supply: u128,
        trade_direction: TradeDirection,
        round_direction: RoundDirection,
        fees: &CurveFees,
    ) -> Option<u128> {
        if source_amount == 0 {
            Some(0)
        } else {
            match spec_amount_after_half_fee(source_amount, fees) {
                Some(amount) => self.calculator.spec_withdraw_single_token_type_exact_out(
                    amount,
                    swap_token_a_amount,
                    swap_token_b_amount,
                    pool_supply,
                    trade_direction,
                    round_direction,
                ),
                None => None,
            }
        }
    }

    /// Swaps `source_amount` of the source token, fees included.
    ///
    /// The trading fee and the owner fee are both taken on the whole
    /// `source_amount`. What is left goes through the calculator's fee-free
    /// swap. The fees are then added back to the source amount swapped: they
    /// stay in the source reserve, and only the rest moves the invariant.
    pub fn swap(
        &self,
        source_amount: u128,
        swap_source_amount: u128,
        swap_destination_amount: u128,
        trade_direction: TradeDirection,
        fees: &CurveFees,
    ) -> (r: Option<SwapResult>)
        ensures
            r == self.spec_swap(
                source_amount,
                swap_source_amount,
                swap_destination_amount,
                trade_direction,
                fees,
            ),
    {
        let trade_fee = fees.trading_fee(source_amount)?;
        let owner_fee = fees.owner_trading_fee(source_amount)?;
        let total_fee = trade_fee.checked_add(owner_fee)?;
        let source_amount_minus_fee = source_amount.checked_sub(total_fee)?;

        let SwapWithoutFeesResult { source_amount_swapped, destination_amount_swapped } =
            self.calculator.swap_without_token_fees(
            source_amount_minus_fee,
            swap_source_amount,
            swap_destination_amount,
            trade_direction,
        )?;

        let source_amount_swapped = source_amount_swapped.checked_add(total_fee)?;
        Some(
            SwapResult {
                new_swap_source_amount: swap_source_amount.checked_add(source_amount_swapped)?,
                new_swap_destination_amount: swap_destination_amount.checked_sub(
                    destination_amount_swapped,
                )?,
                source_amount_swapped,
                destination_amount_swapped,
                trade_fee,
                owner_fee,
            },
        )
    }

    /// What is left of a single-sided amount once the trading fee on half of
    /// it, and on no less than one token, is taken off.
    fn amount_after_half_fee(source_amount: u128, fees: &CurveFees) -> (r: Option<u128>)
        ensures
            r == spec_amount_after_half_fee(source_amount, fees),
    {
        let half = source_amount.checked_div(2)?;
        let half_source_amount = if half < 1 {
            1
        } else {
            half
        };
        let trade_fee = fees.trading_fee(half_source_amount)?;
        source_amount.checked_sub(trade_fee)
    }

    /// Pool tokens to mint for a deposit of `source_amount` of one token.
    ///
    /// A deposit of one token alone works like a swap of half of it, so the
    /// trading fee on half the amount is taken off before the calculator
    /// converts the rest. The owner fee is not charged here. A deposit of
    /// zero gives zero.
    pub fn deposit_single_token_type(
        &self,
        source_amount: u128,
        swap_token_a_amount: u128,
        swap_token_b_amount: u128,
        pool_supply: u128,
        trade_direction: TradeDirection,
        round_direction: RoundDirection,
        fees: &CurveFees,
    ) -> (r: Option<u128>)
        ensures
            r == self.spec_deposit_single_token_type(
                source_amount,
                swap_token_a_amount,
                swap_token_b_amount,
                pool_supply,
                trade_direction,
                round_direction,
                fees,
            ),
            source_amount == 0 ==> r == Some(0u128),
    {
        if source_amount == 0 {
            return Some(0);
        }
        let source_amount = Self::amount_after_half_fee(source_amount, fees)?;

        self.calculator.deposit_single_token_type(
            source_amount,
            swap_token_a_amount,
            swap_token_b_amount,
            pool_supply,
            trade_direction,
            round_direction,
        )
    }

    /// Pool tokens to burn for a withdrawal of exactly `source_amount` of
    /// one token.
    ///
    /// The trading fee on half the amount is taken off as for a deposit,
    /// and the calculator converts the rest. A withdrawal of zero gives
    /// zero.
    pub fn withdraw_single_token_type_exact_out(
        &self,
        source_amount: u128,
        swap_token_a_amount: u128,
        swap_token_b_amount: u128,
        pool_supply: u128,
        trade_direction: TradeDirection,
        round_direction: RoundDirection,
        fees: &CurveFees,
    ) -> (r: Option<u128>)
        ensures
            r == self.spec_withdraw_single_token_type_exact_out(
                source_amount,
                swap_token_a_amount,
                swap_token_b_amount,
                pool_supply,
                trade_direction,
                round_direction,
                fees,
            ),
            source_amount == 0 ==> r == Some(0u128),
    {
        if source_amount == 0 {
            return Some(0);
        }
        let source_amount = Self::amount_after_half_fee(source_amount, fees)?;

        self.calculator.withdraw_single_token_type_exact_out(
            source_amount,
            swap_token_a_amount,
            swap_token_b_amount,
            pool_supply,
            trade_direction,
            round_direction,
        )
    }

    /// Writes the stored form into the first thirty-three bytes of `dst`
    /// and leaves the rest as it was.
    pub fn pack_into_slice(&self, dst: &mut [u8])
        requires
            old(dst)@.len() >= 33,
        ensures
            final(dst)@ == self.spec_packed() + old(dst)@.skip(33),
    {
        let mut payload = [0u8;32];
        assert(payload@ =~= Seq::new(32, |i: int| 0u8));
        self.calculator.pack_into_slice(&mut payload);
        dst[0] = self.curve_type.tag();
        let mut i: usize = 0;
        while i < 32
            invariant
                i <= 32,
                payload@.len() == 32,
                dst@.len() == old(dst)@.len(),
                dst@.len() >= 33,
                dst@[0] == self.curve_type.spec_tag(),
                forall|j: int| 1 <= j < i + 1 ==> dst@[j] == payload@[j - 1],
                forall|j: int| i + 1 <= j < dst@.len() ==> dst@[j] == old(dst)@[j],
            decreases 32 - i,
        {
            dst[i + 1] = payload[i];
            i += 1;
        }
        assert(dst@ =~= self.spec_packed() + old(dst)@.skip(33));
    }

    /// Reads a curve from the first thirty-three bytes of `src`: the tag,
    /// then the parameters of the calculator that the tag names.
    ///
    /// A tag that names no curve type is an invalid argument. A tag that
    /// names a curve type without a calculator is refused as unsupported.
    pub fn unpack_from_slice(src: &[u8]) -> (r: Result<SwapCurve, SwapError>)
        requires
            src@.len() >= 33,
        ensures
            r == SwapCurve::spec_unpack(src@),
            r matches Ok(curve) ==> curve.wf(),
    {
        let curve_type = match CurveType::try_from(src[0]) {
            Ok(t) => t,
            Err(e) => { return Err(e); },
        };
        let payload = &src[1..33];
        match Calculator::unpack(curve_type, payload) {
            Ok(calculator) => Ok(SwapCurve { curve_type, calculator }),
            Err(e) => Err(e),
        }
    }
}

/// Whether two buffers of a stored curve hold the same bytes.
fn same_bytes(a: &[u8; 33], b: &[u8; 33]) -> (r: bool)
    ensures
        r == (a@ == b@),
{
    let mut i: usize = 0;
    while i < 33
        invariant
            i <= 33,
            forall|j: int| 0 <= j < i ==> a@[j] == b@[j],
        decreases 33 - i,
    {
        if a[i] != b[i] {
            return false;
        }
        i += 1;
    }
    assert(a@ =~= b@);
    true
}

impl Default for SwapCurve {
    /// The constant-product curve.
    fn default() -> (r: Self)
        ensures
            r.curve_type == CurveType::ConstantProduct,
            r.calculator == Calculator::ConstantProduct(ConstantProductCurve),
            r.wf(),
    {
        let curve_type = CurveType::default();
        let calculator: ConstantProductCurve = Default::default();
        Self { curve_type, calculator: Calculator::ConstantProduct(calculator) }
    }
}

impl PartialEq for SwapCurve {
    /// Two curves are equal where their stored forms are, byte for byte.
    fn eq(&self, other: &Self) -> (r: bool) {
        let mut packed_self = [0u8;33];
        self.pack_into_slice(&mut packed_self);
        let mut packed_other = [0u8;33];
        other.pack_into_slice(&mut packed_other);
        proof {
            lemma_packed_len(*self);
            lemma_packed_len(*other);
            assert(packed_self@ =~= self.spec_packed());
            assert(packed_other@ =~= other.spec_packed());
        }
        same_bytes(&packed_self, &packed_other)
    }
}

impl vstd::std_specs::cmp::PartialEqSpecImpl for SwapCurve {
    open spec fn obeys_eq_spec() -> bool {
        true
    }

    open spec fn eq_spec(&self, other: &Self) -> bool {
        self.spec_packed() == other.spec_packed()
    }
}

impl Clone for SwapCurve {
    /// A copy made by way of the stored form, which the copy shares with
    /// the curve it was made from.
    fn clone(&self) -> (r: Self)
        ensures
            r.curve_type == self.curve_type,
            r.calculator == self.calculator,
            r.spec_packed() == self.spec_packed(),
    {
        let mut packed_self = [0u8;33];
        self.pack_into_slice(&mut packed_self);
        proof {
            lemma_packed_len(*self);
            assert(packed_self@ =~= self.spec_packed());
            lemma_unpack_of_packed(*self);
        }
        match Self::unpack_from_slice(&packed_self) {
            Ok(curve) => curve,
            Err(_) => SwapCurve { curve_type: self.curve_type, calculator: self.calculator },
        }
    }
}

/// A stored curve is thirty-three bytes long and starts with the tag.
pub proof fn lemma_packed_len(curve: SwapCurve)
    ensures
        curve.spec_packed().len() == 33,
        curve.spec_packed()[0] == curve.curve_type.spec_tag(),
        forall|i: int| 1 <= i < 33 ==> curve.spec_packed()[i] == 0,
{
}

/// Two curves have the same stored form exactly where they have the same
/// tag and the same calculator.
pub proof fn lemma_same_stored_form(a: SwapCurve, b: SwapCurve)
    ensures
        a.spec_packed() == b.spec_packed() <==> a.curve_type == b.curve_type && a.calculator
            == b.calculator,
{
    lemma_packed_len(a);
    lemma_packed_len(b);
    if a.curve_type == b.curve_type {
        assert(a.spec_packed() =~= b.spec_packed());
    }
}

/// Reading the stored form of a well-formed curve gives the curve back, and
/// the stored form of a curve that was read is what it was read from.
pub proof fn lemma_unpack_of_packed(curve: SwapCurve)
    ensures
        curve.wf() ==> SwapCurve::spec_unpack(curve.spec_packed()) == Ok::<SwapCurve, SwapError>(
            curve,
        ),
        SwapCurve::spec_unpack(curve.spec_packed()) matches Ok(read) ==> read.calculator
            == curve.calculator && read.curve_type == curve.curve_type,
{
    lemma_packed_len(curve);
    let packed = curve.spec_packed();
    assert(all_zero(packed.subrange(1, 33)));
}

/// The stored form of a curve that was read is the bytes it was read from.
pub proof fn lemma_packed_of_unpack(src: Seq<u8>)
    requires
        src.len() >= 33,
    ensures
        SwapCurve::spec_unpack(src) matches Ok(curve) ==> curve.spec_packed() == src.subrange(
            0,
            33,
        ) && curve.wf(),
{
    if let Ok(curve) = SwapCurve::spec_unpack(src) {
        lemma_packed_len(curve);
        let payload = src.subrange(1, 33);
        assert(all_zero(payload));
        assert forall|i: int| 0 <= i < 33 implies curve.spec_packed()[i] == src.subrange(0, 33)[i] by {
            if i >= 1 {
                assert(payload[i - 1] == 0);
            }
        }
        assert(curve.spec_packed() =~= src.subrange(0, 33));
    }
}

/// A swap through a constant-product swap curve never lets the product of
/// the two reserves fall, whatever the fees are: the reserves it reports
/// multiply to at least what the reserves before it did. The reserves it
/// reports are the old ones with the amounts swapped added and taken off.
pub proof fn lemma_swap_curve_invariant_non_decreasing(
    curve: SwapCurve,
    source_amount: u128,
    swap_source_amount: u128,
    swap_destination_amount: u128,
    trade_direction: TradeDirection,
    fees: CurveFees,
)
    requires
        curve.calculator is ConstantProduct,
        curve.spec_swap(
            source_amount,
            swap_source_amount,
            swap_destination_amount,
            trade_direction,
            &fees,
        ) is Some,
    ensures
        ({
            let result = curve.spec_swap(
                source_amount,
                swap_source_amount,
                swap_destination_amount,
                trade_direction,
                &fees,
            )->0;
            &&& result.new_swap_source_amount * result.new_swap_destination_amount
                >= swap_source_amount * swap_destination_amount
            &&& result.new_swap_source_amount == swap_source_amount + result.source_amount_swapped
            &&& result.new_swap_destination_amount == swap_destination_amount
                - result.destination_amount_swapped
            &&& result.source_amount_swapped <= source_amount
        }),
{
    let (trade_fee, owner_fee) = spec_swap_fees(source_amount, &fees)->0;
    let net = (source_amount - trade_fee - owner_fee) as u128;
    lemma_swap_reserves(net, swap_source_amount, swap_destination_amount);
    let swapped = spec_swap(net, swap_source_amount, swap_destination_amount)->0;
    let result = curve.spec_swap(
        source_amount,
        swap_source_amount,
        swap_destination_amount,
        trade_direction,
        &fees,
    )->0;
    let kept = swap_source_amount + swapped.source_amount_swapped;
    let left = result.new_swap_destination_amount as int;
    let fee = trade_fee + owner_fee;
    assert((kept + fee) * left >= kept * left) by (nonlinear_arith)
        requires
            0 <= fee,
            0 <= left,
    ;
}

/// Raising the numerator of the trading fee or of the owner trading fee,
/// with the denominators held fixed, never raises the destination amount
/// that a swap gives the trader.
pub proof fn lemma_fee_monotonicity(
    curve: SwapCurve,
    source_amount: u128,
    swap_source_amount: u128,
    swap_destination_amount: u128,
    trade_direction: TradeDirection,
    low: CurveFees,
    high: CurveFees,
)
    requires
        curve.calculator is ConstantProduct,
        low.trade_fee_denominator == high.trade_fee_denominator,
        low.owner_trade_fee_denominator == high.owner_trade_fee_denominator,
        low.trade_fee_numerator <= high.trade_fee_numerator,
        low.owner_trade_fee_numerator <= high.owner_trade_fee_numerator,
        curve.spec_swap(
            source_amount,
            swap_source_amount,
            swap_destination_amount,
            trade_direction,
            &low,
        ) is Some,
        curve.spec_swap(
            source_amount,
            swap_source_amount,
            swap_destination_amount,
            trade_direction,
            &high,
        ) is Some,
    ensures
        curve.spec_swap(
            source_amount,
            swap_source_amount,
            swap_destination_amount,
            trade_direction,
            &high,
        )->0.destination_amount_swapped <= curve.spec_swap(
            source_amount,
            swap_source_amount,
            swap_destination_amount,
            trade_direction,
            &low,
        )->0.destination_amount_swapped,
{
    lemma_fee_monotone(
        source_amount,
        low.trade_fee_numerator,
        high.trade_fee_numerator,
        high.trade_fee_denominator,
    );
    lemma_fee_monotone(
        source_amount,
        low.owner_trade_fee_numerator,
        high.owner_trade_fee_numerator,
        high.owner_trade_fee_denominator,
    );
    let (low_trade, low_owner) = spec_swap_fees(source_amount, &low)->0;
    let (high_trade, high_owner) = spec_swap_fees(source_amount, &high)->0;
    let low_net = (source_amount - low_trade - low_owner) as u128;
    let high_net = (source_amount - high_trade - high_owner) as u128;
    assert(swap_defined(low_net, swap_source_amount, swap_destination_amount));
    assert(swap_defined(high_net, swap_source_amount, swap_destination_amount));
    lemma_ceil_div_antitone(
        swap_source_amount * swap_destination_amount,
        swap_source_amount + high_net,
        swap_source_amount + low_net,
    );
}

} // verus!
