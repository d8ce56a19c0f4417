//! Fixed-point numbers with twelve decimal digits after the point.
//!
//! A [`PreciseNumber`] holds the four 64-bit words of a 256-bit unsigned
//! integer, least significant first. The integer is the represented value
//! times [`ONE`]. The arithmetic itself is done by the `spl-math` crate; the
//! functions here say, over the integer that the words stand for, what each
//! operation returns.

use vstd::prelude::*;

verus! {

/// The number one as a fixed-point integer: ten to the twelfth.
pub const ONE: u128 = 1_000_000_000_000;

/// Half of [`ONE`]: what the arithmetic adds to a dividend before it divides.
/// Before a division by [`ONE`] this makes the quotient round to nearest.
pub const HALF: u128 = 500_000_000_000;

/// Two to the 256th: the first integer that four words cannot hold.
pub open spec fn limit() -> nat {
    0x1_0000_0000_0000_0000_0000_0000_0000_0000_0000_0000_0000_0000_0000_0000_0000_0000nat
}

/// The integer that four little-endian words stand for.
pub open spec fn words_value(w: Seq<u64>) -> nat {
    (w[0] + w[1] * 0x1_0000_0000_0000_0000nat + w[2] * 0x1_0000_0000_0000_0000_0000_0000_0000_0000nat
        + w[3] * 0x1_0000_0000_0000_0000_0000_0000_0000_0000_0000_0000_0000_0000nat) as nat
}

/// A non-negative fixed-point number below two to the 256th over [`ONE`].
#[derive(Debug, Clone, Copy, PartialEq, Eq)]
pub struct PreciseNumber {
    /// The scaled integer as little-endian 64-bit words.
    pub words: [u64; 4],
}

impl View for PreciseNumber {
    type V = nat;

    /// The scaled integer: the represented value times [`ONE`].
    open spec fn view(&self) -> nat {
        words_value(self.words@)
    }
}

/// The scaled integer inside an optional number.
pub open spec fn opt_view(r: Option<PreciseNumber>) -> Option<nat> {
    match r {
        Some(p) => Some(p@),
        None => None,
    }
}

/// Sum of two scaled integers; nothing where it needs more than 256 bits.
pub open spec fn spec_add(a: nat, b: nat) -> Option<nat> {
    if a + b < limit() {
        Some(a + b)
    } else {
        None
    }
}

/// Difference of two scaled integers; nothing where it would be negative.
pub open spec fn spec_sub(a: nat, b: nat) -> Option<nat> {
    if a >= b {
        Some((a - b) as nat)
    } else {
        None
    }
}

/// Product of two fixed-point numbers, rounded to nearest. Where the product
/// of the scaled integers needs more than 256 bits, the larger factor is
/// divided by [`ONE`] first, which rounds down.
pub open spec fn spec_mul(a: nat, b: nat) -> Option<nat> {
    if a * b < limit() {
        if a * b + HALF < limit() {
            Some(((a * b + HALF) / (ONE as int)) as nat)
        } else {
            None
        }
    } else {
        let big = if a >= b { a } else { b };
        let small = if a >= b { b } else { a };
        if (big as int / ONE as int) * small < limit() {
            Some(((big as int / ONE as int) * small) as nat)
        } else {
            None
        }
    }
}

/// Quotient of two fixed-point numbers, rounded down after [`HALF`] was added
/// to the dividend; nothing for a zero divisor. The dividend is scaled by
/// [`ONE`] before [`HALF`] is added where that fits in 256 bits, and the
/// quotient is scaled after the division where it does not.
pub open spec fn spec_div(a: nat, b: nat) -> Option<nat> {
    if b == 0 {
        None
    } else if a * ONE < limit() {
        if a * ONE + HALF < limit() {
            Some(((a * ONE + HALF) / (b as int)) as nat)
        } else {
            None
        }
    } else if a + HALF < limit() && ((a + HALF) / (b as int)) * ONE < limit() {
        Some((((a + HALF) / (b as int)) * ONE) as nat)
    } else {
        None
    }
}

/// The largest whole number not above `a`, as a scaled integer.
pub open spec fn spec_floor(a: nat) -> nat {
    ((a as int / ONE as int) * ONE) as nat
}

/// The smallest whole number not below `a`, as a scaled integer; nothing
/// where adding `ONE - 1` needs more than 256 bits.
pub open spec fn spec_ceiling(a: nat) -> Option<nat> {
    if a + ONE - 1 < limit() {
        Some((((a + ONE - 1) / (ONE as int)) * ONE) as nat)
    } else {
        None
    }
}

/// Whether `a`, rounded to the nearest whole number, fits in 128 bits.
pub open spec fn spec_fits_u128(a: nat) -> bool {
    (a + HALF) / (ONE as int) <= u128::MAX
}

/// The whole number nearest to `a`; nothing where it does not fit in 128 bits.
pub open spec fn spec_to_imprecise(a: nat) -> Option<u128> {
    if spec_fits_u128(a) {
        Some(((a + HALF) / (ONE as int)) as u128)
    } else {
        None
    }
}

/// The scaled integer that `spl-math` returns as the square root of the
/// fixed-point number with scaled integer `value`, or nothing where it gives
/// none. The root is found by at most a hundred steps of Newton's method from
/// the starting point `(value + ONE) / 2`, so it depends on `value` alone.
pub uninterp spec fn sqrt_value(value: nat) -> Option<nat>;

/// Calls `PreciseNumber::new` of `spl-math`, which multiplies the 256-bit
/// form of `value` by [`ONE`] with a checked multiplication.
#[verifier::external_body]
fn spl_new(value: u128) -> (r: Option<PreciseNumber>)
    ensures
        opt_view(r) == (if value * ONE < limit() {
            Some((value * ONE) as nat)
        } else {
            None
        }),
{
    match spl_math::precise_number::PreciseNumber::new(value) {
        Some(p) => Some(PreciseNumber { words: p.value.0 }),
        None => None,
    }
}

/// Calls `PreciseNumber::checked_add` of `spl-math`: a checked addition of the
/// two 256-bit integers.
#[verifier::external_body]
fn spl_checked_add(a: &PreciseNumber, b: &PreciseNumber) -> (r: Option<PreciseNumber>)
    ensures
        opt_view(r) == spec_add(a@, b@),
{
    let x = spl_math::precise_number::PreciseNumber { value: spl_math::uint::U256(a.words) };
    let y = spl_math::precise_number::PreciseNumber { value: spl_math::uint::U256(b.words) };
    match x.checked_add(&y) {
        Some(p) => Some(PreciseNumber { words: p.value.0 }),
        None => None,
    }
}

/// Calls `PreciseNumber::checked_sub` of `spl-math`: a checked subtraction of
/// the two 256-bit integers.
#[verifier::external_body]
fn spl_checked_sub(a: &PreciseNumber, b: &PreciseNumber) -> (r: Option<PreciseNumber>)
    ensures
        opt_view(r) == spec_sub(a@, b@),
{
    let x = spl_math::precise_number::PreciseNumber { value: spl_math::uint::U256(a.words) };
    let y = spl_math::precise_number::PreciseNumber { value: spl_math::uint::U256(b.words) };
    match x.checked_sub(&y) {
        Some(p) => Some(PreciseNumber { words: p.value.0 }),
        None => None,
    }
}

/// Calls `PreciseNumber::checked_mul` of `spl-math`. It multiplies the two
/// integers; where that fits in 256 bits it adds [`HALF`] and divides by
/// [`ONE`], and where it does not it divides the larger integer by [`ONE`]
/// and multiplies by the smaller. Every step is checked.
#[verifier::external_body]
fn spl_checked_mul(a: &PreciseNumber, b: &PreciseNumber) -> (r: Option<PreciseNumber>)
    ensures
        opt_view(r) == spec_mul(a@, b@),
{
    let x = spl_math::precise_number::PreciseNumber { value: spl_math::uint::U256(a.words) };
    let y = spl_math::precise_number::PreciseNumber { value: spl_math::uint::U256(b.words) };
    match x.checked_mul(&y) {
        Some(p) => Some(PreciseNumber { words: p.value.0 }),
        None => None,
    }
}

/// Calls `PreciseNumber::checked_div` of `spl-math`. It refuses a zero
/// divisor. Where the dividend times [`ONE`] fits in 256 bits it adds
/// [`HALF`] to that and divides; where it does not it adds [`HALF`] to the
/// dividend, divides, and multiplies by [`ONE`]. Every step is checked.
#[verifier::external_body]
fn spl_checked_div(a: &PreciseNumber, b: &PreciseNumber) -> (r: Option<PreciseNumber>)
    ensures
        opt_view(r) == spec_div(a@, b@),
{
    let x = spl_math::precise_number::PreciseNumber { value: spl_math::uint::U256(a.words) };
    let y = spl_math::precise_number::PreciseNumber { value: spl_math::uint::U256(b.words) };
    match x.checked_div(&y) {
        Some(p) => Some(PreciseNumber { words: p.value.0 }),
        None => None,
    }
}

/// Calls `PreciseNumber::floor` of `spl-math`: the integer divided by
/// [`ONE`], then multiplied by [`ONE`] with a checked multiplication.
#[verifier::external_body]
fn spl_floor(a: &PreciseNumber) -> (r: Option<PreciseNumber>)
    ensures
        opt_view(r) == (if spec_floor(a@) < limit() {
            Some(spec_floor(a@))
        } else {
            None
        }),
{
    let x = spl_math::precise_number::PreciseNumber { value: spl_math::uint::U256(a.words) };
    match x.floor() {
        Some(p) => Some(PreciseNumber { words: p.value.0 }),
        None => None,
    }
}

/// Calls `PreciseNumber::ceiling` of `spl-math`: `ONE - 1` is added with a
/// checked addition, and the sum is divided by [`ONE`] and multiplied by
/// [`ONE`] with a checked multiplication.
#[verifier::external_body]
fn spl_ceiling(a: &PreciseNumber) -> (r: Option<PreciseNumber>)
    ensures
        opt_view(r) == (match spec_ceiling(a@) {
            Some(c) => if c < limit() {
                Some(c)
            } else {
                None
            },
            None => None,
        }),
{
    let x = spl_math::precise_number::PreciseNumber { value: spl_math::uint::U256(a.words) };
    match x.ceiling() {
        Some(p) => Some(PreciseNumber { words: p.value.0 }),
        None => None,
    }
}

/// Calls `PreciseNumber::to_imprecise` of `spl-math`: [`HALF`] is added with
/// a checked addition and the sum divided by [`ONE`]. The quotient is then
/// narrowed to 128 bits by a conversion that panics where it does not fit,
/// which the precondition leaves out.
#[verifier::external_body]
fn spl_to_imprecise(a: &PreciseNumber) -> (r: Option<u128>)
    requires
        spec_fits_u128(a@),
    ensures
        r == Some(((a@ + HALF) / (ONE as int)) as u128),
{
    let x = spl_math::precise_number::PreciseNumber { value: spl_math::uint::U256(a.words) };
    x.to_imprecise()
}

/// Calls `PreciseNumber::sqrt` of `spl-math`, whose result is a function of
/// the number alone.
#[verifier::external_body]
fn spl_sqrt(a: &PreciseNumber) -> (r: Option<PreciseNumber>)
    ensures
        opt_view(r) == sqrt_value(a@),
{
    let x = spl_math::precise_number::PreciseNumber { value: spl_math::uint::U256(a.words) };
    match x.sqrt() {
        Some(p) => Some(PreciseNumber { words: p.value.0 }),
        None => None,
    }
}

impl PreciseNumber {
    /// The fixed-point form of a whole number. Every 128-bit number has one.
    pub fn new(value: u128) -> (r: Option<PreciseNumber>)
        ensures
            opt_view(r) == Some((value * ONE) as nat),
    {
        assert(value * ONE < limit()) by (nonlinear_arith)
            requires
                value <= u128::MAX,
                ONE == 1_000_000_000_000,
                limit() ==
                0x1_0000_0000_0000_0000_0000_0000_0000_0000_0000_0000_0000_0000_0000_0000_0000_0000nat,
        ;
        spl_new(value)
    }

    /// The sum, or nothing where it needs more than 256 bits.
    pub fn checked_add(&self, rhs: &PreciseNumber) -> (r: Option<PreciseNumber>)
        ensures
            opt_view(r) == spec_add(self@, rhs@),
    {
        spl_checked_add(self, rhs)
    }

    /// The difference, or nothing where `rhs` is the larger.
    pub fn checked_sub(&self, rhs: &PreciseNumber) -> (r: Option<PreciseNumber>)
        ensures
            opt_view(r) == spec_sub(self@, rhs@),
    {
        spl_checked_sub(self, rhs)
    }

    /// The product rounded as [`spec_mul`] says, or nothing on overflow.
    pub fn checked_mul(&self, rhs: &PreciseNumber) -> (r: Option<PreciseNumber>)
        ensures
            opt_view(r) == spec_mul(self@, rhs@),
    {
        spl_checked_mul(self, rhs)
    }

    /// The quotient rounded as [`spec_div`] says, or nothing for a zero
    /// divisor or on overflow.
    pub fn checked_div(&self, rhs: &PreciseNumber) -> (r: Option<PreciseNumber>)
        ensures
            opt_view(r) == spec_div(self@, rhs@),
    {
        spl_checked_div(self, rhs)
    }

    /// The square root as `spl-math` approximates it.
    pub fn sqrt(&self) -> (r: Option<PreciseNumber>)
        ensures
            opt_view(r) == sqrt_value(self@),
    {
        spl_sqrt(self)
    }

    /// The number rounded down to a whole number. Always succeeds.
    pub fn floor(&self) -> (r: Option<PreciseNumber>)
        ensures
            opt_view(r) == Some(spec_floor(self@)),
            spec_floor(self@) <= self@,
    {
        proof {
            lemma_floor_le(self@);
            lemma_value_below_limit(self.words@);
        }
        spl_floor(self)
    }

    /// The number rounded up to a whole number, or nothing where that needs
    /// more than 256 bits.
    pub fn ceiling(&self) -> (r: Option<PreciseNumber>)
        ensures
            opt_view(r) == spec_ceiling(self@),
    {
        proof {
            if self@ + ONE - 1 < limit() {
                lemma_floor_le((self@ + ONE - 1) as nat);
            }
        }
        spl_ceiling(self)
    }

    /// Whether the number, rounded to nearest, fits in 128 bits.
    pub fn fits_u128(&self) -> (r: bool)
        ensures
            r == spec_fits_u128(self@),
    {
        let w = &self.words;
        w[3] == 0 && (w[2] < 999_999_999_999 || (w[2] == 999_999_999_999 && (w[1]
            < 0xffff_ffff_ffff_ffff || w[0] < 18_446_743_573_709_551_616)))
    }

    /// The whole number nearest to this one (a half rounds up), or nothing
    /// where it does not fit in 128 bits.
    pub fn to_imprecise(&self) -> (r: Option<u128>)
        ensures
            r == spec_to_imprecise(self@),
    {
        if self.fits_u128() {
            spl_to_imprecise(self)
        } else {
            None
        }
    }
}

/// Four words stand for an integer below two to the 256th.
pub proof fn lemma_value_below_limit(w: Seq<u64>)
    ensures
        words_value(w) < limit(),
{
}

/// Rounding down to a whole number does not increase a number.
pub proof fn lemma_floor_le(a: nat)
    ensures
        spec_floor(a) <= a,
        spec_floor(a) + ONE > a,
        spec_floor(a) as int % (ONE as int) == 0,
{
}

} // verus!
