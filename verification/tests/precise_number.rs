use dexy::curve::precise_number::{PreciseNumber, HALF, ONE};

fn scaled(value: u64) -> PreciseNumber {
    PreciseNumber { words: [value, 0, 0, 0] }
}

#[test]
fn one_is_ten_to_the_twelfth() {
    assert_eq!(ONE, 1_000_000_000_000);
    assert_eq!(HALF * 2, ONE);
}

#[test]
fn new_scales_by_one() {
    assert_eq!(PreciseNumber::new(5).unwrap().words, [5_000_000_000_000, 0, 0, 0]);
    assert_eq!(PreciseNumber::new(0).unwrap().words, [0, 0, 0, 0]);
}

#[test]
fn new_takes_every_128_bit_number() {
    // (2^128 - 1) * 10^12 = 10^12 * 2^128 - 10^12.
    let top = PreciseNumber::new(u128::MAX).unwrap();
    assert_eq!(top.words, [u64::MAX - 999_999_999_999, u64::MAX, 999_999_999_999, 0]);
}

#[test]
fn addition_adds_the_scaled_integers() {
    let sum = scaled(1_500_000_000_000).checked_add(&scaled(2_250_000_000_000)).unwrap();
    assert_eq!(sum.words, [3_750_000_000_000, 0, 0, 0]);
}

#[test]
fn addition_carries_into_the_next_word() {
    let sum = scaled(u64::MAX).checked_add(&scaled(1)).unwrap();
    assert_eq!(sum.words, [0, 1, 0, 0]);
}

#[test]
fn addition_overflow_is_refused() {
    let top = PreciseNumber { words: [u64::MAX; 4] };
    assert!(top.checked_add(&scaled(1)).is_none());
}

#[test]
fn subtraction_subtracts_the_scaled_integers() {
    let difference = scaled(2_250_000_000_000).checked_sub(&scaled(1_500_000_000_000)).unwrap();
    assert_eq!(difference.words, [750_000_000_000, 0, 0, 0]);
}

#[test]
fn subtraction_below_zero_is_refused() {
    assert!(PreciseNumber::new(1).unwrap().checked_sub(&PreciseNumber::new(2).unwrap()).is_none());
}

#[test]
fn multiplication_rounds_to_nearest() {
    let product = PreciseNumber::new(2).unwrap().checked_mul(&PreciseNumber::new(3).unwrap()).unwrap();
    assert_eq!(product.words, [6_000_000_000_000, 0, 0, 0]);
    // 0.000000000001 * 0.5 = 0.0000000000005, which rounds up.
    let tiny = scaled(1).checked_mul(&scaled(500_000_000_000)).unwrap();
    assert_eq!(tiny.words, [1, 0, 0, 0]);
    // 0.000000000001 * 0.499999999999 rounds down.
    let tinier = scaled(1).checked_mul(&scaled(499_999_999_999)).unwrap();
    assert_eq!(tinier.words, [0, 0, 0, 0]);
}

#[test]
fn multiplication_of_large_numbers_divides_first() {
    // The product of the scaled integers needs more than 256 bits, so the
    // larger one is divided by ONE first: 2^128 * (2^64 * 10^12 + 1).
    let big = PreciseNumber { words: [0, 0, 1_000_000_000_000, 0] };
    let small = PreciseNumber { words: [1, 1_000_000_000_000, 0, 0] };
    let expected = [0, 0, 1, 1_000_000_000_000];
    assert_eq!(big.checked_mul(&small).unwrap().words, expected);
    assert_eq!(small.checked_mul(&big).unwrap().words, expected);
}

#[test]
fn multiplication_overflow_is_refused() {
    let top = PreciseNumber { words: [u64::MAX; 4] };
    assert!(top.checked_mul(&top).is_none());
}

#[test]
fn division_adds_half_to_the_scaled_dividend() {
    // (10^24 + 5 * 10^11) / (3 * 10^12), rounded down.
    let third = PreciseNumber::new(1).unwrap().checked_div(&PreciseNumber::new(3).unwrap()).unwrap();
    assert_eq!(third.words, [333_333_333_333, 0, 0, 0]);
    // (2 * 10^24 + 5 * 10^11) / (3 * 10^12), rounded down.
    let two_thirds = PreciseNumber::new(2).unwrap().checked_div(&PreciseNumber::new(3).unwrap()).unwrap();
    assert_eq!(two_thirds.words, [666_666_666_666, 0, 0, 0]);
    // (10^12 + 5 * 10^11) / 1, where the divisor is the smallest there is.
    let smallest = PreciseNumber { words: [1, 0, 0, 0] };
    let scaled_up = PreciseNumber { words: [1, 0, 0, 0] }.checked_div(&smallest).unwrap();
    assert_eq!(scaled_up.words, [1_500_000_000_000, 0, 0, 0]);
}

#[test]
fn division_by_zero_is_refused() {
    assert!(PreciseNumber::new(1).unwrap().checked_div(&PreciseNumber::new(0).unwrap()).is_none());
}

#[test]
fn division_of_a_large_number_multiplies_last() {
    // 2^255 times ONE does not fit, so the quotient is scaled instead.
    let big = PreciseNumber { words: [0, 0, 0, 1 << 63] };
    let divisor = PreciseNumber { words: [0, 0, 0, 1 << 62] };
    assert_eq!(big.checked_div(&divisor).unwrap().words, [2_000_000_000_000, 0, 0, 0]);
}

#[test]
fn floor_drops_the_fraction() {
    assert_eq!(scaled(1_999_999_999_999).floor().unwrap().words, [1_000_000_000_000, 0, 0, 0]);
    assert_eq!(scaled(2_000_000_000_000).floor().unwrap().words, [2_000_000_000_000, 0, 0, 0]);
    assert_eq!(scaled(999_999_999_999).floor().unwrap().words, [0, 0, 0, 0]);
}

#[test]
fn ceiling_fills_the_fraction() {
    assert_eq!(scaled(1_000_000_000_001).ceiling().unwrap().words, [2_000_000_000_000, 0, 0, 0]);
    assert_eq!(scaled(2_000_000_000_000).ceiling().unwrap().words, [2_000_000_000_000, 0, 0, 0]);
    assert_eq!(scaled(0).ceiling().unwrap().words, [0, 0, 0, 0]);
}

#[test]
fn ceiling_overflow_is_refused() {
    let top = PreciseNumber { words: [u64::MAX; 4] };
    assert!(top.ceiling().is_none());
}

#[test]
fn to_imprecise_rounds_half_up() {
    assert_eq!(scaled(1_500_000_000_000).to_imprecise(), Some(2));
    assert_eq!(scaled(1_499_999_999_999).to_imprecise(), Some(1));
    assert_eq!(scaled(499_999_999_999).to_imprecise(), Some(0));
    assert_eq!(PreciseNumber::new(42).unwrap().to_imprecise(), Some(42));
}

#[test]
fn to_imprecise_reaches_the_top_of_the_range() {
    assert_eq!(PreciseNumber::new(u128::MAX).unwrap().to_imprecise(), Some(u128::MAX));
    let last = PreciseNumber { words: [18_446_743_573_709_551_615, u64::MAX, 999_999_999_999, 0] };
    assert!(last.fits_u128());
    assert_eq!(last.to_imprecise(), Some(u128::MAX));
}

#[test]
fn to_imprecise_refuses_what_128_bits_cannot_hold() {
    let first = PreciseNumber { words: [18_446_743_573_709_551_616, u64::MAX, 999_999_999_999, 0] };
    assert!(!first.fits_u128());
    assert_eq!(first.to_imprecise(), None);
    assert_eq!(PreciseNumber { words: [0, 0, 1_000_000_000_000, 0] }.to_imprecise(), None);
    assert_eq!(PreciseNumber { words: [0, 0, 0, 1] }.to_imprecise(), None);
    assert_eq!(PreciseNumber { words: [u64::MAX; 4] }.to_imprecise(), None);
}

#[test]
fn square_root_of_a_square() {
    assert_eq!(PreciseNumber::new(4).unwrap().sqrt().unwrap().to_imprecise(), Some(2));
    assert_eq!(PreciseNumber::new(1).unwrap().sqrt().unwrap().words, [1_000_000_000_000, 0, 0, 0]);
    assert_eq!(PreciseNumber::new(0).unwrap().sqrt().unwrap().words, [0, 0, 0, 0]);
}

#[test]
fn square_root_above_the_range_is_refused() {
    let top = PreciseNumber::new(u128::MAX).unwrap();
    assert!(top.sqrt().is_some());
    assert!(top.checked_add(&scaled(1)).unwrap().sqrt().is_none());
}
