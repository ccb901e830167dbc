use mango_tcs::fixed_point::Fixed;

const ONE: i128 = 1 << 48;

#[test]
fn from_integers_are_exact() {
    assert_eq!(Fixed::from_u64(3).bits, 3 * ONE);
    assert_eq!(Fixed::from_i64(-7).bits, -7 * ONE);
    assert_eq!(Fixed::from_u64(u64::MAX).bits, (u64::MAX as i128) * ONE);
    assert_eq!(Fixed::zero().bits, 0);
}

#[test]
fn product_rounds_toward_minus_infinity() {
    let one_and_half = Fixed::from_bits(3 * ONE / 2);
    assert_eq!(one_and_half.product(Fixed::from_u64(2)).bits, 3 * ONE);
    // -2^-48 * 0.5 = -2^-49, rounded down to -2^-48
    assert_eq!(Fixed::from_bits(-1).product(Fixed::from_bits(ONE / 2)).bits, -1);
    // 2^-48 * 0.5 rounds down to zero
    assert_eq!(Fixed::from_bits(1).product(Fixed::from_bits(ONE / 2)).bits, 0);
}

#[test]
fn quotient_rounds_toward_zero() {
    assert_eq!(Fixed::from_u64(7).quotient(Fixed::from_u64(2)).bits, 7 * ONE / 2);
    // -2^-48 / 2 = -2^-49 rounds toward zero
    assert_eq!(Fixed::from_bits(-1).quotient(Fixed::from_u64(2)).bits, 0);
    // 1 / 3
    assert_eq!(Fixed::from_u64(1).quotient(Fixed::from_u64(3)).bits, ONE / 3);
    assert_eq!(Fixed::from_i64(-1).quotient(Fixed::from_u64(3)).bits, -(ONE / 3));
}

#[test]
fn floor_clears_the_fraction() {
    assert_eq!(Fixed::from_bits(7 * ONE / 2).floor().bits, 3 * ONE);
    assert_eq!(Fixed::from_bits(-1).floor().bits, -ONE);
    assert_eq!(Fixed::from_i64(-4).floor().bits, -4 * ONE);
}

#[test]
fn conversions_to_integers() {
    assert_eq!(Fixed::from_bits(39 * ONE / 10).to_u64(), 3);
    assert_eq!(Fixed::from_bits(39 * ONE / 10).clamp_to_u64(), 3);
    assert_eq!(Fixed::from_i64(-5).clamp_to_u64(), 0);
    assert_eq!(Fixed::from_bits(ONE / 2).clamp_to_u64(), 0);
    assert_eq!(Fixed::from_bits(i128::MAX).clamp_to_u64(), u64::MAX);
    assert_eq!(Fixed::from_bits(-1).clamp_to_i64(), -1);
    assert_eq!(Fixed::from_bits(i128::MIN).clamp_to_i64(), i64::MIN);
    assert_eq!(Fixed::from_bits(i128::MAX).clamp_to_i64(), i64::MAX);
    assert_eq!(Fixed::from_u64(12).clamp_to_i64(), 12);
}

#[test]
fn comparisons_with_integers() {
    let two_and_half = Fixed::from_bits(5 * ONE / 2);
    assert!(two_and_half.exceeds_u64(2));
    assert!(!two_and_half.exceeds_u64(3));
    assert!(two_and_half.below_u64(3));
    assert!(!two_and_half.below_u64(2));
    assert_eq!(two_and_half.min(Fixed::from_u64(1)).bits, ONE);
    assert_eq!(two_and_half.max(Fixed::from_u64(1)).bits, 5 * ONE / 2);
    assert_eq!(Fixed::from_u64(4).difference(two_and_half).bits, 3 * ONE / 2);
}
