use brontes::rational::Ratio;

fn ratio(numerator: u64, denominator: u64) -> Ratio {
    Ratio::from_u64(numerator).div(&Ratio::from_u64(denominator))
}

#[test]
fn product_of_integers_is_exact() {
    let a = Ratio::from_u64(6);
    let b = Ratio::from_u64(7);
    let c = a.mul(&b);
    assert!(c.eq(&Ratio::from_u64(42)));
    assert!(!c.eq(&a));
    assert!(!c.eq(&b));
}

#[test]
fn sum_of_fractions_is_exact() {
    let sum = ratio(1, 3).add(&ratio(1, 6));
    assert!(sum.eq(&ratio(1, 2)));
    assert!(!sum.eq(&ratio(1, 3)));
    assert!(!sum.eq(&ratio(1, 6)));
}

#[test]
fn difference_can_be_negative() {
    let difference = ratio(1, 4).sub(&ratio(3, 4));
    let (negative, _, _) = difference.to_parts();
    assert!(negative);
    assert!(difference.lt(&Ratio::zero()));
    assert!(difference.add(&ratio(1, 2)).is_zero());
}

#[test]
fn quotient_is_exact() {
    let quotient = ratio(3, 4).div(&ratio(9, 8));
    assert!(quotient.eq(&ratio(2, 3)));
    assert!(!quotient.eq(&ratio(3, 4)));
}

#[test]
fn order_follows_the_value_not_the_parts() {
    assert!(ratio(2, 3).lt(&ratio(3, 4)));
    assert!(!ratio(3, 4).lt(&ratio(2, 3)));
    assert!(!ratio(2, 4).lt(&ratio(1, 2)));
    assert!(ratio(2, 4).le(&ratio(1, 2)));
    assert!(ratio(2, 4).eq(&ratio(1, 2)));
}

#[test]
fn large_integers_keep_every_bit() {
    let big = Ratio::from_u128(u128::MAX);
    let (negative, numerator, denominator) = big.to_parts();
    assert!(!negative);
    assert_eq!(numerator, vec![u64::MAX, u64::MAX]);
    assert_eq!(denominator, vec![1]);
    let squared = big.mul(&big);
    assert!(squared.div(&big).eq(&big));
    assert!(big.lt(&squared));
}

#[test]
fn parts_with_zero_denominator_are_refused() {
    assert!(Ratio::from_parts(false, vec![1], vec![]).is_none());
    assert!(Ratio::from_parts(false, vec![1], vec![0, 0]).is_none());
    let half = Ratio::from_parts(false, vec![1], vec![2]).unwrap();
    assert!(half.eq(&ratio(1, 2)));
    let minus_half = Ratio::from_parts(true, vec![2], vec![4]).unwrap();
    assert!(minus_half.add(&half).is_zero());
    let two_to_sixty_four = Ratio::from_parts(false, vec![0, 1], vec![1]).unwrap();
    assert!(two_to_sixty_four.eq(&Ratio::from_u128(1u128 << 64)));
}

#[test]
fn zero_and_one_are_what_they_say() {
    assert!(Ratio::zero().is_zero());
    assert!(!Ratio::one().is_zero());
    assert!(Ratio::one().is_positive());
    assert!(!Ratio::zero().is_positive());
    assert!(Ratio::one().clone().eq(&Ratio::from_u64(1)));
}
