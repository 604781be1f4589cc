use stable_pool::wide::multiply_then_divide;

#[test]
fn multiply_then_divide_floors_the_quotient() {
    assert_eq!(multiply_then_divide(7, 3, 2), Some(10));
    assert_eq!(multiply_then_divide(0, 3, 2), Some(0));
    assert_eq!(multiply_then_divide(u128::MAX, u128::MAX, u128::MAX), Some(u128::MAX));
}

#[test]
fn multiply_then_divide_by_zero_is_none() {
    assert_eq!(multiply_then_divide(7, 3, 0), None);
    assert_eq!(multiply_then_divide(0, 0, 0), None);
}

#[test]
fn multiply_then_divide_too_large_is_none() {
    assert_eq!(multiply_then_divide(u128::MAX, 2, 1), None);
    assert_eq!(multiply_then_divide(u128::MAX, u128::MAX, 1), None);
    assert_eq!(multiply_then_divide(u128::MAX, 4, 2), None);
    assert_eq!(multiply_then_divide(u128::MAX, 4, 4), Some(u128::MAX));
}

#[test]
fn multiply_then_divide_uses_the_high_half_of_the_product() {
    let a: u128 = 1 << 127;
    assert_eq!(multiply_then_divide(a, 6, 4), Some(3 << 126));
    assert_eq!(multiply_then_divide(a, a, a), Some(a));
    assert_eq!(
        multiply_then_divide(300_000_000_000_000_000_000_000_000_000u128, 1_000_000_000_000, 3_000_000_000_000),
        Some(100_000_000_000_000_000_000_000_000_000u128)
    );
}
