use amm::error::AmmError;
use amm::math::checked_add;
use amm::math::checked_div;
use amm::math::checked_mul;
use amm::math::checked_sub;

#[test]
fn checked_add_returns_the_sum() {
    assert_eq!(checked_add(2, 3), Ok(5));
    assert_eq!(checked_add(u64::MAX - 1, 1), Ok(u64::MAX));
}

#[test]
fn checked_add_fails_past_the_top() {
    assert_eq!(checked_add(u64::MAX, 1), Err(AmmError::Overflow));
}

#[test]
fn checked_sub_returns_the_difference() {
    assert_eq!(checked_sub(5, 3), Ok(2));
    assert_eq!(checked_sub(5, 5), Ok(0));
}

#[test]
fn checked_sub_fails_below_zero() {
    assert_eq!(checked_sub(3, 5), Err(AmmError::Overflow));
}

#[test]
fn checked_mul_returns_the_product() {
    assert_eq!(checked_mul(100, 50), Ok(5000));
    assert_eq!(checked_mul(u64::MAX, 1), Ok(u64::MAX));
}

#[test]
fn checked_mul_fails_past_the_top() {
    assert_eq!(checked_mul(1 << 32, 1 << 32), Err(AmmError::Overflow));
    assert_eq!(checked_mul(u64::MAX, 2), Err(AmmError::Overflow));
}

#[test]
fn checked_div_truncates() {
    assert_eq!(checked_div(7, 2), Ok(3));
    assert_eq!(checked_div(1100, 1000), Ok(1));
    assert_eq!(checked_div(1, 2), Ok(0));
}

#[test]
fn checked_div_fails_on_zero_divisor() {
    assert_eq!(checked_div(7, 0), Err(AmmError::Overflow));
    assert_eq!(checked_div(0, 0), Err(AmmError::Overflow));
}
