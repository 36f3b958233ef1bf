//! Overflow-checked arithmetic on 64-bit unsigned integers.
//!
//! Each operation either returns the exact mathematical result or fails with
//! [`AmmError::Overflow`]; nothing wraps and nothing panics. Division
//! truncates toward zero.

use vstd::prelude::*;
use crate::error::AmmError;

verus! {

/// `a + b`, or `Overflow` when the sum does not fit in 64 bits.
pub fn checked_add(a: u64, b: u64) -> (res: Result<u64, AmmError>)
    ensures
        a + b <= u64::MAX ==> res == Ok::<u64, AmmError>((a + b) as u64),
        a + b > u64::MAX ==> res == Err::<u64, AmmError>(AmmError::Overflow),
{
    match a.checked_add(b) {
        Some(sum) => Ok(sum),
        None => Err(AmmError::Overflow),
    }
}

/// `a - b`, or `Overflow` when `b` exceeds `a`.
pub fn checked_sub(a: u64, b: u64) -> (res: Result<u64, AmmError>)
    ensures
        b <= a ==> res == Ok::<u64, AmmError>((a - b) as u64),
        b > a ==> res == Err::<u64, AmmError>(AmmError::Overflow),
{
    match a.checked_sub(b) {
        Some(difference) => Ok(difference),
        None => Err(AmmError::Overflow),
    }
}

/// `a * b`, or `Overflow` when the product does not fit in 64 bits.
pub fn checked_mul(a: u64, b: u64) -> (res: Result<u64, AmmError>)
    ensures
        a * b <= u64::MAX ==> res == Ok::<u64, AmmError>((a * b) as u64),
        a * b > u64::MAX ==> res == Err::<u64, AmmError>(AmmError::Overflow),
{
    match a.checked_mul(b) {
        Some(product) => Ok(product),
        None => Err(AmmError::Overflow),
    }
}

/// The quotient `a / b` truncated toward zero, or `Overflow` when `b` is zero.
pub fn checked_div(a: u64, b: u64) -> (res: Result<u64, AmmError>)
    ensures
        b != 0 ==> res == Ok::<u64, AmmError>(a / b),
        b == 0 ==> res == Err::<u64, AmmError>(AmmError::Overflow),
{
    match a.checked_div(b) {
        Some(quotient) => Ok(quotient),
        None => Err(AmmError::Overflow),
    }
}

} // verus!
