use vstd::prelude::*;
use crate::error::SettlementError;

verus! {

/// Whether `v` can be held in an `i128`.
pub open spec fn fits_i128(v: int) -> bool {
    i128::MIN <= v <= i128::MAX
}

/// `bps` basis points of `amount`, rounded down.
pub open spec fn bps_share(amount: int, bps: int) -> int {
    (amount * bps) / 10_000
}

pub fn checked_add(a: i128, b: i128) -> (r: Result<i128, SettlementError>)
    ensures
        fits_i128(a + b) ==> r == Ok::<i128, SettlementError>((a + b) as i128),
        !fits_i128(a + b) ==> r == Err::<i128, SettlementError>(SettlementError::Overflow),
{
    match a.checked_add(b) {
        Some(v) => Ok(v),
        None => Err(SettlementError::Overflow),
    }
}

pub fn checked_sub(a: i128, b: i128) -> (r: Result<i128, SettlementError>)
    ensures
        fits_i128(a - b) ==> r == Ok::<i128, SettlementError>((a - b) as i128),
        !fits_i128(a - b) ==> r == Err::<i128, SettlementError>(SettlementError::Overflow),
{
    match a.checked_sub(b) {
        Some(v) => Ok(v),
        None => Err(SettlementError::Overflow),
    }
}

pub fn checked_mul(a: i128, b: i128) -> (r: Result<i128, SettlementError>)
    ensures
        fits_i128(a * b) ==> r == Ok::<i128, SettlementError>((a * b) as i128),
        !fits_i128(a * b) ==> r == Err::<i128, SettlementError>(SettlementError::Overflow),
{
    match a.checked_mul(b) {
        Some(v) => Ok(v),
        None => Err(SettlementError::Overflow),
    }
}

/// The share of `amount` that `bps` basis points stand for, or `Overflow`
/// when the product `amount * bps` leaves the range of `i128`.
pub fn mul_bps(amount: i128, bps: u32) -> (r: Result<i128, SettlementError>)
    ensures
        fits_i128(amount * bps) ==> r == Ok::<i128, SettlementError>(bps_share(amount as int, bps as int) as i128),
        !fits_i128(amount * bps) ==> r == Err::<i128, SettlementError>(SettlementError::Overflow),
        r is Ok ==> fits_i128(bps_share(amount as int, bps as int)),
{
    let numerator = match checked_mul(amount, bps as i128) {
        Ok(v) => v,
        Err(e) => { return Err(e); },
    };
    let quotient = numerator / 10_000;
    if numerator % 10_000 < 0 {
        Ok(quotient - 1)
    } else {
        Ok(quotient)
    }
}

} // verus!
