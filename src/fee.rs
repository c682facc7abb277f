use vstd::prelude::*;

use crate::errors::ErrorCode;
use crate::state::MAX_FEE_BPS;

verus! {

/// Basis points in a whole.
pub const BPS_DENOMINATOR: u128 = 10000;

/// The protocol fee on `amount` at `fee_bps` basis points: `floor(amount * fee_bps / 10000)`.
pub open spec fn fee_of(amount: int, fee_bps: int) -> int {
    amount * fee_bps / 10000
}

/// How a gross amount is split between the fee collector and the merchant.
#[derive(Clone, Copy, Debug, PartialEq, Eq, Structural)]
pub struct FeeSplit {
    pub fee: u64,
    pub merchant_amount: u64,
}

/// A fee of at most 10000 basis points never exceeds the amount it is taken from.
pub proof fn lemma_fee_within_amount(amount: int, fee_bps: int)
    requires
        0 <= amount,
        0 <= fee_bps <= 10000,
    ensures
        0 <= fee_of(amount, fee_bps) <= amount,
{
    assert(0 <= amount * fee_bps <= amount * 10000) by (nonlinear_arith)
        requires
            0 <= amount,
            0 <= fee_bps <= 10000,
    ;
    assert(amount * 10000 / 10000 == amount) by (nonlinear_arith);
    assert(amount * fee_bps / 10000 <= amount * 10000 / 10000) by (nonlinear_arith)
        requires
            amount * fee_bps <= amount * 10000,
    ;
    assert(0 <= amount * fee_bps / 10000) by (nonlinear_arith)
        requires
            0 <= amount * fee_bps,
    ;
}

/// Splits `amount` into the protocol fee at `fee_bps` basis points and the merchant's
/// net amount. The product is taken in 128 bits, so only a fee larger than the amount
/// (a rate above 10000 basis points) fails, with `CalculationError`.
pub fn calculate_fee(amount: u64, fee_bps: u16) -> (r: Result<FeeSplit, ErrorCode>)
    ensures
        r is Ok <==> fee_of(amount as int, fee_bps as int) <= amount,
        fee_bps <= MAX_FEE_BPS ==> r is Ok,
        r matches Ok(s) ==> {
            &&& s.fee == fee_of(amount as int, fee_bps as int)
            &&& s.fee + s.merchant_amount == amount
        },
        r matches Err(e) ==> e == ErrorCode::CalculationError,
{
    proof {
        assert(0 <= amount as int * fee_bps as int <= u64::MAX as int * u16::MAX as int)
            by (nonlinear_arith);
        assert(amount as int * fee_bps as int / 10000 >= 0) by (nonlinear_arith);
        if fee_bps <= MAX_FEE_BPS {
            lemma_fee_within_amount(amount as int, fee_bps as int);
        }
    }
    let product = match (amount as u128).checked_mul(fee_bps as u128) {
        Some(p) => p,
        None => return Err(ErrorCode::CalculationError),
    };
    let fee_wide = product / BPS_DENOMINATOR;
    if fee_wide > amount as u128 {
        return Err(ErrorCode::CalculationError);
    }
    let fee = fee_wide as u64;
    match amount.checked_sub(fee) {
        Some(merchant_amount) => Ok(FeeSplit { fee, merchant_amount }),
        None => Err(ErrorCode::CalculationError),
    }
}

} // verus!
