//! Fixed-point fee engine: splits a gross token quantity into the part that
//! goes to the user and the fee, with checked arithmetic.

use vstd::prelude::*;
use solana_program::program_error::ProgramError;
use crate::error::WithdrawalError;

verus! {

#[verifier::external_type_specification]
#[verifier::external_body]
pub struct ExProgramError(ProgramError);

/// Relies on solana_farm_sdk::math::checked_mul: `Ok` with the product when it
/// fits in `u128`, an error otherwise.
#[verifier::external_body]
fn checked_mul_u128(a: u128, b: u128) -> (r: Result<u128, ProgramError>)
    ensures
        r is Ok <==> a * b <= u128::MAX,
        r is Ok ==> r->Ok_0 == a * b,
{
    solana_farm_sdk::math::checked_mul(a, b)
}

/// Relies on solana_farm_sdk::math::checked_div: `Ok` with the truncated
/// quotient when the divisor is not zero, an error otherwise.
#[verifier::external_body]
fn checked_div_u128(a: u128, b: u128) -> (r: Result<u128, ProgramError>)
    ensures
        r is Ok <==> b != 0,
        r is Ok ==> r->Ok_0 == a / b,
{
    solana_farm_sdk::math::checked_div(a, b)
}

/// Relies on solana_farm_sdk::math::checked_as_u64: `Ok` with the same value
/// when it fits in `u64`, an error otherwise.
#[verifier::external_body]
fn checked_as_u64_from_u128(a: u128) -> (r: Result<u64, ProgramError>)
    ensures
        r is Ok <==> a <= u64::MAX,
        r is Ok ==> r->Ok_0 == a,
{
    solana_farm_sdk::math::checked_as_u64(a)
}

/// Relies on solana_farm_sdk::math::checked_sub: `Ok` with the difference when
/// it is not negative, an error otherwise.
#[verifier::external_body]
fn checked_sub_u64(a: u64, b: u64) -> (r: Result<u64, ProgramError>)
    ensures
        r is Ok <==> a >= b,
        r is Ok ==> r->Ok_0 == a - b,
{
    solana_farm_sdk::math::checked_sub(a, b)
}

/// How a gross token quantity is shared between the user and the fee account.
#[derive(Clone, Copy, Debug, PartialEq, Eq, Structural)]
pub struct FeeSplit {
    /// Tokens that go to the fee account.
    pub fee_tokens: u64,
    /// Tokens that go to the user.
    pub tokens_to_transfer: u64,
}

/// The fee owed on `tokens` at the rate `numerator / denominator`, rounded down.
pub open spec fn fee_of(tokens: u64, numerator: u64, denominator: u64) -> int
    recommends
        denominator != 0,
{
    (tokens as int * numerator as int) / (denominator as int)
}

/// What splitting `tokens` at the rate `numerator / denominator` gives.
pub open spec fn split_fee_spec(tokens: u64, numerator: u64, denominator: u64) -> Result<
    FeeSplit,
    WithdrawalError,
> {
    if denominator == 0 || fee_of(tokens, numerator, denominator) > tokens {
        Err(WithdrawalError::MathOverflow)
    } else if fee_of(tokens, numerator, denominator) == tokens {
        Err(WithdrawalError::AmountTooSmall)
    } else {
        Ok(
            FeeSplit {
                fee_tokens: fee_of(tokens, numerator, denominator) as u64,
                tokens_to_transfer: (tokens - fee_of(tokens, numerator, denominator)) as u64,
            },
        )
    }
}

/// Splits `tokens_to_remove` into the fee, `floor(tokens_to_remove *
/// fee_numerator / fee_denominator)` computed in 128 bits, and the rest, which
/// goes to the user. Fails on a zero denominator or a fee above the amount,
/// and when nothing would be left for the user.
pub fn split_fee(tokens_to_remove: u64, fee_numerator: u64, fee_denominator: u64) -> (r: Result<
    FeeSplit,
    WithdrawalError,
>)
    ensures
        r == split_fee_spec(tokens_to_remove, fee_numerator, fee_denominator),
        r is Ok ==> r->Ok_0.tokens_to_transfer + r->Ok_0.fee_tokens == tokens_to_remove,
        r is Ok ==> r->Ok_0.fee_tokens <= tokens_to_remove,
        r is Ok ==> r->Ok_0.tokens_to_transfer > 0,
{
    proof {
        assert(tokens_to_remove as int * fee_numerator as int <= u64::MAX as int * u64::MAX as int)
            by (nonlinear_arith);
    }
    let product = match checked_mul_u128(tokens_to_remove as u128, fee_numerator as u128) {
        Ok(p) => p,
        Err(_) => return Err(WithdrawalError::MathOverflow),
    };
    let quotient = match checked_div_u128(product, fee_denominator as u128) {
        Ok(q) => q,
        Err(_) => return Err(WithdrawalError::MathOverflow),
    };
    let fee_tokens = match checked_as_u64_from_u128(quotient) {
        Ok(f) => f,
        Err(_) => return Err(WithdrawalError::MathOverflow),
    };
    let tokens_to_transfer = match checked_sub_u64(tokens_to_remove, fee_tokens) {
        Ok(t) => t,
        Err(_) => return Err(WithdrawalError::MathOverflow),
    };
    if tokens_to_transfer == 0 {
        return Err(WithdrawalError::AmountTooSmall);
    }
    Ok(FeeSplit { fee_tokens, tokens_to_transfer })
}

} // verus!
