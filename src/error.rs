//! Errors that a withdrawal approval can end with.

use vstd::prelude::*;

verus! {

/// Why a withdrawal approval was refused.
#[derive(Clone, Copy, Debug, PartialEq, Eq, Structural)]
pub enum WithdrawalError {
    /// The account list does not have the expected length.
    NotEnoughAccountKeys,
    /// The fund has started liquidation.
    FundInLiquidation,
    /// The signing authority is not the fund's derived authority.
    InvalidFundAuthority,
    /// The withdrawal destination is not owned by the requesting user.
    IllegalOwner,
    /// The share-token mint is not the fund's mint.
    InvalidFundTokenMint,
    /// The custody, fee or oracle accounts are not the fund's registered set.
    InvalidCustodyAccounts,
    /// The user ledger does not belong to this user, fund and token.
    InvalidUserInfoAccount,
    /// The user has no pending withdrawal request.
    NoPendingWithdrawal,
    /// The resolved settlement quantity is zero.
    ZeroAmount,
    /// The settlement quantity exceeds the share-token supply.
    SupplyExceeded,
    /// The fund's asset value was updated too long ago.
    StaleAssetsValue,
    /// A checked arithmetic step overflowed.
    MathOverflow,
    /// Nothing would be left to transfer once the fee is taken.
    AmountTooSmall,
    /// The custody account holds fewer tokens than the withdrawal needs.
    CustodyUnderfunded,
}

impl WithdrawalError {
    /// True for the errors that report a lack of funds, on the user's side
    /// or on the fund's.
    pub fn is_insufficient_funds(&self) -> (r: bool)
        ensures
            r == (*self == WithdrawalError::ZeroAmount || *self == WithdrawalError::SupplyExceeded
                || *self == WithdrawalError::AmountTooSmall || *self
                == WithdrawalError::CustodyUnderfunded),
    {
        match self {
            WithdrawalError::ZeroAmount => true,
            WithdrawalError::SupplyExceeded => true,
            WithdrawalError::AmountTooSmall => true,
            WithdrawalError::CustodyUnderfunded => true,
            _ => false,
        }
    }
}

} // verus!
