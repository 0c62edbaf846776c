//! The settlement decisions of a withdrawal approval: the account gate, the
//! resolution of the settled quantity, the freshness and supply guards, and
//! the final transfer plan.

use vstd::prelude::*;
use crate::error::WithdrawalError;
use crate::fee::{FeeSplit, split_fee, split_fee_spec};
use crate::ledger::{FundState, UserRequestLedger};

verus! {

/// The number of accounts that an approval takes, in their fixed role order.
pub const APPROVE_WITHDRAWAL_ACCOUNTS: usize = 16;

/// What the account checks found about the accounts presented for an
/// approval. Each flag is the outcome of one ownership or address check.
#[derive(Clone, Copy, Debug, PartialEq, Eq, Structural)]
pub struct AccountChecks {
    /// When the fund started liquidation; zero while it is not liquidating.
    pub liquidation_start_time: i64,
    /// The signing authority is the fund's derived authority.
    pub authority_matches: bool,
    /// The withdrawal destination is owned by the requesting user.
    pub destination_owned_by_user: bool,
    /// The share-token mint is the fund's mint.
    pub fund_token_mint_matches: bool,
    /// Custody, fee and oracle accounts are the fund's registered set.
    pub custody_accounts_match: bool,
    /// The user ledger belongs to this user, fund and custody token.
    pub user_info_matches: bool,
}

/// The outcome of the account gate: the first failed check, in order.
pub open spec fn validate_spec(c: AccountChecks) -> Result<(), WithdrawalError> {
    if c.liquidation_start_time != 0 {
        Err(WithdrawalError::FundInLiquidation)
    } else if !c.authority_matches {
        Err(WithdrawalError::InvalidFundAuthority)
    } else if !c.destination_owned_by_user {
        Err(WithdrawalError::IllegalOwner)
    } else if !c.fund_token_mint_matches {
        Err(WithdrawalError::InvalidFundTokenMint)
    } else if !c.custody_accounts_match {
        Err(WithdrawalError::InvalidCustodyAccounts)
    } else if !c.user_info_matches {
        Err(WithdrawalError::InvalidUserInfoAccount)
    } else {
        Ok(())
    }
}

/// Accepts exactly the expected number of accounts.
pub fn check_account_count(n: usize) -> (r: Result<(), WithdrawalError>)
    ensures
        r is Ok <==> n == APPROVE_WITHDRAWAL_ACCOUNTS,
        r is Err ==> r->Err_0 == WithdrawalError::NotEnoughAccountKeys,
{
    if n == APPROVE_WITHDRAWAL_ACCOUNTS {
        Ok(())
    } else {
        Err(WithdrawalError::NotEnoughAccountKeys)
    }
}

/// Refuses a fund that has started liquidation. Reads nothing but the flag.
pub fn check_not_liquidating(liquidation_start_time: i64) -> (r: Result<(), WithdrawalError>)
    ensures
        r is Ok <==> liquidation_start_time == 0,
        r is Err ==> r->Err_0 == WithdrawalError::FundInLiquidation,
{
    if liquidation_start_time != 0 {
        Err(WithdrawalError::FundInLiquidation)
    } else {
        Ok(())
    }
}

/// The account gate: liquidation first, then authority, destination owner,
/// share-token mint, custody accounts and user ledger.
pub fn validate_accounts(checks: &AccountChecks) -> (r: Result<(), WithdrawalError>)
    ensures
        r == validate_spec(*checks),
{
    check_not_liquidating(checks.liquidation_start_time)?;
    if !checks.authority_matches {
        return Err(WithdrawalError::InvalidFundAuthority);
    }
    if !checks.destination_owned_by_user {
        return Err(WithdrawalError::IllegalOwner);
    }
    if !checks.fund_token_mint_matches {
        return Err(WithdrawalError::InvalidFundTokenMint);
    }
    if !checks.custody_accounts_match {
        return Err(WithdrawalError::InvalidCustodyAccounts);
    }
    if !checks.user_info_matches {
        return Err(WithdrawalError::InvalidUserInfoAccount);
    }
    Ok(())
}

/// Whether an asset value updated at `update_time` is too old at `now`.
pub open spec fn is_stale(now: i64, update_time: i64, max_age_sec: u64) -> bool {
    now - update_time > max_age_sec
}

/// Refuses an asset value older than `max_age_sec` at `now`.
pub fn check_assets_update_time(update_time: i64, max_age_sec: u64, now: i64) -> (r: Result<
    (),
    WithdrawalError,
>)
    ensures
        r is Ok <==> !is_stale(now, update_time, max_age_sec),
        r is Err ==> r->Err_0 == WithdrawalError::StaleAssetsValue,
{
    let age: i128 = now as i128 - update_time as i128;
    if age > max_age_sec as i128 {
        Err(WithdrawalError::StaleAssetsValue)
    } else {
        Ok(())
    }
}

/// The quantity to settle: the whole pending request when `amount` is zero,
/// else the smaller of `amount` and the pending request.
pub open spec fn resolved_amount(pending: u64, amount: u64) -> u64 {
    if amount == 0 {
        pending
    } else if amount < pending {
        amount
    } else {
        pending
    }
}

/// The outcome of resolving a settlement, before any valuation: the share
/// tokens to settle, or the first guard that failed.
pub open spec fn prepare_spec(
    pending: u64,
    amount: u64,
    fund: FundState,
    now: i64,
    supply: u64,
) -> Result<u64, WithdrawalError> {
    if pending == 0 {
        Err(WithdrawalError::NoPendingWithdrawal)
    } else if resolved_amount(pending, amount) == 0 {
        Err(WithdrawalError::ZeroAmount)
    } else if is_stale(now, fund.assets_update_time, fund.assets_max_update_age_sec) {
        Err(WithdrawalError::StaleAssetsValue)
    } else if resolved_amount(pending, amount) > supply {
        Err(WithdrawalError::SupplyExceeded)
    } else {
        Ok(resolved_amount(pending, amount))
    }
}

/// Resolves how many share tokens to settle from the user's pending request
/// and the operator's `amount` (zero for all of it), after checking that a
/// request is pending, that the fund's asset value is fresh at `now`, and that
/// the quantity does not exceed the share-token `supply`.
pub fn prepare_settlement(
    user: &UserRequestLedger,
    amount: u64,
    fund: &FundState,
    now: i64,
    supply: u64,
) -> (r: Result<u64, WithdrawalError>)
    ensures
        r == prepare_spec(user.withdrawal_request.amount, amount, *fund, now, supply),
        r is Ok ==> 0 < r->Ok_0 <= user.withdrawal_request.amount && r->Ok_0 <= supply,
{
    let pending = user.withdrawal_request.amount;
    if pending == 0 {
        return Err(WithdrawalError::NoPendingWithdrawal);
    }
    let amount_with_fee = if amount == 0 {
        pending
    } else if amount < pending {
        amount
    } else {
        pending
    };
    if amount_with_fee == 0 {
        return Err(WithdrawalError::ZeroAmount);
    }
    check_assets_update_time(fund.assets_update_time, fund.assets_max_update_age_sec, now)?;
    if amount_with_fee > supply {
        return Err(WithdrawalError::SupplyExceeded);
    }
    Ok(amount_with_fee)
}

/// The outcome of planning the transfers: the fee split of the gross
/// quantity, unless the custody account cannot cover it.
pub open spec fn plan_spec(
    tokens_to_remove: u64,
    fee_numerator: u64,
    fee_denominator: u64,
    custody_balance: u64,
) -> Result<FeeSplit, WithdrawalError> {
    match split_fee_spec(tokens_to_remove, fee_numerator, fee_denominator) {
        Err(e) => Err(e),
        Ok(s) => if tokens_to_remove > custody_balance {
            Err(WithdrawalError::CustodyUnderfunded)
        } else {
            Ok(s)
        },
    }
}

/// Plans the transfers out of custody for a gross quantity of
/// `tokens_to_remove`: splits off the fee at `fee_numerator /
/// fee_denominator`, then checks that the custody balance covers the whole
/// quantity. No partial transfer is ever planned.
pub fn plan_transfers(
    tokens_to_remove: u64,
    fee_numerator: u64,
    fee_denominator: u64,
    custody_balance: u64,
) -> (r: Result<FeeSplit, WithdrawalError>)
    ensures
        r == plan_spec(tokens_to_remove, fee_numerator, fee_denominator, custody_balance),
        r is Ok ==> r->Ok_0.tokens_to_transfer + r->Ok_0.fee_tokens == tokens_to_remove,
        r is Ok ==> r->Ok_0.fee_tokens <= tokens_to_remove <= custody_balance,
        r is Ok ==> r->Ok_0.tokens_to_transfer > 0,
{
    let split = split_fee(tokens_to_remove, fee_numerator, fee_denominator)?;
    if tokens_to_remove > custody_balance {
        return Err(WithdrawalError::CustodyUnderfunded);
    }
    Ok(split)
}

impl FeeSplit {
    /// Whether a separate transfer to the fee account is needed.
    pub fn has_fee_transfer(&self) -> (r: bool)
        ensures
            r == (self.fee_tokens > 0),
    {
        self.fee_tokens > 0
    }
}

} // verus!
