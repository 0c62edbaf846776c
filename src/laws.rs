//! Properties that hold across the settlement functions, stated over their
//! specifications and proved.

use vstd::prelude::*;
use crate::error::WithdrawalError;
use crate::ledger::{FundState, settled, UserLedgerView};
use crate::settlement::{is_stale, plan_spec, prepare_spec, validate_spec, AccountChecks};

verus! {

/// Every successful transfer plan conserves tokens: what goes to the user and
/// what goes to the fee account add up to the gross quantity, and the fee
/// never exceeds it.
pub proof fn lemma_plan_conserves_tokens(
    tokens_to_remove: u64,
    fee_numerator: u64,
    fee_denominator: u64,
    custody_balance: u64,
)
    ensures
        plan_spec(tokens_to_remove, fee_numerator, fee_denominator, custody_balance) is Ok ==> {
            let s = plan_spec(tokens_to_remove, fee_numerator, fee_denominator, custody_balance)->Ok_0;
            &&& s.tokens_to_transfer + s.fee_tokens == tokens_to_remove
            &&& s.fee_tokens <= tokens_to_remove
        },
{
}

/// Settling again for a user with no pending request always fails with
/// `NoPendingWithdrawal`, whatever the amount, fund state, time and supply;
/// the ledger is only read, so nothing is changed.
pub proof fn lemma_no_pending_request_fails(amount: u64, fund: FundState, now: i64, supply: u64)
    ensures
        prepare_spec(0, amount, fund, now, supply) == Err::<u64, WithdrawalError>(
            WithdrawalError::NoPendingWithdrawal,
        ),
{
}

/// Approving less than the pending request settles exactly the amount asked
/// for; the ledger then records that amount as the last withdrawal and clears
/// the request whole, so the remainder is not kept pending.
pub proof fn lemma_partial_approval(
    user: UserLedgerView,
    amount: u64,
    fund: FundState,
    now: i64,
    supply: u64,
)
    requires
        0 < amount < user.withdrawal_request.amount,
        !is_stale(now, fund.assets_update_time, fund.assets_max_update_age_sec),
        amount <= supply,
    ensures
        prepare_spec(user.withdrawal_request.amount, amount, fund, now, supply) == Ok::<
            u64,
            WithdrawalError,
        >(amount),
        settled(user, amount).last_withdrawal.amount == amount,
        settled(user, amount).last_withdrawal.time == user.withdrawal_request.time,
        settled(user, amount).withdrawal_request.amount == 0,
{
}

/// A stale asset value stops the settlement before any valuation: the
/// preparation fails, with `StaleAssetsValue` whenever a quantity was resolved.
pub proof fn lemma_stale_assets_stop_settlement(
    pending: u64,
    amount: u64,
    fund: FundState,
    now: i64,
    supply: u64,
)
    requires
        is_stale(now, fund.assets_update_time, fund.assets_max_update_age_sec),
    ensures
        prepare_spec(pending, amount, fund, now, supply) is Err,
        pending != 0 ==> prepare_spec(pending, amount, fund, now, supply) == Err::<
            u64,
            WithdrawalError,
        >(WithdrawalError::StaleAssetsValue),
{
}

/// A fund in liquidation is refused by the account gate before any other
/// check, whatever the other checks found.
pub proof fn lemma_liquidation_refused_first(checks: AccountChecks)
    requires
        checks.liquidation_start_time != 0,
    ensures
        validate_spec(checks) == Err::<(), WithdrawalError>(WithdrawalError::FundInLiquidation),
{
}

/// A custody account holding less than the gross quantity makes the plan
/// fail, whatever the fee.
pub proof fn lemma_underfunded_custody_fails(
    tokens_to_remove: u64,
    fee_numerator: u64,
    fee_denominator: u64,
    custody_balance: u64,
)
    requires
        custody_balance < tokens_to_remove,
    ensures
        plan_spec(tokens_to_remove, fee_numerator, fee_denominator, custody_balance) is Err,
{
}

} // verus!
