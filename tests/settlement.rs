use fund_withdrawal::error::WithdrawalError;
use fund_withdrawal::fee::{split_fee, FeeSplit};
use fund_withdrawal::ledger::{FundState, UserAction, UserRequestLedger};
use fund_withdrawal::settlement::{
    check_account_count, check_assets_update_time, check_not_liquidating, plan_transfers,
    prepare_settlement, validate_accounts, AccountChecks, APPROVE_WITHDRAWAL_ACCOUNTS,
};

fn user(pending: u64, time: i64) -> UserRequestLedger {
    UserRequestLedger {
        withdrawal_request: UserAction { time, amount: pending },
        last_withdrawal: UserAction { time: 0, amount: 0 },
        deny_reason: String::from("too early"),
    }
}

fn fresh_fund() -> FundState {
    FundState { liquidation_start_time: 0, assets_update_time: 1_000, assets_max_update_age_sec: 600 }
}

fn good_checks() -> AccountChecks {
    AccountChecks {
        liquidation_start_time: 0,
        authority_matches: true,
        destination_owned_by_user: true,
        fund_token_mint_matches: true,
        custody_accounts_match: true,
        user_info_matches: true,
    }
}

#[test]
fn scenario_full_request_with_one_percent_fee() {
    let mut u = user(1_000, 77);
    let settled = prepare_settlement(&u, 0, &fresh_fund(), 1_100, 100_000).unwrap();
    assert_eq!(settled, 1_000);
    // 500 USD at a price of 1 USD for a 6-decimal token.
    let tokens_to_remove: u64 = 500_000_000;
    let plan = plan_transfers(tokens_to_remove, 1, 100, 1_000_000_000).unwrap();
    assert_eq!(plan, FeeSplit { fee_tokens: 5_000_000, tokens_to_transfer: 495_000_000 });
    assert!(plan.has_fee_transfer());
    u.settle_withdrawal(settled);
    assert_eq!(u.last_withdrawal, UserAction { time: 77, amount: 1_000 });
    assert_eq!(u.withdrawal_request, UserAction { time: 0, amount: 0 });
    assert!(u.deny_reason.is_empty());
    assert!(!u.has_pending_withdrawal());
}

#[test]
fn split_conserves_tokens() {
    for (t, n, d) in [(1_000u64, 1u64, 100u64), (999, 3, 1_000), (u64::MAX, 999_999, 1_000_000), (7, 0, 1)] {
        let s = split_fee(t, n, d).unwrap();
        assert_eq!(s.tokens_to_transfer + s.fee_tokens, t);
        assert!(s.fee_tokens <= t);
    }
}

#[test]
fn split_rounds_fee_down() {
    assert_eq!(split_fee(999, 1, 100), Ok(FeeSplit { fee_tokens: 9, tokens_to_transfer: 990 }));
    assert_eq!(split_fee(99, 1, 100), Ok(FeeSplit { fee_tokens: 0, tokens_to_transfer: 99 }));
    assert!(!split_fee(99, 1, 100).unwrap().has_fee_transfer());
}

#[test]
fn split_at_full_fee_is_too_small() {
    assert_eq!(split_fee(1_000, 1, 1), Err(WithdrawalError::AmountTooSmall));
    assert_eq!(split_fee(0, 0, 1), Err(WithdrawalError::AmountTooSmall));
}

#[test]
fn split_overflow_errors() {
    assert_eq!(split_fee(1_000, 1, 0), Err(WithdrawalError::MathOverflow));
    assert_eq!(split_fee(1_000, 3, 2), Err(WithdrawalError::MathOverflow));
    assert_eq!(split_fee(u64::MAX, u64::MAX, 1), Err(WithdrawalError::MathOverflow));
}

#[test]
fn underfunded_custody_fails() {
    assert_eq!(plan_transfers(1_000, 1, 100, 999), Err(WithdrawalError::CustodyUnderfunded));
    assert_eq!(
        plan_transfers(1_000, 1, 100, 1_000),
        Ok(FeeSplit { fee_tokens: 10, tokens_to_transfer: 990 })
    );
}

#[test]
fn liquidation_refused_first() {
    let mut c = good_checks();
    c.liquidation_start_time = 5;
    c.authority_matches = false;
    c.user_info_matches = false;
    assert_eq!(validate_accounts(&c), Err(WithdrawalError::FundInLiquidation));
    assert_eq!(check_not_liquidating(5), Err(WithdrawalError::FundInLiquidation));
    assert_eq!(check_not_liquidating(-1), Err(WithdrawalError::FundInLiquidation));
    assert_eq!(check_not_liquidating(0), Ok(()));
    assert!(FundState { liquidation_start_time: 5, ..fresh_fund() }.is_liquidating());
    assert!(!fresh_fund().is_liquidating());
}

#[test]
fn account_gate_reports_first_failure() {
    assert_eq!(validate_accounts(&good_checks()), Ok(()));
    let mut c = good_checks();
    c.authority_matches = false;
    c.destination_owned_by_user = false;
    assert_eq!(validate_accounts(&c), Err(WithdrawalError::InvalidFundAuthority));
    let mut c = good_checks();
    c.destination_owned_by_user = false;
    assert_eq!(validate_accounts(&c), Err(WithdrawalError::IllegalOwner));
    let mut c = good_checks();
    c.fund_token_mint_matches = false;
    assert_eq!(validate_accounts(&c), Err(WithdrawalError::InvalidFundTokenMint));
    let mut c = good_checks();
    c.custody_accounts_match = false;
    assert_eq!(validate_accounts(&c), Err(WithdrawalError::InvalidCustodyAccounts));
    let mut c = good_checks();
    c.user_info_matches = false;
    assert_eq!(validate_accounts(&c), Err(WithdrawalError::InvalidUserInfoAccount));
}

#[test]
fn account_count_must_match() {
    assert_eq!(check_account_count(APPROVE_WITHDRAWAL_ACCOUNTS), Ok(()));
    assert_eq!(check_account_count(15), Err(WithdrawalError::NotEnoughAccountKeys));
    assert_eq!(check_account_count(17), Err(WithdrawalError::NotEnoughAccountKeys));
}

#[test]
fn no_pending_request_fails_and_changes_nothing() {
    let u = user(0, 0);
    for amount in [0u64, 1, 500, u64::MAX] {
        assert_eq!(
            prepare_settlement(&u, amount, &fresh_fund(), 1_000, 100_000),
            Err(WithdrawalError::NoPendingWithdrawal)
        );
    }
    assert_eq!(u.withdrawal_request, UserAction { time: 0, amount: 0 });
    assert_eq!(u.deny_reason, "too early");
}

#[test]
fn partial_approval_clears_whole_request() {
    let mut u = user(1_000, 42);
    let settled = prepare_settlement(&u, 400, &fresh_fund(), 1_000, 100_000).unwrap();
    assert_eq!(settled, 400);
    u.settle_withdrawal(settled);
    assert_eq!(u.last_withdrawal, UserAction { time: 42, amount: 400 });
    assert_eq!(u.withdrawal_request.amount, 0);
}

#[test]
fn amount_above_pending_is_capped() {
    let u = user(1_000, 42);
    assert_eq!(prepare_settlement(&u, 5_000, &fresh_fund(), 1_000, 100_000), Ok(1_000));
}

#[test]
fn stale_assets_value_fails() {
    let u = user(1_000, 42);
    assert_eq!(
        prepare_settlement(&u, 0, &fresh_fund(), 1_601, 100_000),
        Err(WithdrawalError::StaleAssetsValue)
    );
    assert_eq!(prepare_settlement(&u, 0, &fresh_fund(), 1_600, 100_000), Ok(1_000));
    assert_eq!(check_assets_update_time(i64::MIN, 0, i64::MAX), Err(WithdrawalError::StaleAssetsValue));
    assert_eq!(check_assets_update_time(i64::MAX, 0, i64::MIN), Ok(()));
}

#[test]
fn supply_exceeded_fails() {
    let u = user(1_000, 42);
    assert_eq!(
        prepare_settlement(&u, 0, &fresh_fund(), 1_000, 999),
        Err(WithdrawalError::SupplyExceeded)
    );
    assert_eq!(prepare_settlement(&u, 0, &fresh_fund(), 1_000, 1_000), Ok(1_000));
}

#[test]
fn insufficient_funds_errors_are_grouped() {
    assert!(WithdrawalError::ZeroAmount.is_insufficient_funds());
    assert!(WithdrawalError::SupplyExceeded.is_insufficient_funds());
    assert!(WithdrawalError::AmountTooSmall.is_insufficient_funds());
    assert!(WithdrawalError::CustodyUnderfunded.is_insufficient_funds());
    assert!(!WithdrawalError::StaleAssetsValue.is_insufficient_funds());
    assert!(!WithdrawalError::NoPendingWithdrawal.is_insufficient_funds());
}
