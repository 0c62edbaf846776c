//! The per-user request ledger and the fund-wide figures that settlement reads.

use vstd::prelude::*;

verus! {

/// One recorded user action: when it was made and for how many share tokens.
#[derive(Clone, Copy, Debug, PartialEq, Eq, Structural)]
pub struct UserAction {
    pub time: i64,
    pub amount: u64,
}

/// The empty action: no time, no amount.
pub open spec fn no_action() -> UserAction {
    UserAction { time: 0, amount: 0 }
}

/// Mathematical view of a user's request ledger.
pub struct UserLedgerView {
    pub withdrawal_request: UserAction,
    pub last_withdrawal: UserAction,
    pub deny_reason: Seq<char>,
}

/// One user's withdrawal records in one fund. A request amount of zero means
/// that no withdrawal is pending.
#[derive(Debug)]
pub struct UserRequestLedger {
    /// The pending request, in share-token units.
    pub withdrawal_request: UserAction,
    /// The most recently settled withdrawal.
    pub last_withdrawal: UserAction,
    /// Why the last request was denied, if it was.
    pub deny_reason: String,
}

impl View for UserRequestLedger {
    type V = UserLedgerView;

    open spec fn view(&self) -> UserLedgerView {
        UserLedgerView {
            withdrawal_request: self.withdrawal_request,
            last_withdrawal: self.last_withdrawal,
            deny_reason: self.deny_reason@,
        }
    }
}

/// The ledger once `amount` share tokens of its request are settled: the
/// settlement is recorded with the request's time, the request is cleared
/// whole, and the deny reason is emptied.
pub open spec fn settled(v: UserLedgerView, amount: u64) -> UserLedgerView {
    UserLedgerView {
        withdrawal_request: no_action(),
        last_withdrawal: UserAction { time: v.withdrawal_request.time, amount },
        deny_reason: Seq::empty(),
    }
}

impl UserRequestLedger {
    /// Whether a withdrawal request is pending.
    pub fn has_pending_withdrawal(&self) -> (r: bool)
        ensures
            r == (self.withdrawal_request.amount != 0),
    {
        self.withdrawal_request.amount != 0
    }

    /// Records the settlement of `amount` share tokens of the pending request
    /// and clears the request and the deny reason.
    pub fn settle_withdrawal(&mut self, amount: u64)
        ensures
            final(self)@ == settled(old(self)@, amount),
    {
        self.last_withdrawal = UserAction { time: self.withdrawal_request.time, amount };
        self.withdrawal_request = UserAction { time: 0, amount: 0 };
        self.deny_reason = String::new();
    }
}

/// The fund-wide figures that gate a settlement.
#[derive(Clone, Copy, Debug, PartialEq, Eq, Structural)]
pub struct FundState {
    /// When liquidation started; zero while the fund is not liquidating.
    pub liquidation_start_time: i64,
    /// When the fund's asset value was last updated.
    pub assets_update_time: i64,
    /// How old the asset value may be, in seconds, for a settlement to use it.
    pub assets_max_update_age_sec: u64,
}

impl FundState {
    /// Whether the fund is in liquidation.
    pub fn is_liquidating(&self) -> (r: bool)
        ensures
            r == (self.liquidation_start_time != 0),
    {
        self.liquidation_start_time != 0
    }
}

} // verus!
