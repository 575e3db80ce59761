use vstd::prelude::*;

use crate::calendar::{SubscriptionPeriod, TS_MAX, is_period_start, spec_period_label};
use crate::errors::ErrorCode;
use crate::ids::AccountId;

verus! {

/// The subscription record: the central entity of the state machine.  Owned
/// by the contract, created by `subscribe`, mutated by `update_subscription`,
/// `process` and `manager_cancel`, released by `close_subscription`.
#[derive(Clone, Copy, Debug)]
pub struct SubscrData {
    /// The user that owns this subscription.
    pub user_key: AccountId,
    /// The network authority program trusted to sign approvals.
    pub approval_program: AccountId,
    /// The merchant account that receives subscription payments.
    pub merchant_key: AccountId,
    /// The merchant approval record from the network authority.
    pub merchant_approval: AccountId,
    /// The rebill manager account assigned to this subscription.
    pub manager_key: AccountId,
    /// The rebill manager approval record from the network authority.
    pub manager_approval: AccountId,
    /// The token mint payments are made in.
    pub token_mint: AccountId,
    /// The token account payments are drawn from.
    pub token_account: AccountId,
    /// The token account swapped from when paying in a different mint,
    /// where one is bound.
    pub swap_account: Option<AccountId>,
    /// External subscription correlation id.
    pub subscr_id: u128,
    /// Count of rebill events so far.
    pub rebill_events: u32,
    /// Maximum number of rebills, 0 for unlimited.
    pub rebill_max: u32,
    /// The first instant of the next billing period.
    pub next_rebill: i64,
    /// No processing before this time (0 = no bound).
    pub not_valid_before: i64,
    /// No processing after this time (0 = no bound).
    pub not_valid_after: i64,
    /// Seconds after a period opens during which its rebill stays valid.
    pub max_delay: i64,
    /// Recurrence period discriminant.
    pub period: u8,
    /// Cap on any single charge.
    pub period_budget: u64,
    /// Whether a cumulative budget applies to manager-initiated charges.
    pub use_total: bool,
    /// Remaining cumulative budget.
    pub total_budget: u64,
    /// Whether the subscription can still be rebilled.
    pub active: bool,
    /// Whether tokens are swapped before each payment.
    pub swap: bool,
    /// Swap direction.
    pub swap_direction: bool,
    /// Swap facility discriminant.
    pub swap_mode: u8,
}

impl SubscrData {
    /// Well-formedness: the stored period parses, the scheduled rebill
    /// instant opens its period, and the validity window is consistent.
    /// Creation establishes this and every transition preserves it.
    pub open spec fn wf(self) -> bool {
        &&& SubscriptionPeriod::spec_from_u8(self.period) is Some
        &&& {
            let p = SubscriptionPeriod::spec_from_u8(self.period)->Some_0;
            spec_period_label(self.next_rebill, p) != spec_period_label(
                (self.next_rebill - 1) as i64,
                p,
            )
        }
        &&& self.not_valid_before >= 0
        &&& self.not_valid_after >= 0
        &&& (self.not_valid_before != 0 && self.not_valid_after != 0
            ==> self.not_valid_before < self.not_valid_after)
    }
}

/// The verdict on a subscription's validity window: each bound, where set,
/// must be non-negative and not already past, and where both are set the
/// window must be non-empty.
pub open spec fn spec_window_check(now: i64, nvb: i64, nva: i64) -> Option<ErrorCode> {
    if nvb < 0 || (nvb > 0 && nvb < now) {
        Some(ErrorCode::InvalidTimeframe)
    } else if nva < 0 || (nva > 0 && nva < now) {
        Some(ErrorCode::InvalidTimeframe)
    } else if nva != 0 && nvb != 0 && nva <= nvb {
        Some(ErrorCode::InvalidTimeframe)
    } else {
        None
    }
}

/// Checks a subscription's validity window against the current time.
pub fn check_window(now: i64, nvb: i64, nva: i64) -> (r: Result<(), ErrorCode>)
    ensures
        match spec_window_check(now, nvb, nva) {
            Some(e) => r == Err::<(), ErrorCode>(e),
            None => r == Ok::<(), ErrorCode>(()),
        },
{
    if nvb < 0 || (nvb > 0 && nvb < now) {
        return Err(ErrorCode::InvalidTimeframe);
    }
    if nva < 0 || (nva > 0 && nva < now) {
        return Err(ErrorCode::InvalidTimeframe);
    }
    if nva != 0 && nvb != 0 && nva <= nvb {
        return Err(ErrorCode::InvalidTimeframe);
    }
    Ok(())
}

/// The verdict on a scheduled first-rebill instant: it must be non-negative,
/// not precede the window's start, fall inside the grace window that opens
/// at the window's start (or now, where no start is set), and open its
/// billing period — its label must differ from the label one second before.
pub open spec fn spec_rebill_check(
    now: i64,
    period: SubscriptionPeriod,
    max_delay: i64,
    nvb: i64,
    next_rebill: i64,
) -> Option<ErrorCode> {
    if next_rebill < 0 {
        Some(ErrorCode::InvalidTimeframe)
    } else if nvb > 0 && next_rebill < nvb {
        Some(ErrorCode::InvalidTimeframe)
    } else {
        let start = if nvb > 0 {
            nvb
        } else {
            now
        };
        if start + max_delay > i64::MAX || start + max_delay < i64::MIN {
            Some(ErrorCode::Overflow)
        } else if next_rebill < start || next_rebill > start + max_delay {
            Some(ErrorCode::InvalidTimeframe)
        } else if spec_period_label(next_rebill, period) == spec_period_label(
            (next_rebill - 1) as i64,
            period,
        ) {
            Some(ErrorCode::InvalidTimeframe)
        } else {
            None
        }
    }
}

/// Checks a scheduled first-rebill instant against the window and the
/// period calendar.
pub fn check_rebill_schedule(
    now: i64,
    period: SubscriptionPeriod,
    max_delay: i64,
    nvb: i64,
    next_rebill: i64,
) -> (r: Result<(), ErrorCode>)
    requires
        next_rebill <= TS_MAX,
    ensures
        match spec_rebill_check(now, period, max_delay, nvb, next_rebill) {
            Some(e) => r == Err::<(), ErrorCode>(e),
            None => r == Ok::<(), ErrorCode>(()),
        },
{
    if next_rebill < 0 {
        return Err(ErrorCode::InvalidTimeframe);
    }
    if nvb > 0 && next_rebill < nvb {
        return Err(ErrorCode::InvalidTimeframe);
    }
    let start: i64 = if nvb > 0 {
        nvb
    } else {
        now
    };
    let end = match start.checked_add(max_delay) {
        Some(v) => v,
        None => {
            return Err(ErrorCode::Overflow);
        },
    };
    if next_rebill < start || next_rebill > end {
        return Err(ErrorCode::InvalidTimeframe);
    }
    if !is_period_start(next_rebill, period) {
        return Err(ErrorCode::InvalidTimeframe);
    }
    Ok(())
}

impl Default for SubscrData {
    /// A blank record: zeroed identities and counters, active, no swap,
    /// swap direction set forward.
    fn default() -> (r: SubscrData)
        ensures
            r.user_key@ == AccountId::spec_zero(),
            r.approval_program@ == AccountId::spec_zero(),
            r.merchant_key@ == AccountId::spec_zero(),
            r.merchant_approval@ == AccountId::spec_zero(),
            r.manager_key@ == AccountId::spec_zero(),
            r.manager_approval@ == AccountId::spec_zero(),
            r.token_mint@ == AccountId::spec_zero(),
            r.token_account@ == AccountId::spec_zero(),
            r.swap_account is None,
            r.subscr_id == 0,
            r.rebill_events == 0,
            r.rebill_max == 0,
            r.next_rebill == 0,
            r.not_valid_before == 0,
            r.not_valid_after == 0,
            r.max_delay == 0,
            r.period == 0,
            r.period_budget == 0,
            r.use_total == false,
            r.total_budget == 0,
            r.active == true,
            r.swap == false,
            r.swap_direction == true,
            r.swap_mode == 0,
    {
        SubscrData {
            user_key: AccountId::default(),
            approval_program: AccountId::default(),
            merchant_key: AccountId::default(),
            merchant_approval: AccountId::default(),
            manager_key: AccountId::default(),
            manager_approval: AccountId::default(),
            token_mint: AccountId::default(),
            token_account: AccountId::default(),
            swap_account: None,
            subscr_id: 0,
            rebill_events: 0,
            rebill_max: 0,
            next_rebill: 0,
            not_valid_before: 0,
            not_valid_after: 0,
            max_delay: 0,
            period: 0,
            period_budget: 0,
            use_total: false,
            total_budget: 0,
            active: true,
            swap: false,
            swap_direction: true,
            swap_mode: 0,
        }
    }
}

} // verus!
