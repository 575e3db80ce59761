use vstd::prelude::*;

use crate::approvals::{ManagerApproval, MerchantApproval};
use crate::calendar::{SubscriptionPeriod, TS_MAX, spec_default_max_delay, default_max_delay};
use crate::errors::ErrorCode;
use crate::fees::{charge_split, spec_fee};
use crate::ids::{AccountId, OwnedAccount, derived_address, derive_address};
use crate::plan::{ChargePlan, SwapMode, SwapPlan, TransferAuthority};
use crate::subscription::{SubscrData, check_rebill_schedule, check_window, spec_rebill_check,
    spec_window_check};

verus! {

/// Resolved accounts for `subscribe`: the record to create, the network
/// authority, the program's signing authority, the approval records with
/// their owners, the user (signer), the payment accounts and the
/// delegation accounts.
#[derive(Clone, Copy, Debug)]
pub struct CreateSubscr {
    pub subscr_data: AccountId,
    pub net_auth: AccountId,
    pub root_key: AccountId,
    pub merchant_approval: OwnedAccount,
    pub merchant_token: AccountId,
    pub manager_approval: OwnedAccount,
    pub user_key: AccountId,
    pub token_program: AccountId,
    pub token_account: AccountId,
    pub fees_account: AccountId,
    pub delegate_program: AccountId,
    pub delegate_root: AccountId,
    pub allowance: AccountId,
    pub system_program: AccountId,
}

/// What a successful subscription hands back: the record to persist and
/// the setup and transfer work to carry out.
#[derive(Clone, Copy, Debug)]
pub struct SubscribeOutcome {
    pub subscr: SubscrData,
    pub plan: ChargePlan,
}

/// The grace window a new subscription gets: the caller's value where one
/// is given, else the period's default.
pub open spec fn spec_resolved_max_delay(period: SubscriptionPeriod, inp_max_delay: i64) -> i64 {
    if inp_max_delay != 0 {
        inp_max_delay
    } else {
        spec_default_max_delay(period)
    }
}

/// The verdict on the optional swap leg and fee split of an initial
/// charge: where money moves through a swap, the agent's swap-destination
/// token account must equal the address derived for the program's signing
/// authority and the swap mode must be known; where money moves at all,
/// the fee split must go through.
pub open spec fn spec_initial_charge_check(
    ctx: CreateSubscr,
    mrch: MerchantApproval,
    derive_program: Seq<u8>,
    amount: u64,
    swap: bool,
    swap_mode: u8,
    swap_dst_nonce: u8,
    fees_bps: u32,
) -> Option<ErrorCode> {
    if amount > 0 && swap {
        match derived_address(
            ctx.root_key@,
            ctx.token_program@,
            mrch.token_mint@,
            swap_dst_nonce,
            derive_program,
        ) {
            None => Some(ErrorCode::InvalidNonce),
            Some(expected) => if expected != ctx.token_account@ {
                Some(ErrorCode::InvalidDerivedAccount)
            } else if SwapMode::spec_from_u8(swap_mode) is None {
                Some(ErrorCode::InvalidSwapMode)
            } else if !crate::process::charge_fits(amount, fees_bps) {
                Some(ErrorCode::Overflow)
            } else {
                None
            },
        }
    } else if amount > 0 && !crate::process::charge_fits(amount, fees_bps) {
        Some(ErrorCode::Overflow)
    } else {
        None
    }
}

/// The verdict on a subscription request, in the order the checks run:
/// both approval records must be owned by the named authority and be
/// active, the fees account must match the merchant approval, the period
/// discriminant must parse, an overridden grace window must be at least
/// twelve hours, the validity window and the first rebill instant must be
/// consistent with the calendar, the merchant token account must equal the
/// address derived for the merchant's payout destination, and an initial
/// charge must pass the swap and fee checks.
pub open spec fn spec_subscribe_check(
    ctx: CreateSubscr,
    mrch: MerchantApproval,
    mgr: ManagerApproval,
    derive_program: Seq<u8>,
    now: i64,
    inp_initial_amount: u64,
    inp_dest_nonce: u8,
    inp_period: u8,
    inp_next_rebill: i64,
    inp_not_valid_before: i64,
    inp_not_valid_after: i64,
    inp_max_delay: i64,
    inp_swap: bool,
    inp_swap_mode: u8,
    inp_swap_dst_nonce: u8,
) -> Option<ErrorCode> {
    if ctx.net_auth@ != ctx.merchant_approval.owner@ {
        Some(ErrorCode::InvalidAccount)
    } else if ctx.net_auth@ != ctx.manager_approval.owner@ {
        Some(ErrorCode::InvalidAccount)
    } else if !mrch.active {
        Some(ErrorCode::NotApproved)
    } else if mrch.fees_account@ != ctx.fees_account@ {
        Some(ErrorCode::InvalidAccount)
    } else if !mgr.active {
        Some(ErrorCode::NotApproved)
    } else if SubscriptionPeriod::spec_from_u8(inp_period) is None {
        Some(ErrorCode::InvalidSubscriptionPeriod)
    } else if inp_max_delay != 0 && inp_max_delay < 43200 {
        Some(ErrorCode::InvalidTimeframe)
    } else {
        let period = SubscriptionPeriod::spec_from_u8(inp_period)->Some_0;
        let max_delay = spec_resolved_max_delay(period, inp_max_delay);
        if spec_window_check(now, inp_not_valid_before, inp_not_valid_after) is Some {
            spec_window_check(now, inp_not_valid_before, inp_not_valid_after)
        } else if spec_rebill_check(now, period, max_delay, inp_not_valid_before, inp_next_rebill)
            is Some {
            spec_rebill_check(now, period, max_delay, inp_not_valid_before, inp_next_rebill)
        } else {
            match derived_address(
                mrch.dest_account@,
                ctx.token_program@,
                mrch.token_mint@,
                inp_dest_nonce,
                derive_program,
            ) {
                None => Some(ErrorCode::InvalidNonce),
                Some(expected) => if expected != ctx.merchant_token@ {
                    Some(ErrorCode::InvalidDerivedAccount)
                } else {
                    spec_initial_charge_check(
                        ctx,
                        mrch,
                        derive_program,
                        inp_initial_amount,
                        inp_swap,
                        inp_swap_mode,
                        inp_swap_dst_nonce,
                        mrch.fees_bps,
                    )
                },
            }
        }
    }
}

/// The record a successful subscription persists: identities bound from
/// the resolved accounts and approvals, the schedule and budgets from the
/// request, a zero rebill counter, and the active flag set.
pub open spec fn spec_subscribed_record(
    ctx: CreateSubscr,
    mrch: MerchantApproval,
    mgr: ManagerApproval,
    inp_initial_amount: u64,
    inp_subscr_id: u128,
    inp_period: u8,
    inp_period_budget: u64,
    inp_use_total: bool,
    inp_total_budget: u64,
    inp_next_rebill: i64,
    inp_rebill_max: u32,
    inp_not_valid_before: i64,
    inp_not_valid_after: i64,
    inp_max_delay: i64,
    inp_swap: bool,
    inp_swap_direction: bool,
    inp_swap_mode: u8,
    user_swap_token: Option<AccountId>,
) -> SubscrData {
    let period = SubscriptionPeriod::spec_from_u8(inp_period)->Some_0;
    SubscrData {
        user_key: ctx.user_key,
        approval_program: ctx.net_auth,
        merchant_key: mrch.merchant_key,
        merchant_approval: ctx.merchant_approval.key,
        manager_key: mgr.manager_key,
        manager_approval: ctx.manager_approval.key,
        token_mint: mrch.token_mint,
        token_account: ctx.token_account,
        swap_account: if inp_swap && inp_initial_amount > 0 {
            user_swap_token
        } else {
            None
        },
        subscr_id: inp_subscr_id,
        rebill_events: 0,
        rebill_max: inp_rebill_max,
        next_rebill: inp_next_rebill,
        not_valid_before: inp_not_valid_before,
        not_valid_after: inp_not_valid_after,
        max_delay: spec_resolved_max_delay(period, inp_max_delay),
        period: inp_period,
        period_budget: inp_period_budget,
        use_total: inp_use_total,
        total_budget: inp_total_budget,
        active: true,
        swap: inp_swap,
        swap_direction: inp_swap_direction,
        swap_mode: inp_swap_mode,
    }
}

/// The setup and transfer plan of a successful subscription: delegation
/// links as requested, the optional swap leg (signed by the user, nothing
/// pulled or refunded), the fee split of the initial amount, and the
/// revenue record where the named authority is the known one.
pub open spec fn spec_subscribe_plan(
    ctx: CreateSubscr,
    fees_bps: u32,
    amount: u64,
    link_token: bool,
    swap: bool,
    swap_direction: bool,
    user_swap_token: Option<AccountId>,
    authority_program: Seq<u8>,
) -> ChargePlan {
    let fee = if amount > 0 {
        spec_fee(amount, fees_bps) as u64
    } else {
        0
    };
    ChargePlan {
        total: amount,
        fee: fee,
        net: (amount - fee) as u64,
        authority: if swap {
            TransferAuthority::Root
        } else {
            TransferAuthority::User
        },
        swap: if amount > 0 && swap {
            Some(
                SwapPlan {
                    source: user_swap_token->Some_0,
                    pull_amount: 0,
                    amount: amount,
                    direction: swap_direction,
                    refund_excess: false,
                },
            )
        } else {
            None
        },
        link_funding: !swap && link_token,
        link_swap: swap && amount > 0 && link_token,
        record_revenue: amount > 0 && ctx.net_auth@ == authority_program,
    }
}

/// Creates a subscription.  Verifies both approvals against the named
/// authority, the schedule against the period calendar, and the merchant's
/// payout account against its derived address; optionally sets up spending
/// delegation and performs an immediate first charge.  On success the
/// record comes back active with a zero rebill counter, together with the
/// work the host must carry out.
pub fn subscribe(
    ctx: &CreateSubscr,
    merchant_approval: &MerchantApproval,
    manager_approval: &ManagerApproval,
    derive_program: &AccountId,
    authority_program: &AccountId,
    now: i64,
    inp_link_token: bool,
    inp_initial_amount: u64,
    inp_dest_nonce: u8,
    inp_subscr_id: u128,
    inp_period: u8,
    inp_period_budget: u64,
    inp_use_total: bool,
    inp_total_budget: u64,
    inp_next_rebill: i64,
    inp_rebill_max: u32,
    inp_not_valid_before: i64,
    inp_not_valid_after: i64,
    inp_max_delay: i64,
    inp_swap: bool,
    inp_swap_direction: bool,
    inp_swap_mode: u8,
    inp_swap_dst_nonce: u8,
    user_swap_token: Option<AccountId>,
) -> (r: Result<SubscribeOutcome, ErrorCode>)
    requires
        inp_swap && inp_initial_amount > 0 ==> user_swap_token is Some,
        inp_next_rebill <= TS_MAX,
    ensures
        match spec_subscribe_check(
            *ctx,
            *merchant_approval,
            *manager_approval,
            derive_program@,
            now,
            inp_initial_amount,
            inp_dest_nonce,
            inp_period,
            inp_next_rebill,
            inp_not_valid_before,
            inp_not_valid_after,
            inp_max_delay,
            inp_swap,
            inp_swap_mode,
            inp_swap_dst_nonce,
        ) {
            Some(e) => r == Err::<SubscribeOutcome, ErrorCode>(e),
            None => r matches Ok(out) && out.subscr == spec_subscribed_record(
                *ctx,
                *merchant_approval,
                *manager_approval,
                inp_initial_amount,
                inp_subscr_id,
                inp_period,
                inp_period_budget,
                inp_use_total,
                inp_total_budget,
                inp_next_rebill,
                inp_rebill_max,
                inp_not_valid_before,
                inp_not_valid_after,
                inp_max_delay,
                inp_swap,
                inp_swap_direction,
                inp_swap_mode,
                user_swap_token,
            ) && out.plan == spec_subscribe_plan(
                *ctx,
                merchant_approval.fees_bps,
                inp_initial_amount,
                inp_link_token,
                inp_swap,
                inp_swap_direction,
                user_swap_token,
                authority_program@,
            ),
        },
        // A new subscription is live and has not been rebilled.
        r matches Ok(out) ==> out.subscr.active && out.subscr.rebill_events == 0,
        // Its record is well-formed: the period parses, the first rebill
        // instant opens its period, and the window is consistent.
        r matches Ok(out) ==> out.subscr.wf(),
        // Fee conservation on the initial charge.
        r matches Ok(out) ==> out.plan.fee + out.plan.net == inp_initial_amount,
{
    match crate::approvals::verify_matching_accounts(&ctx.net_auth, &ctx.merchant_approval.owner) {
        Ok(_) => (),
        Err(e) => {
            return Err(e);
        },
    }
    match crate::approvals::verify_matching_accounts(&ctx.net_auth, &ctx.manager_approval.owner) {
        Ok(_) => (),
        Err(e) => {
            return Err(e);
        },
    }
    if !merchant_approval.active {
        return Err(ErrorCode::NotApproved);
    }
    match crate::approvals::verify_matching_accounts(
        &merchant_approval.fees_account,
        &ctx.fees_account,
    ) {
        Ok(_) => (),
        Err(e) => {
            return Err(e);
        },
    }
    if !manager_approval.active {
        return Err(ErrorCode::NotApproved);
    }
    let period = match SubscriptionPeriod::from_u8(inp_period) {
        Some(p) => p,
        None => {
            return Err(ErrorCode::InvalidSubscriptionPeriod);
        },
    };
    if inp_max_delay != 0 && inp_max_delay < 43200 {
        return Err(ErrorCode::InvalidTimeframe);
    }
    let max_delay: i64 = if inp_max_delay != 0 {
        inp_max_delay
    } else {
        default_max_delay(period)
    };
    match check_window(now, inp_not_valid_before, inp_not_valid_after) {
        Ok(_) => (),
        Err(e) => {
            return Err(e);
        },
    }
    match check_rebill_schedule(now, period, max_delay, inp_not_valid_before, inp_next_rebill) {
        Ok(_) => (),
        Err(e) => {
            return Err(e);
        },
    }
    let derived = match derive_address(
        &merchant_approval.dest_account,
        &ctx.token_program,
        &merchant_approval.token_mint,
        inp_dest_nonce,
        derive_program,
    ) {
        Some(k) => k,
        None => {
            return Err(ErrorCode::InvalidNonce);
        },
    };
    if !(&derived == &ctx.merchant_token) {
        return Err(ErrorCode::InvalidDerivedAccount);
    }
    let mut swap_plan: Option<SwapPlan> = None;
    let mut fee: u64 = 0;
    let mut net: u64 = 0;
    if inp_initial_amount > 0 {
        if inp_swap {
            let swap_dst = match derive_address(
                &ctx.root_key,
                &ctx.token_program,
                &merchant_approval.token_mint,
                inp_swap_dst_nonce,
                derive_program,
            ) {
                Some(k) => k,
                None => {
                    return Err(ErrorCode::InvalidNonce);
                },
            };
            if !(&swap_dst == &ctx.token_account) {
                return Err(ErrorCode::InvalidDerivedAccount);
            }
            match SwapMode::from_u8(inp_swap_mode) {
                Some(_) => (),
                None => {
                    return Err(ErrorCode::InvalidSwapMode);
                },
            }
            let source = match user_swap_token {
                Some(k) => k,
                None => {
                    return Err(ErrorCode::InvalidAccount);
                },
            };
            swap_plan = Some(
                SwapPlan {
                    source: source,
                    pull_amount: 0,
                    amount: inp_initial_amount,
                    direction: inp_swap_direction,
                    refund_excess: false,
                },
            );
        }
        match charge_split(inp_initial_amount, merchant_approval.fees_bps) {
            Ok((f, n)) => {
                fee = f;
                net = n;
            },
            Err(e) => {
                return Err(e);
            },
        }
    }
    let out = SubscribeOutcome {
        subscr: SubscrData {
            user_key: ctx.user_key,
            approval_program: ctx.net_auth,
            merchant_key: merchant_approval.merchant_key,
            merchant_approval: ctx.merchant_approval.key,
            manager_key: manager_approval.manager_key,
            manager_approval: ctx.manager_approval.key,
            token_mint: merchant_approval.token_mint,
            token_account: ctx.token_account,
            swap_account: if inp_swap && inp_initial_amount > 0 {
                user_swap_token
            } else {
                None
            },
            subscr_id: inp_subscr_id,
            rebill_events: 0,
            rebill_max: inp_rebill_max,
            next_rebill: inp_next_rebill,
            not_valid_before: inp_not_valid_before,
            not_valid_after: inp_not_valid_after,
            max_delay: max_delay,
            period: inp_period,
            period_budget: inp_period_budget,
            use_total: inp_use_total,
            total_budget: inp_total_budget,
            active: true,
            swap: inp_swap,
            swap_direction: inp_swap_direction,
            swap_mode: inp_swap_mode,
        },
        plan: ChargePlan {
            total: inp_initial_amount,
            fee: fee,
            net: net,
            authority: if inp_swap {
                TransferAuthority::Root
            } else {
                TransferAuthority::User
            },
            swap: swap_plan,
            link_funding: !inp_swap && inp_link_token,
            link_swap: inp_swap && inp_initial_amount > 0 && inp_link_token,
            record_revenue: inp_initial_amount > 0 && &ctx.net_auth == authority_program,
        },
    };
    Ok(out)
}

} // verus!
