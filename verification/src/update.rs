use vstd::prelude::*;

use crate::approvals::{ManagerApproval, MerchantApproval, spec_manager_check, spec_merchant_check,
    verify_manager_approval, verify_merchant_approval};
use crate::calendar::{SubscriptionPeriod, TS_MAX};
use crate::errors::ErrorCode;
use crate::fees::{charge_split, spec_fee};
use crate::ids::{AccountId, OwnedAccount, derived_address, derive_address};
use crate::plan::{ChargePlan, SwapMode, SwapPlan, TransferAuthority};
use crate::subscription::{SubscrData, check_rebill_schedule, check_window, spec_rebill_check,
    spec_window_check};

verus! {

/// Resolved accounts for `update_subscription`: the record, the network
/// authority, the program's signing authority, the approval records with
/// their owners, the user (signer), the payment accounts and the
/// delegation accounts.
#[derive(Clone, Copy, Debug)]
pub struct UpdateSubscr {
    pub subscr_data: AccountId,
    pub net_auth: AccountId,
    pub root_key: AccountId,
    pub merchant_approval: OwnedAccount,
    pub merchant_token: AccountId,
    pub manager_approval: OwnedAccount,
    pub user_key: AccountId,
    pub token_program: AccountId,
    pub token_account: AccountId,
    pub fees_account: AccountId,
    pub delegate_program: AccountId,
    pub delegate_root: AccountId,
    pub allowance: AccountId,
    pub system_program: AccountId,
}

/// What an update hands back: either the user cancelled, which flips the
/// active flag and nothing else, or the subscription was renewed with a
/// fresh binding, schedule and optional charge.
#[derive(Clone, Copy, Debug)]
pub enum UpdateOutcome {
    Cancelled { subscr: SubscrData },
    Updated { subscr: SubscrData, plan: ChargePlan },
}

/// The verdict on the optional swap leg and fee split of an update's
/// charge, as for a subscription's initial charge.
pub open spec fn spec_update_charge_check(
    ctx: UpdateSubscr,
    mrch: MerchantApproval,
    derive_program: Seq<u8>,
    amount: u64,
    swap: bool,
    swap_mode: u8,
    swap_dst_nonce: u8,
) -> Option<ErrorCode> {
    if amount > 0 && swap {
        match derived_address(
            ctx.root_key@,
            ctx.token_program@,
            mrch.token_mint@,
            swap_dst_nonce,
            derive_program,
        ) {
            None => Some(ErrorCode::InvalidNonce),
            Some(expected) => if expected != ctx.token_account@ {
                Some(ErrorCode::InvalidDerivedAccount)
            } else if SwapMode::spec_from_u8(swap_mode) is None {
                Some(ErrorCode::InvalidSwapMode)
            } else if !crate::process::charge_fits(amount, mrch.fees_bps) {
                Some(ErrorCode::Overflow)
            } else {
                None
            },
        }
    } else if amount > 0 && !crate::process::charge_fits(amount, mrch.fees_bps) {
        Some(ErrorCode::Overflow)
    } else {
        None
    }
}

/// The verdict on a renewal, in the order the checks run: the named
/// authority must be the one the subscription was created under, both
/// approvals must verify (ownership, active flag, fees account, derived
/// merchant token account), the period must parse, the window must be
/// consistent, the grace window must be at least twelve hours, the new
/// first rebill instant must fit the window and open its period, and the
/// optional charge must pass the swap and fee checks.
pub open spec fn spec_update_check(
    subscr: SubscrData,
    ctx: UpdateSubscr,
    mrch: MerchantApproval,
    mgr: ManagerApproval,
    derive_program: Seq<u8>,
    now: i64,
    inp_dest_nonce: u8,
    inp_amount: u64,
    inp_next_rebill: i64,
    inp_period: u8,
    inp_max_delay: i64,
    inp_not_valid_before: i64,
    inp_not_valid_after: i64,
    inp_swap: bool,
    inp_swap_mode: u8,
    inp_swap_dst_nonce: u8,
) -> Option<ErrorCode> {
    if ctx.net_auth@ != subscr.approval_program@ {
        Some(ErrorCode::InvalidAccount)
    } else if spec_merchant_check(
        inp_dest_nonce,
        ctx.net_auth@,
        ctx.merchant_approval.owner@,
        mrch,
        ctx.merchant_token@,
        ctx.fees_account@,
        ctx.token_program@,
        derive_program,
    ) is Some {
        spec_merchant_check(
            inp_dest_nonce,
            ctx.net_auth@,
            ctx.merchant_approval.owner@,
            mrch,
            ctx.merchant_token@,
            ctx.fees_account@,
            ctx.token_program@,
            derive_program,
        )
    } else if spec_manager_check(ctx.net_auth@, ctx.manager_approval.owner@, mgr) is Some {
        spec_manager_check(ctx.net_auth@, ctx.manager_approval.owner@, mgr)
    } else if SubscriptionPeriod::spec_from_u8(inp_period) is None {
        Some(ErrorCode::InvalidSubscriptionPeriod)
    } else if spec_window_check(now, inp_not_valid_before, inp_not_valid_after) is Some {
        spec_window_check(now, inp_not_valid_before, inp_not_valid_after)
    } else if inp_max_delay < 43200 {
        Some(ErrorCode::InvalidTimeframe)
    } else {
        let period = SubscriptionPeriod::spec_from_u8(inp_period)->Some_0;
        if spec_rebill_check(now, period, inp_max_delay, inp_not_valid_before, inp_next_rebill)
            is Some {
            spec_rebill_check(now, period, inp_max_delay, inp_not_valid_before, inp_next_rebill)
        } else {
            spec_update_charge_check(
                ctx,
                mrch,
                derive_program,
                inp_amount,
                inp_swap,
                inp_swap_mode,
                inp_swap_dst_nonce,
            )
        }
    }
}

/// The record a successful renewal persists: fresh identity bindings,
/// schedule, budget cap and swap settings from the request, with the
/// owner, the authority, the correlation id, the rebill counters and the
/// total budget kept from before — renewal keeps the counter by design.
pub open spec fn spec_updated_record(
    subscr: SubscrData,
    ctx: UpdateSubscr,
    mrch: MerchantApproval,
    mgr: ManagerApproval,
    inp_next_rebill: i64,
    inp_period: u8,
    inp_period_budget: u64,
    inp_max_delay: i64,
    inp_not_valid_before: i64,
    inp_not_valid_after: i64,
    inp_swap: bool,
    inp_swap_direction: bool,
    inp_swap_mode: u8,
    user_swap_token: Option<AccountId>,
) -> SubscrData {
    SubscrData {
        active: true,
        merchant_key: mrch.merchant_key,
        merchant_approval: ctx.merchant_approval.key,
        manager_key: mgr.manager_key,
        manager_approval: ctx.manager_approval.key,
        token_mint: mrch.token_mint,
        token_account: ctx.token_account,
        swap_account: if inp_swap {
            user_swap_token
        } else {
            None
        },
        next_rebill: inp_next_rebill,
        max_delay: inp_max_delay,
        not_valid_before: inp_not_valid_before,
        not_valid_after: inp_not_valid_after,
        period: inp_period,
        period_budget: inp_period_budget,
        swap: inp_swap,
        swap_direction: inp_swap_direction,
        swap_mode: inp_swap_mode,
        ..subscr
    }
}

/// The setup and transfer plan of a successful renewal.  Unlike a new
/// subscription, the swap-source delegation link is installed whenever a
/// swap is configured, charge or no charge.
pub open spec fn spec_update_plan(
    ctx: UpdateSubscr,
    fees_bps: u32,
    amount: u64,
    link_token: bool,
    swap: bool,
    swap_direction: bool,
    user_swap_token: Option<AccountId>,
    authority_program: Seq<u8>,
) -> ChargePlan {
    let fee = if amount > 0 {
        spec_fee(amount, fees_bps) as u64
    } else {
        0
    };
    ChargePlan {
        total: amount,
        fee: fee,
        net: (amount - fee) as u64,
        authority: if swap {
            TransferAuthority::Root
        } else {
            TransferAuthority::User
        },
        swap: if amount > 0 && swap {
            Some(
                SwapPlan {
                    source: user_swap_token->Some_0,
                    pull_amount: 0,
                    amount: amount,
                    direction: swap_direction,
                    refund_excess: false,
                },
            )
        } else {
            None
        },
        link_funding: !swap && link_token,
        link_swap: swap && link_token,
        record_revenue: amount > 0 && ctx.net_auth@ == authority_program,
    }
}

/// Updates a subscription, or cancels it.  Only the owning user may call.
/// With `inp_active` false this is the user-initiated cancellation: the
/// active flag is cleared and nothing else happens — no check, no
/// transfer, no schedule or budget change.  Otherwise everything a
/// subscription validates is validated afresh, an optional charge runs,
/// and the binding, schedule and swap settings are overwritten while the
/// rebill counters and total budget carry over.
pub fn update_subscription(
    subscr: &SubscrData,
    ctx: &UpdateSubscr,
    merchant_approval: &MerchantApproval,
    manager_approval: &ManagerApproval,
    derive_program: &AccountId,
    authority_program: &AccountId,
    now: i64,
    inp_dest_nonce: u8,
    inp_active: bool,
    inp_link_token: bool,
    inp_amount: u64,
    inp_next_rebill: i64,
    inp_period: u8,
    inp_period_budget: u64,
    inp_max_delay: i64,
    inp_not_valid_before: i64,
    inp_not_valid_after: i64,
    inp_swap: bool,
    inp_swap_direction: bool,
    inp_swap_mode: u8,
    inp_swap_dst_nonce: u8,
    user_swap_token: Option<AccountId>,
) -> (r: Result<UpdateOutcome, ErrorCode>)
    requires
        inp_active && inp_swap ==> user_swap_token is Some,
        inp_active ==> inp_next_rebill <= TS_MAX,
    ensures
        subscr.user_key@ != ctx.user_key@ ==> r == Err::<UpdateOutcome, ErrorCode>(
            ErrorCode::InvalidAccount,
        ),
        // User-initiated cancellation: the active flag clears, every other
        // field stays, and no money moves.
        subscr.user_key@ == ctx.user_key@ && !inp_active ==> r == Ok::<UpdateOutcome, ErrorCode>(
            UpdateOutcome::Cancelled { subscr: SubscrData { active: false, ..*subscr } },
        ),
        subscr.user_key@ == ctx.user_key@ && inp_active ==> match spec_update_check(
            *subscr,
            *ctx,
            *merchant_approval,
            *manager_approval,
            derive_program@,
            now,
            inp_dest_nonce,
            inp_amount,
            inp_next_rebill,
            inp_period,
            inp_max_delay,
            inp_not_valid_before,
            inp_not_valid_after,
            inp_swap,
            inp_swap_mode,
            inp_swap_dst_nonce,
        ) {
            Some(e) => r == Err::<UpdateOutcome, ErrorCode>(e),
            None => r matches Ok(UpdateOutcome::Updated { subscr: s, plan }) && s
                == spec_updated_record(
                *subscr,
                *ctx,
                *merchant_approval,
                *manager_approval,
                inp_next_rebill,
                inp_period,
                inp_period_budget,
                inp_max_delay,
                inp_not_valid_before,
                inp_not_valid_after,
                inp_swap,
                inp_swap_direction,
                inp_swap_mode,
                user_swap_token,
            ) && plan == spec_update_plan(
                *ctx,
                merchant_approval.fees_bps,
                inp_amount,
                inp_link_token,
                inp_swap,
                inp_swap_direction,
                user_swap_token,
                authority_program@,
            ),
        },
        // Renewal keeps the counters and the cumulative budget.
        r matches Ok(UpdateOutcome::Updated { subscr: s, plan }) ==> s.rebill_events
            == subscr.rebill_events && s.rebill_max == subscr.rebill_max && s.use_total
            == subscr.use_total && s.total_budget == subscr.total_budget,
        // A renewed record is well-formed.
        r matches Ok(UpdateOutcome::Updated { subscr: s, plan }) ==> s.wf(),
        // Fee conservation on the renewal charge.
        r matches Ok(UpdateOutcome::Updated { subscr: s, plan }) ==> plan.fee + plan.net
            == inp_amount,
{
    match crate::approvals::verify_matching_accounts(&subscr.user_key, &ctx.user_key) {
        Ok(_) => (),
        Err(e) => {
            return Err(e);
        },
    }
    if !inp_active {
        return Ok(UpdateOutcome::Cancelled { subscr: SubscrData { active: false, ..*subscr } });
    }
    match crate::approvals::verify_matching_accounts(&ctx.net_auth, &subscr.approval_program) {
        Ok(_) => (),
        Err(e) => {
            return Err(e);
        },
    }
    let fees_bps = match verify_merchant_approval(
        inp_dest_nonce,
        &ctx.net_auth,
        &ctx.merchant_approval.owner,
        merchant_approval,
        &ctx.merchant_token,
        &ctx.fees_account,
        &ctx.token_program,
        derive_program,
    ) {
        Ok(bps) => bps,
        Err(e) => {
            return Err(e);
        },
    };
    match verify_manager_approval(&ctx.net_auth, &ctx.manager_approval.owner, manager_approval) {
        Ok(_) => (),
        Err(e) => {
            return Err(e);
        },
    }
    let period = match SubscriptionPeriod::from_u8(inp_period) {
        Some(p) => p,
        None => {
            return Err(ErrorCode::InvalidSubscriptionPeriod);
        },
    };
    match check_window(now, inp_not_valid_before, inp_not_valid_after) {
        Ok(_) => (),
        Err(e) => {
            return Err(e);
        },
    }
    if inp_max_delay < 43200 {
        return Err(ErrorCode::InvalidTimeframe);
    }
    match check_rebill_schedule(now, period, inp_max_delay, inp_not_valid_before, inp_next_rebill) {
        Ok(_) => (),
        Err(e) => {
            return Err(e);
        },
    }
    let mut swap_plan: Option<SwapPlan> = None;
    let mut fee: u64 = 0;
    let mut net: u64 = 0;
    if inp_amount > 0 {
        if inp_swap {
            let swap_dst = match derive_address(
                &ctx.root_key,
                &ctx.token_program,
                &merchant_approval.token_mint,
                inp_swap_dst_nonce,
                derive_program,
            ) {
                Some(k) => k,
                None => {
                    return Err(ErrorCode::InvalidNonce);
                },
            };
            if !(&swap_dst == &ctx.token_account) {
                return Err(ErrorCode::InvalidDerivedAccount);
            }
            match SwapMode::from_u8(inp_swap_mode) {
                Some(_) => (),
                None => {
                    return Err(ErrorCode::InvalidSwapMode);
                },
            }
            let source = match user_swap_token {
                Some(k) => k,
                None => {
                    return Err(ErrorCode::InvalidAccount);
                },
            };
            swap_plan = Some(
                SwapPlan {
                    source: source,
                    pull_amount: 0,
                    amount: inp_amount,
                    direction: inp_swap_direction,
                    refund_excess: false,
                },
            );
        }
        match charge_split(inp_amount, fees_bps) {
            Ok((f, n)) => {
                fee = f;
                net = n;
            },
            Err(e) => {
                return Err(e);
            },
        }
    }
    let out = UpdateOutcome::Updated {
        subscr: SubscrData {
            active: true,
            merchant_key: merchant_approval.merchant_key,
            merchant_approval: ctx.merchant_approval.key,
            manager_key: manager_approval.manager_key,
            manager_approval: ctx.manager_approval.key,
            token_mint: merchant_approval.token_mint,
            token_account: ctx.token_account,
            swap_account: if inp_swap {
                user_swap_token
            } else {
                None
            },
            next_rebill: inp_next_rebill,
            max_delay: inp_max_delay,
            not_valid_before: inp_not_valid_before,
            not_valid_after: inp_not_valid_after,
            period: inp_period,
            period_budget: inp_period_budget,
            swap: inp_swap,
            swap_direction: inp_swap_direction,
            swap_mode: inp_swap_mode,
            ..*subscr
        },
        plan: ChargePlan {
            total: inp_amount,
            fee: fee,
            net: net,
            authority: if inp_swap {
                TransferAuthority::Root
            } else {
                TransferAuthority::User
            },
            swap: swap_plan,
            link_funding: !inp_swap && inp_link_token,
            link_swap: inp_swap && inp_link_token,
            record_revenue: inp_amount > 0 && &ctx.net_auth == authority_program,
        },
    };
    Ok(out)
}

} // verus!
