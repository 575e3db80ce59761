use vstd::prelude::*;

use crate::approvals::{ManagerApproval, MerchantApproval};
use crate::calendar::{SubscriptionPeriod, TS_MAX, TS_MIN, is_period_start, period_label,
    spec_period_label};
use crate::errors::ErrorCode;
use crate::fees::{charge_split, spec_fee};
use crate::ids::{AccountId, derived_address, derive_address};
use crate::plan::{ChargePlan, SwapInputs, SwapMode, SwapPlan, TransferAuthority, spec_swap_pull};
use crate::subscription::SubscrData;

verus! {

/// Resolved accounts for `process`: the record, the network authority, the
/// program's signing authority, both approval record addresses, the
/// manager (signer), the payment accounts with the funding account's mint,
/// and the delegation accounts.
#[derive(Clone, Copy, Debug)]
pub struct ProcessSubscr {
    pub subscr_data: AccountId,
    pub net_auth: AccountId,
    pub root_key: AccountId,
    pub merchant_approval: AccountId,
    pub merchant_token: AccountId,
    pub manager_key: AccountId,
    pub manager_approval: AccountId,
    pub token_program: AccountId,
    pub token_account: AccountId,
    pub token_account_mint: AccountId,
    pub fees_account: AccountId,
    pub delegate_program: AccountId,
    pub delegate_root: AccountId,
    pub allowance: AccountId,
}

/// What a successful rebill hands back: the record to persist and the
/// transfers to carry out.
#[derive(Clone, Copy, Debug)]
pub struct ProcessOutcome {
    pub subscr: SubscrData,
    pub plan: ChargePlan,
}

/// The verdict on a rebill attempt, in the order the checks run: the
/// supplied approval records must be the ones bound to the subscription,
/// the subscription must be active with rebills left, the funding account
/// and its mint must match, the merchant token account must equal the
/// address derived for the merchant, both approvals must still be active
/// and still match the subscription, the attempt must fall inside the
/// validity window and the period's grace window, name the exact scheduled
/// instant and its label, and hand in the immediately following period
/// boundary; the amount must respect both budgets, the swap leg (if any)
/// must name the bound swap account and a known facility, the fee split
/// must not overflow, and the rebill counter must have room.
pub open spec fn spec_process_check(
    subscr: SubscrData,
    ctx: ProcessSubscr,
    mrch: MerchantApproval,
    mgr: ManagerApproval,
    derive_program: Seq<u8>,
    now: i64,
    merchant_nonce: u8,
    rebill_ts: i64,
    rebill_str: Seq<char>,
    next_rebill: i64,
    amount: u64,
    swap_inputs: Option<SwapInputs>,
) -> Option<ErrorCode> {
    if subscr.manager_approval@ != ctx.manager_approval@ {
        Some(ErrorCode::InvalidAccount)
    } else if subscr.merchant_approval@ != ctx.merchant_approval@ {
        Some(ErrorCode::InvalidAccount)
    } else if !subscr.active {
        Some(ErrorCode::InactiveSubscription)
    } else if subscr.rebill_max > 0 && subscr.rebill_events >= subscr.rebill_max {
        Some(ErrorCode::MaxRebills)
    } else if subscr.token_account@ != ctx.token_account@ {
        Some(ErrorCode::InvalidAccount)
    } else if subscr.token_mint@ != ctx.token_account_mint@ {
        Some(ErrorCode::InvalidAccount)
    } else {
        match derived_address(
            mrch.merchant_key@,
            ctx.token_program@,
            ctx.token_account_mint@,
            merchant_nonce,
            derive_program,
        ) {
            None => Some(ErrorCode::InvalidNonce),
            Some(expected) => if expected != ctx.merchant_token@ {
                Some(ErrorCode::InvalidAccount)
            } else if !mrch.active {
                Some(ErrorCode::NotApproved)
            } else if subscr.merchant_key@ != mrch.merchant_key@ {
                Some(ErrorCode::InvalidAccount)
            } else if mrch.token_mint@ != ctx.token_account_mint@ {
                Some(ErrorCode::InvalidAccount)
            } else if mrch.fees_account@ != ctx.fees_account@ {
                Some(ErrorCode::InvalidAccount)
            } else if !mgr.active {
                Some(ErrorCode::NotApproved)
            } else if mgr.manager_key@ != ctx.manager_key@ {
                Some(ErrorCode::InvalidAccount)
            } else if SubscriptionPeriod::spec_from_u8(subscr.period) is None {
                Some(ErrorCode::InvalidSubscriptionPeriod)
            } else {
                let period = SubscriptionPeriod::spec_from_u8(subscr.period)->Some_0;
                if subscr.not_valid_before > 0 && now < subscr.not_valid_before {
                    Some(ErrorCode::NotValidYet)
                } else if subscr.not_valid_after > 0 && now > subscr.not_valid_after {
                    Some(ErrorCode::Expired)
                } else if rebill_ts < 0 {
                    Some(ErrorCode::InvalidTimeframe)
                } else if now < rebill_ts {
                    Some(ErrorCode::InvalidTimeframe)
                } else if subscr.next_rebill != rebill_ts {
                    Some(ErrorCode::InvalidTimeframe)
                } else if rebill_ts + subscr.max_delay > i64::MAX {
                    Some(ErrorCode::Overflow)
                } else if now > rebill_ts + subscr.max_delay {
                    Some(ErrorCode::Expired)
                } else if rebill_str != spec_period_label(rebill_ts, period) {
                    Some(ErrorCode::InvalidTimeframe)
                } else if spec_period_label(next_rebill, period) == spec_period_label(
                    (next_rebill - 1) as i64,
                    period,
                ) {
                    Some(ErrorCode::InvalidTimeframe)
                } else if spec_period_label(rebill_ts, period) != spec_period_label(
                    (next_rebill - 1) as i64,
                    period,
                ) {
                    Some(ErrorCode::InvalidTimeframe)
                } else {
                    spec_process_charge_check(subscr, mrch.fees_bps, amount, swap_inputs)
                }
            },
        }
    }
}

/// Whether the fee split of `amount` at `bps` basis points goes through:
/// the widened product fits in 64 bits and the fee does not exceed the
/// amount.
pub open spec fn charge_fits(amount: u64, bps: u32) -> bool {
    amount * bps < 0x10000000000000000 && spec_fee(amount, bps) <= amount
}

/// The verdict on the money-moving tail of a rebill: budgets, the swap
/// leg, the fee split, then room on the rebill counter.
pub open spec fn spec_process_charge_check(
    subscr: SubscrData,
    fees_bps: u32,
    amount: u64,
    swap_inputs: Option<SwapInputs>,
) -> Option<ErrorCode> {
    if amount > 0 && amount > subscr.period_budget {
        Some(ErrorCode::PeriodBudgetExceeded)
    } else if amount > 0 && subscr.use_total && amount > subscr.total_budget {
        Some(ErrorCode::TotalBudgetExceeded)
    } else if amount > 0 && subscr.swap && !(subscr.swap_account matches Some(bound)
        && bound@ == swap_inputs->Some_0.source@) {
        Some(ErrorCode::InvalidAccount)
    } else if amount > 0 && subscr.swap && SwapMode::spec_from_u8(subscr.swap_mode) is None {
        Some(ErrorCode::InvalidSwapMode)
    } else if amount > 0 && !charge_fits(amount, fees_bps) {
        Some(ErrorCode::Overflow)
    } else if subscr.rebill_events == u32::MAX {
        Some(ErrorCode::Overflow)
    } else {
        None
    }
}

/// The record a successful rebill leaves behind: the schedule advances to
/// the supplied boundary, the counter steps up by one, and (for a
/// manager-initiated charge under a total budget) the cumulative budget
/// shrinks by the amount.  Every other field stays as it was.
pub open spec fn spec_processed_record(subscr: SubscrData, next_rebill: i64, amount: u64) -> SubscrData {
    SubscrData {
        next_rebill: next_rebill,
        rebill_events: (subscr.rebill_events + 1) as u32,
        total_budget: if subscr.use_total && amount > 0 {
            (subscr.total_budget - amount) as u64
        } else {
            subscr.total_budget
        },
        ..subscr
    }
}

/// The transfer plan of a successful rebill.
pub open spec fn spec_process_plan(
    subscr: SubscrData,
    net_auth: Seq<u8>,
    fees_bps: u32,
    amount: u64,
    swap_estimate: u64,
    swap_inputs: Option<SwapInputs>,
    authority_program: Seq<u8>,
) -> ChargePlan {
    let fee = if amount > 0 {
        spec_fee(amount, fees_bps) as u64
    } else {
        0
    };
    ChargePlan {
        total: amount,
        fee: fee,
        net: (amount - fee) as u64,
        authority: if subscr.swap {
            TransferAuthority::Root
        } else {
            TransferAuthority::Delegate
        },
        swap: if amount > 0 && subscr.swap {
            Some(
                SwapPlan {
                    source: swap_inputs->Some_0.source,
                    pull_amount: spec_swap_pull(swap_estimate, swap_inputs->Some_0.source_balance),
                    amount: amount,
                    direction: subscr.swap_direction,
                    refund_excess: true,
                },
            )
        } else {
            None
        },
        link_funding: false,
        link_swap: false,
        record_revenue: amount > 0 && net_auth == authority_program,
    }
}

/// The recurring-charge operation, run by the manager.  Revalidates the
/// whole binding between the subscription, its approvals and the supplied
/// accounts, enforces the timeframe protocol (the attempt must name the
/// scheduled instant exactly, inside its grace window, with the matching
/// label, and hand in exactly the next period boundary), enforces both
/// budgets, and on success returns the advanced record and the transfer
/// plan.  On any failure nothing changes.
pub fn process(
    subscr: &SubscrData,
    ctx: &ProcessSubscr,
    merchant_approval: &MerchantApproval,
    manager_approval: &ManagerApproval,
    derive_program: &AccountId,
    authority_program: &AccountId,
    now: i64,
    inp_merchant_nonce: u8,
    inp_rebill_ts: i64,
    inp_rebill_str: String,
    inp_next_rebill: i64,
    inp_amount: u64,
    inp_swap_estimate: u64,
    swap_inputs: Option<SwapInputs>,
) -> (r: Result<ProcessOutcome, ErrorCode>)
    requires
        subscr.swap && inp_amount > 0 ==> swap_inputs is Some,
        inp_rebill_ts <= TS_MAX,
        TS_MIN < inp_next_rebill <= TS_MAX,
    ensures
        match spec_process_check(
            *subscr,
            *ctx,
            *merchant_approval,
            *manager_approval,
            derive_program@,
            now,
            inp_merchant_nonce,
            inp_rebill_ts,
            inp_rebill_str@,
            inp_next_rebill,
            inp_amount,
            swap_inputs,
        ) {
            Some(e) => r == Err::<ProcessOutcome, ErrorCode>(e),
            None => r matches Ok(out) && out.subscr == spec_processed_record(
                *subscr,
                inp_next_rebill,
                inp_amount,
            ) && out.plan == spec_process_plan(
                *subscr,
                ctx.net_auth@,
                merchant_approval.fees_bps,
                inp_amount,
                inp_swap_estimate,
                swap_inputs,
                authority_program@,
            ),
        },
        // Counter monotonicity: each successful rebill steps the counter by
        // exactly one and advances the schedule to the supplied boundary.
        r matches Ok(out) ==> out.subscr.rebill_events == subscr.rebill_events + 1
            && out.subscr.next_rebill == inp_next_rebill,
        // Sequence property: on success the supplied boundary opens the
        // period immediately after the one being charged.
        r matches Ok(out) ==> {
            let period = SubscriptionPeriod::spec_from_u8(subscr.period)->Some_0;
            &&& spec_period_label(inp_next_rebill, period) != spec_period_label(
                (inp_next_rebill - 1) as i64,
                period,
            )
            &&& spec_period_label((inp_next_rebill - 1) as i64, period) == spec_period_label(
                subscr.next_rebill,
                period,
            )
        },
        // Budget enforcement: a successful charge fits the per-period
        // budget, and a manager charge under a total budget shrinks it by
        // exactly the amount.
        r is Ok && inp_amount > 0 ==> inp_amount <= subscr.period_budget,
        r matches Ok(out) ==> (inp_amount > 0 && subscr.use_total ==> inp_amount
            <= subscr.total_budget && out.subscr.total_budget == subscr.total_budget - inp_amount),
        // Fee conservation: the fee and net parts always rebuild the gross.
        r matches Ok(out) ==> out.plan.fee + out.plan.net == inp_amount,
        // Cancellation terminality: with the bound approvals supplied, an
        // inactive subscription always fails with InactiveSubscription.
        subscr.manager_approval@ == ctx.manager_approval@ && subscr.merchant_approval@
            == ctx.merchant_approval@ && !subscr.active ==> r == Err::<ProcessOutcome, ErrorCode>(
            ErrorCode::InactiveSubscription,
        ),
        // The rebill cap: once the counter has reached a nonzero cap, the
        // attempt fails with MaxRebills.
        subscr.manager_approval@ == ctx.manager_approval@ && subscr.merchant_approval@
            == ctx.merchant_approval@ && subscr.active && subscr.rebill_max > 0
            && subscr.rebill_events >= subscr.rebill_max ==> r == Err::<
            ProcessOutcome,
            ErrorCode,
        >(ErrorCode::MaxRebills),
        // A well-formed record stays well-formed.
        r matches Ok(out) ==> (subscr.wf() ==> out.subscr.wf()),
{
    match crate::approvals::verify_matching_accounts(&subscr.manager_approval, &ctx.manager_approval) {
        Ok(_) => (),
        Err(e) => {
            return Err(e);
        },
    }
    match crate::approvals::verify_matching_accounts(&subscr.merchant_approval, &ctx.merchant_approval) {
        Ok(_) => (),
        Err(e) => {
            return Err(e);
        },
    }
    if !subscr.active {
        return Err(ErrorCode::InactiveSubscription);
    }
    if subscr.rebill_max > 0 && subscr.rebill_events >= subscr.rebill_max {
        return Err(ErrorCode::MaxRebills);
    }
    match crate::approvals::verify_matching_accounts(&subscr.token_account, &ctx.token_account) {
        Ok(_) => (),
        Err(e) => {
            return Err(e);
        },
    }
    match crate::approvals::verify_matching_accounts(&subscr.token_mint, &ctx.token_account_mint) {
        Ok(_) => (),
        Err(e) => {
            return Err(e);
        },
    }
    let derived = match derive_address(
        &merchant_approval.merchant_key,
        &ctx.token_program,
        &ctx.token_account_mint,
        inp_merchant_nonce,
        derive_program,
    ) {
        Some(k) => k,
        None => {
            return Err(ErrorCode::InvalidNonce);
        },
    };
    match crate::approvals::verify_matching_accounts(&derived, &ctx.merchant_token) {
        Ok(_) => (),
        Err(e) => {
            return Err(e);
        },
    }
    if !merchant_approval.active {
        return Err(ErrorCode::NotApproved);
    }
    match crate::approvals::verify_matching_accounts(&subscr.merchant_key, &merchant_approval.merchant_key) {
        Ok(_) => (),
        Err(e) => {
            return Err(e);
        },
    }
    match crate::approvals::verify_matching_accounts(&merchant_approval.token_mint, &ctx.token_account_mint) {
        Ok(_) => (),
        Err(e) => {
            return Err(e);
        },
    }
    match crate::approvals::verify_matching_accounts(&merchant_approval.fees_account, &ctx.fees_account) {
        Ok(_) => (),
        Err(e) => {
            return Err(e);
        },
    }
    if !manager_approval.active {
        return Err(ErrorCode::NotApproved);
    }
    match crate::approvals::verify_matching_accounts(&manager_approval.manager_key, &ctx.manager_key) {
        Ok(_) => (),
        Err(e) => {
            return Err(e);
        },
    }
    let period = match SubscriptionPeriod::from_u8(subscr.period) {
        Some(p) => p,
        None => {
            return Err(ErrorCode::InvalidSubscriptionPeriod);
        },
    };
    if subscr.not_valid_before > 0 && now < subscr.not_valid_before {
        return Err(ErrorCode::NotValidYet);
    }
    if subscr.not_valid_after > 0 && now > subscr.not_valid_after {
        return Err(ErrorCode::Expired);
    }
    if inp_rebill_ts < 0 {
        return Err(ErrorCode::InvalidTimeframe);
    }
    if now < inp_rebill_ts {
        return Err(ErrorCode::InvalidTimeframe);
    }
    if subscr.next_rebill != inp_rebill_ts {
        return Err(ErrorCode::InvalidTimeframe);
    }
    let timeframe_end = match inp_rebill_ts.checked_add(subscr.max_delay) {
        Some(v) => v,
        None => {
            return Err(ErrorCode::Overflow);
        },
    };
    if now > timeframe_end {
        return Err(ErrorCode::Expired);
    }
    let d1 = period_label(inp_rebill_ts, period);
    if !(inp_rebill_str == d1) {
        return Err(ErrorCode::InvalidTimeframe);
    }
    if !is_period_start(inp_next_rebill, period) {
        return Err(ErrorCode::InvalidTimeframe);
    }
    let d3 = period_label(inp_next_rebill - 1, period);
    if !(d1 == d3) {
        return Err(ErrorCode::InvalidTimeframe);
    }
    let mut new_total: u64 = subscr.total_budget;
    let mut swap_plan: Option<SwapPlan> = None;
    let mut fee: u64 = 0;
    let mut net: u64 = 0;
    if inp_amount > 0 {
        if inp_amount > subscr.period_budget {
            return Err(ErrorCode::PeriodBudgetExceeded);
        }
        if subscr.use_total {
            if inp_amount > subscr.total_budget {
                return Err(ErrorCode::TotalBudgetExceeded);
            }
            new_total = subscr.total_budget - inp_amount;
        }
        if subscr.swap {
            let si = match swap_inputs {
                Some(si) => si,
                None => {
                    return Err(ErrorCode::InvalidAccount);
                },
            };
            match subscr.swap_account {
                Some(bound) => {
                    match crate::approvals::verify_matching_accounts(&bound, &si.source) {
                        Ok(_) => (),
                        Err(e) => {
                            return Err(e);
                        },
                    }
                },
                None => {
                    return Err(ErrorCode::InvalidAccount);
                },
            }
            let pull = if inp_swap_estimate == 0 || si.source_balance < inp_swap_estimate {
                si.source_balance
            } else {
                inp_swap_estimate
            };
            match SwapMode::from_u8(subscr.swap_mode) {
                Some(_) => (),
                None => {
                    return Err(ErrorCode::InvalidSwapMode);
                },
            }
            swap_plan = Some(
                SwapPlan {
                    source: si.source,
                    pull_amount: pull,
                    amount: inp_amount,
                    direction: subscr.swap_direction,
                    refund_excess: true,
                },
            );
        }
        match charge_split(inp_amount, merchant_approval.fees_bps) {
            Ok((f, n)) => {
                fee = f;
                net = n;
            },
            Err(e) => {
                return Err(e);
            },
        }
    }
    let new_events = match subscr.rebill_events.checked_add(1) {
        Some(v) => v,
        None => {
            return Err(ErrorCode::Overflow);
        },
    };
    let out = ProcessOutcome {
        subscr: SubscrData {
            next_rebill: inp_next_rebill,
            rebill_events: new_events,
            total_budget: new_total,
            ..*subscr
        },
        plan: ChargePlan {
            total: inp_amount,
            fee: fee,
            net: net,
            authority: if subscr.swap {
                TransferAuthority::Root
            } else {
                TransferAuthority::Delegate
            },
            swap: swap_plan,
            link_funding: false,
            link_swap: false,
            record_revenue: inp_amount > 0 && &ctx.net_auth == authority_program,
        },
    };
    Ok(out)
}

/// The amounts of a run of charges, summed.
pub open spec fn seq_sum(amounts: Seq<u64>) -> int
    decreases amounts.len(),
{
    if amounts.len() == 0 {
        0
    } else {
        amounts[0] + seq_sum(amounts.skip(1))
    }
}

/// Whether a run of charges is accepted against a cumulative budget: each
/// charge fits what remains, and what remains shrinks by the charge.
/// These are exactly the conditions a successful `process` guarantees for
/// a manager-initiated charge under a total budget.
pub open spec fn charges_ok(budget: u64, amounts: Seq<u64>) -> bool
    decreases amounts.len(),
{
    amounts.len() == 0 || (amounts[0] <= budget && charges_ok(
        (budget - amounts[0]) as u64,
        amounts.skip(1),
    ))
}

/// Budget conservation: over any run of charges accepted against a
/// cumulative budget, the amounts together never exceed the budget the run
/// started with.  With `use_total` set, each successful `process` supplies
/// one step of `charges_ok`, so no sequence of rebills can spend past the
/// original total budget.
pub proof fn lemma_total_budget_conservation(budget: u64, amounts: Seq<u64>)
    requires
        charges_ok(budget, amounts),
    ensures
        seq_sum(amounts) <= budget,
    decreases amounts.len(),
{
    if amounts.len() > 0 {
        lemma_total_budget_conservation((budget - amounts[0]) as u64, amounts.skip(1));
    }
}

} // verus!
