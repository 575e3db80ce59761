use vstd::prelude::*;

use crate::approvals::MerchantApproval;
use crate::ids::AccountId;
use crate::payment::MerchantPayment;
use crate::plan::ChargePlan;
use crate::process::ProcessOutcome;
use crate::subscribe::SubscribeOutcome;
use crate::subscription::SubscrData;

verus! {

/// Event-type discriminant of a subscription creation.
pub const SUBSCRIBE_EVENT: u128 = 176440469768111763486207729736362869784;

/// Event-type discriminant of a user-initiated cancellation.
pub const UPDATE_CANCEL_EVENT: u128 = 163361025719893016519135760137561968517;

/// Event-type discriminant of a subscription renewal.
pub const UPDATE_EVENT: u128 = 298296161986799263364555576740275705662;

/// Event-type discriminant of a manager-initiated cancellation.
pub const MANAGER_CANCEL_EVENT: u128 = 14511983483732720963723889670203659368;

/// Event-type discriminant of a processed rebill.
pub const PROCESS_EVENT: u128 = 196800858676461937700417377973077375575;

/// Event-type discriminant of a one-shot merchant payment.
pub const MERCHANT_PAYMENT_EVENT: u128 = 43781034894216267743388154650854733336;

/// The structured log entry appended after every subscription state
/// transition, consumed by off-chain indexers and never read back.
#[derive(Clone, Copy, Debug)]
pub struct SubscrEvent {
    pub event_hash: u128,
    pub slot: u64,
    pub merchant_tx_id: u64,
    pub subscr_data: AccountId,
    pub subscr_id: u128,
    pub payment_id: u128,
    pub rebill_event: u32,
    pub total: u64,
    pub amount: u64,
    pub fees: u64,
    pub next_rebill: i64,
    pub swap: bool,
}

/// The structured log entry appended after a one-shot merchant payment.
#[derive(Clone, Copy, Debug)]
pub struct PaymentEvent {
    pub event_hash: u128,
    pub slot: u64,
    pub merchant_tx_id: u64,
    pub merchant_key: AccountId,
    pub merchant_token: AccountId,
    pub dest_account: AccountId,
    pub user_key: AccountId,
    pub payment_id: u128,
    pub total: u64,
    pub amount: u64,
    pub fees: u64,
    pub swap: bool,
}

/// The event a successful `subscribe` emits: the charge breakdown of the
/// initial amount and the new record's schedule, with a zero rebill count.
/// `merchant_tx_id` is the merchant's transaction counter as it stands
/// after the revenue record, where one was made.
pub fn subscribe_event(
    slot: u64,
    merchant_tx_id: u64,
    subscr_data: AccountId,
    payment_id: u128,
    out: &SubscribeOutcome,
) -> (ev: SubscrEvent)
    ensures
        ev.event_hash == SUBSCRIBE_EVENT,
        ev.slot == slot,
        ev.merchant_tx_id == merchant_tx_id,
        ev.subscr_data == subscr_data,
        ev.subscr_id == out.subscr.subscr_id,
        ev.payment_id == payment_id,
        ev.rebill_event == 0,
        ev.total == out.plan.total,
        ev.amount == out.plan.net,
        ev.fees == out.plan.fee,
        ev.next_rebill == out.subscr.next_rebill,
        ev.swap == out.subscr.swap,
{
    SubscrEvent {
        event_hash: SUBSCRIBE_EVENT,
        slot,
        merchant_tx_id,
        subscr_data,
        subscr_id: out.subscr.subscr_id,
        payment_id,
        rebill_event: 0,
        total: out.plan.total,
        amount: out.plan.net,
        fees: out.plan.fee,
        next_rebill: out.subscr.next_rebill,
        swap: out.subscr.swap,
    }
}

/// The event a successful renewal emits.
pub fn update_event(
    slot: u64,
    merchant_tx_id: u64,
    subscr_data: AccountId,
    payment_id: u128,
    subscr: &SubscrData,
    plan: &ChargePlan,
) -> (ev: SubscrEvent)
    ensures
        ev.event_hash == UPDATE_EVENT,
        ev.slot == slot,
        ev.merchant_tx_id == merchant_tx_id,
        ev.subscr_data == subscr_data,
        ev.subscr_id == subscr.subscr_id,
        ev.payment_id == payment_id,
        ev.rebill_event == 0,
        ev.total == plan.total,
        ev.amount == plan.net,
        ev.fees == plan.fee,
        ev.next_rebill == subscr.next_rebill,
        ev.swap == subscr.swap,
{
    SubscrEvent {
        event_hash: UPDATE_EVENT,
        slot,
        merchant_tx_id,
        subscr_data,
        subscr_id: subscr.subscr_id,
        payment_id,
        rebill_event: 0,
        total: plan.total,
        amount: plan.net,
        fees: plan.fee,
        next_rebill: subscr.next_rebill,
        swap: subscr.swap,
    }
}

/// The event a cancellation emits, user- or manager-initiated: no money
/// moved, and the `-1` sentinel marks that no next rebill is scheduled.
pub fn cancel_event(
    manager_initiated: bool,
    slot: u64,
    subscr_data: AccountId,
    subscr: &SubscrData,
) -> (ev: SubscrEvent)
    ensures
        ev.event_hash == (if manager_initiated {
            MANAGER_CANCEL_EVENT
        } else {
            UPDATE_CANCEL_EVENT
        }),
        ev.slot == slot,
        ev.merchant_tx_id == 0,
        ev.subscr_data == subscr_data,
        ev.subscr_id == subscr.subscr_id,
        ev.payment_id == 0,
        ev.rebill_event == 0,
        ev.total == 0,
        ev.amount == 0,
        ev.fees == 0,
        ev.next_rebill == -1,
        ev.swap == subscr.swap,
{
    SubscrEvent {
        event_hash: if manager_initiated {
            MANAGER_CANCEL_EVENT
        } else {
            UPDATE_CANCEL_EVENT
        },
        slot,
        merchant_tx_id: 0,
        subscr_data,
        subscr_id: subscr.subscr_id,
        payment_id: 0,
        rebill_event: 0,
        total: 0,
        amount: 0,
        fees: 0,
        next_rebill: -1,
        swap: subscr.swap,
    }
}

/// The event a successful rebill emits: the charge breakdown and the
/// stepped rebill counter of the advanced record.
pub fn process_event(
    slot: u64,
    merchant_tx_id: u64,
    subscr_data: AccountId,
    payment_id: u128,
    out: &ProcessOutcome,
) -> (ev: SubscrEvent)
    ensures
        ev.event_hash == PROCESS_EVENT,
        ev.slot == slot,
        ev.merchant_tx_id == merchant_tx_id,
        ev.subscr_data == subscr_data,
        ev.subscr_id == out.subscr.subscr_id,
        ev.payment_id == payment_id,
        ev.rebill_event == out.subscr.rebill_events,
        ev.total == out.plan.total,
        ev.amount == out.plan.net,
        ev.fees == out.plan.fee,
        ev.next_rebill == out.subscr.next_rebill,
        ev.swap == out.subscr.swap,
{
    SubscrEvent {
        event_hash: PROCESS_EVENT,
        slot,
        merchant_tx_id,
        subscr_data,
        subscr_id: out.subscr.subscr_id,
        payment_id,
        rebill_event: out.subscr.rebill_events,
        total: out.plan.total,
        amount: out.plan.net,
        fees: out.plan.fee,
        next_rebill: out.subscr.next_rebill,
        swap: out.subscr.swap,
    }
}

/// The event a successful one-shot payment emits.
pub fn merchant_payment_event(
    slot: u64,
    merchant_tx_id: u64,
    ctx: &MerchantPayment,
    approval: &MerchantApproval,
    payment_id: u128,
    swap: bool,
    plan: &ChargePlan,
) -> (ev: PaymentEvent)
    ensures
        ev.event_hash == MERCHANT_PAYMENT_EVENT,
        ev.slot == slot,
        ev.merchant_tx_id == merchant_tx_id,
        ev.merchant_key == approval.merchant_key,
        ev.merchant_token == ctx.merchant_token,
        ev.dest_account == approval.dest_account,
        ev.user_key == ctx.user_key,
        ev.payment_id == payment_id,
        ev.total == plan.total,
        ev.amount == plan.net,
        ev.fees == plan.fee,
        ev.swap == swap,
{
    PaymentEvent {
        event_hash: MERCHANT_PAYMENT_EVENT,
        slot,
        merchant_tx_id,
        merchant_key: approval.merchant_key,
        merchant_token: ctx.merchant_token,
        dest_account: approval.dest_account,
        user_key: ctx.user_key,
        payment_id,
        total: plan.total,
        amount: plan.net,
        fees: plan.fee,
        swap,
    }
}

} // verus!
