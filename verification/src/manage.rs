use vstd::prelude::*;

use crate::approvals::ManagerApproval;
use crate::errors::ErrorCode;
use crate::ids::AccountId;
use crate::subscription::SubscrData;

verus! {

/// Resolved accounts for `close_subscription`: the record to close, the
/// owning user (signer) and the recipient of the released storage.
#[derive(Clone, Copy, Debug)]
pub struct CloseSubscr {
    pub subscr_data: AccountId,
    pub user_key: AccountId,
    pub fee_recipient: AccountId,
}

/// Resolved accounts for `update_manager`: the record, the previous manager
/// (signer), the new manager and the new manager's approval record address.
#[derive(Clone, Copy, Debug)]
pub struct UpdateManager {
    pub subscr_data: AccountId,
    pub manager_prev: AccountId,
    pub manager_key: AccountId,
    pub manager_approval: AccountId,
}

/// Resolved accounts for `manager_cancel`: the record, the manager (signer)
/// and the manager's approval record address.
#[derive(Clone, Copy, Debug)]
pub struct ManagerCancel {
    pub subscr_data: AccountId,
    pub manager_key: AccountId,
    pub manager_approval: AccountId,
}

/// Releases a subscription record back to its owner.  Only the owning user
/// may close; no other business rule applies, active or not.
pub fn close_subscription(subscr: &SubscrData, ctx: &CloseSubscr) -> (r: Result<(), ErrorCode>)
    ensures
        subscr.user_key@ == ctx.user_key@ ==> r == Ok::<(), ErrorCode>(()),
        subscr.user_key@ != ctx.user_key@ ==> r == Err::<(), ErrorCode>(ErrorCode::InvalidAccount),
{
    match crate::approvals::verify_matching_accounts(&subscr.user_key, &ctx.user_key) {
        Ok(_) => Ok(()),
        Err(e) => Err(e),
    }
}

/// The verdict on a manager reassignment: the previous manager must match
/// the record and the new manager must hold an active approval naming them.
pub open spec fn spec_update_manager_check(
    subscr: SubscrData,
    ctx: UpdateManager,
    approval: ManagerApproval,
) -> Option<ErrorCode> {
    if subscr.manager_key@ != ctx.manager_prev@ {
        Some(ErrorCode::InvalidAccount)
    } else if !approval.active {
        Some(ErrorCode::NotApproved)
    } else if approval.manager_key@ != ctx.manager_key@ {
        Some(ErrorCode::InvalidAccount)
    } else {
        None
    }
}

/// Reassigns the rebill manager.  The previous manager signs; the new
/// manager's approval must be active and keyed to the new manager.  On
/// success only the manager identity and its approval reference change.
pub fn update_manager(subscr: &SubscrData, ctx: &UpdateManager, approval: &ManagerApproval) -> (r:
    Result<SubscrData, ErrorCode>)
    ensures
        match spec_update_manager_check(*subscr, *ctx, *approval) {
            Some(e) => r == Err::<SubscrData, ErrorCode>(e),
            None => r == Ok::<SubscrData, ErrorCode>(
                SubscrData {
                    manager_key: ctx.manager_key,
                    manager_approval: ctx.manager_approval,
                    ..*subscr
                },
            ),
        },
{
    match crate::approvals::verify_matching_accounts(&subscr.manager_key, &ctx.manager_prev) {
        Ok(_) => (),
        Err(e) => {
            return Err(e);
        },
    }
    if !approval.active {
        return Err(ErrorCode::NotApproved);
    }
    match crate::approvals::verify_matching_accounts(&approval.manager_key, &ctx.manager_key) {
        Ok(_) => (),
        Err(e) => {
            return Err(e);
        },
    }
    Ok(
        SubscrData {
            manager_key: ctx.manager_key,
            manager_approval: ctx.manager_approval,
            ..*subscr
        },
    )
}

/// The verdict on a manager-initiated cancellation: the signing manager
/// must match the record and still hold an active approval naming them.
pub open spec fn spec_manager_cancel_check(
    subscr: SubscrData,
    ctx: ManagerCancel,
    approval: ManagerApproval,
) -> Option<ErrorCode> {
    if subscr.manager_key@ != ctx.manager_key@ {
        Some(ErrorCode::InvalidAccount)
    } else if !approval.active {
        Some(ErrorCode::NotApproved)
    } else if approval.manager_key@ != ctx.manager_key@ {
        Some(ErrorCode::InvalidAccount)
    } else {
        None
    }
}

/// Manager-initiated termination.  Touches no funds and no schedule or
/// budget field: it only clears the active flag, after which the record is
/// terminal for rebilling.
pub fn manager_cancel(subscr: &SubscrData, ctx: &ManagerCancel, approval: &ManagerApproval) -> (r:
    Result<SubscrData, ErrorCode>)
    ensures
        match spec_manager_cancel_check(*subscr, *ctx, *approval) {
            Some(e) => r == Err::<SubscrData, ErrorCode>(e),
            None => r == Ok::<SubscrData, ErrorCode>(SubscrData { active: false, ..*subscr }),
        },
{
    match crate::approvals::verify_matching_accounts(&subscr.manager_key, &ctx.manager_key) {
        Ok(_) => (),
        Err(e) => {
            return Err(e);
        },
    }
    if !approval.active {
        return Err(ErrorCode::NotApproved);
    }
    match crate::approvals::verify_matching_accounts(&approval.manager_key, &ctx.manager_key) {
        Ok(_) => (),
        Err(e) => {
            return Err(e);
        },
    }
    Ok(SubscrData { active: false, ..*subscr })
}

} // verus!
