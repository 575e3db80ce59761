use vstd::prelude::*;

use crate::errors::ErrorCode;
use crate::ids::{AccountId, derived_address, derive_address};

verus! {

/// The network authority's approval record for a merchant, read-only here:
/// its lifecycle belongs to the authority service.  `tx_count` is the
/// authority's running transaction counter for the merchant.
#[derive(Clone, Copy, Debug)]
pub struct MerchantApproval {
    pub active: bool,
    pub merchant_key: AccountId,
    pub token_mint: AccountId,
    pub fees_account: AccountId,
    pub fees_bps: u32,
    pub dest_account: AccountId,
    pub tx_count: u64,
}

/// The network authority's approval record for a rebill manager.
#[derive(Clone, Copy, Debug)]
pub struct ManagerApproval {
    pub active: bool,
    pub manager_key: AccountId,
}

/// Compares two addresses byte for byte; any mismatch is `InvalidAccount`.
pub fn verify_matching_accounts(left: &AccountId, right: &AccountId) -> (r: Result<
    (),
    ErrorCode,
>)
    ensures
        left@ == right@ ==> r == Ok::<(), ErrorCode>(()),
        left@ != right@ ==> r == Err::<(), ErrorCode>(ErrorCode::InvalidAccount),
{
    if left == right {
        Ok(())
    } else {
        Err(ErrorCode::InvalidAccount)
    }
}

/// The approval gate's verdict on a manager approval record: the record
/// must be owned by the expected authority program and still be active.
pub open spec fn spec_manager_check(
    netauth: Seq<u8>,
    approval_owner: Seq<u8>,
    approval: ManagerApproval,
) -> Option<ErrorCode> {
    if netauth != approval_owner {
        Some(ErrorCode::InvalidAccount)
    } else if !approval.active {
        Some(ErrorCode::NotApproved)
    } else {
        None
    }
}

/// Verifies a manager approval record against the expected authority.
pub fn verify_manager_approval(
    netauth: &AccountId,
    approval_owner: &AccountId,
    approval: &ManagerApproval,
) -> (r: Result<(), ErrorCode>)
    ensures
        match spec_manager_check(netauth@, approval_owner@, *approval) {
            Some(e) => r == Err::<(), ErrorCode>(e),
            None => r == Ok::<(), ErrorCode>(()),
        },
{
    match verify_matching_accounts(netauth, approval_owner) {
        Ok(_) => (),
        Err(e) => {
            return Err(e);
        },
    }
    if !approval.active {
        return Err(ErrorCode::NotApproved);
    }
    Ok(())
}

/// The approval gate's verdict on a merchant approval record.  In order:
/// the record must be owned by the expected authority program, be active,
/// name the supplied fees account, and the supplied merchant token account
/// must equal the address derived for the merchant's payout destination
/// under the token and derivation programs — the derive-then-compare
/// defense against account substitution.
pub open spec fn spec_merchant_check(
    dest_nonce: u8,
    netauth: Seq<u8>,
    approval_owner: Seq<u8>,
    approval: MerchantApproval,
    merchant_token: Seq<u8>,
    fees_account: Seq<u8>,
    token_program: Seq<u8>,
    derive_program: Seq<u8>,
) -> Option<ErrorCode> {
    if netauth != approval_owner {
        Some(ErrorCode::InvalidAccount)
    } else if !approval.active {
        Some(ErrorCode::NotApproved)
    } else if approval.fees_account@ != fees_account {
        Some(ErrorCode::InvalidAccount)
    } else {
        match derived_address(
            approval.dest_account@,
            token_program,
            approval.token_mint@,
            dest_nonce,
            derive_program,
        ) {
            None => Some(ErrorCode::InvalidNonce),
            Some(expected) => if expected != merchant_token {
                Some(ErrorCode::InvalidDerivedAccount)
            } else {
                None
            },
        }
    }
}

/// Verifies a merchant approval record and the merchant's payout token
/// account; on success returns the approval's fee basis points.
pub fn verify_merchant_approval(
    dest_nonce: u8,
    netauth: &AccountId,
    approval_owner: &AccountId,
    approval: &MerchantApproval,
    merchant_token: &AccountId,
    fees_account: &AccountId,
    token_program: &AccountId,
    derive_program: &AccountId,
) -> (r: Result<u32, ErrorCode>)
    ensures
        match spec_merchant_check(
            dest_nonce,
            netauth@,
            approval_owner@,
            *approval,
            merchant_token@,
            fees_account@,
            token_program@,
            derive_program@,
        ) {
            Some(e) => r == Err::<u32, ErrorCode>(e),
            None => r == Ok::<u32, ErrorCode>(approval.fees_bps),
        },
{
    match verify_matching_accounts(netauth, approval_owner) {
        Ok(_) => (),
        Err(e) => {
            return Err(e);
        },
    }
    if !approval.active {
        return Err(ErrorCode::NotApproved);
    }
    match verify_matching_accounts(&approval.fees_account, fees_account) {
        Ok(_) => (),
        Err(e) => {
            return Err(e);
        },
    }
    let derived = match derive_address(
        &approval.dest_account,
        token_program,
        &approval.token_mint,
        dest_nonce,
        derive_program,
    ) {
        Some(k) => k,
        None => {
            return Err(ErrorCode::InvalidNonce);
        },
    };
    if !(&derived == merchant_token) {
        return Err(ErrorCode::InvalidDerivedAccount);
    }
    Ok(approval.fees_bps)
}

} // verus!
