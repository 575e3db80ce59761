use vstd::prelude::*;

use crate::approvals::MerchantApproval;
use crate::errors::ErrorCode;
use crate::fees::{charge_split, spec_fee};
use crate::ids::{AccountId, OwnedAccount, derived_address, derive_address};
use crate::plan::{ChargePlan, SwapMode, SwapPlan, TransferAuthority};

verus! {

/// Resolved accounts for `merchant_payment`: the network authority, the
/// program's signing authority, the merchant approval with its owner, the
/// paying user (signer) and the payment accounts with the funding
/// account's mint.
#[derive(Clone, Copy, Debug)]
pub struct MerchantPayment {
    pub net_auth: AccountId,
    pub root_key: AccountId,
    pub merchant_approval: OwnedAccount,
    pub merchant_token: AccountId,
    pub user_key: AccountId,
    pub token_program: AccountId,
    pub token_account: AccountId,
    pub token_account_mint: AccountId,
    pub fees_account: AccountId,
}

/// The verdict on a one-shot merchant payment, in the order the checks
/// run: the merchant token account must equal the address derived for the
/// approval's payout destination, the approval must be owned by the named
/// authority, be active, and match the funding account's mint and the
/// fees account; a swap leg must name a derived destination and a known
/// facility, and the fee split must go through.
pub open spec fn spec_payment_check(
    ctx: MerchantPayment,
    mrch: MerchantApproval,
    derive_program: Seq<u8>,
    dest_nonce: u8,
    amount: u64,
    swap: bool,
    swap_mode: u8,
    swap_dst_nonce: u8,
) -> Option<ErrorCode> {
    match derived_address(
        mrch.dest_account@,
        ctx.token_program@,
        ctx.token_account_mint@,
        dest_nonce,
        derive_program,
    ) {
        None => Some(ErrorCode::InvalidNonce),
        Some(expected) => if expected != ctx.merchant_token@ {
            Some(ErrorCode::InvalidDerivedAccount)
        } else if ctx.net_auth@ != ctx.merchant_approval.owner@ {
            Some(ErrorCode::InvalidAccount)
        } else if !mrch.active {
            Some(ErrorCode::NotApproved)
        } else if mrch.token_mint@ != ctx.token_account_mint@ {
            Some(ErrorCode::InvalidAccount)
        } else if mrch.fees_account@ != ctx.fees_account@ {
            Some(ErrorCode::InvalidAccount)
        } else if amount > 0 && swap {
            match derived_address(
                ctx.root_key@,
                ctx.token_program@,
                ctx.token_account_mint@,
                swap_dst_nonce,
                derive_program,
            ) {
                None => Some(ErrorCode::InvalidNonce),
                Some(swap_dst) => if swap_dst != ctx.token_account@ {
                    Some(ErrorCode::InvalidDerivedAccount)
                } else if SwapMode::spec_from_u8(swap_mode) is None {
                    Some(ErrorCode::InvalidSwapMode)
                } else if !crate::process::charge_fits(amount, mrch.fees_bps) {
                    Some(ErrorCode::Overflow)
                } else {
                    None
                },
            }
        } else if amount > 0 && !crate::process::charge_fits(amount, mrch.fees_bps) {
            Some(ErrorCode::Overflow)
        } else {
            None
        },
    }
}

/// The transfer plan of a successful payment.
pub open spec fn spec_payment_plan(
    ctx: MerchantPayment,
    fees_bps: u32,
    amount: u64,
    swap: bool,
    swap_direction: bool,
    user_swap_token: Option<AccountId>,
    authority_program: Seq<u8>,
) -> ChargePlan {
    let fee = if amount > 0 {
        spec_fee(amount, fees_bps) as u64
    } else {
        0
    };
    ChargePlan {
        total: amount,
        fee: fee,
        net: (amount - fee) as u64,
        authority: if swap {
            TransferAuthority::Root
        } else {
            TransferAuthority::User
        },
        swap: if amount > 0 && swap {
            Some(
                SwapPlan {
                    source: user_swap_token->Some_0,
                    pull_amount: 0,
                    amount: amount,
                    direction: swap_direction,
                    refund_excess: false,
                },
            )
        } else {
            None
        },
        link_funding: false,
        link_swap: false,
        record_revenue: amount > 0 && ctx.net_auth@ == authority_program,
    }
}

/// A one-shot payment from a user to a merchant, with no persisted state:
/// the same approval gate, fee split and optional swap leg as a rebill,
/// sharing their exact arithmetic.
pub fn merchant_payment(
    ctx: &MerchantPayment,
    merchant_approval: &MerchantApproval,
    derive_program: &AccountId,
    authority_program: &AccountId,
    inp_dest_nonce: u8,
    inp_amount: u64,
    inp_swap: bool,
    inp_swap_direction: bool,
    inp_swap_mode: u8,
    inp_swap_dst_nonce: u8,
    user_swap_token: Option<AccountId>,
) -> (r: Result<ChargePlan, ErrorCode>)
    requires
        inp_swap && inp_amount > 0 ==> user_swap_token is Some,
    ensures
        match spec_payment_check(
            *ctx,
            *merchant_approval,
            derive_program@,
            inp_dest_nonce,
            inp_amount,
            inp_swap,
            inp_swap_mode,
            inp_swap_dst_nonce,
        ) {
            Some(e) => r == Err::<ChargePlan, ErrorCode>(e),
            None => r == Ok::<ChargePlan, ErrorCode>(
                spec_payment_plan(
                    *ctx,
                    merchant_approval.fees_bps,
                    inp_amount,
                    inp_swap,
                    inp_swap_direction,
                    user_swap_token,
                    authority_program@,
                ),
            ),
        },
        // Fee conservation: the fee and net parts always rebuild the gross.
        r matches Ok(plan) ==> plan.fee + plan.net == inp_amount && plan.fee == (if inp_amount > 0 {
            spec_fee(inp_amount, merchant_approval.fees_bps)
        } else {
            0
        }),
{
    let derived = match derive_address(
        &merchant_approval.dest_account,
        &ctx.token_program,
        &ctx.token_account_mint,
        inp_dest_nonce,
        derive_program,
    ) {
        Some(k) => k,
        None => {
            return Err(ErrorCode::InvalidNonce);
        },
    };
    if !(&derived == &ctx.merchant_token) {
        return Err(ErrorCode::InvalidDerivedAccount);
    }
    match crate::approvals::verify_matching_accounts(&ctx.net_auth, &ctx.merchant_approval.owner) {
        Ok(_) => (),
        Err(e) => {
            return Err(e);
        },
    }
    if !merchant_approval.active {
        return Err(ErrorCode::NotApproved);
    }
    match crate::approvals::verify_matching_accounts(
        &merchant_approval.token_mint,
        &ctx.token_account_mint,
    ) {
        Ok(_) => (),
        Err(e) => {
            return Err(e);
        },
    }
    match crate::approvals::verify_matching_accounts(
        &merchant_approval.fees_account,
        &ctx.fees_account,
    ) {
        Ok(_) => (),
        Err(e) => {
            return Err(e);
        },
    }
    let mut swap_plan: Option<SwapPlan> = None;
    let mut fee: u64 = 0;
    let mut net: u64 = 0;
    if inp_amount > 0 {
        if inp_swap {
            let swap_dst = match derive_address(
                &ctx.root_key,
                &ctx.token_program,
                &ctx.token_account_mint,
                inp_swap_dst_nonce,
                derive_program,
            ) {
                Some(k) => k,
                None => {
                    return Err(ErrorCode::InvalidNonce);
                },
            };
            if !(&swap_dst == &ctx.token_account) {
                return Err(ErrorCode::InvalidDerivedAccount);
            }
            match SwapMode::from_u8(inp_swap_mode) {
                Some(_) => (),
                None => {
                    return Err(ErrorCode::InvalidSwapMode);
                },
            }
            let source = match user_swap_token {
                Some(k) => k,
                None => {
                    return Err(ErrorCode::InvalidAccount);
                },
            };
            swap_plan = Some(
                SwapPlan {
                    source: source,
                    pull_amount: 0,
                    amount: inp_amount,
                    direction: inp_swap_direction,
                    refund_excess: false,
                },
            );
        }
        match charge_split(inp_amount, merchant_approval.fees_bps) {
            Ok((f, n)) => {
                fee = f;
                net = n;
            },
            Err(e) => {
                return Err(e);
            },
        }
    }
    Ok(
        ChargePlan {
            total: inp_amount,
            fee: fee,
            net: net,
            authority: if inp_swap {
                TransferAuthority::Root
            } else {
                TransferAuthority::User
            },
            swap: swap_plan,
            link_funding: false,
            link_swap: false,
            record_revenue: inp_amount > 0 && &ctx.net_auth == authority_program,
        },
    )
}

} // verus!
