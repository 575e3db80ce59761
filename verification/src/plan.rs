use vstd::prelude::*;

use crate::errors::ErrorCode;
use crate::ids::AccountId;

verus! {

/// Swap facilities the agent can route a payment through.
#[derive(Clone, Copy, Debug, PartialEq, Eq, Structural)]
pub enum SwapMode {
    AtxSwapContractV1,
}

impl SwapMode {
    /// The swap mode named by a wire discriminant.
    pub open spec fn spec_from_u8(m: u8) -> Option<SwapMode> {
        if m == 0 {
            Some(SwapMode::AtxSwapContractV1)
        } else {
            None
        }
    }

    pub fn from_u8(m: u8) -> (r: Option<SwapMode>)
        ensures
            r == SwapMode::spec_from_u8(m),
    {
        if m == 0 {
            Some(SwapMode::AtxSwapContractV1)
        } else {
            None
        }
    }
}

/// Who signs the fee and net transfers of a charge.
#[derive(Clone, Copy, Debug, PartialEq, Eq, Structural)]
pub enum TransferAuthority {
    /// The user signed the instruction and their own transfers.
    User,
    /// The program's root authority signs (funds sit in an agent account).
    Root,
    /// The program spends through its delegated allowance on the user's
    /// funding account.
    Delegate,
}

/// The swap leg of a charge, to run before the fee and net transfers.
#[derive(Clone, Copy, Debug)]
pub struct SwapPlan {
    /// The user's swap-source token account.
    pub source: AccountId,
    /// Tokens to pull from the source into the agent's input account under
    /// delegated authority before swapping; 0 where the user signs the swap
    /// directly.
    pub pull_amount: u64,
    /// The amount handed to the swap facility.
    pub amount: u64,
    /// Swap direction flag handed to the facility.
    pub direction: bool,
    /// Whether tokens left in the agent's input account after the swap are
    /// returned to the source account.
    pub refund_excess: bool,
}

/// Everything the host must do to carry out a validated charge, in order:
/// the optional swap leg, the fee transfer to the fees account, the net
/// transfer to the merchant token account, and the revenue record with the
/// network authority.
#[derive(Clone, Copy, Debug)]
pub struct ChargePlan {
    /// The gross charge; 0 means no money moves.
    pub total: u64,
    /// The part of the charge sent to the fees account.
    pub fee: u64,
    /// The part of the charge sent to the merchant.
    pub net: u64,
    /// Who signs the fee and net transfers.
    pub authority: TransferAuthority,
    /// The swap leg, where the subscription pays through a swap.
    pub swap: Option<SwapPlan>,
    /// Whether to install a delegated spending approval on the funding
    /// token account.
    pub link_funding: bool,
    /// Whether to install a delegated spending approval on the swap-source
    /// token account.
    pub link_swap: bool,
    /// Whether to record the transaction with the network authority.
    pub record_revenue: bool,
}

impl ChargePlan {
    /// A plan that moves no money and touches nothing.
    pub open spec fn spec_empty() -> ChargePlan {
        ChargePlan {
            total: 0,
            fee: 0,
            net: 0,
            authority: TransferAuthority::User,
            swap: None,
            link_funding: false,
            link_swap: false,
            record_revenue: false,
        }
    }
}

/// What the host read from the swap accounts before asking for a charge:
/// the user's swap-source token account and its balance.
#[derive(Clone, Copy, Debug)]
pub struct SwapInputs {
    pub source: AccountId,
    pub source_balance: u64,
}

/// How many tokens a rebill pulls from the swap source: the whole balance
/// when no estimate is given or the balance is below it, else the estimate.
pub open spec fn spec_swap_pull(estimate: u64, source_balance: u64) -> u64 {
    if estimate == 0 || source_balance < estimate {
        source_balance
    } else {
        estimate
    }
}

/// The tokens to hand back to the swap source after the swap: the agent's
/// input-account balance grew from `before` to `after`; the growth is
/// returned.  A shrunk balance means the swap facility misbehaved and the
/// whole operation aborts with `Overflow`.
pub fn swap_refund_amount(before: u64, after: u64) -> (r: Result<u64, ErrorCode>)
    ensures
        after >= before ==> r == Ok::<u64, ErrorCode>((after - before) as u64),
        after < before ==> r == Err::<u64, ErrorCode>(ErrorCode::Overflow),
{
    match after.checked_sub(before) {
        Some(v) => Ok(v),
        None => Err(ErrorCode::Overflow),
    }
}

} // verus!
