use vstd::prelude::*;

use crate::errors::ErrorCode;
use crate::ids::AccountId;

verus! {

/// A delegated allowance: a bounded, revocable capability letting a
/// delegate move up to a remaining amount of the user's tokens.  The
/// record sits at an address derived from the binding tuple — user,
/// delegate, mint, funding account and optional recipient — and the same
/// tuple is checked again on every use.
#[derive(Clone, Copy, Debug)]
pub struct TokenAllowance {
    /// The user whose tokens the allowance spends.
    pub user_key: AccountId,
    /// The delegate entitled to spend it.
    pub delegate_key: AccountId,
    /// Where set, the only destination the delegate may send to.
    pub recipient_key: Option<AccountId>,
    /// The token mint of the funding account.
    pub token_mint: AccountId,
    /// The funding token account.
    pub token_account: AccountId,
    /// No spending before this time (0 = no bound).
    pub not_valid_before: i64,
    /// No spending after this time (0 = no bound).
    pub not_valid_after: i64,
    /// The remaining spendable amount.
    pub amount: u64,
}

/// Creates an allowance record binding the tuple that authorizes every
/// later spend.
pub fn grant(
    user_key: AccountId,
    delegate_key: AccountId,
    recipient_key: Option<AccountId>,
    token_mint: AccountId,
    token_account: AccountId,
    not_valid_before: i64,
    not_valid_after: i64,
    amount: u64,
) -> (r: TokenAllowance)
    ensures
        r == (TokenAllowance {
            user_key,
            delegate_key,
            recipient_key,
            token_mint,
            token_account,
            not_valid_before,
            not_valid_after,
            amount,
        }),
{
    TokenAllowance {
        user_key,
        delegate_key,
        recipient_key,
        token_mint,
        token_account,
        not_valid_before,
        not_valid_after,
        amount,
    }
}

/// Overwrites an allowance's amount, validity window and recipient
/// restriction.  Only the owning user may update; the funding relationship
/// itself — user, delegate, mint, account — is fixed at grant time and
/// never changes.
pub fn update(
    allowance: &TokenAllowance,
    user_key: &AccountId,
    recipient_key: Option<AccountId>,
    not_valid_before: i64,
    not_valid_after: i64,
    amount: u64,
) -> (r: Result<TokenAllowance, ErrorCode>)
    ensures
        allowance.user_key@ != user_key@ ==> r == Err::<TokenAllowance, ErrorCode>(
            ErrorCode::AccessDenied,
        ),
        allowance.user_key@ == user_key@ ==> r == Ok::<TokenAllowance, ErrorCode>(
            TokenAllowance {
                recipient_key,
                not_valid_before,
                not_valid_after,
                amount,
                ..*allowance
            },
        ),
{
    if !(&allowance.user_key == user_key) {
        return Err(ErrorCode::AccessDenied);
    }
    Ok(
        TokenAllowance {
            recipient_key,
            not_valid_before,
            not_valid_after,
            amount,
            ..*allowance
        },
    )
}

/// The verdict on a delegated spend, in the order the checks run: the
/// signer must be the bound delegate, the supplied user, mint and funding
/// account must be the bound ones, the current time must fall inside the
/// validity window, the destination must match the recipient restriction
/// where one is set, and the amount must not exceed the remaining balance.
pub open spec fn spec_consume_check(
    allowance: TokenAllowance,
    delegate_key: Seq<u8>,
    user_key: Seq<u8>,
    token_mint: Seq<u8>,
    token_account: Seq<u8>,
    destination: Seq<u8>,
    now: i64,
    amount: u64,
) -> Option<ErrorCode> {
    if allowance.delegate_key@ != delegate_key {
        Some(ErrorCode::AccessDenied)
    } else if allowance.user_key@ != user_key {
        Some(ErrorCode::InvalidAccount)
    } else if allowance.token_mint@ != token_mint {
        Some(ErrorCode::InvalidAccount)
    } else if allowance.token_account@ != token_account {
        Some(ErrorCode::InvalidAccount)
    } else if allowance.not_valid_before > 0 && now < allowance.not_valid_before {
        Some(ErrorCode::NotValidYet)
    } else if allowance.not_valid_after > 0 && now > allowance.not_valid_after {
        Some(ErrorCode::Expired)
    } else if allowance.recipient_key matches Some(rcp) && rcp@ != destination {
        Some(ErrorCode::InvalidAccount)
    } else if amount > allowance.amount {
        Some(ErrorCode::AllowanceExceeded)
    } else {
        None
    }
}

/// Spends part of an allowance under the delegate's signature.  Either it
/// fails and the record is untouched, or it succeeds and exactly `amount`
/// leaves the remaining balance — the balance can never go negative.  On
/// success the host transfers `amount` from the funding account to the
/// destination under the contract's delegated signing authority.
pub fn consume(
    allowance: &TokenAllowance,
    delegate_key: &AccountId,
    user_key: &AccountId,
    token_mint: &AccountId,
    token_account: &AccountId,
    destination: &AccountId,
    now: i64,
    amount: u64,
) -> (r: Result<TokenAllowance, ErrorCode>)
    ensures
        match spec_consume_check(
            *allowance,
            delegate_key@,
            user_key@,
            token_mint@,
            token_account@,
            destination@,
            now,
            amount,
        ) {
            Some(e) => r == Err::<TokenAllowance, ErrorCode>(e),
            None => r == Ok::<TokenAllowance, ErrorCode>(
                TokenAllowance { amount: (allowance.amount - amount) as u64, ..*allowance },
            ),
        },
        // Allowance conservation: success leaves exactly the remainder,
        // and a spend beyond the balance cannot succeed.
        r matches Ok(a) ==> a.amount == allowance.amount - amount && amount <= allowance.amount,
        amount > allowance.amount ==> r is Err,
{
    if !(&allowance.delegate_key == delegate_key) {
        return Err(ErrorCode::AccessDenied);
    }
    if !(&allowance.user_key == user_key) {
        return Err(ErrorCode::InvalidAccount);
    }
    if !(&allowance.token_mint == token_mint) {
        return Err(ErrorCode::InvalidAccount);
    }
    if !(&allowance.token_account == token_account) {
        return Err(ErrorCode::InvalidAccount);
    }
    if allowance.not_valid_before > 0 && now < allowance.not_valid_before {
        return Err(ErrorCode::NotValidYet);
    }
    if allowance.not_valid_after > 0 && now > allowance.not_valid_after {
        return Err(ErrorCode::Expired);
    }
    match allowance.recipient_key {
        Some(rcp) => {
            if !(&rcp == destination) {
                return Err(ErrorCode::InvalidAccount);
            }
        },
        None => (),
    }
    let remaining = match allowance.amount.checked_sub(amount) {
        Some(v) => v,
        None => {
            return Err(ErrorCode::AllowanceExceeded);
        },
    };
    Ok(TokenAllowance { amount: remaining, ..*allowance })
}

/// Draws a charge's two delegated transfers on the allowance that backs
/// them: first the fee to the fees account, then the net to the merchant,
/// one spend each, as a rebill paid through the delegation performs them.
/// Either both go through and exactly `fee + net` leaves the remaining
/// balance, or the whole charge fails and the allowance is untouched — the
/// balance can never go negative.
pub fn consume_charge(
    allowance: &TokenAllowance,
    delegate_key: &AccountId,
    user_key: &AccountId,
    token_mint: &AccountId,
    token_account: &AccountId,
    fee_destination: &AccountId,
    net_destination: &AccountId,
    now: i64,
    fee: u64,
    net: u64,
) -> (r: Result<TokenAllowance, ErrorCode>)
    ensures
        match spec_consume_check(
            *allowance,
            delegate_key@,
            user_key@,
            token_mint@,
            token_account@,
            fee_destination@,
            now,
            fee,
        ) {
            Some(e) => r == Err::<TokenAllowance, ErrorCode>(e),
            None => match spec_consume_check(
                TokenAllowance { amount: (allowance.amount - fee) as u64, ..*allowance },
                delegate_key@,
                user_key@,
                token_mint@,
                token_account@,
                net_destination@,
                now,
                net,
            ) {
                Some(e) => r == Err::<TokenAllowance, ErrorCode>(e),
                None => r == Ok::<TokenAllowance, ErrorCode>(
                    TokenAllowance {
                        amount: (allowance.amount - fee - net) as u64,
                        ..*allowance
                    },
                ),
            },
        },
        // Allowance conservation over the whole charge: success leaves
        // exactly the remainder, and a charge beyond the balance cannot
        // succeed.
        r matches Ok(a) ==> fee + net <= allowance.amount && a.amount == allowance.amount - fee
            - net,
        fee + net > allowance.amount ==> r is Err,
{
    let after_fee = match consume(
        allowance,
        delegate_key,
        user_key,
        token_mint,
        token_account,
        fee_destination,
        now,
        fee,
    ) {
        Ok(a) => a,
        Err(e) => {
            return Err(e);
        },
    };
    consume(
        &after_fee,
        delegate_key,
        user_key,
        token_mint,
        token_account,
        net_destination,
        now,
        net,
    )
}

} // verus!
