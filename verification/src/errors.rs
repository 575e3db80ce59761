use vstd::prelude::*;

verus! {

/// Discriminated error codes: every operation aborts as a whole with one of
/// these, and no state change survives a failed operation.
#[derive(Clone, Copy, Debug, PartialEq, Eq, Structural)]
pub enum ErrorCode {
    /// The subscription has been cancelled; rebilling is over for good.
    InactiveSubscription,
    /// A supplied program id does not match the expected one.
    InvalidProgramId,
    /// The period discriminant does not name a known recurrence period.
    InvalidSubscriptionPeriod,
    /// A supplied account does not equal the address derived for it.
    InvalidDerivedAccount,
    /// A schedule field is negative, inconsistent, or out of its window.
    InvalidTimeframe,
    /// The swap mode discriminant does not name a known swap facility.
    InvalidSwapMode,
    /// Two accounts that must be the same differ.
    InvalidAccount,
    /// Address derivation failed for the supplied bump seed.
    InvalidNonce,
    /// A referenced approval record is inactive or revoked.
    NotApproved,
    /// The charge would push cumulative spending over the total budget.
    TotalBudgetExceeded,
    /// The charge exceeds the per-period budget.
    PeriodBudgetExceeded,
    /// The signer is not entitled to the requested operation.
    AccessDenied,
    /// The current time is before the record's validity window opens.
    NotValidYet,
    /// The current time is past the record's validity window or grace period.
    Expired,
    /// The rebill counter has reached its configured maximum.
    MaxRebills,
    /// An arithmetic step would overflow or underflow.
    Overflow,
    /// The delegated allowance has too little remaining balance.
    AllowanceExceeded,
}

} // verus!
