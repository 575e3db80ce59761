//! A verified model of an on-chain recurring-billing agent.
//!
//! The library holds the rules of the protocol — the period calendar, the
//! approval gate, the fee engine, the subscription state machine and the
//! delegated-allowance protocol — as pure functions over plain values, each
//! with a contract.  The host runtime loads accounts, hands their contents
//! in, executes the transfer plan that comes back, and persists the new
//! record; nothing here performs I/O itself.

pub mod allowance;
pub mod errors;
pub mod events;
pub mod fees;
pub mod manage;
pub mod metadata;
pub mod payment;
pub mod plan;
pub mod process;
pub mod subscribe;
pub mod subscription;
pub mod update;
pub mod approvals;
pub mod calendar;
pub mod ids;

pub use calendar::SubscriptionPeriod;
pub use errors::ErrorCode;
pub use ids::AccountId;
