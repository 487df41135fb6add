//! Error kinds returned by the operations.
//!
//! Every error aborts the whole operation with no observable state change:
//! an operation that returns `Err` leaves every record exactly as it was.

use vstd::prelude::*;

verus! {

/// Errors of the global-configuration operations.
#[derive(Clone, Copy, Debug, PartialEq, Eq, Structural)]
pub enum MainStateError {
    /// The global configuration already exists and may not be re-created.
    ConfigAlreadyInitialized,
}

/// Errors of the subscription-account operations.
#[derive(Clone, Copy, Debug, PartialEq, Eq, Structural)]
pub enum SubscriptionError {
    /// `create_subscription` was given a zero initial deposit.
    InvalidInitialDeposit,
    /// The caller does not hold the role the operation demands.
    InvalidAuthority,
    /// The caller, or a supplied owner account, is not the configured owner.
    InvalidOwner,
    /// The supplied global configuration is not the one the account references.
    InvalidConfigReference,
    /// The consumed amount to record exceeds the account's credit balance.
    InsufficientCredits,
    /// The requested withdrawal exceeds what the account may pay out.
    InsufficientWithdrawalBalance,
    /// A balance computation would underflow or overflow.
    ArithmeticError,
    /// A payout was requested but no payout account was supplied.
    MissingRequiredAccount,
}

} // verus!
