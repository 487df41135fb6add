//! The persisted records: the global configuration and the per-user
//! subscription account, together with the solvency predicate that ties a
//! record to the ledger balance of its account.

use vstd::prelude::*;

verus! {

/// A 32-byte account address, held as four 64-bit words. Addresses are
/// compared only for equality; the host derives and owns them.
#[derive(Clone, Copy, Debug, PartialEq, Eq, Hash, Structural)]
pub struct Pubkey {
    pub w0: u64,
    pub w1: u64,
    pub w2: u64,
    pub w3: u64,
}

impl Pubkey {
    /// A key from four words, for callers and tests.
    pub fn new(w0: u64, w1: u64, w2: u64, w3: u64) -> (k: Pubkey)
        ensures
            k == (Pubkey { w0, w1, w2, w3 }),
    {
        Pubkey { w0, w1, w2, w3 }
    }
}

/// The service level a subscription account is on, or wants to be on.
#[derive(Clone, Copy, Debug, PartialEq, Eq, Structural)]
pub enum SubscriptionType {
    FREE,
    BASIC,
    PREMIUM,
}

/// The global configuration: one per deployment. The owner may reassign
/// the owner and the authority; the authority verifies usage and withdraws
/// earned funds; the fee percentage is retained from prorated refunds.
#[derive(Clone, Copy, Debug, PartialEq, Eq, Structural)]
pub struct MainState {
    pub owner: Pubkey,
    pub authority: Pubkey,
    pub unsubscribe_fee: u8,
}

impl MainState {
    /// Well-formedness: the fee is a percentage.
    pub open spec fn wf(self) -> bool {
        self.unsubscribe_fee <= 100
    }
}

/// The fields of a subscription account fixed at creation.
#[derive(Clone, Copy, Debug, PartialEq, Eq, Structural)]
pub struct MutableInitialized {
    /// The global configuration this account belongs to.
    pub main_state_pda: Pubkey,
    /// The user who funded the account.
    pub user: Pubkey,
}

/// The user-facing, per-verification statistics of a subscription account.
#[derive(Clone, Copy, Debug, PartialEq, Eq, Structural)]
pub struct CurrentSubscriptionStatistics {
    /// Unconsumed deposited value still available to the user.
    pub after_verify_credit_lamports: u64,
    /// Milliseconds since the epoch at which the authority last verified
    /// usage (or the account was created, or reset).
    pub after_verify_utc_timestamp: i64,
    /// The tier the user wants next.
    pub desired_subscription_type: SubscriptionType,
}

/// The fields only the authority writes.
#[derive(Clone, Copy, Debug, PartialEq, Eq, Structural)]
pub struct AuthorityWritable {
    /// The tier actually granted.
    pub current_account_type: SubscriptionType,
    /// End of the granted validity window, milliseconds since the epoch;
    /// zero when none is granted.
    pub valid_till: i64,
    /// Value the authority has attributed as consumed for the current window.
    pub used_lamports: u64,
}

/// A subscription-escrow account record: one per (user, config) pair.
/// The record never holds value itself; the value sits on the account's
/// ledger balance, which the operations take and return as plain numbers.
#[derive(Clone, Copy, Debug, PartialEq, Eq, Structural)]
pub struct Subscription {
    pub imutable_initialized: MutableInitialized,
    pub subscription_status_writable: CurrentSubscriptionStatistics,
    pub authority_writable: AuthorityWritable,
}

/// The part of the consumed amount still owed to the user's window: the
/// full consumed amount while the validity window is open, nothing once it
/// has expired (the authority may then withdraw it as earned).
pub open spec fn used_if_active(sub: Subscription, now_ms: int) -> int {
    if sub.authority_writable.valid_till > now_ms {
        sub.authority_writable.used_lamports as int
    } else {
        0
    }
}

/// Solvency of an escrow account at time `now_ms`: its ledger balance
/// covers the minimum reserve, the user's credit, and the consumed amount
/// of a still-open window. Every operation preserves this, so liabilities
/// never exceed assets and nothing can be paid out that was not deposited.
pub open spec fn solvent(sub: Subscription, balance: int, reserve: int, now_ms: int) -> bool {
    balance >= reserve
        + sub.subscription_status_writable.after_verify_credit_lamports
        + used_if_active(sub, now_ms)
}

/// Solvency is kept as time passes: the only time-dependent liability is
/// the consumed amount of an open window, and windows only expire.
pub proof fn lemma_solvent_as_time_passes(
    sub: Subscription,
    balance: int,
    reserve: int,
    t1: int,
    t2: int,
)
    requires
        solvent(sub, balance, reserve, t1),
        t1 <= t2,
    ensures
        solvent(sub, balance, reserve, t2),
{
}

} // verus!
