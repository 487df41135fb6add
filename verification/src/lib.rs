//! A subscription-escrow accounting library.
//!
//! A user deposits value into a per-user escrow account; an administrative
//! authority periodically verifies usage, sets validity windows and consumed
//! amounts; on cancellation the remaining value is prorated and refunded
//! minus a configurable fee. This crate holds the accounting and
//! authorization core: the rules governing how balances, validity windows
//! and tiers change across the operations, and the proration and fee
//! arithmetic applied at cancellation and withdrawal time.
//!
//! The surrounding host supplies what the core deliberately leaves out:
//! the ledger that actually moves value (the core computes the amounts and
//! reports them in its results), the derivation of a stable account address
//! per (user, config) pair, signature checks that prove a caller controls a
//! key, and the wall clock (every operation takes the current time as an
//! argument). Each operation is a single atomic step: it either fails with
//! a specific error and no state change, or succeeds with the state change
//! its contract describes.

mod errors;
mod state;
mod proration;
mod main_state;
mod subscription;
mod conservation;

pub use errors::MainStateError;
pub use errors::SubscriptionError;
pub use state::Pubkey;
pub use state::SubscriptionType;
pub use state::MainState;
pub use state::MutableInitialized;
pub use state::CurrentSubscriptionStatistics;
pub use state::AuthorityWritable;
pub use state::Subscription;
pub use state::used_if_active;
pub use state::solvent;
pub use state::lemma_solvent_as_time_passes;
pub use proration::remaining_in_window;
pub use proration::prorated_share;
pub use proration::prorated_amount;
pub use main_state::intialize_main_state;
pub use main_state::update_authority;
pub use main_state::update_owner;
pub use main_state::update_fees;
pub use subscription::fresh_subscription;
pub use subscription::with_desired_type;
pub use subscription::funded;
pub use subscription::create_subscription;
pub use subscription::lemma_fresh_subscription_solvent;
pub use subscription::change_desired_subscription_type;
pub use subscription::fund_subscription;
pub use subscription::lemma_fund_preserves_solvency;
pub use subscription::info_updated;
pub use subscription::set_subscription_info;
pub use subscription::lemma_set_info_preserves_solvency;
pub use subscription::max_withdrawable;
pub use subscription::withdraw_result;
pub use subscription::withdraw;
pub use subscription::lemma_solvent_iff_withdraw_headroom;
pub use subscription::lemma_withdraw_full_matches_explicit_maximum;
pub use subscription::lemma_withdraw_preserves_solvency;
pub use subscription::UnsubscribeOutcome;
pub use subscription::unsubscribe_refund;
pub use subscription::unsubscribe_retained;
pub use subscription::baseline_reset;
pub use subscription::unsubscribe_result;
pub use subscription::unsubscribe;
pub use subscription::lemma_unsubscribe_solvency;
pub use conservation::AccountState;
pub use conservation::AccountEvent;
pub use conservation::event_allowed;
pub use conservation::event_step;
pub use conservation::paid_out;
pub use conservation::deposited;
pub use conservation::lemma_event_preserves_solvency;
pub use conservation::run;
pub use conservation::total_paid_out;
pub use conservation::total_deposited;
pub use conservation::lemma_value_is_conserved;
