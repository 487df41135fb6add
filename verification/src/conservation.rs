//! Conservation of value over whole histories.
//!
//! The operations are each proved to keep an account solvent; this module
//! closes the loop and states the guarantee for any run of them. An
//! account's life after creation is a sequence of events — time passing,
//! deposits, usage verifications, a cancellation, withdrawals — and over
//! any such sequence the value paid out, together with the value the
//! account still holds above its reserve, never exceeds the value that
//! was deposited into it.

use vstd::prelude::*;

use crate::state::Subscription;
use crate::state::SubscriptionType;
use crate::state::solvent;
use crate::subscription::baseline_reset;
use crate::subscription::funded;
use crate::subscription::info_updated;
use crate::subscription::lemma_set_info_preserves_solvency;
use crate::subscription::lemma_unsubscribe_solvency;
use crate::subscription::max_withdrawable;
use crate::subscription::unsubscribe_refund;
use crate::subscription::unsubscribe_retained;

verus! {

/// An escrow account as the ledger sees it: the record, the account's
/// ledger balance, and the time of the latest event.
pub struct AccountState {
    pub record: Subscription,
    pub balance: u64,
    pub now_ms: i64,
}

/// One event in an account's life after creation. Authorization is left
/// out on purpose: who may trigger an event has no bearing on where the
/// value goes, and the conservation guarantee holds whoever calls.
pub enum AccountEvent {
    /// The clock advances; nothing else happens.
    TimePasses { to_ms: i64 },
    /// A deposit lands on the balance and is credited in full.
    Funded { amount: u64 },
    /// The authority verifies usage, as `set_subscription_info` does.
    Verified {
        subscription_date: Option<i64>,
        used_lamports: Option<u64>,
        subscription_type: Option<SubscriptionType>,
    },
    /// The subscription is cancelled, as `unsubscribe` does: paying out
    /// refund and sweep, or retaining a recomputed credit.
    Cancelled { withdraw_content: bool, fee: u8 },
    /// The authority withdraws earned funds, as `withdraw` does.
    Withdrawn { amount: u64 },
}

/// When an event can happen: the clock never runs backwards, and the
/// event's operation succeeds. A `Verified` event that opens a new window
/// without giving a consumed amount is allowed only while the previous
/// window is still open; carrying a consumed amount over into a new
/// window after its own window expired would revive a liability the
/// balance no longer backs.
pub open spec fn event_allowed(s: AccountState, reserve: u64, e: AccountEvent) -> bool {
    match e {
        AccountEvent::TimePasses { to_ms } => s.now_ms <= to_ms,
        AccountEvent::Funded { amount } => {
            &&& s.record.subscription_status_writable.after_verify_credit_lamports + amount
                <= u64::MAX
            &&& s.balance + amount <= u64::MAX
        },
        AccountEvent::Verified { subscription_date, used_lamports, subscription_type } => {
            &&& (used_lamports matches Some(u) ==> u
                <= s.record.subscription_status_writable.after_verify_credit_lamports)
            &&& (subscription_date matches Some(d) ==> d > s.now_ms)
            &&& (subscription_date is Some && used_lamports is None
                ==> s.record.authority_writable.valid_till > s.now_ms)
        },
        AccountEvent::Cancelled { withdraw_content, fee } => {
            &&& fee <= 100
            &&& (withdraw_content ==> unsubscribe_refund(s.record, fee, s.now_ms) + reserve
                <= s.balance)
            &&& (!withdraw_content ==> unsubscribe_retained(s.record, fee, s.now_ms)
                <= u64::MAX)
        },
        AccountEvent::Withdrawn { amount } => amount <= max_withdrawable(
            s.record,
            s.balance as int,
            reserve as int,
            s.now_ms as int,
        ),
    }
}

/// The account after an event, built from the operations' own result
/// functions. A cancellation that withdraws the content leaves exactly
/// the reserve on the balance; one that keeps the account funded leaves
/// the balance untouched.
pub open spec fn event_step(s: AccountState, reserve: u64, e: AccountEvent) -> AccountState {
    match e {
        AccountEvent::TimePasses { to_ms } => AccountState { now_ms: to_ms, ..s },
        AccountEvent::Funded { amount } => AccountState {
            record: funded(s.record, amount),
            balance: (s.balance + amount) as u64,
            now_ms: s.now_ms,
        },
        AccountEvent::Verified { subscription_date, used_lamports, subscription_type } => {
            AccountState {
                record: info_updated(
                    s.record,
                    s.now_ms,
                    subscription_date,
                    used_lamports,
                    subscription_type,
                ),
                ..s
            }
        },
        AccountEvent::Cancelled { withdraw_content, fee } => {
            if withdraw_content {
                AccountState {
                    record: baseline_reset(s.record, s.now_ms, 0),
                    balance: reserve,
                    now_ms: s.now_ms,
                }
            } else {
                AccountState {
                    record: baseline_reset(
                        s.record,
                        s.now_ms,
                        unsubscribe_retained(s.record, fee, s.now_ms) as u64,
                    ),
                    ..s
                }
            }
        },
        AccountEvent::Withdrawn { amount } => AccountState {
            balance: (s.balance - amount) as u64,
            ..s
        },
    }
}

/// What an event pays out of the account: the refund and the sweep
/// together for a cancellation that withdraws the content, the moved
/// amount for a withdrawal, nothing otherwise.
pub open spec fn paid_out(s: AccountState, reserve: u64, e: AccountEvent) -> int {
    match e {
        AccountEvent::Cancelled { withdraw_content, fee } => if withdraw_content {
            s.balance - reserve
        } else {
            0
        },
        AccountEvent::Withdrawn { amount } => amount as int,
        _ => 0,
    }
}

/// What an event deposits into the account.
pub open spec fn deposited(e: AccountEvent) -> int {
    match e {
        AccountEvent::Funded { amount } => amount as int,
        _ => 0,
    }
}

/// A solvent account stays solvent across any allowed event, the clock
/// never runs backwards, and the balance changes by exactly the deposit
/// minus the payout — value neither appears nor vanishes.
pub proof fn lemma_event_preserves_solvency(s: AccountState, reserve: u64, e: AccountEvent)
    requires
        0 <= s.now_ms,
        solvent(s.record, s.balance as int, reserve as int, s.now_ms as int),
        event_allowed(s, reserve, e),
    ensures
        ({
            let t = event_step(s, reserve, e);
            &&& solvent(t.record, t.balance as int, reserve as int, t.now_ms as int)
            &&& 0 <= t.now_ms
            &&& s.now_ms <= t.now_ms
            &&& t.balance == s.balance + deposited(e) - paid_out(s, reserve, e)
            &&& 0 <= paid_out(s, reserve, e)
        }),
{
    match e {
        AccountEvent::TimePasses { to_ms } => {
            crate::state::lemma_solvent_as_time_passes(
                s.record,
                s.balance as int,
                reserve as int,
                s.now_ms as int,
                to_ms as int,
            );
        },
        AccountEvent::Funded { amount } => {},
        AccountEvent::Verified { subscription_date, used_lamports, subscription_type } => {
            lemma_set_info_preserves_solvency(
                s.record,
                s.now_ms,
                subscription_date,
                used_lamports,
                subscription_type,
                s.balance as int,
                reserve as int,
            );
        },
        AccountEvent::Cancelled { withdraw_content, fee } => {
            lemma_unsubscribe_solvency(s.record, fee, s.now_ms, s.balance, reserve);
        },
        AccountEvent::Withdrawn { amount } => {},
    }
}

/// The final account of a history, when every event in it is allowed in
/// its turn; nothing otherwise.
pub open spec fn run(s: AccountState, reserve: u64, events: Seq<AccountEvent>) -> Option<
    AccountState,
>
    decreases events.len(),
{
    if events.len() == 0 {
        Some(s)
    } else if event_allowed(s, reserve, events.first()) {
        run(event_step(s, reserve, events.first()), reserve, events.drop_first())
    } else {
        None
    }
}

/// Everything a history pays out of the account.
pub open spec fn total_paid_out(s: AccountState, reserve: u64, events: Seq<AccountEvent>) -> int
    decreases events.len(),
{
    if events.len() == 0 {
        0
    } else if event_allowed(s, reserve, events.first()) {
        paid_out(s, reserve, events.first()) + total_paid_out(
            event_step(s, reserve, events.first()),
            reserve,
            events.drop_first(),
        )
    } else {
        0
    }
}

/// Everything a history deposits into the account.
pub open spec fn total_deposited(s: AccountState, reserve: u64, events: Seq<AccountEvent>) -> int
    decreases events.len(),
{
    if events.len() == 0 {
        0
    } else if event_allowed(s, reserve, events.first()) {
        deposited(events.first()) + total_deposited(
            event_step(s, reserve, events.first()),
            reserve,
            events.drop_first(),
        )
    } else {
        0
    }
}

/// Conservation of value: over any history of allowed events, an account
/// that starts solvent ends solvent, its balance moves by exactly the
/// deposits minus the payouts, and so the total paid out, together with
/// what the account still holds above its reserve, never exceeds what it
/// started with above the reserve plus everything deposited since.
pub proof fn lemma_value_is_conserved(s: AccountState, reserve: u64, events: Seq<AccountEvent>)
    requires
        0 <= s.now_ms,
        solvent(s.record, s.balance as int, reserve as int, s.now_ms as int),
        run(s, reserve, events) is Some,
    ensures
        ({
            let t = run(s, reserve, events)->Some_0;
            &&& solvent(t.record, t.balance as int, reserve as int, t.now_ms as int)
            &&& t.balance == s.balance + total_deposited(s, reserve, events) - total_paid_out(
                s,
                reserve,
                events,
            )
            &&& total_paid_out(s, reserve, events) + (t.balance - reserve) == (s.balance
                - reserve) + total_deposited(s, reserve, events)
            &&& total_paid_out(s, reserve, events) <= (s.balance - reserve) + total_deposited(
                s,
                reserve,
                events,
            )
            &&& 0 <= total_paid_out(s, reserve, events)
        }),
    decreases events.len(),
{
    if events.len() > 0 {
        lemma_event_preserves_solvency(s, reserve, events.first());
        lemma_value_is_conserved(
            event_step(s, reserve, events.first()),
            reserve,
            events.drop_first(),
        );
    }
}

} // verus!
