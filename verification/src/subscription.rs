//! Operations on a subscription-escrow account.
//!
//! Every operation is a single atomic step over plain values: it takes the
//! record, the configuration, the caller's key, the current time, and —
//! where value moves — the account's ledger balance and minimum reserve.
//! It either fails with a specific error and changes nothing, or succeeds
//! with exactly the state change its contract gives. The amounts to move
//! on the ledger are returned to the caller, who performs the transfers.

use vstd::prelude::*;

use crate::errors::SubscriptionError;
use crate::proration::lemma_prorated_share_bounds;
use crate::proration::prorated_amount;
use crate::proration::prorated_share;
use crate::state::AuthorityWritable;
use crate::state::CurrentSubscriptionStatistics;
use crate::state::MainState;
use crate::state::MutableInitialized;
use crate::state::Pubkey;
use crate::state::Subscription;
use crate::state::SubscriptionType;
use crate::state::solvent;
use crate::state::used_if_active;

verus! {

/// The record a new subscription starts from: the deposit is credited in
/// full, no tier is granted yet, and no validity window is open.
pub open spec fn fresh_subscription(
    user: Pubkey,
    main_state_key: Pubkey,
    now_ms: i64,
    initial_deposit: u64,
    account_type: SubscriptionType,
) -> Subscription {
    Subscription {
        imutable_initialized: MutableInitialized { main_state_pda: main_state_key, user },
        subscription_status_writable: CurrentSubscriptionStatistics {
            after_verify_credit_lamports: initial_deposit,
            after_verify_utc_timestamp: now_ms,
            desired_subscription_type: account_type,
        },
        authority_writable: AuthorityWritable {
            current_account_type: SubscriptionType::FREE,
            valid_till: 0,
            used_lamports: 0,
        },
    }
}

/// The record with only the desired tier changed.
pub open spec fn with_desired_type(sub: Subscription, t: SubscriptionType) -> Subscription {
    Subscription {
        subscription_status_writable: CurrentSubscriptionStatistics {
            desired_subscription_type: t,
            ..sub.subscription_status_writable
        },
        ..sub
    }
}

/// The record with only the credit balance raised by a deposit.
pub open spec fn funded(sub: Subscription, new_deposit_lamports: u64) -> Subscription {
    Subscription {
        subscription_status_writable: CurrentSubscriptionStatistics {
            after_verify_credit_lamports: (sub.subscription_status_writable.after_verify_credit_lamports
                + new_deposit_lamports) as u64,
            ..sub.subscription_status_writable
        },
        ..sub
    }
}

/// Create a new subscription account for `user` under the configuration at
/// `main_state_key`. The caller moves `initial_deposit` from the user to
/// the new account on the ledger; the record credits it in full. Creation
/// of an account that already exists is refused by the host's address
/// allocation and never reaches this operation.
pub fn create_subscription(
    user: Pubkey,
    main_state_key: Pubkey,
    now_ms: i64,
    initial_deposit: u64,
    account_type: SubscriptionType,
) -> (r: Result<Subscription, SubscriptionError>)
    ensures
        match r {
            Ok(sub) => {
                &&& initial_deposit > 0
                &&& sub == fresh_subscription(
                    user,
                    main_state_key,
                    now_ms,
                    initial_deposit,
                    account_type,
                )
            },
            Err(e) => {
                &&& e == SubscriptionError::InvalidInitialDeposit
                &&& initial_deposit == 0
            },
        },
{
    if initial_deposit == 0 {
        return Err(SubscriptionError::InvalidInitialDeposit);
    }
    Ok(
        Subscription {
            imutable_initialized: MutableInitialized { main_state_pda: main_state_key, user },
            subscription_status_writable: CurrentSubscriptionStatistics {
                after_verify_credit_lamports: initial_deposit,
                after_verify_utc_timestamp: now_ms,
                desired_subscription_type: account_type,
            },
            authority_writable: AuthorityWritable {
                current_account_type: SubscriptionType::FREE,
                valid_till: 0,
                used_lamports: 0,
            },
        },
    )
}

/// A freshly created account is solvent on any balance that covers the
/// reserve and the deposit; the host funds it with exactly that.
pub proof fn lemma_fresh_subscription_solvent(
    user: Pubkey,
    main_state_key: Pubkey,
    now_ms: i64,
    initial_deposit: u64,
    account_type: SubscriptionType,
    balance: int,
    reserve: int,
)
    requires
        balance >= reserve + initial_deposit,
    ensures
        solvent(
            fresh_subscription(user, main_state_key, now_ms, initial_deposit, account_type),
            balance,
            reserve,
            now_ms as int,
        ),
{
}

/// Change the tier the user wants next. Only the account's own user may do
/// this, and the supplied configuration must be the one the account
/// references. No value moves.
pub fn change_desired_subscription_type(
    sub: &mut Subscription,
    main_state_key: Pubkey,
    user: Pubkey,
    new_subscription_type: SubscriptionType,
) -> (r: Result<(), SubscriptionError>)
    ensures
        match r {
            Ok(()) => {
                &&& old(sub).imutable_initialized.main_state_pda == main_state_key
                &&& old(sub).imutable_initialized.user == user
                &&& *final(sub) == with_desired_type(*old(sub), new_subscription_type)
            },
            Err(e) => {
                &&& *final(sub) == *old(sub)
                &&& {
                    ||| {
                        &&& e == SubscriptionError::InvalidConfigReference
                        &&& old(sub).imutable_initialized.main_state_pda != main_state_key
                    }
                    ||| {
                        &&& e == SubscriptionError::InvalidAuthority
                        &&& old(sub).imutable_initialized.main_state_pda == main_state_key
                        &&& old(sub).imutable_initialized.user != user
                    }
                }
            },
        },
{
    if sub.imutable_initialized.main_state_pda != main_state_key {
        return Err(SubscriptionError::InvalidConfigReference);
    }
    if sub.imutable_initialized.user != user {
        return Err(SubscriptionError::InvalidAuthority);
    }
    sub.subscription_status_writable.desired_subscription_type = new_subscription_type;
    Ok(())
}

/// Credit a further deposit to the account. Anyone may top up any account;
/// the caller moves the deposit to the account on the ledger. Fails, and
/// changes nothing, only if the credit balance would overflow.
pub fn fund_subscription(sub: &mut Subscription, new_deposit_lamports: u64) -> (r: Result<
    (),
    SubscriptionError,
>)
    ensures
        match r {
            Ok(()) => {
                &&& old(sub).subscription_status_writable.after_verify_credit_lamports
                    + new_deposit_lamports <= u64::MAX
                &&& *final(sub) == funded(*old(sub), new_deposit_lamports)
            },
            Err(e) => {
                &&& e == SubscriptionError::ArithmeticError
                &&& old(sub).subscription_status_writable.after_verify_credit_lamports
                    + new_deposit_lamports > u64::MAX
                &&& *final(sub) == *old(sub)
            },
        },
        r is Ok ==> {
            &&& final(sub).subscription_status_writable.after_verify_credit_lamports
                == old(sub).subscription_status_writable.after_verify_credit_lamports
                    + new_deposit_lamports
            &&& final(sub).authority_writable == old(sub).authority_writable
            &&& final(sub).imutable_initialized == old(sub).imutable_initialized
            &&& final(sub).subscription_status_writable.after_verify_utc_timestamp
                == old(sub).subscription_status_writable.after_verify_utc_timestamp
            &&& final(sub).subscription_status_writable.desired_subscription_type
                == old(sub).subscription_status_writable.desired_subscription_type
        },
{
    match sub.subscription_status_writable.after_verify_credit_lamports.checked_add(
        new_deposit_lamports,
    ) {
        Some(new_credit) => {
            sub.subscription_status_writable.after_verify_credit_lamports = new_credit;
            Ok(())
        },
        None => Err(SubscriptionError::ArithmeticError),
    }
}

/// Funding keeps the account solvent: the deposit lands on the ledger
/// balance and is credited to the user in equal measure.
pub proof fn lemma_fund_preserves_solvency(
    sub: Subscription,
    new_deposit_lamports: u64,
    balance: int,
    reserve: int,
    now_ms: int,
)
    requires
        solvent(sub, balance, reserve, now_ms),
        sub.subscription_status_writable.after_verify_credit_lamports + new_deposit_lamports
            <= u64::MAX,
    ensures
        solvent(funded(sub, new_deposit_lamports), balance + new_deposit_lamports, reserve, now_ms),
{
}

/// The record after the authority has verified usage: the consumed amount,
/// if given, is deducted from the credit balance and recorded; the validity
/// window ends at the given date, or closes if none is given; the granted
/// tier changes only if one is given; the verification time is always set.
pub open spec fn info_updated(
    sub: Subscription,
    now_ms: i64,
    subscription_date: Option<i64>,
    used_lamports: Option<u64>,
    subscription_type: Option<SubscriptionType>,
) -> Subscription {
    Subscription {
        imutable_initialized: sub.imutable_initialized,
        subscription_status_writable: CurrentSubscriptionStatistics {
            after_verify_credit_lamports: (sub.subscription_status_writable.after_verify_credit_lamports
                - (match used_lamports {
                Some(u) => u as int,
                None => 0,
            })) as u64,
            after_verify_utc_timestamp: now_ms,
            desired_subscription_type: sub.subscription_status_writable.desired_subscription_type,
        },
        authority_writable: AuthorityWritable {
            current_account_type: match subscription_type {
                Some(t) => t,
                None => sub.authority_writable.current_account_type,
            },
            valid_till: match subscription_date {
                Some(d) => d,
                None => 0,
            },
            used_lamports: match used_lamports {
                Some(u) => u,
                None => sub.authority_writable.used_lamports,
            },
        },
    }
}

/// Record verified usage, a validity window and a granted tier. Only the
/// configured authority may do this. With all three arguments absent the
/// call is a no-op that succeeds. A new window must end strictly after the
/// verification time, so a window is never empty or inverted.
pub fn set_subscription_info(
    sub: &mut Subscription,
    main_state: &MainState,
    main_state_key: Pubkey,
    authority: Pubkey,
    now_ms: i64,
    subscription_date: Option<i64>,
    used_lamports: Option<u64>,
    subscription_type: Option<SubscriptionType>,
) -> (r: Result<(), SubscriptionError>)
    requires
        subscription_date matches Some(d) ==> d > now_ms,
    ensures
        match r {
            Ok(()) => {
                if subscription_date is None && used_lamports is None && subscription_type
                    is None {
                    *final(sub) == *old(sub)
                } else {
                    &&& old(sub).imutable_initialized.main_state_pda == main_state_key
                    &&& main_state.authority == authority
                    &&& (used_lamports matches Some(u) ==> u <= old(
                        sub,
                    ).subscription_status_writable.after_verify_credit_lamports)
                    &&& *final(sub) == info_updated(
                        *old(sub),
                        now_ms,
                        subscription_date,
                        used_lamports,
                        subscription_type,
                    )
                }
            },
            Err(e) => {
                &&& *final(sub) == *old(sub)
                &&& !(subscription_date is None && used_lamports is None && subscription_type
                    is None)
                &&& {
                    ||| {
                        &&& e == SubscriptionError::InvalidConfigReference
                        &&& old(sub).imutable_initialized.main_state_pda != main_state_key
                    }
                    ||| {
                        &&& e == SubscriptionError::InvalidAuthority
                        &&& old(sub).imutable_initialized.main_state_pda == main_state_key
                        &&& main_state.authority != authority
                    }
                    ||| {
                        &&& e == SubscriptionError::InsufficientCredits
                        &&& old(sub).imutable_initialized.main_state_pda == main_state_key
                        &&& main_state.authority == authority
                        &&& used_lamports matches Some(u) && u > old(
                            sub,
                        ).subscription_status_writable.after_verify_credit_lamports
                    }
                }
            },
        },
{
    match (&subscription_date, &used_lamports, &subscription_type) {
        (None, None, None) => {
            return Ok(());
        },
        _ => (),
    }
    if sub.imutable_initialized.main_state_pda != main_state_key {
        return Err(SubscriptionError::InvalidConfigReference);
    }
    if main_state.authority != authority {
        return Err(SubscriptionError::InvalidAuthority);
    }
    match used_lamports {
        Some(lamports) => {
            if sub.subscription_status_writable.after_verify_credit_lamports < lamports {
                return Err(SubscriptionError::InsufficientCredits);
            }
            sub.subscription_status_writable.after_verify_credit_lamports =
                sub.subscription_status_writable.after_verify_credit_lamports - lamports;
            sub.authority_writable.used_lamports = lamports;
        },
        None => (),
    }
    sub.subscription_status_writable.after_verify_utc_timestamp = now_ms;
    sub.authority_writable.valid_till = match subscription_date {
        Some(date) => date,
        None => 0,
    };
    if let Some(t) = subscription_type {
        sub.authority_writable.current_account_type = t;
    }
    Ok(())
}

/// Verifying usage keeps the account solvent. When a new window is opened,
/// either the consumed amount is given with it (and deducted from the
/// credit it was backed by), or the previous window is still open, so the
/// carried-over consumed amount is still backed by the balance.
pub proof fn lemma_set_info_preserves_solvency(
    sub: Subscription,
    now_ms: i64,
    subscription_date: Option<i64>,
    used_lamports: Option<u64>,
    subscription_type: Option<SubscriptionType>,
    balance: int,
    reserve: int,
)
    requires
        0 <= now_ms,
        solvent(sub, balance, reserve, now_ms as int),
        used_lamports matches Some(u) ==> u
            <= sub.subscription_status_writable.after_verify_credit_lamports,
        subscription_date matches Some(d) ==> d > now_ms,
        subscription_date is Some && used_lamports is None ==> sub.authority_writable.valid_till
            > now_ms,
    ensures
        solvent(
            info_updated(sub, now_ms, subscription_date, used_lamports, subscription_type),
            balance,
            reserve,
            now_ms as int,
        ),
{
}

/// The most the authority may withdraw from the account: the ledger
/// balance, less the minimum reserve, the user's credit, and the consumed
/// amount of a still-open window. Negative when the balance does not even
/// cover those liabilities.
pub open spec fn max_withdrawable(
    sub: Subscription,
    sub_balance: int,
    rent_reserve: int,
    now_ms: int,
) -> int {
    sub_balance - rent_reserve - sub.subscription_status_writable.after_verify_credit_lamports
        - used_if_active(sub, now_ms)
}

/// What `withdraw` returns, in full: which error on which input, and the
/// amount moved on success.
pub open spec fn withdraw_result(
    sub: Subscription,
    main_state: MainState,
    main_state_key: Pubkey,
    authority: Pubkey,
    now_ms: i64,
    withdrawal_amount: Option<u64>,
    sub_balance: u64,
    rent_reserve: u64,
) -> Result<u64, SubscriptionError> {
    let max = max_withdrawable(sub, sub_balance as int, rent_reserve as int, now_ms as int);
    if sub.imutable_initialized.main_state_pda != main_state_key {
        Err(SubscriptionError::InvalidConfigReference)
    } else if main_state.authority != authority {
        Err(SubscriptionError::InvalidAuthority)
    } else if max < 0 {
        Err(SubscriptionError::ArithmeticError)
    } else {
        match withdrawal_amount {
            None => Ok(max as u64),
            Some(a) => if a > max {
                Err(SubscriptionError::InsufficientWithdrawalBalance)
            } else {
                Ok(a)
            },
        }
    }
}

/// Withdraw earned funds from the account. Only the configured authority
/// may do this. With no amount given, exactly the withdrawable maximum is
/// moved; with an amount given, it must not exceed that maximum. The
/// caller moves the returned amount from the account to the authority's
/// recipient on the ledger. The record itself does not change.
pub fn withdraw(
    sub: &Subscription,
    main_state: &MainState,
    main_state_key: Pubkey,
    authority: Pubkey,
    now_ms: i64,
    withdrawal_amount: Option<u64>,
    sub_balance: u64,
    rent_reserve: u64,
) -> (r: Result<u64, SubscriptionError>)
    ensures
        r == withdraw_result(
            *sub,
            *main_state,
            main_state_key,
            authority,
            now_ms,
            withdrawal_amount,
            sub_balance,
            rent_reserve,
        ),
        (r matches Ok(a) ==> 0 <= max_withdrawable(
            *sub,
            sub_balance as int,
            rent_reserve as int,
            now_ms as int,
        ) && a <= max_withdrawable(*sub, sub_balance as int, rent_reserve as int, now_ms as int)),
        ({
            &&& sub.imutable_initialized.main_state_pda == main_state_key
            &&& main_state.authority == authority
            &&& solvent(*sub, sub_balance as int, rent_reserve as int, now_ms as int)
            &&& withdrawal_amount is None
        } ==> r is Ok),
{
    if sub.imutable_initialized.main_state_pda != main_state_key {
        return Err(SubscriptionError::InvalidConfigReference);
    }
    if main_state.authority != authority {
        return Err(SubscriptionError::InvalidAuthority);
    }
    let used_active: u64 = if sub.authority_writable.valid_till > now_ms {
        sub.authority_writable.used_lamports
    } else {
        0
    };
    let headroom: i128 = sub_balance as i128 - rent_reserve as i128
        - sub.subscription_status_writable.after_verify_credit_lamports as i128
        - used_active as i128;
    if headroom < 0 {
        return Err(SubscriptionError::ArithmeticError);
    }
    let max_allowed_to_withdraw: u64 = headroom as u64;
    match withdrawal_amount {
        None => Ok(max_allowed_to_withdraw),
        Some(amount) => {
            if amount > max_allowed_to_withdraw {
                return Err(SubscriptionError::InsufficientWithdrawalBalance);
            }
            Ok(amount)
        },
    }
}

/// Solvency is precisely a non-negative withdrawable maximum.
pub proof fn lemma_solvent_iff_withdraw_headroom(
    sub: Subscription,
    sub_balance: int,
    rent_reserve: int,
    now_ms: int,
)
    ensures
        solvent(sub, sub_balance, rent_reserve, now_ms) <==> max_withdrawable(
            sub,
            sub_balance,
            rent_reserve,
            now_ms,
        ) >= 0,
{
}

/// Withdrawing with no amount given moves exactly what withdrawing the
/// explicit maximum would: the two calls return the same result.
pub proof fn lemma_withdraw_full_matches_explicit_maximum(
    sub: Subscription,
    main_state: MainState,
    main_state_key: Pubkey,
    authority: Pubkey,
    now_ms: i64,
    sub_balance: u64,
    rent_reserve: u64,
)
    requires
        max_withdrawable(sub, sub_balance as int, rent_reserve as int, now_ms as int) >= 0,
    ensures
        withdraw_result(
            sub,
            main_state,
            main_state_key,
            authority,
            now_ms,
            None,
            sub_balance,
            rent_reserve,
        ) == withdraw_result(
            sub,
            main_state,
            main_state_key,
            authority,
            now_ms,
            Some(
                max_withdrawable(
                    sub,
                    sub_balance as int,
                    rent_reserve as int,
                    now_ms as int,
                ) as u64,
            ),
            sub_balance,
            rent_reserve,
        ),
{
}

/// A withdrawal within the maximum leaves the account solvent: the balance
/// still covers the reserve, the credit, and an open window's consumed
/// amount.
pub proof fn lemma_withdraw_preserves_solvency(
    sub: Subscription,
    sub_balance: int,
    rent_reserve: int,
    now_ms: int,
    amount: int,
)
    requires
        0 <= amount <= max_withdrawable(sub, sub_balance, rent_reserve, now_ms),
    ensures
        solvent(sub, sub_balance - amount, rent_reserve, now_ms),
{
}

/// The amounts a cancellation pays out, for the caller to move on the
/// ledger: the prorated refund to the supplied payout account, and the
/// sweep of everything above the reserve to the configuration's owner.
#[derive(Clone, Copy, Debug, PartialEq, Eq, Structural)]
pub struct UnsubscribeOutcome {
    pub refund_to_user: u64,
    pub swept_to_owner: u64,
}

/// What a cancellation pays back when the user withdraws the content: the
/// remaining-time share of the consumed amount, keeping `100 - fee`
/// percent of it, plus the whole unconsumed credit.
pub open spec fn unsubscribe_refund(sub: Subscription, fee: u8, now_ms: i64) -> int {
    prorated_share(
        sub.authority_writable.used_lamports as int,
        100 - fee,
        100,
        sub.authority_writable.valid_till as int,
        sub.subscription_status_writable.after_verify_utc_timestamp as int,
        now_ms as int,
    ) + sub.subscription_status_writable.after_verify_credit_lamports
}

/// What a cancellation leaves as credit when the user keeps the account
/// funded: the remaining-time share of the consumed amount at half the
/// fee — `(200 - fee)` of `200` parts — plus the credit already there.
pub open spec fn unsubscribe_retained(sub: Subscription, fee: u8, now_ms: i64) -> int {
    prorated_share(
        sub.authority_writable.used_lamports as int,
        200 - fee,
        200,
        sub.authority_writable.valid_till as int,
        sub.subscription_status_writable.after_verify_utc_timestamp as int,
        now_ms as int,
    ) + sub.subscription_status_writable.after_verify_credit_lamports
}

/// The baseline a cancelled account returns to: no granted tier, no
/// validity window, no consumed amount, no desired tier, verified now,
/// with the given credit left.
pub open spec fn baseline_reset(sub: Subscription, now_ms: i64, new_credit: u64) -> Subscription {
    Subscription {
        imutable_initialized: sub.imutable_initialized,
        subscription_status_writable: CurrentSubscriptionStatistics {
            after_verify_credit_lamports: new_credit,
            after_verify_utc_timestamp: now_ms,
            desired_subscription_type: SubscriptionType::FREE,
        },
        authority_writable: AuthorityWritable {
            current_account_type: SubscriptionType::FREE,
            valid_till: 0,
            used_lamports: 0,
        },
    }
}

/// What `unsubscribe` does, in full: which error on which input, and on
/// success the reset record and the amounts paid out.
pub open spec fn unsubscribe_result(
    sub: Subscription,
    main_state: MainState,
    main_state_key: Pubkey,
    main_state_owner: Pubkey,
    user: Pubkey,
    now_ms: i64,
    withdraw_content: bool,
    to_account_supplied: bool,
    sub_balance: u64,
    rent_reserve: u64,
) -> Result<(Subscription, UnsubscribeOutcome), SubscriptionError> {
    if sub.imutable_initialized.main_state_pda != main_state_key {
        Err(SubscriptionError::InvalidConfigReference)
    } else if main_state_owner != main_state.owner {
        Err(SubscriptionError::InvalidOwner)
    } else if sub.imutable_initialized.user != user && main_state.authority != user {
        Err(SubscriptionError::InvalidAuthority)
    } else if withdraw_content && !to_account_supplied {
        Err(SubscriptionError::MissingRequiredAccount)
    } else if withdraw_content {
        let refund = unsubscribe_refund(sub, main_state.unsubscribe_fee, now_ms);
        if refund > u64::MAX || refund + rent_reserve > sub_balance {
            Err(SubscriptionError::ArithmeticError)
        } else {
            Ok(
                (
                    baseline_reset(sub, now_ms, 0),
                    UnsubscribeOutcome {
                        refund_to_user: refund as u64,
                        swept_to_owner: (sub_balance - rent_reserve - refund) as u64,
                    },
                ),
            )
        }
    } else {
        let retained = unsubscribe_retained(sub, main_state.unsubscribe_fee, now_ms);
        if retained > u64::MAX {
            Err(SubscriptionError::ArithmeticError)
        } else {
            Ok(
                (
                    baseline_reset(sub, now_ms, retained as u64),
                    UnsubscribeOutcome { refund_to_user: 0, swept_to_owner: 0 },
                ),
            )
        }
    }
}

/// Cancel the subscription. The account's own user, or the configured
/// authority, may do this; the supplied owner account must be the
/// configured owner. With `withdraw_content` the prorated refund goes to
/// the supplied payout account, everything else above the reserve is swept
/// to the owner, and the credit ends at zero; without it nothing is paid
/// out and a recomputed credit, keeping half the fee, stays on the
/// account. Either way the record returns to its baseline: no tier, no
/// window, no consumed amount. The caller moves the returned amounts on
/// the ledger.
pub fn unsubscribe(
    sub: &mut Subscription,
    main_state: &MainState,
    main_state_key: Pubkey,
    main_state_owner: Pubkey,
    user: Pubkey,
    now_ms: i64,
    withdraw_content: bool,
    to_account: Option<Pubkey>,
    sub_balance: u64,
    rent_reserve: u64,
) -> (r: Result<UnsubscribeOutcome, SubscriptionError>)
    requires
        main_state.wf(),
    ensures
        (match r {
            Ok(out) => unsubscribe_result(
                *old(sub),
                *main_state,
                main_state_key,
                main_state_owner,
                user,
                now_ms,
                withdraw_content,
                to_account is Some,
                sub_balance,
                rent_reserve,
            ) matches Ok(expected) && expected.0 == *final(sub) && expected.1 == out,
            Err(e) => unsubscribe_result(
                *old(sub),
                *main_state,
                main_state_key,
                main_state_owner,
                user,
                now_ms,
                withdraw_content,
                to_account is Some,
                sub_balance,
                rent_reserve,
            ) matches Err(expected) && expected == e && *final(sub) == *old(sub),
        }),
        (r is Ok ==> {
            &&& final(sub).authority_writable.current_account_type == SubscriptionType::FREE
            &&& final(sub).authority_writable.valid_till == 0
            &&& final(sub).authority_writable.used_lamports == 0
            &&& final(sub).subscription_status_writable.desired_subscription_type
                == SubscriptionType::FREE
            &&& final(sub).subscription_status_writable.after_verify_utc_timestamp == now_ms
        }),
        (r matches Ok(out) ==> if withdraw_content {
            out.refund_to_user + out.swept_to_owner + rent_reserve == sub_balance
                && final(sub).subscription_status_writable.after_verify_credit_lamports == 0
        } else {
            out.refund_to_user == 0 && out.swept_to_owner == 0
        }),
        ({
            &&& old(sub).imutable_initialized.main_state_pda == main_state_key
            &&& main_state_owner == main_state.owner
            &&& (old(sub).imutable_initialized.user == user || main_state.authority == user)
            &&& (withdraw_content ==> to_account is Some)
            &&& solvent(*old(sub), sub_balance as int, rent_reserve as int, now_ms as int)
        } ==> r is Ok),
{
    if sub.imutable_initialized.main_state_pda != main_state_key {
        return Err(SubscriptionError::InvalidConfigReference);
    }
    if main_state_owner != main_state.owner {
        return Err(SubscriptionError::InvalidOwner);
    }
    if sub.imutable_initialized.user != user && main_state.authority != user {
        return Err(SubscriptionError::InvalidAuthority);
    }
    if withdraw_content && to_account.is_none() {
        return Err(SubscriptionError::MissingRequiredAccount);
    }
    let fee = main_state.unsubscribe_fee;
    let valid_till = sub.authority_writable.valid_till;
    let last_verified = sub.subscription_status_writable.after_verify_utc_timestamp;
    let used = sub.authority_writable.used_lamports;
    let credit = sub.subscription_status_writable.after_verify_credit_lamports;
    if withdraw_content {
        let part = prorated_amount(used, (100 - fee) as u32, 100, valid_till, last_verified, now_ms);
        proof {
            lemma_prorated_share_bounds(
                used as int,
                (100 - fee) as int,
                100,
                valid_till as int,
                last_verified as int,
                now_ms as int,
            );
        }
        let refund = match part.checked_add(credit) {
            Some(refund) => refund,
            None => {
                proof {
                    if solvent(*old(sub), sub_balance as int, rent_reserve as int, now_ms as int) {
                        assert(false);
                    }
                }
                return Err(SubscriptionError::ArithmeticError);
            },
        };
        if (refund as u128) + (rent_reserve as u128) > (sub_balance as u128) {
            proof {
                if solvent(*old(sub), sub_balance as int, rent_reserve as int, now_ms as int) {
                    assert(false);
                }
            }
            return Err(SubscriptionError::ArithmeticError);
        }
        let swept = sub_balance - rent_reserve - refund;
        *sub = Subscription {
            imutable_initialized: sub.imutable_initialized,
            subscription_status_writable: CurrentSubscriptionStatistics {
                after_verify_credit_lamports: 0,
                after_verify_utc_timestamp: now_ms,
                desired_subscription_type: SubscriptionType::FREE,
            },
            authority_writable: AuthorityWritable {
                current_account_type: SubscriptionType::FREE,
                valid_till: 0,
                used_lamports: 0,
            },
        };
        Ok(UnsubscribeOutcome { refund_to_user: refund, swept_to_owner: swept })
    } else {
        let part = prorated_amount(used, (200 - fee) as u32, 200, valid_till, last_verified, now_ms);
        proof {
            lemma_prorated_share_bounds(
                used as int,
                (200 - fee) as int,
                200,
                valid_till as int,
                last_verified as int,
                now_ms as int,
            );
        }
        let retained = match part.checked_add(credit) {
            Some(retained) => retained,
            None => {
                proof {
                    if solvent(*old(sub), sub_balance as int, rent_reserve as int, now_ms as int) {
                        assert(false);
                    }
                }
                return Err(SubscriptionError::ArithmeticError);
            },
        };
        *sub = Subscription {
            imutable_initialized: sub.imutable_initialized,
            subscription_status_writable: CurrentSubscriptionStatistics {
                after_verify_credit_lamports: retained,
                after_verify_utc_timestamp: now_ms,
                desired_subscription_type: SubscriptionType::FREE,
            },
            authority_writable: AuthorityWritable {
                current_account_type: SubscriptionType::FREE,
                valid_till: 0,
                used_lamports: 0,
            },
        };
        Ok(UnsubscribeOutcome { refund_to_user: 0, swept_to_owner: 0 })
    }
}

/// A solvent account can always settle its cancellation: the refund plus
/// the reserve fits inside the balance, the retained credit does too, and
/// the account is solvent again afterwards — with the swept balance gone
/// in the one case, with the balance untouched in the other.
pub proof fn lemma_unsubscribe_solvency(
    sub: Subscription,
    fee: u8,
    now_ms: i64,
    sub_balance: u64,
    rent_reserve: u64,
)
    requires
        fee <= 100,
        solvent(sub, sub_balance as int, rent_reserve as int, now_ms as int),
    ensures
        0 <= unsubscribe_refund(sub, fee, now_ms),
        unsubscribe_refund(sub, fee, now_ms) + rent_reserve <= sub_balance,
        0 <= unsubscribe_retained(sub, fee, now_ms),
        unsubscribe_retained(sub, fee, now_ms) + rent_reserve <= sub_balance,
        solvent(baseline_reset(sub, now_ms, 0), rent_reserve as int, rent_reserve as int, now_ms as int),
        solvent(
            baseline_reset(sub, now_ms, unsubscribe_retained(sub, fee, now_ms) as u64),
            sub_balance as int,
            rent_reserve as int,
            now_ms as int,
        ),
{
    lemma_prorated_share_bounds(
        sub.authority_writable.used_lamports as int,
        100 - fee,
        100,
        sub.authority_writable.valid_till as int,
        sub.subscription_status_writable.after_verify_utc_timestamp as int,
        now_ms as int,
    );
    lemma_prorated_share_bounds(
        sub.authority_writable.used_lamports as int,
        200 - fee,
        200,
        sub.authority_writable.valid_till as int,
        sub.subscription_status_writable.after_verify_utc_timestamp as int,
        now_ms as int,
    );
}

} // verus!
