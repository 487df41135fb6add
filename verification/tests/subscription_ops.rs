use w3_subs_tracker::AuthorityWritable;
use w3_subs_tracker::CurrentSubscriptionStatistics;
use w3_subs_tracker::MainState;
use w3_subs_tracker::MutableInitialized;
use w3_subs_tracker::Pubkey;
use w3_subs_tracker::Subscription;
use w3_subs_tracker::SubscriptionError;
use w3_subs_tracker::SubscriptionType;
use w3_subs_tracker::change_desired_subscription_type;
use w3_subs_tracker::create_subscription;
use w3_subs_tracker::fund_subscription;
use w3_subs_tracker::set_subscription_info;
use w3_subs_tracker::unsubscribe;
use w3_subs_tracker::withdraw;

fn key(n: u64) -> Pubkey {
    Pubkey::new(n, 0, 0, 0)
}

const T: i64 = 1_000_000;

fn config() -> (MainState, Pubkey) {
    let alice = key(1);
    let backend = key(3);
    (MainState { owner: alice, authority: backend, unsubscribe_fee: 10 }, key(9))
}

/// A fresh account with 1000 credited, then verified: 400 consumed,
/// window open until `T + 1000`, granted tier BASIC.
fn verified_account() -> (MainState, Pubkey, Subscription) {
    let (ms, cfg) = config();
    let user = key(2);
    let mut sub = create_subscription(user, cfg, T, 1000, SubscriptionType::BASIC).unwrap();
    set_subscription_info(
        &mut sub,
        &ms,
        cfg,
        ms.authority,
        T,
        Some(T + 1000),
        Some(400),
        Some(SubscriptionType::BASIC),
    )
    .unwrap();
    (ms, cfg, sub)
}

#[test]
fn create_credits_the_deposit_and_grants_no_tier() {
    let (_, cfg) = config();
    let user = key(2);
    let sub = create_subscription(user, cfg, T, 1000, SubscriptionType::BASIC).unwrap();
    assert_eq!(sub.subscription_status_writable.after_verify_credit_lamports, 1000);
    assert_eq!(sub.authority_writable.current_account_type, SubscriptionType::FREE);
    assert_eq!(
        sub.subscription_status_writable.desired_subscription_type,
        SubscriptionType::BASIC
    );
    assert_eq!(sub.authority_writable.valid_till, 0);
    assert_eq!(sub.authority_writable.used_lamports, 0);
    assert_eq!(sub.subscription_status_writable.after_verify_utc_timestamp, T);
    assert_eq!(sub.imutable_initialized.user, user);
    assert_eq!(sub.imutable_initialized.main_state_pda, cfg);
}

#[test]
fn create_with_zero_deposit_fails() {
    let (_, cfg) = config();
    let r = create_subscription(key(2), cfg, T, 0, SubscriptionType::PREMIUM);
    assert_eq!(r, Err(SubscriptionError::InvalidInitialDeposit));
}

#[test]
fn set_info_deducts_usage_and_opens_the_window() {
    let (_, _, sub) = verified_account();
    assert_eq!(sub.subscription_status_writable.after_verify_credit_lamports, 600);
    assert_eq!(sub.authority_writable.used_lamports, 400);
    assert_eq!(sub.authority_writable.valid_till, T + 1000);
    assert_eq!(sub.subscription_status_writable.after_verify_utc_timestamp, T);
    assert_eq!(sub.authority_writable.current_account_type, SubscriptionType::BASIC);
}

#[test]
fn set_info_with_nothing_to_set_is_a_no_op() {
    let (ms, cfg, mut sub) = verified_account();
    let before = sub;
    let r = set_subscription_info(&mut sub, &ms, cfg, ms.authority, T + 10, None, None, None);
    assert!(r.is_ok());
    assert_eq!(sub, before);
}

#[test]
fn set_info_without_a_date_closes_the_window() {
    let (ms, cfg, mut sub) = verified_account();
    let r = set_subscription_info(&mut sub, &ms, cfg, ms.authority, T + 10, None, Some(100), None);
    assert!(r.is_ok());
    assert_eq!(sub.authority_writable.valid_till, 0);
    assert_eq!(sub.subscription_status_writable.after_verify_credit_lamports, 500);
    assert_eq!(sub.authority_writable.used_lamports, 100);
}

#[test]
fn set_info_overspending_fails_and_changes_nothing() {
    let (ms, cfg) = config();
    let mut sub = create_subscription(key(2), cfg, T, 1000, SubscriptionType::BASIC).unwrap();
    let before = sub;
    let r = set_subscription_info(
        &mut sub,
        &ms,
        cfg,
        ms.authority,
        T,
        Some(T + 1000),
        Some(1200),
        None,
    );
    assert_eq!(r, Err(SubscriptionError::InsufficientCredits));
    assert_eq!(sub, before);
}

#[test]
fn set_info_by_non_authority_fails() {
    let (ms, cfg, mut sub) = verified_account();
    let before = sub;
    let r = set_subscription_info(&mut sub, &ms, cfg, key(2), T + 10, Some(T + 2000), None, None);
    assert_eq!(r, Err(SubscriptionError::InvalidAuthority));
    assert_eq!(sub, before);
}

#[test]
fn set_info_against_the_wrong_config_fails() {
    let (ms, _, mut sub) = verified_account();
    let before = sub;
    let r = set_subscription_info(
        &mut sub,
        &ms,
        key(8),
        ms.authority,
        T + 10,
        Some(T + 2000),
        None,
        None,
    );
    assert_eq!(r, Err(SubscriptionError::InvalidConfigReference));
    assert_eq!(sub, before);
}

#[test]
fn fund_raises_the_credit_by_exactly_the_deposit() {
    let (_, _, mut sub) = verified_account();
    let before = sub;
    assert!(fund_subscription(&mut sub, 250).is_ok());
    assert_eq!(sub.subscription_status_writable.after_verify_credit_lamports, 850);
    assert_eq!(sub.authority_writable, before.authority_writable);
    assert_eq!(
        sub.subscription_status_writable.after_verify_utc_timestamp,
        before.subscription_status_writable.after_verify_utc_timestamp
    );
    assert_eq!(
        sub.subscription_status_writable.desired_subscription_type,
        before.subscription_status_writable.desired_subscription_type
    );
}

#[test]
fn fund_overflowing_the_credit_fails_and_changes_nothing() {
    let (_, _, mut sub) = verified_account();
    assert!(fund_subscription(&mut sub, u64::MAX - 600).is_ok());
    assert_eq!(sub.subscription_status_writable.after_verify_credit_lamports, u64::MAX);
    let before = sub;
    let r = fund_subscription(&mut sub, 1);
    assert_eq!(r, Err(SubscriptionError::ArithmeticError));
    assert_eq!(sub, before);
}

#[test]
fn user_changes_the_desired_tier() {
    let (_, cfg, mut sub) = verified_account();
    let r = change_desired_subscription_type(&mut sub, cfg, key(2), SubscriptionType::PREMIUM);
    assert!(r.is_ok());
    assert_eq!(
        sub.subscription_status_writable.desired_subscription_type,
        SubscriptionType::PREMIUM
    );
    assert_eq!(sub.authority_writable.current_account_type, SubscriptionType::BASIC);
}

#[test]
fn stranger_may_not_change_the_desired_tier() {
    let (_, cfg, mut sub) = verified_account();
    let before = sub;
    let r = change_desired_subscription_type(&mut sub, cfg, key(7), SubscriptionType::PREMIUM);
    assert_eq!(r, Err(SubscriptionError::InvalidAuthority));
    assert_eq!(sub, before);
}

#[test]
fn desired_tier_change_against_the_wrong_config_fails() {
    let (_, _, mut sub) = verified_account();
    let before = sub;
    let r = change_desired_subscription_type(&mut sub, key(8), key(2), SubscriptionType::PREMIUM);
    assert_eq!(r, Err(SubscriptionError::InvalidConfigReference));
    assert_eq!(sub, before);
}

#[test]
fn unsubscribe_halfway_refunds_the_prorated_share_plus_credit() {
    let (ms, cfg, mut sub) = verified_account();
    let out = unsubscribe(
        &mut sub,
        &ms,
        cfg,
        ms.owner,
        key(2),
        T + 500,
        true,
        Some(key(6)),
        1100,
        100,
    )
    .unwrap();
    assert_eq!(out.refund_to_user, 780);
    assert_eq!(out.swept_to_owner, 220);
    assert_eq!(sub.subscription_status_writable.after_verify_credit_lamports, 0);
    assert_eq!(sub.authority_writable.current_account_type, SubscriptionType::FREE);
    assert_eq!(sub.authority_writable.valid_till, 0);
    assert_eq!(sub.authority_writable.used_lamports, 0);
    assert_eq!(
        sub.subscription_status_writable.desired_subscription_type,
        SubscriptionType::FREE
    );
    assert_eq!(sub.subscription_status_writable.after_verify_utc_timestamp, T + 500);
}

#[test]
fn unsubscribe_keeping_the_account_retains_credit_at_half_fee() {
    let (ms, cfg, mut sub) = verified_account();
    let out = unsubscribe(&mut sub, &ms, cfg, ms.owner, key(2), T + 500, false, None, 1100, 100)
        .unwrap();
    assert_eq!(out.refund_to_user, 0);
    assert_eq!(out.swept_to_owner, 0);
    assert_eq!(sub.subscription_status_writable.after_verify_credit_lamports, 790);
    assert_eq!(sub.authority_writable.current_account_type, SubscriptionType::FREE);
    assert_eq!(sub.authority_writable.valid_till, 0);
}

#[test]
fn unsubscribe_after_expiry_refunds_only_the_credit() {
    let (ms, cfg, mut sub) = verified_account();
    let out = unsubscribe(
        &mut sub,
        &ms,
        cfg,
        ms.owner,
        key(2),
        T + 5000,
        true,
        Some(key(6)),
        1100,
        100,
    )
    .unwrap();
    assert_eq!(out.refund_to_user, 600);
    assert_eq!(out.swept_to_owner, 400);
}

#[test]
fn unsubscribe_with_an_empty_window_refunds_only_the_credit() {
    let (ms, cfg) = config();
    let sub = Subscription {
        imutable_initialized: MutableInitialized { main_state_pda: cfg, user: key(2) },
        subscription_status_writable: CurrentSubscriptionStatistics {
            after_verify_credit_lamports: 600,
            after_verify_utc_timestamp: T,
            desired_subscription_type: SubscriptionType::BASIC,
        },
        authority_writable: AuthorityWritable {
            current_account_type: SubscriptionType::BASIC,
            valid_till: T,
            used_lamports: 400,
        },
    };
    let mut sub = sub;
    let out = unsubscribe(
        &mut sub,
        &ms,
        cfg,
        ms.owner,
        key(2),
        T,
        true,
        Some(key(6)),
        1100,
        100,
    )
    .unwrap();
    assert_eq!(out.refund_to_user, 600);
    assert_eq!(out.swept_to_owner, 400);
}

#[test]
fn a_zero_fee_refunds_the_full_prorated_share() {
    let (mut ms, cfg, mut sub) = verified_account();
    ms.unsubscribe_fee = 0;
    let out = unsubscribe(
        &mut sub,
        &ms,
        cfg,
        ms.owner,
        key(2),
        T + 500,
        true,
        Some(key(6)),
        1100,
        100,
    )
    .unwrap();
    assert_eq!(out.refund_to_user, 800);
    assert_eq!(out.swept_to_owner, 200);
}

#[test]
fn a_full_fee_refunds_only_the_credit() {
    let (mut ms, cfg, mut sub) = verified_account();
    ms.unsubscribe_fee = 100;
    let out = unsubscribe(
        &mut sub,
        &ms,
        cfg,
        ms.owner,
        key(2),
        T + 500,
        true,
        Some(key(6)),
        1100,
        100,
    )
    .unwrap();
    assert_eq!(out.refund_to_user, 600);
    assert_eq!(out.swept_to_owner, 400);
}

#[test]
fn unsubscribe_fails_when_the_balance_cannot_cover_the_refund() {
    let (ms, cfg, mut sub) = verified_account();
    let before = sub;
    let r = unsubscribe(
        &mut sub,
        &ms,
        cfg,
        ms.owner,
        key(2),
        T + 500,
        true,
        Some(key(6)),
        700,
        100,
    );
    assert_eq!(r, Err(SubscriptionError::ArithmeticError));
    assert_eq!(sub, before);
}

#[test]
fn the_authority_may_unsubscribe_the_user() {
    let (ms, cfg, mut sub) = verified_account();
    let r = unsubscribe(
        &mut sub,
        &ms,
        cfg,
        ms.owner,
        ms.authority,
        T + 500,
        false,
        None,
        1100,
        100,
    );
    assert!(r.is_ok());
}

#[test]
fn a_stranger_may_not_unsubscribe() {
    let (ms, cfg, mut sub) = verified_account();
    let before = sub;
    let r = unsubscribe(&mut sub, &ms, cfg, ms.owner, key(7), T + 500, false, None, 1100, 100);
    assert_eq!(r, Err(SubscriptionError::InvalidAuthority));
    assert_eq!(sub, before);
}

#[test]
fn unsubscribe_with_the_wrong_owner_account_fails() {
    let (ms, cfg, mut sub) = verified_account();
    let before = sub;
    let r = unsubscribe(&mut sub, &ms, cfg, key(7), key(2), T + 500, false, None, 1100, 100);
    assert_eq!(r, Err(SubscriptionError::InvalidOwner));
    assert_eq!(sub, before);
}

#[test]
fn unsubscribe_withdrawing_without_a_payout_account_fails() {
    let (ms, cfg, mut sub) = verified_account();
    let before = sub;
    let r = unsubscribe(&mut sub, &ms, cfg, ms.owner, key(2), T + 500, true, None, 1100, 100);
    assert_eq!(r, Err(SubscriptionError::MissingRequiredAccount));
    assert_eq!(sub, before);
}

#[test]
fn withdraw_moves_nothing_while_the_window_backs_everything() {
    let (ms, cfg, sub) = verified_account();
    let r = withdraw(&sub, &ms, cfg, ms.authority, T + 500, None, 1100, 100);
    assert_eq!(r, Ok(0));
}

#[test]
fn withdraw_after_expiry_releases_the_consumed_amount() {
    let (ms, cfg, sub) = verified_account();
    let r = withdraw(&sub, &ms, cfg, ms.authority, T + 1500, Some(400), 1100, 100);
    assert_eq!(r, Ok(400));
}

#[test]
fn withdraw_with_no_amount_takes_exactly_the_maximum() {
    let (ms, cfg, sub) = verified_account();
    let all = withdraw(&sub, &ms, cfg, ms.authority, T + 1500, None, 1100, 100);
    let explicit = withdraw(&sub, &ms, cfg, ms.authority, T + 1500, Some(400), 1100, 100);
    assert_eq!(all, Ok(400));
    assert_eq!(all, explicit);
}

#[test]
fn withdraw_beyond_the_maximum_fails() {
    let (ms, cfg, sub) = verified_account();
    let r = withdraw(&sub, &ms, cfg, ms.authority, T + 1500, Some(401), 1100, 100);
    assert_eq!(r, Err(SubscriptionError::InsufficientWithdrawalBalance));
}

#[test]
fn withdraw_from_an_uncovered_account_fails() {
    let (ms, cfg, sub) = verified_account();
    let r = withdraw(&sub, &ms, cfg, ms.authority, T + 1500, None, 100, 100);
    assert_eq!(r, Err(SubscriptionError::ArithmeticError));
}

#[test]
fn only_the_authority_may_withdraw() {
    let (ms, cfg, sub) = verified_account();
    let r = withdraw(&sub, &ms, cfg, key(2), T + 1500, None, 1100, 100);
    assert_eq!(r, Err(SubscriptionError::InvalidAuthority));
}

#[test]
fn everything_paid_out_was_once_deposited() {
    // Deposits: 1000 at creation, 500 topped up. The account's balance is
    // the reserve plus the deposits. Whatever leaves through withdraw and
    // unsubscribe, together with the reserve, adds up to the balance —
    // nothing is paid out that was not paid in.
    let (ms, cfg) = config();
    let user = key(2);
    let mut sub = create_subscription(user, cfg, T, 1000, SubscriptionType::BASIC).unwrap();
    set_subscription_info(&mut sub, &ms, cfg, ms.authority, T, Some(T + 1000), Some(400), None)
        .unwrap();
    fund_subscription(&mut sub, 500).unwrap();
    let reserve: u64 = 100;
    let mut balance: u64 = reserve + 1000 + 500;
    let withdrawn = withdraw(&sub, &ms, cfg, ms.authority, T + 1500, None, balance, reserve)
        .unwrap();
    assert_eq!(withdrawn, 400);
    balance -= withdrawn;
    let out = unsubscribe(
        &mut sub,
        &ms,
        cfg,
        ms.owner,
        user,
        T + 1500,
        true,
        Some(key(6)),
        balance,
        reserve,
    )
    .unwrap();
    assert_eq!(out.refund_to_user, 1100);
    assert_eq!(out.swept_to_owner, 0);
    assert_eq!(withdrawn + out.refund_to_user + out.swept_to_owner, 1500);
}

#[test]
fn withdraw_against_the_wrong_config_fails() {
    let (ms, _, sub) = verified_account();
    let r = withdraw(&sub, &ms, key(8), ms.authority, T + 1500, None, 1100, 100);
    assert_eq!(r, Err(SubscriptionError::InvalidConfigReference));
}
