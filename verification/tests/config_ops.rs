use w3_subs_tracker::MainState;
use w3_subs_tracker::MainStateError;
use w3_subs_tracker::Pubkey;
use w3_subs_tracker::SubscriptionError;
use w3_subs_tracker::intialize_main_state;
use w3_subs_tracker::update_authority;
use w3_subs_tracker::update_fees;
use w3_subs_tracker::update_owner;

fn key(n: u64) -> Pubkey {
    Pubkey::new(n, 0, 0, 0)
}

#[test]
fn initialize_sets_owner_authority_and_fee() {
    let alice = key(1);
    let mut store: Option<MainState> = None;
    let r = intialize_main_state(&mut store, alice, 10);
    assert!(r.is_ok());
    let ms = store.unwrap();
    assert_eq!(ms.owner, alice);
    assert_eq!(ms.authority, alice);
    assert_eq!(ms.unsubscribe_fee, 10);
}

#[test]
fn initialize_twice_fails_and_keeps_the_first() {
    let alice = key(1);
    let bob = key(2);
    let mut store: Option<MainState> = None;
    assert!(intialize_main_state(&mut store, alice, 10).is_ok());
    let r = intialize_main_state(&mut store, bob, 25);
    assert_eq!(r, Err(MainStateError::ConfigAlreadyInitialized));
    let ms = store.unwrap();
    assert_eq!(ms.owner, alice);
    assert_eq!(ms.unsubscribe_fee, 10);
}

#[test]
fn owner_updates_authority() {
    let alice = key(1);
    let backend = key(3);
    let mut ms = MainState { owner: alice, authority: alice, unsubscribe_fee: 10 };
    assert!(update_authority(&mut ms, alice, backend).is_ok());
    assert_eq!(ms.authority, backend);
    assert_eq!(ms.owner, alice);
}

#[test]
fn non_owner_may_not_update_authority() {
    let alice = key(1);
    let mallory = key(4);
    let mut ms = MainState { owner: alice, authority: alice, unsubscribe_fee: 10 };
    let r = update_authority(&mut ms, mallory, mallory);
    assert_eq!(r, Err(SubscriptionError::InvalidOwner));
    assert_eq!(ms.authority, alice);
}

#[test]
fn owner_hands_over_ownership_and_loses_it() {
    let alice = key(1);
    let bob = key(2);
    let carol = key(5);
    let mut ms = MainState { owner: alice, authority: alice, unsubscribe_fee: 10 };
    assert!(update_owner(&mut ms, alice, bob).is_ok());
    assert_eq!(ms.owner, bob);
    let r = update_owner(&mut ms, alice, carol);
    assert_eq!(r, Err(SubscriptionError::InvalidOwner));
    assert_eq!(ms.owner, bob);
}

#[test]
fn owner_updates_fee_and_non_owner_may_not() {
    let alice = key(1);
    let mallory = key(4);
    let mut ms = MainState { owner: alice, authority: alice, unsubscribe_fee: 10 };
    assert!(update_fees(&mut ms, alice, 25).is_ok());
    assert_eq!(ms.unsubscribe_fee, 25);
    let r = update_fees(&mut ms, mallory, 0);
    assert_eq!(r, Err(SubscriptionError::InvalidOwner));
    assert_eq!(ms.unsubscribe_fee, 25);
}
