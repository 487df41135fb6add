//! Operations on the global configuration.
//!
//! The configuration exists at most once: initialization fails if it is
//! already there. Afterwards only the configured owner may reassign the
//! owner or the authority, or change the fee.

use vstd::prelude::*;

use crate::errors::MainStateError;
use crate::errors::SubscriptionError;
use crate::state::MainState;
use crate::state::Pubkey;

verus! {

/// Initialize the global configuration: the caller becomes both owner and
/// authority. Fails, and changes nothing, if a configuration already
/// exists at the target.
pub fn intialize_main_state(
    main_state: &mut Option<MainState>,
    user: Pubkey,
    fees: u8,
) -> (r: Result<(), MainStateError>)
    requires
        fees <= 100,
    ensures
        match r {
            Ok(()) => {
                &&& *old(main_state) is None
                &&& *final(main_state) == Some(
                    MainState { owner: user, authority: user, unsubscribe_fee: fees },
                )
                &&& final(main_state)->Some_0.wf()
            },
            Err(e) => {
                &&& e == MainStateError::ConfigAlreadyInitialized
                &&& *old(main_state) is Some
                &&& *final(main_state) == *old(main_state)
            },
        },
{
    if main_state.is_some() {
        return Err(MainStateError::ConfigAlreadyInitialized);
    }
    *main_state = Some(MainState { owner: user, authority: user, unsubscribe_fee: fees });
    Ok(())
}

/// Reassign the authority. Only the configured owner may do this.
pub fn update_authority(
    main_state: &mut MainState,
    signer: Pubkey,
    new_authority: Pubkey,
) -> (r: Result<(), SubscriptionError>)
    ensures
        match r {
            Ok(()) => {
                &&& old(main_state).owner == signer
                &&& *final(main_state) == (MainState {
                    authority: new_authority,
                    ..*old(main_state)
                })
                &&& old(main_state).wf() ==> final(main_state).wf()
            },
            Err(e) => {
                &&& e == SubscriptionError::InvalidOwner
                &&& old(main_state).owner != signer
                &&& *final(main_state) == *old(main_state)
            },
        },
{
    if main_state.owner != signer {
        return Err(SubscriptionError::InvalidOwner);
    }
    main_state.authority = new_authority;
    Ok(())
}

/// Reassign the owner. Only the current owner may do this.
pub fn update_owner(
    main_state: &mut MainState,
    signer: Pubkey,
    new_owner: Pubkey,
) -> (r: Result<(), SubscriptionError>)
    ensures
        match r {
            Ok(()) => {
                &&& old(main_state).owner == signer
                &&& *final(main_state) == (MainState { owner: new_owner, ..*old(main_state) })
                &&& old(main_state).wf() ==> final(main_state).wf()
            },
            Err(e) => {
                &&& e == SubscriptionError::InvalidOwner
                &&& old(main_state).owner != signer
                &&& *final(main_state) == *old(main_state)
            },
        },
{
    if main_state.owner != signer {
        return Err(SubscriptionError::InvalidOwner);
    }
    main_state.owner = new_owner;
    Ok(())
}

/// Change the fee percentage retained from prorated refunds. Only the
/// configured owner may do this, and the new fee must be a percentage.
pub fn update_fees(
    main_state: &mut MainState,
    signer: Pubkey,
    new_fees: u8,
) -> (r: Result<(), SubscriptionError>)
    requires
        new_fees <= 100,
    ensures
        match r {
            Ok(()) => {
                &&& old(main_state).owner == signer
                &&& *final(main_state) == (MainState {
                    unsubscribe_fee: new_fees,
                    ..*old(main_state)
                })
                &&& final(main_state).wf()
            },
            Err(e) => {
                &&& e == SubscriptionError::InvalidOwner
                &&& old(main_state).owner != signer
                &&& *final(main_state) == *old(main_state)
            },
        },
{
    if main_state.owner != signer {
        return Err(SubscriptionError::InvalidOwner);
    }
    main_state.unsubscribe_fee = new_fees;
    Ok(())
}

} // verus!
