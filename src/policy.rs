use vstd::prelude::*;

use crate::error::BookingError;
use crate::models::{AuthUser, UserRole};

verus! {

/// What an actor asks to do, with the owners of the resources involved.
#[derive(Clone, Copy, Debug, PartialEq, Eq, Structural)]
pub enum Action {
    CreateBooking,
    /// Create a property or manage one's listings.
    ManageProperty,
    /// Approve or deny a booking of a property owned by `property_owner`.
    DecideBooking { property_owner: u128 },
    /// Cancel a booking made by `requester` at a property of `property_owner`.
    CancelBooking { requester: u128, property_owner: u128 },
    /// List the bookings of a property owned by `property_owner`.
    ViewPropertyBookings { property_owner: u128 },
    /// Provision a property-owner account.
    CreatePropertyOwner,
    /// A status change that no user triggers, such as completing a stay.
    SystemTransition,
}

/// The authorization table: an admin may do anything; a guest books; owners
/// manage listings and decide on or cancel bookings of their own properties; a
/// requester cancels their own booking; everything else is denied.
pub open spec fn permits(actor_id: u128, role: UserRole, action: Action) -> bool {
    if role is Admin {
        true
    } else {
        match action {
            Action::CreateBooking => role is User,
            Action::ManageProperty => role is PropertyOwner,
            Action::DecideBooking { property_owner } => role is PropertyOwner && actor_id == property_owner,
            Action::CancelBooking { requester, property_owner } => actor_id == requester || (
            role is PropertyOwner && actor_id == property_owner),
            Action::ViewPropertyBookings { property_owner } => role is PropertyOwner && actor_id
                == property_owner,
            Action::CreatePropertyOwner => false,
            Action::SystemTransition => false,
        }
    }
}

/// Whether `actor` may perform `action`.
pub fn can_perform(actor: &AuthUser, action: Action) -> (r: bool)
    ensures
        r == permits(actor.id, actor.role, action),
{
    match actor.role {
        UserRole::Admin => true,
        UserRole::User => match action {
            Action::CreateBooking => true,
            Action::CancelBooking { requester, property_owner: _ } => actor.id == requester,
            _ => false,
        },
        UserRole::PropertyOwner => match action {
            Action::CreateBooking => false,
            Action::ManageProperty => true,
            Action::DecideBooking { property_owner } => actor.id == property_owner,
            Action::CancelBooking { requester, property_owner } => actor.id == requester || actor.id
                == property_owner,
            Action::ViewPropertyBookings { property_owner } => actor.id == property_owner,
            _ => false,
        },
    }
}

/// `Ok` when `actor` may perform `action`, else `AuthorizationDenied`.
pub fn authorize(actor: &AuthUser, action: Action) -> (r: Result<(), BookingError>)
    ensures
        r is Ok <==> permits(actor.id, actor.role, action),
        r is Err ==> r == Err::<(), BookingError>(BookingError::AuthorizationDenied),
{
    if can_perform(actor, action) {
        Ok(())
    } else {
        Err(BookingError::AuthorizationDenied)
    }
}

} // verus!
