use vstd::prelude::*;

use crate::error::BookingError;
use crate::models::BookingStatus;

verus! {

/// The transitions of a booking: a Pending booking is approved, denied or
/// cancelled; an Approved one is cancelled or completed. Nothing leaves Denied,
/// Cancelled or Completed.
pub open spec fn transition_allowed(current: BookingStatus, target: BookingStatus) -> bool {
    match current {
        BookingStatus::Pending => target is Approved || target is Denied || target is Cancelled,
        BookingStatus::Approved => target is Cancelled || target is Completed,
        _ => false,
    }
}

/// The status after moving from `current` to `target`, or `InvalidTransition`
/// naming both where the lifecycle has no such step (re-applying a status
/// included).
pub fn check_transition(current: BookingStatus, target: BookingStatus) -> (r: Result<BookingStatus, BookingError>)
    ensures
        transition_allowed(current, target) ==> r == Ok::<BookingStatus, BookingError>(target),
        !transition_allowed(current, target) ==> r == Err::<BookingStatus, BookingError>(
            BookingError::InvalidTransition { current, target },
        ),
{
    let allowed = match current {
        BookingStatus::Pending => match target {
            BookingStatus::Approved | BookingStatus::Denied | BookingStatus::Cancelled => true,
            _ => false,
        },
        BookingStatus::Approved => match target {
            BookingStatus::Cancelled | BookingStatus::Completed => true,
            _ => false,
        },
        _ => false,
    };
    if allowed {
        Ok(target)
    } else {
        Err(BookingError::InvalidTransition { current, target })
    }
}

} // verus!
