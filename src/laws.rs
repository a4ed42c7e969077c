use vstd::prelude::*;

use crate::availability::{conflicts_with, ranges_overlap};
use crate::calendar::Date;
use crate::error::BookingError;
use crate::lifecycle::transition_allowed;
use crate::models::{is_active_status, is_terminal_status, AuthUser, Booking, BookingStatus};
use crate::policy::permits;
use crate::store::{
    after_request, after_transition, booking_of, booking_well_formed, no_double_booking, property_of,
    request_result, status_swap_result, store_well_formed, transition_action, transition_result, StoreView,
};

verus! {

/// In a well-formed store, two different active bookings of one property never
/// share a night (a check-out on the other's check-in day is no overlap).
pub proof fn lemma_active_bookings_disjoint(v: StoreView, i: int, j: int)
    requires
        store_well_formed(v),
        0 <= i < v.bookings.len(),
        0 <= j < v.bookings.len(),
        i != j,
        v.bookings[i].property_id == v.bookings[j].property_id,
        is_active_status(v.bookings[i].status),
        is_active_status(v.bookings[j].status),
    ensures
        !ranges_overlap(
            v.bookings[i].check_in_date.julian_day as int,
            v.bookings[i].check_out_date.julian_day as int,
            v.bookings[j].check_in_date.julian_day as int,
            v.bookings[j].check_out_date.julian_day as int,
        ),
{
}

/// A booking request, whether granted or refused, leaves the store well formed:
/// the new booking overlaps no active booking of its property.
pub proof fn lemma_request_keeps_store_well_formed(
    v: StoreView,
    actor: AuthUser,
    property_id: u128,
    check_in: Date,
    check_out: Date,
    guest_count: i32,
    special_requests: Option<String>,
    now: i64,
)
    requires
        store_well_formed(v),
        v.bookings.len() < u128::MAX,
    ensures
        store_well_formed(
            after_request(
                v,
                request_result(v, actor, property_id, check_in, check_out, guest_count, special_requests, now),
            ),
        ),
{
    let r = request_result(v, actor, property_id, check_in, check_out, guest_count, special_requests, now);
    if r is Ok {
        let nb = r->Ok_0;
        let bs = v.bookings.push(nb);
        let n = v.bookings.len() as int;
        assert forall|i: int| 0 <= i < bs.len() implies booking_well_formed(
            #[trigger] bs[i],
            i,
            v.properties.len() as int,
        ) by {
            if i < n {
                assert(bs[i] == v.bookings[i]);
            }
        }
        assert forall|i: int, j: int|
            0 <= i < bs.len() && 0 <= j < bs.len() && i != j && #[trigger] bs[i].property_id
                == #[trigger] bs[j].property_id && is_active_status(bs[i].status) && is_active_status(
                bs[j].status,
            ) implies !ranges_overlap(
            bs[i].check_in_date.julian_day as int,
            bs[i].check_out_date.julian_day as int,
            bs[j].check_in_date.julian_day as int,
            bs[j].check_out_date.julian_day as int,
        ) by {
            if i == n {
                assert(bs[j] == v.bookings[j]);
                assert(!conflicts_with(v.bookings[j], property_id, check_in, check_out));
            } else if j == n {
                assert(bs[i] == v.bookings[i]);
                assert(!conflicts_with(v.bookings[i], property_id, check_in, check_out));
            } else {
                assert(bs[i] == v.bookings[i]);
                assert(bs[j] == v.bookings[j]);
            }
        }
        assert(no_double_booking(bs));
    }
}

/// A compare-and-swap along an allowed transition leaves the store well formed:
/// a booking only becomes active by approval, and it was active before.
pub proof fn lemma_status_swap_keeps_store_well_formed(
    v: StoreView,
    booking_id: u128,
    expected: BookingStatus,
    status: BookingStatus,
    now: i64,
)
    requires
        store_well_formed(v),
        transition_allowed(expected, status),
    ensures
        store_well_formed(after_transition(v, status_swap_result(v, booking_id, expected, status, now))),
{
    let r = status_swap_result(v, booking_id, expected, status, now);
    if r is Ok {
        let k = booking_id - 1;
        let bs = v.bookings.update(k, r->Ok_0);
        assert forall|i: int| 0 <= i < bs.len() implies booking_well_formed(
            #[trigger] bs[i],
            i,
            v.properties.len() as int,
        ) by {
            assert(booking_well_formed(v.bookings[i], i, v.properties.len() as int));
        }
        assert forall|i: int, j: int|
            0 <= i < bs.len() && 0 <= j < bs.len() && i != j && #[trigger] bs[i].property_id
                == #[trigger] bs[j].property_id && is_active_status(bs[i].status) && is_active_status(
                bs[j].status,
            ) implies !ranges_overlap(
            bs[i].check_in_date.julian_day as int,
            bs[i].check_out_date.julian_day as int,
            bs[j].check_in_date.julian_day as int,
            bs[j].check_out_date.julian_day as int,
        ) by {
            assert(v.bookings[i].property_id == v.bookings[j].property_id);
            assert(is_active_status(v.bookings[i].status));
            assert(is_active_status(v.bookings[j].status));
        }
        assert(no_double_booking(bs));
    }
}

/// A transition request, whether applied or refused, leaves the store well
/// formed.
pub proof fn lemma_transition_keeps_store_well_formed(
    v: StoreView,
    actor: AuthUser,
    booking_id: u128,
    target: BookingStatus,
    now: i64,
)
    requires
        store_well_formed(v),
    ensures
        store_well_formed(after_transition(v, transition_result(v, actor, booking_id, target, now))),
{
    let r = transition_result(v, actor, booking_id, target, now);
    if r is Ok {
        let b = booking_of(v, booking_id)->0;
        lemma_status_swap_keeps_store_well_formed(v, booking_id, b.status, target, now);
        assert(status_swap_result(v, booking_id, b.status, target, now) == r);
    }
}

/// Of two requests for overlapping stays at one property, each of which the
/// store would grant on its own, the first is granted and the second, made
/// after it, is refused with `Conflict`: never are both granted.
pub proof fn lemma_overlapping_requests_exclusive(
    v: StoreView,
    first: AuthUser,
    second: AuthUser,
    property_id: u128,
    in1: Date,
    out1: Date,
    in2: Date,
    out2: Date,
    guests1: i32,
    guests2: i32,
    note1: Option<String>,
    note2: Option<String>,
    now1: i64,
    now2: i64,
)
    requires
        store_well_formed(v),
        ranges_overlap(
            in1.julian_day as int,
            out1.julian_day as int,
            in2.julian_day as int,
            out2.julian_day as int,
        ),
    ensures
        ({
            let r1 = request_result(v, first, property_id, in1, out1, guests1, note1, now1);
            let r2 = request_result(after_request(v, r1), second, property_id, in2, out2, guests2, note2, now2);
            &&& !(r1 is Ok && r2 is Ok)
            &&& request_result(v, first, property_id, in1, out1, guests1, note1, now1) is Ok
                && request_result(v, second, property_id, in2, out2, guests2, note2, now2) is Ok
                ==> r1 is Ok && r2 == Err::<Booking, BookingError>(BookingError::Conflict)
        }),
{
    let r1 = request_result(v, first, property_id, in1, out1, guests1, note1, now1);
    if r1 is Ok {
        let v1 = after_request(v, r1);
        let nb = r1->Ok_0;
        let n = v.bookings.len() as int;
        assert(v1.bookings[n] == nb);
        assert(conflicts_with(v1.bookings[n], property_id, in2, out2));
        assert(property_of(v1, property_id) == property_of(v, property_id));
    }
}

/// Nothing leaves Denied, Cancelled or Completed: a transition request on such
/// a booking fails whoever makes it and changes nothing, and an actor allowed
/// to ask gets `InvalidTransition` (so a denied booking cannot be cancelled).
pub proof fn lemma_terminal_booking_is_final(
    v: StoreView,
    actor: AuthUser,
    booking_id: u128,
    target: BookingStatus,
    now: i64,
)
    requires
        store_well_formed(v),
        booking_of(v, booking_id) is Some,
        is_terminal_status(booking_of(v, booking_id)->0.status),
    ensures
        transition_result(v, actor, booking_id, target, now) is Err,
        after_transition(v, transition_result(v, actor, booking_id, target, now)) == v,
        ({
            let b = booking_of(v, booking_id)->0;
            let owner = property_of(v, b.property_id)->0.owner_id;
            permits(actor.id, actor.role, transition_action(target, b.user_id, owner))
                ==> transition_result(v, actor, booking_id, target, now) == Err::<
                Booking,
                BookingError,
            >(BookingError::InvalidTransition { current: b.status, target })
        }),
{
    let b = booking_of(v, booking_id)->0;
    assert(booking_well_formed(v.bookings[booking_id - 1], booking_id - 1, v.properties.len() as int));
}

/// A guest may cancel a booking only if they made it: any other guest gets
/// `AuthorizationDenied`, and the requester's cancellation of a Pending or
/// Approved booking succeeds.
pub proof fn lemma_guest_cancels_only_own_booking(v: StoreView, actor: AuthUser, booking_id: u128, now: i64)
    requires
        store_well_formed(v),
        booking_of(v, booking_id) is Some,
        actor.role is User,
    ensures
        ({
            let b = booking_of(v, booking_id)->0;
            let r = transition_result(v, actor, booking_id, BookingStatus::Cancelled, now);
            &&& actor.id != b.user_id ==> r == Err::<Booking, BookingError>(
                BookingError::AuthorizationDenied,
            )
            &&& actor.id == b.user_id && is_active_status(b.status) ==> r is Ok && r->Ok_0.status
                is Cancelled
        }),
{
    assert(booking_well_formed(v.bookings[booking_id - 1], booking_id - 1, v.properties.len() as int));
}

} // verus!
