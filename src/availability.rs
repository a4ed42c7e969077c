use vstd::prelude::*;

use crate::calendar::Date;
use crate::models::{is_active_status, Booking};

verus! {

/// Half-open ranges `[a_start, a_end)` and `[b_start, b_end)` share a day.
pub open spec fn ranges_overlap(a_start: int, a_end: int, b_start: int, b_end: int) -> bool {
    a_start < b_end && b_start < a_end
}

/// `b` is an active booking of `property_id` whose stay shares a night with
/// `[check_in, check_out)`.
pub open spec fn conflicts_with(b: Booking, property_id: u128, check_in: Date, check_out: Date) -> bool {
    &&& b.property_id == property_id
    &&& is_active_status(b.status)
    &&& ranges_overlap(
        b.check_in_date.julian_day as int,
        b.check_out_date.julian_day as int,
        check_in.julian_day as int,
        check_out.julian_day as int,
    )
}

/// No booking of `bookings` conflicts with the requested stay.
pub open spec fn is_free(bookings: Seq<Booking>, property_id: u128, check_in: Date, check_out: Date) -> bool {
    forall|i: int| 0 <= i < bookings.len() ==> !conflicts_with(#[trigger] bookings[i], property_id, check_in, check_out)
}

/// The half-open date ranges `[a_in, a_out)` and `[b_in, b_out)` overlap; a
/// check-out on another stay's check-in day does not.
pub fn dates_overlap(a_in: Date, a_out: Date, b_in: Date, b_out: Date) -> (r: bool)
    ensures
        r == ranges_overlap(
            a_in.julian_day as int,
            a_out.julian_day as int,
            b_in.julian_day as int,
            b_out.julian_day as int,
        ),
{
    a_in.julian_day < b_out.julian_day && b_in.julian_day < a_out.julian_day
}

/// Whether `[check_in, check_out)` is free at `property_id`: no Pending or
/// Approved booking of that property overlaps it.
pub fn check_property_availability(
    bookings: &Vec<Booking>,
    property_id: u128,
    check_in: Date,
    check_out: Date,
) -> (r: bool)
    ensures
        r == is_free(bookings@, property_id, check_in, check_out),
{
    let mut i: usize = 0;
    while i < bookings.len()
        invariant
            i <= bookings.len(),
            is_free(bookings@.subrange(0, i as int), property_id, check_in, check_out),
        decreases bookings.len() - i,
    {
        let b = &bookings[i];
        if b.property_id == property_id && b.status.is_active() && dates_overlap(
            b.check_in_date,
            b.check_out_date,
            check_in,
            check_out,
        ) {
            assert(conflicts_with(bookings@[i as int], property_id, check_in, check_out));
            return false;
        }
        assert(is_free(bookings@.subrange(0, i + 1), property_id, check_in, check_out)) by {
            assert forall|j: int| 0 <= j < i + 1 implies !conflicts_with(
                #[trigger] bookings@.subrange(0, i + 1)[j],
                property_id,
                check_in,
                check_out,
            ) by {
                if j < i {
                    assert(bookings@.subrange(0, i + 1)[j] == bookings@.subrange(0, i as int)[j]);
                }
            }
        }
        i = i + 1;
    }
    assert(bookings@.subrange(0, bookings.len() as int) =~= bookings@);
    true
}

} // verus!
