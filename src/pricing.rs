use vstd::prelude::*;

use crate::calendar::Date;
use crate::error::BookingError;

verus! {

/// Nights of a stay from `check_in` to `check_out`.
pub open spec fn nights(check_in: Date, check_out: Date) -> int {
    check_out.julian_day - check_in.julian_day
}

/// Flat price of a stay: nights times the nightly rate, in cents.
pub open spec fn stay_price(price_per_night: int, check_in: Date, check_out: Date) -> int {
    nights(check_in, check_out) * price_per_night
}

/// The total price of a stay, or `InvalidRequest` when it has no night.
pub fn calculate_booking_price(price_per_night: i32, check_in: Date, check_out: Date) -> (r: Result<i64, BookingError>)
    ensures
        nights(check_in, check_out) <= 0 ==> r == Err::<i64, BookingError>(BookingError::InvalidRequest),
        nights(check_in, check_out) > 0 ==> r == Ok::<i64, BookingError>(
            stay_price(price_per_night as int, check_in, check_out) as i64,
        ),
        r is Ok ==> r->Ok_0 == stay_price(price_per_night as int, check_in, check_out),
{
    let n: i64 = check_in.days_until(&check_out);
    if n <= 0 {
        return Err(BookingError::InvalidRequest);
    }
    let rate: i64 = price_per_night as i64;
    assert(-0x8000_0000_0000_0000 < n * rate < 0x8000_0000_0000_0000) by (nonlinear_arith)
        requires
            0 < n < 0x1_0000_0000,
            -0x8000_0000 <= rate < 0x8000_0000,
    ;
    Ok(n * rate)
}

} // verus!
