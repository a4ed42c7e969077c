use vstd::prelude::*;
use vstd::string::StrSliceExecFns;

verus! {

/// The Julian day number of a calendar date, as the `time` crate computes it.
pub uninterp spec fn julian_day_of(year: int, month: int, day: int) -> int;

/// Gregorian leap-year rule.
pub open spec fn is_leap_year(year: int) -> bool {
    year % 4 == 0 && (year % 100 != 0 || year % 400 == 0)
}

/// Number of days in `month` (1..=12) of `year`.
pub open spec fn days_in_month(year: int, month: int) -> int {
    if month == 2 {
        if is_leap_year(year) { 29 } else { 28 }
    } else if month == 4 || month == 6 || month == 9 || month == 11 {
        30
    } else {
        31
    }
}

/// A month of 1..=12 and a day that exists in that month.
pub open spec fn is_valid_calendar_date(year: int, month: int, day: int) -> bool {
    1 <= month <= 12 && 1 <= day <= days_in_month(year, month)
}

/// Relies on `time::Month::try_from(u8)`, `time::Date::from_calendar_date` and
/// `time::Date::to_julian_day`: a date exists when the month is 1..=12 and the day
/// fits the month (always so for years in -9999..=9999), and its Julian day number
/// depends on the year, month and day alone.
#[verifier::external_body]
fn julian_day(year: i32, month: u8, day: u8) -> (r: Option<i32>)
    ensures
        r is Some ==> is_valid_calendar_date(year as int, month as int, day as int),
        r is Some ==> r->0 == julian_day_of(year as int, month as int, day as int),
        -9999 <= year <= 9999 && is_valid_calendar_date(year as int, month as int, day as int)
            ==> r is Some,
{
    match time::Month::try_from(month) {
        Ok(m) => time::Date::from_calendar_date(year, m, day).ok().map(|d| d.to_julian_day()),
        Err(_) => None,
    }
}

pub open spec fn is_digit(c: char) -> bool {
    '0' <= c <= '9'
}

pub open spec fn digit_value(c: char) -> int {
    c as int - '0' as int
}

/// The number that the `len` digits of `s` from `at` spell.
pub open spec fn number_at(s: Seq<char>, at: int, len: nat) -> int
    decreases len,
{
    if len == 0 {
        0
    } else {
        number_at(s, at, (len - 1) as nat) * 10 + digit_value(s[at + len - 1])
    }
}

/// `s` has the shape `YYYY-MM-DD`.
pub open spec fn is_iso_date_text(s: Seq<char>) -> bool {
    &&& s.len() == 10
    &&& s[4] == '-' && s[7] == '-'
    &&& forall|i: int| 0 <= i < 10 && i != 4 && i != 7 ==> is_digit(#[trigger] s[i])
}

fn read_number(s: &str, at: usize, len: usize) -> (r: u32)
    requires
        at + len <= s@.len(),
        at <= 10,
        len <= 4,
        forall|i: int| at <= i < at + len ==> is_digit(#[trigger] s@[i]),
    ensures
        r == number_at(s@, at as int, len as nat),
        r < 10000,
        len == 2 ==> r < 100,
{
    let mut v: u32 = 0;
    let mut k: usize = 0;
    while k < len
        invariant
            k <= len <= 4,
            at + len <= s@.len(),
            at <= 10,
            forall|i: int| at <= i < at + len ==> is_digit(#[trigger] s@[i]),
            v == number_at(s@, at as int, k as nat),
            v < 10000,
            k == 0 ==> v == 0,
            k == 1 ==> v < 10,
            k == 2 ==> v < 100,
            k == 3 ==> v < 1000,
        decreases len - k,
    {
        let c = s.get_char(at + k);
        assert(is_digit(s@[at + k]));
        v = v * 10 + (c as u32 - '0' as u32);
        k = k + 1;
    }
    v
}

/// A calendar day, held as its Julian day number. Consecutive days have
/// consecutive numbers, so the number of nights between two dates is the
/// difference of their numbers.
#[derive(Clone, Copy, Debug, PartialEq, Eq, Structural)]
pub struct Date {
    pub julian_day: i32,
}

impl Date {
    /// The date with the given Julian day number.
    pub fn from_julian_day(julian_day: i32) -> (r: Date)
        ensures
            r.julian_day == julian_day,
    {
        Date { julian_day }
    }

    /// The date `year-month-day` of the proleptic Gregorian calendar, or `None`
    /// where no such date exists.
    pub fn from_calendar_date(year: i32, month: u8, day: u8) -> (r: Option<Date>)
        ensures
            r is Some ==> is_valid_calendar_date(year as int, month as int, day as int)
                && r->0.julian_day == julian_day_of(year as int, month as int, day as int),
            -9999 <= year <= 9999 && is_valid_calendar_date(year as int, month as int, day as int)
                ==> r is Some,
    {
        match julian_day(year, month, day) {
            Some(jd) => Some(Date { julian_day: jd }),
            None => None,
        }
    }

    /// The date that `s` writes as `YYYY-MM-DD`, or `None` where `s` has
    /// another shape or names no date.
    pub fn parse_iso(s: &str) -> (r: Option<Date>)
        ensures
            r is Some <==> is_iso_date_text(s@) && is_valid_calendar_date(
                number_at(s@, 0, 4),
                number_at(s@, 5, 2),
                number_at(s@, 8, 2),
            ),
            r is Some ==> r->0.julian_day == julian_day_of(
                number_at(s@, 0, 4),
                number_at(s@, 5, 2),
                number_at(s@, 8, 2),
            ),
    {
        if s.unicode_len() != 10 || s.get_char(4) != '-' || s.get_char(7) != '-' {
            return None;
        }
        let mut i: usize = 0;
        while i < 10
            invariant
                i <= 10,
                s@.len() == 10,
                forall|k: int| 0 <= k < i && k != 4 && k != 7 ==> is_digit(#[trigger] s@[k]),
            decreases 10 - i,
        {
            if i != 4 && i != 7 {
                let c = s.get_char(i);
                if !('0' <= c && c <= '9') {
                    assert(!is_digit(s@[i as int]));
                    return None;
                }
            }
            i = i + 1;
        }
        let year = read_number(s, 0, 4);
        let month = read_number(s, 5, 2);
        let day = read_number(s, 8, 2);
        Date::from_calendar_date(year as i32, month as u8, day as u8)
    }

    /// Whole days from `self` to `later` (negative when `later` comes first).
    pub fn days_until(&self, later: &Date) -> (r: i64)
        ensures
            r == later.julian_day - self.julian_day,
    {
        later.julian_day as i64 - self.julian_day as i64
    }
}

} // verus!
