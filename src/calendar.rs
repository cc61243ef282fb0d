//! A calendar timestamp held as plain fields, and the rules that make one a
//! real date and time of day.
use vstd::prelude::*;

verus! {

/// A point in time given as separate fields: the full year (such as 2015),
/// the month (1 to 12), the day of the month (from 1), the hour (0 to 23),
/// the minute (0 to 59) and the second (0 to 59).
#[derive(Clone, Copy, Debug, PartialEq, Eq, Structural)]
pub struct CalendarTimestamp {
    pub year: i32,
    pub month: i32,
    pub day: i32,
    pub hour: i32,
    pub minute: i32,
    pub second: i32,
}

/// Gregorian leap year rule.
pub open spec fn is_leap_year(year: int) -> bool {
    (year % 4 == 0 && year % 100 != 0) || year % 400 == 0
}

/// Number of days in `month` (1 to 12) of `year`.
pub open spec fn days_in_month(year: int, month: int) -> int {
    if month == 2 {
        if is_leap_year(year) { 29 } else { 28 }
    } else if month == 4 || month == 6 || month == 9 || month == 11 {
        30
    } else {
        31
    }
}

impl CalendarTimestamp {
    /// The fields name a real day of the Gregorian calendar and a time of day
    /// to the second.
    pub open spec fn is_valid(self) -> bool {
        &&& 1 <= self.month <= 12
        &&& 1 <= self.day <= days_in_month(self.year as int, self.month as int)
        &&& 0 <= self.hour <= 23
        &&& 0 <= self.minute <= 59
        &&& 0 <= self.second <= 59
    }

    /// A valid timestamp whose year lies in the window that the packed
    /// format can hold.
    pub open spec fn is_dos_representable(self) -> bool {
        &&& self.is_valid()
        &&& 1980 <= self.year <= 2107
    }

    /// Builds a timestamp from its six fields, or nothing where they do not
    /// name a real date and time of day.
    pub fn from_fields(
        year: i32,
        month: i32,
        day: i32,
        hour: i32,
        minute: i32,
        second: i32,
    ) -> (r: Option<CalendarTimestamp>)
        ensures
            ({
                let t = CalendarTimestamp { year, month, day, hour, minute, second };
                r == if t.is_valid() { Some(t) } else { None::<CalendarTimestamp> }
            }),
    {
        let t = CalendarTimestamp { year, month, day, hour, minute, second };
        if t.check_valid() {
            Some(t)
        } else {
            None
        }
    }

    /// Tells whether the fields name a real date and time of day.
    pub fn check_valid(&self) -> (r: bool)
        ensures
            r == self.is_valid(),
    {
        let month_ok = 1 <= self.month && self.month <= 12;
        let day_ok = 1 <= self.day && self.day <= month_length(self.year, self.month);
        let hour_ok = 0 <= self.hour && self.hour <= 23;
        let minute_ok = 0 <= self.minute && self.minute <= 59;
        let second_ok = 0 <= self.second && self.second <= 59;
        month_ok && day_ok && hour_ok && minute_ok && second_ok
    }
}

/// Tells whether `year` is a leap year.
pub fn leap_year(year: i32) -> (r: bool)
    ensures
        r == is_leap_year(year as int),
{
    (year % 4 == 0 && year % 100 != 0) || year % 400 == 0
}

/// Number of days in `month` of `year`.
pub fn month_length(year: i32, month: i32) -> (r: i32)
    ensures
        r == days_in_month(year as int, month as int),
{
    if month == 2 {
        if leap_year(year) {
            29
        } else {
            28
        }
    } else if month == 4 || month == 6 || month == 9 || month == 11 {
        30
    } else {
        31
    }
}

} // verus!
