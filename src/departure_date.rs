use vstd::prelude::*;

verus! {

/// Smallest year that the calendar library accepts.
pub const MIN_YEAR: i32 = -262143;

/// Largest year that the calendar library accepts.
pub const MAX_YEAR: i32 = 262142;

/// Proleptic Gregorian leap-year rule.
pub open spec fn is_leap_year(year: int) -> bool {
    year % 4 == 0 && (year % 100 != 0 || year % 400 == 0)
}

pub open spec fn days_in_month(year: int, month: int) -> int {
    if month == 2 {
        if is_leap_year(year) {
            29
        } else {
            28
        }
    } else if month == 4 || month == 6 || month == 9 || month == 11 {
        30
    } else {
        31
    }
}

/// Whether year, month and day name a day of the supported calendar.
pub open spec fn is_calendar_date(year: int, month: int, day: int) -> bool {
    &&& MIN_YEAR <= year <= MAX_YEAR
    &&& 1 <= month <= 12
    &&& 1 <= day <= days_in_month(year, month)
}

/// Relies on chrono's `NaiveDate::from_ymd_opt`: it returns `Some` exactly
/// for an existing day of the proleptic Gregorian calendar whose year lies in
/// `MIN_YEAR..=MAX_YEAR`.
#[verifier::external_body]
fn calendar_date_exists(year: i32, month: u32, day: u32) -> (r: bool)
    ensures
        r == is_calendar_date(year as int, month as int, day as int),
{
    chrono::NaiveDate::from_ymd_opt(year, month, day).is_some()
}

/// Pricing regime of a travel day.
#[derive(Clone, Copy, Debug, PartialEq, Eq, Structural)]
pub enum Season {
    Regular,
    OffPeak,
    Peak,
}

/// `(m1, d1) <= (m2, d2)` in month-then-day order.
pub open spec fn month_day_le(m1: int, d1: int, m2: int, d2: int) -> bool {
    m1 < m2 || (m1 == m2 && d1 <= d2)
}

/// Season of a (month, day): off-peak from January 16 to January 30, peak
/// from December 25 through January 10 across the year end, regular
/// otherwise; both ends of each range included.
pub open spec fn season_of(month: int, day: int) -> Season {
    if month_day_le(1, 16, month, day) && month_day_le(month, day, 1, 30) {
        Season::OffPeak
    } else if month_day_le(12, 25, month, day) || month_day_le(month, day, 1, 10) {
        Season::Peak
    } else {
        Season::Regular
    }
}

/// The day of travel. `from_ymd` only builds existing days
/// (`is_calendar_date`).
#[derive(Clone, Copy, Debug, PartialEq, Eq, Structural)]
pub struct DepartureDate {
    pub year: i32,
    pub month: u32,
    pub day: u32,
}

impl DepartureDate {
    pub open spec fn wf(self) -> bool {
        is_calendar_date(self.year as int, self.month as int, self.day as int)
    }

    /// The date, or `None` when it does not exist in the calendar.
    pub fn from_ymd(year: i32, month: u32, day: u32) -> (r: Option<DepartureDate>)
        ensures
            match r {
                Some(date) => date == (DepartureDate { year, month, day }) && date.wf(),
                None => !is_calendar_date(year as int, month as int, day as int),
            },
    {
        if calendar_date_exists(year, month, day) {
            Some(DepartureDate { year, month, day })
        } else {
            None
        }
    }

    /// The season that governs surcharges and discount rates on this day.
    pub fn get_season(&self) -> (r: Season)
        ensures
            r == season_of(self.month as int, self.day as int),
    {
        let m = self.month;
        let d = self.day;
        if (m == 1 && 16 <= d) && (m == 1 && d <= 30) {
            Season::OffPeak
        } else if (12 < m || (m == 12 && 25 <= d)) || (m < 1 || (m == 1 && d <= 10)) {
            Season::Peak
        } else {
            Season::Regular
        }
    }
}

} // verus!
