//! Hour bookkeeping records: per-state requirement and progress values, and
//! the calendar date a state's renewal falls due. Dates are held as plain
//! year, month and day with a calendar validity invariant.

use vstd::prelude::*;

verus! {

/// A request to set the completed hours for one state.
pub struct UpdateHoursRequest {
    pub state_id: String,
    pub hours: i32,
}

impl UpdateHoursRequest {
    /// Whether the request is acceptable: the hour total must not be
    /// negative.
    pub fn validate(&self) -> (ok: bool)
        ensures
            ok == (self.hours >= 0),
    {
        self.hours >= 0
    }
}

/// The hours on record for one state after an update.
pub struct UpdateHoursResponse {
    pub hours_complete: i32,
}

/// One state's progress: hours completed against the state's requirement.
pub struct StateHours {
    pub state_code: String,
    pub hours_complete: u16,
    pub legal_hours: u16,
}

/// A user's progress across all their states.
pub struct UserDetailsResponse {
    pub states: Vec<StateHours>,
}

/// Whether a year is a leap year of the Gregorian calendar.
pub open spec fn is_leap_year(y: int) -> bool {
    (y % 4 == 0 && y % 100 != 0) || y % 400 == 0
}

/// The number of days of a month in a given year.
pub open spec fn days_in_month(y: int, m: int) -> int {
    if m == 2 {
        if is_leap_year(y) {
            29
        } else {
            28
        }
    } else if m == 4 || m == 6 || m == 9 || m == 11 {
        30
    } else {
        31
    }
}

/// A calendar date: the day a state's renewal falls due.
#[derive(Debug, Clone, Copy, PartialEq, Eq, Structural)]
pub struct RenewalDate {
    pub year: u32,
    pub month: u32,
    pub day: u32,
}

impl RenewalDate {
    /// A real date of the Gregorian calendar, with a four-digit year.
    pub open spec fn valid(&self) -> bool {
        &&& 1 <= self.year <= 9999
        &&& 1 <= self.month <= 12
        &&& 1 <= self.day <= days_in_month(self.year as int, self.month as int)
    }

    /// Builds a date, rejecting anything outside the calendar.
    pub fn new(year: u32, month: u32, day: u32) -> (r: Option<RenewalDate>)
        ensures
            r matches Some(d) ==> d == (RenewalDate { year, month, day }) && d.valid(),
            r is None <==> !(RenewalDate { year, month, day }).valid(),
    {
        let ok = 1 <= year && year <= 9999 && 1 <= month && month <= 12 && 1 <= day && day
            <= days_of(year, month);
        if ok {
            Some(RenewalDate { year, month, day })
        } else {
            None
        }
    }
}

/// The number of days of a month in a given year.
pub fn days_of(year: u32, month: u32) -> (d: u32)
    ensures
        d as int == days_in_month(year as int, month as int),
{
    if month == 2 {
        if (year % 4 == 0 && year % 100 != 0) || year % 400 == 0 {
            29
        } else {
            28
        }
    } else if month == 4 || month == 6 || month == 9 || month == 11 {
        30
    } else {
        31
    }
}

/// One state's requirement as submitted at registration: hours already
/// completed and the renewal due date.
pub struct HourRequirements {
    pub completed: u16,
    pub due: RenewalDate,
}

} // verus!
