//! Civil dates of the Buddhist Era: validity, leap years and day of year.

use vstd::prelude::*;

verus! {

/// Years by which the Buddhist Era runs ahead of the Gregorian count.
pub const BUDDHIST_ERA_OFFSET: u32 = 543;

/// The Gregorian leap rule: every fourth year, but of the century years only
/// every fourth.
pub open spec fn is_leap_year(year_ad: int) -> bool {
    (year_ad % 4 == 0 && year_ad % 100 != 0) || year_ad % 400 == 0
}

/// Days in a month of a common or a leap year.
pub open spec fn days_in_month(month: int, leap: bool) -> int {
    if month == 2 {
        if leap {
            29
        } else {
            28
        }
    } else if month == 4 || month == 6 || month == 9 || month == 11 {
        30
    } else {
        31
    }
}

/// Days in a common or a leap year.
pub open spec fn days_in_year(leap: bool) -> int {
    if leap {
        366
    } else {
        365
    }
}

/// Days of the year that lie before the first of a month.
pub open spec fn days_before_month(month: int, leap: bool) -> int
    decreases month,
{
    if month <= 1 {
        0
    } else {
        days_before_month(month - 1, leap) + days_in_month(month - 1, leap)
    }
}

/// A civil moment of birth: a date of the Buddhist Era and a clock time.
#[derive(Clone, Copy, Debug, PartialEq, Eq, Structural)]
pub struct CivilBirthMoment {
    pub day: u32,
    pub month: u32,
    pub year_be: u32,
    pub hour: u32,
    pub minute: u32,
}

impl CivilBirthMoment {
    /// The Gregorian year of the date.
    pub open spec fn year_ad(&self) -> int {
        self.year_be - BUDDHIST_ERA_OFFSET
    }

    /// Whether the date falls in a Gregorian leap year.
    pub open spec fn in_leap_year(&self) -> bool {
        is_leap_year(self.year_ad())
    }

    /// The date exists in the calendar, not before Gregorian year 0, and the
    /// time is one of a twenty-four hour clock.
    pub open spec fn wf(&self) -> bool {
        &&& self.year_be >= BUDDHIST_ERA_OFFSET
        &&& 1 <= self.month <= 12
        &&& 1 <= self.day <= days_in_month(self.month as int, self.in_leap_year())
        &&& self.hour <= 23
        &&& self.minute <= 59
    }

    /// The date's ordinal within its year, 1 January being day 1.
    pub open spec fn day_of_year(&self) -> int {
        days_before_month(self.month as int, self.in_leap_year()) + self.day
    }

    /// Builds a moment, or nothing when the date or the time does not exist.
    pub fn new(day: u32, month: u32, year_be: u32, hour: u32, minute: u32) -> (r: Option<
        CivilBirthMoment,
    >)
        ensures
            r is Some <==> (CivilBirthMoment { day, month, year_be, hour, minute }).wf(),
            r is Some ==> r->0 == (CivilBirthMoment { day, month, year_be, hour, minute }),
    {
        if year_be < BUDDHIST_ERA_OFFSET || month < 1 || month > 12 || hour > 23 || minute > 59 {
            return None;
        }
        let leap: bool = leap_year(year_be - BUDDHIST_ERA_OFFSET);
        if day < 1 || day > month_length(month, leap) {
            return None;
        }
        Some(CivilBirthMoment { day, month, year_be, hour, minute })
    }
}

/// Decides the Gregorian leap rule for a year.
pub fn leap_year(year_ad: u32) -> (leap: bool)
    ensures
        leap == is_leap_year(year_ad as int),
{
    (year_ad % 4 == 0 && year_ad % 100 != 0) || year_ad % 400 == 0
}

/// Length of a month, February following the leap flag.
pub fn month_length(month: u32, leap: bool) -> (days: u32)
    requires
        1 <= month <= 12,
    ensures
        days == days_in_month(month as int, leap),
        28 <= days <= 31,
{
    if month == 2 {
        if leap {
            29
        } else {
            28
        }
    } else if month == 4 || month == 6 || month == 9 || month == 11 {
        30
    } else {
        31
    }
}

/// Counts the days of the year up to and including the date.
pub fn day_of_year(moment: &CivilBirthMoment) -> (ordinal: u32)
    requires
        moment.wf(),
    ensures
        ordinal == moment.day_of_year(),
        1 <= ordinal <= days_in_year(moment.in_leap_year()),
{
    let leap: bool = leap_year(moment.year_be - BUDDHIST_ERA_OFFSET);
    let mut ordinal: u32 = moment.day;
    let mut month: u32 = 1;
    while month < moment.month
        invariant
            1 <= month <= moment.month <= 12,
            ordinal == moment.day + days_before_month(month as int, leap),
            ordinal <= 31 * month,
        decreases moment.month - month,
    {
        ordinal = ordinal + month_length(month, leap);
        month = month + 1;
    }
    proof {
        lemma_day_of_year_bounds(moment.month as int, moment.day as int, leap);
    }
    ordinal
}

/// The days before each month, month by month: the table that the
/// recursive count unfolds to.
pub proof fn lemma_days_before_month_table(leap: bool)
    ensures
        days_before_month(1, leap) == 0,
        days_before_month(2, leap) == 31,
        days_before_month(3, leap) == 59 + if leap { 1int } else { 0 },
        days_before_month(4, leap) == 90 + if leap { 1int } else { 0 },
        days_before_month(5, leap) == 120 + if leap { 1int } else { 0 },
        days_before_month(6, leap) == 151 + if leap { 1int } else { 0 },
        days_before_month(7, leap) == 181 + if leap { 1int } else { 0 },
        days_before_month(8, leap) == 212 + if leap { 1int } else { 0 },
        days_before_month(9, leap) == 243 + if leap { 1int } else { 0 },
        days_before_month(10, leap) == 273 + if leap { 1int } else { 0 },
        days_before_month(11, leap) == 304 + if leap { 1int } else { 0 },
        days_before_month(12, leap) == 334 + if leap { 1int } else { 0 },
        days_before_month(13, leap) == days_in_year(leap),
{
    reveal_with_fuel(days_before_month, 14);
}

/// A date that exists has an ordinal between 1 and the length of its year.
pub proof fn lemma_day_of_year_bounds(month: int, day: int, leap: bool)
    requires
        1 <= month <= 12,
        1 <= day <= days_in_month(month, leap),
    ensures
        1 <= days_before_month(month, leap) + day <= days_in_year(leap),
{
    lemma_days_before_month_table(leap);
}

} // verus!
