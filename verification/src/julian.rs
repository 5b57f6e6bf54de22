//! Julian Day of a civil moment, kept as a whole number of minutes.

use vstd::prelude::*;
use crate::calendar::{
    days_before_month,
    days_in_year,
    is_leap_year,
    lemma_days_before_month_table,
    CivilBirthMoment,
    BUDDHIST_ERA_OFFSET,
};

verus! {

/// Minutes in a day.
pub const MINUTES_PER_DAY: i64 = 1440;

/// Julian Day Number of 1 January of Gregorian year 0: the Julian Day that
/// begins at noon of that date.
pub const DAY_NUMBER_OF_YEAR_ZERO: i64 = 1_721_060;

/// An instant on the Julian Day axis, as minutes since its origin. The Julian
/// Day is this count divided by 1440; a count that 1440 divides is a noon.
#[derive(Clone, Copy, Debug, PartialEq, Eq, Structural)]
pub struct JulianDay {
    pub minutes: i64,
}

/// Days of the Gregorian calendar from 1 January of year 0 to 1 January of
/// the given year.
pub open spec fn days_before_year(year_ad: int) -> int
    decreases year_ad,
{
    if year_ad <= 0 {
        0
    } else {
        days_before_year(year_ad - 1) + days_in_year(is_leap_year(year_ad - 1))
    }
}

/// The Julian Day Number of a civil date: days counted one by one from
/// 1 January of year 0.
pub open spec fn julian_day_number(moment: CivilBirthMoment) -> int {
    DAY_NUMBER_OF_YEAR_ZERO + days_before_year(moment.year_ad()) + moment.day_of_year() - 1
}

/// Minutes on the Julian Day axis of a civil moment. The numbered day begins
/// at noon, so midnight lies 720 minutes before it.
pub open spec fn julian_minutes(moment: CivilBirthMoment) -> int {
    julian_day_number(moment) * MINUTES_PER_DAY - 720 + moment.hour * 60 + moment.minute
}

/// Leap days that the Gregorian rule has placed in years 1 to `year_ad`;
/// for year −1 it is −1, which takes the leap day of year 0 back out.
pub open spec fn leap_days_through(year_ad: int) -> int {
    year_ad / 4 - year_ad / 100 + year_ad / 400
}

/// The Julian Day Number by the usual formula. January and February count
/// as months 13 and 14 of the year before. The years then give 365.25 days each
/// from year -4716, the months 30.6001 days each, both rounded down; the
/// centuries give the Gregorian correction `2 - a + a / 4`; and 1524 days come
/// off.
pub open spec fn formula_day_number(moment: CivilBirthMoment) -> int {
    let early = moment.month <= 2;
    let year = if early {
        moment.year_ad() - 1
    } else {
        moment.year_ad()
    };
    let month = if early {
        moment.month + 12
    } else {
        moment.month as int
    };
    let century = year / 100;
    (1461 * (year + 4716)) / 4 + (306001 * (month + 1)) / 10000 + moment.day + (2 - century
        + century / 4) - 1524
}

/// Converts a civil moment to its Julian Day, by the usual formula.
pub fn calculate_jd(moment: &CivilBirthMoment) -> (jd: JulianDay)
    requires
        moment.wf(),
    ensures
        jd.minutes == julian_minutes(*moment),
{
    let mut year: i64 = (moment.year_be - BUDDHIST_ERA_OFFSET) as i64;
    let mut month: i64 = moment.month as i64;
    if month <= 2 {
        year = year - 1;
        month = month + 12;
    }
    // January and February of year 0 count under year -1: four centuries are
    // lent to each dividend so that it is never negative.
    let century: i64 = (year + 400) / 100 - 4;
    let correction: i64 = 2 - century + ((century + 4) / 4 - 1);
    let year_days: i64 = (1461 * (year + 4716)) / 4;
    let month_days: i64 = (306001 * (month + 1)) / 10000;
    let day_number: i64 = year_days + month_days + (moment.day as i64) + correction - 1524;
    proof {
        lemma_formula_counts_days(*moment);
        lemma_shifted_terms(year as int, month as int);
        assert(day_number == formula_day_number(*moment));
    }
    JulianDay {
        minutes: day_number * MINUTES_PER_DAY - 720 + (moment.hour as i64) * 60 + (
        moment.minute as i64),
    }
}

/// The day-by-day count of whole years has a closed form.
pub proof fn lemma_days_before_year_closed_form(year_ad: int)
    requires
        year_ad >= 0,
    ensures
        days_before_year(year_ad) == 365 * year_ad + leap_days_through(year_ad - 1) + 1,
    decreases year_ad,
{
    if year_ad > 0 {
        lemma_days_before_year_closed_form(year_ad - 1);
    }
}

/// The Julian Day Number in closed form, as the conversion computes it.
pub proof fn lemma_day_number_closed_form(moment: CivilBirthMoment)
    requires
        moment.wf(),
    ensures
        julian_day_number(moment) == DAY_NUMBER_OF_YEAR_ZERO + 365 * moment.year_ad()
            + leap_days_through(moment.year_ad() - 1) + moment.day_of_year(),
{
    lemma_days_before_year_closed_form(moment.year_ad());
}

/// The three terms of the conversion, for a year from -1 on and a month
/// numbered 3 to 14: the quarter-day count, the century correction, and the
/// days that 30.6001 per month amount to, which are the days since 1 March
/// and 122 more.
pub proof fn lemma_shifted_terms(year: int, month: int)
    requires
        year >= -1,
        3 <= month <= 14,
    ensures
        (year + 400) / 100 - 4 == year / 100,
        ((year + 400) / 100 - 4 + 4) / 4 - 1 == year / 400,
        (1461 * (year + 4716)) / 4 == 1722519 + 365 * year + year / 4,
        month <= 12 ==> (306001 * (month + 1)) / 10000 == 63 + days_before_month(month, false),
        month >= 13 ==> (306001 * (month + 1)) / 10000 == 428 + 31 * (month - 13),
{
    lemma_days_before_month_table(false);
}

/// One more year adds one leap day exactly when it is a leap year.
pub proof fn lemma_leap_days_step(year_ad: int)
    ensures
        leap_days_through(year_ad) == leap_days_through(year_ad - 1) + if is_leap_year(year_ad) {
            1int
        } else {
            0
        },
{
}

/// Counting January and February under the year before puts the leap day
/// at the end of the counted year: from March on, the leap day of the date's
/// own year is already among the leap days counted through that year.
pub proof fn lemma_shifted_date(year_ad: int, month: int)
    requires
        year_ad >= 0,
        1 <= month <= 12,
    ensures
        month >= 3 ==> leap_days_through(year_ad) + days_before_month(month, false)
            == leap_days_through(year_ad - 1) + days_before_month(month, is_leap_year(year_ad)),
        month <= 2 ==> days_before_month(month, is_leap_year(year_ad)) == 31 * (month - 1),
{
    lemma_leap_days_step(year_ad);
    lemma_days_before_month_table(false);
    lemma_days_before_month_table(true);
}

/// The usual formula gives the day that counting gives.
pub proof fn lemma_formula_counts_days(moment: CivilBirthMoment)
    requires
        moment.wf(),
    ensures
        formula_day_number(moment) == julian_day_number(moment),
{
    let early = moment.month <= 2;
    let year = if early {
        moment.year_ad() - 1
    } else {
        moment.year_ad()
    };
    let month = if early {
        moment.month + 12
    } else {
        moment.month as int
    };
    lemma_day_number_closed_form(moment);
    lemma_shifted_terms(year, month);
    lemma_shifted_date(moment.year_ad(), moment.month as int);
}

/// Whether the first moment comes before the second on the civil calendar
/// and clock.
pub open spec fn earlier_than(first: CivilBirthMoment, second: CivilBirthMoment) -> bool {
    ||| first.year_be < second.year_be
    ||| first.year_be == second.year_be && first.month < second.month
    ||| first.year_be == second.year_be && first.month == second.month && first.day < second.day
    ||| first.year_be == second.year_be && first.month == second.month && first.day == second.day
        && first.hour < second.hour
    ||| first.year_be == second.year_be && first.month == second.month && first.day == second.day
        && first.hour == second.hour && first.minute < second.minute
}

/// Later years begin later, by at least 365 days each.
pub proof fn lemma_days_before_year_grows(earlier: int, later: int)
    requires
        0 <= earlier <= later,
    ensures
        days_before_year(later) >= days_before_year(earlier) + 365 * (later - earlier),
    decreases later - earlier,
{
    if earlier < later {
        lemma_days_before_year_grows(earlier, later - 1);
    }
}

/// The Julian Day runs with civil time: of two moments the earlier one has
/// the smaller Julian Day.
pub proof fn lemma_julian_day_monotonic(first: CivilBirthMoment, second: CivilBirthMoment)
    requires
        first.wf(),
        second.wf(),
        earlier_than(first, second),
    ensures
        julian_minutes(first) < julian_minutes(second),
{
    lemma_days_before_month_table(first.in_leap_year());
    lemma_days_before_month_table(second.in_leap_year());
    if first.year_be < second.year_be {
        lemma_days_before_year_grows(first.year_ad() + 1, second.year_ad());
    }
}

/// The time of day can be read off the Julian Day: the minutes past the
/// latest noon are the clock time moved by twelve hours.
pub proof fn lemma_julian_day_encodes_clock(moment: CivilBirthMoment)
    requires
        moment.wf(),
    ensures
        (julian_minutes(moment) + 720) % (MINUTES_PER_DAY as int) == moment.hour * 60
            + moment.minute,
{
    let clock = moment.hour * 60 + moment.minute;
    assert(julian_minutes(moment) + 720 == julian_day_number(moment) * MINUTES_PER_DAY + clock);
    vstd::arithmetic::div_mod::lemma_mod_multiples_vanish(
        julian_day_number(moment),
        clock,
        MINUTES_PER_DAY as int,
    );
}

} // verus!
