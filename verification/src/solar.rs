//! The Sun's sidereal longitude by mean motion from the Songkran anchor.

use vstd::prelude::*;
use crate::angle::{EclipticLongitude, FULL_CIRCLE};
use crate::calendar::{
    day_of_year,
    days_in_year,
    leap_year,
    lemma_day_of_year_bounds,
    CivilBirthMoment,
    BUDDHIST_ERA_OFFSET,
};

verus! {

/// Mean daily motion of the Sun, 0.9856262833675565° a day, in units of
/// 10⁻¹⁶ degree.
pub const MEAN_DAILY_SOLAR_MOTION: u64 = 9_856_262_833_675_565;

/// Units of 10⁻¹⁶ degree in one nanodegree.
pub const SOLAR_MOTION_UNITS_PER_NANODEGREE: u64 = 10_000_000;

/// Day of the year on which the Sun enters Aries: 13 April, which a leap
/// day pushes from day 103 to day 104.
pub open spec fn songkran_day_of_year(leap: bool) -> int {
    if leap {
        104
    } else {
        103
    }
}

/// Days from the latest Songkran to the date: the Songkran of the date's own
/// year, or for a date before it the same day one year length earlier.
pub open spec fn days_since_songkran(moment: CivilBirthMoment) -> int {
    let elapsed = moment.day_of_year() - songkran_day_of_year(moment.in_leap_year());
    if elapsed < 0 {
        elapsed + days_in_year(moment.in_leap_year())
    } else {
        elapsed
    }
}

/// The Sun's longitude in nanodegrees: the days since Songkran at the mean
/// daily motion, rounded down. No equation of centre is applied.
pub open spec fn solar_longitude(moment: CivilBirthMoment) -> int {
    days_since_songkran(moment) * MEAN_DAILY_SOLAR_MOTION / (
    SOLAR_MOTION_UNITS_PER_NANODEGREE as int)
}

/// Counts the days from the latest Songkran to the date.
pub fn songkran_offset(moment: &CivilBirthMoment) -> (elapsed: u32)
    requires
        moment.wf(),
    ensures
        elapsed == days_since_songkran(*moment),
        elapsed < days_in_year(moment.in_leap_year()),
{
    let leap: bool = leap_year(moment.year_be - BUDDHIST_ERA_OFFSET);
    let ordinal: u32 = day_of_year(moment);
    let anchor: u32 = if leap {
        104
    } else {
        103
    };
    if ordinal < anchor {
        let year_days: u32 = if leap {
            366
        } else {
            365
        };
        ordinal + year_days - anchor
    } else {
        ordinal - anchor
    }
}

/// Estimates the Sun's sidereal longitude from the civil date alone.
pub fn estimate_solar_thai(moment: &CivilBirthMoment) -> (longitude: EclipticLongitude)
    requires
        moment.wf(),
    ensures
        longitude@ == solar_longitude(*moment),
        longitude.wf(),
{
    let elapsed: u64 = songkran_offset(moment) as u64;
    let scaled: u64 = elapsed * MEAN_DAILY_SOLAR_MOTION;
    EclipticLongitude { nanodegrees: scaled / SOLAR_MOTION_UNITS_PER_NANODEGREE }
}

/// The estimate never needs wrapping: in the longest year the Sun is still
/// short of a full turn on the eve of Songkran.
pub proof fn lemma_solar_longitude_range(moment: CivilBirthMoment)
    requires
        moment.wf(),
    ensures
        0 <= days_since_songkran(moment) <= 365,
        0 <= solar_longitude(moment) < FULL_CIRCLE,
{
    lemma_day_of_year_bounds(moment.month as int, moment.day as int, moment.in_leap_year());
}

/// On Songkran itself the Sun stands at 0° Aries.
pub proof fn lemma_songkran_is_aries_zero(moment: CivilBirthMoment)
    requires
        moment.wf(),
        moment.month == 4,
        moment.day == 13,
    ensures
        solar_longitude(moment) == 0,
{
    crate::calendar::lemma_days_before_month_table(moment.in_leap_year());
}

} // verus!
