//! Bodies on mean motion with one equation-of-centre term: Saturn and the
//! Moon. The sine that the term needs is not computed here: each model hands
//! out the angle and takes the sine of it back, in billionths.

use vstd::prelude::*;
use crate::angle::{normalize360, wrap360, EclipticLongitude, FULL_CIRCLE};
use crate::fixed::{is_sine, lemma_scale_bounded, scale, scale_by};
use crate::julian::JulianDay;
use crate::mean_motion::{
    elapsed_since_epoch,
    mean_longitude,
    mean_longitude_at,
    unwrapped_longitude,
    MeanMotion,
};

verus! {

/// Saturn: 102.32° at the epoch.
pub const SATURN_BASE: i64 = 102_320_000_000;

/// Saturn advances by 0.033459° a day.
pub const SATURN_DAILY_RATE: i64 = 33_459_000;

/// Saturn's equation of centre swings by 6.58° either way.
pub const SATURN_AMPLITUDE: i64 = 6_580_000_000;

/// Saturn's anomaly is counted from 90°.
pub const SATURN_REFERENCE_ANOMALY: i64 = 90_000_000_000;

/// The Moon: 238.15° at the epoch.
pub const MOON_BASE: i64 = 238_150_000_000;

/// The Moon advances by 13.1763906° a day.
pub const MOON_DAILY_RATE: i64 = 13_176_390_600;

/// The lunar apogee: 172.42° at the epoch.
pub const APOGEE_BASE: i64 = 172_420_000_000;

/// The lunar apogee advances by 0.1114035° a day.
pub const APOGEE_DAILY_RATE: i64 = 111_403_500;

/// The Moon's equation of centre swings by 6.289° either way.
pub const MOON_AMPLITUDE: i64 = 6_289_000_000;

/// The mean motion of Saturn.
pub open spec fn saturn_motion() -> MeanMotion {
    MeanMotion { base: SATURN_BASE, daily_rate: SATURN_DAILY_RATE }
}

/// The mean motion of the Moon.
pub open spec fn moon_motion() -> MeanMotion {
    MeanMotion { base: MOON_BASE, daily_rate: MOON_DAILY_RATE }
}

/// The mean motion of the lunar apogee.
pub open spec fn apogee_motion() -> MeanMotion {
    MeanMotion { base: APOGEE_BASE, daily_rate: APOGEE_DAILY_RATE }
}

/// Saturn's mean anomaly: its mean longitude counted from the reference
/// anomaly, wrapped.
pub open spec fn saturn_anomaly(jd: JulianDay) -> int {
    wrap360(mean_longitude(saturn_motion(), jd) - SATURN_REFERENCE_ANOMALY)
}

/// Saturn's longitude: the mean longitude plus the equation of centre for
/// the given sine of the mean anomaly, wrapped.
pub open spec fn saturn_longitude(jd: JulianDay, anomaly_sine: int) -> int {
    wrap360(mean_longitude(saturn_motion(), jd) + scale_by(SATURN_AMPLITUDE as int, anomaly_sine))
}

/// The Moon's anomaly: mean Moon less mean apogee, wrapped.
pub open spec fn moon_anomaly(jd: JulianDay) -> int {
    wrap360(mean_longitude(moon_motion(), jd) - mean_longitude(apogee_motion(), jd))
}

/// The Moon's longitude: the mean longitude less the equation of centre for
/// the given sine of the anomaly, wrapped.
pub open spec fn moon_longitude(jd: JulianDay, anomaly_sine: int) -> int {
    wrap360(mean_longitude(moon_motion(), jd) - scale_by(MOON_AMPLITUDE as int, anomaly_sine))
}

/// The angle whose sine Saturn's equation of centre needs.
pub fn saturn_mean_anomaly(jd: JulianDay) -> (anomaly: EclipticLongitude)
    ensures
        anomaly.wf(),
        anomaly@ == saturn_anomaly(jd),
{
    let mean: EclipticLongitude = mean_longitude_at(
        &MeanMotion { base: SATURN_BASE, daily_rate: SATURN_DAILY_RATE },
        jd,
    );
    normalize360(mean.nanodegrees as i64 - SATURN_REFERENCE_ANOMALY)
}

/// Longitude of Saturn, given the sine of its mean anomaly in billionths.
pub fn calculate_saturn_position(jd: JulianDay, anomaly_sine: i64) -> (longitude:
    EclipticLongitude)
    requires
        is_sine(anomaly_sine as int),
    ensures
        longitude.wf(),
        longitude@ == saturn_longitude(jd, anomaly_sine as int),
{
    let mean: EclipticLongitude = mean_longitude_at(
        &MeanMotion { base: SATURN_BASE, daily_rate: SATURN_DAILY_RATE },
        jd,
    );
    let term: i64 = scale(SATURN_AMPLITUDE, anomaly_sine);
    normalize360(mean.nanodegrees as i64 + term)
}

/// The angle whose sine the Moon's equation of centre needs.
pub fn moon_mean_anomaly(jd: JulianDay) -> (anomaly: EclipticLongitude)
    ensures
        anomaly.wf(),
        anomaly@ == moon_anomaly(jd),
{
    let mean: EclipticLongitude = mean_longitude_at(
        &MeanMotion { base: MOON_BASE, daily_rate: MOON_DAILY_RATE },
        jd,
    );
    let apogee: EclipticLongitude = mean_longitude_at(
        &MeanMotion { base: APOGEE_BASE, daily_rate: APOGEE_DAILY_RATE },
        jd,
    );
    normalize360(mean.nanodegrees as i64 - apogee.nanodegrees as i64)
}

/// Longitude of the Moon, given the sine of its anomaly in billionths.
pub fn calculate_moon_position(jd: JulianDay, anomaly_sine: i64) -> (longitude: EclipticLongitude)
    requires
        is_sine(anomaly_sine as int),
    ensures
        longitude.wf(),
        longitude@ == moon_longitude(jd, anomaly_sine as int),
{
    let mean: EclipticLongitude = mean_longitude_at(
        &MeanMotion { base: MOON_BASE, daily_rate: MOON_DAILY_RATE },
        jd,
    );
    let term: i64 = scale(MOON_AMPLITUDE, anomaly_sine);
    normalize360(mean.nanodegrees as i64 - term)
}

/// Saturn before wrapping: unwrapped mean longitude plus equation of centre.
pub open spec fn saturn_unwrapped(jd: JulianDay, anomaly_sine: int) -> int {
    unwrapped_longitude(saturn_motion(), jd) + scale_by(SATURN_AMPLITUDE as int, anomaly_sine)
}

/// What is reported for Saturn is the unwrapped longitude, wrapped.
pub proof fn lemma_saturn_wraps_unwrapped(jd: JulianDay, anomaly_sine: int)
    ensures
        saturn_longitude(jd, anomaly_sine) == wrap360(saturn_unwrapped(jd, anomaly_sine)),
{
    let mean = unwrapped_longitude(saturn_motion(), jd);
    let term = scale_by(SATURN_AMPLITUDE as int, anomaly_sine);
    vstd::arithmetic::div_mod::lemma_add_mod_noop(mean, term, FULL_CIRCLE as int);
    vstd::arithmetic::div_mod::lemma_add_mod_noop(wrap360(mean), term, FULL_CIRCLE as int);
    vstd::arithmetic::div_mod::lemma_mod_twice(mean, FULL_CIRCLE as int);
}

/// Over a span of 394 days or more Saturn has advanced, whatever its
/// anomaly was at either end: the mean motion of such a span outruns twice
/// the amplitude of the equation of centre.
pub proof fn lemma_saturn_advances_over_long_spans(
    earlier: JulianDay,
    later: JulianDay,
    earlier_sine: int,
    later_sine: int,
)
    requires
        later.minutes - earlier.minutes >= 394 * 1440,
        is_sine(earlier_sine),
        is_sine(later_sine),
    ensures
        saturn_unwrapped(earlier, earlier_sine) < saturn_unwrapped(later, later_sine),
{
    lemma_scale_bounded(SATURN_AMPLITUDE as int, earlier_sine);
    lemma_scale_bounded(SATURN_AMPLITUDE as int, later_sine);
    let rate = SATURN_DAILY_RATE as int;
    let before = elapsed_since_epoch(earlier);
    let after = elapsed_since_epoch(later);
    assert(rate * after >= rate * before + 33_459_000 * 56_736_000_000) by (nonlinear_arith)
        requires
            rate == 33_459_000,
            after >= before + 56_736_000_000,
    ;
}

} // verus!
