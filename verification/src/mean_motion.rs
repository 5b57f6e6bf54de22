//! Bodies that move at a constant daily rate from a position at the epoch.

use vstd::prelude::*;
use crate::angle::{wrap360, EclipticLongitude, FULL_CIRCLE};
use crate::fixed::floor_div_rem;
use crate::julian::JulianDay;

verus! {

/// The epoch of the mean-motion models, Julian Day 2378600.45833, in
/// hundred-thousandths of a day.
pub const EPOCH_1800: i64 = 237_860_045_833;

/// Elapsed time is counted in hundred-thousandths of a minute, of which a
/// day has this many.
pub const ELAPSED_UNITS_PER_DAY: i64 = 144_000_000;

/// A body on uniform motion: its longitude at the epoch in nanodegrees and
/// its daily rate in nanodegrees, negative for retrograde motion.
#[derive(Clone, Copy, Debug, PartialEq, Eq, Structural)]
pub struct MeanMotion {
    pub base: i64,
    pub daily_rate: i64,
}

impl MeanMotion {
    /// The epoch position is a wrapped longitude, and the rate stays within
    /// one turn a day either way.
    pub open spec fn wf(&self) -> bool {
        &&& 0 <= self.base < FULL_CIRCLE
        &&& -FULL_CIRCLE <= self.daily_rate <= FULL_CIRCLE
    }

    /// Tells whether the motion is well formed.
    pub fn is_well_formed(&self) -> (valid: bool)
        ensures
            valid == self.wf(),
    {
        0 <= self.base && self.base < FULL_CIRCLE && -FULL_CIRCLE <= self.daily_rate
            && self.daily_rate <= FULL_CIRCLE
    }
}

/// Time from the epoch to a Julian Day, in hundred-thousandths of a minute.
pub open spec fn elapsed_since_epoch(jd: JulianDay) -> int {
    jd.minutes * 100_000 - EPOCH_1800 * 1440
}

/// Longitude reached by uniform motion, in nanodegrees and before wrapping:
/// the epoch position plus the rate times the elapsed days, rounded down.
pub open spec fn unwrapped_longitude(model: MeanMotion, jd: JulianDay) -> int {
    model.base + (model.daily_rate * elapsed_since_epoch(jd)) / (ELAPSED_UNITS_PER_DAY as int)
}

/// Mean longitude of a body on uniform motion, wrapped into one turn.
pub open spec fn mean_longitude(model: MeanMotion, jd: JulianDay) -> int {
    wrap360(unwrapped_longitude(model, jd))
}

/// Computes the mean longitude of a body on uniform motion.
pub fn mean_longitude_at(model: &MeanMotion, jd: JulianDay) -> (longitude: EclipticLongitude)
    requires
        model.wf(),
    ensures
        longitude.wf(),
        longitude@ == mean_longitude(*model, jd),
{
    let elapsed: i128 = (jd.minutes as i128) * 100_000 - (EPOCH_1800 as i128) * 1440;
    let rate: i128 = model.daily_rate as i128;
    assert(-0x7000_0000_0000_0000_0000_0000_0000_0000 < rate * elapsed
        < 0x7000_0000_0000_0000_0000_0000_0000_0000) by (nonlinear_arith)
        requires
            -360_000_000_000 <= rate <= 360_000_000_000,
            -1_000_000_000_000_000_000_000_000 <= elapsed <= 1_000_000_000_000_000_000_000_000,
    ;
    let travelled: (i128, i128) = floor_div_rem(rate * elapsed, ELAPSED_UNITS_PER_DAY as i128);
    let unwrapped: i128 = (model.base as i128) + travelled.0;
    let wrapped: (i128, i128) = floor_div_rem(unwrapped, FULL_CIRCLE as i128);
    EclipticLongitude { nanodegrees: wrapped.1 as u64 }
}

/// A body that advances by at least a nanodegree a minute is further along,
/// before wrapping, at every later minute.
pub proof fn lemma_prograde_motion_increases(
    model: MeanMotion,
    earlier: JulianDay,
    later: JulianDay,
)
    requires
        model.daily_rate >= 1440,
        earlier.minutes < later.minutes,
    ensures
        unwrapped_longitude(model, earlier) < unwrapped_longitude(model, later),
{
    let rate = model.daily_rate as int;
    let before = elapsed_since_epoch(earlier);
    let after = elapsed_since_epoch(later);
    assert(rate * after >= rate * before + 144_000_000) by (nonlinear_arith)
        requires
            rate >= 1440,
            after >= before + 100_000,
    ;
}

/// A body that recedes by at least a nanodegree a minute is further back,
/// before wrapping, at every later minute.
pub proof fn lemma_retrograde_motion_decreases(
    model: MeanMotion,
    earlier: JulianDay,
    later: JulianDay,
)
    requires
        model.daily_rate <= -1440,
        earlier.minutes < later.minutes,
    ensures
        unwrapped_longitude(model, later) < unwrapped_longitude(model, earlier),
{
    let rate = model.daily_rate as int;
    let before = elapsed_since_epoch(earlier);
    let after = elapsed_since_epoch(later);
    assert(rate * after <= rate * before - 144_000_000) by (nonlinear_arith)
        requires
            rate <= -1440,
            after >= before + 100_000,
    ;
}

/// The arc between two wrapped longitudes is the wrap of the difference of
/// the unwrapped ones: motion is read off wrapped positions up to whole
/// turns.
pub proof fn lemma_wrapped_arc(from: int, to: int)
    ensures
        wrap360(wrap360(to) - wrap360(from)) == wrap360(to - from),
{
    vstd::arithmetic::div_mod::lemma_sub_mod_noop(to, from, FULL_CIRCLE as int);
}

/// Rahu, the ascending lunar node: 6.78° at the epoch.
pub const RAHU_BASE: i64 = 6_780_000_000;

/// Rahu moves backwards by 0.052955° a day.
pub const RAHU_DAILY_RATE: i64 = -52_955_000;

/// Ketu of the Thai reckoning: 152.57° at the epoch.
pub const KETU_BASE: i64 = 152_570_000_000;

/// Ketu advances by 0.145° a day.
pub const KETU_DAILY_RATE: i64 = 145_000_000;

/// Uranus: 152.87° at the epoch.
pub const URANUS_BASE: i64 = 152_870_000_000;

/// Uranus advances by 0.011726° a day.
pub const URANUS_DAILY_RATE: i64 = 11_726_000;

/// The motion of Rahu.
pub open spec fn rahu_motion() -> MeanMotion {
    MeanMotion { base: RAHU_BASE, daily_rate: RAHU_DAILY_RATE }
}

/// The motion of Ketu.
pub open spec fn ketu_motion() -> MeanMotion {
    MeanMotion { base: KETU_BASE, daily_rate: KETU_DAILY_RATE }
}

/// The motion of Uranus.
pub open spec fn uranus_motion() -> MeanMotion {
    MeanMotion { base: URANUS_BASE, daily_rate: URANUS_DAILY_RATE }
}

/// Longitude of Rahu: pure mean motion, retrograde.
pub fn calculate_rahu_position(jd: JulianDay) -> (longitude: EclipticLongitude)
    ensures
        longitude.wf(),
        longitude@ == mean_longitude(rahu_motion(), jd),
{
    mean_longitude_at(&MeanMotion { base: RAHU_BASE, daily_rate: RAHU_DAILY_RATE }, jd)
}

/// Longitude of Ketu: pure mean motion.
pub fn calculate_ketu_thai_position(jd: JulianDay) -> (longitude: EclipticLongitude)
    ensures
        longitude.wf(),
        longitude@ == mean_longitude(ketu_motion(), jd),
{
    mean_longitude_at(&MeanMotion { base: KETU_BASE, daily_rate: KETU_DAILY_RATE }, jd)
}

/// Longitude of Uranus: pure mean motion.
pub fn calculate_uranus_position(jd: JulianDay) -> (longitude: EclipticLongitude)
    ensures
        longitude.wf(),
        longitude@ == mean_longitude(uranus_motion(), jd),
{
    mean_longitude_at(&MeanMotion { base: URANUS_BASE, daily_rate: URANUS_DAILY_RATE }, jd)
}

/// Rahu is retrograde: between any two instants its longitude has fallen,
/// and the arc from the later position back to the earlier one is that fall,
/// up to whole turns.
pub proof fn lemma_rahu_retrograde(earlier: JulianDay, later: JulianDay)
    requires
        earlier.minutes < later.minutes,
    ensures
        unwrapped_longitude(rahu_motion(), later) < unwrapped_longitude(rahu_motion(), earlier),
        wrap360(mean_longitude(rahu_motion(), earlier) - mean_longitude(rahu_motion(), later))
            == wrap360(
            unwrapped_longitude(rahu_motion(), earlier) - unwrapped_longitude(
                rahu_motion(),
                later,
            ),
        ),
{
    lemma_retrograde_motion_decreases(rahu_motion(), earlier, later);
    lemma_wrapped_arc(
        unwrapped_longitude(rahu_motion(), later),
        unwrapped_longitude(rahu_motion(), earlier),
    );
}

/// Ketu is prograde: between any two instants its longitude has grown, and
/// the arc from the earlier position to the later one is that growth, up to
/// whole turns.
pub proof fn lemma_ketu_prograde(earlier: JulianDay, later: JulianDay)
    requires
        earlier.minutes < later.minutes,
    ensures
        unwrapped_longitude(ketu_motion(), earlier) < unwrapped_longitude(ketu_motion(), later),
        wrap360(mean_longitude(ketu_motion(), later) - mean_longitude(ketu_motion(), earlier))
            == wrap360(
            unwrapped_longitude(ketu_motion(), later) - unwrapped_longitude(
                ketu_motion(),
                earlier,
            ),
        ),
{
    lemma_prograde_motion_increases(ketu_motion(), earlier, later);
    lemma_wrapped_arc(
        unwrapped_longitude(ketu_motion(), earlier),
        unwrapped_longitude(ketu_motion(), later),
    );
}

/// Uranus is prograde: between any two instants its longitude has grown, and
/// the arc from the earlier position to the later one is that growth, up to
/// whole turns.
pub proof fn lemma_uranus_prograde(earlier: JulianDay, later: JulianDay)
    requires
        earlier.minutes < later.minutes,
    ensures
        unwrapped_longitude(uranus_motion(), earlier) < unwrapped_longitude(
            uranus_motion(),
            later,
        ),
        wrap360(mean_longitude(uranus_motion(), later) - mean_longitude(uranus_motion(), earlier))
            == wrap360(
            unwrapped_longitude(uranus_motion(), later) - unwrapped_longitude(
                uranus_motion(),
                earlier,
            ),
        ),
{
    lemma_prograde_motion_increases(uranus_motion(), earlier, later);
    lemma_wrapped_arc(
        unwrapped_longitude(uranus_motion(), earlier),
        unwrapped_longitude(uranus_motion(), later),
    );
}

} // verus!
