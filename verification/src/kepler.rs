//! Planets on Keplerian orbits, seen from the Earth.
//!
//! The orbital elements of the Earth and of the planet are polynomials in the
//! Julian centuries since the model's epoch. From them follow the two
//! heliocentric positions, their difference as seen from the Earth, and the
//! corrections of the longitude. Sines, cosines and the bearing of the
//! geocentric vector are not computed here: the model hands out each angle and
//! takes its sine or cosine back in billionths, in two rounds, and then takes
//! the bearing of the vector that it hands out.
//!
//! Angles count nanodegrees, eccentricities count trillionths, distances
//! count trillionths of an astronomical unit.

use vstd::prelude::*;
use crate::angle::{normalize360, wrap360, EclipticLongitude, FULL_CIRCLE};
use crate::fixed::{
    floor_div_rem,
    is_sine,
    lemma_quotient_bounded,
    lemma_scale_bounded,
    magnitude,
    scale,
    scale_by,
    sine_in_range,
};
use crate::julian::JulianDay;

verus! {

/// Elapsed time is counted in hundred-thousandths of a minute, of which a
/// Julian century of 36525 days has this many.
pub const CENTURY: i128 = 5_259_600_000_000;

/// The square of `CENTURY`.
pub const CENTURY_SQUARED: i128 = 27_663_392_160_000_000_000_000_000;

/// The models serve a thousand centuries either side of their epoch.
pub const WINDOW: i128 = 5_259_600_000_000_000;

/// Largest size of a polynomial's constant.
pub const CONSTANT_LIMIT: i64 = 1_000_000_000_000;

/// Largest size of a polynomial's coefficient per century.
pub const LINEAR_LIMIT: i64 = 1_000_000_000_000_000;

/// Largest size of a polynomial's coefficient per century squared.
pub const QUADRATIC_LIMIT: i64 = 1_000_000;

/// An orbital element as a polynomial in Julian centuries: its value at the
/// epoch, its change per century and its change per century squared.
#[derive(Clone, Copy, Debug)]
pub struct Polynomial {
    pub constant: i64,
    pub linear: i64,
    pub quadratic: i64,
}

impl Polynomial {
    /// The coefficients are small enough for exact arithmetic over the
    /// window.
    pub open spec fn wf(&self) -> bool {
        &&& -CONSTANT_LIMIT <= self.constant <= CONSTANT_LIMIT
        &&& -LINEAR_LIMIT <= self.linear <= LINEAR_LIMIT
        &&& -QUADRATIC_LIMIT <= self.quadratic <= QUADRATIC_LIMIT
    }

    /// The value after `elapsed` hundred-thousandths of a minute, each term
    /// rounded down.
    pub open spec fn value(&self, elapsed: int) -> int {
        self.constant + (self.linear * elapsed) / (CENTURY as int) + (self.quadratic * elapsed
            * elapsed) / (CENTURY_SQUARED as int)
    }

    /// A bound on the size of the value anywhere in the window.
    pub open spec fn reach(&self) -> int {
        magnitude(self.constant as int) + 1000 * magnitude(self.linear as int) + 1_000_000
            * magnitude(self.quadratic as int) + 2
    }

    /// Tells whether the coefficients are within their limits.
    pub fn is_well_formed(&self) -> (valid: bool)
        ensures
            valid == self.wf(),
    {
        -CONSTANT_LIMIT <= self.constant && self.constant <= CONSTANT_LIMIT && -LINEAR_LIMIT
            <= self.linear && self.linear <= LINEAR_LIMIT && -QUADRATIC_LIMIT <= self.quadratic
            && self.quadratic <= QUADRATIC_LIMIT
    }

    /// Computes the reach of a well-formed polynomial.
    pub fn reach_of(&self) -> (reach: i64)
        requires
            self.wf(),
        ensures
            reach == self.reach(),
    {
        size_of(self.constant) + 1000 * size_of(self.linear) + 1_000_000 * size_of(self.quadratic)
            + 2
    }
}

/// The size of a quantity without its sign.
fn size_of(value: i64) -> (size: i64)
    requires
        value > i64::MIN,
    ensures
        size == magnitude(value as int),
{
    if value < 0 {
        -value
    } else {
        value
    }
}

/// Whether an elapsed time lies in the window that the models serve.
pub open spec fn in_window(elapsed: int) -> bool {
    -WINDOW <= elapsed <= WINDOW
}

/// Time from an epoch, given in millionths of a day, to a Julian Day, in
/// hundred-thousandths of a minute.
pub open spec fn elapsed_from(epoch: int, jd: JulianDay) -> int {
    jd.minutes * 100_000 - epoch * 144
}

/// Within the window a polynomial stays within its reach.
pub proof fn lemma_polynomial_reach(polynomial: Polynomial, elapsed: int)
    requires
        polynomial.wf(),
        in_window(elapsed),
    ensures
        -polynomial.reach() <= polynomial.value(elapsed) <= polynomial.reach(),
        polynomial.reach() <= 1_000_002_000_000_000_002,
        -5_259_600_000_000_000_000_000_000_000_000 <= polynomial.linear * elapsed
            <= 5_259_600_000_000_000_000_000_000_000_000,
        0 <= elapsed * elapsed <= 27_663_392_160_000_000_000_000_000_000_000,
        -27_663_392_160_000_000_000_000_000_000_000_000_000 <= polynomial.quadratic * elapsed
            * elapsed <= 27_663_392_160_000_000_000_000_000_000_000_000_000,
{
    let c1 = polynomial.linear as int;
    let c2 = polynomial.quadratic as int;
    let m1 = magnitude(c1);
    let m2 = magnitude(c2);
    let square = elapsed * elapsed;
    assert(-m1 * 5_259_600_000_000_000 <= c1 * elapsed <= m1 * 5_259_600_000_000_000)
        by (nonlinear_arith)
        requires
            -m1 <= c1 <= m1,
            -5_259_600_000_000_000 <= elapsed <= 5_259_600_000_000_000,
    ;
    assert(0 <= square <= 27_663_392_160_000_000_000_000_000_000_000) by (nonlinear_arith)
        requires
            square == elapsed * elapsed,
            -5_259_600_000_000_000 <= elapsed <= 5_259_600_000_000_000,
    ;
    assert(c2 * elapsed * elapsed == c2 * square) by (nonlinear_arith)
        requires
            square == elapsed * elapsed,
    ;
    assert(-m2 * 27_663_392_160_000_000_000_000_000_000_000 <= c2 * square <= m2
        * 27_663_392_160_000_000_000_000_000_000_000) by (nonlinear_arith)
        requires
            -m2 <= c2 <= m2,
            0 <= square <= 27_663_392_160_000_000_000_000_000_000_000,
    ;
}

/// Evaluates a polynomial at an elapsed time in the window.
pub fn evaluate(polynomial: &Polynomial, elapsed: i128) -> (value: i64)
    requires
        polynomial.wf(),
        in_window(elapsed as int),
    ensures
        value == polynomial.value(elapsed as int),
        -polynomial.reach() <= value <= polynomial.reach(),
{
    proof {
        lemma_polynomial_reach(*polynomial, elapsed as int);
    }
    let first: (i128, i128) = floor_div_rem((polynomial.linear as i128) * elapsed, CENTURY);
    let square: i128 = elapsed * elapsed;
    assert((polynomial.quadratic as int) * (elapsed as int) * (elapsed as int)
        == (polynomial.quadratic as int) * (square as int)) by (nonlinear_arith)
        requires
            square == elapsed * elapsed,
    ;
    let second: (i128, i128) = floor_div_rem(
        (polynomial.quadratic as i128) * square,
        CENTURY_SQUARED,
    );
    ((polynomial.constant as i128) + first.0 + second.0) as i64
}

/// Harmonics of the mean anomaly that an equation of centre may use.
pub const HARMONICS: usize = 8;

/// Perturbation terms that a model carries.
pub const PERTURBATIONS: usize = 3;

/// Largest eccentricity that a model may reach in the window, a half, in
/// trillionths.
pub const ECCENTRICITY_LIMIT: i64 = 500_000_000_000;

/// Largest semi-major axis, a hundred astronomical units.
pub const AXIS_LIMIT: i64 = 100_000_000_000_000;

/// Largest multiple of a mean longitude in the argument of a perturbation.
pub const MULTIPLE_LIMIT: i64 = 16;

/// The orbit of one body round the Sun.
#[derive(Clone, Copy, Debug)]
pub struct Orbit {
    /// Mean longitude, in nanodegrees.
    pub mean_longitude: Polynomial,
    /// Longitude of the perihelion, in nanodegrees.
    pub perihelion: Polynomial,
    /// Longitude of the ascending node, in nanodegrees.
    pub node: Polynomial,
    /// Inclination to the ecliptic, in nanodegrees.
    pub inclination: Polynomial,
    /// Eccentricity, in trillionths.
    pub eccentricity: Polynomial,
    /// Equation of centre: the amplitude in nanodegrees of the sine of each
    /// multiple of the mean anomaly, the single anomaly first.
    pub centre: [i64; 8],
    /// Semi-major axis, in trillionths of an astronomical unit.
    pub semi_major_axis: i64,
}

impl Orbit {
    /// The elements can be evaluated over the window, the eccentricity stays
    /// below a half there, and the axis is positive.
    pub open spec fn wf(&self) -> bool {
        &&& self.mean_longitude.wf()
        &&& self.perihelion.wf()
        &&& self.node.wf()
        &&& self.inclination.wf()
        &&& self.eccentricity.wf()
        &&& self.eccentricity.reach() <= ECCENTRICITY_LIMIT
        &&& forall|k: int| 0 <= k < HARMONICS ==> -FULL_CIRCLE <= #[trigger] self.centre[k] <= FULL_CIRCLE
        &&& 0 < self.semi_major_axis <= AXIS_LIMIT
    }

    /// Tells whether the orbit is well formed.
    pub fn is_well_formed(&self) -> (valid: bool)
        ensures
            valid == self.wf(),
    {
        if !self.mean_longitude.is_well_formed() || !self.perihelion.is_well_formed()
            || !self.node.is_well_formed() || !self.inclination.is_well_formed()
            || !self.eccentricity.is_well_formed() {
            return false;
        }
        if self.eccentricity.reach_of() > ECCENTRICITY_LIMIT {
            return false;
        }
        let mut k: usize = 0;
        while k < 8
            invariant
                0 <= k <= 8,
                forall|i: int| 0 <= i < k ==> -FULL_CIRCLE <= #[trigger] self.centre[i] <= FULL_CIRCLE,
            decreases 8 - k,
        {
            if self.centre[k] < -FULL_CIRCLE || self.centre[k] > FULL_CIRCLE {
                return false;
            }
            k = k + 1;
        }
        0 < self.semi_major_axis && self.semi_major_axis <= AXIS_LIMIT
    }
}

/// One periodic correction of the geocentric longitude: an amplitude times
/// the sine of an argument, which is a phase plus whole multiples of the mean
/// longitudes of another planet, of the Earth and of the body itself.
#[derive(Clone, Copy, Debug)]
pub struct Perturbation {
    /// Amplitude, in nanodegrees.
    pub amplitude: i64,
    /// Mean longitude of the perturbing planet, in nanodegrees.
    pub other: Polynomial,
    pub other_multiple: i64,
    pub earth_multiple: i64,
    pub body_multiple: i64,
    /// Phase, in nanodegrees.
    pub phase: i64,
}

impl Perturbation {
    /// Amplitude and phase are within a turn and the multiples are small.
    pub open spec fn wf(&self) -> bool {
        &&& -FULL_CIRCLE <= self.amplitude <= FULL_CIRCLE
        &&& self.other.wf()
        &&& -MULTIPLE_LIMIT <= self.other_multiple <= MULTIPLE_LIMIT
        &&& -MULTIPLE_LIMIT <= self.earth_multiple <= MULTIPLE_LIMIT
        &&& -MULTIPLE_LIMIT <= self.body_multiple <= MULTIPLE_LIMIT
        &&& -FULL_CIRCLE <= self.phase <= FULL_CIRCLE
    }

    /// Tells whether the term is well formed.
    pub fn is_well_formed(&self) -> (valid: bool)
        ensures
            valid == self.wf(),
    {
        -FULL_CIRCLE <= self.amplitude && self.amplitude <= FULL_CIRCLE
            && self.other.is_well_formed() && -MULTIPLE_LIMIT <= self.other_multiple
            && self.other_multiple <= MULTIPLE_LIMIT && -MULTIPLE_LIMIT <= self.earth_multiple
            && self.earth_multiple <= MULTIPLE_LIMIT && -MULTIPLE_LIMIT <= self.body_multiple
            && self.body_multiple <= MULTIPLE_LIMIT && -FULL_CIRCLE <= self.phase && self.phase
            <= FULL_CIRCLE
    }
}

/// A planet's model: the epoch, the orbits of the Earth and of the planet,
/// the law of the radius, and the corrections of the longitude.
#[derive(Clone, Copy, Debug)]
pub struct KeplerModel {
    /// The epoch as a Julian Day, in millionths of a day.
    pub epoch: i64,
    pub earth: Orbit,
    pub body: Orbit,
    /// Whether the radius follows the ellipse equation,
    /// `a (1 - e^2) / (1 + e cos M)`, or its first-order form `a (1 - e cos M)`.
    pub conic_radius: bool,
    pub perturbations: [Perturbation; 3],
    /// Constant part of the nutation correction, in nanodegrees.
    pub nutation_constant: i64,
    /// Amplitude of the nutation correction, in nanodegrees.
    pub nutation_amplitude: i64,
    /// Longitude of the Moon's ascending node, the argument of nutation.
    pub nutation_argument: Polynomial,
}

impl KeplerModel {
    /// Every part of the model is well formed.
    pub open spec fn wf(&self) -> bool {
        &&& 0 <= self.epoch <= 10_000_000_000_000
        &&& self.earth.wf()
        &&& self.body.wf()
        &&& forall|j: int| 0 <= j < PERTURBATIONS ==> (#[trigger] self.perturbations[j]).wf()
        &&& -FULL_CIRCLE <= self.nutation_constant <= FULL_CIRCLE
        &&& -FULL_CIRCLE <= self.nutation_amplitude <= FULL_CIRCLE
        &&& self.nutation_argument.wf()
    }

    /// Tells whether every part of the model is well formed.
    pub fn is_well_formed(&self) -> (valid: bool)
        ensures
            valid == self.wf(),
    {
        0 <= self.epoch && self.epoch <= 10_000_000_000_000 && self.earth.is_well_formed()
            && self.body.is_well_formed() && self.perturbations[0].is_well_formed()
            && self.perturbations[1].is_well_formed() && self.perturbations[2].is_well_formed()
            && -FULL_CIRCLE <= self.nutation_constant && self.nutation_constant <= FULL_CIRCLE
            && -FULL_CIRCLE <= self.nutation_amplitude && self.nutation_amplitude <= FULL_CIRCLE
            && self.nutation_argument.is_well_formed()
    }

    /// Time from the model's epoch to a Julian Day.
    pub open spec fn elapsed(&self, jd: JulianDay) -> int {
        elapsed_from(self.epoch as int, jd)
    }

    /// Whether the model serves a Julian Day.
    pub open spec fn covers(&self, jd: JulianDay) -> bool {
        in_window(self.elapsed(jd))
    }

    /// Mean longitude of the Earth, wrapped.
    pub open spec fn earth_longitude(&self, jd: JulianDay) -> int {
        wrap360(self.earth.mean_longitude.value(self.elapsed(jd)))
    }

    /// Mean anomaly of the Earth: mean longitude less perihelion, wrapped.
    pub open spec fn earth_anomaly(&self, jd: JulianDay) -> int {
        wrap360(self.earth_longitude(jd) - wrap360(self.earth.perihelion.value(self.elapsed(jd))))
    }

    /// Mean longitude of the body, wrapped.
    pub open spec fn body_longitude(&self, jd: JulianDay) -> int {
        wrap360(self.body.mean_longitude.value(self.elapsed(jd)))
    }

    /// Mean anomaly of the body: mean longitude less perihelion, wrapped.
    pub open spec fn body_anomaly(&self, jd: JulianDay) -> int {
        wrap360(self.body_longitude(jd) - wrap360(self.body.perihelion.value(self.elapsed(jd))))
    }

    /// Longitude of the body's ascending node, wrapped.
    pub open spec fn node_longitude(&self, jd: JulianDay) -> int {
        wrap360(self.body.node.value(self.elapsed(jd)))
    }

    /// Inclination of the body's orbit, wrapped.
    pub open spec fn inclination(&self, jd: JulianDay) -> int {
        wrap360(self.body.inclination.value(self.elapsed(jd)))
    }

    /// Argument of the perturbation numbered `index`, wrapped.
    pub open spec fn perturbation_argument(&self, jd: JulianDay, index: int) -> int {
        let term = self.perturbations[index];
        wrap360(
            term.other_multiple * wrap360(term.other.value(self.elapsed(jd))) + term.earth_multiple
                * self.earth_longitude(jd) + term.body_multiple * self.body_longitude(jd)
                + term.phase,
        )
    }

    /// Argument of the nutation correction, wrapped.
    pub open spec fn nutation_angle(&self, jd: JulianDay) -> int {
        wrap360(self.nutation_argument.value(self.elapsed(jd)))
    }

    /// True longitude of the Earth: mean longitude plus equation of centre,
    /// wrapped.
    pub open spec fn earth_true_longitude(&self, jd: JulianDay, trig: AnomalyTrig) -> int {
        wrap360(self.earth_longitude(jd) + centre_sum(self.earth.centre, trig.earth_sines))
    }

    /// Argument of latitude of the body: its true longitude counted from the
    /// ascending node, wrapped.
    pub open spec fn argument_of_latitude(&self, jd: JulianDay, trig: AnomalyTrig) -> int {
        wrap360(
            self.body_longitude(jd) + centre_sum(self.body.centre, trig.body_sines)
                - self.node_longitude(jd),
        )
    }

    /// True longitude of the body round the Sun before wrapping: the mean
    /// longitude as its polynomial gives it, plus the equation of centre.
    pub open spec fn heliocentric_longitude(&self, jd: JulianDay, trig: AnomalyTrig) -> int {
        self.body.mean_longitude.value(self.elapsed(jd)) + centre_sum(
            self.body.centre,
            trig.body_sines,
        )
    }

    /// Distance of the Earth from the Sun.
    pub open spec fn earth_radius(&self, jd: JulianDay, trig: AnomalyTrig) -> int {
        radius(
            self.conic_radius,
            self.earth.semi_major_axis as int,
            self.earth.eccentricity.value(self.elapsed(jd)),
            trig.earth_cosine as int,
        )
    }

    /// Distance of the body from the Sun.
    pub open spec fn body_radius(&self, jd: JulianDay, trig: AnomalyTrig) -> int {
        radius(
            self.conic_radius,
            self.body.semi_major_axis as int,
            self.body.eccentricity.value(self.elapsed(jd)),
            trig.body_cosine as int,
        )
    }

    /// The body as seen from the Earth, projected on the ecliptic: the
    /// body's heliocentric place, turned from its orbital plane into the
    /// ecliptic by inclination and node, less the Earth's.
    pub open spec fn geocentric(&self, jd: JulianDay, trig: AnomalyTrig, places: TrueTrig)
        -> GeocentricVector {
        let distance = self.body_radius(jd, trig);
        let along = scale_by(distance, places.body_cosine as int);
        let across = scale_by(
            scale_by(distance, places.body_sine as int),
            trig.inclination_cosine as int,
        );
        let sun = self.earth_radius(jd, trig);
        GeocentricVector {
            x: (scale_by(along, trig.node_cosine as int) - scale_by(across, trig.node_sine as int)
                - scale_by(sun, places.earth_cosine as int)) as i64,
            y: (scale_by(along, trig.node_sine as int) + scale_by(across, trig.node_cosine as int)
                - scale_by(sun, places.earth_sine as int)) as i64,
        }
    }

    /// What is added to the bearing of the geocentric vector: the
    /// perturbations and the nutation.
    pub open spec fn corrections(&self, trig: AnomalyTrig) -> int {
        scale_by(self.perturbations[0].amplitude as int, trig.perturbation_sines[0] as int)
            + scale_by(self.perturbations[1].amplitude as int, trig.perturbation_sines[1] as int)
            + scale_by(self.perturbations[2].amplitude as int, trig.perturbation_sines[2] as int)
            + self.nutation_constant + scale_by(
            self.nutation_amplitude as int,
            trig.nutation_sine as int,
        )
    }

    /// Geocentric longitude: the bearing of the geocentric vector with the
    /// corrections, wrapped.
    pub open spec fn longitude(&self, trig: AnomalyTrig, bearing: int) -> int {
        wrap360(bearing + self.corrections(trig))
    }
}

/// An equation of centre: each harmonic's amplitude times its sine, the
/// terms rounded down one by one and added up.
pub open spec fn centre_sum(centre: [i64; 8], sines: [i64; 8]) -> int {
    scale_by(centre[0] as int, sines[0] as int) + scale_by(centre[1] as int, sines[1] as int)
        + scale_by(centre[2] as int, sines[2] as int) + scale_by(centre[3] as int, sines[3] as int)
        + scale_by(centre[4] as int, sines[4] as int) + scale_by(centre[5] as int, sines[5] as int)
        + scale_by(centre[6] as int, sines[6] as int) + scale_by(centre[7] as int, sines[7] as int)
}

/// Distance from the Sun on an orbit of semi-major axis `axis` and the given
/// eccentricity, where the mean anomaly has the given cosine; rounded down. By
/// the ellipse equation it is `a (1 - e^2) / (1 + e cos M)`, to first order in
/// the eccentricity `a (1 - e cos M)`.
pub open spec fn radius(conic: bool, axis: int, eccentricity: int, cosine: int) -> int {
    if conic {
        (axis * (1_000_000_000_000_000_000_000_000 - eccentricity * eccentricity)) / (1000 * (
        1_000_000_000_000_000_000_000 + eccentricity * cosine))
    } else {
        (axis * (1_000_000_000_000_000_000_000 - eccentricity * cosine))
            / 1_000_000_000_000_000_000_000
    }
}

/// The angles of the second round: what the equations of centre determine.
#[derive(Clone, Copy, Debug)]
pub struct TrueAngles {
    /// True longitude of the Earth.
    pub earth: EclipticLongitude,
    /// Argument of latitude of the body.
    pub body: EclipticLongitude,
}

/// Sines and cosines of the angles of the second round, in billionths.
#[derive(Clone, Copy, Debug)]
pub struct TrueTrig {
    pub earth_sine: i64,
    pub earth_cosine: i64,
    pub body_sine: i64,
    pub body_cosine: i64,
}

impl TrueTrig {
    /// Every entry lies between minus one and one.
    pub open spec fn wf(&self) -> bool {
        &&& is_sine(self.earth_sine as int)
        &&& is_sine(self.earth_cosine as int)
        &&& is_sine(self.body_sine as int)
        &&& is_sine(self.body_cosine as int)
    }

    /// Tells whether every entry lies between minus one and one.
    pub fn is_well_formed(&self) -> (valid: bool)
        ensures
            valid == self.wf(),
    {
        sine_in_range(self.earth_sine) && sine_in_range(self.earth_cosine) && sine_in_range(
            self.body_sine,
        ) && sine_in_range(self.body_cosine)
    }
}

/// The body as seen from the Earth, projected on the ecliptic, in
/// trillionths of an astronomical unit: `x` towards 0°, `y` towards 90°.
#[derive(Clone, Copy, Debug, PartialEq, Eq, Structural)]
pub struct GeocentricVector {
    pub x: i64,
    pub y: i64,
}

/// The multiple of an anomaly whose sine the harmonic numbered `index`
/// needs, the single anomaly being number 0; wrapped.
pub open spec fn harmonic(anomaly: int, index: int) -> int {
    wrap360((index + 1) * anomaly)
}

/// The angles of the first round: what the elements alone determine.
#[derive(Clone, Copy, Debug)]
pub struct AnomalyAngles {
    /// Multiples of the Earth's mean anomaly, the single anomaly first.
    pub earth: [EclipticLongitude; 8],
    /// Multiples of the body's mean anomaly, the single anomaly first.
    pub body: [EclipticLongitude; 8],
    pub node: EclipticLongitude,
    pub inclination: EclipticLongitude,
    /// Arguments of the perturbations.
    pub perturbations: [EclipticLongitude; 3],
    /// Argument of the nutation.
    pub nutation: EclipticLongitude,
}

/// Sines and cosines of the angles of the first round, in billionths.
#[derive(Clone, Copy, Debug)]
pub struct AnomalyTrig {
    /// Sines of `AnomalyAngles::earth`, one for one.
    pub earth_sines: [i64; 8],
    /// Cosine of the Earth's mean anomaly.
    pub earth_cosine: i64,
    /// Sines of `AnomalyAngles::body`, one for one.
    pub body_sines: [i64; 8],
    /// Cosine of the body's mean anomaly.
    pub body_cosine: i64,
    pub node_sine: i64,
    pub node_cosine: i64,
    pub inclination_cosine: i64,
    /// Sines of `AnomalyAngles::perturbations`, one for one.
    pub perturbation_sines: [i64; 3],
    pub nutation_sine: i64,
}

impl AnomalyTrig {
    /// Every entry lies between minus one and one.
    pub open spec fn wf(&self) -> bool {
        &&& forall|k: int| 0 <= k < HARMONICS ==> is_sine(#[trigger] self.earth_sines[k] as int)
        &&& is_sine(self.earth_cosine as int)
        &&& forall|k: int| 0 <= k < HARMONICS ==> is_sine(#[trigger] self.body_sines[k] as int)
        &&& is_sine(self.body_cosine as int)
        &&& is_sine(self.node_sine as int)
        &&& is_sine(self.node_cosine as int)
        &&& is_sine(self.inclination_cosine as int)
        &&& forall|j: int|
            0 <= j < PERTURBATIONS ==> is_sine(#[trigger] self.perturbation_sines[j] as int)
        &&& is_sine(self.nutation_sine as int)
    }

    /// Tells whether every entry lies between minus one and one.
    pub fn is_well_formed(&self) -> (valid: bool)
        ensures
            valid == self.wf(),
    {
        let mut k: usize = 0;
        while k < 8
            invariant
                0 <= k <= 8,
                forall|i: int| 0 <= i < k ==> is_sine(#[trigger] self.earth_sines[i] as int),
                forall|i: int| 0 <= i < k ==> is_sine(#[trigger] self.body_sines[i] as int),
            decreases 8 - k,
        {
            if !sine_in_range(self.earth_sines[k]) || !sine_in_range(self.body_sines[k]) {
                return false;
            }
            k = k + 1;
        }
        if !sine_in_range(self.perturbation_sines[0]) || !sine_in_range(
            self.perturbation_sines[1],
        ) || !sine_in_range(self.perturbation_sines[2]) {
            return false;
        }
        sine_in_range(self.earth_cosine) && sine_in_range(self.body_cosine) && sine_in_range(
            self.node_sine,
        ) && sine_in_range(self.node_cosine) && sine_in_range(self.inclination_cosine)
            && sine_in_range(self.nutation_sine)
    }
}

/// Time from a model's epoch to a Julian Day.
pub fn elapsed_since(model: &KeplerModel, jd: JulianDay) -> (elapsed: i128)
    requires
        model.wf(),
    ensures
        elapsed == model.elapsed(jd),
{
    (jd.minutes as i128) * 100_000 - (model.epoch as i128) * 144
}

/// Tells whether a model serves a Julian Day.
pub fn covers(model: &KeplerModel, jd: JulianDay) -> (served: bool)
    requires
        model.wf(),
    ensures
        served == model.covers(jd),
{
    let elapsed: i128 = elapsed_since(model, jd);
    -WINDOW <= elapsed && elapsed <= WINDOW
}

/// Evaluates an angle and wraps it.
fn wrapped(polynomial: &Polynomial, elapsed: i128) -> (angle: EclipticLongitude)
    requires
        polynomial.wf(),
        in_window(elapsed as int),
    ensures
        angle.wf(),
        angle@ == wrap360(polynomial.value(elapsed as int)),
{
    normalize360(evaluate(polynomial, elapsed))
}

/// Lists the multiples of an anomaly.
fn harmonics(anomaly: EclipticLongitude) -> (multiples: [EclipticLongitude; 8])
    requires
        anomaly.wf(),
    ensures
        forall|k: int|
            0 <= k < HARMONICS ==> (#[trigger] multiples[k]).wf() && multiples[k]@ == harmonic(
                anomaly@,
                k,
            ),
{
    let single: i64 = anomaly.nanodegrees as i64;
    let multiples: [EclipticLongitude; 8] = [
        normalize360(single),
        normalize360(2 * single),
        normalize360(3 * single),
        normalize360(4 * single),
        normalize360(5 * single),
        normalize360(6 * single),
        normalize360(7 * single),
        normalize360(8 * single),
    ];
    proof {
        assert forall|k: int| 0 <= k < HARMONICS implies (#[trigger] multiples[k]).wf()
            && multiples[k]@ == harmonic(anomaly@, k) by {
            assert((k + 1) * anomaly@ == k * single + single) by (nonlinear_arith)
                requires
                    anomaly@ == single,
            ;
            if k == 0 {
            } else if k == 1 {
            } else if k == 2 {
            } else if k == 3 {
            } else if k == 4 {
            } else if k == 5 {
            } else if k == 6 {
            } else {
                assert(k == 7);
            }
        }
    }
    multiples
}

/// Computes the argument of one perturbation.
fn perturbation_angle(
    term: &Perturbation,
    elapsed: i128,
    earth: EclipticLongitude,
    body: EclipticLongitude,
) -> (angle: EclipticLongitude)
    requires
        term.wf(),
        in_window(elapsed as int),
        earth.wf(),
        body.wf(),
    ensures
        angle.wf(),
        angle@ == wrap360(
            term.other_multiple * wrap360(term.other.value(elapsed as int)) + term.earth_multiple
                * earth@ + term.body_multiple * body@ + term.phase,
        ),
{
    let other: EclipticLongitude = wrapped(&term.other, elapsed);
    let from_other: i64 = multiple_of(term.other_multiple, other);
    let from_earth: i64 = multiple_of(term.earth_multiple, earth);
    let from_body: i64 = multiple_of(term.body_multiple, body);
    normalize360(from_other + from_earth + from_body + term.phase)
}

/// A small whole multiple of a wrapped angle.
fn multiple_of(multiple: i64, angle: EclipticLongitude) -> (product: i64)
    requires
        -MULTIPLE_LIMIT <= multiple <= MULTIPLE_LIMIT,
        angle.wf(),
    ensures
        product == multiple * angle@,
        -16 * FULL_CIRCLE <= product <= 16 * FULL_CIRCLE,
{
    let a: i64 = angle.nanodegrees as i64;
    assert(-16 * 360_000_000_000 <= multiple * a <= 16 * 360_000_000_000) by (nonlinear_arith)
        requires
            -16 <= multiple <= 16,
            0 <= a < 360_000_000_000,
    ;
    multiple * a
}

/// First round: the angles that follow from the elements alone, whose sines
/// and cosines the later rounds need.
pub fn anomaly_angles(model: &KeplerModel, jd: JulianDay) -> (angles: AnomalyAngles)
    requires
        model.wf(),
        model.covers(jd),
    ensures
        forall|k: int|
            0 <= k < HARMONICS ==> (#[trigger] angles.earth[k]).wf() && angles.earth[k]@
                == harmonic(model.earth_anomaly(jd), k),
        forall|k: int|
            0 <= k < HARMONICS ==> (#[trigger] angles.body[k]).wf() && angles.body[k]@
                == harmonic(model.body_anomaly(jd), k),
        angles.node.wf(),
        angles.node@ == model.node_longitude(jd),
        angles.inclination.wf(),
        angles.inclination@ == model.inclination(jd),
        forall|j: int|
            0 <= j < PERTURBATIONS ==> (#[trigger] angles.perturbations[j]).wf()
                && angles.perturbations[j]@ == model.perturbation_argument(jd, j),
        angles.nutation.wf(),
        angles.nutation@ == model.nutation_angle(jd),
{
    let elapsed: i128 = elapsed_since(model, jd);
    let earth: EclipticLongitude = wrapped(&model.earth.mean_longitude, elapsed);
    let earth_perihelion: EclipticLongitude = wrapped(&model.earth.perihelion, elapsed);
    let earth_anomaly: EclipticLongitude = normalize360(
        earth.nanodegrees as i64 - earth_perihelion.nanodegrees as i64,
    );
    let body: EclipticLongitude = wrapped(&model.body.mean_longitude, elapsed);
    let body_perihelion: EclipticLongitude = wrapped(&model.body.perihelion, elapsed);
    let body_anomaly: EclipticLongitude = normalize360(
        body.nanodegrees as i64 - body_perihelion.nanodegrees as i64,
    );
    assert(model.perturbations[0].wf() && model.perturbations[1].wf()
        && model.perturbations[2].wf());
    AnomalyAngles {
        earth: harmonics(earth_anomaly),
        body: harmonics(body_anomaly),
        node: wrapped(&model.body.node, elapsed),
        inclination: wrapped(&model.body.inclination, elapsed),
        perturbations: [
            perturbation_angle(&model.perturbations[0], elapsed, earth, body),
            perturbation_angle(&model.perturbations[1], elapsed, earth, body),
            perturbation_angle(&model.perturbations[2], elapsed, earth, body),
        ],
        nutation: wrapped(&model.nutation_argument, elapsed),
    }
}

/// Adds up an equation of centre.
fn centre_of(centre: &[i64; 8], sines: &[i64; 8]) -> (sum: i64)
    requires
        forall|k: int| 0 <= k < HARMONICS ==> -FULL_CIRCLE <= #[trigger] centre[k] <= FULL_CIRCLE,
        forall|k: int| 0 <= k < HARMONICS ==> is_sine(#[trigger] sines[k] as int),
    ensures
        sum == centre_sum(*centre, *sines),
        -8 * FULL_CIRCLE <= sum <= 8 * FULL_CIRCLE,
{
    let mut sum: i64 = 0;
    let mut k: usize = 0;
    while k < 8
        invariant
            0 <= k <= 8,
            forall|i: int| 0 <= i < HARMONICS ==> -FULL_CIRCLE <= #[trigger] centre[i] <= FULL_CIRCLE,
            forall|i: int| 0 <= i < HARMONICS ==> is_sine(#[trigger] sines[i] as int),
            -k * FULL_CIRCLE <= sum <= k * FULL_CIRCLE,
            sum == partial_centre(*centre, *sines, k as int),
        decreases 8 - k,
    {
        let term: i64 = scale(centre[k], sines[k]);
        sum = sum + term;
        k = k + 1;
    }
    proof {
        reveal_with_fuel(partial_centre, 9);
    }
    sum
}

/// The first `count` terms of an equation of centre.
pub open spec fn partial_centre(centre: [i64; 8], sines: [i64; 8], count: int) -> int
    decreases count,
{
    if count <= 0 {
        0
    } else {
        partial_centre(centre, sines, count - 1) + scale_by(
            centre[count - 1] as int,
            sines[count - 1] as int,
        )
    }
}

/// Second round: the true longitude of the Earth and the argument of
/// latitude of the body, whose sines and cosines place the two on their orbits.
pub fn true_angles(model: &KeplerModel, jd: JulianDay, trig: &AnomalyTrig) -> (angles: TrueAngles)
    requires
        model.wf(),
        model.covers(jd),
        trig.wf(),
    ensures
        angles.earth.wf(),
        angles.earth@ == model.earth_true_longitude(jd, *trig),
        angles.body.wf(),
        angles.body@ == model.argument_of_latitude(jd, *trig),
{
    let elapsed: i128 = elapsed_since(model, jd);
    let earth: EclipticLongitude = wrapped(&model.earth.mean_longitude, elapsed);
    let body: EclipticLongitude = wrapped(&model.body.mean_longitude, elapsed);
    let node: EclipticLongitude = wrapped(&model.body.node, elapsed);
    let earth_centre: i64 = centre_of(&model.earth.centre, &trig.earth_sines);
    let body_centre: i64 = centre_of(&model.body.centre, &trig.body_sines);
    TrueAngles {
        earth: normalize360(earth.nanodegrees as i64 + earth_centre),
        body: normalize360(body.nanodegrees as i64 + body_centre - node.nanodegrees as i64),
    }
}

/// Computes the distance from the Sun.
fn radius_of(conic: bool, axis: i64, eccentricity: i64, cosine: i64) -> (distance: i64)
    requires
        0 < axis <= AXIS_LIMIT,
        -ECCENTRICITY_LIMIT <= eccentricity <= ECCENTRICITY_LIMIT,
        is_sine(cosine as int),
    ensures
        distance == radius(conic, axis as int, eccentricity as int, cosine as int),
        0 <= distance <= 2 * axis,
{
    let a: i128 = axis as i128;
    let e: i128 = eccentricity as i128;
    let c: i128 = cosine as i128;
    assert(0 <= e * e <= 250_000_000_000_000_000_000_000) by (nonlinear_arith)
        requires
            -500_000_000_000 <= e <= 500_000_000_000,
    ;
    assert(-500_000_000_000_000_000_000 <= e * c <= 500_000_000_000_000_000_000)
        by (nonlinear_arith)
        requires
            -500_000_000_000 <= e <= 500_000_000_000,
            -1_000_000_000 <= c <= 1_000_000_000,
    ;
    if conic {
        let shape: i128 = 1_000_000_000_000_000_000_000_000 - e * e;
        let divisor: i128 = 1000 * (1_000_000_000_000_000_000_000 + e * c);
        assert(0 <= a * shape <= a * 1_000_000_000_000_000_000_000_000 && a
            * 1_000_000_000_000_000_000_000_000 <= (2 * a) * divisor) by (nonlinear_arith)
            requires
                0 < a,
                0 <= shape <= 1_000_000_000_000_000_000_000_000,
                500_000_000_000_000_000_000_000 <= divisor,
        ;
        proof {
            lemma_quotient_bounded((a * shape) as int, 2 * a as int, divisor as int);
        }
        let quotient: (i128, i128) = floor_div_rem(a * shape, divisor);
        quotient.0 as i64
    } else {
        let shape: i128 = 1_000_000_000_000_000_000_000 - e * c;
        assert(0 <= a * shape <= (2 * a) * 1_000_000_000_000_000_000_000) by (nonlinear_arith)
            requires
                0 < a,
                0 <= shape <= 2_000_000_000_000_000_000_000,
        ;
        proof {
            lemma_quotient_bounded(
                (a * shape) as int,
                2 * a as int,
                1_000_000_000_000_000_000_000,
            );
        }
        let quotient: (i128, i128) = floor_div_rem(a * shape, 1_000_000_000_000_000_000_000);
        quotient.0 as i64
    }
}

/// Third round: the vector from the Earth to the body, whose bearing is the
/// geocentric longitude before corrections.
pub fn geocentric_vector(
    model: &KeplerModel,
    jd: JulianDay,
    trig: &AnomalyTrig,
    places: &TrueTrig,
) -> (vector: GeocentricVector)
    requires
        model.wf(),
        model.covers(jd),
        trig.wf(),
        places.wf(),
    ensures
        vector == model.geocentric(jd, *trig, *places),
        -6 * AXIS_LIMIT <= vector.x <= 6 * AXIS_LIMIT,
        -6 * AXIS_LIMIT <= vector.y <= 6 * AXIS_LIMIT,
{
    let elapsed: i128 = elapsed_since(model, jd);
    let earth_eccentricity: i64 = evaluate(&model.earth.eccentricity, elapsed);
    let body_eccentricity: i64 = evaluate(&model.body.eccentricity, elapsed);
    let sun: i64 = radius_of(
        model.conic_radius,
        model.earth.semi_major_axis,
        earth_eccentricity,
        trig.earth_cosine,
    );
    let distance: i64 = radius_of(
        model.conic_radius,
        model.body.semi_major_axis,
        body_eccentricity,
        trig.body_cosine,
    );
    let along: i64 = scale(distance, places.body_cosine);
    let upright: i64 = scale(distance, places.body_sine);
    let across: i64 = scale(upright, trig.inclination_cosine);
    let x: i64 = scale(along, trig.node_cosine) - scale(across, trig.node_sine) - scale(
        sun,
        places.earth_cosine,
    );
    let y: i64 = scale(along, trig.node_sine) + scale(across, trig.node_cosine) - scale(
        sun,
        places.earth_sine,
    );
    GeocentricVector { x, y }
}

/// Last round: the geocentric longitude from the bearing of the geocentric
/// vector, in nanodegrees, with perturbations and nutation applied.
pub fn apparent_longitude(model: &KeplerModel, trig: &AnomalyTrig, bearing: i64) -> (longitude:
    EclipticLongitude)
    requires
        model.wf(),
        trig.wf(),
        -FULL_CIRCLE <= bearing <= FULL_CIRCLE,
    ensures
        longitude.wf(),
        longitude@ == model.longitude(*trig, bearing as int),
{
    assert(model.perturbations[0].wf() && model.perturbations[1].wf()
        && model.perturbations[2].wf());
    let first: i64 = scale(model.perturbations[0].amplitude, trig.perturbation_sines[0]);
    let second: i64 = scale(model.perturbations[1].amplitude, trig.perturbation_sines[1]);
    let third: i64 = scale(model.perturbations[2].amplitude, trig.perturbation_sines[2]);
    let nutation: i64 = model.nutation_constant + scale(
        model.nutation_amplitude,
        trig.nutation_sine,
    );
    normalize360(bearing + first + second + third + nutation)
}

/// How much an element gains between two instants of the window. With `d`
/// the time between them, `c1` the element's rate and `c2` its coefficient per
/// century squared, the gain exceeds `g` when `d (c1 C - 2 |c2| W)` is at
/// least `(g + 2) C^2`, where `C` is a century and `W` the half-width of the
/// window: the rate carries the element forward, the quadratic term can hold it
/// back by no more than `2 |c2| W` a century, and rounding costs two units.
pub proof fn lemma_polynomial_gain(polynomial: Polynomial, earlier: int, later: int, gain: int)
    requires
        polynomial.wf(),
        in_window(earlier),
        in_window(later),
        earlier <= later,
        (later - earlier) * (polynomial.linear * CENTURY - 2 * magnitude(
            polynomial.quadratic as int,
        ) * WINDOW) >= (gain + 2) * CENTURY_SQUARED,
    ensures
        polynomial.value(later) - polynomial.value(earlier) > gain,
{
    let c1 = polynomial.linear as int;
    let c2 = polynomial.quadratic as int;
    let m2 = magnitude(c2);
    let d = later - earlier;
    let century = CENTURY as int;
    let squared = CENTURY_SQUARED as int;
    let window = WINDOW as int;
    let run_later = (c1 * later) / century;
    let run_earlier = (c1 * earlier) / century;
    let bend_later = (c2 * later * later) / squared;
    let bend_earlier = (c2 * earlier * earlier) / squared;
    // Rounding down loses less than one unit of the divisor.
    assert(century * run_later > c1 * later - century && century * run_earlier <= c1 * earlier)
        by {
        vstd::arithmetic::div_mod::lemma_fundamental_div_mod(c1 * later, century);
        vstd::arithmetic::div_mod::lemma_fundamental_div_mod(c1 * earlier, century);
    }
    assert(squared * bend_later > c2 * later * later - squared && squared * bend_earlier <= c2
        * earlier * earlier) by {
        vstd::arithmetic::div_mod::lemma_fundamental_div_mod(c2 * later * later, squared);
        vstd::arithmetic::div_mod::lemma_fundamental_div_mod(c2 * earlier * earlier, squared);
    }
    assert(c1 * later - c1 * earlier == d * c1) by (nonlinear_arith)
        requires
            d == later - earlier,
    ;
    assert(c2 * later * later - c2 * earlier * earlier >= -(d * (2 * m2 * window)))
        by (nonlinear_arith)
        requires
            d == later - earlier,
            d >= 0,
            -m2 <= c2 <= m2,
            -window <= earlier <= window,
            -window <= later <= window,
    ;
    let run = run_later - run_earlier;
    let bend = bend_later - bend_earlier;
    assert(century * run > d * c1 - century) by (nonlinear_arith)
        requires
            run == run_later - run_earlier,
            century * run_later > c1 * later - century,
            century * run_earlier <= c1 * earlier,
            c1 * later - c1 * earlier == d * c1,
    ;
    assert(squared * bend > -(d * (2 * m2 * window)) - squared) by (nonlinear_arith)
        requires
            bend == bend_later - bend_earlier,
            squared * bend_later > c2 * later * later - squared,
            squared * bend_earlier <= c2 * earlier * earlier,
            c2 * later * later - c2 * earlier * earlier >= -(d * (2 * m2 * window)),
    ;
    assert(squared * (run + bend) > squared * gain) by (nonlinear_arith)
        requires
            squared == century * century,
            century > 0,
            century * run > d * c1 - century,
            squared * bend > -(d * (2 * m2 * window)) - squared,
            d * (c1 * century - 2 * m2 * window) >= (gain + 2) * squared,
    ;
    assert(run + bend > gain) by (nonlinear_arith)
        requires
            squared > 0,
            squared * (run + bend) > squared * gain,
    ;
}

/// An element whose rate is at least 2.2° a century is further along at
/// every later minute of the window.
pub proof fn lemma_polynomial_advances(polynomial: Polynomial, earlier: int, later: int)
    requires
        polynomial.wf(),
        polynomial.linear >= 2_200_000_000,
        in_window(earlier),
        in_window(later),
        later - earlier >= 100_000,
    ensures
        polynomial.value(earlier) < polynomial.value(later),
{
    let d = later - earlier;
    let pull = polynomial.linear * CENTURY - 2 * magnitude(polynomial.quadratic as int) * WINDOW;
    assert(pull >= 1_051_920_000_000_000_000_000);
    assert(d * pull >= 2 * CENTURY_SQUARED) by (nonlinear_arith)
        requires
            d >= 100_000,
            pull >= 1_051_920_000_000_000_000_000,
    ;
    lemma_polynomial_gain(polynomial, earlier, later, 0);
}

/// The largest size that an equation of centre can reach: its amplitudes
/// without their signs, added up.
pub open spec fn centre_reach(centre: [i64; 8]) -> int {
    magnitude(centre[0] as int) + magnitude(centre[1] as int) + magnitude(centre[2] as int)
        + magnitude(centre[3] as int) + magnitude(centre[4] as int) + magnitude(centre[5] as int)
        + magnitude(centre[6] as int) + magnitude(centre[7] as int)
}

/// An equation of centre stays within its reach, whatever the sines.
pub proof fn lemma_centre_sum_bounded(centre: [i64; 8], sines: [i64; 8])
    requires
        forall|k: int| 0 <= k < HARMONICS ==> is_sine(#[trigger] sines[k] as int),
    ensures
        -centre_reach(centre) <= centre_sum(centre, sines) <= centre_reach(centre),
{
    lemma_scale_bounded(centre[0] as int, sines[0] as int);
    lemma_scale_bounded(centre[1] as int, sines[1] as int);
    lemma_scale_bounded(centre[2] as int, sines[2] as int);
    lemma_scale_bounded(centre[3] as int, sines[3] as int);
    lemma_scale_bounded(centre[4] as int, sines[4] as int);
    lemma_scale_bounded(centre[5] as int, sines[5] as int);
    lemma_scale_bounded(centre[6] as int, sines[6] as int);
    lemma_scale_bounded(centre[7] as int, sines[7] as int);
}

/// The argument of latitude is the heliocentric longitude counted from the
/// node, wrapped.
pub proof fn lemma_argument_of_latitude_from_longitude(
    model: KeplerModel,
    jd: JulianDay,
    trig: AnomalyTrig,
)
    ensures
        model.argument_of_latitude(jd, trig) == wrap360(
            model.heliocentric_longitude(jd, trig) - model.node_longitude(jd),
        ),
{
    let mean = model.body.mean_longitude.value(model.elapsed(jd));
    let rest = centre_sum(model.body.centre, trig.body_sines) - model.node_longitude(jd);
    vstd::arithmetic::div_mod::lemma_add_mod_noop(mean, rest, FULL_CIRCLE as int);
    vstd::arithmetic::div_mod::lemma_add_mod_noop(wrap360(mean), rest, FULL_CIRCLE as int);
    vstd::arithmetic::div_mod::lemma_mod_twice(mean, FULL_CIRCLE as int);
}

} // verus!
