//! The four planets on Keplerian orbits: Mars, Mercury, Jupiter and Venus.
//!
//! Each model is data: polynomials for the elements of the Earth and of the
//! planet, amplitudes of the equations of centre, and corrections. Angles are
//! in nanodegrees, eccentricities in trillionths, axes in trillionths of an
//! astronomical unit, and rates are per Julian century from the model's epoch.

use vstd::prelude::*;
use crate::angle::{EclipticLongitude, FULL_CIRCLE};
use crate::fixed::magnitude;
use crate::julian::JulianDay;
use crate::kepler::{
    apparent_longitude,
    centre_reach,
    lemma_centre_sum_bounded,
    lemma_polynomial_gain,
    AnomalyTrig,
    CENTURY,
    CENTURY_SQUARED,
    KeplerModel,
    Orbit,
    Perturbation,
    Polynomial,
    WINDOW,
};

verus! {

/// No perturbing planet: a term without one has its multiple at zero.
pub open spec fn no_planet() -> Polynomial {
    Polynomial {
        constant: 0,
        linear: 0,
        quadratic: 0,
    }
}

/// Builds what `no_planet` describes.
fn no_planet_polynomial() -> (built: Polynomial)
    ensures
        built == no_planet(),
        built.wf(),
{
    Polynomial {
        constant: 0,
        linear: 0,
        quadratic: 0,
    }
}

/// Mean longitude of Venus as a perturbing planet: 181.9798° and 58517.8156° a
/// century.
pub open spec fn venus_mean_longitude() -> Polynomial {
    Polynomial {
        constant: 181_979_800_000,
        linear: 58_517_815_600_000,
        quadratic: 0,
    }
}

/// Builds what `venus_mean_longitude` describes.
fn venus_mean_longitude_polynomial() -> (built: Polynomial)
    ensures
        built == venus_mean_longitude(),
        built.wf(),
{
    Polynomial {
        constant: 181_979_800_000,
        linear: 58_517_815_600_000,
        quadratic: 0,
    }
}

/// Mean longitude of Jupiter as a perturbing planet: 34.3515° and 3034.9056° a
/// century.
pub open spec fn jupiter_mean_longitude() -> Polynomial {
    Polynomial {
        constant: 34_351_500_000,
        linear: 3_034_905_600_000,
        quadratic: 0,
    }
}

/// Builds what `jupiter_mean_longitude` describes.
fn jupiter_mean_longitude_polynomial() -> (built: Polynomial)
    ensures
        built == jupiter_mean_longitude(),
        built.wf(),
{
    Polynomial {
        constant: 34_351_500_000,
        linear: 3_034_905_600_000,
        quadratic: 0,
    }
}

/// Mean longitude of Saturn as a perturbing planet: 49.9485° and 1222.1138° a
/// century.
pub open spec fn saturn_mean_longitude() -> Polynomial {
    Polynomial {
        constant: 49_948_500_000,
        linear: 1_222_113_800_000,
        quadratic: 0,
    }
}

/// Builds what `saturn_mean_longitude` describes.
fn saturn_mean_longitude_polynomial() -> (built: Polynomial)
    ensures
        built == saturn_mean_longitude(),
        built.wf(),
{
    Polynomial {
        constant: 49_948_500_000,
        linear: 1_222_113_800_000,
        quadratic: 0,
    }
}

/// Longitude of the Moon's ascending node, the argument of nutation: 125.04°
/// and -1934.136° a century.
pub open spec fn lunar_node() -> Polynomial {
    Polynomial {
        constant: 125_040_000_000,
        linear: -1_934_136_000_000 as i64,
        quadratic: 0,
    }
}

/// Builds what `lunar_node` describes.
fn lunar_node_polynomial() -> (built: Polynomial)
    ensures
        built == lunar_node(),
        built.wf(),
{
    Polynomial {
        constant: 125_040_000_000,
        linear: -1_934_136_000_000 as i64,
        quadratic: 0,
    }
}

/// The argument of a nutation that is not applied.
pub open spec fn unused_argument() -> Polynomial {
    Polynomial {
        constant: 0,
        linear: 0,
        quadratic: 0,
    }
}

/// Builds what `unused_argument` describes.
fn unused_argument_polynomial() -> (built: Polynomial)
    ensures
        built == unused_argument(),
        built.wf(),
{
    Polynomial {
        constant: 0,
        linear: 0,
        quadratic: 0,
    }
}

/// The Earth with five terms in its equation of centre and an eccentricity
/// that changes with the square of time, as Mercury's model takes it.
pub open spec fn earth_five_terms() -> Orbit {
    Orbit {
        mean_longitude: Polynomial {
            constant: 100_464_350_000,
            linear: 35_999_372_490_000,
            quadratic: 303_200,
        },
        perihelion: Polynomial {
            constant: 102_937_680_000,
            linear: 323_270_000,
            quadratic: 150_000,
        },
        node: Polynomial {
            constant: 0,
            linear: 0,
            quadratic: 0,
        },
        inclination: Polynomial {
            constant: 0,
            linear: 0,
            quadratic: 0,
        },
        eccentricity: Polynomial {
            constant: 16_708_617_000,
            linear: -42_037_000 as i64,
            quadratic: -123_600 as i64,
        },
        centre: [
            1_914_600_000,
            19_993_000,
            290_000,
            20_000,
            2_000,
            0,
            0,
            0,
        ],
        semi_major_axis: 1_000_001_018_000,
    }
}

/// Builds what `earth_five_terms` describes.
fn earth_five_terms_orbit() -> (built: Orbit)
    ensures
        built == earth_five_terms(),
        built.wf(),
{
    Orbit {
        mean_longitude: Polynomial {
            constant: 100_464_350_000,
            linear: 35_999_372_490_000,
            quadratic: 303_200,
        },
        perihelion: Polynomial {
            constant: 102_937_680_000,
            linear: 323_270_000,
            quadratic: 150_000,
        },
        node: Polynomial {
            constant: 0,
            linear: 0,
            quadratic: 0,
        },
        inclination: Polynomial {
            constant: 0,
            linear: 0,
            quadratic: 0,
        },
        eccentricity: Polynomial {
            constant: 16_708_617_000,
            linear: -42_037_000 as i64,
            quadratic: -123_600 as i64,
        },
        centre: [
            1_914_600_000,
            19_993_000,
            290_000,
            20_000,
            2_000,
            0,
            0,
            0,
        ],
        semi_major_axis: 1_000_001_018_000,
    }
}

/// The Earth with three terms in its equation of centre and an eccentricity
/// that changes evenly, as the models of Jupiter and Venus take it.
pub open spec fn earth_three_terms() -> Orbit {
    Orbit {
        mean_longitude: Polynomial {
            constant: 100_464_350_000,
            linear: 35_999_372_490_000,
            quadratic: 303_200,
        },
        perihelion: Polynomial {
            constant: 102_937_680_000,
            linear: 323_270_000,
            quadratic: 150_000,
        },
        node: Polynomial {
            constant: 0,
            linear: 0,
            quadratic: 0,
        },
        inclination: Polynomial {
            constant: 0,
            linear: 0,
            quadratic: 0,
        },
        eccentricity: Polynomial {
            constant: 16_708_617_000,
            linear: -42_037_000 as i64,
            quadratic: 0,
        },
        centre: [
            1_914_600_000,
            19_993_000,
            290_000,
            0,
            0,
            0,
            0,
            0,
        ],
        semi_major_axis: 1_000_001_018_000,
    }
}

/// Builds what `earth_three_terms` describes.
fn earth_three_terms_orbit() -> (built: Orbit)
    ensures
        built == earth_three_terms(),
        built.wf(),
{
    Orbit {
        mean_longitude: Polynomial {
            constant: 100_464_350_000,
            linear: 35_999_372_490_000,
            quadratic: 303_200,
        },
        perihelion: Polynomial {
            constant: 102_937_680_000,
            linear: 323_270_000,
            quadratic: 150_000,
        },
        node: Polynomial {
            constant: 0,
            linear: 0,
            quadratic: 0,
        },
        inclination: Polynomial {
            constant: 0,
            linear: 0,
            quadratic: 0,
        },
        eccentricity: Polynomial {
            constant: 16_708_617_000,
            linear: -42_037_000 as i64,
            quadratic: 0,
        },
        centre: [
            1_914_600_000,
            19_993_000,
            290_000,
            0,
            0,
            0,
            0,
            0,
        ],
        semi_major_axis: 1_000_001_018_000,
    }
}

/// The Earth with two terms in its equation of centre and a fixed eccentricity,
/// as Mars's model takes it.
pub open spec fn earth_two_terms() -> Orbit {
    Orbit {
        mean_longitude: Polynomial {
            constant: 100_464_350_000,
            linear: 35_999_372_490_000,
            quadratic: 0,
        },
        perihelion: Polynomial {
            constant: 102_937_680_000,
            linear: 323_270_000,
            quadratic: 0,
        },
        node: Polynomial {
            constant: 0,
            linear: 0,
            quadratic: 0,
        },
        inclination: Polynomial {
            constant: 0,
            linear: 0,
            quadratic: 0,
        },
        eccentricity: Polynomial {
            constant: 16_710_000_000,
            linear: 0,
            quadratic: 0,
        },
        centre: [
            1_914_800_000,
            20_000_000,
            0,
            0,
            0,
            0,
            0,
            0,
        ],
        semi_major_axis: 1_000_140_000_000,
    }
}

/// Builds what `earth_two_terms` describes.
fn earth_two_terms_orbit() -> (built: Orbit)
    ensures
        built == earth_two_terms(),
        built.wf(),
{
    Orbit {
        mean_longitude: Polynomial {
            constant: 100_464_350_000,
            linear: 35_999_372_490_000,
            quadratic: 0,
        },
        perihelion: Polynomial {
            constant: 102_937_680_000,
            linear: 323_270_000,
            quadratic: 0,
        },
        node: Polynomial {
            constant: 0,
            linear: 0,
            quadratic: 0,
        },
        inclination: Polynomial {
            constant: 0,
            linear: 0,
            quadratic: 0,
        },
        eccentricity: Polynomial {
            constant: 16_710_000_000,
            linear: 0,
            quadratic: 0,
        },
        centre: [
            1_914_800_000,
            20_000_000,
            0,
            0,
            0,
            0,
            0,
            0,
        ],
        semi_major_axis: 1_000_140_000_000,
    }
}

/// Mars, to first order in the eccentricities and in the plane of the ecliptic,
/// from Julian Day 2378598.458333. It has no perturbations and no nutation.
pub open spec fn mars() -> KeplerModel {
    KeplerModel {
        epoch: 2_378_598_458_333,
        earth: earth_two_terms(),
        body: Orbit {
            mean_longitude: Polynomial {
                constant: 317_180_000_000,
                linear: 19_140_302_680_000,
                quadratic: 0,
            },
            perihelion: Polynomial {
                constant: 335_150_000_000,
                linear: 443_010_000,
                quadratic: 0,
            },
            node: Polynomial {
                constant: 0,
                linear: 0,
                quadratic: 0,
            },
            inclination: Polynomial {
                constant: 0,
                linear: 0,
                quadratic: 0,
            },
            eccentricity: Polynomial {
                constant: 93_400_000_000,
                linear: 0,
                quadratic: 0,
            },
            centre: [
                10_691_200_000,
                622_800_000,
                0,
                0,
                0,
                0,
                0,
                0,
            ],
            semi_major_axis: 1_523_680_000_000,
        },
        conic_radius: false,
        perturbations: [
            Perturbation {
                amplitude: 0,
                other: no_planet(),
                other_multiple: 0,
                earth_multiple: 0,
                body_multiple: 0,
                phase: 0,
            },
            Perturbation {
                amplitude: 0,
                other: no_planet(),
                other_multiple: 0,
                earth_multiple: 0,
                body_multiple: 0,
                phase: 0,
            },
            Perturbation {
                amplitude: 0,
                other: no_planet(),
                other_multiple: 0,
                earth_multiple: 0,
                body_multiple: 0,
                phase: 0,
            },
        ],
        nutation_constant: 0,
        nutation_amplitude: 0,
        nutation_argument: unused_argument(),
    }
}

/// Builds the model of `mars`.
pub fn mars_model() -> (built: KeplerModel)
    ensures
        built == mars(),
        built.wf(),
{
    KeplerModel {
        epoch: 2_378_598_458_333,
        earth: earth_two_terms_orbit(),
        body: Orbit {
            mean_longitude: Polynomial {
                constant: 317_180_000_000,
                linear: 19_140_302_680_000,
                quadratic: 0,
            },
            perihelion: Polynomial {
                constant: 335_150_000_000,
                linear: 443_010_000,
                quadratic: 0,
            },
            node: Polynomial {
                constant: 0,
                linear: 0,
                quadratic: 0,
            },
            inclination: Polynomial {
                constant: 0,
                linear: 0,
                quadratic: 0,
            },
            eccentricity: Polynomial {
                constant: 93_400_000_000,
                linear: 0,
                quadratic: 0,
            },
            centre: [
                10_691_200_000,
                622_800_000,
                0,
                0,
                0,
                0,
                0,
                0,
            ],
            semi_major_axis: 1_523_680_000_000,
        },
        conic_radius: false,
        perturbations: [
            Perturbation {
                amplitude: 0,
                other: no_planet_polynomial(),
                other_multiple: 0,
                earth_multiple: 0,
                body_multiple: 0,
                phase: 0,
            },
            Perturbation {
                amplitude: 0,
                other: no_planet_polynomial(),
                other_multiple: 0,
                earth_multiple: 0,
                body_multiple: 0,
                phase: 0,
            },
            Perturbation {
                amplitude: 0,
                other: no_planet_polynomial(),
                other_multiple: 0,
                earth_multiple: 0,
                body_multiple: 0,
                phase: 0,
            },
        ],
        nutation_constant: 0,
        nutation_amplitude: 0,
        nutation_argument: unused_argument_polynomial(),
    }
}

/// Mercury, from Julian Day 2378493.458333. Its longitude is perturbed by
/// Venus, with a phase of 0.21328 rad, by Jupiter, with a phase of -3.07577 rad,
/// and by the Earth, with a phase of -0.05149 rad.
pub open spec fn mercury() -> KeplerModel {
    KeplerModel {
        epoch: 2_378_493_458_333,
        earth: earth_five_terms(),
        body: Orbit {
            mean_longitude: Polynomial {
                constant: 315_548_400_000,
                linear: 149_472_674_600_000,
                quadratic: 303_970,
            },
            perihelion: Polynomial {
                constant: 77_456_100_000,
                linear: 158_560_000,
                quadratic: 29_530,
            },
            node: Polynomial {
                constant: 48_330_900_000,
                linear: -125_340_000 as i64,
                quadratic: 88_630,
            },
            inclination: Polynomial {
                constant: 7_004_870_000,
                linear: -1_780_000 as i64,
                quadratic: 0,
            },
            eccentricity: Polynomial {
                constant: 205_630_690_000,
                linear: 20_406_000,
                quadratic: -28_400 as i64,
            },
            centre: [
                23_440_600_000,
                2_981_800_000,
                525_500_000,
                105_800_000,
                24_100_000,
                5_500_000,
                1_300_000,
                300_000,
            ],
            semi_major_axis: 387_098_000_000,
        },
        conic_radius: true,
        perturbations: [
            Perturbation {
                amplitude: 2_040_000,
                other: venus_mean_longitude(),
                other_multiple: 5,
                earth_multiple: 0,
                body_multiple: -2 as i64,
                phase: 12_220_043_855,
            },
            Perturbation {
                amplitude: 1_030_000,
                other: jupiter_mean_longitude(),
                other_multiple: 2,
                earth_multiple: 0,
                body_multiple: -5 as i64,
                phase: -176_228_639_753 as i64,
            },
            Perturbation {
                amplitude: 910_000,
                other: no_planet(),
                other_multiple: 0,
                earth_multiple: 2,
                body_multiple: -2 as i64,
                phase: -2_950_159_687 as i64,
            },
        ],
        nutation_constant: -5_690_000 as i64,
        nutation_amplitude: -4_790_000 as i64,
        nutation_argument: lunar_node(),
    }
}

/// Builds the model of `mercury`.
pub fn mercury_model() -> (built: KeplerModel)
    ensures
        built == mercury(),
        built.wf(),
{
    KeplerModel {
        epoch: 2_378_493_458_333,
        earth: earth_five_terms_orbit(),
        body: Orbit {
            mean_longitude: Polynomial {
                constant: 315_548_400_000,
                linear: 149_472_674_600_000,
                quadratic: 303_970,
            },
            perihelion: Polynomial {
                constant: 77_456_100_000,
                linear: 158_560_000,
                quadratic: 29_530,
            },
            node: Polynomial {
                constant: 48_330_900_000,
                linear: -125_340_000 as i64,
                quadratic: 88_630,
            },
            inclination: Polynomial {
                constant: 7_004_870_000,
                linear: -1_780_000 as i64,
                quadratic: 0,
            },
            eccentricity: Polynomial {
                constant: 205_630_690_000,
                linear: 20_406_000,
                quadratic: -28_400 as i64,
            },
            centre: [
                23_440_600_000,
                2_981_800_000,
                525_500_000,
                105_800_000,
                24_100_000,
                5_500_000,
                1_300_000,
                300_000,
            ],
            semi_major_axis: 387_098_000_000,
        },
        conic_radius: true,
        perturbations: [
            Perturbation {
                amplitude: 2_040_000,
                other: venus_mean_longitude_polynomial(),
                other_multiple: 5,
                earth_multiple: 0,
                body_multiple: -2 as i64,
                phase: 12_220_043_855,
            },
            Perturbation {
                amplitude: 1_030_000,
                other: jupiter_mean_longitude_polynomial(),
                other_multiple: 2,
                earth_multiple: 0,
                body_multiple: -5 as i64,
                phase: -176_228_639_753 as i64,
            },
            Perturbation {
                amplitude: 910_000,
                other: no_planet_polynomial(),
                other_multiple: 0,
                earth_multiple: 2,
                body_multiple: -2 as i64,
                phase: -2_950_159_687 as i64,
            },
        ],
        nutation_constant: -5_690_000 as i64,
        nutation_amplitude: -4_790_000 as i64,
        nutation_argument: lunar_node_polynomial(),
    }
}

/// Jupiter, from Julian Day 2378493.458333. Its longitude is perturbed twice
/// by Saturn, near the resonance of five to two, with phases of 0.91330 rad and
/// -0.63863 rad, and by the Earth.
pub open spec fn jupiter() -> KeplerModel {
    KeplerModel {
        epoch: 2_378_493_458_333,
        earth: earth_three_terms(),
        body: Orbit {
            mean_longitude: Polynomial {
                constant: 65_321_080_000,
                linear: 3_034_905_670_000,
                quadratic: 223_740,
            },
            perihelion: Polynomial {
                constant: 14_753_850_000,
                linear: 212_520_000,
                quadratic: 310_970,
            },
            node: Polynomial {
                constant: 100_556_150_000,
                linear: -52_370_000 as i64,
                quadratic: -218_190 as i64,
            },
            inclination: Polynomial {
                constant: 1_305_300_000,
                linear: -1_550_000 as i64,
                quadratic: 0,
            },
            eccentricity: Polynomial {
                constant: 48_392_660_000,
                linear: -13_528_000 as i64,
                quadratic: -86_400 as i64,
            },
            centre: [
                5_555_490_000,
                167_630_000,
                5_260_000,
                1_880_000,
                0,
                0,
                0,
                0,
            ],
            semi_major_axis: 5_202_561_000_000,
        },
        conic_radius: true,
        perturbations: [
            Perturbation {
                amplitude: 330_330_000,
                other: saturn_mean_longitude(),
                other_multiple: 5,
                earth_multiple: 0,
                body_multiple: -2 as i64,
                phase: 52_328_235_429,
            },
            Perturbation {
                amplitude: 33_040_000,
                other: saturn_mean_longitude(),
                other_multiple: 5,
                earth_multiple: 0,
                body_multiple: -2 as i64,
                phase: -36_590_803_670 as i64,
            },
            Perturbation {
                amplitude: 2_040_000,
                other: no_planet(),
                other_multiple: 0,
                earth_multiple: 1,
                body_multiple: -1 as i64,
                phase: 0,
            },
        ],
        nutation_constant: -5_690_000 as i64,
        nutation_amplitude: -4_790_000 as i64,
        nutation_argument: lunar_node(),
    }
}

/// Builds the model of `jupiter`.
pub fn jupiter_model() -> (built: KeplerModel)
    ensures
        built == jupiter(),
        built.wf(),
{
    KeplerModel {
        epoch: 2_378_493_458_333,
        earth: earth_three_terms_orbit(),
        body: Orbit {
            mean_longitude: Polynomial {
                constant: 65_321_080_000,
                linear: 3_034_905_670_000,
                quadratic: 223_740,
            },
            perihelion: Polynomial {
                constant: 14_753_850_000,
                linear: 212_520_000,
                quadratic: 310_970,
            },
            node: Polynomial {
                constant: 100_556_150_000,
                linear: -52_370_000 as i64,
                quadratic: -218_190 as i64,
            },
            inclination: Polynomial {
                constant: 1_305_300_000,
                linear: -1_550_000 as i64,
                quadratic: 0,
            },
            eccentricity: Polynomial {
                constant: 48_392_660_000,
                linear: -13_528_000 as i64,
                quadratic: -86_400 as i64,
            },
            centre: [
                5_555_490_000,
                167_630_000,
                5_260_000,
                1_880_000,
                0,
                0,
                0,
                0,
            ],
            semi_major_axis: 5_202_561_000_000,
        },
        conic_radius: true,
        perturbations: [
            Perturbation {
                amplitude: 330_330_000,
                other: saturn_mean_longitude_polynomial(),
                other_multiple: 5,
                earth_multiple: 0,
                body_multiple: -2 as i64,
                phase: 52_328_235_429,
            },
            Perturbation {
                amplitude: 33_040_000,
                other: saturn_mean_longitude_polynomial(),
                other_multiple: 5,
                earth_multiple: 0,
                body_multiple: -2 as i64,
                phase: -36_590_803_670 as i64,
            },
            Perturbation {
                amplitude: 2_040_000,
                other: no_planet_polynomial(),
                other_multiple: 0,
                earth_multiple: 1,
                body_multiple: -1 as i64,
                phase: 0,
            },
        ],
        nutation_constant: -5_690_000 as i64,
        nutation_amplitude: -4_790_000 as i64,
        nutation_argument: lunar_node_polynomial(),
    }
}

/// Venus, from Julian Day 2378493.458333. Its longitude is perturbed twice by
/// Jupiter, with phases of 3.29 rad and 2.33 rad, and by the Earth, with a phase
/// of -1.51 rad.
pub open spec fn venus() -> KeplerModel {
    KeplerModel {
        epoch: 2_378_493_458_333,
        earth: earth_three_terms(),
        body: Orbit {
            mean_longitude: Polynomial {
                constant: 331_030_000_000,
                linear: 58_575_336_000_000,
                quadratic: 525_560,
            },
            perihelion: Polynomial {
                constant: 131_563_700_000,
                linear: 48_180_000,
                quadratic: 139_550,
            },
            node: Polynomial {
                constant: 76_679_900_000,
                linear: -41_070_000 as i64,
                quadratic: -138_120 as i64,
            },
            inclination: Polynomial {
                constant: 3_394_710_000,
                linear: -780_000 as i64,
                quadratic: 0,
            },
            eccentricity: Polynomial {
                constant: 6_820_690_000,
                linear: -47_766_000 as i64,
                quadratic: 97_500,
            },
            centre: [
                779_670_000,
                520_000,
                40_000,
                0,
                0,
                0,
                0,
                0,
            ],
            semi_major_axis: 723_332_000_000,
        },
        conic_radius: true,
        perturbations: [
            Perturbation {
                amplitude: 3_130_000,
                other: jupiter_mean_longitude(),
                other_multiple: 2,
                earth_multiple: 0,
                body_multiple: -7 as i64,
                phase: 188_503_114_598,
            },
            Perturbation {
                amplitude: 1_980_000,
                other: jupiter_mean_longitude(),
                other_multiple: 3,
                earth_multiple: 0,
                body_multiple: -8 as i64,
                phase: 133_499_166_265,
            },
            Perturbation {
                amplitude: 1_060_000,
                other: no_planet(),
                other_multiple: 0,
                earth_multiple: 5,
                body_multiple: -3 as i64,
                phase: -86_516_627_065 as i64,
            },
        ],
        nutation_constant: -5_690_000 as i64,
        nutation_amplitude: -4_790_000 as i64,
        nutation_argument: lunar_node(),
    }
}

/// Builds the model of `venus`.
pub fn venus_model() -> (built: KeplerModel)
    ensures
        built == venus(),
        built.wf(),
{
    KeplerModel {
        epoch: 2_378_493_458_333,
        earth: earth_three_terms_orbit(),
        body: Orbit {
            mean_longitude: Polynomial {
                constant: 331_030_000_000,
                linear: 58_575_336_000_000,
                quadratic: 525_560,
            },
            perihelion: Polynomial {
                constant: 131_563_700_000,
                linear: 48_180_000,
                quadratic: 139_550,
            },
            node: Polynomial {
                constant: 76_679_900_000,
                linear: -41_070_000 as i64,
                quadratic: -138_120 as i64,
            },
            inclination: Polynomial {
                constant: 3_394_710_000,
                linear: -780_000 as i64,
                quadratic: 0,
            },
            eccentricity: Polynomial {
                constant: 6_820_690_000,
                linear: -47_766_000 as i64,
                quadratic: 97_500,
            },
            centre: [
                779_670_000,
                520_000,
                40_000,
                0,
                0,
                0,
                0,
                0,
            ],
            semi_major_axis: 723_332_000_000,
        },
        conic_radius: true,
        perturbations: [
            Perturbation {
                amplitude: 3_130_000,
                other: jupiter_mean_longitude_polynomial(),
                other_multiple: 2,
                earth_multiple: 0,
                body_multiple: -7 as i64,
                phase: 188_503_114_598,
            },
            Perturbation {
                amplitude: 1_980_000,
                other: jupiter_mean_longitude_polynomial(),
                other_multiple: 3,
                earth_multiple: 0,
                body_multiple: -8 as i64,
                phase: 133_499_166_265,
            },
            Perturbation {
                amplitude: 1_060_000,
                other: no_planet_polynomial(),
                other_multiple: 0,
                earth_multiple: 5,
                body_multiple: -3 as i64,
                phase: -86_516_627_065 as i64,
            },
        ],
        nutation_constant: -5_690_000 as i64,
        nutation_amplitude: -4_790_000 as i64,
        nutation_argument: lunar_node_polynomial(),
    }
}

/// Longitude of Mars from the sines of the first round and the bearing of
/// the geocentric vector, in nanodegrees.
pub fn calculate_mars_position(trig: &AnomalyTrig, bearing: i64) -> (longitude:
    EclipticLongitude)
    requires
        trig.wf(),
        -FULL_CIRCLE <= bearing <= FULL_CIRCLE,
    ensures
        longitude.wf(),
        longitude@ == mars().longitude(*trig, bearing as int),
{
    let model: KeplerModel = mars_model();
    apparent_longitude(&model, trig, bearing)
}

/// Longitude of Mercury from the sines of the first round and the bearing of
/// the geocentric vector, in nanodegrees.
pub fn calculate_mercury_position(trig: &AnomalyTrig, bearing: i64) -> (longitude:
    EclipticLongitude)
    requires
        trig.wf(),
        -FULL_CIRCLE <= bearing <= FULL_CIRCLE,
    ensures
        longitude.wf(),
        longitude@ == mercury().longitude(*trig, bearing as int),
{
    let model: KeplerModel = mercury_model();
    apparent_longitude(&model, trig, bearing)
}

/// Longitude of Jupiter from the sines of the first round and the bearing of
/// the geocentric vector, in nanodegrees.
pub fn calculate_jupiter_position(trig: &AnomalyTrig, bearing: i64) -> (longitude:
    EclipticLongitude)
    requires
        trig.wf(),
        -FULL_CIRCLE <= bearing <= FULL_CIRCLE,
    ensures
        longitude.wf(),
        longitude@ == jupiter().longitude(*trig, bearing as int),
{
    let model: KeplerModel = jupiter_model();
    apparent_longitude(&model, trig, bearing)
}

/// Longitude of Venus from the sines of the first round and the bearing of
/// the geocentric vector, in nanodegrees.
pub fn calculate_venus_position(trig: &AnomalyTrig, bearing: i64) -> (longitude:
    EclipticLongitude)
    requires
        trig.wf(),
        -FULL_CIRCLE <= bearing <= FULL_CIRCLE,
    ensures
        longitude.wf(),
        longitude@ == venus().longitude(*trig, bearing as int),
{
    let model: KeplerModel = venus_model();
    apparent_longitude(&model, trig, bearing)
}

/// Over a span of 140 days or more Jupiter has advanced round the Sun,
/// whatever its anomaly was at either end: its mean motion over such a span
/// outruns twice the reach of its equation of centre.
pub proof fn lemma_jupiter_advances_round_the_sun(
    earlier: JulianDay,
    later: JulianDay,
    earlier_trig: AnomalyTrig,
    later_trig: AnomalyTrig,
)
    requires
        jupiter().covers(earlier),
        jupiter().covers(later),
        later.minutes - earlier.minutes >= 140 * 1440,
        earlier_trig.wf(),
        later_trig.wf(),
    ensures
        jupiter().heliocentric_longitude(earlier, earlier_trig) < jupiter().heliocentric_longitude(
            later,
            later_trig,
        ),
{
    let model = jupiter();
    lemma_centre_sum_bounded(model.body.centre, earlier_trig.body_sines);
    lemma_centre_sum_bounded(model.body.centre, later_trig.body_sines);
    assert(centre_reach(model.body.centre) == 5_730_260_000);
    let from = model.elapsed(earlier);
    let to = model.elapsed(later);
    let span = to - from;
    let pull = model.body.mean_longitude.linear * CENTURY - 2 * magnitude(
        model.body.mean_longitude.quadratic as int,
    ) * WINDOW;
    assert(pull == 15_960_036_296_124_000_000_000_000);
    assert(span * pull >= 11_460_520_002 * CENTURY_SQUARED) by (nonlinear_arith)
        requires
            span >= 20_160_000_000,
            pull == 15_960_036_296_124_000_000_000_000,
            CENTURY_SQUARED == 27_663_392_160_000_000_000_000_000,
    ;
    lemma_polynomial_gain(model.body.mean_longitude, from, to, 11_460_520_000);
}

} // verus!
