//! The birth chart: every body and the Ascendant, each at its sign and degree.

use vstd::prelude::*;
use crate::angle::{EclipticLongitude, FULL_CIRCLE};
use crate::anomaly::{
    calculate_moon_position,
    calculate_saturn_position,
    moon_longitude,
    saturn_longitude,
};
use crate::fixed::{is_sine, sine_in_range};
use crate::ascendant::{ascendant, ascendant_position};
use crate::calendar::CivilBirthMoment;
use crate::julian::{calculate_jd, julian_minutes, JulianDay};
use crate::kepler::AnomalyTrig;
use crate::location::Location;
use crate::mean_motion::{
    calculate_ketu_thai_position,
    calculate_rahu_position,
    calculate_uranus_position,
    ketu_motion,
    mean_longitude,
    rahu_motion,
    uranus_motion,
};
use crate::planets::{
    calculate_jupiter_position,
    calculate_mars_position,
    calculate_mercury_position,
    calculate_venus_position,
    jupiter,
    mars,
    mercury,
    venus,
};
use crate::solar::{estimate_solar_thai, solar_longitude};
use crate::zodiac::{zodiac_position, ZodiacPosition};

verus! {

/// What a chart places on the zodiac.
#[derive(Clone, Copy, Debug, PartialEq, Eq, Structural)]
pub enum Body {
    Ascendant,
    Sun,
    Moon,
    Mars,
    Mercury,
    Jupiter,
    Venus,
    Saturn,
    Rahu,
    Ketu,
    Uranus,
}

/// One line of a chart: a body and where it stands.
#[derive(Clone, Copy, Debug, PartialEq, Eq, Structural)]
pub struct BodyResult {
    pub body: Body,
    pub position: ZodiacPosition,
}

/// What a planet on a Keplerian orbit takes from trigonometry: the sines
/// and cosines of its first round, and the bearing of its geocentric vector in
/// nanodegrees, between minus and plus one turn.
#[derive(Clone, Copy, Debug)]
pub struct PlanetTerms {
    pub trig: AnomalyTrig,
    pub bearing: i64,
}

impl PlanetTerms {
    /// The sines are sines and the bearing is within a turn.
    pub open spec fn wf(&self) -> bool {
        &&& self.trig.wf()
        &&& -FULL_CIRCLE <= self.bearing <= FULL_CIRCLE
    }

    /// Tells whether the sines are sines and the bearing is within a turn.
    pub fn is_well_formed(&self) -> (valid: bool)
        ensures
            valid == self.wf(),
    {
        self.trig.is_well_formed() && -FULL_CIRCLE <= self.bearing && self.bearing <= FULL_CIRCLE
    }
}

/// What the chart takes from trigonometry, which is evaluated outside this
/// library: the sines of the Moon's and Saturn's anomalies in billionths, and
/// the terms of the four planets on Keplerian orbits.
#[derive(Clone, Copy, Debug)]
pub struct TrigTerms {
    pub moon_anomaly_sine: i64,
    pub saturn_anomaly_sine: i64,
    pub mars: PlanetTerms,
    pub mercury: PlanetTerms,
    pub jupiter: PlanetTerms,
    pub venus: PlanetTerms,
}

impl TrigTerms {
    /// Every part is well formed.
    pub open spec fn wf(&self) -> bool {
        &&& is_sine(self.moon_anomaly_sine as int)
        &&& is_sine(self.saturn_anomaly_sine as int)
        &&& self.mars.wf()
        &&& self.mercury.wf()
        &&& self.jupiter.wf()
        &&& self.venus.wf()
    }

    /// Tells whether every part is well formed.
    pub fn is_well_formed(&self) -> (valid: bool)
        ensures
            valid == self.wf(),
    {
        sine_in_range(self.moon_anomaly_sine) && sine_in_range(self.saturn_anomaly_sine)
            && self.mars.is_well_formed() && self.mercury.is_well_formed()
            && self.jupiter.is_well_formed() && self.venus.is_well_formed()
    }
}

/// A complete birth chart.
#[derive(Clone, Copy, Debug, PartialEq, Eq, Structural)]
pub struct Chart {
    pub ascendant: ZodiacPosition,
    pub sun: ZodiacPosition,
    pub moon: ZodiacPosition,
    pub mars: ZodiacPosition,
    pub mercury: ZodiacPosition,
    pub jupiter: ZodiacPosition,
    pub venus: ZodiacPosition,
    pub saturn: ZodiacPosition,
    pub rahu: ZodiacPosition,
    pub ketu: ZodiacPosition,
    pub uranus: ZodiacPosition,
}

/// The chart of a birth: a function of the moment, the longitude of the
/// birthplace and the trigonometric terms, and of nothing else.
pub open spec fn chart_of(moment: CivilBirthMoment, longitude_east: int, terms: TrigTerms)
    -> Chart {
    let jd = JulianDay { minutes: julian_minutes(moment) as i64 };
    let solar = solar_longitude(moment);
    Chart {
        ascendant: ascendant_position(
            solar,
            moment.hour as int,
            moment.minute as int,
            longitude_east,
        ),
        sun: zodiac_position(solar),
        moon: zodiac_position(moon_longitude(jd, terms.moon_anomaly_sine as int)),
        mars: zodiac_position(mars().longitude(terms.mars.trig, terms.mars.bearing as int)),
        mercury: zodiac_position(
            mercury().longitude(terms.mercury.trig, terms.mercury.bearing as int),
        ),
        jupiter: zodiac_position(
            jupiter().longitude(terms.jupiter.trig, terms.jupiter.bearing as int),
        ),
        venus: zodiac_position(venus().longitude(terms.venus.trig, terms.venus.bearing as int)),
        saturn: zodiac_position(saturn_longitude(jd, terms.saturn_anomaly_sine as int)),
        rahu: zodiac_position(mean_longitude(rahu_motion(), jd)),
        ketu: zodiac_position(mean_longitude(ketu_motion(), jd)),
        uranus: zodiac_position(mean_longitude(uranus_motion(), jd)),
    }
}

impl Chart {
    /// Every position names a sign and a degree within it.
    pub open spec fn wf(&self) -> bool {
        &&& self.ascendant.wf()
        &&& self.sun.wf()
        &&& self.moon.wf()
        &&& self.mars.wf()
        &&& self.mercury.wf()
        &&& self.jupiter.wf()
        &&& self.venus.wf()
        &&& self.saturn.wf()
        &&& self.rahu.wf()
        &&& self.ketu.wf()
        &&& self.uranus.wf()
    }

    /// Where a body stands in the chart.
    pub open spec fn position_of(&self, body: Body) -> ZodiacPosition {
        match body {
            Body::Ascendant => self.ascendant,
            Body::Sun => self.sun,
            Body::Moon => self.moon,
            Body::Mars => self.mars,
            Body::Mercury => self.mercury,
            Body::Jupiter => self.jupiter,
            Body::Venus => self.venus,
            Body::Saturn => self.saturn,
            Body::Rahu => self.rahu,
            Body::Ketu => self.ketu,
            Body::Uranus => self.uranus,
        }
    }

    /// The lines of the chart in the order of display: the Ascendant, the Sun
    /// and the Moon, then Mars to Saturn by weekday, then Rahu, Ketu and Uranus.
    pub open spec fn lines(&self) -> Seq<BodyResult> {
        seq![
            BodyResult { body: Body::Ascendant, position: self.ascendant },
            BodyResult { body: Body::Sun, position: self.sun },
            BodyResult { body: Body::Moon, position: self.moon },
            BodyResult { body: Body::Mars, position: self.mars },
            BodyResult { body: Body::Mercury, position: self.mercury },
            BodyResult { body: Body::Jupiter, position: self.jupiter },
            BodyResult { body: Body::Venus, position: self.venus },
            BodyResult { body: Body::Saturn, position: self.saturn },
            BodyResult { body: Body::Rahu, position: self.rahu },
            BodyResult { body: Body::Ketu, position: self.ketu },
            BodyResult { body: Body::Uranus, position: self.uranus },
        ]
    }

    /// Looks a body up.
    pub fn position(&self, body: Body) -> (position: ZodiacPosition)
        ensures
            position == self.position_of(body),
    {
        match body {
            Body::Ascendant => self.ascendant,
            Body::Sun => self.sun,
            Body::Moon => self.moon,
            Body::Mars => self.mars,
            Body::Mercury => self.mercury,
            Body::Jupiter => self.jupiter,
            Body::Venus => self.venus,
            Body::Saturn => self.saturn,
            Body::Rahu => self.rahu,
            Body::Ketu => self.ketu,
            Body::Uranus => self.uranus,
        }
    }

    /// Lists the chart line by line, in the order of display.
    pub fn results(&self) -> (lines: Vec<BodyResult>)
        ensures
            lines@ == self.lines(),
    {
        let mut lines: Vec<BodyResult> = Vec::new();
        lines.push(BodyResult { body: Body::Ascendant, position: self.ascendant });
        lines.push(BodyResult { body: Body::Sun, position: self.sun });
        lines.push(BodyResult { body: Body::Moon, position: self.moon });
        lines.push(BodyResult { body: Body::Mars, position: self.mars });
        lines.push(BodyResult { body: Body::Mercury, position: self.mercury });
        lines.push(BodyResult { body: Body::Jupiter, position: self.jupiter });
        lines.push(BodyResult { body: Body::Venus, position: self.venus });
        lines.push(BodyResult { body: Body::Saturn, position: self.saturn });
        lines.push(BodyResult { body: Body::Rahu, position: self.rahu });
        lines.push(BodyResult { body: Body::Ketu, position: self.ketu });
        lines.push(BodyResult { body: Body::Uranus, position: self.uranus });
        assert(lines@ =~= self.lines());
        lines
    }
}

/// Computes the chart of a birth.
pub fn compute_chart(moment: &CivilBirthMoment, location: &Location, terms: &TrigTerms) -> (chart:
    Chart)
    requires
        moment.wf(),
        location.wf(),
        terms.wf(),
    ensures
        chart == chart_of(*moment, location@.longitude_east, *terms),
        chart.wf(),
{
    let jd: JulianDay = calculate_jd(moment);
    let solar: EclipticLongitude = estimate_solar_thai(moment);
    Chart {
        ascendant: ascendant(solar, moment.hour, moment.minute, location),
        sun: ZodiacPosition::from_longitude(solar),
        moon: ZodiacPosition::from_longitude(calculate_moon_position(jd, terms.moon_anomaly_sine)),
        mars: ZodiacPosition::from_longitude(
            calculate_mars_position(&terms.mars.trig, terms.mars.bearing),
        ),
        mercury: ZodiacPosition::from_longitude(
            calculate_mercury_position(&terms.mercury.trig, terms.mercury.bearing),
        ),
        jupiter: ZodiacPosition::from_longitude(
            calculate_jupiter_position(&terms.jupiter.trig, terms.jupiter.bearing),
        ),
        venus: ZodiacPosition::from_longitude(
            calculate_venus_position(&terms.venus.trig, terms.venus.bearing),
        ),
        saturn: ZodiacPosition::from_longitude(
            calculate_saturn_position(jd, terms.saturn_anomaly_sine),
        ),
        rahu: ZodiacPosition::from_longitude(calculate_rahu_position(jd)),
        ketu: ZodiacPosition::from_longitude(calculate_ketu_thai_position(jd)),
        uranus: ZodiacPosition::from_longitude(calculate_uranus_position(jd)),
    }
}

/// Equal inputs give equal charts: nothing but the moment, the birthplace's
/// longitude and the trigonometric terms enters a chart.
pub proof fn lemma_chart_is_a_function_of_its_inputs(
    first_moment: CivilBirthMoment,
    first_longitude: int,
    first_terms: TrigTerms,
    second_moment: CivilBirthMoment,
    second_longitude: int,
    second_terms: TrigTerms,
)
    requires
        first_moment == second_moment,
        first_longitude == second_longitude,
        first_terms == second_terms,
    ensures
        chart_of(first_moment, first_longitude, first_terms) == chart_of(
            second_moment,
            second_longitude,
            second_terms,
        ),
{
}

} // verus!
