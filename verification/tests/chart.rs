use suriyayart::angle::EclipticLongitude;
use suriyayart::anomaly::{moon_mean_anomaly, saturn_mean_anomaly};
use suriyayart::calendar::CivilBirthMoment;
use suriyayart::chart::{compute_chart, Body, BodyResult, Chart, PlanetTerms, TrigTerms};
use suriyayart::julian::{calculate_jd, JulianDay};
use suriyayart::kepler::{
    anomaly_angles, covers, geocentric_vector, true_angles, AnomalyTrig, KeplerModel, TrueTrig,
};
use suriyayart::location::Location;
use suriyayart::planets::{jupiter_model, mars_model, mercury_model, venus_model};
use suriyayart::zodiac::ZodiacPosition;

fn sine(angle: EclipticLongitude) -> i64 {
    ((angle.nanodegrees as f64 / 1e9).to_radians().sin() * 1e9).round() as i64
}

fn cosine(angle: EclipticLongitude) -> i64 {
    ((angle.nanodegrees as f64 / 1e9).to_radians().cos() * 1e9).round() as i64
}

fn planet_terms(model: &KeplerModel, jd: JulianDay) -> PlanetTerms {
    assert!(covers(model, jd));
    let angles = anomaly_angles(model, jd);
    let trig = AnomalyTrig {
        earth_sines: angles.earth.map(sine),
        earth_cosine: cosine(angles.earth[0]),
        body_sines: angles.body.map(sine),
        body_cosine: cosine(angles.body[0]),
        node_sine: sine(angles.node),
        node_cosine: cosine(angles.node),
        inclination_cosine: cosine(angles.inclination),
        perturbation_sines: angles.perturbations.map(sine),
        nutation_sine: sine(angles.nutation),
    };
    let places = true_angles(model, jd, &trig);
    let place_trig = TrueTrig {
        earth_sine: sine(places.earth),
        earth_cosine: cosine(places.earth),
        body_sine: sine(places.body),
        body_cosine: cosine(places.body),
    };
    let vector = geocentric_vector(model, jd, &trig, &place_trig);
    let bearing = ((vector.y as f64).atan2(vector.x as f64).to_degrees() * 1e9).round() as i64;
    PlanetTerms { trig, bearing }
}

fn terms_for(moment: &CivilBirthMoment) -> TrigTerms {
    let jd = calculate_jd(moment);
    TrigTerms {
        moon_anomaly_sine: sine(moon_mean_anomaly(jd)),
        saturn_anomaly_sine: sine(saturn_mean_anomaly(jd)),
        mars: planet_terms(&mars_model(), jd),
        mercury: planet_terms(&mercury_model(), jd),
        jupiter: planet_terms(&jupiter_model(), jd),
        venus: planet_terms(&venus_model(), jd),
    }
}

fn chart_for(day: u32, month: u32, year_be: u32, hour: u32, minute: u32, longitude: i64) -> Chart {
    let moment = CivilBirthMoment::new(day, month, year_be, hour, minute).unwrap();
    let location = Location::new("birthplace".to_string(), longitude).unwrap();
    compute_chart(&moment, &location, &terms_for(&moment))
}

fn degrees(position: ZodiacPosition) -> f64 {
    position.degree_in_sign as f64 / 1e9
}

fn silent_planet() -> PlanetTerms {
    PlanetTerms {
        trig: AnomalyTrig {
            earth_sines: [0; 8],
            earth_cosine: 0,
            body_sines: [0; 8],
            body_cosine: 0,
            node_sine: 0,
            node_cosine: 0,
            inclination_cosine: 0,
            perturbation_sines: [0; 3],
            nutation_sine: 0,
        },
        bearing: 0,
    }
}

#[test]
fn reference_birth_in_bangkok() {
    let chart = chart_for(3, 10, 2530, 15, 30, 100_500_000_000);
    assert_eq!(chart.sun, ZodiacPosition { sign_index: 5, degree_in_sign: 20_513_347_022 });
    assert_eq!(chart.ascendant, ZodiacPosition { sign_index: 9, degree_in_sign: 27_864_476_384 });
    assert_eq!(chart.rahu, ZodiacPosition { sign_index: 11, degree_in_sign: 10_861_788_260 });
    assert_eq!(chart.ketu, ZodiacPosition { sign_index: 0, degree_in_sign: 964_687_983 });
    assert_eq!(chart.uranus, ZodiacPosition { sign_index: 7, degree_in_sign: 25_769_007_664 });
    assert_eq!(chart.moon.sign_index, 9);
    assert!((degrees(chart.moon) - 13.217006791).abs() < 1e-6);
    assert_eq!(chart.mars.sign_index, 5);
    assert!((degrees(chart.mars) - 7.429910011).abs() < 1e-6);
    assert_eq!(chart.mercury.sign_index, 6);
    assert!((degrees(chart.mercury) - 9.256080176).abs() < 1e-6);
    assert_eq!(chart.jupiter.sign_index, 0);
    assert!((degrees(chart.jupiter) - 0.129380555).abs() < 1e-6);
    assert_eq!(chart.venus.sign_index, 5);
    assert!((degrees(chart.venus) - 24.127724064).abs() < 1e-6);
    assert_eq!(chart.saturn.sign_index, 7);
    assert!((degrees(chart.saturn) - 27.245258733).abs() < 1e-6);
}

#[test]
fn half_an_hour_after_the_reference_birth() {
    let chart = chart_for(3, 10, 2530, 16, 0, 100_500_000_000);
    assert_eq!(chart.sun, ZodiacPosition { sign_index: 5, degree_in_sign: 20_513_347_022 });
    assert_eq!(chart.ascendant, ZodiacPosition { sign_index: 10, degree_in_sign: 7_773_357_288 });
    assert_eq!(chart.rahu, ZodiacPosition { sign_index: 11, degree_in_sign: 10_860_685_031 });
    assert_eq!(chart.ketu, ZodiacPosition { sign_index: 0, degree_in_sign: 967_708_816 });
    assert_eq!(chart.uranus, ZodiacPosition { sign_index: 7, degree_in_sign: 25_769_251_955 });
    assert_eq!(chart.moon.sign_index, 9);
    assert!((degrees(chart.moon) - 13.471361604).abs() < 1e-6);
    assert_eq!(chart.mars.sign_index, 5);
    assert!((degrees(chart.mars) - 7.441264020).abs() < 1e-6);
    assert_eq!(chart.mercury.sign_index, 6);
    assert!((degrees(chart.mercury) - 9.292024224).abs() < 1e-6);
    assert_eq!(chart.jupiter.sign_index, 0);
    assert!((degrees(chart.jupiter) - 0.126681417).abs() < 1e-6);
    assert_eq!(chart.venus.sign_index, 5);
    assert!((degrees(chart.venus) - 24.153629344).abs() < 1e-6);
    assert_eq!(chart.saturn.sign_index, 7);
    assert!((degrees(chart.saturn) - 27.245891599).abs() < 1e-6);
}

#[test]
fn chart_is_the_same_every_time() {
    let first = chart_for(3, 10, 2530, 15, 30, 100_500_000_000);
    let second = chart_for(3, 10, 2530, 15, 30, 100_500_000_000);
    assert_eq!(first, second);
    assert_eq!(format!("{:?}", first), format!("{:?}", second));
}

#[test]
fn only_the_ascendant_depends_on_the_birthplace() {
    let bangkok = chart_for(3, 10, 2530, 15, 30, 100_500_000_000);
    let chiang_mai = chart_for(3, 10, 2530, 15, 30, 98_980_000_000);
    assert_ne!(bangkok.ascendant, chiang_mai.ascendant);
    assert_eq!(
        chiang_mai.ascendant,
        ZodiacPosition { sign_index: 9, degree_in_sign: 25_331_143_051 }
    );
    let mut moved = bangkok;
    moved.ascendant = chiang_mai.ascendant;
    assert_eq!(moved, chiang_mai);
}

#[test]
fn chart_for_given_terms() {
    let moment = CivilBirthMoment::new(3, 10, 2530, 15, 30).unwrap();
    let location = Location::new("Bangkok".to_string(), 100_500_000_000).unwrap();
    let terms = TrigTerms {
        moon_anomaly_sine: 0,
        saturn_anomaly_sine: 0,
        mars: silent_planet(),
        mercury: PlanetTerms { bearing: 45_000_000_000, ..silent_planet() },
        jupiter: PlanetTerms { bearing: -45_000_000_000, ..silent_planet() },
        venus: PlanetTerms { bearing: 360_000_000_000, ..silent_planet() },
    };
    let chart = compute_chart(&moment, &location, &terms);
    // Without sines the Moon and Saturn stand at their mean longitudes.
    assert_eq!(chart.moon, ZodiacPosition { sign_index: 9, degree_in_sign: 17_849_585_058 });
    assert_eq!(chart.saturn, ZodiacPosition { sign_index: 7, degree_in_sign: 23_314_192_174 });
    // Mars has no corrections; the others carry the constant part of the nutation.
    assert_eq!(chart.mars, ZodiacPosition { sign_index: 0, degree_in_sign: 0 });
    assert_eq!(chart.mercury, ZodiacPosition { sign_index: 1, degree_in_sign: 14_994_310_000 });
    assert_eq!(chart.jupiter, ZodiacPosition { sign_index: 10, degree_in_sign: 14_994_310_000 });
    assert_eq!(chart.venus, ZodiacPosition { sign_index: 11, degree_in_sign: 29_994_310_000 });
}

#[test]
fn results_are_listed_in_display_order() {
    let chart = chart_for(3, 10, 2530, 15, 30, 100_500_000_000);
    let lines = chart.results();
    let order = [
        Body::Ascendant,
        Body::Sun,
        Body::Moon,
        Body::Mars,
        Body::Mercury,
        Body::Jupiter,
        Body::Venus,
        Body::Saturn,
        Body::Rahu,
        Body::Ketu,
        Body::Uranus,
    ];
    assert_eq!(lines.len(), 11);
    for (line, body) in lines.iter().zip(order) {
        assert_eq!(line.body, body);
        assert_eq!(line.position, chart.position(body));
    }
    assert_eq!(lines[0], BodyResult { body: Body::Ascendant, position: chart.ascendant });
    assert_eq!(lines[1].position, chart.sun);
    assert_eq!(lines[10].position, chart.uranus);
}

#[test]
fn position_looks_each_body_up() {
    let chart = chart_for(13, 4, 2543, 6, 0, 105_000_000_000);
    assert_eq!(chart.position(Body::Sun), ZodiacPosition { sign_index: 0, degree_in_sign: 0 });
    assert_eq!(chart.position(Body::Ascendant), ZodiacPosition { sign_index: 0, degree_in_sign: 0 });
    assert_eq!(chart.position(Body::Moon), chart.moon);
    assert_eq!(chart.position(Body::Mars), chart.mars);
    assert_eq!(chart.position(Body::Mercury), chart.mercury);
    assert_eq!(chart.position(Body::Jupiter), chart.jupiter);
    assert_eq!(chart.position(Body::Venus), chart.venus);
    assert_eq!(chart.position(Body::Saturn), chart.saturn);
    assert_eq!(chart.position(Body::Rahu), chart.rahu);
    assert_eq!(chart.position(Body::Ketu), chart.ketu);
    assert_eq!(chart.position(Body::Uranus), chart.uranus);
}

#[test]
fn every_position_is_a_sign_and_a_degree() {
    for year_be in [543u32, 1500, 2443, 2530, 2531, 2600, 3000] {
        for month in 1..=12u32 {
            for (hour, minute) in [(0u32, 0u32), (5, 59), (6, 0), (12, 34), (23, 59)] {
                let chart = chart_for(17, month, year_be, hour, minute, 100_500_000_000);
                for line in chart.results() {
                    assert!(line.position.sign_index < 12);
                    assert!(line.position.degree_in_sign <= 30_000_000_000);
                    if line.body != Body::Ascendant {
                        assert!(line.position.degree_in_sign < 30_000_000_000);
                    }
                }
            }
        }
    }
}

#[test]
fn terms_are_checked_entry_by_entry() {
    let good = TrigTerms {
        moon_anomaly_sine: 1_000_000_000,
        saturn_anomaly_sine: -1_000_000_000,
        mars: silent_planet(),
        mercury: PlanetTerms { bearing: 360_000_000_000, ..silent_planet() },
        jupiter: PlanetTerms { bearing: -360_000_000_000, ..silent_planet() },
        venus: silent_planet(),
    };
    assert!(good.is_well_formed());
    assert!(!TrigTerms { moon_anomaly_sine: 1_000_000_001, ..good }.is_well_formed());
    assert!(!TrigTerms { saturn_anomaly_sine: -1_000_000_001, ..good }.is_well_formed());
    let turned = PlanetTerms { bearing: 360_000_000_001, ..silent_planet() };
    assert!(!turned.is_well_formed());
    assert!(!TrigTerms { mars: turned, ..good }.is_well_formed());
    assert!(!TrigTerms { venus: turned, ..good }.is_well_formed());
    let mut loud = silent_planet();
    loud.trig.body_sines[7] = 1_000_000_001;
    assert!(!loud.is_well_formed());
    assert!(!TrigTerms { mercury: loud, ..good }.is_well_formed());
    let mut loud = silent_planet();
    loud.trig.earth_sines[0] = -1_000_000_001;
    assert!(!loud.trig.is_well_formed());
    let mut loud = silent_planet();
    loud.trig.perturbation_sines[2] = i64::MAX;
    assert!(!loud.trig.is_well_formed());
    let mut loud = silent_planet();
    loud.trig.nutation_sine = i64::MIN;
    assert!(!loud.trig.is_well_formed());
    let mut loud = silent_planet();
    loud.trig.inclination_cosine = 2_000_000_000;
    assert!(!loud.trig.is_well_formed());
    assert!(TrueTrig { earth_sine: 0, earth_cosine: 1_000_000_000, body_sine: -1, body_cosine: 1 }
        .is_well_formed());
    assert!(!TrueTrig { earth_sine: 0, earth_cosine: 0, body_sine: 0, body_cosine: 1_000_000_001 }
        .is_well_formed());
}
