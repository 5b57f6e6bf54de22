use suriyayart::angle::{normalize360, EclipticLongitude, FULL_CIRCLE, UNITS_PER_DEGREE};
use suriyayart::zodiac::{ZodiacPosition, SIGN_COUNT, SIGN_SPAN};

#[test]
fn normalize_keeps_angles_already_in_range() {
    assert_eq!(normalize360(0).nanodegrees, 0);
    assert_eq!(normalize360(1).nanodegrees, 1);
    assert_eq!(normalize360(170_513_347_022).nanodegrees, 170_513_347_022);
    assert_eq!(normalize360(FULL_CIRCLE - 1).nanodegrees, 359_999_999_999);
}

#[test]
fn normalize_removes_whole_turns() {
    assert_eq!(normalize360(FULL_CIRCLE).nanodegrees, 0);
    assert_eq!(normalize360(FULL_CIRCLE + 5).nanodegrees, 5);
    assert_eq!(normalize360(725 * UNITS_PER_DEGREE).nanodegrees, 5_000_000_000);
    assert_eq!(normalize360(10_080_964_687_983).nanodegrees, 964_687_983);
}

#[test]
fn normalize_lifts_negative_angles() {
    assert_eq!(normalize360(-1).nanodegrees, 359_999_999_999);
    assert_eq!(normalize360(-FULL_CIRCLE).nanodegrees, 0);
    assert_eq!(normalize360(-90 * UNITS_PER_DEGREE).nanodegrees, 270_000_000_000);
    assert_eq!(normalize360(-3_619_138_211_740).nanodegrees, 340_861_788_260);
}

#[test]
fn normalize_handles_the_extremes_of_the_integer_range() {
    assert_eq!(normalize360(i64::MAX).nanodegrees, 316_854_775_807);
    assert_eq!(normalize360(i64::MIN).nanodegrees, 43_145_224_192);
}

#[test]
fn normalize_is_idempotent_and_in_range() {
    let samples: [i64; 9] = [
        i64::MIN,
        -FULL_CIRCLE - 1,
        -1,
        0,
        1,
        FULL_CIRCLE - 1,
        FULL_CIRCLE,
        987_654_321_987_654,
        i64::MAX,
    ];
    for sample in samples {
        let once = normalize360(sample);
        assert!(once.nanodegrees < FULL_CIRCLE as u64);
        let twice = normalize360(once.nanodegrees as i64);
        assert_eq!(once, twice);
    }
}

#[test]
fn zodiac_position_of_reference_sun() {
    let sun = ZodiacPosition::from_longitude(EclipticLongitude { nanodegrees: 170_513_347_022 });
    assert_eq!(sun.sign_index, 5);
    assert_eq!(sun.degree_in_sign, 20_513_347_022);
}

#[test]
fn zodiac_position_at_sign_starts() {
    for sign in 0..SIGN_COUNT {
        let start = EclipticLongitude { nanodegrees: sign as u64 * SIGN_SPAN };
        let at_start = ZodiacPosition::from_longitude(start);
        assert_eq!(at_start, ZodiacPosition { sign_index: sign, degree_in_sign: 0 });
        let end = EclipticLongitude { nanodegrees: sign as u64 * SIGN_SPAN + SIGN_SPAN - 1 };
        let at_end = ZodiacPosition::from_longitude(end);
        assert_eq!(at_end, ZodiacPosition { sign_index: sign, degree_in_sign: SIGN_SPAN - 1 });
    }
}

#[test]
fn zodiac_position_reconstructs_longitude() {
    let mut longitude: u64 = 0;
    while longitude < FULL_CIRCLE as u64 {
        let position = ZodiacPosition::from_longitude(EclipticLongitude { nanodegrees: longitude });
        assert!(position.sign_index < 12);
        assert!(position.degree_in_sign < SIGN_SPAN);
        assert_eq!(position.sign_index as u64 * SIGN_SPAN + position.degree_in_sign, longitude);
        longitude += 123_456_789;
    }
}

#[test]
fn zodiac_position_within_a_billionth_of_a_degree_in_floating_point() {
    let longitude = EclipticLongitude { nanodegrees: 283_217_006_789 };
    let position = ZodiacPosition::from_longitude(longitude);
    let rebuilt = position.sign_index as f64 * 30.0 + position.degree_in_sign as f64 / 1e9;
    assert!((rebuilt - 283.217006789).abs() < 1e-9);
}

#[test]
fn a_longitude_is_less_than_a_full_turn() {
    assert_eq!(EclipticLongitude::new(0), Some(EclipticLongitude { nanodegrees: 0 }));
    assert_eq!(
        EclipticLongitude::new(359_999_999_999),
        Some(EclipticLongitude { nanodegrees: 359_999_999_999 })
    );
    assert_eq!(EclipticLongitude::new(360_000_000_000), None);
    assert_eq!(EclipticLongitude::new(u64::MAX), None);
}
