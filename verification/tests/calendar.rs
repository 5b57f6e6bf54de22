use suriyayart::calendar::{day_of_year, leap_year, month_length, CivilBirthMoment};
use suriyayart::julian::{calculate_jd, JulianDay};
use suriyayart::solar::{estimate_solar_thai, songkran_offset};

fn moment(day: u32, month: u32, year_be: u32, hour: u32, minute: u32) -> CivilBirthMoment {
    CivilBirthMoment::new(day, month, year_be, hour, minute).expect("a valid moment")
}

// The conversion as it is usually written, in floating point.
fn julian_day_by_floating_formula(day: u32, month: u32, year_be: u32, hour: u32, minute: u32) -> f64 {
    let mut year = year_be as i64 - 543;
    let mut month = month as i64;
    if month <= 2 {
        year -= 1;
        month += 12;
    }
    let a = year / 100;
    let b = 2 - a + a / 4;
    (365.25 * (year + 4716) as f64).floor()
        + (30.6001 * (month + 1) as f64).floor()
        + day as f64
        + hour as f64 / 24.0
        + minute as f64 / 1440.0
        + b as f64
        - 1524.5
}

#[test]
fn leap_years_follow_the_gregorian_rule() {
    assert!(!leap_year(1987));
    assert!(leap_year(1988));
    assert!(!leap_year(1900));
    assert!(leap_year(2000));
    assert!(leap_year(0));
    assert!(!leap_year(2100));
    assert!(leap_year(2400));
}

#[test]
fn month_lengths() {
    let common: [u32; 12] = [31, 28, 31, 30, 31, 30, 31, 31, 30, 31, 30, 31];
    for month in 1..=12u32 {
        assert_eq!(month_length(month, false), common[month as usize - 1]);
        let expected = if month == 2 { 29 } else { common[month as usize - 1] };
        assert_eq!(month_length(month, true), expected);
    }
}

#[test]
fn new_accepts_dates_that_exist() {
    let m = CivilBirthMoment::new(3, 10, 2530, 15, 30).unwrap();
    assert_eq!(m, CivilBirthMoment { day: 3, month: 10, year_be: 2530, hour: 15, minute: 30 });
    assert!(CivilBirthMoment::new(29, 2, 2531, 0, 0).is_some());
    assert!(CivilBirthMoment::new(29, 2, 2543, 23, 59).is_some());
    assert!(CivilBirthMoment::new(31, 12, 543, 0, 0).is_some());
    assert!(CivilBirthMoment::new(1, 1, 543, 0, 0).is_some());
    assert!(CivilBirthMoment::new(31, 12, u32::MAX, 23, 59).is_some());
}

#[test]
fn new_rejects_dates_that_do_not_exist() {
    assert!(CivilBirthMoment::new(29, 2, 2530, 12, 0).is_none());
    assert!(CivilBirthMoment::new(29, 2, 2443, 12, 0).is_none());
    assert!(CivilBirthMoment::new(30, 2, 2531, 12, 0).is_none());
    assert!(CivilBirthMoment::new(31, 4, 2530, 12, 0).is_none());
    assert!(CivilBirthMoment::new(32, 1, 2530, 12, 0).is_none());
    assert!(CivilBirthMoment::new(0, 1, 2530, 12, 0).is_none());
    assert!(CivilBirthMoment::new(1, 0, 2530, 12, 0).is_none());
    assert!(CivilBirthMoment::new(1, 13, 2530, 12, 0).is_none());
    assert!(CivilBirthMoment::new(1, 1, 542, 12, 0).is_none());
}

#[test]
fn new_rejects_times_that_do_not_exist() {
    assert!(CivilBirthMoment::new(3, 10, 2530, 24, 0).is_none());
    assert!(CivilBirthMoment::new(3, 10, 2530, 0, 60).is_none());
}

#[test]
fn day_of_year_counts_from_new_year() {
    assert_eq!(day_of_year(&moment(1, 1, 2530, 0, 0)), 1);
    assert_eq!(day_of_year(&moment(3, 10, 2530, 15, 30)), 276);
    assert_eq!(day_of_year(&moment(13, 4, 2530, 0, 0)), 103);
    assert_eq!(day_of_year(&moment(13, 4, 2531, 0, 0)), 104);
    assert_eq!(day_of_year(&moment(31, 12, 2530, 0, 0)), 365);
    assert_eq!(day_of_year(&moment(31, 12, 2531, 0, 0)), 366);
    assert_eq!(day_of_year(&moment(1, 3, 2443, 0, 0)), 60);
    assert_eq!(day_of_year(&moment(1, 3, 2543, 0, 0)), 61);
}

#[test]
fn julian_day_of_the_reference_birth() {
    let jd = calculate_jd(&moment(3, 10, 2530, 15, 30));
    assert_eq!(jd, JulianDay { minutes: 3_523_783_890 });
    let days = jd.minutes as f64 / 1440.0;
    assert!((days - 2447072.1458333335).abs() < 1e-9);
    assert!((days - julian_day_by_floating_formula(3, 10, 2530, 15, 30)).abs() < 1e-9);
}

#[test]
fn julian_day_of_known_instants() {
    // Noon of 1 January 2000 is Julian Day 2451545.
    assert_eq!(calculate_jd(&moment(1, 1, 2543, 12, 0)).minutes, 2_451_545 * 1440);
    // Midnight opening 1 January of year 0 is Julian Day 1721059.5.
    assert_eq!(calculate_jd(&moment(1, 1, 543, 0, 0)).minutes, 1_721_059 * 1440 + 720);
    // Midnight opening 17 November 1858 is Julian Day 2400000.5.
    assert_eq!(calculate_jd(&moment(17, 11, 2401, 0, 0)).minutes, 2_400_000 * 1440 + 720);
    // Noon of 15 October 1582, the first day of the Gregorian calendar, is 2299161.
    assert_eq!(calculate_jd(&moment(15, 10, 2125, 12, 0)).minutes, 2_299_161 * 1440);
}

#[test]
fn julian_day_agrees_with_the_floating_formula() {
    let years: [u32; 9] = [543, 544, 943, 1643, 2443, 2530, 2531, 2543, 3000];
    for year_be in years {
        for month in 1..=12u32 {
            for day in [1u32, 15, 28] {
                for (hour, minute) in [(0u32, 0u32), (6, 0), (12, 0), (18, 45), (23, 59)] {
                    let exact = calculate_jd(&moment(day, month, year_be, hour, minute));
                    let floating = julian_day_by_floating_formula(day, month, year_be, hour, minute);
                    assert!((exact.minutes as f64 / 1440.0 - floating).abs() < 1e-8);
                }
            }
        }
    }
}

#[test]
fn julian_day_advances_by_one_day_across_month_and_year_ends() {
    let pairs: [((u32, u32, u32), (u32, u32, u32)); 7] = [
        ((31, 12, 2530), (1, 1, 2531)),
        ((28, 2, 2530), (1, 3, 2530)),
        ((28, 2, 2531), (29, 2, 2531)),
        ((29, 2, 2531), (1, 3, 2531)),
        ((28, 2, 2443), (1, 3, 2443)),
        ((29, 2, 2543), (1, 3, 2543)),
        ((29, 2, 543), (1, 3, 543)),
    ];
    for ((d1, m1, y1), (d2, m2, y2)) in pairs {
        let first = calculate_jd(&moment(d1, m1, y1, 7, 7));
        let second = calculate_jd(&moment(d2, m2, y2, 7, 7));
        assert_eq!(second.minutes - first.minutes, 1440);
    }
}

#[test]
fn julian_day_runs_with_the_clock() {
    let earlier = calculate_jd(&moment(3, 10, 2530, 15, 30));
    let later = calculate_jd(&moment(3, 10, 2530, 16, 0));
    assert_eq!(later.minutes - earlier.minutes, 30);
    let noon = calculate_jd(&moment(3, 10, 2530, 12, 0));
    assert_eq!(noon.minutes % 1440, 0);
    assert_eq!((earlier.minutes + 720) % 1440, 15 * 60 + 30);
}

#[test]
fn julian_day_of_the_last_representable_year() {
    let jd = calculate_jd(&moment(31, 12, u32::MAX, 23, 59));
    let floating = julian_day_by_floating_formula(31, 12, u32::MAX, 23, 59);
    assert!((jd.minutes as f64 / 1440.0 - floating).abs() < 1e-3);
}

#[test]
fn songkran_offset_counts_from_the_thirteenth_of_april() {
    assert_eq!(songkran_offset(&moment(13, 4, 2530, 0, 0)), 0);
    assert_eq!(songkran_offset(&moment(14, 4, 2530, 0, 0)), 1);
    assert_eq!(songkran_offset(&moment(12, 4, 2530, 0, 0)), 364);
    assert_eq!(songkran_offset(&moment(1, 1, 2530, 0, 0)), 263);
    assert_eq!(songkran_offset(&moment(3, 10, 2530, 15, 30)), 173);
    // In a leap year the anchor is day 104, which is again 13 April.
    assert_eq!(songkran_offset(&moment(13, 4, 2531, 0, 0)), 0);
    assert_eq!(songkran_offset(&moment(12, 4, 2531, 0, 0)), 365);
    assert_eq!(songkran_offset(&moment(1, 1, 2531, 0, 0)), 263);
    assert_eq!(songkran_offset(&moment(31, 12, 2531, 0, 0)), 262);
}

#[test]
fn solar_longitude_of_the_reference_birth_is_in_virgo() {
    let sun = estimate_solar_thai(&moment(3, 10, 2530, 15, 30));
    assert_eq!(sun.nanodegrees, 170_513_347_022);
    assert_eq!(sun.nanodegrees / 30_000_000_000, 5);
    assert!((sun.nanodegrees as f64 / 1e9 - 173.0 * 0.9856262833675565).abs() < 1e-9);
}

#[test]
fn solar_longitude_at_the_ends_of_the_solar_year() {
    assert_eq!(estimate_solar_thai(&moment(13, 4, 2530, 9, 0)).nanodegrees, 0);
    assert_eq!(estimate_solar_thai(&moment(14, 4, 2530, 9, 0)).nanodegrees, 985_626_283);
    assert_eq!(estimate_solar_thai(&moment(12, 4, 2530, 9, 0)).nanodegrees, 358_767_967_145);
    assert_eq!(estimate_solar_thai(&moment(12, 4, 2531, 9, 0)).nanodegrees, 359_753_593_429);
}

#[test]
fn solar_longitude_does_not_depend_on_the_clock() {
    let morning = estimate_solar_thai(&moment(3, 10, 2530, 0, 0));
    let night = estimate_solar_thai(&moment(3, 10, 2530, 23, 59));
    assert_eq!(morning, night);
}
