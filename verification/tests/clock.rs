use attendance::clock::{
    calculate_duration, checked_is_early_leave, exceeds_time_of_day, format_bound, format_stored, format_time,
    get_company_time, is_early_leave, is_late_strict, leap_year, left_before, parse_time, parse_time_of_day,
    resolve_zone, CivilTime, CompanyTime,
};
use chrono::TimeZone;

const ZONE: &str = "Asia/Phnom_Penh";

fn at(text: &str) -> CompanyTime {
    parse_time(text, ZONE).unwrap()
}

/// The same reading built by chrono itself.
fn chrono_at(zone: chrono_tz::Tz, y: i32, mo: u32, d: u32, h: u32, mi: u32, s: u32) -> chrono::DateTime<chrono_tz::Tz> {
    zone.with_ymd_and_hms(y, mo, d, h, mi, s).single().unwrap()
}

#[test]
fn parse_time_reads_the_stored_form() {
    let t = parse_time("2024-03-05 08:00:01", ZONE).unwrap();
    assert_eq!(t.local, CivilTime { year: 2024, month: 3, day: 5, second_of_day: 8 * 3600 + 1, nanos: 0 });
    // Phnom Penh is seven hours ahead of UTC: 01:00:01 on that day in UTC.
    assert_eq!(t.epoch_seconds, 1709596800 + 3601);
    assert_eq!(t.epoch_seconds, chrono_at(chrono_tz::Asia::Phnom_Penh, 2024, 3, 5, 8, 0, 1).timestamp());
}

#[test]
fn parse_time_reads_every_pattern() {
    let plain = at("2024-03-05 08:00:01");
    assert_eq!(at("2024-03-05T08:00:01"), plain);
    let fraction = at("2024-03-05 08:00:01.250");
    assert_eq!(fraction.epoch_seconds, plain.epoch_seconds);
    assert_eq!(fraction.local.nanos, 250_000_000);
    assert_eq!(at("2024-03-05T08:00:01.5").local.nanos, 500_000_000);
}

#[test]
fn parse_time_trims_white_space() {
    assert_eq!(at("  2024-03-05 08:00:01\n"), at("2024-03-05 08:00:01"));
}

#[test]
fn parse_time_rejects_what_no_pattern_reads() {
    assert_eq!(parse_time("2024-03-05", ZONE), None);
    assert_eq!(parse_time("05/03/2024 08:00:01", ZONE), None);
    assert_eq!(parse_time("2024-02-30 08:00:01", ZONE), None);
    assert_eq!(parse_time("2024-03-05 24:00:00", ZONE), None);
    assert_eq!(parse_time("", ZONE), None);
}

#[test]
fn parse_time_needs_a_known_zone() {
    assert_eq!(parse_time("2024-03-05 08:00:01", "Atlantis/Capital"), None);
}

#[test]
fn parse_time_rejects_a_reading_that_the_zone_skips() {
    // New York put its clocks forward from 02:00 to 03:00 on that day.
    assert_eq!(parse_time("2024-03-10 02:30:00", "America/New_York"), None);
    assert!(parse_time("2024-03-10 03:30:00", "America/New_York").is_some());
    // And back from 02:00 to 01:00 on this one, so 01:30 came twice.
    assert_eq!(parse_time("2024-11-03 01:30:00", "America/New_York"), None);
}

#[test]
fn parse_time_keeps_a_leap_second() {
    let t = at("2016-12-31 23:59:60");
    assert_eq!(t.local.second_of_day, 86_399);
    assert_eq!(t.local.nanos, 1_000_000_000);
    assert!(t.local.is_valid());
    assert_eq!(format_time(&t), "2016-12-31 23:59:60");
}

#[test]
fn format_time_writes_the_stored_form() {
    let t = at("2024-03-05T08:00:01");
    assert_eq!(format_time(&t), "2024-03-05 08:00:01");
    assert_eq!(format_stored(&t.local), "2024-03-05 08:00:01");
    assert_eq!(format_time(&at("0987-01-02 03:04:05")), "0987-01-02 03:04:05");
}

#[test]
fn format_bound_parts_date_and_time_by_a_letter() {
    let t = at("2024-03-05 08:00:01");
    assert_eq!(format_bound(&t.local), "2024-03-05T08:00:01");
    assert_eq!(format_bound(&t.day_start()), "2024-03-05T00:00:00");
    assert_eq!(format_bound(&t.day_end()), "2024-03-05T23:59:59");
}

#[test]
fn format_time_reads_back() {
    let t = at("2031-12-31 23:59:59");
    assert_eq!(parse_time(&format_time(&t), ZONE), Some(t));
}

#[test]
fn resolve_zone_falls_back_to_shanghai() {
    assert_eq!(resolve_zone("Asia/Phnom_Penh"), "Asia/Phnom_Penh");
    assert_eq!(resolve_zone("Atlantis/Capital"), "Asia/Shanghai");
    assert_eq!(resolve_zone(""), "Asia/Shanghai");
}

#[test]
fn company_time_is_a_valid_reading_of_now() {
    let before = chrono::Utc::now().timestamp();
    let now = get_company_time(ZONE);
    let after = chrono::Utc::now().timestamp();
    assert!(now.local.is_valid());
    assert!(before <= now.epoch_seconds && now.epoch_seconds <= after);
    // The wall clock in Phnom Penh is seven hours ahead of the instant.
    let local = chrono::DateTime::from_timestamp(now.epoch_seconds + 7 * 3600, 0).unwrap().naive_utc();
    assert_eq!(format_time(&now), local.format("%Y-%m-%d %H:%M:%S").to_string());
    // An unknown zone is read as Shanghai, eight hours ahead.
    let elsewhere = get_company_time("Atlantis/Capital");
    let local = chrono::DateTime::from_timestamp(elsewhere.epoch_seconds + 8 * 3600, 0).unwrap().naive_utc();
    assert_eq!(format_time(&elsewhere), local.format("%Y-%m-%d %H:%M:%S").to_string());
}

#[test]
fn is_late_is_strict() {
    assert!(is_late_strict(&at("2024-03-05 08:00:01"), "08:00:00", ZONE));
    assert!(!is_late_strict(&at("2024-03-05 08:00:00"), "08:00:00", ZONE));
    assert!(!is_late_strict(&at("2024-03-05 07:59:59"), "08:00:00", ZONE));
}

#[test]
fn is_late_ignores_an_unreadable_rule() {
    assert!(!is_late_strict(&at("2024-03-05 23:00:00"), "eight o'clock", ZONE));
    assert!(!is_late_strict(&at("2024-03-05 23:00:00"), "25:00:00", ZONE));
}

#[test]
fn time_of_day_reads_with_and_without_seconds() {
    assert_eq!(parse_time_of_day("08:00:00"), Some(28_800));
    assert_eq!(parse_time_of_day("08:00"), Some(28_800));
    assert_eq!(parse_time_of_day("23:59:59"), Some(86_399));
    assert_eq!(parse_time_of_day("06:30"), Some(23_400));
    assert_eq!(parse_time_of_day("8"), None);
    assert_eq!(parse_time_of_day(""), None);
}

#[test]
fn exceeds_time_of_day_compares_seconds() {
    let t = at("2024-03-05 08:00:01");
    assert!(exceeds_time_of_day(&t, Some(28_800)));
    assert!(!exceeds_time_of_day(&t, Some(28_801)));
    assert!(!exceeds_time_of_day(&t, None));
}

#[test]
fn early_leave_is_judged_on_the_day_of_the_end() {
    let start = at("2024-03-05 22:00:00");
    assert!(is_early_leave(&start, &at("2024-03-06 05:30:00"), "06:00", ZONE));
    assert!(!is_early_leave(&start, &at("2024-03-06 06:30:00"), "06:00", ZONE));
    assert!(!is_early_leave(&start, &at("2024-03-06 06:00:00"), "06:00:00", ZONE));
    assert!(is_early_leave(&start, &at("2024-03-06 05:59:59"), "06:00:00", ZONE));
}

#[test]
fn early_leave_on_a_same_day_shift() {
    let start = at("2024-03-05 07:00:00");
    assert!(is_early_leave(&start, &at("2024-03-05 21:29:59"), "21:30:00", ZONE));
    assert!(!is_early_leave(&start, &at("2024-03-05 21:30:00"), "21:30:00", ZONE));
    assert!(!is_early_leave(&start, &at("2024-03-05 12:00:00"), "not a time", ZONE));
}

#[test]
fn early_leave_agrees_with_chrono() {
    let end = at("2024-03-06 05:30:00");
    let expected = chrono_at(chrono_tz::Asia::Phnom_Penh, 2024, 3, 6, 6, 0, 0);
    let ended = chrono_at(chrono_tz::Asia::Phnom_Penh, 2024, 3, 6, 5, 30, 0);
    assert_eq!(is_early_leave(&end, &end, "06:00:00", ZONE), ended < expected);
    assert!(left_before(&end, expected.timestamp()));
    assert!(!left_before(&end, ended.timestamp()));
}

#[test]
fn early_leave_in_an_unknown_zone_is_judged_in_shanghai() {
    // 05:30 in Phnom Penh is 06:30 in Shanghai: not before 06:00 on Shanghai's clocks.
    let end = at("2024-03-06 05:30:00");
    assert_eq!(checked_is_early_leave(&end, &end, "06:00:00", "Atlantis/Capital"), Some(false));
    // 04:30 in Phnom Penh is 05:30 in Shanghai.
    let end = at("2024-03-06 04:30:00");
    assert_eq!(checked_is_early_leave(&end, &end, "06:00:00", "Atlantis/Capital"), Some(true));
}

#[test]
fn checked_early_leave_knows_when_the_expected_end_does_not_exist() {
    let end = parse_time("2024-03-10 01:00:00", "America/New_York").unwrap();
    assert_eq!(checked_is_early_leave(&end, &end, "02:30:00", "America/New_York"), None);
    assert_eq!(checked_is_early_leave(&end, &end, "03:30:00", "America/New_York"), Some(true));
    assert_eq!(checked_is_early_leave(&end, &end, "00:30:00", "America/New_York"), Some(false));
    assert_eq!(checked_is_early_leave(&end, &end, "no time", "America/New_York"), Some(false));
}

#[test]
fn duration_is_in_whole_minutes() {
    let a = at("2024-03-05 08:00:00");
    let b = at("2024-03-05 09:10:59");
    assert_eq!(calculate_duration(&a, &b), 70);
    assert_eq!(calculate_duration(&b, &a), -70);
    assert_eq!(calculate_duration(&a, &a), 0);
    assert_eq!(calculate_duration(&a, &at("2024-03-05 08:00:59")), 0);
    assert_eq!(calculate_duration(&at("2024-03-05 08:00:59"), &a), 0);
}

#[test]
fn duration_counts_fractions_of_a_second() {
    let a = at("2024-03-05 08:00:00.900");
    let b = at("2024-03-05 08:01:00.100");
    // 59.2 seconds.
    assert_eq!(calculate_duration(&a, &b), 0);
    let b = at("2024-03-05 08:01:00.900");
    assert_eq!(calculate_duration(&a, &b), 1);
}

#[test]
fn duration_crosses_midnight_and_years() {
    assert_eq!(calculate_duration(&at("2024-03-05 22:00:00"), &at("2024-03-06 05:30:00")), 450);
    assert_eq!(calculate_duration(&at("2023-12-31 23:59:00"), &at("2024-01-01 00:01:00")), 2);
    assert_eq!(calculate_duration(&at("2024-02-28 12:00:00"), &at("2024-03-01 12:00:00")), 2 * 24 * 60);
}

#[test]
fn duration_agrees_with_chrono() {
    let texts = [
        "1969-12-31 23:59:59.5",
        "1970-01-01 07:00:00",
        "2016-12-31 23:59:60",
        "2016-12-31 23:59:60.5",
        "2017-01-01 00:00:00",
        "2017-01-01 06:59:59.999",
        "2017-01-01 06:59:60.25",
        "2017-01-01 07:00:00",
        "2024-03-05 08:00:00.900",
        "2024-03-05 08:01:00.100",
        "2031-07-01 00:00:00",
    ];
    let zone = chrono_tz::Asia::Phnom_Penh;
    for a in texts {
        for b in texts {
            let naive_a = chrono::NaiveDateTime::parse_from_str(a, "%Y-%m-%d %H:%M:%S%.f").unwrap();
            let naive_b = chrono::NaiveDateTime::parse_from_str(b, "%Y-%m-%d %H:%M:%S%.f").unwrap();
            let zoned_a = zone.from_local_datetime(&naive_a).single().unwrap();
            let zoned_b = zone.from_local_datetime(&naive_b).single().unwrap();
            let expected = zoned_b.signed_duration_since(zoned_a).num_minutes() as i32;
            assert_eq!(calculate_duration(&at(a), &at(b)), expected, "from {} to {}", a, b);
        }
    }
}

#[test]
fn leap_years_follow_the_gregorian_rule() {
    assert!(leap_year(2024));
    assert!(!leap_year(2023));
    assert!(!leap_year(1900));
    assert!(leap_year(2000));
    assert!(leap_year(-4));
    assert!(leap_year(0));
}

#[test]
fn validity_follows_the_calendar() {
    let good = CivilTime { year: 2024, month: 2, day: 29, second_of_day: 86_399, nanos: 999_999_999 };
    assert!(good.is_valid());
    assert!(!CivilTime { year: 2023, ..good }.is_valid());
    assert!(!CivilTime { month: 13, ..good }.is_valid());
    assert!(!CivilTime { month: 0, ..good }.is_valid());
    assert!(!CivilTime { day: 0, ..good }.is_valid());
    assert!(!CivilTime { month: 4, day: 31, ..good }.is_valid());
    assert!(!CivilTime { second_of_day: 86_400, ..good }.is_valid());
    assert!(!CivilTime { nanos: 2_000_000_000, ..good }.is_valid());
    assert!(CivilTime { nanos: 1_500_000_000, ..good }.is_valid());
    assert!(!CivilTime { second_of_day: 86_398, nanos: 1_500_000_000, ..good }.is_valid());
    assert!(CivilTime { year: 262_142, month: 12, day: 31, ..good }.is_valid());
    assert!(!CivilTime { year: 262_143, month: 1, day: 1, ..good }.is_valid());
    assert!(CivilTime { year: -262_143, month: 1, day: 1, ..good }.is_valid());
    assert!(!CivilTime { year: -262_144, month: 12, day: 31, ..good }.is_valid());
}

#[test]
fn validity_agrees_with_chrono() {
    for year in [-262_144, -262_143, -401, -400, -1, 0, 1, 1900, 2000, 2023, 2024, 262_142, 262_143] {
        for month in 0..=13 {
            for day in [0, 1, 28, 29, 30, 31, 32] {
                let ours = CivilTime { year, month, day, second_of_day: 0, nanos: 0 }.is_valid();
                let theirs = chrono::NaiveDate::from_ymd_opt(year, month, day).is_some();
                assert_eq!(ours, theirs, "{}-{}-{}", year, month, day);
            }
        }
    }
}
