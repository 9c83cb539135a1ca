use chrono::{Datelike, TimeZone, Timelike};
use esp_clock::time::{
    calculate_time_until_next_minute, get_day_month, get_hour_min, get_year, hour_min_digits,
    year_digits, CivilTime,
};

// 2015-10-21 23:29:00 UTC, which is 16:29 the same day in Los Angeles.
const ARRIVAL: i64 = 1_445_470_140;

#[test]
fn hour_and_minute_in_utc() {
    assert_eq!(get_hour_min(ARRIVAL, "UTC"), Some(vec![2, 3, 2, 9]));
    assert_eq!(get_hour_min(0, "UTC"), Some(vec![0, 0, 0, 0]));
    assert_eq!(get_hour_min(86_399, "UTC"), Some(vec![2, 3, 5, 9]));
}

#[test]
fn hour_and_minute_follow_the_timezone() {
    assert_eq!(get_hour_min(ARRIVAL, "America/Los_Angeles"), Some(vec![1, 6, 2, 9]));
    assert_eq!(get_hour_min(ARRIVAL, "Europe/Paris"), Some(vec![0, 1, 2, 9]));
    assert_eq!(get_hour_min(ARRIVAL, "Asia/Kolkata"), Some(vec![0, 4, 5, 9]));
}

#[test]
fn daylight_saving_time_is_applied() {
    // 2026-01-15 12:00 UTC and 2026-07-15 12:00 UTC in New York.
    assert_eq!(get_hour_min(1_768_478_400, "America/New_York"), Some(vec![0, 7, 0, 0]));
    assert_eq!(get_hour_min(1_784_116_800, "America/New_York"), Some(vec![0, 8, 0, 0]));
}

#[test]
fn unknown_timezone_gives_nothing() {
    assert_eq!(get_hour_min(ARRIVAL, "Hill/Valley"), None);
    assert_eq!(get_hour_min(ARRIVAL, ""), None);
    assert_eq!(get_hour_min(ARRIVAL, "europe/paris"), None);
    assert_eq!(get_year(ARRIVAL, "Hill/Valley"), None);
    assert_eq!(get_day_month(ARRIVAL, "Hill/Valley"), None);
    assert_eq!(calculate_time_until_next_minute(ARRIVAL, "Hill/Valley"), None);
}

#[test]
fn instant_outside_the_calendar_gives_nothing() {
    assert_eq!(get_hour_min(i64::MAX, "UTC"), None);
    assert_eq!(get_year(i64::MIN, "UTC"), None);
}

#[test]
fn year_as_four_digits() {
    assert_eq!(get_year(ARRIVAL, "UTC"), Some(vec![2, 0, 1, 5]));
    assert_eq!(get_year(0, "UTC"), Some(vec![1, 9, 7, 0]));
    // One second before 1970 in UTC is still 1969 there and already 1970 in Tokyo.
    assert_eq!(get_year(-1, "UTC"), Some(vec![1, 9, 6, 9]));
    assert_eq!(get_year(-1, "Asia/Tokyo"), Some(vec![1, 9, 7, 0]));
}

#[test]
fn year_beyond_four_digits_shows_its_last_four() {
    let time = CivilTime { year: 12_345, month: 1, day: 1, hour: 0, minute: 0, second: 0 };
    assert_eq!(year_digits(&time), Some(vec![2, 3, 4, 5]));
    let time = CivilTime { year: 85, month: 1, day: 1, hour: 0, minute: 0, second: 0 };
    assert_eq!(year_digits(&time), Some(vec![0, 0, 8, 5]));
    let time = CivilTime { year: 0, month: 1, day: 1, hour: 0, minute: 0, second: 0 };
    assert_eq!(year_digits(&time), Some(vec![0, 0, 0, 0]));
}

#[test]
fn year_before_the_year_zero_cannot_be_shown() {
    let time = CivilTime { year: -1, month: 12, day: 31, hour: 23, minute: 59, second: 59 };
    assert_eq!(year_digits(&time), None);
    // The year -43 in UTC.
    assert_eq!(get_year(-63_500_000_000, "UTC"), None);
    assert!(get_hour_min(-63_500_000_000, "UTC").is_some());
}

#[test]
fn hour_and_minute_of_a_civil_time() {
    let time = CivilTime { year: 1985, month: 10, day: 26, hour: 1, minute: 21, second: 0 };
    assert_eq!(hour_min_digits(&time), vec![0, 1, 2, 1]);
    let time = CivilTime { year: 1955, month: 11, day: 12, hour: 22, minute: 4, second: 0 };
    assert_eq!(hour_min_digits(&time), vec![2, 2, 0, 4]);
}

#[test]
fn day_and_month() {
    assert_eq!(get_day_month(ARRIVAL, "UTC"), Some((21, 10)));
    assert_eq!(get_day_month(ARRIVAL, "Europe/Paris"), Some((22, 10)));
    assert_eq!(get_day_month(0, "UTC"), Some((1, 1)));
    // 2024-02-29 12:00 UTC.
    assert_eq!(get_day_month(1_709_208_000, "UTC"), Some((29, 2)));
    assert_eq!(get_day_month(1_735_689_599, "UTC"), Some((31, 12)));
}

#[test]
fn wait_until_the_next_minute() {
    assert_eq!(calculate_time_until_next_minute(ARRIVAL, "UTC"), Some(60));
    assert_eq!(calculate_time_until_next_minute(ARRIVAL + 1, "UTC"), Some(59));
    assert_eq!(calculate_time_until_next_minute(ARRIVAL + 59, "UTC"), Some(1));
    assert_eq!(calculate_time_until_next_minute(ARRIVAL + 60, "UTC"), Some(60));
    // A zone whose offset is not a whole number of minutes from UTC in 1900
    // (Amsterdam, then 19 minutes 32 seconds ahead).
    let amsterdam_1900 = -2_208_988_800;
    let second = chrono_tz::Europe::Amsterdam.timestamp_opt(amsterdam_1900, 0).unwrap().second();
    assert_eq!(
        calculate_time_until_next_minute(amsterdam_1900, "Europe/Amsterdam"),
        Some(60 - second as u64)
    );
}

#[test]
fn digits_agree_with_the_calendar_library() {
    for (instant, zone) in [
        (ARRIVAL, chrono_tz::America::Los_Angeles),
        (1_700_000_000, chrono_tz::Asia::Tokyo),
        (951_782_400, chrono_tz::Australia::Sydney),
        (-1_000_000_000, chrono_tz::Europe::London),
    ] {
        let local = zone.timestamp_opt(instant, 0).unwrap();
        let (h, m) = (local.hour() as u8, local.minute() as u8);
        assert_eq!(get_hour_min(instant, zone.name()), Some(vec![h / 10, h % 10, m / 10, m % 10]));
        assert_eq!(
            get_day_month(instant, zone.name()),
            Some((local.day() as u8, local.month() as u8))
        );
        let y = local.year() as u32;
        assert_eq!(
            get_year(instant, zone.name()),
            Some(vec![(y / 1000 % 10) as u8, (y / 100 % 10) as u8, (y / 10 % 10) as u8, (y % 10) as u8])
        );
    }
}

#[test]
fn edges_of_the_calendar_do_not_break_the_clock() {
    // The last and the first second that the calendar library can name.
    let last = chrono::DateTime::<chrono::Utc>::MAX_UTC.timestamp();
    let first = chrono::DateTime::<chrono::Utc>::MIN_UTC.timestamp();
    for zone in ["UTC", "Asia/Tokyo", "America/Los_Angeles", "Pacific/Kiritimati", "Etc/GMT+12"] {
        for instant in [last, last - 1, last - 86_400, first, first + 1, first + 86_400] {
            let shown = get_hour_min(instant, zone).expect("the instant is on the calendar");
            assert_eq!(shown.len(), 4);
            assert!(shown.iter().all(|digit| *digit <= 9), "{zone} at {instant}: {shown:?}");
            let (day, month) = get_day_month(instant, zone).expect("on the calendar");
            assert!((1..=31).contains(&day) && (1..=12).contains(&month));
            let wait = calculate_time_until_next_minute(instant, zone).expect("on the calendar");
            assert!((1..=60).contains(&wait));
            let _ = get_year(instant, zone);
        }
        assert_eq!(get_hour_min(last + 1, zone), None);
        assert_eq!(get_hour_min(first - 1, zone), None);
    }
}
