use uptime::clock::WallClock;
use uptime::query::{BootTime, LoadAverage};
use uptime::report::{format_report, load_in_hundredths, select_field, uptime_report, SpanField};
use uptime::uptime::{compute_uptime, split_seconds, UptimeDuration};

const MORNING: i64 = 1_700_000_000;

fn morning() -> WallClock {
    WallClock::new(MORNING, 9, 5).unwrap()
}

fn loads() -> LoadAverage {
    LoadAverage::new([123, 87, 45], 100).unwrap()
}

fn report_after(elapsed: i64, users: u64) -> String {
    let boot = BootTime { seconds: MORNING - elapsed, microseconds: 0 };
    uptime_report(&morning(), &boot, &loads(), users)
}

fn span_of(elapsed: i64) -> String {
    let report = report_after(elapsed, 2);
    let start = "09:05  up ".len();
    let end = report.find("2 users, ").unwrap();
    report[start..end].to_string()
}

#[test]
fn full_report_after_a_day_an_hour_and_a_minute() {
    let elapsed = 86_400 + 3_600 + 60;
    assert_eq!(
        report_after(elapsed, 2),
        "09:05  up 1 day,  1:01, 2 users, load averages: 1.23 0.87 0.45\n"
    );
}

#[test]
fn full_report_right_after_boot() {
    assert_eq!(
        report_after(0, 0),
        "09:05  up 0 secs, 0 users, load averages: 1.23 0.87 0.45\n"
    );
}

#[test]
fn zero_seconds_shows_seconds() {
    assert_eq!(span_of(0), "0 secs, ");
    assert_eq!(select_field(&split_seconds(0)), SpanField::Seconds);
}

#[test]
fn one_second_is_singular() {
    assert_eq!(span_of(1), "1 sec, ");
}

#[test]
fn forty_five_seconds_shows_seconds() {
    assert_eq!(span_of(45), "45 secs, ");
    assert_eq!(select_field(&split_seconds(45)), SpanField::Seconds);
}

#[test]
fn ninety_seconds_shows_one_minute() {
    assert_eq!(span_of(90), "1 min, ");
    assert_eq!(select_field(&split_seconds(90)), SpanField::Minutes);
}

#[test]
fn two_minutes_are_plural() {
    assert_eq!(span_of(120), "2 mins, ");
    assert_eq!(span_of(3_599), "59 mins, ");
}

#[test]
fn an_hour_and_a_bit_shows_the_clock_form() {
    assert_eq!(span_of(3_700), " 1:01, ");
    assert_eq!(select_field(&split_seconds(3_700)), SpanField::Clock);
}

#[test]
fn whole_hours_from_seconds_show_the_clock_form() {
    assert_eq!(span_of(7_200), " 2:00, ");
    assert_eq!(select_field(&split_seconds(7_200)), SpanField::Clock);
    assert_eq!(span_of(3_600), " 1:00, ");
}

#[test]
fn two_digit_hours_take_the_whole_field() {
    assert_eq!(span_of(23 * 3_600 + 59 * 60 + 59), "23:59, ");
    assert_eq!(span_of(10 * 3_600 + 7 * 60), "10:07, ");
}

#[test]
fn a_day_and_an_hour_shows_day_and_clock() {
    assert_eq!(span_of(90_000), "1 day,  1:00, ");
    assert_eq!(select_field(&split_seconds(90_000)), SpanField::Clock);
}

#[test]
fn several_days_are_plural() {
    assert_eq!(span_of(3 * 86_400 + 5 * 3_600 + 9 * 60), "3 days,  5:09, ");
    assert_eq!(span_of(400 * 86_400), "400 days,  0:00, ");
}

#[test]
fn hours_alone_when_the_minutes_are_given_as_zero() {
    let up = UptimeDuration { days: 0, hours: 2, minutes: 0, seconds: 0 };
    assert_eq!(select_field(&up), SpanField::Hours);
    assert_eq!(
        format_report(&morning(), &loads(), &up, 2),
        "09:05  up 2 hrs, 2 users, load averages: 1.23 0.87 0.45\n"
    );
    let up = UptimeDuration { days: 0, hours: 1, minutes: 0, seconds: 0 };
    assert_eq!(
        format_report(&morning(), &loads(), &up, 2),
        "09:05  up 1 hr, 2 users, load averages: 1.23 0.87 0.45\n"
    );
}

#[test]
fn the_unit_word_goes_by_the_whole_count() {
    let up = UptimeDuration { days: 1, hours: 25, minutes: 0, seconds: 0 };
    assert_eq!(
        format_report(&morning(), &loads(), &up, 2),
        "09:05  up 1 day, 1 hrs, 2 users, load averages: 1.23 0.87 0.45\n"
    );
    let up = UptimeDuration { days: 0, hours: 0, minutes: 61, seconds: 0 };
    assert_eq!(
        format_report(&morning(), &loads(), &up, 2),
        "09:05  up 1 mins, 2 users, load averages: 1.23 0.87 0.45\n"
    );
    let up = UptimeDuration { days: 0, hours: 0, minutes: 0, seconds: 61 };
    assert_eq!(
        format_report(&morning(), &loads(), &up, 2),
        "09:05  up 1 secs, 2 users, load averages: 1.23 0.87 0.45\n"
    );
}

#[test]
fn no_users_are_plural() {
    assert!(report_after(45, 0).contains(" 0 users, "));
}

#[test]
fn one_user_is_singular() {
    assert!(report_after(45, 1).contains(" 1 user, "));
}

#[test]
fn many_users_are_plural() {
    assert!(report_after(45, 2).contains(" 2 users, "));
    assert!(report_after(45, 11).contains(" 11 users, "));
}

#[test]
fn uptime_is_split_into_whole_counts() {
    let boot = BootTime { seconds: MORNING - 90_061, microseconds: 999_999 };
    let up = compute_uptime(&morning(), &boot);
    assert_eq!(up, UptimeDuration { days: 1, hours: 25, minutes: 1_501, seconds: 90_061 });
    assert_eq!(split_seconds(90_061), up);
}

#[test]
fn a_boot_time_ahead_of_the_clock_counts_as_no_time() {
    let boot = BootTime { seconds: MORNING + 500, microseconds: 0 };
    let up = compute_uptime(&morning(), &boot);
    assert_eq!(up, UptimeDuration { days: 0, hours: 0, minutes: 0, seconds: 0 });
    assert_eq!(
        uptime_report(&morning(), &boot, &loads(), 1),
        "09:05  up 0 secs, 1 user, load averages: 1.23 0.87 0.45\n"
    );
}

#[test]
fn the_widest_span_does_not_overflow() {
    let now = WallClock::new(i64::MAX, 0, 0).unwrap();
    let boot = BootTime { seconds: i64::MIN, microseconds: 0 };
    let up = compute_uptime(&now, &boot);
    assert_eq!(up.seconds, u64::MAX);
    assert_eq!(up.minutes, u64::MAX / 60);
    assert_eq!(up.hours, u64::MAX / 3_600);
    assert_eq!(up.days, u64::MAX / 86_400);
}

#[test]
fn loads_are_shown_with_two_decimals() {
    let load = LoadAverage::new([2048, 1024, 0], 2048).unwrap();
    let up = split_seconds(45);
    assert_eq!(
        format_report(&morning(), &load, &up, 2),
        "09:05  up 45 secs, 2 users, load averages: 1.00 0.50 0.00\n"
    );
}

#[test]
fn loads_are_rounded_to_the_nearest_hundredth() {
    let load = LoadAverage::new([1, 2047, 3000], 2048).unwrap();
    assert_eq!(load_in_hundredths(&load, 0), 0);
    assert_eq!(load_in_hundredths(&load, 1), 100);
    assert_eq!(load_in_hundredths(&load, 2), 146);
    let load = LoadAverage::new([1, 3, 199], 200).unwrap();
    assert_eq!(load_in_hundredths(&load, 0), 1);
    assert_eq!(load_in_hundredths(&load, 1), 2);
    assert_eq!(load_in_hundredths(&load, 2), 100);
    let load = LoadAverage::new([1, 2, 3], 300).unwrap();
    assert_eq!(load_in_hundredths(&load, 0), 0);
    assert_eq!(load_in_hundredths(&load, 1), 1);
    assert_eq!(load_in_hundredths(&load, 2), 1);
}

#[test]
fn large_loads_keep_every_digit() {
    let load = LoadAverage::new([u32::MAX, 123_456, 99_999], 1).unwrap();
    let up = split_seconds(45);
    assert_eq!(
        format_report(&morning(), &load, &up, 2),
        "09:05  up 45 secs, 2 users, load averages: 4294967295.00 123456.00 99999.00\n"
    );
    let load = LoadAverage::new([u32::MAX, 1, 0], u64::MAX).unwrap();
    assert_eq!(load_in_hundredths(&load, 0), 0);
    assert_eq!(load_in_hundredths(&load, 1), 0);
}

#[test]
fn the_time_of_day_is_zero_padded() {
    assert_eq!(morning().time_of_day(), "09:05");
    assert_eq!(WallClock::new(0, 0, 0).unwrap().time_of_day(), "00:00");
    assert_eq!(WallClock::new(0, 23, 59).unwrap().time_of_day(), "23:59");
    assert_eq!(WallClock::new(0, 5, 30).unwrap().time_of_day(), "05:30");
    assert_eq!(WallClock::new(0, 12, 7).unwrap().time_of_day().len(), 5);
}

#[test]
fn every_time_of_day_has_five_characters() {
    for hour in 0..24u8 {
        for minute in 0..60u8 {
            let text = WallClock::new(0, hour, minute).unwrap().time_of_day();
            assert_eq!(text, format!("{:02}:{:02}", hour, minute));
            assert_eq!(text.len(), 5);
        }
    }
}

#[test]
fn a_clock_reading_keeps_its_parts() {
    let now = WallClock::new(-7, 23, 0).unwrap();
    assert_eq!(now.seconds(), -7);
    assert_eq!(now.hour(), 23);
    assert_eq!(now.minute(), 0);
}

#[test]
fn an_impossible_time_of_day_is_refused() {
    assert!(WallClock::new(0, 24, 0).is_none());
    assert!(WallClock::new(0, 0, 60).is_none());
    assert!(WallClock::new(0, 255, 255).is_none());
    assert!(WallClock::new(0, 23, 59).is_some());
}

#[test]
fn the_report_opens_with_the_clock_and_ends_with_a_newline() {
    let report = report_after(12_345, 3);
    assert!(report.starts_with("09:05  up "));
    assert!(report.ends_with("\n"));
    assert_eq!(report.matches('\n').count(), 1);
}
