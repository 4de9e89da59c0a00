use clock_tui::duration::{format_duration, format_millis, should_flash, Duration, DurationFormat};

fn days_hours_minutes_seconds(days: i64, hours: i64, minutes: i64, seconds: i64) -> Duration {
    Duration::milliseconds(
        Duration::days(days).num_milliseconds()
            + Duration::hours(hours).num_milliseconds()
            + Duration::minutes(minutes).num_milliseconds()
            + Duration::seconds(seconds).num_milliseconds(),
    )
}

#[test]
fn format_duration_supports_deciseconds() {
    assert_eq!(
        format_duration(
            Duration::milliseconds(65_432),
            DurationFormat::HourMinSecDeci
        ),
        "1:05.4"
    );
}

#[test]
fn format_duration_supports_no_fractional_seconds() {
    assert_eq!(
        format_duration(Duration::seconds(65), DurationFormat::HourMinSec),
        "1:05"
    );
}

#[test]
fn format_duration_supports_hours_days_and_negative_values() {
    let duration = days_hours_minutes_seconds(1, 2, 3, 4);

    assert_eq!(
        format_duration(duration, DurationFormat::HourMinSecDeci),
        "1:02:03:04.0"
    );
    assert_eq!(
        format_duration(Duration::seconds(-65), DurationFormat::HourMinSecDeci),
        "-1:05.0"
    );
}

#[test]
fn format_duration_supports_hours_and_minutes_only() {
    assert_eq!(
        format_duration(Duration::seconds(65), DurationFormat::HourMin),
        "0:01"
    );
    assert_eq!(
        format_duration(days_hours_minutes_seconds(0, 3, 7, 0), DurationFormat::HourMin),
        "3:07"
    );
    assert_eq!(
        format_duration(days_hours_minutes_seconds(1, 0, 30, 0), DurationFormat::HourMin),
        "1:00:30"
    );
    assert_eq!(
        format_duration(Duration::minutes(-90), DurationFormat::HourMin),
        "-1:30"
    );
}

#[test]
fn duration_format_from_display_prefers_hiding_seconds() {
    assert_eq!(
        DurationFormat::from_display(false, true),
        DurationFormat::HourMin
    );
    assert_eq!(
        DurationFormat::from_display(true, true),
        DurationFormat::HourMinSecDeci
    );
    assert_eq!(
        DurationFormat::from_display(true, false),
        DurationFormat::HourMinSec
    );
}

#[test]
fn should_flash_uses_first_half_of_each_second() {
    assert!(should_flash(Duration::milliseconds(-499)));
    assert!(!should_flash(Duration::milliseconds(-500)));
}

#[test]
fn negative_durations_are_their_magnitude_with_a_minus() {
    for format in [
        DurationFormat::HourMin,
        DurationFormat::HourMinSec,
        DurationFormat::HourMinSecDeci,
    ] {
        for millis in [1, 999, 61_000, 3_600_000, 90_061_100, 86_400_000 * 400] {
            assert_eq!(
                format_millis(-millis, format),
                format!("-{}", format_millis(millis, format))
            );
        }
    }
}

#[test]
fn formats_cover_zero_and_sub_second_values() {
    assert_eq!(format_millis(0, DurationFormat::HourMinSecDeci), "0:00.0");
    assert_eq!(format_millis(0, DurationFormat::HourMinSec), "0:00");
    assert_eq!(format_millis(0, DurationFormat::HourMin), "0:00");
    assert_eq!(format_millis(-499, DurationFormat::HourMinSec), "-0:00");
    assert_eq!(format_millis(999, DurationFormat::HourMinSecDeci), "0:00.9");
    assert_eq!(format_millis(3_599_999, DurationFormat::HourMinSec), "59:59");
    assert_eq!(format_millis(3_600_000, DurationFormat::HourMinSec), "1:00:00");
    assert_eq!(format_millis(86_400_000, DurationFormat::HourMinSec), "1:00:00:00");
    assert_eq!(
        format_millis(i64::MAX, DurationFormat::HourMinSecDeci),
        "106751991167:07:12:55.8"
    );
    assert_eq!(
        format_millis(i64::MIN, DurationFormat::HourMin),
        "-106751991167:07:12"
    );
}

#[test]
fn flashing_follows_the_magnitude() {
    assert!(should_flash(Duration::zero()));
    assert!(should_flash(Duration::milliseconds(1_499)));
    assert!(!should_flash(Duration::milliseconds(1_500)));
    assert!(!should_flash(Duration::milliseconds(-1_999)));
}

#[test]
fn duration_constructors_check_the_range() {
    assert_eq!(Duration::try_seconds(9_223_372_036_854_775).map(|d| d.num_milliseconds()), Some(9_223_372_036_854_775_000));
    assert_eq!(Duration::try_seconds(-9_223_372_036_854_776), None);
    assert_eq!(Duration::try_minutes(i64::MAX), None);
    assert_eq!(Duration::try_milliseconds(i64::MIN), None);
    assert_eq!(Duration::try_hours(-2).map(|d| d.num_milliseconds()), Some(-7_200_000));
    assert_eq!(
        Duration::max_value().saturating_add(Duration::seconds(1)),
        Duration::max_value()
    );
    assert_eq!(
        Duration::seconds(1).saturating_add(Duration::seconds(2)),
        Duration::seconds(3)
    );
}
