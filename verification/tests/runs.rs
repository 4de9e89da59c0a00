use clock_tui::app::countdown_target;
use clock_tui::countdown::countdown_left;
use clock_tui::duration::Duration;
use clock_tui::duration::DurationFormat;
use clock_tui::stopwatch::Stopwatch;
use ratatui::style::Style;
use clock_tui::time::Timestamp;
use clock_tui::timer::{period_title, time_left, timer_step, TimerStep};

#[test]
fn timer_runs_its_periods_in_order() {
    let none_left = Duration::milliseconds(0);
    assert_eq!(
        timer_step(0, 2, false, Duration::seconds(3)),
        TimerStep::Running
    );
    assert_eq!(timer_step(0, 2, false, none_left), TimerStep::Next(1));
    assert_eq!(timer_step(1, 2, false, none_left), TimerStep::Finished);
    assert_eq!(timer_step(1, 2, true, none_left), TimerStep::Next(0));
    assert_eq!(
        timer_step(0, 1, false, Duration::milliseconds(-5)),
        TimerStep::Finished
    );
}

#[test]
fn time_left_stops_at_zero() {
    assert_eq!(
        time_left(Duration::minutes(5), Duration::seconds(90)),
        Duration::seconds(210)
    );
    assert_eq!(
        time_left(Duration::minutes(5), Duration::minutes(6)),
        Duration::milliseconds(0)
    );
}

#[test]
fn each_period_shows_its_own_title() {
    let titles = vec!["Work".to_string(), "Rest".to_string()];
    assert_eq!(period_title(&titles, 1), Some("Rest".to_string()));
    assert_eq!(period_title(&titles, 2), Some("Work".to_string()));
    let single = vec!["Focus".to_string()];
    assert_eq!(period_title(&single, 1), Some("Focus".to_string()));
    assert_eq!(period_title(&Vec::new(), 0), None);
}

#[test]
fn countdown_counts_to_the_target_and_past_it() {
    let target = Timestamp { millis: 60_000 };
    let now = Timestamp { millis: 15_000 };
    assert_eq!(
        countdown_left(target, now, false, false),
        Duration::seconds(45)
    );
    assert_eq!(
        countdown_left(target, now, true, false),
        Duration::milliseconds(0)
    );
    assert_eq!(
        countdown_left(target, now, true, true),
        Duration::seconds(-45)
    );
    let later = Timestamp { millis: 90_000 };
    assert_eq!(
        countdown_left(target, later, false, false),
        Duration::milliseconds(0)
    );
    assert_eq!(
        countdown_left(target, later, false, true),
        Duration::seconds(-30)
    );
    assert_eq!(
        countdown_left(target, later, true, false),
        Duration::seconds(30)
    );
}

#[test]
fn countdown_is_held_within_the_range_of_a_duration() {
    let far = countdown_left(
        Timestamp { millis: i64::MAX },
        Timestamp { millis: i64::MIN },
        false,
        false,
    );
    assert_eq!(far, Duration::max_value());
    let past = countdown_left(
        Timestamp { millis: i64::MIN },
        Timestamp { millis: i64::MAX },
        false,
        true,
    );
    assert_eq!(past.num_milliseconds(), -i64::MAX);
}

#[test]
fn pausing_adds_the_current_run() {
    let mut stopwatch = Stopwatch::new(1, Style::default(), None, DurationFormat::HourMinSec, false);
    assert_eq!(
        stopwatch.total_time_after(3_000_999_999),
        Duration::milliseconds(3_000)
    );
    stopwatch.pause_after(90_000_400_000);
    assert!(stopwatch.is_paused());
    assert_eq!(stopwatch.total_time(), Duration::seconds(90));
    assert_eq!(stopwatch.display_text(), "1:30");
    stopwatch.resume();
    stopwatch.pause_after(700_000);
    assert_eq!(stopwatch.total_time(), Duration::milliseconds(90_001));
    stopwatch.pause_after(5_000_000_000);
    assert_eq!(stopwatch.total_time(), Duration::milliseconds(90_001));
    assert_eq!(
        stopwatch.total_time_after(5_000_000_000),
        Duration::milliseconds(90_001)
    );
}

#[test]
fn a_stopwatch_holds_at_its_largest_time() {
    let mut stopwatch = Stopwatch::new(1, Style::default(), None, DurationFormat::HourMinSec, false);
    stopwatch.pause_after(u128::MAX);
    assert_eq!(stopwatch.total_time(), Duration::max_value());
}

#[test]
fn countdown_target_is_the_parsed_time_or_now() {
    let now = Timestamp { millis: 7 };
    let parsed = Timestamp { millis: 1_000 };
    assert_eq!(countdown_target(Some(Ok(parsed)), now), parsed);
    assert_eq!(countdown_target(Some(Err("bad".to_string())), now), now);
    assert_eq!(countdown_target(None, now), now);
}
