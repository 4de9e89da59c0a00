use clock_tui::app::{configured_timer_durations, default_mode, default_timer_config_durations, Mode};
use clock_tui::args::{
    color_from_lowercase, parse_color, parse_duration, parse_size, parse_theme_name,
    resolve_widget_themes, Color,
};
use clock_tui::config::{
    ClockConfig, Config, CountdownConfig, DefaultConfig, StopwatchConfig, TimerConfig,
};
use clock_tui::duration::Duration;
use clock_tui::time::{
    join_date_line, parse_datetime, parse_timezone, resolve_local, LocalMatch, Timestamp,
};

fn config_with_mode(mode: &str) -> Config {
    Config {
        default: DefaultConfig {
            mode: mode.to_string(),
            ..DefaultConfig::default()
        },
        clock: ClockConfig::default(),
        timer: TimerConfig::default(),
        stopwatch: StopwatchConfig::default(),
        countdown: CountdownConfig::default(),
    }
}

#[test]
fn parse_duration_accepts_supported_units() {
    assert_eq!(parse_duration("10s").unwrap(), Duration::seconds(10));
    assert_eq!(parse_duration("5M").unwrap(), Duration::minutes(5));
    assert_eq!(parse_duration("2h").unwrap(), Duration::hours(2));
    assert_eq!(parse_duration("1D").unwrap(), Duration::days(1));
}

#[test]
fn parse_duration_rejects_invalid_or_overflowing_values() {
    assert!(parse_duration("10").is_err());
    assert!(parse_duration("abc").is_err());
    assert!(parse_duration("999999999999999999999999999999999999999d").is_err());
}

#[test]
fn configured_timer_durations_falls_back_when_all_values_are_invalid() {
    let config = TimerConfig {
        durations: vec!["bad".to_string()],
        ..TimerConfig::default()
    };

    assert_eq!(
        configured_timer_durations(&config),
        default_timer_config_durations()
    );
}

#[test]
fn parse_size_rejects_zero() {
    assert_eq!(parse_size("1"), Ok(1));
    assert!(parse_size("0").is_err());
}

#[test]
fn parse_color_accepts_names_and_hex_values() {
    assert_eq!(parse_color("LightCyan"), Ok(Color::LightCyan));
    assert_eq!(parse_color("#e63946"), Ok(Color::Rgb(230, 57, 70)));
    assert!(parse_color("#xyzxyz").is_err());
}

#[test]
fn default_mode_reads_the_config_and_falls_back_to_clock() {
    let config = config_with_mode("stopwatch");
    assert!(matches!(default_mode(Some(&config)), Mode::Stopwatch));

    let config = config_with_mode("timer");
    assert!(matches!(
        default_mode(Some(&config)),
        Mode::Timer { durations, .. } if durations.is_empty()
    ));

    assert!(matches!(default_mode(None), Mode::Clock { timezone: None }));
}

#[test]
fn parse_datetime_accepts_dates_and_rejects_invalid_values() {
    assert!(parse_datetime("2026-01-01").is_ok());
    assert!(parse_datetime("not a date").is_err());
}

#[test]
fn parse_timezone_reports_invalid_names() {
    assert!(parse_timezone("America/New_York").is_ok());
    assert!(parse_timezone("Nowhere/Missing").is_err());
}

#[test]
fn theme_precedence_reorders_widget_themes() {
    assert_eq!(
        resolve_widget_themes(
            None,
            None,
            vec![
                "default".to_string(),
                "evangelion".to_string(),
                "nerv".to_string()
            ]
        ),
        vec!["default", "evangelion", "nerv"]
    );
    assert_eq!(
        resolve_widget_themes(
            None,
            Some("nerv"),
            vec![
                "default".to_string(),
                "evangelion".to_string(),
                "nerv".to_string()
            ]
        ),
        vec!["nerv", "default", "evangelion"]
    );
    assert_eq!(
        resolve_widget_themes(
            Some("default"),
            Some("nerv"),
            vec![
                "default".to_string(),
                "evangelion".to_string(),
                "nerv".to_string()
            ]
        ),
        vec!["default", "evangelion", "nerv"]
    );
    assert_eq!(
        resolve_widget_themes(Some("eva"), None, vec!["default".to_string()]),
        vec!["eva", "default"]
    );
}

#[test]
fn duration_errors_name_the_text() {
    assert_eq!(parse_duration("abc"), Err("abc is not a valid duration".to_string()));
    assert_eq!(parse_duration("10"), Err("10 is not a valid duration".to_string()));
    assert_eq!(parse_duration("m"), Err("m is not a valid duration".to_string()));
    assert_eq!(parse_duration("-5m"), Err("-5m is not a valid duration".to_string()));
    assert_eq!(
        parse_duration("99999999999999999999s"),
        Err("Duration is too large: 99999999999999999999s".to_string())
    );
}

#[test]
fn duration_bounds_follow_the_millisecond_range() {
    assert_eq!(
        parse_duration("9223372036854775s").unwrap().num_milliseconds(),
        9223372036854775000
    );
    assert_eq!(
        parse_duration("9223372036854776s"),
        Err("Duration is too large: 9223372036854776s".to_string())
    );
    assert_eq!(
        parse_duration("106751991168d"),
        Err("Duration is too large: 106751991168d".to_string())
    );
    assert_eq!(parse_duration("106751991167d").unwrap(), Duration::days(106751991167));
    assert_eq!(parse_duration("0s").unwrap(), Duration::zero());
    assert_eq!(parse_duration("007m").unwrap(), Duration::minutes(7));
}

#[test]
fn size_parsing_follows_unsigned_integers() {
    assert_eq!(parse_size("+7"), Ok(7));
    assert_eq!(parse_size("65535"), Ok(65535));
    assert_eq!(parse_size("65536"), Err("Invalid clock size: 65536".to_string()));
    assert_eq!(parse_size("-1"), Err("Invalid clock size: -1".to_string()));
    assert_eq!(parse_size("+"), Err("Invalid clock size: +".to_string()));
    assert_eq!(parse_size(""), Err("Invalid clock size: ".to_string()));
    assert_eq!(parse_size(" 3"), Err("Invalid clock size:  3".to_string()));
    assert_eq!(parse_size("0"), Err("Clock size must be at least 1".to_string()));
    assert_eq!(parse_size("000"), Err("Clock size must be at least 1".to_string()));
}

#[test]
fn theme_names_are_trimmed_and_not_empty() {
    assert_eq!(parse_theme_name("  nerv\t"), Ok("nerv".to_string()));
    assert_eq!(parse_theme_name(" \u{3000} "), Err("theme must not be empty".to_string()));
    assert_eq!(parse_theme_name(""), Err("theme must not be empty".to_string()));
}

#[test]
fn requested_theme_is_trimmed_and_matched_without_case() {
    assert_eq!(
        resolve_widget_themes(
            Some(" NERV "),
            None,
            vec!["default".to_string(), " nerv".to_string(), "Nerv".to_string()]
        ),
        vec!["NERV", "default"]
    );
    // A blank command-line theme does not fall back to the environment.
    assert_eq!(
        resolve_widget_themes(Some("  "), Some("nerv"), vec!["default".to_string()]),
        vec!["default"]
    );
    assert_eq!(resolve_widget_themes(None, Some("nerv"), vec![]), vec!["nerv"]);
}

#[test]
fn color_names_ignore_case_and_hex_needs_lowercase_digits_after_lowering() {
    assert_eq!(parse_color("DarkGray"), Ok(Color::DarkGray));
    assert_eq!(parse_color("WHITE"), Ok(Color::White));
    assert_eq!(parse_color("#E63946"), Ok(Color::Rgb(230, 57, 70)));
    assert_eq!(parse_color("#000000"), Ok(Color::Rgb(0, 0, 0)));
    assert_eq!(parse_color("#ffffff"), Ok(Color::Rgb(255, 255, 255)));
    assert_eq!(parse_color("#XYZXYZ"), Err("Invalid color: #xyzxyz".to_string()));
    assert_eq!(parse_color("#12345"), Err("Invalid color: #12345".to_string()));
    assert_eq!(parse_color("purple"), Err("Invalid color: purple".to_string()));
    assert_eq!(color_from_lowercase("Red"), Err("Invalid color: Red".to_string()));
    assert_eq!(color_from_lowercase("red"), Ok(Color::Red));
}

#[test]
fn configured_durations_keep_the_valid_ones_in_order() {
    let config = TimerConfig {
        durations: vec!["10m".to_string(), "bad".to_string(), "30s".to_string()],
        ..TimerConfig::default()
    };
    assert_eq!(
        configured_timer_durations(&config),
        vec![Duration::minutes(10), Duration::seconds(30)]
    );
    assert_eq!(
        default_timer_config_durations(),
        vec![Duration::minutes(5)]
    );
}

#[test]
fn countdown_default_mode_reads_the_configured_time() {
    let mut config = config_with_mode("countdown");
    config.countdown.time = Some("2026-01-01".to_string());
    match default_mode(Some(&config)) {
        Mode::Countdown {
            time,
            continue_on_zero,
            reverse,
        } => {
            assert_eq!(Ok(time), parse_datetime("2026-01-01"));
            assert!(!continue_on_zero);
            assert!(!reverse);
        }
        _ => panic!("countdown mode expected"),
    }
    config.countdown.time = Some(" 2026-12-25T20:00:00-04:00 ".to_string());
    match default_mode(Some(&config)) {
        Mode::Countdown { time, .. } => assert_eq!(time.millis, 1_798_243_200_000),
        _ => panic!("countdown mode expected"),
    }
    assert!(matches!(
        default_mode(Some(&config_with_mode("weekly"))),
        Mode::Clock { timezone: None }
    ));
}

#[test]
fn datetime_forms_are_tried_in_order() {
    assert_eq!(parse_datetime("nonsense"), Err("Invalid time format".to_string()));
    assert!(parse_datetime("  20:00  ").is_ok());
    assert!(parse_datetime("20:00:30").is_ok());
    assert!(parse_datetime("2026-12-25 20:00:00").is_ok());
    let rfc = parse_datetime("2026-12-25T20:00:00-04:00").unwrap();
    assert_eq!(rfc.millis, 1_798_243_200_000);
}

#[test]
fn timezone_errors_use_the_zone_database_text() {
    assert_eq!(
        parse_timezone("america/new_york"),
        Err("failed to parse timezone".to_string())
    );
    for name in ["America/New_York", "Etc/GMT+4", "GMT+0", "Asia/Harbin", "UTC"] {
        assert_eq!(parse_timezone(name).unwrap().name(), name);
    }
}

#[test]
fn local_times_that_do_not_map_to_one_instant_are_errors() {
    assert_eq!(
        resolve_local(LocalMatch::Ambiguous, "2026-11-01 01:30:00".to_string()),
        Err("Ambiguous local time: 2026-11-01 01:30:00".to_string())
    );
    assert_eq!(
        resolve_local(LocalMatch::Missing, "2026-03-08 02:30:00".to_string()),
        Err("Invalid local time: 2026-03-08 02:30:00".to_string())
    );
    assert_eq!(
        resolve_local(LocalMatch::Single(Timestamp { millis: 5 }), String::new()),
        Ok(Timestamp { millis: 5 })
    );
}

#[test]
fn date_line_appends_the_zone_name() {
    assert_eq!(
        join_date_line("Sunday, June 7 2026".to_string(), Some("Europe/Paris")),
        "Sunday, June 7 2026 Europe/Paris"
    );
    assert_eq!(join_date_line("Monday".to_string(), None), "Monday");
}

#[test]
fn hex_codes_read_back_in_either_case() {
    for (r, g, b) in [(230u8, 57u8, 70u8), (0, 0, 0), (255, 255, 255), (10, 171, 205)] {
        let small = format!("#{:02x}{:02x}{:02x}", r, g, b);
        let capitals = format!("#{:02X}{:02X}{:02X}", r, g, b);
        assert_eq!(parse_color(&small), Ok(Color::Rgb(r, g, b)));
        assert_eq!(parse_color(&capitals), Ok(Color::Rgb(r, g, b)));
    }
}

#[test]
fn ascii_colors_read_the_same_in_any_case() {
    for text in ["LightCyan", "#e63946", "#xyzxyz", "purple", "DarkGray"] {
        let expected = parse_color(text);
        assert_eq!(parse_color(&text.to_ascii_lowercase()), expected);
        assert_eq!(parse_color(&text.to_ascii_uppercase()), expected);
    }
}

#[test]
fn config_paths_prefer_absolute_xdg_and_remove_duplicates() {
    let xdg = "/work/xdg".to_string();
    let home = "/work/home".to_string();
    let paths = Config::config_paths_from_dirs(Some(xdg.clone()), Some(home), Some(xdg));

    assert_eq!(
        paths,
        vec![
            "/work/xdg/tclock/config.toml".to_string(),
            "/work/home/.config/tclock/config.toml".to_string(),
        ]
    );
}

#[test]
fn config_paths_ignore_relative_xdg_config_home() {
    let paths = Config::config_paths_from_dirs(
        Some("relative".to_string()),
        Some("/work/home".to_string()),
        Some("/work/native".to_string()),
    );

    assert_eq!(
        paths,
        vec![
            "/work/home/.config/tclock/config.toml".to_string(),
            "/work/native/tclock/config.toml".to_string(),
        ]
    );
}

#[test]
fn config_paths_compare_paths_by_their_parts() {
    let paths = Config::config_paths_from_dirs(
        Some("/work/xdg/".to_string()),
        None,
        Some("/work//xdg".to_string()),
    );
    assert_eq!(paths, vec!["/work/xdg/tclock/config.toml".to_string()]);
}
