use clock_tui::app::{
    dispatch_key, handle_key, unclaimed_key, App, Key, KeyAction, KeyRoute, LoopAction, Mode,
    ModeKind, ModeSetup, PopupAction, Switch,
};
use clock_tui::args::Color;
use clock_tui::clock::{clock_header, clock_height_budget, ClockView};
use clock_tui::config::{
    ClockConfig, ClockWidgetConfig, Config, CountdownConfig, DefaultConfig, DisplayConfig,
    StopwatchConfig, TimerConfig, WidgetPosition,
};
use clock_tui::display::{flag_pair, DisplayArgs, DisplayOptions, ModeDefaults};
use clock_tui::duration::{Duration, DurationFormat};
use clock_tui::layout::{centered_layout, Rect};
use clock_tui::stopwatch::{Stopwatch, PAUSED_FOOTER};
use clock_tui::time::{
    clock_time_text, date_time_is_valid, format_clock_header, parse_datetime, parse_timezone,
    CalendarDate,
    LocalDateTime, TimeOfDay,
};
use ratatui::style::Style;

fn display_config(
    title: Option<&str>,
    show_seconds: Option<bool>,
    show_millis: Option<bool>,
) -> DisplayConfig {
    DisplayConfig {
        title: title.map(str::to_string),
        show_date: None,
        show_seconds,
        show_millis,
        start_paused: None,
    }
}

fn empty_config() -> Config {
    Config {
        default: DefaultConfig::default(),
        clock: ClockConfig::default(),
        timer: TimerConfig::default(),
        stopwatch: StopwatchConfig::default(),
        countdown: CountdownConfig::default(),
    }
}

fn new_app(mode: Option<Mode>) -> App {
    App {
        mode,
        color: None,
        size: None,
        theme: None,
        display: DisplayArgs::default(),
        setup: None,
        clock_view: None,
    }
}

#[test]
fn display_precedence_is_cli_then_mode_then_default_then_builtin() {
    let mode = display_config(Some("Mode title"), Some(false), None);
    let default = display_config(Some("Default title"), Some(true), Some(false));

    // Built-in defaults only.
    let display = DisplayOptions::resolve(
        &DisplayArgs::default(),
        None,
        None,
        ModeDefaults::stopwatch(),
        Vec::new(),
    );
    assert_eq!(display.titles, Vec::<String>::new());
    assert!(display.show_seconds);
    assert!(display.show_millis);
    assert!(!display.start_paused);

    // `[default]` fills what the mode section leaves unset.
    let display = DisplayOptions::resolve(
        &DisplayArgs::default(),
        Some(&mode),
        Some(&default),
        ModeDefaults::stopwatch(),
        Vec::new(),
    );
    assert_eq!(display.titles, vec!["Mode title"]);
    assert!(!display.show_seconds);
    assert!(!display.show_millis);

    // A command-line flag beats both config layers.
    let args = DisplayArgs {
        seconds: true,
        titles: vec!["CLI".to_string()],
        ..DisplayArgs::default()
    };
    let display = DisplayOptions::resolve(
        &args,
        Some(&mode),
        Some(&default),
        ModeDefaults::stopwatch(),
        Vec::new(),
    );
    assert_eq!(display.titles, vec!["CLI"]);
    assert!(display.show_seconds);
    assert_eq!(display.duration_format(), DurationFormat::HourMinSec);

    // Timer `titles` beat a single `title`, and the first title is the header.
    let display = DisplayOptions::resolve(
        &DisplayArgs::default(),
        Some(&mode),
        Some(&default),
        ModeDefaults::timer(),
        vec!["Work".to_string(), "Rest".to_string()],
    );
    assert_eq!(display.titles, vec!["Work", "Rest"]);
    assert_eq!(display.title().as_deref(), Some("Work"));
}

#[test]
fn flags_collapse_into_a_choice() {
    assert_eq!(flag_pair(true, false), Some(true));
    assert_eq!(flag_pair(false, true), Some(false));
    assert_eq!(flag_pair(false, false), None);
    let args = DisplayArgs {
        no_seconds: true,
        millis: true,
        date: true,
        paused: true,
        ..DisplayArgs::default()
    };
    assert_eq!(args.show_seconds(), Some(false));
    assert_eq!(args.show_millis(), Some(true));
    assert_eq!(args.show_date(), Some(true));
    assert_eq!(args.start_paused(), Some(true));
    let none = DisplayArgs::default();
    assert_eq!(none.show_seconds(), None);
    assert_eq!(none.show_millis(), None);
    assert_eq!(none.show_date(), None);
    assert_eq!(none.start_paused(), None);
}

#[test]
fn default_section_applies_to_modes_and_builtins_fill_the_rest() {
    let default = DisplayConfig {
        start_paused: Some(true),
        show_date: Some(false),
        ..DisplayConfig::default()
    };
    let display = DisplayOptions::resolve(
        &DisplayArgs::default(),
        None,
        Some(&default),
        ModeDefaults::clock(),
        Vec::new(),
    );
    assert!(!display.show_date);
    assert!(display.show_seconds);
    assert!(!display.show_millis);
    assert!(display.start_paused);
    assert_eq!(display.title(), None);
    let display = DisplayOptions::resolve(
        &DisplayArgs::default(),
        Some(&DisplayConfig::default()),
        Some(&display_config(Some("Shared"), None, None)),
        ModeDefaults::countdown(),
        Vec::new(),
    );
    assert_eq!(display.title().as_deref(), Some("Shared"));
    assert_eq!(display.duration_format(), DurationFormat::HourMinSec);
}

#[test]
fn clock_header_combines_title_and_date() {
    assert_eq!(clock_header(None, None), None);
    assert_eq!(
        clock_header(None, Some("Sunday".to_string())),
        Some("Sunday".to_string())
    );
    assert_eq!(clock_header(Some("Focus"), None), Some("Focus".to_string()));
    assert_eq!(clock_header(Some("  "), None), None);
    assert_eq!(
        clock_header(Some("Focus"), Some("Sunday".to_string())),
        Some("Focus · Sunday".to_string())
    );
}

#[test]
fn clock_header_uses_friendly_date_format() {
    let now = LocalDateTime {
        date: CalendarDate {
            year: 2026,
            month: 6,
            day: 7,
        },
        time: TimeOfDay {
            hour: 1,
            minute: 41,
            second: 24,
            nanosecond: 0,
        },
    };

    assert_eq!(format_clock_header(now, None), "Sunday, June 7 2026");
    assert_eq!(
        format_clock_header(now, parse_timezone("America/New_York").ok()),
        "Sunday, June 7 2026 America/New_York"
    );
}

#[test]
fn clock_digits_follow_the_display() {
    let now = LocalDateTime {
        date: CalendarDate {
            year: 2026,
            month: 6,
            day: 7,
        },
        time: TimeOfDay {
            hour: 20,
            minute: 5,
            second: 9,
            nanosecond: 730_000_000,
        },
    };
    assert!(date_time_is_valid(&now));
    assert_eq!(clock_time_text(&now, false, true), "20:05");
    assert_eq!(clock_time_text(&now, true, false), "20:05:09");
    assert_eq!(clock_time_text(&now, true, true), "20:05:09.7");

    let leap = LocalDateTime {
        date: CalendarDate {
            year: 2016,
            month: 12,
            day: 31,
        },
        time: TimeOfDay {
            hour: 23,
            minute: 59,
            second: 59,
            nanosecond: 1_500_000_000,
        },
    };
    assert!(date_time_is_valid(&leap));
    assert_eq!(clock_time_text(&leap, true, true), "23:59:60.5");
    assert_eq!(clock_time_text(&leap, false, true), "23:59");
}

#[test]
fn dates_are_checked_against_the_calendar() {
    let day = |year: i32, month: u32, day: u32| LocalDateTime {
        date: CalendarDate { year, month, day },
        time: TimeOfDay {
            hour: 0,
            minute: 0,
            second: 0,
            nanosecond: 0,
        },
    };
    assert!(date_time_is_valid(&day(2024, 2, 29)));
    assert!(!date_time_is_valid(&day(2023, 2, 29)));
    assert!(!date_time_is_valid(&day(1900, 2, 29)));
    assert!(date_time_is_valid(&day(2000, 2, 29)));
    assert!(!date_time_is_valid(&day(2026, 4, 31)));
    assert!(!date_time_is_valid(&day(2026, 13, 1)));
}

#[test]
fn clock_height_budget_is_the_top_half() {
    assert_eq!(clock_height_budget(0), 0);
    assert_eq!(clock_height_budget(1), 1);
    assert_eq!(clock_height_budget(50), 25);
    assert_eq!(clock_height_budget(51), 25);
    assert_eq!(clock_height_budget(80), 40);
}

#[test]
fn stopwatch_can_start_paused() {
    let stopwatch = Stopwatch::new(
        1,
        Style::default(),
        Some("Focus".to_string()),
        DurationFormat::HourMin,
        true,
    );

    assert!(stopwatch.is_paused());
    assert_eq!(stopwatch.total_time(), Duration::zero());
    assert_eq!(stopwatch.title.as_deref(), Some("Focus"));
}

#[test]
fn stopwatch_starts_running_by_default() {
    let stopwatch = Stopwatch::new(1, Style::default(), None, DurationFormat::HourMinSec, false);

    assert!(!stopwatch.is_paused());
}

#[test]
fn stopwatch_pause_and_resume_toggle() {
    let mut stopwatch = Stopwatch::new(1, Style::default(), None, DurationFormat::HourMinSec, true);
    assert_eq!(stopwatch.footer(), Some(PAUSED_FOOTER));
    assert_eq!(stopwatch.get_display_time(), "0:00.0");
    assert_eq!(stopwatch.display_text(), "0:00");
    assert_eq!(stopwatch.exit_line(), "Stopwatch time: 0:00.0");
    stopwatch.toggle_paused();
    assert!(!stopwatch.is_paused());
    assert_eq!(stopwatch.footer(), None);
    stopwatch.pause();
    assert!(stopwatch.is_paused());
    let gathered = stopwatch.total_time();
    stopwatch.pause();
    assert_eq!(stopwatch.total_time(), gathered);
    stopwatch.resume();
    assert!(!stopwatch.is_paused());
    assert!(stopwatch.total_time().num_milliseconds() >= gathered.num_milliseconds());
}

#[test]
fn centered_layout_places_header_and_footer() {
    let area = Rect { x: 0, y: 0, width: 40, height: 12 };
    let layout = centered_layout(area, (10, 5), Some(6), Some(6));
    assert_eq!(layout.text, Rect { x: 15, y: 3, width: 10, height: 5 });
    assert_eq!(layout.header, Some(Rect { x: 17, y: 1, width: 6, height: 1 }));
    assert_eq!(layout.footer, Some(Rect { x: 17, y: 9, width: 6, height: 1 }));

    // The digits move down a row when they would sit right under the header.
    let layout = centered_layout(area, (10, 8), Some(6), None);
    assert_eq!(layout.text, Rect { x: 15, y: 3, width: 10, height: 8 });
    assert_eq!(layout.header, Some(Rect { x: 17, y: 1, width: 6, height: 1 }));
    let layout = centered_layout(area, (10, 8), None, None);
    assert_eq!(layout.text, Rect { x: 15, y: 2, width: 10, height: 8 });
    assert_eq!(layout.footer, None);

    // Tiny areas cut the digits and leave no room for labels.
    let tiny = Rect { x: 3, y: 4, width: 5, height: 1 };
    let layout = centered_layout(tiny, (10, 5), Some(50), Some(6));
    assert_eq!(layout.text, Rect { x: 3, y: 4, width: 5, height: 1 });
    assert_eq!(layout.header, None);
    assert_eq!(layout.footer, None);
}

#[test]
fn init_app_resolves_the_clock_from_the_config() {
    let mut config = empty_config();
    config.default.color = "#E63946".to_string();
    config.default.size = 0;
    config.clock.display.title = Some("Study".to_string());
    config.clock.widgets = vec![ClockWidgetConfig {
        title: None,
        command: vec!["date".to_string()],
        popup_actions: vec![],
        refresh_secs: 900,
        timeout_secs: 30,
        position: WidgetPosition::Auto,
        group: None,
    }];
    let mut app = new_app(None);
    app.init_app(Some(config), Some("nerv".to_string()));
    assert!(matches!(app.mode, Some(Mode::Clock { timezone: None })));
    assert_eq!(app.color, Some(Color::Rgb(230, 57, 70)));
    assert_eq!(app.size, Some(1));
    match app.setup {
        Some(ModeSetup::Clock(clock)) => {
            assert_eq!(clock.title.as_deref(), Some("Study"));
            assert!(clock.show_date);
            assert!(clock.show_seconds);
            assert!(!clock.show_millis);
            assert_eq!(clock.widgets.len(), 1);
            assert_eq!(clock.widget_themes, vec!["nerv", "default", "evangelion"]);
        }
        _ => panic!("clock expected"),
    }
}

#[test]
fn init_app_without_config_uses_builtins() {
    let mut app = new_app(Some(Mode::Stopwatch));
    app.display.paused = true;
    app.init_app(None, None);
    assert_eq!(app.color, Some(Color::Green));
    assert_eq!(app.size, Some(1));
    match &app.setup {
        Some(ModeSetup::Stopwatch(stopwatch)) => {
            assert_eq!(stopwatch.title, None);
            assert_eq!(stopwatch.format, DurationFormat::HourMinSecDeci);
            assert!(stopwatch.start_paused);
        }
        _ => panic!("stopwatch expected"),
    }
    let mut clock = new_app(Some(Mode::Clock { timezone: None }));
    clock.init_app(None, None);
    match clock.setup {
        Some(ModeSetup::Clock(c)) => {
            assert_eq!(c.widget_themes, vec!["default", "evangelion", "nerv"])
        }
        _ => panic!("clock expected"),
    }
}

#[test]
fn init_app_resolves_the_timer_from_the_config() {
    let mut config = empty_config();
    config.timer.durations = vec!["10m".to_string(), "oops".to_string()];
    config.timer.titles = vec!["Work".to_string()];
    config.timer.repeat = true;
    config.timer.execute = vec!["notify-send".to_string()];
    config.default.display.show_seconds = Some(false);
    let mut app = new_app(Some(Mode::Timer {
        durations: vec![],
        repeat: false,
        auto_quit: true,
        execute: vec![],
    }));
    app.color = Some(Color::Blue);
    app.init_app(Some(config), None);
    assert_eq!(app.color, Some(Color::Blue));
    match app.setup {
        Some(ModeSetup::Timer(timer)) => {
            assert_eq!(timer.durations, vec![Duration::minutes(10)]);
            assert_eq!(timer.titles, vec!["Work"]);
            assert!(timer.repeat);
            assert!(timer.auto_quit);
            assert_eq!(timer.execute, vec!["notify-send"]);
            assert_eq!(timer.format, DurationFormat::HourMin);
            assert!(!timer.start_paused);
        }
        _ => panic!("timer expected"),
    }
}

#[test]
fn command_line_durations_beat_the_config_and_switches_keep_display_flags() {
    let mut app = new_app(None);
    app.display.no_millis = true;
    app.set_mode(
        Mode::Timer {
            durations: vec![Duration::seconds(90)],
            repeat: false,
            auto_quit: false,
            execute: vec!["echo".to_string()],
        },
        Some(empty_config()),
        None,
    );
    match &app.setup {
        Some(ModeSetup::Timer(timer)) => {
            assert_eq!(timer.durations, vec![Duration::seconds(90)]);
            assert_eq!(timer.execute, vec!["echo"]);
            assert_eq!(timer.format, DurationFormat::HourMinSec);
        }
        _ => panic!("timer expected"),
    }
    app.set_mode(Switch::Timer.mode(), None, None);
    match &app.setup {
        Some(ModeSetup::Timer(timer)) => {
            assert_eq!(timer.durations, vec![Duration::minutes(5)]);
        }
        _ => panic!("timer expected"),
    }
    app.set_mode(Switch::Stopwatch.mode(), None, None);
    assert!(app.display.no_millis);
    match &app.setup {
        Some(ModeSetup::Stopwatch(s)) => assert_eq!(s.format, DurationFormat::HourMinSec),
        _ => panic!("stopwatch expected"),
    }
}

#[test]
fn countdown_setup_takes_its_target_and_flags() {
    let mut config = empty_config();
    config.countdown.reverse = true;
    let time = parse_datetime("2026-01-01").unwrap();
    let mut app = new_app(Some(Mode::Countdown {
        time,
        continue_on_zero: true,
        reverse: false,
    }));
    app.init_app(Some(config), None);
    match app.setup {
        Some(ModeSetup::Countdown(c)) => {
            assert_eq!(c.time, time);
            assert!(c.continue_on_zero);
            assert!(c.reverse);
            assert_eq!(c.format, DurationFormat::HourMinSec);
        }
        _ => panic!("countdown expected"),
    }
}

#[test]
fn keys_route_by_mode() {
    let mut clock = new_app(Some(Mode::Clock { timezone: None }));
    clock.init_app(None, None);
    assert_eq!(clock.active_kind(), Some(ModeKind::Clock));
    assert_eq!(clock.on_key(Key::Char('T')), KeyAction::CycleWidgetTheme);
    assert_eq!(clock.on_key(Key::Char('t')), KeyAction::Nothing);
    assert_eq!(clock.on_key(Key::Char('g')), KeyAction::CycleWidgetGroup);
    assert_eq!(clock.on_key(Key::Char('z')), KeyAction::ToggleWidgets);
    assert_eq!(clock.on_key(Key::Home), KeyAction::ScrollWidgetToTop);
    assert_eq!(clock.on_key(Key::End), KeyAction::ScrollWidgetToBottom);
    assert_eq!(clock.on_key(Key::Char(' ')), KeyAction::Nothing);
    assert_eq!(clock.open_widget_popup_action(Key::Char('x')), Some('x'));
    assert_eq!(clock.open_widget_popup_action(Key::Other), None);
    assert_eq!(clock.on_widget_popup_key(Key::Esc), PopupAction::Close);
    assert_eq!(clock.on_widget_popup_key(Key::PageUp), PopupAction::Scroll(-10));
    assert_eq!(clock.on_widget_popup_key(Key::Down), PopupAction::Scroll(1));

    let mut stopwatch = new_app(Some(Mode::Stopwatch));
    stopwatch.init_app(None, None);
    assert_eq!(stopwatch.on_key(Key::Char(' ')), KeyAction::TogglePause);
    assert_eq!(stopwatch.on_key(Key::Char('T')), KeyAction::Nothing);
    assert_eq!(stopwatch.open_widget_popup_action(Key::Char('x')), None);
    assert_eq!(stopwatch.on_widget_popup_key(Key::Esc), PopupAction::Nothing);
    assert_eq!(handle_key(Key::Char(' ')), KeyAction::TogglePause);
    assert_eq!(handle_key(Key::Char('p')), KeyAction::Nothing);
}

#[test]
fn main_loop_routes_quit_popups_and_switches() {
    assert_eq!(dispatch_key(Key::Char('q'), true), KeyRoute::Quit);
    assert_eq!(dispatch_key(Key::Char('q'), false), KeyRoute::Quit);
    assert_eq!(dispatch_key(Key::Char('d'), true), KeyRoute::Popup);
    assert_eq!(dispatch_key(Key::Char('t'), false), KeyRoute::OfferToWidgets);
    assert_eq!(unclaimed_key(Key::Char('c')), LoopAction::SwitchMode(Switch::Clock));
    assert_eq!(unclaimed_key(Key::Char('w')), LoopAction::SwitchMode(Switch::Stopwatch));
    assert_eq!(unclaimed_key(Key::Char('t')), LoopAction::SwitchMode(Switch::Timer));
    assert_eq!(unclaimed_key(Key::Char(' ')), LoopAction::ModeKey);
    assert_eq!(unclaimed_key(Key::Char('T')), LoopAction::ModeKey);
    assert_eq!(unclaimed_key(Key::End), LoopAction::ModeKey);
    assert_eq!(unclaimed_key(Key::Char('x')), LoopAction::Ignore);
    assert_eq!(unclaimed_key(Key::Esc), LoopAction::Ignore);
}

#[test]
fn shift_t_cycles_the_clock_theme_and_z_toggles_the_widgets() {
    let mut view = ClockView::new(vec![
        "default".to_string(),
        "evangelion".to_string(),
        "nerv".to_string(),
    ]);
    assert_eq!(view.current_theme().as_deref(), Some("default"));
    view.cycle_theme();
    assert_eq!(view.current_theme().as_deref(), Some("evangelion"));
    view.cycle_theme();
    view.cycle_theme();
    assert_eq!(view.current_theme().as_deref(), Some("default"));

    let mut single = ClockView::new(vec!["nerv".to_string()]);
    single.cycle_theme();
    assert_eq!(single.current_theme().as_deref(), Some("nerv"));
    let mut none = ClockView::new(Vec::new());
    none.cycle_theme();
    assert_eq!(none.current_theme(), None);

    assert!(view.widgets_visible());
    view.toggle_widgets();
    assert!(!view.widgets_visible());
    assert_eq!(view.current_theme().as_deref(), Some("default"));
    view.toggle_widgets();
    assert!(view.widgets_visible());
}

fn clock_app(themes: &[&str]) -> App {
    let mut app = new_app(Some(Mode::Clock { timezone: None }));
    let mut config = empty_config();
    config.clock.widget_themes = themes.iter().map(|t| t.to_string()).collect();
    app.init_app(Some(config), None);
    app
}

#[test]
fn uppercase_t_cycles_clock_theme_and_lowercase_t_does_not() {
    let mut app = clock_app(&["default", "nerv"]);
    let theme = |app: &App| app.clock_view.as_ref().unwrap().current_theme();

    app.on_key(Key::Char('T'));
    assert!(app.clock_view.is_some());
    assert_eq!(theme(&app).as_deref(), Some("nerv"));

    app.on_key(Key::Char('t'));
    assert!(app.clock_view.is_some());
    assert_eq!(theme(&app).as_deref(), Some("nerv"));
}

#[test]
fn z_toggles_the_clock_only_layout() {
    let mut app = clock_app(&["default"]);

    assert!(app.clock_view.as_ref().unwrap().widgets_visible());
    app.on_key(Key::Char('z'));
    assert!(!app.clock_view.as_ref().unwrap().widgets_visible());
    app.on_key(Key::Char('z'));
    assert!(app.clock_view.as_ref().unwrap().widgets_visible());

    app.set_mode(Mode::Stopwatch, None, None);
    assert!(app.clock_view.is_none());
}

#[test]
fn init_app_takes_the_countdown_target_from_the_config() {
    let mut config = empty_config();
    config.default.mode = "countdown".to_string();
    config.countdown.time = Some("2026-12-25T20:00:00-04:00".to_string());
    let mut app = new_app(None);
    app.init_app(Some(config), None);
    match (&app.mode, &app.setup) {
        (Some(Mode::Countdown { time, .. }), Some(ModeSetup::Countdown(countdown))) => {
            assert_eq!(time.millis, 1_798_243_200_000);
            assert_eq!(countdown.time, *time);
        }
        _ => panic!("countdown expected"),
    }
}
