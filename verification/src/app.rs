use vstd::prelude::*;

use crate::args::{
    color_meaning, duration_meaning, lowercase, parse_color, parse_duration, requested_theme,
    resolve_widget_themes, str_view, themes_in_order, Color,
};
use crate::clock::{next_theme_position, opt_view, ClockView};
use crate::config::{
    default_theme_names, default_widget_themes, ClockWidgetConfig, Config, DisplayConfig,
    TimerConfig,
};
use crate::display::{
    copy_strings, first_title, resolved_show_date, resolved_show_millis, resolved_show_seconds,
    resolved_start_paused, resolved_titles, DisplayArgs, DisplayOptions, ModeDefaults,
};
use crate::duration::{format_for_display, Duration, DurationFormat};
use crate::text::{chars_equal, chars_of, trimmed};
use crate::time::{
    instant_only, now_local, parse_datetime, parse_outcome, read_datetime, rfc3339_instant,
    valid_date, CalendarDate, Timestamp, Zone,
};

verus! {

/// The clock size used when neither the command line nor the config sets one.
pub const DEFAULT_CLOCK_SIZE: u16 = 1;

/// Minutes of the timer's period when neither the command line nor the
/// config gives a valid duration.
pub const DEFAULT_TIMER_MINUTES: i64 = 5;

/// A mode, with the options that only it takes on the command line.
#[derive(Debug)]
pub enum Mode {
    /// The clock mode displays the current time, the default mode.
    Clock {
        /// Custom timezone; the local timezone when not given.
        timezone: Option<Zone>,
    },
    /// The timer mode displays the remaining time until the timer is finished.
    Timer {
        /// Durations run one after the other.
        durations: Vec<Duration>,
        /// Restart the timer when timer is over
        repeat: bool,
        /// Auto quit when time is up
        auto_quit: bool,
        /// Command to run when the timer ends
        execute: Vec<String>,
    },
    /// The stopwatch mode displays the elapsed time since it was started.
    Stopwatch,
    /// The countdown timer mode shows the duration to a specific time
    Countdown {
        /// The target time to count down to.
        time: Timestamp,
        /// Continue counting down after passing the target time
        continue_on_zero: bool,
        /// Reverse the countdown, a.k.a. countup
        reverse: bool,
    },
}

/// The four modes, without their options.
#[derive(Debug, Clone, Copy, PartialEq, Eq, Structural)]
pub enum ModeKind {
    Clock,
    Timer,
    Stopwatch,
    Countdown,
}

/// What the clock mode is built from.
#[derive(Debug)]
pub struct ClockSetup {
    pub size: u16,
    pub color: Color,
    pub title: Option<String>,
    pub show_date: bool,
    pub show_millis: bool,
    pub show_seconds: bool,
    pub timezone: Option<Zone>,
    pub widgets: Vec<ClockWidgetConfig>,
    pub widget_themes: Vec<String>,
}

/// What the timer mode is built from.
#[derive(Debug)]
pub struct TimerSetup {
    pub size: u16,
    pub color: Color,
    pub durations: Vec<Duration>,
    pub titles: Vec<String>,
    pub repeat: bool,
    pub format: DurationFormat,
    pub start_paused: bool,
    pub auto_quit: bool,
    pub execute: Vec<String>,
}

/// What the stopwatch mode is built from.
#[derive(Debug)]
pub struct StopwatchSetup {
    pub size: u16,
    pub color: Color,
    pub title: Option<String>,
    pub format: DurationFormat,
    pub start_paused: bool,
}

/// What the countdown mode is built from.
#[derive(Debug)]
pub struct CountdownSetup {
    pub size: u16,
    pub color: Color,
    pub time: Timestamp,
    pub title: Option<String>,
    pub continue_on_zero: bool,
    pub reverse: bool,
    pub format: DurationFormat,
}

/// The mode on screen, with every option resolved.
#[derive(Debug)]
pub enum ModeSetup {
    Clock(ClockSetup),
    Timer(TimerSetup),
    Stopwatch(StopwatchSetup),
    Countdown(CountdownSetup),
}

/// The command line and what it resolves to.
pub struct App {
    pub mode: Option<Mode>,
    /// Foreground color of the clock.
    pub color: Option<Color>,
    /// Size of the clock, a positive integer.
    pub size: Option<u16>,
    /// Initial clock/widget theme.
    pub theme: Option<String>,
    pub display: DisplayArgs,
    /// The mode on screen, once `init_app` has run.
    pub setup: Option<ModeSetup>,
    /// The clock's theme and widget state, in clock mode.
    pub clock_view: Option<ClockView>,
}

/// Whether a clock view is the fresh one for a mode: in clock mode, at the
/// first of the clock's themes with its widgets on screen; none otherwise.
pub open spec fn fresh_view(setup: Option<ModeSetup>, view: Option<ClockView>) -> bool {
    match setup {
        Some(ModeSetup::Clock(c)) => view matches Some(v) && v.theme_cycle() == c.widget_themes@
            && v.position() == 0 && v.showing_widgets(),
        _ => view is None,
    }
}

/// Whether a clock view is what a key action makes of another: `Shift+T`
/// moves to the next theme, `z` hides or shows the widgets, and nothing
/// else touches it.
pub open spec fn view_after(before: Option<ClockView>, after: Option<ClockView>, action: KeyAction) -> bool {
    match before {
        Some(v0) => after matches Some(v1) && v1.theme_cycle() == v0.theme_cycle()
            && v1.position() == (if action == KeyAction::CycleWidgetTheme {
            next_theme_position(v0.position(), v0.theme_cycle().len() as int)
        } else {
            v0.position()
        }) && v1.showing_widgets() == (if action == KeyAction::ToggleWidgets {
            !v0.showing_widgets()
        } else {
            v0.showing_widgets()
        }),
        None => after is None,
    }
}

/// The config, if a config was read, as a value.
pub open spec fn deref_config(config: Option<&Config>) -> Option<Config> {
    match config {
        Some(c) => Some(*c),
        None => None,
    }
}

/// The mode named by `[default] mode`, `clock` without a config.
pub open spec fn default_mode_name(config: Option<Config>) -> Seq<char> {
    match config {
        Some(c) => c.default.mode@,
        None => "clock"@,
    }
}

/// Whether a mode is the one started when none was given: the timer, the
/// stopwatch or the countdown when `[default] mode` names it, with no
/// options of its own, and the clock in the local zone otherwise.
pub open spec fn is_default_mode(m: Mode, config: Option<Config>) -> bool {
    let name = default_mode_name(config);
    if name == "timer"@ {
        m matches Mode::Timer { durations, repeat, auto_quit, execute } && durations@.len() == 0
            && !repeat && !auto_quit && execute@.len() == 0
    } else if name == "stopwatch"@ {
        m is Stopwatch
    } else if name == "countdown"@ {
        m matches Mode::Countdown { continue_on_zero, reverse, .. } && !continue_on_zero
            && !reverse
    } else {
        m matches Mode::Clock { timezone } && timezone is None
    }
}

/// Whether a default mode's countdown target is what `[countdown] time`
/// reads as: an RFC 3339 text gives exactly its instant, and any text gives
/// the instant it is parsed as, on some day, whenever it parses. (When the
/// text is missing or does not parse, the target is the time of the call.)
pub open spec fn default_target_follows(m: Mode, config: Option<Config>) -> bool {
    m matches Mode::Countdown { time, .. } ==> match config {
        Some(c) => match c.countdown.time {
            Some(t) => (instant_only(trimmed(t@)) ==> time == rfc3339_instant(trimmed(t@)))
                && exists|today: CalendarDate, parsed: Result<Timestamp, String>|
                valid_date(today) && #[trigger] parse_outcome(
                    read_datetime(trimmed(t@), today),
                    parsed,
                ) && (parsed matches Ok(i) ==> time == i),
            None => true,
        },
        None => true,
    }
}

/// The mode to start in when none was given on the command line: `[default]
/// mode` from the config, falling back to the clock. The countdown's target
/// comes from `[countdown] time`, or is now when that is missing or invalid.
pub fn default_mode(config: Option<&Config>) -> (r: Mode)
    ensures
        is_default_mode(r, deref_config(config)),
        default_target_follows(r, deref_config(config)),
{
    let name = match config {
        Some(c) => chars_of(c.default.mode.as_str()),
        None => chars_of("clock"),
    };
    proof {
        reveal_strlit("clock");
        reveal_strlit("timer");
        reveal_strlit("stopwatch");
        reveal_strlit("countdown");
    }
    if chars_equal(&name, "timer") {
        Mode::Timer { durations: Vec::new(), repeat: false, auto_quit: false, execute: Vec::new() }
    } else if chars_equal(&name, "stopwatch") {
        Mode::Stopwatch
    } else if chars_equal(&name, "countdown") {
        let parsed = match config {
            Some(c) => match &c.countdown.time {
                Some(t) => Some(parse_datetime(t.as_str())),
                None => None,
            },
            None => None,
        };
        let ghost read = parsed;
        let time = countdown_target(parsed, now_local());
        proof {
            if config is Some && config->0.countdown.time is Some {
                let t = config->0.countdown.time->0;
                {
                    let p = read->0;
                    let today = choose|today: CalendarDate|
                        valid_date(today) && #[trigger] parse_outcome(
                            read_datetime(trimmed(t@), today),
                            p,
                        );
                    assert(parse_outcome(read_datetime(trimmed(t@), today), p));
                }
            }
        }
        Mode::Countdown { time, continue_on_zero: false, reverse: false }
    } else {
        Mode::Clock { timezone: None }
    }
}

/// The countdown's target: the instant `[countdown] time` was read as,
/// when it was given and read; `now` otherwise.
pub fn countdown_target(parsed: Option<Result<Timestamp, String>>, now: Timestamp) -> (r: Timestamp)
    ensures
        r == match parsed {
            Some(Ok(t)) => t,
            _ => now,
        },
{
    match parsed {
        Some(Ok(t)) => t,
        _ => now,
    }
}

/// The milliseconds of each duration in a list.
pub open spec fn millis_of(ds: Seq<Duration>) -> Seq<int> {
    ds.map_values(|d: Duration| d@)
}

/// The timer's built-in period: 5 minutes.
pub open spec fn default_timer_millis() -> Seq<int> {
    seq![300000]
}

/// The valid durations among a list of duration texts, in milliseconds.
pub open spec fn valid_durations(texts: Seq<String>) -> Seq<int> {
    texts.filter_map(
        |t: String|
            match duration_meaning(t@) {
                Ok(ms) => Some(ms),
                Err(_) => None,
            },
    )
}

/// The periods a timer section asks for: its valid durations, or the
/// built-in 5 minutes when none is valid.
pub open spec fn configured_timer_millis(config: TimerConfig) -> Seq<int> {
    if valid_durations(config.durations@).len() == 0 {
        default_timer_millis()
    } else {
        valid_durations(config.durations@)
    }
}

/// The timer's built-in period, 5 minutes, used when neither the command
/// line nor `[timer] durations` gives a valid duration.
pub fn default_timer_config_durations() -> (r: Vec<Duration>)
    ensures
        millis_of(r@) == default_timer_millis(),
{
    let mut r: Vec<Duration> = Vec::new();
    r.push(Duration::minutes(DEFAULT_TIMER_MINUTES));
    assert(millis_of(r@) =~= default_timer_millis());
    r
}

/// The timer periods of a config section: every duration that parses, in
/// order, skipping invalid ones; the built-in 5 minutes when none parses.
pub fn configured_timer_durations(config: &TimerConfig) -> (r: Vec<Duration>)
    ensures
        millis_of(r@) == configured_timer_millis(*config),
{
    let texts = &config.durations;
    let mut durations: Vec<Duration> = Vec::new();
    let mut i: usize = 0;
    while i < texts.len()
        invariant
            i <= texts@.len(),
            millis_of(durations@) == valid_durations(texts@.take(i as int)),
        decreases texts.len() - i,
    {
        let ghost before = durations@;
        assert(texts@.take(i + 1).drop_last() =~= texts@.take(i as int));
        assert(texts@.take(i + 1).last() == texts@[i as int]);
        match parse_duration(texts[i].as_str()) {
            Ok(d) => {
                durations.push(d);
                assert(millis_of(durations@) =~= millis_of(before) + seq![d@]);
            },
            Err(_) => {},
        }
        i += 1;
    }
    assert(texts@.take(texts@.len() as int) =~= texts@);
    if durations.len() == 0 {
        default_timer_config_durations()
    } else {
        durations
    }
}

/// An owned copy of a list of durations.
fn copy_durations(v: &Vec<Duration>) -> (r: Vec<Duration>)
    ensures
        r@ == v@,
{
    let mut r: Vec<Duration> = Vec::new();
    let mut i: usize = 0;
    while i < v.len()
        invariant
            i <= v@.len(),
            r@ == v@.subrange(0, i as int),
        decreases v.len() - i,
    {
        r.push(v[i]);
        assert(v@.subrange(0, i + 1) =~= v@.subrange(0, i as int).push(v@[i as int]));
        i += 1;
    }
    assert(v@.subrange(0, v@.len() as int) =~= v@);
    r
}

/// The color from `[default] color`, green when it is missing or invalid.
pub open spec fn config_color(config: Option<Config>) -> Color {
    match config {
        Some(c) => match color_meaning(lowercase(c.default.color@)) {
            Ok(col) => col,
            Err(_) => Color::Green,
        },
        None => Color::Green,
    }
}

/// The size from `[default] size`, 1 when it is missing or zero.
pub open spec fn config_size(config: Option<Config>) -> u16 {
    match config {
        Some(c) => if c.default.size > 0 {
            c.default.size
        } else {
            DEFAULT_CLOCK_SIZE
        },
        None => DEFAULT_CLOCK_SIZE,
    }
}

/// The `[default]` display section, when there is a config.
pub open spec fn default_section(config: Option<Config>) -> Option<DisplayConfig> {
    match config {
        Some(c) => Some(c.default.display),
        None => None,
    }
}

/// The `[clock]` display section, when there is a config.
pub open spec fn clock_section(config: Option<Config>) -> Option<DisplayConfig> {
    match config {
        Some(c) => Some(c.clock.display),
        None => None,
    }
}

/// The `[timer]` display section, when there is a config.
pub open spec fn timer_section(config: Option<Config>) -> Option<DisplayConfig> {
    match config {
        Some(c) => Some(c.timer.display),
        None => None,
    }
}

/// The `[stopwatch]` display section, when there is a config.
pub open spec fn stopwatch_section(config: Option<Config>) -> Option<DisplayConfig> {
    match config {
        Some(c) => Some(c.stopwatch.display),
        None => None,
    }
}

/// The `[countdown]` display section, when there is a config.
pub open spec fn countdown_section(config: Option<Config>) -> Option<DisplayConfig> {
    match config {
        Some(c) => Some(c.countdown.display),
        None => None,
    }
}

/// Whether the setup of the clock follows from its options and the config.
pub open spec fn clock_follows(
    s: ClockSetup,
    timezone: Option<Zone>,
    display: DisplayArgs,
    theme: Option<Seq<char>>,
    env_theme: Option<Seq<char>>,
    config: Option<Config>,
) -> bool {
    let builtin = ModeDefaults { show_date: true, show_seconds: true, show_millis: false };
    let section = clock_section(config);
    let default = default_section(config);
    &&& s.title == first_title(resolved_titles(display.titles@, Seq::empty(), section, default))
    &&& s.show_date == resolved_show_date(display, section, default, builtin)
    &&& s.show_seconds == resolved_show_seconds(display, section, default, builtin)
    &&& s.show_millis == resolved_show_millis(display, section, default, builtin)
    &&& s.timezone == match timezone {
        Some(z) => Some(z),
        None => match config {
            Some(c) => c.clock.timezone,
            None => None,
        },
    }
    &&& s.widgets@ == match config {
        Some(c) => c.clock.widgets@,
        None => Seq::empty(),
    }
    &&& match config {
        Some(c) => themes_in_order(
            requested_theme(theme, env_theme),
            c.clock.widget_themes@,
            s.widget_themes@,
        ),
        None => exists|builtin: Seq<String>|
            #[trigger] default_theme_names(builtin) && themes_in_order(
                requested_theme(theme, env_theme),
                builtin,
                s.widget_themes@,
            ),
    }
}

/// Whether the setup of the timer follows from its options and the config.
pub open spec fn timer_follows(
    s: TimerSetup,
    durations: Seq<Duration>,
    repeat: bool,
    auto_quit: bool,
    execute: Seq<String>,
    display: DisplayArgs,
    config: Option<Config>,
) -> bool {
    let builtin = ModeDefaults { show_date: false, show_seconds: true, show_millis: true };
    let section = timer_section(config);
    let default = default_section(config);
    &&& millis_of(s.durations@) == if durations.len() == 0 {
        match config {
            Some(c) => configured_timer_millis(c.timer),
            None => default_timer_millis(),
        }
    } else {
        millis_of(durations)
    }
    &&& s.titles@ == resolved_titles(
        display.titles@,
        match config {
            Some(c) => c.timer.titles@,
            None => Seq::empty(),
        },
        section,
        default,
    )
    &&& s.repeat == (repeat || match config {
        Some(c) => c.timer.repeat,
        None => false,
    })
    &&& s.auto_quit == (auto_quit || match config {
        Some(c) => c.timer.auto_quit,
        None => false,
    })
    &&& s.execute@ == if execute.len() == 0 {
        match config {
            Some(c) => c.timer.execute@,
            None => Seq::empty(),
        }
    } else {
        execute
    }
    &&& s.format == format_for_display(
        resolved_show_seconds(display, section, default, builtin),
        resolved_show_millis(display, section, default, builtin),
    )
    &&& s.start_paused == resolved_start_paused(display, section, default)
}

/// Whether the setup of the stopwatch follows from the config.
pub open spec fn stopwatch_follows(s: StopwatchSetup, display: DisplayArgs, config: Option<Config>) -> bool {
    let builtin = ModeDefaults { show_date: false, show_seconds: true, show_millis: true };
    let section = stopwatch_section(config);
    let default = default_section(config);
    &&& s.title == first_title(resolved_titles(display.titles@, Seq::empty(), section, default))
    &&& s.format == format_for_display(
        resolved_show_seconds(display, section, default, builtin),
        resolved_show_millis(display, section, default, builtin),
    )
    &&& s.start_paused == resolved_start_paused(display, section, default)
}

/// Whether the setup of the countdown follows from its options and the config.
pub open spec fn countdown_follows(
    s: CountdownSetup,
    time: Timestamp,
    continue_on_zero: bool,
    reverse: bool,
    display: DisplayArgs,
    config: Option<Config>,
) -> bool {
    let builtin = ModeDefaults { show_date: false, show_seconds: true, show_millis: false };
    let section = countdown_section(config);
    let default = default_section(config);
    &&& s.time == time
    &&& s.title == first_title(resolved_titles(display.titles@, Seq::empty(), section, default))
    &&& s.continue_on_zero == (continue_on_zero || match config {
        Some(c) => c.countdown.continue_on_zero,
        None => false,
    })
    &&& s.reverse == (reverse || match config {
        Some(c) => c.countdown.reverse,
        None => false,
    })
    &&& s.format == format_for_display(
        resolved_show_seconds(display, section, default, builtin),
        resolved_show_millis(display, section, default, builtin),
    )
}

/// Whether a setup is the one for a mode, at a size and color, with the
/// display options, theme request and config given.
pub open spec fn setup_follows(
    s: ModeSetup,
    mode: Mode,
    size: u16,
    color: Color,
    display: DisplayArgs,
    theme: Option<Seq<char>>,
    env_theme: Option<Seq<char>>,
    config: Option<Config>,
) -> bool {
    match mode {
        Mode::Clock { timezone } => s matches ModeSetup::Clock(c) && c.size == size && c.color
            == color && clock_follows(c, timezone, display, theme, env_theme, config),
        Mode::Timer { durations, repeat, auto_quit, execute } => s matches ModeSetup::Timer(t)
            && t.size == size && t.color == color && timer_follows(
            t,
            durations@,
            repeat,
            auto_quit,
            execute@,
            display,
            config,
        ),
        Mode::Stopwatch => s matches ModeSetup::Stopwatch(w) && w.size == size && w.color == color
            && stopwatch_follows(w, display, config),
        Mode::Countdown { time, continue_on_zero, reverse } => s matches ModeSetup::Countdown(d)
            && d.size == size && d.color == color && countdown_follows(
            d,
            time,
            continue_on_zero,
            reverse,
            display,
            config,
        ),
    }
}

fn clock_setup(
    timezone: Option<Zone>,
    size: u16,
    color: Color,
    display_args: &DisplayArgs,
    theme: Option<&str>,
    env_theme: Option<&str>,
    config: Option<Config>,
) -> (r: ClockSetup)
    ensures
        r.size == size,
        r.color == color,
        clock_follows(r, timezone, *display_args, str_view(theme), str_view(env_theme), config),
{
    let ghost cfg = config;
    let (default_display, clock_display, clock_timezone, widgets, themes) = match config {
        Some(c) => (
            Some(c.default.display),
            Some(c.clock.display),
            c.clock.timezone,
            c.clock.widgets,
            c.clock.widget_themes,
        ),
        None => (None, None, None, Vec::new(), default_widget_themes()),
    };
    let ghost configured = themes@;
    let display = DisplayOptions::resolve(
        display_args,
        clock_display.as_ref(),
        default_display.as_ref(),
        ModeDefaults::clock(),
        Vec::new(),
    );
    let widget_themes = resolve_widget_themes(theme, env_theme, themes);
    proof {
        if cfg is None {
            assert(default_theme_names(configured));
        }
    }
    ClockSetup {
        size,
        color,
        title: display.title(),
        show_date: display.show_date,
        show_millis: display.show_millis,
        show_seconds: display.show_seconds,
        timezone: match timezone {
            Some(z) => Some(z),
            None => clock_timezone,
        },
        widgets,
        widget_themes,
    }
}

fn timer_setup(
    durations: &Vec<Duration>,
    repeat: bool,
    auto_quit: bool,
    execute: &Vec<String>,
    size: u16,
    color: Color,
    display_args: &DisplayArgs,
    config: Option<&Config>,
) -> (r: TimerSetup)
    ensures
        r.size == size,
        r.color == color,
        timer_follows(r, durations@, repeat, auto_quit, execute@, *display_args, deref_config(config)),
{
    let display = match config {
        Some(c) => DisplayOptions::resolve(
            display_args,
            Some(&c.timer.display),
            Some(&c.default.display),
            ModeDefaults::timer(),
            copy_strings(&c.timer.titles),
        ),
        None => DisplayOptions::resolve(display_args, None, None, ModeDefaults::timer(), Vec::new()),
    };
    let durations = if durations.len() == 0 {
        match config {
            Some(c) => configured_timer_durations(&c.timer),
            None => default_timer_config_durations(),
        }
    } else {
        copy_durations(durations)
    };
    let execute = if execute.len() == 0 {
        match config {
            Some(c) => copy_strings(&c.timer.execute),
            None => Vec::new(),
        }
    } else {
        copy_strings(execute)
    };
    let format = display.duration_format();
    let start_paused = display.start_paused;
    TimerSetup {
        size,
        color,
        durations,
        titles: display.titles,
        repeat: repeat || match config {
            Some(c) => c.timer.repeat,
            None => false,
        },
        format,
        start_paused,
        auto_quit: auto_quit || match config {
            Some(c) => c.timer.auto_quit,
            None => false,
        },
        execute,
    }
}

fn stopwatch_setup(size: u16, color: Color, display_args: &DisplayArgs, config: Option<&Config>) -> (r: StopwatchSetup)
    ensures
        r.size == size,
        r.color == color,
        stopwatch_follows(r, *display_args, deref_config(config)),
{
    let display = match config {
        Some(c) => DisplayOptions::resolve(
            display_args,
            Some(&c.stopwatch.display),
            Some(&c.default.display),
            ModeDefaults::stopwatch(),
            Vec::new(),
        ),
        None => DisplayOptions::resolve(display_args, None, None, ModeDefaults::stopwatch(), Vec::new()),
    };
    StopwatchSetup {
        size,
        color,
        title: display.title(),
        format: display.duration_format(),
        start_paused: display.start_paused,
    }
}

fn countdown_setup(
    time: Timestamp,
    continue_on_zero: bool,
    reverse: bool,
    size: u16,
    color: Color,
    display_args: &DisplayArgs,
    config: Option<&Config>,
) -> (r: CountdownSetup)
    ensures
        r.size == size,
        r.color == color,
        countdown_follows(r, time, continue_on_zero, reverse, *display_args, deref_config(config)),
{
    let display = match config {
        Some(c) => DisplayOptions::resolve(
            display_args,
            Some(&c.countdown.display),
            Some(&c.default.display),
            ModeDefaults::countdown(),
            Vec::new(),
        ),
        None => DisplayOptions::resolve(display_args, None, None, ModeDefaults::countdown(), Vec::new()),
    };
    CountdownSetup {
        size,
        color,
        time,
        title: display.title(),
        continue_on_zero: continue_on_zero || match config {
            Some(c) => c.countdown.continue_on_zero,
            None => false,
        },
        reverse: reverse || match config {
            Some(c) => c.countdown.reverse,
            None => false,
        },
        format: display.duration_format(),
    }
}

impl App {
    /// Resolve the mode, its options and the display options against the
    /// config, as the program starts or switches modes.
    ///
    /// The mode defaults to `[default] mode`. The color and the size, when
    /// the command line leaves them out, come from `[default]`, falling back
    /// to green and 1. The theme request is the `--theme` value, else the
    /// `env_theme` given (the program reads `TCLOCK_WIDGET_THEME`).
    pub fn init_app(&mut self, config: Option<Config>, env_theme: Option<String>)
        ensures
            old(self).mode is Some ==> final(self).mode == old(self).mode,
            old(self).mode is None ==> final(self).mode is Some && is_default_mode(
                final(self).mode->0,
                config,
            ) && default_target_follows(final(self).mode->0, config),
            final(self).color == Some(
                match old(self).color {
                    Some(c) => c,
                    None => config_color(config),
                },
            ),
            final(self).size == Some(
                match old(self).size {
                    Some(s) => s,
                    None => config_size(config),
                },
            ),
            final(self).theme == old(self).theme,
            final(self).display == old(self).display,
            final(self).setup is Some,
            fresh_view(final(self).setup, final(self).clock_view),
            final(self).mode->0 is Countdown ==> (final(self).setup->0 matches ModeSetup::Countdown(d)
                && d.continue_on_zero == (final(self).mode->0->continue_on_zero || (config is Some
                && config->0.countdown.continue_on_zero)) && d.reverse == (final(self).mode->0->reverse || (
            config is Some && config->0.countdown.reverse))),
            final(self).mode->0 is Timer ==> (final(self).setup->0 matches ModeSetup::Timer(t) && t.repeat == (
            final(self).mode->0->repeat || (config is Some && config->0.timer.repeat)) && t.auto_quit == (
            final(self).mode->0->auto_quit || (config is Some && config->0.timer.auto_quit))),
            setup_follows(
                final(self).setup->0,
                final(self).mode->0,
                final(self).size->0,
                final(self).color->0,
                final(self).display,
                opt_view(final(self).theme),
                opt_view(env_theme),
                config,
            ),
    {
        if self.mode.is_none() {
            self.mode = Some(default_mode(config.as_ref()));
        }
        if self.color.is_none() {
            let color = match &config {
                Some(c) => match parse_color(c.default.color.as_str()) {
                    Ok(color) => color,
                    Err(_) => Color::Green,
                },
                None => Color::Green,
            };
            self.color = Some(color);
        }
        if self.size.is_none() {
            let size = match &config {
                Some(c) => if c.default.size > 0 {
                    c.default.size
                } else {
                    DEFAULT_CLOCK_SIZE
                },
                None => DEFAULT_CLOCK_SIZE,
            };
            self.size = Some(size);
        }
        let color = match self.color {
            Some(c) => c,
            None => Color::Green,
        };
        let size = match self.size {
            Some(s) => s,
            None => DEFAULT_CLOCK_SIZE,
        };
        let theme = match &self.theme {
            Some(t) => Some(t.as_str()),
            None => None,
        };
        let env = match &env_theme {
            Some(t) => Some(t.as_str()),
            None => None,
        };
        let setup = match &self.mode {
            Some(Mode::Clock { timezone }) => {
                let zone = match timezone {
                    Some(z) => Some(*z),
                    None => None,
                };
                Some(
                    ModeSetup::Clock(
                        clock_setup(zone, size, color, &self.display, theme, env, config),
                    ),
                )
            },
            Some(Mode::Timer { durations, repeat, auto_quit, execute }) => Some(
                ModeSetup::Timer(
                    timer_setup(
                        durations,
                        *repeat,
                        *auto_quit,
                        execute,
                        size,
                        color,
                        &self.display,
                        config.as_ref(),
                    ),
                ),
            ),
            Some(Mode::Stopwatch) => Some(
                ModeSetup::Stopwatch(stopwatch_setup(size, color, &self.display, config.as_ref())),
            ),
            Some(Mode::Countdown { time, continue_on_zero, reverse }) => Some(
                ModeSetup::Countdown(
                    countdown_setup(
                        *time,
                        *continue_on_zero,
                        *reverse,
                        size,
                        color,
                        &self.display,
                        config.as_ref(),
                    ),
                ),
            ),
            None => None,
        };
        self.clock_view = match &setup {
            Some(ModeSetup::Clock(c)) => Some(ClockView::new(copy_strings(&c.widget_themes))),
            _ => None,
        };
        self.setup = setup;
    }

    /// Switch to another mode, keeping the display options, color, size and
    /// theme given so far.
    pub fn set_mode(&mut self, mode: Mode, config: Option<Config>, env_theme: Option<String>)
        ensures
            final(self).mode == Some(mode),
            final(self).display == old(self).display,
            final(self).theme == old(self).theme,
            final(self).color == Some(
                match old(self).color {
                    Some(c) => c,
                    None => config_color(config),
                },
            ),
            final(self).size == Some(
                match old(self).size {
                    Some(s) => s,
                    None => config_size(config),
                },
            ),
            final(self).setup is Some,
            fresh_view(final(self).setup, final(self).clock_view),
            mode is Countdown ==> (final(self).setup->0 matches ModeSetup::Countdown(d)
                && d.continue_on_zero == (mode->continue_on_zero || (config is Some
                && config->0.countdown.continue_on_zero)) && d.reverse == (mode->reverse || (
            config is Some && config->0.countdown.reverse))),
            mode is Timer ==> (final(self).setup->0 matches ModeSetup::Timer(t) && t.repeat == (
            mode->repeat || (config is Some && config->0.timer.repeat)) && t.auto_quit == (
            mode->auto_quit || (config is Some && config->0.timer.auto_quit))),
            setup_follows(
                final(self).setup->0,
                mode,
                final(self).size->0,
                final(self).color->0,
                final(self).display,
                opt_view(final(self).theme),
                opt_view(env_theme),
                config,
            ),
    {
        self.mode = Some(mode);
        self.init_app(config, env_theme);
    }
}


/// A key press, as far as the clock reads it.
#[derive(Debug, Clone, Copy, PartialEq, Eq, Structural)]
pub enum Key {
    Char(char),
    Home,
    End,
    Esc,
    Up,
    Down,
    PageUp,
    PageDown,
    /// Any other key.
    Other,
}

/// What a key does to the mode on screen.
#[derive(Debug, Clone, Copy, PartialEq, Eq, Structural)]
pub enum KeyAction {
    /// Move to the next clock theme.
    CycleWidgetTheme,
    /// Move to the next widget group.
    CycleWidgetGroup,
    /// Hide or show every widget.
    ToggleWidgets,
    /// Scroll the active widget to its top.
    ScrollWidgetToTop,
    /// Scroll the active widget to its bottom.
    ScrollWidgetToBottom,
    /// Pause or resume the timer or stopwatch.
    TogglePause,
    Nothing,
}

/// What a key does while a widget popup is open.
#[derive(Debug, Clone, Copy, PartialEq, Eq, Structural)]
pub enum PopupAction {
    Close,
    /// Scroll the popup by this many lines.
    Scroll(i16),
    ScrollToTop,
    ScrollToBottom,
    Nothing,
}

/// The first decision on a key in the main loop.
#[derive(Debug, Clone, Copy, PartialEq, Eq, Structural)]
pub enum KeyRoute {
    /// Leave the program.
    Quit,
    /// Hand the key to the open popup.
    Popup,
    /// Offer the key to the visible widgets' popup actions first.
    OfferToWidgets,
}

/// The modes a key switches to.
#[derive(Debug, Clone, Copy, PartialEq, Eq, Structural)]
pub enum Switch {
    Clock,
    Stopwatch,
    Timer,
}

/// What the main loop does with a key that no widget action took.
#[derive(Debug, Clone, Copy, PartialEq, Eq, Structural)]
pub enum LoopAction {
    /// Pass the key to the mode on screen (`on_key`).
    ModeKey,
    /// Switch to another mode.
    SwitchMode(Switch),
    Ignore,
}

/// The kind of the mode on screen, if any.
pub open spec fn setup_kind(setup: Option<ModeSetup>) -> Option<ModeKind> {
    match setup {
        Some(ModeSetup::Clock(_)) => Some(ModeKind::Clock),
        Some(ModeSetup::Timer(_)) => Some(ModeKind::Timer),
        Some(ModeSetup::Stopwatch(_)) => Some(ModeKind::Stopwatch),
        Some(ModeSetup::Countdown(_)) => Some(ModeKind::Countdown),
        None => None,
    }
}

/// What a key does in each mode: in the clock, `T` cycles the theme, `g`
/// the widget group, `z` shows or hides the widgets, `Home` and `End` scroll
/// the active widget; in the timer and the stopwatch, space pauses and
/// resumes; nothing else does anything.
pub open spec fn key_action(kind: Option<ModeKind>, key: Key) -> KeyAction {
    match kind {
        Some(ModeKind::Clock) => match key {
            Key::Char(c) => if c == 'T' {
                KeyAction::CycleWidgetTheme
            } else if c == 'g' {
                KeyAction::CycleWidgetGroup
            } else if c == 'z' {
                KeyAction::ToggleWidgets
            } else {
                KeyAction::Nothing
            },
            Key::Home => KeyAction::ScrollWidgetToTop,
            Key::End => KeyAction::ScrollWidgetToBottom,
            _ => KeyAction::Nothing,
        },
        Some(ModeKind::Timer) | Some(ModeKind::Stopwatch) => if key == Key::Char(' ') {
            KeyAction::TogglePause
        } else {
            KeyAction::Nothing
        },
        _ => KeyAction::Nothing,
    }
}

/// What a key does while a clock widget popup is open: `Esc` closes it, the
/// arrows scroll one line, the page keys ten, `Home` and `End` jump.
pub open spec fn popup_action(kind: Option<ModeKind>, key: Key) -> PopupAction {
    if kind == Some(ModeKind::Clock) {
        match key {
            Key::Esc => PopupAction::Close,
            Key::Up => PopupAction::Scroll(-1i16),
            Key::Down => PopupAction::Scroll(1i16),
            Key::PageUp => PopupAction::Scroll(-10i16),
            Key::PageDown => PopupAction::Scroll(10i16),
            Key::Home => PopupAction::ScrollToTop,
            Key::End => PopupAction::ScrollToBottom,
            _ => PopupAction::Nothing,
        }
    } else {
        PopupAction::Nothing
    }
}

impl App {
    /// The kind of the mode on screen.
    pub fn active_kind(&self) -> (r: Option<ModeKind>)
        ensures
            r == setup_kind(self.setup),
    {
        match &self.setup {
            Some(ModeSetup::Clock(_)) => Some(ModeKind::Clock),
            Some(ModeSetup::Timer(_)) => Some(ModeKind::Timer),
            Some(ModeSetup::Stopwatch(_)) => Some(ModeKind::Stopwatch),
            Some(ModeSetup::Countdown(_)) => Some(ModeKind::Countdown),
            None => None,
        }
    }

    /// What a key does to the mode on screen.
    pub fn on_key(&mut self, key: Key) -> (r: KeyAction)
        ensures
            r == key_action(setup_kind(old(self).setup), key),
            view_after(old(self).clock_view, final(self).clock_view, r),
            final(self).setup == old(self).setup,
            final(self).mode == old(self).mode,
            final(self).color == old(self).color,
            final(self).size == old(self).size,
            final(self).theme == old(self).theme,
            final(self).display == old(self).display,
    {
        let action = self.action_for(key);
        match &mut self.clock_view {
            Some(view) => {
                if action == KeyAction::CycleWidgetTheme {
                    view.cycle_theme();
                } else if action == KeyAction::ToggleWidgets {
                    view.toggle_widgets();
                }
            },
            None => {},
        }
        action
    }

    fn action_for(&self, key: Key) -> (r: KeyAction)
        ensures
            r == key_action(setup_kind(self.setup), key),
    {
        match self.active_kind() {
            Some(ModeKind::Clock) => match key {
                Key::Char('T') => KeyAction::CycleWidgetTheme,
                Key::Char('g') => KeyAction::CycleWidgetGroup,
                Key::Char('z') => KeyAction::ToggleWidgets,
                Key::Home => KeyAction::ScrollWidgetToTop,
                Key::End => KeyAction::ScrollWidgetToBottom,
                _ => KeyAction::Nothing,
            },
            Some(ModeKind::Timer) | Some(ModeKind::Stopwatch) => handle_key(key),
            _ => KeyAction::Nothing,
        }
    }

    /// The key to offer to the clock's widget popup actions: a character
    /// key, and only in clock mode.
    pub fn open_widget_popup_action(&self, key: Key) -> (r: Option<char>)
        ensures
            r is Some <==> setup_kind(self.setup) == Some(ModeKind::Clock) && key is Char,
            r matches Some(c) ==> key == Key::Char(c),
    {
        match key {
            Key::Char(c) => match self.active_kind() {
                Some(ModeKind::Clock) => Some(c),
                _ => None,
            },
            _ => None,
        }
    }

    /// What a key does while a widget popup is open.
    pub fn on_widget_popup_key(&self, key: Key) -> (r: PopupAction)
        ensures
            r == popup_action(setup_kind(self.setup), key),
    {
        match self.active_kind() {
            Some(ModeKind::Clock) => match key {
                Key::Esc => PopupAction::Close,
                Key::Up => PopupAction::Scroll(-1),
                Key::Down => PopupAction::Scroll(1),
                Key::PageUp => PopupAction::Scroll(-10),
                Key::PageDown => PopupAction::Scroll(10),
                Key::Home => PopupAction::ScrollToTop,
                Key::End => PopupAction::ScrollToBottom,
                _ => PopupAction::Nothing,
            },
            _ => PopupAction::Nothing,
        }
    }
}

/// The space bar pauses and resumes a timer or stopwatch.
pub fn handle_key(key: Key) -> (r: KeyAction)
    ensures
        r == (if key == Key::Char(' ') {
            KeyAction::TogglePause
        } else {
            KeyAction::Nothing
        }),
{
    match key {
        Key::Char(' ') => KeyAction::TogglePause,
        _ => KeyAction::Nothing,
    }
}

/// The first decision on a key: `q` quits, whatever is on screen; with a
/// popup open the popup takes every other key; otherwise the visible
/// widgets' popup actions get the first offer.
pub fn dispatch_key(key: Key, popup_open: bool) -> (r: KeyRoute)
    ensures
        key == Key::Char('q') ==> r == KeyRoute::Quit,
        key != Key::Char('q') && popup_open ==> r == KeyRoute::Popup,
        key != Key::Char('q') && !popup_open ==> r == KeyRoute::OfferToWidgets,
{
    if key == Key::Char('q') {
        KeyRoute::Quit
    } else if popup_open {
        KeyRoute::Popup
    } else {
        KeyRoute::OfferToWidgets
    }
}

/// What a key that no widget action took does: space, `T`, `g`, `z`,
/// `Home` and `End` go to the mode on screen; `c`, `w` and `t` switch to the
/// clock, the stopwatch and the timer; any other key is ignored.
pub fn unclaimed_key(key: Key) -> (r: LoopAction)
    ensures
        key == Key::Char('c') ==> r == LoopAction::SwitchMode(Switch::Clock),
        key == Key::Char('w') ==> r == LoopAction::SwitchMode(Switch::Stopwatch),
        key == Key::Char('t') ==> r == LoopAction::SwitchMode(Switch::Timer),
        key == Key::Char(' ') || key == Key::Char('T') || key == Key::Char('g') || key
            == Key::Char('z') || key == Key::Home || key == Key::End ==> r == LoopAction::ModeKey,
        !(key == Key::Char('c') || key == Key::Char('w') || key == Key::Char('t') || key
            == Key::Char(' ') || key == Key::Char('T') || key == Key::Char('g') || key
            == Key::Char('z') || key == Key::Home || key == Key::End) ==> r == LoopAction::Ignore,
{
    match key {
        Key::Char(' ') => LoopAction::ModeKey,
        Key::Char('c') => LoopAction::SwitchMode(Switch::Clock),
        Key::Char('w') => LoopAction::SwitchMode(Switch::Stopwatch),
        Key::Char('t') => LoopAction::SwitchMode(Switch::Timer),
        Key::Char('T') | Key::Char('g') | Key::Char('z') | Key::Home | Key::End => LoopAction::ModeKey,
        _ => LoopAction::Ignore,
    }
}

impl Switch {
    /// The mode a switch key starts: the clock in the local zone, the
    /// stopwatch, or the timer with its periods left to the config.
    pub fn mode(self) -> (r: Mode)
        ensures
            self == Switch::Clock ==> (r matches Mode::Clock { timezone } && timezone is None),
            self == Switch::Stopwatch ==> r is Stopwatch,
            self == Switch::Timer ==> (r matches Mode::Timer { durations, repeat, auto_quit, execute }
                && durations@.len() == 0 && !repeat && !auto_quit && execute@.len() == 0),
    {
        match self {
            Switch::Clock => Mode::Clock { timezone: None },
            Switch::Stopwatch => Mode::Stopwatch,
            Switch::Timer => Mode::Timer {
                durations: Vec::new(),
                repeat: false,
                auto_quit: false,
                execute: Vec::new(),
            },
        }
    }
}

/// In clock mode, `T` moves to the next theme, while `t` does not touch the
/// theme: it reaches the mode on screen as nothing, and the main loop takes it
/// as the switch to the timer.
pub proof fn lemma_theme_key_is_uppercase(kind: Option<ModeKind>)
    ensures
        kind == Some(ModeKind::Clock) ==> key_action(kind, Key::Char('T')) == KeyAction::CycleWidgetTheme,
        key_action(kind, Key::Char('t')) != KeyAction::CycleWidgetTheme,
{
}

/// Only the timer and the stopwatch pause, and only on the space bar.
pub proof fn lemma_only_space_pauses(kind: Option<ModeKind>, key: Key)
    ensures
        key_action(kind, key) == KeyAction::TogglePause ==> key == Key::Char(' ') && (kind == Some(
            ModeKind::Timer,
        ) || kind == Some(ModeKind::Stopwatch)),
{
}

} // verus!
