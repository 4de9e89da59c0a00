use vstd::prelude::*;

use std::path::Path;

use crate::time::Zone;

verus! {

/// Seconds between two runs of a clock widget's command, unless configured.
pub const DEFAULT_WIDGET_REFRESH_SECS: u64 = 15 * 60;

/// Seconds a clock widget's command may run, unless configured.
pub const DEFAULT_WIDGET_TIMEOUT_SECS: u64 = 30;

/// The whole configuration file. Every section may be missing; a missing
/// section takes its defaults.
#[derive(Debug)]
pub struct Config {
    pub default: DefaultConfig,
    pub clock: ClockConfig,
    pub timer: TimerConfig,
    pub stopwatch: StopwatchConfig,
    pub countdown: CountdownConfig,
}

/// The `[default]` section.
#[derive(Debug)]
pub struct DefaultConfig {
    pub mode: String,
    pub color: String,
    pub size: u16,
    /// Display defaults shared by every mode. A mode section can override any key.
    pub display: DisplayConfig,
}

/// Display options every mode understands. They can appear under `[default]`
/// and under any mode section; the mode section wins, then `[default]`, then
/// the built-in default for that mode. Command-line flags override both.
#[derive(Debug, Clone, PartialEq, Eq)]
pub struct DisplayConfig {
    pub title: Option<String>,
    pub show_date: Option<bool>,
    pub show_seconds: Option<bool>,
    pub show_millis: Option<bool>,
    pub start_paused: Option<bool>,
}

/// The `[clock]` section.
#[derive(Debug)]
pub struct ClockConfig {
    pub display: DisplayConfig,
    pub timezone: Option<Zone>,
    pub widgets: Vec<ClockWidgetConfig>,
    pub widget_themes: Vec<String>,
}

/// Where a clock widget is placed.
#[derive(Debug, Clone, Copy, PartialEq, Eq, Structural)]
pub enum WidgetPosition {
    /// Placed in the horizontal widget row below the clock (the default).
    Auto,
    /// Placed in a full-width band at the bottom, beneath the widget row,
    /// sized to fit the widget's output.
    Bottom,
}

/// One `[[clock.widgets]]` entry.
#[derive(Debug, Clone)]
pub struct ClockWidgetConfig {
    pub title: Option<String>,
    pub command: Vec<String>,
    pub popup_actions: Vec<ClockWidgetPopupActionConfig>,
    pub refresh_secs: u64,
    pub timeout_secs: u64,
    pub position: WidgetPosition,
    /// Optional group name. Widgets sharing a group are shown together, and
    /// only one group is on screen at a time (cycled with `g`). Widgets with no
    /// group are always shown. Group order follows first appearance in config,
    /// so the first grouped widget's group is the one shown at startup.
    pub group: Option<String>,
}

/// A global key binding contributed by a clock widget.
///
/// Triggering the key while the widget is visible runs `command`, or reruns
/// the widget's command when omitted, appends `args`, and shows the result in a
/// modal popup.
#[derive(Debug, Clone)]
pub struct ClockWidgetPopupActionConfig {
    pub key: char,
    pub label: Option<String>,
    pub title: Option<String>,
    pub command: Vec<String>,
    pub args: Vec<String>,
    /// Optional action-specific timeout. Omit it to inherit the widget timeout.
    pub timeout_secs: Option<u64>,
}

/// The `[timer]` section.
#[derive(Debug)]
pub struct TimerConfig {
    pub durations: Vec<String>,
    /// One title per duration. Takes precedence over `title`.
    pub titles: Vec<String>,
    pub repeat: bool,
    pub auto_quit: bool,
    pub execute: Vec<String>,
    pub display: DisplayConfig,
}

/// The `[stopwatch]` section.
#[derive(Debug)]
pub struct StopwatchConfig {
    pub display: DisplayConfig,
}

/// The `[countdown]` section.
#[derive(Debug)]
pub struct CountdownConfig {
    pub time: Option<String>,
    pub continue_on_zero: bool,
    pub reverse: bool,
    pub display: DisplayConfig,
}

/// A display section that sets nothing.
pub open spec fn display_unset(d: DisplayConfig) -> bool {
    &&& d.title is None
    &&& d.show_date is None
    &&& d.show_seconds is None
    &&& d.show_millis is None
    &&& d.start_paused is None
}

impl Default for DisplayConfig {
    fn default() -> (r: Self)
        ensures
            display_unset(r),
    {
        DisplayConfig {
            title: None,
            show_date: None,
            show_seconds: None,
            show_millis: None,
            start_paused: None,
        }
    }
}

impl Default for WidgetPosition {
    fn default() -> (r: Self)
        ensures
            r == WidgetPosition::Auto,
    {
        WidgetPosition::Auto
    }
}

impl Default for DefaultConfig {
    fn default() -> (r: Self)
        ensures
            r.mode@ == "clock"@,
            r.color@ == "green"@,
            r.size == 1,
            display_unset(r.display),
    {
        Self {
            mode: default_mode(),
            color: default_color(),
            size: default_size(),
            display: DisplayConfig::default(),
        }
    }
}

impl Default for ClockConfig {
    fn default() -> (r: Self)
        ensures
            display_unset(r.display),
            r.timezone is None,
            r.widgets@.len() == 0,
            default_theme_names(r.widget_themes@),
    {
        Self {
            display: DisplayConfig::default(),
            timezone: None,
            widgets: Vec::new(),
            widget_themes: default_widget_themes(),
        }
    }
}

impl Default for TimerConfig {
    fn default() -> (r: Self)
        ensures
            default_duration_texts(r.durations@),
            r.titles@.len() == 0,
            !r.repeat,
            !r.auto_quit,
            r.execute@.len() == 0,
            display_unset(r.display),
    {
        Self {
            durations: default_timer_durations(),
            titles: Vec::new(),
            repeat: false,
            auto_quit: false,
            execute: Vec::new(),
            display: DisplayConfig::default(),
        }
    }
}

impl Default for StopwatchConfig {
    fn default() -> (r: Self)
        ensures
            display_unset(r.display),
    {
        Self { display: DisplayConfig::default() }
    }
}

impl Default for CountdownConfig {
    fn default() -> (r: Self)
        ensures
            r.time is None,
            !r.continue_on_zero,
            !r.reverse,
            display_unset(r.display),
    {
        Self {
            time: None,
            continue_on_zero: false,
            reverse: false,
            display: DisplayConfig::default(),
        }
    }
}

/// The mode used when `[default] mode` is not set.
pub fn default_mode() -> (r: String)
    ensures
        r@ == "clock"@,
{
    String::from_str("clock")
}

/// The color used when `[default] color` is not set.
pub fn default_color() -> (r: String)
    ensures
        r@ == "green"@,
{
    String::from_str("green")
}

/// The size used when `[default] size` is not set.
pub fn default_size() -> (r: u16)
    ensures
        r == 1,
{
    1
}

/// The timer's durations, `25m` then `5m`, as written in the config.
pub open spec fn default_duration_texts(s: Seq<String>) -> bool {
    &&& s.len() == 2
    &&& s[0]@ == "25m"@
    &&& s[1]@ == "5m"@
}

/// The timer durations used when `[timer] durations` is not set.
pub fn default_timer_durations() -> (r: Vec<String>)
    ensures
        default_duration_texts(r@),
{
    let mut r: Vec<String> = Vec::new();
    r.push(String::from_str("25m"));
    r.push(String::from_str("5m"));
    r
}

/// The refresh interval used when a widget does not set `refresh_secs`.
pub fn default_widget_refresh_secs() -> (r: u64)
    ensures
        r == 900,
{
    DEFAULT_WIDGET_REFRESH_SECS
}

/// The command timeout used when a widget does not set `timeout_secs`.
pub fn default_widget_timeout_secs() -> (r: u64)
    ensures
        r == 30,
{
    DEFAULT_WIDGET_TIMEOUT_SECS
}

/// The built-in theme cycle: `default`, `evangelion`, `nerv`.
pub open spec fn default_theme_names(s: Seq<String>) -> bool {
    &&& s.len() == 3
    &&& s[0]@ == "default"@
    &&& s[1]@ == "evangelion"@
    &&& s[2]@ == "nerv"@
}

/// The theme cycle used when `[clock] widget_themes` is not set.
pub fn default_widget_themes() -> (r: Vec<String>)
    ensures
        default_theme_names(r@),
{
    let mut r: Vec<String> = Vec::new();
    r.push(String::from_str("default"));
    r.push(String::from_str("evangelion"));
    r.push(String::from_str("nerv"));
    r
}

/// Whether `std::path::Path::is_absolute` holds of a path.
pub uninterp spec fn is_absolute_path(p: Seq<char>) -> bool;

/// The path `std::path::Path::join` makes of a path and a part.
pub uninterp spec fn joined_path(base: Seq<char>, part: Seq<char>) -> Seq<char>;

/// Whether `std::path::Path`'s `==` (component by component) holds of two
/// paths.
pub uninterp spec fn same_path(a: Seq<char>, b: Seq<char>) -> bool;

/// `std::path::Path::is_absolute`.
#[verifier::external_body]
fn path_is_absolute(p: &str) -> (r: bool)
    ensures
        r == is_absolute_path(p@),
{
    Path::new(p).is_absolute()
}

/// `std::path::Path::join`, the result taken as text; joining text to text
/// gives text, so nothing is lost.
#[verifier::external_body]
fn join_path(base: &str, part: &str) -> (r: String)
    ensures
        r@ == joined_path(base@, part@),
{
    Path::new(base).join(part).to_string_lossy().into_owned()
}

/// `==` on `std::path::Path`, which holds at least of two equal texts.
#[verifier::external_body]
fn paths_equal(a: &str, b: &str) -> (r: bool)
    ensures
        r == same_path(a@, b@),
        a@ == b@ ==> r,
{
    Path::new(a) == Path::new(b)
}

/// The directories the config file is looked for in, highest priority
/// first: `$XDG_CONFIG_HOME` when it is absolute, `~/.config`, then the
/// OS-native directory.
pub open spec fn config_dirs(
    xdg: Option<Seq<char>>,
    home: Option<Seq<char>>,
    native: Option<Seq<char>>,
) -> Seq<Seq<char>> {
    let first = match xdg {
        Some(x) => if is_absolute_path(x) {
            seq![x]
        } else {
            Seq::empty()
        },
        None => Seq::empty(),
    };
    let second = match home {
        Some(h) => seq![joined_path(h, ".config"@)],
        None => Seq::empty(),
    };
    let third = match native {
        Some(n) => seq![n],
        None => Seq::empty(),
    };
    first + second + third
}

/// The config file in a directory: `tclock/config.toml` under it.
pub open spec fn config_file_in(dir: Seq<char>) -> Seq<char> {
    joined_path(joined_path(dir, "tclock"@), "config.toml"@)
}

/// A list of paths with each path kept only where no earlier kept path is
/// the same path.
pub open spec fn first_of_each_path(s: Seq<Seq<char>>) -> Seq<Seq<char>>
    decreases s.len(),
{
    if s.len() == 0 {
        Seq::empty()
    } else {
        let kept = first_of_each_path(s.drop_last());
        if exists|i: int| 0 <= i < kept.len() && #[trigger] same_path(kept[i], s.last()) {
            kept
        } else {
            kept.push(s.last())
        }
    }
}

/// The texts of a list of strings.
pub open spec fn texts(v: Seq<String>) -> Seq<Seq<char>> {
    v.map_values(|p: String| p@)
}

/// The text of an optional string.
pub open spec fn opt_text(s: Option<String>) -> Option<Seq<char>> {
    match s {
        Some(t) => Some(t@),
        None => None,
    }
}

impl Config {
    /// The places to look for the config file, highest priority first: the
    /// config file under an absolute `$XDG_CONFIG_HOME`, under
    /// `~/.config`, then under the OS-native directory, each path listed
    /// once.
    pub fn config_paths_from_dirs(
        xdg_config_home: Option<String>,
        home_dir: Option<String>,
        native_config_dir: Option<String>,
    ) -> (r: Vec<String>)
        ensures
            texts(r@) == first_of_each_path(
                config_dirs(opt_text(xdg_config_home), opt_text(home_dir), opt_text(native_config_dir)).map_values(
                    |d: Seq<char>| config_file_in(d),
                ),
            ),
            forall|i: int, j: int|
                0 <= i < j < r@.len() ==> #[trigger] r@[i]@ != #[trigger] r@[j]@,
    {
        let mut dirs: Vec<String> = Vec::new();
        match &xdg_config_home {
            Some(xdg) => {
                if path_is_absolute(xdg.as_str()) {
                    dirs.push(xdg.clone());
                }
            },
            None => {},
        }
        match &home_dir {
            Some(home) => {
                dirs.push(join_path(home.as_str(), ".config"));
            },
            None => {},
        }
        match &native_config_dir {
            Some(native) => {
                dirs.push(native.clone());
            },
            None => {},
        }
        let ghost wanted = config_dirs(
            opt_text(xdg_config_home),
            opt_text(home_dir),
            opt_text(native_config_dir),
        );
        assert(texts(dirs@) =~= wanted);
        let ghost files = wanted.map_values(|d: Seq<char>| config_file_in(d));
        let mut paths: Vec<String> = Vec::new();
        let mut i: usize = 0;
        while i < dirs.len()
            invariant
                i <= dirs@.len(),
                texts(dirs@) == wanted,
                files == wanted.map_values(|d: Seq<char>| config_file_in(d)),
                texts(paths@) == first_of_each_path(files.take(i as int)),
                forall|a: int, b: int|
                    0 <= a < b < paths@.len() ==> #[trigger] paths@[a]@ != #[trigger] paths@[b]@,
            decreases dirs.len() - i,
        {
            let under = join_path(dirs[i].as_str(), "tclock");
            let path = join_path(under.as_str(), "config.toml");
            assert(path@ == files[i as int]);
            let mut seen = false;
            let mut j: usize = 0;
            while j < paths.len()
                invariant
                    j <= paths@.len(),
                    seen <==> exists|k: int| 0 <= k < j && #[trigger] same_path(texts(paths@)[k], path@),
                    !seen ==> forall|k: int| 0 <= k < j ==> #[trigger] paths@[k]@ != path@,
                decreases paths.len() - j,
            {
                if paths_equal(paths[j].as_str(), path.as_str()) {
                    seen = true;
                }
                assert(texts(paths@)[j as int] == paths@[j as int]@);
                j += 1;
            }
            assert(files.take(i + 1).drop_last() =~= files.take(i as int));
            assert(files.take(i + 1).last() == path@);
            if !seen {
                let ghost before = paths@;
                paths.push(path);
                assert(texts(paths@) =~= texts(before).push(files[i as int]));
            }
            i += 1;
        }
        assert(files.take(dirs@.len() as int) =~= files);
        paths
    }
}

} // verus!
