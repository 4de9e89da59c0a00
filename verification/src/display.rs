use vstd::prelude::*;

use crate::config::DisplayConfig;
use crate::duration::{format_for_display, DurationFormat};

verus! {

/// The choice a `--flag` / `--no-flag` pair expresses: `Some(true)` when the
/// flag is set, `Some(false)` when only its opposite is set, `None` otherwise.
pub open spec fn flag_choice(on: bool, off: bool) -> Option<bool> {
    if on {
        Some(true)
    } else if off {
        Some(false)
    } else {
        None
    }
}

/// Collapse a `--flag` / `--no-flag` pair into an explicit choice, or `None`
/// when neither was given.
pub fn flag_pair(on: bool, off: bool) -> (r: Option<bool>)
    ensures
        r == flag_choice(on, off),
{
    if on {
        Some(true)
    } else if off {
        Some(false)
    } else {
        None
    }
}


/// Display options accepted by every mode, before or after the mode name.
///
/// Each flag is optional. When absent, the value comes from the mode's config
/// section, then `[default]`, then the built-in default for that mode.
#[derive(Debug, Clone, PartialEq, Eq)]
pub struct DisplayArgs {
    /// Header text shown above the digits. Timer mode accepts one title per duration.
    pub titles: Vec<String>,
    /// Show seconds (overrides `show_seconds = false` in the config)
    pub seconds: bool,
    /// Hide seconds; every mode then shows hours and minutes only
    pub no_seconds: bool,
    /// Show fractional seconds
    pub millis: bool,
    /// Hide fractional seconds
    pub no_millis: bool,
    /// Show the date line (clock mode)
    pub date: bool,
    /// Hide the date line (clock mode)
    pub no_date: bool,
    /// Start paused (timer and stopwatch modes)
    pub paused: bool,
}

impl Default for DisplayArgs {
    fn default() -> (r: Self)
        ensures
            r.titles@.len() == 0,
            !r.seconds && !r.no_seconds && !r.millis && !r.no_millis,
            !r.date && !r.no_date && !r.paused,
    {
        DisplayArgs {
            titles: Vec::new(),
            seconds: false,
            no_seconds: false,
            millis: false,
            no_millis: false,
            date: false,
            no_date: false,
            paused: false,
        }
    }
}

impl DisplayArgs {
    /// The `--seconds` / `--no-seconds` choice, if any.
    pub fn show_seconds(&self) -> (r: Option<bool>)
        ensures
            r == flag_choice(self.seconds, self.no_seconds),
    {
        flag_pair(self.seconds, self.no_seconds)
    }

    /// The `--millis` / `--no-millis` choice, if any.
    pub fn show_millis(&self) -> (r: Option<bool>)
        ensures
            r == flag_choice(self.millis, self.no_millis),
    {
        flag_pair(self.millis, self.no_millis)
    }

    /// The `--date` / `--no-date` choice, if any.
    pub fn show_date(&self) -> (r: Option<bool>)
        ensures
            r == flag_choice(self.date, self.no_date),
    {
        flag_pair(self.date, self.no_date)
    }

    /// `Some(true)` when `--paused` was given; there is no flag to ask for
    /// the opposite.
    pub fn start_paused(&self) -> (r: Option<bool>)
        ensures
            r == (if self.paused { Some(true) } else { None::<bool> }),
    {
        if self.paused {
            Some(true)
        } else {
            None
        }
    }
}

/// Built-in display defaults for one mode, used when neither the command line
/// nor the config says otherwise.
#[derive(Debug, Clone, Copy, PartialEq, Eq, Structural)]
pub struct ModeDefaults {
    pub show_date: bool,
    pub show_seconds: bool,
    pub show_millis: bool,
}

impl ModeDefaults {
    /// The clock shows the date and seconds.
    pub fn clock() -> (r: Self)
        ensures
            r == (ModeDefaults { show_date: true, show_seconds: true, show_millis: false }),
    {
        ModeDefaults { show_date: true, show_seconds: true, show_millis: false }
    }

    /// The timer shows fractional seconds.
    pub fn timer() -> (r: Self)
        ensures
            r == (ModeDefaults { show_date: false, show_seconds: true, show_millis: true }),
    {
        ModeDefaults { show_date: false, show_seconds: true, show_millis: true }
    }

    /// The stopwatch shows fractional seconds.
    pub fn stopwatch() -> (r: Self)
        ensures
            r == (ModeDefaults { show_date: false, show_seconds: true, show_millis: true }),
    {
        ModeDefaults { show_date: false, show_seconds: true, show_millis: true }
    }

    /// The countdown shows whole seconds.
    pub fn countdown() -> (r: Self)
        ensures
            r == (ModeDefaults { show_date: false, show_seconds: true, show_millis: false }),
    {
        ModeDefaults { show_date: false, show_seconds: true, show_millis: false }
    }
}

/// Display options after precedence has been applied for one mode.
#[derive(Debug, Clone, PartialEq, Eq)]
pub struct DisplayOptions {
    pub titles: Vec<String>,
    pub show_date: bool,
    pub show_seconds: bool,
    pub show_millis: bool,
    pub start_paused: bool,
}

/// The first layer that decides, highest first: the command line, the mode's
/// config section, `[default]`, then the built-in value.
pub open spec fn layered(cli: Option<bool>, mode: Option<bool>, default: Option<bool>, builtin: bool) -> bool {
    match cli {
        Some(b) => b,
        None => match mode {
            Some(b) => b,
            None => match default {
                Some(b) => b,
                None => builtin,
            },
        },
    }
}

/// The section a reference points to, if any.
pub open spec fn deref_section(c: Option<&DisplayConfig>) -> Option<DisplayConfig> {
    match c {
        Some(c) => Some(*c),
        None => None,
    }
}

/// A section's `show_date`, `None` when the section is missing.
pub open spec fn section_show_date(c: Option<DisplayConfig>) -> Option<bool> {
    match c {
        Some(c) => c.show_date,
        None => None,
    }
}

/// A section's `show_seconds`, `None` when the section is missing.
pub open spec fn section_show_seconds(c: Option<DisplayConfig>) -> Option<bool> {
    match c {
        Some(c) => c.show_seconds,
        None => None,
    }
}

/// A section's `show_millis`, `None` when the section is missing.
pub open spec fn section_show_millis(c: Option<DisplayConfig>) -> Option<bool> {
    match c {
        Some(c) => c.show_millis,
        None => None,
    }
}

/// A section's `start_paused`, `None` when the section is missing.
pub open spec fn section_start_paused(c: Option<DisplayConfig>) -> Option<bool> {
    match c {
        Some(c) => c.start_paused,
        None => None,
    }
}

/// A section's `title`, `None` when the section is missing.
pub open spec fn section_title(c: Option<DisplayConfig>) -> Option<String> {
    match c {
        Some(c) => c.title,
        None => None,
    }
}

/// The titles a mode shows: the command-line titles; else the mode's own
/// list (the timer's `titles`); else the single `title` of the mode section,
/// then of `[default]`; else none.
pub open spec fn resolved_titles(
    cli: Seq<String>,
    mode_titles: Seq<String>,
    mode: Option<DisplayConfig>,
    default: Option<DisplayConfig>,
) -> Seq<String> {
    if cli.len() > 0 {
        cli
    } else if mode_titles.len() > 0 {
        mode_titles
    } else {
        match section_title(mode) {
            Some(t) => seq![t],
            None => match section_title(default) {
                Some(t) => seq![t],
                None => Seq::empty(),
            },
        }
    }
}

/// Whether the date line shows, after precedence.
pub open spec fn resolved_show_date(
    args: DisplayArgs,
    mode: Option<DisplayConfig>,
    default: Option<DisplayConfig>,
    builtin: ModeDefaults,
) -> bool {
    layered(
        flag_choice(args.date, args.no_date),
        section_show_date(mode),
        section_show_date(default),
        builtin.show_date,
    )
}

/// Whether seconds show, after precedence.
pub open spec fn resolved_show_seconds(
    args: DisplayArgs,
    mode: Option<DisplayConfig>,
    default: Option<DisplayConfig>,
    builtin: ModeDefaults,
) -> bool {
    layered(
        flag_choice(args.seconds, args.no_seconds),
        section_show_seconds(mode),
        section_show_seconds(default),
        builtin.show_seconds,
    )
}

/// Whether fractional seconds show, after precedence.
pub open spec fn resolved_show_millis(
    args: DisplayArgs,
    mode: Option<DisplayConfig>,
    default: Option<DisplayConfig>,
    builtin: ModeDefaults,
) -> bool {
    layered(
        flag_choice(args.millis, args.no_millis),
        section_show_millis(mode),
        section_show_millis(default),
        builtin.show_millis,
    )
}

/// Whether the mode starts paused, after precedence; by default it does not.
pub open spec fn resolved_start_paused(
    args: DisplayArgs,
    mode: Option<DisplayConfig>,
    default: Option<DisplayConfig>,
) -> bool {
    layered(
        if args.paused {
            Some(true)
        } else {
            None
        },
        section_start_paused(mode),
        section_start_paused(default),
        false,
    )
}

/// The header among a list of titles: the first, if any.
pub open spec fn first_title(titles: Seq<String>) -> Option<String> {
    if titles.len() > 0 {
        Some(titles[0])
    } else {
        None
    }
}

/// An owned copy of a list of strings.
pub fn copy_strings(v: &Vec<String>) -> (r: Vec<String>)
    ensures
        r@ == v@,
{
    let mut r: Vec<String> = Vec::new();
    let mut i: usize = 0;
    while i < v.len()
        invariant
            i <= v@.len(),
            r@ == v@.subrange(0, i as int),
        decreases v.len() - i,
    {
        r.push(v[i].clone());
        assert(v@.subrange(0, i + 1) =~= v@.subrange(0, i as int).push(v@[i as int]));
        i += 1;
    }
    assert(v@.subrange(0, v@.len() as int) =~= v@);
    r
}

fn section_title_of(c: Option<&DisplayConfig>) -> (r: Option<String>)
    ensures
        r == section_title(deref_section(c)),
{
    match c {
        Some(c) => match &c.title {
            Some(t) => Some(t.clone()),
            None => None,
        },
        None => None,
    }
}

fn pick(cli: Option<bool>, mode: Option<bool>, default: Option<bool>, builtin: bool) -> (r: bool)
    ensures
        r == layered(cli, mode, default, builtin),
{
    match cli {
        Some(b) => b,
        None => match mode {
            Some(b) => b,
            None => match default {
                Some(b) => b,
                None => builtin,
            },
        },
    }
}

impl DisplayOptions {
    /// Precedence, highest first: command-line flag, the mode's config
    /// section, `[default]`, then the built-in default for the mode.
    /// `mode_titles` lets the timer pass its per-duration `titles` list.
    pub fn resolve(
        args: &DisplayArgs,
        mode: Option<&DisplayConfig>,
        default: Option<&DisplayConfig>,
        builtin: ModeDefaults,
        mode_titles: Vec<String>,
    ) -> (r: Self)
        ensures
            r.titles@ == resolved_titles(
                args.titles@,
                mode_titles@,
                deref_section(mode),
                deref_section(default),
            ),
            r.show_date == resolved_show_date(
                *args,
                deref_section(mode),
                deref_section(default),
                builtin,
            ),
            r.show_seconds == resolved_show_seconds(
                *args,
                deref_section(mode),
                deref_section(default),
                builtin,
            ),
            r.show_millis == resolved_show_millis(
                *args,
                deref_section(mode),
                deref_section(default),
                builtin,
            ),
            r.start_paused == resolved_start_paused(*args, deref_section(mode), deref_section(default)),
            args.date ==> r.show_date,
            !args.date && args.no_date ==> !r.show_date,
            !args.date && !args.no_date && (mode matches Some(m) && m.show_date is Some) ==> r.show_date == mode->0.show_date->0,
            !args.date && !args.no_date && !(mode matches Some(m) && m.show_date is Some) && (default matches Some(d)
                && d.show_date is Some) ==> r.show_date == default->0.show_date->0,
            !args.date && !args.no_date && !(mode matches Some(m) && m.show_date is Some) && !(default matches Some(d)
                && d.show_date is Some) ==> r.show_date == builtin.show_date,
            args.seconds ==> r.show_seconds,
            !args.seconds && args.no_seconds ==> !r.show_seconds,
            !args.seconds && !args.no_seconds && (mode matches Some(m) && m.show_seconds is Some) ==> r.show_seconds == mode->0.show_seconds->0,
            !args.seconds && !args.no_seconds && !(mode matches Some(m) && m.show_seconds is Some) && (default matches Some(d)
                && d.show_seconds is Some) ==> r.show_seconds == default->0.show_seconds->0,
            !args.seconds && !args.no_seconds && !(mode matches Some(m) && m.show_seconds is Some) && !(default matches Some(d)
                && d.show_seconds is Some) ==> r.show_seconds == builtin.show_seconds,
            args.millis ==> r.show_millis,
            !args.millis && args.no_millis ==> !r.show_millis,
            !args.millis && !args.no_millis && (mode matches Some(m) && m.show_millis is Some) ==> r.show_millis == mode->0.show_millis->0,
            !args.millis && !args.no_millis && !(mode matches Some(m) && m.show_millis is Some) && (default matches Some(d)
                && d.show_millis is Some) ==> r.show_millis == default->0.show_millis->0,
            !args.millis && !args.no_millis && !(mode matches Some(m) && m.show_millis is Some) && !(default matches Some(d)
                && d.show_millis is Some) ==> r.show_millis == builtin.show_millis,
            args.paused ==> r.start_paused,
            !args.paused && (mode matches Some(m) && m.start_paused is Some) ==> r.start_paused
                == mode->0.start_paused->0,
            !args.paused && !(mode matches Some(m) && m.start_paused is Some) && (default matches Some(
                d,
            ) && d.start_paused is Some) ==> r.start_paused == default->0.start_paused->0,
            !args.paused && !(mode matches Some(m) && m.start_paused is Some) && !(default matches Some(
                d,
            ) && d.start_paused is Some) ==> !r.start_paused,
    {
        let titles = if args.titles.len() > 0 {
            copy_strings(&args.titles)
        } else if mode_titles.len() > 0 {
            mode_titles
        } else {
            match section_title_of(mode) {
                Some(t) => {
                    let mut v: Vec<String> = Vec::new();
                    v.push(t);
                    v
                },
                None => match section_title_of(default) {
                    Some(t) => {
                        let mut v: Vec<String> = Vec::new();
                        v.push(t);
                        v
                    },
                    None => Vec::new(),
                },
            }
        };
        let mode_date = match mode { Some(c) => c.show_date, None => None };
        let default_date = match default { Some(c) => c.show_date, None => None };
        let mode_seconds = match mode { Some(c) => c.show_seconds, None => None };
        let default_seconds = match default { Some(c) => c.show_seconds, None => None };
        let mode_millis = match mode { Some(c) => c.show_millis, None => None };
        let default_millis = match default { Some(c) => c.show_millis, None => None };
        let mode_paused = match mode { Some(c) => c.start_paused, None => None };
        let default_paused = match default { Some(c) => c.start_paused, None => None };
        Self {
            titles,
            show_date: pick(args.show_date(), mode_date, default_date, builtin.show_date),
            show_seconds: pick(
                args.show_seconds(),
                mode_seconds,
                default_seconds,
                builtin.show_seconds,
            ),
            show_millis: pick(args.show_millis(), mode_millis, default_millis, builtin.show_millis),
            start_paused: pick(args.start_paused(), mode_paused, default_paused, false),
        }
    }

    /// The header: the first title, if any.
    pub fn title(&self) -> (r: Option<String>)
        ensures
            r == first_title(self.titles@),
    {
        if self.titles.len() > 0 {
            Some(self.titles[0].clone())
        } else {
            None
        }
    }

    /// The duration format these options ask for.
    pub fn duration_format(&self) -> (r: DurationFormat)
        ensures
            r == format_for_display(self.show_seconds, self.show_millis),
    {
        DurationFormat::from_display(self.show_seconds, self.show_millis)
    }
}

/// A command-line flag decides over every config layer, and a mode section
/// over `[default]`; the built-in value counts only when no layer sets one.
pub proof fn lemma_display_precedence(
    cli: Option<bool>,
    mode: Option<bool>,
    default: Option<bool>,
    builtin: bool,
)
    ensures
        cli is Some ==> layered(cli, mode, default, builtin) == cli->0,
        cli is None && mode is Some ==> layered(cli, mode, default, builtin) == mode->0,
        cli is None && mode is None && default is Some ==> layered(cli, mode, default, builtin)
            == default->0,
        cli is None && mode is None && default is None ==> layered(cli, mode, default, builtin)
            == builtin,
{
}

} // verus!
