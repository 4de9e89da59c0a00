use vstd::prelude::*;

use crate::text::{chars_of, string_from_chars, trim_chars, trimmed};

verus! {

/// The view of an optional string.
pub open spec fn opt_view(s: Option<String>) -> Option<Seq<char>> {
    match s {
        Some(s) => Some(s@),
        None => None,
    }
}

/// The single header line above the clock digits: the trimmed title, the
/// date, or both joined with a middle dot. A blank title counts as none.
pub open spec fn header_line(title: Option<Seq<char>>, date: Option<Seq<char>>) -> Option<Seq<char>> {
    let title = match title {
        Some(t) => if trimmed(t).len() > 0 {
            Some(trimmed(t))
        } else {
            None
        },
        None => None,
    };
    match title {
        Some(t) => match date {
            Some(d) => Some(t + " · "@ + d),
            None => Some(t),
        },
        None => date,
    }
}

/// The single header line above the clock digits: the title, the date, or
/// both joined with a middle dot.
pub fn clock_header(title: Option<&str>, date: Option<String>) -> (r: Option<String>)
    ensures
        opt_view(r) == header_line(
            match title {
                Some(t) => Some(t@),
                None => None,
            },
            opt_view(date),
        ),
{
    let title = match title {
        Some(t) => {
            let t = trim_chars(&chars_of(t));
            if t.len() > 0 {
                Some(t)
            } else {
                None
            }
        },
        None => None,
    };
    match title {
        Some(t) => {
            let mut line = string_from_chars(&t);
            match date {
                Some(d) => {
                    line.append(" · ");
                    line.append(d.as_str());
                    Some(line)
                },
                None => Some(line),
            }
        },
        None => date,
    }
}

/// The rows the clock may take above its widgets: the top half of the area,
/// at least one row unless the area has none.
pub open spec fn height_budget(area_height: int) -> int {
    if area_height == 0 {
        0
    } else if area_height / 2 >= 1 {
        area_height / 2
    } else {
        1
    }
}

/// The rows the clock may take above its widgets.
pub fn clock_height_budget(area_height: u16) -> (r: u16)
    ensures
        r == height_budget(area_height as int),
{
    if area_height == 0 {
        0
    } else if area_height / 2 >= 1 {
        area_height / 2
    } else {
        1
    }
}

/// The clock never claims more than the area, and never more than half of
/// it unless the area is a single row.
pub proof fn lemma_height_budget_is_top_half(area_height: int)
    requires
        area_height >= 0,
    ensures
        height_budget(area_height) <= area_height,
        area_height >= 2 ==> 2 * height_budget(area_height) <= area_height,
        area_height >= 1 ==> height_budget(area_height) >= 1,
{
}

/// The place after `position` in a theme cycle of `len` themes: the next
/// one, from the last back to the first; a cycle of one theme or none
/// stays where it is.
pub open spec fn next_theme_position(position: int, len: int) -> int {
    if len <= 1 {
        position
    } else {
        (position + 1) % len
    }
}

/// What the clock shows besides its digits: the theme cycle and the theme
/// it stands at, and whether the widgets are on screen.
pub struct ClockView {
    themes: Vec<String>,
    current: usize,
    widgets_visible: bool,
}

impl ClockView {
    /// The themes, in the order `Shift+T` goes through them.
    pub closed spec fn theme_cycle(&self) -> Seq<String> {
        self.themes@
    }

    /// The place of the current theme in the cycle.
    pub closed spec fn position(&self) -> int {
        self.current as int
    }

    /// Whether the widgets are on screen.
    pub closed spec fn showing_widgets(&self) -> bool {
        self.widgets_visible
    }

    /// The current theme is a place of the cycle, the first when the cycle
    /// is empty.
    #[verifier::type_invariant]
    closed spec fn place_in_cycle(&self) -> bool {
        if self.themes@.len() == 0 {
            self.current == 0
        } else {
            self.current < self.themes@.len()
        }
    }

    /// A clock at the first theme of the cycle, its widgets on screen.
    pub fn new(themes: Vec<String>) -> (r: Self)
        ensures
            r.theme_cycle() == themes@,
            r.position() == 0,
            r.showing_widgets(),
    {
        ClockView { themes, current: 0, widgets_visible: true }
    }

    /// The current theme; none when the cycle is empty.
    pub fn current_theme(&self) -> (r: Option<String>)
        ensures
            self.theme_cycle().len() == 0 ==> r is None,
            self.theme_cycle().len() > 0 ==> r == Some(self.theme_cycle()[self.position()]),
    {
        proof {
            use_type_invariant(self);
        }
        if self.themes.len() == 0 {
            None
        } else {
            Some(self.themes[self.current].clone())
        }
    }

    /// Whether the widgets are on screen.
    pub fn widgets_visible(&self) -> (r: bool)
        ensures
            r == self.showing_widgets(),
    {
        self.widgets_visible
    }

    /// Move to the next theme, from the last back to the first. A cycle of
    /// one theme or none stays where it is.
    pub fn cycle_theme(&mut self)
        ensures
            final(self).theme_cycle() == old(self).theme_cycle(),
            final(self).showing_widgets() == old(self).showing_widgets(),
            final(self).position() == next_theme_position(
                old(self).position(),
                old(self).theme_cycle().len() as int,
            ),
    {
        proof {
            use_type_invariant(&*self);
        }
        if self.themes.len() > 1 {
            let len = self.themes.len();
            if self.current + 1 < len {
                proof {
                    vstd::arithmetic::div_mod::lemma_small_mod((self.current + 1) as nat, len as nat);
                }
                self.current = self.current + 1;
            } else {
                proof {
                    vstd::arithmetic::div_mod::lemma_mod_self_0(len as int);
                }
                self.current = 0;
            }
        }
    }

    /// Hide every widget and give the clock the whole screen, or bring the
    /// widgets back.
    pub fn toggle_widgets(&mut self)
        ensures
            final(self).showing_widgets() == !old(self).showing_widgets(),
            final(self).theme_cycle() == old(self).theme_cycle(),
            final(self).position() == old(self).position(),
    {
        proof {
            use_type_invariant(&*self);
        }
        self.widgets_visible = !self.widgets_visible;
    }
}

} // verus!
