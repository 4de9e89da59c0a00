use vstd::prelude::*;

use std::time::Instant;

use ratatui::style::Style;

use crate::duration::{duration_text, Duration, DurationFormat};

verus! {

#[verifier::external_type_specification]
#[verifier::external_body]
pub struct ExInstant(Instant);

#[verifier::external_type_specification]
#[verifier::external_body]
pub struct ExStyle(Style);

/// `std::time::Instant::now`. The instant is not stated.
#[verifier::external_body]
fn instant_now() -> Instant {
    Instant::now()
}

/// `std::time::Instant::elapsed`, taken in whole nanoseconds. It depends on
/// the clock of the machine and is not stated.
#[verifier::external_body]
fn elapsed_nanos(started_at: &Instant) -> u128 {
    started_at.elapsed().as_nanos()
}

/// Nanoseconds added up, held at the largest count a `u128` holds.
pub open spec fn add_nanos(a: int, b: int) -> int {
    if a + b > u128::MAX {
        u128::MAX as int
    } else {
        a + b
    }
}

/// The whole milliseconds in a count of nanoseconds, held at the longest
/// `Duration`.
pub open spec fn millis_shown(nanos: int) -> int {
    if nanos / 1_000_000 > i64::MAX {
        i64::MAX as int
    } else {
        nanos / 1_000_000
    }
}

/// A count of nanoseconds as a `Duration` of whole milliseconds.
fn shown_duration(nanos: u128) -> (r: Duration)
    ensures
        r@ == millis_shown(nanos as int),
{
    let millis = nanos / 1_000_000;
    if millis > i64::MAX as u128 {
        Duration::max_value()
    } else {
        Duration::milliseconds(millis as i64)
    }
}

/// The text shown under a paused timer or stopwatch.
pub const PAUSED_FOOTER: &'static str = "PAUSED (press <SPACE> to resume)";

/// A stopwatch: the time gathered while it ran, in nanoseconds, and the
/// instant it was last started when it runs now.
pub struct Stopwatch {
    pub size: u16,
    pub style: Style,
    pub title: Option<String>,
    pub format: DurationFormat,
    pub gathered_nanos: u128,
    pub started_at: Option<Instant>,
}

impl Stopwatch {
    /// Whether the stopwatch stands still.
    pub open spec fn paused(&self) -> bool {
        self.started_at is None
    }

    /// The time gathered before the current run, in nanoseconds.
    pub open spec fn gathered(&self) -> int {
        self.gathered_nanos as int
    }

    /// The format the stopwatch shows its time in.
    pub open spec fn shown_format(&self) -> DurationFormat {
        self.format
    }

    /// The size the digits are drawn at.
    pub open spec fn drawn_size(&self) -> u16 {
        self.size
    }

    /// The style the digits are drawn in.
    pub open spec fn drawn_style(&self) -> Style {
        self.style
    }

    /// The header above the digits.
    pub open spec fn header(&self) -> Option<String> {
        self.title
    }

    /// The time gathered once the current run has lasted `elapsed`
    /// nanoseconds: the time gathered alone while paused.
    pub open spec fn gathered_after(&self, elapsed: int) -> int {
        if self.paused() {
            self.gathered()
        } else {
            add_nanos(self.gathered(), elapsed)
        }
    }

    /// The time on the stopwatch, in whole milliseconds, once the current
    /// run has lasted `elapsed` nanoseconds.
    pub open spec fn total_after(&self, elapsed: int) -> int {
        millis_shown(self.gathered_after(elapsed))
    }

    /// A stopwatch at zero, running unless `paused`.
    pub fn new(size: u16, style: Style, title: Option<String>, format: DurationFormat, paused: bool) -> (r: Self)
        ensures
            r.paused() == paused,
            r.gathered() == 0,
            r.shown_format() == format,
            r.drawn_size() == size,
            r.drawn_style() == style,
            r.header() == title,
            r.size == size,
            r.style == style,
            r.title == title,
    {
        Self {
            size,
            style,
            title,
            format,
            gathered_nanos: 0,
            started_at: if paused {
                None
            } else {
                Some(instant_now())
            },
        }
    }

    /// The time on the stopwatch when the current run has lasted `elapsed`
    /// nanoseconds.
    pub fn total_time_after(&self, elapsed: u128) -> (r: Duration)
        ensures
            r@ == self.total_after(elapsed as int),
    {
        match &self.started_at {
            Some(_) => {
                let sum = if self.gathered_nanos > u128::MAX - elapsed {
                    u128::MAX
                } else {
                    self.gathered_nanos + elapsed
                };
                shown_duration(sum)
            },
            None => shown_duration(self.gathered_nanos),
        }
    }

    /// The time on the stopwatch: the time gathered, plus the current run,
    /// whose length is read from the machine's clock.
    pub fn total_time(&self) -> (r: Duration)
        ensures
            exists|elapsed: int| elapsed >= 0 && r@ == #[trigger] self.total_after(elapsed),
            self.paused() ==> r@ == millis_shown(self.gathered()),
            r@ >= millis_shown(self.gathered()),
    {
        let elapsed = match &self.started_at {
            Some(started_at) => elapsed_nanos(started_at),
            None => 0,
        };
        let r = self.total_time_after(elapsed);
        assert(r@ == self.total_after(elapsed as int));
        r
    }

    /// The time on the stopwatch, with tenths of a second.
    pub fn get_display_time(&self) -> (r: String)
        ensures
            exists|elapsed: int|
                elapsed >= 0 && r@ == duration_text(
                    #[trigger] self.total_after(elapsed),
                    DurationFormat::HourMinSecDeci,
                ),
            self.paused() ==> r@ == duration_text(
                millis_shown(self.gathered()),
                DurationFormat::HourMinSecDeci,
            ),
    {
        crate::duration::format_duration(self.total_time(), DurationFormat::HourMinSecDeci)
    }

    /// The line printed when the program leaves in stopwatch mode.
    pub fn exit_line(&self) -> (r: String)
        ensures
            exists|elapsed: int|
                elapsed >= 0 && r@ == "Stopwatch time: "@ + duration_text(
                    #[trigger] self.total_after(elapsed),
                    DurationFormat::HourMinSecDeci,
                ),
            self.paused() ==> r@ == "Stopwatch time: "@ + duration_text(
                millis_shown(self.gathered()),
                DurationFormat::HourMinSecDeci,
            ),
    {
        let mut line = String::from_str("Stopwatch time: ");
        let time = self.get_display_time();
        line.append(time.as_str());
        line
    }

    /// The time on the stopwatch, in its own format.
    pub fn display_text(&self) -> (r: String)
        ensures
            exists|elapsed: int|
                elapsed >= 0 && r@ == duration_text(
                    #[trigger] self.total_after(elapsed),
                    self.shown_format(),
                ),
            self.paused() ==> r@ == duration_text(millis_shown(self.gathered()), self.shown_format()),
    {
        crate::duration::format_duration(self.total_time(), self.format)
    }

    /// The footer: the paused notice while paused.
    pub fn footer(&self) -> (r: Option<&'static str>)
        ensures
            r is Some <==> self.paused(),
            r matches Some(f) ==> f@ == PAUSED_FOOTER@,
    {
        if self.is_paused() {
            Some(PAUSED_FOOTER)
        } else {
            None
        }
    }

    /// Whether the stopwatch stands still.
    pub fn is_paused(&self) -> (r: bool)
        ensures
            r == self.paused(),
    {
        self.started_at.is_none()
    }

    /// Stop the stopwatch when its current run has lasted `elapsed`
    /// nanoseconds: the run is added to the time gathered. A paused
    /// stopwatch stays as it is.
    pub fn pause_after(&mut self, elapsed: u128)
        ensures
            final(self).paused(),
            final(self).gathered() == old(self).gathered_after(elapsed as int),
            final(self).shown_format() == old(self).shown_format(),
            final(self).drawn_size() == old(self).drawn_size(),
            final(self).drawn_style() == old(self).drawn_style(),
            final(self).header() == old(self).header(),
    {
        if self.started_at.is_some() {
            self.gathered_nanos = if self.gathered_nanos > u128::MAX - elapsed {
                u128::MAX
            } else {
                self.gathered_nanos + elapsed
            };
            self.started_at = None;
        }
    }

    /// Stop the stopwatch, keeping the time of the current run, whose length
    /// is read from the machine's clock.
    pub fn pause(&mut self)
        ensures
            final(self).paused(),
            exists|elapsed: int|
                elapsed >= 0 && final(self).gathered() == #[trigger] old(self).gathered_after(
                    elapsed,
                ),
            old(self).paused() ==> final(self).gathered() == old(self).gathered(),
            final(self).gathered() >= old(self).gathered(),
            final(self).shown_format() == old(self).shown_format(),
            final(self).drawn_size() == old(self).drawn_size(),
            final(self).drawn_style() == old(self).drawn_style(),
            final(self).header() == old(self).header(),
    {
        let elapsed = match &self.started_at {
            Some(started_at) => elapsed_nanos(started_at),
            None => 0,
        };
        let ghost before = *self;
        self.pause_after(elapsed);
        assert(self.gathered() == before.gathered_after(elapsed as int));
    }

    /// Start the stopwatch again, from the time it has gathered.
    pub fn resume(&mut self)
        ensures
            !final(self).paused(),
            final(self).gathered() == old(self).gathered(),
            final(self).shown_format() == old(self).shown_format(),
            final(self).drawn_size() == old(self).drawn_size(),
            final(self).drawn_style() == old(self).drawn_style(),
            final(self).header() == old(self).header(),
    {
        if self.started_at.is_none() {
            self.started_at = Some(instant_now());
        }
    }

    /// Pause a running stopwatch, resume a paused one.
    pub fn toggle_paused(&mut self)
        ensures
            final(self).paused() == !old(self).paused(),
            exists|elapsed: int|
                elapsed >= 0 && final(self).gathered() == #[trigger] old(self).gathered_after(
                    elapsed,
                ),
            old(self).paused() ==> final(self).gathered() == old(self).gathered(),
            final(self).gathered() >= old(self).gathered(),
            final(self).shown_format() == old(self).shown_format(),
    {
        if self.is_paused() {
            let ghost before = *self;
            self.resume();
            assert(self.gathered() == before.gathered_after(0));
        } else {
            self.pause();
        }
    }
}

} // verus!
