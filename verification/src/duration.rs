use vstd::prelude::*;

use crate::text::{decimal, push_decimal, push_two_digits, string_from_chars, two_digits};

verus! {

/// Milliseconds in one second.
pub const MILLIS_PER_SEC: i64 = 1000;

/// Largest number of whole seconds a `Duration` holds (`i64::MAX` milliseconds).
pub const MAX_SECONDS: i64 = 9223372036854775;

/// A signed span of time in whole milliseconds. The constructors keep it
/// between `-i64::MAX` and `i64::MAX` milliseconds.
#[derive(Clone, Copy, Debug, PartialEq, Eq, Structural)]
pub struct Duration {
    pub millis: i64,
}

impl View for Duration {
    type V = int;

    /// The span in milliseconds.
    open spec fn view(&self) -> int {
        self.millis as int
    }
}

impl Duration {
    /// The span that a count of seconds makes, when it fits.
    pub open spec fn seconds_fit(seconds: int) -> bool {
        -MAX_SECONDS <= seconds <= MAX_SECONDS
    }

    /// The empty span.
    pub fn zero() -> (r: Duration)
        ensures
            r@ == 0,
    {
        Duration { millis: 0 }
    }

    /// The longest span.
    pub fn max_value() -> (r: Duration)
        ensures
            r@ == i64::MAX,
    {
        Duration { millis: i64::MAX }
    }

    /// A span of milliseconds; `None` for `i64::MIN`, which lies out of range.
    pub fn try_milliseconds(millis: i64) -> (r: Option<Duration>)
        ensures
            r is Some <==> millis > i64::MIN,
            r matches Some(d) ==> d@ == millis,
    {
        if millis == i64::MIN {
            None
        } else {
            Some(Duration { millis })
        }
    }

    /// A span of milliseconds.
    pub fn milliseconds(millis: i64) -> (r: Duration)
        requires
            millis > i64::MIN,
        ensures
            r@ == millis,
    {
        Duration { millis }
    }

    /// A span of seconds, or `None` when it is out of range.
    pub fn try_seconds(seconds: i64) -> (r: Option<Duration>)
        ensures
            r is Some <==> Self::seconds_fit(seconds as int),
            r matches Some(d) ==> d@ == seconds * 1000,
    {
        if seconds < -MAX_SECONDS || seconds > MAX_SECONDS {
            None
        } else {
            Some(Duration { millis: seconds * MILLIS_PER_SEC })
        }
    }

    /// A span of `count` units of `unit_seconds` seconds each, or `None` when
    /// it is out of range.
    fn try_units(count: i64, unit_seconds: i64) -> (r: Option<Duration>)
        requires
            0 < unit_seconds <= 604800,
        ensures
            r is Some <==> Self::seconds_fit(count * unit_seconds),
            r matches Some(d) ==> d@ == count * unit_seconds * 1000,
    {
        match count.checked_mul(unit_seconds) {
            Some(seconds) => Self::try_seconds(seconds),
            None => {
                proof {
                    assert(count * unit_seconds > MAX_SECONDS || count * unit_seconds
                        < -MAX_SECONDS) by (nonlinear_arith)
                        requires
                            count * unit_seconds > i64::MAX || count * unit_seconds < i64::MIN,
                    ;
                }
                None
            },
        }
    }

    /// A span of minutes, or `None` when it is out of range.
    pub fn try_minutes(minutes: i64) -> (r: Option<Duration>)
        ensures
            r is Some <==> Self::seconds_fit(minutes * 60),
            r matches Some(d) ==> d@ == minutes * 60000,
    {
        Self::try_units(minutes, 60)
    }

    /// A span of hours, or `None` when it is out of range.
    pub fn try_hours(hours: i64) -> (r: Option<Duration>)
        ensures
            r is Some <==> Self::seconds_fit(hours * 3600),
            r matches Some(d) ==> d@ == hours * 3600000,
    {
        Self::try_units(hours, 3600)
    }

    /// A span of days, or `None` when it is out of range.
    pub fn try_days(days: i64) -> (r: Option<Duration>)
        ensures
            r is Some <==> Self::seconds_fit(days * 86400),
            r matches Some(d) ==> d@ == days * 86400000,
    {
        Self::try_units(days, 86400)
    }

    /// A span of seconds.
    pub fn seconds(seconds: i64) -> (r: Duration)
        requires
            Self::seconds_fit(seconds as int),
        ensures
            r@ == seconds * 1000,
    {
        Duration { millis: seconds * MILLIS_PER_SEC }
    }

    /// A span of minutes.
    pub fn minutes(minutes: i64) -> (r: Duration)
        requires
            Self::seconds_fit(minutes * 60),
        ensures
            r@ == minutes * 60000,
    {
        Self::try_minutes(minutes).unwrap()
    }

    /// A span of hours.
    pub fn hours(hours: i64) -> (r: Duration)
        requires
            Self::seconds_fit(hours * 3600),
        ensures
            r@ == hours * 3600000,
    {
        Self::try_hours(hours).unwrap()
    }

    /// A span of days.
    pub fn days(days: i64) -> (r: Duration)
        requires
            Self::seconds_fit(days * 86400),
        ensures
            r@ == days * 86400000,
    {
        Self::try_days(days).unwrap()
    }

    /// The span in whole milliseconds.
    pub fn num_milliseconds(&self) -> (r: i64)
        ensures
            r == self@,
    {
        self.millis
    }

    /// The sum of two spans, held at the ends of the range where it would
    /// leave it.
    pub fn saturating_add(&self, other: Duration) -> (r: Duration)
        ensures
            r@ == clamp_millis(self@ + other@),
    {
        let sum = self.millis as i128 + other.millis as i128;
        if sum > i64::MAX as i128 {
            Duration { millis: i64::MAX }
        } else if sum < -(i64::MAX as i128) {
            Duration { millis: -i64::MAX }
        } else {
            Duration { millis: sum as i64 }
        }
    }
}

/// A count of milliseconds held within the range of a `Duration`.
pub open spec fn clamp_millis(millis: int) -> int {
    if millis > i64::MAX {
        i64::MAX as int
    } else if millis < -i64::MAX {
        -i64::MAX
    } else {
        millis
    }
}

/// How a duration is shown.
#[derive(Clone, Copy, Debug, PartialEq, Eq, Structural)]
pub enum DurationFormat {
    /// Hours, minutes, seconds, deciseconds
    HourMinSecDeci,
    /// Hours, minutes, seconds
    HourMinSec,
    /// Hours and minutes only. Hours are always shown so the value still
    /// reads as a duration (`0:05` rather than a bare `5`).
    HourMin,
}

/// The format for the resolved display options: hiding seconds wins over
/// showing fractional seconds.
pub open spec fn format_for_display(show_seconds: bool, show_millis: bool) -> DurationFormat {
    if !show_seconds {
        DurationFormat::HourMin
    } else if show_millis {
        DurationFormat::HourMinSecDeci
    } else {
        DurationFormat::HourMinSec
    }
}

impl DurationFormat {
    /// Pick the format for the resolved display options. Hiding seconds wins
    /// over showing fractional seconds, since there is no seconds field to
    /// attach them to.
    pub fn from_display(show_seconds: bool, show_millis: bool) -> (r: Self)
        ensures
            r == format_for_display(show_seconds, show_millis),
    {
        if !show_seconds {
            Self::HourMin
        } else if show_millis {
            Self::HourMinSecDeci
        } else {
            Self::HourMinSec
        }
    }
}

pub open spec fn abs(x: int) -> nat {
    if x < 0 {
        (-x) as nat
    } else {
        x as nat
    }
}

/// A number appended to the text built so far: plain when it opens the
/// text, padded to two digits after a separator.
pub open spec fn append_number(s: Seq<char>, n: nat) -> Seq<char> {
    if s.len() == 0 {
        decimal(n)
    } else {
        s + two_digits(n)
    }
}

/// The text of a duration of `millis` milliseconds in the given format.
///
/// Days lead as `D:` when there are any. `HourMin` always shows hours and
/// two-digit minutes; the other formats show hours only when there are any,
/// then minutes and two-digit seconds, and `HourMinSecDeci` adds a tenth of a
/// second after a dot. A negative duration is its magnitude with a leading
/// minus sign.
pub open spec fn duration_text(millis: int, format: DurationFormat) -> Seq<char> {
    let magnitude = abs(millis);
    let seconds = magnitude / 1000;
    let minutes = seconds / 60;
    let hours = minutes / 60;
    let days = hours / 24;
    let lead = if days > 0 {
        decimal(days).push(':')
    } else {
        Seq::<char>::empty()
    };
    let with_hours = if hours > 0 {
        append_number(lead, hours % 24).push(':')
    } else {
        lead
    };
    let body = match format {
        DurationFormat::HourMin => append_number(lead, hours % 24).push(':') + two_digits(
            minutes % 60,
        ),
        DurationFormat::HourMinSecDeci => append_number(with_hours, minutes % 60).push(':')
            + two_digits(seconds % 60).push('.') + decimal((magnitude % 1000) / 100),
        DurationFormat::HourMinSec => append_number(with_hours, minutes % 60).push(':')
            + two_digits(seconds % 60),
    };
    if millis < 0 {
        seq!['-'] + body
    } else {
        body
    }
}

fn append_number_exec(s: &mut Vec<char>, n: u64)
    ensures
        final(s)@ == append_number(old(s)@, n as nat),
{
    if s.len() == 0 {
        push_decimal(s, n);
        assert(final(s)@ =~= decimal(n as nat));
    } else {
        push_two_digits(s, n);
    }
}

/// The text of a duration of `millis` milliseconds.
pub fn format_millis(millis: i64, format: DurationFormat) -> (r: String)
    ensures
        r@ == duration_text(millis as int, format),
{
    let is_neg = millis < 0;
    let magnitude: u64 = if is_neg {
        ((-(millis + 1)) as u64) + 1
    } else {
        millis as u64
    };
    assert(magnitude == abs(millis as int));
    let seconds = magnitude / 1000;
    let minutes = seconds / 60;
    let hours = minutes / 60;
    let days = hours / 24;
    let mut result: Vec<char> = Vec::new();
    if days > 0 {
        push_decimal(&mut result, days);
        result.push(':');
        assert(result@ =~= decimal(days as nat).push(':'));
    }
    let ghost lead = result@;
    match format {
        DurationFormat::HourMin => {
            append_number_exec(&mut result, hours % 24);
            result.push(':');
            push_two_digits(&mut result, minutes % 60);
        },
        DurationFormat::HourMinSecDeci => {
            if hours > 0 {
                append_number_exec(&mut result, hours % 24);
                result.push(':');
            }
            append_number_exec(&mut result, minutes % 60);
            result.push(':');
            push_two_digits(&mut result, seconds % 60);
            result.push('.');
            push_decimal(&mut result, (magnitude % 1000) / 100);
        },
        DurationFormat::HourMinSec => {
            if hours > 0 {
                append_number_exec(&mut result, hours % 24);
                result.push(':');
            }
            append_number_exec(&mut result, minutes % 60);
            result.push(':');
            push_two_digits(&mut result, seconds % 60);
        },
    }
    let ghost body = result@;
    if is_neg {
        let mut signed: Vec<char> = Vec::new();
        signed.push('-');
        let mut i: usize = 0;
        while i < result.len()
            invariant
                signed@ == seq!['-'] + result@.subrange(0, i as int),
                i <= result@.len(),
            decreases result.len() - i,
        {
            signed.push(result[i]);
            assert(result@.subrange(0, i + 1) =~= result@.subrange(0, i as int).push(
                result@[i as int],
            ));
            i += 1;
        }
        assert(result@.subrange(0, result@.len() as int) =~= result@);
        result = signed;
    }
    assert(result@ =~= duration_text(millis as int, format));
    string_from_chars(&result)
}

/// The text of a duration in the given format.
pub fn format_duration(duration: Duration, format: DurationFormat) -> (r: String)
    ensures
        r@ == duration_text(duration@, format),
{
    format_millis(duration.num_milliseconds(), format)
}

/// Whether a flashing display is lit: during the first half of each second.
pub fn should_flash(duration: Duration) -> (r: bool)
    ensures
        r == (abs(duration@) % 1000 < 500),
{
    let millis = duration.num_milliseconds();
    let magnitude: u64 = if millis < 0 {
        ((-(millis + 1)) as u64) + 1
    } else {
        millis as u64
    };
    magnitude % 1000 < 500
}

/// A negative duration reads as its magnitude with a leading minus sign.
pub proof fn lemma_negative_duration_text(millis: int, format: DurationFormat)
    requires
        millis < 0,
    ensures
        duration_text(millis, format) == seq!['-'] + duration_text(-millis, format),
{
}

} // verus!
