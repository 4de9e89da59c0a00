use vstd::prelude::*;

use crate::display::first_title;
use crate::duration::{clamp_millis, Duration};

verus! {

/// What a timer does when its clock is read.
#[derive(Debug, Clone, Copy, PartialEq, Eq, Structural)]
pub enum TimerStep {
    /// The current period still has time left.
    Running,
    /// The current period is over; the timer goes on with this period.
    Next(usize),
    /// The last period is over and the timer does not repeat.
    Finished,
}

/// The periods run one after the other; after the last one the timer starts
/// over from the first when it repeats, and finishes otherwise.
pub open spec fn step_after(period: int, periods: int, repeat: bool, left: int) -> TimerStep {
    if left > 0 {
        TimerStep::Running
    } else if period + 1 < periods {
        TimerStep::Next((period + 1) as usize)
    } else if repeat {
        TimerStep::Next(0)
    } else {
        TimerStep::Finished
    }
}

/// Decide what the timer does, in period `period` of `periods`, with `left`
/// of the period remaining.
pub fn timer_step(period: usize, periods: usize, repeat: bool, left: Duration) -> (r: TimerStep)
    requires
        period < periods,
    ensures
        r == step_after(period as int, periods as int, repeat, left@),
        r matches TimerStep::Next(p) ==> p < periods,
        left@ > 0 <==> r == TimerStep::Running,
        left@ <= 0 && period + 1 < periods ==> r == TimerStep::Next((period + 1) as usize),
        left@ <= 0 && period + 1 == periods && repeat ==> r == TimerStep::Next(0),
        left@ <= 0 && period + 1 == periods && !repeat ==> r == TimerStep::Finished,
{
    if left.num_milliseconds() > 0 {
        TimerStep::Running
    } else if period + 1 < periods {
        TimerStep::Next(period + 1)
    } else if repeat {
        TimerStep::Next(0)
    } else {
        TimerStep::Finished
    }
}

/// The time left of a period of `length` after `elapsed` has passed, never
/// below zero, and held within the range of a `Duration`.
pub open spec fn time_left_of(length: int, elapsed: int) -> int {
    clamp_millis(
        if length - elapsed > 0 {
            length - elapsed
        } else {
            0
        },
    )
}

/// The time left of a period after some time has passed on its clock.
pub fn time_left(length: Duration, elapsed: Duration) -> (r: Duration)
    ensures
        r@ == time_left_of(length@, elapsed@),
{
    let left = length.num_milliseconds() as i128 - elapsed.num_milliseconds() as i128;
    if left <= 0 {
        Duration::milliseconds(0)
    } else if left > i64::MAX as i128 {
        Duration::max_value()
    } else {
        Duration::milliseconds(left as i64)
    }
}

/// The header of a period: its own title, one title per duration; the first
/// title, which then heads every period, when the period has none.
pub open spec fn period_title_of(titles: Seq<String>, period: int) -> Option<String> {
    if 0 <= period < titles.len() {
        Some(titles[period])
    } else {
        first_title(titles)
    }
}

/// The header shown over a period.
pub fn period_title(titles: &Vec<String>, period: usize) -> (r: Option<String>)
    ensures
        r == period_title_of(titles@, period as int),
{
    if period < titles.len() {
        Some(titles[period].clone())
    } else if titles.len() > 0 {
        Some(titles[0].clone())
    } else {
        None
    }
}

/// A timer that does not repeat stops after its last period, and every
/// period it moves to is one of its own; a repeating one never stops.
pub proof fn lemma_timer_steps_stay_in_range(period: int, periods: int, repeat: bool, left: int)
    requires
        0 <= period < periods,
    ensures
        step_after(period, periods, repeat, left) matches TimerStep::Next(p) ==> 0 <= p < periods,
        repeat ==> step_after(period, periods, repeat, left) != TimerStep::Finished,
        step_after(period, periods, repeat, left) == TimerStep::Finished ==> period == periods - 1
            && left <= 0,
{
}

/// The periods run in order whether or not the timer repeats: repeating
/// changes only what follows the last period, where a repeating timer
/// starts over from the first period and any other timer finishes.
pub proof fn lemma_repeat_only_changes_the_end(period: int, periods: int, left: int)
    requires
        0 <= period < periods,
    ensures
        period + 1 < periods ==> step_after(period, periods, true, left) == step_after(
            period,
            periods,
            false,
            left,
        ),
        left <= 0 && period + 1 < periods ==> step_after(period, periods, true, left)
            == TimerStep::Next((period + 1) as usize),
        left <= 0 && period + 1 == periods ==> step_after(period, periods, true, left)
            == TimerStep::Next(0) && step_after(period, periods, false, left)
            == TimerStep::Finished,
        left > 0 ==> step_after(period, periods, true, left) == TimerStep::Running
            && step_after(period, periods, false, left) == TimerStep::Running,
{
}

} // verus!
