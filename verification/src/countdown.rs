use vstd::prelude::*;

use crate::duration::{clamp_millis, Duration};
use crate::time::Timestamp;

verus! {

/// What a countdown shows, in milliseconds: the time until the target, or,
/// reversed, the time since it. Past the target it stays at zero unless it
/// continues, and it is held within the range of a `Duration`.
pub open spec fn countdown_millis(target: int, now: int, reverse: bool, continue_on_zero: bool) -> int {
    let left = if reverse {
        now - target
    } else {
        target - now
    };
    clamp_millis(
        if continue_on_zero || left > 0 {
            left
        } else {
            0
        },
    )
}

/// The time a countdown to `target` shows at `now`.
pub fn countdown_left(target: Timestamp, now: Timestamp, reverse: bool, continue_on_zero: bool) -> (r: Duration)
    ensures
        r@ == countdown_millis(target.millis as int, now.millis as int, reverse, continue_on_zero),
{
    let left: i128 = if reverse {
        now.millis as i128 - target.millis as i128
    } else {
        target.millis as i128 - now.millis as i128
    };
    let shown: i128 = if continue_on_zero || left > 0 {
        left
    } else {
        0
    };
    if shown > i64::MAX as i128 {
        Duration::max_value()
    } else if shown < -(i64::MAX as i128) {
        Duration::milliseconds(-i64::MAX)
    } else {
        Duration::milliseconds(shown as i64)
    }
}

/// A countdown that does not continue never shows less than zero, and a
/// reversed one shows the opposite of the plain one while both continue.
pub proof fn lemma_countdown_sign(target: int, now: int)
    requires
        i64::MIN <= target <= i64::MAX,
        i64::MIN <= now <= i64::MAX,
    ensures
        countdown_millis(target, now, false, false) >= 0,
        countdown_millis(target, now, true, false) >= 0,
        countdown_millis(target, now, true, true) == -countdown_millis(target, now, false, true),
{
}

} // verus!
