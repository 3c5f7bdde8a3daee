//! Debounce click classifier: turns a sampled digital pin level and a held
//! press timestamp into a classified click, filtering out bounces shorter
//! than a floor and holds longer than a ceiling.

use vstd::prelude::*;

verus! {

/// A release at `now_ms` of a press begun at `pressed_at_ms` counts as a
/// click exactly when the held duration lies strictly between the two
/// thresholds.
pub open spec fn click_within(now_ms: u64, pressed_at_ms: u64, min_ms: u64, max_ms: u64) -> bool {
    min_ms < now_ms - pressed_at_ms < max_ms
}

/// This sample ends a press that classifies as a click: the pin has risen
/// (released) while a press timestamp was held, and the held duration is
/// inside the gesture's window.
pub open spec fn classified_release(
    pin_low: bool,
    last_click_time: Option<u64>,
    now_ms: u64,
    min_ms: u64,
    max_ms: u64,
) -> bool {
    &&& !pin_low
    &&& last_click_time matches Some(t) && click_within(now_ms, t, min_ms, max_ms)
}

/// The press timestamp after one sample: a falling edge records `now_ms`,
/// a held press keeps the recorded time, and any release clears it.
pub open spec fn next_last_click(pin_low: bool, last_click_time: Option<u64>, now_ms: u64) -> Option<
    u64,
> {
    if pin_low {
        if last_click_time is None {
            Some(now_ms)
        } else {
            last_click_time
        }
    } else {
        None
    }
}

/// Law: when two gesture windows do not overlap — the first ends no later
/// than the second begins — no single hold duration classifies under
/// both, so one physical button can carry both gestures unambiguously.
pub proof fn lemma_disjoint_gesture_windows(
    now_ms: u64,
    pressed_at_ms: u64,
    min_a_ms: u64,
    max_a_ms: u64,
    min_b_ms: u64,
    max_b_ms: u64,
)
    requires
        max_a_ms <= min_b_ms + 1,
    ensures
        !(click_within(now_ms, pressed_at_ms, min_a_ms, max_a_ms) && click_within(
            now_ms,
            pressed_at_ms,
            min_b_ms,
            max_b_ms,
        )),
{
}

/// Classifies one sample of a momentary push-button.
///
/// `pin_low` is the sampled level, low meaning pressed. On a falling edge
/// the press time is recorded; on a release the held duration is
/// classified against `(min_ms, max_ms)` and the press time is always
/// cleared. A press still held when sampling stops never emits a click.
pub fn classify_click(
    pin_low: bool,
    now_ms: u64,
    last_click_time: &mut Option<u64>,
    min_ms: u64,
    max_ms: u64,
) -> (clicked: bool)
    requires
        (*old(last_click_time)) matches Some(t) ==> t <= now_ms,
    ensures
        *final(last_click_time) == next_last_click(pin_low, *old(last_click_time), now_ms),
        clicked == classified_release(pin_low, *old(last_click_time), now_ms, min_ms, max_ms),
{
    if pin_low {
        if last_click_time.is_none() {
            *last_click_time = Some(now_ms);
        }
        false
    } else {
        let clicked: bool = match *last_click_time {
            Some(t) => {
                let held: u64 = now_ms - t;
                min_ms < held && held < max_ms
            },
            None => false,
        };
        *last_click_time = None;
        clicked
    }
}

} // verus!
