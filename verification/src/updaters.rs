//! Per-tick input updaters: each takes one sampled input value (a pin
//! level or an encoder counter) together with the tracking state the
//! input-sampling loop owns, and moves the device's logical state through
//! the action state machine. The sampling itself (pin reads, encoder
//! counter reads, the clock) belongs to the surrounding program.

use vstd::prelude::*;
use crate::debounce::{classified_release, classify_click, next_last_click};
use crate::device::{spec_apply, spec_toggled, Action, Device};

verus! {

/// The encoder gate passes: the counter moved and enough time has elapsed
/// since the last applied encoder action.
pub open spec fn encoder_gate_passes(
    encoder_value: i32,
    last_encoder_value: i32,
    now_ms: u64,
    last_encoder_time: u64,
    min_action_delay_ms: u64,
) -> bool {
    &&& encoder_value != last_encoder_value
    &&& now_ms - last_encoder_time > min_action_delay_ms
}

/// The action one observed counter movement maps to.
pub open spec fn encoder_action(encoder_value: i32, last_encoder_value: i32) -> Action {
    if encoder_value > last_encoder_value {
        Action::Up(None)
    } else {
        Action::Down(None)
    }
}

/// Samples one reverse button for a reversible device: a click classified
/// inside `(min_click_duration_ms, max_click_duration_ms)` applies
/// `Reverse` through the capability-gated state machine; anything else
/// leaves the device untouched. The press timestamp follows the debounce
/// lifecycle whether or not a click was emitted.
pub fn update_reversable_device_from_pin_click(
    device: &mut Device,
    last_click_time: &mut Option<u64>,
    pin_low: bool,
    now_ms: u64,
    min_click_duration_ms: u64,
    max_click_duration_ms: u64,
)
    requires
        old(device).wf(),
        (*old(last_click_time)) matches Some(t) ==> t <= now_ms,
    ensures
        final(device).wf(),
        *final(last_click_time) == next_last_click(pin_low, *old(last_click_time), now_ms),
        *final(device) == if classified_release(
            pin_low,
            *old(last_click_time),
            now_ms,
            min_click_duration_ms,
            max_click_duration_ms,
        ) {
            spec_apply(*old(device), Action::Reverse)
        } else {
            *old(device)
        },
{
    let clicked = classify_click(
        pin_low,
        now_ms,
        last_click_time,
        min_click_duration_ms,
        max_click_duration_ms,
    );
    if clicked {
        let _ = device.take_action(Action::Reverse);
    }
}

/// Samples one toggle button for a two-way switch device: a click
/// classified inside `(min_click_duration_ms, max_click_duration_ms)`
/// toggles the device between its two duty presets; anything else leaves
/// it untouched.
pub fn update_two_way_switch_from_pin_click(
    device: &mut Device,
    last_click_time: &mut Option<u64>,
    pin_low: bool,
    now_ms: u64,
    min_click_duration_ms: u64,
    max_click_duration_ms: u64,
)
    requires
        old(device).wf(),
        (*old(last_click_time)) matches Some(t) ==> t <= now_ms,
    ensures
        final(device).wf(),
        *final(last_click_time) == next_last_click(pin_low, *old(last_click_time), now_ms),
        *final(device) == if classified_release(
            pin_low,
            *old(last_click_time),
            now_ms,
            min_click_duration_ms,
            max_click_duration_ms,
        ) {
            spec_toggled(*old(device))
        } else {
            *old(device)
        },
{
    let clicked = classify_click(
        pin_low,
        now_ms,
        last_click_time,
        min_click_duration_ms,
        max_click_duration_ms,
    );
    if clicked {
        device.target_next_duty_cycle();
    }
}

/// Tracks one encoder sample for a device. When the counter moved and the
/// minimum inter-action delay has elapsed, the matching `Up`/`Down` action
/// is applied (capability-gated, silently discarded when rejected) and the
/// action time is reset. `last_encoder_value` follows every observed
/// counter change, whether or not the delay gate passed, so sub-threshold
/// ticks are dropped rather than collapsed into one large jump later.
pub fn update_device_from_encoder(
    device: &mut Device,
    encoder_value: i32,
    now_ms: u64,
    last_encoder_time: &mut u64,
    last_encoder_value: &mut i32,
    min_action_delay_ms: u64,
)
    requires
        old(device).wf(),
        *old(last_encoder_time) <= now_ms,
    ensures
        final(device).wf(),
        *final(last_encoder_value) == encoder_value,
        *final(last_encoder_time) <= now_ms,
        encoder_gate_passes(
            encoder_value,
            *old(last_encoder_value),
            now_ms,
            *old(last_encoder_time),
            min_action_delay_ms,
        ) ==> {
            &&& *final(device) == spec_apply(
                *old(device),
                encoder_action(encoder_value, *old(last_encoder_value)),
            )
            &&& *final(last_encoder_time) == now_ms
        },
        !encoder_gate_passes(
            encoder_value,
            *old(last_encoder_value),
            now_ms,
            *old(last_encoder_time),
            min_action_delay_ms,
        ) ==> {
            &&& *final(device) == *old(device)
            &&& *final(last_encoder_time) == *old(last_encoder_time)
        },
{
    if encoder_value != *last_encoder_value {
        let elapsed: u64 = now_ms - *last_encoder_time;
        if elapsed > min_action_delay_ms {
            if encoder_value > *last_encoder_value {
                let _ = device.take_action(Action::Up(None));
            } else {
                let _ = device.take_action(Action::Down(None));
            }
            *last_encoder_time = now_ms;
        }
        *last_encoder_value = encoder_value;
    }
}

/// The device after the reverse-click half of an input tick.
pub open spec fn after_click_step(
    d: Device,
    pin_low: bool,
    last_click_time: Option<u64>,
    now_ms: u64,
    min_click_duration_ms: u64,
    max_click_duration_ms: u64,
) -> Device {
    if classified_release(pin_low, last_click_time, now_ms, min_click_duration_ms, max_click_duration_ms) {
        spec_apply(d, Action::Reverse)
    } else {
        d
    }
}

/// The device after the encoder half of an input tick.
pub open spec fn after_encoder_step(
    d: Device,
    encoder_value: i32,
    last_encoder_value: i32,
    now_ms: u64,
    last_encoder_time: u64,
    min_action_delay_ms: u64,
) -> Device {
    if encoder_gate_passes(encoder_value, last_encoder_value, now_ms, last_encoder_time, min_action_delay_ms) {
        spec_apply(d, encoder_action(encoder_value, last_encoder_value))
    } else {
        d
    }
}

/// One full input-sampling tick for one reversible device: the reverse
/// button's sample is classified first, then the encoder's, so that all
/// of the device's mutations for the tick happen under a single lock
/// acquisition by the caller. The resulting device state is the encoder
/// step applied after the click step.
pub fn update_reversable_device_inputs(
    device: &mut Device,
    pin_low: bool,
    encoder_value: i32,
    now_ms: u64,
    last_click_time: &mut Option<u64>,
    last_encoder_time: &mut u64,
    last_encoder_value: &mut i32,
    min_click_duration_ms: u64,
    max_click_duration_ms: u64,
    min_action_delay_ms: u64,
)
    requires
        old(device).wf(),
        (*old(last_click_time)) matches Some(t) ==> t <= now_ms,
        *old(last_encoder_time) <= now_ms,
    ensures
        final(device).wf(),
        *final(last_click_time) == next_last_click(pin_low, *old(last_click_time), now_ms),
        *final(last_encoder_value) == encoder_value,
        *final(last_encoder_time) == if encoder_gate_passes(
            encoder_value,
            *old(last_encoder_value),
            now_ms,
            *old(last_encoder_time),
            min_action_delay_ms,
        ) {
            now_ms
        } else {
            *old(last_encoder_time)
        },
        *final(device) == after_encoder_step(
            after_click_step(
                *old(device),
                pin_low,
                *old(last_click_time),
                now_ms,
                min_click_duration_ms,
                max_click_duration_ms,
            ),
            encoder_value,
            *old(last_encoder_value),
            now_ms,
            *old(last_encoder_time),
            min_action_delay_ms,
        ),
{
    update_reversable_device_from_pin_click(
        device,
        last_click_time,
        pin_low,
        now_ms,
        min_click_duration_ms,
        max_click_duration_ms,
    );
    update_device_from_encoder(
        device,
        encoder_value,
        now_ms,
        last_encoder_time,
        last_encoder_value,
        min_action_delay_ms,
    );
}

} // verus!
