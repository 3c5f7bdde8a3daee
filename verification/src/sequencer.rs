//! Motor reversal sequencer: translates a reversible device's logical
//! `(duty_cycle, reversed)` pair into a physically safe sequence of writes
//! to its two complementary PWM channels. The sequencer never plans both
//! channels simultaneously non-zero, and never flips the active channel
//! without first holding both channels at zero for a dead-time pause.
//!
//! The sequencer produces the write sequence as a plain plan; the
//! surrounding program performs each `SetDuty` on the PWM hardware and
//! each `Wait` as a sleep, in order.

use vstd::prelude::*;
use crate::device::{scaled, Device};

verus! {

/// Dead-time pause on a direction change, letting the motor coast to a
/// stop while both channels are held at zero.
pub const DEAD_TIME_MS: u64 = 5000;

/// Ramp hold at full duty when starting from standstill, to overcome
/// static friction and startup torque.
pub const STARTUP_RAMP_MS: u64 = 1000;

/// One of the two complementary PWM channels of a reversible motor driver.
#[derive(Clone, Copy, PartialEq, Eq, Structural, Debug)]
pub enum Channel {
    Forward,
    Reverse,
}

/// One hardware-output step: a duty write in the channel's native range,
/// or a pause of the given length.
#[derive(Clone, Copy, PartialEq, Eq, Structural, Debug)]
pub enum Step {
    SetDuty(Channel, u32),
    Wait(u64),
}

/// The channel that drives the motor for the given direction.
pub open spec fn active_channel(reversed: bool) -> Channel {
    if reversed {
        Channel::Reverse
    } else {
        Channel::Forward
    }
}

/// The channel that must stay de-energized for the given direction.
pub open spec fn inactive_channel(reversed: bool) -> Channel {
    if reversed {
        Channel::Forward
    } else {
        Channel::Reverse
    }
}

/// Per-device sequencer state: the last physically applied duty and
/// direction (distinct from the device's logical state), the two channels'
/// native maxima (queried once at startup), and the safety delays.
pub struct Sequencer {
    pub max_forward: u32,
    pub max_reverse: u32,
    pub dead_time_ms: u64,
    pub ramp_ms: u64,
    pub old_duty_cycle: u32,
    pub old_reversed: bool,
}

/// `s` writes a non-zero duty to channel `c`.
pub open spec fn writes_nonzero(s: Step, c: Channel) -> bool {
    match s {
        Step::SetDuty(ch, v) => ch == c && v > 0,
        Step::Wait(_) => false,
    }
}

/// The pair of channel duties `(forward, reverse)` after one step.
pub open spec fn step_duties(s: Step, duties: (u32, u32)) -> (u32, u32) {
    match s {
        Step::SetDuty(Channel::Forward, v) => (v, duties.1),
        Step::SetDuty(Channel::Reverse, v) => (duties.0, v),
        Step::Wait(_) => duties,
    }
}

/// The pair of channel duties `(forward, reverse)` after the first `n`
/// steps of a plan, starting from `init`.
pub open spec fn duties_after(steps: Seq<Step>, n: int, init: (u32, u32)) -> (u32, u32)
    decreases n,
{
    if n <= 0 {
        init
    } else {
        step_duties(steps[n - 1], duties_after(steps, n - 1, init))
    }
}

impl Sequencer {
    /// The native maximum duty of the given channel.
    pub open spec fn channel_max(self, c: Channel) -> u32 {
        match c {
            Channel::Forward => self.max_forward,
            Channel::Reverse => self.max_reverse,
        }
    }

    /// The write plan for bringing the hardware in line with the device's
    /// logical `(duty_cycle, reversed)` pair, given the last applied pair:
    ///
    /// - same direction, already running: zero the inactive channel, then
    ///   write the target duty directly;
    /// - same direction, from standstill: zero the inactive channel, ramp
    ///   the active channel at its maximum, then write the target duty;
    /// - direction changed: zero both channels, hold for the dead time,
    ///   ramp the newly active channel at its maximum, then write the
    ///   target duty.
    pub open spec fn spec_plan(self, d: Device) -> Seq<Step> {
        let active = active_channel(d.reversed);
        let amax = self.channel_max(active);
        let target = scaled(d.duty_cycle, amax, d.max_duty);
        if self.old_reversed == d.reversed {
            if self.old_duty_cycle == 0 {
                seq![
                    Step::SetDuty(inactive_channel(d.reversed), 0),
                    Step::SetDuty(active, amax),
                    Step::Wait(self.ramp_ms),
                    Step::SetDuty(active, target),
                ]
            } else {
                seq![
                    Step::SetDuty(inactive_channel(d.reversed), 0),
                    Step::SetDuty(active, target),
                ]
            }
        } else {
            seq![
                Step::SetDuty(Channel::Forward, 0),
                Step::SetDuty(Channel::Reverse, 0),
                Step::Wait(self.dead_time_ms),
                Step::SetDuty(active, amax),
                Step::Wait(self.ramp_ms),
                Step::SetDuty(active, target),
            ]
        }
    }

    /// The sequencer state after a plan for `d` has been run to
    /// completion: the applied duty and direction follow the device.
    pub open spec fn spec_next(self, d: Device) -> Sequencer {
        Sequencer {
            old_duty_cycle: scaled(d.duty_cycle, self.channel_max(active_channel(d.reversed)), d.max_duty),
            old_reversed: d.reversed,
            ..self
        }
    }

    /// A fresh sequencer for a motor whose two channels have the given
    /// native maxima, assuming the hardware starts de-energized and
    /// forward.
    pub fn new(max_forward: u32, max_reverse: u32, dead_time_ms: u64, ramp_ms: u64) -> (s:
        Sequencer)
        ensures
            s == (Sequencer {
                max_forward,
                max_reverse,
                dead_time_ms,
                ramp_ms,
                old_duty_cycle: 0,
                old_reversed: false,
            }),
    {
        Sequencer {
            max_forward,
            max_reverse,
            dead_time_ms,
            ramp_ms,
            old_duty_cycle: 0,
            old_reversed: false,
        }
    }

    /// Plans the writes for one dirty device and records the newly applied
    /// duty and direction; the device's dirty flag is cleared, its logical
    /// state is untouched otherwise.
    pub fn run(&mut self, device: &mut Device) -> (steps: Vec<Step>)
        requires
            old(self).wf(),
            old(device).wf(),
            old(device).dirty,
        ensures
            final(self).wf(),
            final(device).wf(),
            steps@ == old(self).spec_plan(*old(device)),
            *final(device) == (Device { dirty: false, ..*old(device) }),
            *final(self) == old(self).spec_next(*old(device)),
    {
        let active_max: u32 = if device.reversed {
            self.max_reverse
        } else {
            self.max_forward
        };
        let reversed = device.reversed;
        let target = device.get_and_update_duty_cycle(active_max);
        let mut steps: Vec<Step> = Vec::new();
        if self.old_reversed == reversed {
            if self.old_duty_cycle == 0 {
                steps.push(Step::SetDuty(inactive_channel_of(reversed), 0));
                steps.push(Step::SetDuty(active_channel_of(reversed), active_max));
                steps.push(Step::Wait(self.ramp_ms));
                steps.push(Step::SetDuty(active_channel_of(reversed), target));
            } else {
                steps.push(Step::SetDuty(inactive_channel_of(reversed), 0));
                steps.push(Step::SetDuty(active_channel_of(reversed), target));
            }
        } else {
            steps.push(Step::SetDuty(Channel::Forward, 0));
            steps.push(Step::SetDuty(Channel::Reverse, 0));
            steps.push(Step::Wait(self.dead_time_ms));
            steps.push(Step::SetDuty(active_channel_of(reversed), active_max));
            steps.push(Step::Wait(self.ramp_ms));
            steps.push(Step::SetDuty(active_channel_of(reversed), target));
        }
        self.old_duty_cycle = target;
        self.old_reversed = reversed;
        proof {
            assert(steps@ =~= old(self).spec_plan(*old(device)));
        }
        steps
    }

    /// Well-formedness: the last applied duty fits the channel it was
    /// applied to.
    pub open spec fn wf(self) -> bool {
        self.old_duty_cycle <= self.channel_max(active_channel(self.old_reversed))
    }
}

/// Law: a plan never energizes both channels at once. Whatever duties the
/// channels held before the plan, after the plan's first write — and from
/// then on through every later step — at least one of the two channels is
/// at zero.
pub proof fn lemma_plan_never_both_energized(s: Sequencer, d: Device, init: (u32, u32), n: int)
    requires
        1 <= n <= s.spec_plan(d).len(),
    ensures
        !(duties_after(s.spec_plan(d), n, init).0 > 0 && duties_after(
            s.spec_plan(d),
            n,
            init,
        ).1 > 0),
{
    reveal_with_fuel(duties_after, 8);
}

/// Law (reversal safety): when the commanded direction differs from the
/// last applied one, the plan first zeroes both channels, then holds them
/// both at zero for the configured dead time, and only after that pause is
/// the newly active channel ever written non-zero.
pub proof fn lemma_reversal_dead_time(s: Sequencer, d: Device, init: (u32, u32))
    requires
        s.old_reversed != d.reversed,
    ensures
        s.spec_plan(d).len() == 6,
        duties_after(s.spec_plan(d), 2, init) == (0u32, 0u32),
        s.spec_plan(d)[2] == Step::Wait(s.dead_time_ms),
        forall|k: int|
            0 <= k < 3 ==> !writes_nonzero(s.spec_plan(d)[k], active_channel(d.reversed)),
{
    reveal_with_fuel(duties_after, 4);
}

/// Law (completion): whatever duties the channels held before, running a
/// plan to its end leaves the active channel at the device's scaled duty
/// target and the inactive channel at zero.
pub proof fn lemma_plan_completion(s: Sequencer, d: Device, init: (u32, u32))
    requires
        d.wf(),
    ensures
        ({
            let p = s.spec_plan(d);
            let target = scaled(d.duty_cycle, s.channel_max(active_channel(d.reversed)), d.max_duty);
            duties_after(p, p.len() as int, init) == if d.reversed {
                (0u32, target)
            } else {
                (target, 0u32)
            }
        }),
{
    reveal_with_fuel(duties_after, 8);
}

/// Law (idempotence): applying `Reverse` twice in succession returns the
/// device to its original `(reversed, duty_cycle)` pair, and hence to its
/// original active channel; a sequencer run to completion after each
/// application likewise returns to the original direction.
pub proof fn lemma_reverse_twice_restores(s: Sequencer, d: Device)
    requires
        d.allows(crate::device::Action::Reverse),
    ensures
        ({
            let d2 = crate::device::spec_apply(
                crate::device::spec_apply(d, crate::device::Action::Reverse),
                crate::device::Action::Reverse,
            );
            &&& d2.duty_cycle == d.duty_cycle
            &&& d2.reversed == d.reversed
            &&& active_channel(d2.reversed) == active_channel(d.reversed)
            &&& s.spec_next(crate::device::spec_apply(d, crate::device::Action::Reverse)).spec_next(
                d2,
            ).old_reversed == d.reversed
        }),
{
    let d1 = crate::device::spec_apply(d, crate::device::Action::Reverse);
    assert(d1.available_actions == d.available_actions);
    assert(d1.allows(crate::device::Action::Reverse));
}

/// Executable twin of `active_channel`.
pub fn active_channel_of(reversed: bool) -> (c: Channel)
    ensures
        c == active_channel(reversed),
{
    if reversed {
        Channel::Reverse
    } else {
        Channel::Forward
    }
}

/// Executable twin of `inactive_channel`.
pub fn inactive_channel_of(reversed: bool) -> (c: Channel)
    ensures
        c == inactive_channel(reversed),
{
    if reversed {
        Channel::Forward
    } else {
        Channel::Reverse
    }
}

/// Writes the plan for a non-reversible, single-channel device (such as a
/// louver actuator): the scaled duty is written directly, with no
/// dead-time logic; the dirty flag is cleared.
pub fn plan_single_channel(device: &mut Device, channel: Channel, channel_max: u32) -> (steps: Vec<
    Step,
>)
    requires
        old(device).wf(),
        old(device).dirty,
    ensures
        final(device).wf(),
        steps@ =~= seq![
            Step::SetDuty(channel, scaled(old(device).duty_cycle, channel_max, old(device).max_duty)),
        ],
        *final(device) == (Device { dirty: false, ..*old(device) }),
{
    let target = device.get_and_update_duty_cycle(channel_max);
    let mut steps: Vec<Step> = Vec::new();
    steps.push(Step::SetDuty(channel, target));
    steps
}

} // verus!
