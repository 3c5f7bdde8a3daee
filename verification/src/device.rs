//! Logical device state and the capability-gated action state machine.

use vstd::prelude::*;

verus! {

/// Identifier type from the `uuid` crate, used as the stable device
/// identity. The value is opaque to verification: the control logic never
/// reads it, it is only carried through.
#[verifier::external_type_specification]
#[verifier::external_body]
pub struct ExUuid(uuid::Uuid);

/// Step applied by `Up`/`Down` when the action carries no explicit step.
pub const DEFAULT_STEP: u32 = 10;

/// Logical duty-cycle range bound a freshly built device starts with.
pub const DEFAULT_MAX_DUTY: u32 = 100;

/// Informational classification tag; it does not gate actions.
#[derive(Clone, Copy, PartialEq, Eq, Structural, Debug)]
pub enum DeviceGroup {
    Fan,
}

/// Selects which control-loop logic applies to a device.
#[derive(Clone, Copy, PartialEq, Eq, Structural, Debug)]
pub enum Behavior {
    ReversibleSlider,
    TwoWaySwitch,
}

/// A command against a device's logical state.
#[derive(Clone, Copy, Debug)]
pub enum Action {
    On,
    Off,
    Up(Option<u32>),
    Down(Option<u32>),
    Min,
    Max,
    SetTo(u32),
    Reverse,
}

/// Why an action was not applied.
#[derive(Clone, Copy, PartialEq, Eq, Structural, Debug)]
pub enum Rejected {
    /// The action's variant is not in the device's `available_actions`.
    NotAvailable,
}

/// A device's logical state. `duty_cycle` is the logical target in
/// `[0, max_duty]`, independent of any hardware channel's native range.
/// `dirty` records that logical state has diverged from what was last
/// written to hardware; it is cleared only when a hardware write is planned.
pub struct Device {
    pub id: uuid::Uuid,
    pub name: String,
    pub group: Option<DeviceGroup>,
    pub behavior: Behavior,
    pub available_actions: Vec<Action>,
    pub max_duty: u32,
    pub duty_cycle: u32,
    pub reversed: bool,
    pub dirty: bool,
}

/// Two actions are the same capability when they are the same variant;
/// the payload (a step or a target value) does not matter for gating.
pub open spec fn same_variant(a: Action, b: Action) -> bool {
    match a {
        Action::On => b is On,
        Action::Off => b is Off,
        Action::Up(_) => b is Up,
        Action::Down(_) => b is Down,
        Action::Min => b is Min,
        Action::Max => b is Max,
        Action::SetTo(_) => b is SetTo,
        Action::Reverse => b is Reverse,
    }
}

/// `v` clamped into `[0, max]`.
pub open spec fn clamped(v: u32, max: u32) -> u32 {
    if v > max {
        max
    } else {
        v
    }
}

/// The step an `Up`/`Down` action uses.
pub open spec fn step_of(step: Option<u32>) -> u32 {
    match step {
        Some(s) => s,
        None => DEFAULT_STEP,
    }
}

/// `duty` raised by `step`, clamped to `max`.
pub open spec fn stepped_up(duty: u32, step: u32, max: u32) -> u32 {
    if duty + step > max {
        max
    } else {
        (duty + step) as u32
    }
}

/// `duty` lowered by `step`, clamped to `0`.
pub open spec fn stepped_down(duty: u32, step: u32) -> u32 {
    if duty >= step {
        (duty - step) as u32
    } else {
        0
    }
}

/// A logical duty cycle in `[0, max_duty]` scaled into a hardware
/// channel's native range `[0, channel_max]`.
pub open spec fn scaled(duty: u32, channel_max: u32, max_duty: u32) -> u32
    recommends
        max_duty >= 1,
        duty <= max_duty,
{
    ((duty * channel_max) / (max_duty as int)) as u32
}

/// The scaled duty never exceeds the channel's native maximum.
pub proof fn lemma_scaled_le_channel_max(duty: u32, channel_max: u32, max_duty: u32)
    requires
        max_duty >= 1,
        duty <= max_duty,
    ensures
        (duty * channel_max) / (max_duty as int) <= channel_max,
        scaled(duty, channel_max, max_duty) <= channel_max,
{
    vstd::arithmetic::mul::lemma_mul_inequality(duty as int, max_duty as int, channel_max as int);
    vstd::arithmetic::div_mod::lemma_div_is_ordered(
        duty * channel_max,
        max_duty * channel_max,
        max_duty as int,
    );
    vstd::arithmetic::div_mod::lemma_div_multiples_vanish(channel_max as int, max_duty as int);
}

/// The device after a two-way toggle: the duty target alternates between
/// the two presets `0` and `max_duty`.
pub open spec fn spec_toggled(d: Device) -> Device {
    let nd: u32 = if d.duty_cycle == 0 {
        d.max_duty
    } else {
        0
    };
    Device { duty_cycle: nd, dirty: d.dirty || nd != d.duty_cycle, ..d }
}

impl Device {
    /// Well-formedness: the logical duty cycle stays inside its range and
    /// the range is non-degenerate.
    pub open spec fn wf(self) -> bool {
        &&& self.max_duty >= 1
        &&& self.duty_cycle <= self.max_duty
    }

    /// The device's capability set admits this action's variant.
    pub open spec fn allows(self, a: Action) -> bool {
        exists|i: int|
            0 <= i < self.available_actions@.len() && same_variant(
                self.available_actions@[i],
                a,
            )
    }
}

/// The device state after `a` is applied to `d`: unchanged when the
/// capability set does not admit `a`, otherwise the duty cycle, direction
/// and dirty flag move as the action dictates.
pub open spec fn spec_apply(d: Device, a: Action) -> Device {
    if !d.allows(a) {
        d
    } else {
        match a {
            Action::On => Device { duty_cycle: d.max_duty, dirty: true, ..d },
            Action::Off => Device { duty_cycle: 0, dirty: true, ..d },
            Action::Up(step) => {
                let nd = stepped_up(d.duty_cycle, step_of(step), d.max_duty);
                Device { duty_cycle: nd, dirty: d.dirty || nd != d.duty_cycle, ..d }
            },
            Action::Down(step) => {
                let nd = stepped_down(d.duty_cycle, step_of(step));
                Device { duty_cycle: nd, dirty: d.dirty || nd != d.duty_cycle, ..d }
            },
            Action::Min => {
                Device { duty_cycle: 0, dirty: d.dirty || d.duty_cycle != 0, ..d }
            },
            Action::Max => {
                Device {
                    duty_cycle: d.max_duty,
                    dirty: d.dirty || d.duty_cycle != d.max_duty,
                    ..d
                }
            },
            Action::SetTo(v) => {
                let nd = clamped(v, d.max_duty);
                Device { duty_cycle: nd, dirty: d.dirty || nd != d.duty_cycle, ..d }
            },
            Action::Reverse => Device { reversed: !d.reversed, dirty: true, ..d },
        }
    }
}

/// Law: an action whose variant is not in the device's capability set
/// leaves the device — in particular its `duty_cycle`, `reversed` and
/// `dirty` fields — entirely unchanged.
pub proof fn lemma_unavailable_action_is_ignored(d: Device, a: Action)
    requires
        !d.allows(a),
    ensures
        spec_apply(d, a) == d,
        spec_apply(d, a).duty_cycle == d.duty_cycle,
        spec_apply(d, a).reversed == d.reversed,
        spec_apply(d, a).dirty == d.dirty,
{
}

/// Law: on a clean device, an admitted `SetTo(v)` leaves `duty_cycle` at
/// `v` clamped into `[0, max_duty]`, and the device is dirty exactly when
/// the clamped value differs from the prior duty cycle.
pub proof fn lemma_set_clamps(d: Device, v: u32)
    requires
        d.allows(Action::SetTo(v)),
        !d.dirty,
    ensures
        spec_apply(d, Action::SetTo(v)).duty_cycle == clamped(v, d.max_duty),
        spec_apply(d, Action::SetTo(v)).dirty == (clamped(v, d.max_duty) != d.duty_cycle),
{
}

/// Law: no action application ever clears the dirty flag. Once logical
/// state has diverged from the hardware, only a hardware write (planned
/// through the sequencer) may clear it; the same holds for the two-way
/// toggle.
pub proof fn lemma_actions_never_clear_dirty(d: Device, a: Action)
    requires
        d.dirty,
    ensures
        spec_apply(d, a).dirty,
        spec_toggled(d).dirty,
{
}

/// Whether `a` and `b` are the same `Action` variant, payloads ignored.
fn variant_eq(a: &Action, b: &Action) -> (r: bool)
    ensures
        r == same_variant(*a, *b),
{
    match (a, b) {
        (Action::On, Action::On) => true,
        (Action::Off, Action::Off) => true,
        (Action::Up(_), Action::Up(_)) => true,
        (Action::Down(_), Action::Down(_)) => true,
        (Action::Min, Action::Min) => true,
        (Action::Max, Action::Max) => true,
        (Action::SetTo(_), Action::SetTo(_)) => true,
        (Action::Reverse, Action::Reverse) => true,
        _ => false,
    }
}

/// Whether some entry of `actions` has the same variant as `a`.
fn contains_variant(actions: &Vec<Action>, a: &Action) -> (r: bool)
    ensures
        r == exists|i: int|
            0 <= i < actions@.len() && same_variant(actions@[i], *a),
{
    let mut j: usize = 0;
    while j < actions.len()
        invariant
            0 <= j <= actions@.len(),
            forall|i: int| 0 <= i < j ==> !same_variant(actions@[i], *a),
        decreases actions@.len() - j,
    {
        if variant_eq(&actions[j], a) {
            return true;
        }
        j = j + 1;
    }
    false
}

impl Device {
    /// Builds a fresh device: off, forward, clean, with no capabilities and
    /// the default logical duty range.
    pub fn build(id: uuid::Uuid, name: String) -> (d: Device)
        ensures
            d.wf(),
            d.id == id,
            d.name == name,
            d.group is None,
            d.behavior is ReversibleSlider,
            d.available_actions@.len() == 0,
            d.max_duty == DEFAULT_MAX_DUTY,
            d.duty_cycle == 0,
            d.reversed == false,
            d.dirty == false,
    {
        Device {
            id,
            name,
            group: None,
            behavior: Behavior::ReversibleSlider,
            available_actions: Vec::new(),
            max_duty: DEFAULT_MAX_DUTY,
            duty_cycle: 0,
            reversed: false,
            dirty: false,
        }
    }

    /// Builder step: sets the informational classification tag.
    pub fn device_group(self, group: Option<DeviceGroup>) -> (d: Device)
        ensures
            d == (Device { group, ..self }),
    {
        Device { group, ..self }
    }

    /// Builder step: sets the capability set; actions whose variant is not
    /// in it will be rejected.
    pub fn available_actions(self, available_actions: Vec<Action>) -> (d: Device)
        ensures
            d == (Device { available_actions, ..self }),
    {
        Device { available_actions, ..self }
    }

    /// Builder step: selects which control-loop logic applies.
    pub fn behavior(self, behavior: Behavior) -> (d: Device)
        ensures
            d == (Device { behavior, ..self }),
    {
        Device { behavior, ..self }
    }

    /// Builder step: sets the logical duty-cycle range bound.
    pub fn max_duty(self, max_duty: u32) -> (d: Device)
        requires
            max_duty >= 1,
            self.duty_cycle <= max_duty,
        ensures
            d == (Device { max_duty, ..self }),
            self.wf() ==> d.wf(),
    {
        Device { max_duty, ..self }
    }

    /// Applies `action` to the device's logical state, gated by the
    /// capability set; a rejected action leaves the device untouched.
    pub fn take_action(&mut self, action: Action) -> (result: Result<(), Rejected>)
        requires
            old(self).wf(),
        ensures
            final(self).wf(),
            *final(self) == spec_apply(*old(self), action),
            result is Ok <==> old(self).allows(action),
            result is Err ==> *final(self) == *old(self) && result == Result::<(), Rejected>::Err(
                Rejected::NotAvailable,
            ),
    {
        if !contains_variant(&self.available_actions, &action) {
            return Err(Rejected::NotAvailable);
        }
        match action {
            Action::On => {
                self.duty_cycle = self.max_duty;
                self.dirty = true;
            },
            Action::Off => {
                self.duty_cycle = 0;
                self.dirty = true;
            },
            Action::Up(step) => {
                let step: u32 = match step {
                    Some(s) => s,
                    None => DEFAULT_STEP,
                };
                let wide: u64 = self.duty_cycle as u64 + step as u64;
                let nd: u32 = if wide > self.max_duty as u64 {
                    self.max_duty
                } else {
                    wide as u32
                };
                if nd != self.duty_cycle {
                    self.dirty = true;
                }
                self.duty_cycle = nd;
            },
            Action::Down(step) => {
                let step: u32 = match step {
                    Some(s) => s,
                    None => DEFAULT_STEP,
                };
                let nd: u32 = if self.duty_cycle >= step {
                    self.duty_cycle - step
                } else {
                    0
                };
                if nd != self.duty_cycle {
                    self.dirty = true;
                }
                self.duty_cycle = nd;
            },
            Action::Min => {
                if self.duty_cycle != 0 {
                    self.dirty = true;
                }
                self.duty_cycle = 0;
            },
            Action::Max => {
                if self.duty_cycle != self.max_duty {
                    self.dirty = true;
                }
                self.duty_cycle = self.max_duty;
            },
            Action::SetTo(v) => {
                let nd: u32 = if v > self.max_duty {
                    self.max_duty
                } else {
                    v
                };
                if nd != self.duty_cycle {
                    self.dirty = true;
                }
                self.duty_cycle = nd;
            },
            Action::Reverse => {
                self.reversed = !self.reversed;
                self.dirty = true;
            },
        }
        Ok(())
    }

    /// Two-way toggle used for switch-like devices: the duty target
    /// alternates between the two presets `0` and `max_duty`; the device is
    /// marked dirty only when the target actually moved.
    pub fn target_next_duty_cycle(&mut self)
        requires
            old(self).wf(),
        ensures
            final(self).wf(),
            *final(self) == spec_toggled(*old(self)),
    {
        let nd: u32 = if self.duty_cycle == 0 {
            self.max_duty
        } else {
            0
        };
        if nd != self.duty_cycle {
            self.dirty = true;
        }
        self.duty_cycle = nd;
    }

    /// Whether the hardware output loop must act on this device.
    pub fn needs_hardware_duty_cycle_update(&self) -> (r: bool)
        ensures
            r == self.dirty,
    {
        self.dirty
    }

    /// Scales the logical duty cycle into the given channel's native range
    /// and clears the dirty flag; the caller is expected to write the
    /// returned value to that channel.
    pub fn get_and_update_duty_cycle(&mut self, channel_max: u32) -> (duty: u32)
        requires
            old(self).wf(),
        ensures
            final(self).wf(),
            duty == scaled(old(self).duty_cycle, channel_max, old(self).max_duty),
            duty <= channel_max,
            *final(self) == (Device { dirty: false, ..*old(self) }),
    {
        proof {
            lemma_scaled_le_channel_max(self.duty_cycle, channel_max, self.max_duty);
            vstd::arithmetic::mul::lemma_mul_upper_bound(
                self.duty_cycle as int,
                u32::MAX as int,
                channel_max as int,
                u32::MAX as int,
            );
        }
        let wide: u64 = (self.duty_cycle as u64) * (channel_max as u64) / (self.max_duty as u64);
        self.dirty = false;
        wide as u32
    }
}

} // verus!
