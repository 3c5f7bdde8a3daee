use fan_control::device::{Action, Device, DeviceGroup};
use fan_control::sequencer::{
    plan_single_channel, Channel, Sequencer, Step, DEAD_TIME_MS, STARTUP_RAMP_MS,
};
use fan_control::updaters::update_device_from_encoder;

fn fan() -> Device {
    Device::build(
        uuid::Uuid::from_u128(0x262c2a63ca3140ba9c7c76a993e3c983),
        "roof vent".to_string(),
    )
    .device_group(Some(DeviceGroup::Fan))
    .available_actions(vec![
        Action::On,
        Action::Off,
        Action::Up(None),
        Action::Down(None),
        Action::Min,
        Action::Max,
        Action::SetTo(0),
        Action::Reverse,
    ])
}

/// Replays a plan against a pair of simulated channel duties, checking
/// that the two channels are never simultaneously non-zero, and returns
/// the final pair together with the total time both sat at zero before the
/// first non-zero write to `watched`.
fn replay(steps: &[Step], mut duties: (u32, u32), watched: Channel) -> ((u32, u32), u64) {
    let mut both_zero_before_watched: u64 = 0;
    let mut watched_written_nonzero = false;
    for (i, s) in steps.iter().enumerate() {
        match *s {
            Step::SetDuty(Channel::Forward, v) => {
                duties.0 = v;
                if watched == Channel::Forward && v > 0 {
                    watched_written_nonzero = true;
                }
            }
            Step::SetDuty(Channel::Reverse, v) => {
                duties.1 = v;
                if watched == Channel::Reverse && v > 0 {
                    watched_written_nonzero = true;
                }
            }
            Step::Wait(ms) => {
                if duties == (0, 0) && !watched_written_nonzero {
                    both_zero_before_watched += ms;
                }
            }
        }
        if i > 0 {
            assert!(
                !(duties.0 > 0 && duties.1 > 0),
                "both channels energized after step {i}: {duties:?}"
            );
        }
    }
    (duties, both_zero_before_watched)
}

#[test]
fn reversal_holds_dead_time_before_energizing_new_channel() {
    let mut d = fan();
    let mut s = Sequencer::new(100, 100, DEAD_TIME_MS, STARTUP_RAMP_MS);

    // Bring the hardware to (reversed = false, duty = 50).
    assert!(d.take_action(Action::SetTo(50)).is_ok());
    assert!(d.needs_hardware_duty_cycle_update());
    let warmup = s.run(&mut d);
    let (duties, _) = replay(&warmup, (0, 0), Channel::Reverse);
    assert_eq!(duties, (50, 0));
    assert_eq!(s.old_duty_cycle, 50);
    assert!(!s.old_reversed);

    // Command a reversal at the same duty.
    assert!(d.take_action(Action::Reverse).is_ok());
    let steps = s.run(&mut d);
    assert_eq!(
        steps,
        vec![
            Step::SetDuty(Channel::Forward, 0),
            Step::SetDuty(Channel::Reverse, 0),
            Step::Wait(DEAD_TIME_MS),
            Step::SetDuty(Channel::Reverse, 100),
            Step::Wait(STARTUP_RAMP_MS),
            Step::SetDuty(Channel::Reverse, 50),
        ]
    );
    let (duties, both_zero) = replay(&steps, (50, 0), Channel::Reverse);
    assert_eq!(duties, (0, 50));
    assert!(
        both_zero >= DEAD_TIME_MS,
        "both channels must read zero for the dead time before the new channel is energized"
    );
    assert!(s.old_reversed);
    assert!(!d.dirty);
}

#[test]
fn reverse_twice_restores_device_and_active_channel() {
    let mut d = fan();
    let mut s = Sequencer::new(100, 100, DEAD_TIME_MS, STARTUP_RAMP_MS);
    assert!(d.take_action(Action::SetTo(50)).is_ok());
    let _ = s.run(&mut d);
    let (duty0, rev0, old_rev0) = (d.duty_cycle, d.reversed, s.old_reversed);

    assert!(d.take_action(Action::Reverse).is_ok());
    let _ = s.run(&mut d);
    assert!(d.take_action(Action::Reverse).is_ok());
    let steps = s.run(&mut d);

    assert_eq!((d.duty_cycle, d.reversed), (duty0, rev0));
    assert_eq!(s.old_reversed, old_rev0, "the original channel is active again");
    assert_eq!(
        steps.last(),
        Some(&Step::SetDuty(Channel::Forward, 50)),
        "the final write lands on the original active channel at the original duty"
    );
}

#[test]
fn same_direction_already_running_writes_duty_directly() {
    let mut d = fan();
    let mut s = Sequencer::new(100, 100, DEAD_TIME_MS, STARTUP_RAMP_MS);
    assert!(d.take_action(Action::SetTo(50)).is_ok());
    let _ = s.run(&mut d);

    assert!(d.take_action(Action::SetTo(80)).is_ok());
    let steps = s.run(&mut d);
    assert_eq!(
        steps,
        vec![
            Step::SetDuty(Channel::Reverse, 0),
            Step::SetDuty(Channel::Forward, 80),
        ],
        "no startup ramp when the motor is already turning"
    );
    assert_eq!(s.old_duty_cycle, 80);
}

#[test]
fn same_direction_from_standstill_ramps_first() {
    let mut d = fan();
    let mut s = Sequencer::new(200, 100, DEAD_TIME_MS, STARTUP_RAMP_MS);
    assert!(d.take_action(Action::SetTo(40)).is_ok());
    let steps = s.run(&mut d);
    assert_eq!(
        steps,
        vec![
            Step::SetDuty(Channel::Reverse, 0),
            Step::SetDuty(Channel::Forward, 200),
            Step::Wait(STARTUP_RAMP_MS),
            Step::SetDuty(Channel::Forward, 80),
        ],
        "40 of 100 scales to 80 of the forward channel's native 200"
    );
    assert_eq!(s.old_duty_cycle, 80);
}

#[test]
fn louver_single_channel_write_is_direct() {
    let mut d = fan();
    let _ = d.take_action(Action::On);
    let steps = plan_single_channel(&mut d, Channel::Forward, 180);
    assert_eq!(steps, vec![Step::SetDuty(Channel::Forward, 180)]);
    assert!(!d.dirty);
}

#[test]
fn end_to_end_encoder_to_hardware() {
    let mut d = fan();
    let mut s = Sequencer::new(100, 100, DEAD_TIME_MS, STARTUP_RAMP_MS);
    let mut last_time: u64 = 0;
    let mut last_value: i32 = 0;

    // Two encoder ticks 50ms apart with a 10ms minimum action delay.
    update_device_from_encoder(&mut d, 1, 100, &mut last_time, &mut last_value, 10);
    update_device_from_encoder(&mut d, 2, 150, &mut last_time, &mut last_value, 10);
    assert_eq!(d.duty_cycle, 20, "two Up actions of the default step were applied");
    assert!(d.needs_hardware_duty_cycle_update());

    let steps = s.run(&mut d);
    let (duties, _) = replay(&steps, (0, 0), Channel::Reverse);
    assert_eq!(duties, (20, 0));
    assert!(!d.needs_hardware_duty_cycle_update());
}
