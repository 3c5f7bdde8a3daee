//! Control core for a small set of physically actuated devices (reversible
//! fan motors, a louver actuator) driven by rotary encoders, momentary
//! push-buttons and PWM motor drivers.
//!
//! The crate holds the device state machine, the debounce click classifier,
//! the encoder delta tracker and the motor reversal sequencer. Peripheral
//! access (pin reads, encoder counter reads, PWM writes, sleeps) is owned by
//! the surrounding program, which hands plain values in and carries plain
//! write plans out.

pub mod debounce;
pub mod device;
pub mod sequencer;
pub mod updaters;
