//! # Hardware Abstraction Layer for ATmega32U4
//!
//! Digital I/O pins and PWM timers of the ATmega32U4, over a model of the
//! device's registers.
//!
//! A pin's mode is part of its type: a pin that is an input has no
//! `set_high`, and a pin becomes a PWM pin only with the timer that it is
//! wired to. What an operation does to the device is stated over
//! [`Registers`](registers::Registers), a plain value that holds every
//! register the library touches, and proved. Code that runs on the device
//! reads the registers into such a value, lets the library work on it, and
//! writes back what changed.
//!
//! The following features are implemented as of now:
//!
//! * Port digital IO: Digital input and output. Examples can be found in
//!   the [port] module.
//! * Port PWM: Using the 4 builtin timers, pwm can be configured for a few
//!   pins.  For more info, take a look at the [timer] module.
//! * Delay: The arithmetic of a delay by busy loop, for each clock speed.
//!   Examples in the [delay] module.
//!
//! ## Easy Globals
//! Because a lot of times you need to exchange data between your
//! application code and interrupt handlers, this crate contains a store for
//! globals that knows whether it has been set.  For more info, take a look
//! at the [global] module.
//!
//! ## Layout
//! * [bits]: bit and field arithmetic on a register, with its lemmas
//! * [chip]: the ports, timers and channels, and what is wired to what
//! * [registers]: the registers and the operations on them
//! * [register_lemmas]: what those operations guarantee
//! * [peripherals]: the handles that stand for the peripherals
//! * [port], [timer]: the typed pins and PWM timers

pub mod bits;
pub mod chip;
pub mod delay;
pub mod global;
pub mod peripherals;
pub mod port;
pub mod register_lemmas;
pub mod registers;
pub mod timer;

pub use global::Global;
