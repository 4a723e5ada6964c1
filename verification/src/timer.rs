//! Timers
//!
//! # PWM
//! `atmega32u4_hal` currently only implements timers for PWM.  Different
//! uses might get added later on.  To configure a timer for PWM, create a
//! new corresponding `Timer#Pwm` object:
//!
//! ```
//! use atmega32u4_hal::peripherals::power_on;
//!
//! let (mut regs, dp) = power_on();
//! let mut pwm4 = atmega32u4_hal::timer::Timer4Pwm::new(dp.TIMER4, &mut regs);
//! ```
//!
//! Next up, convert your pin into a PWM output.  You can only configure PWM
//! for pins already configured as outputs, and only with the timer that the
//! pin is wired to: any other combination does not compile.
//!
//! ## Pins supporting PWM
//! Only the following pins support PWM:
//!
//! | Timer    | Channel | Port    | Pin     | Converted by |
//! |----------|---------|---------|---------|--------------|
//! | `TIMER0` | `OC0A`  | `PORTB` | `PB7`   | `into_pwm`   |
//! | `TIMER0` | `OC0B`  | `PORTD` | `PD0`   | `into_pwm`   |
//! | `TIMER1` | `OC1A`  | `PORTB` | `PB5`   | `into_pwm`   |
//! | `TIMER1` | `OC1B`  | `PORTB` | `PB6`   | `into_pwm`   |
//! | `TIMER1` | `OC1C`  | `PORTB` | `PB7`   | `into_pwm1`  |
//! | `TIMER3` | `OC3A`  | `PORTC` | `PC6`   | `into_pwm`   |
//! | `TIMER4` | `OC4A`  | `PORTC` | `PC7`   | `into_pwm`   |
//! | `TIMER4` | `OC4D`  | `PORTD` | `PD7`   | `into_pwm`   |
//!
//! *Note*: Right now, once a timer is configured for PWM, it can't be used
//! for anything else afterwards, and a pin that was made a PWM pin stays
//! one: with `disable` the timer lets go of the pin, but the pin's type does
//! not go back to an output.
//!
//! # Example
//! ```
//! use atmega32u4_hal::peripherals::power_on;
//! use atmega32u4_hal::port::PortExt;
//!
//! let (mut regs, dp) = power_on();
//!
//! // According to the manual, PC7(D13) is connected to Timer/Counter4
//! let mut pwm4 = atmega32u4_hal::timer::Timer4Pwm::new(dp.TIMER4, &mut regs);
//!
//! // Split portc into its pins
//! let mut portc = dp.PORTC.split();
//!
//! // First make the pin an output, then enable the PWM timer
//! let mut pin = portc.pc7.into_output(&mut portc.ddr, &mut regs).into_pwm(&mut pwm4, &mut regs);
//!
//! // Use the pin
//! pin.set_duty(&mut regs, 128);
//! ```

use vstd::prelude::*;
use crate::chip::{Channel, PinId, Timer};
use crate::peripherals::{PortId, PORTB, PORTC, PORTD, TIMER0, TIMER1, TIMER3, TIMER4};
use crate::port::mode::io::Output;
use crate::port::mode::{Kind, Pwm, Tag};
use crate::port::portb::PB7;
use crate::port::TypedPin;
use crate::register_lemmas::{lemma_connect, lemma_pwm_setup};
use crate::registers::{Registers, MAX_DUTY};

verus! {

/// A timer that is set up for PWM.
pub trait PwmTimer {
    /// Which of the device's timers this is.
    spec fn timer() -> Timer;
}

/// A PWM timer one of whose channels is wired to bit `I` of port `P`.
///
/// The wiring is fixed in silicon. The impls of this trait are the wiring
/// table; each is held to the table of [`Channel::pin`].
pub trait Wired<P: PortId, const I: u8>: PwmTimer {
    /// The channel that drives the pin.
    spec fn channel() -> Channel;

    /// The channel that drives the pin.
    fn channel_id() -> (channel: Channel)
        ensures
            channel == Self::channel(),
            channel.timer() == Self::timer(),
            channel.pin() == (PinId { port: P::port(), index: I }),
    ;
}

/// PWM Timer
pub struct Timer0Pwm {
    tim: TIMER0,
}

/// PWM Timer
pub struct Timer1Pwm {
    tim: TIMER1,
}

/// PWM Timer
pub struct Timer3Pwm {
    tim: TIMER3,
}

/// PWM Timer
pub struct Timer4Pwm {
    tim: TIMER4,
}

impl Timer0Pwm {
    /// Initialize this PWM timer
    ///
    /// Selects fast PWM and the I/O clock divided by 64.
    ///
    /// *Note*: Right now, once a timer is configured for PWM, it can't be
    /// used for anything else afterwards.
    pub fn new(tim: TIMER0, regs: &mut Registers) -> (pwm: Timer0Pwm)
        ensures
            *final(regs) == old(regs).pwm_ready(Timer::Timer0),
            final(regs).is_pwm_ready(Timer::Timer0),
    {
        proof {
            lemma_pwm_setup(*regs, Timer::Timer0);
        }
        regs.init_pwm(Timer::Timer0);
        Timer0Pwm { tim }
    }
}

impl Timer1Pwm {
    /// Initialize this PWM timer
    ///
    /// Selects 8-bit fast PWM and the I/O clock divided by 64.
    ///
    /// *Note*: Right now, once a timer is configured for PWM, it can't be
    /// used for anything else afterwards.
    pub fn new(tim: TIMER1, regs: &mut Registers) -> (pwm: Timer1Pwm)
        ensures
            *final(regs) == old(regs).pwm_ready(Timer::Timer1),
            final(regs).is_pwm_ready(Timer::Timer1),
    {
        proof {
            lemma_pwm_setup(*regs, Timer::Timer1);
        }
        regs.init_pwm(Timer::Timer1);
        Timer1Pwm { tim }
    }
}

impl Timer3Pwm {
    /// Initialize this PWM timer
    ///
    /// Selects 8-bit fast PWM and the I/O clock divided by 64.
    ///
    /// *Note*: Right now, once a timer is configured for PWM, it can't be
    /// used for anything else afterwards.
    pub fn new(tim: TIMER3, regs: &mut Registers) -> (pwm: Timer3Pwm)
        ensures
            *final(regs) == old(regs).pwm_ready(Timer::Timer3),
            final(regs).is_pwm_ready(Timer::Timer3),
    {
        proof {
            lemma_pwm_setup(*regs, Timer::Timer3);
        }
        regs.init_pwm(Timer::Timer3);
        Timer3Pwm { tim }
    }
}

impl Timer4Pwm {
    /// Initialize this PWM timer
    ///
    /// Selects phase-correct PWM and the timer's clock divided by 64.
    ///
    /// *Note*: Right now, once a timer is configured for PWM, it can't be
    /// used for anything else afterwards.
    pub fn new(tim: TIMER4, regs: &mut Registers) -> (pwm: Timer4Pwm)
        ensures
            *final(regs) == old(regs).pwm_ready(Timer::Timer4),
            final(regs).is_pwm_ready(Timer::Timer4),
    {
        proof {
            lemma_pwm_setup(*regs, Timer::Timer4);
        }
        regs.init_pwm(Timer::Timer4);
        Timer4Pwm { tim }
    }
}

impl PwmTimer for Timer0Pwm {
    open spec fn timer() -> Timer {
        Timer::Timer0
    }
}

impl PwmTimer for Timer1Pwm {
    open spec fn timer() -> Timer {
        Timer::Timer1
    }
}

impl PwmTimer for Timer3Pwm {
    open spec fn timer() -> Timer {
        Timer::Timer3
    }
}

impl PwmTimer for Timer4Pwm {
    open spec fn timer() -> Timer {
        Timer::Timer4
    }
}

impl Wired<PORTB, 7> for Timer0Pwm {
    open spec fn channel() -> Channel {
        Channel::Oc0A
    }

    fn channel_id() -> (channel: Channel) {
        Channel::Oc0A
    }
}

impl Wired<PORTD, 0> for Timer0Pwm {
    open spec fn channel() -> Channel {
        Channel::Oc0B
    }

    fn channel_id() -> (channel: Channel) {
        Channel::Oc0B
    }
}

impl Wired<PORTB, 5> for Timer1Pwm {
    open spec fn channel() -> Channel {
        Channel::Oc1A
    }

    fn channel_id() -> (channel: Channel) {
        Channel::Oc1A
    }
}

impl Wired<PORTB, 6> for Timer1Pwm {
    open spec fn channel() -> Channel {
        Channel::Oc1B
    }

    fn channel_id() -> (channel: Channel) {
        Channel::Oc1B
    }
}

impl Wired<PORTC, 6> for Timer3Pwm {
    open spec fn channel() -> Channel {
        Channel::Oc3A
    }

    fn channel_id() -> (channel: Channel) {
        Channel::Oc3A
    }
}

impl Wired<PORTC, 7> for Timer4Pwm {
    open spec fn channel() -> Channel {
        Channel::Oc4A
    }

    fn channel_id() -> (channel: Channel) {
        Channel::Oc4A
    }
}

impl Wired<PORTD, 7> for Timer4Pwm {
    open spec fn channel() -> Channel {
        Channel::Oc4D
    }

    fn channel_id() -> (channel: Channel) {
        Channel::Oc4D
    }
}

impl<P: PortId, const I: u8> TypedPin<P, I, Output> {
    /// Make this pin a PWM pin
    ///
    /// Pin needs to be an output pin to be turned into a PWM pin. The borrow
    /// of the timer shows that the timer is set up; the timer's setup is not
    /// run again. What is written is the channel's compare output mode, and
    /// on timer 4 the channel's PWM enable bit.
    #[allow(unused_variables)]
    pub fn into_pwm<T: Wired<P, I>>(self, pwm: &mut T, regs: &mut Registers) -> (pin: TypedPin<
        P,
        I,
        Pwm<T>,
    >)
        ensures
            pin@ == self@,
            pin@ == T::channel().pin(),
            *final(regs) == old(regs).connected(T::channel()),
            final(regs).is_connected(T::channel()),
    {
        let channel = T::channel_id();
        proof {
            lemma_connect(*regs, channel);
        }
        regs.connect(channel);
        self.retag()
    }
}

impl<P: PortId, const I: u8, T: Wired<P, I>> TypedPin<P, I, Pwm<T>> {
    /// The channel that drives the pin.
    pub open spec fn channel(&self) -> Channel {
        T::channel()
    }

    /// Takes the channel off the pin: the pin is left to its port.
    pub fn disable(&mut self, regs: &mut Registers)
        ensures
            *final(regs) == old(regs).disconnected(old(self).channel()),
            !final(regs).is_connected(old(self).channel()),
    {
        let channel = T::channel_id();
        proof {
            lemma_connect(*regs, channel);
        }
        regs.disconnect(channel);
    }

    /// Routes the channel to the pin, as `into_pwm` did.
    pub fn enable(&mut self, regs: &mut Registers)
        ensures
            *final(regs) == old(regs).connected(old(self).channel()),
            final(regs).is_connected(old(self).channel()),
    {
        let channel = T::channel_id();
        proof {
            lemma_connect(*regs, channel);
        }
        regs.connect(channel);
    }

    /// The duty cycle: the value of the channel's compare register.
    pub fn get_duty(&self, regs: &Registers) -> (duty: u8)
        ensures
            duty == regs.duty(self.channel()),
    {
        regs.get_duty(T::channel_id())
    }

    /// The duty value that keeps the pin high for the whole period.
    pub fn get_max_duty(&self) -> (duty: u8)
        ensures
            duty == MAX_DUTY,
    {
        MAX_DUTY
    }

    /// Sets the duty cycle: writes `duty` into the channel's compare register.
    pub fn set_duty(&mut self, regs: &mut Registers, duty: u8)
        ensures
            *final(regs) == old(regs).with_duty(old(self).channel(), duty),
            final(regs).duty(old(self).channel()) == duty,
    {
        regs.set_duty(T::channel_id(), duty);
    }
}

/// Marker for `PB7` pwm using Timer1
pub struct Pwm1;

impl Tag for Pwm1 {
    open spec fn kind() -> Kind {
        Kind::Pwm
    }
}

impl PB7<Output> {
    /// Make this pin a PWM pin, but using Timer1 instead of Timer0
    ///
    /// `PB7` can be PWM'd by both Timer0 and Timer1.
    #[allow(unused_variables)]
    pub fn into_pwm1(self, pwm: &mut Timer1Pwm, regs: &mut Registers) -> (pin: PB7<Pwm1>)
        ensures
            pin@ == self@,
            pin@ == Channel::Oc1C.pin(),
            *final(regs) == old(regs).connected(Channel::Oc1C),
            final(regs).is_connected(Channel::Oc1C),
    {
        proof {
            lemma_connect(*regs, Channel::Oc1C);
        }
        regs.connect(Channel::Oc1C);
        self.retag()
    }
}

impl PB7<Pwm1> {
    /// Takes the channel off the pin: the pin is left to its port.
    pub fn disable(&mut self, regs: &mut Registers)
        ensures
            *final(regs) == old(regs).disconnected(Channel::Oc1C),
            !final(regs).is_connected(Channel::Oc1C),
    {
        proof {
            lemma_connect(*regs, Channel::Oc1C);
        }
        regs.disconnect(Channel::Oc1C);
    }

    /// Routes the channel to the pin, as `into_pwm1` did.
    pub fn enable(&mut self, regs: &mut Registers)
        ensures
            *final(regs) == old(regs).connected(Channel::Oc1C),
            final(regs).is_connected(Channel::Oc1C),
    {
        proof {
            lemma_connect(*regs, Channel::Oc1C);
        }
        regs.connect(Channel::Oc1C);
    }

    /// The duty cycle: the value of the channel's compare register.
    pub fn get_duty(&self, regs: &Registers) -> (duty: u8)
        ensures
            duty == regs.duty(Channel::Oc1C),
    {
        regs.get_duty(Channel::Oc1C)
    }

    /// The duty value that keeps the pin high for the whole period.
    pub fn get_max_duty(&self) -> (duty: u8)
        ensures
            duty == MAX_DUTY,
    {
        MAX_DUTY
    }

    /// Sets the duty cycle: writes `duty` into the channel's compare register.
    pub fn set_duty(&mut self, regs: &mut Registers, duty: u8)
        ensures
            *final(regs) == old(regs).with_duty(Channel::Oc1C, duty),
            final(regs).duty(Channel::Oc1C) == duty,
    {
        regs.set_duty(Channel::Oc1C, duty);
    }
}

} // verus!
