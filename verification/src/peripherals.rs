//! The handles that stand for the device's peripherals.
//!
//! A handle holds nothing; to own it is to own the peripheral. The handles
//! of one device come into being together with its registers, in
//! [`power_on`], and each is given up to the part of the library that takes
//! the peripheral over: a port to its [`split`](crate::port::PortExt::split),
//! a timer to its PWM driver.

use vstd::prelude::*;
use crate::chip::Port;
use crate::registers::Registers;

verus! {

/// A handle that stands for one port and says which.
pub trait PortId {
    /// The port that the handle stands for.
    spec fn port() -> Port;

    /// The port that the handle stands for.
    fn id() -> (port: Port)
        ensures
            port == Self::port(),
    ;
}

/// Port B.
pub struct PORTB {
    _owned: (),
}

/// Port C.
pub struct PORTC {
    _owned: (),
}

/// Port D.
pub struct PORTD {
    _owned: (),
}

/// Port E.
pub struct PORTE {
    _owned: (),
}

/// Port F.
pub struct PORTF {
    _owned: (),
}

/// 8-bit timer/counter 0.
pub struct TIMER0 {
    _owned: (),
}

/// 16-bit timer/counter 1.
pub struct TIMER1 {
    _owned: (),
}

/// 16-bit timer/counter 3.
pub struct TIMER3 {
    _owned: (),
}

/// 10-bit high speed timer/counter 4.
pub struct TIMER4 {
    _owned: (),
}

impl PortId for PORTB {
    open spec fn port() -> Port {
        Port::B
    }

    fn id() -> (port: Port) {
        Port::B
    }
}

impl PortId for PORTC {
    open spec fn port() -> Port {
        Port::C
    }

    fn id() -> (port: Port) {
        Port::C
    }
}

impl PortId for PORTD {
    open spec fn port() -> Port {
        Port::D
    }

    fn id() -> (port: Port) {
        Port::D
    }
}

impl PortId for PORTE {
    open spec fn port() -> Port {
        Port::E
    }

    fn id() -> (port: Port) {
        Port::E
    }
}

impl PortId for PORTF {
    open spec fn port() -> Port {
        Port::F
    }

    fn id() -> (port: Port) {
        Port::F
    }
}

/// The peripherals of one device.
#[allow(non_snake_case)]
pub struct Peripherals {
    pub PORTB: PORTB,
    pub PORTC: PORTC,
    pub PORTD: PORTD,
    pub PORTE: PORTE,
    pub PORTF: PORTF,
    pub TIMER0: TIMER0,
    pub TIMER1: TIMER1,
    pub TIMER3: TIMER3,
    pub TIMER4: TIMER4,
}

/// A device fresh out of reset: its registers, all zero, and the one set of
/// handles to its peripherals.
pub fn power_on() -> (device: (Registers, Peripherals))
    ensures
        device.0 == Registers::reset_state(),
{
    let peripherals = Peripherals {
        PORTB: PORTB { _owned: () },
        PORTC: PORTC { _owned: () },
        PORTD: PORTD { _owned: () },
        PORTE: PORTE { _owned: () },
        PORTF: PORTF { _owned: () },
        TIMER0: TIMER0 { _owned: () },
        TIMER1: TIMER1 { _owned: () },
        TIMER3: TIMER3 { _owned: () },
        TIMER4: TIMER4 { _owned: () },
    };
    (Registers::reset(), peripherals)
}

} // verus!
