//! Port Types

use vstd::prelude::*;
use crate::chip::PinId;
use crate::peripherals::PORTB;
use crate::port::mode::io::{Floating, Input};
use crate::port::mode::Kind;
use crate::port::{Ddr, PortExt, PortPin, TypedPin};

verus! {

/// Data direction register
pub type DDR = Ddr<PORTB>;

/// Generalized pin
pub type PBx<MODE> = PortPin<PORTB, MODE>;

/// Pin
pub type PB0<MODE> = TypedPin<PORTB, 0, MODE>;

/// Pin
pub type PB1<MODE> = TypedPin<PORTB, 1, MODE>;

/// Pin
pub type PB2<MODE> = TypedPin<PORTB, 2, MODE>;

/// Pin
pub type PB3<MODE> = TypedPin<PORTB, 3, MODE>;

/// Pin
pub type PB4<MODE> = TypedPin<PORTB, 4, MODE>;

/// Pin
pub type PB5<MODE> = TypedPin<PORTB, 5, MODE>;

/// Pin
pub type PB6<MODE> = TypedPin<PORTB, 6, MODE>;

/// Pin
pub type PB7<MODE> = TypedPin<PORTB, 7, MODE>;

/// Splitted port parts
pub struct Parts {
    /// Data direction register
    pub ddr: DDR,
    /// Pin
    pub pb0: PB0<Input<Floating>>,
    /// Pin
    pub pb1: PB1<Input<Floating>>,
    /// Pin
    pub pb2: PB2<Input<Floating>>,
    /// Pin
    pub pb3: PB3<Input<Floating>>,
    /// Pin
    pub pb4: PB4<Input<Floating>>,
    /// Pin
    pub pb5: PB5<Input<Floating>>,
    /// Pin
    pub pb6: PB6<Input<Floating>>,
    /// Pin
    pub pb7: PB7<Input<Floating>>,
}

impl PortExt for PORTB {
    type Parts = Parts;

    open spec fn pins(parts: &Parts) -> Seq<PinId> {
        seq![
            parts.pb0@,
            parts.pb1@,
            parts.pb2@,
            parts.pb3@,
            parts.pb4@,
            parts.pb5@,
            parts.pb6@,
            parts.pb7@,
        ]
    }

    open spec fn modes(parts: &Parts) -> Seq<Kind> {
        seq![
            parts.pb0.mode(),
            parts.pb1.mode(),
            parts.pb2.mode(),
            parts.pb3.mode(),
            parts.pb4.mode(),
            parts.pb5.mode(),
            parts.pb6.mode(),
            parts.pb7.mode(),
        ]
    }

    fn split(self) -> (parts: Parts) {
        Parts {
            ddr: Ddr::new(),
            pb0: TypedPin::new(),
            pb1: TypedPin::new(),
            pb2: TypedPin::new(),
            pb3: TypedPin::new(),
            pb4: TypedPin::new(),
            pb5: TypedPin::new(),
            pb6: TypedPin::new(),
            pb7: TypedPin::new(),
        }
    }
}

} // verus!
