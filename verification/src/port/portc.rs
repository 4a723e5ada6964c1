//! Port Types

use vstd::prelude::*;
use crate::chip::PinId;
use crate::peripherals::PORTC;
use crate::port::mode::io::{Floating, Input};
use crate::port::mode::Kind;
use crate::port::{Ddr, PortExt, PortPin, TypedPin};

verus! {

/// Data direction register
pub type DDR = Ddr<PORTC>;

/// Generalized pin
pub type PCx<MODE> = PortPin<PORTC, MODE>;

/// Pin
pub type PC6<MODE> = TypedPin<PORTC, 6, MODE>;

/// Pin
pub type PC7<MODE> = TypedPin<PORTC, 7, MODE>;

/// Splitted port parts
pub struct Parts {
    /// Data direction register
    pub ddr: DDR,
    /// Pin
    pub pc6: PC6<Input<Floating>>,
    /// Pin
    pub pc7: PC7<Input<Floating>>,
}

impl PortExt for PORTC {
    type Parts = Parts;

    open spec fn pins(parts: &Parts) -> Seq<PinId> {
        seq![parts.pc6@, parts.pc7@]
    }

    open spec fn modes(parts: &Parts) -> Seq<Kind> {
        seq![parts.pc6.mode(), parts.pc7.mode()]
    }

    fn split(self) -> (parts: Parts) {
        Parts { ddr: Ddr::new(), pc6: TypedPin::new(), pc7: TypedPin::new() }
    }
}

} // verus!
