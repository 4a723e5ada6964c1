//! Port Types

use vstd::prelude::*;
use crate::chip::PinId;
use crate::peripherals::PORTD;
use crate::port::mode::io::{Floating, Input};
use crate::port::mode::Kind;
use crate::port::{Ddr, PortExt, PortPin, TypedPin};

verus! {

/// Data direction register
pub type DDR = Ddr<PORTD>;

/// Generalized pin
pub type PDx<MODE> = PortPin<PORTD, MODE>;

/// Pin
pub type PD0<MODE> = TypedPin<PORTD, 0, MODE>;

/// Pin
pub type PD1<MODE> = TypedPin<PORTD, 1, MODE>;

/// Pin
pub type PD2<MODE> = TypedPin<PORTD, 2, MODE>;

/// Pin
pub type PD3<MODE> = TypedPin<PORTD, 3, MODE>;

/// Pin
pub type PD4<MODE> = TypedPin<PORTD, 4, MODE>;

/// Pin
pub type PD5<MODE> = TypedPin<PORTD, 5, MODE>;

/// Pin
pub type PD6<MODE> = TypedPin<PORTD, 6, MODE>;

/// Pin
pub type PD7<MODE> = TypedPin<PORTD, 7, MODE>;

/// Splitted port parts
pub struct Parts {
    /// Data direction register
    pub ddr: DDR,
    /// Pin
    pub pd0: PD0<Input<Floating>>,
    /// Pin
    pub pd1: PD1<Input<Floating>>,
    /// Pin
    pub pd2: PD2<Input<Floating>>,
    /// Pin
    pub pd3: PD3<Input<Floating>>,
    /// Pin
    pub pd4: PD4<Input<Floating>>,
    /// Pin
    pub pd5: PD5<Input<Floating>>,
    /// Pin
    pub pd6: PD6<Input<Floating>>,
    /// Pin
    pub pd7: PD7<Input<Floating>>,
}

impl PortExt for PORTD {
    type Parts = Parts;

    open spec fn pins(parts: &Parts) -> Seq<PinId> {
        seq![
            parts.pd0@,
            parts.pd1@,
            parts.pd2@,
            parts.pd3@,
            parts.pd4@,
            parts.pd5@,
            parts.pd6@,
            parts.pd7@,
        ]
    }

    open spec fn modes(parts: &Parts) -> Seq<Kind> {
        seq![
            parts.pd0.mode(),
            parts.pd1.mode(),
            parts.pd2.mode(),
            parts.pd3.mode(),
            parts.pd4.mode(),
            parts.pd5.mode(),
            parts.pd6.mode(),
            parts.pd7.mode(),
        ]
    }

    fn split(self) -> (parts: Parts) {
        Parts {
            ddr: Ddr::new(),
            pd0: TypedPin::new(),
            pd1: TypedPin::new(),
            pd2: TypedPin::new(),
            pd3: TypedPin::new(),
            pd4: TypedPin::new(),
            pd5: TypedPin::new(),
            pd6: TypedPin::new(),
            pd7: TypedPin::new(),
        }
    }
}

} // verus!
