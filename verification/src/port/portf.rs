//! Port Types

use vstd::prelude::*;
use crate::chip::PinId;
use crate::peripherals::PORTF;
use crate::port::mode::io::{Floating, Input};
use crate::port::mode::Kind;
use crate::port::{Ddr, PortExt, PortPin, TypedPin};

verus! {

/// Data direction register
pub type DDR = Ddr<PORTF>;

/// Generalized pin
pub type PFx<MODE> = PortPin<PORTF, MODE>;

/// Pin
pub type PF0<MODE> = TypedPin<PORTF, 0, MODE>;

/// Pin
pub type PF1<MODE> = TypedPin<PORTF, 1, MODE>;

/// Pin
pub type PF4<MODE> = TypedPin<PORTF, 4, MODE>;

/// Pin
pub type PF5<MODE> = TypedPin<PORTF, 5, MODE>;

/// Pin
pub type PF6<MODE> = TypedPin<PORTF, 6, MODE>;

/// Pin
pub type PF7<MODE> = TypedPin<PORTF, 7, MODE>;

/// Splitted port parts
pub struct Parts {
    /// Data direction register
    pub ddr: DDR,
    /// Pin
    pub pf0: PF0<Input<Floating>>,
    /// Pin
    pub pf1: PF1<Input<Floating>>,
    /// Pin
    pub pf4: PF4<Input<Floating>>,
    /// Pin
    pub pf5: PF5<Input<Floating>>,
    /// Pin
    pub pf6: PF6<Input<Floating>>,
    /// Pin
    pub pf7: PF7<Input<Floating>>,
}

impl PortExt for PORTF {
    type Parts = Parts;

    open spec fn pins(parts: &Parts) -> Seq<PinId> {
        seq![parts.pf0@, parts.pf1@, parts.pf4@, parts.pf5@, parts.pf6@, parts.pf7@]
    }

    open spec fn modes(parts: &Parts) -> Seq<Kind> {
        seq![
            parts.pf0.mode(),
            parts.pf1.mode(),
            parts.pf4.mode(),
            parts.pf5.mode(),
            parts.pf6.mode(),
            parts.pf7.mode(),
        ]
    }

    fn split(self) -> (parts: Parts) {
        Parts {
            ddr: Ddr::new(),
            pf0: TypedPin::new(),
            pf1: TypedPin::new(),
            pf4: TypedPin::new(),
            pf5: TypedPin::new(),
            pf6: TypedPin::new(),
            pf7: TypedPin::new(),
        }
    }
}

} // verus!
