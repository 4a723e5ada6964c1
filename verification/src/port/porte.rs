//! Port Types

use vstd::prelude::*;
use crate::chip::PinId;
use crate::peripherals::PORTE;
use crate::port::mode::io::{Floating, Input};
use crate::port::mode::Kind;
use crate::port::{Ddr, PortExt, PortPin, TypedPin};

verus! {

/// Data direction register
pub type DDR = Ddr<PORTE>;

/// Generalized pin
pub type PEx<MODE> = PortPin<PORTE, MODE>;

/// Pin
pub type PE2<MODE> = TypedPin<PORTE, 2, MODE>;

/// Pin
pub type PE6<MODE> = TypedPin<PORTE, 6, MODE>;

/// Splitted port parts
pub struct Parts {
    /// Data direction register
    pub ddr: DDR,
    /// Pin
    pub pe2: PE2<Input<Floating>>,
    /// Pin
    pub pe6: PE6<Input<Floating>>,
}

impl PortExt for PORTE {
    type Parts = Parts;

    open spec fn pins(parts: &Parts) -> Seq<PinId> {
        seq![parts.pe2@, parts.pe6@]
    }

    open spec fn modes(parts: &Parts) -> Seq<Kind> {
        seq![parts.pe2.mode(), parts.pe6.mode()]
    }

    fn split(self) -> (parts: Parts) {
        Parts { ddr: Ddr::new(), pe2: TypedPin::new(), pe6: TypedPin::new() }
    }
}

} // verus!
