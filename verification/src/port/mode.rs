//! Pin modes.
//!
//! A mode is a type without values: it is written in a pin's type, and the
//! pin's operations are those that its mode allows.

use vstd::prelude::*;
use core::marker::PhantomData;
use crate::registers::PinBits;

pub mod io;

verus! {

/// The electrical modes that a pin can be in.
#[derive(Clone, Copy, PartialEq, Eq, Debug, Structural)]
pub enum Kind {
    /// An input that nothing pulls either way.
    FloatingInput,
    /// An input that the pin's pull-up holds high while nothing drives it.
    PullUpInput,
    /// A push-pull output.
    Output,
    /// An output whose level a timer's compare channel decides.
    Pwm,
}

impl Kind {
    /// Whether a pin whose bits are `bits` is in this mode.
    pub open spec fn describes(self, bits: PinBits) -> bool {
        match self {
            Kind::FloatingInput => !bits.ddr && !bits.port,
            Kind::PullUpInput => !bits.ddr && bits.port,
            Kind::Output => bits.ddr,
            Kind::Pwm => bits.ddr,
        }
    }
}

/// A mode tag: a type that stands for one mode.
pub trait Tag {
    /// The mode that the tag stands for.
    spec fn kind() -> Kind;
}

/// Any digital IO mode
pub trait Io {
}

/// Pulse Width Modulated Output
pub struct Pwm<TIMER> {
    pub(crate) _tim: PhantomData<TIMER>,
}

impl<TIMER> Tag for Pwm<TIMER> {
    open spec fn kind() -> Kind {
        Kind::Pwm
    }
}

} // verus!
