//! Digital IO modes

use vstd::prelude::*;
use core::marker::PhantomData;
use crate::port::mode::{Io, Kind, Tag};

verus! {

/// Input
pub struct Input<MODE> {
    _mode: PhantomData<MODE>,
}

/// Output
pub struct Output;

/// PullUp Input
pub struct PullUp;

/// Floating Input
pub struct Floating;

impl<MODE> Io for Input<MODE> {
}

impl Io for Output {
}

impl Tag for Input<Floating> {
    open spec fn kind() -> Kind {
        Kind::FloatingInput
    }
}

impl Tag for Input<PullUp> {
    open spec fn kind() -> Kind {
        Kind::PullUpInput
    }
}

impl Tag for Output {
    open spec fn kind() -> Kind {
        Kind::Output
    }
}

} // verus!
