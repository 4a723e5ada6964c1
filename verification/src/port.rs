//! Port{B,C,D,E,F}
//!
//! Abstraction of the IO pins.
//!
//! # Design
//! For each port, you can call `.split()` on the port's handle to separate
//! the pins.
//!
//! By default, each pin is `Input<Floating>`.  There are three methods to
//! change the mode:
//! * `into_floating_input()`: Turn a pin into a floating input
//! * `into_pull_up_input()`: Turn a pin into a pull-up input
//! * `into_output()`: Turn a pin into an output
//!
//! Input pins can be read with `is_high()` and `is_low()`; output pins can
//! be driven with `set_high()`, `set_low()` and `toggle()`, and asked for the
//! level they were last told to drive with `is_set_high()` and
//! `is_set_low()`.
//!
//! Every operation that reads or writes the device takes the device's
//! [`Registers`]; what it does to them is its contract.
//!
//! ## Downgrading
//! After `.split()` each pin is of a separate type.  This means you can't
//! store them in an array.  To allow doing so you can downgrade a pin:
//! `.downgrade_port()` makes the pin generic for its port, `.downgrade()`
//! makes it fully generic.
//!
//! *Note*: After downgrading a pin, you can no longer change its mode!
//!
//! ## PWM
//! Some pins can be configured to output a PWM signal.  This is not
//! implemented in the port module but in the [timer](crate::timer) module.
//!
//! # Example
//! ```
//! use atmega32u4_hal::peripherals::power_on;
//! use atmega32u4_hal::port::PortExt;
//!
//! // Get the device
//! let (mut regs, dp) = power_on();
//!
//! // Split the port and create an output pin
//! let mut portc = dp.PORTC.split();
//! let mut pc7 = portc.pc7.into_output(&mut portc.ddr, &mut regs);
//!
//! // Use the pin
//! pc7.set_high(&mut regs);
//! pc7.set_low(&mut regs);
//! ```

use vstd::prelude::*;
use core::marker::PhantomData;
use crate::bits::{clear_bit, set_bit};
use crate::chip::{PinId, Port};
use crate::peripherals::PortId;
use crate::port::mode::io::{Floating, Input, Output, PullUp};
use crate::port::mode::{Io, Kind, Tag};
use crate::register_lemmas::{lemma_pin_operations, lemma_reset_pins_float};
use crate::registers::Registers;

pub mod mode;
pub mod portb;
pub mod portc;
pub mod portd;
pub mod porte;
pub mod portf;

verus! {

/// A splittable port
pub trait PortExt: PortId + Sized {
    /// Type that contains the split result
    type Parts;

    /// The pins that `parts` holds, in the order of its fields.
    spec fn pins(parts: &Self::Parts) -> Seq<PinId>;

    /// The modes of the pins that `parts` holds, in the order of its fields.
    spec fn modes(parts: &Self::Parts) -> Seq<Kind>;

    /// Split this port into its pins
    ///
    /// The result holds one pin for each bit of the port that is bonded out,
    /// each of them once, and every pin is a floating input, as the device
    /// leaves it at reset.
    fn split(self) -> (parts: Self::Parts)
        ensures
            Self::pins(&parts) == Self::port().pins(),
            Self::modes(&parts).len() == Self::port().pins().len(),
            forall|k: int|
                0 <= k < Self::modes(&parts).len() ==> Self::modes(&parts)[k]
                    == Kind::FloatingInput,
    ;
}

/// Type that can write the data direction register of port `P`
pub trait PortDDR<P: PortId> {
    /// Writes the data direction register of the port.
    fn write_ddr(&mut self, regs: &mut Registers, ddr: u8)
        ensures
            *final(regs) == old(regs).with_ddr(P::port(), ddr),
    ;
}

/// Data direction register of port `P`
pub struct Ddr<P: PortId> {
    _port: PhantomData<P>,
}

impl<P: PortId> Ddr<P> {
    /// The handle to the data direction register of a port that is being
    /// split.
    pub(crate) fn new() -> (ddr: Ddr<P>) {
        Ddr { _port: PhantomData }
    }
}

impl<P: PortId> PortDDR<P> for Ddr<P> {
    /// Access the ddr register
    fn write_ddr(&mut self, regs: &mut Registers, ddr: u8) {
        regs.write_ddr(P::id(), ddr);
    }
}

/// A pin whose port and position are part of its type
pub struct TypedPin<P: PortId, const I: u8, MODE> {
    _port: PhantomData<P>,
    _mode: PhantomData<MODE>,
}

/// A pin generic over the pins of its port
pub struct PortPin<P: PortId, MODE> {
    i: u8,
    _port: PhantomData<P>,
    _mode: PhantomData<MODE>,
}

/// A completely generic pin
#[derive(Debug)]
pub struct Pin<MODE> {
    i: u8,
    port: Port,
    _mode: PhantomData<MODE>,
}

impl<P: PortId, const I: u8, MODE> TypedPin<P, I, MODE> {
    /// Every pin stands for a bit that is bonded out.
    #[verifier::type_invariant]
    spec fn bonded(self) -> bool {
        P::port().bonds(I)
    }

    /// The pin's place on the device.
    pub open spec fn view(&self) -> PinId {
        PinId { port: P::port(), index: I }
    }

    /// The handle of a pin that exists.
    pub(crate) fn new() -> (pin: TypedPin<P, I, MODE>)
        requires
            P::port().bonds(I),
        ensures
            pin@ == (PinId { port: P::port(), index: I }),
    {
        TypedPin { _port: PhantomData, _mode: PhantomData }
    }

    /// The same pin in another mode.
    pub(crate) fn retag<OTHER>(self) -> (pin: TypedPin<P, I, OTHER>)
        ensures
            pin@ == self@,
    {
        proof {
            use_type_invariant(&self);
        }
        TypedPin { _port: PhantomData, _mode: PhantomData }
    }

    /// The pin's place on the device.
    pub fn id(&self) -> (pin: PinId)
        ensures
            pin == self@,
            pin.bonded(),
            pin.index < 8,
    {
        proof {
            use_type_invariant(self);
        }
        PinId { port: P::id(), index: I }
    }

    /// Downgrade this pin into a more generic pin type
    ///
    /// This allows storing multiple pins in an array. It does however
    /// come with some runtime overhead, so choose `downgrade_port` if
    /// possible.
    ///
    /// *Note*: The mode of downgraded pins can no longer be changed.
    pub fn downgrade(self) -> (pin: Pin<MODE>)
        ensures
            pin@ == self@,
    {
        proof {
            use_type_invariant(&self);
        }
        Pin { i: I, port: P::id(), _mode: PhantomData }
    }

    /// Downgrade this pin into a more type generic over all pins of this port
    ///
    /// This allows storing multiple pins of a port in an array
    ///
    /// *Note*: The mode of downgraded pins can no longer be changed.
    pub fn downgrade_port(self) -> (pin: PortPin<P, MODE>)
        ensures
            pin@ == self@,
    {
        proof {
            use_type_invariant(&self);
        }
        PortPin { i: I, _port: PhantomData, _mode: PhantomData }
    }
}

impl<P: PortId, const I: u8, MODE: Tag> TypedPin<P, I, MODE> {
    /// The pin's mode.
    pub open spec fn mode(&self) -> Kind {
        MODE::kind()
    }
}

impl<P: PortId, const I: u8, MODE: Io> TypedPin<P, I, MODE> {
    /// Turn this pin into a floating input
    ///
    /// Clears the pin's direction bit and its data bit, so that a pull-up
    /// that was on, or a high level that was driven, does not stay behind.
    pub fn into_floating_input<D: PortDDR<P>>(self, ddr: &mut D, regs: &mut Registers) -> (pin:
        TypedPin<P, I, Input<Floating>>)
        ensures
            pin@ == self@,
            *final(regs) == old(regs).as_floating_input(self@),
            Kind::FloatingInput.describes(final(regs).bits_of(self@)),
    {
        let id = self.id();
        proof {
            lemma_pin_operations(*regs, id);
        }
        let direction = regs.port(id.port).ddr;
        ddr.write_ddr(regs, clear_bit(direction, I));
        regs.drive_low(id);
        self.retag()
    }

    /// Turn this pin into a pull up input
    ///
    /// Clears the pin's direction bit and sets its data bit, which on an
    /// input switches the pull-up on.
    pub fn into_pull_up_input<D: PortDDR<P>>(self, ddr: &mut D, regs: &mut Registers) -> (pin:
        TypedPin<P, I, Input<PullUp>>)
        ensures
            pin@ == self@,
            *final(regs) == old(regs).as_pull_up_input(self@),
            Kind::PullUpInput.describes(final(regs).bits_of(self@)),
    {
        let id = self.id();
        proof {
            lemma_pin_operations(*regs, id);
        }
        let direction = regs.port(id.port).ddr;
        ddr.write_ddr(regs, clear_bit(direction, I));
        regs.drive_high(id);
        self.retag()
    }

    /// Turn this pin into an output
    ///
    /// Sets the pin's direction bit. The level that the pin drives is what
    /// its data bit held before: low after reset, high if the pin was an
    /// input with pull-up.
    pub fn into_output<D: PortDDR<P>>(self, ddr: &mut D, regs: &mut Registers) -> (pin: TypedPin<
        P,
        I,
        Output,
    >)
        ensures
            pin@ == self@,
            *final(regs) == old(regs).as_output(self@),
            Kind::Output.describes(final(regs).bits_of(self@)),
    {
        let id = self.id();
        proof {
            lemma_pin_operations(*regs, id);
        }
        let direction = regs.port(id.port).ddr;
        ddr.write_ddr(regs, set_bit(direction, I));
        self.retag()
    }
}

impl<P: PortId, const I: u8> TypedPin<P, I, Output> {
    /// Drives the pin high
    pub fn set_high(&mut self, regs: &mut Registers)
        ensures
            *final(regs) == old(regs).driven_high(old(self)@),
            final(self)@ == old(self)@,
    {
        let id = self.id();
        regs.drive_high(id);
    }

    /// Drives the pin low
    pub fn set_low(&mut self, regs: &mut Registers)
        ensures
            *final(regs) == old(regs).driven_low(old(self)@),
            final(self)@ == old(self)@,
    {
        let id = self.id();
        regs.drive_low(id);
    }

    /// Inverts the level that the pin drives
    pub fn toggle(&mut self, regs: &mut Registers)
        ensures
            *final(regs) == old(regs).toggled(old(self)@),
            final(self)@ == old(self)@,
    {
        let id = self.id();
        regs.toggle(id);
    }

    /// Is the pin told to drive high? Reads the data register, not the pin.
    pub fn is_set_high(&self, regs: &Registers) -> (r: bool)
        ensures
            r == regs.drives_high(self@),
    {
        regs.is_set_high(self.id())
    }

    /// Is the pin told to drive low? Reads the data register, not the pin.
    pub fn is_set_low(&self, regs: &Registers) -> (r: bool)
        ensures
            r == !regs.drives_high(self@),
    {
        !regs.is_set_high(self.id())
    }
}

impl<P: PortId, const I: u8, MODE> TypedPin<P, I, Input<MODE>> {
    /// Is the input pin high?
    pub fn is_high(&self, regs: &Registers) -> (r: bool)
        ensures
            r == regs.reads_high(self@),
    {
        regs.is_high(self.id())
    }

    /// Is the input pin low?
    pub fn is_low(&self, regs: &Registers) -> (r: bool)
        ensures
            r == !regs.reads_high(self@),
    {
        !regs.is_high(self.id())
    }
}

impl<P: PortId, MODE> PortPin<P, MODE> {
    /// Every pin stands for a bit that is bonded out.
    #[verifier::type_invariant]
    spec fn bonded(self) -> bool {
        P::port().bonds(self.i)
    }

    /// The pin's place on the device.
    pub closed spec fn view(&self) -> PinId {
        PinId { port: P::port(), index: self.i }
    }

    /// The pin's place on the device.
    pub fn id(&self) -> (pin: PinId)
        ensures
            pin == self@,
            pin.bonded(),
            pin.index < 8,
    {
        proof {
            use_type_invariant(self);
        }
        PinId { port: P::id(), index: self.i }
    }
}

impl<P: PortId, MODE: Tag> PortPin<P, MODE> {
    /// The pin's mode.
    pub open spec fn mode(&self) -> Kind {
        MODE::kind()
    }
}

impl<P: PortId> PortPin<P, Output> {
    /// Drives the pin high
    pub fn set_high(&mut self, regs: &mut Registers)
        ensures
            *final(regs) == old(regs).driven_high(old(self)@),
            final(self)@ == old(self)@,
    {
        let id = self.id();
        regs.drive_high(id);
    }

    /// Drives the pin low
    pub fn set_low(&mut self, regs: &mut Registers)
        ensures
            *final(regs) == old(regs).driven_low(old(self)@),
            final(self)@ == old(self)@,
    {
        let id = self.id();
        regs.drive_low(id);
    }

    /// Inverts the level that the pin drives
    pub fn toggle(&mut self, regs: &mut Registers)
        ensures
            *final(regs) == old(regs).toggled(old(self)@),
            final(self)@ == old(self)@,
    {
        let id = self.id();
        regs.toggle(id);
    }

    /// Is the pin told to drive high? Reads the data register, not the pin.
    pub fn is_set_high(&self, regs: &Registers) -> (r: bool)
        ensures
            r == regs.drives_high(self@),
    {
        regs.is_set_high(self.id())
    }

    /// Is the pin told to drive low? Reads the data register, not the pin.
    pub fn is_set_low(&self, regs: &Registers) -> (r: bool)
        ensures
            r == !regs.drives_high(self@),
    {
        !regs.is_set_high(self.id())
    }
}

impl<P: PortId, MODE> PortPin<P, Input<MODE>> {
    /// Is the input pin high?
    pub fn is_high(&self, regs: &Registers) -> (r: bool)
        ensures
            r == regs.reads_high(self@),
    {
        regs.is_high(self.id())
    }

    /// Is the input pin low?
    pub fn is_low(&self, regs: &Registers) -> (r: bool)
        ensures
            r == !regs.reads_high(self@),
    {
        !regs.is_high(self.id())
    }
}

impl<MODE> Pin<MODE> {
    /// Every pin stands for a bit that is bonded out.
    #[verifier::type_invariant]
    spec fn bonded(self) -> bool {
        self.port.bonds(self.i)
    }

    /// The pin's place on the device.
    pub closed spec fn view(&self) -> PinId {
        PinId { port: self.port, index: self.i }
    }

    /// The pin's place on the device.
    pub fn id(&self) -> (pin: PinId)
        ensures
            pin == self@,
            pin.bonded(),
            pin.index < 8,
    {
        proof {
            use_type_invariant(self);
        }
        PinId { port: self.port, index: self.i }
    }
}

impl<MODE: Tag> Pin<MODE> {
    /// The pin's mode.
    pub open spec fn mode(&self) -> Kind {
        MODE::kind()
    }
}

impl Pin<Output> {
    /// Drives the pin high
    pub fn set_high(&mut self, regs: &mut Registers)
        ensures
            *final(regs) == old(regs).driven_high(old(self)@),
            final(self)@ == old(self)@,
    {
        let id = self.id();
        regs.drive_high(id);
    }

    /// Drives the pin low
    pub fn set_low(&mut self, regs: &mut Registers)
        ensures
            *final(regs) == old(regs).driven_low(old(self)@),
            final(self)@ == old(self)@,
    {
        let id = self.id();
        regs.drive_low(id);
    }

    /// Inverts the level that the pin drives
    pub fn toggle(&mut self, regs: &mut Registers)
        ensures
            *final(regs) == old(regs).toggled(old(self)@),
            final(self)@ == old(self)@,
    {
        let id = self.id();
        regs.toggle(id);
    }

    /// Is the pin told to drive high? Reads the data register, not the pin.
    pub fn is_set_high(&self, regs: &Registers) -> (r: bool)
        ensures
            r == regs.drives_high(self@),
    {
        regs.is_set_high(self.id())
    }

    /// Is the pin told to drive low? Reads the data register, not the pin.
    pub fn is_set_low(&self, regs: &Registers) -> (r: bool)
        ensures
            r == !regs.drives_high(self@),
    {
        !regs.is_set_high(self.id())
    }
}

impl<MODE> Pin<Input<MODE>> {
    /// Is the input pin high?
    pub fn is_high(&self, regs: &Registers) -> (r: bool)
        ensures
            r == regs.reads_high(self@),
    {
        regs.is_high(self.id())
    }

    /// Is the input pin low?
    pub fn is_low(&self, regs: &Registers) -> (r: bool)
        ensures
            r == !regs.reads_high(self@),
    {
        !regs.is_high(self.id())
    }
}

/// A pin fresh from `split` is the floating input that its type says it is:
/// in the registers as reset leaves them its direction bit and its data bit
/// are clear. It can be read at once, and with nothing driving it reads low.
pub proof fn lemma_fresh_pins_float(pin: PinId)
    requires
        pin.index < 8,
    ensures
        Kind::FloatingInput.describes(Registers::reset_state().bits_of(pin)),
        !Registers::reset_state().reads_high(pin),
{
    lemma_reset_pins_float(pin);
}

/// Downgrading changes the type of a pin and nothing else. What `downgrade`
/// and `downgrade_port` hand back stands for the same place on the device,
/// so on the same registers it reads the same level, reports the same
/// commanded level, and drives, clears and toggles the same bit.
pub proof fn lemma_downgrade_keeps_behaviour<P: PortId, const I: u8, MODE>(
    typed: TypedPin<P, I, MODE>,
    port_erased: PortPin<P, MODE>,
    erased: Pin<MODE>,
    regs: Registers,
)
    requires
        port_erased@ == typed@,
        erased@ == typed@,
    ensures
        regs.reads_high(erased@) == regs.reads_high(typed@),
        regs.reads_high(port_erased@) == regs.reads_high(typed@),
        regs.drives_high(erased@) == regs.drives_high(typed@),
        regs.drives_high(port_erased@) == regs.drives_high(typed@),
        regs.driven_high(erased@) == regs.driven_high(typed@),
        regs.driven_high(port_erased@) == regs.driven_high(typed@),
        regs.driven_low(erased@) == regs.driven_low(typed@),
        regs.driven_low(port_erased@) == regs.driven_low(typed@),
        regs.toggled(erased@) == regs.toggled(typed@),
        regs.toggled(port_erased@) == regs.toggled(typed@),
{
}

} // verus!
