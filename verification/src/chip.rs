//! What is fixed in silicon: the ports, which of their bits reach a pin of
//! the package, the timers, and which pin each output-compare channel drives.

use vstd::prelude::*;

verus! {

/// One of the chip's 8-bit I/O ports.
#[derive(Clone, Copy, PartialEq, Eq, Debug, Structural)]
pub enum Port {
    B,
    C,
    D,
    E,
    F,
}

/// One of the chip's timers that can generate PWM.
#[derive(Clone, Copy, PartialEq, Eq, Debug, Structural)]
pub enum Timer {
    Timer0,
    Timer1,
    Timer3,
    Timer4,
}

/// An output-compare channel: the part of a timer that compares the running
/// counter with a compare register and drives one pin with the result.
#[derive(Clone, Copy, PartialEq, Eq, Debug, Structural)]
pub enum Channel {
    Oc0A,
    Oc0B,
    Oc1A,
    Oc1B,
    Oc1C,
    Oc3A,
    Oc4A,
    Oc4D,
}

/// A pin by its place: a port and a bit position in that port's registers.
#[derive(Clone, Copy, PartialEq, Eq, Debug, Structural)]
pub struct PinId {
    pub port: Port,
    pub index: u8,
}

impl Port {
    /// Whether bit `index` of this port is bonded out to a pin.
    pub open spec fn bonds(self, index: u8) -> bool {
        match self {
            Port::B => index < 8,
            Port::C => index == 6 || index == 7,
            Port::D => index < 8,
            Port::E => index == 2 || index == 6,
            Port::F => index == 0 || index == 1 || (4 <= index && index < 8),
        }
    }

    /// The bonded-out bit positions of this port, in rising order.
    pub open spec fn bonded_indices(self) -> Seq<u8> {
        match self {
            Port::B => seq![0u8, 1u8, 2u8, 3u8, 4u8, 5u8, 6u8, 7u8],
            Port::C => seq![6u8, 7u8],
            Port::D => seq![0u8, 1u8, 2u8, 3u8, 4u8, 5u8, 6u8, 7u8],
            Port::E => seq![2u8, 6u8],
            Port::F => seq![0u8, 1u8, 4u8, 5u8, 6u8, 7u8],
        }
    }

    /// The pins of this port, in rising order of their bit positions.
    pub open spec fn pins(self) -> Seq<PinId> {
        Seq::new(
            self.bonded_indices().len(),
            |k: int| PinId { port: self, index: self.bonded_indices()[k] },
        )
    }

    /// Whether bit `index` of this port is bonded out to a pin.
    pub fn is_bonded(self, index: u8) -> (r: bool)
        ensures
            r == self.bonds(index),
    {
        match self {
            Port::B => index < 8,
            Port::C => index == 6 || index == 7,
            Port::D => index < 8,
            Port::E => index == 2 || index == 6,
            Port::F => index == 0 || index == 1 || (4 <= index && index < 8),
        }
    }
}

impl PinId {
    /// The pin exists on the package.
    pub open spec fn bonded(self) -> bool {
        self.port.bonds(self.index)
    }
}

impl Channel {
    /// The timer that this channel belongs to.
    pub open spec fn timer(self) -> Timer {
        match self {
            Channel::Oc0A | Channel::Oc0B => Timer::Timer0,
            Channel::Oc1A | Channel::Oc1B | Channel::Oc1C => Timer::Timer1,
            Channel::Oc3A => Timer::Timer3,
            Channel::Oc4A | Channel::Oc4D => Timer::Timer4,
        }
    }

    /// The pin that this channel is wired to.
    pub open spec fn pin(self) -> PinId {
        match self {
            Channel::Oc0A => PinId { port: Port::B, index: 7 },
            Channel::Oc0B => PinId { port: Port::D, index: 0 },
            Channel::Oc1A => PinId { port: Port::B, index: 5 },
            Channel::Oc1B => PinId { port: Port::B, index: 6 },
            Channel::Oc1C => PinId { port: Port::B, index: 7 },
            Channel::Oc3A => PinId { port: Port::C, index: 6 },
            Channel::Oc4A => PinId { port: Port::C, index: 7 },
            Channel::Oc4D => PinId { port: Port::D, index: 7 },
        }
    }
}

/// The table of bonded-out bits is sound: a bit is bonded exactly when the
/// port's list holds it, the list holds no bit twice, and every bit in it is
/// a position inside the port's registers.
pub proof fn lemma_bonded_indices(port: Port)
    ensures
        forall|i: u8| port.bonds(i) <==> port.bonded_indices().contains(i),
        port.bonded_indices().no_duplicates(),
        forall|k: int|
            0 <= k < port.bonded_indices().len() ==> #[trigger] port.bonded_indices()[k] < 8,
{
    let s = port.bonded_indices();
    assert forall|i: u8| port.bonds(i) implies s.contains(i) by {
        match port {
            Port::B | Port::D => {
                assert(s[i as int] == i);
            },
            Port::C => {
                assert(s[i - 6] == i);
            },
            Port::E => {
                assert(s[0] == 2 && s[1] == 6);
            },
            Port::F => {
                if i < 2 {
                    assert(s[i as int] == i);
                } else {
                    assert(s[i - 2] == i);
                }
            },
        }
    }
}

/// Every output-compare channel drives a pin that exists on the package.
pub proof fn lemma_channel_pins_bonded(channel: Channel)
    ensures
        channel.pin().bonded(),
        channel.pin().index < 8,
{
}

} // verus!
