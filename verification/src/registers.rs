//! The device's registers as plain values, and what each operation of the
//! library does to them.
//!
//! A [`Registers`] value is a snapshot of every register that the library
//! reads or writes. The operations here are the whole of the library's
//! register logic: the typed pins and timers of the other modules decide at
//! compile time *which* of them may be called, and call them.

use vstd::prelude::*;
use crate::bits::{
    clear_bit, field_value, flip_bit, has_bit, set_bit, test_bit, with_bit, with_bit_flipped,
    with_field, without_bit, write_field,
};
use crate::chip::{Channel, PinId, Port, Timer};

verus! {

/// Width mask of the two-bit waveform-generation fields.
pub const WGM_MASK: u8 = 3;

/// Offset of the low waveform-generation field: bits 1:0 of `TCCRnA` on
/// timers 0, 1 and 3, and of `TCCR4D` on timer 4.
pub const WGM_LOW_OFFSET: u8 = 0;

/// Offset of the high waveform-generation field in `TCCRnB` of timers 1 and 3.
pub const WGM_HIGH_OFFSET: u8 = 3;

/// Low waveform field of timer 0 for fast PWM with top `0xff`.
pub const WGM_FAST_PWM: u8 = 3;

/// Value written to each waveform field of timers 1, 3 and 4.
pub const WGM_PWM_8BIT: u8 = 1;

/// Width mask of the clock-select field of timers 0, 1 and 3.
pub const CS_MASK: u8 = 7;

/// Width mask of the clock-select field of timer 4.
pub const CS4_MASK: u8 = 15;

/// Offset of every clock-select field.
pub const CS_OFFSET: u8 = 0;

/// Clock select of timers 0, 1 and 3 for the I/O clock divided by 64.
pub const CS_IO_64: u8 = 3;

/// Clock select of timer 4 for its clock divided by 64.
pub const CS4_CLK_64: u8 = 7;

/// Width mask of the two-bit compare-output-mode fields.
pub const COM_MASK: u8 = 3;

/// Offset of the compare-output-mode field of channel A in `TCCRnA`.
pub const COM_A_OFFSET: u8 = 6;

/// Offset of the compare-output-mode field of channel B in `TCCRnA`.
pub const COM_B_OFFSET: u8 = 4;

/// Offset of the compare-output-mode field of channel C in `TCCRnA`.
pub const COM_C_OFFSET: u8 = 2;

/// Offset of the compare-output-mode field of channel D in `TCCR4C`.
pub const COM_D_OFFSET: u8 = 2;

/// Compare output mode: the pin is left to the port.
pub const COM_DISCONNECTED: u8 = 0;

/// Compare output mode: the pin is cleared on compare match.
pub const COM_MATCH_CLEAR: u8 = 2;

/// Bit of `TCCR4A` that enables PWM on channel A of timer 4.
pub const PWM4A_BIT: u8 = 1;

/// Bit of `TCCR4C` that enables PWM on channel D of timer 4.
pub const PWM4D_BIT: u8 = 0;

/// The largest duty value that a compare register holds.
pub const MAX_DUTY: u8 = 0xff;

/// The registers of one I/O port.
#[derive(Clone, Copy, PartialEq, Eq, Debug, Structural)]
pub struct PortRegisters {
    /// Input register: the level found on each pin.
    pub pin: u8,
    /// Data direction register: a set bit makes the pin an output.
    pub ddr: u8,
    /// Data register: the level driven on an output, the pull-up of an input.
    pub port: u8,
}

/// The registers of timer 0 that PWM uses.
#[derive(Clone, Copy, PartialEq, Eq, Debug, Structural)]
pub struct Timer0Registers {
    pub tccr_a: u8,
    pub tccr_b: u8,
    pub ocr_a: u8,
    pub ocr_b: u8,
}

/// The registers of timer 1 that PWM uses.
#[derive(Clone, Copy, PartialEq, Eq, Debug, Structural)]
pub struct Timer1Registers {
    pub tccr_a: u8,
    pub tccr_b: u8,
    pub ocr_a_l: u8,
    pub ocr_b_l: u8,
    pub ocr_c_l: u8,
}

/// The registers of timer 3 that PWM uses.
#[derive(Clone, Copy, PartialEq, Eq, Debug, Structural)]
pub struct Timer3Registers {
    pub tccr_a: u8,
    pub tccr_b: u8,
    pub ocr_a_l: u8,
}

/// The registers of timer 4 that PWM uses.
#[derive(Clone, Copy, PartialEq, Eq, Debug, Structural)]
pub struct Timer4Registers {
    pub tccr_a: u8,
    pub tccr_b: u8,
    pub tccr_c: u8,
    pub tccr_d: u8,
    pub ocr_a: u8,
    pub ocr_d: u8,
}

/// Every register that the library reads or writes.
#[derive(Clone, Copy, PartialEq, Eq, Debug, Structural)]
pub struct Registers {
    pub portb: PortRegisters,
    pub portc: PortRegisters,
    pub portd: PortRegisters,
    pub porte: PortRegisters,
    pub portf: PortRegisters,
    pub timer0: Timer0Registers,
    pub timer1: Timer1Registers,
    pub timer3: Timer3Registers,
    pub timer4: Timer4Registers,
}

/// The three bits that one pin owns in the registers of its port.
pub struct PinBits {
    /// The pin's bit of the data direction register.
    pub ddr: bool,
    /// The pin's bit of the data register.
    pub port: bool,
    /// The pin's bit of the input register.
    pub pin: bool,
}

impl PortRegisters {
    /// The bits that the pin at `index` owns.
    pub open spec fn bits_of(self, index: u8) -> PinBits {
        PinBits {
            ddr: has_bit(self.ddr, index),
            port: has_bit(self.port, index),
            pin: has_bit(self.pin, index),
        }
    }

    /// A floating input: direction bit and data bit cleared.
    pub open spec fn as_floating_input(self, index: u8) -> PortRegisters {
        PortRegisters {
            ddr: without_bit(self.ddr, index),
            port: without_bit(self.port, index),
            ..self
        }
    }

    /// An input with pull-up: direction bit cleared, data bit set.
    pub open spec fn as_pull_up_input(self, index: u8) -> PortRegisters {
        PortRegisters {
            ddr: without_bit(self.ddr, index),
            port: with_bit(self.port, index),
            ..self
        }
    }

    /// An output: direction bit set, data bit as it was.
    pub open spec fn as_output(self, index: u8) -> PortRegisters {
        PortRegisters { ddr: with_bit(self.ddr, index), ..self }
    }

    /// Data bit set.
    pub open spec fn driven_high(self, index: u8) -> PortRegisters {
        PortRegisters { port: with_bit(self.port, index), ..self }
    }

    /// Data bit cleared.
    pub open spec fn driven_low(self, index: u8) -> PortRegisters {
        PortRegisters { port: without_bit(self.port, index), ..self }
    }

    /// Data bit inverted.
    pub open spec fn toggled(self, index: u8) -> PortRegisters {
        PortRegisters { port: with_bit_flipped(self.port, index), ..self }
    }
}

impl Registers {
    /// The registers as they stand after power-on reset: all zero.
    pub open spec fn reset_state() -> Registers {
        let port = PortRegisters { pin: 0, ddr: 0, port: 0 };
        Registers {
            portb: port,
            portc: port,
            portd: port,
            porte: port,
            portf: port,
            timer0: Timer0Registers { tccr_a: 0, tccr_b: 0, ocr_a: 0, ocr_b: 0 },
            timer1: Timer1Registers { tccr_a: 0, tccr_b: 0, ocr_a_l: 0, ocr_b_l: 0, ocr_c_l: 0 },
            timer3: Timer3Registers { tccr_a: 0, tccr_b: 0, ocr_a_l: 0 },
            timer4: Timer4Registers {
                tccr_a: 0,
                tccr_b: 0,
                tccr_c: 0,
                tccr_d: 0,
                ocr_a: 0,
                ocr_d: 0,
            },
        }
    }

    /// The registers of `port`.
    pub open spec fn bank(self, port: Port) -> PortRegisters {
        match port {
            Port::B => self.portb,
            Port::C => self.portc,
            Port::D => self.portd,
            Port::E => self.porte,
            Port::F => self.portf,
        }
    }

    /// These registers with those of `port` replaced by `bank`.
    pub open spec fn with_bank(self, port: Port, bank: PortRegisters) -> Registers {
        match port {
            Port::B => Registers { portb: bank, ..self },
            Port::C => Registers { portc: bank, ..self },
            Port::D => Registers { portd: bank, ..self },
            Port::E => Registers { porte: bank, ..self },
            Port::F => Registers { portf: bank, ..self },
        }
    }

    /// These registers with the data direction register of `port` replaced.
    pub open spec fn with_ddr(self, port: Port, ddr: u8) -> Registers {
        self.with_bank(port, PortRegisters { ddr, ..self.bank(port) })
    }

    /// The bits that `pin` owns.
    pub open spec fn bits_of(self, pin: PinId) -> PinBits {
        self.bank(pin.port).bits_of(pin.index)
    }

    /// Whether the input register finds `pin` high.
    pub open spec fn reads_high(self, pin: PinId) -> bool {
        self.bits_of(pin).pin
    }

    /// Whether the data register commands `pin` high.
    pub open spec fn drives_high(self, pin: PinId) -> bool {
        self.bits_of(pin).port
    }

    /// `pin` made a floating input.
    pub open spec fn as_floating_input(self, pin: PinId) -> Registers {
        self.with_bank(pin.port, self.bank(pin.port).as_floating_input(pin.index))
    }

    /// `pin` made an input with pull-up.
    pub open spec fn as_pull_up_input(self, pin: PinId) -> Registers {
        self.with_bank(pin.port, self.bank(pin.port).as_pull_up_input(pin.index))
    }

    /// `pin` made an output.
    pub open spec fn as_output(self, pin: PinId) -> Registers {
        self.with_bank(pin.port, self.bank(pin.port).as_output(pin.index))
    }

    /// `pin` commanded high.
    pub open spec fn driven_high(self, pin: PinId) -> Registers {
        self.with_bank(pin.port, self.bank(pin.port).driven_high(pin.index))
    }

    /// `pin` commanded low.
    pub open spec fn driven_low(self, pin: PinId) -> Registers {
        self.with_bank(pin.port, self.bank(pin.port).driven_low(pin.index))
    }

    /// The commanded level of `pin` inverted.
    pub open spec fn toggled(self, pin: PinId) -> Registers {
        self.with_bank(pin.port, self.bank(pin.port).toggled(pin.index))
    }

    /// `timer` set up for PWM: its waveform-generation fields select the
    /// timer's PWM mode (fast PWM on timers 0, 1 and 3, phase-correct PWM on
    /// timer 4) and its clock select divides by 64.
    pub open spec fn pwm_ready(self, timer: Timer) -> Registers {
        match timer {
            Timer::Timer0 => Registers {
                timer0: Timer0Registers {
                    tccr_a: with_field(self.timer0.tccr_a, WGM_MASK, WGM_LOW_OFFSET, WGM_FAST_PWM),
                    tccr_b: with_field(self.timer0.tccr_b, CS_MASK, CS_OFFSET, CS_IO_64),
                    ..self.timer0
                },
                ..self
            },
            Timer::Timer1 => Registers {
                timer1: Timer1Registers {
                    tccr_a: with_field(self.timer1.tccr_a, WGM_MASK, WGM_LOW_OFFSET, WGM_PWM_8BIT),
                    tccr_b: with_field(
                        with_field(self.timer1.tccr_b, WGM_MASK, WGM_HIGH_OFFSET, WGM_PWM_8BIT),
                        CS_MASK,
                        CS_OFFSET,
                        CS_IO_64,
                    ),
                    ..self.timer1
                },
                ..self
            },
            Timer::Timer3 => Registers {
                timer3: Timer3Registers {
                    tccr_a: with_field(self.timer3.tccr_a, WGM_MASK, WGM_LOW_OFFSET, WGM_PWM_8BIT),
                    tccr_b: with_field(
                        with_field(self.timer3.tccr_b, WGM_MASK, WGM_HIGH_OFFSET, WGM_PWM_8BIT),
                        CS_MASK,
                        CS_OFFSET,
                        CS_IO_64,
                    ),
                    ..self.timer3
                },
                ..self
            },
            Timer::Timer4 => Registers {
                timer4: Timer4Registers {
                    tccr_b: with_field(self.timer4.tccr_b, CS4_MASK, CS_OFFSET, CS4_CLK_64),
                    tccr_d: with_field(self.timer4.tccr_d, WGM_MASK, WGM_LOW_OFFSET, WGM_PWM_8BIT),
                    ..self.timer4
                },
                ..self
            },
        }
    }

    /// Whether the waveform-generation and clock-select fields of `timer`
    /// hold what its PWM setup writes.
    pub open spec fn is_pwm_ready(self, timer: Timer) -> bool {
        match timer {
            Timer::Timer0 => {
                &&& field_value(self.timer0.tccr_a, WGM_MASK, WGM_LOW_OFFSET) == WGM_FAST_PWM
                &&& field_value(self.timer0.tccr_b, CS_MASK, CS_OFFSET) == CS_IO_64
            },
            Timer::Timer1 => {
                &&& field_value(self.timer1.tccr_a, WGM_MASK, WGM_LOW_OFFSET) == WGM_PWM_8BIT
                &&& field_value(self.timer1.tccr_b, WGM_MASK, WGM_HIGH_OFFSET) == WGM_PWM_8BIT
                &&& field_value(self.timer1.tccr_b, CS_MASK, CS_OFFSET) == CS_IO_64
            },
            Timer::Timer3 => {
                &&& field_value(self.timer3.tccr_a, WGM_MASK, WGM_LOW_OFFSET) == WGM_PWM_8BIT
                &&& field_value(self.timer3.tccr_b, WGM_MASK, WGM_HIGH_OFFSET) == WGM_PWM_8BIT
                &&& field_value(self.timer3.tccr_b, CS_MASK, CS_OFFSET) == CS_IO_64
            },
            Timer::Timer4 => {
                &&& field_value(self.timer4.tccr_b, CS4_MASK, CS_OFFSET) == CS4_CLK_64
                &&& field_value(self.timer4.tccr_d, WGM_MASK, WGM_LOW_OFFSET) == WGM_PWM_8BIT
            },
        }
    }

    /// The register that holds the compare-output-mode field of `channel`.
    pub open spec fn control(self, channel: Channel) -> u8 {
        match channel {
            Channel::Oc0A | Channel::Oc0B => self.timer0.tccr_a,
            Channel::Oc1A | Channel::Oc1B | Channel::Oc1C => self.timer1.tccr_a,
            Channel::Oc3A => self.timer3.tccr_a,
            Channel::Oc4A => self.timer4.tccr_a,
            Channel::Oc4D => self.timer4.tccr_c,
        }
    }

    /// These registers with the control register of `channel` replaced.
    pub open spec fn with_control(self, channel: Channel, value: u8) -> Registers {
        match channel {
            Channel::Oc0A | Channel::Oc0B => Registers {
                timer0: Timer0Registers { tccr_a: value, ..self.timer0 },
                ..self
            },
            Channel::Oc1A | Channel::Oc1B | Channel::Oc1C => Registers {
                timer1: Timer1Registers { tccr_a: value, ..self.timer1 },
                ..self
            },
            Channel::Oc3A => Registers {
                timer3: Timer3Registers { tccr_a: value, ..self.timer3 },
                ..self
            },
            Channel::Oc4A => Registers {
                timer4: Timer4Registers { tccr_a: value, ..self.timer4 },
                ..self
            },
            Channel::Oc4D => Registers {
                timer4: Timer4Registers { tccr_c: value, ..self.timer4 },
                ..self
            },
        }
    }

    /// `channel` routed to its pin: its compare output mode clears the pin on
    /// compare match, and on timer 4 the channel's PWM enable bit is set.
    pub open spec fn connected(self, channel: Channel) -> Registers {
        let routed = with_field(
            self.control(channel),
            COM_MASK,
            com_offset(channel),
            COM_MATCH_CLEAR,
        );
        let enabled = match pwm_enable_bit(channel) {
            Some(bit) => with_bit(routed, bit),
            None => routed,
        };
        self.with_control(channel, enabled)
    }

    /// `channel` taken off its pin: its compare output mode leaves the pin to
    /// the port. Nothing else is changed.
    pub open spec fn disconnected(self, channel: Channel) -> Registers {
        self.with_control(
            channel,
            with_field(self.control(channel), COM_MASK, com_offset(channel), COM_DISCONNECTED),
        )
    }

    /// Whether `channel` is routed to its pin.
    pub open spec fn is_connected(self, channel: Channel) -> bool {
        &&& field_value(self.control(channel), COM_MASK, com_offset(channel)) == COM_MATCH_CLEAR
        &&& match pwm_enable_bit(channel) {
            Some(bit) => has_bit(self.control(channel), bit),
            None => true,
        }
    }

    /// The compare register of `channel`: its duty value.
    pub open spec fn duty(self, channel: Channel) -> u8 {
        match channel {
            Channel::Oc0A => self.timer0.ocr_a,
            Channel::Oc0B => self.timer0.ocr_b,
            Channel::Oc1A => self.timer1.ocr_a_l,
            Channel::Oc1B => self.timer1.ocr_b_l,
            Channel::Oc1C => self.timer1.ocr_c_l,
            Channel::Oc3A => self.timer3.ocr_a_l,
            Channel::Oc4A => self.timer4.ocr_a,
            Channel::Oc4D => self.timer4.ocr_d,
        }
    }

    /// These registers with the compare register of `channel` holding `duty`.
    pub open spec fn with_duty(self, channel: Channel, duty: u8) -> Registers {
        match channel {
            Channel::Oc0A => Registers {
                timer0: Timer0Registers { ocr_a: duty, ..self.timer0 },
                ..self
            },
            Channel::Oc0B => Registers {
                timer0: Timer0Registers { ocr_b: duty, ..self.timer0 },
                ..self
            },
            Channel::Oc1A => Registers {
                timer1: Timer1Registers { ocr_a_l: duty, ..self.timer1 },
                ..self
            },
            Channel::Oc1B => Registers {
                timer1: Timer1Registers { ocr_b_l: duty, ..self.timer1 },
                ..self
            },
            Channel::Oc1C => Registers {
                timer1: Timer1Registers { ocr_c_l: duty, ..self.timer1 },
                ..self
            },
            Channel::Oc3A => Registers {
                timer3: Timer3Registers { ocr_a_l: duty, ..self.timer3 },
                ..self
            },
            Channel::Oc4A => Registers {
                timer4: Timer4Registers { ocr_a: duty, ..self.timer4 },
                ..self
            },
            Channel::Oc4D => Registers {
                timer4: Timer4Registers { ocr_d: duty, ..self.timer4 },
                ..self
            },
        }
    }

    /// The registers of `timer`, in the order of the register map.
    pub open spec fn timer_registers(self, timer: Timer) -> Seq<u8> {
        match timer {
            Timer::Timer0 => seq![
                self.timer0.tccr_a,
                self.timer0.tccr_b,
                self.timer0.ocr_a,
                self.timer0.ocr_b,
            ],
            Timer::Timer1 => seq![
                self.timer1.tccr_a,
                self.timer1.tccr_b,
                self.timer1.ocr_a_l,
                self.timer1.ocr_b_l,
                self.timer1.ocr_c_l,
            ],
            Timer::Timer3 => seq![self.timer3.tccr_a, self.timer3.tccr_b, self.timer3.ocr_a_l],
            Timer::Timer4 => seq![
                self.timer4.tccr_a,
                self.timer4.tccr_b,
                self.timer4.tccr_c,
                self.timer4.tccr_d,
                self.timer4.ocr_a,
                self.timer4.ocr_d,
            ],
        }
    }

    /// Whether the two agree on the registers of every port.
    pub open spec fn same_ports(self, other: Registers) -> bool {
        forall|port: Port| #[trigger] self.bank(port) == other.bank(port)
    }

    /// Whether the two agree on the registers of every timer.
    pub open spec fn same_timers(self, other: Registers) -> bool {
        &&& self.timer0 == other.timer0
        &&& self.timer1 == other.timer1
        &&& self.timer3 == other.timer3
        &&& self.timer4 == other.timer4
    }

    /// The registers after power-on reset.
    pub fn reset() -> (regs: Registers)
        ensures
            regs == Registers::reset_state(),
    {
        let port = PortRegisters { pin: 0, ddr: 0, port: 0 };
        Registers {
            portb: port,
            portc: port,
            portd: port,
            porte: port,
            portf: port,
            timer0: Timer0Registers { tccr_a: 0, tccr_b: 0, ocr_a: 0, ocr_b: 0 },
            timer1: Timer1Registers { tccr_a: 0, tccr_b: 0, ocr_a_l: 0, ocr_b_l: 0, ocr_c_l: 0 },
            timer3: Timer3Registers { tccr_a: 0, tccr_b: 0, ocr_a_l: 0 },
            timer4: Timer4Registers {
                tccr_a: 0,
                tccr_b: 0,
                tccr_c: 0,
                tccr_d: 0,
                ocr_a: 0,
                ocr_d: 0,
            },
        }
    }

    /// Reads the registers of `port`.
    pub fn port(&self, port: Port) -> (bank: PortRegisters)
        ensures
            bank == self.bank(port),
    {
        match port {
            Port::B => self.portb,
            Port::C => self.portc,
            Port::D => self.portd,
            Port::E => self.porte,
            Port::F => self.portf,
        }
    }

    /// Replaces the registers of `port`.
    pub fn set_port(&mut self, port: Port, bank: PortRegisters)
        ensures
            *final(self) == old(self).with_bank(port, bank),
    {
        match port {
            Port::B => {
                self.portb = bank;
            },
            Port::C => {
                self.portc = bank;
            },
            Port::D => {
                self.portd = bank;
            },
            Port::E => {
                self.porte = bank;
            },
            Port::F => {
                self.portf = bank;
            },
        }
    }

    /// Writes the data direction register of `port`.
    pub fn write_ddr(&mut self, port: Port, ddr: u8)
        ensures
            *final(self) == old(self).with_ddr(port, ddr),
    {
        let bank = self.port(port);
        self.set_port(port, PortRegisters { ddr, port: bank.port, pin: bank.pin });
    }

    /// Commands `pin` high: sets its data bit.
    pub fn drive_high(&mut self, pin: PinId)
        requires
            pin.index < 8,
        ensures
            *final(self) == old(self).driven_high(pin),
    {
        let bank = self.port(pin.port);
        let port = set_bit(bank.port, pin.index);
        self.set_port(pin.port, PortRegisters { ddr: bank.ddr, port, pin: bank.pin });
    }

    /// Commands `pin` low: clears its data bit.
    pub fn drive_low(&mut self, pin: PinId)
        requires
            pin.index < 8,
        ensures
            *final(self) == old(self).driven_low(pin),
    {
        let bank = self.port(pin.port);
        let port = clear_bit(bank.port, pin.index);
        self.set_port(pin.port, PortRegisters { ddr: bank.ddr, port, pin: bank.pin });
    }

    /// Inverts the commanded level of `pin`.
    pub fn toggle(&mut self, pin: PinId)
        requires
            pin.index < 8,
        ensures
            *final(self) == old(self).toggled(pin),
    {
        let bank = self.port(pin.port);
        let port = flip_bit(bank.port, pin.index);
        self.set_port(pin.port, PortRegisters { ddr: bank.ddr, port, pin: bank.pin });
    }

    /// Whether the input register finds `pin` high.
    pub fn is_high(&self, pin: PinId) -> (r: bool)
        requires
            pin.index < 8,
        ensures
            r == self.reads_high(pin),
    {
        test_bit(self.port(pin.port).pin, pin.index)
    }

    /// Whether the data register commands `pin` high.
    pub fn is_set_high(&self, pin: PinId) -> (r: bool)
        requires
            pin.index < 8,
        ensures
            r == self.drives_high(pin),
    {
        test_bit(self.port(pin.port).port, pin.index)
    }

    /// Sets `timer` up for PWM.
    pub fn init_pwm(&mut self, timer: Timer)
        ensures
            *final(self) == old(self).pwm_ready(timer),
    {
        match timer {
            Timer::Timer0 => {
                self.timer0.tccr_a = write_field(
                    self.timer0.tccr_a,
                    WGM_MASK,
                    WGM_LOW_OFFSET,
                    WGM_FAST_PWM,
                );
                self.timer0.tccr_b = write_field(self.timer0.tccr_b, CS_MASK, CS_OFFSET, CS_IO_64);
            },
            Timer::Timer1 => {
                self.timer1.tccr_a = write_field(
                    self.timer1.tccr_a,
                    WGM_MASK,
                    WGM_LOW_OFFSET,
                    WGM_PWM_8BIT,
                );
                let waveform = write_field(
                    self.timer1.tccr_b,
                    WGM_MASK,
                    WGM_HIGH_OFFSET,
                    WGM_PWM_8BIT,
                );
                self.timer1.tccr_b = write_field(waveform, CS_MASK, CS_OFFSET, CS_IO_64);
            },
            Timer::Timer3 => {
                self.timer3.tccr_a = write_field(
                    self.timer3.tccr_a,
                    WGM_MASK,
                    WGM_LOW_OFFSET,
                    WGM_PWM_8BIT,
                );
                let waveform = write_field(
                    self.timer3.tccr_b,
                    WGM_MASK,
                    WGM_HIGH_OFFSET,
                    WGM_PWM_8BIT,
                );
                self.timer3.tccr_b = write_field(waveform, CS_MASK, CS_OFFSET, CS_IO_64);
            },
            Timer::Timer4 => {
                self.timer4.tccr_b = write_field(
                    self.timer4.tccr_b,
                    CS4_MASK,
                    CS_OFFSET,
                    CS4_CLK_64,
                );
                self.timer4.tccr_d = write_field(
                    self.timer4.tccr_d,
                    WGM_MASK,
                    WGM_LOW_OFFSET,
                    WGM_PWM_8BIT,
                );
            },
        }
    }

    /// Reads the register that holds the compare-output-mode field of
    /// `channel`.
    pub fn read_control(&self, channel: Channel) -> (value: u8)
        ensures
            value == self.control(channel),
    {
        match channel {
            Channel::Oc0A | Channel::Oc0B => self.timer0.tccr_a,
            Channel::Oc1A | Channel::Oc1B | Channel::Oc1C => self.timer1.tccr_a,
            Channel::Oc3A => self.timer3.tccr_a,
            Channel::Oc4A => self.timer4.tccr_a,
            Channel::Oc4D => self.timer4.tccr_c,
        }
    }

    /// Writes the register that holds the compare-output-mode field of
    /// `channel`.
    pub fn write_control(&mut self, channel: Channel, value: u8)
        ensures
            *final(self) == old(self).with_control(channel, value),
    {
        match channel {
            Channel::Oc0A | Channel::Oc0B => {
                self.timer0.tccr_a = value;
            },
            Channel::Oc1A | Channel::Oc1B | Channel::Oc1C => {
                self.timer1.tccr_a = value;
            },
            Channel::Oc3A => {
                self.timer3.tccr_a = value;
            },
            Channel::Oc4A => {
                self.timer4.tccr_a = value;
            },
            Channel::Oc4D => {
                self.timer4.tccr_c = value;
            },
        }
    }

    /// Routes `channel` to its pin.
    pub fn connect(&mut self, channel: Channel)
        ensures
            *final(self) == old(self).connected(channel),
    {
        let routed = write_field(
            self.read_control(channel),
            COM_MASK,
            channel.com_field_offset(),
            COM_MATCH_CLEAR,
        );
        let enabled = match channel.pwm_enable() {
            Some(bit) => set_bit(routed, bit),
            None => routed,
        };
        self.write_control(channel, enabled);
    }

    /// Takes `channel` off its pin.
    pub fn disconnect(&mut self, channel: Channel)
        ensures
            *final(self) == old(self).disconnected(channel),
    {
        let released = write_field(
            self.read_control(channel),
            COM_MASK,
            channel.com_field_offset(),
            COM_DISCONNECTED,
        );
        self.write_control(channel, released);
    }

    /// Reads the duty value of `channel` from its compare register.
    pub fn get_duty(&self, channel: Channel) -> (duty: u8)
        ensures
            duty == self.duty(channel),
    {
        match channel {
            Channel::Oc0A => self.timer0.ocr_a,
            Channel::Oc0B => self.timer0.ocr_b,
            Channel::Oc1A => self.timer1.ocr_a_l,
            Channel::Oc1B => self.timer1.ocr_b_l,
            Channel::Oc1C => self.timer1.ocr_c_l,
            Channel::Oc3A => self.timer3.ocr_a_l,
            Channel::Oc4A => self.timer4.ocr_a,
            Channel::Oc4D => self.timer4.ocr_d,
        }
    }

    /// Writes `duty` into the compare register of `channel`.
    pub fn set_duty(&mut self, channel: Channel, duty: u8)
        ensures
            *final(self) == old(self).with_duty(channel, duty),
    {
        match channel {
            Channel::Oc0A => {
                self.timer0.ocr_a = duty;
            },
            Channel::Oc0B => {
                self.timer0.ocr_b = duty;
            },
            Channel::Oc1A => {
                self.timer1.ocr_a_l = duty;
            },
            Channel::Oc1B => {
                self.timer1.ocr_b_l = duty;
            },
            Channel::Oc1C => {
                self.timer1.ocr_c_l = duty;
            },
            Channel::Oc3A => {
                self.timer3.ocr_a_l = duty;
            },
            Channel::Oc4A => {
                self.timer4.ocr_a = duty;
            },
            Channel::Oc4D => {
                self.timer4.ocr_d = duty;
            },
        }
    }
}

/// Offset of the compare-output-mode field of `channel` in its control
/// register.
pub open spec fn com_offset(channel: Channel) -> u8 {
    match channel {
        Channel::Oc0A | Channel::Oc1A | Channel::Oc3A | Channel::Oc4A => COM_A_OFFSET,
        Channel::Oc0B | Channel::Oc1B => COM_B_OFFSET,
        Channel::Oc1C => COM_C_OFFSET,
        Channel::Oc4D => COM_D_OFFSET,
    }
}

/// The bit of its control register that enables PWM on `channel`, on the one
/// timer that has such bits.
pub open spec fn pwm_enable_bit(channel: Channel) -> Option<u8> {
    match channel {
        Channel::Oc4A => Some(PWM4A_BIT),
        Channel::Oc4D => Some(PWM4D_BIT),
        _ => None,
    }
}

impl Channel {
    /// Offset of this channel's compare-output-mode field in its control
    /// register.
    pub fn com_field_offset(self) -> (offset: u8)
        ensures
            offset == com_offset(self),
            offset < 8,
    {
        match self {
            Channel::Oc0A | Channel::Oc1A | Channel::Oc3A | Channel::Oc4A => COM_A_OFFSET,
            Channel::Oc0B | Channel::Oc1B => COM_B_OFFSET,
            Channel::Oc1C => COM_C_OFFSET,
            Channel::Oc4D => COM_D_OFFSET,
        }
    }

    /// The bit of its control register that enables PWM on this channel, on
    /// the one timer that has such bits.
    pub fn pwm_enable(self) -> (bit: Option<u8>)
        ensures
            bit == pwm_enable_bit(self),
            bit matches Some(b) ==> b < 8,
    {
        match self {
            Channel::Oc4A => Some(PWM4A_BIT),
            Channel::Oc4D => Some(PWM4D_BIT),
            _ => None,
        }
    }
}

} // verus!
