//! What the register operations guarantee: each one changes the bits it is
//! meant to change and nothing else.

use vstd::prelude::*;
use crate::bits::{
    field_bits, field_fits, field_value, has_bit, lemma_bit_already_there, lemma_bit_keeps_field,
    lemma_field_keeps_other_fields, lemma_field_overwritten, lemma_field_reads_back,
    lemma_last_bit_write_wins, lemma_with_bit, lemma_with_bit_flipped,
    lemma_with_bit_flipped_twice, lemma_without_bit, lemma_zero_has_no_bit, with_field,
};
use crate::chip::{Channel, PinId, Port, Timer};
use crate::registers::{
    com_offset, pwm_enable_bit, PinBits, Registers, COM_A_OFFSET, COM_B_OFFSET, COM_C_OFFSET,
    COM_D_OFFSET, COM_DISCONNECTED, COM_MASK, COM_MATCH_CLEAR, CS4_CLK_64, CS4_MASK, CS_IO_64,
    CS_MASK, CS_OFFSET, MAX_DUTY, PWM4A_BIT, PWM4D_BIT, WGM_FAST_PWM, WGM_HIGH_OFFSET,
    WGM_LOW_OFFSET, WGM_MASK, WGM_PWM_8BIT,
};

verus! {

/// After reset every pin is a floating input that reads low: none of its
/// three bits is set.
pub proof fn lemma_reset_pins_float(pin: PinId)
    requires
        pin.index < 8,
    ensures
        Registers::reset_state().bits_of(pin) == (PinBits { ddr: false, port: false, pin: false }),
{
    lemma_zero_has_no_bit(pin.index);
}

/// What each pin operation does to the bits of the pin it is applied to.
pub proof fn lemma_pin_operations(regs: Registers, pin: PinId)
    requires
        pin.index < 8,
    ensures
        regs.as_floating_input(pin).bits_of(pin) == (PinBits {
            ddr: false,
            port: false,
            pin: regs.bits_of(pin).pin,
        }),
        regs.as_pull_up_input(pin).bits_of(pin) == (PinBits {
            ddr: false,
            port: true,
            pin: regs.bits_of(pin).pin,
        }),
        regs.as_output(pin).bits_of(pin) == (PinBits { ddr: true, ..regs.bits_of(pin) }),
        regs.driven_high(pin).bits_of(pin) == (PinBits { port: true, ..regs.bits_of(pin) }),
        regs.driven_low(pin).bits_of(pin) == (PinBits { port: false, ..regs.bits_of(pin) }),
        regs.toggled(pin).bits_of(pin) == (PinBits {
            port: !regs.bits_of(pin).port,
            ..regs.bits_of(pin)
        }),
{
    let bank = regs.bank(pin.port);
    lemma_with_bit(bank.ddr, pin.index, pin.index);
    lemma_with_bit(bank.port, pin.index, pin.index);
    lemma_without_bit(bank.ddr, pin.index, pin.index);
    lemma_without_bit(bank.port, pin.index, pin.index);
    lemma_with_bit_flipped(bank.port, pin.index, pin.index);
}

/// No pin operation reaches past its pin: the bits of every other pin, on
/// the same port or on another, and the registers of every timer stay as
/// they were.
pub proof fn lemma_pin_operations_are_local(regs: Registers, pin: PinId, other: PinId)
    requires
        pin.index < 8,
        other.index < 8,
        other != pin,
    ensures
        regs.as_floating_input(pin).bits_of(other) == regs.bits_of(other),
        regs.as_pull_up_input(pin).bits_of(other) == regs.bits_of(other),
        regs.as_output(pin).bits_of(other) == regs.bits_of(other),
        regs.driven_high(pin).bits_of(other) == regs.bits_of(other),
        regs.driven_low(pin).bits_of(other) == regs.bits_of(other),
        regs.toggled(pin).bits_of(other) == regs.bits_of(other),
        regs.as_floating_input(pin).same_timers(regs),
        regs.as_pull_up_input(pin).same_timers(regs),
        regs.as_output(pin).same_timers(regs),
        regs.driven_high(pin).same_timers(regs),
        regs.driven_low(pin).same_timers(regs),
        regs.toggled(pin).same_timers(regs),
{
    if other.port == pin.port {
        let bank = regs.bank(pin.port);
        lemma_with_bit(bank.ddr, pin.index, other.index);
        lemma_with_bit(bank.port, pin.index, other.index);
        lemma_without_bit(bank.ddr, pin.index, other.index);
        lemma_without_bit(bank.port, pin.index, other.index);
        lemma_with_bit_flipped(bank.port, pin.index, other.index);
    }
}

/// The commanded level reads back: after driving a pin high its data bit is
/// set, after driving it low the bit is clear, and toggling inverts it. The
/// input register plays no part in this.
pub proof fn lemma_commanded_level_reads_back(regs: Registers, pin: PinId)
    requires
        pin.index < 8,
    ensures
        regs.driven_high(pin).drives_high(pin),
        !regs.driven_low(pin).drives_high(pin),
        regs.toggled(pin).drives_high(pin) == !regs.drives_high(pin),
        regs.toggled(pin).toggled(pin) == regs,
{
    lemma_pin_operations(regs, pin);
    lemma_with_bit_flipped_twice(regs.bank(pin.port).port, pin.index);
}

/// Going back to a floating input leaves no pull-up behind. Whatever the pin
/// was before (an output driven high, an input with pull-up), making it a
/// floating input clears its direction bit and its data bit; and a pin that
/// came out of reset, was made an output, driven high and made a floating
/// input again leaves the registers exactly as they were at the start.
pub proof fn lemma_floating_input_round_trip(regs: Registers, pin: PinId)
    requires
        pin.index < 8,
    ensures
        regs.as_output(pin).as_floating_input(pin) == regs.as_floating_input(pin),
        regs.as_output(pin).driven_high(pin).as_floating_input(pin) == regs.as_floating_input(pin),
        regs.as_pull_up_input(pin).as_floating_input(pin) == regs.as_floating_input(pin),
        !regs.as_floating_input(pin).bits_of(pin).ddr,
        !regs.as_floating_input(pin).bits_of(pin).port,
        regs.as_floating_input(pin).reads_high(pin) == regs.reads_high(pin),
        !regs.bits_of(pin).ddr && !regs.bits_of(pin).port ==> regs.as_floating_input(pin) == regs,
{
    let bank = regs.bank(pin.port);
    lemma_pin_operations(regs, pin);
    lemma_last_bit_write_wins(bank.ddr, pin.index);
    lemma_last_bit_write_wins(bank.port, pin.index);
    lemma_bit_already_there(bank.ddr, pin.index);
    lemma_bit_already_there(bank.port, pin.index);
}

/// The fields of the timers' control registers lie inside their bytes, the
/// values written to them fit, and fields that share a register share no
/// bit.
pub proof fn lemma_field_layout()
    by (bit_vector)
    ensures
        field_fits(WGM_MASK, WGM_LOW_OFFSET),
        field_fits(WGM_MASK, WGM_HIGH_OFFSET),
        field_fits(CS_MASK, CS_OFFSET),
        field_fits(CS4_MASK, CS_OFFSET),
        field_fits(COM_MASK, COM_A_OFFSET),
        field_fits(COM_MASK, COM_B_OFFSET),
        field_fits(COM_MASK, COM_C_OFFSET),
        field_fits(COM_MASK, COM_D_OFFSET),
        WGM_FAST_PWM & WGM_MASK == WGM_FAST_PWM,
        WGM_PWM_8BIT & WGM_MASK == WGM_PWM_8BIT,
        CS_IO_64 & CS_MASK == CS_IO_64,
        CS4_CLK_64 & CS4_MASK == CS4_CLK_64,
        COM_MATCH_CLEAR & COM_MASK == COM_MATCH_CLEAR,
        COM_DISCONNECTED & COM_MASK == COM_DISCONNECTED,
        field_bits(COM_MASK, COM_A_OFFSET) & field_bits(COM_MASK, COM_B_OFFSET) == 0,
        field_bits(COM_MASK, COM_B_OFFSET) & field_bits(COM_MASK, COM_A_OFFSET) == 0,
        field_bits(COM_MASK, COM_A_OFFSET) & field_bits(COM_MASK, COM_C_OFFSET) == 0,
        field_bits(COM_MASK, COM_C_OFFSET) & field_bits(COM_MASK, COM_A_OFFSET) == 0,
        field_bits(COM_MASK, COM_B_OFFSET) & field_bits(COM_MASK, COM_C_OFFSET) == 0,
        field_bits(COM_MASK, COM_C_OFFSET) & field_bits(COM_MASK, COM_B_OFFSET) == 0,
        field_bits(COM_MASK, COM_A_OFFSET) & field_bits(WGM_MASK, WGM_LOW_OFFSET) == 0,
        field_bits(WGM_MASK, WGM_LOW_OFFSET) & field_bits(COM_MASK, COM_A_OFFSET) == 0,
        field_bits(COM_MASK, COM_B_OFFSET) & field_bits(WGM_MASK, WGM_LOW_OFFSET) == 0,
        field_bits(WGM_MASK, WGM_LOW_OFFSET) & field_bits(COM_MASK, COM_B_OFFSET) == 0,
        field_bits(COM_MASK, COM_C_OFFSET) & field_bits(WGM_MASK, WGM_LOW_OFFSET) == 0,
        field_bits(WGM_MASK, WGM_LOW_OFFSET) & field_bits(COM_MASK, COM_C_OFFSET) == 0,
        field_bits(WGM_MASK, WGM_HIGH_OFFSET) & field_bits(CS_MASK, CS_OFFSET) == 0,
        field_bits(CS_MASK, CS_OFFSET) & field_bits(WGM_MASK, WGM_HIGH_OFFSET) == 0,
        !has_bit(field_bits(COM_MASK, COM_A_OFFSET), PWM4A_BIT),
        !has_bit(field_bits(COM_MASK, COM_D_OFFSET), PWM4D_BIT),
{
}

/// Setting a timer up for PWM leaves it set up for PWM.
pub proof fn lemma_pwm_setup(regs: Registers, timer: Timer)
    ensures
        regs.pwm_ready(timer).is_pwm_ready(timer),
{
    lemma_field_layout();
    match timer {
        Timer::Timer0 => {
            lemma_field_reads_back(regs.timer0.tccr_a, WGM_MASK, WGM_LOW_OFFSET, WGM_FAST_PWM);
            lemma_field_reads_back(regs.timer0.tccr_b, CS_MASK, CS_OFFSET, CS_IO_64);
        },
        Timer::Timer1 => {
            lemma_pwm_setup_of_wide_timer(regs.timer1.tccr_a, regs.timer1.tccr_b);
        },
        Timer::Timer3 => {
            lemma_pwm_setup_of_wide_timer(regs.timer3.tccr_a, regs.timer3.tccr_b);
        },
        Timer::Timer4 => {
            lemma_field_reads_back(regs.timer4.tccr_b, CS4_MASK, CS_OFFSET, CS4_CLK_64);
            lemma_field_reads_back(regs.timer4.tccr_d, WGM_MASK, WGM_LOW_OFFSET, WGM_PWM_8BIT);
        },
    }
}

/// On timers 1 and 3 the second control register takes two fields in turn;
/// the second write keeps what the first one wrote.
proof fn lemma_pwm_setup_of_wide_timer(tccr_a: u8, tccr_b: u8)
    ensures
        field_value(
            with_field(tccr_a, WGM_MASK, WGM_LOW_OFFSET, WGM_PWM_8BIT),
            WGM_MASK,
            WGM_LOW_OFFSET,
        ) == WGM_PWM_8BIT,
        field_value(
            with_field(
                with_field(tccr_b, WGM_MASK, WGM_HIGH_OFFSET, WGM_PWM_8BIT),
                CS_MASK,
                CS_OFFSET,
                CS_IO_64,
            ),
            WGM_MASK,
            WGM_HIGH_OFFSET,
        ) == WGM_PWM_8BIT,
        field_value(
            with_field(
                with_field(tccr_b, WGM_MASK, WGM_HIGH_OFFSET, WGM_PWM_8BIT),
                CS_MASK,
                CS_OFFSET,
                CS_IO_64,
            ),
            CS_MASK,
            CS_OFFSET,
        ) == CS_IO_64,
{
    lemma_field_layout();
    let waveform = with_field(tccr_b, WGM_MASK, WGM_HIGH_OFFSET, WGM_PWM_8BIT);
    lemma_field_reads_back(tccr_a, WGM_MASK, WGM_LOW_OFFSET, WGM_PWM_8BIT);
    lemma_field_reads_back(tccr_b, WGM_MASK, WGM_HIGH_OFFSET, WGM_PWM_8BIT);
    lemma_field_reads_back(waveform, CS_MASK, CS_OFFSET, CS_IO_64);
    lemma_field_keeps_other_fields(
        waveform,
        CS_MASK,
        CS_OFFSET,
        CS_IO_64,
        WGM_MASK,
        WGM_HIGH_OFFSET,
    );
}

/// Timers are independent of each other and of the ports: setting one timer
/// up for PWM changes no register of a port and no register of another
/// timer. Within its own timer it changes no compare register and takes no
/// channel on or off its pin.
pub proof fn lemma_pwm_setup_is_local(
    regs: Registers,
    timer: Timer,
    other: Timer,
    channel: Channel,
)
    ensures
        regs.pwm_ready(timer).same_ports(regs),
        other != timer ==> regs.pwm_ready(timer).timer_registers(other) == regs.timer_registers(
            other,
        ),
        other != timer ==> regs.pwm_ready(timer).is_pwm_ready(other) == regs.is_pwm_ready(other),
        regs.pwm_ready(timer).duty(channel) == regs.duty(channel),
        regs.pwm_ready(timer).is_connected(channel) == regs.is_connected(channel),
{
    lemma_field_layout();
    let after = regs.pwm_ready(timer);
    assert forall|port: Port| #[trigger] after.bank(port) == regs.bank(port) by {}
    if channel.timer() == timer {
        match timer {
            Timer::Timer0 => {
                lemma_field_keeps_other_fields(
                    regs.timer0.tccr_a,
                    WGM_MASK,
                    WGM_LOW_OFFSET,
                    WGM_FAST_PWM,
                    COM_MASK,
                    com_offset(channel),
                );
            },
            Timer::Timer1 => {
                lemma_field_keeps_other_fields(
                    regs.timer1.tccr_a,
                    WGM_MASK,
                    WGM_LOW_OFFSET,
                    WGM_PWM_8BIT,
                    COM_MASK,
                    com_offset(channel),
                );
            },
            Timer::Timer3 => {
                lemma_field_keeps_other_fields(
                    regs.timer3.tccr_a,
                    WGM_MASK,
                    WGM_LOW_OFFSET,
                    WGM_PWM_8BIT,
                    COM_MASK,
                    com_offset(channel),
                );
            },
            Timer::Timer4 => {},
        }
    }
}

/// A channel that was routed to its pin is routed to it, and one that was
/// taken off is not.
pub proof fn lemma_connect(regs: Registers, channel: Channel)
    ensures
        regs.connected(channel).is_connected(channel),
        !regs.disconnected(channel).is_connected(channel),
        regs.disconnected(channel).connected(channel) == regs.connected(channel),
{
    lemma_field_layout();
    let control = regs.control(channel);
    let offset = com_offset(channel);
    let routed = with_field(control, COM_MASK, offset, COM_MATCH_CLEAR);
    let released = with_field(control, COM_MASK, offset, COM_DISCONNECTED);
    lemma_field_reads_back(control, COM_MASK, offset, COM_MATCH_CLEAR);
    lemma_field_reads_back(control, COM_MASK, offset, COM_DISCONNECTED);
    lemma_field_overwritten(control, COM_MASK, offset, COM_DISCONNECTED, COM_MATCH_CLEAR);
    match pwm_enable_bit(channel) {
        Some(bit) => {
            lemma_with_bit(routed, bit, bit);
            lemma_bit_keeps_field(routed, bit, COM_MASK, offset);
        },
        None => {},
    }
}

/// Routing a channel to its pin, or taking it off, is all that the
/// operation does: no port register changes, every timer stays set up as it
/// was (the timer's own setup is not run again, nor undone), every compare
/// register keeps its value, every other channel stays on or off its pin,
/// and no register of another timer changes.
pub proof fn lemma_connect_is_local(
    regs: Registers,
    channel: Channel,
    timer: Timer,
    other: Channel,
)
    ensures
        regs.connected(channel).same_ports(regs),
        regs.disconnected(channel).same_ports(regs),
        regs.connected(channel).is_pwm_ready(timer) == regs.is_pwm_ready(timer),
        regs.disconnected(channel).is_pwm_ready(timer) == regs.is_pwm_ready(timer),
        regs.connected(channel).duty(other) == regs.duty(other),
        regs.disconnected(channel).duty(other) == regs.duty(other),
        other != channel ==> regs.connected(channel).is_connected(other) == regs.is_connected(
            other,
        ),
        other != channel ==> regs.disconnected(channel).is_connected(other) == regs.is_connected(
            other,
        ),
        timer != channel.timer() ==> regs.connected(channel).timer_registers(timer)
            == regs.timer_registers(timer),
        timer != channel.timer() ==> regs.disconnected(channel).timer_registers(timer)
            == regs.timer_registers(timer),
{
    lemma_field_layout();
    let control = regs.control(channel);
    let offset = com_offset(channel);
    let routed = with_field(control, COM_MASK, offset, COM_MATCH_CLEAR);
    assert forall|port: Port| #[trigger]
        regs.connected(channel).bank(port) == regs.bank(port) by {}
    assert forall|port: Port| #[trigger]
        regs.disconnected(channel).bank(port) == regs.bank(port) by {}
    if channel.timer() != Timer::Timer4 {
        lemma_field_keeps_other_fields(
            control,
            COM_MASK,
            offset,
            COM_MATCH_CLEAR,
            WGM_MASK,
            WGM_LOW_OFFSET,
        );
        lemma_field_keeps_other_fields(
            control,
            COM_MASK,
            offset,
            COM_DISCONNECTED,
            WGM_MASK,
            WGM_LOW_OFFSET,
        );
        if other != channel && other.timer() == channel.timer() {
            lemma_field_keeps_other_fields(
                control,
                COM_MASK,
                offset,
                COM_MATCH_CLEAR,
                COM_MASK,
                com_offset(other),
            );
            lemma_field_keeps_other_fields(
                control,
                COM_MASK,
                offset,
                COM_DISCONNECTED,
                COM_MASK,
                com_offset(other),
            );
        }
    }
}

/// The duty value reads back: a compare register holds what was last
/// written to it.
pub proof fn lemma_duty_reads_back(regs: Registers, channel: Channel, duty: u8)
    ensures
        regs.with_duty(channel, duty).duty(channel) == duty,
{
}

/// Writing the duty of one channel is all that the operation does: every
/// other channel keeps its duty, every channel stays on or off its pin,
/// every timer stays set up as it was, and no port register changes.
pub proof fn lemma_duty_is_local(
    regs: Registers,
    channel: Channel,
    duty: u8,
    other: Channel,
    timer: Timer,
)
    ensures
        other != channel ==> regs.with_duty(channel, duty).duty(other) == regs.duty(other),
        regs.with_duty(channel, duty).is_connected(other) == regs.is_connected(other),
        regs.with_duty(channel, duty).is_pwm_ready(timer) == regs.is_pwm_ready(timer),
        regs.with_duty(channel, duty).same_ports(regs),
{
    assert forall|port: Port| #[trigger]
        regs.with_duty(channel, duty).bank(port) == regs.bank(port) by {}
}

/// The share of each period for which a channel drives its pin high, as the
/// numerator of a fraction over [`MAX_DUTY`].
pub open spec fn high_share(regs: Registers, channel: Channel) -> nat {
    regs.duty(channel) as nat
}

/// The duty proportion follows the duty value: zero gives the least share
/// that any value gives, [`MAX_DUTY`] the greatest, and a larger value never
/// gives a smaller share.
pub proof fn lemma_duty_is_monotonic(regs: Registers, channel: Channel, lower: u8, higher: u8)
    requires
        lower <= higher,
    ensures
        high_share(regs.with_duty(channel, lower), channel) <= high_share(
            regs.with_duty(channel, higher),
            channel,
        ),
        high_share(regs.with_duty(channel, 0), channel) == 0,
        high_share(regs.with_duty(channel, MAX_DUTY), channel) == MAX_DUTY,
        high_share(regs.with_duty(channel, 0), channel) <= high_share(
            regs.with_duty(channel, lower),
            channel,
        ),
        high_share(regs.with_duty(channel, higher), channel) <= high_share(
            regs.with_duty(channel, MAX_DUTY),
            channel,
        ),
{
}

} // verus!
