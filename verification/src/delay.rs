//! Delay by a busy loop, calibrated for the clock that the device runs at.
//!
//! The loop itself burns four clock cycles per pass and nothing else; it is
//! two instructions of inline assembly. What this module holds is the
//! arithmetic around it: how many passes a delay takes at each clock speed,
//! once the cycles that the call itself costs are taken off.
//!
//! # Example
//! ```
//! use atmega32u4_hal::delay::{Delay, MHz16};
//!
//! let delay = Delay::<MHz16>::new();
//! // 100 us at 16 MHz: 1600 cycles, 20 of them spent on the way to the loop
//! assert_eq!(delay.passes_us(100), Some(395));
//! ```

use vstd::prelude::*;
use core::marker::PhantomData;

verus! {

/// Clock cycles that one pass of the busy loop takes.
pub const CYCLES_PER_PASS: u16 = 4;

/// The longest delay, in microseconds, that is waited for in one piece when
/// a delay is given as a 32-bit number.
pub const CHUNK_US: u16 = 0xfff;

/// Microseconds in a millisecond.
pub const US_PER_MS: u32 = 1000;

/// A delay source for a device clocked at `SPEED`
pub struct Delay<SPEED> {
    _speed: PhantomData<SPEED>,
}

/// 24 MHz, for the adventurous ones trying to overclock
pub struct MHz24;

/// 20 MHz
pub struct MHz20;

/// 16 MHz, the clock of most boards
pub struct MHz16;

/// 12 MHz
pub struct MHz12;

/// 8 MHz, the internal clock
pub struct MHz8;

/// 1 MHz, the internal clock as the device is shipped
pub struct MHz1;

/// `n` reduced to 16 bits, as arithmetic on the device reduces it.
pub open spec fn wrapped(n: int) -> u16 {
    (n % 0x1_0000) as u16
}

/// A clock speed that the busy loop is calibrated for.
pub trait Speed {
    /// Clock cycles per microsecond.
    spec fn cycles_per_us() -> nat;

    /// Clock cycles that are spent outside the loop: on the call, on the
    /// arithmetic and on the return.
    spec fn overhead_cycles() -> nat;

    /// The longest delay, in microseconds, that those cycles alone cover.
    spec fn shortest_us() -> u16;

    /// The longest delay, in microseconds, whose passes are counted without
    /// the 16-bit arithmetic wrapping around.
    spec fn longest_us() -> u16;

    /// Clock cycles, counted among those spent outside the loop, that are
    /// idled away before the delay is looked at, so that the shortest delay
    /// takes its time.
    spec fn idle_cycles() -> u8;

    /// Passes of the busy loop that a delay of `us` microseconds takes, or
    /// `None` where the loop is not entered at all.
    spec fn passes(us: u16) -> Option<u16>;

    /// Clock cycles to idle away before the delay is looked at.
    fn idle() -> (cycles: u8)
        ensures
            cycles == Self::idle_cycles(),
    ;

    /// Passes of the busy loop that a delay of `us` microseconds takes, or
    /// `None` where the loop is not entered at all.
    fn busy_passes(us: u16) -> (n: Option<u16>)
        ensures
            n == Self::passes(us),
    ;
}

impl Speed for MHz24 {
    open spec fn cycles_per_us() -> nat {
        24
    }

    open spec fn overhead_cycles() -> nat {
        20
    }

    open spec fn shortest_us() -> u16 {
        0
    }

    open spec fn longest_us() -> u16 {
        10922
    }

    open spec fn idle_cycles() -> u8 {
        0
    }

    open spec fn passes(us: u16) -> Option<u16> {
        if us == 0 {
            None
        } else {
            Some(wrapped(6 * us - 5))
        }
    }

    fn idle() -> (cycles: u8) {
        0
    }

    fn busy_passes(us: u16) -> (n: Option<u16>) {
        // zero delay fix
        if us == 0 {
            return None;
        }
        // the loop takes a 1/6 of a microsecond (4 cycles) per iteration, so
        // execute it six times for each microsecond of delay requested;
        // then account for the time taken on the way here
        Some(us.wrapping_mul(6).wrapping_sub(5))
    }
}

impl Speed for MHz20 {
    open spec fn cycles_per_us() -> nat {
        20
    }

    open spec fn overhead_cycles() -> nat {
        28
    }

    open spec fn shortest_us() -> u16 {
        1
    }

    open spec fn longest_us() -> u16 {
        13107
    }

    open spec fn idle_cycles() -> u8 {
        4
    }

    open spec fn passes(us: u16) -> Option<u16> {
        if us <= 1 {
            None
        } else {
            Some(wrapped(5 * us - 7))
        }
    }

    fn idle() -> (cycles: u8) {
        4
    }

    fn busy_passes(us: u16) -> (n: Option<u16>) {
        // for a one-microsecond delay, simply return: the overhead of the
        // call takes that long
        if us <= 1 {
            return None;
        }
        // the loop takes a 1/5 of a microsecond (4 cycles) per iteration
        Some(us.wrapping_mul(5).wrapping_sub(7))
    }
}

impl Speed for MHz16 {
    open spec fn cycles_per_us() -> nat {
        16
    }

    open spec fn overhead_cycles() -> nat {
        20
    }

    open spec fn shortest_us() -> u16 {
        1
    }

    open spec fn longest_us() -> u16 {
        16383
    }

    open spec fn idle_cycles() -> u8 {
        0
    }

    open spec fn passes(us: u16) -> Option<u16> {
        if us <= 1 {
            None
        } else {
            Some(wrapped(4 * us - 5))
        }
    }

    fn idle() -> (cycles: u8) {
        0
    }

    fn busy_passes(us: u16) -> (n: Option<u16>) {
        // for a one-microsecond delay, simply return: the overhead of the
        // call takes that long
        if us <= 1 {
            return None;
        }
        // the loop takes 1/4 of a microsecond (4 cycles) per iteration
        Some(us.wrapping_mul(4).wrapping_sub(5))
    }
}

impl Speed for MHz12 {
    open spec fn cycles_per_us() -> nat {
        12
    }

    open spec fn overhead_cycles() -> nat {
        20
    }

    open spec fn shortest_us() -> u16 {
        1
    }

    open spec fn longest_us() -> u16 {
        21845
    }

    open spec fn idle_cycles() -> u8 {
        0
    }

    open spec fn passes(us: u16) -> Option<u16> {
        if us <= 1 {
            None
        } else {
            Some(wrapped(3 * us - 5))
        }
    }

    fn idle() -> (cycles: u8) {
        0
    }

    fn busy_passes(us: u16) -> (n: Option<u16>) {
        // for a one-microsecond delay, simply return: the overhead of the
        // call takes one and a half
        if us <= 1 {
            return None;
        }
        // the loop takes 1/3 of a microsecond (4 cycles) per iteration
        Some(us.wrapping_mul(3).wrapping_sub(5))
    }
}

impl Speed for MHz8 {
    open spec fn cycles_per_us() -> nat {
        8
    }

    open spec fn overhead_cycles() -> nat {
        16
    }

    open spec fn shortest_us() -> u16 {
        2
    }

    open spec fn longest_us() -> u16 {
        32767
    }

    open spec fn idle_cycles() -> u8 {
        0
    }

    open spec fn passes(us: u16) -> Option<u16> {
        if us <= 2 {
            None
        } else {
            Some(wrapped(2 * us - 4))
        }
    }

    fn idle() -> (cycles: u8) {
        0
    }

    fn busy_passes(us: u16) -> (n: Option<u16>) {
        // for a one- or two-microsecond delay, simply return: the overhead
        // of the call takes two
        if us <= 2 {
            return None;
        }
        // the loop takes 1/2 of a microsecond (4 cycles) per iteration
        Some(us.wrapping_mul(2).wrapping_sub(4))
    }
}

impl Speed for MHz1 {
    open spec fn cycles_per_us() -> nat {
        1
    }

    open spec fn overhead_cycles() -> nat {
        22
    }

    open spec fn shortest_us() -> u16 {
        25
    }

    open spec fn longest_us() -> u16 {
        0xffff
    }

    open spec fn idle_cycles() -> u8 {
        0
    }

    open spec fn passes(us: u16) -> Option<u16> {
        if us <= 25 {
            None
        } else {
            Some(((us - 22) / 4) as u16)
        }
    }

    fn idle() -> (cycles: u8) {
        0
    }

    fn busy_passes(us: u16) -> (n: Option<u16>) {
        // the overhead of the call is 14 (16) cycles, and the delay must be
        // longer than the 22 cycles that are taken off below
        if us <= 16 {
            return None;
        }
        if us <= 25 {
            return None;
        }
        // the loop takes 4 microseconds (4 cycles) per iteration
        Some((us - 22) / 4)
    }
}

impl<SPEED> Delay<SPEED> {
    /// A delay source.
    pub fn new() -> (delay: Delay<SPEED>) {
        Delay { _speed: PhantomData }
    }

    /// Cuts a delay of `us` microseconds, given as a 32-bit number, into
    /// pieces that the 16-bit delay can wait for: so many pieces of
    /// [`CHUNK_US`] microseconds, and one shorter piece for what is left.
    /// The pieces add up to the delay.
    pub fn pieces_us(&self, us: u32) -> (pieces: (u32, u16))
        ensures
            pieces.0 * CHUNK_US + pieces.1 == us,
            pieces.1 < CHUNK_US,
    {
        let chunk = CHUNK_US as u32;
        let whole = us / chunk;
        let rest = us % chunk;
        (whole, rest as u16)
    }

    /// A delay of `ms` milliseconds in microseconds.
    pub fn ms_to_us(&self, ms: u16) -> (us: u32)
        ensures
            us == ms * US_PER_MS,
    {
        ms as u32 * US_PER_MS
    }
}

impl<SPEED: Speed> Delay<SPEED> {
    /// Passes of the busy loop that a delay of `us` microseconds takes at
    /// this clock speed, or `None` where the call itself takes that long.
    pub fn passes_us(&self, us: u16) -> (n: Option<u16>)
        ensures
            n == SPEED::passes(us),
    {
        SPEED::busy_passes(us)
    }

    /// Passes of the busy loop that a delay of `us` microseconds, given as
    /// an 8-bit number, takes at this clock speed.
    pub fn passes_us8(&self, us: u8) -> (n: Option<u16>)
        ensures
            n == SPEED::passes(us as u16),
    {
        SPEED::busy_passes(us as u16)
    }
}

/// The passes fill the delay: between the shortest delay that enters the
/// loop and the longest whose count fits in 16 bits, the cycles of the
/// passes and the cycles spent outside the loop add up to the cycles that
/// the delay lasts at the clock speed. At 1 MHz, where one pass takes four
/// microseconds, they fall short of that by less than one pass.
pub proof fn lemma_passes_fill_delay(us: u16)
    ensures
        filled::<MHz24>(us),
        filled::<MHz20>(us),
        filled::<MHz16>(us),
        filled::<MHz12>(us),
        filled::<MHz8>(us),
        MHz1::shortest_us() < us ==> MHz1::passes(us) is Some && us - CYCLES_PER_PASS
            < MHz1::passes(us)->0 * CYCLES_PER_PASS + MHz1::overhead_cycles() <= us,
{
}

/// The pieces of a 32-bit delay stay clear of the wrap-around: at every
/// clock speed a piece of [`CHUNK_US`] microseconds, and so every shorter
/// one, is counted without the 16-bit arithmetic wrapping.
pub proof fn lemma_pieces_do_not_wrap()
    ensures
        CHUNK_US <= MHz24::longest_us(),
        CHUNK_US <= MHz20::longest_us(),
        CHUNK_US <= MHz16::longest_us(),
        CHUNK_US <= MHz12::longest_us(),
        CHUNK_US <= MHz8::longest_us(),
        CHUNK_US <= MHz1::longest_us(),
{
}

/// Whether, for a delay of `us` microseconds in the range that the speed
/// counts without wrapping, the passes and the overhead add up to the delay.
pub open spec fn filled<SPEED: Speed>(us: u16) -> bool {
    SPEED::shortest_us() < us <= SPEED::longest_us() ==> SPEED::passes(us) is Some
        && SPEED::passes(us)->0 * CYCLES_PER_PASS + SPEED::overhead_cycles() == us
        * SPEED::cycles_per_us()
}

} // verus!
