use atmega32u4_hal::delay::{
    Delay, MHz1, MHz12, MHz16, MHz20, MHz24, MHz8, Speed, CHUNK_US, CYCLES_PER_PASS, US_PER_MS,
};

#[test]
fn at_24_mhz_six_passes_per_microsecond_less_five() {
    let d = Delay::<MHz24>::new();
    assert_eq!(d.passes_us(0), None);
    assert_eq!(d.passes_us(1), Some(1));
    assert_eq!(d.passes_us(2), Some(7));
    assert_eq!(d.passes_us(100), Some(595));
    assert_eq!(d.passes_us(4095), Some(24565));
    assert_eq!(d.passes_us(10922), Some(65527));
}

#[test]
fn at_20_mhz_five_passes_per_microsecond_less_seven() {
    let d = Delay::<MHz20>::new();
    assert_eq!(d.passes_us(0), None);
    assert_eq!(d.passes_us(1), None);
    assert_eq!(d.passes_us(2), Some(3));
    assert_eq!(d.passes_us(100), Some(493));
    assert_eq!(d.passes_us(4095), Some(20468));
    assert_eq!(d.passes_us(13107), Some(65528));
}

#[test]
fn at_16_mhz_four_passes_per_microsecond_less_five() {
    let d = Delay::<MHz16>::new();
    assert_eq!(d.passes_us(0), None);
    assert_eq!(d.passes_us(1), None);
    assert_eq!(d.passes_us(2), Some(3));
    assert_eq!(d.passes_us(100), Some(395));
    assert_eq!(d.passes_us(4095), Some(16375));
    assert_eq!(d.passes_us(16383), Some(65527));
}

#[test]
fn at_12_mhz_three_passes_per_microsecond_less_five() {
    let d = Delay::<MHz12>::new();
    assert_eq!(d.passes_us(1), None);
    assert_eq!(d.passes_us(2), Some(1));
    assert_eq!(d.passes_us(100), Some(295));
    assert_eq!(d.passes_us(4095), Some(12280));
    assert_eq!(d.passes_us(21845), Some(65530));
}

#[test]
fn at_8_mhz_two_passes_per_microsecond_less_four() {
    let d = Delay::<MHz8>::new();
    assert_eq!(d.passes_us(1), None);
    assert_eq!(d.passes_us(2), None);
    assert_eq!(d.passes_us(3), Some(2));
    assert_eq!(d.passes_us(100), Some(196));
    assert_eq!(d.passes_us(4095), Some(8186));
    assert_eq!(d.passes_us(32767), Some(65530));
}

#[test]
fn at_1_mhz_one_pass_per_four_microseconds() {
    let d = Delay::<MHz1>::new();
    assert_eq!(d.passes_us(0), None);
    assert_eq!(d.passes_us(16), None);
    assert_eq!(d.passes_us(17), None);
    assert_eq!(d.passes_us(25), None);
    assert_eq!(d.passes_us(26), Some(1));
    assert_eq!(d.passes_us(29), Some(1));
    assert_eq!(d.passes_us(30), Some(2));
    assert_eq!(d.passes_us(100), Some(19));
    assert_eq!(d.passes_us(4095), Some(1018));
    assert_eq!(d.passes_us(65535), Some(16378));
}

#[test]
fn long_delays_wrap_as_sixteen_bit_arithmetic_does() {
    // 6 * 10923 = 65538, which no longer fits: 65538 - 65536 - 5 wraps below zero
    assert_eq!(Delay::<MHz24>::new().passes_us(10923), Some(65533));
    assert_eq!(Delay::<MHz24>::new().passes_us(10924), Some(3));
    assert_eq!(Delay::<MHz24>::new().passes_us(65535), Some(65525));
    assert_eq!(Delay::<MHz20>::new().passes_us(13108), Some(65533));
    assert_eq!(Delay::<MHz20>::new().passes_us(39323), Some(0));
    assert_eq!(Delay::<MHz16>::new().passes_us(16384), Some(65531));
    assert_eq!(Delay::<MHz16>::new().passes_us(16385), Some(65535));
    assert_eq!(Delay::<MHz12>::new().passes_us(21846), Some(65533));
    assert_eq!(Delay::<MHz8>::new().passes_us(32768), Some(65532));
    assert_eq!(Delay::<MHz8>::new().passes_us(32770), Some(0));
}

#[test]
fn passes_and_overhead_fill_the_delay() {
    fn cycles(passes: Option<u16>, overhead: u32) -> u32 {
        u32::from(passes.unwrap()) * u32::from(CYCLES_PER_PASS) + overhead
    }
    for us in [3u16, 10, 100, 1000, 4095, 10922] {
        let t = u32::from(us);
        assert_eq!(cycles(MHz24::busy_passes(us), 20), 24 * t);
        assert_eq!(cycles(MHz20::busy_passes(us), 28), 20 * t);
        assert_eq!(cycles(MHz16::busy_passes(us), 20), 16 * t);
        assert_eq!(cycles(MHz12::busy_passes(us), 20), 12 * t);
        assert_eq!(cycles(MHz8::busy_passes(us), 16), 8 * t);
    }
    for us in [26u16, 27, 28, 29, 30, 100, 4095, 65535] {
        let filled = cycles(MHz1::busy_passes(us), 22);
        assert!(filled <= u32::from(us));
        assert!(filled + 4 > u32::from(us));
    }
}

#[test]
fn eight_bit_delays_count_as_sixteen_bit_ones() {
    let d = Delay::<MHz16>::new();
    assert_eq!(d.passes_us8(0), None);
    assert_eq!(d.passes_us8(1), None);
    assert_eq!(d.passes_us8(2), Some(3));
    assert_eq!(d.passes_us8(255), Some(1015));
    assert_eq!(d.passes_us8(255), d.passes_us(255));
    assert_eq!(Delay::<MHz1>::new().passes_us8(255), Some(58));
    assert_eq!(Delay::<MHz24>::new().passes_us8(255), Some(1525));
}

#[test]
fn thirty_two_bit_delays_are_cut_into_pieces_that_add_up() {
    let d = Delay::<MHz16>::new();
    assert_eq!(CHUNK_US, 4095);
    assert_eq!(d.pieces_us(0), (0, 0));
    assert_eq!(d.pieces_us(1), (0, 1));
    assert_eq!(d.pieces_us(4000), (0, 4000));
    assert_eq!(d.pieces_us(4094), (0, 4094));
    assert_eq!(d.pieces_us(4095), (1, 0));
    assert_eq!(d.pieces_us(4096), (1, 1));
    assert_eq!(d.pieces_us(8191), (2, 1));
    assert_eq!(d.pieces_us(1_000_000), (244, 820));
    assert_eq!(d.pieces_us(u32::MAX), (1_048_832, 255));
    for us in [0u32, 1, 17, 4094, 4095, 4096, 8191, 65_535_000, u32::MAX] {
        let (chunks, rest) = d.pieces_us(us);
        assert_eq!(u64::from(chunks) * 4095 + u64::from(rest), u64::from(us));
        assert!(rest < 4095);
    }
}

#[test]
fn milliseconds_are_a_thousand_microseconds() {
    let d = Delay::<MHz8>::new();
    assert_eq!(US_PER_MS, 1000);
    assert_eq!(d.ms_to_us(0), 0);
    assert_eq!(d.ms_to_us(1), 1000);
    assert_eq!(d.ms_to_us(250), 250_000);
    assert_eq!(d.ms_to_us(65535), 65_535_000);
    // four milliseconds: one piece of 4000 us
    assert_eq!(d.pieces_us(d.ms_to_us(4)), (0, 4000));
    // a second: 244 pieces of 4095 us and one of 820 us
    assert_eq!(d.pieces_us(d.ms_to_us(1000)), (244, 820));
}

#[test]
fn only_the_20_mhz_delay_idles_before_it_looks() {
    assert_eq!(MHz24::idle(), 0);
    assert_eq!(MHz20::idle(), 4);
    assert_eq!(MHz16::idle(), 0);
    assert_eq!(MHz12::idle(), 0);
    assert_eq!(MHz8::idle(), 0);
    assert_eq!(MHz1::idle(), 0);
}

#[test]
fn every_piece_is_counted_without_wrapping() {
    fn micros(passes: Option<u16>, overhead: u32, mhz: u32) -> u32 {
        (u32::from(passes.unwrap()) * u32::from(CYCLES_PER_PASS) + overhead) / mhz
    }
    assert_eq!(micros(MHz24::busy_passes(CHUNK_US), 20, 24), 4095);
    assert_eq!(micros(MHz20::busy_passes(CHUNK_US), 28, 20), 4095);
    assert_eq!(micros(MHz16::busy_passes(CHUNK_US), 20, 16), 4095);
    assert_eq!(micros(MHz12::busy_passes(CHUNK_US), 20, 12), 4095);
    assert_eq!(micros(MHz8::busy_passes(CHUNK_US), 16, 8), 4095);
}
