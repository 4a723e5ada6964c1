use atmega32u4_hal::peripherals::power_on;
use atmega32u4_hal::port::PortExt;
use atmega32u4_hal::registers::{
    Registers, Timer0Registers, Timer1Registers, Timer3Registers, Timer4Registers,
};
use atmega32u4_hal::timer::{Timer0Pwm, Timer1Pwm, Timer3Pwm, Timer4Pwm};

#[test]
fn timer0_new_selects_fast_pwm_and_clock_by_64() {
    let (mut regs, dp) = power_on();
    let _pwm = Timer0Pwm::new(dp.TIMER0, &mut regs);
    assert_eq!(
        regs.timer0,
        Timer0Registers { tccr_a: 0b0000_0011, tccr_b: 0b0000_0011, ocr_a: 0, ocr_b: 0 }
    );
}

#[test]
fn timer1_new_selects_fast_pwm_and_clock_by_64() {
    let (mut regs, dp) = power_on();
    let _pwm = Timer1Pwm::new(dp.TIMER1, &mut regs);
    assert_eq!(
        regs.timer1,
        Timer1Registers {
            tccr_a: 0b0000_0001,
            tccr_b: 0b0000_1011,
            ocr_a_l: 0,
            ocr_b_l: 0,
            ocr_c_l: 0
        }
    );
}

#[test]
fn timer3_new_selects_fast_pwm_and_clock_by_64() {
    let (mut regs, dp) = power_on();
    let _pwm = Timer3Pwm::new(dp.TIMER3, &mut regs);
    assert_eq!(
        regs.timer3,
        Timer3Registers { tccr_a: 0b0000_0001, tccr_b: 0b0000_1011, ocr_a_l: 0 }
    );
}

#[test]
fn timer4_new_selects_phase_correct_pwm_and_clock_by_64() {
    let (mut regs, dp) = power_on();
    let _pwm = Timer4Pwm::new(dp.TIMER4, &mut regs);
    assert_eq!(
        regs.timer4,
        Timer4Registers {
            tccr_a: 0,
            tccr_b: 0b0000_0111,
            tccr_c: 0,
            tccr_d: 0b0000_0001,
            ocr_a: 0,
            ocr_d: 0
        }
    );
}

#[test]
fn timer_new_replaces_only_its_own_fields() {
    let (mut regs, dp) = power_on();
    regs.timer0.tccr_a = 0b1111_1100;
    regs.timer0.tccr_b = 0b1111_1000;
    regs.timer1.tccr_b = 0b1111_0111;
    regs.timer4.tccr_b = 0b1111_1000;
    regs.timer4.tccr_d = 0b1111_1110;
    let _pwm0 = Timer0Pwm::new(dp.TIMER0, &mut regs);
    let _pwm1 = Timer1Pwm::new(dp.TIMER1, &mut regs);
    let _pwm4 = Timer4Pwm::new(dp.TIMER4, &mut regs);
    assert_eq!(regs.timer0.tccr_a, 0b1111_1111);
    assert_eq!(regs.timer0.tccr_b, 0b1111_1011);
    assert_eq!(regs.timer1.tccr_b, 0b1110_1011);
    assert_eq!(regs.timer4.tccr_b, 0b1111_0111);
    assert_eq!(regs.timer4.tccr_d, 0b1111_1101);
}

#[test]
fn timer0_new_leaves_timer4_alone() {
    let (mut regs, dp) = power_on();
    let _pwm4 = Timer4Pwm::new(dp.TIMER4, &mut regs);
    let timer4 = regs.timer4;
    let _pwm0 = Timer0Pwm::new(dp.TIMER0, &mut regs);
    assert_eq!(regs.timer4, timer4);
    assert_eq!(regs.timer4.tccr_d, 0b0000_0001);
    assert_eq!(regs.timer4.tccr_b, 0b0000_0111);
}

#[test]
fn each_timer_new_leaves_the_others_and_the_ports_alone() {
    let reset = Registers::reset();
    let (mut regs, dp) = power_on();
    let _pwm0 = Timer0Pwm::new(dp.TIMER0, &mut regs);
    assert_eq!(Registers { timer0: reset.timer0, ..regs }, reset);
    let after0 = regs;
    let _pwm1 = Timer1Pwm::new(dp.TIMER1, &mut regs);
    assert_eq!(Registers { timer1: after0.timer1, ..regs }, after0);
    let after1 = regs;
    let _pwm3 = Timer3Pwm::new(dp.TIMER3, &mut regs);
    assert_eq!(Registers { timer3: after1.timer3, ..regs }, after1);
    let after3 = regs;
    let _pwm4 = Timer4Pwm::new(dp.TIMER4, &mut regs);
    assert_eq!(Registers { timer4: after3.timer4, ..regs }, after3);
}

#[test]
fn pb7_into_pwm_routes_channel_a_of_timer0() {
    let (mut regs, dp) = power_on();
    let mut pwm = Timer0Pwm::new(dp.TIMER0, &mut regs);
    let mut b = dp.PORTB.split();
    let mut pin = b.pb7.into_output(&mut b.ddr, &mut regs).into_pwm(&mut pwm, &mut regs);
    assert_eq!(regs.timer0.tccr_a, 0b1000_0011);
    assert_eq!(regs.timer0.tccr_b, 0b0000_0011);
    assert_eq!(regs.portb.ddr, 0b1000_0000);
    pin.set_duty(&mut regs, 0x40);
    assert_eq!(regs.timer0.ocr_a, 0x40);
    assert_eq!(regs.timer0.ocr_b, 0);
    assert_eq!(pin.get_duty(&regs), 0x40);
}

#[test]
fn pd0_into_pwm_routes_channel_b_of_timer0() {
    let (mut regs, dp) = power_on();
    let mut pwm = Timer0Pwm::new(dp.TIMER0, &mut regs);
    let mut d = dp.PORTD.split();
    let mut pin = d.pd0.into_output(&mut d.ddr, &mut regs).into_pwm(&mut pwm, &mut regs);
    assert_eq!(regs.timer0.tccr_a, 0b0010_0011);
    pin.set_duty(&mut regs, 0x41);
    assert_eq!(regs.timer0.ocr_b, 0x41);
    assert_eq!(regs.timer0.ocr_a, 0);
    assert_eq!(pin.get_duty(&regs), 0x41);
}

#[test]
fn pb5_into_pwm_routes_channel_a_of_timer1() {
    let (mut regs, dp) = power_on();
    let mut pwm = Timer1Pwm::new(dp.TIMER1, &mut regs);
    let mut b = dp.PORTB.split();
    let mut pin = b.pb5.into_output(&mut b.ddr, &mut regs).into_pwm(&mut pwm, &mut regs);
    assert_eq!(regs.timer1.tccr_a, 0b1000_0001);
    pin.set_duty(&mut regs, 0x42);
    assert_eq!(regs.timer1.ocr_a_l, 0x42);
    assert_eq!(pin.get_duty(&regs), 0x42);
}

#[test]
fn pb6_into_pwm_routes_channel_b_of_timer1() {
    let (mut regs, dp) = power_on();
    let mut pwm = Timer1Pwm::new(dp.TIMER1, &mut regs);
    let mut b = dp.PORTB.split();
    let mut pin = b.pb6.into_output(&mut b.ddr, &mut regs).into_pwm(&mut pwm, &mut regs);
    assert_eq!(regs.timer1.tccr_a, 0b0010_0001);
    pin.set_duty(&mut regs, 0x43);
    assert_eq!(regs.timer1.ocr_b_l, 0x43);
    assert_eq!(pin.get_duty(&regs), 0x43);
}

#[test]
fn pb7_into_pwm1_routes_channel_c_of_timer1() {
    let (mut regs, dp) = power_on();
    let mut pwm = Timer1Pwm::new(dp.TIMER1, &mut regs);
    let mut b = dp.PORTB.split();
    let mut pin = b.pb7.into_output(&mut b.ddr, &mut regs).into_pwm1(&mut pwm, &mut regs);
    assert_eq!(regs.timer1.tccr_a, 0b0000_1001);
    assert_eq!(regs.timer0, Registers::reset().timer0);
    pin.set_duty(&mut regs, 0x44);
    assert_eq!(regs.timer1.ocr_c_l, 0x44);
    assert_eq!(regs.timer1.ocr_a_l, 0);
    assert_eq!(regs.timer1.ocr_b_l, 0);
    assert_eq!(pin.get_duty(&regs), 0x44);
    assert_eq!(pin.get_max_duty(), 255);
}

#[test]
fn pc6_into_pwm_routes_channel_a_of_timer3() {
    let (mut regs, dp) = power_on();
    let mut pwm = Timer3Pwm::new(dp.TIMER3, &mut regs);
    let mut c = dp.PORTC.split();
    let mut pin = c.pc6.into_output(&mut c.ddr, &mut regs).into_pwm(&mut pwm, &mut regs);
    assert_eq!(regs.timer3.tccr_a, 0b1000_0001);
    pin.set_duty(&mut regs, 0x45);
    assert_eq!(regs.timer3.ocr_a_l, 0x45);
    assert_eq!(pin.get_duty(&regs), 0x45);
}

#[test]
fn pc7_into_pwm_routes_and_enables_channel_a_of_timer4() {
    let (mut regs, dp) = power_on();
    let mut pwm = Timer4Pwm::new(dp.TIMER4, &mut regs);
    let mut c = dp.PORTC.split();
    let mut pin = c.pc7.into_output(&mut c.ddr, &mut regs).into_pwm(&mut pwm, &mut regs);
    assert_eq!(regs.timer4.tccr_a, 0b1000_0010);
    assert_eq!(regs.timer4.tccr_c, 0);
    pin.set_duty(&mut regs, 128);
    assert_eq!(regs.timer4.ocr_a, 128);
    assert_eq!(regs.timer4.ocr_d, 0);
    assert_eq!(pin.get_duty(&regs), 128);
}

#[test]
fn pd7_into_pwm_routes_and_enables_channel_d_of_timer4() {
    let (mut regs, dp) = power_on();
    let mut pwm = Timer4Pwm::new(dp.TIMER4, &mut regs);
    let mut d = dp.PORTD.split();
    let mut pin = d.pd7.into_output(&mut d.ddr, &mut regs).into_pwm(&mut pwm, &mut regs);
    assert_eq!(regs.timer4.tccr_c, 0b0000_1001);
    assert_eq!(regs.timer4.tccr_a, 0);
    pin.set_duty(&mut regs, 0x47);
    assert_eq!(regs.timer4.ocr_d, 0x47);
    assert_eq!(regs.timer4.ocr_a, 0);
    assert_eq!(pin.get_duty(&regs), 0x47);
}

#[test]
fn into_pwm_does_not_run_the_timer_setup_again() {
    let (mut regs, dp) = power_on();
    let mut pwm = Timer0Pwm::new(dp.TIMER0, &mut regs);
    // the application changed the prescaler after the setup
    regs.timer0.tccr_b = 0b0000_0101;
    regs.timer0.tccr_a = 0b0000_0001;
    let mut b = dp.PORTB.split();
    let _pin = b.pb7.into_output(&mut b.ddr, &mut regs).into_pwm(&mut pwm, &mut regs);
    assert_eq!(regs.timer0.tccr_b, 0b0000_0101);
    assert_eq!(regs.timer0.tccr_a, 0b1000_0001);
}

#[test]
fn two_channels_of_one_timer_do_not_disturb_each_other() {
    let (mut regs, dp) = power_on();
    let mut pwm = Timer1Pwm::new(dp.TIMER1, &mut regs);
    let mut b = dp.PORTB.split();
    let mut a = b.pb5.into_output(&mut b.ddr, &mut regs).into_pwm(&mut pwm, &mut regs);
    let mut bb = b.pb6.into_output(&mut b.ddr, &mut regs).into_pwm(&mut pwm, &mut regs);
    let mut c = b.pb7.into_output(&mut b.ddr, &mut regs).into_pwm1(&mut pwm, &mut regs);
    assert_eq!(regs.timer1.tccr_a, 0b1010_1001);
    a.set_duty(&mut regs, 10);
    bb.set_duty(&mut regs, 20);
    c.set_duty(&mut regs, 30);
    assert_eq!((a.get_duty(&regs), bb.get_duty(&regs), c.get_duty(&regs)), (10, 20, 30));
    bb.disable(&mut regs);
    assert_eq!(regs.timer1.tccr_a, 0b1000_1001);
    assert_eq!((a.get_duty(&regs), bb.get_duty(&regs), c.get_duty(&regs)), (10, 20, 30));
    bb.enable(&mut regs);
    assert_eq!(regs.timer1.tccr_a, 0b1010_1001);
    c.disable(&mut regs);
    assert_eq!(regs.timer1.tccr_a, 0b1010_0001);
    c.enable(&mut regs);
    assert_eq!(regs.timer1.tccr_a, 0b1010_1001);
    assert_eq!(regs.timer1.tccr_b, 0b0000_1011);
}

#[test]
fn duty_zero_is_the_least_and_max_the_greatest() {
    let (mut regs, dp) = power_on();
    let mut pwm = Timer4Pwm::new(dp.TIMER4, &mut regs);
    let mut c = dp.PORTC.split();
    let mut pin = c.pc7.into_output(&mut c.ddr, &mut regs).into_pwm(&mut pwm, &mut regs);
    assert_eq!(pin.get_max_duty(), 255);
    pin.set_duty(&mut regs, 0);
    assert_eq!(pin.get_duty(&regs), 0);
    assert_eq!(regs.timer4.ocr_a, 0);
    let max = pin.get_max_duty();
    pin.set_duty(&mut regs, max);
    assert_eq!(pin.get_duty(&regs), 255);
    assert_eq!(regs.timer4.ocr_a, 255);
}

#[test]
fn duty_read_back_rises_with_the_duty_written() {
    let (mut regs, dp) = power_on();
    let mut pwm = Timer3Pwm::new(dp.TIMER3, &mut regs);
    let mut c = dp.PORTC.split();
    let mut pin = c.pc6.into_output(&mut c.ddr, &mut regs).into_pwm(&mut pwm, &mut regs);
    let mut last = 0u8;
    for duty in 0..=255u8 {
        pin.set_duty(&mut regs, duty);
        let read = pin.get_duty(&regs);
        assert_eq!(read, duty);
        assert!(read >= last);
        assert!(read <= pin.get_max_duty());
        last = read;
    }
}

#[test]
fn disable_on_timer4_leaves_the_pin_to_the_port() {
    let (mut regs, dp) = power_on();
    let mut pwm = Timer4Pwm::new(dp.TIMER4, &mut regs);
    let mut d = dp.PORTD.split();
    let mut pin = d.pd7.into_output(&mut d.ddr, &mut regs).into_pwm(&mut pwm, &mut regs);
    pin.disable(&mut regs);
    assert_eq!(regs.timer4.tccr_c, 0b0000_0001);
    pin.enable(&mut regs);
    assert_eq!(regs.timer4.tccr_c, 0b0000_1001);
    assert_eq!(regs.timer4.tccr_b, 0b0000_0111);
    assert_eq!(regs.timer4.tccr_d, 0b0000_0001);
}

#[test]
fn pwm_operations_leave_the_ports_alone() {
    let (mut regs, dp) = power_on();
    let mut pwm = Timer0Pwm::new(dp.TIMER0, &mut regs);
    let mut b = dp.PORTB.split();
    let out = b.pb7.into_output(&mut b.ddr, &mut regs);
    let ports = (regs.portb, regs.portc, regs.portd, regs.porte, regs.portf);
    let mut pin = out.into_pwm(&mut pwm, &mut regs);
    pin.set_duty(&mut regs, 77);
    pin.disable(&mut regs);
    pin.enable(&mut regs);
    assert_eq!((regs.portb, regs.portc, regs.portd, regs.porte, regs.portf), ports);
}
