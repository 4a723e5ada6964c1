use atmega32u4_hal::chip::{Channel, PinId, Port, Timer};

fn bonded(port: Port) -> Vec<u8> {
    (0..=255u8).filter(|i| port.is_bonded(*i)).collect()
}

#[test]
fn port_b_bonds_every_bit() {
    assert_eq!(bonded(Port::B), vec![0, 1, 2, 3, 4, 5, 6, 7]);
}

#[test]
fn port_c_bonds_its_two_top_bits() {
    assert_eq!(bonded(Port::C), vec![6, 7]);
}

#[test]
fn port_d_bonds_every_bit() {
    assert_eq!(bonded(Port::D), vec![0, 1, 2, 3, 4, 5, 6, 7]);
}

#[test]
fn port_e_bonds_bits_two_and_six() {
    assert_eq!(bonded(Port::E), vec![2, 6]);
}

#[test]
fn port_f_leaves_out_bits_two_and_three() {
    assert_eq!(bonded(Port::F), vec![0, 1, 4, 5, 6, 7]);
}

#[test]
fn identifiers_compare_by_value() {
    assert_eq!(PinId { port: Port::B, index: 7 }, PinId { port: Port::B, index: 7 });
    assert_ne!(PinId { port: Port::B, index: 7 }, PinId { port: Port::D, index: 7 });
    assert_ne!(PinId { port: Port::B, index: 7 }, PinId { port: Port::B, index: 6 });
    assert_ne!(Timer::Timer0, Timer::Timer4);
    assert_ne!(Channel::Oc0A, Channel::Oc1C);
}
