use atmega32u4_hal::bits::{
    apply_changes, clear_bit, flip_bit, set_bit, test_bit, write_field,
};

#[test]
fn set_bit_sets_only_that_bit() {
    assert_eq!(set_bit(0b0000_0000, 0), 0b0000_0001);
    assert_eq!(set_bit(0b0000_0000, 7), 0b1000_0000);
    assert_eq!(set_bit(0b0101_0101, 1), 0b0101_0111);
    assert_eq!(set_bit(0b0101_0101, 2), 0b0101_0101);
}

#[test]
fn clear_bit_clears_only_that_bit() {
    assert_eq!(clear_bit(0b1111_1111, 0), 0b1111_1110);
    assert_eq!(clear_bit(0b1111_1111, 7), 0b0111_1111);
    assert_eq!(clear_bit(0b0101_0101, 2), 0b0101_0001);
    assert_eq!(clear_bit(0b0101_0101, 1), 0b0101_0101);
}

#[test]
fn flip_bit_inverts_only_that_bit() {
    assert_eq!(flip_bit(0b0000_0000, 3), 0b0000_1000);
    assert_eq!(flip_bit(0b0000_1000, 3), 0b0000_0000);
    assert_eq!(flip_bit(0b1010_1010, 7), 0b0010_1010);
}

#[test]
fn test_bit_reads_each_position() {
    let reg: u8 = 0b1001_0010;
    let set: Vec<u8> = (0..8).filter(|i| test_bit(reg, *i)).collect();
    assert_eq!(set, vec![1, 4, 7]);
}

#[test]
fn every_bit_round_trips() {
    for i in 0..8u8 {
        for reg in [0x00u8, 0xff, 0xa5, 0x5a] {
            assert!(test_bit(set_bit(reg, i), i));
            assert!(!test_bit(clear_bit(reg, i), i));
            assert_eq!(test_bit(flip_bit(reg, i), i), !test_bit(reg, i));
            assert_eq!(flip_bit(flip_bit(reg, i), i), reg);
            for j in 0..8u8 {
                if j != i {
                    assert_eq!(test_bit(set_bit(reg, i), j), test_bit(reg, j));
                    assert_eq!(test_bit(clear_bit(reg, i), j), test_bit(reg, j));
                    assert_eq!(test_bit(flip_bit(reg, i), j), test_bit(reg, j));
                }
            }
        }
    }
}

#[test]
fn write_field_replaces_the_field() {
    // a two-bit field at bits 7:6
    assert_eq!(write_field(0b0000_0000, 3, 6, 2), 0b1000_0000);
    assert_eq!(write_field(0b1111_1111, 3, 6, 2), 0b1011_1111);
    assert_eq!(write_field(0b1111_1111, 3, 6, 0), 0b0011_1111);
    // a three-bit field at bits 2:0
    assert_eq!(write_field(0b1111_1000, 7, 0, 3), 0b1111_1011);
    // a two-bit field at bits 4:3
    assert_eq!(write_field(0b0000_0111, 3, 3, 1), 0b0000_1111);
}

#[test]
fn write_field_drops_bits_outside_the_mask() {
    assert_eq!(write_field(0b0000_0000, 3, 4, 0b1110), 0b0010_0000);
    assert_eq!(write_field(0b0000_0000, 7, 0, 0xff), 0b0000_0111);
}

#[test]
fn apply_changes_writes_only_the_bits_that_changed() {
    // bit 3 was set by the operation; bit 0 was set meanwhile by someone else
    assert_eq!(apply_changes(0b0000_0001, 0b0000_0000, 0b0000_1000), 0b0000_1001);
    // bit 7 was cleared by the operation; bit 1 was cleared meanwhile
    assert_eq!(apply_changes(0b1111_1101, 0b1111_1111, 0b0111_1111), 0b0111_1101);
    // nothing changed: the register stays as it is
    assert_eq!(apply_changes(0b1010_0101, 0b0011_0011, 0b0011_0011), 0b1010_0101);
    // the register did not move on: the result is what the operation gave
    for (before, after) in [(0x00u8, 0xffu8), (0xa5, 0x5a), (0x0f, 0x3c), (0x80, 0x80)] {
        assert_eq!(apply_changes(before, before, after), after);
    }
}
