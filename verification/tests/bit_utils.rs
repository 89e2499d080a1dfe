//! Tests of the single-bit accessors.

use rusty_nes::utils::{clear_bit, get_bit, set_bit, toggle_bit};

#[test]
fn getting_bits() {
    let mut byte: &u8 = &0b_0000_1000;
    let mut bit: u8 = get_bit(byte, 3u8);
    assert_eq!(bit, 1u8);

    bit = get_bit(byte, 2u8);
    assert_eq!(bit, 0u8);

    bit = get_bit(byte, 0u8);
    assert_eq!(bit, 0u8);

    byte = &0b_1111_0000;
    bit = get_bit(byte, 7);
    assert_eq!(bit, 1u8);

    bit = get_bit(byte, 6);
    assert_ne!(bit, 0u8);

    bit = get_bit(byte, 1);
    assert_ne!(bit, 1u8);
}

#[test]
fn setting_bits() {
    let byte: &mut u8 = &mut 0b_0000_1000;
    set_bit(byte, 2, true);
    assert_eq!(*byte, 0b_0000_1100);

    set_bit(byte, 3, false);
    assert_eq!(*byte, 0b_0000_0100);

    set_bit(byte, 0, true);
    assert_eq!(*byte, 0b_0000_0101);

    set_bit(byte, 2, false);
    set_bit(byte, 7, true);
    assert_eq!(*byte, 0b_1000_0001);

    set_bit(byte, 5, true);
    assert_ne!(*byte, 0b_0001_1111);
}

#[test]
fn toggling_bits() {
    let byte: &mut u8 = &mut 0b_0000_0000;
    toggle_bit(byte, 7);
    assert_eq!(*byte, 0b_1000_0000);

    toggle_bit(byte, 5);
    assert_eq!(*byte, 0b_1010_0000);

    toggle_bit(byte, 5);
    assert_eq!(*byte, 0b_1000_0000);

    toggle_bit(byte, 0);
    toggle_bit(byte, 7);
    assert_eq!(*byte, 0b_0000_0001);

    toggle_bit(byte, 4);
    assert_ne!(*byte, 0b_0000_0001);
}

#[test]
fn clearing_bits() {
    let byte: &mut u8 = &mut 0b_1111_1111;
    clear_bit(byte, 0);
    assert_eq!(*byte, 0b_1111_1110);

    clear_bit(byte, 7);
    assert_eq!(*byte, 0b_0111_1110);

    clear_bit(byte, 3);
    assert_ne!(*byte, 0b_1111_1110);
}

#[test]
fn set_then_get_returns_written_bit() {
    // A written bit reads back as written, and the other bits are unchanged,
    // for both values of the bit.
    for i in 0u8..8u8 {
        for v in [false, true] {
            let mut byte: u8 = 0b_0101_1010;
            let before: u8 = byte;
            set_bit(&mut byte, i, v);
            assert_eq!(get_bit(&byte, i), if v { 1u8 } else { 0u8 });
            for j in 0u8..8u8 {
                if j != i {
                    assert_eq!(get_bit(&byte, j), get_bit(&before, j));
                }
            }
        }
    }
}
