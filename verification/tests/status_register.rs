//! Tests of the status register: flag accessors and the unused-bit
//! invariant.

use rusty_nes::cpu::cpu::StatusRegister;

#[test]
fn power_up_status_value() {
    let p: StatusRegister = StatusRegister::new();
    assert_eq!(p.data, 0x34);
    // 0x34: interrupt disable, break and the unused bit.
    assert_eq!(p.get_carry_flag(), 0);
    assert_eq!(p.get_zero_flag(), 0);
    assert_eq!(p.get_interrupt_flag(), 1);
    assert_eq!(p.get_decimal_flag(), 0);
    assert_eq!(p.get_breakpoint(), 1);
    assert_eq!(p.get_overflow_flag(), 0);
    assert_eq!(p.get_negative_flag(), 0);
}

#[test]
fn flags_read_back_as_set() {
    let mut p: StatusRegister = StatusRegister::new();
    p.set_carry_flag(true);
    assert_eq!(p.get_carry_flag(), 1);
    p.set_zero_flag(true);
    assert_eq!(p.get_zero_flag(), 1);
    p.set_negative_flag(true);
    assert_eq!(p.get_negative_flag(), 1);
    p.set_overflow_flag(true);
    assert_eq!(p.get_overflow_flag(), 1);
    p.set_carry_flag(false);
    assert_eq!(p.get_carry_flag(), 0);
    p.set_interrupt_flag(false);
    assert_eq!(p.get_interrupt_flag(), 0);
    p.set_decimal_flag(true);
    assert_eq!(p.get_decimal_flag(), 1);
    p.set_breakpoint(false);
    assert_eq!(p.get_breakpoint(), 0);
}

#[test]
fn unused_bit_survives_any_mutation_sequence() {
    // Bit 5 of the stored byte is 1 after any sequence of flag mutations.
    let mut p: StatusRegister = StatusRegister::new();
    assert_eq!(p.data & 0x20, 0x20);
    p.set_carry_flag(true);
    p.set_zero_flag(true);
    p.set_interrupt_flag(false);
    p.set_decimal_flag(true);
    p.set_breakpoint(false);
    p.set_overflow_flag(true);
    p.set_negative_flag(true);
    assert_eq!(p.data & 0x20, 0x20);
    p.set_carry_flag(false);
    p.set_zero_flag(false);
    p.set_overflow_flag(false);
    p.set_negative_flag(false);
    assert_eq!(p.data & 0x20, 0x20);
}

#[test]
fn loading_a_status_byte_forces_unused_bit() {
    let mut p: StatusRegister = StatusRegister::new();
    p.load(0x00);
    assert_eq!(p.data, 0x20);
    p.load(0xff);
    assert_eq!(p.data, 0xff);
    p.load(0b_1000_0001);
    assert_eq!(p.data, 0b_1010_0001);
}
