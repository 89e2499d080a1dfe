//! Tests of the arithmetic, logical, compare, increment and shift
//! instructions, driven through `step`.

use rusty_nes::cpu::cpu::CPU;
use rusty_nes::memory::Memory;

fn cpu_at(pc: u16) -> CPU {
    let mut cpu: CPU = CPU::new(Memory::new());
    cpu.pc_reg = pc;
    cpu
}

#[test]
fn adc_simple_addition() {
    // ADC #$10 with A = 0x50 and carry clear: 0x60, no flags.
    let mut cpu: CPU = cpu_at(0x0200);
    cpu.a_reg = 0x50;
    cpu.p_reg.set_carry_flag(false);
    cpu.ram.write(0x0200, 0x69);
    cpu.ram.write(0x0201, 0x10);
    let cycles: Result<u8, _> = cpu.step();
    assert_eq!(cycles, Ok(2));
    assert_eq!(cpu.a_reg, 0x60);
    assert_eq!(cpu.p_reg.get_carry_flag(), 0);
    assert_eq!(cpu.p_reg.get_zero_flag(), 0);
    assert_eq!(cpu.p_reg.get_overflow_flag(), 0);
    assert_eq!(cpu.p_reg.get_negative_flag(), 0);
}

#[test]
fn adc_signed_overflow() {
    // ADC #$50 with A = 0x50: 0xa0, signed overflow, negative.
    let mut cpu: CPU = cpu_at(0x0200);
    cpu.a_reg = 0x50;
    cpu.p_reg.set_carry_flag(false);
    cpu.ram.write(0x0200, 0x69);
    cpu.ram.write(0x0201, 0x50);
    assert_eq!(cpu.step(), Ok(2));
    assert_eq!(cpu.a_reg, 0xa0);
    assert_eq!(cpu.p_reg.get_carry_flag(), 0);
    assert_eq!(cpu.p_reg.get_overflow_flag(), 1);
    assert_eq!(cpu.p_reg.get_negative_flag(), 1);
}

#[test]
fn adc_carry_in_and_out() {
    // ADC #$01 with A = 0xff and carry set: wraps to 0x01 with carry out.
    let mut cpu: CPU = cpu_at(0x0200);
    cpu.a_reg = 0xff;
    cpu.p_reg.set_carry_flag(true);
    cpu.ram.write(0x0200, 0x69);
    cpu.ram.write(0x0201, 0x01);
    assert_eq!(cpu.step(), Ok(2));
    assert_eq!(cpu.a_reg, 0x01);
    assert_eq!(cpu.p_reg.get_carry_flag(), 1);
    assert_eq!(cpu.p_reg.get_zero_flag(), 0);
}

#[test]
fn sbc_with_and_without_borrow() {
    // SBC #$10 with A = 0x50, carry set (no borrow): 0x40, carry kept.
    let mut cpu: CPU = cpu_at(0x0200);
    cpu.a_reg = 0x50;
    cpu.p_reg.set_carry_flag(true);
    cpu.ram.write(0x0200, 0xe9);
    cpu.ram.write(0x0201, 0x10);
    assert_eq!(cpu.step(), Ok(2));
    assert_eq!(cpu.a_reg, 0x40);
    assert_eq!(cpu.p_reg.get_carry_flag(), 1);

    // SBC #$20 with A = 0x10: borrows, 0xf0, carry clear, negative.
    let mut cpu2: CPU = cpu_at(0x0200);
    cpu2.a_reg = 0x10;
    cpu2.p_reg.set_carry_flag(true);
    cpu2.ram.write(0x0200, 0xe9);
    cpu2.ram.write(0x0201, 0x20);
    assert_eq!(cpu2.step(), Ok(2));
    assert_eq!(cpu2.a_reg, 0xf0);
    assert_eq!(cpu2.p_reg.get_carry_flag(), 0);
    assert_eq!(cpu2.p_reg.get_negative_flag(), 1);
}

#[test]
fn cmp_sets_carry_zero_negative() {
    // CMP #$41 with A = 0x42: carry, no zero, positive difference.
    let mut cpu: CPU = cpu_at(0x0200);
    cpu.a_reg = 0x42;
    cpu.ram.write(0x0200, 0xc9);
    cpu.ram.write(0x0201, 0x41);
    assert_eq!(cpu.step(), Ok(2));
    assert_eq!(cpu.p_reg.get_carry_flag(), 1);
    assert_eq!(cpu.p_reg.get_zero_flag(), 0);
    assert_eq!(cpu.p_reg.get_negative_flag(), 0);
    // A unchanged by a compare.
    assert_eq!(cpu.a_reg, 0x42);

    // CMP #$43 with A = 0x42: borrow, difference 0xff, negative.
    let mut cpu2: CPU = cpu_at(0x0200);
    cpu2.a_reg = 0x42;
    cpu2.ram.write(0x0200, 0xc9);
    cpu2.ram.write(0x0201, 0x43);
    assert_eq!(cpu2.step(), Ok(2));
    assert_eq!(cpu2.p_reg.get_carry_flag(), 0);
    assert_eq!(cpu2.p_reg.get_negative_flag(), 1);

    // CMP #$42 with A = 0x42: equal.
    let mut cpu3: CPU = cpu_at(0x0200);
    cpu3.a_reg = 0x42;
    cpu3.ram.write(0x0200, 0xc9);
    cpu3.ram.write(0x0201, 0x42);
    assert_eq!(cpu3.step(), Ok(2));
    assert_eq!(cpu3.p_reg.get_carry_flag(), 1);
    assert_eq!(cpu3.p_reg.get_zero_flag(), 1);
}

#[test]
fn cpx_and_cpy_compare_index_registers() {
    let mut cpu: CPU = cpu_at(0x0200);
    cpu.x_reg = 0x10;
    cpu.ram.write(0x0200, 0xe0);  // CPX #$10
    cpu.ram.write(0x0201, 0x10);
    assert_eq!(cpu.step(), Ok(2));
    assert_eq!(cpu.p_reg.get_zero_flag(), 1);
    assert_eq!(cpu.p_reg.get_carry_flag(), 1);

    let mut cpu2: CPU = cpu_at(0x0200);
    cpu2.y_reg = 0x01;
    cpu2.ram.write(0x0200, 0xc0);  // CPY #$02
    cpu2.ram.write(0x0201, 0x02);
    assert_eq!(cpu2.step(), Ok(2));
    assert_eq!(cpu2.p_reg.get_carry_flag(), 0);
}

#[test]
fn inc_wraps_and_sets_zero() {
    // INC $20 with the cell at 0xff: wraps to 0, zero flag set.
    let mut cpu: CPU = cpu_at(0x0200);
    cpu.ram.write(0x0020, 0xff);
    cpu.ram.write(0x0200, 0xe6);
    cpu.ram.write(0x0201, 0x20);
    assert_eq!(cpu.step(), Ok(5));
    assert_eq!(cpu.ram.read_byte(0x0020), 0x00);
    assert_eq!(cpu.p_reg.get_zero_flag(), 1);
}

#[test]
fn dec_wraps_and_sets_negative() {
    // DEC $20 with the cell at 0x00: wraps to 0xff, negative flag set.
    let mut cpu: CPU = cpu_at(0x0200);
    cpu.ram.write(0x0020, 0x00);
    cpu.ram.write(0x0200, 0xc6);
    cpu.ram.write(0x0201, 0x20);
    assert_eq!(cpu.step(), Ok(5));
    assert_eq!(cpu.ram.read_byte(0x0020), 0xff);
    assert_eq!(cpu.p_reg.get_negative_flag(), 1);
}

#[test]
fn logical_and_eor_ora_bit() {
    let mut cpu: CPU = cpu_at(0x0200);
    cpu.a_reg = 0b_1100_1100;
    cpu.ram.write(0x0200, 0x29);  // AND #$f0
    cpu.ram.write(0x0201, 0xf0);
    assert_eq!(cpu.step(), Ok(2));
    assert_eq!(cpu.a_reg, 0b_1100_0000);
    assert_eq!(cpu.p_reg.get_negative_flag(), 1);

    let mut cpu2: CPU = cpu_at(0x0200);
    cpu2.a_reg = 0b_1100_1100;
    cpu2.ram.write(0x0200, 0x49);  // EOR #$cc
    cpu2.ram.write(0x0201, 0xcc);
    assert_eq!(cpu2.step(), Ok(2));
    assert_eq!(cpu2.a_reg, 0x00);
    assert_eq!(cpu2.p_reg.get_zero_flag(), 1);

    let mut cpu3: CPU = cpu_at(0x0200);
    cpu3.a_reg = 0b_0000_1100;
    cpu3.ram.write(0x0200, 0x09);  // ORA #$c0
    cpu3.ram.write(0x0201, 0xc0);
    assert_eq!(cpu3.step(), Ok(2));
    assert_eq!(cpu3.a_reg, 0b_1100_1100);

    // BIT $10: zero from the AND, overflow from bit 6, negative from bit 7.
    let mut cpu4: CPU = cpu_at(0x0200);
    cpu4.a_reg = 0x01;
    cpu4.ram.write(0x0010, 0b_1100_0000);
    cpu4.ram.write(0x0200, 0x24);
    cpu4.ram.write(0x0201, 0x10);
    assert_eq!(cpu4.step(), Ok(3));
    assert_eq!(cpu4.p_reg.get_zero_flag(), 1);
    assert_eq!(cpu4.p_reg.get_overflow_flag(), 1);
    assert_eq!(cpu4.p_reg.get_negative_flag(), 1);
    // BIT stores nothing.
    assert_eq!(cpu4.a_reg, 0x01);
}

#[test]
fn asl_and_lsr_move_bits_into_carry() {
    // ASL A with A = 0x81: result 0x02, carry from the old bit 7.
    let mut cpu: CPU = cpu_at(0x0200);
    cpu.a_reg = 0x81;
    cpu.ram.write(0x0200, 0x0a);
    assert_eq!(cpu.step(), Ok(2));
    assert_eq!(cpu.a_reg, 0x02);
    assert_eq!(cpu.p_reg.get_carry_flag(), 1);

    // LSR A with A = 0x03: result 0x01, carry from the old bit 0.
    let mut cpu2: CPU = cpu_at(0x0200);
    cpu2.a_reg = 0x03;
    cpu2.ram.write(0x0200, 0x4a);
    assert_eq!(cpu2.step(), Ok(2));
    assert_eq!(cpu2.a_reg, 0x01);
    assert_eq!(cpu2.p_reg.get_carry_flag(), 1);

    // ASL on memory: the addressed cell is rewritten.
    let mut cpu3: CPU = cpu_at(0x0200);
    cpu3.ram.write(0x0030, 0x40);
    cpu3.ram.write(0x0200, 0x06);  // ASL $30
    cpu3.ram.write(0x0201, 0x30);
    assert_eq!(cpu3.step(), Ok(5));
    assert_eq!(cpu3.ram.read_byte(0x0030), 0x80);
    assert_eq!(cpu3.p_reg.get_carry_flag(), 0);
    assert_eq!(cpu3.p_reg.get_negative_flag(), 1);
}

#[test]
fn rol_and_ror_rotate_through_carry() {
    // ROL A with A = 0x80 and carry set: result 0x01, carry out 1.
    let mut cpu: CPU = cpu_at(0x0200);
    cpu.a_reg = 0x80;
    cpu.p_reg.set_carry_flag(true);
    cpu.ram.write(0x0200, 0x2a);
    assert_eq!(cpu.step(), Ok(2));
    assert_eq!(cpu.a_reg, 0x01);
    assert_eq!(cpu.p_reg.get_carry_flag(), 1);

    // ROR A with A = 0x01 and carry set: result 0x80, carry out 1.
    let mut cpu2: CPU = cpu_at(0x0200);
    cpu2.a_reg = 0x01;
    cpu2.p_reg.set_carry_flag(true);
    cpu2.ram.write(0x0200, 0x6a);
    assert_eq!(cpu2.step(), Ok(2));
    assert_eq!(cpu2.a_reg, 0x80);
    assert_eq!(cpu2.p_reg.get_carry_flag(), 1);
    assert_eq!(cpu2.p_reg.get_negative_flag(), 1);
}

#[test]
fn loads_set_zero_and_negative() {
    // LDA #$00 sets zero; LDA #$80 sets negative.
    let mut cpu: CPU = cpu_at(0x0200);
    cpu.a_reg = 0x55;
    cpu.ram.write(0x0200, 0xa9);
    cpu.ram.write(0x0201, 0x00);
    assert_eq!(cpu.step(), Ok(2));
    assert_eq!(cpu.a_reg, 0x00);
    assert_eq!(cpu.p_reg.get_zero_flag(), 1);
    assert_eq!(cpu.p_reg.get_negative_flag(), 0);

    let mut cpu2: CPU = cpu_at(0x0200);
    cpu2.ram.write(0x0200, 0xa2);  // LDX #$80
    cpu2.ram.write(0x0201, 0x80);
    assert_eq!(cpu2.step(), Ok(2));
    assert_eq!(cpu2.x_reg, 0x80);
    assert_eq!(cpu2.p_reg.get_zero_flag(), 0);
    assert_eq!(cpu2.p_reg.get_negative_flag(), 1);

    let mut cpu3: CPU = cpu_at(0x0200);
    cpu3.ram.write(0x0200, 0xa0);  // LDY #$7f
    cpu3.ram.write(0x0201, 0x7f);
    assert_eq!(cpu3.step(), Ok(2));
    assert_eq!(cpu3.y_reg, 0x7f);
    assert_eq!(cpu3.p_reg.get_zero_flag(), 0);
    assert_eq!(cpu3.p_reg.get_negative_flag(), 0);
}

#[test]
fn stores_write_memory_without_flags() {
    let mut cpu: CPU = cpu_at(0x0200);
    cpu.a_reg = 0x7b;
    let before: u8 = cpu.p_reg.data;
    cpu.ram.write(0x0200, 0x85);  // STA $40
    cpu.ram.write(0x0201, 0x40);
    assert_eq!(cpu.step(), Ok(3));
    assert_eq!(cpu.ram.read_byte(0x0040), 0x7b);
    assert_eq!(cpu.p_reg.data, before);

    let mut cpu2: CPU = cpu_at(0x0200);
    cpu2.x_reg = 0x11;
    cpu2.y_reg = 0x22;
    cpu2.ram.write(0x0200, 0x86);  // STX $41
    cpu2.ram.write(0x0201, 0x41);
    assert_eq!(cpu2.step(), Ok(3));
    cpu2.ram.write(0x0202, 0x84);  // STY $42
    cpu2.ram.write(0x0203, 0x42);
    assert_eq!(cpu2.step(), Ok(3));
    assert_eq!(cpu2.ram.read_byte(0x0041), 0x11);
    assert_eq!(cpu2.ram.read_byte(0x0042), 0x22);
}

#[test]
fn transfers_copy_and_update_flags() {
    let mut cpu: CPU = cpu_at(0x0200);
    cpu.a_reg = 0x80;
    cpu.ram.write(0x0200, 0xaa);  // TAX
    assert_eq!(cpu.step(), Ok(2));
    assert_eq!(cpu.x_reg, 0x80);
    assert_eq!(cpu.p_reg.get_negative_flag(), 1);

    // TXS updates no flags.
    let mut cpu2: CPU = cpu_at(0x0200);
    cpu2.x_reg = 0x00;
    cpu2.p_reg.set_zero_flag(false);
    cpu2.ram.write(0x0200, 0x9a);  // TXS
    assert_eq!(cpu2.step(), Ok(2));
    assert_eq!(cpu2.sp_reg, 0x00);
    assert_eq!(cpu2.p_reg.get_zero_flag(), 0);

    // TSX does.
    cpu2.ram.write(0x0201, 0xba);  // TSX
    assert_eq!(cpu2.step(), Ok(2));
    assert_eq!(cpu2.x_reg, 0x00);
    assert_eq!(cpu2.p_reg.get_zero_flag(), 1);
}

#[test]
fn flag_instructions_touch_one_flag_each() {
    let mut cpu: CPU = cpu_at(0x0200);
    cpu.ram.write(0x0200, 0x38);  // SEC
    cpu.ram.write(0x0201, 0xf8);  // SED
    cpu.ram.write(0x0202, 0x78);  // SEI
    cpu.ram.write(0x0203, 0x18);  // CLC
    cpu.ram.write(0x0204, 0xd8);  // CLD
    cpu.ram.write(0x0205, 0x58);  // CLI
    cpu.ram.write(0x0206, 0xb8);  // CLV
    assert_eq!(cpu.step(), Ok(2));
    assert_eq!(cpu.p_reg.get_carry_flag(), 1);
    assert_eq!(cpu.step(), Ok(2));
    assert_eq!(cpu.p_reg.get_decimal_flag(), 1);
    assert_eq!(cpu.step(), Ok(2));
    assert_eq!(cpu.p_reg.get_interrupt_flag(), 1);
    assert_eq!(cpu.step(), Ok(2));
    assert_eq!(cpu.p_reg.get_carry_flag(), 0);
    assert_eq!(cpu.step(), Ok(2));
    assert_eq!(cpu.p_reg.get_decimal_flag(), 0);
    assert_eq!(cpu.step(), Ok(2));
    assert_eq!(cpu.p_reg.get_interrupt_flag(), 0);
    cpu.p_reg.set_overflow_flag(true);
    assert_eq!(cpu.step(), Ok(2));
    assert_eq!(cpu.p_reg.get_overflow_flag(), 0);
}

#[test]
fn inx_iny_dex_dey_wrap() {
    let mut cpu: CPU = cpu_at(0x0200);
    cpu.x_reg = 0xff;
    cpu.y_reg = 0x00;
    cpu.ram.write(0x0200, 0xe8);  // INX
    cpu.ram.write(0x0201, 0x88);  // DEY
    assert_eq!(cpu.step(), Ok(2));
    assert_eq!(cpu.x_reg, 0x00);
    assert_eq!(cpu.p_reg.get_zero_flag(), 1);
    assert_eq!(cpu.step(), Ok(2));
    assert_eq!(cpu.y_reg, 0xff);
    assert_eq!(cpu.p_reg.get_negative_flag(), 1);

    let mut cpu2: CPU = cpu_at(0x0200);
    cpu2.x_reg = 0x01;
    cpu2.y_reg = 0xfe;
    cpu2.ram.write(0x0200, 0xca);  // DEX
    cpu2.ram.write(0x0201, 0xc8);  // INY
    assert_eq!(cpu2.step(), Ok(2));
    assert_eq!(cpu2.x_reg, 0x00);
    assert_eq!(cpu2.step(), Ok(2));
    assert_eq!(cpu2.y_reg, 0xff);
}

#[test]
fn nop_changes_nothing_but_the_program_counter() {
    let mut cpu: CPU = cpu_at(0x0200);
    cpu.a_reg = 0x12;
    let p_before: u8 = cpu.p_reg.data;
    cpu.ram.write(0x0200, 0xea);
    assert_eq!(cpu.step(), Ok(2));
    assert_eq!(cpu.pc_reg, 0x0201);
    assert_eq!(cpu.a_reg, 0x12);
    assert_eq!(cpu.p_reg.data, p_before);
}
