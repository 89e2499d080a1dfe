//! Tests of the execution engine: branch cycle costs, the unsupported
//! opcode failure, reset, interrupts, and subroutine round trips.

use rusty_nes::cpu::cpu::CPU;
use rusty_nes::cpu::opcode::CpuError;
use rusty_nes::memory::Memory;

fn cpu_at(pc: u16) -> CPU {
    let mut cpu: CPU = CPU::new(Memory::new());
    cpu.pc_reg = pc;
    cpu
}

#[test]
fn beq_cycle_costs() {
    // Zero clear: the branch is not taken and costs the base 2 cycles.
    let mut cpu: CPU = cpu_at(0x0200);
    cpu.p_reg.set_zero_flag(false);
    cpu.ram.write(0x0200, 0xf0);  // BEQ +5
    cpu.ram.write(0x0201, 0x05);
    assert_eq!(cpu.step(), Ok(2));
    assert_eq!(cpu.pc_reg, 0x0202);

    // Zero set, target on the same page: 3 cycles.
    let mut cpu2: CPU = cpu_at(0x0200);
    cpu2.p_reg.set_zero_flag(true);
    cpu2.ram.write(0x0200, 0xf0);
    cpu2.ram.write(0x0201, 0x05);
    assert_eq!(cpu2.step(), Ok(3));
    assert_eq!(cpu2.pc_reg, 0x0207);

    // Zero set, target on another page: 4 cycles.
    let mut cpu3: CPU = cpu_at(0x02f0);
    cpu3.p_reg.set_zero_flag(true);
    cpu3.ram.write(0x02f0, 0xf0);
    cpu3.ram.write(0x02f1, 0x20);
    assert_eq!(cpu3.step(), Ok(4));
    assert_eq!(cpu3.pc_reg, 0x0312);
}

#[test]
fn conditional_branches_follow_their_flags() {
    // BNE taken while zero is clear.
    let mut cpu: CPU = cpu_at(0x0200);
    cpu.p_reg.set_zero_flag(false);
    cpu.ram.write(0x0200, 0xd0);
    cpu.ram.write(0x0201, 0x02);
    assert_eq!(cpu.step(), Ok(3));
    assert_eq!(cpu.pc_reg, 0x0204);

    // BCS not taken while carry is clear.
    let mut cpu2: CPU = cpu_at(0x0200);
    cpu2.p_reg.set_carry_flag(false);
    cpu2.ram.write(0x0200, 0xb0);
    cpu2.ram.write(0x0201, 0x02);
    assert_eq!(cpu2.step(), Ok(2));
    assert_eq!(cpu2.pc_reg, 0x0202);

    // BMI taken backward while negative is set.
    let mut cpu3: CPU = cpu_at(0x0210);
    cpu3.p_reg.set_negative_flag(true);
    cpu3.ram.write(0x0210, 0x30);
    cpu3.ram.write(0x0211, 0xfe);  // -2: back onto the branch itself
    assert_eq!(cpu3.step(), Ok(3));
    assert_eq!(cpu3.pc_reg, 0x0210);

    // BVS taken while overflow is set; BVC, BPL, BCC the mirror cases.
    let mut cpu4: CPU = cpu_at(0x0200);
    cpu4.p_reg.set_overflow_flag(true);
    cpu4.ram.write(0x0200, 0x70);
    cpu4.ram.write(0x0201, 0x01);
    assert_eq!(cpu4.step(), Ok(3));
    assert_eq!(cpu4.pc_reg, 0x0203);
}

#[test]
fn unsupported_opcode_fails_and_advances_one_byte() {
    // 0x02 has no entry in the table: the failure names the byte, the
    // program counter sits exactly one byte past where it was, and the
    // registers are untouched.
    let mut cpu: CPU = cpu_at(0x0200);
    cpu.a_reg = 0x42;
    let sp0: u8 = cpu.sp_reg;
    let p0: u8 = cpu.p_reg.data;
    cpu.ram.write(0x0200, 0x02);
    assert_eq!(cpu.step(), Err(CpuError::UnsupportedOpcode(0x02)));
    assert_eq!(cpu.pc_reg, 0x0201);
    assert_eq!(cpu.a_reg, 0x42);
    assert_eq!(cpu.sp_reg, sp0);
    assert_eq!(cpu.p_reg.data, p0);
    // The engine state is not corrupted: the next step works.
    cpu.ram.write(0x0201, 0xea);
    assert_eq!(cpu.step(), Ok(2));
}

#[test]
fn power_up_and_reset() {
    let mut cpu: CPU = CPU::new(Memory::new());
    assert_eq!(cpu.a_reg, 0x00);
    assert_eq!(cpu.x_reg, 0x00);
    assert_eq!(cpu.y_reg, 0x00);
    assert_eq!(cpu.sp_reg, 0xfd);
    assert_eq!(cpu.p_reg.data, 0x34);

    // Reset drops the stack pointer by three, sets interrupt disable, and
    // loads the program counter from the reset vector.
    cpu.ram.write(0xfffc, 0x34);
    cpu.ram.write(0xfffd, 0x12);
    cpu.p_reg.set_interrupt_flag(false);
    cpu.reset();
    assert_eq!(cpu.sp_reg, 0xfa);
    assert_eq!(cpu.p_reg.get_interrupt_flag(), 1);
    assert_eq!(cpu.pc_reg, 0x1234);
}

#[test]
fn reset_stack_pointer_wraps() {
    let mut cpu: CPU = CPU::new(Memory::new());
    cpu.sp_reg = 0x01;
    cpu.reset();
    assert_eq!(cpu.sp_reg, 0xfe);
}

#[test]
fn jsr_and_rts_round_trip() {
    let mut cpu: CPU = cpu_at(0x0200);
    cpu.ram.write(0x0200, 0x20);  // JSR $8000
    cpu.ram.write(0x0201, 0x00);
    cpu.ram.write(0x0202, 0x80);
    cpu.ram.write(0x8000, 0x60);  // RTS
    assert_eq!(cpu.step(), Ok(6));
    assert_eq!(cpu.pc_reg, 0x8000);
    // The return address minus one, 0x0202, sits on the stack high first.
    assert_eq!(cpu.ram.read_byte(0x01fd), 0x02);
    assert_eq!(cpu.ram.read_byte(0x01fc), 0x02);
    assert_eq!(cpu.step(), Ok(6));
    assert_eq!(cpu.pc_reg, 0x0203);
    assert_eq!(cpu.sp_reg, 0xfd);
}

#[test]
fn jmp_absolute_sets_the_program_counter() {
    let mut cpu: CPU = cpu_at(0x0200);
    cpu.ram.write(0x0200, 0x4c);
    cpu.ram.write(0x0201, 0xcd);
    cpu.ram.write(0x0202, 0xab);
    assert_eq!(cpu.step(), Ok(3));
    assert_eq!(cpu.pc_reg, 0xabcd);
}

#[test]
fn brk_and_rti_round_trip() {
    let mut cpu: CPU = cpu_at(0x0200);
    cpu.p_reg.load(0x01);  // carry set; stored byte 0x21
    cpu.ram.write(0xfffe, 0x00);
    cpu.ram.write(0xffff, 0x80);
    cpu.ram.write(0x0200, 0x00);  // BRK
    cpu.ram.write(0x8000, 0x40);  // RTI
    assert_eq!(cpu.step(), Ok(7));
    assert_eq!(cpu.pc_reg, 0x8000);
    assert_eq!(cpu.p_reg.get_interrupt_flag(), 1);
    // Pushed: the program counter after the opcode, then the status byte
    // with break and unused set.
    assert_eq!(cpu.ram.read_byte(0x01fd), 0x02);
    assert_eq!(cpu.ram.read_byte(0x01fc), 0x01);
    assert_eq!(cpu.ram.read_byte(0x01fb), 0x31);
    assert_eq!(cpu.step(), Ok(6));
    assert_eq!(cpu.pc_reg, 0x0201);
    assert_eq!(cpu.p_reg.data, 0x31 | 0x20);
    assert_eq!(cpu.sp_reg, 0xfd);
}

#[test]
fn nmi_is_serviced_at_the_instruction_boundary() {
    let mut cpu: CPU = cpu_at(0x0200);
    cpu.ram.write(0xfffa, 0x00);
    cpu.ram.write(0xfffb, 0x90);
    cpu.ram.write(0x0200, 0xea);  // what would have run
    cpu.ram.write(0x9000, 0xea);  // the handler's first instruction
    cpu.request_nmi();
    assert_eq!(cpu.step(), Ok(7));
    assert_eq!(cpu.pc_reg, 0x9000);
    assert_eq!(cpu.p_reg.get_interrupt_flag(), 1);
    // The request was consumed: the next step runs code again.
    assert_eq!(cpu.step(), Ok(2));
    assert_eq!(cpu.pc_reg, 0x9001);
}

#[test]
fn irq_respects_the_interrupt_disable_flag() {
    // With interrupt disable set (the power-up state), an IRQ waits.
    let mut cpu: CPU = cpu_at(0x0200);
    cpu.ram.write(0xfffe, 0x00);
    cpu.ram.write(0xffff, 0xa0);
    cpu.ram.write(0x0200, 0xea);
    cpu.request_irq();
    assert_eq!(cpu.step(), Ok(2));
    assert_eq!(cpu.pc_reg, 0x0201);

    // Once the flag is cleared the pending request is serviced.
    cpu.p_reg.set_interrupt_flag(false);
    assert_eq!(cpu.step(), Ok(7));
    assert_eq!(cpu.pc_reg, 0xa000);
}

#[test]
fn a_small_program_runs_to_its_result() {
    // LDA #$05; STA $10; LDX $10; INX; TXA — A ends at 6.
    let mut cpu: CPU = cpu_at(0x0200);
    let program: Vec<u8> = vec![0xa9, 0x05, 0x85, 0x10, 0xa6, 0x10, 0xe8, 0x8a];
    let mut addr: u16 = 0x0200;
    for b in program {
        cpu.ram.write(addr, b);
        addr += 1;
    }
    let mut total: u32 = 0;
    for _ in 0..5 {
        let cycles: u8 = cpu.step().expect("defined opcode");
        total += cycles as u32;
    }
    assert_eq!(cpu.a_reg, 0x06);
    assert_eq!(cpu.ram.read_byte(0x0010), 0x05);
    assert_eq!(total, 2 + 3 + 3 + 2 + 2);
    assert_eq!(cpu.pc_reg, 0x0208);
}
