//! Instruction semantics: one handler per instruction identity.
//!
//! Each handler is a pure state transition on the CPU, and its contract
//! equates the new machine state with the matching spec transition from
//! `crate::cpu::state`.  Flag-update rules follow the documented 6502
//! behavior throughout.
//!
//! Reference for the instruction set: <http://obelisk.me.uk/6502/reference.html>

use vstd::prelude::*;

use crate::cpu::cpu::CPU;
use crate::cpu::opcode::Operand;
use crate::cpu::state::{
    flag_set, operand_value, spec_adc, spec_and, spec_asl, spec_bit, spec_branch, spec_brk,
    spec_cpm, spec_cpx, spec_cpy, spec_dec, spec_dex, spec_dey, spec_eor, spec_inc, spec_inx,
    spec_iny, spec_jmp, spec_jsr, spec_lda, spec_ldx, spec_ldy, spec_lsr, spec_ora, spec_pha,
    spec_php, spec_pla, spec_plp, spec_rol, spec_ror, spec_rti, spec_rts, spec_sbc,
    spec_shift_write, spec_sta, spec_stx, spec_sty, spec_tax, spec_tay, spec_tsx, spec_txa,
    spec_txs, spec_tya, state_wf, CpuState,
};
use crate::cpu::state::{
    CARRY_BIT, DECIMAL_BIT, INTERRUPT_BIT, IRQ_VECTOR, NEGATIVE_BIT, OVERFLOW_BIT, ZERO_BIT,
};

verus! {

/// Reads the byte an operand stands for: the immediate value, the
/// accumulator, or the addressed memory cell.
pub fn read_operand(cpu: &CPU, op: Operand) -> (r: u8)
    requires
        state_wf(cpu@),
    ensures
        r == operand_value(cpu@, op),
{
    match op {
        Operand::Implied => 0,
        Operand::Accumulator => cpu.fetching_accumulator(),
        Operand::Immediate(v) => v,
        Operand::Address(a) => cpu.ram.read_byte(a),
    }
}

// --------------- Load and store operations ---------------
/// LDA: loads the operand into the accumulator.
pub fn lda(cpu: &mut CPU, op: Operand)
    requires
        state_wf(old(cpu)@),
    ensures
        state_wf(final(cpu)@),
        final(cpu)@ == spec_lda(old(cpu)@, operand_value(old(cpu)@, op)),
{
    let m = read_operand(cpu, op);
    cpu.a_reg = m;
    cpu.p_reg.set_zero_flag(m == 0);
    cpu.p_reg.set_negative_flag(m & 0x80 == 0x80);
}

/// LDX: loads the operand into X.
pub fn ldx(cpu: &mut CPU, op: Operand)
    requires
        state_wf(old(cpu)@),
    ensures
        state_wf(final(cpu)@),
        final(cpu)@ == spec_ldx(old(cpu)@, operand_value(old(cpu)@, op)),
{
    let m = read_operand(cpu, op);
    cpu.x_reg = m;
    cpu.p_reg.set_zero_flag(m == 0);
    cpu.p_reg.set_negative_flag(m & 0x80 == 0x80);
}

/// LDY: loads the operand into Y.
pub fn ldy(cpu: &mut CPU, op: Operand)
    requires
        state_wf(old(cpu)@),
    ensures
        state_wf(final(cpu)@),
        final(cpu)@ == spec_ldy(old(cpu)@, operand_value(old(cpu)@, op)),
{
    let m = read_operand(cpu, op);
    cpu.y_reg = m;
    cpu.p_reg.set_zero_flag(m == 0);
    cpu.p_reg.set_negative_flag(m & 0x80 == 0x80);
}

/// STA: stores the accumulator at the effective address; no flag changes.
pub fn sta(cpu: &mut CPU, address: u16)
    requires
        state_wf(old(cpu)@),
    ensures
        state_wf(final(cpu)@),
        final(cpu)@ == spec_sta(old(cpu)@, address),
{
    let value = cpu.a_reg;
    cpu.ram.write(address, value);
}

/// STX: stores X at the effective address; no flag changes.
pub fn stx(cpu: &mut CPU, address: u16)
    requires
        state_wf(old(cpu)@),
    ensures
        state_wf(final(cpu)@),
        final(cpu)@ == spec_stx(old(cpu)@, address),
{
    let value = cpu.x_reg;
    cpu.ram.write(address, value);
}

/// STY: stores Y at the effective address; no flag changes.
pub fn sty(cpu: &mut CPU, address: u16)
    requires
        state_wf(old(cpu)@),
    ensures
        state_wf(final(cpu)@),
        final(cpu)@ == spec_sty(old(cpu)@, address),
{
    let value = cpu.y_reg;
    cpu.ram.write(address, value);
}

// --------------- Register transfers ---------------
/// TAX: copies the accumulator to X.
pub fn tax(cpu: &mut CPU)
    requires
        state_wf(old(cpu)@),
    ensures
        state_wf(final(cpu)@),
        final(cpu)@ == spec_tax(old(cpu)@),
{
    cpu.x_reg = cpu.a_reg;
    let x = cpu.x_reg;
    cpu.p_reg.set_zero_flag(x == 0);
    cpu.p_reg.set_negative_flag(x & 0x80 == 0x80);
}

/// TAY: copies the accumulator to Y.
pub fn tay(cpu: &mut CPU)
    requires
        state_wf(old(cpu)@),
    ensures
        state_wf(final(cpu)@),
        final(cpu)@ == spec_tay(old(cpu)@),
{
    cpu.y_reg = cpu.a_reg;
    let y = cpu.y_reg;
    cpu.p_reg.set_zero_flag(y == 0);
    cpu.p_reg.set_negative_flag(y & 0x80 == 0x80);
}

/// TXA: copies X to the accumulator.
pub fn txa(cpu: &mut CPU)
    requires
        state_wf(old(cpu)@),
    ensures
        state_wf(final(cpu)@),
        final(cpu)@ == spec_txa(old(cpu)@),
{
    cpu.a_reg = cpu.x_reg;
    let accum = cpu.a_reg;
    cpu.p_reg.set_zero_flag(accum == 0);
    cpu.p_reg.set_negative_flag(accum & 0x80 == 0x80);
}

/// TYA: copies Y to the accumulator.
pub fn tya(cpu: &mut CPU)
    requires
        state_wf(old(cpu)@),
    ensures
        state_wf(final(cpu)@),
        final(cpu)@ == spec_tya(old(cpu)@),
{
    cpu.a_reg = cpu.y_reg;
    let accum = cpu.a_reg;
    cpu.p_reg.set_zero_flag(accum == 0);
    cpu.p_reg.set_negative_flag(accum & 0x80 == 0x80);
}

// --------------- Stack operations ---------------
/// TSX: copies the stack pointer to X.
pub fn tsx(cpu: &mut CPU)
    requires
        state_wf(old(cpu)@),
    ensures
        state_wf(final(cpu)@),
        final(cpu)@ == spec_tsx(old(cpu)@),
{
    cpu.x_reg = cpu.sp_reg;
    let x = cpu.x_reg;
    cpu.p_reg.set_zero_flag(x == 0);
    cpu.p_reg.set_negative_flag(x & 0x80 == 0x80);
}

/// TXS: copies X to the stack pointer; the one transfer with no flag
/// effect.
pub fn txs(cpu: &mut CPU)
    requires
        state_wf(old(cpu)@),
    ensures
        state_wf(final(cpu)@),
        final(cpu)@ == spec_txs(old(cpu)@),
{
    cpu.sp_reg = cpu.x_reg;
}

/// PHA: pushes the accumulator.
pub fn pha(cpu: &mut CPU)
    requires
        state_wf(old(cpu)@),
    ensures
        state_wf(final(cpu)@),
        final(cpu)@ == spec_pha(old(cpu)@),
{
    let accum = cpu.a_reg;
    cpu.push(accum);
}

/// PHP: pushes the status byte, always with the break and unused bits set.
pub fn php(cpu: &mut CPU)
    requires
        state_wf(old(cpu)@),
    ensures
        state_wf(final(cpu)@),
        final(cpu)@ == spec_php(old(cpu)@),
{
    let status = cpu.p_reg.data | 0x30;
    cpu.push(status);
}

/// PLA: pulls a byte into the accumulator.
pub fn pla(cpu: &mut CPU)
    requires
        state_wf(old(cpu)@),
    ensures
        state_wf(final(cpu)@),
        final(cpu)@ == spec_pla(old(cpu)@),
{
    let v = cpu.pull();
    cpu.a_reg = v;
    cpu.p_reg.set_zero_flag(v == 0);
    cpu.p_reg.set_negative_flag(v & 0x80 == 0x80);
}

/// PLP: pulls the status byte; the unused bit reads as 1 whatever was
/// stored.
pub fn plp(cpu: &mut CPU)
    requires
        state_wf(old(cpu)@),
    ensures
        state_wf(final(cpu)@),
        final(cpu)@ == spec_plp(old(cpu)@),
{
    let v = cpu.pull();
    cpu.p_reg.load(v);
}

// --------------- Logical ---------------
/// AND: bitwise AND of the accumulator and the operand.
pub fn and(cpu: &mut CPU, op: Operand)
    requires
        state_wf(old(cpu)@),
    ensures
        state_wf(final(cpu)@),
        final(cpu)@ == spec_and(old(cpu)@, operand_value(old(cpu)@, op)),
{
    let m = read_operand(cpu, op);
    let accum = cpu.a_reg & m;
    cpu.a_reg = accum;
    cpu.p_reg.set_zero_flag(accum == 0);
    cpu.p_reg.set_negative_flag(accum & 0x80 == 0x80);
}

/// EOR: bitwise exclusive OR of the accumulator and the operand.
pub fn eor(cpu: &mut CPU, op: Operand)
    requires
        state_wf(old(cpu)@),
    ensures
        state_wf(final(cpu)@),
        final(cpu)@ == spec_eor(old(cpu)@, operand_value(old(cpu)@, op)),
{
    let m = read_operand(cpu, op);
    let accum = cpu.a_reg ^ m;
    cpu.a_reg = accum;
    cpu.p_reg.set_zero_flag(accum == 0);
    cpu.p_reg.set_negative_flag(accum & 0x80 == 0x80);
}

/// ORA: bitwise inclusive OR of the accumulator and the operand.
pub fn ora(cpu: &mut CPU, op: Operand)
    requires
        state_wf(old(cpu)@),
    ensures
        state_wf(final(cpu)@),
        final(cpu)@ == spec_ora(old(cpu)@, operand_value(old(cpu)@, op)),
{
    let m = read_operand(cpu, op);
    let accum = cpu.a_reg | m;
    cpu.a_reg = accum;
    cpu.p_reg.set_zero_flag(accum == 0);
    cpu.p_reg.set_negative_flag(accum & 0x80 == 0x80);
}

/// NOP: consumes its bytes and cycles only.
pub fn nop(cpu: &mut CPU)
    ensures
        final(cpu)@ == old(cpu)@,
{
}

/// BIT: tests accumulator bits against memory without storing; zero from
/// the AND, overflow from bit 6 of the operand, negative from bit 7.
pub fn bit(cpu: &mut CPU, op: Operand)
    requires
        state_wf(old(cpu)@),
    ensures
        state_wf(final(cpu)@),
        final(cpu)@ == spec_bit(old(cpu)@, operand_value(old(cpu)@, op)),
{
    let m = read_operand(cpu, op);
    let accum = cpu.a_reg;
    cpu.p_reg.set_zero_flag(accum & m == 0);
    cpu.p_reg.set_overflow_flag(m & 0x40 == 0x40);
    cpu.p_reg.set_negative_flag(m & 0x80 == 0x80);
}

// --------------- Arithmetic operations ---------------
/// The addition both ADC and SBC come down to: `a + m + carry` in nine
/// bits, with carry, zero, signed overflow and negative derived from the
/// wide sum.
fn add_with_carry(cpu: &mut CPU, m: u8)
    requires
        state_wf(old(cpu)@),
    ensures
        state_wf(final(cpu)@),
        final(cpu)@ == crate::cpu::state::spec_adc_core(old(cpu)@, m),
{
    let carry = cpu.p_reg.get_carry_flag();
    let accum = cpu.a_reg;
    let sum: u16 = accum as u16 + m as u16 + carry as u16;
    let r: u8 = if sum < 0x100 {
        sum as u8
    } else {
        (sum - 0x100) as u8
    };
    cpu.a_reg = r;
    cpu.p_reg.set_carry_flag(sum > 0xff);
    cpu.p_reg.set_zero_flag(r == 0);
    cpu.p_reg.set_overflow_flag((accum ^ r) & (m ^ r) & 0x80 != 0);
    cpu.p_reg.set_negative_flag(r & 0x80 == 0x80);
}

/// ADC: adds the operand and the carry to the accumulator.  The decimal
/// flag is honored for storage but never alters the binary arithmetic on
/// this chip.
pub fn adc(cpu: &mut CPU, op: Operand)
    requires
        state_wf(old(cpu)@),
    ensures
        state_wf(final(cpu)@),
        final(cpu)@ == spec_adc(old(cpu)@, operand_value(old(cpu)@, op)),
{
    let m = read_operand(cpu, op);
    add_with_carry(cpu, m);
}

/// SBC: subtracts the operand from the accumulator as `a + !m + carry`,
/// carry acting as not-borrow.
pub fn sbc(cpu: &mut CPU, op: Operand)
    requires
        state_wf(old(cpu)@),
    ensures
        state_wf(final(cpu)@),
        final(cpu)@ == spec_sbc(old(cpu)@, operand_value(old(cpu)@, op)),
{
    let m = read_operand(cpu, op);
    add_with_carry(cpu, !m);
}

/// The flag updates shared by the compare instructions.
fn compare(cpu: &mut CPU, reg: u8, m: u8)
    requires
        state_wf(old(cpu)@),
    ensures
        state_wf(final(cpu)@),
        final(cpu)@ == (CpuState {
            p: crate::cpu::state::compare_flags(old(cpu)@.p, reg, m),
            ..old(cpu)@
        }),
{
    let r: u8 = if reg >= m {
        reg - m
    } else {
        ((reg as u16 + 0x100 - m as u16) as u16) as u8
    };
    cpu.p_reg.set_carry_flag(reg >= m);
    cpu.p_reg.set_zero_flag(reg == m);
    cpu.p_reg.set_negative_flag(r & 0x80 == 0x80);
}

/// CMP: compares the accumulator with the operand by unsigned subtraction.
pub fn cpm(cpu: &mut CPU, op: Operand)
    requires
        state_wf(old(cpu)@),
    ensures
        state_wf(final(cpu)@),
        final(cpu)@ == spec_cpm(old(cpu)@, operand_value(old(cpu)@, op)),
{
    let m = read_operand(cpu, op);
    let accum = cpu.a_reg;
    compare(cpu, accum, m);
}

/// CPX: compares X with the operand by unsigned subtraction.
pub fn cpx(cpu: &mut CPU, op: Operand)
    requires
        state_wf(old(cpu)@),
    ensures
        state_wf(final(cpu)@),
        final(cpu)@ == spec_cpx(old(cpu)@, operand_value(old(cpu)@, op)),
{
    let m = read_operand(cpu, op);
    let x = cpu.x_reg;
    compare(cpu, x, m);
}

/// CPY: compares Y with the operand by unsigned subtraction.
pub fn cpy(cpu: &mut CPU, op: Operand)
    requires
        state_wf(old(cpu)@),
    ensures
        state_wf(final(cpu)@),
        final(cpu)@ == spec_cpy(old(cpu)@, operand_value(old(cpu)@, op)),
{
    let m = read_operand(cpu, op);
    let y = cpu.y_reg;
    compare(cpu, y, m);
}

// --------------- Increments and decrements ---------------
/// INC: increments the addressed byte with 8-bit wraparound.
pub fn inc(cpu: &mut CPU, address: u16)
    requires
        state_wf(old(cpu)@),
    ensures
        state_wf(final(cpu)@),
        final(cpu)@ == spec_inc(old(cpu)@, address),
{
    let m = cpu.ram.read_byte(address);
    let r: u8 = if m == 0xff {
        0
    } else {
        m + 1
    };
    cpu.ram.write(address, r);
    cpu.p_reg.set_zero_flag(r == 0);
    cpu.p_reg.set_negative_flag(r & 0x80 == 0x80);
}

/// INX: increments X with 8-bit wraparound.
pub fn inx(cpu: &mut CPU)
    requires
        state_wf(old(cpu)@),
    ensures
        state_wf(final(cpu)@),
        final(cpu)@ == spec_inx(old(cpu)@),
{
    let r: u8 = if cpu.x_reg == 0xff {
        0
    } else {
        cpu.x_reg + 1
    };
    cpu.x_reg = r;
    cpu.p_reg.set_zero_flag(r == 0);
    cpu.p_reg.set_negative_flag(r & 0x80 == 0x80);
}

/// INY: increments Y with 8-bit wraparound.
pub fn iny(cpu: &mut CPU)
    requires
        state_wf(old(cpu)@),
    ensures
        state_wf(final(cpu)@),
        final(cpu)@ == spec_iny(old(cpu)@),
{
    let r: u8 = if cpu.y_reg == 0xff {
        0
    } else {
        cpu.y_reg + 1
    };
    cpu.y_reg = r;
    cpu.p_reg.set_zero_flag(r == 0);
    cpu.p_reg.set_negative_flag(r & 0x80 == 0x80);
}

/// DEC: decrements the addressed byte with 8-bit wraparound.
pub fn dec(cpu: &mut CPU, address: u16)
    requires
        state_wf(old(cpu)@),
    ensures
        state_wf(final(cpu)@),
        final(cpu)@ == spec_dec(old(cpu)@, address),
{
    let m = cpu.ram.read_byte(address);
    let r: u8 = if m == 0 {
        0xff
    } else {
        m - 1
    };
    cpu.ram.write(address, r);
    cpu.p_reg.set_zero_flag(r == 0);
    cpu.p_reg.set_negative_flag(r & 0x80 == 0x80);
}

/// DEX: decrements X with 8-bit wraparound.
pub fn dex(cpu: &mut CPU)
    requires
        state_wf(old(cpu)@),
    ensures
        state_wf(final(cpu)@),
        final(cpu)@ == spec_dex(old(cpu)@),
{
    let r: u8 = if cpu.x_reg == 0 {
        0xff
    } else {
        cpu.x_reg - 1
    };
    cpu.x_reg = r;
    cpu.p_reg.set_zero_flag(r == 0);
    cpu.p_reg.set_negative_flag(r & 0x80 == 0x80);
}

/// DEY: decrements Y with 8-bit wraparound.
pub fn dey(cpu: &mut CPU)
    requires
        state_wf(old(cpu)@),
    ensures
        state_wf(final(cpu)@),
        final(cpu)@ == spec_dey(old(cpu)@),
{
    let r: u8 = if cpu.y_reg == 0 {
        0xff
    } else {
        cpu.y_reg - 1
    };
    cpu.y_reg = r;
    cpu.p_reg.set_zero_flag(r == 0);
    cpu.p_reg.set_negative_flag(r & 0x80 == 0x80);
}

// --------------- Shifts ---------------
/// Writes a shift or rotate result back to the accumulator or the addressed
/// byte, with carry from the bit shifted out.
fn shift_write(cpu: &mut CPU, op: Operand, r: u8, carry: bool)
    requires
        state_wf(old(cpu)@),
    ensures
        state_wf(final(cpu)@),
        final(cpu)@ == spec_shift_write(old(cpu)@, op, r, carry),
{
    cpu.p_reg.set_carry_flag(carry);
    cpu.p_reg.set_zero_flag(r == 0);
    cpu.p_reg.set_negative_flag(r & 0x80 == 0x80);
    match op {
        Operand::Accumulator => {
            cpu.a_reg = r;
        },
        Operand::Address(addr) => {
            cpu.ram.write(addr, r);
        },
        _ => {},
    }
}

/// ASL: shifts the operand left one bit; the high bit leaves into carry.
pub fn asl(cpu: &mut CPU, op: Operand)
    requires
        state_wf(old(cpu)@),
    ensures
        state_wf(final(cpu)@),
        final(cpu)@ == spec_asl(old(cpu)@, op),
{
    let m = read_operand(cpu, op);
    let wide: u16 = m as u16 * 2;
    let r: u8 = if wide < 0x100 {
        wide as u8
    } else {
        (wide - 0x100) as u8
    };
    shift_write(cpu, op, r, m >= 0x80);
}

/// LSR: shifts the operand right one bit; the low bit leaves into carry.
pub fn lsr(cpu: &mut CPU, op: Operand)
    requires
        state_wf(old(cpu)@),
    ensures
        state_wf(final(cpu)@),
        final(cpu)@ == spec_lsr(old(cpu)@, op),
{
    let m = read_operand(cpu, op);
    shift_write(cpu, op, m / 2, m % 2 == 1);
}

/// ROL: rotates the operand left through carry.
pub fn rol(cpu: &mut CPU, op: Operand)
    requires
        state_wf(old(cpu)@),
    ensures
        state_wf(final(cpu)@),
        final(cpu)@ == spec_rol(old(cpu)@, op),
{
    let m = read_operand(cpu, op);
    let c = cpu.p_reg.get_carry_flag();
    let wide: u16 = m as u16 * 2 + c as u16;
    let r: u8 = if wide < 0x100 {
        wide as u8
    } else {
        (wide - 0x100) as u8
    };
    shift_write(cpu, op, r, m >= 0x80);
}

/// ROR: rotates the operand right through carry.
pub fn ror(cpu: &mut CPU, op: Operand)
    requires
        state_wf(old(cpu)@),
    ensures
        state_wf(final(cpu)@),
        final(cpu)@ == spec_ror(old(cpu)@, op),
{
    let m = read_operand(cpu, op);
    let c = cpu.p_reg.get_carry_flag();
    shift_write(cpu, op, m / 2 + c * 0x80, m % 2 == 1);
}

// --------------- Jumps and calls ---------------
/// JMP: sets the program counter to the effective address.
pub fn jmp(cpu: &mut CPU, address: u16)
    requires
        state_wf(old(cpu)@),
    ensures
        state_wf(final(cpu)@),
        final(cpu)@ == spec_jmp(old(cpu)@, address),
{
    cpu.pc_reg = address;
}

/// JSR: pushes the return address minus one (high byte first), then jumps.
pub fn jsr(cpu: &mut CPU, address: u16)
    requires
        state_wf(old(cpu)@),
    ensures
        state_wf(final(cpu)@),
        final(cpu)@ == spec_jsr(old(cpu)@, address),
{
    let ret: u16 = if cpu.pc_reg == 0 {
        0xffff
    } else {
        cpu.pc_reg - 1
    };
    cpu.push_word(ret);
    cpu.pc_reg = address;
}

/// RTS: pulls a word (low byte first) and resumes one past it.
pub fn rts(cpu: &mut CPU)
    requires
        state_wf(old(cpu)@),
    ensures
        state_wf(final(cpu)@),
        final(cpu)@ == spec_rts(old(cpu)@),
{
    let w = cpu.pull_word();
    cpu.pc_reg = if w == 0xffff {
        0
    } else {
        w + 1
    };
}

// --------------- Branches ---------------
/// The conditional jump all eight branches share: when `cond` holds the
/// program counter moves to `target` for one extra cycle, plus one more when
/// the branch crosses a page boundary.
fn branch(cpu: &mut CPU, cond: bool, target: u16) -> (extra: u8)
    requires
        state_wf(old(cpu)@),
    ensures
        state_wf(final(cpu)@),
        final(cpu)@ == spec_branch(old(cpu)@, cond, target).0,
        extra == spec_branch(old(cpu)@, cond, target).1,
        extra <= 2,
{
    if cond {
        let extra: u8 = if cpu.pc_reg / 0x100 == target / 0x100 {
            1
        } else {
            2
        };
        cpu.pc_reg = target;
        extra
    } else {
        0
    }
}

/// BCC: branches when carry is clear.
pub fn bcc(cpu: &mut CPU, target: u16) -> (extra: u8)
    requires
        state_wf(old(cpu)@),
    ensures
        state_wf(final(cpu)@),
        final(cpu)@ == spec_branch(old(cpu)@, !flag_set(old(cpu)@.p, CARRY_BIT), target).0,
        extra == spec_branch(old(cpu)@, !flag_set(old(cpu)@.p, CARRY_BIT), target).1,
        extra <= 2,
{
    let cond = cpu.p_reg.get_carry_flag() == 0;
    branch(cpu, cond, target)
}

/// BCS: branches when carry is set.
pub fn bcs(cpu: &mut CPU, target: u16) -> (extra: u8)
    requires
        state_wf(old(cpu)@),
    ensures
        state_wf(final(cpu)@),
        final(cpu)@ == spec_branch(old(cpu)@, flag_set(old(cpu)@.p, CARRY_BIT), target).0,
        extra == spec_branch(old(cpu)@, flag_set(old(cpu)@.p, CARRY_BIT), target).1,
        extra <= 2,
{
    let cond = cpu.p_reg.get_carry_flag() == 1;
    branch(cpu, cond, target)
}

/// BEQ: branches when zero is set.
pub fn beq(cpu: &mut CPU, target: u16) -> (extra: u8)
    requires
        state_wf(old(cpu)@),
    ensures
        state_wf(final(cpu)@),
        final(cpu)@ == spec_branch(old(cpu)@, flag_set(old(cpu)@.p, ZERO_BIT), target).0,
        extra == spec_branch(old(cpu)@, flag_set(old(cpu)@.p, ZERO_BIT), target).1,
        extra <= 2,
{
    let cond = cpu.p_reg.get_zero_flag() == 1;
    branch(cpu, cond, target)
}

/// BNE: branches when zero is clear.
pub fn bne(cpu: &mut CPU, target: u16) -> (extra: u8)
    requires
        state_wf(old(cpu)@),
    ensures
        state_wf(final(cpu)@),
        final(cpu)@ == spec_branch(old(cpu)@, !flag_set(old(cpu)@.p, ZERO_BIT), target).0,
        extra == spec_branch(old(cpu)@, !flag_set(old(cpu)@.p, ZERO_BIT), target).1,
        extra <= 2,
{
    let cond = cpu.p_reg.get_zero_flag() == 0;
    branch(cpu, cond, target)
}

/// BMI: branches when negative is set.
pub fn bmi(cpu: &mut CPU, target: u16) -> (extra: u8)
    requires
        state_wf(old(cpu)@),
    ensures
        state_wf(final(cpu)@),
        final(cpu)@ == spec_branch(old(cpu)@, flag_set(old(cpu)@.p, NEGATIVE_BIT), target).0,
        extra == spec_branch(old(cpu)@, flag_set(old(cpu)@.p, NEGATIVE_BIT), target).1,
        extra <= 2,
{
    let cond = cpu.p_reg.get_negative_flag() == 1;
    branch(cpu, cond, target)
}

/// BPL: branches when negative is clear.
pub fn bpl(cpu: &mut CPU, target: u16) -> (extra: u8)
    requires
        state_wf(old(cpu)@),
    ensures
        state_wf(final(cpu)@),
        final(cpu)@ == spec_branch(old(cpu)@, !flag_set(old(cpu)@.p, NEGATIVE_BIT), target).0,
        extra == spec_branch(old(cpu)@, !flag_set(old(cpu)@.p, NEGATIVE_BIT), target).1,
        extra <= 2,
{
    let cond = cpu.p_reg.get_negative_flag() == 0;
    branch(cpu, cond, target)
}

/// BVC: branches when overflow is clear.
pub fn bvc(cpu: &mut CPU, target: u16) -> (extra: u8)
    requires
        state_wf(old(cpu)@),
    ensures
        state_wf(final(cpu)@),
        final(cpu)@ == spec_branch(old(cpu)@, !flag_set(old(cpu)@.p, OVERFLOW_BIT), target).0,
        extra == spec_branch(old(cpu)@, !flag_set(old(cpu)@.p, OVERFLOW_BIT), target).1,
        extra <= 2,
{
    let cond = cpu.p_reg.get_overflow_flag() == 0;
    branch(cpu, cond, target)
}

/// BVS: branches when overflow is set.
pub fn bvs(cpu: &mut CPU, target: u16) -> (extra: u8)
    requires
        state_wf(old(cpu)@),
    ensures
        state_wf(final(cpu)@),
        final(cpu)@ == spec_branch(old(cpu)@, flag_set(old(cpu)@.p, OVERFLOW_BIT), target).0,
        extra == spec_branch(old(cpu)@, flag_set(old(cpu)@.p, OVERFLOW_BIT), target).1,
        extra <= 2,
{
    let cond = cpu.p_reg.get_overflow_flag() == 1;
    branch(cpu, cond, target)
}

// --------------- Status flag changes ---------------
/// CLC: clears carry.
pub fn clc(cpu: &mut CPU)
    requires
        state_wf(old(cpu)@),
    ensures
        state_wf(final(cpu)@),
        final(cpu)@ == (CpuState {
            p: crate::utils::spec_set_bit(old(cpu)@.p, CARRY_BIT, false),
            ..old(cpu)@
        }),
{
    cpu.p_reg.set_carry_flag(false);
}

/// CLD: clears the decimal flag.
pub fn cld(cpu: &mut CPU)
    requires
        state_wf(old(cpu)@),
    ensures
        state_wf(final(cpu)@),
        final(cpu)@ == (CpuState {
            p: crate::utils::spec_set_bit(old(cpu)@.p, DECIMAL_BIT, false),
            ..old(cpu)@
        }),
{
    cpu.p_reg.set_decimal_flag(false);
}

/// CLI: clears interrupt disable.
pub fn cli(cpu: &mut CPU)
    requires
        state_wf(old(cpu)@),
    ensures
        state_wf(final(cpu)@),
        final(cpu)@ == (CpuState {
            p: crate::utils::spec_set_bit(old(cpu)@.p, INTERRUPT_BIT, false),
            ..old(cpu)@
        }),
{
    cpu.p_reg.set_interrupt_flag(false);
}

/// CLV: clears overflow.
pub fn clv(cpu: &mut CPU)
    requires
        state_wf(old(cpu)@),
    ensures
        state_wf(final(cpu)@),
        final(cpu)@ == (CpuState {
            p: crate::utils::spec_set_bit(old(cpu)@.p, OVERFLOW_BIT, false),
            ..old(cpu)@
        }),
{
    cpu.p_reg.set_overflow_flag(false);
}

/// SEC: sets carry.
pub fn sec(cpu: &mut CPU)
    requires
        state_wf(old(cpu)@),
    ensures
        state_wf(final(cpu)@),
        final(cpu)@ == (CpuState {
            p: crate::utils::spec_set_bit(old(cpu)@.p, CARRY_BIT, true),
            ..old(cpu)@
        }),
{
    cpu.p_reg.set_carry_flag(true);
}

/// SED: sets the decimal flag; it is stored but never alters the binary
/// arithmetic on this chip.
pub fn sed(cpu: &mut CPU)
    requires
        state_wf(old(cpu)@),
    ensures
        state_wf(final(cpu)@),
        final(cpu)@ == (CpuState {
            p: crate::utils::spec_set_bit(old(cpu)@.p, DECIMAL_BIT, true),
            ..old(cpu)@
        }),
{
    cpu.p_reg.set_decimal_flag(true);
}

/// SEI: sets interrupt disable.
pub fn sei(cpu: &mut CPU)
    requires
        state_wf(old(cpu)@),
    ensures
        state_wf(final(cpu)@),
        final(cpu)@ == (CpuState {
            p: crate::utils::spec_set_bit(old(cpu)@.p, INTERRUPT_BIT, true),
            ..old(cpu)@
        }),
{
    cpu.p_reg.set_interrupt_flag(true);
}

// --------------- System functions ---------------
/// BRK: pushes the program counter (high byte first) and the status byte
/// with break set, sets interrupt disable, and jumps through the IRQ/BRK
/// vector.
pub fn brk(cpu: &mut CPU)
    requires
        state_wf(old(cpu)@),
    ensures
        state_wf(final(cpu)@),
        final(cpu)@ == spec_brk(old(cpu)@),
{
    let pc = cpu.pc_reg;
    cpu.push_word(pc);
    let status = cpu.p_reg.data | 0x30;
    cpu.push(status);
    cpu.p_reg.set_interrupt_flag(true);
    cpu.pc_reg = cpu.ram.read_word(IRQ_VECTOR);
}

/// RTI: pulls the status byte, then the program counter (low byte first),
/// and resumes there; the unused status bit reads as 1.
pub fn rti(cpu: &mut CPU)
    requires
        state_wf(old(cpu)@),
    ensures
        state_wf(final(cpu)@),
        final(cpu)@ == spec_rti(old(cpu)@),
{
    let v = cpu.pull();
    cpu.p_reg.load(v);
    let w = cpu.pull_word();
    cpu.pc_reg = w;
}

} // verus!
