//! The mathematical model of the CPU.
//!
//! `CpuState` is the machine's one externally visible state: the register
//! file plus the memory contents.  Every contract in the crate speaks of this
//! model; the spec functions here say, for each addressing mode and each
//! instruction identity, exactly which next state the hardware produces.
//! `spec_step` composes them into the single transition "execute one
//! instruction".

use vstd::prelude::*;

use crate::cpu::opcode::{spec_lookup, CpuError, Label, Operand};
use crate::memory::{spec_read_word, MEMORY_SIZE};
use crate::utils::{spec_get_bit, spec_set_bit};
use crate::cpu::opcode::AddressingMode;

verus! {

/// Bit 0 of the status register: carry.
pub const CARRY_BIT: u8 = 0;

/// Bit 1 of the status register: zero.
pub const ZERO_BIT: u8 = 1;

/// Bit 2 of the status register: interrupt disable.
pub const INTERRUPT_BIT: u8 = 2;

/// Bit 3 of the status register: decimal mode (parsed but without arithmetic
/// effect on this second-source chip).
pub const DECIMAL_BIT: u8 = 3;

/// Bit 4 of the status register: break, meaningful only in copies of the
/// register pushed on the stack.
pub const BREAK_BIT: u8 = 4;

/// Bit 5 of the status register: unused, always reads as 1.
pub const UNUSED_BIT: u8 = 5;

/// Bit 6 of the status register: overflow.
pub const OVERFLOW_BIT: u8 = 6;

/// Bit 7 of the status register: negative.
pub const NEGATIVE_BIT: u8 = 7;

/// The 256-byte page the stack lives in: `0x0100..=0x01ff`.
pub const STACK_PAGE: u16 = 0x0100;

/// Where the program counter is loaded from when an NMI is serviced.
pub const NMI_VECTOR: u16 = 0xfffa;

/// Where the program counter is loaded from on reset.
pub const RESET_VECTOR: u16 = 0xfffc;

/// Where the program counter is loaded from on IRQ and BRK.
pub const IRQ_VECTOR: u16 = 0xfffe;

/// The externally visible machine state: register file, status byte, memory
/// contents and the externally triggered interrupt requests.
#[verifier::ext_equal]
pub ghost struct CpuState {
    /// Accumulator.
    pub a: u8,
    /// Index register X.
    pub x: u8,
    /// Index register Y.
    pub y: u8,
    /// Status register byte.
    pub p: u8,
    /// Stack pointer: an offset into the stack page.
    pub sp: u8,
    /// Program counter.
    pub pc: u16,
    /// The 64 KB of memory behind the bus.
    pub mem: Seq<u8>,
    /// A non-maskable interrupt has been requested.
    pub nmi_pending: bool,
    /// A maskable interrupt has been requested.
    pub irq_pending: bool,
}

/// Whether flag bit `i` of status byte `p` is set.
pub open spec fn flag_set(p: u8, i: u8) -> bool {
    spec_get_bit(p, i) == 1
}

/// A well-formed state: the memory covers the whole 16-bit address space and
/// the unused status bit reads as 1, as it always does on hardware.
pub open spec fn state_wf(s: CpuState) -> bool {
    &&& s.mem.len() == MEMORY_SIZE
    &&& flag_set(s.p, UNUSED_BIT)
}

// ---------------------------------------------------------------------------
// Modular arithmetic on registers and addresses.
// ---------------------------------------------------------------------------
/// `a + b` wrapped to 8 bits.
pub open spec fn wrap_add8(a: u8, b: u8) -> u8 {
    if a + b < 0x100 {
        (a + b) as u8
    } else {
        (a + b - 0x100) as u8
    }
}

/// `a - b` wrapped to 8 bits.
pub open spec fn wrap_sub8(a: u8, b: u8) -> u8 {
    if a >= b {
        (a - b) as u8
    } else {
        (a + 0x100 - b) as u8
    }
}

/// `a + b` wrapped to 16 bits.
pub open spec fn wrap_add16(a: u16, b: u16) -> u16 {
    if a + b < 0x10000 {
        (a + b) as u16
    } else {
        (a + b - 0x10000) as u16
    }
}

/// `a - b` wrapped to 16 bits.
pub open spec fn wrap_sub16(a: u16, b: u16) -> u16 {
    if a >= b {
        (a - b) as u16
    } else {
        (a + 0x10000 - b) as u16
    }
}

/// Whether two addresses lie in the same 256-byte page, that is, share their
/// high byte.
pub open spec fn same_page(a: u16, b: u16) -> bool {
    a / 0x100 == b / 0x100
}

/// `p` with the zero flag set from `r == 0` and the negative flag set from
/// bit 7 of `r`.
pub open spec fn set_zn(p: u8, r: u8) -> u8 {
    spec_set_bit(spec_set_bit(p, ZERO_BIT, r == 0), NEGATIVE_BIT, r & 0x80 == 0x80)
}

// ---------------------------------------------------------------------------
// The stack: a LIFO over the stack page, with a wrapping 8-bit pointer.
// ---------------------------------------------------------------------------
/// Pushes `v`: writes it at the stack pointer's slot, then decrements the
/// pointer, wrapping within 8 bits.
pub open spec fn spec_push(s: CpuState, v: u8) -> CpuState {
    CpuState { mem: s.mem.update(STACK_PAGE + s.sp, v), sp: wrap_sub8(s.sp, 1), ..s }
}

/// Pulls a byte: increments the pointer (wrapping within 8 bits), then reads
/// the slot it points at.
pub open spec fn spec_pull(s: CpuState) -> (CpuState, u8) {
    let sp1 = wrap_add8(s.sp, 1);
    (CpuState { sp: sp1, ..s }, s.mem[STACK_PAGE + sp1])
}

/// Pushes a word, high byte first.
pub open spec fn spec_push_word(s: CpuState, v: u16) -> CpuState {
    spec_push(spec_push(s, (v / 0x100) as u8), (v % 0x100) as u8)
}

/// Pulls a word, low byte first.
pub open spec fn spec_pull_word(s: CpuState) -> (CpuState, u16) {
    let (s1, lo) = spec_pull(s);
    let (s2, hi) = spec_pull(s1);
    (s2, (lo + hi * 0x100) as u16)
}

// ---------------------------------------------------------------------------
// Addressing-mode resolution.
// ---------------------------------------------------------------------------
/// The byte an instruction operates on, for each kind of resolved operand.
pub open spec fn operand_value(s: CpuState, op: Operand) -> u8 {
    match op {
        Operand::Implied => 0u8,
        Operand::Accumulator => s.a,
        Operand::Immediate(v) => v,
        Operand::Address(a) => s.mem[a as int],
    }
}

/// The state with the program counter advanced past `n` operand bytes.
pub open spec fn advance_pc(s: CpuState, n: u16) -> CpuState {
    CpuState { pc: wrap_add16(s.pc, n), ..s }
}

/// The 16-bit pointer read from zero-page location `zp`, with the high byte
/// taken from the next zero-page location, wrapping within the page.
pub open spec fn zp_pointer(mem: Seq<u8>, zp: u8) -> u16 {
    (mem[zp as int] + mem[wrap_add8(zp, 1) as int] * 0x100) as u16
}

/// The branch target for a relative offset: the program counter after the
/// offset byte, plus the offset read as signed two's-complement.
pub open spec fn relative_target(pc: u16, offset: u8) -> u16 {
    if offset < 0x80 {
        wrap_add16(pc, offset as u16)
    } else {
        wrap_sub16(pc, (0x100 - offset) as u16)
    }
}

/// The target of an indirect jump through `ptr`, reproducing the hardware's
/// page-wrap bug: the high byte is fetched from `ptr` with only its low byte
/// incremented, so a pointer ending in `0xff` wraps to the start of its own
/// page instead of crossing into the next one.
pub open spec fn indirect_target(mem: Seq<u8>, ptr: u16) -> u16 {
    let hi_addr = ((ptr / 0x100) * 0x100 + wrap_add8((ptr % 0x100) as u8, 1)) as u16;
    (mem[ptr as int] + mem[hi_addr as int] * 0x100) as u16
}

/// Resolves one addressing mode: the state with the program counter advanced
/// past the operand bytes, the resolved operand, and the extra cycle charged
/// when an indexed mode crosses a page boundary.
pub open spec fn spec_resolve(s: CpuState, mode: AddressingMode) -> (CpuState, Operand, u8) {
    match mode {
        AddressingMode::Implicit => (s, Operand::Implied, 0u8),
        AddressingMode::Accumulator => (s, Operand::Accumulator, 0u8),
        AddressingMode::Immediate => (advance_pc(s, 1), Operand::Immediate(s.mem[s.pc as int]), 0u8),
        AddressingMode::ZeroPage => (advance_pc(s, 1), Operand::Address(s.mem[s.pc as int] as u16), 0u8),
        AddressingMode::ZeroPageX => (
            advance_pc(s, 1),
            Operand::Address(wrap_add8(s.mem[s.pc as int], s.x) as u16),
            0u8,
        ),
        AddressingMode::ZeroPageY => (
            advance_pc(s, 1),
            Operand::Address(wrap_add8(s.mem[s.pc as int], s.y) as u16),
            0u8,
        ),
        AddressingMode::Absolute => (advance_pc(s, 2), Operand::Address(spec_read_word(s.mem, s.pc)), 0u8),
        AddressingMode::AbsoluteX => {
            let base = spec_read_word(s.mem, s.pc);
            let addr = wrap_add16(base, s.x as u16);
            (advance_pc(s, 2), Operand::Address(addr), if same_page(base, addr) {
                0u8
            } else {
                1u8
            })
        },
        AddressingMode::AbsoluteY => {
            let base = spec_read_word(s.mem, s.pc);
            let addr = wrap_add16(base, s.y as u16);
            (advance_pc(s, 2), Operand::Address(addr), if same_page(base, addr) {
                0u8
            } else {
                1u8
            })
        },
        AddressingMode::Relative => (
            advance_pc(s, 1),
            Operand::Address(relative_target(wrap_add16(s.pc, 1), s.mem[s.pc as int])),
            0u8,
        ),
        AddressingMode::Indirect => (
            advance_pc(s, 2),
            Operand::Address(indirect_target(s.mem, spec_read_word(s.mem, s.pc))),
            0u8,
        ),
        AddressingMode::IndirectX => (
            advance_pc(s, 1),
            Operand::Address(zp_pointer(s.mem, wrap_add8(s.mem[s.pc as int], s.x))),
            0u8,
        ),
        AddressingMode::IndirectY => {
            let base = zp_pointer(s.mem, s.mem[s.pc as int]);
            let addr = wrap_add16(base, s.y as u16);
            (advance_pc(s, 1), Operand::Address(addr), if same_page(base, addr) {
                0u8
            } else {
                1u8
            })
        },
    }
}

// ---------------------------------------------------------------------------
// Instruction semantics: one state transition per instruction identity.
// ---------------------------------------------------------------------------
/// Loads `m` into the accumulator; zero and negative follow the loaded value.
pub open spec fn spec_lda(s: CpuState, m: u8) -> CpuState {
    CpuState { a: m, p: set_zn(s.p, m), ..s }
}

/// Loads `m` into X; zero and negative follow the loaded value.
pub open spec fn spec_ldx(s: CpuState, m: u8) -> CpuState {
    CpuState { x: m, p: set_zn(s.p, m), ..s }
}

/// Loads `m` into Y; zero and negative follow the loaded value.
pub open spec fn spec_ldy(s: CpuState, m: u8) -> CpuState {
    CpuState { y: m, p: set_zn(s.p, m), ..s }
}

/// Stores the accumulator at `addr`; no flag changes.
pub open spec fn spec_sta(s: CpuState, addr: u16) -> CpuState {
    CpuState { mem: s.mem.update(addr as int, s.a), ..s }
}

/// Stores X at `addr`; no flag changes.
pub open spec fn spec_stx(s: CpuState, addr: u16) -> CpuState {
    CpuState { mem: s.mem.update(addr as int, s.x), ..s }
}

/// Stores Y at `addr`; no flag changes.
pub open spec fn spec_sty(s: CpuState, addr: u16) -> CpuState {
    CpuState { mem: s.mem.update(addr as int, s.y), ..s }
}

/// Copies the accumulator to X; zero and negative follow the copied value.
pub open spec fn spec_tax(s: CpuState) -> CpuState {
    CpuState { x: s.a, p: set_zn(s.p, s.a), ..s }
}

/// Copies the accumulator to Y; zero and negative follow the copied value.
pub open spec fn spec_tay(s: CpuState) -> CpuState {
    CpuState { y: s.a, p: set_zn(s.p, s.a), ..s }
}

/// Copies X to the accumulator; zero and negative follow the copied value.
pub open spec fn spec_txa(s: CpuState) -> CpuState {
    CpuState { a: s.x, p: set_zn(s.p, s.x), ..s }
}

/// Copies Y to the accumulator; zero and negative follow the copied value.
pub open spec fn spec_tya(s: CpuState) -> CpuState {
    CpuState { a: s.y, p: set_zn(s.p, s.y), ..s }
}

/// Copies the stack pointer to X; zero and negative follow the copied value.
pub open spec fn spec_tsx(s: CpuState) -> CpuState {
    CpuState { x: s.sp, p: set_zn(s.p, s.sp), ..s }
}

/// Copies X to the stack pointer; the one transfer with no flag effect.
pub open spec fn spec_txs(s: CpuState) -> CpuState {
    CpuState { sp: s.x, ..s }
}

/// Pushes the accumulator.
pub open spec fn spec_pha(s: CpuState) -> CpuState {
    spec_push(s, s.a)
}

/// Pushes the status byte, with the break and unused bits both set, as the
/// hardware always does outside of an interrupt sequence.
pub open spec fn spec_php(s: CpuState) -> CpuState {
    spec_push(s, s.p | 0x30)
}

/// Pulls a byte into the accumulator; zero and negative follow it.
pub open spec fn spec_pla(s: CpuState) -> CpuState {
    let (s1, v) = spec_pull(s);
    CpuState { a: v, p: set_zn(s1.p, v), ..s1 }
}

/// Pulls the status byte; the unused bit reads as 1 whatever was stored.
pub open spec fn spec_plp(s: CpuState) -> CpuState {
    let (s1, v) = spec_pull(s);
    CpuState { p: v | 0x20, ..s1 }
}

/// Bitwise AND of the accumulator and `m`; zero and negative follow the
/// result.
pub open spec fn spec_and(s: CpuState, m: u8) -> CpuState {
    CpuState { a: s.a & m, p: set_zn(s.p, s.a & m), ..s }
}

/// Bitwise exclusive OR of the accumulator and `m`; zero and negative follow
/// the result.
pub open spec fn spec_eor(s: CpuState, m: u8) -> CpuState {
    CpuState { a: s.a ^ m, p: set_zn(s.p, s.a ^ m), ..s }
}

/// Bitwise inclusive OR of the accumulator and `m`; zero and negative follow
/// the result.
pub open spec fn spec_ora(s: CpuState, m: u8) -> CpuState {
    CpuState { a: s.a | m, p: set_zn(s.p, s.a | m), ..s }
}

/// Bit test: zero from `a & m == 0`, overflow from bit 6 of `m`, negative
/// from bit 7 of `m`; nothing is stored.
pub open spec fn spec_bit(s: CpuState, m: u8) -> CpuState {
    let p1 = spec_set_bit(s.p, ZERO_BIT, s.a & m == 0);
    let p2 = spec_set_bit(p1, OVERFLOW_BIT, m & 0x40 == 0x40);
    let p3 = spec_set_bit(p2, NEGATIVE_BIT, m & 0x80 == 0x80);
    CpuState { p: p3, ..s }
}

/// Add with carry: the 9-bit sum `a + m + carry` decides the carry flag, its
/// low byte becomes the accumulator, and overflow is signed-overflow
/// detection on bit 7 — set exactly when both addends share a sign the
/// result does not.  Decimal mode never alters the binary arithmetic on
/// this chip.
pub open spec fn spec_adc_core(s: CpuState, m: u8) -> CpuState {
    let c = spec_get_bit(s.p, CARRY_BIT);
    let sum = s.a + m + c;
    let r = if sum < 0x100 {
        sum as u8
    } else {
        (sum - 0x100) as u8
    };
    let p1 = spec_set_bit(s.p, CARRY_BIT, sum > 0xff);
    let p2 = spec_set_bit(p1, ZERO_BIT, r == 0);
    let p3 = spec_set_bit(p2, OVERFLOW_BIT, (s.a ^ r) & (m ^ r) & 0x80 != 0);
    let p4 = spec_set_bit(p3, NEGATIVE_BIT, r & 0x80 == 0x80);
    CpuState { a: r, p: p4, ..s }
}

/// ADC on operand `m`.
pub open spec fn spec_adc(s: CpuState, m: u8) -> CpuState {
    spec_adc_core(s, m)
}

/// SBC on operand `m`: subtraction as two's-complement addition, `a + !m +
/// carry`, with carry acting as not-borrow.
pub open spec fn spec_sbc(s: CpuState, m: u8) -> CpuState {
    spec_adc_core(s, !m)
}

/// The flag effect shared by the compare instructions: carry when the
/// register is at least `m`, zero on equality, negative from bit 7 of the
/// wrapped difference.
pub open spec fn compare_flags(p: u8, reg: u8, m: u8) -> u8 {
    let r = wrap_sub8(reg, m);
    let p1 = spec_set_bit(p, CARRY_BIT, reg >= m);
    let p2 = spec_set_bit(p1, ZERO_BIT, reg == m);
    spec_set_bit(p2, NEGATIVE_BIT, r & 0x80 == 0x80)
}

/// Compares the accumulator with `m`.
pub open spec fn spec_cpm(s: CpuState, m: u8) -> CpuState {
    CpuState { p: compare_flags(s.p, s.a, m), ..s }
}

/// Compares X with `m`.
pub open spec fn spec_cpx(s: CpuState, m: u8) -> CpuState {
    CpuState { p: compare_flags(s.p, s.x, m), ..s }
}

/// Compares Y with `m`.
pub open spec fn spec_cpy(s: CpuState, m: u8) -> CpuState {
    CpuState { p: compare_flags(s.p, s.y, m), ..s }
}

/// Increments the byte at `addr` with 8-bit wraparound; zero and negative
/// follow the result.
pub open spec fn spec_inc(s: CpuState, addr: u16) -> CpuState {
    let r = wrap_add8(s.mem[addr as int], 1);
    CpuState { mem: s.mem.update(addr as int, r), p: set_zn(s.p, r), ..s }
}

/// Increments X with 8-bit wraparound; zero and negative follow the result.
pub open spec fn spec_inx(s: CpuState) -> CpuState {
    let r = wrap_add8(s.x, 1);
    CpuState { x: r, p: set_zn(s.p, r), ..s }
}

/// Increments Y with 8-bit wraparound; zero and negative follow the result.
pub open spec fn spec_iny(s: CpuState) -> CpuState {
    let r = wrap_add8(s.y, 1);
    CpuState { y: r, p: set_zn(s.p, r), ..s }
}

/// Decrements the byte at `addr` with 8-bit wraparound; zero and negative
/// follow the result.
pub open spec fn spec_dec(s: CpuState, addr: u16) -> CpuState {
    let r = wrap_sub8(s.mem[addr as int], 1);
    CpuState { mem: s.mem.update(addr as int, r), p: set_zn(s.p, r), ..s }
}

/// Decrements X with 8-bit wraparound; zero and negative follow the result.
pub open spec fn spec_dex(s: CpuState) -> CpuState {
    let r = wrap_sub8(s.x, 1);
    CpuState { x: r, p: set_zn(s.p, r), ..s }
}

/// Decrements Y with 8-bit wraparound; zero and negative follow the result.
pub open spec fn spec_dey(s: CpuState) -> CpuState {
    let r = wrap_sub8(s.y, 1);
    CpuState { y: r, p: set_zn(s.p, r), ..s }
}

/// Writes a shift or rotate result back where it came from — the accumulator
/// or the addressed byte — and sets carry to the bit shifted out, with zero
/// and negative following the result.
pub open spec fn spec_shift_write(s: CpuState, op: Operand, r: u8, carry: bool) -> CpuState {
    let p1 = spec_set_bit(s.p, CARRY_BIT, carry);
    let p2 = set_zn(p1, r);
    match op {
        Operand::Accumulator => CpuState { a: r, p: p2, ..s },
        Operand::Address(addr) => CpuState { mem: s.mem.update(addr as int, r), p: p2, ..s },
        _ => CpuState { p: p2, ..s },
    }
}

/// Arithmetic shift left: the high bit leaves into carry, a 0 enters at the
/// bottom.
pub open spec fn spec_asl(s: CpuState, op: Operand) -> CpuState {
    let m = operand_value(s, op);
    let r = if m * 2 < 0x100 {
        (m * 2) as u8
    } else {
        (m * 2 - 0x100) as u8
    };
    spec_shift_write(s, op, r, m >= 0x80)
}

/// Logical shift right: the low bit leaves into carry, a 0 enters at the top.
pub open spec fn spec_lsr(s: CpuState, op: Operand) -> CpuState {
    let m = operand_value(s, op);
    spec_shift_write(s, op, (m / 2) as u8, m % 2 == 1)
}

/// Rotate left: the high bit leaves into carry and the old carry enters at
/// the bottom.
pub open spec fn spec_rol(s: CpuState, op: Operand) -> CpuState {
    let m = operand_value(s, op);
    let c = spec_get_bit(s.p, CARRY_BIT);
    let wide = m * 2 + c;
    let r = if wide < 0x100 {
        wide as u8
    } else {
        (wide - 0x100) as u8
    };
    spec_shift_write(s, op, r, m >= 0x80)
}

/// Rotate right: the low bit leaves into carry and the old carry enters at
/// the top.
pub open spec fn spec_ror(s: CpuState, op: Operand) -> CpuState {
    let m = operand_value(s, op);
    let c = spec_get_bit(s.p, CARRY_BIT);
    spec_shift_write(s, op, (m / 2 + c * 0x80) as u8, m % 2 == 1)
}

/// Jump: the program counter becomes the effective address.
pub open spec fn spec_jmp(s: CpuState, addr: u16) -> CpuState {
    CpuState { pc: addr, ..s }
}

/// Jump to subroutine: pushes the return address minus one (high byte
/// first), then jumps.
pub open spec fn spec_jsr(s: CpuState, addr: u16) -> CpuState {
    CpuState { pc: addr, ..spec_push_word(s, wrap_sub16(s.pc, 1)) }
}

/// Return from subroutine: pulls a word (low byte first) and resumes one
/// past it.
pub open spec fn spec_rts(s: CpuState) -> CpuState {
    let (s1, w) = spec_pull_word(s);
    CpuState { pc: wrap_add16(w, 1), ..s1 }
}

/// A conditional branch: when `cond` holds the program counter moves to
/// `target` at the cost of one extra cycle, plus one more when the branch
/// leaves the page the program counter was on.
pub open spec fn spec_branch(s: CpuState, cond: bool, target: u16) -> (CpuState, u8) {
    if cond {
        (CpuState { pc: target, ..s }, if same_page(s.pc, target) {
            1u8
        } else {
            2u8
        })
    } else {
        (s, 0u8)
    }
}

/// Break: pushes the program counter (high byte first) and the status byte
/// with break and unused set, sets interrupt disable, and jumps through the
/// IRQ/BRK vector.
pub open spec fn spec_brk(s: CpuState) -> CpuState {
    let s1 = spec_push_word(s, s.pc);
    let s2 = spec_push(s1, s.p | 0x30);
    CpuState {
        p: spec_set_bit(s2.p, INTERRUPT_BIT, true),
        pc: spec_read_word(s2.mem, IRQ_VECTOR),
        ..s2
    }
}

/// Return from interrupt: pulls the status byte (unused bit forced to 1),
/// then the program counter, low byte first.
pub open spec fn spec_rti(s: CpuState) -> CpuState {
    let (s1, v) = spec_pull(s);
    let s2 = CpuState { p: v | 0x20, ..s1 };
    let (s3, w) = spec_pull_word(s2);
    CpuState { pc: w, ..s3 }
}

/// Servicing an interrupt between instructions: pushes the program counter
/// and the status byte with the break bit clear, sets interrupt disable, and
/// jumps through `vector`.
pub open spec fn spec_interrupt(s: CpuState, vector: u16) -> CpuState {
    let s1 = spec_push_word(s, s.pc);
    let s2 = spec_push(s1, s.p & 0xef);
    CpuState {
        p: spec_set_bit(s2.p, INTERRUPT_BIT, true),
        pc: spec_read_word(s2.mem, vector),
        ..s2
    }
}

/// Reset: three phantom stack-pointer decrements, interrupt disable set, and
/// the program counter loaded from the reset vector.
pub open spec fn spec_reset(s: CpuState) -> CpuState {
    CpuState {
        sp: wrap_sub8(s.sp, 3),
        p: spec_set_bit(s.p, INTERRUPT_BIT, true),
        pc: spec_read_word(s.mem, RESET_VECTOR),
        ..s
    }
}

/// Dispatches one decoded instruction on `s`: the next state, and the extra
/// cycles a taken branch charges.
pub open spec fn spec_execute(label: Label, op: Operand, s: CpuState) -> (CpuState, u8) {
    match label {
        Label::ADC => (spec_adc(s, operand_value(s, op)), 0u8),
        Label::AND => (spec_and(s, operand_value(s, op)), 0u8),
        Label::ASL => (spec_asl(s, op), 0u8),
        Label::BCC => match op {
            Operand::Address(t) => spec_branch(s, !flag_set(s.p, CARRY_BIT), t),
            _ => (s, 0u8),
        },
        Label::BCS => match op {
            Operand::Address(t) => spec_branch(s, flag_set(s.p, CARRY_BIT), t),
            _ => (s, 0u8),
        },
        Label::BEQ => match op {
            Operand::Address(t) => spec_branch(s, flag_set(s.p, ZERO_BIT), t),
            _ => (s, 0u8),
        },
        Label::BIT => (spec_bit(s, operand_value(s, op)), 0u8),
        Label::BMI => match op {
            Operand::Address(t) => spec_branch(s, flag_set(s.p, NEGATIVE_BIT), t),
            _ => (s, 0u8),
        },
        Label::BNE => match op {
            Operand::Address(t) => spec_branch(s, !flag_set(s.p, ZERO_BIT), t),
            _ => (s, 0u8),
        },
        Label::BPL => match op {
            Operand::Address(t) => spec_branch(s, !flag_set(s.p, NEGATIVE_BIT), t),
            _ => (s, 0u8),
        },
        Label::BRK => (spec_brk(s), 0u8),
        Label::BVC => match op {
            Operand::Address(t) => spec_branch(s, !flag_set(s.p, OVERFLOW_BIT), t),
            _ => (s, 0u8),
        },
        Label::BVS => match op {
            Operand::Address(t) => spec_branch(s, flag_set(s.p, OVERFLOW_BIT), t),
            _ => (s, 0u8),
        },
        Label::CLC => (CpuState { p: spec_set_bit(s.p, CARRY_BIT, false), ..s }, 0u8),
        Label::CLD => (CpuState { p: spec_set_bit(s.p, DECIMAL_BIT, false), ..s }, 0u8),
        Label::CLI => (CpuState { p: spec_set_bit(s.p, INTERRUPT_BIT, false), ..s }, 0u8),
        Label::CLV => (CpuState { p: spec_set_bit(s.p, OVERFLOW_BIT, false), ..s }, 0u8),
        Label::CMP => (spec_cpm(s, operand_value(s, op)), 0u8),
        Label::CPX => (spec_cpx(s, operand_value(s, op)), 0u8),
        Label::CPY => (spec_cpy(s, operand_value(s, op)), 0u8),
        Label::DEC => match op {
            Operand::Address(a) => (spec_dec(s, a), 0u8),
            _ => (s, 0u8),
        },
        Label::DEX => (spec_dex(s), 0u8),
        Label::DEY => (spec_dey(s), 0u8),
        Label::EOR => (spec_eor(s, operand_value(s, op)), 0u8),
        Label::INC => match op {
            Operand::Address(a) => (spec_inc(s, a), 0u8),
            _ => (s, 0u8),
        },
        Label::INX => (spec_inx(s), 0u8),
        Label::INY => (spec_iny(s), 0u8),
        Label::JMP => match op {
            Operand::Address(a) => (spec_jmp(s, a), 0u8),
            _ => (s, 0u8),
        },
        Label::JSR => match op {
            Operand::Address(a) => (spec_jsr(s, a), 0u8),
            _ => (s, 0u8),
        },
        Label::LDA => (spec_lda(s, operand_value(s, op)), 0u8),
        Label::LDX => (spec_ldx(s, operand_value(s, op)), 0u8),
        Label::LDY => (spec_ldy(s, operand_value(s, op)), 0u8),
        Label::LSR => (spec_lsr(s, op), 0u8),
        Label::NOP => (s, 0u8),
        Label::ORA => (spec_ora(s, operand_value(s, op)), 0u8),
        Label::PHA => (spec_pha(s), 0u8),
        Label::PHP => (spec_php(s), 0u8),
        Label::PLA => (spec_pla(s), 0u8),
        Label::PLP => (spec_plp(s), 0u8),
        Label::ROL => (spec_rol(s, op), 0u8),
        Label::ROR => (spec_ror(s, op), 0u8),
        Label::RTI => (spec_rti(s), 0u8),
        Label::RTS => (spec_rts(s), 0u8),
        Label::SBC => (spec_sbc(s, operand_value(s, op)), 0u8),
        Label::SEC => (CpuState { p: spec_set_bit(s.p, CARRY_BIT, true), ..s }, 0u8),
        Label::SED => (CpuState { p: spec_set_bit(s.p, DECIMAL_BIT, true), ..s }, 0u8),
        Label::SEI => (CpuState { p: spec_set_bit(s.p, INTERRUPT_BIT, true), ..s }, 0u8),
        Label::STA => match op {
            Operand::Address(a) => (spec_sta(s, a), 0u8),
            _ => (s, 0u8),
        },
        Label::STX => match op {
            Operand::Address(a) => (spec_stx(s, a), 0u8),
            _ => (s, 0u8),
        },
        Label::STY => match op {
            Operand::Address(a) => (spec_sty(s, a), 0u8),
            _ => (s, 0u8),
        },
        Label::TAX => (spec_tax(s), 0u8),
        Label::TAY => (spec_tay(s), 0u8),
        Label::TSX => (spec_tsx(s), 0u8),
        Label::TXA => (spec_txa(s), 0u8),
        Label::TXS => (spec_txs(s), 0u8),
        Label::TYA => (spec_tya(s), 0u8),
    }
}

/// The whole of "execute one instruction": service a pending interrupt at
/// the boundary, or fetch, decode, resolve and execute.  An opcode byte
/// absent from the table fails with `UnsupportedOpcode` and leaves the state
/// otherwise untouched, the program counter exactly one byte past where it
/// was.
pub open spec fn spec_step(s: CpuState) -> (CpuState, Result<u8, CpuError>) {
    if s.nmi_pending {
        (spec_interrupt(CpuState { nmi_pending: false, ..s }, NMI_VECTOR), Result::Ok(7u8))
    } else if s.irq_pending && !flag_set(s.p, INTERRUPT_BIT) {
        (spec_interrupt(CpuState { irq_pending: false, ..s }, IRQ_VECTOR), Result::Ok(7u8))
    } else {
        let opcode = s.mem[s.pc as int];
        let s1 = CpuState { pc: wrap_add16(s.pc, 1), ..s };
        match spec_lookup(opcode) {
            Option::None => (s1, Result::Err(CpuError::UnsupportedOpcode(opcode))),
            Option::Some(entry) => {
                let (s2, op, extra) = spec_resolve(s1, entry.mode);
                let (s3, branch_extra) = spec_execute(entry.label, op, s2);
                (s3, Result::Ok((entry.cycles + extra + branch_extra) as u8))
            },
        }
    }
}

// ---------------------------------------------------------------------------
// Laws of the stack.
// ---------------------------------------------------------------------------
/// The stack is a LIFO: pulling right after pushing returns the pushed byte,
/// restores the stack pointer, and has changed nothing but the one stack
/// slot the push wrote.
pub proof fn lemma_stack_lifo(s: CpuState, v: u8)
    requires
        s.mem.len() == MEMORY_SIZE,
    ensures
        ({
            let s1 = spec_push(s, v);
            let (s2, r) = spec_pull(s1);
            &&& r == v
            &&& s2.sp == s.sp
            &&& s2.a == s.a
            &&& s2.x == s.x
            &&& s2.y == s.y
            &&& s2.p == s.p
            &&& s2.pc == s.pc
            &&& s2.mem == s.mem.update(STACK_PAGE + s.sp, v)
        }),
{
}

/// Three pushes pulled back come out in reverse order, and the stack pointer
/// returns to where it started.
pub proof fn lemma_stack_lifo3(s: CpuState, v1: u8, v2: u8, v3: u8)
    requires
        s.mem.len() == MEMORY_SIZE,
    ensures
        ({
            let s3 = spec_push(spec_push(spec_push(s, v1), v2), v3);
            let (t1, r1) = spec_pull(s3);
            let (t2, r2) = spec_pull(t1);
            let (t3, r3) = spec_pull(t2);
            &&& r1 == v3
            &&& r2 == v2
            &&& r3 == v1
            &&& t3.sp == s.sp
        }),
{
}

/// One push moves the stack pointer down by one with 8-bit wraparound: from
/// `0x00` it wraps to `0xff`, never to a negative or 16-bit value.
pub proof fn lemma_stack_pointer_wraps(s: CpuState, v: u8)
    ensures
        spec_push(s, v).sp == if s.sp == 0 {
            0xffu8
        } else {
            (s.sp - 1) as u8
        },
{
}

} // verus!
