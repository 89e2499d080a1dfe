//! The execution engine: the register file and the fetch-decode-execute
//! cycle.
//!
//! Every mutating method's contract equates the new machine state with the
//! corresponding spec transition from `crate::cpu::state`, so `step` is
//! proved to be exactly the one-instruction transition `spec_step`.

use vstd::prelude::*;

use crate::cpu::opcode::{lookup, CpuError, Label, OpCode, Operand};
use crate::cpu::opcode::lemma_table_bounds;
use crate::cpu::instructions;
use crate::cpu::opcode::AddressingMode;
use crate::cpu::state::{
    advance_pc, flag_set, indirect_target, relative_target, same_page, spec_execute,
    spec_interrupt, spec_pull, spec_pull_word, spec_push, spec_push_word, spec_reset,
    spec_resolve, spec_step, state_wf, wrap_add16, wrap_add8, zp_pointer, CpuState,
};
use crate::cpu::state::{
    BREAK_BIT, CARRY_BIT, DECIMAL_BIT, INTERRUPT_BIT, IRQ_VECTOR, NEGATIVE_BIT, NMI_VECTOR,
    OVERFLOW_BIT, RESET_VECTOR, STACK_PAGE, UNUSED_BIT, ZERO_BIT,
};
use crate::memory::{spec_read_word, Memory};
use crate::utils;
use crate::utils::{spec_get_bit, spec_set_bit};

verus! {

/// Forcing the unused bit on keeps it set, whatever byte it is applied to.
proof fn lemma_unused_bit_forced(v: u8)
    by (bit_vector)
    ensures
        spec_get_bit(v | 0x20, 5) == 1,
{
}

/// The power-up status byte 0x34 has its unused bit set.
proof fn lemma_power_up_status()
    by (bit_vector)
    ensures
        spec_get_bit(0x34u8, 5) == 1,
{
}

/// The status byte after a sequence of single-flag writes, applied left to
/// right.
pub open spec fn apply_flag_writes(p: u8, writes: Seq<(u8, bool)>) -> u8
    decreases writes.len(),
{
    if writes.len() == 0 {
        p
    } else {
        apply_flag_writes(spec_set_bit(p, writes[0].0, writes[0].1), writes.drop_first())
    }
}

/// The status register's invariant: for any sequence of flag mutations —
/// writes to the seven meaningful flag bits — the unused bit 5 of the stored
/// byte is still 1.
pub proof fn lemma_status_unused_bit_invariant(p: u8, writes: Seq<(u8, bool)>)
    requires
        flag_set(p, UNUSED_BIT),
        forall|k: int|
            0 <= k < writes.len() ==> (#[trigger] writes[k]).0 < 8 && writes[k].0 != UNUSED_BIT,
    ensures
        flag_set(apply_flag_writes(p, writes), UNUSED_BIT),
    decreases writes.len(),
{
    if writes.len() > 0 {
        crate::utils::lemma_set_bit(p, writes[0].0, UNUSED_BIT, writes[0].1);
        lemma_status_unused_bit_invariant(
            spec_set_bit(p, writes[0].0, writes[0].1),
            writes.drop_first(),
        );
    }
}

/// The packed status register.
///
/// Bit 0 carry, 1 zero, 2 interrupt disable, 3 decimal (no arithmetic effect
/// on this chip), 4 break (meaningful only in stacked copies), 5 unused and
/// always 1, 6 overflow, 7 negative.  The invariant `wf` — bit 5 reads as 1 —
/// is established by the constructor and preserved by every mutation.
pub struct StatusRegister {
    pub data: u8,
}

impl StatusRegister {
    /// The unused bit always reads as 1.
    pub open spec fn wf(&self) -> bool {
        flag_set(self.data, UNUSED_BIT)
    }

    /// The power-up value: interrupt disable, break and the unused bit set.
    pub fn new() -> (r: StatusRegister)
        ensures
            r.data == 0x34u8,
            r.wf(),
    {
        proof {
            lemma_power_up_status();
        }
        StatusRegister { data: 0x34 }
    }

    /// Reads the carry flag, as 0 or 1.
    pub fn get_carry_flag(&self) -> (r: u8)
        ensures
            r == spec_get_bit(self.data, CARRY_BIT),
            r == 0 || r == 1,
    {
        utils::get_bit(&self.data, CARRY_BIT)
    }

    /// Reads the zero flag, as 0 or 1.
    pub fn get_zero_flag(&self) -> (r: u8)
        ensures
            r == spec_get_bit(self.data, ZERO_BIT),
            r == 0 || r == 1,
    {
        utils::get_bit(&self.data, ZERO_BIT)
    }

    /// Reads the interrupt-disable flag, as 0 or 1.
    pub fn get_interrupt_flag(&self) -> (r: u8)
        ensures
            r == spec_get_bit(self.data, INTERRUPT_BIT),
            r == 0 || r == 1,
    {
        utils::get_bit(&self.data, INTERRUPT_BIT)
    }

    /// Reads the decimal flag, as 0 or 1.
    pub fn get_decimal_flag(&self) -> (r: u8)
        ensures
            r == spec_get_bit(self.data, DECIMAL_BIT),
            r == 0 || r == 1,
    {
        utils::get_bit(&self.data, DECIMAL_BIT)
    }

    /// Reads the break flag, as 0 or 1.
    pub fn get_breakpoint(&self) -> (r: u8)
        ensures
            r == spec_get_bit(self.data, BREAK_BIT),
            r == 0 || r == 1,
    {
        utils::get_bit(&self.data, BREAK_BIT)
    }

    /// Reads the overflow flag, as 0 or 1.
    pub fn get_overflow_flag(&self) -> (r: u8)
        ensures
            r == spec_get_bit(self.data, OVERFLOW_BIT),
            r == 0 || r == 1,
    {
        utils::get_bit(&self.data, OVERFLOW_BIT)
    }

    /// Reads the negative flag, as 0 or 1.
    pub fn get_negative_flag(&self) -> (r: u8)
        ensures
            r == spec_get_bit(self.data, NEGATIVE_BIT),
            r == 0 || r == 1,
    {
        utils::get_bit(&self.data, NEGATIVE_BIT)
    }

    /// Sets or clears the carry flag; every other bit keeps its value.
    pub fn set_carry_flag(&mut self, value: bool)
        ensures
            final(self).data == spec_set_bit(old(self).data, CARRY_BIT, value),
            spec_get_bit(final(self).data, UNUSED_BIT) == spec_get_bit(old(self).data, UNUSED_BIT),
    {
        utils::set_bit(&mut self.data, CARRY_BIT, value);
    }

    /// Sets or clears the zero flag; every other bit keeps its value.
    pub fn set_zero_flag(&mut self, value: bool)
        ensures
            final(self).data == spec_set_bit(old(self).data, ZERO_BIT, value),
            spec_get_bit(final(self).data, UNUSED_BIT) == spec_get_bit(old(self).data, UNUSED_BIT),
    {
        utils::set_bit(&mut self.data, ZERO_BIT, value);
    }

    /// Sets or clears the interrupt-disable flag; every other bit keeps its
    /// value.
    pub fn set_interrupt_flag(&mut self, value: bool)
        ensures
            final(self).data == spec_set_bit(old(self).data, INTERRUPT_BIT, value),
            spec_get_bit(final(self).data, UNUSED_BIT) == spec_get_bit(old(self).data, UNUSED_BIT),
    {
        utils::set_bit(&mut self.data, INTERRUPT_BIT, value);
    }

    /// Sets or clears the decimal flag; every other bit keeps its value.
    pub fn set_decimal_flag(&mut self, value: bool)
        ensures
            final(self).data == spec_set_bit(old(self).data, DECIMAL_BIT, value),
            spec_get_bit(final(self).data, UNUSED_BIT) == spec_get_bit(old(self).data, UNUSED_BIT),
    {
        utils::set_bit(&mut self.data, DECIMAL_BIT, value);
    }

    /// Sets or clears the break flag; every other bit keeps its value.
    pub fn set_breakpoint(&mut self, value: bool)
        ensures
            final(self).data == spec_set_bit(old(self).data, BREAK_BIT, value),
            spec_get_bit(final(self).data, UNUSED_BIT) == spec_get_bit(old(self).data, UNUSED_BIT),
    {
        utils::set_bit(&mut self.data, BREAK_BIT, value);
    }

    /// Sets or clears the overflow flag; every other bit keeps its value.
    pub fn set_overflow_flag(&mut self, value: bool)
        ensures
            final(self).data == spec_set_bit(old(self).data, OVERFLOW_BIT, value),
            spec_get_bit(final(self).data, UNUSED_BIT) == spec_get_bit(old(self).data, UNUSED_BIT),
    {
        utils::set_bit(&mut self.data, OVERFLOW_BIT, value);
    }

    /// Sets or clears the negative flag; every other bit keeps its value.
    pub fn set_negative_flag(&mut self, value: bool)
        ensures
            final(self).data == spec_set_bit(old(self).data, NEGATIVE_BIT, value),
            spec_get_bit(final(self).data, UNUSED_BIT) == spec_get_bit(old(self).data, UNUSED_BIT),
    {
        utils::set_bit(&mut self.data, NEGATIVE_BIT, value);
    }

    /// Replaces the whole status byte, as pulling it from the stack does; the
    /// unused bit is forced to 1 whatever was stored.
    pub fn load(&mut self, value: u8)
        ensures
            final(self).data == value | 0x20,
            final(self).wf(),
    {
        proof {
            lemma_unused_bit_forced(value);
        }
        self.data = value | 0x20;
    }
}

/// The CPU: register file, status register and the memory bus it owns for
/// the duration of each `step`.
pub struct CPU {
    /// Accumulator.
    pub a_reg: u8,
    /// Index register X.
    pub x_reg: u8,
    /// Index register Y.
    pub y_reg: u8,
    /// Processor status flags.
    pub p_reg: StatusRegister,
    /// Stack pointer: an offset into the stack page `0x0100..=0x01ff`.
    pub sp_reg: u8,
    /// Program counter.
    pub pc_reg: u16,
    /// The byte-addressable 64 KB bus.
    pub ram: Memory,
    /// An externally triggered non-maskable interrupt is waiting.
    pub nmi_pending: bool,
    /// An externally triggered maskable interrupt is waiting.
    pub irq_pending: bool,
}

impl View for CPU {
    type V = CpuState;

    open spec fn view(&self) -> CpuState {
        CpuState {
            a: self.a_reg,
            x: self.x_reg,
            y: self.y_reg,
            p: self.p_reg.data,
            sp: self.sp_reg,
            pc: self.pc_reg,
            mem: self.ram@,
            nmi_pending: self.nmi_pending,
            irq_pending: self.irq_pending,
        }
    }
}

impl CPU {
    /// The memory covers the address space and the status register holds its
    /// invariant.
    pub open spec fn wf(&self) -> bool {
        state_wf(self@)
    }

    /// Power-up: registers cleared, stack pointer at 0xfd, status 0x34, and
    /// the program counter undefined until `reset` loads it from the reset
    /// vector.
    pub fn new(ram: Memory) -> (r: CPU)
        requires
            ram.wf(),
        ensures
            r.wf(),
            r@ == (CpuState {
                a: 0u8,
                x: 0u8,
                y: 0u8,
                p: 0x34u8,
                sp: 0xfdu8,
                pc: 0u16,
                mem: ram@,
                nmi_pending: false,
                irq_pending: false,
            }),
    {
        CPU {
            a_reg: 0x0,
            x_reg: 0x0,
            y_reg: 0x0,
            p_reg: StatusRegister::new(),
            sp_reg: 0xfd,
            pc_reg: 0x0,
            ram,
            nmi_pending: false,
            irq_pending: false,
        }
    }

    /// Reset: mimics the three phantom stack-pointer decrements, sets
    /// interrupt disable, and loads the program counter from the reset
    /// vector at 0xfffc-0xfffd.
    pub fn reset(&mut self)
        requires
            old(self).wf(),
        ensures
            final(self).wf(),
            final(self)@ == spec_reset(old(self)@),
    {
        self.sp_reg = if self.sp_reg >= 3 {
            self.sp_reg - 3
        } else {
            self.sp_reg + 253
        };
        self.p_reg.set_interrupt_flag(true);
        self.pc_reg = self.ram.read_word(RESET_VECTOR);
    }

    /// Asks the CPU to service a non-maskable interrupt before the next
    /// instruction.
    pub fn request_nmi(&mut self)
        ensures
            final(self)@ == (CpuState { nmi_pending: true, ..old(self)@ }),
    {
        self.nmi_pending = true;
    }

    /// Asks the CPU to service a maskable interrupt before the next
    /// instruction; it is honored only while interrupt disable is clear.
    pub fn request_irq(&mut self)
        ensures
            final(self)@ == (CpuState { irq_pending: true, ..old(self)@ }),
    {
        self.irq_pending = true;
    }

    /// Pushes `value`: writes it at the stack pointer's slot in the stack
    /// page, then decrements the pointer with 8-bit wraparound.
    pub fn push(&mut self, value: u8)
        requires
            old(self).wf(),
        ensures
            final(self).wf(),
            final(self)@ == spec_push(old(self)@, value),
    {
        let addr: u16 = STACK_PAGE + self.sp_reg as u16;
        self.ram.write(addr, value);
        self.sp_reg = if self.sp_reg == 0 {
            0xff
        } else {
            self.sp_reg - 1
        };
    }

    /// Pulls a byte: increments the pointer with 8-bit wraparound, then
    /// reads the slot it points at.
    pub fn pull(&mut self) -> (r: u8)
        requires
            old(self).wf(),
        ensures
            final(self).wf(),
            final(self)@ == spec_pull(old(self)@).0,
            r == spec_pull(old(self)@).1,
    {
        self.sp_reg = if self.sp_reg == 0xff {
            0
        } else {
            self.sp_reg + 1
        };
        self.ram.read_byte(STACK_PAGE + self.sp_reg as u16)
    }

    /// Pushes a word, high byte first.
    pub fn push_word(&mut self, value: u16)
        requires
            old(self).wf(),
        ensures
            final(self).wf(),
            final(self)@ == spec_push_word(old(self)@, value),
    {
        self.push((value / 0x100) as u8);
        self.push((value % 0x100) as u8);
    }

    /// Pulls a word, low byte first.
    pub fn pull_word(&mut self) -> (r: u16)
        requires
            old(self).wf(),
        ensures
            final(self).wf(),
            final(self)@ == spec_pull_word(old(self)@).0,
            r == spec_pull_word(old(self)@).1,
    {
        let lo = self.pull();
        let hi = self.pull();
        lo as u16 + hi as u16 * 0x100
    }

    /// Advances the program counter by `n`, wrapping within the 16-bit
    /// space.
    fn advance(&mut self, n: u16)
        requires
            n <= 2,
        ensures
            final(self)@ == advance_pc(old(self)@, n),
    {
        let sum: u32 = self.pc_reg as u32 + n as u32;
        self.pc_reg = if sum < 0x10000 {
            sum as u16
        } else {
            (sum - 0x10000) as u16
        };
    }

    /// The operand for Accumulator mode: the accumulator's current value.
    pub fn fetching_accumulator(&self) -> (r: u8)
        ensures
            r == self@.a,
    {
        self.a_reg
    }

    /// Immediate mode: consumes one byte and yields it as the operand value,
    /// not an address.
    pub fn fetch_immidiate(&mut self) -> (r: u8)
        requires
            old(self).wf(),
        ensures
            final(self).wf(),
            r == old(self)@.mem[old(self)@.pc as int],
            final(self)@ == advance_pc(old(self)@, 1),
    {
        let v = self.ram.read_byte(self.pc_reg);
        self.advance(1);
        v
    }

    /// Zero-page mode: consumes one byte and yields it zero-extended as a
    /// 16-bit address.
    pub fn fetch_zero_page(&mut self) -> (r: u16)
        requires
            old(self).wf(),
        ensures
            final(self).wf(),
            r == old(self)@.mem[old(self)@.pc as int] as u16,
            final(self)@ == advance_pc(old(self)@, 1),
    {
        let v = self.ram.read_byte(self.pc_reg);
        self.advance(1);
        v as u16
    }

    /// Zero-page,X mode: the base byte plus X, wrapping within the zero page
    /// — a documented hardware quirk, not a bug.
    pub fn fetch_zero_page_x(&mut self) -> (r: u16)
        requires
            old(self).wf(),
        ensures
            final(self).wf(),
            r == wrap_add8(old(self)@.mem[old(self)@.pc as int], old(self)@.x) as u16,
            final(self)@ == advance_pc(old(self)@, 1),
    {
        let base = self.ram.read_byte(self.pc_reg);
        self.advance(1);
        let sum: u16 = base as u16 + self.x_reg as u16;
        if sum < 0x100 {
            sum
        } else {
            sum - 0x100
        }
    }

    /// Zero-page,Y mode: the base byte plus Y, wrapping within the zero
    /// page.
    pub fn fetch_zero_page_y(&mut self) -> (r: u16)
        requires
            old(self).wf(),
        ensures
            final(self).wf(),
            r == wrap_add8(old(self)@.mem[old(self)@.pc as int], old(self)@.y) as u16,
            final(self)@ == advance_pc(old(self)@, 1),
    {
        let base = self.ram.read_byte(self.pc_reg);
        self.advance(1);
        let sum: u16 = base as u16 + self.y_reg as u16;
        if sum < 0x100 {
            sum
        } else {
            sum - 0x100
        }
    }

    /// Relative mode: consumes one byte and yields the program counter after
    /// it plus the byte read as a signed two's-complement offset.
    pub fn fetch_relative(&mut self) -> (r: u16)
        requires
            old(self).wf(),
        ensures
            final(self).wf(),
            r == relative_target(
                wrap_add16(old(self)@.pc, 1),
                old(self)@.mem[old(self)@.pc as int],
            ),
            final(self)@ == advance_pc(old(self)@, 1),
    {
        let offset = self.ram.read_byte(self.pc_reg);
        self.advance(1);
        if offset < 0x80 {
            let sum: u32 = self.pc_reg as u32 + offset as u32;
            if sum < 0x10000 {
                sum as u16
            } else {
                (sum - 0x10000) as u16
            }
        } else {
            let back: u16 = 0x100 - offset as u16;
            if self.pc_reg >= back {
                self.pc_reg - back
            } else {
                (self.pc_reg as u32 + 0x10000 - back as u32) as u16
            }
        }
    }

    /// Absolute mode: consumes a little-endian word and yields it unchanged.
    pub fn fetch_absolute(&mut self) -> (r: u16)
        requires
            old(self).wf(),
        ensures
            final(self).wf(),
            r == spec_read_word(old(self)@.mem, old(self)@.pc),
            final(self)@ == advance_pc(old(self)@, 2),
    {
        let address = self.ram.read_word(self.pc_reg);
        self.advance(2);
        address
    }

    /// Absolute,X mode: the base word plus X with 16-bit wraparound; the
    /// extra return value is the one cycle a page crossing costs.
    pub fn fetch_absolute_x(&mut self) -> (r: (u16, u8))
        requires
            old(self).wf(),
        ensures
            final(self).wf(),
            ({
                let base = spec_read_word(old(self)@.mem, old(self)@.pc);
                let addr = wrap_add16(base, old(self)@.x as u16);
                r.0 == addr && r.1 == (if same_page(base, addr) {
                    0u8
                } else {
                    1u8
                })
            }),
            final(self)@ == advance_pc(old(self)@, 2),
    {
        let base = self.ram.read_word(self.pc_reg);
        self.advance(2);
        let sum: u32 = base as u32 + self.x_reg as u32;
        let addr: u16 = if sum < 0x10000 {
            sum as u16
        } else {
            (sum - 0x10000) as u16
        };
        let extra: u8 = if base / 0x100 == addr / 0x100 {
            0
        } else {
            1
        };
        (addr, extra)
    }

    /// Absolute,Y mode: the base word plus Y with 16-bit wraparound; the
    /// extra return value is the one cycle a page crossing costs.
    pub fn fetch_absolute_y(&mut self) -> (r: (u16, u8))
        requires
            old(self).wf(),
        ensures
            final(self).wf(),
            ({
                let base = spec_read_word(old(self)@.mem, old(self)@.pc);
                let addr = wrap_add16(base, old(self)@.y as u16);
                r.0 == addr && r.1 == (if same_page(base, addr) {
                    0u8
                } else {
                    1u8
                })
            }),
            final(self)@ == advance_pc(old(self)@, 2),
    {
        let base = self.ram.read_word(self.pc_reg);
        self.advance(2);
        let sum: u32 = base as u32 + self.y_reg as u32;
        let addr: u16 = if sum < 0x10000 {
            sum as u16
        } else {
            (sum - 0x10000) as u16
        };
        let extra: u8 = if base / 0x100 == addr / 0x100 {
            0
        } else {
            1
        };
        (addr, extra)
    }

    /// Indirect mode, for `JMP` only: reads the target through a pointer,
    /// reproducing the hardware bug where a pointer ending in 0xff fetches
    /// its high byte from the start of the same page.
    pub fn fetch_indirect(&mut self) -> (r: u16)
        requires
            old(self).wf(),
        ensures
            final(self).wf(),
            r == indirect_target(old(self)@.mem, spec_read_word(old(self)@.mem, old(self)@.pc)),
            final(self)@ == advance_pc(old(self)@, 2),
    {
        let ptr = self.ram.read_word(self.pc_reg);
        self.advance(2);
        let lo = self.ram.read_byte(ptr);
        let low_byte: u16 = ptr % 0x100;
        let bumped: u16 = if low_byte == 0xff {
            0
        } else {
            low_byte + 1
        };
        let hi_addr: u16 = (ptr / 0x100) * 0x100 + bumped;
        let hi = self.ram.read_byte(hi_addr);
        lo as u16 + hi as u16 * 0x100
    }

    /// Indexed indirect mode: the base byte plus X wraps within the zero
    /// page, and a 16-bit pointer is read there, its high byte also wrapping
    /// within the zero page.
    pub fn fetch_indirect_x(&mut self) -> (r: u16)
        requires
            old(self).wf(),
        ensures
            final(self).wf(),
            r == zp_pointer(
                old(self)@.mem,
                wrap_add8(old(self)@.mem[old(self)@.pc as int], old(self)@.x),
            ),
            final(self)@ == advance_pc(old(self)@, 1),
    {
        let base = self.ram.read_byte(self.pc_reg);
        self.advance(1);
        let sum: u16 = base as u16 + self.x_reg as u16;
        let zp: u16 = if sum < 0x100 {
            sum
        } else {
            sum - 0x100
        };
        let lo = self.ram.read_byte(zp);
        let hi = self.ram.read_byte(if zp == 0xff {
            0
        } else {
            zp + 1
        });
        lo as u16 + hi as u16 * 0x100
    }

    /// Indirect indexed mode: a 16-bit pointer read from the zero page, plus
    /// Y with 16-bit wraparound; the extra return value is the one cycle a
    /// page crossing costs.
    pub fn fetch_indirect_y(&mut self) -> (r: (u16, u8))
        requires
            old(self).wf(),
        ensures
            final(self).wf(),
            ({
                let base = zp_pointer(old(self)@.mem, old(self)@.mem[old(self)@.pc as int]);
                let addr = wrap_add16(base, old(self)@.y as u16);
                r.0 == addr && r.1 == (if same_page(base, addr) {
                    0u8
                } else {
                    1u8
                })
            }),
            final(self)@ == advance_pc(old(self)@, 1),
    {
        let zp = self.ram.read_byte(self.pc_reg);
        self.advance(1);
        let lo = self.ram.read_byte(zp as u16);
        let hi = self.ram.read_byte(if zp == 0xff {
            0
        } else {
            zp as u16 + 1
        });
        let base: u16 = lo as u16 + hi as u16 * 0x100;
        let sum: u32 = base as u32 + self.y_reg as u32;
        let addr: u16 = if sum < 0x10000 {
            sum as u16
        } else {
            (sum - 0x10000) as u16
        };
        let extra: u8 = if base / 0x100 == addr / 0x100 {
            0
        } else {
            1
        };
        (addr, extra)
    }

    /// Resolves `opcode`'s addressing mode: advances the program counter
    /// past the operand bytes and returns the tagged operand together with
    /// the extra cycle a page crossing costs.
    pub fn choose_addressing_mode(&mut self, opcode: &OpCode) -> (r: (Operand, u8))
        requires
            old(self).wf(),
        ensures
            final(self).wf(),
            final(self)@ == spec_resolve(old(self)@, opcode.mode).0,
            r.0 == spec_resolve(old(self)@, opcode.mode).1,
            r.1 == spec_resolve(old(self)@, opcode.mode).2,
            r.1 <= 1,
    {
        match opcode.mode {
            AddressingMode::Implicit => (Operand::Implied, 0),
            AddressingMode::Accumulator => (Operand::Accumulator, 0),
            AddressingMode::Immediate => (Operand::Immediate(self.fetch_immidiate()), 0),
            AddressingMode::ZeroPage => (Operand::Address(self.fetch_zero_page()), 0),
            AddressingMode::ZeroPageX => (Operand::Address(self.fetch_zero_page_x()), 0),
            AddressingMode::ZeroPageY => (Operand::Address(self.fetch_zero_page_y()), 0),
            AddressingMode::Absolute => (Operand::Address(self.fetch_absolute()), 0),
            AddressingMode::AbsoluteX => {
                let (addr, extra) = self.fetch_absolute_x();
                (Operand::Address(addr), extra)
            },
            AddressingMode::AbsoluteY => {
                let (addr, extra) = self.fetch_absolute_y();
                (Operand::Address(addr), extra)
            },
            AddressingMode::Relative => (Operand::Address(self.fetch_relative()), 0),
            AddressingMode::Indirect => (Operand::Address(self.fetch_indirect()), 0),
            AddressingMode::IndirectX => (Operand::Address(self.fetch_indirect_x()), 0),
            AddressingMode::IndirectY => {
                let (addr, extra) = self.fetch_indirect_y();
                (Operand::Address(addr), extra)
            },
        }
    }

    /// Dispatches one decoded instruction to its handler; the return value
    /// is the extra cycles a taken branch charges.
    pub fn execute_instruction(&mut self, op: Operand, opcode: &OpCode) -> (extra: u8)
        requires
            old(self).wf(),
        ensures
            final(self).wf(),
            final(self)@ == spec_execute(opcode.label, op, old(self)@).0,
            extra == spec_execute(opcode.label, op, old(self)@).1,
            extra <= 2,
    {
        match opcode.label {
            Label::ADC => {
                instructions::adc(self, op);
                0
            },
            Label::AND => {
                instructions::and(self, op);
                0
            },
            Label::ASL => {
                instructions::asl(self, op);
                0
            },
            Label::BCC => match op {
                Operand::Address(t) => instructions::bcc(self, t),
                _ => 0,
            },
            Label::BCS => match op {
                Operand::Address(t) => instructions::bcs(self, t),
                _ => 0,
            },
            Label::BEQ => match op {
                Operand::Address(t) => instructions::beq(self, t),
                _ => 0,
            },
            Label::BIT => {
                instructions::bit(self, op);
                0
            },
            Label::BMI => match op {
                Operand::Address(t) => instructions::bmi(self, t),
                _ => 0,
            },
            Label::BNE => match op {
                Operand::Address(t) => instructions::bne(self, t),
                _ => 0,
            },
            Label::BPL => match op {
                Operand::Address(t) => instructions::bpl(self, t),
                _ => 0,
            },
            Label::BRK => {
                instructions::brk(self);
                0
            },
            Label::BVC => match op {
                Operand::Address(t) => instructions::bvc(self, t),
                _ => 0,
            },
            Label::BVS => match op {
                Operand::Address(t) => instructions::bvs(self, t),
                _ => 0,
            },
            Label::CLC => {
                instructions::clc(self);
                0
            },
            Label::CLD => {
                instructions::cld(self);
                0
            },
            Label::CLI => {
                instructions::cli(self);
                0
            },
            Label::CLV => {
                instructions::clv(self);
                0
            },
            Label::CMP => {
                instructions::cpm(self, op);
                0
            },
            Label::CPX => {
                instructions::cpx(self, op);
                0
            },
            Label::CPY => {
                instructions::cpy(self, op);
                0
            },
            Label::DEC => match op {
                Operand::Address(a) => {
                    instructions::dec(self, a);
                    0
                },
                _ => 0,
            },
            Label::DEX => {
                instructions::dex(self);
                0
            },
            Label::DEY => {
                instructions::dey(self);
                0
            },
            Label::EOR => {
                instructions::eor(self, op);
                0
            },
            Label::INC => match op {
                Operand::Address(a) => {
                    instructions::inc(self, a);
                    0
                },
                _ => 0,
            },
            Label::INX => {
                instructions::inx(self);
                0
            },
            Label::INY => {
                instructions::iny(self);
                0
            },
            Label::JMP => match op {
                Operand::Address(a) => {
                    instructions::jmp(self, a);
                    0
                },
                _ => 0,
            },
            Label::JSR => match op {
                Operand::Address(a) => {
                    instructions::jsr(self, a);
                    0
                },
                _ => 0,
            },
            Label::LDA => {
                instructions::lda(self, op);
                0
            },
            Label::LDX => {
                instructions::ldx(self, op);
                0
            },
            Label::LDY => {
                instructions::ldy(self, op);
                0
            },
            Label::LSR => {
                instructions::lsr(self, op);
                0
            },
            Label::NOP => {
                instructions::nop(self);
                0
            },
            Label::ORA => {
                instructions::ora(self, op);
                0
            },
            Label::PHA => {
                instructions::pha(self);
                0
            },
            Label::PHP => {
                instructions::php(self);
                0
            },
            Label::PLA => {
                instructions::pla(self);
                0
            },
            Label::PLP => {
                instructions::plp(self);
                0
            },
            Label::ROL => {
                instructions::rol(self, op);
                0
            },
            Label::ROR => {
                instructions::ror(self, op);
                0
            },
            Label::RTI => {
                instructions::rti(self);
                0
            },
            Label::RTS => {
                instructions::rts(self);
                0
            },
            Label::SBC => {
                instructions::sbc(self, op);
                0
            },
            Label::SEC => {
                instructions::sec(self);
                0
            },
            Label::SED => {
                instructions::sed(self);
                0
            },
            Label::SEI => {
                instructions::sei(self);
                0
            },
            Label::STA => match op {
                Operand::Address(a) => {
                    instructions::sta(self, a);
                    0
                },
                _ => 0,
            },
            Label::STX => match op {
                Operand::Address(a) => {
                    instructions::stx(self, a);
                    0
                },
                _ => 0,
            },
            Label::STY => match op {
                Operand::Address(a) => {
                    instructions::sty(self, a);
                    0
                },
                _ => 0,
            },
            Label::TAX => {
                instructions::tax(self);
                0
            },
            Label::TAY => {
                instructions::tay(self);
                0
            },
            Label::TSX => {
                instructions::tsx(self);
                0
            },
            Label::TXA => {
                instructions::txa(self);
                0
            },
            Label::TXS => {
                instructions::txs(self);
                0
            },
            Label::TYA => {
                instructions::tya(self);
                0
            },
        }
    }

    /// Services a pending interrupt: pushes the program counter and the
    /// status byte with the break bit clear, sets interrupt disable, and
    /// jumps through `vector`.
    fn service_interrupt(&mut self, vector: u16)
        requires
            old(self).wf(),
        ensures
            final(self).wf(),
            final(self)@ == spec_interrupt(old(self)@, vector),
    {
        let pc = self.pc_reg;
        self.push_word(pc);
        let status = self.p_reg.data & 0xef;
        self.push(status);
        self.p_reg.set_interrupt_flag(true);
        self.pc_reg = self.ram.read_word(vector);
    }

    /// Executes one instruction: services a pending interrupt at the
    /// boundary, or fetches the opcode byte at the program counter, decodes
    /// it, resolves the addressing mode and runs the handler.  Returns the
    /// cycles consumed — the base cost plus any page-crossing and
    /// branch-taken penalties — or fails with `UnsupportedOpcode` on a byte
    /// absent from the table, leaving the program counter exactly one byte
    /// past where it was.
    pub fn step(&mut self) -> (r: Result<u8, CpuError>)
        requires
            old(self).wf(),
        ensures
            final(self).wf(),
            final(self)@ == spec_step(old(self)@).0,
            r == spec_step(old(self)@).1,
    {
        if self.nmi_pending {
            self.nmi_pending = false;
            self.service_interrupt(NMI_VECTOR);
            return Result::Ok(7);
        }
        if self.irq_pending && self.p_reg.get_interrupt_flag() == 0 {
            self.irq_pending = false;
            self.service_interrupt(IRQ_VECTOR);
            return Result::Ok(7);
        }
        let opcode = self.ram.read_byte(self.pc_reg);
        self.advance(1);
        match lookup(opcode) {
            None => Result::Err(CpuError::UnsupportedOpcode(opcode)),
            Some(entry) => {
                proof {
                    lemma_table_bounds(opcode);
                }
                let (op, extra) = self.choose_addressing_mode(&entry);
                let branch_extra = self.execute_instruction(op, &entry);
                Result::Ok(entry.cycles + extra + branch_extra)
            },
        }
    }
}

} // verus!
