//! Operand resolution for the thirteen addressing modes.

use vstd::prelude::*;
use crate::arith::{crosses_page, displaced, make_word, page_crossed, signed, to_signed, word};
use crate::bus::{Bus, Memory};
use crate::cpu::{CPU, Machine};
use crate::disassembler::AddrMode;

verus! {

/// What an instruction operates on.
#[derive(Clone, Copy, Debug, PartialEq, Eq, Structural)]
pub enum Operand {
    /// A value taken from the instruction itself.
    Immediate(u8),
    /// A memory cell.
    Address(u16),
    /// The accumulator.
    Accumulator,
}

/// The outcome of resolving an addressing mode.
pub struct Resolved {
    /// The operand found.
    pub operand: Operand,
    /// Whether adding the index or the displacement left the page of the base.
    pub page_crossed: bool,
}

impl Memory {
    /// The 16-bit value stored in page zero at `ptr`; its high byte comes
    /// from the next cell of page zero, which after `0xFF` is `0x00`.
    pub open spec fn read_zero_page_word(self, ptr: u8) -> u16 {
        word(self.read(ptr as u16), self.read(ptr.wrapping_add(1) as u16))
    }

    /// The 16-bit value that an indirect jump takes from the pointer with
    /// low byte `lo` and high byte `hi`; its high byte comes from the next
    /// cell of the same page, so for a pointer that ends in `0xFF` from the
    /// first cell of that page.
    pub open spec fn read_word_in_page(self, lo: u8, hi: u8) -> u16 {
        word(self.read(word(lo, hi)), self.read(word(lo.wrapping_add(1), hi)))
    }
}

impl Machine {
    /// The byte `n` places after the opcode at the program counter.
    pub open spec fn operand_byte(self, n: u16) -> u8 {
        self.mem.read(self.cpu.program_counter.wrapping_add(n))
    }

    /// The two bytes after the opcode as a little-endian 16-bit value.
    pub open spec fn operand_word(self) -> u16 {
        word(self.operand_byte(1), self.operand_byte(2))
    }

    /// An operand at `base` plus `index`, with the page-crossing report.
    pub open spec fn indexed(base: u16, index: u8) -> Resolved {
        let addr = base.wrapping_add(index as u16);
        Resolved { operand: Operand::Address(addr), page_crossed: page_crossed(base, addr) }
    }

    /// An operand at `addr`, reached without crossing a page.
    pub open spec fn direct(addr: u16) -> Resolved {
        Resolved { operand: Operand::Address(addr), page_crossed: false }
    }

    /// The operand of the instruction at the program counter, were its
    /// addressing mode `mode`.
    pub open spec fn resolve(self, mode: AddrMode) -> Resolved {
        let cpu = self.cpu;
        match mode {
            AddrMode::Imp | AddrMode::Acc => Resolved {
                operand: Operand::Accumulator,
                page_crossed: false,
            },
            AddrMode::Imm => Resolved {
                operand: Operand::Immediate(self.operand_byte(1)),
                page_crossed: false,
            },
            AddrMode::Zp => Self::direct(self.operand_byte(1) as u16),
            AddrMode::ZpX => Self::direct(
                self.operand_byte(1).wrapping_add(cpu.register_x) as u16,
            ),
            AddrMode::ZpY => Self::direct(
                self.operand_byte(1).wrapping_add(cpu.register_y) as u16,
            ),
            AddrMode::Abs => Self::direct(self.operand_word()),
            AddrMode::AbsX => Self::indexed(self.operand_word(), cpu.register_x),
            AddrMode::AbsY => Self::indexed(self.operand_word(), cpu.register_y),
            AddrMode::Ind => Self::direct(
                self.mem.read_word_in_page(self.operand_byte(1), self.operand_byte(2)),
            ),
            AddrMode::XInd => Self::direct(
                self.mem.read_zero_page_word(self.operand_byte(1).wrapping_add(cpu.register_x)),
            ),
            AddrMode::IndY => Self::indexed(
                self.mem.read_zero_page_word(self.operand_byte(1)),
                cpu.register_y,
            ),
            AddrMode::Rel => {
                let next = cpu.program_counter.wrapping_add(2);
                let target = displaced(next, signed(self.operand_byte(1)));
                Resolved {
                    operand: Operand::Address(target),
                    page_crossed: page_crossed(next, target),
                }
            },
        }
    }

    /// The machine with the program counter moved `n` bytes on.
    pub open spec fn advance(self, n: u16) -> Machine {
        Machine {
            cpu: CPU { program_counter: self.cpu.program_counter.wrapping_add(n), ..self.cpu },
            mem: self.mem,
        }
    }

    /// The machine with the program counter past an instruction in `mode`.
    pub open spec fn skip(self, mode: AddrMode) -> Machine {
        self.advance(mode.spec_size() as u16)
    }
}

impl CPU {
    /// Reads the little-endian 16-bit value at `addr`.
    pub fn read_u16(&self, bus: &impl Bus, addr: u16) -> (value: u16)
        requires
            bus.inv(),
        ensures
            value == bus@.read_word(addr),
    {
        let lo = bus.read(addr);
        let hi = bus.read(addr.wrapping_add(1));
        make_word(lo, hi)
    }

    /// Immediate: the operand is the byte after the opcode.
    pub fn fetch_immediate(&mut self, bus: &impl Bus) -> (operand: Operand)
        requires
            bus.inv(),
        ensures
            operand == old(self).on(bus@).resolve(AddrMode::Imm).operand,
            *final(self) == old(self).on(bus@).skip(AddrMode::Imm).cpu,
    {
        let value = bus.read(self.program_counter.wrapping_add(1));
        self.program_counter = self.program_counter.wrapping_add(2);
        Operand::Immediate(value)
    }

    /// Implied or accumulator: the instruction has no operand bytes.
    pub fn fetch_implied(&mut self) -> (operand: Operand)
        ensures
            operand == Operand::Accumulator,
            *final(self) == (CPU {
                program_counter: old(self).program_counter.wrapping_add(1),
                ..*old(self)
            }),
    {
        self.program_counter = self.program_counter.wrapping_add(1);
        Operand::Accumulator
    }

    /// Zero page: the operand byte is an address in page zero.
    pub fn fetch_zeropage(&mut self, bus: &impl Bus) -> (operand: Operand)
        requires
            bus.inv(),
        ensures
            operand == old(self).on(bus@).resolve(AddrMode::Zp).operand,
            *final(self) == old(self).on(bus@).skip(AddrMode::Zp).cpu,
    {
        let addr = bus.read(self.program_counter.wrapping_add(1));
        self.program_counter = self.program_counter.wrapping_add(2);
        Operand::Address(addr as u16)
    }

    /// Zero page,X: the operand byte plus X, wrapping within page zero.
    pub fn fetch_zeropage_x(&mut self, bus: &impl Bus) -> (operand: Operand)
        requires
            bus.inv(),
        ensures
            operand == old(self).on(bus@).resolve(AddrMode::ZpX).operand,
            *final(self) == old(self).on(bus@).skip(AddrMode::ZpX).cpu,
    {
        let base = bus.read(self.program_counter.wrapping_add(1));
        let addr = base.wrapping_add(self.register_x);
        self.program_counter = self.program_counter.wrapping_add(2);
        Operand::Address(addr as u16)
    }

    /// Zero page,Y: the operand byte plus Y, wrapping within page zero.
    pub fn fetch_zeropage_y(&mut self, bus: &impl Bus) -> (operand: Operand)
        requires
            bus.inv(),
        ensures
            operand == old(self).on(bus@).resolve(AddrMode::ZpY).operand,
            *final(self) == old(self).on(bus@).skip(AddrMode::ZpY).cpu,
    {
        let base = bus.read(self.program_counter.wrapping_add(1));
        let addr = base.wrapping_add(self.register_y);
        self.program_counter = self.program_counter.wrapping_add(2);
        Operand::Address(addr as u16)
    }

    /// Absolute: the two operand bytes are the address, low byte first.
    pub fn fetch_absolute(&mut self, bus: &impl Bus) -> (operand: Operand)
        requires
            bus.inv(),
        ensures
            operand == old(self).on(bus@).resolve(AddrMode::Abs).operand,
            *final(self) == old(self).on(bus@).skip(AddrMode::Abs).cpu,
    {
        let lo = bus.read(self.program_counter.wrapping_add(1));
        let hi = bus.read(self.program_counter.wrapping_add(2));
        let addr = make_word(lo, hi);
        self.program_counter = self.program_counter.wrapping_add(3);
        Operand::Address(addr)
    }

    /// Absolute,X: the two-byte address plus X, and whether the sum lies in
    /// another page than the address.
    pub fn fetch_absolute_x(&mut self, bus: &impl Bus) -> (fetched: (Operand, bool))
        requires
            bus.inv(),
        ensures
            fetched.0 == old(self).on(bus@).resolve(AddrMode::AbsX).operand,
            fetched.1 == old(self).on(bus@).resolve(AddrMode::AbsX).page_crossed,
            *final(self) == old(self).on(bus@).skip(AddrMode::AbsX).cpu,
    {
        let lo = bus.read(self.program_counter.wrapping_add(1));
        let hi = bus.read(self.program_counter.wrapping_add(2));
        let base = make_word(lo, hi);
        let addr = base.wrapping_add(self.register_x as u16);
        let page_crossed = crosses_page(base, addr);
        self.program_counter = self.program_counter.wrapping_add(3);
        (Operand::Address(addr), page_crossed)
    }

    /// Absolute,Y: the two-byte address plus Y, and whether the sum lies in
    /// another page than the address.
    pub fn fetch_absolute_y(&mut self, bus: &impl Bus) -> (fetched: (Operand, bool))
        requires
            bus.inv(),
        ensures
            fetched.0 == old(self).on(bus@).resolve(AddrMode::AbsY).operand,
            fetched.1 == old(self).on(bus@).resolve(AddrMode::AbsY).page_crossed,
            *final(self) == old(self).on(bus@).skip(AddrMode::AbsY).cpu,
    {
        let lo = bus.read(self.program_counter.wrapping_add(1));
        let hi = bus.read(self.program_counter.wrapping_add(2));
        let base = make_word(lo, hi);
        let addr = base.wrapping_add(self.register_y as u16);
        let page_crossed = crosses_page(base, addr);
        self.program_counter = self.program_counter.wrapping_add(3);
        (Operand::Address(addr), page_crossed)
    }

    /// (Indirect,X): the address stored in page zero at the operand byte
    /// plus X; both the sum and the pointer's second byte stay in page zero.
    pub fn fetch_indexed_indirect(&mut self, bus: &impl Bus) -> (operand: Operand)
        requires
            bus.inv(),
        ensures
            operand == old(self).on(bus@).resolve(AddrMode::XInd).operand,
            *final(self) == old(self).on(bus@).skip(AddrMode::XInd).cpu,
    {
        let zp = bus.read(self.program_counter.wrapping_add(1));
        let ptr = zp.wrapping_add(self.register_x);
        let lo = bus.read(ptr as u16);
        let hi = bus.read(ptr.wrapping_add(1) as u16);
        let addr = make_word(lo, hi);
        self.program_counter = self.program_counter.wrapping_add(2);
        Operand::Address(addr)
    }

    /// (Indirect),Y: the address stored in page zero at the operand byte,
    /// plus Y, and whether the sum lies in another page than that address.
    pub fn fetch_indirect_indexed(&mut self, bus: &impl Bus) -> (fetched: (Operand, bool))
        requires
            bus.inv(),
        ensures
            fetched.0 == old(self).on(bus@).resolve(AddrMode::IndY).operand,
            fetched.1 == old(self).on(bus@).resolve(AddrMode::IndY).page_crossed,
            *final(self) == old(self).on(bus@).skip(AddrMode::IndY).cpu,
    {
        let zp = bus.read(self.program_counter.wrapping_add(1));
        let lo = bus.read(zp as u16);
        let hi = bus.read(zp.wrapping_add(1) as u16);
        let base = make_word(lo, hi);
        let addr = base.wrapping_add(self.register_y as u16);
        let page_crossed = crosses_page(base, addr);
        self.program_counter = self.program_counter.wrapping_add(2);
        (Operand::Address(addr), page_crossed)
    }

    /// Indirect, for jumps: the address stored at the two-byte pointer.  The
    /// pointer's high byte is never carried into: a pointer that ends in
    /// `0xFF` takes the high byte of the target from the start of its own page.
    pub fn fetch_indirect_jmp(&mut self, bus: &impl Bus) -> (operand: Operand)
        requires
            bus.inv(),
        ensures
            operand == old(self).on(bus@).resolve(AddrMode::Ind).operand,
            *final(self) == old(self).on(bus@).skip(AddrMode::Ind).cpu,
    {
        let ptr_lo = bus.read(self.program_counter.wrapping_add(1));
        let ptr_hi = bus.read(self.program_counter.wrapping_add(2));
        let ptr = make_word(ptr_lo, ptr_hi);
        let lo = bus.read(ptr);
        let hi_addr = make_word(ptr_lo.wrapping_add(1), ptr_hi);
        let hi = bus.read(hi_addr);
        let addr = make_word(lo, hi);
        self.program_counter = self.program_counter.wrapping_add(3);
        Operand::Address(addr)
    }

    /// Relative: the operand byte is a signed displacement.
    pub fn fetch_relative_offset(&mut self, bus: &impl Bus) -> (offset: i8)
        requires
            bus.inv(),
        ensures
            offset as int == signed(old(self).on(bus@).operand_byte(1)),
            *final(self) == old(self).on(bus@).skip(AddrMode::Rel).cpu,
    {
        let offset = to_signed(bus.read(self.program_counter.wrapping_add(1)));
        self.program_counter = self.program_counter.wrapping_add(2);
        offset
    }
}

} // verus!
