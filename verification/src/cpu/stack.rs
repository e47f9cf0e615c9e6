//! The stack in page `0x01`.

use vstd::prelude::*;
use crate::arith::{high_byte, hi_byte, lo_byte, low_byte, make_word, word};
use crate::bus::Bus;
use crate::cpu::{CPU, Machine};

verus! {

/// The address of the stack cell that the stack pointer `sp` names.
pub open spec fn stack_addr(sp: u8) -> u16 {
    (0x0100 + sp as int) as u16
}

impl Machine {
    /// The machine after `value` was written to the cell under the stack
    /// pointer and the stack pointer moved down by one, from `0x00` to `0xFF`.
    pub open spec fn push_byte(self, value: u8) -> Machine {
        Machine {
            cpu: CPU { stack_pointer: self.cpu.stack_pointer.wrapping_sub(1), ..self.cpu },
            mem: self.mem.write(stack_addr(self.cpu.stack_pointer), value),
        }
    }

    /// The machine after the high byte of `value`, then its low byte, were pushed.
    pub open spec fn push_word(self, value: u16) -> Machine {
        self.push_byte(high_byte(value)).push_byte(low_byte(value))
    }

    /// The byte that a pop returns: the one above the stack pointer, where
    /// `0x00` is above `0xFF`.
    pub open spec fn top_byte(self) -> u8 {
        self.mem.read(stack_addr(self.cpu.stack_pointer.wrapping_add(1)))
    }

    /// The machine after a pop: the stack pointer has moved up by one.
    pub open spec fn drop_byte(self) -> Machine {
        Machine {
            cpu: CPU { stack_pointer: self.cpu.stack_pointer.wrapping_add(1), ..self.cpu },
            mem: self.mem,
        }
    }

    /// The 16-bit value that popping a low byte, then a high byte, returns.
    pub open spec fn top_word(self) -> u16 {
        word(self.top_byte(), self.drop_byte().top_byte())
    }

    /// The machine after two pops.
    pub open spec fn drop_word(self) -> Machine {
        self.drop_byte().drop_byte()
    }

    /// A pushed byte is the next byte popped, and the pop undoes the push
    /// on the registers, also when the stack pointer wraps around.
    pub proof fn lemma_push_pop_byte(self, value: u8)
        requires
            self.mem.writable.contains(stack_addr(self.cpu.stack_pointer)),
        ensures
            self.push_byte(value).top_byte() == value,
            self.push_byte(value).drop_byte().cpu == self.cpu,
    {
    }

    /// A pushed 16-bit value is the next one popped, and the two pops leave
    /// the registers, the stack pointer among them, as they were before the
    /// push, also when the stack pointer wraps around.
    pub proof fn lemma_push_pop_word(self, value: u16)
        requires
            self.mem.writable.contains(stack_addr(self.cpu.stack_pointer)),
            self.mem.writable.contains(stack_addr(self.cpu.stack_pointer.wrapping_sub(1))),
        ensures
            self.push_word(value).top_word() == value,
            self.push_word(value).drop_word().cpu == self.cpu,
            self.push_word(value).drop_word().mem == self.push_word(value).mem,
    {
    }
}

impl CPU {
    /// The address of the stack cell under the stack pointer.
    pub fn stack_address(&self) -> (addr: u16)
        ensures
            addr == stack_addr(self.stack_pointer),
    {
        let sp: u16 = self.stack_pointer as u16;
        assert(sp < 256 ==> 0x0100u16 | sp == 0x0100 + sp) by (bit_vector);
        0x0100 | sp
    }

    /// Writes `value` to the stack and moves the stack pointer down.
    pub fn push_byte(&mut self, bus: &mut impl Bus, value: u8)
        requires
            old(bus).inv(),
        ensures
            final(bus).inv(),
            final(self).on(final(bus)@) == old(self).on(old(bus)@).push_byte(value),
    {
        let addr = self.stack_address();
        bus.write(addr, value);
        self.stack_pointer = self.stack_pointer.wrapping_sub(1);
    }

    /// Moves the stack pointer up and returns the byte it then names.
    pub fn pop_byte(&mut self, bus: &mut impl Bus) -> (value: u8)
        requires
            old(bus).inv(),
        ensures
            final(bus).inv(),
            value == old(self).on(old(bus)@).top_byte(),
            final(self).on(final(bus)@) == old(self).on(old(bus)@).drop_byte(),
    {
        self.stack_pointer = self.stack_pointer.wrapping_add(1);
        let addr = self.stack_address();
        bus.read(addr)
    }

    /// Pushes the high byte of `value`, then its low byte.
    pub fn push_word(&mut self, bus: &mut impl Bus, value: u16)
        requires
            old(bus).inv(),
        ensures
            final(bus).inv(),
            final(self).on(final(bus)@) == old(self).on(old(bus)@).push_word(value),
    {
        let high = hi_byte(value);
        let low = lo_byte(value);
        self.push_byte(bus, high);
        self.push_byte(bus, low);
    }

    /// Pops a low byte, then a high byte, and returns the value they form.
    pub fn pop_word(&mut self, bus: &mut impl Bus) -> (value: u16)
        requires
            old(bus).inv(),
        ensures
            final(bus).inv(),
            value == old(self).on(old(bus)@).top_word(),
            final(self).on(final(bus)@) == old(self).on(old(bus)@).drop_word(),
    {
        let low = self.pop_byte(bus);
        let high = self.pop_byte(bus);
        make_word(low, high)
    }
}

} // verus!
