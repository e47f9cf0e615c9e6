//! Reset and interrupt service.

use vstd::prelude::*;
use crate::bus::Bus;
use crate::cpu::flags::{flag_set, with_flag};
use crate::cpu::{
    CPU, Machine, FLAG_BREAK, FLAG_INTERRUPT, FLAG_UNUSED, IRQ_VECTOR, NMI_VECTOR, RESET_VECTOR,
    STACK_RESET,
};

verus! {

/// The status byte that a hardware interrupt pushes: the break bit clear,
/// the unused bit set, the rest as it is.
pub open spec fn status_for_interrupt(status: u8) -> u8 {
    (status & !FLAG_BREAK) | FLAG_UNUSED
}

/// The status byte that `BRK` and `PHP` push: the break and unused bits
/// set, the rest as it is.
pub open spec fn status_for_push(status: u8) -> u8 {
    status | FLAG_BREAK | FLAG_UNUSED
}

/// The status register after `value` was pulled into it: the break bit
/// clear, the unused bit set, the rest as pulled.
pub open spec fn status_from_pull(value: u8) -> u8 {
    (value & 0b1100_1111) | 0b0010_0000
}

impl Machine {
    /// The machine after a reset: the program counter comes from the reset
    /// vector, the stack pointer is `0xFD`, interrupts are disabled, the
    /// other flags and the three registers are clear.  Pending interrupts
    /// and the cycle count are as before.
    pub open spec fn reset(self) -> Machine {
        Machine {
            cpu: CPU {
                register_a: 0,
                register_x: 0,
                register_y: 0,
                status: 0b0010_0100,
                program_counter: self.mem.read_word(RESET_VECTOR),
                stack_pointer: STACK_RESET,
                ..self.cpu
            },
            mem: self.mem,
        }
    }

    /// The machine after entering the handler whose address is stored at
    /// `vector`: the program counter and the status are on the stack,
    /// interrupts are disabled.
    pub open spec fn service(self, vector: u16) -> Machine {
        let saved = self.push_word(self.cpu.program_counter).push_byte(
            status_for_interrupt(self.cpu.status),
        );
        Machine {
            cpu: CPU {
                status: with_flag(self.cpu.status, FLAG_INTERRUPT, true),
                program_counter: saved.mem.read_word(vector),
                ..saved.cpu
            },
            mem: saved.mem,
        }
    }

    /// The machine at the start of the next instruction, once the pending
    /// interrupts have been looked at.  A pending non-maskable interrupt is
    /// serviced, whatever else is pending.  Failing that, a pending
    /// maskable interrupt is serviced unless interrupts are disabled.  The
    /// request that was serviced is no longer pending; any other is as before.
    pub open spec fn arbitrate(self) -> Machine {
        if self.cpu.nmi_pending {
            Machine { cpu: CPU { nmi_pending: false, ..self.cpu }, mem: self.mem }.service(
                NMI_VECTOR,
            )
        } else if self.cpu.irq_pending && !flag_set(self.cpu.status, FLAG_INTERRUPT) {
            Machine { cpu: CPU { irq_pending: false, ..self.cpu }, mem: self.mem }.service(
                IRQ_VECTOR,
            )
        } else {
            self
        }
    }
}

impl CPU {
    /// Brings the processor to its state after power-on.
    pub fn reset(&mut self, bus: &mut impl Bus)
        requires
            old(bus).inv(),
        ensures
            final(bus).inv(),
            final(self).on(final(bus)@) == old(self).on(old(bus)@).reset(),
    {
        self.program_counter = self.read_u16(bus, RESET_VECTOR);
        self.stack_pointer = STACK_RESET;
        self.status = FLAG_INTERRUPT | FLAG_UNUSED;
        assert(FLAG_INTERRUPT | FLAG_UNUSED == 0b0010_0100) by (bit_vector);
        self.register_a = 0;
        self.register_x = 0;
        self.register_y = 0;
    }

    /// Enters the interrupt handler whose address is stored at `vector`.
    pub fn handle_interrupt(&mut self, bus: &mut impl Bus, vector: u16)
        requires
            old(bus).inv(),
        ensures
            final(bus).inv(),
            final(self).on(final(bus)@) == old(self).on(old(bus)@).service(vector),
    {
        let pc = self.program_counter;
        self.push_word(bus, pc);
        let flags = (self.status & !FLAG_BREAK) | FLAG_UNUSED;
        self.push_byte(bus, flags);
        self.status |= FLAG_INTERRUPT;
        self.program_counter = self.read_u16(bus, vector);
    }

    /// Services the interrupt that is due at this instruction boundary, if any.
    pub fn poll_interrupts(&mut self, bus: &mut impl Bus)
        requires
            old(bus).inv(),
        ensures
            final(bus).inv(),
            final(self).on(final(bus)@) == old(self).on(old(bus)@).arbitrate(),
    {
        if self.nmi_pending {
            self.nmi_pending = false;
            self.handle_interrupt(bus, NMI_VECTOR);
        } else if self.irq_pending && !self.get_flag(FLAG_INTERRUPT) {
            self.irq_pending = false;
            self.handle_interrupt(bus, IRQ_VECTOR);
        }
    }
}

} // verus!
