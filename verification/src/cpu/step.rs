//! Stepping the processor: one instruction at a time, or many.

use vstd::prelude::*;
use crate::arith::{crosses_page, displace, displaced, page_crossed};
use crate::bus::Bus;
use crate::cpu::addressing::Operand;
use crate::cpu::flags::lemma_flag_written;
use crate::cpu::isa::Fault;
use crate::cpu::{
    CPU, Machine, FLAG_BREAK, FLAG_CARRY, FLAG_DECIMAL, FLAG_INTERRUPT, FLAG_NEGATIVE,
    FLAG_UNUSED, FLAG_ZERO, IRQ_VECTOR,
};

verus! {

/// How a run ended.
#[derive(Clone, Copy, Debug)]
pub struct RunReport {
    /// The number of steps that were completed.
    pub steps: u64,
    /// What stopped the run before its last step, if anything did.
    pub fault: Option<Fault>,
}

impl Machine {
    /// Once the pending interrupts have been looked at, looking again
    /// changes nothing: servicing one disables the maskable interrupt and
    /// leaves no non-maskable request behind.
    pub proof fn lemma_arbitrate_once(self)
        ensures
            self.arbitrate().arbitrate() == self.arbitrate(),
    {
        lemma_flag_written(self.cpu.status, FLAG_INTERRUPT, true);
    }
}

impl CPU {
    /// Moves the program counter by a signed displacement.
    pub fn branch(&mut self, offset: i8)
        ensures
            *final(self) == (CPU {
                program_counter: displaced(old(self).program_counter, offset as int),
                ..*old(self)
            }),
    {
        self.program_counter = displace(self.program_counter, offset);
    }

    /// Takes a branch: moves the program counter, which is already past the
    /// branch instruction, by `offset`, and charges one cycle for the branch
    /// and one more if the target lies in another page.
    pub fn branch_with_cycles(&mut self, offset: i8)
        ensures
            *final(self) == (CPU {
                program_counter: displaced(old(self).program_counter, offset as int),
                cycles: old(self).cycles.wrapping_add(
                    if page_crossed(
                        old(self).program_counter,
                        displaced(old(self).program_counter, offset as int),
                    ) {
                        2
                    } else {
                        1
                    },
                ),
                ..*old(self)
            }),
    {
        let old_pc = self.program_counter;
        let new_pc = displace(old_pc, offset);
        self.program_counter = new_pc;
        self.cycles = self.cycles.wrapping_add(1);
        if crosses_page(old_pc, new_pc) {
            self.cycles = self.cycles.wrapping_add(1);
        }
    }

    /// The byte that `operand` stands for.
    fn operand_value(&self, bus: &impl Bus, operand: Operand) -> (value: u8)
        requires
            bus.inv(),
        ensures
            value == self.on(bus@).value_of(operand),
    {
        match operand {
            Operand::Immediate(value) => value,
            Operand::Address(addr) => bus.read(addr),
            Operand::Accumulator => self.register_a,
        }
    }

    /// Executes a branch instruction whose condition is `taken`.
    fn branch_on(&mut self, bus: &impl Bus, taken: bool)
        requires
            bus.inv(),
        ensures
            final(self).on(bus@) == old(self).on(bus@).branch_if(taken),
    {
        let offset = self.fetch_relative_offset(bus);
        if taken {
            self.branch_with_cycles(offset);
        }
    }

    /// Tells why the instruction at the program counter cannot be executed,
    /// if it cannot.
    pub fn fault(&self, bus: &impl Bus) -> (fault: Option<Fault>)
        requires
            bus.inv(),
        ensures
            fault == self.on(bus@).fault(),
    {
        let opcode = bus.read(self.program_counter);
        match opcode {
            0x69 | 0x65 | 0x75 | 0x6d | 0xe9 | 0xed => {
                if self.get_flag(FLAG_DECIMAL) {
                    Some(Fault::DecimalMode)
                } else {
                    None
                }
            },
            0xa9 | 0xa5 | 0xb5 | 0xad | 0xbd | 0xb9 | 0xa1 | 0xb1 | 0xaa | 0xe8 | 0x8d | 0x85
            | 0x95 | 0x4c | 0x6c | 0xf0 | 0xd0 | 0x90 | 0xb0 | 0x30 | 0x10 | 0x00 | 0x48 | 0x68
            | 0x08 | 0x28 | 0x20 | 0x60 | 0x40 => None,
            _ => Some(Fault::UnimplementedOpcode(opcode)),
        }
    }

    /// Executes one step: services the interrupt that is due, if any, then
    /// executes the instruction at the program counter.
    ///
    /// The step must be one that can be completed: the instruction is one
    /// that the core executes, and it does not need the adder in decimal mode.
    pub fn run_once(&mut self, bus: &mut impl Bus)
        requires
            old(bus).inv(),
            old(self).on(old(bus)@).step_fault() is None,
        ensures
            final(bus).inv(),
            final(self).on(final(bus)@) == old(self).on(old(bus)@).step(),
    {
        proof {
            reveal(Machine::step);
            reveal(Machine::step_fault);
        }
        self.poll_interrupts(bus);
        let opcode = bus.read(self.program_counter);
        match opcode {
            0xa9 => {
                let operand = self.fetch_immediate(bus);
                self.register_a = self.operand_value(bus, operand);
                self.update_zero_and_negative_flags(self.register_a);
            },
            0xa5 => {
                let operand = self.fetch_zeropage(bus);
                self.register_a = self.operand_value(bus, operand);
                self.update_zero_and_negative_flags(self.register_a);
            },
            0xb5 => {
                let operand = self.fetch_zeropage_x(bus);
                self.register_a = self.operand_value(bus, operand);
                self.update_zero_and_negative_flags(self.register_a);
            },
            0xad => {
                let operand = self.fetch_absolute(bus);
                self.register_a = self.operand_value(bus, operand);
                self.update_zero_and_negative_flags(self.register_a);
            },
            0xbd => {
                let (operand, page_crossed) = self.fetch_absolute_x(bus);
                self.register_a = self.operand_value(bus, operand);
                self.update_zero_and_negative_flags(self.register_a);
                if page_crossed {
                    self.cycles = self.cycles.wrapping_add(1);
                }
            },
            0xb9 => {
                let (operand, page_crossed) = self.fetch_absolute_y(bus);
                self.register_a = self.operand_value(bus, operand);
                self.update_zero_and_negative_flags(self.register_a);
                if page_crossed {
                    self.cycles = self.cycles.wrapping_add(1);
                }
            },
            0xa1 => {
                let operand = self.fetch_indexed_indirect(bus);
                self.register_a = self.operand_value(bus, operand);
                self.update_zero_and_negative_flags(self.register_a);
            },
            0xb1 => {
                let (operand, page_crossed) = self.fetch_indirect_indexed(bus);
                self.register_a = self.operand_value(bus, operand);
                self.update_zero_and_negative_flags(self.register_a);
                if page_crossed {
                    self.cycles = self.cycles.wrapping_add(1);
                }
            },
            0xaa => {
                self.fetch_implied();
                self.register_x = self.register_a;
                self.update_zero_and_negative_flags(self.register_x);
            },
            0xe8 => {
                self.fetch_implied();
                self.register_x = self.register_x.wrapping_add(1);
                self.update_zero_and_negative_flags(self.register_x);
            },
            0x8d => {
                if let Operand::Address(addr) = self.fetch_absolute(bus) {
                    bus.write(addr, self.register_a);
                }
            },
            0x85 => {
                if let Operand::Address(addr) = self.fetch_zeropage(bus) {
                    bus.write(addr, self.register_a);
                }
            },
            0x95 => {
                if let Operand::Address(addr) = self.fetch_zeropage_x(bus) {
                    bus.write(addr, self.register_a);
                }
            },
            0x4c => {
                if let Operand::Address(addr) = self.fetch_absolute(bus) {
                    self.program_counter = addr;
                }
            },
            0x6c => {
                if let Operand::Address(addr) = self.fetch_indirect_jmp(bus) {
                    self.program_counter = addr;
                }
            },
            0xf0 => {
                let taken = self.get_flag(FLAG_ZERO);
                self.branch_on(bus, taken);
            },
            0xd0 => {
                let taken = !self.get_flag(FLAG_ZERO);
                self.branch_on(bus, taken);
            },
            0x90 => {
                let taken = !self.get_flag(FLAG_CARRY);
                self.branch_on(bus, taken);
            },
            0xb0 => {
                let taken = self.get_flag(FLAG_CARRY);
                self.branch_on(bus, taken);
            },
            0x30 => {
                let taken = self.get_flag(FLAG_NEGATIVE);
                self.branch_on(bus, taken);
            },
            0x10 => {
                let taken = !self.get_flag(FLAG_NEGATIVE);
                self.branch_on(bus, taken);
            },
            0x00 => {
                self.program_counter = self.program_counter.wrapping_add(1);
                self.push_word(bus, self.program_counter);
                self.push_byte(bus, self.status | FLAG_BREAK | FLAG_UNUSED);
                self.set_flag(FLAG_INTERRUPT, true);
                self.set_flag(FLAG_BREAK, false);
                self.program_counter = self.read_u16(bus, IRQ_VECTOR);
            },
            0x48 => {
                self.fetch_implied();
                self.push_byte(bus, self.register_a);
            },
            0x68 => {
                self.fetch_implied();
                self.register_a = self.pop_byte(bus);
                self.update_zero_and_negative_flags(self.register_a);
            },
            0x08 => {
                let flags = self.status | FLAG_BREAK | FLAG_UNUSED;
                self.push_byte(bus, flags);
                self.program_counter = self.program_counter.wrapping_add(1);
            },
            0x28 => {
                let value = self.pop_byte(bus);
                self.status = (value & 0b1100_1111) | 0b0010_0000;
                self.program_counter = self.program_counter.wrapping_add(1);
            },
            0x20 => {
                let target = self.read_u16(bus, self.program_counter.wrapping_add(1));
                let return_addr = self.program_counter.wrapping_add(2);
                self.push_word(bus, return_addr);
                self.program_counter = target;
            },
            0x60 => {
                let return_addr = self.pop_word(bus);
                self.program_counter = return_addr.wrapping_add(1);
            },
            0x40 => {
                let value = self.pop_byte(bus);
                self.status = (value & 0b1100_1111) | 0b0010_0000;
                self.program_counter = self.pop_word(bus);
            },
            0x69 => {
                let operand = self.fetch_immediate(bus);
                let value = self.operand_value(bus, operand);
                self.register_a = self.adc_binary(value);
            },
            0x6d => {
                let operand = self.fetch_absolute(bus);
                let value = self.operand_value(bus, operand);
                self.register_a = self.adc_binary(value);
            },
            0x65 => {
                let operand = self.fetch_zeropage(bus);
                let value = self.operand_value(bus, operand);
                self.register_a = self.adc_binary(value);
            },
            0x75 => {
                let operand = self.fetch_zeropage_x(bus);
                let value = self.operand_value(bus, operand);
                self.register_a = self.adc_binary(value);
            },
            0xe9 => {
                let operand = self.fetch_immediate(bus);
                let value = self.operand_value(bus, operand);
                self.register_a = self.sbc_binary(value);
            },
            0xed => {
                let operand = self.fetch_absolute(bus);
                let value = self.operand_value(bus, operand);
                self.register_a = self.sbc_binary(value);
            },
            _ => {
                assert(false);
            },
        }
    }

    /// Executes one step if it can be completed.  If it cannot, the reason
    /// is returned, and of the step only the service of a due interrupt has
    /// taken place.
    pub fn try_run_once(&mut self, bus: &mut impl Bus) -> (fault: Option<Fault>)
        requires
            old(bus).inv(),
        ensures
            final(bus).inv(),
            fault == old(self).on(old(bus)@).step_fault(),
            final(self).on(final(bus)@) == if fault is None {
                old(self).on(old(bus)@).step()
            } else {
                old(self).on(old(bus)@).arbitrate()
            },
    {
        proof {
            reveal(Machine::step);
            reveal(Machine::step_fault);
            old(self).on(old(bus)@).lemma_arbitrate_once();
        }
        self.poll_interrupts(bus);
        let fault = self.fault(bus);
        if fault.is_none() {
            self.run_once(bus);
        }
        fault
    }

    /// Executes steps until one cannot be completed or `max_steps` steps
    /// have been completed, whichever comes first.  A step that cannot be
    /// completed stops the run after the service of the interrupt that was
    /// due, if one was.
    pub fn run(&mut self, bus: &mut impl Bus, max_steps: u64) -> (report: RunReport)
        requires
            old(bus).inv(),
        ensures
            final(bus).inv(),
            report.steps <= max_steps,
            old(self).on(old(bus)@).runs_clean(report.steps as nat),
            report.fault == if report.steps < max_steps {
                old(self).on(old(bus)@).run(report.steps as nat).step_fault()
            } else {
                None
            },
            report.steps < max_steps ==> report.fault is Some,
            final(self).on(final(bus)@) == if report.fault is None {
                old(self).on(old(bus)@).run(report.steps as nat)
            } else {
                old(self).on(old(bus)@).run(report.steps as nat).arbitrate()
            },
    {
        let ghost start = self.on(bus@);
        let mut steps: u64 = 0;
        while steps < max_steps
            invariant
                bus.inv(),
                steps <= max_steps,
                start == old(self).on(old(bus)@),
                start.runs_clean(steps as nat),
                self.on(bus@) == start.run(steps as nat),
            decreases max_steps - steps,
        {
            let fault = self.try_run_once(bus);
            if fault.is_some() {
                return RunReport { steps, fault };
            }
            steps = steps + 1;
        }
        RunReport { steps, fault: None }
    }
}

} // verus!
