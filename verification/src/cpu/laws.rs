//! Properties of the machine that follow from the instruction semantics.

use vstd::prelude::*;
use crate::arith::{complement, page_crossed, word};
use crate::bus::{Bus, Memory, SimpleBus};
use crate::cpu::alu::{arithmetic_status, lemma_subtract_is_add_complement, Sum};
use crate::cpu::flags::{flag_set, lemma_flag_written, with_flag};
use crate::cpu::interrupt::{status_for_interrupt, status_for_push, status_from_pull};
use crate::cpu::isa::{operation_of, Instruction, Operation};
use crate::cpu::stack::stack_addr;
use crate::cpu::{
    CPU, Machine, FLAG_BREAK, FLAG_CARRY, FLAG_INTERRUPT, FLAG_NEGATIVE, FLAG_OVERFLOW,
    FLAG_UNUSED, FLAG_ZERO, NMI_VECTOR,
};
use crate::disassembler::table::mnemonic_of;
use crate::disassembler::AddrMode;

verus! {

impl Machine {
    /// Whether an interrupt will be serviced at the start of the next step.
    pub open spec fn interrupt_due(self) -> bool {
        self.cpu.nmi_pending || (self.cpu.irq_pending && !flag_set(
            self.cpu.status,
            FLAG_INTERRUPT,
        ))
    }
}

/// After an addition or subtraction, the carry flag is the carry out, the
/// overflow flag is the overflow found, the zero and negative flags
/// describe the result, and the four other status bits are as before.
pub proof fn lemma_arithmetic_flags(status: u8, sum: Sum)
    ensures
        flag_set(arithmetic_status(status, sum), FLAG_CARRY) == sum.carry,
        flag_set(arithmetic_status(status, sum), FLAG_OVERFLOW) == sum.overflow,
        flag_set(arithmetic_status(status, sum), FLAG_ZERO) == (sum.value == 0),
        flag_set(arithmetic_status(status, sum), FLAG_NEGATIVE) == (sum.value >= 0x80),
        arithmetic_status(status, sum) & 0b0011_1100 == status & 0b0011_1100,
{
    lemma_four_flags(status, sum.carry, sum.overflow, sum.value == 0, sum.value >= 0x80);
}

/// Writing the carry, overflow, zero and negative flags one after the
/// other makes each read back as written and leaves the other four bits alone.
proof fn lemma_four_flags(status: u8, c: bool, v: bool, z: bool, n: bool)
    by (bit_vector)
    ensures
        ({
            let carry = with_flag(status, FLAG_CARRY, c);
            let overflow = with_flag(carry, FLAG_OVERFLOW, v);
            let zero = with_flag(overflow, FLAG_ZERO, z);
            let after = with_flag(zero, FLAG_NEGATIVE, n);
            &&& flag_set(after, FLAG_CARRY) == c
            &&& flag_set(after, FLAG_OVERFLOW) == v
            &&& flag_set(after, FLAG_ZERO) == z
            &&& flag_set(after, FLAG_NEGATIVE) == n
            &&& after & 0b0011_1100 == status & 0b0011_1100
        }),
{
}

/// Every status byte that reaches the stack, and every status restored
/// from it, has the unused bit set.  Interrupts push the break bit clear,
/// `BRK` and `PHP` push it set, and a pull always clears it.
pub proof fn lemma_observed_status(status: u8)
    by (bit_vector)
    ensures
        flag_set(status_for_interrupt(status), FLAG_UNUSED),
        !flag_set(status_for_interrupt(status), FLAG_BREAK),
        flag_set(status_for_push(status), FLAG_UNUSED),
        flag_set(status_for_push(status), FLAG_BREAK),
        flag_set(status_from_pull(status), FLAG_UNUSED),
        !flag_set(status_from_pull(status), FLAG_BREAK),
        status_from_pull(status_for_push(status)) == status_for_interrupt(status),
        status_from_pull(status) & 0b1100_1111 == status & 0b1100_1111,
{
}

/// After `BRK` the live status has interrupts disabled and the break bit clear.
pub proof fn lemma_status_after_break(status: u8)
    by (bit_vector)
    ensures
        flag_set(
            with_flag(with_flag(status, FLAG_INTERRUPT, true), FLAG_BREAK, false),
            FLAG_INTERRUPT,
        ),
        !flag_set(
            with_flag(with_flag(status, FLAG_INTERRUPT, true), FLAG_BREAK, false),
            FLAG_BREAK,
        ),
{
}

/// The opcode table calls every instruction that the core executes by its
/// name.
pub proof fn lemma_table_names_operations(opcode: u8)
    ensures
        operation_of(opcode) matches Some(operation) ==> mnemonic_of(opcode) == operation.name(),
{
}

/// On a bus with read/write memory below `0x8000`, every stack cell keeps
/// what is written to it.
pub proof fn lemma_stack_in_ram(bus: SimpleBus, sp: u8)
    ensures
        bus@.writable.contains(stack_addr(sp)),
{
}

/// An indirect jump through a pointer in the last cell of a page takes the
/// low byte of its target from that cell and the high byte from the first
/// cell of the same page, not from the first cell of the next page.
pub proof fn lemma_indirect_jump_stays_in_page(mem: Memory, page: u8)
    ensures
        mem.read_word_in_page(0xff, page) == word(
            mem.read(word(0xff, page)),
            mem.read(word(0x00, page)),
        ),
{
}

impl Machine {
    /// Subtracting a byte from the accumulator is adding its complement.
    pub proof fn lemma_subtract_is_add(self, value: u8)
        ensures
            self.subtract_from_a(value) == self.add_to_a(complement(value)),
    {
        lemma_subtract_is_add_complement(
            self.cpu.register_a,
            value,
            flag_set(self.cpu.status, FLAG_CARRY),
        );
    }

    /// A branch that is not taken costs no cycle; a taken branch costs one
    /// cycle if its target lies in the page of the instruction after the
    /// branch, and two if it does not.  Either way the program counter ends
    /// where the branch says.
    pub proof fn lemma_branch_cycles(self, taken: bool)
        ensures
            ({
                let after = self.branch_if(taken);
                let next = self.cpu.program_counter.wrapping_add(2);
                let target = after.cpu.program_counter;
                &&& !taken ==> target == next && after.cpu.cycles == self.cpu.cycles
                &&& taken && !page_crossed(next, target) ==> after.cpu.cycles
                    == self.cpu.cycles.wrapping_add(1)
                &&& taken && page_crossed(next, target) ==> after.cpu.cycles
                    == self.cpu.cycles.wrapping_add(2)
                &&& after.mem == self.mem
            }),
    {
    }

    /// The six branch instructions test the carry, zero and negative flags.
    pub proof fn lemma_branch_conditions(self)
        ensures
            self.perform(Instruction { operation: Operation::Bcc, mode: AddrMode::Rel })
                == self.branch_if(!flag_set(self.cpu.status, FLAG_CARRY)),
            self.perform(Instruction { operation: Operation::Bcs, mode: AddrMode::Rel })
                == self.branch_if(flag_set(self.cpu.status, FLAG_CARRY)),
            self.perform(Instruction { operation: Operation::Bne, mode: AddrMode::Rel })
                == self.branch_if(!flag_set(self.cpu.status, FLAG_ZERO)),
            self.perform(Instruction { operation: Operation::Beq, mode: AddrMode::Rel })
                == self.branch_if(flag_set(self.cpu.status, FLAG_ZERO)),
            self.perform(Instruction { operation: Operation::Bpl, mode: AddrMode::Rel })
                == self.branch_if(!flag_set(self.cpu.status, FLAG_NEGATIVE)),
            self.perform(Instruction { operation: Operation::Bmi, mode: AddrMode::Rel })
                == self.branch_if(flag_set(self.cpu.status, FLAG_NEGATIVE)),
    {
    }

    /// An instruction that neither branches, jumps, calls, returns nor
    /// breaks leaves the program counter at the instruction that follows
    /// it: as many bytes on as its addressing mode takes.
    pub proof fn lemma_straight_line(self, instruction: Instruction)
        requires
            match instruction.operation {
                Operation::Adc
                | Operation::Sbc
                | Operation::Lda
                | Operation::Sta
                | Operation::Tax
                | Operation::Inx
                | Operation::Pha
                | Operation::Pla
                | Operation::Php
                | Operation::Plp => true,
                _ => false,
            },
        ensures
            self.perform(instruction).cpu.program_counter == self.cpu.program_counter.wrapping_add(
                instruction.mode.spec_size() as u16,
            ),
    {
    }

    /// With no interrupt due, a step is the instruction at the program counter.
    pub proof fn lemma_step_without_interrupt(self)
        requires
            !self.interrupt_due(),
        ensures
            self.step() == self.execute(),
            self.step_fault() == self.fault(),
    {
        reveal(Machine::step);
        reveal(Machine::step_fault);
    }

    /// When both interrupts are pending, the step services the non-maskable
    /// one, whatever the interrupt-disable flag says: the instruction
    /// executed is the first of the handler named by the vector at
    /// `0xFFFA`.  The maskable request is still pending after the step, and
    /// is held off for as long as the handler leaves interrupts disabled.
    pub proof fn lemma_nmi_first(self)
        requires
            self.cpu.nmi_pending,
            self.cpu.irq_pending,
        ensures
            self.arbitrate().cpu.program_counter == self.mem.read_word(NMI_VECTOR),
            !self.arbitrate().cpu.nmi_pending,
            self.arbitrate().cpu.irq_pending,
            flag_set(self.arbitrate().cpu.status, FLAG_INTERRUPT),
            !self.arbitrate().interrupt_due(),
            self.step() == self.arbitrate().execute(),
            self.step().cpu.irq_pending,
            !self.step().cpu.nmi_pending,
    {
        reveal(Machine::step);
        lemma_flag_written(self.cpu.status, FLAG_INTERRUPT, true);
        self.arbitrate().lemma_pending_kept();
    }

    /// No instruction raises or withdraws an interrupt request.
    pub proof fn lemma_pending_kept(self)
        ensures
            self.execute().cpu.nmi_pending == self.cpu.nmi_pending,
            self.execute().cpu.irq_pending == self.cpu.irq_pending,
    {
    }

    /// `JSR` followed at once by `RTS` comes back to the instruction after
    /// the `JSR` with every register as it was, provided the two stack cells
    /// used keep what is written to them.
    pub proof fn lemma_call_return(self)
        requires
            !self.interrupt_due(),
            self.opcode() == 0x20,
            self.step().opcode() == 0x60,
            self.mem.writable.contains(stack_addr(self.cpu.stack_pointer)),
            self.mem.writable.contains(stack_addr(self.cpu.stack_pointer.wrapping_sub(1))),
        ensures
            self.step_fault() is None,
            self.step().step_fault() is None,
            self.step().cpu.program_counter == self.operand_word(),
            self.step().step().cpu == (CPU {
                program_counter: self.cpu.program_counter.wrapping_add(3),
                ..self.cpu
            }),
            self.step().step().mem == self.step().mem,
    {
        reveal(Machine::step);
        reveal(Machine::step_fault);
        self.lemma_push_pop_word(self.cpu.program_counter.wrapping_add(2));
    }

    /// `BRK` followed at once by `RTI` comes back to the byte after the
    /// `BRK` opcode with the status as it was, but for the break bit, which
    /// is set in the copy that `BRK` pushes and clear after `RTI`, and the
    /// unused bit, which is set in both.  The three stack cells used must
    /// keep what is written to them.
    pub proof fn lemma_break_return(self)
        requires
            !self.interrupt_due(),
            self.opcode() == 0x00,
            self.step().opcode() == 0x40,
            self.mem.writable.contains(stack_addr(self.cpu.stack_pointer)),
            self.mem.writable.contains(stack_addr(self.cpu.stack_pointer.wrapping_sub(1))),
            self.mem.writable.contains(stack_addr(self.cpu.stack_pointer.wrapping_sub(2))),
        ensures
            self.step_fault() is None,
            self.step().step_fault() is None,
            self.step().top_byte() == status_for_push(self.cpu.status),
            flag_set(self.step().top_byte(), FLAG_BREAK),
            self.step().step().cpu == (CPU {
                program_counter: self.cpu.program_counter.wrapping_add(1),
                status: status_for_interrupt(self.cpu.status),
                ..self.cpu
            }),
            !flag_set(self.step().step().cpu.status, FLAG_BREAK),
            self.step().step().mem == self.step().mem,
    {
        reveal(Machine::step);
        reveal(Machine::step_fault);
        lemma_observed_status(self.cpu.status);
        lemma_status_after_break(self.cpu.status);
        let next = self.advance(1);
        let pushed = next.push_word(next.cpu.program_counter);
        next.lemma_push_pop_word(next.cpu.program_counter);
        pushed.lemma_push_pop_byte(status_for_push(self.cpu.status));
    }
}

} // verus!
