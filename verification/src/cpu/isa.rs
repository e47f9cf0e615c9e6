//! The instruction set: which opcodes the core executes, and what each
//! instruction does to the machine.

use vstd::prelude::*;
use crate::cpu::addressing::Operand;
use crate::cpu::alu::{add_with_carry, arithmetic_status, subtract_with_borrow};
use crate::cpu::flags::{flag_set, with_flag, with_zero_negative};
use crate::cpu::interrupt::{status_for_push, status_from_pull};
use crate::cpu::{
    CPU, Machine, FLAG_BREAK, FLAG_CARRY, FLAG_DECIMAL, FLAG_INTERRUPT, FLAG_NEGATIVE, FLAG_ZERO,
    IRQ_VECTOR,
};
use crate::disassembler::table::mode_of;
use crate::disassembler::AddrMode;

verus! {

/// The instructions that the core executes.
#[derive(Clone, Copy, Debug, PartialEq, Eq, Structural)]
pub enum Operation {
    /// Add memory and carry to the accumulator.
    Adc,
    /// Branch if the carry flag is clear.
    Bcc,
    /// Branch if the carry flag is set.
    Bcs,
    /// Branch if the zero flag is set.
    Beq,
    /// Branch if the negative flag is set.
    Bmi,
    /// Branch if the zero flag is clear.
    Bne,
    /// Branch if the negative flag is clear.
    Bpl,
    /// Software interrupt.
    Brk,
    /// Increment X.
    Inx,
    /// Jump.
    Jmp,
    /// Jump to a subroutine.
    Jsr,
    /// Load the accumulator.
    Lda,
    /// Push the accumulator.
    Pha,
    /// Push the status register.
    Php,
    /// Pull the accumulator.
    Pla,
    /// Pull the status register.
    Plp,
    /// Return from an interrupt handler.
    Rti,
    /// Return from a subroutine.
    Rts,
    /// Subtract memory and borrow from the accumulator.
    Sbc,
    /// Store the accumulator.
    Sta,
    /// Copy the accumulator to X.
    Tax,
}

/// A decoded instruction.
pub struct Instruction {
    pub operation: Operation,
    pub mode: AddrMode,
}

/// Why the processor cannot execute the next instruction.
#[derive(Clone, Copy, Debug, PartialEq, Eq, Structural)]
pub enum Fault {
    /// The opcode byte names no instruction that the core executes.
    UnimplementedOpcode(u8),
    /// An addition or subtraction was asked for while the decimal flag is set.
    DecimalMode,
}

/// The instruction that `opcode` names, if the core executes it.
pub open spec fn operation_of(opcode: u8) -> Option<Operation> {
    match opcode {
        0x69 | 0x65 | 0x75 | 0x6d => Some(Operation::Adc),
        0x90 => Some(Operation::Bcc),
        0xb0 => Some(Operation::Bcs),
        0xf0 => Some(Operation::Beq),
        0x30 => Some(Operation::Bmi),
        0xd0 => Some(Operation::Bne),
        0x10 => Some(Operation::Bpl),
        0x00 => Some(Operation::Brk),
        0xe8 => Some(Operation::Inx),
        0x4c | 0x6c => Some(Operation::Jmp),
        0x20 => Some(Operation::Jsr),
        0xa9 | 0xa5 | 0xb5 | 0xad | 0xbd | 0xb9 | 0xa1 | 0xb1 => Some(Operation::Lda),
        0x48 => Some(Operation::Pha),
        0x08 => Some(Operation::Php),
        0x68 => Some(Operation::Pla),
        0x28 => Some(Operation::Plp),
        0x40 => Some(Operation::Rti),
        0x60 => Some(Operation::Rts),
        0xe9 | 0xed => Some(Operation::Sbc),
        0x85 | 0x95 | 0x8d => Some(Operation::Sta),
        0xaa => Some(Operation::Tax),
        _ => None,
    }
}

/// The instruction that `opcode` encodes: the operation it names together
/// with the addressing mode that the opcode table gives it.
pub open spec fn decode(opcode: u8) -> Option<Instruction> {
    match operation_of(opcode) {
        Some(operation) => Some(Instruction { operation, mode: mode_of(opcode) }),
        None => None,
    }
}

impl Operation {
    /// The mnemonic of the operation.
    pub open spec fn name(self) -> Seq<char> {
        match self {
            Operation::Adc => "ADC"@,
            Operation::Bcc => "BCC"@,
            Operation::Bcs => "BCS"@,
            Operation::Beq => "BEQ"@,
            Operation::Bmi => "BMI"@,
            Operation::Bne => "BNE"@,
            Operation::Bpl => "BPL"@,
            Operation::Brk => "BRK"@,
            Operation::Inx => "INX"@,
            Operation::Jmp => "JMP"@,
            Operation::Jsr => "JSR"@,
            Operation::Lda => "LDA"@,
            Operation::Pha => "PHA"@,
            Operation::Php => "PHP"@,
            Operation::Pla => "PLA"@,
            Operation::Plp => "PLP"@,
            Operation::Rti => "RTI"@,
            Operation::Rts => "RTS"@,
            Operation::Sbc => "SBC"@,
            Operation::Sta => "STA"@,
            Operation::Tax => "TAX"@,
        }
    }

    /// Whether the operation goes through the adder, which has no decimal mode.
    pub open spec fn is_arithmetic(self) -> bool {
        self == Operation::Adc || self == Operation::Sbc
    }
}

impl Machine {
    /// The byte that `operand` stands for.
    pub open spec fn value_of(self, operand: Operand) -> u8 {
        match operand {
            Operand::Immediate(value) => value,
            Operand::Address(addr) => self.mem.read(addr),
            Operand::Accumulator => self.cpu.register_a,
        }
    }

    /// The machine with `value` in the accumulator and the zero and negative
    /// flags set from it.
    pub open spec fn load_a(self, value: u8) -> Machine {
        Machine {
            cpu: CPU {
                register_a: value,
                status: with_zero_negative(self.cpu.status, value),
                ..self.cpu
            },
            mem: self.mem,
        }
    }

    /// The machine with `value` in X and the zero and negative flags set from it.
    pub open spec fn load_x(self, value: u8) -> Machine {
        Machine {
            cpu: CPU {
                register_x: value,
                status: with_zero_negative(self.cpu.status, value),
                ..self.cpu
            },
            mem: self.mem,
        }
    }

    /// The machine with `cycles` more penalty cycles on the counter, which
    /// wraps around silently.
    pub open spec fn penalty(self, cycles: u64) -> Machine {
        Machine {
            cpu: CPU { cycles: self.cpu.cycles.wrapping_add(cycles), ..self.cpu },
            mem: self.mem,
        }
    }

    /// The machine with the program counter at `target`.
    pub open spec fn jump(self, target: u16) -> Machine {
        Machine { cpu: CPU { program_counter: target, ..self.cpu }, mem: self.mem }
    }

    /// The machine with `status` in the status register.
    pub open spec fn with_status(self, status: u8) -> Machine {
        Machine { cpu: CPU { status, ..self.cpu }, mem: self.mem }
    }

    /// The machine with the accumulator written to `addr`.
    pub open spec fn store_a(self, addr: u16) -> Machine {
        Machine { cpu: self.cpu, mem: self.mem.write(addr, self.cpu.register_a) }
    }

    /// The machine after a branch instruction whose condition is `taken`.
    /// The program counter is past the two bytes of the branch; a taken
    /// branch then moves it by the signed displacement and costs one cycle,
    /// or two if the target lies in another page than the next instruction.
    pub open spec fn branch_if(self, taken: bool) -> Machine {
        let found = self.resolve(AddrMode::Rel);
        let next = self.skip(AddrMode::Rel);
        match found.operand {
            Operand::Address(target) if taken => next.jump(target).penalty(
                if found.page_crossed {
                    2
                } else {
                    1
                },
            ),
            _ => next,
        }
    }

    /// The machine after `BRK`: the address of the byte after the opcode
    /// and the status, with the break bit set in the pushed copy, are on
    /// the stack; interrupts are disabled, the break bit of the live status
    /// is clear, and the program counter comes from the interrupt vector.
    pub open spec fn software_interrupt(self) -> Machine {
        let next = self.advance(1);
        let saved = next.push_word(next.cpu.program_counter).push_byte(
            status_for_push(self.cpu.status),
        );
        saved.with_status(
            with_flag(with_flag(self.cpu.status, FLAG_INTERRUPT, true), FLAG_BREAK, false),
        ).jump(saved.mem.read_word(IRQ_VECTOR))
    }

    /// The machine after `JSR`: the address of the last byte of the
    /// instruction is on the stack and the program counter is at the operand.
    pub open spec fn call(self) -> Machine {
        self.push_word(self.cpu.program_counter.wrapping_add(2)).jump(self.operand_word())
    }

    /// The machine after `RTS`: the program counter is one past the address
    /// that was popped.
    pub open spec fn return_from_call(self) -> Machine {
        self.drop_word().jump(self.top_word().wrapping_add(1))
    }

    /// The machine after `RTI`: first the status is popped, then the program
    /// counter, which is taken as it is.
    pub open spec fn return_from_interrupt(self) -> Machine {
        let rest = self.drop_byte();
        rest.drop_word().with_status(status_from_pull(self.top_byte())).jump(rest.top_word())
    }

    /// The machine with the accumulator and the flags as the adder leaves
    /// them after adding `value`.
    pub open spec fn add_to_a(self, value: u8) -> Machine {
        let sum = add_with_carry(
            self.cpu.register_a,
            value,
            flag_set(self.cpu.status, FLAG_CARRY),
        );
        Machine {
            cpu: CPU {
                register_a: sum.value,
                status: arithmetic_status(self.cpu.status, sum),
                ..self.cpu
            },
            mem: self.mem,
        }
    }

    /// The machine with the accumulator and the flags as the adder leaves
    /// them after subtracting `value`.
    pub open spec fn subtract_from_a(self, value: u8) -> Machine {
        let sum = subtract_with_borrow(
            self.cpu.register_a,
            value,
            flag_set(self.cpu.status, FLAG_CARRY),
        );
        Machine {
            cpu: CPU {
                register_a: sum.value,
                status: arithmetic_status(self.cpu.status, sum),
                ..self.cpu
            },
            mem: self.mem,
        }
    }

    /// The machine after the instruction at the program counter, taken to
    /// be `instruction`, has been executed.
    pub open spec fn perform(self, instruction: Instruction) -> Machine {
        let cpu = self.cpu;
        let found = self.resolve(instruction.mode);
        let next = self.skip(instruction.mode);
        match instruction.operation {
            Operation::Adc => next.add_to_a(self.value_of(found.operand)),
            Operation::Sbc => next.subtract_from_a(self.value_of(found.operand)),
            Operation::Lda => next.load_a(self.value_of(found.operand)).penalty(
                if found.page_crossed {
                    1
                } else {
                    0
                },
            ),
            Operation::Sta => match found.operand {
                Operand::Address(addr) => next.store_a(addr),
                _ => next,
            },
            Operation::Tax => next.load_x(cpu.register_a),
            Operation::Inx => next.load_x(cpu.register_x.wrapping_add(1)),
            Operation::Jmp => match found.operand {
                Operand::Address(addr) => next.jump(addr),
                _ => next,
            },
            Operation::Bcc => self.branch_if(!flag_set(cpu.status, FLAG_CARRY)),
            Operation::Bcs => self.branch_if(flag_set(cpu.status, FLAG_CARRY)),
            Operation::Beq => self.branch_if(flag_set(cpu.status, FLAG_ZERO)),
            Operation::Bne => self.branch_if(!flag_set(cpu.status, FLAG_ZERO)),
            Operation::Bmi => self.branch_if(flag_set(cpu.status, FLAG_NEGATIVE)),
            Operation::Bpl => self.branch_if(!flag_set(cpu.status, FLAG_NEGATIVE)),
            Operation::Brk => self.software_interrupt(),
            Operation::Pha => next.push_byte(cpu.register_a),
            Operation::Pla => next.drop_byte().load_a(next.top_byte()),
            Operation::Php => next.push_byte(status_for_push(cpu.status)),
            Operation::Plp => next.drop_byte().with_status(status_from_pull(next.top_byte())),
            Operation::Jsr => self.call(),
            Operation::Rts => self.return_from_call(),
            Operation::Rti => self.return_from_interrupt(),
        }
    }

    /// The opcode byte at the program counter.
    pub open spec fn opcode(self) -> u8 {
        self.mem.read(self.cpu.program_counter)
    }

    /// Why the instruction at the program counter cannot be executed, if it
    /// cannot: its opcode is not one the core executes, or it needs the
    /// adder while the decimal flag is set.
    pub open spec fn fault(self) -> Option<Fault> {
        match decode(self.opcode()) {
            None => Some(Fault::UnimplementedOpcode(self.opcode())),
            Some(instruction) => if instruction.operation.is_arithmetic() && flag_set(
                self.cpu.status,
                FLAG_DECIMAL,
            ) {
                Some(Fault::DecimalMode)
            } else {
                None
            },
        }
    }

    /// The machine after the instruction at the program counter.
    pub open spec fn execute(self) -> Machine {
        match decode(self.opcode()) {
            Some(instruction) => self.perform(instruction),
            None => self,
        }
    }

    /// Why the next step cannot be completed, if it cannot.  The instruction
    /// in question is the one found once a due interrupt has been serviced.
    #[verifier::opaque]
    pub open spec fn step_fault(self) -> Option<Fault> {
        self.arbitrate().fault()
    }

    /// The machine one step later: a due interrupt has been serviced, then
    /// one instruction has been executed.
    #[verifier::opaque]
    pub open spec fn step(self) -> Machine {
        self.arbitrate().execute()
    }

    /// The machine `steps` steps later.
    pub open spec fn run(self, steps: nat) -> Machine
        decreases steps,
    {
        if steps == 0 {
            self
        } else {
            self.run((steps - 1) as nat).step()
        }
    }

    /// Whether each of the next `steps` steps can be completed.
    pub open spec fn runs_clean(self, steps: nat) -> bool
        decreases steps,
    {
        steps == 0 || (self.runs_clean((steps - 1) as nat) && self.run(
            (steps - 1) as nat,
        ).step_fault() is None)
    }
}

} // verus!
