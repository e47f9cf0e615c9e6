//! The processor core: its registers, and the machine formed by the
//! registers together with what the bus holds.

use vstd::prelude::*;
use crate::bus::Memory;

pub mod flags;
pub mod alu;
pub mod stack;
pub mod addressing;
pub mod interrupt;
pub mod isa;
pub mod step;
pub mod laws;

verus! {

/// Address of the non-maskable interrupt vector.
pub const NMI_VECTOR: u16 = 0xfffa;

/// Address of the reset vector.
pub const RESET_VECTOR: u16 = 0xfffc;

/// Address of the vector shared by maskable interrupts and `BRK`.
pub const IRQ_VECTOR: u16 = 0xfffe;

/// Status bit 7: the last result had bit 7 set.
pub const FLAG_NEGATIVE: u8 = 0b1000_0000;

/// Status bit 6: the last addition or subtraction overflowed as signed.
pub const FLAG_OVERFLOW: u8 = 0b0100_0000;

/// Status bit 5: no meaning; reads as 1 whenever the status is observed.
pub const FLAG_UNUSED: u8 = 0b0010_0000;

/// Status bit 4: set in the status that `BRK` and `PHP` push.
pub const FLAG_BREAK: u8 = 0b0001_0000;

/// Status bit 3: decimal mode requested.
pub const FLAG_DECIMAL: u8 = 0b0000_1000;

/// Status bit 2: maskable interrupts are held off.
pub const FLAG_INTERRUPT: u8 = 0b0000_0100;

/// Status bit 1: the last result was zero.
pub const FLAG_ZERO: u8 = 0b0000_0010;

/// Status bit 0: carry out of the last addition, or no borrow.
pub const FLAG_CARRY: u8 = 0b0000_0001;

/// Stack pointer after reset.
pub const STACK_RESET: u8 = 0xfd;

/// The register file.
#[derive(Clone, Copy, Debug)]
pub struct CPU {
    /// Accumulator.
    pub register_a: u8,
    /// Index register X.
    pub register_x: u8,
    /// Index register Y.
    pub register_y: u8,
    /// Status flags, one per bit.
    pub status: u8,
    /// Address of the next instruction.
    pub program_counter: u16,
    /// Low byte of the address of the next free stack cell in page `0x01`.
    pub stack_pointer: u8,
    /// A non-maskable interrupt has been requested and not yet serviced.
    pub nmi_pending: bool,
    /// A maskable interrupt has been requested and not yet serviced.
    pub irq_pending: bool,
    /// Penalty cycles spent on taken branches and page crossings.
    pub cycles: u64,
}

/// The whole machine: the registers and what the bus holds.
pub struct Machine {
    pub cpu: CPU,
    pub mem: Memory,
}

impl CPU {
    /// The machine made of these registers and the memory `mem`.
    pub open spec fn on(self, mem: Memory) -> Machine {
        Machine { cpu: self, mem }
    }

    /// The registers as they are before the first reset: everything zero but
    /// the stack pointer and the two status bits that a reset sets.
    pub open spec fn initial() -> CPU {
        CPU {
            register_a: 0,
            register_x: 0,
            register_y: 0,
            status: 0b0010_0100,
            program_counter: 0,
            stack_pointer: STACK_RESET,
            nmi_pending: false,
            irq_pending: false,
            cycles: 0,
        }
    }

    /// A processor that has not been reset yet.
    pub fn new() -> (cpu: Self)
        ensures
            cpu == CPU::initial(),
    {
        CPU {
            register_a: 0,
            register_x: 0,
            register_y: 0,
            status: 0b0010_0100,
            program_counter: 0,
            stack_pointer: STACK_RESET,
            nmi_pending: false,
            irq_pending: false,
            cycles: 0,
        }
    }

    /// Requests a maskable interrupt.
    pub fn trigger_irq(&mut self)
        ensures
            *final(self) == (CPU { irq_pending: true, ..*old(self) }),
    {
        self.irq_pending = true;
    }

    /// Requests a non-maskable interrupt.
    pub fn trigger_nmi(&mut self)
        ensures
            *final(self) == (CPU { nmi_pending: true, ..*old(self) }),
    {
        self.nmi_pending = true;
    }
}

} // verus!
