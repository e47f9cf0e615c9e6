//! An instruction-level simulator for a 6502-class 8-bit processor.
//!
//! The processor core ([`cpu::CPU`]) executes one instruction per step against
//! a byte-addressable memory bus ([`bus::Bus`]).  Every executable function is
//! specified against a mathematical model of the machine: the register file
//! itself and a [`bus::Memory`] describing what the bus holds.

pub mod arith;
pub mod bus;
pub mod cpu;
pub mod debugger;
pub mod disassembler;
