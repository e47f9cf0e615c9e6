//! The opcode table: for each of the 256 opcode bytes its mnemonic, its
//! addressing mode and the length of the instruction.  Bytes that name no
//! documented instruction have entries too, so that any byte can be shown.

use vstd::prelude::*;
use crate::disassembler::{AddrMode, OpcodeInfo};

verus! {

/// The addressing mode of `opcode`, mode by mode.
pub open spec fn mode_of(opcode: u8) -> AddrMode {
    match opcode {
        0x0a | 0x2a | 0x4a | 0x6a => AddrMode::Acc,
        0x09 | 0x0b | 0x29 | 0x2b | 0x49 | 0x4b | 0x69 | 0x6b | 0x80 | 0x82 | 0x89 | 0x8b
        | 0xa0 | 0xa2 | 0xa9 | 0xab | 0xc0 | 0xc2 | 0xc9 | 0xcb | 0xe0 | 0xe2 | 0xe9 | 0xeb
        => AddrMode::Imm,
        0x04 | 0x05 | 0x06 | 0x07 | 0x24 | 0x25 | 0x26 | 0x27 | 0x44 | 0x45 | 0x46 | 0x47
        | 0x64 | 0x65 | 0x66 | 0x67 | 0x84 | 0x85 | 0x86 | 0x87 | 0xa4 | 0xa5 | 0xa6 | 0xa7
        | 0xc4 | 0xc5 | 0xc6 | 0xc7 | 0xe4 | 0xe5 | 0xe6 | 0xe7 => AddrMode::Zp,
        0x14 | 0x15 | 0x16 | 0x17 | 0x34 | 0x35 | 0x36 | 0x37 | 0x54 | 0x55 | 0x56 | 0x57
        | 0x74 | 0x75 | 0x76 | 0x77 | 0x94 | 0x95 | 0xb4 | 0xb5 | 0xd4 | 0xd5 | 0xd6 | 0xd7
        | 0xf4 | 0xf5 | 0xf6 | 0xf7 => AddrMode::ZpX,
        0x96 | 0x97 | 0xb6 | 0xb7 => AddrMode::ZpY,
        0x0c | 0x0d | 0x0e | 0x0f | 0x20 | 0x2c | 0x2d | 0x2e | 0x2f | 0x4c | 0x4d | 0x4e
        | 0x4f | 0x6d | 0x6e | 0x6f | 0x8c | 0x8d | 0x8e | 0x8f | 0xac | 0xad | 0xae | 0xaf
        | 0xcc | 0xcd | 0xce | 0xcf | 0xec | 0xed | 0xee | 0xef => AddrMode::Abs,
        0x1c | 0x1d | 0x1e | 0x1f | 0x3c | 0x3d | 0x3e | 0x3f | 0x5c | 0x5d | 0x5e | 0x5f
        | 0x7c | 0x7d | 0x7e | 0x7f | 0x9c | 0x9d | 0xbc | 0xbd | 0xdc | 0xdd | 0xde | 0xdf
        | 0xfc | 0xfd | 0xfe | 0xff => AddrMode::AbsX,
        0x19 | 0x1b | 0x39 | 0x3b | 0x59 | 0x5b | 0x79 | 0x7b | 0x99 | 0x9b | 0x9e | 0x9f
        | 0xb9 | 0xbb | 0xbe | 0xbf | 0xd9 | 0xdb | 0xf9 | 0xfb => AddrMode::AbsY,
        0x6c => AddrMode::Ind,
        0x01 | 0x03 | 0x21 | 0x23 | 0x41 | 0x43 | 0x61 | 0x63 | 0x81 | 0x83 | 0xa1 | 0xa3
        | 0xc1 | 0xc3 | 0xe1 | 0xe3 => AddrMode::XInd,
        0x11 | 0x13 | 0x31 | 0x33 | 0x51 | 0x53 | 0x71 | 0x73 | 0x91 | 0x93 | 0xb1 | 0xb3
        | 0xd1 | 0xd3 | 0xf1 | 0xf3 => AddrMode::IndY,
        0x10 | 0x30 | 0x50 | 0x70 | 0x90 | 0xb0 | 0xd0 | 0xf0 => AddrMode::Rel,
        _ => AddrMode::Imp,
    }
}

/// The mnemonic of `opcode`, instruction by instruction.
pub open spec fn mnemonic_of(opcode: u8) -> Seq<char> {
    match opcode {
        0xcb => "AAX"@,
        0x61 | 0x65 | 0x69 | 0x6d | 0x71 | 0x75 | 0x79 | 0x7d => "ADC"@,
        0x93 | 0x9f => "AHX"@,
        0x4b => "ALR"@,
        0x0b | 0x2b => "ANC"@,
        0x21 | 0x25 | 0x29 | 0x2d | 0x31 | 0x35 | 0x39 | 0x3d => "AND"@,
        0x6b => "ARR"@,
        0x06 | 0x0a | 0x0e | 0x16 | 0x1e => "ASL"@,
        0x90 => "BCC"@,
        0xb0 => "BCS"@,
        0xf0 => "BEQ"@,
        0x24 | 0x2c => "BIT"@,
        0x30 => "BMI"@,
        0xd0 => "BNE"@,
        0x10 => "BPL"@,
        0x00 => "BRK"@,
        0x50 => "BVC"@,
        0x70 => "BVS"@,
        0x18 => "CLC"@,
        0xd8 => "CLD"@,
        0x58 => "CLI"@,
        0xb8 => "CLV"@,
        0xc1 | 0xc5 | 0xc9 | 0xcd | 0xd1 | 0xd5 | 0xd9 | 0xdd => "CMP"@,
        0xe0 | 0xe4 | 0xec => "CPX"@,
        0xc0 | 0xc4 | 0xcc => "CPY"@,
        0xc3 | 0xc7 | 0xcf | 0xd3 | 0xd7 | 0xdb | 0xdf => "DCP"@,
        0xc6 | 0xce | 0xd6 | 0xde => "DEC"@,
        0xca => "DEX"@,
        0x88 => "DEY"@,
        0x41 | 0x45 | 0x49 | 0x4d | 0x51 | 0x55 | 0x59 | 0x5d => "EOR"@,
        0xe6 | 0xee | 0xf6 | 0xfe => "INC"@,
        0xe8 => "INX"@,
        0xc8 => "INY"@,
        0xe3 | 0xe7 | 0xef | 0xf3 | 0xf7 | 0xfb | 0xff => "ISC"@,
        0x4c | 0x6c => "JMP"@,
        0x20 => "JSR"@,
        0x02 | 0x12 | 0x22 | 0x32 | 0x42 | 0x52 | 0x62 | 0x72 | 0x92 | 0xb2 | 0xd2 | 0xf2 => "KIL"@,
        0xbb => "LAS"@,
        0xa3 | 0xa7 | 0xab | 0xaf | 0xb3 | 0xb7 | 0xbf => "LAX"@,
        0xa1 | 0xa5 | 0xa9 | 0xad | 0xb1 | 0xb5 | 0xb9 | 0xbd => "LDA"@,
        0xa2 | 0xa6 | 0xae | 0xb6 | 0xbe => "LDX"@,
        0xa0 | 0xa4 | 0xac | 0xb4 | 0xbc => "LDY"@,
        0x46 | 0x4a | 0x4e | 0x56 | 0x5e => "LSR"@,
        0x01 | 0x05 | 0x09 | 0x0d | 0x11 | 0x15 | 0x19 | 0x1d => "ORA"@,
        0x48 => "PHA"@,
        0x08 => "PHP"@,
        0x68 => "PLA"@,
        0x28 => "PLP"@,
        0x23 | 0x27 | 0x2f | 0x33 | 0x37 | 0x3b | 0x3f => "RLA"@,
        0x26 | 0x2a | 0x2e | 0x36 | 0x3e => "ROL"@,
        0x66 | 0x6a | 0x6e | 0x76 | 0x7e => "ROR"@,
        0x63 | 0x67 | 0x6f | 0x73 | 0x77 | 0x7b | 0x7f => "RRA"@,
        0x40 => "RTI"@,
        0x60 => "RTS"@,
        0x83 | 0x87 | 0x8f | 0x97 => "SAX"@,
        0xe1 | 0xe5 | 0xe9 | 0xeb | 0xed | 0xf1 | 0xf5 | 0xf9 | 0xfd => "SBC"@,
        0x38 => "SEC"@,
        0xf8 => "SED"@,
        0x78 => "SEI"@,
        0x9e => "SHX"@,
        0x9c => "SHY"@,
        0x03 | 0x07 | 0x0f | 0x13 | 0x17 | 0x1b | 0x1f => "SLO"@,
        0x43 | 0x47 | 0x4f | 0x53 | 0x57 | 0x5b | 0x5f => "SRE"@,
        0x81 | 0x85 | 0x8d | 0x91 | 0x95 | 0x99 | 0x9d => "STA"@,
        0x86 | 0x8e | 0x96 => "STX"@,
        0x84 | 0x8c | 0x94 => "STY"@,
        0x9b => "TAS"@,
        0xaa => "TAX"@,
        0xa8 => "TAY"@,
        0xba => "TSX"@,
        0x8a => "TXA"@,
        0x9a => "TXS"@,
        0x98 => "TYA"@,
        0x8b => "XAA"@,
        _ => "NOP"@,
    }
}

/// Looks `opcode` up in the table.
pub fn opcode_info(opcode: u8) -> (info: OpcodeInfo)
    ensures
        info.mnemonic@ == mnemonic_of(opcode),
        info.mode == mode_of(opcode),
        info.size == mode_of(opcode).spec_size(),
{
    match opcode {
        0x00 => OpcodeInfo { mnemonic: "BRK", mode: AddrMode::Imp, size: 1 },
        0x01 => OpcodeInfo { mnemonic: "ORA", mode: AddrMode::XInd, size: 2 },
        0x02 => OpcodeInfo { mnemonic: "KIL", mode: AddrMode::Imp, size: 1 },
        0x03 => OpcodeInfo { mnemonic: "SLO", mode: AddrMode::XInd, size: 2 },
        0x04 => OpcodeInfo { mnemonic: "NOP", mode: AddrMode::Zp, size: 2 },
        0x05 => OpcodeInfo { mnemonic: "ORA", mode: AddrMode::Zp, size: 2 },
        0x06 => OpcodeInfo { mnemonic: "ASL", mode: AddrMode::Zp, size: 2 },
        0x07 => OpcodeInfo { mnemonic: "SLO", mode: AddrMode::Zp, size: 2 },
        0x08 => OpcodeInfo { mnemonic: "PHP", mode: AddrMode::Imp, size: 1 },
        0x09 => OpcodeInfo { mnemonic: "ORA", mode: AddrMode::Imm, size: 2 },
        0x0a => OpcodeInfo { mnemonic: "ASL", mode: AddrMode::Acc, size: 1 },
        0x0b => OpcodeInfo { mnemonic: "ANC", mode: AddrMode::Imm, size: 2 },
        0x0c => OpcodeInfo { mnemonic: "NOP", mode: AddrMode::Abs, size: 3 },
        0x0d => OpcodeInfo { mnemonic: "ORA", mode: AddrMode::Abs, size: 3 },
        0x0e => OpcodeInfo { mnemonic: "ASL", mode: AddrMode::Abs, size: 3 },
        0x0f => OpcodeInfo { mnemonic: "SLO", mode: AddrMode::Abs, size: 3 },
        0x10 => OpcodeInfo { mnemonic: "BPL", mode: AddrMode::Rel, size: 2 },
        0x11 => OpcodeInfo { mnemonic: "ORA", mode: AddrMode::IndY, size: 2 },
        0x12 => OpcodeInfo { mnemonic: "KIL", mode: AddrMode::Imp, size: 1 },
        0x13 => OpcodeInfo { mnemonic: "SLO", mode: AddrMode::IndY, size: 2 },
        0x14 => OpcodeInfo { mnemonic: "NOP", mode: AddrMode::ZpX, size: 2 },
        0x15 => OpcodeInfo { mnemonic: "ORA", mode: AddrMode::ZpX, size: 2 },
        0x16 => OpcodeInfo { mnemonic: "ASL", mode: AddrMode::ZpX, size: 2 },
        0x17 => OpcodeInfo { mnemonic: "SLO", mode: AddrMode::ZpX, size: 2 },
        0x18 => OpcodeInfo { mnemonic: "CLC", mode: AddrMode::Imp, size: 1 },
        0x19 => OpcodeInfo { mnemonic: "ORA", mode: AddrMode::AbsY, size: 3 },
        0x1a => OpcodeInfo { mnemonic: "NOP", mode: AddrMode::Imp, size: 1 },
        0x1b => OpcodeInfo { mnemonic: "SLO", mode: AddrMode::AbsY, size: 3 },
        0x1c => OpcodeInfo { mnemonic: "NOP", mode: AddrMode::AbsX, size: 3 },
        0x1d => OpcodeInfo { mnemonic: "ORA", mode: AddrMode::AbsX, size: 3 },
        0x1e => OpcodeInfo { mnemonic: "ASL", mode: AddrMode::AbsX, size: 3 },
        0x1f => OpcodeInfo { mnemonic: "SLO", mode: AddrMode::AbsX, size: 3 },
        0x20 => OpcodeInfo { mnemonic: "JSR", mode: AddrMode::Abs, size: 3 },
        0x21 => OpcodeInfo { mnemonic: "AND", mode: AddrMode::XInd, size: 2 },
        0x22 => OpcodeInfo { mnemonic: "KIL", mode: AddrMode::Imp, size: 1 },
        0x23 => OpcodeInfo { mnemonic: "RLA", mode: AddrMode::XInd, size: 2 },
        0x24 => OpcodeInfo { mnemonic: "BIT", mode: AddrMode::Zp, size: 2 },
        0x25 => OpcodeInfo { mnemonic: "AND", mode: AddrMode::Zp, size: 2 },
        0x26 => OpcodeInfo { mnemonic: "ROL", mode: AddrMode::Zp, size: 2 },
        0x27 => OpcodeInfo { mnemonic: "RLA", mode: AddrMode::Zp, size: 2 },
        0x28 => OpcodeInfo { mnemonic: "PLP", mode: AddrMode::Imp, size: 1 },
        0x29 => OpcodeInfo { mnemonic: "AND", mode: AddrMode::Imm, size: 2 },
        0x2a => OpcodeInfo { mnemonic: "ROL", mode: AddrMode::Acc, size: 1 },
        0x2b => OpcodeInfo { mnemonic: "ANC", mode: AddrMode::Imm, size: 2 },
        0x2c => OpcodeInfo { mnemonic: "BIT", mode: AddrMode::Abs, size: 3 },
        0x2d => OpcodeInfo { mnemonic: "AND", mode: AddrMode::Abs, size: 3 },
        0x2e => OpcodeInfo { mnemonic: "ROL", mode: AddrMode::Abs, size: 3 },
        0x2f => OpcodeInfo { mnemonic: "RLA", mode: AddrMode::Abs, size: 3 },
        0x30 => OpcodeInfo { mnemonic: "BMI", mode: AddrMode::Rel, size: 2 },
        0x31 => OpcodeInfo { mnemonic: "AND", mode: AddrMode::IndY, size: 2 },
        0x32 => OpcodeInfo { mnemonic: "KIL", mode: AddrMode::Imp, size: 1 },
        0x33 => OpcodeInfo { mnemonic: "RLA", mode: AddrMode::IndY, size: 2 },
        0x34 => OpcodeInfo { mnemonic: "NOP", mode: AddrMode::ZpX, size: 2 },
        0x35 => OpcodeInfo { mnemonic: "AND", mode: AddrMode::ZpX, size: 2 },
        0x36 => OpcodeInfo { mnemonic: "ROL", mode: AddrMode::ZpX, size: 2 },
        0x37 => OpcodeInfo { mnemonic: "RLA", mode: AddrMode::ZpX, size: 2 },
        0x38 => OpcodeInfo { mnemonic: "SEC", mode: AddrMode::Imp, size: 1 },
        0x39 => OpcodeInfo { mnemonic: "AND", mode: AddrMode::AbsY, size: 3 },
        0x3a => OpcodeInfo { mnemonic: "NOP", mode: AddrMode::Imp, size: 1 },
        0x3b => OpcodeInfo { mnemonic: "RLA", mode: AddrMode::AbsY, size: 3 },
        0x3c => OpcodeInfo { mnemonic: "NOP", mode: AddrMode::AbsX, size: 3 },
        0x3d => OpcodeInfo { mnemonic: "AND", mode: AddrMode::AbsX, size: 3 },
        0x3e => OpcodeInfo { mnemonic: "ROL", mode: AddrMode::AbsX, size: 3 },
        0x3f => OpcodeInfo { mnemonic: "RLA", mode: AddrMode::AbsX, size: 3 },
        0x40 => OpcodeInfo { mnemonic: "RTI", mode: AddrMode::Imp, size: 1 },
        0x41 => OpcodeInfo { mnemonic: "EOR", mode: AddrMode::XInd, size: 2 },
        0x42 => OpcodeInfo { mnemonic: "KIL", mode: AddrMode::Imp, size: 1 },
        0x43 => OpcodeInfo { mnemonic: "SRE", mode: AddrMode::XInd, size: 2 },
        0x44 => OpcodeInfo { mnemonic: "NOP", mode: AddrMode::Zp, size: 2 },
        0x45 => OpcodeInfo { mnemonic: "EOR", mode: AddrMode::Zp, size: 2 },
        0x46 => OpcodeInfo { mnemonic: "LSR", mode: AddrMode::Zp, size: 2 },
        0x47 => OpcodeInfo { mnemonic: "SRE", mode: AddrMode::Zp, size: 2 },
        0x48 => OpcodeInfo { mnemonic: "PHA", mode: AddrMode::Imp, size: 1 },
        0x49 => OpcodeInfo { mnemonic: "EOR", mode: AddrMode::Imm, size: 2 },
        0x4a => OpcodeInfo { mnemonic: "LSR", mode: AddrMode::Acc, size: 1 },
        0x4b => OpcodeInfo { mnemonic: "ALR", mode: AddrMode::Imm, size: 2 },
        0x4c => OpcodeInfo { mnemonic: "JMP", mode: AddrMode::Abs, size: 3 },
        0x4d => OpcodeInfo { mnemonic: "EOR", mode: AddrMode::Abs, size: 3 },
        0x4e => OpcodeInfo { mnemonic: "LSR", mode: AddrMode::Abs, size: 3 },
        0x4f => OpcodeInfo { mnemonic: "SRE", mode: AddrMode::Abs, size: 3 },
        0x50 => OpcodeInfo { mnemonic: "BVC", mode: AddrMode::Rel, size: 2 },
        0x51 => OpcodeInfo { mnemonic: "EOR", mode: AddrMode::IndY, size: 2 },
        0x52 => OpcodeInfo { mnemonic: "KIL", mode: AddrMode::Imp, size: 1 },
        0x53 => OpcodeInfo { mnemonic: "SRE", mode: AddrMode::IndY, size: 2 },
        0x54 => OpcodeInfo { mnemonic: "NOP", mode: AddrMode::ZpX, size: 2 },
        0x55 => OpcodeInfo { mnemonic: "EOR", mode: AddrMode::ZpX, size: 2 },
        0x56 => OpcodeInfo { mnemonic: "LSR", mode: AddrMode::ZpX, size: 2 },
        0x57 => OpcodeInfo { mnemonic: "SRE", mode: AddrMode::ZpX, size: 2 },
        0x58 => OpcodeInfo { mnemonic: "CLI", mode: AddrMode::Imp, size: 1 },
        0x59 => OpcodeInfo { mnemonic: "EOR", mode: AddrMode::AbsY, size: 3 },
        0x5a => OpcodeInfo { mnemonic: "NOP", mode: AddrMode::Imp, size: 1 },
        0x5b => OpcodeInfo { mnemonic: "SRE", mode: AddrMode::AbsY, size: 3 },
        0x5c => OpcodeInfo { mnemonic: "NOP", mode: AddrMode::AbsX, size: 3 },
        0x5d => OpcodeInfo { mnemonic: "EOR", mode: AddrMode::AbsX, size: 3 },
        0x5e => OpcodeInfo { mnemonic: "LSR", mode: AddrMode::AbsX, size: 3 },
        0x5f => OpcodeInfo { mnemonic: "SRE", mode: AddrMode::AbsX, size: 3 },
        0x60 => OpcodeInfo { mnemonic: "RTS", mode: AddrMode::Imp, size: 1 },
        0x61 => OpcodeInfo { mnemonic: "ADC", mode: AddrMode::XInd, size: 2 },
        0x62 => OpcodeInfo { mnemonic: "KIL", mode: AddrMode::Imp, size: 1 },
        0x63 => OpcodeInfo { mnemonic: "RRA", mode: AddrMode::XInd, size: 2 },
        0x64 => OpcodeInfo { mnemonic: "NOP", mode: AddrMode::Zp, size: 2 },
        0x65 => OpcodeInfo { mnemonic: "ADC", mode: AddrMode::Zp, size: 2 },
        0x66 => OpcodeInfo { mnemonic: "ROR", mode: AddrMode::Zp, size: 2 },
        0x67 => OpcodeInfo { mnemonic: "RRA", mode: AddrMode::Zp, size: 2 },
        0x68 => OpcodeInfo { mnemonic: "PLA", mode: AddrMode::Imp, size: 1 },
        0x69 => OpcodeInfo { mnemonic: "ADC", mode: AddrMode::Imm, size: 2 },
        0x6a => OpcodeInfo { mnemonic: "ROR", mode: AddrMode::Acc, size: 1 },
        0x6b => OpcodeInfo { mnemonic: "ARR", mode: AddrMode::Imm, size: 2 },
        0x6c => OpcodeInfo { mnemonic: "JMP", mode: AddrMode::Ind, size: 3 },
        0x6d => OpcodeInfo { mnemonic: "ADC", mode: AddrMode::Abs, size: 3 },
        0x6e => OpcodeInfo { mnemonic: "ROR", mode: AddrMode::Abs, size: 3 },
        0x6f => OpcodeInfo { mnemonic: "RRA", mode: AddrMode::Abs, size: 3 },
        0x70 => OpcodeInfo { mnemonic: "BVS", mode: AddrMode::Rel, size: 2 },
        0x71 => OpcodeInfo { mnemonic: "ADC", mode: AddrMode::IndY, size: 2 },
        0x72 => OpcodeInfo { mnemonic: "KIL", mode: AddrMode::Imp, size: 1 },
        0x73 => OpcodeInfo { mnemonic: "RRA", mode: AddrMode::IndY, size: 2 },
        0x74 => OpcodeInfo { mnemonic: "NOP", mode: AddrMode::ZpX, size: 2 },
        0x75 => OpcodeInfo { mnemonic: "ADC", mode: AddrMode::ZpX, size: 2 },
        0x76 => OpcodeInfo { mnemonic: "ROR", mode: AddrMode::ZpX, size: 2 },
        0x77 => OpcodeInfo { mnemonic: "RRA", mode: AddrMode::ZpX, size: 2 },
        0x78 => OpcodeInfo { mnemonic: "SEI", mode: AddrMode::Imp, size: 1 },
        0x79 => OpcodeInfo { mnemonic: "ADC", mode: AddrMode::AbsY, size: 3 },
        0x7a => OpcodeInfo { mnemonic: "NOP", mode: AddrMode::Imp, size: 1 },
        0x7b => OpcodeInfo { mnemonic: "RRA", mode: AddrMode::AbsY, size: 3 },
        0x7c => OpcodeInfo { mnemonic: "NOP", mode: AddrMode::AbsX, size: 3 },
        0x7d => OpcodeInfo { mnemonic: "ADC", mode: AddrMode::AbsX, size: 3 },
        0x7e => OpcodeInfo { mnemonic: "ROR", mode: AddrMode::AbsX, size: 3 },
        0x7f => OpcodeInfo { mnemonic: "RRA", mode: AddrMode::AbsX, size: 3 },
        0x80 => OpcodeInfo { mnemonic: "NOP", mode: AddrMode::Imm, size: 2 },
        0x81 => OpcodeInfo { mnemonic: "STA", mode: AddrMode::XInd, size: 2 },
        0x82 => OpcodeInfo { mnemonic: "NOP", mode: AddrMode::Imm, size: 2 },
        0x83 => OpcodeInfo { mnemonic: "SAX", mode: AddrMode::XInd, size: 2 },
        0x84 => OpcodeInfo { mnemonic: "STY", mode: AddrMode::Zp, size: 2 },
        0x85 => OpcodeInfo { mnemonic: "STA", mode: AddrMode::Zp, size: 2 },
        0x86 => OpcodeInfo { mnemonic: "STX", mode: AddrMode::Zp, size: 2 },
        0x87 => OpcodeInfo { mnemonic: "SAX", mode: AddrMode::Zp, size: 2 },
        0x88 => OpcodeInfo { mnemonic: "DEY", mode: AddrMode::Imp, size: 1 },
        0x89 => OpcodeInfo { mnemonic: "NOP", mode: AddrMode::Imm, size: 2 },
        0x8a => OpcodeInfo { mnemonic: "TXA", mode: AddrMode::Imp, size: 1 },
        0x8b => OpcodeInfo { mnemonic: "XAA", mode: AddrMode::Imm, size: 2 },
        0x8c => OpcodeInfo { mnemonic: "STY", mode: AddrMode::Abs, size: 3 },
        0x8d => OpcodeInfo { mnemonic: "STA", mode: AddrMode::Abs, size: 3 },
        0x8e => OpcodeInfo { mnemonic: "STX", mode: AddrMode::Abs, size: 3 },
        0x8f => OpcodeInfo { mnemonic: "SAX", mode: AddrMode::Abs, size: 3 },
        0x90 => OpcodeInfo { mnemonic: "BCC", mode: AddrMode::Rel, size: 2 },
        0x91 => OpcodeInfo { mnemonic: "STA", mode: AddrMode::IndY, size: 2 },
        0x92 => OpcodeInfo { mnemonic: "KIL", mode: AddrMode::Imp, size: 1 },
        0x93 => OpcodeInfo { mnemonic: "AHX", mode: AddrMode::IndY, size: 2 },
        0x94 => OpcodeInfo { mnemonic: "STY", mode: AddrMode::ZpX, size: 2 },
        0x95 => OpcodeInfo { mnemonic: "STA", mode: AddrMode::ZpX, size: 2 },
        0x96 => OpcodeInfo { mnemonic: "STX", mode: AddrMode::ZpY, size: 2 },
        0x97 => OpcodeInfo { mnemonic: "SAX", mode: AddrMode::ZpY, size: 2 },
        0x98 => OpcodeInfo { mnemonic: "TYA", mode: AddrMode::Imp, size: 1 },
        0x99 => OpcodeInfo { mnemonic: "STA", mode: AddrMode::AbsY, size: 3 },
        0x9a => OpcodeInfo { mnemonic: "TXS", mode: AddrMode::Imp, size: 1 },
        0x9b => OpcodeInfo { mnemonic: "TAS", mode: AddrMode::AbsY, size: 3 },
        0x9c => OpcodeInfo { mnemonic: "SHY", mode: AddrMode::AbsX, size: 3 },
        0x9d => OpcodeInfo { mnemonic: "STA", mode: AddrMode::AbsX, size: 3 },
        0x9e => OpcodeInfo { mnemonic: "SHX", mode: AddrMode::AbsY, size: 3 },
        0x9f => OpcodeInfo { mnemonic: "AHX", mode: AddrMode::AbsY, size: 3 },
        0xa0 => OpcodeInfo { mnemonic: "LDY", mode: AddrMode::Imm, size: 2 },
        0xa1 => OpcodeInfo { mnemonic: "LDA", mode: AddrMode::XInd, size: 2 },
        0xa2 => OpcodeInfo { mnemonic: "LDX", mode: AddrMode::Imm, size: 2 },
        0xa3 => OpcodeInfo { mnemonic: "LAX", mode: AddrMode::XInd, size: 2 },
        0xa4 => OpcodeInfo { mnemonic: "LDY", mode: AddrMode::Zp, size: 2 },
        0xa5 => OpcodeInfo { mnemonic: "LDA", mode: AddrMode::Zp, size: 2 },
        0xa6 => OpcodeInfo { mnemonic: "LDX", mode: AddrMode::Zp, size: 2 },
        0xa7 => OpcodeInfo { mnemonic: "LAX", mode: AddrMode::Zp, size: 2 },
        0xa8 => OpcodeInfo { mnemonic: "TAY", mode: AddrMode::Imp, size: 1 },
        0xa9 => OpcodeInfo { mnemonic: "LDA", mode: AddrMode::Imm, size: 2 },
        0xaa => OpcodeInfo { mnemonic: "TAX", mode: AddrMode::Imp, size: 1 },
        0xab => OpcodeInfo { mnemonic: "LAX", mode: AddrMode::Imm, size: 2 },
        0xac => OpcodeInfo { mnemonic: "LDY", mode: AddrMode::Abs, size: 3 },
        0xad => OpcodeInfo { mnemonic: "LDA", mode: AddrMode::Abs, size: 3 },
        0xae => OpcodeInfo { mnemonic: "LDX", mode: AddrMode::Abs, size: 3 },
        0xaf => OpcodeInfo { mnemonic: "LAX", mode: AddrMode::Abs, size: 3 },
        0xb0 => OpcodeInfo { mnemonic: "BCS", mode: AddrMode::Rel, size: 2 },
        0xb1 => OpcodeInfo { mnemonic: "LDA", mode: AddrMode::IndY, size: 2 },
        0xb2 => OpcodeInfo { mnemonic: "KIL", mode: AddrMode::Imp, size: 1 },
        0xb3 => OpcodeInfo { mnemonic: "LAX", mode: AddrMode::IndY, size: 2 },
        0xb4 => OpcodeInfo { mnemonic: "LDY", mode: AddrMode::ZpX, size: 2 },
        0xb5 => OpcodeInfo { mnemonic: "LDA", mode: AddrMode::ZpX, size: 2 },
        0xb6 => OpcodeInfo { mnemonic: "LDX", mode: AddrMode::ZpY, size: 2 },
        0xb7 => OpcodeInfo { mnemonic: "LAX", mode: AddrMode::ZpY, size: 2 },
        0xb8 => OpcodeInfo { mnemonic: "CLV", mode: AddrMode::Imp, size: 1 },
        0xb9 => OpcodeInfo { mnemonic: "LDA", mode: AddrMode::AbsY, size: 3 },
        0xba => OpcodeInfo { mnemonic: "TSX", mode: AddrMode::Imp, size: 1 },
        0xbb => OpcodeInfo { mnemonic: "LAS", mode: AddrMode::AbsY, size: 3 },
        0xbc => OpcodeInfo { mnemonic: "LDY", mode: AddrMode::AbsX, size: 3 },
        0xbd => OpcodeInfo { mnemonic: "LDA", mode: AddrMode::AbsX, size: 3 },
        0xbe => OpcodeInfo { mnemonic: "LDX", mode: AddrMode::AbsY, size: 3 },
        0xbf => OpcodeInfo { mnemonic: "LAX", mode: AddrMode::AbsY, size: 3 },
        0xc0 => OpcodeInfo { mnemonic: "CPY", mode: AddrMode::Imm, size: 2 },
        0xc1 => OpcodeInfo { mnemonic: "CMP", mode: AddrMode::XInd, size: 2 },
        0xc2 => OpcodeInfo { mnemonic: "NOP", mode: AddrMode::Imm, size: 2 },
        0xc3 => OpcodeInfo { mnemonic: "DCP", mode: AddrMode::XInd, size: 2 },
        0xc4 => OpcodeInfo { mnemonic: "CPY", mode: AddrMode::Zp, size: 2 },
        0xc5 => OpcodeInfo { mnemonic: "CMP", mode: AddrMode::Zp, size: 2 },
        0xc6 => OpcodeInfo { mnemonic: "DEC", mode: AddrMode::Zp, size: 2 },
        0xc7 => OpcodeInfo { mnemonic: "DCP", mode: AddrMode::Zp, size: 2 },
        0xc8 => OpcodeInfo { mnemonic: "INY", mode: AddrMode::Imp, size: 1 },
        0xc9 => OpcodeInfo { mnemonic: "CMP", mode: AddrMode::Imm, size: 2 },
        0xca => OpcodeInfo { mnemonic: "DEX", mode: AddrMode::Imp, size: 1 },
        0xcb => OpcodeInfo { mnemonic: "AAX", mode: AddrMode::Imm, size: 2 },
        0xcc => OpcodeInfo { mnemonic: "CPY", mode: AddrMode::Abs, size: 3 },
        0xcd => OpcodeInfo { mnemonic: "CMP", mode: AddrMode::Abs, size: 3 },
        0xce => OpcodeInfo { mnemonic: "DEC", mode: AddrMode::Abs, size: 3 },
        0xcf => OpcodeInfo { mnemonic: "DCP", mode: AddrMode::Abs, size: 3 },
        0xd0 => OpcodeInfo { mnemonic: "BNE", mode: AddrMode::Rel, size: 2 },
        0xd1 => OpcodeInfo { mnemonic: "CMP", mode: AddrMode::IndY, size: 2 },
        0xd2 => OpcodeInfo { mnemonic: "KIL", mode: AddrMode::Imp, size: 1 },
        0xd3 => OpcodeInfo { mnemonic: "DCP", mode: AddrMode::IndY, size: 2 },
        0xd4 => OpcodeInfo { mnemonic: "NOP", mode: AddrMode::ZpX, size: 2 },
        0xd5 => OpcodeInfo { mnemonic: "CMP", mode: AddrMode::ZpX, size: 2 },
        0xd6 => OpcodeInfo { mnemonic: "DEC", mode: AddrMode::ZpX, size: 2 },
        0xd7 => OpcodeInfo { mnemonic: "DCP", mode: AddrMode::ZpX, size: 2 },
        0xd8 => OpcodeInfo { mnemonic: "CLD", mode: AddrMode::Imp, size: 1 },
        0xd9 => OpcodeInfo { mnemonic: "CMP", mode: AddrMode::AbsY, size: 3 },
        0xda => OpcodeInfo { mnemonic: "NOP", mode: AddrMode::Imp, size: 1 },
        0xdb => OpcodeInfo { mnemonic: "DCP", mode: AddrMode::AbsY, size: 3 },
        0xdc => OpcodeInfo { mnemonic: "NOP", mode: AddrMode::AbsX, size: 3 },
        0xdd => OpcodeInfo { mnemonic: "CMP", mode: AddrMode::AbsX, size: 3 },
        0xde => OpcodeInfo { mnemonic: "DEC", mode: AddrMode::AbsX, size: 3 },
        0xdf => OpcodeInfo { mnemonic: "DCP", mode: AddrMode::AbsX, size: 3 },
        0xe0 => OpcodeInfo { mnemonic: "CPX", mode: AddrMode::Imm, size: 2 },
        0xe1 => OpcodeInfo { mnemonic: "SBC", mode: AddrMode::XInd, size: 2 },
        0xe2 => OpcodeInfo { mnemonic: "NOP", mode: AddrMode::Imm, size: 2 },
        0xe3 => OpcodeInfo { mnemonic: "ISC", mode: AddrMode::XInd, size: 2 },
        0xe4 => OpcodeInfo { mnemonic: "CPX", mode: AddrMode::Zp, size: 2 },
        0xe5 => OpcodeInfo { mnemonic: "SBC", mode: AddrMode::Zp, size: 2 },
        0xe6 => OpcodeInfo { mnemonic: "INC", mode: AddrMode::Zp, size: 2 },
        0xe7 => OpcodeInfo { mnemonic: "ISC", mode: AddrMode::Zp, size: 2 },
        0xe8 => OpcodeInfo { mnemonic: "INX", mode: AddrMode::Imp, size: 1 },
        0xe9 => OpcodeInfo { mnemonic: "SBC", mode: AddrMode::Imm, size: 2 },
        0xea => OpcodeInfo { mnemonic: "NOP", mode: AddrMode::Imp, size: 1 },
        0xeb => OpcodeInfo { mnemonic: "SBC", mode: AddrMode::Imm, size: 2 },
        0xec => OpcodeInfo { mnemonic: "CPX", mode: AddrMode::Abs, size: 3 },
        0xed => OpcodeInfo { mnemonic: "SBC", mode: AddrMode::Abs, size: 3 },
        0xee => OpcodeInfo { mnemonic: "INC", mode: AddrMode::Abs, size: 3 },
        0xef => OpcodeInfo { mnemonic: "ISC", mode: AddrMode::Abs, size: 3 },
        0xf0 => OpcodeInfo { mnemonic: "BEQ", mode: AddrMode::Rel, size: 2 },
        0xf1 => OpcodeInfo { mnemonic: "SBC", mode: AddrMode::IndY, size: 2 },
        0xf2 => OpcodeInfo { mnemonic: "KIL", mode: AddrMode::Imp, size: 1 },
        0xf3 => OpcodeInfo { mnemonic: "ISC", mode: AddrMode::IndY, size: 2 },
        0xf4 => OpcodeInfo { mnemonic: "NOP", mode: AddrMode::ZpX, size: 2 },
        0xf5 => OpcodeInfo { mnemonic: "SBC", mode: AddrMode::ZpX, size: 2 },
        0xf6 => OpcodeInfo { mnemonic: "INC", mode: AddrMode::ZpX, size: 2 },
        0xf7 => OpcodeInfo { mnemonic: "ISC", mode: AddrMode::ZpX, size: 2 },
        0xf8 => OpcodeInfo { mnemonic: "SED", mode: AddrMode::Imp, size: 1 },
        0xf9 => OpcodeInfo { mnemonic: "SBC", mode: AddrMode::AbsY, size: 3 },
        0xfa => OpcodeInfo { mnemonic: "NOP", mode: AddrMode::Imp, size: 1 },
        0xfb => OpcodeInfo { mnemonic: "ISC", mode: AddrMode::AbsY, size: 3 },
        0xfc => OpcodeInfo { mnemonic: "NOP", mode: AddrMode::AbsX, size: 3 },
        0xfd => OpcodeInfo { mnemonic: "SBC", mode: AddrMode::AbsX, size: 3 },
        0xfe => OpcodeInfo { mnemonic: "INC", mode: AddrMode::AbsX, size: 3 },
        0xff => OpcodeInfo { mnemonic: "ISC", mode: AddrMode::AbsX, size: 3 },
    }
}

} // verus!
