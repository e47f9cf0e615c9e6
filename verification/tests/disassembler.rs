use emu6502::bus::{Bus, SimpleBus};
use emu6502::disassembler::table::opcode_info;
use emu6502::disassembler::text::{push_binary8, push_hex2, push_hex4, push_spaces};
use emu6502::disassembler::{disassemble, fmt_operand, format_operand, AddrMode, Disassembled};

fn rom_bus(program: &[u8]) -> SimpleBus {
    SimpleBus::new(0x8000, program)
}

#[test]
fn modes_have_their_sizes() {
    assert_eq!(AddrMode::Imp.size(), 1);
    assert_eq!(AddrMode::Acc.size(), 1);
    for mode in [
        AddrMode::Imm,
        AddrMode::Zp,
        AddrMode::ZpX,
        AddrMode::ZpY,
        AddrMode::XInd,
        AddrMode::IndY,
        AddrMode::Rel,
    ] {
        assert_eq!(mode.size(), 2);
    }
    for mode in [AddrMode::Abs, AddrMode::AbsX, AddrMode::AbsY, AddrMode::Ind] {
        assert_eq!(mode.size(), 3);
    }
}

#[test]
fn table_knows_the_documented_instructions() {
    let cases: [(u8, &str, AddrMode, u8); 18] = [
        (0x00, "BRK", AddrMode::Imp, 1),
        (0xa9, "LDA", AddrMode::Imm, 2),
        (0xa5, "LDA", AddrMode::Zp, 2),
        (0xb5, "LDA", AddrMode::ZpX, 2),
        (0xb6, "LDX", AddrMode::ZpY, 2),
        (0xad, "LDA", AddrMode::Abs, 3),
        (0xbd, "LDA", AddrMode::AbsX, 3),
        (0xb9, "LDA", AddrMode::AbsY, 3),
        (0x6c, "JMP", AddrMode::Ind, 3),
        (0xa1, "LDA", AddrMode::XInd, 2),
        (0xb1, "LDA", AddrMode::IndY, 2),
        (0xd0, "BNE", AddrMode::Rel, 2),
        (0x0a, "ASL", AddrMode::Acc, 1),
        (0x20, "JSR", AddrMode::Abs, 3),
        (0x60, "RTS", AddrMode::Imp, 1),
        (0xea, "NOP", AddrMode::Imp, 1),
        (0xc9, "CMP", AddrMode::Imm, 2),
        (0xe9, "SBC", AddrMode::Imm, 2),
    ];
    for (opcode, mnemonic, mode, size) in cases {
        let info = opcode_info(opcode);
        assert_eq!(info.mnemonic, mnemonic);
        assert_eq!(info.mode, mode);
        assert_eq!(info.size, size);
    }
}

#[test]
fn table_names_the_undocumented_opcodes_too() {
    let cases: [(u8, &str, AddrMode, u8); 8] = [
        (0x02, "KIL", AddrMode::Imp, 1),
        (0x03, "SLO", AddrMode::XInd, 2),
        (0x04, "NOP", AddrMode::Zp, 2),
        (0x0c, "NOP", AddrMode::Abs, 3),
        (0x93, "AHX", AddrMode::IndY, 2),
        (0xcb, "AAX", AddrMode::Imm, 2),
        (0xeb, "SBC", AddrMode::Imm, 2),
        (0xff, "ISC", AddrMode::AbsX, 3),
    ];
    for (opcode, mnemonic, mode, size) in cases {
        let info = opcode_info(opcode);
        assert_eq!(info.mnemonic, mnemonic);
        assert_eq!(info.mode, mode);
        assert_eq!(info.size, size);
    }
}

#[test]
fn every_entry_has_the_size_of_its_mode_and_a_three_letter_name() {
    for opcode in 0..=255u8 {
        let info = opcode_info(opcode);
        assert_eq!(info.size, info.mode.size());
        assert_eq!(info.mnemonic.len(), 3);
    }
}

#[test]
fn operands_are_written_in_assembler_notation() {
    assert_eq!(format_operand(AddrMode::Imp, &[]), "");
    assert_eq!(format_operand(AddrMode::Acc, &[]), "A");
    assert_eq!(format_operand(AddrMode::Imm, &[0x42]), "#$42");
    assert_eq!(format_operand(AddrMode::Zp, &[0x0a]), "$0A");
    assert_eq!(format_operand(AddrMode::ZpX, &[0x10]), "$10,X");
    assert_eq!(format_operand(AddrMode::ZpY, &[0xff]), "$FF,Y");
    assert_eq!(format_operand(AddrMode::Abs, &[0x34, 0x12]), "$1234");
    assert_eq!(format_operand(AddrMode::AbsX, &[0x00, 0x60]), "$6000,X");
    assert_eq!(format_operand(AddrMode::AbsY, &[0xcd, 0xab]), "$ABCD,Y");
    assert_eq!(format_operand(AddrMode::Ind, &[0xff, 0x10]), "($10FF)");
    assert_eq!(format_operand(AddrMode::XInd, &[0x20]), "($20,X)");
    assert_eq!(format_operand(AddrMode::IndY, &[0x20]), "($20),Y");
}

#[test]
fn relative_operand_bytes_are_shown_as_a_16_bit_displacement() {
    assert_eq!(format_operand(AddrMode::Rel, &[0x10]), "$0010");
    assert_eq!(format_operand(AddrMode::Rel, &[0xfe]), "$FFFE");
    assert_eq!(format_operand(AddrMode::Rel, &[0x80]), "$FF80");
    assert_eq!(format_operand(AddrMode::Rel, &[0x00]), "$0000");
}

#[test]
fn spare_operand_bytes_are_ignored() {
    assert_eq!(format_operand(AddrMode::Imm, &[0x42, 0x99, 0x98]), "#$42");
    assert_eq!(format_operand(AddrMode::Imp, &[0x42]), "");
}

#[test]
fn immediate_operands_agree_with_std_for_every_byte() {
    for value in 0..=255u8 {
        assert_eq!(format_operand(AddrMode::Imm, &[value]), format!("#${:02X}", value));
    }
}

#[test]
fn hex_and_binary_agree_with_std() {
    for value in 0..=255u8 {
        let mut hex = String::from("x");
        push_hex2(&mut hex, value);
        assert_eq!(hex, format!("x{:02X}", value));
        let mut binary = String::new();
        push_binary8(&mut binary, value);
        assert_eq!(binary, format!("{:08b}", value));
    }
    for value in [0x0000u16, 0x000f, 0x00f0, 0x0f00, 0xf000, 0x1234, 0xabcd, 0xffff] {
        let mut hex = String::new();
        push_hex4(&mut hex, value);
        assert_eq!(hex, format!("{:04X}", value));
    }
    let mut padded = String::from("ab");
    push_spaces(&mut padded, 3);
    assert_eq!(padded, "ab   ");
    push_spaces(&mut padded, 0);
    assert_eq!(padded, "ab   ");
}

#[test]
fn operand_text_is_read_from_the_bus() {
    let bus = rom_bus(&[0xad, 0x34, 0x12, 0xa9, 0x42]);
    assert_eq!(fmt_operand(&bus, 0x8000, &opcode_info(0xad)), "$1234");
    assert_eq!(fmt_operand(&bus, 0x8003, &opcode_info(0xa9)), "#$42");
    assert_eq!(fmt_operand(&bus, 0x8000, &opcode_info(0xaa)), "");
}

#[test]
fn branch_operand_is_the_target_address() {
    let bus = rom_bus(&[0xd0, 0x10, 0xd0, 0xfc, 0xd0, 0x80]);
    assert_eq!(fmt_operand(&bus, 0x8000, &opcode_info(0xd0)), "$8012");
    assert_eq!(fmt_operand(&bus, 0x8002, &opcode_info(0xd0)), "$8000");
    assert_eq!(fmt_operand(&bus, 0x8004, &opcode_info(0xd0)), "$7F86");
}

#[test]
fn disassemble_decodes_one_instruction() {
    let bus = rom_bus(&[0xa9, 0x42, 0x8d, 0x00, 0x60, 0xaa]);
    let first = disassemble(&bus, 0x8000);
    assert_eq!(first.addr, 0x8000);
    assert_eq!(first.bytes, vec![0xa9, 0x42]);
    assert_eq!(first.mnemonic, "LDA");
    assert_eq!(first.operand, "#$42");
    assert_eq!(first.size, 2);
    assert_eq!(first.next_pc, 0x8002);
    let second = disassemble(&bus, first.next_pc);
    assert_eq!(second.bytes, vec![0x8d, 0x00, 0x60]);
    assert_eq!(second.mnemonic, "STA");
    assert_eq!(second.operand, "$6000");
    assert_eq!(second.next_pc, 0x8005);
    let third = disassemble(&bus, second.next_pc);
    assert_eq!(third.bytes, vec![0xaa]);
    assert_eq!(third.mnemonic, "TAX");
    assert_eq!(third.operand, "");
    assert_eq!(third.size, 1);
    assert_eq!(third.next_pc, 0x8006);
}

#[test]
fn disassemble_wraps_around_the_end_of_the_address_space() {
    let mut rom = vec![0u8; 0x8000];
    rom[0x7fff] = 0xad;
    let mut bus = SimpleBus::new(0x8000, &rom);
    bus.write(0x0000, 0x34);
    bus.write(0x0001, 0x12);
    let decoded = disassemble(&bus, 0xffff);
    assert_eq!(decoded.bytes, vec![0xad, 0x34, 0x12]);
    assert_eq!(decoded.operand, "$1234");
    assert_eq!(decoded.next_pc, 0x0002);
}

#[test]
fn listing_lines_have_fixed_columns() {
    let bus = rom_bus(&[0xa9, 0x42, 0x8d, 0x00, 0x60, 0xaa]);
    assert_eq!(disassemble(&bus, 0x8000).pretty(), "8000  A9 42      LDA #$42");
    assert_eq!(disassemble(&bus, 0x8002).pretty(), "8002  8D 00 60   STA $6000");
    assert_eq!(disassemble(&bus, 0x8005).pretty(), "8005  AA         TAX ");
}

#[test]
fn listing_lines_agree_with_std_for_every_opcode() {
    for opcode in 0..=255u8 {
        let bus = rom_bus(&[opcode, 0x9a, 0xbc]);
        let decoded = disassemble(&bus, 0x8000);
        let mut bytes = String::new();
        for byte in &decoded.bytes {
            bytes.push_str(&format!("{:02X} ", byte));
        }
        let expected = format!(
            "{:04X}  {:<9}  {:<3} {}",
            decoded.addr, bytes, decoded.mnemonic, decoded.operand
        );
        assert_eq!(decoded.pretty(), expected);
    }
}

#[test]
fn listing_pads_short_fields_and_keeps_long_ones() {
    let short = Disassembled {
        addr: 0x0001,
        bytes: vec![],
        mnemonic: String::from("é"),
        operand: String::from("x"),
        size: 0,
        next_pc: 0x0001,
    };
    assert_eq!(short.pretty(), format!("{:04X}  {:<9}  {:<3} {}", 1, "", "é", "x"));
    assert_eq!(short.pretty(), "0001             é   x");
    let long = Disassembled {
        addr: 0xbeef,
        bytes: vec![1, 2, 3, 4],
        mnemonic: String::from("LONG"),
        operand: String::new(),
        size: 4,
        next_pc: 0xbef3,
    };
    assert_eq!(long.pretty(), "BEEF  01 02 03 04   LONG ");
}
