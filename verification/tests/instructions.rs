use emu6502::bus::{Bus, SimpleBus};
use emu6502::cpu::addressing::Operand;
use emu6502::cpu::CPU;

/// A processor at `0x8000` and a bus whose ROM starts with `program`.
fn load(program: &[u8]) -> (CPU, SimpleBus) {
    let mut cpu = CPU::new();
    cpu.program_counter = 0x8000;
    (cpu, SimpleBus::new(0x8000, program))
}

#[test]
fn lda_immediate_loads_the_operand_byte() {
    let (mut cpu, mut bus) = load(&[0xa9, 0x42]);
    cpu.run_once(&mut bus);
    assert_eq!(cpu.register_a, 0x42);
    assert_eq!(cpu.program_counter, 0x8002);
    assert_eq!(cpu.status, 0x24);
    assert_eq!(cpu.cycles, 0);
}

#[test]
fn lda_sets_zero_and_negative() {
    let (mut cpu, mut bus) = load(&[0xa9, 0x00, 0xa9, 0x80, 0xa9, 0x01]);
    cpu.run_once(&mut bus);
    assert_eq!(cpu.status, 0x26);
    cpu.run_once(&mut bus);
    assert_eq!(cpu.status, 0xa4);
    cpu.run_once(&mut bus);
    assert_eq!(cpu.status, 0x24);
}

#[test]
fn lda_zero_page_reads_page_zero() {
    let (mut cpu, mut bus) = load(&[0xa5, 0x10]);
    bus.write(0x0010, 0x80);
    cpu.run_once(&mut bus);
    assert_eq!(cpu.register_a, 0x80);
    assert_eq!(cpu.status, 0xa4);
    assert_eq!(cpu.program_counter, 0x8002);
}

#[test]
fn lda_zero_page_x_wraps_within_page_zero() {
    let (mut cpu, mut bus) = load(&[0xb5, 0xf0]);
    cpu.register_x = 0x20;
    bus.write(0x0010, 0x11);
    bus.write(0x0110, 0x22);
    cpu.run_once(&mut bus);
    assert_eq!(cpu.register_a, 0x11);
    assert_eq!(cpu.cycles, 0);
}

#[test]
fn lda_absolute_reads_the_address() {
    let (mut cpu, mut bus) = load(&[0xad, 0x34, 0x12]);
    bus.write(0x1234, 0x99);
    cpu.run_once(&mut bus);
    assert_eq!(cpu.register_a, 0x99);
    assert_eq!(cpu.program_counter, 0x8003);
}

#[test]
fn lda_absolute_x_charges_a_cycle_for_a_page_crossing() {
    let (mut cpu, mut bus) = load(&[0xbd, 0xf0, 0x12, 0xbd, 0xf0, 0x12]);
    bus.write(0x12f1, 0x01);
    bus.write(0x1310, 0x02);
    cpu.register_x = 0x01;
    cpu.run_once(&mut bus);
    assert_eq!(cpu.register_a, 0x01);
    assert_eq!(cpu.cycles, 0);
    cpu.register_x = 0x20;
    cpu.run_once(&mut bus);
    assert_eq!(cpu.register_a, 0x02);
    assert_eq!(cpu.cycles, 1);
    assert_eq!(cpu.program_counter, 0x8006);
}

#[test]
fn lda_absolute_y_charges_a_cycle_for_a_page_crossing() {
    let (mut cpu, mut bus) = load(&[0xb9, 0xff, 0x12, 0xb9, 0x00, 0x12]);
    bus.write(0x1300, 0x07);
    bus.write(0x1201, 0x08);
    cpu.register_y = 0x01;
    cpu.run_once(&mut bus);
    assert_eq!(cpu.register_a, 0x07);
    assert_eq!(cpu.cycles, 1);
    cpu.run_once(&mut bus);
    assert_eq!(cpu.register_a, 0x08);
    assert_eq!(cpu.cycles, 1);
}

#[test]
fn lda_absolute_x_wraps_around_the_address_space() {
    let (mut cpu, mut bus) = load(&[0xbd, 0xff, 0xff]);
    bus.write(0x0001, 0x5a);
    cpu.register_x = 0x02;
    cpu.run_once(&mut bus);
    assert_eq!(cpu.register_a, 0x5a);
    assert_eq!(cpu.cycles, 1);
}

#[test]
fn lda_indexed_indirect_takes_the_pointer_from_page_zero() {
    let (mut cpu, mut bus) = load(&[0xa1, 0x20]);
    cpu.register_x = 0x04;
    bus.write(0x0024, 0x34);
    bus.write(0x0025, 0x12);
    bus.write(0x1234, 0x77);
    cpu.run_once(&mut bus);
    assert_eq!(cpu.register_a, 0x77);
    assert_eq!(cpu.program_counter, 0x8002);
}

#[test]
fn lda_indexed_indirect_wraps_the_pointer_within_page_zero() {
    let (mut cpu, mut bus) = load(&[0xa1, 0xfe]);
    cpu.register_x = 0x01;
    bus.write(0x00ff, 0x34);
    bus.write(0x0000, 0x12);
    bus.write(0x0100, 0x56);
    bus.write(0x1234, 0x77);
    bus.write(0x5634, 0x88);
    cpu.run_once(&mut bus);
    assert_eq!(cpu.register_a, 0x77);
}

#[test]
fn lda_indirect_indexed_adds_y_to_the_pointer() {
    let (mut cpu, mut bus) = load(&[0xb1, 0x20, 0xb1, 0x20]);
    bus.write(0x0020, 0xf0);
    bus.write(0x0021, 0x12);
    bus.write(0x12f1, 0x01);
    bus.write(0x1300, 0x02);
    cpu.register_y = 0x01;
    cpu.run_once(&mut bus);
    assert_eq!(cpu.register_a, 0x01);
    assert_eq!(cpu.cycles, 0);
    cpu.register_y = 0x10;
    cpu.run_once(&mut bus);
    assert_eq!(cpu.register_a, 0x02);
    assert_eq!(cpu.cycles, 1);
}

#[test]
fn lda_indirect_indexed_wraps_the_pointer_within_page_zero() {
    let (mut cpu, mut bus) = load(&[0xb1, 0xff]);
    bus.write(0x00ff, 0x00);
    bus.write(0x0000, 0x20);
    bus.write(0x0100, 0x30);
    bus.write(0x2003, 0x66);
    cpu.register_y = 0x03;
    cpu.run_once(&mut bus);
    assert_eq!(cpu.register_a, 0x66);
}

#[test]
fn sta_stores_the_accumulator() {
    let (mut cpu, mut bus) = load(&[0x8d, 0x00, 0x60, 0x85, 0x10, 0x95, 0xff]);
    cpu.register_a = 0x42;
    cpu.register_x = 0x02;
    cpu.status = 0xa5;
    cpu.run_once(&mut bus);
    assert_eq!(bus.read(0x6000), 0x42);
    cpu.run_once(&mut bus);
    assert_eq!(bus.read(0x0010), 0x42);
    cpu.run_once(&mut bus);
    assert_eq!(bus.read(0x0001), 0x42);
    assert_eq!(bus.read(0x0101), 0x00);
    assert_eq!(cpu.program_counter, 0x8007);
    assert_eq!(cpu.status, 0xa5);
}

#[test]
fn sta_to_rom_has_no_effect() {
    let (mut cpu, mut bus) = load(&[0x8d, 0x00, 0x80]);
    cpu.register_a = 0x42;
    cpu.run_once(&mut bus);
    assert_eq!(bus.read(0x8000), 0x8d);
    assert_eq!(cpu.program_counter, 0x8003);
}

#[test]
fn tax_copies_and_sets_flags() {
    let (mut cpu, mut bus) = load(&[0xaa, 0xaa]);
    cpu.register_a = 0x90;
    cpu.run_once(&mut bus);
    assert_eq!(cpu.register_x, 0x90);
    assert_eq!(cpu.status, 0xa4);
    assert_eq!(cpu.program_counter, 0x8001);
    cpu.register_a = 0;
    cpu.run_once(&mut bus);
    assert_eq!(cpu.register_x, 0);
    assert_eq!(cpu.status, 0x26);
}

#[test]
fn inx_wraps_to_zero() {
    let (mut cpu, mut bus) = load(&[0xe8, 0xe8]);
    cpu.register_x = 0xfe;
    cpu.run_once(&mut bus);
    assert_eq!(cpu.register_x, 0xff);
    assert_eq!(cpu.status, 0xa4);
    cpu.run_once(&mut bus);
    assert_eq!(cpu.register_x, 0x00);
    assert_eq!(cpu.status, 0x26);
}

#[test]
fn pha_then_pla_gives_the_accumulator_back() {
    let (mut cpu, mut bus) = load(&[0x48, 0x68]);
    cpu.register_a = 0x80;
    cpu.run_once(&mut bus);
    assert_eq!(bus.read(0x01fd), 0x80);
    assert_eq!(cpu.stack_pointer, 0xfc);
    assert_eq!(cpu.status, 0x24);
    cpu.register_a = 0;
    cpu.run_once(&mut bus);
    assert_eq!(cpu.register_a, 0x80);
    assert_eq!(cpu.stack_pointer, 0xfd);
    assert_eq!(cpu.status, 0xa4);
    assert_eq!(cpu.program_counter, 0x8002);
}

#[test]
fn php_pushes_break_and_unused_and_keeps_the_live_status() {
    let (mut cpu, mut bus) = load(&[0x08]);
    cpu.status = 0x81;
    cpu.run_once(&mut bus);
    assert_eq!(bus.read(0x01fd), 0xb1);
    assert_eq!(cpu.status, 0x81);
    assert_eq!(cpu.stack_pointer, 0xfc);
    assert_eq!(cpu.program_counter, 0x8001);
}

#[test]
fn plp_clears_break_and_sets_unused() {
    let (mut cpu, mut bus) = load(&[0x28, 0x28]);
    cpu.stack_pointer = 0xfb;
    bus.write(0x01fc, 0xff);
    bus.write(0x01fd, 0x00);
    cpu.run_once(&mut bus);
    assert_eq!(cpu.status, 0xef);
    cpu.run_once(&mut bus);
    assert_eq!(cpu.status, 0x20);
    assert_eq!(cpu.stack_pointer, 0xfd);
    assert_eq!(cpu.program_counter, 0x8002);
}

#[test]
fn adc_instructions_add_into_the_accumulator() {
    let (mut cpu, mut bus) = load(&[0x69, 0x01, 0x6d, 0x00, 0x02, 0x65, 0x10, 0x75, 0x10]);
    bus.write(0x0200, 0x10);
    bus.write(0x0010, 0x20);
    bus.write(0x0013, 0xc0);
    cpu.register_a = 0x01;
    cpu.register_x = 0x03;
    cpu.run_once(&mut bus);
    assert_eq!(cpu.register_a, 0x02);
    cpu.run_once(&mut bus);
    assert_eq!(cpu.register_a, 0x12);
    cpu.run_once(&mut bus);
    assert_eq!(cpu.register_a, 0x32);
    cpu.run_once(&mut bus);
    assert_eq!(cpu.register_a, 0xf2);
    assert_eq!(cpu.status, 0xa4);
    assert_eq!(cpu.program_counter, 0x8009);
}

#[test]
fn adc_instruction_uses_and_sets_the_carry() {
    let (mut cpu, mut bus) = load(&[0x69, 0xff, 0x69, 0x00]);
    cpu.register_a = 0x02;
    cpu.run_once(&mut bus);
    assert_eq!(cpu.register_a, 0x01);
    assert_eq!(cpu.status, 0x25);
    cpu.run_once(&mut bus);
    assert_eq!(cpu.register_a, 0x02);
    assert_eq!(cpu.status, 0x24);
}

#[test]
fn sbc_instructions_subtract_from_the_accumulator() {
    let (mut cpu, mut bus) = load(&[0xe9, 0x01, 0xed, 0x00, 0x02]);
    bus.write(0x0200, 0x10);
    cpu.register_a = 0x20;
    cpu.status = 0x25;
    cpu.run_once(&mut bus);
    assert_eq!(cpu.register_a, 0x1f);
    assert_eq!(cpu.status, 0x25);
    cpu.run_once(&mut bus);
    assert_eq!(cpu.register_a, 0x0f);
    assert_eq!(cpu.program_counter, 0x8005);
}

#[test]
fn sbc_instruction_sets_overflow_as_the_adder_does() {
    let (mut cpu, mut bus) = load(&[0xe9, 0xb0]);
    cpu.register_a = 0x50;
    cpu.status = 0x25;
    cpu.run_once(&mut bus);
    assert_eq!(cpu.register_a, 0xa0);
    assert_eq!(cpu.status, 0xe4);
}

#[test]
fn operands_wrap_around_the_end_of_the_address_space() {
    let mut rom = vec![0u8; 0x8000];
    rom[0x7fff] = 0xa9;
    let mut bus = SimpleBus::new(0x8000, &rom);
    bus.write(0x0000, 0x33);
    let mut cpu = CPU::new();
    cpu.program_counter = 0xffff;
    cpu.run_once(&mut bus);
    assert_eq!(cpu.register_a, 0x33);
    assert_eq!(cpu.program_counter, 0x0001);
}

#[test]
fn fetch_helpers_resolve_and_advance() {
    let (mut cpu, mut bus) = load(&[0x00, 0x34, 0x12]);
    bus.write(0x0034, 0x78);
    bus.write(0x0035, 0x56);
    bus.write(0x1234, 0xcd);
    bus.write(0x1235, 0xab);
    cpu.register_x = 0x01;
    cpu.register_y = 0xff;

    assert_eq!(cpu.fetch_immediate(&bus), Operand::Immediate(0x34));
    assert_eq!(cpu.program_counter, 0x8002);
    cpu.program_counter = 0x8000;
    assert_eq!(cpu.fetch_implied(), Operand::Accumulator);
    assert_eq!(cpu.program_counter, 0x8001);
    cpu.program_counter = 0x8000;
    assert_eq!(cpu.fetch_zeropage(&bus), Operand::Address(0x0034));
    assert_eq!(cpu.program_counter, 0x8002);
    cpu.program_counter = 0x8000;
    assert_eq!(cpu.fetch_zeropage_x(&bus), Operand::Address(0x0035));
    cpu.program_counter = 0x8000;
    assert_eq!(cpu.fetch_zeropage_y(&bus), Operand::Address(0x0033));
    cpu.program_counter = 0x8000;
    assert_eq!(cpu.fetch_absolute(&bus), Operand::Address(0x1234));
    assert_eq!(cpu.program_counter, 0x8003);
    cpu.program_counter = 0x8000;
    assert_eq!(cpu.fetch_absolute_x(&bus), (Operand::Address(0x1235), false));
    assert_eq!(cpu.program_counter, 0x8003);
    cpu.program_counter = 0x8000;
    assert_eq!(cpu.fetch_absolute_y(&bus), (Operand::Address(0x1333), true));
    cpu.program_counter = 0x8000;
    assert_eq!(cpu.fetch_indexed_indirect(&bus), Operand::Address(0x0056));
    assert_eq!(cpu.program_counter, 0x8002);
    cpu.program_counter = 0x8000;
    assert_eq!(cpu.fetch_indirect_indexed(&bus), (Operand::Address(0x5777), true));
    assert_eq!(cpu.program_counter, 0x8002);
    cpu.program_counter = 0x8000;
    assert_eq!(cpu.fetch_indirect_jmp(&bus), Operand::Address(0xabcd));
    assert_eq!(cpu.program_counter, 0x8003);
    cpu.program_counter = 0x8000;
    assert_eq!(cpu.fetch_relative_offset(&bus), 0x34);
    assert_eq!(cpu.program_counter, 0x8002);
    assert_eq!(cpu.read_u16(&bus, 0x1234), 0xabcd);
}

#[test]
fn relative_offsets_are_signed() {
    let (mut cpu, bus) = load(&[0x00, 0x80, 0x00, 0xff, 0x00, 0x7f]);
    assert_eq!(cpu.fetch_relative_offset(&bus), -128);
    assert_eq!(cpu.fetch_relative_offset(&bus), -1);
    assert_eq!(cpu.fetch_relative_offset(&bus), 127);
}

#[test]
fn read_u16_wraps_after_the_last_address() {
    let mut rom = vec![0u8; 0x8000];
    rom[0x7fff] = 0x34;
    let mut bus = SimpleBus::new(0x8000, &rom);
    bus.write(0x0000, 0x12);
    let cpu = CPU::new();
    assert_eq!(cpu.read_u16(&bus, 0xffff), 0x1234);
}
