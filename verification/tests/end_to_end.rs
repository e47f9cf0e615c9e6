use emu6502::bus::{Bus, SimpleBus};
use emu6502::cpu::CPU;

/// A 32 KiB image that starts with `program` and holds `reset` in the reset vector.
fn image(program: &[u8], reset: u16) -> Vec<u8> {
    let mut rom = vec![0u8; 0x8000];
    rom[..program.len()].copy_from_slice(program);
    rom[0x7ffc] = (reset & 0xff) as u8;
    rom[0x7ffd] = (reset >> 8) as u8;
    rom
}

#[test]
fn load_store_jump_program_leaves_value_in_accumulator_and_memory() {
    let rom = image(&[0xa9, 0x42, 0x8d, 0x00, 0x60, 0x4c, 0x05, 0x80], 0x8000);
    let mut bus = SimpleBus::new(32 * 1024, &rom);
    let mut cpu = CPU::new();
    cpu.reset(&mut bus);
    assert_eq!(cpu.program_counter, 0x8000);
    for _ in 0..3 {
        assert_eq!(cpu.try_run_once(&mut bus), None);
    }
    assert_eq!(cpu.register_a, 0x42);
    assert_eq!(bus.read(0x6000), 0x42);
    assert_eq!(cpu.program_counter, 0x8005);
    for _ in 0..17 {
        cpu.run_once(&mut bus);
    }
    assert_eq!(cpu.program_counter, 0x8005);
    assert_eq!(cpu.register_a, 0x42);
    assert_eq!(bus.ram.read(0x6000), 0x42);
}
