use emu6502::bus::{Bus, SimpleBus};
use emu6502::cpu::CPU;

fn parts() -> (CPU, SimpleBus) {
    (CPU::new(), SimpleBus::new(0x8000, &[]))
}

#[test]
fn push_byte_writes_then_moves_down() {
    let (mut cpu, mut bus) = parts();
    assert_eq!(cpu.stack_pointer, 0xfd);
    assert_eq!(cpu.stack_address(), 0x01fd);
    cpu.push_byte(&mut bus, 0xab);
    assert_eq!(bus.read(0x01fd), 0xab);
    assert_eq!(cpu.stack_pointer, 0xfc);
}

#[test]
fn pop_byte_moves_up_then_reads() {
    let (mut cpu, mut bus) = parts();
    bus.write(0x01fe, 0x77);
    assert_eq!(cpu.pop_byte(&mut bus), 0x77);
    assert_eq!(cpu.stack_pointer, 0xfe);
}

#[test]
fn push_word_puts_the_high_byte_first() {
    let (mut cpu, mut bus) = parts();
    cpu.push_word(&mut bus, 0xbeef);
    assert_eq!(bus.read(0x01fd), 0xbe);
    assert_eq!(bus.read(0x01fc), 0xef);
    assert_eq!(cpu.stack_pointer, 0xfb);
}

#[test]
fn word_round_trip_restores_stack_pointer() {
    let (mut cpu, mut bus) = parts();
    cpu.push_word(&mut bus, 0x1234);
    assert_eq!(cpu.pop_word(&mut bus), 0x1234);
    assert_eq!(cpu.stack_pointer, 0xfd);
}

#[test]
fn word_round_trip_across_the_bottom_of_the_stack() {
    let (mut cpu, mut bus) = parts();
    cpu.stack_pointer = 0x00;
    cpu.push_word(&mut bus, 0xbeef);
    assert_eq!(bus.read(0x0100), 0xbe);
    assert_eq!(bus.read(0x01ff), 0xef);
    assert_eq!(cpu.stack_pointer, 0xfe);
    assert_eq!(cpu.pop_word(&mut bus), 0xbeef);
    assert_eq!(cpu.stack_pointer, 0x00);
}

#[test]
fn word_round_trip_with_the_wrap_between_the_bytes() {
    let (mut cpu, mut bus) = parts();
    cpu.stack_pointer = 0x01;
    cpu.push_word(&mut bus, 0xa55a);
    assert_eq!(bus.read(0x0101), 0xa5);
    assert_eq!(bus.read(0x0100), 0x5a);
    assert_eq!(cpu.stack_pointer, 0xff);
    assert_eq!(cpu.pop_word(&mut bus), 0xa55a);
    assert_eq!(cpu.stack_pointer, 0x01);
}

#[test]
fn word_round_trip_for_every_stack_pointer() {
    for sp in 0..=255u8 {
        let (mut cpu, mut bus) = parts();
        cpu.stack_pointer = sp;
        let value = 0x0102u16.wrapping_mul(sp as u16 + 1);
        cpu.push_word(&mut bus, value);
        assert_eq!(cpu.pop_word(&mut bus), value);
        assert_eq!(cpu.stack_pointer, sp);
    }
}

#[test]
fn byte_round_trip_across_the_wrap() {
    let (mut cpu, mut bus) = parts();
    cpu.stack_pointer = 0x00;
    cpu.push_byte(&mut bus, 0x99);
    assert_eq!(cpu.stack_pointer, 0xff);
    assert_eq!(cpu.pop_byte(&mut bus), 0x99);
    assert_eq!(cpu.stack_pointer, 0x00);
}
