use emu6502::cpu::CPU;

fn cpu_with(a: u8, status: u8) -> CPU {
    let mut cpu = CPU::new();
    cpu.register_a = a;
    cpu.status = status;
    cpu
}

#[test]
fn adc_of_two_positives_overflows_into_the_sign() {
    let mut cpu = cpu_with(0x50, 0x24);
    let result = cpu.adc_binary(0x50);
    assert_eq!(result, 0xa0);
    assert_eq!(cpu.status, 0xe4);
    assert_eq!(cpu.register_a, 0x50);
}

#[test]
fn adc_carries_out_and_reports_zero() {
    let mut cpu = cpu_with(0xff, 0x24);
    let result = cpu.adc_binary(0x01);
    assert_eq!(result, 0x00);
    assert_eq!(cpu.status, 0x27);
}

#[test]
fn adc_adds_the_carry_in() {
    let mut cpu = cpu_with(0x7f, 0x25);
    let result = cpu.adc_binary(0x00);
    assert_eq!(result, 0x80);
    assert_eq!(cpu.status, 0xe4);
}

#[test]
fn adc_clears_flags_that_no_longer_hold() {
    let mut cpu = cpu_with(0x01, 0xe7);
    let result = cpu.adc_binary(0x01);
    assert_eq!(result, 0x03);
    assert_eq!(cpu.status, 0x24);
}

#[test]
fn adc_leaves_the_other_registers_alone() {
    let mut cpu = cpu_with(0x01, 0x24);
    cpu.register_x = 3;
    cpu.register_y = 4;
    cpu.program_counter = 0x1234;
    cpu.stack_pointer = 0x80;
    cpu.cycles = 9;
    cpu.adc_binary(0x01);
    assert_eq!(cpu.register_x, 3);
    assert_eq!(cpu.register_y, 4);
    assert_eq!(cpu.program_counter, 0x1234);
    assert_eq!(cpu.stack_pointer, 0x80);
    assert_eq!(cpu.cycles, 9);
}

#[test]
fn adc_matches_the_formulas_for_every_input() {
    for a in 0..=255u8 {
        for m in 0..=255u8 {
            for carry_in in [false, true] {
                let mut cpu = cpu_with(a, if carry_in { 0x25 } else { 0x24 });
                let result = cpu.adc_binary(m);
                let sum = a as u16 + m as u16 + carry_in as u16;
                assert_eq!(result, (sum % 256) as u8);
                assert_eq!(cpu.status & 0x01 != 0, sum > 255);
                assert_eq!(cpu.status & 0x40 != 0, (!(a ^ m) & (a ^ result) & 0x80) != 0);
                assert_eq!(cpu.status & 0x02 != 0, result == 0);
                assert_eq!(cpu.status & 0x80 != 0, result >= 0x80);
                assert_eq!(cpu.status & 0x3c, 0x24);
                let exact = (a as i8) as i16 + (m as i8) as i16 + carry_in as i16;
                assert_eq!(cpu.status & 0x40 != 0, exact < -128 || exact > 127);
            }
        }
    }
}

#[test]
fn sbc_without_borrow_subtracts() {
    let mut cpu = cpu_with(0x10, 0x25);
    let result = cpu.sbc_binary(0x05);
    assert_eq!(result, 0x0b);
    assert_eq!(cpu.status, 0x25);
}

#[test]
fn sbc_with_borrow_subtracts_one_more() {
    let mut cpu = cpu_with(0x10, 0x24);
    let result = cpu.sbc_binary(0x10);
    assert_eq!(result, 0xff);
    assert_eq!(cpu.status, 0xa4);
}

#[test]
fn sbc_below_zero_clears_the_carry() {
    let mut cpu = cpu_with(0x50, 0x25);
    let result = cpu.sbc_binary(0xf0);
    assert_eq!(result, 0x60);
    assert_eq!(cpu.status, 0x24);
}

#[test]
fn sbc_of_a_negative_from_a_positive_overflows() {
    let mut cpu = cpu_with(0x50, 0x25);
    let result = cpu.sbc_binary(0xb0);
    assert_eq!(result, 0xa0);
    assert_eq!(cpu.status, 0xe4);
}

#[test]
fn sbc_to_zero_sets_zero_and_carry() {
    let mut cpu = cpu_with(0x42, 0x25);
    let result = cpu.sbc_binary(0x42);
    assert_eq!(result, 0x00);
    assert_eq!(cpu.status, 0x27);
}

#[test]
fn sbc_is_adc_of_the_complement_for_every_input() {
    for a in 0..=255u8 {
        for m in 0..=255u8 {
            for carry_in in [false, true] {
                let status = if carry_in { 0x25 } else { 0x24 };
                let mut subtracting = cpu_with(a, status);
                let mut adding = cpu_with(a, status);
                let difference = subtracting.sbc_binary(m);
                let sum = adding.adc_binary(!m);
                assert_eq!(difference, sum);
                assert_eq!(subtracting.status, adding.status);
                let exact = a as i16 - m as i16 - (!carry_in) as i16;
                assert_eq!(difference, exact.rem_euclid(256) as u8);
                assert_eq!(subtracting.status & 0x01 != 0, exact >= 0);
                let signed = (a as i8) as i16 - (m as i8) as i16 - (!carry_in) as i16;
                assert_eq!(subtracting.status & 0x40 != 0, signed < -128 || signed > 127);
            }
        }
    }
}

#[test]
fn flags_are_read_and_written_one_at_a_time() {
    let mut cpu = cpu_with(0, 0x00);
    assert!(!cpu.get_flag(0x01));
    cpu.set_flag(0x01, true);
    cpu.set_flag(0x80, true);
    assert_eq!(cpu.status, 0x81);
    assert!(cpu.get_flag(0x01));
    assert!(cpu.get_flag(0x80));
    assert!(!cpu.get_flag(0x40));
    cpu.set_flag(0x01, false);
    assert_eq!(cpu.status, 0x80);
}

#[test]
fn zero_and_negative_follow_the_result() {
    let mut cpu = cpu_with(0, 0x65);
    cpu.update_zero_and_negative_flags(0x00);
    assert_eq!(cpu.status, 0x67);
    cpu.update_zero_and_negative_flags(0x80);
    assert_eq!(cpu.status, 0xe5);
    cpu.update_zero_and_negative_flags(0x7f);
    assert_eq!(cpu.status, 0x65);
}
