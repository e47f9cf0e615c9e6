use emu6502::bus::ram::Ram;
use emu6502::bus::rom::Rom;
use emu6502::bus::{Bus, SimpleBus};

#[test]
fn new_ram_is_zeroed() {
    let ram = Ram::new(16);
    assert_eq!(ram.len(), 16);
    for addr in 0..16 {
        assert_eq!(ram.read(addr), 0);
    }
}

#[test]
fn ram_keeps_what_is_written() {
    let mut ram = Ram::new(0x100);
    ram.write(0x10, 0xaa);
    ram.write(0xff, 0x55);
    assert_eq!(ram.read(0x10), 0xaa);
    assert_eq!(ram.read(0xff), 0x55);
    assert_eq!(ram.read(0x11), 0);
}

#[test]
fn ram_load_copies_a_block() {
    let mut ram = Ram::new(8);
    ram.write(0, 9);
    ram.write(7, 9);
    ram.load(2, &[1, 2, 3]);
    let held: Vec<u8> = (0..8).map(|addr| ram.read(addr)).collect();
    assert_eq!(held, vec![9, 0, 1, 2, 3, 0, 0, 9]);
}

#[test]
fn ram_load_up_to_the_last_byte() {
    let mut ram = Ram::new(4);
    ram.load(2, &[7, 8]);
    assert_eq!(ram.read(2), 7);
    assert_eq!(ram.read(3), 8);
    ram.load(4, &[]);
    assert_eq!(ram.len(), 4);
}

#[test]
fn rom_reads_its_image_from_0x8000() {
    let rom = Rom::new(&[0x11, 0x22, 0x33]);
    assert_eq!(rom.read(0x8000), 0x11);
    assert_eq!(rom.read(0x8001), 0x22);
    assert_eq!(rom.read(0x8002), 0x33);
}

#[test]
fn rom_reads_open_bus_past_the_image() {
    let rom = Rom::new(&[0x11, 0x22, 0x33]);
    assert_eq!(rom.read(0x8003), 0xff);
    assert_eq!(rom.read(0xffff), 0xff);
    assert_eq!(rom.read(0x7fff), 0xff);
    assert_eq!(rom.read(0x0000), 0xff);
    assert_eq!(Rom::new(&[]).read(0x8000), 0xff);
}

#[test]
fn bus_routes_low_addresses_to_ram_and_high_ones_to_rom() {
    let mut bus = SimpleBus::new(0x8000, &[0xa9, 0x42]);
    assert_eq!(bus.read(0x0000), 0);
    assert_eq!(bus.read(0x8000), 0xa9);
    assert_eq!(bus.read(0x8001), 0x42);
    assert_eq!(bus.read(0x8002), 0xff);
    bus.write(0x7fff, 0x12);
    assert_eq!(bus.read(0x7fff), 0x12);
    assert_eq!(bus.ram.read(0x7fff), 0x12);
}

#[test]
fn bus_drops_writes_to_rom() {
    let mut bus = SimpleBus::new(0x8000, &[0xa9, 0x42]);
    bus.write(0x8000, 0x00);
    bus.write(0x9000, 0x00);
    bus.write(0xffff, 0x00);
    assert_eq!(bus.read(0x8000), 0xa9);
    assert_eq!(bus.read(0x9000), 0xff);
    assert_eq!(bus.read(0xffff), 0xff);
    for addr in 0..0x8000u16 {
        assert_eq!(bus.read(addr), 0);
    }
}

#[test]
fn bus_reads_every_address() {
    let image: Vec<u8> = (0..0x8000u32).map(|i| (i % 251) as u8).collect();
    let bus = SimpleBus::new(0x8000, &image);
    for addr in 0..=0xffffu16 {
        let expected = if addr < 0x8000 { 0 } else { ((addr as u32 - 0x8000) % 251) as u8 };
        assert_eq!(bus.read(addr), expected);
    }
}
