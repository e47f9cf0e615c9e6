//! The memory bus: the contract the processor relies on, and a bus made of
//! read/write memory below `0x8000` and read-only memory from there on.

use vstd::prelude::*;
use crate::arith::word;
use crate::bus::ram::Ram;
use crate::bus::rom::Rom;

pub mod ram;
pub mod rom;

verus! {

/// First address served by read-only memory.
pub const ROM_START: u16 = 0x8000;

/// What a bus holds, as the processor can observe it: the byte behind each
/// of the 65536 addresses, and the addresses at which a written byte is kept.
#[verifier::ext_equal]
pub struct Memory {
    pub cells: Map<u16, u8>,
    pub writable: Set<u16>,
}

impl Memory {
    /// The byte at `addr`.
    pub open spec fn read(self, addr: u16) -> u8 {
        self.cells[addr]
    }

    /// The memory after a write of `data` to `addr`: the byte is stored where
    /// the address is writable, and nothing changes where it is not.
    pub open spec fn write(self, addr: u16, data: u8) -> Memory {
        if self.writable.contains(addr) {
            Memory { cells: self.cells.insert(addr, data), writable: self.writable }
        } else {
            self
        }
    }

    /// The little-endian 16-bit value at `addr`; its high byte comes from the
    /// next address, which wraps around after `0xFFFF`.
    pub open spec fn read_word(self, addr: u16) -> u16 {
        word(self.read(addr), self.read(addr.wrapping_add(1)))
    }

    /// A write changes at most the cell it addresses.
    pub proof fn lemma_write_read(self, addr: u16, data: u8, other: u16)
        ensures
            self.write(addr, data).read(other) == if other == addr && self.writable.contains(addr) {
                data
            } else {
                self.read(other)
            },
            self.write(addr, data).writable == self.writable,
    {
    }
}

/// A byte-addressable 16-bit address space.
///
/// `read` and `write` are total over the address space of every bus that
/// satisfies `inv`.  The view says what each read returns; a write is either
/// kept or dropped, according to the view's `writable` set, and never fails.
pub trait Bus {
    /// What the bus holds.
    spec fn view(&self) -> Memory;

    /// The bus serves all 65536 addresses.
    spec fn inv(&self) -> bool;

    /// Returns the byte at `addr`.
    fn read(&self, addr: u16) -> (data: u8)
        requires
            self.inv(),
        ensures
            data == self@.read(addr),
    ;

    /// Stores `data` at `addr`, or drops it where `addr` is read-only.
    fn write(&mut self, addr: u16, data: u8)
        requires
            old(self).inv(),
        ensures
            final(self).inv(),
            final(self)@ == old(self)@.write(addr, data),
    ;
}

/// A bus with read/write memory at `0x0000..0x8000` and read-only memory at
/// `0x8000..=0xFFFF`.
pub struct SimpleBus {
    pub ram: Ram,
    pub rom: Rom,
}

impl SimpleBus {
    /// A bus with `ram_size` zeroed bytes of read/write memory and the image
    /// `rom_data` mapped at `0x8000`.
    pub fn new(ram_size: usize, rom_data: &[u8]) -> (bus: Self)
        ensures
            bus.ram@ == Seq::new(ram_size as nat, |i: int| 0u8),
            bus.rom@ == rom_data@,
            bus.rom.base() == ROM_START,
            bus.inv() <==> ram_size >= ROM_START,
    {
        SimpleBus { ram: Ram::new(ram_size), rom: Rom::new(rom_data) }
    }

    /// The byte the bus returns for `addr`.
    pub open spec fn peek(&self, addr: u16) -> u8 {
        if addr < ROM_START {
            self.ram@[addr as int]
        } else {
            self.rom.peek(addr)
        }
    }
}

impl Bus for SimpleBus {
    open spec fn view(&self) -> Memory {
        Memory {
            cells: Map::new(|addr: u16| true, |addr: u16| self.peek(addr)),
            writable: Set::new(|addr: u16| addr < ROM_START),
        }
    }

    /// The read/write memory covers everything below the read-only part.
    open spec fn inv(&self) -> bool {
        self.ram@.len() >= ROM_START
    }

    fn read(&self, addr: u16) -> (data: u8) {
        if addr < ROM_START {
            self.ram.read(addr)
        } else {
            self.rom.read(addr)
        }
    }

    fn write(&mut self, addr: u16, data: u8) {
        if addr < ROM_START {
            self.ram.write(addr, data);
        }
        assert(self@ =~= old(self)@.write(addr, data));
    }
}

} // verus!
