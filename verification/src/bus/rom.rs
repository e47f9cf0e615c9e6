//! Read-only memory.

use vstd::prelude::*;
use vstd::slice::slice_to_vec;

verus! {

/// Byte returned for an address that no image byte backs.
pub const OPEN_BUS: u8 = 0xFF;

/// A read-only image mapped at a base address.
pub struct Rom {
    mem: Vec<u8>,
    base_addr: u16,
}

impl View for Rom {
    type V = Seq<u8>;

    /// The bytes of the image.
    closed spec fn view(&self) -> Seq<u8> {
        self.mem@
    }
}

impl Rom {
    /// The address at which the first byte of the image appears.
    pub closed spec fn base(&self) -> u16 {
        self.base_addr
    }

    /// The byte a read of `addr` returns: the image byte at the distance of
    /// `addr` from the base, or `0xFF` past the end of the image.
    pub open spec fn peek(&self, addr: u16) -> u8 {
        let offset = addr.wrapping_sub(self.base());
        if offset < self@.len() {
            self@[offset as int]
        } else {
            OPEN_BUS
        }
    }

    /// The image `data`, mapped at `0x8000`.
    pub fn new(data: &[u8]) -> (rom: Self)
        ensures
            rom@ == data@,
            rom.base() == 0x8000,
    {
        Rom { mem: slice_to_vec(data), base_addr: 0x8000 }
    }

    /// Returns the byte at `addr`; past the end of the image, `0xFF`.
    pub fn read(&self, addr: u16) -> (data: u8)
        ensures
            data == self.peek(addr),
    {
        let offset: usize = addr.wrapping_sub(self.base_addr) as usize;
        if offset >= self.mem.len() {
            return OPEN_BUS;
        }
        self.mem[offset]
    }
}

} // verus!
