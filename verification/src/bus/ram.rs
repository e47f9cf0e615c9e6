//! Read/write memory.

use vstd::prelude::*;

verus! {

/// A block of read/write memory addressed from zero.
pub struct Ram {
    mem: Vec<u8>,
}

impl View for Ram {
    type V = Seq<u8>;

    /// The bytes held, in address order.
    closed spec fn view(&self) -> Seq<u8> {
        self.mem@
    }
}

impl Ram {
    /// `size` bytes of memory, all zero.
    pub fn new(size: usize) -> (ram: Self)
        ensures
            ram@ == Seq::new(size as nat, |i: int| 0u8),
    {
        let ram = Ram { mem: vec![0u8; size] };
        assert(ram@ =~= Seq::new(size as nat, |i: int| 0u8));
        ram
    }

    /// The number of bytes held.
    pub fn len(&self) -> (n: usize)
        ensures
            n == self@.len(),
    {
        self.mem.len()
    }

    /// Copies `data` into memory, its first byte to `start_addr`.
    pub fn load(&mut self, start_addr: u16, data: &[u8])
        requires
            start_addr + data@.len() <= old(self)@.len(),
        ensures
            final(self)@ == old(self)@.subrange(0, start_addr as int) + data@ + old(self)@.subrange(
                start_addr + data@.len(),
                old(self)@.len() as int,
            ),
    {
        let start: usize = start_addr as usize;
        let size: usize = self.mem.len();
        let mut i: usize = 0;
        while i < data.len()
            invariant
                start == start_addr,
                i <= data@.len(),
                start + data@.len() <= old(self)@.len(),
                self@.len() == old(self)@.len(),
                self@.len() == size,
                forall|k: int| 0 <= k < start ==> self@[k] == old(self)@[k],
                forall|k: int| start <= k < start + i ==> self@[k] == data@[k - start],
                forall|k: int| start + i <= k < self@.len() ==> self@[k] == old(self)@[k],
            decreases data@.len() - i,
        {
            self.mem[start + i] = data[i];
            i = i + 1;
        }
        assert(self@ =~= old(self)@.subrange(0, start_addr as int) + data@ + old(self)@.subrange(
            start_addr + data@.len(),
            old(self)@.len() as int,
        ));
    }

    /// Returns the byte at `addr`.
    pub fn read(&self, addr: u16) -> (data: u8)
        requires
            addr < self@.len(),
        ensures
            data == self@[addr as int],
    {
        self.mem[addr as usize]
    }

    /// Stores `data` at `addr`.
    pub fn write(&mut self, addr: u16, data: u8)
        requires
            addr < old(self)@.len(),
        ensures
            final(self)@ == old(self)@.update(addr as int, data),
    {
        self.mem[addr as usize] = data;
    }
}

} // verus!
