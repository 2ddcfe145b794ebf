//! Plain memory as a device on a bus.
use vstd::prelude::*;
use super::bus::{BusDevice, BusPeekResult};

verus! {

/// Memory of a declared size.
pub struct Ram {
    buf: Vec<u8>,
    len: usize,
}

impl View for Ram {
    type V = Seq<u8>;

    closed spec fn view(&self) -> Seq<u8> {
        self.buf@
    }
}

impl Ram {
    /// The declared size.
    pub closed spec fn size(&self) -> usize {
        self.len
    }

    /// Whether the memory answers at `addr`: below its declared size, and
    /// within the bytes it holds.
    pub open spec fn answers(&self, addr: u16) -> bool {
        addr < self.size() && addr < self@.len()
    }

    /// Memory of `size` bytes, all zero.
    pub fn new(size: usize) -> (ram: Ram)
        ensures
            ram.size() == size,
            ram@.len() == size,
            forall|i: int| 0 <= i < size ==> ram@[i] == 0,
    {
        let mut buf: Vec<u8> = Vec::new();
        let mut i: usize = 0;
        while i < size
            invariant
                i <= size,
                buf@.len() == i,
                forall|j: int| 0 <= j < i ==> buf@[j] == 0,
            decreases size - i,
        {
            buf.push(0);
            i += 1;
        }
        Ram { buf, len: size }
    }

    /// Memory of the declared size `size` that holds a copy of `buf`.
    pub fn new_from_buf(size: usize, buf: &[u8]) -> (ram: Ram)
        ensures
            ram.size() == size,
            ram@ == buf@,
    {
        let mut copy: Vec<u8> = Vec::new();
        let mut i: usize = 0;
        while i < buf.len()
            invariant
                i <= buf.len(),
                copy@ == buf@.subrange(0, i as int),
            decreases buf.len() - i,
        {
            copy.push(buf[i]);
            i += 1;
            assert(copy@ =~= buf@.subrange(0, i as int));
        }
        assert(buf@.subrange(0, buf.len() as int) =~= buf@);
        Ram { buf: copy, len: size }
    }

    /// What a peek at `addr` returns.
    pub open spec fn peek_spec(self, addr: u16) -> BusPeekResult {
        if self.answers(addr) {
            BusPeekResult::Result(self@[addr as int])
        } else {
            BusPeekResult::Unmapped
        }
    }

    /// The declared size.
    pub fn len(&self) -> (r: usize)
        ensures
            r == self.size(),
    {
        self.len
    }
}

impl BusDevice for Ram {
    /// A read returns the byte at the address, or what is on the bus where
    /// the memory does not answer, and changes nothing.
    open spec fn read_post(self, addr: u16, last_bus_value: u8, value: u8, next: Self) -> bool {
        &&& value == self.peek_spec(addr).unwrap(last_bus_value)
        &&& next@ == self@
        &&& next.size() == self.size()
    }

    /// A peek returns the byte at the address, and nothing where the
    /// memory does not answer.
    open spec fn peek_post(self, addr: u16, result: BusPeekResult) -> bool {
        result == self.peek_spec(addr)
    }

    /// A write replaces the byte at the address, and does nothing where the
    /// memory does not answer.
    open spec fn write_post(self, addr: u16, value: u8, next: Self) -> bool {
        &&& next@ == if self.answers(addr) {
            self@.update(addr as int, value)
        } else {
            self@
        }
        &&& next.size() == self.size()
    }

    fn read(&mut self, addr: u16, last_bus_value: u8) -> (r: u8) {
        self.peek(addr).unwrap(last_bus_value)
    }

    fn peek(&self, addr: u16) -> (r: BusPeekResult) {
        if (addr as usize) < self.len && (addr as usize) < self.buf.len() {
            BusPeekResult::Result(self.buf[addr as usize])
        } else {
            BusPeekResult::Unmapped
        }
    }

    fn write(&mut self, addr: u16, value: u8) {
        if (addr as usize) < self.len && (addr as usize) < self.buf.len() {
            self.buf[addr as usize] = value;
        }
    }
}

} // verus!
