//! The memory collaborator: a flat 16-bit address space of bytes.
use vstd::prelude::*;

verus! {

/// Number of addressable bytes.
pub const MEMORY_SIZE: usize = 0x10000;

/// A flat byte-addressed memory covering the whole 16-bit address space.
pub struct Memory {
    pub bytes: Vec<u8>,
}

impl View for Memory {
    type V = Seq<u8>;

    open spec fn view(&self) -> Seq<u8> {
        self.bytes@
    }
}

impl Memory {
    /// Every 16-bit address holds a byte.
    pub open spec fn wf(&self) -> bool {
        self@.len() == MEMORY_SIZE
    }

    /// A memory holding `data` from address 0 on and zeros after it; bytes of
    /// `data` past the end of the address space are left out.
    pub fn from_bytes(data: &Vec<u8>) -> (m: Memory)
        ensures
            m.wf(),
            forall|i: int|
                0 <= i < MEMORY_SIZE ==> #[trigger] m@[i] == if i < data@.len() {
                    data@[i]
                } else {
                    0u8
                },
    {
        let mut bytes: Vec<u8> = Vec::new();
        let mut i: usize = 0;
        while i < MEMORY_SIZE
            invariant
                i <= MEMORY_SIZE,
                bytes@.len() == i,
                forall|j: int|
                    0 <= j < i ==> #[trigger] bytes@[j] == if j < data@.len() {
                        data@[j]
                    } else {
                        0u8
                    },
            decreases MEMORY_SIZE - i,
        {
            if i < data.len() {
                bytes.push(data[i]);
            } else {
                bytes.push(0);
            }
            i = i + 1;
        }
        Memory { bytes }
    }

    /// A memory of zeros.
    pub fn new() -> (m: Memory)
        ensures
            m.wf(),
            forall|i: int| 0 <= i < MEMORY_SIZE ==> #[trigger] m@[i] == 0,
    {
        let empty: Vec<u8> = Vec::new();
        Memory::from_bytes(&empty)
    }

    /// The byte at `addr`.
    pub fn read(&self, addr: u16) -> (r: u8)
        requires
            self.wf(),
        ensures
            r == self@[addr as int],
    {
        self.bytes[addr as usize]
    }

    /// Stores `value` at `addr`.
    pub fn write(&mut self, addr: u16, value: u8)
        requires
            old(self).wf(),
        ensures
            final(self)@ == old(self)@.update(addr as int, value),
            final(self).wf(),
    {
        self.bytes.set(addr as usize, value);
    }
}

} // verus!
