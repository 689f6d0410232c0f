//! A flat memory that covers the whole address space, without segments.
use vstd::prelude::*;
use crate::bus::{MAX_MEMORY_SIZE, Ram};
pub use crate::bus::{Addressable as Bus, address_to_bytes, bytes_to_address, lo_hi_to_address};

verus! {

/// 64 KiB of RAM answering every address.
pub struct Memory {
    ram: Ram,
}

impl Memory {
    /// A memory of `MAX_MEMORY_SIZE` zero bytes.
    pub fn new() -> (r: Memory)
        ensures
            r.wf(),
            r.spec_size() == MAX_MEMORY_SIZE,
            forall|a: u16| #[trigger] r.byte_at(a) == 0,
            forall|a: u16| #[trigger] r.keeps_write(a),
    {
        let ram = Ram::new(MAX_MEMORY_SIZE);
        proof {
            ram.lemma_serves_below_size(0);
            assert forall|a: u16| #[trigger] ram.byte_at(a) == 0 by {
                ram.lemma_serves_below_size(a);
            }
        }
        Memory { ram }
    }

    /// The number of bytes in the memory.
    pub fn memory_size(&self) -> (r: usize)
        ensures
            r == self.spec_size(),
    {
        proof {
            self.ram.lemma_serves_below_size(0);
        }
        self.ram.size()
    }
}

impl Bus for Memory {
    closed spec fn wf(&self) -> bool {
        self.ram.spec_size() == MAX_MEMORY_SIZE
    }

    closed spec fn spec_size(&self) -> nat {
        self.ram.spec_size()
    }

    open spec fn serves(&self, address: u16) -> bool {
        true
    }

    closed spec fn byte_at(&self, address: u16) -> u8 {
        self.ram.byte_at(address)
    }

    closed spec fn keeps_write(&self, address: u16) -> bool {
        true
    }

    /// A flat memory has nothing inside it besides its bytes.
    closed spec fn write_effect(&self, after: Self, address: u16, byte: u8) -> bool {
        true
    }

    fn size(&self) -> (r: usize) {
        proof {
            self.ram.lemma_serves_below_size(0);
        }
        self.ram.size()
    }

    fn read_byte(&self, address: u16) -> (r: u8) {
        proof {
            self.ram.lemma_serves_below_size(address);
        }
        self.ram.read_byte(address)
    }

    fn write_byte(&mut self, address: u16, byte: u8) {
        proof {
            self.ram.lemma_serves_below_size(address);
        }
        self.ram.write_byte(address, byte);
        proof {
            self.ram.lemma_serves_below_size(address);
            assert forall|a: u16| #[trigger] self.byte_at(a) == if a == address {
                byte
            } else {
                old(self).byte_at(a)
            } by {
                old(self).ram.lemma_serves_below_size(address);
                old(self).ram.lemma_serves_below_size(a);
                self.ram.lemma_serves_below_size(a);
            }
            assert(old(self).write_effect(*self, address, byte));
        }
    }
}

} // verus!
