//! Main memory: 2 MiB of bytes.

use vstd::prelude::*;
use crate::memory::{le_store, le_word};
use crate::memory_segment::MemorySegment;

verus! {

/// The size of main memory in bytes.
pub const RAM_SIZE: usize = 0x20_0000;

pub struct RAM {
    data: MemorySegment,
}

impl View for RAM {
    type V = Seq<u8>;

    closed spec fn view(&self) -> Seq<u8> {
        self.data@
    }
}

impl RAM {
    /// Main memory always holds `RAM_SIZE` bytes.
    pub open spec fn wf(&self) -> bool {
        self@.len() == RAM_SIZE
    }

    /// Main memory filled with zeros.
    pub fn new() -> (ram: RAM)
        ensures
            ram.wf(),
            ram@ == Seq::new(RAM_SIZE as nat, |i: int| 0u8),
    {
        RAM { data: MemorySegment::new(RAM_SIZE) }
    }

    pub fn read8(&self, address: u32) -> (r: u8)
        requires
            self.wf(),
            address < RAM_SIZE,
        ensures
            r == self@[address as int],
            r == le_word(self@, address as int, 1) as u8,
    {
        self.data.read::<u8>(address)
    }

    pub fn read16(&self, address: u32) -> (r: u16)
        requires
            self.wf(),
            address + 2 <= RAM_SIZE,
        ensures
            r == le_word(self@, address as int, 2) as u16,
    {
        self.data.read::<u16>(address)
    }

    pub fn read32(&self, address: u32) -> (r: u32)
        requires
            self.wf(),
            address + 4 <= RAM_SIZE,
        ensures
            r == le_word(self@, address as int, 4),
    {
        self.data.read::<u32>(address)
    }

    pub fn write8(&mut self, address: u32, value: u8)
        requires
            old(self).wf(),
            address < RAM_SIZE,
        ensures
            final(self).wf(),
            final(self)@ == le_store(old(self)@, address as int, value as u32, 1),
            final(self)@ == old(self)@.update(address as int, value),
    {
        self.data.write::<u8>(address, value);
    }

    pub fn write16(&mut self, address: u32, value: u16)
        requires
            old(self).wf(),
            address + 2 <= RAM_SIZE,
        ensures
            final(self).wf(),
            final(self)@ == le_store(old(self)@, address as int, value as u32, 2),
    {
        self.data.write::<u16>(address, value);
    }

    pub fn write32(&mut self, address: u32, value: u32)
        requires
            old(self).wf(),
            address + 4 <= RAM_SIZE,
        ensures
            final(self).wf(),
            final(self)@ == le_store(old(self)@, address as int, value, 4),
    {
        self.data.write::<u32>(address, value);
    }
}

} // verus!
