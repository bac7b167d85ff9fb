//! The scratchpad: 1 KiB of fast memory.

use vstd::prelude::*;
use crate::memory::{le_store, le_word};

verus! {

/// The size of the scratchpad in bytes.
pub const SCRATCHPAD_SIZE: usize = 0x400;

pub struct Scratchpad {
    data: Vec<u8>,
}

impl View for Scratchpad {
    type V = Seq<u8>;

    closed spec fn view(&self) -> Seq<u8> {
        self.data@
    }
}

impl Scratchpad {
    /// The scratchpad always holds `SCRATCHPAD_SIZE` bytes.
    pub open spec fn wf(&self) -> bool {
        self@.len() == SCRATCHPAD_SIZE
    }

    /// A scratchpad filled with zeros.
    pub fn new() -> (s: Scratchpad)
        ensures
            s.wf(),
            s@ == Seq::new(SCRATCHPAD_SIZE as nat, |i: int| 0u8),
    {
        let s = Scratchpad { data: vec![0u8; SCRATCHPAD_SIZE] };
        assert(s@ =~= Seq::new(SCRATCHPAD_SIZE as nat, |i: int| 0u8));
        s
    }

    pub fn read32(&self, address: u32) -> (r: u32)
        requires
            self.wf(),
            address + 4 <= SCRATCHPAD_SIZE,
        ensures
            r == le_word(self@, address as int, 4),
    {
        let offset = address as usize;
        let b0 = self.data[offset] as u32;
        let b1 = self.data[offset + 1] as u32;
        let b2 = self.data[offset + 2] as u32;
        let b3 = self.data[offset + 3] as u32;
        b0 | (b1 << 8) | (b2 << 16) | (b3 << 24)
    }

    pub fn read16(&self, address: u32) -> (r: u16)
        requires
            self.wf(),
            address + 2 <= SCRATCHPAD_SIZE,
        ensures
            r == le_word(self@, address as int, 2) as u16,
    {
        let offset = address as usize;
        let b0 = self.data[offset] as u32;
        let b1 = self.data[offset + 1] as u32;
        #[verifier::truncate]
        ((b0 | (b1 << 8)) as u16)
    }

    pub fn read8(&self, address: u32) -> (r: u8)
        requires
            self.wf(),
            address < SCRATCHPAD_SIZE,
        ensures
            r == self@[address as int],
            r == le_word(self@, address as int, 1) as u8,
    {
        self.data[address as usize]
    }

    pub fn write32(&mut self, address: u32, value: u32)
        requires
            old(self).wf(),
            address + 4 <= SCRATCHPAD_SIZE,
        ensures
            final(self).wf(),
            final(self)@ == le_store(old(self)@, address as int, value, 4),
    {
        let offset = address as usize;
        self.data[offset] = #[verifier::truncate] (value as u8);
        self.data[offset + 1] = #[verifier::truncate] ((value >> 8) as u8);
        self.data[offset + 2] = #[verifier::truncate] ((value >> 16) as u8);
        self.data[offset + 3] = #[verifier::truncate] ((value >> 24) as u8);
    }

    pub fn write16(&mut self, address: u32, value: u16)
        requires
            old(self).wf(),
            address + 2 <= SCRATCHPAD_SIZE,
        ensures
            final(self).wf(),
            final(self)@ == le_store(old(self)@, address as int, value as u32, 2),
    {
        let offset = address as usize;
        let word = value as u32;
        self.data[offset] = #[verifier::truncate] (word as u8);
        self.data[offset + 1] = #[verifier::truncate] ((word >> 8) as u8);
    }

    pub fn write8(&mut self, address: u32, value: u8)
        requires
            old(self).wf(),
            address < SCRATCHPAD_SIZE,
        ensures
            final(self).wf(),
            final(self)@ == le_store(old(self)@, address as int, value as u32, 1),
            final(self)@ == old(self)@.update(address as int, value),
    {
        self.data[address as usize] = value;
    }
}

} // verus!
