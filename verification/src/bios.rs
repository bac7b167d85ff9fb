//! The BIOS ROM: 512 KiB, read-only.

use vstd::prelude::*;
use crate::memory::Addressable;
use crate::memory_segment::MemorySegment;

verus! {

/// The size of a BIOS image in bytes.
pub const BIOS_SIZE: usize = 0x8_0000;

pub struct BIOS {
    data: MemorySegment,
}

impl View for BIOS {
    type V = Seq<u8>;

    closed spec fn view(&self) -> Seq<u8> {
        self.data@
    }
}

impl BIOS {
    /// A BIOS always holds `BIOS_SIZE` bytes.
    pub open spec fn wf(&self) -> bool {
        self@.len() == BIOS_SIZE
    }

    /// The value of type `T` that the image holds at `address`.
    pub open spec fn spec_read<T: Addressable>(&self, address: u32) -> T {
        T::spec_from_u32(crate::memory::le_word(self@, address as int, T::spec_width()))
    }

    /// Takes a BIOS image. An image of any other size than `BIOS_SIZE` is
    /// rejected.
    pub fn new(buffer: Vec<u8>) -> (r: Option<BIOS>)
        ensures
            r is Some <==> buffer@.len() == BIOS_SIZE,
            r matches Some(bios) ==> bios.wf() && bios@ == buffer@,
    {
        if buffer.len() == BIOS_SIZE {
            Some(BIOS { data: MemorySegment::from_buffer(buffer) })
        } else {
            None
        }
    }

    /// Reads a value of type `T` at byte offset `address` of the image.
    pub fn read<T: Addressable>(&self, address: u32) -> (r: T)
        requires
            self.wf(),
            address + T::spec_width() <= BIOS_SIZE,
        ensures
            r == self.spec_read::<T>(address),
    {
        self.data.read::<T>(address)
    }
}

} // verus!
