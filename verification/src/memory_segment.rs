//! A contiguous byte buffer with typed little-endian access.

use vstd::prelude::*;
use crate::memory::{Addressable, le_store, le_word};

verus! {

pub struct MemorySegment {
    data: Vec<u8>,
}

impl View for MemorySegment {
    type V = Seq<u8>;

    closed spec fn view(&self) -> Seq<u8> {
        self.data@
    }
}

impl MemorySegment {
    /// The value of type `T` that the bytes at `address` hold.
    pub open spec fn spec_read<T: Addressable>(&self, address: u32) -> T {
        T::spec_from_u32(le_word(self@, address as int, T::spec_width()))
    }

    /// A segment of `size` zero bytes.
    pub fn new(size: usize) -> (s: Self)
        ensures
            s@ == Seq::new(size as nat, |i: int| 0u8),
    {
        let s = MemorySegment { data: vec![0u8; size] };
        assert(s@ =~= Seq::new(size as nat, |i: int| 0u8));
        s
    }

    /// A segment that holds the bytes of `buffer`.
    pub fn from_buffer(buffer: Vec<u8>) -> (s: Self)
        ensures
            s@ == buffer@,
    {
        MemorySegment { data: buffer }
    }

    /// The number of bytes in the segment.
    pub fn len(&self) -> (n: usize)
        ensures
            n == self@.len(),
    {
        self.data.len()
    }

    /// Reads a value of type `T` at byte offset `address`, lowest byte first.
    pub fn read<T: Addressable>(&self, address: u32) -> (r: T)
        requires
            address + T::spec_width() <= self@.len(),
        ensures
            r == self.spec_read::<T>(address),
    {
        let offset = address as usize;
        let width = T::width();
        let size = self.data.len();
        assert(offset + width <= size);
        let value: u32 = if width == 1 {
            self.data[offset] as u32
        } else if width == 2 {
            (self.data[offset] as u32) | ((self.data[offset + 1] as u32) << 8)
        } else {
            (self.data[offset] as u32) | ((self.data[offset + 1] as u32) << 8) | ((
            self.data[offset + 2] as u32) << 16) | ((self.data[offset + 3] as u32) << 24)
        };
        T::from_u32(value)
    }

    /// Writes `value` at byte offset `address`, lowest byte first.
    pub fn write<T: Addressable>(&mut self, address: u32, value: T)
        requires
            address + T::spec_width() <= old(self)@.len(),
        ensures
            final(self)@ == le_store(
                old(self)@,
                address as int,
                value.spec_as_u32(),
                T::spec_width(),
            ),
            final(self)@.len() == old(self)@.len(),
    {
        let offset = address as usize;
        let width = T::width();
        let size = self.data.len();
        assert(offset + width <= size);
        let value = value.as_u32();
        self.data[offset] = #[verifier::truncate] (value as u8);
        if width >= 2 {
            self.data[offset + 1] = #[verifier::truncate] ((value >> 8) as u8);
        }
        if width == 4 {
            self.data[offset + 2] = #[verifier::truncate] ((value >> 16) as u8);
            self.data[offset + 3] = #[verifier::truncate] ((value >> 24) as u8);
        }
    }
}

} // verus!
