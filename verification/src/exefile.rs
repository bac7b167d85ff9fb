//! An executable image: a 2048-byte header, then the payload.

use vstd::prelude::*;
use vstd::slice::slice_subrange;
use crate::cpu::CPU;
use crate::machine::{enter_image, load_image, payload, write_bytes, zero_fill};
use crate::memory::{Memory, le_word};

verus! {

/// The size of the header; the payload starts here.
pub const HEADER_SIZE: usize = 0x800;

/// The eight bytes that every image starts with: "PS-X EXE".
pub open spec fn magic() -> Seq<u8> {
    seq![0x50u8, 0x53u8, 0x2Du8, 0x58u8, 0x20u8, 0x45u8, 0x58u8, 0x45u8]
}

/// The little-endian word at `offset` of the header.
pub open spec fn header_word(data: Seq<u8>, offset: int) -> u32 {
    le_word(data, offset, 4)
}

/// Whether `data` is an image: it holds a whole header that starts with the
/// magic, and a payload of the size that the header gives.
pub open spec fn image_valid(data: Seq<u8>) -> bool {
    &&& data.len() >= HEADER_SIZE
    &&& data.subrange(0, 8) == magic()
    &&& HEADER_SIZE + header_word(data, 0x1C) <= data.len()
}

pub struct ExeFile {
    data: Vec<u8>,
}

impl View for ExeFile {
    type V = Seq<u8>;

    closed spec fn view(&self) -> Seq<u8> {
        self.data@
    }
}

/// The word at `offset` of `data`.
fn word_at(data: &Vec<u8>, offset: usize) -> (r: u32)
    requires
        offset + 4 <= data@.len(),
    ensures
        r == header_word(data@, offset as int),
{
    let size = data.len();
    assert(offset + 4 <= size);
    (data[offset] as u32) | ((data[offset + 1] as u32) << 8) | ((data[offset + 2] as u32) << 16) | (
    (data[offset + 3] as u32) << 24)
}

impl ExeFile {
    pub open spec fn wf(&self) -> bool {
        image_valid(self@)
    }

    /// Takes the bytes of an image. Bytes that are no image are rejected.
    pub fn new(data: Vec<u8>) -> (r: Option<ExeFile>)
        ensures
            r is Some <==> image_valid(data@),
            r matches Some(exe) ==> exe.wf() && exe@ == data@,
    {
        if data.len() < HEADER_SIZE {
            return None;
        }
        if data[0] != 0x50 || data[1] != 0x53 || data[2] != 0x2D || data[3] != 0x58 || data[4]
            != 0x20 || data[5] != 0x45 || data[6] != 0x58 || data[7] != 0x45 {
            assert(data@.subrange(0, 8)[0] == data@[0]);
            assert(data@.subrange(0, 8)[1] == data@[1]);
            assert(data@.subrange(0, 8)[2] == data@[2]);
            assert(data@.subrange(0, 8)[3] == data@[3]);
            assert(data@.subrange(0, 8)[4] == data@[4]);
            assert(data@.subrange(0, 8)[5] == data@[5]);
            assert(data@.subrange(0, 8)[6] == data@[6]);
            assert(data@.subrange(0, 8)[7] == data@[7]);
            return None;
        }
        assert(data@.subrange(0, 8) =~= magic());
        let size = word_at(&data, 0x1C) as usize;
        if size > data.len() - HEADER_SIZE {
            return None;
        }
        Some(ExeFile { data })
    }

    fn word(&self, address: u32) -> (r: u32)
        requires
            self.wf(),
            address + 4 <= HEADER_SIZE,
        ensures
            r == header_word(self@, address as int),
    {
        word_at(&self.data, address as usize)
    }

    /// The magic at the start of the image.
    pub fn id(&self) -> (r: &[u8])
        requires
            self.wf(),
        ensures
            r@ == magic(),
    {
        slice_subrange(self.data.as_slice(), 0, 8)
    }

    /// The address at which execution starts.
    pub fn pc(&self) -> (r: u32)
        requires
            self.wf(),
        ensures
            r == header_word(self@, 0x10),
    {
        self.word(0x10)
    }

    /// The initial value of the global pointer, register 28.
    pub fn gp(&self) -> (r: u32)
        requires
            self.wf(),
        ensures
            r == header_word(self@, 0x14),
    {
        self.word(0x14)
    }

    /// The address that the payload is copied to.
    pub fn destination_address(&self) -> (r: u32)
        requires
            self.wf(),
        ensures
            r == header_word(self@, 0x18),
    {
        self.word(0x18)
    }

    /// The size of the payload in bytes.
    pub fn destination_size(&self) -> (r: u32)
        requires
            self.wf(),
        ensures
            r == header_word(self@, 0x1C),
            HEADER_SIZE + r <= self@.len(),
    {
        self.word(0x1C)
    }

    /// The address of the region that is filled with zeros.
    pub fn memfill_address(&self) -> (r: u32)
        requires
            self.wf(),
        ensures
            r == header_word(self@, 0x28),
    {
        self.word(0x28)
    }

    /// The size of the region that is filled with zeros.
    pub fn memfill_size(&self) -> (r: u32)
        requires
            self.wf(),
        ensures
            r == header_word(self@, 0x2C),
    {
        self.word(0x2C)
    }

    /// The base of the stack, or 0 where the image leaves the stack alone.
    pub fn sp_address(&self) -> (r: u32)
        requires
            self.wf(),
        ensures
            r == header_word(self@, 0x30),
    {
        self.word(0x30)
    }

    /// The size of the stack.
    pub fn sp_size(&self) -> (r: u32)
        requires
            self.wf(),
        ensures
            r == header_word(self@, 0x34),
    {
        self.word(0x34)
    }

    /// The byte at `offset` of the payload.
    pub fn payload_byte(&self, offset: u32) -> (r: u8)
        requires
            self.wf(),
            offset < header_word(self@, 0x1C),
        ensures
            r == self@[HEADER_SIZE + offset],
    {
        let size = self.data.len();
        assert(HEADER_SIZE + offset < size);
        self.data[HEADER_SIZE + offset as usize]
    }

    /// Loads the image: the payload is copied to its destination through
    /// the bus, the fill region is cleared, and the processor is pointed at
    /// the entry.
    pub fn load(&self, cpu: &mut CPU, mem: &mut Memory)
        requires
            self.wf(),
            old(cpu).wf(),
            old(mem).wf(),
        ensures
            final(cpu).wf(),
            final(mem).wf(),
            final(cpu)@ == enter_image(old(cpu)@, self@),
            final(mem)@ == load_image(old(mem)@, self@),
    {
        let destination = self.destination_address();
        let size = self.destination_size();
        let ghost bytes = payload(self@);
        let ghost mem0 = mem@;
        let mut offset: u32 = 0;
        assert(bytes.take(0) =~= Seq::<u8>::empty());
        while offset < size
            invariant
                offset <= size,
                self.wf(),
                mem.wf(),
                size == header_word(self@, 0x1C),
                bytes == payload(self@),
                mem@ == write_bytes(mem0, destination, bytes.take(offset as int)),
            decreases size - offset,
        {
            mem.write8(destination.wrapping_add(offset), self.payload_byte(offset));
            proof {
                let next = bytes.take(offset + 1);
                assert(next.drop_last() =~= bytes.take(offset as int));
                assert(next.last() == self@[HEADER_SIZE + offset]);
            }
            offset = offset + 1;
        }
        assert(bytes.take(size as int) =~= bytes);
        let fill = self.memfill_address();
        let fill_size = self.memfill_size();
        let ghost mem1 = mem@;
        let mut filled: u32 = 0;
        while filled < fill_size
            invariant
                filled <= fill_size,
                mem.wf(),
                mem@ == zero_fill(mem1, fill, filled as nat),
            decreases fill_size - filled,
        {
            mem.write8(fill.wrapping_add(filled), 0);
            filled = filled + 1;
        }
        cpu.set_next_pc(self.pc());
        cpu.set_reg(28, self.gp());
        if self.sp_address() != 0 {
            let sp = self.sp_address().wrapping_add(self.sp_size());
            cpu.set_reg(29, sp);
            cpu.set_reg(30, sp);
        }
    }
}

} // verus!
