//! Typed access to byte-addressable storage.

use vstd::prelude::*;
use crate::bios::{BIOS, BIOS_SIZE};
use crate::bus::{Region, decode, spec_decode};
use crate::cdrom::{CDROM, CdromState};
use crate::dma::{DMA, DmaState};
use crate::fault::{Fault, first, latch, spec_first, spec_latch};
use crate::gpu::GPU;
use crate::gpu_state::GpuState;
use crate::interrupt_controller::{InterruptController, InterruptRequest};
use crate::ram::{RAM, RAM_SIZE};
use crate::scratchpad::{Scratchpad, SCRATCHPAD_SIZE};
use crate::spu::{SPU, SpuState};

verus! {

/// A value that can be moved over the bus: a byte, a half-word or a word.
pub trait Addressable: Sized + Copy {
    /// The number of bytes that the value occupies.
    spec fn spec_width() -> nat;

    /// The value made of the low `spec_width()` bytes of `value`.
    spec fn spec_from_u32(value: u32) -> Self;

    /// The value, zero-extended to a word.
    spec fn spec_as_u32(&self) -> u32;

    fn width() -> (w: u32)
        ensures
            w == Self::spec_width(),
            w == 1 || w == 2 || w == 4,
    ;

    fn from_u32(value: u32) -> (r: Self)
        ensures
            r == Self::spec_from_u32(value),
    ;

    fn as_u32(&self) -> (r: u32)
        ensures
            r == self.spec_as_u32(),
    ;
}

impl Addressable for u8 {
    open spec fn spec_width() -> nat {
        1
    }

    open spec fn spec_from_u32(value: u32) -> u8 {
        value as u8
    }

    open spec fn spec_as_u32(&self) -> u32 {
        *self as u32
    }

    fn width() -> (w: u32) {
        1
    }

    fn from_u32(value: u32) -> (r: u8) {
        #[verifier::truncate]
        (value as u8)
    }

    fn as_u32(&self) -> (r: u32) {
        *self as u32
    }
}

impl Addressable for u16 {
    open spec fn spec_width() -> nat {
        2
    }

    open spec fn spec_from_u32(value: u32) -> u16 {
        value as u16
    }

    open spec fn spec_as_u32(&self) -> u32 {
        *self as u32
    }

    fn width() -> (w: u32) {
        2
    }

    fn from_u32(value: u32) -> (r: u16) {
        #[verifier::truncate]
        (value as u16)
    }

    fn as_u32(&self) -> (r: u32) {
        *self as u32
    }
}

impl Addressable for u32 {
    open spec fn spec_width() -> nat {
        4
    }

    open spec fn spec_from_u32(value: u32) -> u32 {
        value
    }

    open spec fn spec_as_u32(&self) -> u32 {
        *self
    }

    fn width() -> (w: u32) {
        4
    }

    fn from_u32(value: u32) -> (r: u32) {
        value
    }

    fn as_u32(&self) -> (r: u32) {
        *self
    }
}

/// The little-endian value of the `width` bytes of `bytes` that start at
/// `offset`, for a width of 1, 2 or 4.
pub open spec fn le_word(bytes: Seq<u8>, offset: int, width: nat) -> u32 {
    if width == 1 {
        bytes[offset] as u32
    } else if width == 2 {
        (bytes[offset] as u32) | ((bytes[offset + 1] as u32) << 8)
    } else {
        (bytes[offset] as u32) | ((bytes[offset + 1] as u32) << 8) | ((bytes[offset + 2] as u32)
            << 16) | ((bytes[offset + 3] as u32) << 24)
    }
}

/// `bytes` after the low `width` bytes of `value` were stored at `offset` in
/// little-endian order, for a width of 1, 2 or 4.
pub open spec fn le_store(bytes: Seq<u8>, offset: int, value: u32, width: nat) -> Seq<u8> {
    if width == 1 {
        bytes.update(offset, value as u8)
    } else if width == 2 {
        bytes.update(offset, value as u8).update(offset + 1, (value >> 8) as u8)
    } else {
        bytes.update(offset, value as u8).update(offset + 1, (value >> 8) as u8).update(
            offset + 2,
            (value >> 16) as u8,
        ).update(offset + 3, (value >> 24) as u8)
    }
}

/// How a word splits into bytes and half-words, and how they make it up again.
pub proof fn lemma_le_bytes(value: u32)
    by (bit_vector)
    ensures
        ((value as u8) as u32) | (((value >> 8) as u8) as u32) << 8 | (((value >> 16) as u8) as u32)
            << 16 | (((value >> 24) as u8) as u32) << 24 == value,
        ((value as u8) as u32) | (((value >> 8) as u8) as u32) << 8 == (value as u16) as u32,
        ((value as u8) as u32) == value & 0xFF,
        ((value as u16) as u32) == value & 0xFFFF,
{
}

/// What was stored is what is loaded: a load of `width` bytes from the place
/// of a store of the same width gives the low `width` bytes of the value.
pub proof fn lemma_le_store_load(bytes: Seq<u8>, offset: int, value: u32, width: nat)
    requires
        width == 1 || width == 2 || width == 4,
        0 <= offset,
        offset + width <= bytes.len(),
    ensures
        le_store(bytes, offset, value, width).len() == bytes.len(),
        width == 1 ==> le_word(le_store(bytes, offset, value, width), offset, width) == value
            & 0xFF,
        width == 2 ==> le_word(le_store(bytes, offset, value, width), offset, width) == value
            & 0xFFFF,
        width == 4 ==> le_word(le_store(bytes, offset, value, width), offset, width) == value,
{
    lemma_le_bytes(value);
}

/// A store leaves every byte outside its own range as it was.
pub proof fn lemma_le_store_elsewhere(bytes: Seq<u8>, offset: int, value: u32, width: nat, i: int)
    requires
        width == 1 || width == 2 || width == 4,
        0 <= offset,
        offset + width <= bytes.len(),
        0 <= i < bytes.len(),
        i < offset || i >= offset + width,
    ensures
        le_store(bytes, offset, value, width)[i] == bytes[i],
{
}

/// A word is made of its four bytes, lowest first; and of its two half-words.
pub proof fn lemma_word_of_bytes(bytes: Seq<u8>, offset: int)
    requires
        0 <= offset,
        offset + 4 <= bytes.len(),
    ensures
        le_word(bytes, offset, 4) == le_word(bytes, offset, 1) | (le_word(bytes, offset + 1, 1)
            << 8) | (le_word(bytes, offset + 2, 1) << 16) | (le_word(bytes, offset + 3, 1) << 24),
        le_word(bytes, offset, 4) == le_word(bytes, offset, 2) | (le_word(bytes, offset + 2, 2)
            << 16),
{
    let b0 = bytes[offset];
    let b1 = bytes[offset + 1];
    let b2 = bytes[offset + 2];
    let b3 = bytes[offset + 3];
    assert((b0 as u32) | ((b1 as u32) << 8) | ((b2 as u32) << 16) | ((b3 as u32) << 24) == ((b0 as u32)
        | ((b1 as u32) << 8)) | (((b2 as u32) | ((b3 as u32) << 8)) << 16)) by (bit_vector);
}

/// The model of the bus and of the devices on it.
pub struct MemoryState {
    pub bios: Seq<u8>,
    pub ram: Seq<u8>,
    pub scratchpad: Seq<u8>,
    pub cd: CdromState,
    pub dma: DmaState,
    pub gpu: GpuState,
    pub spu: SpuState,
    pub irq: InterruptController,
    /// The first store that no device answered, if any.
    pub fault: Option<Fault>,
}

/// Whether a device takes stores and drops them.
pub open spec fn ignores_writes(region: Region) -> bool {
    region is MemoryControl1 || region is Io || region is MemoryControl2 || region is Timers
        || region is Expansion2 || region is CacheControl
}

impl MemoryState {
    pub open spec fn wf(self) -> bool {
        &&& self.bios.len() == BIOS_SIZE
        &&& self.ram.len() == RAM_SIZE
        &&& self.scratchpad.len() == SCRATCHPAD_SIZE
        &&& self.cd.wf()
        &&& self.dma.wf()
        &&& self.gpu.wf()
        &&& self.spu.wf()
    }

    /// The bus at power-on: the BIOS in place, everything else cleared.
    pub open spec fn spec_new(bios: Seq<u8>) -> MemoryState {
        MemoryState {
            bios,
            ram: Seq::new(RAM_SIZE as nat, |i: int| 0u8),
            scratchpad: Seq::new(SCRATCHPAD_SIZE as nat, |i: int| 0u8),
            cd: CdromState::spec_new(),
            dma: DmaState::spec_new(),
            gpu: GpuState::spec_new(),
            spu: SpuState::spec_new(),
            irq: InterruptController { interrupt_status: 0, interrupt_mask: 0 },
            fault: None,
        }
    }

    pub open spec fn with_fault(self, fault: Fault) -> MemoryState {
        MemoryState { fault: spec_latch(self.fault, fault), ..self }
    }

    /// The first fault latched on the bus or in a device: the bus comes
    /// first, then the GPU, the DMA engine, the CD-ROM and the SPU.
    pub open spec fn first_fault(self) -> Option<Fault> {
        spec_first(
            self.fault,
            spec_first(
                self.gpu.regs.fault,
                spec_first(self.dma.fault, spec_first(self.cd.fault, self.spu.regs.fault)),
            ),
        )
    }

    /// A byte load. Expansion 1 reads as 0xFF; an address that no device
    /// answers at this width reads as 0.
    #[verifier::opaque]
    pub open spec fn read8(self, address: u32) -> (MemoryState, u8) {
        match spec_decode(address, 1) {
            Region::Ram(offset) => (self, self.ram[offset as int]),
            Region::Expansion1 => (self, 0xFFu8),
            Region::Scratchpad(offset) => (self, self.scratchpad[offset as int]),
            Region::Cdrom(offset) => {
                let (cd, value) = self.cd.read8(offset);
                (MemoryState { cd, ..self }, value)
            },
            Region::Bios(offset) => (self, self.bios[offset as int]),
            _ => (self, 0u8),
        }
    }

    /// A half-word load. The controller port reads as 0xFFFF; an address
    /// that no device answers at this width reads as 0.
    pub open spec fn read16(self, address: u32) -> u16 {
        match spec_decode(address, 2) {
            Region::Ram(offset) => le_word(self.ram, offset as int, 2) as u16,
            Region::Expansion1 => 0xFFu16,
            Region::Scratchpad(offset) => le_word(self.scratchpad, offset as int, 2) as u16,
            Region::Io => 0xFFFFu16,
            Region::IrqStatus => self.irq.interrupt_status,
            Region::IrqMask => self.irq.interrupt_mask,
            Region::Spu(offset) => self.spu.read16(offset),
            Region::Bios(offset) => le_word(self.bios, offset as int, 2) as u16,
            _ => 0u16,
        }
    }

    /// A word load. A load from the GPU data port may move an image transfer
    /// on. An address that no device answers at this width reads as 0.
    #[verifier::opaque]
    pub open spec fn read32(self, address: u32) -> (MemoryState, u32) {
        match spec_decode(address, 4) {
            Region::Ram(offset) => (self, le_word(self.ram, offset as int, 4)),
            Region::Expansion1 => (self, 0xFFu32),
            Region::Scratchpad(offset) => (self, le_word(self.scratchpad, offset as int, 4)),
            Region::IrqStatus => (self, self.irq.interrupt_status as u32),
            Region::IrqMask => (self, self.irq.interrupt_mask as u32),
            Region::Dma(offset) => (self, self.dma.read(offset)),
            Region::GpuData => {
                let (gpu, value) = self.gpu.read();
                (MemoryState { gpu, ..self }, value)
            },
            Region::GpuStatus => (self, self.gpu.regs.flags.spec_status()),
            Region::Bios(offset) => (self, le_word(self.bios, offset as int, 4)),
            _ => (self, 0u32),
        }
    }

    /// A byte store. A store to the CD-ROM may raise its interrupt. A store
    /// that no device takes at this width is dropped, and the fault latched.
    #[verifier::opaque]
    pub open spec fn write8(self, address: u32, value: u8) -> MemoryState {
        let region = spec_decode(address, 1);
        match region {
            Region::Ram(offset) => MemoryState {
                ram: le_store(self.ram, offset as int, value as u32, 1),
                ..self
            },
            Region::Scratchpad(offset) => MemoryState {
                scratchpad: le_store(self.scratchpad, offset as int, value as u32, 1),
                ..self
            },
            Region::Cdrom(offset) => MemoryState {
                cd: self.cd.write8(offset, value),
                irq: if self.cd.write_interrupts(offset, value) {
                    self.irq.spec_request(InterruptRequest::CDROM)
                } else {
                    self.irq
                },
                ..self
            },
            Region::Spu(offset) => MemoryState { spu: self.spu.write_other(offset), ..self },
            _ => if ignores_writes(region) {
                self
            } else {
                self.with_fault(Fault::UnmappedWrite { address, width: 1 })
            },
        }
    }

    /// A half-word store. A store that no device takes at this width is
    /// dropped, and the fault latched.
    #[verifier::opaque]
    pub open spec fn write16(self, address: u32, value: u16) -> MemoryState {
        let region = spec_decode(address, 2);
        match region {
            Region::Ram(offset) => MemoryState {
                ram: le_store(self.ram, offset as int, value as u32, 2),
                ..self
            },
            Region::Scratchpad(offset) => MemoryState {
                scratchpad: le_store(self.scratchpad, offset as int, value as u32, 2),
                ..self
            },
            Region::IrqStatus => MemoryState { irq: self.irq.spec_write_status(value), ..self },
            Region::IrqMask => MemoryState { irq: self.irq.spec_write_mask(value), ..self },
            Region::Spu(offset) => MemoryState { spu: self.spu.write16(offset, value), ..self },
            _ => if ignores_writes(region) {
                self
            } else {
                self.with_fault(Fault::UnmappedWrite { address, width: 2 })
            },
        }
    }

    /// A word store. A store to a DMA register may run a transfer, which
    /// moves words between RAM and the GPU. A store that no device takes at
    /// this width is dropped, and the fault latched.
    #[verifier::opaque]
    pub open spec fn write32(self, address: u32, value: u32) -> MemoryState {
        let region = spec_decode(address, 4);
        match region {
            Region::Ram(offset) => MemoryState {
                ram: le_store(self.ram, offset as int, value, 4),
                ..self
            },
            Region::Scratchpad(offset) => MemoryState {
                scratchpad: le_store(self.scratchpad, offset as int, value, 4),
                ..self
            },
            Region::IrqStatus => MemoryState {
                irq: self.irq.spec_write_status(value as u16),
                ..self
            },
            Region::IrqMask => MemoryState { irq: self.irq.spec_write_mask(value as u16), ..self },
            Region::Dma(offset) => {
                let outcome = self.dma.write(offset, value, self.ram, self.gpu);
                MemoryState { dma: outcome.dma, ram: outcome.ram, gpu: outcome.gpu, ..self }
            },
            Region::GpuData => MemoryState { gpu: self.gpu.gp0(value), ..self },
            Region::GpuStatus => MemoryState { gpu: self.gpu.gp1(value), ..self },
            Region::Spu(offset) => MemoryState { spu: self.spu.write_other(offset), ..self },
            _ => if ignores_writes(region) {
                self
            } else {
                self.with_fault(Fault::UnmappedWrite { address, width: 4 })
            },
        }
    }
}

/// The bus, and the devices on it.
pub struct Memory {
    bios: BIOS,
    cd: CDROM,
    dma: DMA,
    pub gpu: GPU,
    ram: RAM,
    scratchpad: Scratchpad,
    pub spu: SPU,
    interrupt_controller: InterruptController,
    fault: Option<Fault>,
}

impl View for Memory {
    type V = MemoryState;

    closed spec fn view(&self) -> MemoryState {
        MemoryState {
            bios: self.bios@,
            ram: self.ram@,
            scratchpad: self.scratchpad@,
            cd: self.cd@,
            dma: self.dma@,
            gpu: self.gpu@,
            spu: self.spu@,
            irq: self.interrupt_controller,
            fault: self.fault,
        }
    }
}

impl Memory {
    /// The invariant of the bus: that of each device.
    pub closed spec fn wf(&self) -> bool {
        &&& self.bios.wf()
        &&& self.ram.wf()
        &&& self.scratchpad.wf()
        &&& self.cd.wf()
        &&& self.gpu.wf()
    }

    /// A well-formed bus has a well-formed model.
    pub proof fn lemma_wf(&self)
        requires
            self.wf(),
        ensures
            self@.wf(),
    {
        self.gpu.lemma_wf();
        self.dma.lemma_wf();
        self.spu.lemma_wf();
    }

    /// The bus at power-on, with `bios` in place.
    pub fn new(bios: BIOS) -> (mem: Memory)
        requires
            bios.wf(),
        ensures
            mem.wf(),
            mem@ == MemoryState::spec_new(bios@),
    {
        Memory {
            bios,
            cd: CDROM::new(),
            dma: DMA::new(),
            gpu: GPU::new(),
            ram: RAM::new(),
            scratchpad: Scratchpad::new(),
            spu: SPU::new(),
            interrupt_controller: InterruptController::new(),
            fault: None,
        }
    }

    /// The first fault latched on the bus or in a device.
    pub fn fault(&self) -> (r: Option<Fault>)
        ensures
            r == self@.first_fault(),
    {
        first(
            self.fault,
            first(
                self.gpu.fault(),
                first(self.dma.fault(), first(self.cd.fault(), self.spu.fault())),
            ),
        )
    }

    /// The GPU.
    pub fn gpu(&self) -> (gpu: &GPU)
        ensures
            gpu@ == self@.gpu,
            self.wf() ==> gpu.wf(),
    {
        &self.gpu
    }

    /// The GPU, for the caller to drive.
    pub fn gpu_mut(&mut self) -> (gpu: &mut GPU)
        ensures
            gpu@ == old(self)@.gpu,
            old(self).wf() ==> gpu.wf(),
            final(self)@ == (MemoryState { gpu: final(gpu)@, ..old(self)@ }),
            old(self).wf() && final(gpu).wf() ==> final(self).wf(),
    {
        &mut self.gpu
    }

    /// The interrupt controller.
    pub fn interrupt_controller(&self) -> (controller: InterruptController)
        ensures
            controller == self@.irq,
    {
        self.interrupt_controller
    }

    /// Whether an unmasked interrupt is pending.
    pub fn interrupt_pending(&self) -> (r: bool)
        ensures
            r == self@.irq.spec_pending(),
    {
        self.interrupt_controller.pending(false)
    }

    /// Raises the interrupt of `request`, as a device would.
    pub fn request_interrupt(&mut self, request: InterruptRequest)
        requires
            old(self).wf(),
        ensures
            final(self).wf(),
            final(self)@ == (MemoryState { irq: old(self)@.irq.spec_request(request), ..old(self)@ }),
    {
        self.interrupt_controller.request(request);
    }

    pub fn read8(&mut self, addr: u32) -> (r: u8)
        requires
            old(self).wf(),
        ensures
            final(self).wf(),
            (final(self)@, r) == old(self)@.read8(addr),
    {
        reveal(MemoryState::read8);
        match decode(addr, 1) {
            Region::Ram(offset) => self.ram.read8(offset),
            Region::Expansion1 => 0xFF,  // fake license check
            Region::Scratchpad(offset) => self.scratchpad.read8(offset),
            Region::Cdrom(offset) => self.cd.read8(offset),
            Region::Bios(offset) => {
                let value = self.bios.read::<u8>(offset);
                assert(value == self.bios@[offset as int]);
                value
            },
            _ => 0,
        }
    }

    pub fn read16(&self, addr: u32) -> (r: u16)
        requires
            self.wf(),
        ensures
            r == self@.read16(addr),
    {
        match decode(addr, 2) {
            Region::Ram(offset) => self.ram.read16(offset),
            Region::Expansion1 => 0xFF,
            Region::Scratchpad(offset) => self.scratchpad.read16(offset),
            Region::Io => 0xFFFF,
            Region::IrqStatus => self.interrupt_controller.read_status(),
            Region::IrqMask => self.interrupt_controller.read_mask(),
            Region::Spu(offset) => self.spu.read16(offset),
            Region::Bios(offset) => self.bios.read::<u16>(offset),
            _ => 0,
        }
    }

    pub fn read(&mut self, addr: u32) -> (r: u32)
        requires
            old(self).wf(),
        ensures
            final(self).wf(),
            (final(self)@, r) == old(self)@.read32(addr),
    {
        reveal(MemoryState::read32);
        match decode(addr, 4) {
            Region::Ram(offset) => self.ram.read32(offset),
            Region::Expansion1 => 0xFF,
            Region::Scratchpad(offset) => self.scratchpad.read32(offset),
            Region::IrqStatus => self.interrupt_controller.read_status() as u32,
            Region::IrqMask => self.interrupt_controller.read_mask() as u32,
            Region::Dma(offset) => self.dma.read(offset),
            Region::GpuData => self.gpu.read(),
            Region::GpuStatus => self.gpu.status(),
            Region::Bios(offset) => self.bios.read::<u32>(offset),
            _ => 0,
        }
    }

    pub fn write8(&mut self, addr: u32, val: u8)
        requires
            old(self).wf(),
        ensures
            final(self).wf(),
            final(self)@ == old(self)@.write8(addr, val),
    {
        reveal(MemoryState::write8);
        match decode(addr, 1) {
            Region::Ram(offset) => self.ram.write8(offset, val),
            Region::Scratchpad(offset) => self.scratchpad.write8(offset, val),
            Region::Cdrom(offset) => self.cd.write8(offset, val, &mut self.interrupt_controller),
            Region::Spu(offset) => self.spu.write8(offset, val),
            Region::MemoryControl1
            | Region::Io
            | Region::MemoryControl2
            | Region::Timers
            | Region::Expansion2
            | Region::CacheControl => {},
            _ => {
                self.fault = latch(self.fault, Fault::UnmappedWrite { address: addr, width: 1 });
            },
        }
    }

    pub fn write16(&mut self, addr: u32, val: u16)
        requires
            old(self).wf(),
        ensures
            final(self).wf(),
            final(self)@ == old(self)@.write16(addr, val),
    {
        reveal(MemoryState::write16);
        match decode(addr, 2) {
            Region::Ram(offset) => self.ram.write16(offset, val),
            Region::Scratchpad(offset) => self.scratchpad.write16(offset, val),
            Region::IrqStatus => self.interrupt_controller.write_status(val),
            Region::IrqMask => self.interrupt_controller.write_mask(val),
            Region::Spu(offset) => self.spu.write16(offset, val),
            Region::MemoryControl1
            | Region::Io
            | Region::MemoryControl2
            | Region::Timers
            | Region::Expansion2
            | Region::CacheControl => {},
            _ => {
                self.fault = latch(self.fault, Fault::UnmappedWrite { address: addr, width: 2 });
            },
        }
    }

    pub fn write(&mut self, addr: u32, val: u32)
        requires
            old(self).wf(),
        ensures
            final(self).wf(),
            final(self)@ == old(self)@.write32(addr, val),
    {
        reveal(MemoryState::write32);
        match decode(addr, 4) {
            Region::Ram(offset) => self.ram.write32(offset, val),
            Region::Scratchpad(offset) => self.scratchpad.write32(offset, val),
            Region::IrqStatus => self.interrupt_controller.write_status(
                #[verifier::truncate]
                (val as u16),
            ),
            Region::IrqMask => self.interrupt_controller.write_mask(
                #[verifier::truncate]
                (val as u16),
            ),
            Region::Dma(offset) => self.dma.write(offset, val, &mut self.ram, &mut self.gpu),
            Region::GpuData => self.gpu.gp0(val),
            Region::GpuStatus => self.gpu.gp1(val),
            Region::Spu(offset) => self.spu.write32(offset, val),
            Region::MemoryControl1
            | Region::Io
            | Region::MemoryControl2
            | Region::Timers
            | Region::Expansion2
            | Region::CacheControl => {},
            _ => {
                self.fault = latch(self.fault, Fault::UnmappedWrite { address: addr, width: 4 });
            },
        }
    }
}

} // verus!
