//! The address decoder: which device answers at an address.

use vstd::prelude::*;
use crate::bios::BIOS_SIZE;
use crate::ram::RAM_SIZE;
use crate::scratchpad::SCRATCHPAD_SIZE;

verus! {

/// The device that answers an access, with the offset into it where it has
/// more than one place.
#[derive(Debug, Copy, Clone, PartialEq, Eq, Structural)]
pub enum Region {
    Ram(u32),
    Expansion1,
    Scratchpad(u32),
    MemoryControl1,
    Io,
    MemoryControl2,
    IrqStatus,
    IrqMask,
    Dma(u32),
    Timers,
    Cdrom(u32),
    GpuData,
    GpuStatus,
    Spu(u32),
    Expansion2,
    Bios(u32),
    CacheControl,
    Unmapped,
}

/// The physical address behind a virtual one: the two kernel segments that
/// mirror the low 512 MiB lose their base; any other address stays.
pub open spec fn spec_physical(address: u32) -> u32 {
    if 0x8000_0000 <= address < 0xA000_0000 {
        (address - 0x8000_0000) as u32
    } else if 0xA000_0000 <= address < 0xC000_0000 {
        (address - 0xA000_0000) as u32
    } else {
        address
    }
}

/// Whether an access of `width` bytes at `address` lies inside the window of
/// `size` bytes at `base`.
pub open spec fn within(address: u32, width: u32, base: u32, size: u32) -> bool {
    base <= address && address + width <= base + size
}

/// The device that answers an access of `width` bytes at the virtual address
/// `address`.
pub open spec fn spec_decode(address: u32, width: u32) -> Region {
    let p = spec_physical(address);
    if within(p, width, 0, RAM_SIZE as u32) {
        Region::Ram(p)
    } else if within(p, width, 0x1F00_0000, 0x80_0000) {
        Region::Expansion1
    } else if within(p, width, 0x1F80_0000, SCRATCHPAD_SIZE as u32) {
        Region::Scratchpad((p - 0x1F80_0000) as u32)
    } else if 0x1F80_1000 <= p <= 0x1F80_1024 {
        Region::MemoryControl1
    } else if 0x1F80_1040 <= p <= 0x1F80_105F {
        Region::Io
    } else if p == 0x1F80_1060 {
        Region::MemoryControl2
    } else if p == 0x1F80_1070 {
        Region::IrqStatus
    } else if p == 0x1F80_1074 {
        Region::IrqMask
    } else if 0x1F80_1080 <= p <= 0x1F80_10FF {
        Region::Dma((p - 0x1F80_1080) as u32)
    } else if 0x1F80_1100 <= p <= 0x1F80_112F {
        Region::Timers
    } else if 0x1F80_1800 <= p <= 0x1F80_1803 {
        Region::Cdrom((p - 0x1F80_1800) as u32)
    } else if p == 0x1F80_1810 {
        Region::GpuData
    } else if p == 0x1F80_1814 {
        Region::GpuStatus
    } else if 0x1F80_1C00 <= p <= 0x1F80_1E80 {
        Region::Spu((p - 0x1F80_1C00) as u32)
    } else if 0x1F80_2000 <= p <= 0x1F80_2042 {
        Region::Expansion2
    } else if within(p, width, 0x1FC0_0000, BIOS_SIZE as u32) {
        Region::Bios((p - 0x1FC0_0000) as u32)
    } else if p == 0xFFFE_0130 {
        Region::CacheControl
    } else {
        Region::Unmapped
    }
}

/// Whether the access lies inside the window.
fn inside(address: u32, width: u32, base: u32, size: u32) -> (r: bool)
    requires
        width <= 4,
        base + size <= u32::MAX,
    ensures
        r == within(address, width, base, size),
{
    base <= address && address - base <= size && width <= size - (address - base)
}

#[verifier::when_used_as_spec(spec_physical)]
pub fn physical(address: u32) -> (p: u32)
    ensures
        p == spec_physical(address),
{
    if 0x8000_0000 <= address && address < 0xA000_0000 {
        address - 0x8000_0000
    } else if 0xA000_0000 <= address && address < 0xC000_0000 {
        address - 0xA000_0000
    } else {
        address
    }
}

/// Finds the device that answers an access of `width` bytes at `address`.
/// An offset into RAM, the scratchpad or the BIOS leaves room for the whole
/// access.
#[verifier::when_used_as_spec(spec_decode)]
pub fn decode(address: u32, width: u32) -> (r: Region)
    requires
        width == 1 || width == 2 || width == 4,
    ensures
        r == spec_decode(address, width),
        r matches Region::Ram(offset) ==> offset + width <= RAM_SIZE,
        r matches Region::Scratchpad(offset) ==> offset + width <= SCRATCHPAD_SIZE,
        r matches Region::Bios(offset) ==> offset + width <= BIOS_SIZE,
        r matches Region::Dma(offset) ==> offset <= 0x7F,
        r matches Region::Cdrom(offset) ==> offset <= 3,
        r matches Region::Spu(offset) ==> offset <= 0x280,
{
    let p = physical(address);
    if inside(p, width, 0, RAM_SIZE as u32) {
        Region::Ram(p)
    } else if inside(p, width, 0x1F00_0000, 0x80_0000) {
        Region::Expansion1
    } else if inside(p, width, 0x1F80_0000, SCRATCHPAD_SIZE as u32) {
        Region::Scratchpad(p - 0x1F80_0000)
    } else if 0x1F80_1000 <= p && p <= 0x1F80_1024 {
        Region::MemoryControl1
    } else if 0x1F80_1040 <= p && p <= 0x1F80_105F {
        Region::Io
    } else if p == 0x1F80_1060 {
        Region::MemoryControl2
    } else if p == 0x1F80_1070 {
        Region::IrqStatus
    } else if p == 0x1F80_1074 {
        Region::IrqMask
    } else if 0x1F80_1080 <= p && p <= 0x1F80_10FF {
        Region::Dma(p - 0x1F80_1080)
    } else if 0x1F80_1100 <= p && p <= 0x1F80_112F {
        Region::Timers
    } else if 0x1F80_1800 <= p && p <= 0x1F80_1803 {
        Region::Cdrom(p - 0x1F80_1800)
    } else if p == 0x1F80_1810 {
        Region::GpuData
    } else if p == 0x1F80_1814 {
        Region::GpuStatus
    } else if 0x1F80_1C00 <= p && p <= 0x1F80_1E80 {
        Region::Spu(p - 0x1F80_1C00)
    } else if 0x1F80_2000 <= p && p <= 0x1F80_2042 {
        Region::Expansion2
    } else if inside(p, width, 0x1FC0_0000, BIOS_SIZE as u32) {
        Region::Bios(p - 0x1FC0_0000)
    } else if p == 0xFFFE_0130 {
        Region::CacheControl
    } else {
        Region::Unmapped
    }
}

} // verus!
