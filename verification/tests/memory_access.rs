use psx::bios::BIOS;
use psx::bus::{decode, physical, Region};
use psx::fault::Fault;
use psx::interrupt_controller::InterruptRequest;
use psx::memory::{Addressable, Memory};
use psx::memory_segment::MemorySegment;
use psx::ram::RAM;
use psx::scratchpad::Scratchpad;

fn bios_with(words: &[u32]) -> BIOS {
    let mut data = vec![0u8; 512 * 1024];
    for (i, word) in words.iter().enumerate() {
        data[i * 4..i * 4 + 4].copy_from_slice(&word.to_le_bytes());
    }
    BIOS::new(data).unwrap()
}

#[test]
fn widths_of_the_three_types() {
    assert_eq!(<u8 as Addressable>::width(), 1);
    assert_eq!(<u16 as Addressable>::width(), 2);
    assert_eq!(<u32 as Addressable>::width(), 4);
    assert_eq!(<u8 as Addressable>::from_u32(0x1234_5678), 0x78);
    assert_eq!(<u16 as Addressable>::from_u32(0x1234_5678), 0x5678);
    assert_eq!(<u32 as Addressable>::from_u32(0x1234_5678), 0x1234_5678);
    assert_eq!(0xABu8.as_u32(), 0xAB);
    assert_eq!(0xABCDu16.as_u32(), 0xABCD);
}

#[test]
fn segment_is_little_endian() {
    let mut segment = MemorySegment::new(16);
    assert_eq!(segment.len(), 16);
    segment.write::<u32>(4, 0xDEAD_BEEF);
    assert_eq!(segment.read::<u8>(4), 0xEF);
    assert_eq!(segment.read::<u8>(5), 0xBE);
    assert_eq!(segment.read::<u8>(6), 0xAD);
    assert_eq!(segment.read::<u8>(7), 0xDE);
    assert_eq!(segment.read::<u16>(4), 0xBEEF);
    assert_eq!(segment.read::<u16>(6), 0xDEAD);
    assert_eq!(segment.read::<u32>(4), 0xDEAD_BEEF);
    assert_eq!(segment.read::<u32>(0), 0);
    assert_eq!(segment.read::<u32>(8), 0);
}

#[test]
fn segment_write_touches_only_its_bytes() {
    let mut segment = MemorySegment::from_buffer(vec![0x11; 8]);
    segment.write::<u16>(3, 0xA55A);
    assert_eq!(segment.read::<u32>(0), 0x5A11_1111);
    assert_eq!(segment.read::<u32>(4), 0x1111_11A5);
    segment.write::<u8>(0, 0xFF);
    assert_eq!(segment.read::<u32>(0), 0x5A11_11FF);
}

#[test]
fn word_is_made_of_its_bytes() {
    let mut ram = RAM::new();
    ram.write32(0x100, 0x0403_0201);
    let word = ram.read32(0x100);
    let bytes = (ram.read8(0x100) as u32)
        | (ram.read8(0x101) as u32) << 8
        | (ram.read8(0x102) as u32) << 16
        | (ram.read8(0x103) as u32) << 24;
    assert_eq!(word, bytes);
    assert_eq!(word, 0x0403_0201);
    assert_eq!(ram.read16(0x100), 0x0201);
    assert_eq!(ram.read16(0x102), 0x0403);
    ram.write16(0x102, 0xBBAA);
    ram.write8(0x100, 0x99);
    assert_eq!(ram.read32(0x100), 0xBBAA_0299);
}

#[test]
fn scratchpad_round_trip() {
    let mut pad = Scratchpad::new();
    pad.write32(0x3FC, 0x1122_3344);
    assert_eq!(pad.read32(0x3FC), 0x1122_3344);
    assert_eq!(pad.read16(0x3FE), 0x1122);
    assert_eq!(pad.read8(0x3FC), 0x44);
    pad.write16(0, 0xBEEF);
    pad.write8(2, 0x7F);
    assert_eq!(pad.read32(0), 0x007F_BEEF);
}

#[test]
fn bios_must_have_its_size() {
    assert!(BIOS::new(vec![0; 512 * 1024]).is_some());
    assert!(BIOS::new(vec![0; 512 * 1024 - 1]).is_none());
    assert!(BIOS::new(vec![0; 512 * 1024 + 1]).is_none());
    assert!(BIOS::new(Vec::new()).is_none());
    let bios = bios_with(&[0x3C01_1234, 0xAABB_CCDD]);
    assert_eq!(bios.read::<u32>(0), 0x3C01_1234);
    assert_eq!(bios.read::<u16>(4), 0xCCDD);
    assert_eq!(bios.read::<u8>(7), 0xAA);
}

#[test]
fn kernel_segments_lose_their_base() {
    assert_eq!(physical(0x0000_1000), 0x0000_1000);
    assert_eq!(physical(0x8000_1000), 0x0000_1000);
    assert_eq!(physical(0xA000_1000), 0x0000_1000);
    assert_eq!(physical(0xBFC0_0000), 0x1FC0_0000);
    assert_eq!(physical(0x9FC0_0000), 0x1FC0_0000);
    assert_eq!(physical(0xFFFE_0130), 0xFFFE_0130);
    assert_eq!(physical(0x7FFF_FFFF), 0x7FFF_FFFF);
}

#[test]
fn decode_follows_the_map() {
    assert_eq!(decode(0x0000_0000, 4), Region::Ram(0));
    assert_eq!(decode(0x001F_FFFC, 4), Region::Ram(0x1F_FFFC));
    assert_eq!(decode(0x001F_FFFD, 4), Region::Unmapped);
    assert_eq!(decode(0x001F_FFFF, 1), Region::Ram(0x1F_FFFF));
    assert_eq!(decode(0x0020_0000, 1), Region::Unmapped);
    assert_eq!(decode(0x8001_0000, 2), Region::Ram(0x1_0000));
    assert_eq!(decode(0xA001_0000, 1), Region::Ram(0x1_0000));
    assert_eq!(decode(0x1F00_0000, 1), Region::Expansion1);
    assert_eq!(decode(0x1F7F_FFFF, 1), Region::Expansion1);
    assert_eq!(decode(0x1F80_0000, 4), Region::Scratchpad(0));
    assert_eq!(decode(0x1F80_03FF, 1), Region::Scratchpad(0x3FF));
    assert_eq!(decode(0x1F80_0400, 1), Region::Unmapped);
    assert_eq!(decode(0x1F80_1000, 4), Region::MemoryControl1);
    assert_eq!(decode(0x1F80_1024, 4), Region::MemoryControl1);
    assert_eq!(decode(0x1F80_1040, 2), Region::Io);
    assert_eq!(decode(0x1F80_105F, 1), Region::Io);
    assert_eq!(decode(0x1F80_1060, 4), Region::MemoryControl2);
    assert_eq!(decode(0x1F80_1070, 2), Region::IrqStatus);
    assert_eq!(decode(0x1F80_1074, 2), Region::IrqMask);
    assert_eq!(decode(0x1F80_1080, 4), Region::Dma(0));
    assert_eq!(decode(0x1F80_10FF, 1), Region::Dma(0x7F));
    assert_eq!(decode(0x1F80_1100, 2), Region::Timers);
    assert_eq!(decode(0x1F80_112F, 1), Region::Timers);
    assert_eq!(decode(0x1F80_1800, 1), Region::Cdrom(0));
    assert_eq!(decode(0x1F80_1803, 1), Region::Cdrom(3));
    assert_eq!(decode(0x1F80_1810, 4), Region::GpuData);
    assert_eq!(decode(0x1F80_1814, 4), Region::GpuStatus);
    assert_eq!(decode(0x1F80_1C00, 2), Region::Spu(0));
    assert_eq!(decode(0x1F80_1E80, 2), Region::Spu(0x280));
    assert_eq!(decode(0x1F80_2000, 1), Region::Expansion2);
    assert_eq!(decode(0x1F80_2042, 1), Region::Expansion2);
    assert_eq!(decode(0xBFC0_0000, 4), Region::Bios(0));
    assert_eq!(decode(0xBFC7_FFFC, 4), Region::Bios(0x7_FFFC));
    assert_eq!(decode(0xBFC8_0000, 1), Region::Unmapped);
    assert_eq!(decode(0xFFFE_0130, 4), Region::CacheControl);
    assert_eq!(decode(0x1F80_1804, 1), Region::Unmapped);
    assert_eq!(decode(0x4000_0000, 4), Region::Unmapped);
}

#[test]
fn ram_is_mirrored_three_times() {
    let mut mem = Memory::new(bios_with(&[]));
    mem.write(0x0000_2000, 0xCAFE_F00D);
    assert_eq!(mem.read(0x0000_2000), 0xCAFE_F00D);
    assert_eq!(mem.read(0x8000_2000), 0xCAFE_F00D);
    assert_eq!(mem.read(0xA000_2000), 0xCAFE_F00D);
    mem.write16(0x8000_2002, 0x1234);
    assert_eq!(mem.read(0xA000_2000), 0x1234_F00D);
    mem.write8(0xA000_2000, 0xAA);
    assert_eq!(mem.read16(0x0000_2000), 0xF0AA);
    assert_eq!(mem.read8(0x8000_2003), 0x12);
    assert_eq!(mem.fault(), None);
}

#[test]
fn word_load_equals_four_byte_loads_on_the_bus() {
    let mut mem = Memory::new(bios_with(&[]));
    mem.write(0x8000_0040, 0x89AB_CDEF);
    let word = mem.read(0x8000_0040);
    let bytes = (mem.read8(0x8000_0040) as u32)
        | (mem.read8(0x8000_0041) as u32) << 8
        | (mem.read8(0x8000_0042) as u32) << 16
        | (mem.read8(0x8000_0043) as u32) << 24;
    assert_eq!(word, bytes);
}

#[test]
fn bios_is_read_only() {
    let mut mem = Memory::new(bios_with(&[0x1111_2222]));
    assert_eq!(mem.read(0xBFC0_0000), 0x1111_2222);
    assert_eq!(mem.read16(0xBFC0_0002), 0x1111);
    assert_eq!(mem.read8(0xBFC0_0000), 0x22);
    mem.write(0xBFC0_0000, 0);
    assert_eq!(mem.read(0xBFC0_0000), 0x1111_2222);
    assert_eq!(mem.fault(), Some(Fault::UnmappedWrite { address: 0xBFC0_0000, width: 4 }));
}

#[test]
fn unmapped_store_is_a_fault_and_the_first_is_kept() {
    let mut mem = Memory::new(bios_with(&[]));
    assert_eq!(mem.fault(), None);
    mem.write8(0x4000_0000, 1);
    assert_eq!(mem.fault(), Some(Fault::UnmappedWrite { address: 0x4000_0000, width: 1 }));
    mem.write16(0x5000_0000, 1);
    assert_eq!(mem.fault(), Some(Fault::UnmappedWrite { address: 0x4000_0000, width: 1 }));
}

#[test]
fn unmapped_load_reads_zero() {
    let mut mem = Memory::new(bios_with(&[]));
    assert_eq!(mem.read(0x4000_0000), 0);
    assert_eq!(mem.read16(0x4000_0000), 0);
    assert_eq!(mem.read8(0x4000_0000), 0);
    assert_eq!(mem.fault(), None);
}

#[test]
fn expansion_one_reads_ff() {
    let mut mem = Memory::new(bios_with(&[]));
    assert_eq!(mem.read8(0x1F00_0084), 0xFF);
    assert_eq!(mem.read16(0x1F00_0084), 0xFF);
    assert_eq!(mem.read(0x1F00_0084), 0xFF);
}

#[test]
fn ignored_stores_leave_no_fault() {
    let mut mem = Memory::new(bios_with(&[]));
    mem.write(0x1F80_1000, 0x1F00_0000);
    mem.write(0x1F80_1024, 1);
    mem.write(0x1F80_1060, 0xB88);
    mem.write16(0x1F80_1100, 1);
    mem.write(0x1F80_112C, 1);
    mem.write8(0x1F80_2041, 1);
    mem.write8(0x1F80_1040, 1);
    mem.write16(0x1F80_104A, 1);
    mem.write(0xFFFE_0130, 0x0001_E988);
    assert_eq!(mem.fault(), None);
    assert_eq!(mem.read16(0x1F80_1044), 0xFFFF);
}

#[test]
fn interrupt_registers_on_the_bus() {
    let mut mem = Memory::new(bios_with(&[]));
    mem.request_interrupt(InterruptRequest::VBlank);
    mem.request_interrupt(InterruptRequest::DMA);
    assert_eq!(mem.read16(0x1F80_1070), 0b1001);
    assert_eq!(mem.read(0x1F80_1070), 0b1001);
    assert!(!mem.interrupt_pending());
    mem.write16(0x1F80_1074, 0b1000);
    assert_eq!(mem.read16(0x1F80_1074), 0b1000);
    assert!(mem.interrupt_pending());
    mem.write(0x1F80_1070, 0b0001);
    assert_eq!(mem.read16(0x1F80_1070), 0b0001);
    assert!(!mem.interrupt_pending());
    assert_eq!(mem.interrupt_controller().read_mask(), 0b1000);
}

#[test]
fn scratchpad_on_the_bus() {
    let mut mem = Memory::new(bios_with(&[]));
    mem.write(0x1F80_0010, 0x0102_0304);
    assert_eq!(mem.read(0x1F80_0010), 0x0102_0304);
    assert_eq!(mem.read16(0x1F80_0012), 0x0102);
    assert_eq!(mem.read8(0x1F80_0010), 0x04);
    assert_eq!(mem.read(0x0000_0010), 0);
}

#[test]
fn gpu_ports_on_the_bus() {
    let mut mem = Memory::new(bios_with(&[]));
    mem.write(0x1F80_1814, 0x0000_0000);
    assert_eq!(mem.read(0x1F80_1814), 0x9C80_2000);
    mem.write(0x1F80_1810, 0xE300_0C05);
    assert_eq!(mem.gpu().registers().settings.drawing_area_left, 5);
    assert_eq!(mem.gpu().registers().settings.drawing_area_top, 3);
    mem.write(0x1F80_1814, 0x1000_0003);
    assert_eq!(mem.read(0x1F80_1810), 0x0C05);
}
