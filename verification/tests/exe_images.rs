use psx::bios::BIOS;
use psx::cpu::CPU;
use psx::exefile::ExeFile;
use psx::fault::Fault;
use psx::memory::Memory;
use psx::psx::PSX;

fn bios_with(words: &[u32]) -> BIOS {
    let mut data = vec![0u8; 512 * 1024];
    for (i, word) in words.iter().enumerate() {
        data[i * 4..i * 4 + 4].copy_from_slice(&word.to_le_bytes());
    }
    BIOS::new(data).unwrap()
}

fn put(data: &mut [u8], offset: usize, word: u32) {
    data[offset..offset + 4].copy_from_slice(&word.to_le_bytes());
}

/// An image with the given header fields and payload.
fn image(pc: u32, gp: u32, destination: u32, fill: (u32, u32), stack: (u32, u32), payload: &[u8]) -> Vec<u8> {
    let mut data = vec![0u8; 0x800];
    data[0..8].copy_from_slice(b"PS-X EXE");
    put(&mut data, 0x10, pc);
    put(&mut data, 0x14, gp);
    put(&mut data, 0x18, destination);
    put(&mut data, 0x1C, payload.len() as u32);
    put(&mut data, 0x28, fill.0);
    put(&mut data, 0x2C, fill.1);
    put(&mut data, 0x30, stack.0);
    put(&mut data, 0x34, stack.1);
    data.extend_from_slice(payload);
    data
}

#[test]
fn header_fields() {
    let exe = ExeFile::new(image(0x8001_0000, 0x8002_0000, 0x8001_0000, (0x8003_0000, 0x10), (0x801F_0000, 0xFF00), &[1, 2, 3, 4])).unwrap();
    assert_eq!(exe.id(), b"PS-X EXE");
    assert_eq!(exe.pc(), 0x8001_0000);
    assert_eq!(exe.gp(), 0x8002_0000);
    assert_eq!(exe.destination_address(), 0x8001_0000);
    assert_eq!(exe.destination_size(), 4);
    assert_eq!(exe.memfill_address(), 0x8003_0000);
    assert_eq!(exe.memfill_size(), 0x10);
    assert_eq!(exe.sp_address(), 0x801F_0000);
    assert_eq!(exe.sp_size(), 0xFF00);
    assert_eq!(exe.payload_byte(2), 3);
}

#[test]
fn images_that_are_rejected() {
    // Too short for a header.
    assert!(ExeFile::new(vec![0; 0x7FF]).is_none());
    assert!(ExeFile::new(Vec::new()).is_none());
    // No magic.
    assert!(ExeFile::new(vec![0; 0x800]).is_none());
    let mut wrong = image(0, 0, 0, (0, 0), (0, 0), &[]);
    wrong[7] = b'F';
    assert!(ExeFile::new(wrong).is_none());
    // A payload shorter than the header says.
    let mut short = image(0, 0, 0, (0, 0), (0, 0), &[1, 2, 3]);
    put(&mut short, 0x1C, 4);
    assert!(ExeFile::new(short).is_none());
    // An image without payload.
    assert!(ExeFile::new(image(0, 0, 0, (0, 0), (0, 0), &[])).is_some());
}

#[test]
fn load_copies_fills_and_points_the_processor() {
    let exe = ExeFile::new(image(0x8001_0008, 0x1234_5678, 0x8001_0000, (0x8001_0002, 3), (0x801F_0000, 0x100), &[0xA1, 0xA2, 0xA3, 0xA4, 0xA5, 0xA6])).unwrap();
    let mut mem = Memory::new(bios_with(&[]));
    let mut cpu = CPU::new(None);
    mem.write(0x0001_0004, 0xFFFF_FFFF);
    exe.load(&mut cpu, &mut mem);
    // The payload is in place, but for the three bytes that were cleared.
    assert_eq!(mem.read(0x0001_0000), 0x0000_A2A1);
    assert_eq!(mem.read(0x0001_0004), 0xFFFF_A600);
    assert_eq!(cpu.next_pc, 0x8001_0008);
    assert_eq!(cpu.pc, 0xBFC0_0000);
    // The registers show what was written once a step has passed.
    cpu.step(&mut mem);
    assert_eq!(cpu.r[28], 0x1234_5678);
    assert_eq!(cpu.r[29], 0x801F_0100);
    assert_eq!(cpu.r[30], 0x801F_0100);
    assert_eq!(mem.fault(), None);
}

#[test]
fn load_without_stack_leaves_the_stack_registers() {
    let exe = ExeFile::new(image(0x8001_0000, 1, 0x8001_0000, (0, 0), (0, 0x100), &[])).unwrap();
    let mut mem = Memory::new(bios_with(&[]));
    let mut cpu = CPU::new(None);
    cpu.r[29] = 0x55;
    cpu.set_reg(29, 0x55);
    exe.load(&mut cpu, &mut mem);
    cpu.step(&mut mem);
    assert_eq!(cpu.r[28], 1);
    assert_eq!(cpu.r[29], 0x55);
    assert_eq!(cpu.r[30], 0);
}

#[test]
fn load_to_an_unmapped_destination_is_a_fault() {
    let exe = ExeFile::new(image(0, 0, 0x4000_0000, (0, 0), (0, 0), &[1])).unwrap();
    let mut mem = Memory::new(bios_with(&[]));
    let mut cpu = CPU::new(None);
    exe.load(&mut cpu, &mut mem);
    assert_eq!(mem.fault(), Some(Fault::UnmappedWrite { address: 0x4000_0000, width: 1 }));
}

#[test]
fn waiting_image_is_loaded_at_the_shell() {
    // The image holds: ADDIU R1, R0, 42; NOP
    let mut payload = Vec::new();
    payload.extend_from_slice(&0x2401_002Au32.to_le_bytes());
    payload.extend_from_slice(&0u32.to_le_bytes());
    let exe = ExeFile::new(image(0x8001_0000, 0xAB, 0x8001_0000, (0, 0), (0x801F_FF00, 0xF0), &payload)).unwrap();
    let mut psx = PSX::new(bios_with(&[0]), Some(exe));
    // Nothing is loaded before the shell is reached.
    psx.step();
    assert_eq!(psx.mem.read(0x0001_0000), 0);
    psx.cpu.pc = 0x8003_0000;
    psx.cpu.next_pc = 0x8003_0004;
    // The instruction at the shell's entry still runs; the one after it is
    // the entry of the image.
    psx.step();
    assert_eq!(psx.mem.read(0x0001_0000), 0x2401_002A);
    assert_eq!(psx.cpu.pc, 0x8001_0000);
    assert_eq!(psx.cpu.r[28], 0xAB);
    assert_eq!(psx.cpu.r[29], 0x801F_FFF0);
    assert_eq!(psx.cpu.r[30], 0x801F_FFF0);
    psx.step();
    assert_eq!(psx.cpu.r[1], 42);
    // The image is loaded once.
    psx.mem.write(0x0001_0000, 0);
    psx.cpu.pc = 0x8003_0000;
    psx.cpu.next_pc = 0x8003_0004;
    psx.step();
    assert_eq!(psx.mem.read(0x0001_0000), 0);
    assert_eq!(psx.cpu.pc, 0x8003_0004);
}
