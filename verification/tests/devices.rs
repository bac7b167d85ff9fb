use psx::bios::BIOS;
use psx::cdrom::CDROM;
use psx::fault::{first, latch, Fault};
use psx::interrupt_controller::InterruptController;
use psx::memory::Memory;
use psx::spu::{Status, SPU};

#[test]
fn cdrom_status_follows_the_parameter_fifo() {
    let mut cd = CDROM::new();
    let mut irq = InterruptController::new();
    // Not full, empty, index 0.
    assert_eq!(cd.read8(0), 0b1_1000);
    cd.write8(0, 0xFF, &mut irq);
    assert_eq!(cd.read8(0), 0b1_1011);
    cd.write8(0, 0, &mut irq);
    cd.write8(2, 0x20, &mut irq);
    assert_eq!(cd.read8(0), 0b1_0000);
    for _ in 0..15 {
        cd.write8(2, 0, &mut irq);
    }
    // Full.
    assert_eq!(cd.read8(0), 0b0_0000);
    assert_eq!(cd.fault(), None);
}

#[test]
fn cdrom_version_query() {
    let mut cd = CDROM::new();
    let mut irq = InterruptController::new();
    cd.write8(2, 0x20, &mut irq);
    cd.write8(1, 0x19, &mut irq);
    assert_eq!(cd.read8(1), 0x94);
    assert_eq!(cd.read8(1), 0x09);
    assert_eq!(cd.read8(1), 0x19);
    assert_eq!(cd.read8(1), 0xC0);
    // An empty response FIFO reads as zero.
    assert_eq!(cd.read8(1), 0);
    assert_eq!(cd.read8(2), 0);
    // The flag reads at index 1.
    cd.write8(0, 1, &mut irq);
    assert_eq!(cd.read8(3), 3);
    // Interrupts were not enabled.
    assert_eq!(irq.read_status(), 0);
    // Writing the flag bits as 1 clears them.
    cd.write8(3, 0x01, &mut irq);
    assert_eq!(cd.read8(3), 2);
    assert_eq!(cd.fault(), None);
}

#[test]
fn cdrom_command_raises_its_interrupt_when_enabled() {
    let mut cd = CDROM::new();
    let mut irq = InterruptController::new();
    cd.write8(0, 1, &mut irq);
    cd.write8(2, 0x1F, &mut irq);
    cd.write8(0, 0, &mut irq);
    assert_eq!(cd.read8(3), 0x1F);
    cd.write8(2, 0x20, &mut irq);
    cd.write8(1, 0x19, &mut irq);
    assert_eq!(irq.read_status(), 1 << 2);
}

#[test]
fn cdrom_parameter_fifo_drops_the_oldest() {
    let mut cd = CDROM::new();
    let mut irq = InterruptController::new();
    // Seventeen parameters: the first leaves, the version query is now first.
    cd.write8(2, 0x77, &mut irq);
    cd.write8(2, 0x20, &mut irq);
    for _ in 0..15 {
        cd.write8(2, 0, &mut irq);
    }
    cd.write8(1, 0x19, &mut irq);
    assert_eq!(cd.fault(), None);
    assert_eq!(cd.read8(1), 0x94);
}

#[test]
fn cdrom_faults() {
    let mut irq = InterruptController::new();
    let mut cd = CDROM::new();
    cd.write8(1, 0x01, &mut irq);
    assert_eq!(cd.fault(), Some(Fault::CdromCommand { command: 0x01 }));
    let mut cd = CDROM::new();
    cd.write8(1, 0x19, &mut irq);
    assert_eq!(cd.fault(), Some(Fault::CdromTest));
    let mut cd = CDROM::new();
    cd.write8(2, 0x21, &mut irq);
    cd.write8(1, 0x19, &mut irq);
    assert_eq!(cd.fault(), Some(Fault::CdromTest));
    // The parameter stays, as the command was dropped.
    assert_eq!(cd.read8(0), 0b1_0000);
    let mut cd = CDROM::new();
    cd.write8(4, 0, &mut irq);
    assert_eq!(cd.fault(), Some(Fault::CdromRegister { offset: 4 }));
    assert_eq!(irq.read_status(), 0);
}

#[test]
fn cdrom_writes_at_other_indices_are_ignored() {
    let mut cd = CDROM::new();
    let mut irq = InterruptController::new();
    for index in 1..4 {
        cd.write8(0, index, &mut irq);
        cd.write8(1, 0xAB, &mut irq);
    }
    cd.write8(0, 2, &mut irq);
    cd.write8(2, 0xAB, &mut irq);
    cd.write8(3, 0xAB, &mut irq);
    assert_eq!(cd.fault(), None);
    assert_eq!(cd.read8(0), 0b1_1010);
}

#[test]
fn cdrom_on_the_bus() {
    let mut mem = Memory::new(BIOS::new(vec![0u8; 512 * 1024]).unwrap());
    mem.write8(0x1F80_1800, 1);
    mem.write8(0x1F80_1802, 0x1F);
    mem.write8(0x1F80_1800, 0);
    mem.write8(0x1F80_1802, 0x20);
    mem.write8(0x1F80_1801, 0x19);
    assert_eq!(mem.read8(0x1F80_1801), 0x94);
    assert_eq!(mem.read16(0x1F80_1070), 1 << 2);
    assert_eq!(mem.fault(), None);
    mem.write8(0x1F80_1801, 0x02);
    assert_eq!(mem.fault(), Some(Fault::CdromCommand { command: 0x02 }));
}

#[test]
fn spu_registers() {
    let mut spu = SPU::new();
    spu.write16(0x180, 0x1111);
    spu.write16(0x182, 0x2222);
    spu.write16(0x1A4, 0x3333);
    spu.write16(0x1A6, 0x4444);
    spu.write16(0x1AC, 0x0004);
    spu.write16(0x1B0, 0x5555);
    spu.write16(0x1B6, 0x6666);
    let regs = spu.registers();
    assert_eq!(regs.volume_main_left, 0x1111);
    assert_eq!(regs.volume_main_right, 0x2222);
    assert_eq!(regs.address_irq, 0x3333);
    assert_eq!(regs.address_transfer, 0x4444);
    assert_eq!(regs.volume_cd_left, 0x5555);
    assert_eq!(regs.volume_extern_right, 0x6666);
    assert_eq!(spu.read16(0x1AC), 0x0004);
    assert_eq!(spu.fault(), None);
}

#[test]
fn spu_control_shows_in_the_status() {
    let mut spu = SPU::new();
    spu.write16(0x1AA, 0xC0FF);
    assert_eq!(spu.read16(0x1AA), 0xC0FF);
    assert_eq!(spu.read16(0x1AE), 0x003F);
    spu.write16(0x1AA, 0x8021);
    assert_eq!(spu.read16(0x1AE), 0x0021);
    // The status is read-only.
    spu.write16(0x1AE, 0xFFFF);
    assert_eq!(spu.read16(0x1AE), 0x0021);
    assert_eq!(Status(0xFFC0).set_mode(0xFF).0, 0xFFFF);
    assert_eq!(Status(0xFFFF).set_mode(0).0, 0xFFC0);
    assert_eq!(Status(0xFFE1).mode(), 0x21);
    assert_eq!(spu.fault(), None);
}

#[test]
fn spu_voices_on_and_off() {
    let mut spu = SPU::new();
    spu.write16(0x188, 0x00FF);
    spu.write16(0x18A, 0x0003);
    assert_eq!(spu.read16(0x188), 0x00FF);
    assert_eq!(spu.read16(0x18A), 0x0003);
    assert_eq!(spu.registers().voice_on, 0x0003_00FF);
    assert_eq!(spu.registers().channel_status, 0x0003_00FF);
    spu.write16(0x18C, 0x000F);
    assert_eq!(spu.read16(0x18C), 0x000F);
    assert_eq!(spu.registers().channel_status, 0x0003_0000);
    spu.write16(0x18E, 0x0001);
    assert_eq!(spu.read16(0x18E), 0x0001);
    assert_eq!(spu.registers().voice_off, 0x0001_000F);
    assert_eq!(spu.registers().channel_status, 0);
}

#[test]
fn spu_channel_words_take_their_high_half_first() {
    let mut spu = SPU::new();
    spu.write16(0x190, 0xAAAA);
    spu.write16(0x192, 0xBBBB);
    spu.write16(0x194, 0x1111);
    spu.write16(0x19A, 0x2222);
    assert_eq!(spu.registers().channel_pitch, 0xAAAA_BBBB);
    assert_eq!(spu.registers().channel_noise, 0x1111_0000);
    assert_eq!(spu.registers().channel_reverb, 0x0000_2222);
}

#[test]
fn spu_voice_and_reverb_files() {
    let mut spu = SPU::new();
    spu.write16(0x000, 0x0101);
    spu.write16(0x17C, 0x0202);
    spu.write16(0x1C0, 0x0303);
    spu.write16(0x1FF, 0x0404);
    assert_eq!(spu.read16(0x000), 0x0101);
    assert_eq!(spu.read16(0x003), 0x0101);
    assert_eq!(spu.read16(0x17F), 0x0202);
    assert_eq!(spu.read16(0x004), 0);
    assert_eq!(spu.fault(), None);
}

#[test]
fn spu_unknown_registers() {
    let mut spu = SPU::new();
    assert_eq!(spu.read16(0x1A0), 0);
    assert_eq!(spu.read16(0x280), 0);
    assert_eq!(spu.read8(0x1AA), 0);
    assert_eq!(spu.read32(0x1AA), 0);
    // Two registers take writes and keep nothing.
    spu.write16(0x1A2, 1);
    spu.write16(0x1A8, 1);
    assert_eq!(spu.fault(), None);
    spu.write16(0x19C, 1);
    assert_eq!(spu.fault(), Some(Fault::SpuRegister { offset: 0x19C }));
    let mut spu = SPU::new();
    spu.write16(0x181, 1);
    assert_eq!(spu.fault(), Some(Fault::SpuRegister { offset: 0x181 }));
    let mut spu = SPU::new();
    spu.write8(0x1AA, 1);
    assert_eq!(spu.fault(), Some(Fault::SpuRegister { offset: 0x1AA }));
    let mut spu = SPU::new();
    spu.write32(0x180, 1);
    assert_eq!(spu.fault(), Some(Fault::SpuRegister { offset: 0x180 }));
}

#[test]
fn spu_on_the_bus() {
    let mut mem = Memory::new(BIOS::new(vec![0u8; 512 * 1024]).unwrap());
    mem.write16(0x1F80_1DAA, 0x8010);
    assert_eq!(mem.read16(0x1F80_1DAA), 0x8010);
    assert_eq!(mem.read16(0x1F80_1DAE), 0x0010);
    assert_eq!(mem.spu.registers().control.0, 0x8010);
    assert_eq!(mem.read(0x1F80_1DAA), 0);
    assert_eq!(mem.fault(), None);
    mem.write(0x1F80_1D80, 0x3FFF_3FFF);
    assert_eq!(mem.fault(), Some(Fault::SpuRegister { offset: 0x180 }));
}

#[test]
fn first_fault_is_kept() {
    assert_eq!(latch(None, Fault::DmaSyncMode), Some(Fault::DmaSyncMode));
    assert_eq!(latch(Some(Fault::CdromTest), Fault::DmaSyncMode), Some(Fault::CdromTest));
    assert_eq!(first(None, Some(Fault::ReverseFlag)), Some(Fault::ReverseFlag));
    assert_eq!(first(Some(Fault::CdromTest), Some(Fault::ReverseFlag)), Some(Fault::CdromTest));
    assert_eq!(first(None, None), None);
}
