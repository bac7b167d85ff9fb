use psx::bios::BIOS;
use psx::dma::{first_slot, next_slot, IrqRegisters, DMA};
use psx::dma_channel::{Channel, Port, SyncMode, TransferDirection};
use psx::fault::Fault;
use psx::gpu::GPU;
use psx::memory::Memory;
use psx::ram::RAM;
use psx::renderer::{Color, Position, Vertex};

const DMA_BASE: u32 = 0x1F80_1080;

fn memory() -> Memory {
    Memory::new(BIOS::new(vec![0u8; 512 * 1024]).unwrap())
}

#[test]
fn channel_at_power_on() {
    let channel = Channel::new();
    assert_eq!(channel.base_address, 0);
    assert!(channel.increment);
    assert!(!channel.is_active());
    assert_eq!(channel.sync_mode, SyncMode::Manual);
    assert_eq!(channel.direction, TransferDirection::ToRAM);
    assert_eq!(channel.control_register(), 0);
    assert_eq!(channel.block_control_register(), 0);
}

#[test]
fn block_control_packs_count_and_size() {
    let mut channel = Channel::new();
    channel.set_block_control_register(0x0010_0004);
    assert_eq!(channel.block_count, 0x10);
    assert_eq!(channel.transfer_size, 4);
    assert_eq!(channel.block_control_register(), 0x0010_0004);
    assert_eq!(channel.word_count(), 4);
    channel.set_control_register(1 << 9);
    assert_eq!(channel.sync_mode, SyncMode::Request);
    assert_eq!(channel.word_count(), 0x40);
    channel.set_block_control_register(0xFFFF_FFFF);
    assert_eq!(channel.word_count(), 0xFFFE_0001);
}

#[test]
fn control_word_round_trip() {
    let mut channel = Channel::new();
    let value = 3 << 29 | 1 << 28 | 1 << 24 | 5 << 20 | 6 << 16 | 2 << 9 | 1 << 8 | 1 << 1 | 1;
    assert!((value >> 9) & 3 != 3);
    channel.set_control_register(value);
    assert_eq!(channel.unknown, 3);
    assert!(channel.trigger);
    assert!(channel.enable);
    assert_eq!(channel.chopping_cpu_window, 5);
    assert_eq!(channel.chopping_dma_window, 6);
    assert_eq!(channel.sync_mode, SyncMode::LinkedList);
    assert!(channel.chopping_enable);
    assert!(!channel.increment);
    assert_eq!(channel.direction, TransferDirection::FromRAM);
    assert_eq!(channel.control_register(), value);
}

#[test]
fn activity_needs_enable_and_in_manual_mode_the_trigger() {
    let mut channel = Channel::new();
    channel.set_control_register(1 << 24);
    assert!(!channel.is_active());
    channel.set_control_register(1 << 24 | 1 << 28);
    assert!(channel.is_active());
    channel.set_control_register(1 << 28);
    assert!(!channel.is_active());
    channel.set_control_register(1 << 24 | 1 << 9);
    assert!(channel.is_active());
    channel.set_control_register(1 << 24 | 2 << 9);
    assert!(channel.is_active());
}

#[test]
fn ports_by_number() {
    let ports = [
        Port::MDECin,
        Port::MDECout,
        Port::GPU,
        Port::CDROM,
        Port::SPU,
        Port::PIO,
        Port::OTC,
    ];
    for (i, port) in ports.iter().enumerate() {
        assert_eq!(Port::from_index(i as u32), *port);
        assert_eq!(port.index(), i as u32);
    }
}

#[test]
fn registers_by_offset() {
    let mut dma = DMA::new();
    let mut ram = RAM::new();
    let mut gpu = GPU::new();
    assert_eq!(dma.read(0x70), 0x0765_4321);
    assert_eq!(dma.read(0x74), 0);
    dma.write(0x20, 0xFF12_3456, &mut ram, &mut gpu);
    dma.write(0x24, 0x0002_0003, &mut ram, &mut gpu);
    dma.write(0x28, 0x0000_0201, &mut ram, &mut gpu);
    assert_eq!(dma.read(0x20), 0x12_3456);
    assert_eq!(dma.read(0x24), 0x0002_0003);
    assert_eq!(dma.read(0x28), 0x0000_0201);
    assert_eq!(dma.channel(Port::GPU).base_address, 0x12_3456);
    assert_eq!(dma.read(0x10), 0);
    dma.write(0x70, 0x0F00_0000, &mut ram, &mut gpu);
    assert_eq!(dma.read(0x70), 0x0F00_0000);
    // Offsets that hold no register read as zero.
    assert_eq!(dma.read(0x2C), 0);
    assert_eq!(dma.read(0x78), 0);
    assert_eq!(dma.fault(), None);
}

#[test]
fn interrupt_register() {
    let mut dma = DMA::new();
    let mut ram = RAM::new();
    let mut gpu = GPU::new();
    dma.write(0x74, 1 << 23 | 0x7F << 16 | 0x3F, &mut ram, &mut gpu);
    assert_eq!(dma.read(0x74), 1 << 23 | 0x7F << 16 | 0x3F);
    // Forcing sets the master flag.
    dma.write(0x74, 1 << 15, &mut ram, &mut gpu);
    assert_eq!(dma.read(0x74), 1 << 31 | 1 << 15);
    let raised = IrqRegisters {
        irq_enable: true,
        irq_channel_enable: 0b100,
        irq_channel_status: 0b110,
        irq_force: false,
        irq_unknown: 0,
    };
    assert_eq!(raised.interrupt_register(), 1 << 31 | 0b110 << 24 | 1 << 23 | 0b100 << 16);
    // Writing a flag as 1 clears it.
    let cleared = raised.set_interrupt_register(0b100 << 24 | 1 << 23 | 0b100 << 16);
    assert_eq!(cleared.irq_channel_status, 0b010);
    assert_eq!(cleared.interrupt_register(), 0b010 << 24 | 1 << 23 | 0b100 << 16);
    let masked = IrqRegisters { irq_enable: false, ..raised };
    assert_eq!(masked.interrupt_register(), 0b110 << 24 | 0b100 << 16);
}

#[test]
fn faults_of_register_writes() {
    let mut ram = RAM::new();
    let mut gpu = GPU::new();
    let mut dma = DMA::new();
    dma.write(0x2C, 1, &mut ram, &mut gpu);
    assert_eq!(dma.fault(), Some(Fault::DmaRegister { offset: 0x2C }));
    let mut dma = DMA::new();
    dma.write(0x78, 1, &mut ram, &mut gpu);
    assert_eq!(dma.fault(), Some(Fault::DmaRegister { offset: 0x78 }));
    let mut dma = DMA::new();
    dma.write(0x28, 3 << 9 | 1 << 24, &mut ram, &mut gpu);
    assert_eq!(dma.fault(), Some(Fault::DmaSyncMode));
    assert!(!dma.channel(Port::GPU).enable);
    // A transfer on a channel that is not modelled.
    let mut dma = DMA::new();
    dma.write(0x58, 1 << 24 | 1 << 28, &mut ram, &mut gpu);
    assert_eq!(dma.fault(), Some(Fault::DmaTransfer { channel: 5 }));
    let mut dma = DMA::new();
    dma.write(0x08, 1 << 24 | 1 << 9 | 1, &mut ram, &mut gpu);
    assert_eq!(dma.fault(), Some(Fault::DmaTransfer { channel: 0 }));
    // The GPU channel towards RAM is not modelled either.
    let mut dma = DMA::new();
    dma.write(0x28, 1 << 24 | 1 << 28, &mut ram, &mut gpu);
    assert_eq!(dma.fault(), Some(Fault::DmaTransfer { channel: 2 }));
    let mut dma = DMA::new();
    dma.write(0x68, 1 << 24 | 2 << 9, &mut ram, &mut gpu);
    assert_eq!(dma.fault(), Some(Fault::DmaTransfer { channel: 6 }));
}

#[test]
fn sound_and_disc_transfers_move_nothing() {
    let mut mem = memory();
    mem.write(0x0000_7000, 0x1234_5678);
    // The SPU channel, from RAM.
    mem.write(DMA_BASE + 0x40, 0x0000_7000);
    mem.write(DMA_BASE + 0x44, 2 << 16 | 0x10);
    mem.write(DMA_BASE + 0x48, 1 << 24 | 1 << 9 | 1);
    assert_eq!(mem.read(DMA_BASE + 0x48), 1 << 9 | 1);
    // The CD-ROM channel, to RAM.
    mem.write(DMA_BASE + 0x30, 0x0000_7000);
    mem.write(DMA_BASE + 0x34, 4);
    mem.write(DMA_BASE + 0x38, 1 << 24 | 1 << 28);
    assert_eq!(mem.read(DMA_BASE + 0x38), 0);
    assert_eq!(mem.read(0x0000_7000), 0x1234_5678);
    assert_eq!(mem.gpu().previous_commands.len(), 0);
    assert_eq!(mem.fault(), None);
}

#[test]
fn slots_wrap_inside_ram() {
    assert_eq!(first_slot(0x0000_1003), 0x1000);
    assert_eq!(first_slot(0x00FF_FFFF), 0x1F_FFFC);
    assert_eq!(next_slot(0x1000, true), 0x1004);
    assert_eq!(next_slot(0x1000, false), 0x0FFC);
    assert_eq!(next_slot(0x1F_FFFC, true), 0);
    assert_eq!(next_slot(0, false), 0x1F_FFFC);
}

#[test]
fn ordering_table_of_four_entries() {
    let mut mem = memory();
    mem.write(0x0000_1000, 0x5555_5555);
    mem.write(DMA_BASE + 0x60, 0x0000_1000);
    mem.write(DMA_BASE + 0x64, 4);
    assert_eq!(mem.read(0x0000_1000), 0x5555_5555);
    // Enable, trigger, step down, to RAM, manual.
    mem.write(DMA_BASE + 0x68, 1 << 24 | 1 << 28 | 1 << 1);
    assert_eq!(mem.read(0x0000_1000), 0x0000_0FFC);
    assert_eq!(mem.read(0x0000_0FFC), 0x0000_0FF8);
    assert_eq!(mem.read(0x0000_0FF8), 0x0000_0FF4);
    assert_eq!(mem.read(0x0000_0FF4), 0x00FF_FFFF);
    assert_eq!(mem.read(0x0000_0FF0), 0);
    assert_eq!(mem.read(0x0000_1004), 0);
    // Enable and trigger are cleared; the rest of the control word stays.
    assert_eq!(mem.read(DMA_BASE + 0x68), 1 << 1);
    assert_eq!(mem.fault(), None);
}

#[test]
fn ordering_table_of_one_entry_is_the_end_marker() {
    let mut mem = memory();
    mem.write(DMA_BASE + 0x60, 0x0000_2000);
    mem.write(DMA_BASE + 0x64, 1);
    mem.write(DMA_BASE + 0x68, 1 << 24 | 1 << 28 | 1 << 1);
    assert_eq!(mem.read(0x0000_2000), 0x00FF_FFFF);
    assert_eq!(mem.read(0x0000_1FFC), 0);
}

#[test]
fn ordering_table_stepping_up_follows_the_flag() {
    let mut mem = memory();
    mem.write(DMA_BASE + 0x60, 0x0000_3000);
    mem.write(DMA_BASE + 0x64, 3);
    mem.write(DMA_BASE + 0x68, 1 << 24 | 1 << 28);
    assert_eq!(mem.read(0x0000_3000), 0x0000_2FFC);
    assert_eq!(mem.read(0x0000_3004), 0x0000_3000);
    assert_eq!(mem.read(0x0000_3008), 0x00FF_FFFF);
}

#[test]
fn block_transfer_feeds_the_gpu_from_consecutive_words() {
    let mut mem = memory();
    // A quad of one colour, at an address that is not aligned: the low two
    // bits are dropped.
    let words = [0x28FF_0000u32, 0x0000_0000, 0x0000_0008, 0x0008_0000, 0x0008_0008];
    for (i, word) in words.iter().enumerate() {
        mem.write(0x0000_4000 + 4 * i as u32, *word);
    }
    mem.write(DMA_BASE + 0x20, 0x0000_4003);
    mem.write(DMA_BASE + 0x24, 5);
    assert_eq!(mem.gpu().renderer().len(), 0);
    mem.write(DMA_BASE + 0x28, 1 << 24 | 1 << 28 | 1);
    assert_eq!(mem.gpu().renderer().len(), 6);
    assert_eq!(
        mem.gpu().renderer().vertex(3),
        Vertex { position: Position(8, 8), color: Color(0, 0, 255) }
    );
    assert_eq!(mem.read(DMA_BASE + 0x28), 1);
    assert_eq!(mem.fault(), None);
}

#[test]
fn request_mode_moves_blocks_times_size_words() {
    let mut mem = memory();
    for i in 0..6u32 {
        mem.write(0x0000_5000 + 4 * i, 0xE300_0000 | i);
    }
    mem.write(DMA_BASE + 0x20, 0x0000_5000);
    mem.write(DMA_BASE + 0x24, 3 << 16 | 2);
    mem.write(DMA_BASE + 0x28, 1 << 24 | 1 << 9 | 1);
    assert_eq!(mem.gpu().previous_commands.len(), 6);
    assert_eq!(mem.gpu().registers().settings.drawing_area_left, 5);
    assert_eq!(mem.read(DMA_BASE + 0x28), 1 << 9 | 1);
}

#[test]
fn block_transfer_stepping_down_reads_downwards() {
    let mut mem = memory();
    mem.write(0x0000_6000, 0xE300_0001);
    mem.write(0x0000_5FFC, 0xE300_0002);
    mem.write(0x0000_6004, 0xE300_0003);
    mem.write(DMA_BASE + 0x20, 0x0000_6000);
    mem.write(DMA_BASE + 0x24, 2);
    mem.write(DMA_BASE + 0x28, 1 << 24 | 1 << 28 | 1 << 1 | 1);
    assert_eq!(mem.gpu().registers().settings.drawing_area_left, 2);
    assert_eq!(mem.gpu().previous_commands.len(), 2);
}

#[test]
fn linked_list_of_three_nodes() {
    let mut mem = memory();
    // Node at 0x100: two words, next at 0x200.
    mem.write(0x100, 2 << 24 | 0x200);
    mem.write(0x104, 0xE300_0007);
    mem.write(0x108, 0xE400_0009);
    // Node at 0x200: no words, next at 0x80.
    mem.write(0x200, 0x80);
    // Node at 0x80: one word, end of the list.
    mem.write(0x80, 1 << 24 | 0x00FF_FFFF);
    mem.write(0x84, 0xE600_0003);
    mem.write(DMA_BASE + 0x20, 0x100);
    mem.write(DMA_BASE + 0x28, 1 << 24 | 2 << 9 | 1);
    let regs = mem.gpu().registers();
    assert_eq!(regs.settings.drawing_area_left, 7);
    assert_eq!(regs.settings.drawing_area_right, 9);
    assert!(regs.flags.force_mask_bit);
    assert!(regs.flags.ignore_masked_pixels);
    assert_eq!(mem.gpu().previous_commands.len(), 3);
    assert_eq!(mem.read(DMA_BASE + 0x28), 2 << 9 | 1);
    assert_eq!(mem.fault(), None);
}

#[test]
fn endless_linked_list_is_given_up() {
    let mut mem = memory();
    // A node that points to itself.
    mem.write(0x300, 0x300);
    mem.write(DMA_BASE + 0x20, 0x300);
    mem.write(DMA_BASE + 0x28, 1 << 24 | 2 << 9 | 1);
    assert_eq!(mem.fault(), Some(Fault::DmaEndlessList));
    assert_eq!(mem.read(DMA_BASE + 0x28), 2 << 9 | 1);
}
