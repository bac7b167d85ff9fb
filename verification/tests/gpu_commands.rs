use psx::fault::Fault;
use psx::gpu::{CommandBuffer, CommandRecord, GPU};
use psx::gpu_registers::{
    DMADirection, DisplayDepth, GP0Mode, Gp0Command, HorizontalResolution, TextureDepth,
    VerticalResolution, VideoMode, VramWindow,
};
use psx::gpu_state::Port;
use psx::renderer::{Color, Position, Renderer, Vertex};

#[test]
fn status_at_power_on_and_after_reset() {
    let mut gpu = GPU::new();
    // At power-on the display is enabled; a reset disables it.
    assert_eq!(gpu.status(), 0x9C00_2000);
    gpu.gp1(0x0000_0000);
    assert_eq!(gpu.status(), 0x9C80_2000);
}

#[test]
fn reset_clears_what_commands_set() {
    let mut gpu = GPU::new();
    gpu.gp1(0x0400_0002);
    gpu.gp1(0x0800_003F);
    gpu.gp0(0xE100_07FF);
    gpu.gp0(0xE600_0003);
    gpu.gp0(0xE300_0C05);
    gpu.gp0(0x2800_0000);
    assert_ne!(gpu.status(), 0x9C80_2000);
    gpu.gp1(0x0000_0000);
    assert_eq!(gpu.status(), 0x9C80_2000);
    assert_eq!(gpu.registers().settings.drawing_area_left, 0);
    assert_eq!(gpu.registers().decoder.gp0_words_remaining, 0);
    assert_eq!(gpu.registers().decoder.gp0_mode, GP0Mode::Command);
    assert_eq!(gpu.read(), 0);
}

#[test]
fn quad_fires_once_after_five_words() {
    let mut gpu = GPU::new();
    gpu.gp1(0x0000_0000);
    gpu.gp0(0xE500_0000);
    assert_eq!(gpu.registers().settings.drawing_offset_x, 0);
    assert_eq!(gpu.registers().settings.drawing_offset_y, 0);
    gpu.gp0(0x28FF_FFFF);
    assert_eq!(gpu.registers().decoder.gp0_command, Gp0Command::QuadMonoOpaque);
    assert_eq!(gpu.registers().decoder.gp0_words_remaining, 4);
    gpu.gp0(0x0000_0000);
    gpu.gp0(0x0000_000A);
    gpu.gp0(0x000A_0000);
    assert_eq!(gpu.renderer().len(), 0);
    gpu.gp0(0x000A_000A);
    assert_eq!(gpu.registers().decoder.gp0_words_remaining, 0);
    let white = Color(255, 255, 255);
    let corners = [Position(0, 0), Position(10, 0), Position(0, 10), Position(10, 10)];
    // Two triangles: corners 0, 1, 2 and corners 3, 2, 1.
    let expected = [0, 1, 2, 3, 2, 1];
    assert_eq!(gpu.renderer().len(), 6);
    for (i, corner) in expected.iter().enumerate() {
        assert_eq!(
            gpu.renderer().vertex(i),
            Vertex { position: corners[*corner], color: white }
        );
    }
    // The history holds the reset, the offset and the quad.
    assert_eq!(gpu.previous_commands.len(), 3);
    let last = &gpu.previous_commands[2];
    assert_eq!(last.0, Port::GP0);
    assert_eq!(last.1.len(), 5);
    assert_eq!(last.1.get(0), 0x28FF_FFFF);
    assert_eq!(last.1.get(4), 0x000A_000A);
    assert_eq!(gpu.fault(), None);
}

#[test]
fn word_counts_of_the_commands() {
    assert_eq!(Gp0Command::decode(0x00), Some(Gp0Command::Nop));
    assert_eq!(Gp0Command::decode(0x01), Some(Gp0Command::ClearCache));
    assert_eq!(Gp0Command::decode(0x02), None);
    assert_eq!(Gp0Command::decode(0xFF), None);
    let counts = [
        (0x00, 1),
        (0x01, 1),
        (0x28, 5),
        (0x2C, 9),
        (0x30, 6),
        (0x38, 8),
        (0x68, 2),
        (0xA0, 3),
        (0xC0, 3),
        (0xE1, 1),
        (0xE2, 1),
        (0xE3, 1),
        (0xE4, 1),
        (0xE5, 1),
        (0xE6, 1),
    ];
    for (opcode, count) in counts {
        assert_eq!(Gp0Command::decode(opcode).unwrap().words(), count);
    }
}

#[test]
fn shaded_triangle_takes_colours_and_corners_in_turn() {
    let mut gpu = GPU::new();
    gpu.gp0(0x3000_00FF);
    gpu.gp0(0x0001_0002);
    gpu.gp0(0x0000_FF00);
    gpu.gp0(0x0003_0004);
    gpu.gp0(0x00FF_0000);
    gpu.gp0(0xFFFF_FFFF);
    assert_eq!(gpu.renderer().len(), 3);
    assert_eq!(
        gpu.renderer().vertex(0),
        Vertex { position: Position(2, 1), color: Color(255, 0, 0) }
    );
    assert_eq!(
        gpu.renderer().vertex(1),
        Vertex { position: Position(4, 3), color: Color(0, 255, 0) }
    );
    assert_eq!(
        gpu.renderer().vertex(2),
        Vertex { position: Position(-1, -1), color: Color(0, 0, 255) }
    );
}

#[test]
fn shaded_and_textured_quads() {
    let mut gpu = GPU::new();
    for word in [0x3801_0203, 0x0000_0000, 0x0004_0506, 0x0000_0010, 0x0007_0809, 0x0010_0000, 0x000A_0B0C, 0x0010_0010] {
        gpu.gp0(word);
    }
    assert_eq!(gpu.renderer().len(), 6);
    assert_eq!(
        gpu.renderer().vertex(3),
        Vertex { position: Position(16, 16), color: Color(0x0C, 0x0B, 0x0A) }
    );
    assert_eq!(
        gpu.renderer().vertex(0),
        Vertex { position: Position(0, 0), color: Color(0x03, 0x02, 0x01) }
    );
    for word in [0x2C80_8080, 0x0001_0001, 0, 0x0001_0002, 0, 0x0002_0001, 0, 0x0002_0002, 0] {
        gpu.gp0(word);
    }
    assert_eq!(gpu.renderer().len(), 12);
    assert_eq!(
        gpu.renderer().vertex(6),
        Vertex { position: Position(1, 1), color: Color(255, 20, 147) }
    );
    assert_eq!(
        gpu.renderer().vertex(9),
        Vertex { position: Position(2, 2), color: Color(255, 20, 147) }
    );
}

#[test]
fn dot_is_a_quad_one_pixel_wide() {
    let mut gpu = GPU::new();
    gpu.gp0(0x6800_FF00);
    gpu.gp0(0x0005_0007);
    assert_eq!(gpu.renderer().len(), 6);
    let green = Color(0, 255, 0);
    assert_eq!(gpu.renderer().vertex(0), Vertex { position: Position(7, 5), color: green });
    assert_eq!(gpu.renderer().vertex(1), Vertex { position: Position(8, 5), color: green });
    assert_eq!(gpu.renderer().vertex(2), Vertex { position: Position(7, 6), color: green });
    assert_eq!(gpu.renderer().vertex(3), Vertex { position: Position(8, 6), color: green });
    gpu.clear_vertices();
    assert_eq!(gpu.renderer().len(), 0);
}

#[test]
fn draw_mode_sets_flags_and_page() {
    let mut gpu = GPU::new();
    // flip y, flip x, texture disable, draw to display, dither, depth 8 bits,
    // semitransparency 2, page y 1, page x 5
    gpu.gp0(0xE100_0000 | 1 << 13 | 1 << 12 | 1 << 11 | 1 << 10 | 1 << 9 | 1 << 7 | 2 << 5 | 1 << 4 | 5);
    let regs = gpu.registers();
    assert!(regs.settings.texture_flip_y);
    assert!(regs.settings.texture_flip_x);
    assert!(regs.flags.texture_disable);
    assert!(regs.flags.draw_to_display);
    assert!(regs.flags.dither);
    assert_eq!(regs.flags.texture_depth, TextureDepth::Bits8);
    assert_eq!(regs.flags.semitransparency, 2);
    assert_eq!(regs.flags.texture_page_base_y, 1);
    assert_eq!(regs.flags.texture_page_base_x, 5);
    assert_eq!(
        gpu.status(),
        0x9C00_2000 | 1 << 15 | 1 << 10 | 1 << 9 | 1 << 7 | 2 << 5 | 1 << 4 | 5
    );
}

#[test]
fn reserved_texture_depth_is_a_fault() {
    let mut gpu = GPU::new();
    gpu.gp0(0xE100_0000 | 3 << 7 | 1 << 9);
    assert_eq!(gpu.fault(), Some(Fault::ReservedTextureDepth));
    assert!(!gpu.registers().flags.dither);
    assert_eq!(gpu.status(), 0x9C00_2000);
}

#[test]
fn drawing_offset_is_sign_extended() {
    let mut gpu = GPU::new();
    gpu.gp0(0xE500_0000 | (0x7FF << 11) | 0x400);
    assert_eq!(gpu.registers().settings.drawing_offset_x, -1024);
    assert_eq!(gpu.registers().settings.drawing_offset_y, -1);
    gpu.gp0(0xE500_0000 | (0x3FF << 11) | 0x001);
    assert_eq!(gpu.registers().settings.drawing_offset_x, 1);
    assert_eq!(gpu.registers().settings.drawing_offset_y, 1023);
    // The info command shows the offsets as they were written.
    gpu.gp1(0x1000_0005);
    assert_eq!(gpu.read(), (0x3FF << 11) | 0x001);
}

#[test]
fn settings_commands() {
    let mut gpu = GPU::new();
    gpu.gp0(0xE200_0000 | 0x1F << 15 | 0x0A << 10 | 0x03 << 5 | 0x11);
    gpu.gp0(0xE300_0000 | 0x155 << 10 | 0x2AA);
    gpu.gp0(0xE400_0000 | 0x3FF << 10 | 0x001);
    gpu.gp0(0xE600_0002);
    let regs = gpu.registers();
    assert_eq!(regs.settings.texture_window_offset_y, 0x1F);
    assert_eq!(regs.settings.texture_window_offset_x, 0x0A);
    assert_eq!(regs.settings.texture_window_mask_y, 0x03);
    assert_eq!(regs.settings.texture_window_mask_x, 0x11);
    assert_eq!(regs.settings.drawing_area_top, 0x155);
    assert_eq!(regs.settings.drawing_area_left, 0x2AA);
    assert_eq!(regs.settings.drawing_area_bottom, 0x3FF);
    assert_eq!(regs.settings.drawing_area_right, 0x001);
    assert!(regs.flags.ignore_masked_pixels);
    assert!(!regs.flags.force_mask_bit);
    gpu.gp1(0x1000_0002);
    assert_eq!(gpu.read(), 0x1F << 15 | 0x0A << 10 | 0x03 << 5 | 0x11);
    gpu.gp1(0x1000_0003);
    assert_eq!(gpu.read(), 0x155 << 10 | 0x2AA);
    gpu.gp1(0x1F00_0004);
    assert_eq!(gpu.read(), 0x3FF << 10 | 0x001);
    // Other selectors leave the latch alone.
    gpu.gp1(0x1000_0007);
    assert_eq!(gpu.read(), 0x3FF << 10 | 0x001);
}

#[test]
fn control_commands() {
    let mut gpu = GPU::new();
    gpu.gp1(0x0300_0001);
    assert!(gpu.registers().flags.display_disable);
    gpu.gp1(0x0300_0000);
    assert!(!gpu.registers().flags.display_disable);
    gpu.gp1(0x0400_0003);
    assert_eq!(gpu.registers().flags.dma_direction, DMADirection::GPUToCPU);
    assert_eq!(gpu.status(), 0x9C00_2000 | 3 << 29 | 1 << 25);
    gpu.gp1(0x0400_0001);
    assert_eq!(gpu.registers().flags.dma_direction, DMADirection::FIFO);
    gpu.gp1(0x0400_0000);
    gpu.gp1(0x0500_0000 | 0x1FF << 10 | 0x3FF);
    assert_eq!(gpu.registers().settings.display_vram_start_y, 0x1FF);
    assert_eq!(gpu.registers().settings.display_vram_start_x, 0x3FE);
    gpu.gp1(0x0600_0000 | 0xC60 << 12 | 0x260);
    assert_eq!(gpu.registers().settings.display_horizontal_end, 0xC60);
    assert_eq!(gpu.registers().settings.display_horizontal_start, 0x260);
    gpu.gp1(0x0700_0000 | 0x100 << 10 | 0x010);
    assert_eq!(gpu.registers().settings.display_vertical_end, 0x100);
    assert_eq!(gpu.registers().settings.display_vertical_start, 0x010);
    gpu.gp1(0x0200_0000);
    assert!(!gpu.registers().flags.irq);
    assert_eq!(gpu.fault(), None);
}

#[test]
fn display_mode() {
    let mut gpu = GPU::new();
    // interlace, 24 bits, PAL, 480 lines, horizontal 2 with the extra bit
    gpu.gp1(0x0800_0000 | 0x20 | 0x10 | 0x08 | 0x04 | 0x02 | 0x40);
    let flags = gpu.registers().flags;
    assert!(flags.interlace);
    assert_eq!(flags.display_depth, DisplayDepth::Bits24);
    assert_eq!(flags.video_mode, VideoMode::PAL);
    assert_eq!(flags.resolution_vertical, VerticalResolution::V480);
    assert_eq!(flags.resolution_horizontal, HorizontalResolution(0b101));
    assert_eq!(HorizontalResolution::from_bytes(2, 1), HorizontalResolution(0b101));
    assert_eq!(HorizontalResolution(0b101).into_status(), 0b101 << 16);
    // Bit 19, the vertical resolution, is not shown.
    assert_eq!(gpu.status(), 0x9C00_2000 | 1 << 22 | 1 << 21 | 1 << 20 | 0b101 << 16);
    gpu.gp1(0x0800_0080);
    assert_eq!(gpu.fault(), Some(Fault::ReverseFlag));
    assert!(gpu.registers().flags.interlace);
}

#[test]
fn unsupported_opcodes_are_faults() {
    let mut gpu = GPU::new();
    gpu.gp0(0x1F00_0000);
    assert_eq!(gpu.fault(), Some(Fault::UnsupportedGp0 { opcode: 0x1F }));
    assert_eq!(gpu.registers().decoder.gp0_words_remaining, 0);
    assert_eq!(gpu.previous_commands.len(), 0);
    let mut other = GPU::new();
    other.gp1(0x0900_0000);
    assert_eq!(other.fault(), Some(Fault::UnsupportedGp1 { opcode: 0x09 }));
    other.gp1(0x2000_0000);
    assert_eq!(other.fault(), Some(Fault::UnsupportedGp1 { opcode: 0x09 }));
    assert_eq!(other.previous_commands.len(), 0);
}

#[test]
fn parameters_are_not_decoded_as_commands() {
    let mut gpu = GPU::new();
    gpu.gp0(0x6800_0000);
    // A parameter whose top byte names no command.
    gpu.gp0(0x1F00_0001);
    assert_eq!(gpu.fault(), None);
    assert_eq!(gpu.renderer().len(), 6);
}

#[test]
fn reset_command_buffer_drops_a_half_sent_command() {
    let mut gpu = GPU::new();
    gpu.gp0(0x2800_0000);
    gpu.gp0(0x0000_0000);
    gpu.gp1(0x0100_0000);
    assert_eq!(gpu.registers().decoder.gp0_words_remaining, 0);
    gpu.gp0(0xE600_0001);
    assert!(gpu.registers().flags.force_mask_bit);
    assert_eq!(gpu.renderer().len(), 0);
}

#[test]
fn image_goes_in_and_comes_out() {
    let mut gpu = GPU::new();
    // A rectangle of 4 by 3 pixels at (10, 20).
    gpu.gp0(0xA000_0000);
    gpu.gp0(20 << 16 | 10);
    gpu.gp0(3 << 16 | 4);
    assert_eq!(gpu.registers().decoder.gp0_mode, GP0Mode::LoadImage);
    assert_eq!(gpu.registers().decoder.gp0_words_remaining, 6);
    let words: [u32; 6] = [0x0002_0001, 0x0004_0003, 0x0006_0005, 0x0008_0007, 0x000A_0009, 0x000C_000B];
    for word in words {
        gpu.gp0(word);
    }
    assert_eq!(gpu.registers().decoder.gp0_mode, GP0Mode::Command);
    for row in 0..3 {
        for column in 0..4 {
            assert_eq!(gpu.vram_pixel(10 + column, 20 + row), (row * 4 + column + 1) as u16);
        }
    }
    assert_eq!(gpu.vram_pixel(14, 20), 0);
    assert_eq!(gpu.vram_pixel(9, 20), 0);
    assert_eq!(gpu.vram_pixel(10, 23), 0);
    gpu.gp0(0xC000_0000);
    gpu.gp0(20 << 16 | 10);
    gpu.gp0(3 << 16 | 4);
    assert_eq!(gpu.registers().decoder.gp0_mode, GP0Mode::StoreImage);
    for word in words {
        assert_eq!(gpu.read(), word);
    }
    assert_eq!(gpu.registers().decoder.gp0_mode, GP0Mode::Command);
    // Outside a transfer, the port returns the last word latched.
    assert_eq!(gpu.read(), 0x000C_000B);
    assert_eq!(gpu.fault(), None);
}

#[test]
fn odd_pixel_count_takes_one_more_word() {
    let mut gpu = GPU::new();
    gpu.gp0(0xA000_0000);
    gpu.gp0(0);
    gpu.gp0(1 << 16 | 3);
    assert_eq!(gpu.registers().decoder.gp0_words_remaining, 2);
    gpu.gp0(0x2222_1111);
    gpu.gp0(0x4444_3333);
    assert_eq!(gpu.registers().decoder.gp0_mode, GP0Mode::Command);
    assert_eq!(gpu.vram_pixel(0, 0), 0x1111);
    assert_eq!(gpu.vram_pixel(1, 0), 0x2222);
    assert_eq!(gpu.vram_pixel(2, 0), 0x3333);
    // The half-word past the rectangle is dropped.
    assert_eq!(gpu.vram_pixel(3, 0), 0);
    assert_eq!(gpu.vram_pixel(0, 1), 0);
    gpu.gp0(0xC000_0000);
    gpu.gp0(0);
    gpu.gp0(1 << 16 | 3);
    assert_eq!(gpu.read(), 0x2222_1111);
    assert_eq!(gpu.read(), 0x0000_3333);
    assert_eq!(gpu.registers().decoder.gp0_mode, GP0Mode::Command);
}

#[test]
fn empty_image_takes_no_words() {
    let mut gpu = GPU::new();
    gpu.gp0(0xA000_0000);
    gpu.gp0(0);
    gpu.gp0(5);
    assert_eq!(gpu.registers().decoder.gp0_mode, GP0Mode::Command);
    assert_eq!(gpu.registers().decoder.gp0_words_remaining, 0);
    gpu.gp0(0xC000_0000);
    gpu.gp0(0);
    gpu.gp0(5 << 16);
    assert_eq!(gpu.registers().decoder.gp0_mode, GP0Mode::Command);
}

#[test]
fn window_walks_left_to_right_then_down() {
    let window = VramWindow::at(1022, 511, 2, 1);
    assert!(!window.exhausted());
    assert_eq!(window.index(), 511 * 1024 + 1022);
    let next = window.advance();
    assert_eq!((next.current_x, next.current_y), (1023, 511));
    let last = next.advance();
    assert_eq!((last.current_x, last.current_y), (1022, 512));
    assert!(last.exhausted());
    // Coordinates past the edge of VRAM wrap around.
    let wrapped = VramWindow::at(1024, 512, 1, 1);
    assert_eq!(wrapped.index(), 0);
}

#[test]
fn history_keeps_the_last_thousand() {
    let mut gpu = GPU::new();
    for i in 0..1005u32 {
        gpu.gp1(0x0300_0000 | (i & 1));
    }
    assert_eq!(gpu.previous_commands.len(), 1000);
    assert_eq!(gpu.previous_commands[0].1.get(0), 0x0300_0001);
    assert_eq!(gpu.previous_commands[999].1.get(0), 0x0300_0000);
    assert_eq!(gpu.previous_commands[999].0, Port::GP1);
}

#[test]
fn command_buffer_holds_twelve_words() {
    let mut buffer = CommandBuffer::new();
    assert_eq!(buffer.len(), 0);
    for i in 0..12 {
        buffer.push(i * 3);
    }
    assert_eq!(buffer.len(), 12);
    assert_eq!(buffer.get(11), 33);
    buffer.clear();
    assert_eq!(buffer.len(), 0);
    let single = CommandBuffer::single(0xABCD);
    assert_eq!(single.len(), 1);
    assert_eq!(single.get(0), 0xABCD);
    let record = CommandRecord(Port::GP1, single);
    assert_eq!(record.0, Port::GP1);
}

#[test]
fn renderer_drops_what_does_not_fit() {
    let mut renderer = Renderer::new();
    let p = [Position(0, 0), Position(1, 0), Position(0, 1)];
    let c = [Color(1, 2, 3), Color(4, 5, 6), Color(7, 8, 9)];
    renderer.push_triangle(p, c);
    assert_eq!(renderer.len(), 3);
    assert_eq!(renderer.vertex(2), Vertex { position: Position(0, 1), color: Color(7, 8, 9) });
    assert_eq!(Position::from_command(0xFFFE_0003), Position(3, -2));
    assert_eq!(Color::from_command(0xAA11_2233), Color(0x33, 0x22, 0x11));
    renderer.clear();
    assert_eq!(renderer.len(), 0);
}
