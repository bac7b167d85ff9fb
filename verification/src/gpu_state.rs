//! What the GPU does, as functions on a mathematical model of its state.

use vstd::prelude::*;
use crate::fault::{Fault, spec_latch};
use crate::gpu_registers::{
    DMADirection,
    Decoder,
    DisplayDepth,
    DrawSettings,
    GP0Mode,
    Gp0Command,
    GpuRegisters,
    HorizontalResolution,
    StatusFlags,
    TextureDepth,
    VerticalResolution,
    VideoMode,
    VramWindow,
    VRAM_HEIGHT,
    VRAM_WIDTH,
};
use crate::renderer::{Color, Position, Vertex, MAX_BUFFER_SIZE, quad_vertices, spec_push, triangle_vertices};

verus! {

/// The two command ports of the GPU.
#[derive(Debug, Copy, Clone, PartialEq, Eq, Structural)]
pub enum Port {
    GP0,
    GP1,
}

/// The most words that a GP0 command is made of.
pub const COMMAND_BUFFER_SIZE: usize = 12;

/// The most commands that the history keeps.
pub const MAX_COMMAND_RECORD_SIZE: usize = 1000;

/// The model of a GPU.
pub struct GpuState {
    pub regs: GpuRegisters,
    /// The words of the GP0 command that is being put together.
    pub buffer: Seq<u32>,
    /// The pixels of VRAM, line by line.
    pub vram: Seq<u16>,
    /// The triangles handed to the display front-end.
    pub vertices: Seq<Vertex>,
    /// The last commands carried out, oldest first.
    pub history: Seq<(Port, Seq<u32>)>,
}

/// `history` after one more command was carried out: the oldest entry leaves
/// where the history is full.
pub open spec fn spec_record(history: Seq<(Port, Seq<u32>)>, port: Port, words: Seq<u32>) -> Seq<
    (Port, Seq<u32>),
> {
    if history.len() >= MAX_COMMAND_RECORD_SIZE {
        history.drop_first().push((port, words))
    } else {
        history.push((port, words))
    }
}

/// The pixel in the low half of an image data word.
pub open spec fn low_pixel(word: u32) -> u16 {
    (word & 0xFFFF) as u16
}

/// The pixel in the high half of an image data word.
pub open spec fn high_pixel(word: u32) -> u16 {
    (word >> 16) as u16
}

/// The number of data words that carry `width` times `height` pixels, two to
/// a word.
pub open spec fn image_words(width: u32, height: u32) -> u32 {
    ((width * height + 1) / 2) as u32
}

impl DrawSettings {
    /// GP0 0xE2: texture window mask and offset, five bits each.
    pub open spec fn spec_texture_window(self, value: u32) -> DrawSettings {
        DrawSettings {
            texture_window_offset_y: ((value >> 15) & 0x1F) as u8,
            texture_window_offset_x: ((value >> 10) & 0x1F) as u8,
            texture_window_mask_y: ((value >> 5) & 0x1F) as u8,
            texture_window_mask_x: (value & 0x1F) as u8,
            ..self
        }
    }

    /// GP0 0xE3: top left corner of the drawing area, ten bits each.
    pub open spec fn spec_drawing_area_top_left(self, value: u32) -> DrawSettings {
        DrawSettings {
            drawing_area_top: ((value >> 10) & 0x3FF) as u16,
            drawing_area_left: (value & 0x3FF) as u16,
            ..self
        }
    }

    /// GP0 0xE4: bottom right corner of the drawing area, ten bits each.
    pub open spec fn spec_drawing_area_bottom_right(self, value: u32) -> DrawSettings {
        DrawSettings {
            drawing_area_bottom: ((value >> 10) & 0x3FF) as u16,
            drawing_area_right: (value & 0x3FF) as u16,
            ..self
        }
    }

    /// GP0 0xE5: the drawing offset, two signed 11-bit values.
    pub open spec fn spec_drawing_offset(self, value: u32) -> DrawSettings {
        DrawSettings {
            drawing_offset_x: sign_extend_11((value & 0x7FF) as u16),
            drawing_offset_y: sign_extend_11(((value >> 11) & 0x7FF) as u16),
            ..self
        }
    }

    /// GP1 0x05: the corner of VRAM that the display starts at. X is even.
    pub open spec fn spec_display_vram_start(self, value: u32) -> DrawSettings {
        DrawSettings {
            display_vram_start_y: ((value >> 10) & 0x1FF) as u16,
            display_vram_start_x: (value & 0x3FE) as u16,
            ..self
        }
    }

    /// GP1 0x06: the horizontal display range, twelve bits each.
    pub open spec fn spec_display_horizontal_range(self, value: u32) -> DrawSettings {
        DrawSettings {
            display_horizontal_end: ((value >> 12) & 0xFFF) as u16,
            display_horizontal_start: (value & 0xFFF) as u16,
            ..self
        }
    }

    /// GP1 0x07: the vertical display range, ten bits each.
    pub open spec fn spec_display_vertical_range(self, value: u32) -> DrawSettings {
        DrawSettings {
            display_vertical_end: ((value >> 10) & 0x3FF) as u16,
            display_vertical_start: (value & 0x3FF) as u16,
            ..self
        }
    }

    /// The word that GP1 0x10 latches for the data port, by the selector in
    /// the low three bits of `value`. Other selectors keep `latched`.
    pub open spec fn spec_gpu_info(self, value: u32, latched: u32) -> u32 {
        if value & 7 == 2 {
            (self.texture_window_mask_x as u32) | ((self.texture_window_mask_y as u32) << 5) | ((
            self.texture_window_offset_x as u32) << 10) | ((self.texture_window_offset_y as u32)
                << 15)
        } else if value & 7 == 3 {
            (self.drawing_area_left as u32) | ((self.drawing_area_top as u32) << 10)
        } else if value & 7 == 4 {
            (self.drawing_area_right as u32) | ((self.drawing_area_bottom as u32) << 10)
        } else if value & 7 == 5 {
            (((self.drawing_offset_x & 0x7FF) as u16) as u32) | ((((self.drawing_offset_y & 0x7FF) as u16) as u32)
                << 11)
        } else {
            latched
        }
    }
}

impl StatusFlags {
    /// GP0 0xE1, the part that the status word shows.
    pub open spec fn spec_draw_mode(self, value: u32) -> StatusFlags {
        StatusFlags {
            texture_disable: (value >> 11) & 1 != 0,
            draw_to_display: (value >> 10) & 1 != 0,
            dither: (value >> 9) & 1 != 0,
            texture_depth: if (value >> 7) & 3 == 0 {
                TextureDepth::Bits4
            } else if (value >> 7) & 3 == 1 {
                TextureDepth::Bits8
            } else {
                TextureDepth::Bits15
            },
            semitransparency: ((value >> 5) & 3) as u8,
            texture_page_base_y: ((value >> 4) & 1) as u8,
            texture_page_base_x: (value & 0xF) as u8,
            ..self
        }
    }

    /// GP0 0xE6: how drawing treats the mask bit of a pixel.
    pub open spec fn spec_mask_bit_setting(self, value: u32) -> StatusFlags {
        StatusFlags {
            ignore_masked_pixels: (value & 2) != 0,
            force_mask_bit: (value & 1) != 0,
            ..self
        }
    }

    /// GP1 0x08: interlace, colour depth, video standard and resolution.
    pub open spec fn spec_display_mode(self, value: u32) -> StatusFlags {
        StatusFlags {
            interlace: (value & 0x20) != 0,
            display_depth: if (value & 0x10) != 0 {
                DisplayDepth::Bits24
            } else {
                DisplayDepth::Bits15
            },
            video_mode: if (value & 8) != 0 {
                VideoMode::PAL
            } else {
                VideoMode::NTSC
            },
            resolution_vertical: if (value & 4) != 0 {
                VerticalResolution::V480
            } else {
                VerticalResolution::V240
            },
            resolution_horizontal: HorizontalResolution::spec_from_bytes(
                (value & 3) as u8,
                ((value >> 6) & 1) as u8,
            ),
            ..self
        }
    }
}

impl GpuRegisters {
    pub open spec fn with_fault(self, fault: Fault) -> GpuRegisters {
        GpuRegisters { fault: spec_latch(self.fault, fault), ..self }
    }

    pub open spec fn with_decoder(self, decoder: Decoder) -> GpuRegisters {
        GpuRegisters { decoder, ..self }
    }

    pub open spec fn with_window(self, window: VramWindow) -> GpuRegisters {
        GpuRegisters { decoder: Decoder { window, ..self.decoder }, ..self }
    }

    /// GP0 0xE1: texture page and drawing flags. The reserved texture depth
    /// is a fault.
    pub open spec fn spec_draw_mode(self, value: u32) -> GpuRegisters {
        if (value >> 7) & 3 == 3 {
            self.with_fault(Fault::ReservedTextureDepth)
        } else {
            GpuRegisters {
                flags: self.flags.spec_draw_mode(value),
                settings: DrawSettings {
                    texture_flip_y: (value >> 13) & 1 != 0,
                    texture_flip_x: (value >> 12) & 1 != 0,
                    ..self.settings
                },
                ..self
            }
        }
    }

    /// What a GP1 command does to the registers. A command that is not
    /// supported, and a display mode with the reverse flag, are faults.
    pub open spec fn spec_gp1(self, command: u32) -> GpuRegisters {
        let opcode = command >> 24;
        if opcode == 0x00 {
            self.spec_reset()
        } else if opcode == 0x01 {
            GpuRegisters { decoder: self.decoder.spec_reset(), ..self }
        } else if opcode == 0x02 {
            GpuRegisters { flags: StatusFlags { irq: false, ..self.flags }, ..self }
        } else if opcode == 0x03 {
            GpuRegisters {
                flags: StatusFlags { display_disable: (command & 1) != 0, ..self.flags },
                ..self
            }
        } else if opcode == 0x04 {
            GpuRegisters {
                flags: StatusFlags {
                    dma_direction: DMADirection::spec_from_bits(command),
                    ..self.flags
                },
                ..self
            }
        } else if opcode == 0x05 {
            GpuRegisters { settings: self.settings.spec_display_vram_start(command), ..self }
        } else if opcode == 0x06 {
            GpuRegisters { settings: self.settings.spec_display_horizontal_range(command), ..self }
        } else if opcode == 0x07 {
            GpuRegisters { settings: self.settings.spec_display_vertical_range(command), ..self }
        } else if opcode == 0x08 {
            if (command & 0x80) != 0 {
                self.with_fault(Fault::ReverseFlag)
            } else {
                GpuRegisters { flags: self.flags.spec_display_mode(command), ..self }
            }
        } else if 0x10 <= opcode <= 0x1F {
            GpuRegisters {
                read_response: self.settings.spec_gpu_info(command, self.read_response),
                ..self
            }
        } else {
            self.with_fault(Fault::UnsupportedGp1 { opcode })
        }
    }
}

/// The signed value of the low 11 bits of `value`.
pub open spec fn sign_extend_11(value: u16) -> i16 {
    ((value << 5) as i16) >> 5
}

/// Whether a GP1 command is carried out: it is supported and asks for
/// nothing that is not modelled.
pub open spec fn gp1_accepted(command: u32) -> bool {
    let opcode = command >> 24;
    (opcode <= 0x08 || 0x10 <= opcode <= 0x1F) && !(opcode == 0x08 && (command & 0x80) != 0)
}

impl GpuState {
    /// The invariant of a GPU.
    pub open spec fn wf(self) -> bool {
        &&& self.vram.len() == VRAM_WIDTH * VRAM_HEIGHT
        &&& self.vertices.len() <= MAX_BUFFER_SIZE
        &&& self.history.len() <= MAX_COMMAND_RECORD_SIZE
        &&& self.buffer.len() <= COMMAND_BUFFER_SIZE
        &&& (self.regs.decoder.gp0_mode is LoadImage ==> self.regs.decoder.gp0_words_remaining > 0)
        &&& (!(self.regs.decoder.gp0_mode is LoadImage) && self.regs.decoder.gp0_words_remaining > 0
            ==> self.buffer.len() + self.regs.decoder.gp0_words_remaining
            == self.regs.decoder.gp0_command.spec_words())
    }

    /// A GPU at power-on: VRAM cleared, nothing drawn, nothing recorded.
    pub open spec fn spec_new() -> GpuState {
        GpuState {
            regs: GpuRegisters::spec_power_on(),
            buffer: Seq::empty(),
            vram: Seq::new((VRAM_WIDTH * VRAM_HEIGHT) as nat, |i: int| 0u16),
            vertices: Seq::empty(),
            history: Seq::empty(),
        }
    }

    /// The pixel at column `x` of line `y`.
    pub open spec fn pixel(self, x: int, y: int) -> u16 {
        self.vram[y * VRAM_WIDTH as int + x]
    }

    /// An image transfer puts `value` where the walk stands and moves on.
    /// Once the walk has left the rectangle, nothing is written.
    pub open spec fn write_pixel(self, value: u16) -> GpuState {
        if self.regs.decoder.window.spec_exhausted() {
            self
        } else {
            GpuState {
                vram: self.vram.update(self.regs.decoder.window.spec_index(), value),
                regs: self.regs.with_window(self.regs.decoder.window.spec_advance()),
                ..self
            }
        }
    }

    /// An image transfer takes the pixel where the walk stands and moves on.
    /// Once the walk has left the rectangle, it takes 0.
    pub open spec fn read_pixel(self) -> (GpuState, u16) {
        if self.regs.decoder.window.spec_exhausted() {
            (self, 0u16)
        } else {
            (
                GpuState {
                    regs: self.regs.with_window(self.regs.decoder.window.spec_advance()),
                    ..self
                },
                self.vram[self.regs.decoder.window.spec_index()],
            )
        }
    }

    /// A read of the data port. While an image is being stored, each read
    /// takes two pixels, the first in the low half; the last one ends the
    /// transfer. Otherwise the read returns the latched word.
    #[verifier::opaque]
    pub open spec fn read(self) -> (GpuState, u32) {
        if self.regs.decoder.gp0_mode is StoreImage {
            let (s1, a) = self.read_pixel();
            let (s2, b) = s1.read_pixel();
            let response = ((b as u32) << 16) | (a as u32);
            (
                GpuState {
                    regs: GpuRegisters {
                        read_response: response,
                        decoder: Decoder {
                            gp0_mode: if s2.regs.decoder.window.spec_exhausted() {
                                GP0Mode::Command
                            } else {
                                GP0Mode::StoreImage
                            },
                            ..s2.regs.decoder
                        },
                        ..s2.regs
                    },
                    ..s2
                },
                response,
            )
        } else {
            (self, self.regs.read_response)
        }
    }

    pub open spec fn with_regs(self, regs: GpuRegisters) -> GpuState {
        GpuState { regs, ..self }
    }

    pub open spec fn with_decoder(self, decoder: Decoder) -> GpuState {
        GpuState { regs: self.regs.with_decoder(decoder), ..self }
    }

    pub open spec fn with_settings(self, settings: DrawSettings) -> GpuState {
        GpuState { regs: GpuRegisters { settings, ..self.regs }, ..self }
    }

    pub open spec fn with_quad(self, positions: Seq<Position>, colors: Seq<Color>) -> GpuState {
        GpuState { vertices: spec_push(self.vertices, quad_vertices(positions, colors)), ..self }
    }

    /// GP0 0x28: a quad of one colour. Word 0 holds the colour, words 1 to 4
    /// the corners.
    pub open spec fn draw_quad_mono_opaque(self) -> GpuState {
        let b = self.buffer;
        let c = Color::spec_from_command(b[0]);
        self.with_quad(
            seq![
                Position::spec_from_command(b[1]),
                Position::spec_from_command(b[2]),
                Position::spec_from_command(b[3]),
                Position::spec_from_command(b[4]),
            ],
            seq![c, c, c, c],
        )
    }

    /// GP0 0x2C: a textured quad. Words 1, 3, 5 and 7 hold the corners; the
    /// texture is not sampled, and the quad is drawn in a placeholder colour.
    pub open spec fn draw_quad_textured_opaque(self) -> GpuState {
        let b = self.buffer;
        let c = Color(255, 20, 147);
        self.with_quad(
            seq![
                Position::spec_from_command(b[1]),
                Position::spec_from_command(b[3]),
                Position::spec_from_command(b[5]),
                Position::spec_from_command(b[7]),
            ],
            seq![c, c, c, c],
        )
    }

    /// GP0 0x30: a shaded triangle. Words 0, 2 and 4 hold the colours, words
    /// 1, 3 and 5 the corners.
    pub open spec fn draw_triangle_shaded_opaque(self) -> GpuState {
        let b = self.buffer;
        GpuState {
            vertices: spec_push(
                self.vertices,
                triangle_vertices(
                    seq![
                        Position::spec_from_command(b[1]),
                        Position::spec_from_command(b[3]),
                        Position::spec_from_command(b[5]),
                    ],
                    seq![
                        Color::spec_from_command(b[0]),
                        Color::spec_from_command(b[2]),
                        Color::spec_from_command(b[4]),
                    ],
                ),
            ),
            ..self
        }
    }

    /// GP0 0x38: a shaded quad. Words 0, 2, 4 and 6 hold the colours, words
    /// 1, 3, 5 and 7 the corners.
    pub open spec fn draw_quad_shaded_opaque(self) -> GpuState {
        let b = self.buffer;
        self.with_quad(
            seq![
                Position::spec_from_command(b[1]),
                Position::spec_from_command(b[3]),
                Position::spec_from_command(b[5]),
                Position::spec_from_command(b[7]),
            ],
            seq![
                Color::spec_from_command(b[0]),
                Color::spec_from_command(b[2]),
                Color::spec_from_command(b[4]),
                Color::spec_from_command(b[6]),
            ],
        )
    }

    /// GP0 0x68: a dot, drawn as a quad one pixel wide and high. Word 0
    /// holds the colour, word 1 the position.
    pub open spec fn draw_dot_mono_opaque(self) -> GpuState {
        let b = self.buffer;
        let p = Position::spec_from_command(b[1]);
        let c = Color::spec_from_command(b[0]);
        self.with_quad(
            seq![
                p,
                Position(p.0.wrapping_add(1), p.1),
                Position(p.0, p.1.wrapping_add(1)),
                Position(p.0.wrapping_add(1), p.1.wrapping_add(1)),
            ],
            seq![c, c, c, c],
        )
    }

    /// GP0 0xA0: the words that follow are pixels for the rectangle that
    /// word 1 (corner) and word 2 (size) give. An empty rectangle takes none.
    pub open spec fn load_image(self) -> GpuState {
        let b = self.buffer;
        let width = b[2] & 0xFFFF;
        let height = b[2] >> 16;
        if width == 0 || height == 0 {
            self
        } else {
            self.with_decoder(
                Decoder {
                    gp0_words_remaining: image_words(width, height),
                    gp0_mode: GP0Mode::LoadImage,
                    window: VramWindow::spec_at(b[1] & 0xFFFF, b[1] >> 16, width, height),
                    ..self.regs.decoder
                },
            )
        }
    }

    /// GP0 0xC0: reads of the data port now take the pixels of the rectangle
    /// that word 1 (corner) and word 2 (size) give. An empty rectangle gives
    /// none.
    pub open spec fn store_image(self) -> GpuState {
        let b = self.buffer;
        let width = b[2] & 0xFFFF;
        let height = b[2] >> 16;
        if width == 0 || height == 0 {
            self
        } else {
            self.with_decoder(
                Decoder {
                    gp0_mode: GP0Mode::StoreImage,
                    window: VramWindow::spec_at(b[1] & 0xFFFF, b[1] >> 16, width, height),
                    ..self.regs.decoder
                },
            )
        }
    }

    /// The effect of the command whose words are all in the buffer.
    pub open spec fn execute(self) -> GpuState {
        let value = self.buffer[0];
        match self.regs.decoder.gp0_command {
            Gp0Command::Nop => self,
            Gp0Command::ClearCache => self,
            Gp0Command::QuadMonoOpaque => self.draw_quad_mono_opaque(),
            Gp0Command::QuadTexturedOpaque => self.draw_quad_textured_opaque(),
            Gp0Command::TriangleShadedOpaque => self.draw_triangle_shaded_opaque(),
            Gp0Command::QuadShadedOpaque => self.draw_quad_shaded_opaque(),
            Gp0Command::DotMonoOpaque => self.draw_dot_mono_opaque(),
            Gp0Command::LoadImage => self.load_image(),
            Gp0Command::StoreImage => self.store_image(),
            Gp0Command::DrawMode => self.with_regs(self.regs.spec_draw_mode(value)),
            Gp0Command::TextureWindow => self.with_settings(
                self.regs.settings.spec_texture_window(value),
            ),
            Gp0Command::DrawingAreaTopLeft => self.with_settings(
                self.regs.settings.spec_drawing_area_top_left(value),
            ),
            Gp0Command::DrawingAreaBottomRight => self.with_settings(
                self.regs.settings.spec_drawing_area_bottom_right(value),
            ),
            Gp0Command::DrawingOffset => self.with_settings(
                self.regs.settings.spec_drawing_offset(value),
            ),
            Gp0Command::MaskBitSetting => self.with_regs(
                GpuRegisters { flags: self.regs.flags.spec_mask_bit_setting(value), ..self.regs },
            ),
        }
    }

    /// A command word joins the buffer. The last word of a command runs its
    /// handler, once, and the command enters the history.
    pub open spec fn command_word(self, word: u32) -> GpuState {
        let remaining = (self.regs.decoder.gp0_words_remaining - 1) as u32;
        let s = GpuState {
            buffer: self.buffer.push(word),
            regs: self.regs.with_decoder(
                Decoder { gp0_words_remaining: remaining, ..self.regs.decoder },
            ),
            ..self
        };
        if remaining == 0 {
            let done = s.execute();
            GpuState { history: spec_record(done.history, Port::GP0, s.buffer), ..done }
        } else {
            s
        }
    }

    /// A data word of an image on its way into VRAM: two pixels, the first in
    /// the low half. The last word ends the transfer.
    pub open spec fn image_word(self, word: u32) -> GpuState {
        let remaining = (self.regs.decoder.gp0_words_remaining - 1) as u32;
        let s = self.write_pixel(low_pixel(word)).write_pixel(high_pixel(word));
        s.with_decoder(
            Decoder {
                gp0_words_remaining: remaining,
                gp0_mode: if remaining == 0 {
                    GP0Mode::Command
                } else {
                    GP0Mode::LoadImage
                },
                ..s.regs.decoder
            },
        )
    }

    /// A write to the GP0 port. A word that would start a command with an
    /// unsupported opcode is dropped, and the fault latched.
    #[verifier::opaque]
    pub open spec fn gp0(self, word: u32) -> GpuState {
        if self.regs.decoder.gp0_mode is LoadImage {
            self.image_word(word)
        } else if self.regs.decoder.gp0_words_remaining == 0 {
            match Gp0Command::spec_decode(word >> 24) {
                Some(command) => GpuState {
                    buffer: Seq::empty(),
                    regs: self.regs.with_decoder(
                        Decoder {
                            gp0_command: command,
                            gp0_words_remaining: command.spec_words(),
                            ..self.regs.decoder
                        },
                    ),
                    ..self
                }.command_word(word),
                None => self.with_regs(
                    self.regs.with_fault(Fault::UnsupportedGp0 { opcode: word >> 24 }),
                ),
            }
        } else {
            self.command_word(word)
        }
    }

    /// A write to the GP1 port. A command that is carried out enters the
    /// history; the two resets also empty the GP0 buffer. Any other command
    /// is dropped, and the fault latched.
    #[verifier::opaque]
    pub open spec fn gp1(self, command: u32) -> GpuState {
        let opcode = command >> 24;
        if gp1_accepted(command) {
            GpuState {
                regs: self.regs.spec_gp1(command),
                buffer: if opcode <= 1 {
                    Seq::empty()
                } else {
                    self.buffer
                },
                history: spec_record(self.history, Port::GP1, seq![command]),
                ..self
            }
        } else {
            self.with_regs(self.regs.spec_gp1(command))
        }
    }

    /// The GPU after the words of `words` were written to GP0 in order.
    pub open spec fn gp0_all(self, words: Seq<u32>) -> GpuState
        decreases words.len(),
    {
        if words.len() == 0 {
            self
        } else {
            self.gp0_all(words.drop_last()).gp0(words.last())
        }
    }
}

} // verus!
