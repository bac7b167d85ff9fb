//! The GPU command processor: the GP0 word FIFO, the GP1 control port, the
//! status word and the image transfers into and out of VRAM.

use vstd::prelude::*;
use std::collections::VecDeque;
use crate::fault::{Fault, latch};
use crate::gpu_registers::{
    DMADirection,
    DisplayDepth,
    DrawSettings,
    GP0Mode,
    Gp0Command,
    GpuRegisters,
    HorizontalResolution,
    StatusFlags,
    TextureDepth,
    VerticalResolution,
    VideoMode,
    VramWindow,
    VRAM_HEIGHT,
    VRAM_WIDTH,
};
pub use crate::gpu_state::Port;
use crate::gpu_state::{GpuState, COMMAND_BUFFER_SIZE, MAX_COMMAND_RECORD_SIZE, spec_record};
use crate::opcode::lemma_fields_bounded;
use crate::renderer::{Color, Position, Renderer};

verus! {

/// The words of one command, in the order in which they arrived.
#[derive(Debug, Clone, Copy)]
pub struct CommandBuffer {
    pub data: [u32; 12],
    pub current_length: usize,
}

impl View for CommandBuffer {
    type V = Seq<u32>;

    open spec fn view(&self) -> Seq<u32> {
        self.data@.take(self.current_length as int)
    }
}

impl CommandBuffer {
    pub open spec fn wf(&self) -> bool {
        self.current_length <= COMMAND_BUFFER_SIZE
    }

    /// An empty buffer: no word is held, and every slot is zero.
    pub fn new() -> (b: CommandBuffer)
        ensures
            b.wf(),
            b@ == Seq::<u32>::empty(),
            b.current_length == 0,
            b.data@ == Seq::new(COMMAND_BUFFER_SIZE as nat, |i: int| 0u32),
    {
        let b = CommandBuffer { data: [0; 12], current_length: 0 };
        assert(b@ =~= Seq::<u32>::empty());
        assert(b.data@ =~= Seq::new(COMMAND_BUFFER_SIZE as nat, |i: int| 0u32));
        b
    }

    /// A buffer that holds the one word `word`.
    pub fn single(word: u32) -> (b: CommandBuffer)
        ensures
            b.wf(),
            b@ == seq![word],
    {
        let b = CommandBuffer { data: [word; 12], current_length: 1 };
        assert(b@ =~= seq![word]);
        b
    }

    /// Forgets the words held.
    pub fn clear(&mut self)
        ensures
            final(self).wf(),
            final(self)@ == Seq::<u32>::empty(),
    {
        self.current_length = 0;
        assert(self@ =~= Seq::<u32>::empty());
    }

    /// Appends `word`.
    pub fn push(&mut self, word: u32)
        requires
            old(self).wf(),
            old(self)@.len() < COMMAND_BUFFER_SIZE,
        ensures
            final(self).wf(),
            final(self)@ == old(self)@.push(word),
    {
        self.data[self.current_length] = word;
        self.current_length += 1;
        assert(self@ =~= old(self)@.push(word));
    }

    /// The number of words held.
    pub fn len(&self) -> (n: usize)
        requires
            self.wf(),
        ensures
            n == self@.len(),
    {
        self.current_length
    }

    /// The word at `index`.
    pub fn get(&self, index: usize) -> (word: u32)
        requires
            self.wf(),
            index < self@.len(),
        ensures
            word == self@[index as int],
    {
        self.data[index]
    }
}

/// A command that was carried out: the port it came through, and its words.
#[derive(Debug, Clone, Copy)]
pub struct CommandRecord(pub Port, pub CommandBuffer);

impl View for CommandRecord {
    type V = (Port, Seq<u32>);

    open spec fn view(&self) -> (Port, Seq<u32>) {
        (self.0, self.1@)
    }
}

/// The history that a queue of records stands for.
pub open spec fn history_view(records: Seq<CommandRecord>) -> Seq<(Port, Seq<u32>)> {
    Seq::new(records.len(), |i: int| records[i]@)
}

impl DrawSettings {
    pub fn texture_window(self, value: u32) -> (r: DrawSettings)
        ensures
            r == self.spec_texture_window(value),
    {
        DrawSettings {
            texture_window_offset_y: #[verifier::truncate] (((value >> 15) & 0x1F) as u8),
            texture_window_offset_x: #[verifier::truncate] (((value >> 10) & 0x1F) as u8),
            texture_window_mask_y: #[verifier::truncate] (((value >> 5) & 0x1F) as u8),
            texture_window_mask_x: #[verifier::truncate] ((value & 0x1F) as u8),
            ..self
        }
    }

    pub fn drawing_area_top_left(self, value: u32) -> (r: DrawSettings)
        ensures
            r == self.spec_drawing_area_top_left(value),
    {
        DrawSettings {
            drawing_area_top: #[verifier::truncate] (((value >> 10) & 0x3FF) as u16),
            drawing_area_left: #[verifier::truncate] ((value & 0x3FF) as u16),
            ..self
        }
    }

    pub fn drawing_area_bottom_right(self, value: u32) -> (r: DrawSettings)
        ensures
            r == self.spec_drawing_area_bottom_right(value),
    {
        DrawSettings {
            drawing_area_bottom: #[verifier::truncate] (((value >> 10) & 0x3FF) as u16),
            drawing_area_right: #[verifier::truncate] ((value & 0x3FF) as u16),
            ..self
        }
    }

    pub fn drawing_offset(self, value: u32) -> (r: DrawSettings)
        ensures
            r == self.spec_drawing_offset(value),
    {
        let x = #[verifier::truncate] ((value & 0x7FF) as u16);
        let y = #[verifier::truncate] (((value >> 11) & 0x7FF) as u16);
        // An 11-bit two's complement value: moved to the top of the half-word
        // and back, so that the shift right copies the sign.
        DrawSettings {
            drawing_offset_x: (#[verifier::truncate] ((x << 5) as i16)) >> 5,
            drawing_offset_y: (#[verifier::truncate] ((y << 5) as i16)) >> 5,
            ..self
        }
    }

    pub fn display_vram_start(self, value: u32) -> (r: DrawSettings)
        ensures
            r == self.spec_display_vram_start(value),
    {
        DrawSettings {
            display_vram_start_y: #[verifier::truncate] (((value >> 10) & 0x1FF) as u16),
            display_vram_start_x: #[verifier::truncate] ((value & 0x3FE) as u16),
            ..self
        }
    }

    pub fn display_horizontal_range(self, value: u32) -> (r: DrawSettings)
        ensures
            r == self.spec_display_horizontal_range(value),
    {
        DrawSettings {
            display_horizontal_end: #[verifier::truncate] (((value >> 12) & 0xFFF) as u16),
            display_horizontal_start: #[verifier::truncate] ((value & 0xFFF) as u16),
            ..self
        }
    }

    pub fn display_vertical_range(self, value: u32) -> (r: DrawSettings)
        ensures
            r == self.spec_display_vertical_range(value),
    {
        DrawSettings {
            display_vertical_end: #[verifier::truncate] (((value >> 10) & 0x3FF) as u16),
            display_vertical_start: #[verifier::truncate] ((value & 0x3FF) as u16),
            ..self
        }
    }

    pub fn gpu_info(self, value: u32, latched: u32) -> (r: u32)
        ensures
            r == self.spec_gpu_info(value, latched),
    {
        let selector = value & 7;
        if selector == 2 {
            (self.texture_window_mask_x as u32) | ((self.texture_window_mask_y as u32) << 5) | ((
            self.texture_window_offset_x as u32) << 10) | ((self.texture_window_offset_y as u32)
                << 15)
        } else if selector == 3 {
            (self.drawing_area_left as u32) | ((self.drawing_area_top as u32) << 10)
        } else if selector == 4 {
            (self.drawing_area_right as u32) | ((self.drawing_area_bottom as u32) << 10)
        } else if selector == 5 {
            // Masked, as the offsets are kept sign-extended.
            ((#[verifier::truncate] ((self.drawing_offset_x & 0x7FF) as u16)) as u32) | (((
            #[verifier::truncate]
            ((self.drawing_offset_y & 0x7FF) as u16)) as u32) << 11)
        } else {
            latched
        }
    }
}

impl StatusFlags {
    pub fn draw_mode(self, value: u32) -> (r: StatusFlags)
        ensures
            r == self.spec_draw_mode(value),
    {
        let depth = (value >> 7) & 3;
        StatusFlags {
            texture_disable: (value >> 11) & 1 != 0,
            draw_to_display: (value >> 10) & 1 != 0,
            dither: (value >> 9) & 1 != 0,
            texture_depth: if depth == 0 {
                TextureDepth::Bits4
            } else if depth == 1 {
                TextureDepth::Bits8
            } else {
                TextureDepth::Bits15
            },
            semitransparency: #[verifier::truncate] (((value >> 5) & 3) as u8),
            texture_page_base_y: #[verifier::truncate] (((value >> 4) & 1) as u8),
            texture_page_base_x: #[verifier::truncate] ((value & 0xF) as u8),
            ..self
        }
    }

    pub fn mask_bit_setting(self, value: u32) -> (r: StatusFlags)
        ensures
            r == self.spec_mask_bit_setting(value),
    {
        StatusFlags {
            ignore_masked_pixels: (value & 2) != 0,
            force_mask_bit: (value & 1) != 0,
            ..self
        }
    }

    pub fn display_mode(self, value: u32) -> (r: StatusFlags)
        ensures
            r == self.spec_display_mode(value),
    {
        StatusFlags {
            interlace: (value & 0x20) != 0,
            display_depth: if (value & 0x10) != 0 {
                DisplayDepth::Bits24
            } else {
                DisplayDepth::Bits15
            },
            video_mode: if (value & 8) != 0 {
                VideoMode::PAL
            } else {
                VideoMode::NTSC
            },
            resolution_vertical: if (value & 4) != 0 {
                VerticalResolution::V480
            } else {
                VerticalResolution::V240
            },
            resolution_horizontal: HorizontalResolution::from_bytes(
                #[verifier::truncate]
                ((value & 3) as u8),
                #[verifier::truncate]
                (((value >> 6) & 1) as u8),
            ),
            ..self
        }
    }
}

impl GpuRegisters {
    pub fn draw_mode(self, value: u32) -> (r: GpuRegisters)
        ensures
            r == self.spec_draw_mode(value),
    {
        if (value >> 7) & 3 == 3 {
            GpuRegisters { fault: latch(self.fault, Fault::ReservedTextureDepth), ..self }
        } else {
            GpuRegisters {
                flags: self.flags.draw_mode(value),
                settings: DrawSettings {
                    texture_flip_y: (value >> 13) & 1 != 0,
                    texture_flip_x: (value >> 12) & 1 != 0,
                    ..self.settings
                },
                ..self
            }
        }
    }

    pub fn gp1(self, command: u32) -> (r: GpuRegisters)
        ensures
            r == self.spec_gp1(command),
    {
        let opcode = command >> 24;
        if opcode == 0x00 {
            self.reset()
        } else if opcode == 0x01 {
            GpuRegisters { decoder: self.decoder.reset(), ..self }
        } else if opcode == 0x02 {
            GpuRegisters { flags: StatusFlags { irq: false, ..self.flags }, ..self }
        } else if opcode == 0x03 {
            GpuRegisters {
                flags: StatusFlags { display_disable: (command & 1) != 0, ..self.flags },
                ..self
            }
        } else if opcode == 0x04 {
            GpuRegisters {
                flags: StatusFlags { dma_direction: DMADirection::from_bits(command), ..self.flags },
                ..self
            }
        } else if opcode == 0x05 {
            GpuRegisters { settings: self.settings.display_vram_start(command), ..self }
        } else if opcode == 0x06 {
            GpuRegisters { settings: self.settings.display_horizontal_range(command), ..self }
        } else if opcode == 0x07 {
            GpuRegisters { settings: self.settings.display_vertical_range(command), ..self }
        } else if opcode == 0x08 {
            if (command & 0x80) != 0 {
                GpuRegisters { fault: latch(self.fault, Fault::ReverseFlag), ..self }
            } else {
                GpuRegisters { flags: self.flags.display_mode(command), ..self }
            }
        } else if 0x10 <= opcode && opcode <= 0x1F {
            GpuRegisters {
                read_response: self.settings.gpu_info(command, self.read_response),
                ..self
            }
        } else {
            GpuRegisters { fault: latch(self.fault, Fault::UnsupportedGp1 { opcode }), ..self }
        }
    }
}

pub struct GPU {
    regs: GpuRegisters,
    gp0_command_buffer: CommandBuffer,
    vram: Vec<u16>,
    /// The last commands carried out, oldest first; for a debugger to show.
    pub previous_commands: VecDeque<CommandRecord>,
    renderer: Renderer,
}

impl View for GPU {
    type V = GpuState;

    closed spec fn view(&self) -> GpuState {
        GpuState {
            regs: self.regs,
            buffer: self.gp0_command_buffer@,
            vram: self.vram@,
            vertices: self.renderer@,
            history: history_view(self.previous_commands@),
        }
    }
}

impl GPU {
    /// The invariant of a GPU: that of its model, and a sound buffer.
    pub closed spec fn wf(&self) -> bool {
        &&& self.gp0_command_buffer.wf()
        &&& self@.wf()
    }

    /// A well-formed GPU has a well-formed model.
    pub proof fn lemma_wf(&self)
        requires
            self.wf(),
        ensures
            self@.wf(),
    {
    }

    /// A GPU at power-on.
    pub fn new() -> (gpu: GPU)
        ensures
            gpu.wf(),
            gpu@ == GpuState::spec_new(),
    {
        let gpu = GPU {
            regs: GpuRegisters::power_on(),
            gp0_command_buffer: CommandBuffer::new(),
            vram: vec![0u16; VRAM_WIDTH * VRAM_HEIGHT],
            previous_commands: VecDeque::new(),
            renderer: Renderer::new(),
        };
        assert(gpu@.vram =~= GpuState::spec_new().vram);
        assert(gpu@.history =~= GpuState::spec_new().history);
        gpu
    }

    fn save_command(&mut self, port: Port, command: CommandBuffer)
        requires
            history_view(old(self).previous_commands@).len() <= MAX_COMMAND_RECORD_SIZE,
        ensures
            final(self)@.history == spec_record(old(self)@.history, port, command@),
            final(self)@.history.len() <= MAX_COMMAND_RECORD_SIZE,
            final(self).regs == old(self).regs,
            final(self).gp0_command_buffer == old(self).gp0_command_buffer,
            final(self).vram == old(self).vram,
            final(self).renderer == old(self).renderer,
    {
        if self.previous_commands.len() >= MAX_COMMAND_RECORD_SIZE {
            self.previous_commands.pop_front();
        }
        self.previous_commands.push_back(CommandRecord(port, command));
        assert(self@.history =~= spec_record(old(self)@.history, port, command@));
    }

    /// The status word.
    pub fn status(&self) -> (r: u32)
        ensures
            r == self@.regs.flags.spec_status(),
    {
        self.regs.flags.status()
    }

    /// The registers.
    pub fn registers(&self) -> (r: GpuRegisters)
        ensures
            r == self@.regs,
    {
        self.regs
    }

    /// The first fatal condition met, if any.
    pub fn fault(&self) -> (r: Option<Fault>)
        ensures
            r == self@.regs.fault,
    {
        self.regs.fault
    }

    /// The pixel at column `x` of line `y`.
    pub fn vram_pixel(&self, x: usize, y: usize) -> (r: u16)
        requires
            self.wf(),
            x < VRAM_WIDTH,
            y < VRAM_HEIGHT,
        ensures
            r == self@.pixel(x as int, y as int),
    {
        assert(y * VRAM_WIDTH + x < VRAM_WIDTH * VRAM_HEIGHT) by (nonlinear_arith)
            requires
                x < VRAM_WIDTH,
                y < VRAM_HEIGHT,
        ;
        self.vram[y * VRAM_WIDTH + x]
    }

    /// The triangles waiting to be drawn.
    pub fn renderer(&self) -> (r: &Renderer)
        ensures
            r@ == self@.vertices,
    {
        &self.renderer
    }

    /// Empties the list of triangles, once they are drawn.
    pub fn clear_vertices(&mut self)
        requires
            old(self).wf(),
        ensures
            final(self).wf(),
            final(self)@ == (GpuState { vertices: Seq::empty(), ..old(self)@ }),
    {
        self.renderer.clear();
    }

    fn read_vram_pixel(&mut self) -> (r: u16)
        requires
            old(self).vram@.len() == VRAM_WIDTH * VRAM_HEIGHT,
        ensures
            (final(self)@, r) == old(self)@.read_pixel(),
            final(self).gp0_command_buffer == old(self).gp0_command_buffer,
            final(self).vram@.len() == VRAM_WIDTH * VRAM_HEIGHT,
    {
        if self.regs.decoder.window.exhausted() {
            0
        } else {
            let value = self.vram[self.regs.decoder.window.index()];
            self.regs.decoder.window = self.regs.decoder.window.advance();
            value
        }
    }

    fn write_vram_pixel(&mut self, value: u16)
        requires
            old(self).vram@.len() == VRAM_WIDTH * VRAM_HEIGHT,
        ensures
            final(self)@ == old(self)@.write_pixel(value),
            final(self).gp0_command_buffer == old(self).gp0_command_buffer,
            final(self).vram@.len() == VRAM_WIDTH * VRAM_HEIGHT,
    {
        if !self.regs.decoder.window.exhausted() {
            let index = self.regs.decoder.window.index();
            self.vram[index] = value;
            self.regs.decoder.window = self.regs.decoder.window.advance();
        }
    }

    /// A read of the data port (GPUREAD).
    pub fn read(&mut self) -> (r: u32)
        requires
            old(self).wf(),
        ensures
            final(self).wf(),
            (final(self)@, r) == old(self)@.read(),
    {
        reveal(GpuState::read);
        match self.regs.decoder.gp0_mode {
            GP0Mode::StoreImage => {
                let a = self.read_vram_pixel();
                let b = self.read_vram_pixel();
                self.regs.read_response = ((b as u32) << 16) | (a as u32);
                if self.regs.decoder.window.exhausted() {
                    self.regs.decoder.gp0_mode = GP0Mode::Command;
                }
            },
            _ => {},
        }
        self.regs.read_response
    }

    fn gp0_draw_quad_mono_opaque(&mut self)
        requires
            old(self).wf(),
            old(self)@.buffer.len() == 5,
        ensures
            final(self).wf(),
            final(self)@ == old(self)@.draw_quad_mono_opaque(),
            final(self).gp0_command_buffer == old(self).gp0_command_buffer,
    {
        let positions = [
            Position::from_command(self.gp0_command_buffer.get(1)),
            Position::from_command(self.gp0_command_buffer.get(2)),
            Position::from_command(self.gp0_command_buffer.get(3)),
            Position::from_command(self.gp0_command_buffer.get(4)),
        ];
        let color = Color::from_command(self.gp0_command_buffer.get(0));
        let colors = [color, color, color, color];
        self.renderer.push_quad(positions, colors);
        assert(positions@ =~= seq![positions[0], positions[1], positions[2], positions[3]]);
        assert(colors@ =~= seq![color, color, color, color]);
    }

    fn gp0_draw_quad_textured_opaque(&mut self)
        requires
            old(self).wf(),
            old(self)@.buffer.len() == 9,
        ensures
            final(self).wf(),
            final(self)@ == old(self)@.draw_quad_textured_opaque(),
            final(self).gp0_command_buffer == old(self).gp0_command_buffer,
    {
        let positions = [
            Position::from_command(self.gp0_command_buffer.get(1)),
            Position::from_command(self.gp0_command_buffer.get(3)),
            Position::from_command(self.gp0_command_buffer.get(5)),
            Position::from_command(self.gp0_command_buffer.get(7)),
        ];
        let color = Color(255, 20, 147);
        let colors = [color, color, color, color];
        self.renderer.push_quad(positions, colors);
        assert(positions@ =~= seq![positions[0], positions[1], positions[2], positions[3]]);
        assert(colors@ =~= seq![color, color, color, color]);
    }

    fn gp0_draw_triangle_shaded_opaque(&mut self)
        requires
            old(self).wf(),
            old(self)@.buffer.len() == 6,
        ensures
            final(self).wf(),
            final(self)@ == old(self)@.draw_triangle_shaded_opaque(),
            final(self).gp0_command_buffer == old(self).gp0_command_buffer,
    {
        let positions = [
            Position::from_command(self.gp0_command_buffer.get(1)),
            Position::from_command(self.gp0_command_buffer.get(3)),
            Position::from_command(self.gp0_command_buffer.get(5)),
        ];
        let colors = [
            Color::from_command(self.gp0_command_buffer.get(0)),
            Color::from_command(self.gp0_command_buffer.get(2)),
            Color::from_command(self.gp0_command_buffer.get(4)),
        ];
        self.renderer.push_triangle(positions, colors);
        assert(positions@ =~= seq![positions[0], positions[1], positions[2]]);
        assert(colors@ =~= seq![colors[0], colors[1], colors[2]]);
    }

    fn gp0_draw_quad_shaded_opaque(&mut self)
        requires
            old(self).wf(),
            old(self)@.buffer.len() == 8,
        ensures
            final(self).wf(),
            final(self)@ == old(self)@.draw_quad_shaded_opaque(),
            final(self).gp0_command_buffer == old(self).gp0_command_buffer,
    {
        let positions = [
            Position::from_command(self.gp0_command_buffer.get(1)),
            Position::from_command(self.gp0_command_buffer.get(3)),
            Position::from_command(self.gp0_command_buffer.get(5)),
            Position::from_command(self.gp0_command_buffer.get(7)),
        ];
        let colors = [
            Color::from_command(self.gp0_command_buffer.get(0)),
            Color::from_command(self.gp0_command_buffer.get(2)),
            Color::from_command(self.gp0_command_buffer.get(4)),
            Color::from_command(self.gp0_command_buffer.get(6)),
        ];
        self.renderer.push_quad(positions, colors);
        assert(positions@ =~= seq![positions[0], positions[1], positions[2], positions[3]]);
        assert(colors@ =~= seq![colors[0], colors[1], colors[2], colors[3]]);
    }

    fn gp0_draw_dot_mono_opaque(&mut self)
        requires
            old(self).wf(),
            old(self)@.buffer.len() == 2,
        ensures
            final(self).wf(),
            final(self)@ == old(self)@.draw_dot_mono_opaque(),
            final(self).gp0_command_buffer == old(self).gp0_command_buffer,
    {
        let pos = Position::from_command(self.gp0_command_buffer.get(1));
        let positions = [
            pos,
            Position(pos.0.wrapping_add(1), pos.1),
            Position(pos.0, pos.1.wrapping_add(1)),
            Position(pos.0.wrapping_add(1), pos.1.wrapping_add(1)),
        ];
        let color = Color::from_command(self.gp0_command_buffer.get(0));
        let colors = [color, color, color, color];
        self.renderer.push_quad(positions, colors);
        assert(positions@ =~= seq![positions[0], positions[1], positions[2], positions[3]]);
        assert(colors@ =~= seq![color, color, color, color]);
    }

    fn gp0_load_image(&mut self)
        requires
            old(self).gp0_command_buffer.wf(),
            old(self)@.buffer.len() == 3,
            !(old(self)@.regs.decoder.gp0_mode is LoadImage),
        ensures
            final(self)@ == old(self)@.load_image(),
            final(self).gp0_command_buffer == old(self).gp0_command_buffer,
            final(self)@.regs.decoder.gp0_mode is LoadImage ==> final(self)@.regs.decoder.gp0_words_remaining > 0,
            final(self)@.regs.decoder.gp0_mode == old(self)@.regs.decoder.gp0_mode
                || final(self)@.regs.decoder.gp0_mode is LoadImage,
            final(self)@.regs.decoder.gp0_mode == old(self)@.regs.decoder.gp0_mode
                ==> final(self)@.regs.decoder.gp0_words_remaining == old(self)@.regs.decoder.gp0_words_remaining,
    {
        let resolution = self.gp0_command_buffer.get(2);
        let corner = self.gp0_command_buffer.get(1);
        let width = resolution & 0xFFFF;
        let height = resolution >> 16;
        if width != 0 && height != 0 {
            proof {
                lemma_fields_bounded(resolution);
                assert(1 <= width * height <= 0xFFFF * 0xFFFF) by (nonlinear_arith)
                    requires
                        1 <= width <= 0xFFFF,
                        1 <= height <= 0xFFFF,
                ;
            }
            // Two pixels to a word; an odd count takes one word more.
            self.regs.decoder.gp0_words_remaining = (width * height + 1) / 2;
            self.regs.decoder.window = VramWindow::at(corner & 0xFFFF, corner >> 16, width, height);
            self.regs.decoder.gp0_mode = GP0Mode::LoadImage;
        }
    }

    fn gp0_store_image(&mut self)
        requires
            old(self).gp0_command_buffer.wf(),
            old(self)@.buffer.len() == 3,
        ensures
            final(self)@ == old(self)@.store_image(),
            final(self).gp0_command_buffer == old(self).gp0_command_buffer,
    {
        let resolution = self.gp0_command_buffer.get(2);
        let corner = self.gp0_command_buffer.get(1);
        let width = resolution & 0xFFFF;
        let height = resolution >> 16;
        if width != 0 && height != 0 {
            self.regs.decoder.window = VramWindow::at(corner & 0xFFFF, corner >> 16, width, height);
            self.regs.decoder.gp0_mode = GP0Mode::StoreImage;
        }
    }

    /// Runs the handler of the command whose words are all in the buffer.
    fn execute(&mut self)
        requires
            old(self).wf(),
            old(self)@.regs.decoder.gp0_words_remaining == 0,
            !(old(self)@.regs.decoder.gp0_mode is LoadImage),
            old(self)@.buffer.len() == old(self)@.regs.decoder.gp0_command.spec_words(),
        ensures
            final(self).wf(),
            final(self)@ == old(self)@.execute(),
            final(self).gp0_command_buffer == old(self).gp0_command_buffer,
    {
        let value = self.gp0_command_buffer.get(0);
        match self.regs.decoder.gp0_command {
            Gp0Command::Nop => {},
            Gp0Command::ClearCache => {},
            Gp0Command::QuadMonoOpaque => self.gp0_draw_quad_mono_opaque(),
            Gp0Command::QuadTexturedOpaque => self.gp0_draw_quad_textured_opaque(),
            Gp0Command::TriangleShadedOpaque => self.gp0_draw_triangle_shaded_opaque(),
            Gp0Command::QuadShadedOpaque => self.gp0_draw_quad_shaded_opaque(),
            Gp0Command::DotMonoOpaque => self.gp0_draw_dot_mono_opaque(),
            Gp0Command::LoadImage => self.gp0_load_image(),
            Gp0Command::StoreImage => self.gp0_store_image(),
            Gp0Command::DrawMode => {
                self.regs = self.regs.draw_mode(value);
            },
            Gp0Command::TextureWindow => {
                self.regs.settings = self.regs.settings.texture_window(value);
            },
            Gp0Command::DrawingAreaTopLeft => {
                self.regs.settings = self.regs.settings.drawing_area_top_left(value);
            },
            Gp0Command::DrawingAreaBottomRight => {
                self.regs.settings = self.regs.settings.drawing_area_bottom_right(value);
            },
            Gp0Command::DrawingOffset => {
                self.regs.settings = self.regs.settings.drawing_offset(value);
            },
            Gp0Command::MaskBitSetting => {
                self.regs.flags = self.regs.flags.mask_bit_setting(value);
            },
        }
    }

    /// Takes one more word of the command that is being put together.
    fn command_word(&mut self, word: u32)
        requires
            old(self).wf(),
            old(self)@.regs.decoder.gp0_words_remaining > 0,
            !(old(self)@.regs.decoder.gp0_mode is LoadImage),
        ensures
            final(self).wf(),
            final(self)@ == old(self)@.command_word(word),
    {
        self.gp0_command_buffer.push(word);
        self.regs.decoder.gp0_words_remaining = self.regs.decoder.gp0_words_remaining - 1;
        if self.regs.decoder.gp0_words_remaining == 0 {
            self.execute();
            self.save_command(Port::GP0, self.gp0_command_buffer);
        }
    }

    /// Takes one data word of an image on its way into VRAM.
    fn image_word(&mut self, word: u32)
        requires
            old(self).wf(),
            old(self)@.regs.decoder.gp0_mode is LoadImage,
        ensures
            final(self).wf(),
            final(self)@ == old(self)@.image_word(word),
    {
        self.write_vram_pixel(#[verifier::truncate] ((word & 0xFFFF) as u16));
        self.write_vram_pixel(#[verifier::truncate] ((word >> 16) as u16));
        self.regs.decoder.gp0_words_remaining = self.regs.decoder.gp0_words_remaining - 1;
        if self.regs.decoder.gp0_words_remaining == 0 {
            self.regs.decoder.gp0_mode = GP0Mode::Command;
        }
    }

    /// A write to the GP0 port.
    pub fn gp0(&mut self, command: u32)
        requires
            old(self).wf(),
        ensures
            final(self).wf(),
            final(self)@ == old(self)@.gp0(command),
    {
        reveal(GpuState::gp0);
        match self.regs.decoder.gp0_mode {
            GP0Mode::LoadImage => {
                self.image_word(command);
            },
            _ => {
                if self.regs.decoder.gp0_words_remaining == 0 {
                    // No command is being put together: this word starts one.
                    let opcode = command >> 24;
                    match Gp0Command::decode(opcode) {
                        Some(kind) => {
                            self.regs.decoder.gp0_command = kind;
                            self.gp0_command_buffer.clear();
                            self.regs.decoder.gp0_words_remaining = kind.words();
                            self.command_word(command);
                        },
                        None => {
                            self.regs.fault = latch(
                                self.regs.fault,
                                Fault::UnsupportedGp0 { opcode },
                            );
                        },
                    }
                } else {
                    self.command_word(command);
                }
            },
        }
    }

    /// A write to the GP1 port.
    pub fn gp1(&mut self, command: u32)
        requires
            old(self).wf(),
        ensures
            final(self).wf(),
            final(self)@ == old(self)@.gp1(command),
    {
        reveal(GpuState::gp1);
        let opcode = command >> 24;
        let accepted = (opcode <= 0x08 || (0x10 <= opcode && opcode <= 0x1F)) && !(opcode == 0x08
            && (command & 0x80) != 0);
        self.regs = self.regs.gp1(command);
        if accepted {
            if opcode <= 1 {
                self.gp0_command_buffer.clear();
            }
            self.save_command(Port::GP1, CommandBuffer::single(command));
        }
    }
}

} // verus!
