//! The GPU's registers: the flags behind the status word, the drawing and
//! display settings, and the state of the GP0 command decoder.

use vstd::prelude::*;
use crate::bits::{flag, flag_bit};
use crate::fault::Fault;

verus! {

/// Who moves data between the CPU and the GPU.
#[derive(Debug, Copy, Clone, PartialEq, Eq, Structural)]
pub enum DMADirection {
    Off,
    FIFO,
    CPUToGP0,
    GPUToCPU,
}

impl DMADirection {
    pub open spec fn spec_bits(self) -> u32 {
        match self {
            DMADirection::Off => 0,
            DMADirection::FIFO => 1,
            DMADirection::CPUToGP0 => 2,
            DMADirection::GPUToCPU => 3,
        }
    }

    /// The direction that the two low bits of `value` select.
    pub open spec fn spec_from_bits(value: u32) -> DMADirection {
        if value & 3 == 0 {
            DMADirection::Off
        } else if value & 3 == 1 {
            DMADirection::FIFO
        } else if value & 3 == 2 {
            DMADirection::CPUToGP0
        } else {
            DMADirection::GPUToCPU
        }
    }

    #[verifier::when_used_as_spec(spec_bits)]
    pub fn bits(self) -> (b: u32)
        ensures
            b == self.spec_bits(),
            b <= 3,
    {
        match self {
            DMADirection::Off => 0,
            DMADirection::FIFO => 1,
            DMADirection::CPUToGP0 => 2,
            DMADirection::GPUToCPU => 3,
        }
    }

    #[verifier::when_used_as_spec(spec_from_bits)]
    pub fn from_bits(value: u32) -> (d: DMADirection)
        ensures
            d == DMADirection::spec_from_bits(value),
    {
        let low = value & 3;
        if low == 0 {
            DMADirection::Off
        } else if low == 1 {
            DMADirection::FIFO
        } else if low == 2 {
            DMADirection::CPUToGP0
        } else {
            DMADirection::GPUToCPU
        }
    }
}

/// The colour depth of texture pages.
#[derive(Debug, Copy, Clone, PartialEq, Eq, Structural)]
pub enum TextureDepth {
    Bits4,
    Bits8,
    Bits15,
}

impl TextureDepth {
    pub open spec fn spec_bits(self) -> u32 {
        match self {
            TextureDepth::Bits4 => 0,
            TextureDepth::Bits8 => 1,
            TextureDepth::Bits15 => 2,
        }
    }

    #[verifier::when_used_as_spec(spec_bits)]
    pub fn bits(self) -> (b: u32)
        ensures
            b == self.spec_bits(),
            b <= 2,
    {
        match self {
            TextureDepth::Bits4 => 0,
            TextureDepth::Bits8 => 1,
            TextureDepth::Bits15 => 2,
        }
    }
}

/// The horizontal resolution, as the three bits that the status word shows.
#[derive(Debug, Copy, Clone, PartialEq, Eq, Structural)]
pub struct HorizontalResolution(pub u8);

impl HorizontalResolution {
    pub open spec fn spec_from_bytes(b18_17: u8, b16: u8) -> HorizontalResolution {
        HorizontalResolution(((b18_17 & 3) << 1) | (b16 & 1))
    }

    pub open spec fn spec_into_status(&self) -> u32 {
        (self.0 as u32) << 16
    }

    /// Packs the two resolution fields of a display-mode command.
    #[verifier::when_used_as_spec(spec_from_bytes)]
    pub fn from_bytes(b18_17: u8, b16: u8) -> (h: HorizontalResolution)
        ensures
            h == HorizontalResolution::spec_from_bytes(b18_17, b16),
    {
        HorizontalResolution(((b18_17 & 3) << 1) | (b16 & 1))
    }

    /// The resolution bits in their place in the status word.
    #[verifier::when_used_as_spec(spec_into_status)]
    pub fn into_status(&self) -> (r: u32)
        ensures
            r == self.spec_into_status(),
    {
        (self.0 as u32) << 16
    }
}

#[derive(Debug, Copy, Clone, PartialEq, Eq, Structural)]
pub enum VerticalResolution {
    V240,
    V480,
}

#[derive(Debug, Copy, Clone, PartialEq, Eq, Structural)]
pub enum VideoMode {
    NTSC,
    PAL,
}

#[derive(Debug, Copy, Clone, PartialEq, Eq, Structural)]
pub enum DisplayDepth {
    Bits15,
    Bits24,
}

#[derive(Debug, Copy, Clone, PartialEq, Eq, Structural)]
pub enum Field {
    Bottom,
    Top,
}

/// What the GP0 port does with the next word written to it.
#[derive(Debug, Copy, Clone, PartialEq, Eq, Structural)]
pub enum GP0Mode {
    /// The word starts or continues a command.
    Command,
    /// The word holds two pixels of an image on its way into VRAM.
    LoadImage,
    /// As `Command`; meanwhile reads of the data port take pixels from VRAM.
    StoreImage,
}

/// The GP0 commands, by the handler that runs once all their words are in.
#[derive(Debug, Copy, Clone, PartialEq, Eq, Structural)]
pub enum Gp0Command {
    Nop,
    ClearCache,
    QuadMonoOpaque,
    QuadTexturedOpaque,
    TriangleShadedOpaque,
    QuadShadedOpaque,
    DotMonoOpaque,
    LoadImage,
    StoreImage,
    DrawMode,
    TextureWindow,
    DrawingAreaTopLeft,
    DrawingAreaBottomRight,
    DrawingOffset,
    MaskBitSetting,
}

impl Gp0Command {
    /// The command that an opcode byte names, if it is supported.
    pub open spec fn spec_decode(opcode: u32) -> Option<Gp0Command> {
        if opcode == 0x00 {
            Some(Gp0Command::Nop)
        } else if opcode == 0x01 {
            Some(Gp0Command::ClearCache)
        } else if opcode == 0x28 {
            Some(Gp0Command::QuadMonoOpaque)
        } else if opcode == 0x2C {
            Some(Gp0Command::QuadTexturedOpaque)
        } else if opcode == 0x30 {
            Some(Gp0Command::TriangleShadedOpaque)
        } else if opcode == 0x38 {
            Some(Gp0Command::QuadShadedOpaque)
        } else if opcode == 0x68 {
            Some(Gp0Command::DotMonoOpaque)
        } else if opcode == 0xA0 {
            Some(Gp0Command::LoadImage)
        } else if opcode == 0xC0 {
            Some(Gp0Command::StoreImage)
        } else if opcode == 0xE1 {
            Some(Gp0Command::DrawMode)
        } else if opcode == 0xE2 {
            Some(Gp0Command::TextureWindow)
        } else if opcode == 0xE3 {
            Some(Gp0Command::DrawingAreaTopLeft)
        } else if opcode == 0xE4 {
            Some(Gp0Command::DrawingAreaBottomRight)
        } else if opcode == 0xE5 {
            Some(Gp0Command::DrawingOffset)
        } else if opcode == 0xE6 {
            Some(Gp0Command::MaskBitSetting)
        } else {
            None
        }
    }

    /// The number of words that make up the command, its first word included.
    pub open spec fn spec_words(self) -> u32 {
        match self {
            Gp0Command::QuadMonoOpaque => 5,
            Gp0Command::QuadTexturedOpaque => 9,
            Gp0Command::TriangleShadedOpaque => 6,
            Gp0Command::QuadShadedOpaque => 8,
            Gp0Command::DotMonoOpaque => 2,
            Gp0Command::LoadImage => 3,
            Gp0Command::StoreImage => 3,
            _ => 1,
        }
    }

    #[verifier::when_used_as_spec(spec_decode)]
    pub fn decode(opcode: u32) -> (r: Option<Gp0Command>)
        ensures
            r == Gp0Command::spec_decode(opcode),
    {
        if opcode == 0x00 {
            Some(Gp0Command::Nop)
        } else if opcode == 0x01 {
            Some(Gp0Command::ClearCache)
        } else if opcode == 0x28 {
            Some(Gp0Command::QuadMonoOpaque)
        } else if opcode == 0x2C {
            Some(Gp0Command::QuadTexturedOpaque)
        } else if opcode == 0x30 {
            Some(Gp0Command::TriangleShadedOpaque)
        } else if opcode == 0x38 {
            Some(Gp0Command::QuadShadedOpaque)
        } else if opcode == 0x68 {
            Some(Gp0Command::DotMonoOpaque)
        } else if opcode == 0xA0 {
            Some(Gp0Command::LoadImage)
        } else if opcode == 0xC0 {
            Some(Gp0Command::StoreImage)
        } else if opcode == 0xE1 {
            Some(Gp0Command::DrawMode)
        } else if opcode == 0xE2 {
            Some(Gp0Command::TextureWindow)
        } else if opcode == 0xE3 {
            Some(Gp0Command::DrawingAreaTopLeft)
        } else if opcode == 0xE4 {
            Some(Gp0Command::DrawingAreaBottomRight)
        } else if opcode == 0xE5 {
            Some(Gp0Command::DrawingOffset)
        } else if opcode == 0xE6 {
            Some(Gp0Command::MaskBitSetting)
        } else {
            None
        }
    }

    #[verifier::when_used_as_spec(spec_words)]
    pub fn words(self) -> (n: u32)
        ensures
            n == self.spec_words(),
            1 <= n <= 9,
    {
        match self {
            Gp0Command::QuadMonoOpaque => 5,
            Gp0Command::QuadTexturedOpaque => 9,
            Gp0Command::TriangleShadedOpaque => 6,
            Gp0Command::QuadShadedOpaque => 8,
            Gp0Command::DotMonoOpaque => 2,
            Gp0Command::LoadImage => 3,
            Gp0Command::StoreImage => 3,
            _ => 1,
        }
    }
}

/// The width of VRAM in pixels.
pub const VRAM_WIDTH: usize = 1024;

/// The height of VRAM in lines.
pub const VRAM_HEIGHT: usize = 512;

/// The rectangle of VRAM that an image transfer walks, and how far it got.
/// The walk goes left to right, then top to bottom.
#[derive(Debug, Copy, Clone, PartialEq, Eq, Structural)]
pub struct VramWindow {
    pub start_x: u32,
    pub start_y: u32,
    pub end_x: u32,
    pub end_y: u32,
    pub current_x: u32,
    pub current_y: u32,
}

impl VramWindow {
    /// The window of `width` by `height` pixels whose top left corner is at
    /// (`x`, `y`), with the walk at its start.
    pub open spec fn spec_at(x: u32, y: u32, width: u32, height: u32) -> VramWindow {
        VramWindow {
            start_x: x,
            start_y: y,
            end_x: x.wrapping_add(width),
            end_y: y.wrapping_add(height),
            current_x: x,
            current_y: y,
        }
    }

    /// Whether the walk has left the last line.
    pub open spec fn spec_exhausted(self) -> bool {
        self.current_y == self.end_y
    }

    /// The place in VRAM of the pixel that the walk stands on. Coordinates
    /// past the edge of VRAM wrap around.
    pub open spec fn spec_index(self) -> int {
        (self.current_y as int % VRAM_HEIGHT as int) * VRAM_WIDTH as int + (self.current_x as int
            % VRAM_WIDTH as int)
    }

    /// The window after the walk moved on by one pixel.
    pub open spec fn spec_advance(self) -> VramWindow {
        if self.current_x.wrapping_add(1) == self.end_x {
            VramWindow {
                current_x: self.start_x,
                current_y: self.current_y.wrapping_add(1),
                ..self
            }
        } else {
            VramWindow { current_x: self.current_x.wrapping_add(1), ..self }
        }
    }

    #[verifier::when_used_as_spec(spec_at)]
    pub fn at(x: u32, y: u32, width: u32, height: u32) -> (w: VramWindow)
        ensures
            w == VramWindow::spec_at(x, y, width, height),
    {
        VramWindow {
            start_x: x,
            start_y: y,
            end_x: x.wrapping_add(width),
            end_y: y.wrapping_add(height),
            current_x: x,
            current_y: y,
        }
    }

    #[verifier::when_used_as_spec(spec_exhausted)]
    pub fn exhausted(self) -> (r: bool)
        ensures
            r == self.spec_exhausted(),
    {
        self.current_y == self.end_y
    }

    pub fn index(self) -> (i: usize)
        ensures
            i == self.spec_index(),
            i < VRAM_WIDTH * VRAM_HEIGHT,
    {
        (self.current_y as usize % VRAM_HEIGHT) * VRAM_WIDTH + (self.current_x as usize
            % VRAM_WIDTH)
    }

    #[verifier::when_used_as_spec(spec_advance)]
    pub fn advance(self) -> (w: VramWindow)
        ensures
            w == self.spec_advance(),
    {
        if self.current_x.wrapping_add(1) == self.end_x {
            VramWindow {
                current_x: self.start_x,
                current_y: self.current_y.wrapping_add(1),
                ..self
            }
        } else {
            VramWindow { current_x: self.current_x.wrapping_add(1), ..self }
        }
    }
}

/// The flags that the status word shows.
#[derive(Debug, Copy, Clone, PartialEq, Eq, Structural)]
pub struct StatusFlags {
    pub dma_direction: DMADirection,
    pub irq: bool,
    pub display_disable: bool,
    pub interlace: bool,
    pub display_depth: DisplayDepth,
    pub video_mode: VideoMode,
    pub resolution_vertical: VerticalResolution,
    pub resolution_horizontal: HorizontalResolution,
    pub texture_disable: bool,
    pub field: Field,
    pub ignore_masked_pixels: bool,
    pub force_mask_bit: bool,
    pub draw_to_display: bool,
    pub dither: bool,
    pub texture_depth: TextureDepth,
    pub semitransparency: u8,
    pub texture_page_base_y: u8,
    pub texture_page_base_x: u8,
}

/// The drawing and display settings that the status word does not show.
#[derive(Debug, Copy, Clone, PartialEq, Eq, Structural)]
pub struct DrawSettings {
    pub texture_flip_x: bool,
    pub texture_flip_y: bool,
    pub texture_window_offset_y: u8,
    pub texture_window_offset_x: u8,
    pub texture_window_mask_y: u8,
    pub texture_window_mask_x: u8,
    pub drawing_area_top: u16,
    pub drawing_area_left: u16,
    pub drawing_area_right: u16,
    pub drawing_area_bottom: u16,
    pub drawing_offset_x: i16,
    pub drawing_offset_y: i16,
    pub display_vram_start_x: u16,
    pub display_vram_start_y: u16,
    pub display_horizontal_end: u16,
    pub display_horizontal_start: u16,
    pub display_vertical_end: u16,
    pub display_vertical_start: u16,
}

/// The state of the GP0 port.
#[derive(Debug, Copy, Clone, PartialEq, Eq, Structural)]
pub struct Decoder {
    /// The command that is being put together, or was last.
    pub gp0_command: Gp0Command,
    /// The words that the command, or the image on its way in, still lacks.
    pub gp0_words_remaining: u32,
    pub gp0_mode: GP0Mode,
    pub window: VramWindow,
}

/// Every scalar that the GPU holds.
#[derive(Debug, Copy, Clone, PartialEq, Eq, Structural)]
pub struct GpuRegisters {
    pub flags: StatusFlags,
    pub settings: DrawSettings,
    pub decoder: Decoder,
    /// The word that a read of the data port returns.
    pub read_response: u32,
    /// The first fatal condition met, if any.
    pub fault: Option<Fault>,
}

impl StatusFlags {
    /// The flags at power-on.
    pub open spec fn spec_power_on() -> StatusFlags {
        StatusFlags {
            dma_direction: DMADirection::Off,
            irq: false,
            display_disable: false,
            interlace: false,
            display_depth: DisplayDepth::Bits15,
            video_mode: VideoMode::NTSC,
            resolution_vertical: VerticalResolution::V240,
            resolution_horizontal: HorizontalResolution(0),
            texture_disable: false,
            field: Field::Top,
            ignore_masked_pixels: false,
            force_mask_bit: false,
            draw_to_display: false,
            dither: false,
            texture_depth: TextureDepth::Bits4,
            semitransparency: 0,
            texture_page_base_y: 0,
            texture_page_base_x: 0,
        }
    }

    /// The status word. Its bit 19, the vertical resolution, always reads 0.
    pub open spec fn spec_status(self) -> u32 {
        (1u32 << 31) | (self.dma_direction.spec_bits() << 29) | (1u32 << 28) | (1u32 << 27) | (1u32
            << 26) | (flag(self.dma_direction != DMADirection::Off, 25)) | flag(self.irq, 24)
            | flag(self.display_disable, 23) | flag(self.interlace, 22) | flag(
            self.display_depth == DisplayDepth::Bits24,
            21,
        ) | flag(self.video_mode == VideoMode::PAL, 20)
            | self.resolution_horizontal.spec_into_status() | flag(self.texture_disable, 15)
            | flag(self.field == Field::Top, 13) | flag(self.ignore_masked_pixels, 12) | flag(
            self.force_mask_bit,
            11,
        ) | flag(self.draw_to_display, 10) | flag(self.dither, 9) | (
        self.texture_depth.spec_bits() << 7) | ((self.semitransparency as u32) << 5) | ((
        self.texture_page_base_y as u32) << 4) | (self.texture_page_base_x as u32)
    }

    #[verifier::when_used_as_spec(spec_power_on)]
    pub fn power_on() -> (r: StatusFlags)
        ensures
            r == StatusFlags::spec_power_on(),
    {
        StatusFlags {
            dma_direction: DMADirection::Off,
            irq: false,
            display_disable: false,
            interlace: false,
            display_depth: DisplayDepth::Bits15,
            video_mode: VideoMode::NTSC,
            resolution_vertical: VerticalResolution::V240,
            resolution_horizontal: HorizontalResolution(0),
            texture_disable: false,
            field: Field::Top,
            ignore_masked_pixels: false,
            force_mask_bit: false,
            draw_to_display: false,
            dither: false,
            texture_depth: TextureDepth::Bits4,
            semitransparency: 0,
            texture_page_base_y: 0,
            texture_page_base_x: 0,
        }
    }

    #[verifier::when_used_as_spec(spec_status)]
    pub fn status(self) -> (r: u32)
        ensures
            r == self.spec_status(),
    {
        (1u32 << 31) | (self.dma_direction.bits() << 29) | (1u32 << 28) | (1u32 << 27) | (1u32
            << 26) | (flag_bit(self.dma_direction != DMADirection::Off, 25)) | flag_bit(
            self.irq,
            24,
        ) | flag_bit(self.display_disable, 23) | flag_bit(self.interlace, 22) | flag_bit(
            self.display_depth == DisplayDepth::Bits24,
            21,
        ) | flag_bit(self.video_mode == VideoMode::PAL, 20)
            | self.resolution_horizontal.into_status() | flag_bit(self.texture_disable, 15)
            | flag_bit(self.field == Field::Top, 13) | flag_bit(self.ignore_masked_pixels, 12)
            | flag_bit(self.force_mask_bit, 11) | flag_bit(self.draw_to_display, 10) | flag_bit(
            self.dither,
            9,
        ) | (self.texture_depth.bits() << 7) | ((self.semitransparency as u32) << 5) | ((
        self.texture_page_base_y as u32) << 4) | (self.texture_page_base_x as u32)
    }
}

impl DrawSettings {
    /// The settings at power-on: all zero.
    pub open spec fn spec_power_on() -> DrawSettings {
        DrawSettings {
            texture_flip_x: false,
            texture_flip_y: false,
            texture_window_offset_y: 0,
            texture_window_offset_x: 0,
            texture_window_mask_y: 0,
            texture_window_mask_x: 0,
            drawing_area_top: 0,
            drawing_area_left: 0,
            drawing_area_right: 0,
            drawing_area_bottom: 0,
            drawing_offset_x: 0,
            drawing_offset_y: 0,
            display_vram_start_x: 0,
            display_vram_start_y: 0,
            display_horizontal_end: 0,
            display_horizontal_start: 0,
            display_vertical_end: 0,
            display_vertical_start: 0,
        }
    }

    #[verifier::when_used_as_spec(spec_power_on)]
    pub fn power_on() -> (r: DrawSettings)
        ensures
            r == DrawSettings::spec_power_on(),
    {
        DrawSettings {
            texture_flip_x: false,
            texture_flip_y: false,
            texture_window_offset_y: 0,
            texture_window_offset_x: 0,
            texture_window_mask_y: 0,
            texture_window_mask_x: 0,
            drawing_area_top: 0,
            drawing_area_left: 0,
            drawing_area_right: 0,
            drawing_area_bottom: 0,
            drawing_offset_x: 0,
            drawing_offset_y: 0,
            display_vram_start_x: 0,
            display_vram_start_y: 0,
            display_horizontal_end: 0,
            display_horizontal_start: 0,
            display_vertical_end: 0,
            display_vertical_start: 0,
        }
    }
}

impl Decoder {
    /// The port at power-on: waiting for a command.
    pub open spec fn spec_power_on() -> Decoder {
        Decoder {
            gp0_command: Gp0Command::Nop,
            gp0_words_remaining: 0,
            gp0_mode: GP0Mode::Command,
            window: VramWindow {
                start_x: 0,
                start_y: 0,
                end_x: 0,
                end_y: 0,
                current_x: 0,
                current_y: 0,
            },
        }
    }

    /// The port after its buffer was reset: waiting for a command. The image
    /// window stays.
    pub open spec fn spec_reset(self) -> Decoder {
        Decoder { gp0_words_remaining: 0, gp0_mode: GP0Mode::Command, ..self }
    }

    #[verifier::when_used_as_spec(spec_power_on)]
    pub fn power_on() -> (r: Decoder)
        ensures
            r == Decoder::spec_power_on(),
    {
        Decoder {
            gp0_command: Gp0Command::Nop,
            gp0_words_remaining: 0,
            gp0_mode: GP0Mode::Command,
            window: VramWindow {
                start_x: 0,
                start_y: 0,
                end_x: 0,
                end_y: 0,
                current_x: 0,
                current_y: 0,
            },
        }
    }

    #[verifier::when_used_as_spec(spec_reset)]
    pub fn reset(self) -> (r: Decoder)
        ensures
            r == self.spec_reset(),
    {
        Decoder { gp0_words_remaining: 0, gp0_mode: GP0Mode::Command, ..self }
    }
}

impl GpuRegisters {
    /// The registers at power-on.
    pub open spec fn spec_power_on() -> GpuRegisters {
        GpuRegisters {
            flags: StatusFlags::spec_power_on(),
            settings: DrawSettings::spec_power_on(),
            decoder: Decoder::spec_power_on(),
            read_response: 0,
            fault: None,
        }
    }

    /// The registers after a reset command: as at power-on, but with the
    /// display disabled. The image window and a latched fault survive.
    pub open spec fn spec_reset(self) -> GpuRegisters {
        GpuRegisters {
            flags: StatusFlags { display_disable: true, ..StatusFlags::spec_power_on() },
            settings: DrawSettings::spec_power_on(),
            decoder: self.decoder.spec_reset(),
            read_response: 0,
            fault: self.fault,
        }
    }

    #[verifier::when_used_as_spec(spec_power_on)]
    pub fn power_on() -> (r: GpuRegisters)
        ensures
            r == GpuRegisters::spec_power_on(),
    {
        GpuRegisters {
            flags: StatusFlags::power_on(),
            settings: DrawSettings::power_on(),
            decoder: Decoder::power_on(),
            read_response: 0,
            fault: None,
        }
    }

    #[verifier::when_used_as_spec(spec_reset)]
    pub fn reset(self) -> (r: GpuRegisters)
        ensures
            r == self.spec_reset(),
    {
        GpuRegisters {
            flags: StatusFlags { display_disable: true, ..StatusFlags::power_on() },
            settings: DrawSettings::power_on(),
            decoder: self.decoder.reset(),
            read_response: 0,
            fault: self.fault,
        }
    }
}

} // verus!
