//! The sound processor: a file of 16-bit registers. No sound is made.

use vstd::prelude::*;
use crate::fault::{Fault, latch, spec_latch};

verus! {

/// The number of voice registers.
pub const VOICE_REGISTERS: usize = 0xC0;

/// The number of reverb registers.
pub const REVERB_REGISTERS: usize = 0x1F;

/// The control register.
#[derive(Debug, Copy, Clone, PartialEq, Eq, Structural)]
pub struct Control(pub u16);

/// The status register. Its low six bits mirror those of the control
/// register.
#[derive(Debug, Copy, Clone, PartialEq, Eq, Structural)]
pub struct Status(pub u16);

impl Status {
    /// The status with its mode, bits 5..0, replaced by the low six bits of
    /// `mode`.
    pub open spec fn spec_set_mode(self, mode: u16) -> Status {
        Status((self.0 & !0x3Fu16) | (mode & 0x3F))
    }

    /// The mode: bits 5..0.
    pub open spec fn spec_mode(self) -> u16 {
        self.0 & 0x3F
    }

    #[verifier::when_used_as_spec(spec_set_mode)]
    pub fn set_mode(self, mode: u16) -> (r: Status)
        ensures
            r == self.spec_set_mode(mode),
    {
        Status((self.0 & !0x3Fu16) | (mode & 0x3F))
    }

    #[verifier::when_used_as_spec(spec_mode)]
    pub fn mode(self) -> (r: u16)
        ensures
            r == self.spec_mode(),
    {
        self.0 & 0x3F
    }
}

/// The registers that are kept one by one.
#[derive(Debug, Copy, Clone, PartialEq, Eq, Structural)]
pub struct SpuRegisters {
    pub volume_main_left: u16,
    pub volume_main_right: u16,
    pub volume_reverb_left: u16,
    pub volume_reverb_right: u16,
    pub voice_on: u32,
    pub voice_off: u32,
    pub channel_pitch: u32,
    pub channel_noise: u32,
    pub channel_reverb: u32,
    /// Follows the writes to the voice on and off registers.
    pub channel_status: u32,
    pub address_irq: u16,
    pub address_transfer: u16,
    pub control: Control,
    pub control_transfer: u16,
    pub status: Status,
    pub volume_cd_left: u16,
    pub volume_cd_right: u16,
    pub volume_extern_left: u16,
    pub volume_extern_right: u16,
    pub fault: Option<Fault>,
}

/// `word` with its low half replaced by `half`.
pub open spec fn with_low_half(word: u32, half: u16) -> u32 {
    (word & 0xFFFF_0000) | (half as u32)
}

/// `word` with its high half replaced by `half`.
pub open spec fn with_high_half(word: u32, half: u16) -> u32 {
    (word & 0x0000_FFFF) | ((half as u32) << 16)
}

impl SpuRegisters {
    /// The registers at power-on: all zero.
    pub open spec fn spec_new() -> SpuRegisters {
        SpuRegisters {
            volume_main_left: 0,
            volume_main_right: 0,
            volume_reverb_left: 0,
            volume_reverb_right: 0,
            voice_on: 0,
            voice_off: 0,
            channel_pitch: 0,
            channel_noise: 0,
            channel_reverb: 0,
            channel_status: 0,
            address_irq: 0,
            address_transfer: 0,
            control: Control(0),
            control_transfer: 0,
            status: Status(0),
            volume_cd_left: 0,
            volume_cd_right: 0,
            volume_extern_left: 0,
            volume_extern_right: 0,
            fault: None,
        }
    }

    /// Whether a half-word write at `addr` reaches one of these registers.
    pub open spec fn write_accepted(addr: u32) -> bool {
        (0x180 <= addr <= 0x19A && addr % 2 == 0) || addr == 0x1A2 || addr == 0x1A4 || addr
            == 0x1A6 || addr == 0x1A8 || addr == 0x1AA || addr == 0x1AC || addr == 0x1AE || addr
            == 0x1B0 || addr == 0x1B2 || addr == 0x1B4 || addr == 0x1B6
    }

    /// The registers after a half-word write of `val` at `addr`. A write
    /// that turns voices on or off is followed by the channel status; a write
    /// to the control register copies its low six bits into the status.
    pub open spec fn spec_write16(self, addr: u32, val: u16) -> SpuRegisters {
        if addr == 0x180 {
            SpuRegisters { volume_main_left: val, ..self }
        } else if addr == 0x182 {
            SpuRegisters { volume_main_right: val, ..self }
        } else if addr == 0x184 {
            SpuRegisters { volume_reverb_left: val, ..self }
        } else if addr == 0x186 {
            SpuRegisters { volume_reverb_right: val, ..self }
        } else if addr == 0x188 {
            SpuRegisters {
                voice_on: with_low_half(self.voice_on, val),
                channel_status: with_low_half(self.channel_status, val),
                ..self
            }
        } else if addr == 0x18A {
            SpuRegisters {
                voice_on: with_high_half(self.voice_on, val),
                channel_status: with_high_half(self.channel_status, val),
                ..self
            }
        } else if addr == 0x18C {
            SpuRegisters {
                voice_off: with_low_half(self.voice_off, val),
                channel_status: (self.channel_status & 0xFFFF_0000) & !(val as u32),
                ..self
            }
        } else if addr == 0x18E {
            SpuRegisters {
                voice_off: with_high_half(self.voice_off, val),
                channel_status: (self.channel_status & 0x0000_FFFF) & !((val as u32) << 16),
                ..self
            }
        } else if addr == 0x190 {
            SpuRegisters { channel_pitch: with_high_half(self.channel_pitch, val), ..self }
        } else if addr == 0x192 {
            SpuRegisters { channel_pitch: with_low_half(self.channel_pitch, val), ..self }
        } else if addr == 0x194 {
            SpuRegisters { channel_noise: with_high_half(self.channel_noise, val), ..self }
        } else if addr == 0x196 {
            SpuRegisters { channel_noise: with_low_half(self.channel_noise, val), ..self }
        } else if addr == 0x198 {
            SpuRegisters { channel_reverb: with_high_half(self.channel_reverb, val), ..self }
        } else if addr == 0x19A {
            SpuRegisters { channel_reverb: with_low_half(self.channel_reverb, val), ..self }
        } else if addr == 0x1A4 {
            SpuRegisters { address_irq: val, ..self }
        } else if addr == 0x1A6 {
            SpuRegisters { address_transfer: val, ..self }
        } else if addr == 0x1AA {
            SpuRegisters { control: Control(val), status: self.status.spec_set_mode(val), ..self }
        } else if addr == 0x1AC {
            SpuRegisters { control_transfer: val, ..self }
        } else if addr == 0x1B0 {
            SpuRegisters { volume_cd_left: val, ..self }
        } else if addr == 0x1B2 {
            SpuRegisters { volume_cd_right: val, ..self }
        } else if addr == 0x1B4 {
            SpuRegisters { volume_extern_left: val, ..self }
        } else if addr == 0x1B6 {
            SpuRegisters { volume_extern_right: val, ..self }
        } else {
            self
        }
    }

    #[verifier::when_used_as_spec(spec_new)]
    pub fn new() -> (r: SpuRegisters)
        ensures
            r == SpuRegisters::spec_new(),
    {
        SpuRegisters {
            volume_main_left: 0,
            volume_main_right: 0,
            volume_reverb_left: 0,
            volume_reverb_right: 0,
            voice_on: 0,
            voice_off: 0,
            channel_pitch: 0,
            channel_noise: 0,
            channel_reverb: 0,
            channel_status: 0,
            address_irq: 0,
            address_transfer: 0,
            control: Control(0),
            control_transfer: 0,
            status: Status(0),
            volume_cd_left: 0,
            volume_cd_right: 0,
            volume_extern_left: 0,
            volume_extern_right: 0,
            fault: None,
        }
    }

    #[verifier::when_used_as_spec(spec_write16)]
    pub fn write16(self, addr: u32, val: u16) -> (r: SpuRegisters)
        ensures
            r == self.spec_write16(addr, val),
    {
        let low = val as u32;
        let high = (val as u32) << 16;
        if addr == 0x180 {
            SpuRegisters { volume_main_left: val, ..self }
        } else if addr == 0x182 {
            SpuRegisters { volume_main_right: val, ..self }
        } else if addr == 0x184 {
            SpuRegisters { volume_reverb_left: val, ..self }
        } else if addr == 0x186 {
            SpuRegisters { volume_reverb_right: val, ..self }
        } else if addr == 0x188 {
            SpuRegisters {
                voice_on: (self.voice_on & 0xFFFF_0000) | low,
                channel_status: (self.channel_status & 0xFFFF_0000) | low,
                ..self
            }
        } else if addr == 0x18A {
            SpuRegisters {
                voice_on: (self.voice_on & 0x0000_FFFF) | high,
                channel_status: (self.channel_status & 0x0000_FFFF) | high,
                ..self
            }
        } else if addr == 0x18C {
            SpuRegisters {
                voice_off: (self.voice_off & 0xFFFF_0000) | low,
                channel_status: (self.channel_status & 0xFFFF_0000) & !low,
                ..self
            }
        } else if addr == 0x18E {
            SpuRegisters {
                voice_off: (self.voice_off & 0x0000_FFFF) | high,
                channel_status: (self.channel_status & 0x0000_FFFF) & !high,
                ..self
            }
        } else if addr == 0x190 {
            SpuRegisters { channel_pitch: (self.channel_pitch & 0x0000_FFFF) | high, ..self }
        } else if addr == 0x192 {
            SpuRegisters { channel_pitch: (self.channel_pitch & 0xFFFF_0000) | low, ..self }
        } else if addr == 0x194 {
            SpuRegisters { channel_noise: (self.channel_noise & 0x0000_FFFF) | high, ..self }
        } else if addr == 0x196 {
            SpuRegisters { channel_noise: (self.channel_noise & 0xFFFF_0000) | low, ..self }
        } else if addr == 0x198 {
            SpuRegisters { channel_reverb: (self.channel_reverb & 0x0000_FFFF) | high, ..self }
        } else if addr == 0x19A {
            SpuRegisters { channel_reverb: (self.channel_reverb & 0xFFFF_0000) | low, ..self }
        } else if addr == 0x1A4 {
            SpuRegisters { address_irq: val, ..self }
        } else if addr == 0x1A6 {
            SpuRegisters { address_transfer: val, ..self }
        } else if addr == 0x1AA {
            SpuRegisters { control: Control(val), status: self.status.set_mode(val), ..self }
        } else if addr == 0x1AC {
            SpuRegisters { control_transfer: val, ..self }
        } else if addr == 0x1B0 {
            SpuRegisters { volume_cd_left: val, ..self }
        } else if addr == 0x1B2 {
            SpuRegisters { volume_cd_right: val, ..self }
        } else if addr == 0x1B4 {
            SpuRegisters { volume_extern_left: val, ..self }
        } else if addr == 0x1B6 {
            SpuRegisters { volume_extern_right: val, ..self }
        } else {
            // 0x1A2, 0x1A8: not modelled. 0x1AE: the status is read-only.
            self
        }
    }
}

/// The model of the sound processor.
pub struct SpuState {
    pub regs: SpuRegisters,
    pub voice: Seq<u16>,
    pub reverb: Seq<u16>,
}

impl SpuState {
    pub open spec fn wf(self) -> bool {
        &&& self.voice.len() == VOICE_REGISTERS
        &&& self.reverb.len() == REVERB_REGISTERS
    }

    /// The sound processor at power-on: every register zero.
    pub open spec fn spec_new() -> SpuState {
        SpuState {
            regs: SpuRegisters::spec_new(),
            voice: Seq::new(VOICE_REGISTERS as nat, |i: int| 0u16),
            reverb: Seq::new(REVERB_REGISTERS as nat, |i: int| 0u16),
        }
    }

    pub open spec fn with_fault(self, fault: Fault) -> SpuState {
        SpuState { regs: SpuRegisters { fault: spec_latch(self.regs.fault, fault), ..self.regs }, ..self }
    }

    /// A half-word read at `addr`, an offset into the register window. An
    /// offset that holds no readable register reads as 0.
    pub open spec fn read16(self, addr: u32) -> u16 {
        if addr <= 0x17F {
            self.voice[(addr >> 2) as int]
        } else if addr == 0x188 {
            self.regs.voice_on as u16
        } else if addr == 0x18A {
            (self.regs.voice_on >> 16) as u16
        } else if addr == 0x18C {
            self.regs.voice_off as u16
        } else if addr == 0x18E {
            (self.regs.voice_off >> 16) as u16
        } else if addr == 0x1AA {
            self.regs.control.0
        } else if addr == 0x1AC {
            self.regs.control_transfer
        } else if addr == 0x1AE {
            self.regs.status.0
        } else {
            0
        }
    }

    /// A half-word write of `val` at `addr`. Offsets up to 0x17F are voice
    /// registers, offsets 0x1C0 to 0x1FF reverb registers. A write that
    /// reaches no register is dropped, and the fault latched.
    pub open spec fn write16(self, addr: u32, val: u16) -> SpuState {
        if addr <= 0x17F {
            SpuState { voice: self.voice.update((addr >> 2) as int, val), ..self }
        } else if 0x1C0 <= addr <= 0x1FF {
            SpuState { reverb: self.reverb.update(((addr - 0x1C0) as u32 >> 2) as int, val), ..self }
        } else if SpuRegisters::write_accepted(addr) {
            SpuState { regs: self.regs.spec_write16(addr, val), ..self }
        } else {
            self.with_fault(Fault::SpuRegister { offset: addr })
        }
    }

    /// A write of a byte or a word: the registers are 16 bits wide, so the
    /// write is dropped, and the fault latched.
    pub open spec fn write_other(self, addr: u32) -> SpuState {
        self.with_fault(Fault::SpuRegister { offset: addr })
    }
}

/// The voice and reverb registers that an offset selects lie inside their
/// files.
pub proof fn lemma_spu_index(addr: u32)
    by (bit_vector)
    ensures
        addr <= 0x17F ==> addr >> 2 < 0xC0,
        0x1C0 <= addr <= 0x1FF ==> ((addr - 0x1C0) as u32) >> 2 < 0x1F,
{
}

pub struct SPU {
    voice_data: [u16; 0xC0],
    regs: SpuRegisters,
    reverb_data: [u16; 0x1F],
}

impl View for SPU {
    type V = SpuState;

    closed spec fn view(&self) -> SpuState {
        SpuState { regs: self.regs, voice: self.voice_data@, reverb: self.reverb_data@ }
    }
}

impl SPU {
    /// Both register files always have their full length.
    pub proof fn lemma_wf(&self)
        ensures
            self@.wf(),
    {
    }

    /// The sound processor at power-on.
    pub fn new() -> (spu: SPU)
        ensures
            spu@ == SpuState::spec_new(),
    {
        let spu = SPU { voice_data: [0; 0xC0], regs: SpuRegisters::new(), reverb_data: [0; 0x1F] };
        assert(spu@.voice =~= SpuState::spec_new().voice);
        assert(spu@.reverb =~= SpuState::spec_new().reverb);
        spu
    }

    /// The registers that are kept one by one.
    pub fn registers(&self) -> (r: SpuRegisters)
        ensures
            r == self@.regs,
    {
        self.regs
    }

    /// The first fatal condition met, if any.
    pub fn fault(&self) -> (r: Option<Fault>)
        ensures
            r == self@.regs.fault,
    {
        self.regs.fault
    }

    /// A byte read: no register is 8 bits wide, so it reads as 0.
    pub fn read8(&self, addr: u32) -> (r: u8)
        ensures
            r == 0,
    {
        0
    }

    /// A half-word read at `addr`.
    pub fn read16(&self, addr: u32) -> (r: u16)
        ensures
            r == self@.read16(addr),
    {
        if addr <= 0x17F {
            proof {
                lemma_spu_index(addr);
            }
            self.voice_data[(addr >> 2) as usize]
        } else if addr == 0x188 {
            #[verifier::truncate]
            (self.regs.voice_on as u16)
        } else if addr == 0x18A {
            #[verifier::truncate]
            ((self.regs.voice_on >> 16) as u16)
        } else if addr == 0x18C {
            #[verifier::truncate]
            (self.regs.voice_off as u16)
        } else if addr == 0x18E {
            #[verifier::truncate]
            ((self.regs.voice_off >> 16) as u16)
        } else if addr == 0x1AA {
            self.regs.control.0
        } else if addr == 0x1AC {
            self.regs.control_transfer
        } else if addr == 0x1AE {
            self.regs.status.0
        } else {
            0
        }
    }

    /// A word read: no register is 32 bits wide, so it reads as 0.
    pub fn read32(&self, addr: u32) -> (r: u32)
        ensures
            r == 0,
    {
        0
    }

    /// A byte write: dropped, and the fault latched.
    pub fn write8(&mut self, addr: u32, val: u8)
        ensures
            final(self)@ == old(self)@.write_other(addr),
    {
        self.regs.fault = latch(self.regs.fault, Fault::SpuRegister { offset: addr });
    }

    /// A half-word write of `val` at `addr`.
    pub fn write16(&mut self, addr: u32, val: u16)
        ensures
            final(self)@ == old(self)@.write16(addr, val),
    {
        proof {
            lemma_spu_index(addr);
        }
        if addr <= 0x17F {
            self.voice_data[(addr >> 2) as usize] = val;
        } else if 0x1C0 <= addr && addr <= 0x1FF {
            self.reverb_data[((addr - 0x1C0) >> 2) as usize] = val;
        } else if (0x180 <= addr && addr <= 0x19A && addr % 2 == 0) || addr == 0x1A2 || addr
            == 0x1A4 || addr == 0x1A6 || addr == 0x1A8 || addr == 0x1AA || addr == 0x1AC || addr
            == 0x1AE || addr == 0x1B0 || addr == 0x1B2 || addr == 0x1B4 || addr == 0x1B6 {
            self.regs = self.regs.write16(addr, val);
        } else {
            self.regs.fault = latch(self.regs.fault, Fault::SpuRegister { offset: addr });
        }
    }

    /// A word write: dropped, and the fault latched.
    pub fn write32(&mut self, addr: u32, val: u32)
        ensures
            final(self)@ == old(self)@.write_other(addr),
    {
        self.regs.fault = latch(self.regs.fault, Fault::SpuRegister { offset: addr });
    }
}

} // verus!
