//! One DMA channel: base address, block control and channel control.

use vstd::prelude::*;
use crate::bits::{flag, flag_bit};

verus! {

#[derive(Debug, Copy, Clone, PartialEq, Eq, Structural)]
pub enum TransferDirection {
    ToRAM,
    FromRAM,
}

/// How a transfer is paced.
#[derive(Debug, Copy, Clone, PartialEq, Eq, Structural)]
pub enum SyncMode {
    /// All words at once, when the trigger is set.
    Manual,
    /// Block by block, as the device asks.
    Request,
    /// A chain of nodes in RAM, each with a header.
    LinkedList,
}

impl SyncMode {
    pub open spec fn spec_bits(self) -> u32 {
        match self {
            SyncMode::Manual => 0,
            SyncMode::Request => 1,
            SyncMode::LinkedList => 2,
        }
    }

    #[verifier::when_used_as_spec(spec_bits)]
    pub fn bits(self) -> (b: u32)
        ensures
            b == self.spec_bits(),
            b <= 2,
    {
        match self {
            SyncMode::Manual => 0,
            SyncMode::Request => 1,
            SyncMode::LinkedList => 2,
        }
    }
}

/// The seven channels, by the device at the other end.
#[derive(Debug, Copy, Clone, PartialEq, Eq, Structural)]
pub enum Port {
    MDECin,
    MDECout,
    GPU,
    CDROM,
    SPU,
    PIO,
    OTC,
}

impl Port {
    pub open spec fn spec_from_index(index: u32) -> Port {
        if index == 0 {
            Port::MDECin
        } else if index == 1 {
            Port::MDECout
        } else if index == 2 {
            Port::GPU
        } else if index == 3 {
            Port::CDROM
        } else if index == 4 {
            Port::SPU
        } else if index == 5 {
            Port::PIO
        } else {
            Port::OTC
        }
    }

    pub open spec fn spec_index(self) -> u32 {
        match self {
            Port::MDECin => 0,
            Port::MDECout => 1,
            Port::GPU => 2,
            Port::CDROM => 3,
            Port::SPU => 4,
            Port::PIO => 5,
            Port::OTC => 6,
        }
    }

    /// The channel with number `index`.
    #[verifier::when_used_as_spec(spec_from_index)]
    pub fn from_index(index: u32) -> (p: Port)
        requires
            index <= 6,
        ensures
            p == Port::spec_from_index(index),
            p.spec_index() == index,
    {
        if index == 0 {
            Port::MDECin
        } else if index == 1 {
            Port::MDECout
        } else if index == 2 {
            Port::GPU
        } else if index == 3 {
            Port::CDROM
        } else if index == 4 {
            Port::SPU
        } else if index == 5 {
            Port::PIO
        } else {
            Port::OTC
        }
    }

    /// The number of the channel.
    #[verifier::when_used_as_spec(spec_index)]
    pub fn index(self) -> (i: u32)
        ensures
            i == self.spec_index(),
            i <= 6,
    {
        match self {
            Port::MDECin => 0,
            Port::MDECout => 1,
            Port::GPU => 2,
            Port::CDROM => 3,
            Port::SPU => 4,
            Port::PIO => 5,
            Port::OTC => 6,
        }
    }
}

#[derive(Debug, Copy, Clone, PartialEq, Eq, Structural)]
pub struct Channel {
    /// Where in RAM the transfer starts; 24 bits.
    pub base_address: u32,
    /// The number of blocks; used in `Request` mode only.
    pub block_count: u16,
    /// `Manual` mode: the number of words. `Request` mode: the words in a
    /// block.
    pub transfer_size: u16,
    pub unknown: u8,
    pub trigger: bool,
    pub enable: bool,
    pub chopping_cpu_window: u8,
    pub chopping_dma_window: u8,
    pub sync_mode: SyncMode,
    pub chopping_enable: bool,
    /// The address steps up by 4 after each word; down by 4 if false.
    pub increment: bool,
    pub direction: TransferDirection,
}

impl Channel {
    /// A channel at power-on.
    pub open spec fn spec_new() -> Channel {
        Channel {
            base_address: 0,
            block_count: 0,
            transfer_size: 0,
            unknown: 0,
            trigger: false,
            enable: false,
            chopping_cpu_window: 0,
            chopping_dma_window: 0,
            sync_mode: SyncMode::Manual,
            chopping_enable: false,
            increment: true,
            direction: TransferDirection::ToRAM,
        }
    }

    /// The block-control word: block count in the high half, size in the low.
    pub open spec fn spec_block_control_register(&self) -> u32 {
        ((self.block_count as u32) << 16) | (self.transfer_size as u32)
    }

    pub open spec fn spec_set_block_control_register(self, value: u32) -> Channel {
        Channel { block_count: (value >> 16) as u16, transfer_size: value as u16, ..self }
    }

    /// The channel-control word. Bit 0: from RAM. Bit 1: step down. Bit 8:
    /// chopping. Bits 10..9: sync mode. Bits 18..16 and 22..20: chopping
    /// windows. Bit 24: enable. Bit 28: trigger. Bits 30..29: not known.
    pub open spec fn spec_control_register(&self) -> u32 {
        ((self.unknown as u32) << 29) | flag(self.trigger, 28) | flag(self.enable, 24) | ((
        self.chopping_cpu_window as u32) << 20) | ((self.chopping_dma_window as u32) << 16) | (
        self.sync_mode.spec_bits() << 9) | flag(self.chopping_enable, 8) | flag(
            !self.increment,
            1,
        ) | flag(self.direction == TransferDirection::FromRAM, 0)
    }

    /// Whether a channel-control word selects a sync mode that exists.
    pub open spec fn control_word_valid(value: u32) -> bool {
        (value >> 9) & 3 != 3
    }

    /// The channel after `value` was written to its control register. The
    /// addresses and sizes stay.
    pub open spec fn spec_set_control_register(self, value: u32) -> Channel {
        Channel {
            unknown: ((value >> 29) & 3) as u8,
            trigger: ((value >> 28) & 1) != 0,
            enable: ((value >> 24) & 1) != 0,
            chopping_cpu_window: ((value >> 20) & 7) as u8,
            chopping_dma_window: ((value >> 16) & 7) as u8,
            sync_mode: if (value >> 9) & 3 == 0 {
                SyncMode::Manual
            } else if (value >> 9) & 3 == 1 {
                SyncMode::Request
            } else {
                SyncMode::LinkedList
            },
            chopping_enable: ((value >> 8) & 1) != 0,
            increment: ((value >> 1) & 1) == 0,
            direction: if (value & 1) == 0 {
                TransferDirection::ToRAM
            } else {
                TransferDirection::FromRAM
            },
            ..self
        }
    }

    /// Whether the channel transfers now: it is enabled and, in `Manual`
    /// mode, triggered.
    pub open spec fn spec_is_active(&self) -> bool {
        self.enable && (self.sync_mode is Manual ==> self.trigger)
    }

    /// The channel once its transfer is over.
    pub open spec fn spec_done(self) -> Channel {
        Channel { enable: false, trigger: false, ..self }
    }

    /// The number of words of a block transfer.
    pub open spec fn spec_word_count(&self) -> u32 {
        if self.sync_mode is Manual {
            self.transfer_size as u32
        } else {
            (self.transfer_size * self.block_count) as u32
        }
    }

    #[verifier::when_used_as_spec(spec_new)]
    pub fn new() -> (c: Channel)
        ensures
            c == Channel::spec_new(),
    {
        Channel {
            base_address: 0,
            block_count: 0,
            transfer_size: 0,
            unknown: 0,
            trigger: false,
            enable: false,
            chopping_cpu_window: 0,
            chopping_dma_window: 0,
            sync_mode: SyncMode::Manual,
            chopping_enable: false,
            increment: true,
            direction: TransferDirection::ToRAM,
        }
    }

    #[verifier::when_used_as_spec(spec_block_control_register)]
    pub fn block_control_register(&self) -> (r: u32)
        ensures
            r == self.spec_block_control_register(),
    {
        ((self.block_count as u32) << 16) | (self.transfer_size as u32)
    }

    pub fn set_block_control_register(&mut self, value: u32)
        ensures
            *final(self) == old(self).spec_set_block_control_register(value),
    {
        self.block_count = #[verifier::truncate] ((value >> 16) as u16);
        self.transfer_size = #[verifier::truncate] (value as u16);
    }

    #[verifier::when_used_as_spec(spec_control_register)]
    pub fn control_register(&self) -> (r: u32)
        ensures
            r == self.spec_control_register(),
    {
        ((self.unknown as u32) << 29) | flag_bit(self.trigger, 28) | flag_bit(self.enable, 24) | ((
        self.chopping_cpu_window as u32) << 20) | ((self.chopping_dma_window as u32) << 16) | (
        self.sync_mode.bits() << 9) | flag_bit(self.chopping_enable, 8) | flag_bit(
            !self.increment,
            1,
        ) | flag_bit(self.direction == TransferDirection::FromRAM, 0)
    }

    /// Takes a channel-control word. The reserved sync mode is left out.
    pub fn set_control_register(&mut self, value: u32)
        requires
            Channel::control_word_valid(value),
        ensures
            *final(self) == old(self).spec_set_control_register(value),
    {
        let mode = (value >> 9) & 3;
        self.unknown = #[verifier::truncate] (((value >> 29) & 3) as u8);
        self.trigger = ((value >> 28) & 1) != 0;
        self.enable = ((value >> 24) & 1) != 0;
        self.chopping_cpu_window = #[verifier::truncate] (((value >> 20) & 7) as u8);
        self.chopping_dma_window = #[verifier::truncate] (((value >> 16) & 7) as u8);
        self.sync_mode =
        if mode == 0 {
            SyncMode::Manual
        } else if mode == 1 {
            SyncMode::Request
        } else {
            SyncMode::LinkedList
        };
        self.chopping_enable = ((value >> 8) & 1) != 0;
        self.increment = ((value >> 1) & 1) == 0;
        self.direction =
        if (value & 1) == 0 {
            TransferDirection::ToRAM
        } else {
            TransferDirection::FromRAM
        };
    }

    #[verifier::when_used_as_spec(spec_is_active)]
    pub fn is_active(&self) -> (r: bool)
        ensures
            r == self.spec_is_active(),
    {
        // In Manual sync mode, the trigger must be set to start the transfer
        let trigger = match self.sync_mode {
            SyncMode::Manual => self.trigger,
            _ => true,
        };
        self.enable && trigger
    }

    /// The number of words of a block transfer.
    #[verifier::when_used_as_spec(spec_word_count)]
    pub fn word_count(&self) -> (n: u32)
        ensures
            n == self.spec_word_count(),
    {
        match self.sync_mode {
            SyncMode::Manual => self.transfer_size as u32,
            _ => {
                assert(self.transfer_size * self.block_count <= 0xFFFF * 0xFFFF)
                    by (nonlinear_arith)
                    requires
                        self.transfer_size <= 0xFFFF,
                        self.block_count <= 0xFFFF,
                ;
                (self.transfer_size as u32) * (self.block_count as u32)
            },
        }
    }
}

} // verus!
