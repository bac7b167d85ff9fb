//! The DMA engine: seven channels that move words between RAM and devices.

use vstd::prelude::*;
use crate::bits::{flag, flag_bit};
use crate::dma_channel::{Channel, Port, SyncMode, TransferDirection};
use crate::fault::{Fault, latch, spec_latch};
use crate::gpu::GPU;
use crate::gpu_state::GpuState;
use crate::memory::{le_store, le_word};
use crate::ram::{RAM, RAM_SIZE};

verus! {

/// The number of channels.
pub const CHANNELS: usize = 7;

/// The end marker of an ordering table and of a linked list.
pub const END_MARKER: u32 = 0xFF_FFFF;

/// The most nodes that a linked-list transfer walks. RAM holds this many
/// words, so a walk that is longer has met a node twice and would never end.
pub const MAX_LIST_NODES: u32 = 0x8_0000;

/// The parts of the interrupt register that are kept.
#[derive(Debug, Copy, Clone, PartialEq, Eq, Structural)]
pub struct IrqRegisters {
    pub irq_enable: bool,
    pub irq_channel_enable: u8,
    pub irq_channel_status: u8,
    pub irq_force: bool,
    pub irq_unknown: u8,
}

impl IrqRegisters {
    /// The master flag: forced, or enabled with a flag raised on a channel
    /// whose interrupt is enabled.
    pub open spec fn spec_master_flag(self) -> bool {
        self.irq_force || (self.irq_enable && (self.irq_channel_enable & self.irq_channel_status)
            != 0)
    }

    /// The interrupt register. Bit 31: master flag. Bits 30..24: channel
    /// flags. Bit 23: master enable. Bits 22..16: channel enables. Bit 15:
    /// force. Bits 5..0: not known.
    pub open spec fn spec_interrupt_register(self) -> u32 {
        flag(self.spec_master_flag(), 31) | ((self.irq_channel_status as u32) << 24) | flag(
            self.irq_enable,
            23,
        ) | ((self.irq_channel_enable as u32) << 16) | flag(self.irq_force, 15) | (
        self.irq_unknown as u32)
    }

    /// The registers after `value` was written: the enables, force and low
    /// bits are taken over, and each channel flag written as 1 is cleared.
    pub open spec fn spec_set_interrupt_register(self, value: u32) -> IrqRegisters {
        IrqRegisters {
            irq_enable: ((value >> 23) & 1) != 0,
            irq_channel_enable: ((value >> 16) & 0x7F) as u8,
            irq_channel_status: self.irq_channel_status & !(((value >> 24) & 0x7F) as u8),
            irq_force: ((value >> 15) & 1) != 0,
            irq_unknown: (value & 0x3F) as u8,
        }
    }

    #[verifier::when_used_as_spec(spec_interrupt_register)]
    pub fn interrupt_register(self) -> (r: u32)
        ensures
            r == self.spec_interrupt_register(),
    {
        let master_flag = self.irq_force || (self.irq_enable && (self.irq_channel_enable
            & self.irq_channel_status) != 0);
        flag_bit(master_flag, 31) | ((self.irq_channel_status as u32) << 24) | flag_bit(
            self.irq_enable,
            23,
        ) | ((self.irq_channel_enable as u32) << 16) | flag_bit(self.irq_force, 15) | (
        self.irq_unknown as u32)
    }

    #[verifier::when_used_as_spec(spec_set_interrupt_register)]
    pub fn set_interrupt_register(self, value: u32) -> (r: IrqRegisters)
        ensures
            r == self.spec_set_interrupt_register(value),
    {
        // Write 1 to flag -> reset it
        let reset = #[verifier::truncate] (((value >> 24) & 0x7F) as u8);
        IrqRegisters {
            irq_enable: ((value >> 23) & 1) != 0,
            irq_channel_enable: #[verifier::truncate] (((value >> 16) & 0x7F) as u8),
            irq_channel_status: self.irq_channel_status & !reset,
            irq_force: ((value >> 15) & 1) != 0,
            irq_unknown: #[verifier::truncate] ((value & 0x3F) as u8),
        }
    }
}

/// The word slot that a transfer visits after the one at `address`: 4 bytes
/// up or down, wrapping inside RAM.
pub open spec fn spec_next_slot(address: u32, increment: bool) -> u32 {
    if increment {
        ((address + 4) % (RAM_SIZE as int)) as u32
    } else {
        ((address + RAM_SIZE - 4) % (RAM_SIZE as int)) as u32
    }
}

/// The `index`-th word slot that a transfer visits, counting from 0, when
/// it starts at `start`.
pub open spec fn slot(start: u32, increment: bool, index: nat) -> u32
    decreases index,
{
    if index == 0 {
        start
    } else {
        spec_next_slot(slot(start, increment, (index - 1) as nat), increment)
    }
}

/// The words that a block transfer of `count` words out of RAM reads, in
/// order.
pub open spec fn block_words(ram: Seq<u8>, start: u32, increment: bool, count: nat) -> Seq<u32> {
    Seq::new(count, |i: int| le_word(ram, slot(start, increment, i as nat) as int, 4))
}

/// What the ordering-table channel stores in the slot at `address` when
/// `remaining` entries are still to be written, this one included: a pointer
/// to the slot below, or the end marker in the last entry.
pub open spec fn otc_entry(address: u32, remaining: int) -> u32 {
    if remaining == 1 {
        END_MARKER
    } else {
        spec_next_slot(address, false)
    }
}

/// RAM after the ordering-table channel wrote the first `done` entries of a
/// table of `count` entries.
pub open spec fn otc_table(ram: Seq<u8>, start: u32, increment: bool, count: nat, done: nat) -> Seq<
    u8,
>
    decreases done,
{
    if done == 0 {
        ram
    } else {
        let address = slot(start, increment, (done - 1) as nat);
        le_store(
            otc_table(ram, start, increment, count, (done - 1) as nat),
            address as int,
            otc_entry(address, count - (done - 1)),
            4,
        )
    }
}

/// The payload of the linked-list node whose header is at `address`: the
/// `count` words that follow the header.
pub open spec fn node_words(ram: Seq<u8>, address: u32, count: nat) -> Seq<u32> {
    block_words(ram, spec_next_slot(address, true), true, count)
}

/// The first slot of a transfer whose base address is `base`: inside RAM and
/// word-aligned.
pub open spec fn spec_first_slot(base: u32) -> u32 {
    base & 0x1F_FFFC
}

/// The GPU after a walk of at most `fuel` nodes of the linked list at
/// `address`, and whether the walk met the end marker. The top byte of a
/// header is the number of payload words, the rest points to the next node.
pub open spec fn linked_list(ram: Seq<u8>, gpu: GpuState, address: u32, fuel: nat) -> (
    GpuState,
    bool,
)
    decreases fuel,
{
    if fuel == 0 {
        (gpu, false)
    } else {
        let header = le_word(ram, address as int, 4);
        let fed = gpu.gp0_all(node_words(ram, address, (header >> 24) as nat));
        if header & END_MARKER == END_MARKER {
            (fed, true)
        } else {
            linked_list(ram, fed, spec_first_slot(header), (fuel - 1) as nat)
        }
    }
}

/// The model of the DMA engine.
pub struct DmaState {
    pub channels: Seq<Channel>,
    pub control: u32,
    pub irq: IrqRegisters,
    pub fault: Option<Fault>,
}

/// What a register write leaves behind: the engine, RAM and the GPU.
pub struct DmaOutcome {
    pub dma: DmaState,
    pub ram: Seq<u8>,
    pub gpu: GpuState,
}

impl DmaState {
    pub open spec fn wf(self) -> bool {
        self.channels.len() == CHANNELS
    }

    /// The engine at power-on.
    pub open spec fn spec_new() -> DmaState {
        DmaState {
            channels: Seq::new(CHANNELS as nat, |i: int| Channel::spec_new()),
            control: 0x0765_4321,
            irq: IrqRegisters {
                irq_enable: false,
                irq_channel_enable: 0,
                irq_channel_status: 0,
                irq_force: false,
                irq_unknown: 0,
            },
            fault: None,
        }
    }

    pub open spec fn with_fault(self, fault: Fault) -> DmaState {
        DmaState { fault: spec_latch(self.fault, fault), ..self }
    }

    pub open spec fn with_channel(self, index: int, channel: Channel) -> DmaState {
        DmaState { channels: self.channels.update(index, channel), ..self }
    }

    /// A register read. Channel `n` has its base address at `16 n`, its
    /// block control at `16 n + 4` and its channel control at `16 n + 8`;
    /// the control register is at 0x70 and the interrupt register at 0x74.
    /// Any other offset reads as 0.
    pub open spec fn read(self, offset: u32) -> u32 {
        if offset <= 0x6F {
            let channel = self.channels[((offset >> 4) & 7) as int];
            if offset & 0xF == 0 {
                channel.base_address
            } else if offset & 0xF == 4 {
                channel.spec_block_control_register()
            } else if offset & 0xF == 8 {
                channel.spec_control_register()
            } else {
                0
            }
        } else if offset == 0x70 {
            self.control
        } else if offset == 0x74 {
            self.irq.spec_interrupt_register()
        } else {
            0
        }
    }

    /// A block transfer on channel `index`. The GPU channel feeds GP0 from
    /// RAM; the ordering-table channel writes a table into RAM; on the
    /// CD-ROM and SPU channels the transfer is over at once, and no word
    /// moves. Any other channel or direction is a fault, and nothing moves.
    pub open spec fn transfer_block(self, index: int, ram: Seq<u8>, gpu: GpuState) -> DmaOutcome {
        let channel = self.channels[index];
        let start = spec_first_slot(channel.base_address);
        let count = channel.spec_word_count() as nat;
        if index == 2 && channel.direction is FromRAM {
            DmaOutcome {
                dma: self.with_channel(index, channel.spec_done()),
                ram,
                gpu: gpu.gp0_all(block_words(ram, start, channel.increment, count)),
            }
        } else if index == 6 && channel.direction is ToRAM {
            DmaOutcome {
                dma: self.with_channel(index, channel.spec_done()),
                ram: otc_table(ram, start, channel.increment, count, count),
                gpu,
            }
        } else if index == 3 || index == 4 {
            DmaOutcome { dma: self.with_channel(index, channel.spec_done()), ram, gpu }
        } else {
            DmaOutcome { dma: self.with_fault(Fault::DmaTransfer { channel: index as u32 }), ram, gpu }
        }
    }

    /// A linked-list transfer on channel `index`: the GPU channel, from
    /// RAM. A list with no end in sight is given up, and the fault latched.
    /// Any other channel or direction is a fault, and nothing moves.
    pub open spec fn transfer_linked_list(self, index: int, ram: Seq<u8>, gpu: GpuState) -> DmaOutcome {
        let channel = self.channels[index];
        if index == 2 && channel.direction is FromRAM {
            let (fed, ended) = linked_list(
                ram,
                gpu,
                spec_first_slot(channel.base_address),
                MAX_LIST_NODES as nat,
            );
            let done = self.with_channel(index, channel.spec_done());
            DmaOutcome {
                dma: if ended {
                    done
                } else {
                    done.with_fault(Fault::DmaEndlessList)
                },
                ram,
                gpu: fed,
            }
        } else {
            DmaOutcome { dma: self.with_fault(Fault::DmaTransfer { channel: index as u32 }), ram, gpu }
        }
    }

    /// The transfer that channel `index` is set up for.
    pub open spec fn transfer(self, index: int, ram: Seq<u8>, gpu: GpuState) -> DmaOutcome {
        if self.channels[index].sync_mode is LinkedList {
            self.transfer_linked_list(index, ram, gpu)
        } else {
            self.transfer_block(index, ram, gpu)
        }
    }

    /// Whether a write of `value` at `offset` reaches a register.
    pub open spec fn write_accepted(offset: u32, value: u32) -> bool {
        if offset <= 0x6F {
            offset & 0xF == 0 || offset & 0xF == 4 || (offset & 0xF == 8
                && Channel::control_word_valid(value))
        } else {
            offset == 0x70 || offset == 0x74
        }
    }

    /// The fault that a write latches where it reaches no register.
    pub open spec fn write_fault(offset: u32, value: u32) -> Fault {
        if offset <= 0x6F && offset & 0xF == 8 {
            Fault::DmaSyncMode
        } else {
            Fault::DmaRegister { offset }
        }
    }

    /// The channel at `index` after a write to one of its registers.
    pub open spec fn written_channel(self, offset: u32, value: u32) -> Channel {
        let channel = self.channels[((offset >> 4) & 7) as int];
        if offset & 0xF == 0 {
            Channel { base_address: value & 0xFF_FFFF, ..channel }
        } else if offset & 0xF == 4 {
            channel.spec_set_block_control_register(value)
        } else {
            channel.spec_set_control_register(value)
        }
    }

    /// A register write. A write to a channel register that leaves the
    /// channel active runs its transfer at once. A write that reaches no
    /// register, or selects the reserved sync mode, is dropped, and the fault
    /// latched.
    #[verifier::opaque]
    pub open spec fn write(self, offset: u32, value: u32, ram: Seq<u8>, gpu: GpuState) -> DmaOutcome {
        if !DmaState::write_accepted(offset, value) {
            DmaOutcome { dma: self.with_fault(DmaState::write_fault(offset, value)), ram, gpu }
        } else if offset <= 0x6F {
            let index = ((offset >> 4) & 7) as int;
            let channel = self.written_channel(offset, value);
            let written = self.with_channel(index, channel);
            if channel.spec_is_active() {
                written.transfer(index, ram, gpu)
            } else {
                DmaOutcome { dma: written, ram, gpu }
            }
        } else if offset == 0x70 {
            DmaOutcome { dma: DmaState { control: value, ..self }, ram, gpu }
        } else {
            DmaOutcome {
                dma: DmaState { irq: self.irq.spec_set_interrupt_register(value), ..self },
                ram,
                gpu,
            }
        }
    }
}

/// Facts about masks that keep an address inside RAM and a channel number
/// inside the engine.
pub proof fn lemma_dma_bits(value: u32)
    by (bit_vector)
    ensures
        value & 0x1F_FFFC < 0x20_0000,
        (value & 0x1F_FFFC) % 4 == 0,
        value <= 0x6F ==> (value >> 4) & 7 <= 6,
        value >> 24 <= 0xFF,
{
}

/// The first slot of a transfer.
pub fn first_slot(base: u32) -> (r: u32)
    ensures
        r == spec_first_slot(base),
        r < RAM_SIZE,
        r % 4 == 0,
{
    proof {
        lemma_dma_bits(base);
    }
    base & 0x1F_FFFC
}

/// The slot after the one at `address`.
pub fn next_slot(address: u32, increment: bool) -> (r: u32)
    requires
        address < RAM_SIZE,
        address % 4 == 0,
    ensures
        r == spec_next_slot(address, increment),
        r < RAM_SIZE,
        r % 4 == 0,
{
    if increment {
        if address + 4 == RAM_SIZE as u32 {
            0
        } else {
            address + 4
        }
    } else {
        if address == 0 {
            RAM_SIZE as u32 - 4
        } else {
            address - 4
        }
    }
}

/// Every slot of a transfer lies inside RAM and is word-aligned.
pub proof fn lemma_slot_in_ram(start: u32, increment: bool, index: nat)
    requires
        start < RAM_SIZE,
        start % 4 == 0,
    ensures
        slot(start, increment, index) < RAM_SIZE,
        slot(start, increment, index) % 4 == 0,
    decreases index,
{
    if index > 0 {
        lemma_slot_in_ram(start, increment, (index - 1) as nat);
    }
}

/// A transfer that steps up visits consecutive word slots from its first
/// slot on, wrapping at the end of RAM; one that steps down visits them
/// downwards.
pub proof fn lemma_slots_consecutive(start: u32, increment: bool, index: nat)
    requires
        start < RAM_SIZE,
        start % 4 == 0,
    ensures
        increment ==> slot(start, increment, index) == (start + 4 * index) % (RAM_SIZE as int),
        !increment ==> slot(start, increment, index) == (start - 4 * index) % (RAM_SIZE as int),
    decreases index,
{
    if index > 0 {
        lemma_slots_consecutive(start, increment, (index - 1) as nat);
        lemma_slot_in_ram(start, increment, (index - 1) as nat);
        let previous = slot(start, increment, (index - 1) as nat);
        if increment {
            assert((previous + 4) % (RAM_SIZE as int) == (start + 4 * index) % (RAM_SIZE as int))
                by (nonlinear_arith)
                requires
                    previous == (start + 4 * (index - 1)) % (RAM_SIZE as int),
            ;
        } else {
            assert((previous + RAM_SIZE - 4) % (RAM_SIZE as int) == (start - 4 * index) % (
            RAM_SIZE as int)) by (nonlinear_arith)
                requires
                    previous == (start - 4 * (index - 1)) % (RAM_SIZE as int),
            ;
        }
    }
}

/// Feeds GP0 the `count` words that a block transfer reads from `start` on.
fn feed_gpu(ram: &RAM, gpu: &mut GPU, start: u32, increment: bool, count: u32)
    requires
        ram.wf(),
        old(gpu).wf(),
        start < RAM_SIZE,
        start % 4 == 0,
    ensures
        final(gpu).wf(),
        final(gpu)@ == old(gpu)@.gp0_all(block_words(ram@, start, increment, count as nat)),
{
    let ghost words = block_words(ram@, start, increment, count as nat);
    let mut address = start;
    let mut done: u32 = 0;
    assert(words.take(0) =~= Seq::<u32>::empty());
    while done < count
        invariant
            done <= count,
            address == slot(start, increment, done as nat),
            address < RAM_SIZE,
            address % 4 == 0,
            ram.wf(),
            gpu.wf(),
            words == block_words(ram@, start, increment, count as nat),
            gpu@ == old(gpu)@.gp0_all(words.take(done as int)),
        decreases count - done,
    {
        let value = ram.read32(address);
        gpu.gp0(value);
        proof {
            let next = words.take(done + 1);
            assert(next.drop_last() =~= words.take(done as int));
            assert(next.last() == value);
        }
        address = next_slot(address, increment);
        done = done + 1;
    }
    assert(words.take(count as int) =~= words);
}

/// Writes an ordering table of `count` entries from `start` on.
fn fill_ordering_table(ram: &mut RAM, start: u32, increment: bool, count: u32)
    requires
        old(ram).wf(),
        start < RAM_SIZE,
        start % 4 == 0,
    ensures
        final(ram).wf(),
        final(ram)@ == otc_table(old(ram)@, start, increment, count as nat, count as nat),
{
    let mut address = start;
    let mut done: u32 = 0;
    while done < count
        invariant
            done <= count,
            address == slot(start, increment, done as nat),
            address < RAM_SIZE,
            address % 4 == 0,
            ram.wf(),
            ram@ == otc_table(old(ram)@, start, increment, count as nat, done as nat),
        decreases count - done,
    {
        let value = if count - done == 1 {
            END_MARKER  // Last entry: end of the table
        } else {
            next_slot(address, false)  // Pointer to the previous entry
        };
        ram.write32(address, value);
        address = next_slot(address, increment);
        done = done + 1;
    }
}

pub struct DMA {
    channels: [Channel; 7],
    // Bit 3 of nibble n set: channel n enabled
    control: u32,
    irq: IrqRegisters,
    fault: Option<Fault>,
}

impl View for DMA {
    type V = DmaState;

    closed spec fn view(&self) -> DmaState {
        DmaState {
            channels: self.channels@,
            control: self.control,
            irq: self.irq,
            fault: self.fault,
        }
    }
}

impl DMA {
    /// The engine always has its seven channels.
    pub proof fn lemma_wf(&self)
        ensures
            self@.wf(),
    {
    }

    /// The engine at power-on.
    pub fn new() -> (dma: DMA)
        ensures
            dma@ == DmaState::spec_new(),
    {
        let dma = DMA {
            channels: [
                Channel::new(),
                Channel::new(),
                Channel::new(),
                Channel::new(),
                Channel::new(),
                Channel::new(),
                Channel::new(),
            ],
            control: 0x0765_4321,  // Initial value according to Nocash
            irq: IrqRegisters {
                irq_enable: false,
                irq_channel_enable: 0,
                irq_channel_status: 0,
                irq_force: false,
                irq_unknown: 0,
            },
            fault: None,
        };
        assert(dma@.channels =~= DmaState::spec_new().channels);
        dma
    }

    /// The first fatal condition met, if any.
    pub fn fault(&self) -> (r: Option<Fault>)
        ensures
            r == self@.fault,
    {
        self.fault
    }

    /// The channel of `port`.
    pub fn channel(&self, port: Port) -> (c: &Channel)
        ensures
            *c == self@.channels[port.spec_index() as int],
    {
        &self.channels[port.index() as usize]
    }

    /// A register read.
    pub fn read(&self, offset: u32) -> (r: u32)
        ensures
            r == self@.read(offset),
    {
        if offset <= 0x6F {
            proof {
                lemma_dma_bits(offset);
            }
            let channel = &self.channels[((offset >> 4) & 7) as usize];
            let register = offset & 0xF;
            if register == 0 {
                channel.base_address
            } else if register == 4 {
                channel.block_control_register()
            } else if register == 8 {
                channel.control_register()
            } else {
                0
            }
        } else if offset == 0x70 {
            self.control
        } else if offset == 0x74 {
            self.interrupt_register()
        } else {
            0
        }
    }

    fn interrupt_register(&self) -> (r: u32)
        ensures
            r == self@.irq.spec_interrupt_register(),
    {
        self.irq.interrupt_register()
    }

    fn set_interrupt_register(&mut self, value: u32)
        ensures
            final(self)@ == (DmaState {
                irq: old(self)@.irq.spec_set_interrupt_register(value),
                ..old(self)@
            }),
    {
        self.irq = self.irq.set_interrupt_register(value);
    }

    /// A register write, and the transfer that it starts, if any.
    pub fn write(&mut self, offset: u32, value: u32, ram: &mut RAM, gpu: &mut GPU)
        requires
            old(ram).wf(),
            old(gpu).wf(),
        ensures
            final(ram).wf(),
            final(gpu).wf(),
            (DmaOutcome { dma: final(self)@, ram: final(ram)@, gpu: final(gpu)@ }) == old(
                self,
            )@.write(offset, value, old(ram)@, old(gpu)@),
    {
        reveal(DmaState::write);
        if offset <= 0x6F {
            proof {
                lemma_dma_bits(offset);
            }
            let index = (offset >> 4) & 7;
            let register = offset & 0xF;
            let mut channel = self.channels[index as usize];
            if register == 0 {
                channel.base_address = value & 0xFF_FFFF;
            } else if register == 4 {
                channel.set_block_control_register(value);
            } else if register == 8 {
                if (value >> 9) & 3 == 3 {
                    self.fault = latch(self.fault, Fault::DmaSyncMode);
                    return ;
                }
                channel.set_control_register(value);
            } else {
                self.fault = latch(self.fault, Fault::DmaRegister { offset });
                return ;
            }
            self.channels[index as usize] = channel;
            if channel.is_active() {
                self.transfer(Port::from_index(index), ram, gpu);
            }
        } else if offset == 0x70 {
            self.control = value;
        } else if offset == 0x74 {
            self.set_interrupt_register(value);
        } else {
            self.fault = latch(self.fault, Fault::DmaRegister { offset });
        }
    }

    fn transfer(&mut self, port: Port, ram: &mut RAM, gpu: &mut GPU)
        requires
            old(ram).wf(),
            old(gpu).wf(),
        ensures
            final(ram).wf(),
            final(gpu).wf(),
            (DmaOutcome { dma: final(self)@, ram: final(ram)@, gpu: final(gpu)@ }) == old(
                self,
            )@.transfer(port.spec_index() as int, old(ram)@, old(gpu)@),
    {
        match self.channel(port).sync_mode {
            SyncMode::LinkedList => self.transfer_linked_list(port, ram, gpu),
            _ => self.transfer_block(port, ram, gpu),
        }
    }

    fn transfer_block(&mut self, port: Port, ram: &mut RAM, gpu: &mut GPU)
        requires
            old(ram).wf(),
            old(gpu).wf(),
            !(old(self)@.channels[port.spec_index() as int].sync_mode is LinkedList),
        ensures
            final(ram).wf(),
            final(gpu).wf(),
            (DmaOutcome { dma: final(self)@, ram: final(ram)@, gpu: final(gpu)@ }) == old(
                self,
            )@.transfer_block(port.spec_index() as int, old(ram)@, old(gpu)@),
    {
        let index = port.index() as usize;
        let channel = self.channels[index];
        let count = channel.word_count();
        let start = first_slot(channel.base_address);
        match (port, channel.direction) {
            (Port::GPU, TransferDirection::FromRAM) => {
                feed_gpu(ram, gpu, start, channel.increment, count);
            },
            (Port::OTC, TransferDirection::ToRAM) => {
                fill_ordering_table(ram, start, channel.increment, count);
            },
            (Port::CDROM, _) | (Port::SPU, _) => {
                // The words go nowhere
            },
            _ => {
                self.fault = latch(self.fault, Fault::DmaTransfer { channel: port.index() });
                return ;
            },
        }
        // Reset the state
        self.channels[index] = Channel { enable: false, trigger: false, ..channel };
    }

    fn transfer_linked_list(&mut self, port: Port, ram: &mut RAM, gpu: &mut GPU)
        requires
            old(ram).wf(),
            old(gpu).wf(),
        ensures
            final(ram).wf(),
            final(gpu).wf(),
            (DmaOutcome { dma: final(self)@, ram: final(ram)@, gpu: final(gpu)@ }) == old(
                self,
            )@.transfer_linked_list(port.spec_index() as int, old(ram)@, old(gpu)@),
    {
        let index = port.index() as usize;
        let channel = self.channels[index];
        match (port, channel.direction) {
            (Port::GPU, TransferDirection::FromRAM) => {},
            _ => {
                self.fault = latch(self.fault, Fault::DmaTransfer { channel: port.index() });
                return ;
            },
        }
        let ghost ram0 = ram@;
        let ghost whole = linked_list(
            ram0,
            gpu@,
            spec_first_slot(channel.base_address),
            MAX_LIST_NODES as nat,
        );
        let mut address = first_slot(channel.base_address);
        let mut nodes: u32 = 0;
        let mut ended = false;
        while nodes < MAX_LIST_NODES && !ended
            invariant
                nodes <= MAX_LIST_NODES,
                address < RAM_SIZE,
                address % 4 == 0,
                ram.wf(),
                gpu.wf(),
                ram@ == ram0,
                !ended ==> linked_list(ram0, gpu@, address, (MAX_LIST_NODES - nodes) as nat)
                    == whole,
                ended ==> whole == (gpu@, true),
            decreases MAX_LIST_NODES - nodes,
        {
            let header = ram.read32(address);
            // Send the commands of this node to the GPU
            let word_count = header >> 24;
            feed_gpu(ram, gpu, next_slot(address, true), true, word_count);
            // Check if we hit the end of the linked list
            if header & END_MARKER == END_MARKER {
                ended = true;
            } else {
                // Go to the next entry in the linked list
                address = first_slot(header);
            }
            nodes = nodes + 1;
        }
        // Reset the state
        self.channels[index] = Channel { enable: false, trigger: false, ..channel };
        if !ended {
            self.fault = latch(self.fault, Fault::DmaEndlessList);
        }
    }
}

} // verus!
