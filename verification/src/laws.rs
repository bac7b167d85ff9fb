//! What holds of the machine whatever program it runs.

use vstd::prelude::*;
use crate::bus::spec_decode;
use crate::cpu_state::{CpuState, Exception};
use crate::dma::{
    END_MARKER,
    block_words,
    lemma_dma_bits,
    lemma_slot_in_ram,
    lemma_slots_consecutive,
    otc_table,
    slot,
    spec_first_slot,
};
use crate::gpu_state::GpuState;
use crate::machine::Machine;
use crate::memory::{MemoryState, le_word};
use crate::opcode::Opcode;
use crate::ram::RAM_SIZE;

verus! {

/// The status word after a reset of the GPU: ready bits set, display
/// disabled, everything else cleared.
pub const RESET_STATUS: u32 = 0x9C80_2000;

/// What an instruction writes to a register is invisible to the
/// instruction itself and visible to its successor.
pub proof fn lemma_write_visible_to_successor(c: CpuState, index: u32, value: u32)
    requires
        c.wf(),
        index < 32,
    ensures
        c.set_reg(index, value).r == c.r,
        index != 0 ==> c.set_reg(index, value).publish().r[index as int] == value,
        index == 0 ==> c.set_reg(index, value).publish().r[index as int] == 0,
{
}

/// At the start of an instruction the two register files differ at most
/// in the register of the load that lands.
pub proof fn lemma_files_agree(c: CpuState, index: int)
    requires
        c.wf(),
        c.r == c.r_next,
        0 <= index < 32,
        index != c.pending_load.0,
    ensures
        c.begin().r_next[index] == c.begin().r[index],
        c.begin().previous_pending_load == c.pending_load,
{
}

/// What a load reads is invisible to the successor of the load and
/// visible to the instruction after that one. `c` is the processor while the
/// load executes; the successor is taken to leave the register alone.
pub proof fn lemma_load_visible_after_successor(c: CpuState, rt: u32, value: u32)
    requires
        c.wf(),
        0 < rt < 32,
        c.previous_pending_load.0 != rt ==> c.r_next[rt as int] == c.r[rt as int],
    ensures
        c.delayed_load(rt, value).r == c.r,
        c.delayed_load(rt, value).publish().r[rt as int] == c.r[rt as int],
        c.delayed_load(rt, value).publish().begin().r[rt as int] == c.r[rt as int],
        c.delayed_load(rt, value).publish().begin().publish().r[rt as int] == value,
{
}

/// A load into the register of the load before it cancels that load: the
/// value of the first load never shows.
pub proof fn lemma_double_load(c: CpuState, rt: u32, first: u32, second: u32)
    requires
        c.wf(),
        0 < rt < 32,
        c.previous_pending_load.0 != rt ==> c.r_next[rt as int] == c.r[rt as int],
    ensures
        ({
            let between = c.delayed_load(rt, first).publish().begin();
            &&& between.delayed_load(rt, second).publish().r[rt as int] == c.r[rt as int]
            &&& between.delayed_load(rt, second).publish().begin().publish().r[rt as int]
                == second
        }),
{
}

/// A load of a word from an address that is not word-aligned raises the
/// address exception: the address is noted, the cause shows the load-address
/// code, execution goes on at the handler, and nothing is loaded.
pub proof fn lemma_unaligned_load(m: Machine, op: Opcode)
    requires
        m.address(op) % 4 != 0,
    ensures
        m.lw(op).mem == m.mem,
        m.lw(op).cpu.r_next == m.cpu.r_next,
        m.lw(op).cpu.pending_load == m.cpu.pending_load,
        m.lw(op).cpu.cop0.badvaddr == m.address(op),
        (m.lw(op).cpu.cop0.cause >> 2) & 0x1F == Exception::LoadAddress.spec_code(),
        m.lw(op).cpu.pc == m.lw(op).cpu.cop0.spec_handler(),
        !m.cpu.in_delay_slot ==> m.lw(op).cpu.cop0.epc == m.cpu.current_pc,
{
    let cause = m.cpu.cop0.cause;
    assert(((((cause & !0x7Cu32) | (4u32 << 2)) >> 2) & 0x1F == 4) && (((((cause & !0x7Cu32) | (4u32
        << 2)) | (1u32 << 31)) >> 2) & 0x1F == 4)) by (bit_vector);
}

/// An addition of an immediate that overflows raises the overflow
/// exception and leaves the registers alone.
pub proof fn lemma_overflow_writes_nothing(c: CpuState, index: u32)
    ensures
        c.set_checked(index, None).r_next == c.r_next,
        c.set_checked(index, None).r == c.r,
        c.set_checked(index, None).pc == c.set_checked(index, None).cop0.spec_handler(),
{
}

/// The status word after a reset of the GPU is `RESET_STATUS`, whatever
/// the GPU was doing.
pub proof fn lemma_reset_status(gpu: GpuState, command: u32)
    requires
        command >> 24 == 0,
    ensures
        gpu.gp1(command).regs.flags.spec_status() == RESET_STATUS,
        gpu.gp1(command).read().1 == 0,
        gpu.gp1(command).buffer.len() == 0,
{
    reveal(GpuState::gp1);
    reveal(GpuState::read);
    assert((1u32 << 31) | (0u32 << 29) | (1u32 << 28) | (1u32 << 27) | (1u32 << 26) | 0 | 0 | (1u32
        << 23) | 0 | 0 | 0 | ((0u8 as u32) << 16) | 0 | (1u32 << 13) | 0 | 0 | 0 | 0 | (0u32 << 7)
        | ((0u8 as u32) << 5) | ((0u8 as u32) << 4) | (0u8 as u32) == 0x9C80_2000u32)
        by (bit_vector);
}

/// A word of RAM is made of its four bytes, lowest address first: a word
/// load at an aligned address gives what four byte loads give.
pub proof fn lemma_word_load_is_four_byte_loads(mem: MemoryState, address: u32)
    requires
        mem.wf(),
        address % 4 == 0,
        spec_decode(address, 4) is Ram,
    ensures
        mem.read32(address).1 == (mem.read8(address).1 as u32) | ((mem.read8(
            (address + 1) as u32,
        ).1 as u32) << 8) | ((mem.read8((address + 2) as u32).1 as u32) << 16) | ((mem.read8(
            (address + 3) as u32,
        ).1 as u32) << 24),
        mem.read32(address).0 == mem,
{
    reveal(MemoryState::read32);
    reveal(MemoryState::read8);
}

/// A block transfer that steps up reads consecutive word slots, starting
/// at the slot of its base address and wrapping at the end of RAM.
pub proof fn lemma_block_reads_consecutive(ram: Seq<u8>, base: u32, count: nat, index: int)
    requires
        0 <= index < count,
    ensures
        spec_first_slot(base) < RAM_SIZE,
        spec_first_slot(base) % 4 == 0,
        block_words(ram, spec_first_slot(base), true, count).len() == count,
        block_words(ram, spec_first_slot(base), true, count)[index] == le_word(
            ram,
            (spec_first_slot(base) + 4 * index) % (RAM_SIZE as int),
            4,
        ),
{
    lemma_dma_bits(base);
    lemma_slots_consecutive(spec_first_slot(base), true, index as nat);
}

/// The ordering-table channel writes to its word slots and nowhere else:
/// a byte outside the slots visited keeps its value.
pub proof fn lemma_table_touches_only_slots(
    ram: Seq<u8>,
    start: u32,
    increment: bool,
    count: nat,
    done: nat,
    byte: int,
)
    requires
        ram.len() == RAM_SIZE,
        start < RAM_SIZE,
        start % 4 == 0,
        0 <= byte < RAM_SIZE,
        forall|i: nat|
            i < done ==> !(#[trigger] slot(start, increment, i) <= byte < slot(start, increment, i)
                + 4),
    ensures
        otc_table(ram, start, increment, count, done).len() == RAM_SIZE,
        otc_table(ram, start, increment, count, done)[byte] == ram[byte],
    decreases done,
{
    if done > 0 {
        let previous = (done - 1) as nat;
        lemma_table_touches_only_slots(ram, start, increment, count, previous, byte);
        lemma_slot_in_ram(start, increment, previous);
        assert(!(slot(start, increment, previous) <= byte < slot(start, increment, previous) + 4));
    }
}

/// The entries of an ordering table that is written downwards: each entry
/// points to the slot below it, and the lowest entry holds the end marker.
/// The table is taken not to wrap around the start of RAM.
pub proof fn lemma_table_descends(ram: Seq<u8>, start: u32, count: nat, done: nat, index: nat)
    requires
        ram.len() == RAM_SIZE,
        start < RAM_SIZE,
        start % 4 == 0,
        4 * (count - 1) <= start,
        index < done <= count,
    ensures
        otc_table(ram, start, false, count, done).len() == RAM_SIZE,
        le_word(otc_table(ram, start, false, count, done), start - 4 * index, 4) == if index
            == count - 1 {
            END_MARKER
        } else {
            (start - 4 * (index + 1)) as u32
        },
    decreases done,
{
    let previous = (done - 1) as nat;
    let before = otc_table(ram, start, false, count, previous);
    lemma_slots_consecutive(start, false, previous);
    assert(slot(start, false, previous) == start - 4 * previous);
    if previous > 0 {
        if index < previous {
            lemma_table_descends(ram, start, count, previous, index);
        } else {
            lemma_table_descends(ram, start, count, previous, (previous - 1) as nat);
        }
    }
    assert(before.len() == RAM_SIZE);
    if index == previous {
        crate::memory::lemma_le_store_load(
            before,
            start - 4 * previous,
            crate::dma::otc_entry((start - 4 * previous) as u32, count - previous),
            4,
        );
    }
}

} // verus!
