//! Fatal conditions that the guest can provoke.
//!
//! The core never aborts on its own. An operation that the hardware model does
//! not cover is dropped, and the reason is latched in the component that met
//! it; the host decides how to end the run.

use vstd::prelude::*;

verus! {

/// Why an operation was dropped.
#[derive(Clone, Copy, Debug, PartialEq, Eq, Structural)]
pub enum Fault {
    /// A store of `width` bytes to an address that no device answers.
    UnmappedWrite { address: u32, width: u32 },
    /// A GP0 command word whose opcode byte is not supported.
    UnsupportedGp0 { opcode: u32 },
    /// A GP0 draw-mode command that selects the reserved texture depth.
    ReservedTextureDepth,
    /// A GP1 command word whose opcode byte is not supported.
    UnsupportedGp1 { opcode: u32 },
    /// A GP1 display-mode command with the reverse flag set.
    ReverseFlag,
    /// An access to a DMA register offset that holds no register.
    DmaRegister { offset: u32 },
    /// A DMA channel-control write that selects the reserved sync mode.
    DmaSyncMode,
    /// A transfer on a channel, or in a direction, that is not modelled.
    DmaTransfer { channel: u32 },
    /// A linked-list transfer that met no end marker.
    DmaEndlessList,
    /// A CD-ROM command byte that is not supported.
    CdromCommand { command: u8 },
    /// A CD-ROM test command with a missing or unsupported sub-function.
    CdromTest,
    /// An access to a CD-ROM register offset that holds no register.
    CdromRegister { offset: u32 },
    /// An access to an SPU register offset that holds no register of that width.
    SpuRegister { offset: u32 },
    /// A move from or to a coprocessor-0 register that is not modelled.
    Cop0Register { index: u32 },
    /// An instruction fetch from an address that is not word-aligned.
    UnalignedFetch { address: u32 },
}

/// The fault that stays latched when `new` arrives while `held` is present.
pub open spec fn spec_latch(held: Option<Fault>, new: Fault) -> Option<Fault> {
    match held {
        Some(f) => Some(f),
        None => Some(new),
    }
}

/// The first of two latches that holds a fault.
pub open spec fn spec_first(a: Option<Fault>, b: Option<Fault>) -> Option<Fault> {
    match a {
        Some(f) => Some(f),
        None => b,
    }
}

/// Latches `new` unless a fault is already held: the first one is kept.
pub fn latch(held: Option<Fault>, new: Fault) -> (r: Option<Fault>)
    ensures
        r == spec_latch(held, new),
{
    match held {
        Some(f) => Some(f),
        None => Some(new),
    }
}

/// Returns `a` if it holds a fault, else `b`.
pub fn first(a: Option<Fault>, b: Option<Fault>) -> (r: Option<Fault>)
    ensures
        r == spec_first(a, b),
{
    match a {
        Some(f) => Some(f),
        None => b,
    }
}

} // verus!
