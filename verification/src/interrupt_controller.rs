//! The interrupt controller: a pending register and a mask register.

use vstd::prelude::*;

verus! {

/// The sources that can raise an interrupt, each with a fixed bit position.
#[derive(Debug, Copy, Clone, PartialEq, Eq, Structural)]
pub enum InterruptRequest {
    VBlank,
    GPU,
    CDROM,
    DMA,
    Timer0,
    Timer1,
    Timer2,
    Controller,
    SIO,
    SPU,
}

impl InterruptRequest {
    /// The bit of the status register that this source sets.
    pub open spec fn spec_bit(self) -> u16 {
        match self {
            InterruptRequest::VBlank => 0,
            InterruptRequest::GPU => 1,
            InterruptRequest::CDROM => 2,
            InterruptRequest::DMA => 3,
            InterruptRequest::Timer0 => 4,
            InterruptRequest::Timer1 => 5,
            InterruptRequest::Timer2 => 6,
            InterruptRequest::Controller => 7,
            InterruptRequest::SIO => 8,
            InterruptRequest::SPU => 9,
        }
    }

    #[verifier::when_used_as_spec(spec_bit)]
    pub fn bit(self) -> (b: u16)
        ensures
            b == self.spec_bit(),
            b <= 9,
    {
        match self {
            InterruptRequest::VBlank => 0,
            InterruptRequest::GPU => 1,
            InterruptRequest::CDROM => 2,
            InterruptRequest::DMA => 3,
            InterruptRequest::Timer0 => 4,
            InterruptRequest::Timer1 => 5,
            InterruptRequest::Timer2 => 6,
            InterruptRequest::Controller => 7,
            InterruptRequest::SIO => 8,
            InterruptRequest::SPU => 9,
        }
    }
}

/// Only bits 10..0 of the two registers are meaningful.
pub const INTERRUPT_REGISTER_MASK: u16 = 0x7FF;

/// Pending and mask registers. Devices set pending bits; the CPU clears them
/// and chooses, through the mask, which of them reach its interrupt line.
#[derive(Debug, Copy, Clone, PartialEq, Eq, Structural)]
pub struct InterruptController {
    pub interrupt_status: u16,
    pub interrupt_mask: u16,
}

impl InterruptController {
    /// The status register after the CPU wrote `value` to it.
    pub open spec fn spec_write_status(self, value: u16) -> InterruptController {
        InterruptController {
            interrupt_status: self.interrupt_status & (value & INTERRUPT_REGISTER_MASK),
            ..self
        }
    }

    /// The controller after the CPU wrote `value` to the mask register.
    pub open spec fn spec_write_mask(self, value: u16) -> InterruptController {
        InterruptController { interrupt_mask: value & INTERRUPT_REGISTER_MASK, ..self }
    }

    /// The controller after a device raised `request`.
    pub open spec fn spec_request(self, request: InterruptRequest) -> InterruptController {
        InterruptController {
            interrupt_status: self.interrupt_status | (1u16 << request.spec_bit()),
            ..self
        }
    }

    /// Whether an unmasked interrupt is pending.
    pub open spec fn spec_pending(self) -> bool {
        (self.interrupt_status & self.interrupt_mask) != 0
    }

    pub fn new() -> (c: Self)
        ensures
            c.interrupt_status == 0,
            c.interrupt_mask == 0,
    {
        InterruptController { interrupt_status: 0, interrupt_mask: 0 }
    }

    pub fn read_status(&self) -> (r: u16)
        ensures
            r == self.interrupt_status,
    {
        self.interrupt_status
    }

    /// Keeps the pending bits where `value` is 1 and clears the others.
    pub fn write_status(&mut self, value: u16)
        ensures
            *final(self) == old(self).spec_write_status(value),
    {
        self.interrupt_status = self.interrupt_status & (value & INTERRUPT_REGISTER_MASK);
    }

    pub fn read_mask(&self) -> (r: u16)
        ensures
            r == self.interrupt_mask,
    {
        self.interrupt_mask
    }

    pub fn write_mask(&mut self, value: u16)
        ensures
            *final(self) == old(self).spec_write_mask(value),
    {
        self.interrupt_mask = value & INTERRUPT_REGISTER_MASK;
    }

    /// Sets the pending bit of `request`.
    pub fn request(&mut self, request: InterruptRequest)
        ensures
            *final(self) == old(self).spec_request(request),
    {
        self.interrupt_status = self.interrupt_status | (1u16 << request.bit());
    }

    /// Whether an unmasked interrupt is pending. The argument is not used.
    pub fn pending(&self, p: bool) -> (r: bool)
        ensures
            r == self.spec_pending(),
            r <==> (self.interrupt_status & self.interrupt_mask) != 0,
    {
        (self.interrupt_status & self.interrupt_mask) != 0
    }
}

/// A write to the status register sets no pending bit, whatever is written.
pub proof fn lemma_write_status_sets_nothing(c: InterruptController, value: u16)
    ensures
        c.spec_write_status(value).interrupt_status & !c.interrupt_status == 0,
        c.spec_write_status(value).interrupt_mask == c.interrupt_mask,
{
    let s = c.interrupt_status;
    assert((s & (value & 0x7FFu16)) & !s == 0) by (bit_vector);
}

/// A write to the status register clears exactly the pending bits where the
/// written value is 0. So where every pending bit is written as 1, no bit
/// changes, and the bits cleared lie where the value is 1 only then.
pub proof fn lemma_write_status_clears(c: InterruptController, value: u16)
    requires
        c.interrupt_status & !value == 0,
        c.interrupt_status & !INTERRUPT_REGISTER_MASK == 0,
    ensures
        c.spec_write_status(value) == c,
        (c.interrupt_status & !c.spec_write_status(value).interrupt_status) & !value == 0,
{
    let s = c.interrupt_status;
    assert(s & !value == 0 && s & !0x7FFu16 == 0 ==> (s & (value & 0x7FFu16)) == s
        && (s & !(s & (value & 0x7FFu16))) & !value == 0) by (bit_vector);
}

/// After a request the source's bit is pending, and it reaches the CPU as soon
/// as the mask lets it through.
pub proof fn lemma_request_pending(c: InterruptController, request: InterruptRequest)
    ensures
        c.spec_request(request).interrupt_status & (1u16 << request.spec_bit()) != 0,
        c.interrupt_mask & (1u16 << request.spec_bit()) != 0 ==> c.spec_request(
            request,
        ).spec_pending(),
{
    let s = c.interrupt_status;
    let m = c.interrupt_mask;
    let b = request.spec_bit();
    assert(b <= 9 ==> (s | (1u16 << b)) & (1u16 << b) != 0 && (m & (1u16 << b) != 0 ==> ((s | (1u16
        << b)) & m) != 0)) by (bit_vector);
}

} // verus!
