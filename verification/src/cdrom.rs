//! The CD-ROM controller: an index register, two FIFOs and the interrupt
//! registers. Of the commands only the version query is modelled.

use vstd::prelude::*;
use std::collections::VecDeque;
use crate::bits::{flag, flag_bit};
use crate::fault::{Fault, latch, spec_latch};
use crate::interrupt_controller::{InterruptController, InterruptRequest};

verus! {

/// The most bytes that the parameter FIFO holds.
pub const PARAMETER_FIFO_SIZE: usize = 16;

/// The test command, and its sub-function that asks for the version.
pub const COMMAND_TEST: u8 = 0x19;

pub const TEST_VERSION: u8 = 0x20;

/// The model of the controller.
pub struct CdromState {
    pub index: u8,
    pub interrupt_enable: u8,
    pub interrupt_flag: u8,
    pub parameters: Seq<u8>,
    pub responses: Seq<u8>,
    pub fault: Option<Fault>,
}

/// The answer to the version query: "vC0 (a), 19 Sep 1994".
pub open spec fn version_response() -> Seq<u8> {
    seq![0x94u8, 0x09u8, 0x19u8, 0xC0u8]
}

impl CdromState {
    pub open spec fn wf(self) -> bool {
        self.parameters.len() <= PARAMETER_FIFO_SIZE
    }

    /// The controller at power-on.
    pub open spec fn spec_new() -> CdromState {
        CdromState {
            index: 0,
            interrupt_enable: 0,
            interrupt_flag: 0,
            parameters: Seq::empty(),
            responses: Seq::empty(),
            fault: None,
        }
    }

    pub open spec fn with_fault(self, fault: Fault) -> CdromState {
        CdromState { fault: spec_latch(self.fault, fault), ..self }
    }

    /// The status byte. Bit 4: the parameter FIFO is not full. Bit 3: it is
    /// empty. Bits 1..0: the index.
    pub open spec fn status(self) -> u8 {
        (flag(self.parameters.len() != PARAMETER_FIFO_SIZE, 4) | flag(
            self.parameters.len() == 0,
            3,
        ) | ((self.index & 3) as u32)) as u8
    }

    /// A read of the register at `offset`. Offset 1 takes a byte from the
    /// response FIFO, or 0 if it is empty.
    pub open spec fn read8(self, offset: u32) -> (CdromState, u8) {
        if offset == 0 {
            (self, self.status())
        } else if offset == 1 {
            if self.responses.len() > 0 {
                (CdromState { responses: self.responses.drop_first(), ..self }, self.responses[0])
            } else {
                (self, 0u8)
            }
        } else if offset == 3 {
            if self.index == 0 || self.index == 2 {
                (self, self.interrupt_enable)
            } else {
                (self, self.interrupt_flag)
            }
        } else {
            (self, 0u8)
        }
    }

    /// Whether the command byte `value` can be carried out: it is the test
    /// command, and the parameter FIFO starts with the version sub-function.
    pub open spec fn command_accepted(self, value: u8) -> bool {
        value == COMMAND_TEST && self.parameters.len() > 0 && self.parameters[0] == TEST_VERSION
    }

    /// The fault that a command latches where it is not carried out.
    pub open spec fn command_fault(value: u8) -> Fault {
        if value == COMMAND_TEST {
            Fault::CdromTest
        } else {
            Fault::CdromCommand { command: value }
        }
    }

    /// Whether a command that was carried out raises the CD-ROM interrupt.
    pub open spec fn command_interrupts(self) -> bool {
        (3u8 & self.interrupt_enable) != 0
    }

    /// The controller after a command byte. The version query takes its
    /// sub-function from the parameter FIFO, answers with four bytes and sets
    /// the interrupt flag to 3. Any other command is dropped, and the fault
    /// latched.
    pub open spec fn command(self, value: u8) -> CdromState {
        if self.command_accepted(value) {
            CdromState {
                parameters: self.parameters.drop_first(),
                responses: self.responses + version_response(),
                interrupt_flag: 3,
                ..self
            }
        } else {
            self.with_fault(CdromState::command_fault(value))
        }
    }

    /// The parameter FIFO after `value` arrived: the oldest byte leaves where
    /// the FIFO is full.
    pub open spec fn push_parameter(self, value: u8) -> CdromState {
        CdromState {
            parameters: if self.parameters.len() >= PARAMETER_FIFO_SIZE {
                self.parameters.drop_first().push(value)
            } else {
                self.parameters.push(value)
            },
            ..self
        }
    }

    /// The controller after a write of `value` to the register at `offset`.
    /// What the register is depends on the index.
    pub open spec fn write8(self, offset: u32, value: u8) -> CdromState {
        if offset == 0 {
            CdromState { index: value & 3, ..self }
        } else if offset == 1 {
            if self.index == 0 {
                self.command(value)
            } else {
                self
            }
        } else if offset == 2 {
            if self.index == 0 {
                self.push_parameter(value)
            } else if self.index == 1 {
                CdromState { interrupt_enable: value & 0x1F, ..self }
            } else {
                self
            }
        } else if offset == 3 {
            if self.index == 1 {
                CdromState { interrupt_flag: self.interrupt_flag & !(value & 0x1F), ..self }
            } else {
                self
            }
        } else {
            self.with_fault(Fault::CdromRegister { offset })
        }
    }

    /// Whether a write raises the CD-ROM interrupt: it is a command that is
    /// carried out while one of the two low interrupts is enabled.
    pub open spec fn write_interrupts(self, offset: u32, value: u8) -> bool {
        offset == 1 && self.index == 0 && self.command_accepted(value) && self.command_interrupts()
    }
}

pub struct CDROM {
    index: u8,
    interrupt_enable: u8,
    interrupt_flag: u8,
    parameter_fifo: VecDeque<u8>,
    response_fifo: VecDeque<u8>,
    fault: Option<Fault>,
}

impl View for CDROM {
    type V = CdromState;

    closed spec fn view(&self) -> CdromState {
        CdromState {
            index: self.index,
            interrupt_enable: self.interrupt_enable,
            interrupt_flag: self.interrupt_flag,
            parameters: self.parameter_fifo@,
            responses: self.response_fifo@,
            fault: self.fault,
        }
    }
}

impl CDROM {
    pub open spec fn wf(&self) -> bool {
        self@.wf()
    }

    /// The controller at power-on.
    pub fn new() -> (cd: CDROM)
        ensures
            cd.wf(),
            cd@ == CdromState::spec_new(),
    {
        CDROM {
            index: 0,
            interrupt_enable: 0,
            interrupt_flag: 0,
            parameter_fifo: VecDeque::with_capacity(16),
            response_fifo: VecDeque::new(),
            fault: None,
        }
    }

    /// The first fatal condition met, if any.
    pub fn fault(&self) -> (r: Option<Fault>)
        ensures
            r == self@.fault,
    {
        self.fault
    }

    /// A read of the register at `offset`.
    pub fn read8(&mut self, offset: u32) -> (r: u8)
        requires
            old(self).wf(),
        ensures
            final(self).wf(),
            (final(self)@, r) == old(self)@.read8(offset),
    {
        if offset == 0 {
            self.status()
        } else if offset == 1 {
            // Response FIFO
            match self.response_fifo.pop_front() {
                Some(value) => {
                    assert(self.response_fifo@ =~= old(self).response_fifo@.drop_first());
                    value
                },
                None => 0,
            }
        } else if offset == 3 {
            if self.index == 0 || self.index == 2 {
                self.interrupt_enable
            } else {
                self.interrupt_flag
            }
        } else {
            0
        }
    }

    /// A write of `value` to the register at `offset`. A command that is
    /// carried out may raise the CD-ROM interrupt in `interrupt_controller`.
    pub fn write8(&mut self, offset: u32, value: u8, interrupt_controller: &mut InterruptController)
        requires
            old(self).wf(),
        ensures
            final(self).wf(),
            final(self)@ == old(self)@.write8(offset, value),
            *final(interrupt_controller) == if old(self)@.write_interrupts(offset, value) {
                old(interrupt_controller).spec_request(InterruptRequest::CDROM)
            } else {
                *old(interrupt_controller)
            },
    {
        if offset == 0 {
            self.index = value & 3;
        } else if offset == 1 {
            if self.index == 0 {
                self.command(value, interrupt_controller);
            }
            // 1: Sound Map Data Out
            // 2: Sound Map Coding Info
            // 3: Audio Volume for Right-CD-Out to Right

        } else if offset == 2 {
            if self.index == 0 {
                // Parameter FIFO
                if self.parameter_fifo.len() >= PARAMETER_FIFO_SIZE {
                    self.parameter_fifo.pop_front();
                    assert(self.parameter_fifo@ =~= old(self).parameter_fifo@.drop_first());
                }
                self.parameter_fifo.push_back(value);
            } else if self.index == 1 {
                // Interrupt Enable Register
                self.interrupt_enable = value & 0x1F;
            }
            // 2: Audio Volume for Left-CD-Out to Left
            // 3: Audio Volume for Right-CD-Out to Left

        } else if offset == 3 {
            if self.index == 1 {
                // Interrupt Flag Register
                self.interrupt_flag = self.interrupt_flag & !(value & 0x1F);
            }
            // 0: request register
            // 2: Audio Volume for Left-CD-Out to Right-SPU-Input
            // 3: Audio Volume Apply Changes

        } else {
            self.fault = latch(self.fault, Fault::CdromRegister { offset });
        }
    }

    fn status(&self) -> (r: u8)
        requires
            self.wf(),
        ensures
            r == self@.status(),
    {
        let length = self.parameter_fifo.len();
        #[verifier::truncate]
        ((flag_bit(length != PARAMETER_FIFO_SIZE, 4)  // Parameter FIFO full (0 = full)
         | flag_bit(length == 0, 3)  // Parameter FIFO empty (1 = empty)
         | ((self.index & 3) as u32)) as u8)
    }

    fn interrupt(&mut self, interrupt_controller: &mut InterruptController)
        ensures
            final(self)@ == (CdromState { interrupt_flag: 3, ..old(self)@ }),
            *final(interrupt_controller) == if old(self)@.command_interrupts() {
                old(interrupt_controller).spec_request(InterruptRequest::CDROM)
            } else {
                *old(interrupt_controller)
            },
    {
        // Mark the interrupt as requested
        self.interrupt_flag = 3;
        // Request the interrupt if enabled
        if (self.interrupt_flag & self.interrupt_enable) != 0 {
            interrupt_controller.request(InterruptRequest::CDROM);
        }
    }

    fn command(&mut self, value: u8, interrupt_controller: &mut InterruptController)
        requires
            old(self).wf(),
        ensures
            final(self).wf(),
            final(self)@ == old(self)@.command(value),
            *final(interrupt_controller) == if old(self)@.command_accepted(value) && old(
                self,
            )@.command_interrupts() {
                old(interrupt_controller).spec_request(InterruptRequest::CDROM)
            } else {
                *old(interrupt_controller)
            },
    {
        if value == COMMAND_TEST && self.parameter_fifo.len() > 0 && self.parameter_fifo[0]
            == TEST_VERSION {
            self.parameter_fifo.pop_front();
            assert(self.parameter_fifo@ =~= old(self).parameter_fifo@.drop_first());
            // Nocash lists a few real-world values.
            // Here we return "Version vC0 (a), 19 Sep 1994".
            self.response_fifo.push_back(0x94);
            self.response_fifo.push_back(0x09);
            self.response_fifo.push_back(0x19);
            self.response_fifo.push_back(0xC0);
            assert(self.response_fifo@ =~= old(self).response_fifo@ + version_response());
            self.interrupt(interrupt_controller);
        } else if value == COMMAND_TEST {
            self.fault = latch(self.fault, Fault::CdromTest);
        } else {
            self.fault = latch(self.fault, Fault::CdromCommand { command: value });
        }
    }
}

} // verus!
