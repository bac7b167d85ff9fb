//! The system: a processor and a bus, and the loop that drives them.

use vstd::prelude::*;
use crate::bios::BIOS;
use crate::cpu::{CPU, image_view, machine};
use crate::cpu_state::CpuState;
use crate::exefile::ExeFile;
use crate::fault::{Fault, first, spec_first};
use crate::gpu::GPU;
use crate::machine::Machine;
use crate::memory::{Memory, MemoryState};

verus! {

pub struct PSX {
    pub mem: Memory,
    pub cpu: CPU,
}

impl View for PSX {
    type V = Machine;

    open spec fn view(&self) -> Machine {
        machine(&self.cpu, &self.mem)
    }
}

impl PSX {
    pub open spec fn wf(&self) -> bool {
        self.cpu.wf() && self.mem.wf()
    }

    /// The system at power-on, with `bios` in place and `exe` waiting to be
    /// loaded once the BIOS has reached its shell.
    pub fn new(bios: BIOS, exe: Option<ExeFile>) -> (psx: PSX)
        requires
            bios.wf(),
            exe matches Some(image) ==> image.wf(),
        ensures
            psx.wf(),
            psx@ == (Machine {
                cpu: CpuState::spec_new(image_view(exe)),
                mem: MemoryState::spec_new(bios@),
            }),
    {
        PSX { mem: Memory::new(bios), cpu: CPU::new(exe) }
    }

    /// Executes one instruction.
    pub fn step(&mut self)
        requires
            old(self).wf(),
        ensures
            final(self).wf(),
            final(self)@ == old(self)@.step().0,
    {
        self.cpu.step(&mut self.mem);
    }

    /// Runs up to `instructions` instructions. Returns false as soon as the
    /// debugger or a fault asks for a stop.
    pub fn run(&mut self, instructions: u32) -> (going: bool)
        requires
            old(self).wf(),
        ensures
            final(self).wf(),
            (final(self)@, going) == old(self)@.run(instructions as nat),
    {
        self.cpu.run(instructions, &mut self.mem)
    }

    /// The first fault latched, if any: in the processor first, then on the
    /// bus and in the devices.
    pub fn fault(&self) -> (r: Option<Fault>)
        ensures
            r == spec_first(self@.cpu.fault, self@.mem.first_fault()),
    {
        first(self.cpu.fault(), self.mem.fault())
    }

    pub fn gpu(&self) -> (gpu: &GPU)
        ensures
            gpu@ == self@.mem.gpu,
            self.wf() ==> gpu.wf(),
    {
        self.mem.gpu()
    }

    pub fn gpu_mut(&mut self) -> (gpu: &mut GPU)
        ensures
            gpu@ == old(self)@.mem.gpu,
            old(self).wf() ==> gpu.wf(),
            final(self)@ == (Machine {
                mem: MemoryState { gpu: final(gpu)@, ..old(self)@.mem },
                ..old(self)@
            }),
            old(self).wf() && final(gpu).wf() ==> final(self).wf(),
    {
        self.mem.gpu_mut()
    }
}

} // verus!
