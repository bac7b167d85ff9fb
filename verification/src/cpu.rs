//! The processor: fetch, decode, execute, with a one-slot load delay, branch
//! delay slots and precise exceptions.

use vstd::prelude::*;
use crate::alu::{div, divu, lemma_shift_amount, lwl, lwr, mult, multu, slt, sltu, sra, swl, swr};
use crate::cpu_state::{Cop0, CpuState, Exception};
use crate::debugger::Debugger;
use crate::exefile::ExeFile;
use crate::fault::{Fault, latch};
use crate::machine::{Machine, SIDELOAD_PC};
use crate::memory::Memory;
use crate::opcode::Opcode;

verus! {

pub struct CPU {
    pub pc: u32,
    pub next_pc: u32,
    pub r: [u32; 32],
    // To simulate the load-delay slot, contains the output of the current instruction
    r_next: [u32; 32],
    pub hi: u32,
    pub lo: u32,
    // (register, value)
    pending_load: (u32, u32),
    // to watch for double delayed loads on the same register
    previous_pending_load: (u32, u32),
    cop0: Cop0,
    current_pc: u32,
    branching: bool,
    in_delay_slot: bool,
    pub counter: u32,
    pub debugger: Debugger,
    exe: Option<ExeFile>,
    fault: Option<Fault>,
}

/// The bytes of an image that may be there.
pub open spec fn image_view(exe: Option<ExeFile>) -> Option<Seq<u8>> {
    match exe {
        Some(image) => Some(image@),
        None => None,
    }
}

impl View for CPU {
    type V = CpuState;

    closed spec fn view(&self) -> CpuState {
        CpuState {
            pc: self.pc,
            next_pc: self.next_pc,
            current_pc: self.current_pc,
            r: self.r@,
            r_next: self.r_next@,
            hi: self.hi,
            lo: self.lo,
            pending_load: self.pending_load,
            previous_pending_load: self.previous_pending_load,
            cop0: self.cop0,
            branching: self.branching,
            in_delay_slot: self.in_delay_slot,
            counter: self.counter,
            fault: self.fault,
            debugger: self.debugger@,
            exe: image_view(self.exe),
        }
    }
}

/// The machine that a processor and a bus stand for.
pub open spec fn machine(cpu: &CPU, mem: &Memory) -> Machine {
    Machine { cpu: cpu@, mem: mem@ }
}

impl CPU {
    /// The invariant of the processor: that of its model.
    pub open spec fn wf(&self) -> bool {
        self@.wf()
    }

    /// The processor after reset, with `exe` waiting to be loaded once
    /// execution reaches the BIOS shell.
    pub fn new(exe: Option<ExeFile>) -> (cpu: CPU)
        requires
            exe matches Some(image) ==> image.wf(),
        ensures
            cpu.wf(),
            cpu@ == CpuState::spec_new(image_view(exe)),
    {
        let cpu = CPU {
            pc: 0xBFC0_0000,  // The PC starts with the BIOS address
            next_pc: 0xBFC0_0004,
            r: [0; 32],
            r_next: [0; 32],
            hi: 0,
            lo: 0,
            pending_load: (0, 0),
            previous_pending_load: (0, 0),
            cop0: Cop0 { status: 0, cause: 0, epc: 0, badvaddr: 0 },
            current_pc: 0,
            branching: false,
            in_delay_slot: false,
            counter: 0,
            debugger: Debugger::new(),
            exe,
            fault: None,
        };
        assert(cpu@.r =~= CpuState::spec_new(image_view(exe)).r);
        assert(cpu@.r_next =~= CpuState::spec_new(image_view(exe)).r_next);
        cpu
    }

    /// The registers of coprocessor 0.
    pub fn cop0(&self) -> (r: Cop0)
        ensures
            r == self@.cop0,
    {
        self.cop0
    }

    /// The load that the last instruction issued: register and value.
    pub fn pending_load(&self) -> (r: (u32, u32))
        ensures
            r == self@.pending_load,
    {
        self.pending_load
    }

    /// The first fatal condition that the processor met, if any.
    pub fn fault(&self) -> (r: Option<Fault>)
        ensures
            r == self@.fault,
    {
        self.fault
    }

    /// Runs up to `instructions` instructions. Returns false as soon as a
    /// step asks for a stop.
    pub fn run(&mut self, instructions: u32, mem: &mut Memory) -> (going: bool)
        requires
            old(self).wf(),
            old(mem).wf(),
        ensures
            final(self).wf(),
            final(mem).wf(),
            (machine(final(self), final(mem)), going) == machine(old(self), old(mem)).run(
                instructions as nat,
            ),
    {
        let ghost start = machine(self, mem);
        let mut done: u32 = 0;
        while done < instructions
            invariant
                done <= instructions,
                self.wf(),
                mem.wf(),
                start == machine(old(self), old(mem)),
                (machine(self, mem), true) == start.run(done as nat),
            decreases instructions - done,
        {
            let ghost before = machine(self, mem);
            let going = self.step(mem);
            assert(start.run((done + 1) as nat) == before.step());
            done = done + 1;
            if !going {
                proof {
                    lemma_run_stops(start, done as nat, instructions as nat);
                }
                return false;
            }
        }
        true
    }

    /// Executes one instruction. Returns false where the debugger or a
    /// fault asks for a stop.
    pub fn step(&mut self, mem: &mut Memory) -> (going: bool)
        requires
            old(self).wf(),
            old(mem).wf(),
        ensures
            final(self).wf(),
            final(mem).wf(),
            final(self)@.r[0] == 0,
            (machine(final(self), final(mem)), going) == machine(old(self), old(mem)).step(),
    {
        reveal(Machine::step);
        self.ready(mem);
        self.fetch_execute(mem)
    }

    /// What comes before the fetch: the pending load, the interrupt poll
    /// and the loading of a waiting image.
    fn ready(&mut self, mem: &mut Memory)
        requires
            old(self).wf(),
            old(mem).wf(),
        ensures
            final(self).wf(),
            final(mem).wf(),
            machine(final(self), final(mem)) == machine(old(self), old(mem)).ready(),
    {
        self.begin();
        // An interrupt that is pending and enabled is taken before the fetch
        let pending = mem.interrupt_pending();
        if self.update_pending_interrupt(pending) {
            self.exception(Exception::ExternalInterrupt);
        }
        if self.pc == SIDELOAD_PC && self.exe.is_some() {
            let exe = self.exe.take().unwrap();
            exe.load(self, mem);
        }
    }

    /// Fetches and executes the instruction at `pc`.
    fn fetch_execute(&mut self, mem: &mut Memory) -> (going: bool)
        requires
            old(self).wf(),
            old(mem).wf(),
        ensures
            final(self).wf(),
            final(mem).wf(),
            (machine(final(self), final(mem)), going) == machine(old(self), old(mem)).fetch_execute(),
    {
        // Fetch the next instruction
        self.current_pc = self.pc;
        if self.current_pc % 4 != 0 {
            self.fault = latch(self.fault, Fault::UnalignedFetch { address: self.current_pc });
            return false;
        }
        let opcode = Opcode(mem.read(self.pc));
        self.pc = self.next_pc;
        self.next_pc = self.pc.wrapping_add(4);
        self.counter = self.counter.wrapping_add(1);
        self.execute(mem, opcode);
        self.publish(mem)
    }

    /// Makes the writes of the instruction visible, and asks the debugger
    /// and the fault latches whether to go on.
    fn publish(&mut self, mem: &Memory) -> (going: bool)
        requires
            old(self).wf(),
        ensures
            final(self).wf(),
            final(self)@ == old(self)@.publish(),
            going == machine(final(self), mem).running(),
    {
        // Update the registers to account for the load-delay slot
        self.r = self.r_next;
        // Check breakpoints
        let stop = self.debugger.is_breakpoint(self.next_pc, &self.r)
            || self.debugger.has_data_breakpoint();
        !stop && self.fault.is_none() && mem.fault().is_none()
    }

    /// The value of register `index`, as the instruction being executed
    /// sees it.
    pub fn reg(&self, index: u32) -> (value: u32)
        requires
            index < 32,
        ensures
            value == self@.reg(index),
    {
        self.r[index as usize]
    }

    /// Writes `value` to register `index`. The write becomes visible once
    /// the instruction being executed is done. Register 0 stays zero.
    pub fn set_reg(&mut self, index: u32, value: u32)
        requires
            old(self).wf(),
            index < 32,
        ensures
            final(self).wf(),
            final(self)@ == old(self)@.set_reg(index, value),
    {
        self.r_next[index as usize] = value;
        self.r_next[0] = 0;  // R0 is always zero
    }

    /// Makes `address` the address of the instruction after the next one.
    pub fn set_next_pc(&mut self, address: u32)
        requires
            old(self).wf(),
        ensures
            final(self).wf(),
            final(self)@ == (CpuState { next_pc: address, ..old(self)@ }),
    {
        self.next_pc = address;
    }

    /// The start of an instruction: the pending load lands, and the
    /// delay-slot flag is latched.
    fn begin(&mut self)
        requires
            old(self).wf(),
        ensures
            final(self).wf(),
            final(self)@ == old(self)@.begin(),
    {
        self.debugger.clear_data_access();
        // Apply any pending load
        self.set_reg(self.pending_load.0, self.pending_load.1);
        self.previous_pending_load = self.pending_load;
        self.pending_load = (0, 0);
        self.in_delay_slot = self.branching;
        self.branching = false;
        self.current_pc = self.pc;
    }

    /// Updates the cause register with the state of the interrupt line.
    /// Returns true if an interrupt is to be taken.
    fn update_pending_interrupt(&mut self, pending: bool) -> (taken: bool)
        ensures
            final(self)@ == (CpuState {
                cop0: old(self)@.cop0.spec_sample(pending),
                ..old(self)@
            }),
            taken == final(self)@.cop0.spec_interrupted(),
    {
        // Bit 10 of the cause reflects whether an interrupt is pending
        self.cop0 = self.cop0.sample(pending);
        self.cop0.interrupted()
    }

    fn alignment_exception(&mut self, exception: Exception, address: u32, branch: bool)
        ensures
            final(self)@ == old(self)@.alignment_exception(exception, address, branch),
    {
        self.cop0.badvaddr = address;
        let epc = if branch {
            address
        } else {
            self.current_pc
        };
        self.raise_exception(exception, epc);
    }

    fn exception(&mut self, exception: Exception)
        ensures
            final(self)@ == old(self)@.exception(exception),
    {
        self.raise_exception(exception, self.current_pc);
    }

    fn raise_exception(&mut self, exception: Exception, epc: u32)
        ensures
            final(self)@ == old(self)@.raise_exception(exception, epc),
    {
        // Cause, address at fault and the stack of modes in the status
        self.cop0 = self.cop0.enter(exception.code(), epc, self.in_delay_slot);
        // Two possible handler addresses depending on the status' BEV bit
        let handler = self.cop0.handler();
        self.pc = handler;
        self.next_pc = handler.wrapping_add(4);
    }

    fn branch(&mut self, taken: bool, opcode: &Opcode)
        ensures
            final(self)@ == old(self)@.branch(taken, *opcode),
    {
        if taken {
            self.next_pc = self.pc.wrapping_add(opcode.imm_se() << 2);
        }
        self.branching = true;
    }

    fn jump(&mut self, target: u32)
        ensures
            final(self)@ == old(self)@.jump(target),
    {
        self.next_pc = target;
        self.branching = true;
        if target % 4 != 0 {
            self.alignment_exception(Exception::LoadAddress, target, true);
        }
    }

    fn jump_target(&self, opcode: &Opcode) -> (target: u32)
        ensures
            target == self@.jump_target(*opcode),
    {
        (self.pc & 0xF000_0000) | (opcode.imm26() << 2)
    }

    /// Writes the result of an instruction that may overflow.
    fn set_checked(&mut self, index: u32, result: Option<u32>)
        requires
            old(self).wf(),
            index < 32,
        ensures
            final(self).wf(),
            final(self)@ == old(self)@.set_checked(index, result),
    {
        match result {
            Some(value) => self.set_reg(index, value),
            None => self.exception(Exception::Overflow),
        }
    }

    fn set_hi_lo(&mut self, pair: (u32, u32))
        ensures
            final(self)@ == old(self)@.with_hi_lo(pair),
    {
        self.hi = pair.0;
        self.lo = pair.1;
    }

    fn bcond(&mut self, opcode: &Opcode)
        requires
            old(self).wf(),
        ensures
            final(self).wf(),
            final(self)@ == old(self)@.bcond(*opcode),
    {
        // There are more than four conditional branches in this group.
        // They act as one instruction whose outcome depends on the
        // condition (bit 16) and on linking (bits 20-17).
        let mode = opcode.rt();
        let negative = (#[verifier::truncate] (self.reg(opcode.rs()) as i32)) < 0;
        let link = self.pc.wrapping_add(4);  // (+4 to go after the branch-delay slot)
        let taken = if mode & 1 != 0 {
            !negative  // BGEZxx
        } else {
            negative  // BLTZxx
        };
        self.branch(taken, opcode);
        // If linking, put the return address in register 31 whatever the outcome
        if mode & 0b11110 == 0b10000 {
            self.set_reg(31, link);
        }
    }

    fn cop0_mfc(&mut self, opcode: &Opcode)
        requires
            old(self).wf(),
        ensures
            final(self).wf(),
            final(self)@ == old(self)@.cop0_mfc(*opcode),
    {
        let index = opcode.rd();
        let value = if index == 6 || index == 7 {
            0
        } else if index == 8 {
            self.cop0.badvaddr
        } else if index == 12 {
            self.cop0.status
        } else if index == 13 {
            self.cop0.cause
        } else if index == 14 {
            self.cop0.epc
        } else if index == 15 {
            0x0000_0002  // Processor ID
        } else {
            self.fault = latch(self.fault, Fault::Cop0Register { index });
            return ;
        };
        // Put in the load-delay slot
        self.pending_load = (opcode.rt(), value);
    }

    fn cop0_mtc(&mut self, opcode: &Opcode)
        requires
            old(self).wf(),
        ensures
            final(self).wf(),
            final(self)@ == old(self)@.cop0_mtc(*opcode),
    {
        let index = opcode.rd();
        let value = self.reg(opcode.rt());
        if index == 3 || index == 5 || index == 6 || index == 7 || index == 9 || index == 11 {
            // Ignored
        } else if index == 12 {
            self.cop0.status = value;
        } else if index == 13 {
            // Only SW (9-8) are writeable
            self.cop0 = self.cop0.write_cause(value);
        } else {
            self.fault = latch(self.fault, Fault::Cop0Register { index });
        }
    }

    fn cop0_instruction(&mut self, opcode: &Opcode)
        requires
            old(self).wf(),
        ensures
            final(self).wf(),
            final(self)@ == old(self)@.cop0_instruction(*opcode),
    {
        let kind = opcode.rs();
        if kind == 0b00000 {
            self.cop0_mfc(opcode);
        } else if kind == 0b00100 {
            self.cop0_mtc(opcode);
        } else if kind == 0b10000 {
            // Shift the interrupt stack to the right (the "old" values at the left remain unchanged)
            self.cop0 = self.cop0.rfe();
        } else {
            self.exception(Exception::IllegalInstruction);
        }
    }

    fn special(&mut self, opcode: &Opcode)
        requires
            old(self).wf(),
        ensures
            final(self).wf(),
            final(self)@ == old(self)@.special(*opcode),
    {
        let function = opcode.sub();
        let s = self.reg(opcode.rs());
        let t = self.reg(opcode.rt());
        let rd = opcode.rd();
        proof {
            lemma_shift_amount(s);
        }
        if function == 0b000000 {
            self.set_reg(rd, t << opcode.imm5());
        } else if function == 0b000010 {
            self.set_reg(rd, t >> opcode.imm5());
        } else if function == 0b000011 {
            self.set_reg(rd, sra(t, opcode.imm5()));
        } else if function == 0b000100 {
            self.set_reg(rd, t << (s & 0x1F));
        } else if function == 0b000110 {
            self.set_reg(rd, t >> (s & 0x1F));
        } else if function == 0b000111 {
            self.set_reg(rd, sra(t, s));
        } else if function == 0b001000 {
            self.jump(s);
        } else if function == 0b001001 {
            self.set_reg(rd, self.next_pc);
            self.jump(s);
        } else if function == 0b001100 {
            self.exception(Exception::Syscall);
        } else if function == 0b001101 {
            self.exception(Exception::Break);
        } else if function == 0b010000 {
            self.set_reg(rd, self.hi);
        } else if function == 0b010001 {
            self.hi = s;
        } else if function == 0b010010 {
            self.set_reg(rd, self.lo);
        } else if function == 0b010011 {
            self.lo = s;
        } else if function == 0b011000 {
            self.set_hi_lo(mult(s, t));
        } else if function == 0b011001 {
            self.set_hi_lo(multu(s, t));
        } else if function == 0b011010 {
            self.set_hi_lo(div(s, t));
        } else if function == 0b011011 {
            self.set_hi_lo(divu(s, t));
        } else if function == 0b100000 {
            self.set_checked(rd, crate::alu::add(s, t));
        } else if function == 0b100001 {
            self.set_reg(rd, s.wrapping_add(t));
        } else if function == 0b100010 {
            self.set_checked(rd, crate::alu::sub(s, t));
        } else if function == 0b100011 {
            self.set_reg(rd, s.wrapping_sub(t));
        } else if function == 0b100100 {
            self.set_reg(rd, s & t);
        } else if function == 0b100101 {
            self.set_reg(rd, t | s);
        } else if function == 0b100110 {
            self.set_reg(rd, t ^ s);
        } else if function == 0b100111 {
            self.set_reg(rd, !(t | s));
        } else if function == 0b101010 {
            self.set_reg(rd, slt(s, t));
        } else if function == 0b101011 {
            self.set_reg(rd, sltu(s, t));
        } else {
            self.exception(Exception::IllegalInstruction);
        }
    }

    fn execute_plain(&mut self, opcode: &Opcode)
        requires
            old(self).wf(),
        ensures
            final(self).wf(),
            final(self)@ == old(self)@.execute_plain(*opcode),
    {
        let instr = opcode.instr();
        let s = self.reg(opcode.rs());
        let t = self.reg(opcode.rt());
        let rt = opcode.rt();
        if instr == 0b000000 {
            self.special(opcode);
        } else if instr == 0b000001 {
            self.bcond(opcode);
        } else if instr == 0b000010 {
            self.jump(self.jump_target(opcode));
        } else if instr == 0b000011 {
            let target = self.jump_target(opcode);
            self.set_reg(31, self.next_pc);
            self.jump(target);
        } else if instr == 0b000100 {
            self.branch(s == t, opcode);
        } else if instr == 0b000101 {
            self.branch(s != t, opcode);
        } else if instr == 0b000110 {
            self.branch((#[verifier::truncate] (s as i32)) <= 0, opcode);
        } else if instr == 0b000111 {
            self.branch((#[verifier::truncate] (s as i32)) > 0, opcode);
        } else if instr == 0b001000 {
            // ADDI generates an exception on overflow
            self.set_checked(rt, crate::alu::add(s, opcode.imm_se()));
        } else if instr == 0b001001 {
            // ADDIU truncates on overflow
            self.set_reg(rt, s.wrapping_add(opcode.imm_se()));
        } else if instr == 0b001010 {
            self.set_reg(rt, slt(s, opcode.imm_se()));
        } else if instr == 0b001011 {
            self.set_reg(rt, sltu(s, opcode.imm_se()));
        } else if instr == 0b001100 {
            self.set_reg(rt, s & opcode.imm());
        } else if instr == 0b001101 {
            self.set_reg(rt, s | opcode.imm());
        } else if instr == 0b001110 {
            self.set_reg(rt, s ^ opcode.imm());
        } else if instr == 0b001111 {
            self.set_reg(rt, opcode.imm() << 16);
        } else if instr == 0b010000 {
            self.cop0_instruction(opcode);
        } else if instr == 0b010001 || instr == 0b010010 || instr == 0b010011 {
            self.exception(Exception::CoprocessorError);
        } else if (0b110000 <= instr && instr <= 0b110011) || (0b111000 <= instr && instr
            <= 0b111011) {
            self.exception(Exception::CoprocessorError);
        } else {
            self.exception(Exception::IllegalInstruction);
        }
    }

    fn read8(&mut self, mem: &mut Memory, address: u32) -> (value: u8)
        requires
            old(mem).wf(),
        ensures
            final(mem).wf(),
            (machine(final(self), final(mem)), value) == machine(old(self), old(mem)).load8(
                address,
            ),
    {
        self.debugger.register_data_access(address, true);
        mem.read8(address)
    }

    fn read16(&mut self, mem: &mut Memory, address: u32) -> (value: u16)
        requires
            old(mem).wf(),
        ensures
            final(mem).wf(),
            (machine(final(self), final(mem)), value) == machine(old(self), old(mem)).load16(
                address,
            ),
    {
        self.debugger.register_data_access(address, true);
        mem.read16(address)
    }

    fn read32(&mut self, mem: &mut Memory, address: u32) -> (value: u32)
        requires
            old(mem).wf(),
        ensures
            final(mem).wf(),
            (machine(final(self), final(mem)), value) == machine(old(self), old(mem)).load32(
                address,
            ),
    {
        self.debugger.register_data_access(address, true);
        mem.read(address)
    }

    fn write8(&mut self, mem: &mut Memory, address: u32, value: u8)
        requires
            old(mem).wf(),
        ensures
            final(mem).wf(),
            machine(final(self), final(mem)) == machine(old(self), old(mem)).store8(address, value),
    {
        self.debugger.register_data_access(address, false);
        mem.write8(address, value);
    }

    fn write16(&mut self, mem: &mut Memory, address: u32, value: u16)
        requires
            old(mem).wf(),
        ensures
            final(mem).wf(),
            machine(final(self), final(mem)) == machine(old(self), old(mem)).store16(
                address,
                value,
            ),
    {
        self.debugger.register_data_access(address, false);
        mem.write16(address, value);
    }

    fn write32(&mut self, mem: &mut Memory, address: u32, value: u32)
        requires
            old(mem).wf(),
        ensures
            final(mem).wf(),
            machine(final(self), final(mem)) == machine(old(self), old(mem)).store32(
                address,
                value,
            ),
    {
        self.debugger.register_data_access(address, false);
        mem.write(address, value);
    }

    fn address(&self, opcode: &Opcode) -> (address: u32)
        ensures
            address == self@.reg(opcode.spec_rs()).wrapping_add(opcode.spec_imm_se()),
    {
        self.reg(opcode.rs()).wrapping_add(opcode.imm_se())
    }

    /// Puts `value` in the load-delay slot of register `rt`.
    fn delayed_load(&mut self, rt: u32, value: u32)
        requires
            old(self).wf(),
            rt < 32,
        ensures
            final(self).wf(),
            final(self)@ == old(self)@.delayed_load(rt, value),
    {
        // Double delayed loads on the same register: cancel the previous load
        if self.previous_pending_load.0 == rt {
            self.r_next[rt as usize] = self.r[rt as usize];
        }
        self.pending_load = (rt, value);
    }

    fn lb(&mut self, mem: &mut Memory, opcode: &Opcode)
        requires
            old(self).wf(),
            old(mem).wf(),
        ensures
            final(self).wf(),
            final(mem).wf(),
            machine(final(self), final(mem)) == machine(old(self), old(mem)).lb(*opcode),
    {
        let address = self.address(opcode);
        let result = self.read8(mem, address) as i8;
        self.delayed_load(opcode.rt(), result as u32);
    }

    fn lbu(&mut self, mem: &mut Memory, opcode: &Opcode)
        requires
            old(self).wf(),
            old(mem).wf(),
        ensures
            final(self).wf(),
            final(mem).wf(),
            machine(final(self), final(mem)) == machine(old(self), old(mem)).lbu(*opcode),
    {
        let address = self.address(opcode);
        let result = self.read8(mem, address);
        self.delayed_load(opcode.rt(), result as u32);
    }

    fn lh(&mut self, mem: &mut Memory, opcode: &Opcode)
        requires
            old(self).wf(),
            old(mem).wf(),
        ensures
            final(self).wf(),
            final(mem).wf(),
            machine(final(self), final(mem)) == machine(old(self), old(mem)).lh(*opcode),
    {
        let address = self.address(opcode);
        if address % 2 == 0 {
            let result = self.read16(mem, address) as i16;
            self.delayed_load(opcode.rt(), result as u32);
        } else {
            self.alignment_exception(Exception::LoadAddress, address, false);
        }
    }

    fn lhu(&mut self, mem: &mut Memory, opcode: &Opcode)
        requires
            old(self).wf(),
            old(mem).wf(),
        ensures
            final(self).wf(),
            final(mem).wf(),
            machine(final(self), final(mem)) == machine(old(self), old(mem)).lhu(*opcode),
    {
        let address = self.address(opcode);
        if address % 2 == 0 {
            let result = self.read16(mem, address);
            self.delayed_load(opcode.rt(), result as u32);
        } else {
            self.alignment_exception(Exception::LoadAddress, address, false);
        }
    }

    fn lw(&mut self, mem: &mut Memory, opcode: &Opcode)
        requires
            old(self).wf(),
            old(mem).wf(),
        ensures
            final(self).wf(),
            final(mem).wf(),
            machine(final(self), final(mem)) == machine(old(self), old(mem)).lw(*opcode),
    {
        let address = self.address(opcode);
        if address % 4 == 0 {
            let value = self.read32(mem, address);
            self.delayed_load(opcode.rt(), value);
        } else {
            self.alignment_exception(Exception::LoadAddress, address, false);
        }
    }

    fn lwl(&mut self, mem: &mut Memory, opcode: &Opcode)
        requires
            old(self).wf(),
            old(mem).wf(),
        ensures
            final(self).wf(),
            final(mem).wf(),
            machine(final(self), final(mem)) == machine(old(self), old(mem)).lwl(*opcode),
    {
        let address = self.address(opcode);
        // Bypass the load-delay slot
        let value = self.r_next[opcode.rt() as usize];
        let aligned_value = self.read32(mem, address & !3u32);
        let result = lwl(address & 3, value, aligned_value);
        self.delayed_load(opcode.rt(), result);
    }

    fn lwr(&mut self, mem: &mut Memory, opcode: &Opcode)
        requires
            old(self).wf(),
            old(mem).wf(),
        ensures
            final(self).wf(),
            final(mem).wf(),
            machine(final(self), final(mem)) == machine(old(self), old(mem)).lwr(*opcode),
    {
        let address = self.address(opcode);
        // Bypass the load-delay slot
        let value = self.r_next[opcode.rt() as usize];
        let aligned_value = self.read32(mem, address & !3u32);
        let result = lwr(address & 3, value, aligned_value);
        self.delayed_load(opcode.rt(), result);
    }

    fn sb(&mut self, mem: &mut Memory, opcode: &Opcode)
        requires
            old(self).wf(),
            old(mem).wf(),
        ensures
            final(self).wf(),
            final(mem).wf(),
            machine(final(self), final(mem)) == machine(old(self), old(mem)).sb(*opcode),
    {
        let address = self.address(opcode);
        let value = #[verifier::truncate] (self.reg(opcode.rt()) as u8);
        self.write8(mem, address, value);
    }

    fn sh(&mut self, mem: &mut Memory, opcode: &Opcode)
        requires
            old(self).wf(),
            old(mem).wf(),
        ensures
            final(self).wf(),
            final(mem).wf(),
            machine(final(self), final(mem)) == machine(old(self), old(mem)).sh(*opcode),
    {
        let address = self.address(opcode);
        if address % 2 == 0 {
            let value = #[verifier::truncate] (self.reg(opcode.rt()) as u16);
            self.write16(mem, address, value);
        } else {
            self.alignment_exception(Exception::StoreAddress, address, false);
        }
    }

    fn sw(&mut self, mem: &mut Memory, opcode: &Opcode)
        requires
            old(self).wf(),
            old(mem).wf(),
        ensures
            final(self).wf(),
            final(mem).wf(),
            machine(final(self), final(mem)) == machine(old(self), old(mem)).sw(*opcode),
    {
        let address = self.address(opcode);
        if address % 4 == 0 {
            let value = self.reg(opcode.rt());
            self.write32(mem, address, value);
        } else {
            self.alignment_exception(Exception::StoreAddress, address, false);
        }
    }

    fn swl(&mut self, mem: &mut Memory, opcode: &Opcode)
        requires
            old(self).wf(),
            old(mem).wf(),
        ensures
            final(self).wf(),
            final(mem).wf(),
            machine(final(self), final(mem)) == machine(old(self), old(mem)).swl(*opcode),
    {
        let value = self.reg(opcode.rt());
        let address = self.address(opcode);
        let aligned_address = address & !3u32;
        let aligned_value = self.read32(mem, aligned_address);
        let result = swl(address & 3, aligned_value, value);
        self.write32(mem, aligned_address, result);
    }

    fn swr(&mut self, mem: &mut Memory, opcode: &Opcode)
        requires
            old(self).wf(),
            old(mem).wf(),
        ensures
            final(self).wf(),
            final(mem).wf(),
            machine(final(self), final(mem)) == machine(old(self), old(mem)).swr(*opcode),
    {
        let value = self.reg(opcode.rt());
        let address = self.address(opcode);
        let aligned_address = address & !3u32;
        let aligned_value = self.read32(mem, aligned_address);
        let result = swr(address & 3, aligned_value, value);
        self.write32(mem, aligned_address, result);
    }

    fn execute_memory(&mut self, mem: &mut Memory, opcode: &Opcode)
        requires
            old(self).wf(),
            old(mem).wf(),
            CpuState::touches_memory(opcode.spec_instr()),
        ensures
            final(self).wf(),
            final(mem).wf(),
            machine(final(self), final(mem)) == machine(old(self), old(mem)).execute_memory(
                *opcode,
            ),
    {
        let instr = opcode.instr();
        if self.cop0.isolated() {
            // Cache is isolated, ignoring
        } else if instr == 0b100000 {
            self.lb(mem, opcode);
        } else if instr == 0b100001 {
            self.lh(mem, opcode);
        } else if instr == 0b100010 {
            self.lwl(mem, opcode);
        } else if instr == 0b100011 {
            self.lw(mem, opcode);
        } else if instr == 0b100100 {
            self.lbu(mem, opcode);
        } else if instr == 0b100101 {
            self.lhu(mem, opcode);
        } else if instr == 0b100110 {
            self.lwr(mem, opcode);
        } else if instr == 0b101000 {
            self.sb(mem, opcode);
        } else if instr == 0b101001 {
            self.sh(mem, opcode);
        } else if instr == 0b101010 {
            self.swl(mem, opcode);
        } else if instr == 0b101011 {
            self.sw(mem, opcode);
        } else {
            self.swr(mem, opcode);
        }
    }

    fn execute(&mut self, mem: &mut Memory, opcode: Opcode)
        requires
            old(self).wf(),
            old(mem).wf(),
        ensures
            final(self).wf(),
            final(mem).wf(),
            machine(final(self), final(mem)) == machine(old(self), old(mem)).execute(opcode),
    {
        reveal(Machine::execute);
        let instr = opcode.instr();
        if (0b100000 <= instr && instr <= 0b100110) || (0b101000 <= instr && instr <= 0b101011)
            || instr == 0b101110 {
            self.execute_memory(mem, &opcode);
        } else {
            self.execute_plain(&opcode);
        }
    }
}

/// A run that met a stop after `done` steps ends there, however many
/// steps were asked for.
pub proof fn lemma_run_stops(start: Machine, done: nat, count: nat)
    requires
        done <= count,
        !start.run(done).1,
    ensures
        start.run(count) == start.run(done),
    decreases count,
{
    if done < count {
        lemma_run_stops(start, done, (count - 1) as nat);
    }
}

} // verus!
