//! The processor, as a mathematical model: registers with their load delay,
//! the exception machinery of coprocessor 0, and what each instruction does
//! to them.

use vstd::prelude::*;
use crate::alu::{
    spec_add,
    spec_div,
    spec_divu,
    spec_mult,
    spec_multu,
    spec_slt,
    spec_sltu,
    spec_sra,
    spec_sub,
};
use crate::debugger::DebuggerState;
use crate::exefile::image_valid;
use crate::fault::{Fault, spec_latch};
use crate::opcode::Opcode;

verus! {

/// The exceptions that the processor raises.
#[derive(Debug, Copy, Clone, PartialEq, Eq, Structural)]
pub enum Exception {
    ExternalInterrupt,
    LoadAddress,
    StoreAddress,
    Syscall,
    Break,
    IllegalInstruction,
    CoprocessorError,
    Overflow,
}

impl Exception {
    /// The code that the cause register shows in its bits 6..2.
    pub open spec fn spec_code(self) -> u32 {
        match self {
            Exception::ExternalInterrupt => 0,
            Exception::LoadAddress => 4,
            Exception::StoreAddress => 5,
            Exception::Syscall => 8,
            Exception::Break => 9,
            Exception::IllegalInstruction => 10,
            Exception::CoprocessorError => 11,
            Exception::Overflow => 12,
        }
    }

    #[verifier::when_used_as_spec(spec_code)]
    pub fn code(self) -> (c: u32)
        ensures
            c == self.spec_code(),
            c <= 12,
    {
        match self {
            Exception::ExternalInterrupt => 0,
            Exception::LoadAddress => 4,
            Exception::StoreAddress => 5,
            Exception::Syscall => 8,
            Exception::Break => 9,
            Exception::IllegalInstruction => 10,
            Exception::CoprocessorError => 11,
            Exception::Overflow => 12,
        }
    }
}

/// The handler that exceptions enter while the BEV bit of the status is set.
pub const HANDLER_BOOT: u32 = 0xBFC0_0180;

/// The handler that exceptions enter otherwise.
pub const HANDLER_RAM: u32 = 0x8000_0080;

/// The registers of coprocessor 0 that are modelled.
#[derive(Debug, Copy, Clone, PartialEq, Eq, Structural)]
pub struct Cop0 {
    pub status: u32,
    pub cause: u32,
    pub epc: u32,
    pub badvaddr: u32,
}

impl Cop0 {
    /// Whether the cache is isolated: loads and stores are then dropped.
    pub open spec fn spec_isolated(self) -> bool {
        self.status & 0x1_0000 != 0
    }

    /// The registers after the interrupt line was sampled: bit 10 of the
    /// cause follows it.
    pub open spec fn spec_sample(self, pending: bool) -> Cop0 {
        Cop0 {
            cause: if pending {
                self.cause | (1u32 << 10)
            } else {
                self.cause & !(1u32 << 10)
            },
            ..self
        }
    }

    /// Whether an interrupt is taken: interrupts are enabled, and a cause
    /// bit is set whose mask bit in the status is set too.
    pub open spec fn spec_interrupted(self) -> bool {
        (self.status & 1) != 0 && (((self.cause & self.status) >> 8) & 0xFF) != 0
    }

    /// The registers on entry to an exception. The code goes into bits 6..2
    /// of the cause. In a branch delay slot the address saved is that of the
    /// branch, and bit 31 of the cause is set. The low six bits of the status,
    /// three pairs of mode and interrupt-enable bits, move up by one pair.
    pub open spec fn spec_enter(self, code: u32, epc: u32, in_delay_slot: bool) -> Cop0 {
        let cause = (self.cause & !0x7Cu32) | (code << 2);
        Cop0 {
            epc: if in_delay_slot {
                epc.wrapping_sub(4)
            } else {
                epc
            },
            cause: if in_delay_slot {
                cause | (1u32 << 31)
            } else {
                cause
            },
            status: (self.status & !0x3Fu32) | ((self.status << 2) & 0x3F),
            ..self
        }
    }

    /// The handler that an exception enters, by the BEV bit of the status.
    pub open spec fn spec_handler(self) -> u32 {
        if (self.status & (1u32 << 22)) != 0 {
            HANDLER_BOOT
        } else {
            HANDLER_RAM
        }
    }

    /// The registers after a return from exception: the low two pairs of
    /// the status take the value of the pairs above them; the top pair stays.
    pub open spec fn spec_rfe(self) -> Cop0 {
        Cop0 { status: (self.status & !0xFu32) | ((self.status >> 2) & 0xF), ..self }
    }

    /// The cause after a write: only its bits 9 and 8 can be written.
    pub open spec fn spec_write_cause(self, value: u32) -> Cop0 {
        Cop0 { cause: (self.cause & !0x300u32) | (value & 0x300), ..self }
    }

    #[verifier::when_used_as_spec(spec_isolated)]
    pub fn isolated(self) -> (r: bool)
        ensures
            r == self.spec_isolated(),
    {
        self.status & 0x1_0000 != 0
    }

    #[verifier::when_used_as_spec(spec_sample)]
    pub fn sample(self, pending: bool) -> (r: Cop0)
        ensures
            r == self.spec_sample(pending),
    {
        Cop0 {
            cause: if pending {
                self.cause | (1u32 << 10)
            } else {
                self.cause & !(1u32 << 10)
            },
            ..self
        }
    }

    #[verifier::when_used_as_spec(spec_interrupted)]
    pub fn interrupted(self) -> (r: bool)
        ensures
            r == self.spec_interrupted(),
    {
        (self.status & 1) != 0 && (((self.cause & self.status) >> 8) & 0xFF) != 0
    }

    #[verifier::when_used_as_spec(spec_enter)]
    pub fn enter(self, code: u32, epc: u32, in_delay_slot: bool) -> (r: Cop0)
        ensures
            r == self.spec_enter(code, epc, in_delay_slot),
    {
        let cause = (self.cause & !0x7Cu32) | (code << 2);
        Cop0 {
            epc: if in_delay_slot {
                epc.wrapping_sub(4)
            } else {
                epc
            },
            cause: if in_delay_slot {
                cause | (1u32 << 31)
            } else {
                cause
            },
            status: (self.status & !0x3Fu32) | ((self.status << 2) & 0x3F),
            ..self
        }
    }

    #[verifier::when_used_as_spec(spec_handler)]
    pub fn handler(self) -> (r: u32)
        ensures
            r == self.spec_handler(),
    {
        if (self.status & (1u32 << 22)) != 0 {
            HANDLER_BOOT
        } else {
            HANDLER_RAM
        }
    }

    #[verifier::when_used_as_spec(spec_rfe)]
    pub fn rfe(self) -> (r: Cop0)
        ensures
            r == self.spec_rfe(),
    {
        Cop0 { status: (self.status & !0xFu32) | ((self.status >> 2) & 0xF), ..self }
    }

    #[verifier::when_used_as_spec(spec_write_cause)]
    pub fn write_cause(self, value: u32) -> (r: Cop0)
        ensures
            r == self.spec_write_cause(value),
    {
        Cop0 { cause: (self.cause & !0x300u32) | (value & 0x300), ..self }
    }
}

/// The model of the processor.
pub struct CpuState {
    /// The address of the instruction that is fetched next.
    pub pc: u32,
    /// The address of the instruction after that one.
    pub next_pc: u32,
    /// The address of the instruction that is being executed.
    pub current_pc: u32,
    /// The general registers, as the instruction being executed sees them.
    pub r: Seq<u32>,
    /// The general registers, as the next instruction will see them.
    pub r_next: Seq<u32>,
    pub hi: u32,
    pub lo: u32,
    /// The load that the instruction being executed issued: register and
    /// value. Register 0 stands for none.
    pub pending_load: (u32, u32),
    /// The load that the instruction before it issued.
    pub previous_pending_load: (u32, u32),
    pub cop0: Cop0,
    /// Whether the instruction being executed is a branch or a jump.
    pub branching: bool,
    /// Whether the instruction being executed follows a branch or a jump.
    pub in_delay_slot: bool,
    /// The number of instructions executed, modulo 2^32.
    pub counter: u32,
    /// The first fatal condition met, if any.
    pub fault: Option<Fault>,
    pub debugger: DebuggerState,
    /// The executable image that waits to be loaded, if any.
    pub exe: Option<Seq<u8>>,
}

impl CpuState {
    /// The invariant of the processor: 32 registers in each file, register
    /// 0 zero in both, and a pending load that names a register.
    pub open spec fn wf(self) -> bool {
        &&& self.r.len() == 32
        &&& self.r_next.len() == 32
        &&& self.r[0] == 0
        &&& self.r_next[0] == 0
        &&& self.pending_load.0 < 32
        &&& (self.exe matches Some(data) ==> image_valid(data))
    }

    /// The processor after reset, with `exe` waiting to be loaded.
    pub open spec fn spec_new(exe: Option<Seq<u8>>) -> CpuState {
        CpuState {
            pc: 0xBFC0_0000,
            next_pc: 0xBFC0_0004,
            current_pc: 0,
            r: Seq::new(32, |i: int| 0u32),
            r_next: Seq::new(32, |i: int| 0u32),
            hi: 0,
            lo: 0,
            pending_load: (0u32, 0u32),
            previous_pending_load: (0u32, 0u32),
            cop0: Cop0 { status: 0, cause: 0, epc: 0, badvaddr: 0 },
            branching: false,
            in_delay_slot: false,
            counter: 0,
            fault: None,
            debugger: DebuggerState::spec_new(),
            exe,
        }
    }

    pub open spec fn with_fault(self, fault: Fault) -> CpuState {
        CpuState { fault: spec_latch(self.fault, fault), ..self }
    }

    /// The value of register `index`, as the instruction being executed
    /// sees it.
    pub open spec fn reg(self, index: u32) -> u32 {
        self.r[index as int]
    }

    /// The processor after an instruction wrote `value` to register
    /// `index`. The next instruction sees the value. Register 0 stays zero.
    pub open spec fn set_reg(self, index: u32, value: u32) -> CpuState {
        CpuState { r_next: self.r_next.update(index as int, value).update(0, 0u32), ..self }
    }

    /// The processor on entry to an exception, with `epc` the address of
    /// the instruction at fault.
    pub open spec fn raise_exception(self, exception: Exception, epc: u32) -> CpuState {
        let cop0 = self.cop0.spec_enter(exception.spec_code(), epc, self.in_delay_slot);
        CpuState {
            cop0,
            pc: cop0.spec_handler(),
            next_pc: cop0.spec_handler().wrapping_add(4),
            ..self
        }
    }

    /// An exception of the instruction being executed.
    pub open spec fn exception(self, exception: Exception) -> CpuState {
        self.raise_exception(exception, self.current_pc)
    }

    /// An address exception: `address` goes into BADVADDR. For a jump the
    /// address at fault is the target itself.
    pub open spec fn alignment_exception(self, exception: Exception, address: u32, branch: bool) -> CpuState {
        CpuState { cop0: Cop0 { badvaddr: address, ..self.cop0 }, ..self }.raise_exception(
            exception,
            if branch {
                address
            } else {
                self.current_pc
            },
        )
    }

    /// The processor after a branch instruction: if `taken`, the instruction
    /// after the delay slot is the one `offset` words from the delay slot.
    pub open spec fn branch(self, taken: bool, op: Opcode) -> CpuState {
        CpuState {
            next_pc: if taken {
                self.pc.wrapping_add(op.spec_imm_se() << 2)
            } else {
                self.next_pc
            },
            branching: true,
            ..self
        }
    }

    /// The processor after a jump to `target`. A target that is not
    /// word-aligned raises an address exception.
    pub open spec fn jump(self, target: u32) -> CpuState {
        let jumped = CpuState { next_pc: target, branching: true, ..self };
        if target % 4 != 0 {
            jumped.alignment_exception(Exception::LoadAddress, target, true)
        } else {
            jumped
        }
    }

    /// The target of J and JAL: the top four bits of the address of the
    /// delay slot, then the 26-bit field as a word index.
    pub open spec fn jump_target(self, op: Opcode) -> u32 {
        (self.pc & 0xF000_0000) | (op.spec_imm26() << 2)
    }

    /// The processor after an instruction whose result, if it has one, goes
    /// to register `index`: without one, the instruction overflowed.
    pub open spec fn set_checked(self, index: u32, result: Option<u32>) -> CpuState {
        match result {
            Some(value) => self.set_reg(index, value),
            None => self.exception(Exception::Overflow),
        }
    }

    pub open spec fn with_hi_lo(self, pair: (u32, u32)) -> CpuState {
        CpuState { hi: pair.0, lo: pair.1, ..self }
    }

    /// The processor after an instruction issued a load of `value` into
    /// register `rt`. If the instruction before it loaded into the same
    /// register, that load is cancelled.
    pub open spec fn delayed_load(self, rt: u32, value: u32) -> CpuState {
        CpuState {
            r_next: if self.previous_pending_load.0 == rt {
                self.r_next.update(rt as int, self.r[rt as int])
            } else {
                self.r_next
            },
            pending_load: (rt, value),
            ..self
        }
    }

    /// What a move from coprocessor 0 reads in register `index`, if the
    /// register is modelled.
    pub open spec fn cop0_value(self, index: u32) -> Option<u32> {
        if index == 6 || index == 7 {
            Some(0u32)
        } else if index == 8 {
            Some(self.cop0.badvaddr)
        } else if index == 12 {
            Some(self.cop0.status)
        } else if index == 13 {
            Some(self.cop0.cause)
        } else if index == 14 {
            Some(self.cop0.epc)
        } else if index == 15 {
            Some(2u32)
        } else {
            None
        }
    }

    /// MFC0: the value reaches the register after the load delay. A
    /// register that is not modelled is a fault.
    pub open spec fn cop0_mfc(self, op: Opcode) -> CpuState {
        match self.cop0_value(op.spec_rd()) {
            Some(value) => CpuState { pending_load: (op.spec_rt(), value), ..self },
            None => self.with_fault(Fault::Cop0Register { index: op.spec_rd() }),
        }
    }

    /// MTC0: the status takes any value, the cause only its bits 9 and 8.
    /// Writes to registers 3, 5, 6, 7, 9 and 11 are ignored. Any other
    /// register is a fault.
    pub open spec fn cop0_mtc(self, op: Opcode) -> CpuState {
        let index = op.spec_rd();
        let value = self.reg(op.spec_rt());
        if index == 3 || index == 5 || index == 6 || index == 7 || index == 9 || index == 11 {
            self
        } else if index == 12 {
            CpuState { cop0: Cop0 { status: value, ..self.cop0 }, ..self }
        } else if index == 13 {
            CpuState { cop0: self.cop0.spec_write_cause(value), ..self }
        } else {
            self.with_fault(Fault::Cop0Register { index })
        }
    }

    /// An instruction of the group with primary opcode 0, by its function
    /// code.
    pub open spec fn special(self, op: Opcode) -> CpuState {
        let function = op.spec_sub();
        let s = self.reg(op.spec_rs());
        let t = self.reg(op.spec_rt());
        let rd = op.spec_rd();
        if function == 0b000000 {
            self.set_reg(rd, t << op.spec_imm5())
        } else if function == 0b000010 {
            self.set_reg(rd, t >> op.spec_imm5())
        } else if function == 0b000011 {
            self.set_reg(rd, spec_sra(t, op.spec_imm5()))
        } else if function == 0b000100 {
            self.set_reg(rd, t << (s & 0x1F))
        } else if function == 0b000110 {
            self.set_reg(rd, t >> (s & 0x1F))
        } else if function == 0b000111 {
            self.set_reg(rd, spec_sra(t, s))
        } else if function == 0b001000 {
            self.jump(s)
        } else if function == 0b001001 {
            self.set_reg(rd, self.next_pc).jump(s)
        } else if function == 0b001100 {
            self.exception(Exception::Syscall)
        } else if function == 0b001101 {
            self.exception(Exception::Break)
        } else if function == 0b010000 {
            self.set_reg(rd, self.hi)
        } else if function == 0b010001 {
            CpuState { hi: s, ..self }
        } else if function == 0b010010 {
            self.set_reg(rd, self.lo)
        } else if function == 0b010011 {
            CpuState { lo: s, ..self }
        } else if function == 0b011000 {
            self.with_hi_lo(spec_mult(s, t))
        } else if function == 0b011001 {
            self.with_hi_lo(spec_multu(s, t))
        } else if function == 0b011010 {
            self.with_hi_lo(spec_div(s, t))
        } else if function == 0b011011 {
            self.with_hi_lo(spec_divu(s, t))
        } else if function == 0b100000 {
            self.set_checked(rd, spec_add(s, t))
        } else if function == 0b100001 {
            self.set_reg(rd, s.wrapping_add(t))
        } else if function == 0b100010 {
            self.set_checked(rd, spec_sub(s, t))
        } else if function == 0b100011 {
            self.set_reg(rd, s.wrapping_sub(t))
        } else if function == 0b100100 {
            self.set_reg(rd, s & t)
        } else if function == 0b100101 {
            self.set_reg(rd, t | s)
        } else if function == 0b100110 {
            self.set_reg(rd, t ^ s)
        } else if function == 0b100111 {
            self.set_reg(rd, !(t | s))
        } else if function == 0b101010 {
            self.set_reg(rd, spec_slt(s, t))
        } else if function == 0b101011 {
            self.set_reg(rd, spec_sltu(s, t))
        } else {
            self.exception(Exception::IllegalInstruction)
        }
    }

    /// BLTZ, BGEZ, BLTZAL and BGEZAL: bit 0 of the rt field chooses the
    /// test, and bits 4..1 equal to 1000 ask for the return address in
    /// register 31, taken or not.
    pub open spec fn bcond(self, op: Opcode) -> CpuState {
        let mode = op.spec_rt();
        let negative = (self.reg(op.spec_rs()) as i32) < 0;
        let branched = self.branch(
            if mode & 1 != 0 {
                !negative
            } else {
                negative
            },
            op,
        );
        if mode & 0b11110 == 0b10000 {
            branched.set_reg(31, self.pc.wrapping_add(4))
        } else {
            branched
        }
    }

    /// An instruction of coprocessor 0, by its rs field.
    pub open spec fn cop0_instruction(self, op: Opcode) -> CpuState {
        if op.spec_rs() == 0b00000 {
            self.cop0_mfc(op)
        } else if op.spec_rs() == 0b00100 {
            self.cop0_mtc(op)
        } else if op.spec_rs() == 0b10000 {
            CpuState { cop0: self.cop0.spec_rfe(), ..self }
        } else {
            self.exception(Exception::IllegalInstruction)
        }
    }

    /// Whether the primary opcode `instr` names a load or a store.
    pub open spec fn touches_memory(instr: u32) -> bool {
        (0b100000 <= instr <= 0b100110) || (0b101000 <= instr <= 0b101011) || instr == 0b101110
    }

    /// An instruction that touches no memory, by its primary opcode.
    pub open spec fn execute_plain(self, op: Opcode) -> CpuState {
        let instr = op.spec_instr();
        let s = self.reg(op.spec_rs());
        let t = self.reg(op.spec_rt());
        let rt = op.spec_rt();
        if instr == 0b000000 {
            self.special(op)
        } else if instr == 0b000001 {
            self.bcond(op)
        } else if instr == 0b000010 {
            self.jump(self.jump_target(op))
        } else if instr == 0b000011 {
            self.set_reg(31, self.next_pc).jump(self.jump_target(op))
        } else if instr == 0b000100 {
            self.branch(s == t, op)
        } else if instr == 0b000101 {
            self.branch(s != t, op)
        } else if instr == 0b000110 {
            self.branch((s as i32) <= 0, op)
        } else if instr == 0b000111 {
            self.branch((s as i32) > 0, op)
        } else if instr == 0b001000 {
            self.set_checked(rt, spec_add(s, op.spec_imm_se()))
        } else if instr == 0b001001 {
            self.set_reg(rt, s.wrapping_add(op.spec_imm_se()))
        } else if instr == 0b001010 {
            self.set_reg(rt, spec_slt(s, op.spec_imm_se()))
        } else if instr == 0b001011 {
            self.set_reg(rt, spec_sltu(s, op.spec_imm_se()))
        } else if instr == 0b001100 {
            self.set_reg(rt, s & op.spec_imm())
        } else if instr == 0b001101 {
            self.set_reg(rt, s | op.spec_imm())
        } else if instr == 0b001110 {
            self.set_reg(rt, s ^ op.spec_imm())
        } else if instr == 0b001111 {
            self.set_reg(rt, op.spec_imm() << 16)
        } else if instr == 0b010000 {
            self.cop0_instruction(op)
        } else if instr == 0b010001 || instr == 0b010010 || instr == 0b010011 {
            self.exception(Exception::CoprocessorError)
        } else if (0b110000 <= instr <= 0b110011) || (0b111000 <= instr <= 0b111011) {
            self.exception(Exception::CoprocessorError)
        } else {
            self.exception(Exception::IllegalInstruction)
        }
    }

    /// The start of an instruction. The data hits are forgotten. The load
    /// that the last instruction issued lands in the registers that the next
    /// one will see; this one still sees the old value. The delay-slot flag
    /// is latched, and the instruction's address noted.
    pub open spec fn begin(self) -> CpuState {
        CpuState {
            debugger: self.debugger.clear_data_access(),
            r_next: self.r_next.update(self.pending_load.0 as int, self.pending_load.1).update(
                0,
                0u32,
            ),
            previous_pending_load: self.pending_load,
            pending_load: (0u32, 0u32),
            in_delay_slot: self.branching,
            branching: false,
            current_pc: self.pc,
            ..self
        }
    }

    /// The interrupt line is sampled; a pending interrupt that is enabled
    /// raises an exception before anything is fetched.
    pub open spec fn poll(self, pending: bool) -> CpuState {
        let sampled = CpuState { cop0: self.cop0.spec_sample(pending), ..self };
        if sampled.cop0.spec_interrupted() {
            sampled.exception(Exception::ExternalInterrupt)
        } else {
            sampled
        }
    }

    /// The fetch moves on: the instruction at `pc` is now being executed.
    pub open spec fn advance(self) -> CpuState {
        CpuState {
            current_pc: self.pc,
            pc: self.next_pc,
            next_pc: self.next_pc.wrapping_add(4),
            counter: self.counter.wrapping_add(1),
            ..self
        }
    }

    /// The end of an instruction: what it wrote becomes visible.
    pub open spec fn publish(self) -> CpuState {
        CpuState { r: self.r_next, ..self }
    }

    /// Whether the debugger asks for a stop: execution has reached a
    /// breakpoint, or a data access tripped one.
    pub open spec fn stopped(self) -> bool {
        self.debugger.is_breakpoint(self.next_pc, self.r) || self.debugger.hits.len() > 0
    }
}

} // verus!
