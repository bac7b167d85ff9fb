//! The processor and the bus together: loads, stores, and the step from one
//! instruction to the next.

use vstd::prelude::*;
use crate::alu::{spec_lwl, spec_lwr, spec_swl, spec_swr};
use crate::cpu_state::{CpuState, Exception};
use crate::exefile::{HEADER_SIZE, header_word};
use crate::fault::Fault;
use crate::memory::MemoryState;
use crate::opcode::Opcode;

verus! {

/// The address at which a waiting executable image is loaded: the entry of
/// the BIOS shell.
pub const SIDELOAD_PC: u32 = 0x8003_0000;

/// The model of the whole machine.
pub struct Machine {
    pub cpu: CpuState,
    pub mem: MemoryState,
}

/// The bus after the bytes of `bytes` were stored from `address` on, lowest
/// address first.
pub open spec fn write_bytes(mem: MemoryState, address: u32, bytes: Seq<u8>) -> MemoryState
    decreases bytes.len(),
{
    if bytes.len() == 0 {
        mem
    } else {
        write_bytes(mem, address, bytes.drop_last()).write8(
            address.wrapping_add((bytes.len() - 1) as u32),
            bytes.last(),
        )
    }
}

/// The bus after `count` zero bytes were stored from `address` on.
pub open spec fn zero_fill(mem: MemoryState, address: u32, count: nat) -> MemoryState
    decreases count,
{
    if count == 0 {
        mem
    } else {
        zero_fill(mem, address, (count - 1) as nat).write8(
            address.wrapping_add((count - 1) as u32),
            0u8,
        )
    }
}

/// The payload of an executable image.
pub open spec fn payload(data: Seq<u8>) -> Seq<u8> {
    data.subrange(HEADER_SIZE as int, HEADER_SIZE + header_word(data, 0x1C))
}

/// The bus after the image `data` was loaded: the payload is copied to its
/// destination, then the fill region is cleared.
pub open spec fn load_image(mem: MemoryState, data: Seq<u8>) -> MemoryState {
    zero_fill(
        write_bytes(mem, header_word(data, 0x18), payload(data)),
        header_word(data, 0x28),
        header_word(data, 0x2C) as nat,
    )
}

/// The processor after the image `data` was loaded: execution goes on at
/// the entry point once the instruction in flight is done, register 28 holds
/// the global pointer, and registers 29 and 30 the top of the stack if the
/// image names one.
pub open spec fn enter_image(cpu: CpuState, data: Seq<u8>) -> CpuState {
    let entered = CpuState { next_pc: header_word(data, 0x10), ..cpu }.set_reg(
        28,
        header_word(data, 0x14),
    );
    let top = header_word(data, 0x30).wrapping_add(header_word(data, 0x34));
    if header_word(data, 0x30) != 0 {
        entered.set_reg(29, top).set_reg(30, top)
    } else {
        entered
    }
}

impl Machine {
    pub open spec fn wf(self) -> bool {
        self.cpu.wf() && self.mem.wf()
    }

    pub open spec fn with_cpu(self, cpu: CpuState) -> Machine {
        Machine { cpu, ..self }
    }

    /// The debugger learns of a data access.
    pub open spec fn accessed(self, address: u32, read: bool) -> Machine {
        self.with_cpu(
            CpuState {
                debugger: self.cpu.debugger.register_data_access(address, read),
                ..self.cpu
            },
        )
    }

    pub open spec fn load8(self, address: u32) -> (Machine, u8) {
        let (mem, value) = self.mem.read8(address);
        (Machine { mem, ..self.accessed(address, true) }, value)
    }

    pub open spec fn load16(self, address: u32) -> (Machine, u16) {
        (self.accessed(address, true), self.mem.read16(address))
    }

    pub open spec fn load32(self, address: u32) -> (Machine, u32) {
        let (mem, value) = self.mem.read32(address);
        (Machine { mem, ..self.accessed(address, true) }, value)
    }

    pub open spec fn store8(self, address: u32, value: u8) -> Machine {
        Machine { mem: self.mem.write8(address, value), ..self.accessed(address, false) }
    }

    pub open spec fn store16(self, address: u32, value: u16) -> Machine {
        Machine { mem: self.mem.write16(address, value), ..self.accessed(address, false) }
    }

    pub open spec fn store32(self, address: u32, value: u32) -> Machine {
        Machine { mem: self.mem.write32(address, value), ..self.accessed(address, false) }
    }

    /// The address of a load or a store: a register plus the sign-extended
    /// immediate.
    pub open spec fn address(self, op: Opcode) -> u32 {
        self.cpu.reg(op.spec_rs()).wrapping_add(op.spec_imm_se())
    }

    pub open spec fn raise(self, exception: Exception, address: u32) -> Machine {
        self.with_cpu(self.cpu.alignment_exception(exception, address, false))
    }

    pub open spec fn loaded(self, op: Opcode, value: u32) -> Machine {
        self.with_cpu(self.cpu.delayed_load(op.spec_rt(), value))
    }

    /// LB: a byte, sign-extended.
    pub open spec fn lb(self, op: Opcode) -> Machine {
        let (m, value) = self.load8(self.address(op));
        m.loaded(op, (value as i8) as u32)
    }

    /// LBU: a byte, zero-extended.
    pub open spec fn lbu(self, op: Opcode) -> Machine {
        let (m, value) = self.load8(self.address(op));
        m.loaded(op, value as u32)
    }

    /// LH: a half-word, sign-extended. An odd address is an exception.
    pub open spec fn lh(self, op: Opcode) -> Machine {
        let address = self.address(op);
        if address % 2 == 0 {
            let (m, value) = self.load16(address);
            m.loaded(op, (value as i16) as u32)
        } else {
            self.raise(Exception::LoadAddress, address)
        }
    }

    /// LHU: a half-word, zero-extended. An odd address is an exception.
    pub open spec fn lhu(self, op: Opcode) -> Machine {
        let address = self.address(op);
        if address % 2 == 0 {
            let (m, value) = self.load16(address);
            m.loaded(op, value as u32)
        } else {
            self.raise(Exception::LoadAddress, address)
        }
    }

    /// LW: a word. An address that is not word-aligned is an exception.
    pub open spec fn lw(self, op: Opcode) -> Machine {
        let address = self.address(op);
        if address % 4 == 0 {
            let (m, value) = self.load32(address);
            m.loaded(op, value)
        } else {
            self.raise(Exception::LoadAddress, address)
        }
    }

    /// LWL: the high bytes of the register come from the aligned word at
    /// the address. The register is read past the load delay.
    pub open spec fn lwl(self, op: Opcode) -> Machine {
        let address = self.address(op);
        let value = self.cpu.r_next[op.spec_rt() as int];
        let (m, word) = self.load32(address & !3u32);
        m.loaded(op, spec_lwl(address & 3, value, word))
    }

    /// LWR: the low bytes of the register come from the aligned word at the
    /// address. The register is read past the load delay.
    pub open spec fn lwr(self, op: Opcode) -> Machine {
        let address = self.address(op);
        let value = self.cpu.r_next[op.spec_rt() as int];
        let (m, word) = self.load32(address & !3u32);
        m.loaded(op, spec_lwr(address & 3, value, word))
    }

    /// SB: the low byte of the register.
    pub open spec fn sb(self, op: Opcode) -> Machine {
        self.store8(self.address(op), self.cpu.reg(op.spec_rt()) as u8)
    }

    /// SH: the low half of the register. An odd address is an exception.
    pub open spec fn sh(self, op: Opcode) -> Machine {
        let address = self.address(op);
        if address % 2 == 0 {
            self.store16(address, self.cpu.reg(op.spec_rt()) as u16)
        } else {
            self.raise(Exception::StoreAddress, address)
        }
    }

    /// SW: the register. An address that is not word-aligned is an
    /// exception.
    pub open spec fn sw(self, op: Opcode) -> Machine {
        let address = self.address(op);
        if address % 4 == 0 {
            self.store32(address, self.cpu.reg(op.spec_rt()))
        } else {
            self.raise(Exception::StoreAddress, address)
        }
    }

    /// SWL: the high bytes of the register go into the aligned word at the
    /// address.
    pub open spec fn swl(self, op: Opcode) -> Machine {
        let address = self.address(op);
        let (m, word) = self.load32(address & !3u32);
        m.store32(address & !3u32, spec_swl(address & 3, word, self.cpu.reg(op.spec_rt())))
    }

    /// SWR: the low bytes of the register go into the aligned word at the
    /// address.
    pub open spec fn swr(self, op: Opcode) -> Machine {
        let address = self.address(op);
        let (m, word) = self.load32(address & !3u32);
        m.store32(address & !3u32, spec_swr(address & 3, word, self.cpu.reg(op.spec_rt())))
    }

    /// A load or a store, by its primary opcode. While the cache is
    /// isolated, it is dropped.
    pub open spec fn execute_memory(self, op: Opcode) -> Machine {
        let instr = op.spec_instr();
        if self.cpu.cop0.spec_isolated() {
            self
        } else if instr == 0b100000 {
            self.lb(op)
        } else if instr == 0b100001 {
            self.lh(op)
        } else if instr == 0b100010 {
            self.lwl(op)
        } else if instr == 0b100011 {
            self.lw(op)
        } else if instr == 0b100100 {
            self.lbu(op)
        } else if instr == 0b100101 {
            self.lhu(op)
        } else if instr == 0b100110 {
            self.lwr(op)
        } else if instr == 0b101000 {
            self.sb(op)
        } else if instr == 0b101001 {
            self.sh(op)
        } else if instr == 0b101010 {
            self.swl(op)
        } else if instr == 0b101011 {
            self.sw(op)
        } else {
            self.swr(op)
        }
    }

    /// What the instruction `op` does.
    #[verifier::opaque]
    pub open spec fn execute(self, op: Opcode) -> Machine {
        if CpuState::touches_memory(op.spec_instr()) {
            self.execute_memory(op)
        } else {
            self.with_cpu(self.cpu.execute_plain(op))
        }
    }

    /// Whether a waiting image is loaded now: execution has reached the
    /// entry of the BIOS shell.
    pub open spec fn sideload_due(self) -> bool {
        self.cpu.pc == SIDELOAD_PC && self.cpu.exe is Some
    }

    /// The machine after the waiting image was loaded.
    pub open spec fn sideload(self) -> Machine {
        let data = self.cpu.exe->0;
        Machine {
            cpu: enter_image(CpuState { exe: None, ..self.cpu }, data),
            mem: load_image(self.mem, data),
        }
    }

    /// Whether nothing asks for a stop: no breakpoint, no data hit, and no
    /// fault latched in the processor, on the bus or in a device.
    pub open spec fn running(self) -> bool {
        !self.cpu.stopped() && self.cpu.fault is None && self.mem.first_fault() is None
    }

    /// The machine at the point of the fetch: the last load has landed and
    /// the delay-slot flag is latched; the interrupt line was polled; a
    /// waiting image was loaded if execution has reached the shell.
    pub open spec fn ready(self) -> Machine {
        let polled = self.with_cpu(self.cpu.begin().poll(self.mem.irq.spec_pending()));
        if polled.sideload_due() {
            polled.sideload()
        } else {
            polled
        }
    }

    /// The instruction at `pc` is fetched and executed, and what it wrote
    /// becomes visible. The result says whether to go on. A fetch from an
    /// address that is not word-aligned is a fault, and nothing is executed.
    pub open spec fn fetch_execute(self) -> (Machine, bool) {
        let pc = self.cpu.pc;
        if pc % 4 != 0 {
            (
                self.with_cpu(
                    CpuState { current_pc: pc, ..self.cpu }.with_fault(
                        Fault::UnalignedFetch { address: pc },
                    ),
                ),
                false,
            )
        } else {
            let (mem, word) = self.mem.read32(pc);
            let done = Machine { cpu: self.cpu.advance(), mem }.execute(Opcode(word));
            let published = done.with_cpu(done.cpu.publish());
            (published, published.running())
        }
    }

    /// One instruction: what `ready` does, then what `fetch_execute` does.
    #[verifier::opaque]
    pub open spec fn step(self) -> (Machine, bool) {
        self.ready().fetch_execute()
    }

    /// The machine after at most `count` steps, and whether all of them said
    /// to go on: the run ends with the first step that asks for a stop.
    pub open spec fn run(self, count: nat) -> (Machine, bool)
        decreases count,
    {
        if count == 0 {
            (self, true)
        } else {
            let (before, going) = self.run((count - 1) as nat);
            if going {
                before.step()
            } else {
                (before, false)
            }
        }
    }
}

} // verus!
