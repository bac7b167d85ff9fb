//! A low-level emulator core for a MIPS R3000A-class console: CPU interpreter,
//! memory bus, DMA engine, GPU command processor and interrupt controller.
//!
//! Each component is a plain data structure with a mathematical model (its
//! view) and functions whose contracts say, over the models, what they
//! return and change. `machine` and `cpu_state` hold what an instruction
//! does; `gpu_state`, `dma`, `cdrom`, `spu` and `memory` what the devices
//! and the bus do; `laws` and `image_laws` what follows for every program.
//!
//! Nothing here aborts. A condition that the hardware model does not cover
//! (a store that no device takes, a command that is not supported) drops
//! the operation and latches a `fault::Fault` for the host to act on.

pub mod alu;
pub mod bios;
pub mod bits;
pub mod bus;
pub mod cdrom;
pub mod cpu;
pub mod cpu_state;
pub mod debugger;
pub mod disassembler;
pub mod dma;
pub mod dma_channel;
pub mod exefile;
pub mod fault;
pub mod gpu;
pub mod gpu_registers;
pub mod gpu_state;
pub mod image_laws;
pub mod interrupt_controller;
pub mod laws;
pub mod machine;
pub mod memory;
pub mod memory_segment;
pub mod opcode;
pub mod psx;
pub mod ram;
pub mod renderer;
pub mod scratchpad;
pub mod spu;
pub mod text;
