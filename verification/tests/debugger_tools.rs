use psx::bios::BIOS;
use psx::debugger::{Breakpoint, DataBreakpoint, Debugger, RegisterCondition};
use psx::disassembler::disassemble_word;
use psx::gpu::{CommandBuffer, CommandRecord, GPU};
use psx::gpu_state::Port;
use psx::psx::PSX;
use psx::text::{push_decimal, push_hex, push_signed};

fn bios_with(words: &[u32]) -> BIOS {
    let mut data = vec![0u8; 512 * 1024];
    for (i, word) in words.iter().enumerate() {
        data[i * 4..i * 4 + 4].copy_from_slice(&word.to_le_bytes());
    }
    BIOS::new(data).unwrap()
}

fn mnemonics(pc: u32, bits: u32) -> String {
    disassemble_word(pc, bits, 0).mnemonics
}

fn record(port: Port, words: &[u32]) -> CommandRecord {
    let mut buffer = CommandBuffer::new();
    for word in words {
        buffer.push(*word);
    }
    CommandRecord(port, buffer)
}

#[test]
fn breakpoints_are_added_once() {
    let mut debugger = Debugger::new();
    debugger.add_breakpoint(0x100);
    debugger.add_breakpoint(0x200);
    debugger.add_breakpoint(0x100);
    let list = debugger.get_breakpoints();
    assert_eq!(list.len(), 2);
    assert_eq!(list[0].address, 0x100);
    assert!(list[0].enabled);
    assert!(list[0].register_conditions.is_empty());
    assert_eq!(list[1].address, 0x200);
    let fresh = Breakpoint::new(7);
    assert!(fresh.enabled && fresh.address == 7);
}

#[test]
fn breakpoints_are_removed_by_address() {
    let mut debugger = Debugger::new();
    for address in [1, 2, 3, 4] {
        debugger.add_breakpoint(address);
    }
    debugger.remove_breakpoint(2);
    debugger.remove_breakpoint(9);
    let addresses: Vec<u32> = debugger.get_breakpoints().iter().map(|b| b.address).collect();
    assert_eq!(addresses, vec![1, 3, 4]);
    debugger.remove_breakpoint(1);
    debugger.remove_breakpoint(4);
    debugger.remove_breakpoint(3);
    assert!(debugger.get_breakpoints().is_empty());
}

#[test]
fn breakpoint_hits() {
    let mut debugger = Debugger::new();
    let mut registers = [0u32; 32];
    debugger.add_breakpoint(0x100);
    assert!(debugger.is_breakpoint(0x100, &registers));
    assert!(!debugger.is_breakpoint(0x104, &registers));
    debugger.toggle_breakpoint(0x100, false);
    assert!(!debugger.is_breakpoint(0x100, &registers));
    debugger.toggle_breakpoint(0x100, true);
    debugger.toggle_breakpoint(0x999, true);
    assert_eq!(debugger.get_breakpoints().len(), 1);
    // A fresh condition asks for register 1 to be zero.
    debugger.add_breakpoint_condition(0x100);
    assert!(debugger.is_breakpoint(0x100, &registers));
    registers[1] = 5;
    assert!(!debugger.is_breakpoint(0x100, &registers));
    debugger.set_breakpoint_condition(0x100, 0, 1, 5);
    assert!(debugger.is_breakpoint(0x100, &registers));
    // One condition met is enough.
    debugger.add_breakpoint_condition(0x100);
    debugger.set_breakpoint_condition(0x100, 0, 2, 9);
    assert!(!debugger.is_breakpoint(0x100, &registers));
    registers[1] = 0;
    assert!(debugger.is_breakpoint(0x100, &registers));
    debugger.add_breakpoint_condition(0x999);
    assert_eq!(debugger.get_breakpoints()[0].register_conditions.len(), 2);
}

#[test]
fn conditions_can_be_changed_in_place() {
    let mut debugger = Debugger::new();
    debugger.add_breakpoint(0x100);
    debugger.add_breakpoint_condition(0x100);
    let conditions = debugger.get_breakpoint_conditions_mut(0x100);
    assert_eq!(conditions.len(), 1);
    conditions[0] = RegisterCondition { register: 4, value: 0xAA };
    let mut registers = [0u32; 32];
    assert!(!debugger.is_breakpoint(0x100, &registers));
    registers[4] = 0xAA;
    assert!(debugger.is_breakpoint(0x100, &registers));
    // A register number past the file is never met.
    assert!(!RegisterCondition { register: 32, value: 0 }.is_matched(&registers));
    assert!(RegisterCondition { register: 31, value: 0 }.is_matched(&registers));
}

#[test]
fn data_breakpoints() {
    let mut debugger = Debugger::new();
    debugger.add_data_breakpoint(0x10);
    debugger.add_data_breakpoint(0x20);
    debugger.add_data_breakpoint(0x10);
    assert_eq!(debugger.get_data_breakpoints_mut().len(), 2);
    assert!(!debugger.has_data_breakpoint());
    debugger.register_data_access(0x30, true);
    assert!(!debugger.has_data_breakpoint());
    debugger.register_data_access(0x10, true);
    debugger.register_data_access(0x20, false);
    assert!(debugger.has_data_breakpoint());
    assert!(debugger.is_data_breakpoint(0x10));
    assert!(debugger.is_data_breakpoint(0x20));
    assert!(!debugger.is_data_breakpoint(0x30));
    assert_eq!(debugger.get_data_breakpoints_hit(), &[0x10, 0x20]);
    debugger.clear_data_access();
    assert!(!debugger.has_data_breakpoint());
    assert!(debugger.get_data_breakpoints_hit().is_empty());
    // Reads only.
    debugger.get_data_breakpoints_mut()[0].on_write = false;
    debugger.register_data_access(0x10, false);
    assert!(!debugger.has_data_breakpoint());
    debugger.register_data_access(0x10, true);
    assert!(debugger.is_data_breakpoint(0x10));
    debugger.remove_data_breakpoint(0x10);
    assert_eq!(debugger.get_data_breakpoints_mut().len(), 1);
    assert_eq!(debugger.get_data_breakpoints_mut()[0].address, 0x20);
    let fresh = DataBreakpoint::new(3);
    assert!(fresh.on_read && fresh.on_write && fresh.trips(3, true) && !fresh.trips(4, true));
}

#[test]
fn step_stops_at_a_breakpoint() {
    // Three instructions that do nothing.
    let mut psx = PSX::new(bios_with(&[0, 0, 0, 0]), None);
    // The stop comes when the instruction after the next is the breakpoint.
    psx.cpu.debugger.add_breakpoint(0xBFC0_000C);
    assert!(psx.cpu.step(&mut psx.mem));
    assert!(!psx.cpu.step(&mut psx.mem));
    assert_eq!(psx.cpu.next_pc, 0xBFC0_000C);
    let mut psx = PSX::new(bios_with(&[0, 0, 0, 0]), None);
    psx.cpu.debugger.add_breakpoint(0xBFC0_000C);
    assert!(!psx.run(10));
    assert_eq!(psx.cpu.counter, 2);
}

#[test]
fn step_stops_at_a_data_access() {
    // SW R0, 64(R0); LW R1, 64(R0); NOP
    let mut psx = PSX::new(bios_with(&[0xAC00_0040, 0x8C01_0040, 0]), None);
    psx.cpu.debugger.add_data_breakpoint(64);
    assert!(!psx.cpu.step(&mut psx.mem));
    assert!(psx.cpu.debugger.is_data_breakpoint(64));
    assert!(!psx.cpu.step(&mut psx.mem));
    // The hits are forgotten at the start of each step.
    assert!(psx.cpu.step(&mut psx.mem));
    assert!(!psx.cpu.debugger.has_data_breakpoint());
}

#[test]
fn numbers_as_text() {
    let mut text = String::new();
    push_hex(&mut text, 0xBFC0_0180, 8);
    text.push(' ');
    push_hex(&mut text, 0x1A, 4);
    text.push(' ');
    push_hex(&mut text, 0x12345, 4);
    text.push(' ');
    push_hex(&mut text, 0, 1);
    text.push(' ');
    push_decimal(&mut text, 0);
    text.push(' ');
    push_decimal(&mut text, 4_294_967_295);
    text.push(' ');
    push_signed(&mut text, -32768);
    text.push(' ');
    push_signed(&mut text, 17);
    assert_eq!(text, "BFC00180 001A 12345 0 0 4294967295 -32768 17");
}

#[test]
fn disassembly_of_each_operand_form() {
    assert_eq!(mnemonics(0, 0x3C01_1234), "LUI R1, $1234");
    assert_eq!(mnemonics(0, 0x0002_1900), "SLL R3, R2, $4");
    assert_eq!(mnemonics(0, 0x0022_1804), "SLLV R3, R2, R1");
    assert_eq!(mnemonics(0, 0x0022_1806), "SRLV R3, R2, R1");
    assert_eq!(mnemonics(0, 0x03E0_0008), "JR R31");
    assert_eq!(mnemonics(0, 0x0020_F809), "JALR R1, R31");
    assert_eq!(mnemonics(0, 0x0000_000C), "SYSCALL");
    assert_eq!(mnemonics(0, 0x0000_000D), "BREAK");
    assert_eq!(mnemonics(0, 0x0000_1810), "MFHI R3");
    assert_eq!(mnemonics(0, 0x0022_001A), "DIV R1, R2");
    assert_eq!(mnemonics(0, 0x0022_1821), "ADDU R3, R1, R2");
    assert_eq!(mnemonics(0, 0x0022_182B), "SLTU R3, R1, R2");
    assert_eq!(mnemonics(0, 0x0000_003F), "[UNKNOWN]");
    assert_eq!(mnemonics(0, 0x0420_0004), "BLTZ R1, $0010");
    assert_eq!(mnemonics(0, 0x0431_0004), "BGEZAL R1, $0010");
    assert_eq!(mnemonics(0xBFC0_0000, 0x0800_0040), "J $B0000100");
    assert_eq!(mnemonics(0x8000_0000, 0x0FFF_FFFF), "JAL $8FFFFFFC");
    assert_eq!(mnemonics(0, 0x1022_FFFF), "BEQ R1, R2, $FFFFFFFC");
    assert_eq!(mnemonics(0, 0x2022_FFFF), "ADDI R2, R1, $FFFF");
    assert_eq!(mnemonics(0, 0x3421_00AB), "ORI R1, R1, $00AB");
    assert_eq!(mnemonics(0, 0x4002_6000), "MFC R2, copR12");
    assert_eq!(mnemonics(0, 0x4081_6800), "MTC R1, copR13");
    assert_eq!(mnemonics(0, 0x4200_0010), "RFE");
    assert_eq!(mnemonics(0, 0x8C41_0010), "LW R1, $0010(R2)");
    assert_eq!(mnemonics(0, 0xA041_FFFC), "SB R1, $FFFC(R2)");
    assert_eq!(mnemonics(0, 0xC800_0000), "LCW2");
    assert_eq!(mnemonics(0, 0xE800_0000), "SCW2");
    assert_eq!(mnemonics(0, 0x4400_0000), "[UNKNOWN]");
    assert_eq!(mnemonics(0, 0xFC00_0000), "[UNKNOWN]");
}

#[test]
fn disassembly_hints() {
    // A load shows its address.
    let load = disassemble_word(0, 0x8C41_FFFC, 0x8001_0000);
    assert_eq!(load.bits, 0x8C41_FFFC);
    assert_eq!(load.hint, "8000FFFC");
    // A branch shows its target and its direction.
    let back = disassemble_word(0xBFC0_0010, 0x1000_FFFD, 0);
    assert_eq!(back.hint, "BFC00008 (UP) ");
    let forward = disassemble_word(0xBFC0_0010, 0x1000_0002, 0);
    assert_eq!(forward.hint, "BFC0001C (DOWN) ");
    assert_eq!(disassemble_word(0, 0x3C01_1234, 0).hint, "");
}

#[test]
fn disassembly_reads_over_the_bus() {
    let mut psx = PSX::new(bios_with(&[0x8C41_0010]), None);
    psx.cpu.r[2] = 0x100;
    let text = psx.cpu.debugger.disassemble(0xBFC0_0000, &psx.cpu, &mut psx.mem);
    assert_eq!(text.bits, 0x8C41_0010);
    assert_eq!(text.mnemonics, "LW R1, $0010(R2)");
    assert_eq!(text.hint, "00000110");
}

#[test]
fn gpu_commands_in_words() {
    let gpu = GPU::new();
    assert_eq!(gpu.disassemble(&record(Port::GP0, &[0x0000_0000])), "NOP");
    assert_eq!(gpu.disassemble(&record(Port::GP0, &[0x2800_0000, 0, 0, 0, 0])), "Draw quad monochrome opaque");
    assert_eq!(gpu.disassemble(&record(Port::GP0, &[0xA000_0000, 0, 0])), "Load image");
    assert_eq!(gpu.disassemble(&record(Port::GP0, &[0xE500_0000])), "Drawing offset");
    assert_eq!(gpu.disassemble(&record(Port::GP0, &[0x7700_0000])), "[UNSUPPORTED COMMAND]");
    assert_eq!(
        gpu.disassemble(&record(Port::GP0, &[0x6803_0201, 0xFFFE_0005])),
        "Draw dot monochrome opaque [pos=Position(5, -2), col=Color(1, 2, 3)]"
    );
    assert_eq!(gpu.disassemble(&record(Port::GP1, &[0x0000_0000])), "Reset");
    assert_eq!(gpu.disassemble(&record(Port::GP1, &[0x0800_0000])), "Display mode");
    assert_eq!(gpu.disassemble(&record(Port::GP1, &[0x1000_0003])), "Get GPU info");
    assert_eq!(gpu.disassemble(&record(Port::GP1, &[0x1100_0003])), "[UNSUPPORTED COMMAND]");
    assert_eq!(gpu.disassemble(&record(Port::GP1, &[0x2800_0000])), "[UNSUPPORTED COMMAND]");
}
