//! Instructions and GPU commands in words, for a debugger to show.

use vstd::prelude::*;
use vstd::string::StringExecFns;
use crate::cpu::CPU;
use crate::debugger::Debugger;
use crate::gpu::{CommandRecord, GPU};
use crate::gpu_state::Port;
use crate::memory::Memory;
use crate::opcode::Opcode;
use crate::renderer::{Color, Position};
use crate::text::{decimal_text, hex_text, push_decimal, push_hex, push_signed, signed_text};

verus! {

/// The operands that the text of an instruction shows.
#[derive(Debug, Copy, Clone, PartialEq, Eq, Structural)]
pub enum Operands {
    /// Nothing after the name.
    Nothing,
    /// `$rd, $rt, $shift`
    RdRtShift,
    /// `$rd, $rt, $rs`
    RdRtRs,
    /// `$rs`
    Rs,
    /// `$rs, $rd`
    RsRd,
    /// `$rd`
    Rd,
    /// `$rs, $rt`
    RsRt,
    /// `$rd, $rs, $rt`
    RdRsRt,
    /// `$rs, $jumpoffset`
    RsJump,
    /// `$target`
    Target,
    /// `$rs, $rt, $jumpoffset`
    RsRtJump,
    /// `$rt, $rs, $imm`
    RtRsImm,
    /// `$rt, $imm`
    RtImm,
    /// `$rt, cop$rd`
    RtCop,
    /// `$rt, $regoffset`
    RtRegOffset,
}

/// An instruction in words.
pub struct Disassembly {
    /// The instruction word.
    pub bits: u32,
    /// The name of the instruction and its operands.
    pub mnemonics: String,
    /// What the operands come to: the address of a load or a store, the
    /// target of a branch.
    pub hint: String,
}

/// Name and operands of an instruction with primary opcode 0, by its
/// function code.
pub open spec fn spec_special_entry(function: u32) -> (Seq<char>, Operands) {
    if function == 0b000000 {
        ("SLL"@, Operands::RdRtShift)
    } else if function == 0b000010 {
        ("SRL"@, Operands::RdRtShift)
    } else if function == 0b000011 {
        ("SRA"@, Operands::RdRtShift)
    } else if function == 0b000100 {
        ("SLLV"@, Operands::RdRtRs)
    } else if function == 0b000110 {
        ("SRLV"@, Operands::RdRtRs)
    } else if function == 0b000111 {
        ("SRAV"@, Operands::RdRtRs)
    } else if function == 0b001000 {
        ("JR"@, Operands::Rs)
    } else if function == 0b001001 {
        ("JALR"@, Operands::RsRd)
    } else if function == 0b001100 {
        ("SYSCALL"@, Operands::Nothing)
    } else if function == 0b001101 {
        ("BREAK"@, Operands::Nothing)
    } else if function == 0b010000 {
        ("MFHI"@, Operands::Rd)
    } else if function == 0b010001 {
        ("MTHI"@, Operands::Rd)
    } else if function == 0b010010 {
        ("MFLO"@, Operands::Rd)
    } else if function == 0b010011 {
        ("MTLO"@, Operands::Rd)
    } else if function == 0b011000 {
        ("MULT"@, Operands::RsRt)
    } else if function == 0b011001 {
        ("MULTU"@, Operands::RsRt)
    } else if function == 0b011010 {
        ("DIV"@, Operands::RsRt)
    } else if function == 0b011011 {
        ("DIVU"@, Operands::RsRt)
    } else if function == 0b100000 {
        ("ADD"@, Operands::RdRsRt)
    } else if function == 0b100001 {
        ("ADDU"@, Operands::RdRsRt)
    } else if function == 0b100010 {
        ("SUB"@, Operands::RdRsRt)
    } else if function == 0b100011 {
        ("SUBU"@, Operands::RdRsRt)
    } else if function == 0b100100 {
        ("AND"@, Operands::RdRsRt)
    } else if function == 0b100101 {
        ("OR"@, Operands::RdRsRt)
    } else if function == 0b100110 {
        ("XOR"@, Operands::RdRsRt)
    } else if function == 0b100111 {
        ("NOR"@, Operands::RdRsRt)
    } else if function == 0b101010 {
        ("SLT"@, Operands::RdRsRt)
    } else if function == 0b101011 {
        ("SLTU"@, Operands::RdRsRt)
    } else {
        ("[UNKNOWN]"@, Operands::Nothing)
    }
}

/// Name and operands of an instruction, by its fields.
pub open spec fn spec_entry(op: Opcode) -> (Seq<char>, Operands) {
    let instr = op.spec_instr();
    if instr == 0b000000 {
        spec_special_entry(op.spec_sub())
    } else if instr == 0b000001 {
        if op.spec_rt() & 0b10001 == 0b00000 {
            ("BLTZ"@, Operands::RsJump)
        } else if op.spec_rt() & 0b10001 == 0b00001 {
            ("BGEZ"@, Operands::RsJump)
        } else if op.spec_rt() & 0b10001 == 0b10000 {
            ("BLTZAL"@, Operands::RsJump)
        } else {
            ("BGEZAL"@, Operands::RsJump)
        }
    } else if instr == 0b000010 {
        ("J"@, Operands::Target)
    } else if instr == 0b000011 {
        ("JAL"@, Operands::Target)
    } else if instr == 0b000100 {
        ("BEQ"@, Operands::RsRtJump)
    } else if instr == 0b000101 {
        ("BNE"@, Operands::RsRtJump)
    } else if instr == 0b000110 {
        ("BLEZ"@, Operands::RsRtJump)
    } else if instr == 0b000111 {
        ("BGTZ"@, Operands::RsRtJump)
    } else if instr == 0b001000 {
        ("ADDI"@, Operands::RtRsImm)
    } else if instr == 0b001001 {
        ("ADDIU"@, Operands::RtRsImm)
    } else if instr == 0b001010 {
        ("SLTI"@, Operands::RtRsImm)
    } else if instr == 0b001011 {
        ("SLTIU"@, Operands::RtRsImm)
    } else if instr == 0b001100 {
        ("ANDI"@, Operands::RtRsImm)
    } else if instr == 0b001101 {
        ("ORI"@, Operands::RtRsImm)
    } else if instr == 0b001110 {
        ("XORI"@, Operands::RtRsImm)
    } else if instr == 0b001111 {
        ("LUI"@, Operands::RtImm)
    } else if instr == 0b010000 {
        if op.spec_rs() == 0b00000 {
            ("MFC"@, Operands::RtCop)
        } else if op.spec_rs() == 0b00100 {
            ("MTC"@, Operands::RtCop)
        } else if op.spec_rs() == 0b10000 {
            ("RFE"@, Operands::Nothing)
        } else {
            ("[UNKNOWN]"@, Operands::Nothing)
        }
    } else if instr == 0b100000 {
        ("LB"@, Operands::RtRegOffset)
    } else if instr == 0b100001 {
        ("LH"@, Operands::RtRegOffset)
    } else if instr == 0b100010 {
        ("LWL"@, Operands::RtRegOffset)
    } else if instr == 0b100011 {
        ("LW"@, Operands::RtRegOffset)
    } else if instr == 0b100100 {
        ("LBU"@, Operands::RtRegOffset)
    } else if instr == 0b100101 {
        ("LHU"@, Operands::RtRegOffset)
    } else if instr == 0b100110 {
        ("LWR"@, Operands::RtRegOffset)
    } else if instr == 0b101000 {
        ("SB"@, Operands::RtRegOffset)
    } else if instr == 0b101001 {
        ("SH"@, Operands::RtRegOffset)
    } else if instr == 0b101010 {
        ("SWL"@, Operands::RtRegOffset)
    } else if instr == 0b101011 {
        ("SW"@, Operands::RtRegOffset)
    } else if instr == 0b101110 {
        ("SWR"@, Operands::RtRegOffset)
    } else if instr == 0b110000 {
        ("LCW0"@, Operands::Nothing)
    } else if instr == 0b110001 {
        ("LCW1"@, Operands::Nothing)
    } else if instr == 0b110010 {
        ("LCW2"@, Operands::Nothing)
    } else if instr == 0b110011 {
        ("LCW3"@, Operands::Nothing)
    } else if instr == 0b111000 {
        ("SCW0"@, Operands::Nothing)
    } else if instr == 0b111001 {
        ("SCW1"@, Operands::Nothing)
    } else if instr == 0b111010 {
        ("SCW2"@, Operands::Nothing)
    } else if instr == 0b111011 {
        ("SCW3"@, Operands::Nothing)
    } else {
        ("[UNKNOWN]"@, Operands::Nothing)
    }
}

/// A register as text: `R`, then its number.
pub open spec fn register_text(index: u32) -> Seq<char> {
    "R"@ + decimal_text(index as nat)
}

/// A number as text: `$`, then at least `width` hexadecimal digits.
pub open spec fn dollar_hex(value: u32, width: nat) -> Seq<char> {
    "$"@ + hex_text(value as nat, width)
}

/// The target of a jump instruction at `pc`.
pub open spec fn jump_target(pc: u32, op: Opcode) -> u32 {
    (pc & 0xF000_0000) | (op.spec_imm26() << 2)
}

/// The target of a branch instruction at `pc`.
pub open spec fn branch_target(pc: u32, op: Opcode) -> u32 {
    pc.wrapping_add(4u32.wrapping_add(op.spec_imm_se() << 2))
}

/// The operands of an instruction as text, with a space in front where
/// there are any.
pub open spec fn operand_text(operands: Operands, pc: u32, op: Opcode) -> Seq<char> {
    let rd = register_text(op.spec_rd());
    let rs = register_text(op.spec_rs());
    let rt = register_text(op.spec_rt());
    let jump = dollar_hex(op.spec_imm_se() << 2, 4);
    match operands {
        Operands::Nothing => Seq::empty(),
        Operands::RdRtShift => " "@ + rd + ", "@ + rt + ", $"@ + decimal_text(op.spec_imm5() as nat),
        Operands::RdRtRs => " "@ + rd + ", "@ + rt + ", "@ + rs,
        Operands::Rs => " "@ + rs,
        Operands::RsRd => " "@ + rs + ", "@ + rd,
        Operands::Rd => " "@ + rd,
        Operands::RsRt => " "@ + rs + ", "@ + rt,
        Operands::RdRsRt => " "@ + rd + ", "@ + rs + ", "@ + rt,
        Operands::RsJump => " "@ + rs + ", "@ + jump,
        Operands::Target => " "@ + dollar_hex(jump_target(pc, op), 8),
        Operands::RsRtJump => " "@ + rs + ", "@ + rt + ", "@ + jump,
        Operands::RtRsImm => " "@ + rt + ", "@ + rs + ", "@ + dollar_hex(op.spec_imm(), 4),
        Operands::RtImm => " "@ + rt + ", "@ + dollar_hex(op.spec_imm(), 4),
        Operands::RtCop => " "@ + rt + ", cop"@ + rd,
        Operands::RtRegOffset => " "@ + rt + ", "@ + dollar_hex(op.spec_imm(), 4) + "("@ + rs + ")"@,
    }
}

/// The text of the instruction `op` at `pc`: its name, then its operands.
pub open spec fn mnemonic_text(pc: u32, op: Opcode) -> Seq<char> {
    spec_entry(op).0 + operand_text(spec_entry(op).1, pc, op)
}

/// The hint that goes with the instruction `op` at `pc`, where `base` is
/// the value of the register that its rs field names. A load or a store
/// shows its address; a branch its target, and whether that lies before the
/// branch (UP) or not (DOWN). Other instructions have no hint.
pub open spec fn hint_text(pc: u32, op: Opcode, base: u32) -> Seq<char> {
    let operands = spec_entry(op).1;
    if operands is RtRegOffset {
        hex_text(op.spec_imm_se().wrapping_add(base) as nat, 8)
    } else if operands is RsJump || operands is RsRtJump {
        let target = branch_target(pc, op);
        hex_text(target as nat, 8) + " ("@ + (if target < pc {
            "UP"@
        } else {
            "DOWN"@
        }) + ") "@
    } else {
        Seq::empty()
    }
}

fn special_entry(function: u32) -> (r: (&'static str, Operands))
    ensures
        (r.0@, r.1) == spec_special_entry(function),
{
    if function == 0b000000 {
        ("SLL", Operands::RdRtShift)
    } else if function == 0b000010 {
        ("SRL", Operands::RdRtShift)
    } else if function == 0b000011 {
        ("SRA", Operands::RdRtShift)
    } else if function == 0b000100 {
        ("SLLV", Operands::RdRtRs)
    } else if function == 0b000110 {
        ("SRLV", Operands::RdRtRs)
    } else if function == 0b000111 {
        ("SRAV", Operands::RdRtRs)
    } else if function == 0b001000 {
        ("JR", Operands::Rs)
    } else if function == 0b001001 {
        ("JALR", Operands::RsRd)
    } else if function == 0b001100 {
        ("SYSCALL", Operands::Nothing)
    } else if function == 0b001101 {
        ("BREAK", Operands::Nothing)
    } else if function == 0b010000 {
        ("MFHI", Operands::Rd)
    } else if function == 0b010001 {
        ("MTHI", Operands::Rd)
    } else if function == 0b010010 {
        ("MFLO", Operands::Rd)
    } else if function == 0b010011 {
        ("MTLO", Operands::Rd)
    } else if function == 0b011000 {
        ("MULT", Operands::RsRt)
    } else if function == 0b011001 {
        ("MULTU", Operands::RsRt)
    } else if function == 0b011010 {
        ("DIV", Operands::RsRt)
    } else if function == 0b011011 {
        ("DIVU", Operands::RsRt)
    } else if function == 0b100000 {
        ("ADD", Operands::RdRsRt)
    } else if function == 0b100001 {
        ("ADDU", Operands::RdRsRt)
    } else if function == 0b100010 {
        ("SUB", Operands::RdRsRt)
    } else if function == 0b100011 {
        ("SUBU", Operands::RdRsRt)
    } else if function == 0b100100 {
        ("AND", Operands::RdRsRt)
    } else if function == 0b100101 {
        ("OR", Operands::RdRsRt)
    } else if function == 0b100110 {
        ("XOR", Operands::RdRsRt)
    } else if function == 0b100111 {
        ("NOR", Operands::RdRsRt)
    } else if function == 0b101010 {
        ("SLT", Operands::RdRsRt)
    } else if function == 0b101011 {
        ("SLTU", Operands::RdRsRt)
    } else {
        ("[UNKNOWN]", Operands::Nothing)
    }
}

fn entry(op: &Opcode) -> (r: (&'static str, Operands))
    ensures
        (r.0@, r.1) == spec_entry(*op),
{
    let instr = op.instr();
    if instr == 0b000000 {
        special_entry(op.sub())
    } else if instr == 0b000001 {
        let kind = op.rt() & 0b10001;
        if kind == 0b00000 {
            ("BLTZ", Operands::RsJump)
        } else if kind == 0b00001 {
            ("BGEZ", Operands::RsJump)
        } else if kind == 0b10000 {
            ("BLTZAL", Operands::RsJump)
        } else {
            ("BGEZAL", Operands::RsJump)
        }
    } else if instr == 0b000010 {
        ("J", Operands::Target)
    } else if instr == 0b000011 {
        ("JAL", Operands::Target)
    } else if instr == 0b000100 {
        ("BEQ", Operands::RsRtJump)
    } else if instr == 0b000101 {
        ("BNE", Operands::RsRtJump)
    } else if instr == 0b000110 {
        ("BLEZ", Operands::RsRtJump)
    } else if instr == 0b000111 {
        ("BGTZ", Operands::RsRtJump)
    } else if instr == 0b001000 {
        ("ADDI", Operands::RtRsImm)
    } else if instr == 0b001001 {
        ("ADDIU", Operands::RtRsImm)
    } else if instr == 0b001010 {
        ("SLTI", Operands::RtRsImm)
    } else if instr == 0b001011 {
        ("SLTIU", Operands::RtRsImm)
    } else if instr == 0b001100 {
        ("ANDI", Operands::RtRsImm)
    } else if instr == 0b001101 {
        ("ORI", Operands::RtRsImm)
    } else if instr == 0b001110 {
        ("XORI", Operands::RtRsImm)
    } else if instr == 0b001111 {
        ("LUI", Operands::RtImm)
    } else if instr == 0b010000 {
        let kind = op.rs();
        if kind == 0b00000 {
            ("MFC", Operands::RtCop)
        } else if kind == 0b00100 {
            ("MTC", Operands::RtCop)
        } else if kind == 0b10000 {
            ("RFE", Operands::Nothing)
        } else {
            ("[UNKNOWN]", Operands::Nothing)
        }
    } else if instr == 0b100000 {
        ("LB", Operands::RtRegOffset)
    } else if instr == 0b100001 {
        ("LH", Operands::RtRegOffset)
    } else if instr == 0b100010 {
        ("LWL", Operands::RtRegOffset)
    } else if instr == 0b100011 {
        ("LW", Operands::RtRegOffset)
    } else if instr == 0b100100 {
        ("LBU", Operands::RtRegOffset)
    } else if instr == 0b100101 {
        ("LHU", Operands::RtRegOffset)
    } else if instr == 0b100110 {
        ("LWR", Operands::RtRegOffset)
    } else if instr == 0b101000 {
        ("SB", Operands::RtRegOffset)
    } else if instr == 0b101001 {
        ("SH", Operands::RtRegOffset)
    } else if instr == 0b101010 {
        ("SWL", Operands::RtRegOffset)
    } else if instr == 0b101011 {
        ("SW", Operands::RtRegOffset)
    } else if instr == 0b101110 {
        ("SWR", Operands::RtRegOffset)
    } else if instr == 0b110000 {
        ("LCW0", Operands::Nothing)
    } else if instr == 0b110001 {
        ("LCW1", Operands::Nothing)
    } else if instr == 0b110010 {
        ("LCW2", Operands::Nothing)
    } else if instr == 0b110011 {
        ("LCW3", Operands::Nothing)
    } else if instr == 0b111000 {
        ("SCW0", Operands::Nothing)
    } else if instr == 0b111001 {
        ("SCW1", Operands::Nothing)
    } else if instr == 0b111010 {
        ("SCW2", Operands::Nothing)
    } else if instr == 0b111011 {
        ("SCW3", Operands::Nothing)
    } else {
        ("[UNKNOWN]", Operands::Nothing)
    }
}

fn push_register(text: &mut String, index: u32)
    ensures
        final(text)@ == old(text)@ + register_text(index),
{
    text.append("R");
    push_decimal(text, index);
    assert(text@ =~= old(text)@ + register_text(index));
}

fn push_dollar_hex(text: &mut String, value: u32, width: u32)
    ensures
        final(text)@ == old(text)@ + dollar_hex(value, width as nat),
{
    text.append("$");
    push_hex(text, value, width);
    assert(text@ =~= old(text)@ + dollar_hex(value, width as nat));
}

fn push_operands(text: &mut String, operands: Operands, pc: u32, op: &Opcode)
    ensures
        final(text)@ == old(text)@ + operand_text(operands, pc, *op),
{
    match operands {
        Operands::Nothing => {},
        Operands::RdRtShift => {
            text.append(" ");
            push_register(text, op.rd());
            text.append(", ");
            push_register(text, op.rt());
            text.append(", $");
            push_decimal(text, op.imm5());
        },
        Operands::RdRtRs => {
            text.append(" ");
            push_register(text, op.rd());
            text.append(", ");
            push_register(text, op.rt());
            text.append(", ");
            push_register(text, op.rs());
        },
        Operands::Rs => {
            text.append(" ");
            push_register(text, op.rs());
        },
        Operands::RsRd => {
            text.append(" ");
            push_register(text, op.rs());
            text.append(", ");
            push_register(text, op.rd());
        },
        Operands::Rd => {
            text.append(" ");
            push_register(text, op.rd());
        },
        Operands::RsRt => {
            text.append(" ");
            push_register(text, op.rs());
            text.append(", ");
            push_register(text, op.rt());
        },
        Operands::RdRsRt => {
            text.append(" ");
            push_register(text, op.rd());
            text.append(", ");
            push_register(text, op.rs());
            text.append(", ");
            push_register(text, op.rt());
        },
        Operands::RsJump => {
            text.append(" ");
            push_register(text, op.rs());
            text.append(", ");
            push_dollar_hex(text, op.imm_se() << 2, 4);
        },
        Operands::Target => {
            text.append(" ");
            push_dollar_hex(text, (pc & 0xF000_0000) | (op.imm26() << 2), 8);
        },
        Operands::RsRtJump => {
            text.append(" ");
            push_register(text, op.rs());
            text.append(", ");
            push_register(text, op.rt());
            text.append(", ");
            push_dollar_hex(text, op.imm_se() << 2, 4);
        },
        Operands::RtRsImm => {
            text.append(" ");
            push_register(text, op.rt());
            text.append(", ");
            push_register(text, op.rs());
            text.append(", ");
            push_dollar_hex(text, op.imm(), 4);
        },
        Operands::RtImm => {
            text.append(" ");
            push_register(text, op.rt());
            text.append(", ");
            push_dollar_hex(text, op.imm(), 4);
        },
        Operands::RtCop => {
            text.append(" ");
            push_register(text, op.rt());
            text.append(", cop");
            push_register(text, op.rd());
        },
        Operands::RtRegOffset => {
            text.append(" ");
            push_register(text, op.rt());
            text.append(", ");
            push_dollar_hex(text, op.imm(), 4);
            text.append("(");
            push_register(text, op.rs());
            text.append(")");
        },
    }
    assert(text@ =~= old(text)@ + operand_text(operands, pc, *op));
}

/// Puts the instruction word `bits`, found at `pc`, in words. `base` is the
/// value of the register that its rs field names.
pub fn disassemble_word(pc: u32, bits: u32, base: u32) -> (d: Disassembly)
    ensures
        d.bits == bits,
        d.mnemonics@ == mnemonic_text(pc, Opcode(bits)),
        d.hint@ == hint_text(pc, Opcode(bits), base),
{
    let op = Opcode(bits);
    let (name, operands) = entry(&op);
    let mut mnemonics = String::from_str(name);
    push_operands(&mut mnemonics, operands, pc, &op);
    let mut hint = String::new();
    match operands {
        Operands::RtRegOffset => {
            push_hex(&mut hint, op.imm_se().wrapping_add(base), 8);
        },
        Operands::RsJump | Operands::RsRtJump => {
            let target = pc.wrapping_add(4u32.wrapping_add(op.imm_se() << 2));
            push_hex(&mut hint, target, 8);
            hint.append(" (");
            if target < pc {
                hint.append("UP");
            } else {
                hint.append("DOWN");
            }
            hint.append(") ");
        },
        _ => {},
    }
    assert(hint@ =~= hint_text(pc, op, base));
    Disassembly { bits, mnemonics, hint }
}

impl Debugger {
    /// Puts the instruction at `pc` in words. The instruction is read over
    /// the bus, as a fetch would read it.
    pub fn disassemble(&self, pc: u32, cpu: &CPU, mem: &mut Memory) -> (d: Disassembly)
        requires
            old(mem).wf(),
        ensures
            final(mem).wf(),
            (final(mem)@, d.bits) == old(mem)@.read32(pc),
            d.mnemonics@ == mnemonic_text(pc, Opcode(d.bits)),
            d.hint@ == hint_text(pc, Opcode(d.bits), cpu@.reg(Opcode(d.bits).spec_rs())),
    {
        let bits = mem.read(pc);
        let base = cpu.reg(Opcode(bits).rs());
        disassemble_word(pc, bits, base)
    }
}

/// What a GP0 command does, by its opcode byte. The dot also shows its
/// position and its colour, which are in the words `position` and `color`.
pub open spec fn gp0_text(opcode: u32, position: u32, color: u32) -> Seq<char> {
    if opcode == 0x00 {
        "NOP"@
    } else if opcode == 0x01 {
        "Clear cache"@
    } else if opcode == 0x28 {
        "Draw quad monochrome opaque"@
    } else if opcode == 0x2C {
        "Draw quad textured opaque"@
    } else if opcode == 0x30 {
        "Draw triangle shaded opaque"@
    } else if opcode == 0x38 {
        "Draw quad shaded opaque"@
    } else if opcode == 0x68 {
        let p = Position::spec_from_command(position);
        let c = Color::spec_from_command(color);
        "Draw dot monochrome opaque [pos=Position("@ + signed_text(p.0 as int) + ", "@
            + signed_text(p.1 as int) + "), col=Color("@ + decimal_text(c.0 as nat) + ", "@
            + decimal_text(c.1 as nat) + ", "@ + decimal_text(c.2 as nat) + ")]"@
    } else if opcode == 0xA0 {
        "Load image"@
    } else if opcode == 0xC0 {
        "Store image"@
    } else if opcode == 0xE1 {
        "Draw mode"@
    } else if opcode == 0xE2 {
        "Texture window"@
    } else if opcode == 0xE3 {
        "Drawing area top left"@
    } else if opcode == 0xE4 {
        "Drawing area bottom right"@
    } else if opcode == 0xE5 {
        "Drawing offset"@
    } else if opcode == 0xE6 {
        "Mask bit setting"@
    } else {
        "[UNSUPPORTED COMMAND]"@
    }
}

/// What a GP1 command does, by its opcode byte.
pub open spec fn gp1_text(opcode: u32) -> Seq<char> {
    if opcode == 0x00 {
        "Reset"@
    } else if opcode == 0x01 {
        "Reset command buffer"@
    } else if opcode == 0x02 {
        "Acknowledge IRQ"@
    } else if opcode == 0x03 {
        "Enable display"@
    } else if opcode == 0x04 {
        "Setup DMA"@
    } else if opcode == 0x05 {
        "Start of display area"@
    } else if opcode == 0x06 {
        "Horizontal display range"@
    } else if opcode == 0x07 {
        "Vertical display range"@
    } else if opcode == 0x08 {
        "Display mode"@
    } else if opcode == 0x10 {
        "Get GPU info"@
    } else {
        "[UNSUPPORTED COMMAND]"@
    }
}

/// The words of the command record `words` that came through `port`.
pub open spec fn command_text(port: Port, words: Seq<u32>) -> Seq<char> {
    match port {
        Port::GP0 => gp0_text(words[0] >> 24, words[1], words[0]),
        Port::GP1 => gp1_text(words[0] >> 24),
    }
}

fn gp0_name(opcode: u32) -> (r: &'static str)
    requires
        opcode != 0x68,
    ensures
        r@ == gp0_text(opcode, 0, 0),
{
    if opcode == 0x00 {
        "NOP"
    } else if opcode == 0x01 {
        "Clear cache"
    } else if opcode == 0x28 {
        "Draw quad monochrome opaque"
    } else if opcode == 0x2C {
        "Draw quad textured opaque"
    } else if opcode == 0x30 {
        "Draw triangle shaded opaque"
    } else if opcode == 0x38 {
        "Draw quad shaded opaque"
    } else if opcode == 0xA0 {
        "Load image"
    } else if opcode == 0xC0 {
        "Store image"
    } else if opcode == 0xE1 {
        "Draw mode"
    } else if opcode == 0xE2 {
        "Texture window"
    } else if opcode == 0xE3 {
        "Drawing area top left"
    } else if opcode == 0xE4 {
        "Drawing area bottom right"
    } else if opcode == 0xE5 {
        "Drawing offset"
    } else if opcode == 0xE6 {
        "Mask bit setting"
    } else {
        "[UNSUPPORTED COMMAND]"
    }
}

fn gp1_name(opcode: u32) -> (r: &'static str)
    ensures
        r@ == gp1_text(opcode),
{
    if opcode == 0x00 {
        "Reset"
    } else if opcode == 0x01 {
        "Reset command buffer"
    } else if opcode == 0x02 {
        "Acknowledge IRQ"
    } else if opcode == 0x03 {
        "Enable display"
    } else if opcode == 0x04 {
        "Setup DMA"
    } else if opcode == 0x05 {
        "Start of display area"
    } else if opcode == 0x06 {
        "Horizontal display range"
    } else if opcode == 0x07 {
        "Vertical display range"
    } else if opcode == 0x08 {
        "Display mode"
    } else if opcode == 0x10 {
        "Get GPU info"
    } else {
        "[UNSUPPORTED COMMAND]"
    }
}

impl GPU {
    /// Says what the recorded command `command` does. A record holds the
    /// words of a whole command: one word at least, and two for a dot.
    pub fn disassemble(&self, command: &CommandRecord) -> (r: String)
        requires
            command.1.wf(),
            command@.1.len() >= 1,
            command@.0 is GP0 && command@.1[0] >> 24 == 0x68 ==> command@.1.len() >= 2,
        ensures
            r@ == command_text(command@.0, command@.1),
    {
        let opcode = command.1.get(0) >> 24;
        match command.0 {
            Port::GP0 => {
                if opcode == 0x68 {
                    let pos = Position::from_command(command.1.get(1));
                    let color = Color::from_command(command.1.get(0));
                    let mut text = String::from_str("Draw dot monochrome opaque [pos=Position(");
                    push_signed(&mut text, pos.0 as i32);
                    text.append(", ");
                    push_signed(&mut text, pos.1 as i32);
                    text.append("), col=Color(");
                    push_decimal(&mut text, color.0 as u32);
                    text.append(", ");
                    push_decimal(&mut text, color.1 as u32);
                    text.append(", ");
                    push_decimal(&mut text, color.2 as u32);
                    text.append(")]");
                    assert(text@ =~= command_text(command@.0, command@.1));
                    text
                } else {
                    String::from_str(gp0_name(opcode))
                }
            },
            Port::GP1 => String::from_str(gp1_name(opcode)),
        }
    }
}

} // verus!
