//! The loads as the assembler writes them.

use crate::dasm::decoded_register;
use crate::dasm::decoded_register::{pair_name, register_name};
use crate::dasm::decoder::{
    byte_text, data_text, extract_ld_register, extract_register, format_byte, format_data,
    format_instruction, instruction_text, NO_REGISTER,
};
use crate::dasm::InstructionData;
use crate::hardware::mnemonic::Mnemonic;
use crate::hardware::opcode::Instruction;
use crate::util::byte_ops::{extract_lhs, extract_rhs, hi3, lo3};
use vstd::prelude::*;
use vstd::string::StringExecFns;

verus! {

/// The operands of a load as the assembler writes them; none where the
/// instruction is no load, where a selector names no register, or where an
/// operand byte is missing.
pub open spec fn ld_operands(data: InstructionData, operands: Seq<u8>) -> Option<Seq<Seq<char>>> {
    let to = register_name(hi3(data.byte));
    let from = register_name(lo3(data.byte));
    match data.instruction {
        Instruction::LD_RR => if to is Some && from is Some {
            Some(seq![to->Some_0@, from->Some_0@])
        } else {
            None
        },
        Instruction::LD_RN => if to is Some && operands.len() > 0 {
            Some(seq![to->Some_0@, byte_text(operands[0])])
        } else {
            None
        },
        Instruction::LD_RHL => if to is Some {
            Some(seq![to->Some_0@, decoded_register::HL@])
        } else {
            None
        },
        Instruction::LD_HLR => if from is Some {
            Some(seq![decoded_register::HL@, from->Some_0@])
        } else {
            None
        },
        Instruction::LD_HLN => if operands.len() > 0 {
            Some(seq![decoded_register::HL@, byte_text(operands[0])])
        } else {
            None
        },
        Instruction::LD_ABC => Some(seq![decoded_register::A@, decoded_register::BC@]),
        Instruction::LD_ADE => Some(seq![decoded_register::A@, decoded_register::DE@]),
        Instruction::LD_AN => if operands.len() > 0 {
            Some(seq![decoded_register::A@, byte_text(operands[0])])
        } else {
            None
        },
        Instruction::LD_ANN => Some(seq![decoded_register::A@, data_text(operands)]),
        Instruction::LD_BCA => Some(seq![decoded_register::BC@, decoded_register::A@]),
        Instruction::LD_DEA => Some(seq![decoded_register::DE@, decoded_register::A@]),
        Instruction::LD_NA => if operands.len() > 0 {
            Some(seq![byte_text(operands[0]), decoded_register::A@])
        } else {
            None
        },
        Instruction::LD_NNA => Some(seq![data_text(operands), decoded_register::A@]),
        Instruction::LD_AFF00C => Some(seq![decoded_register::A@, decoded_register::FF00C@]),
        Instruction::LD_FF00CA => Some(seq![decoded_register::FF00C@, decoded_register::A@]),
        Instruction::LD_HLIA => Some(seq![decoded_register::HLI@, decoded_register::A@]),
        Instruction::LD_AHLI => Some(seq![decoded_register::A@, decoded_register::HLI@]),
        Instruction::LD_HLDA => Some(seq![decoded_register::HLD@, decoded_register::A@]),
        Instruction::LD_AHLD => Some(seq![decoded_register::A@, decoded_register::HLD@]),
        Instruction::LD_RRNN => if pair_name(hi3(data.byte)) is Some {
            Some(seq![pair_name(hi3(data.byte))->Some_0@, data_text(operands)])
        } else {
            None
        },
        Instruction::LD_SPHL => Some(seq![decoded_register::SP@, decoded_register::HL@]),
        Instruction::LDHL => if operands.len() > 0 {
            Some(seq![decoded_register::SP@, byte_text(operands[0])])
        } else {
            None
        },
        _ => None,
    }
}

/// A load as the assembler writes it.
pub open spec fn ld_text(data: InstructionData, operands: Seq<u8>) -> Option<Seq<char>> {
    match ld_operands(data, operands) {
        Some(args) => Some(instruction_text(Mnemonic::LD, args)),
        None => None,
    }
}

/// What is said of an instruction that cannot be written out as a load.
pub const INVALID_LD: &'static str = "Received an invalid LD instruction";

/// What is said of an instruction that cannot be written out as a load: of a
/// 16-bit load that the pair is unknown, of any other that it is invalid.
pub open spec fn ld_failure(data: InstructionData) -> Seq<char> {
    if data.instruction == Instruction::LD_RRNN {
        NO_REGISTER@
    } else {
        INVALID_LD@
    }
}

/// The text of a load with two operands.
fn two_operands(first: String, second: String) -> (r: Result<String, String>)
    ensures
        r matches Ok(text) && text@ == instruction_text(Mnemonic::LD, seq![first@, second@]),
{
    let mut args: Vec<String> = Vec::new();
    args.push(first);
    args.push(second);
    proof {
        assert(args.deep_view() =~= seq![first@, second@]);
    }
    Ok(format_instruction(&Mnemonic::LD, &args))
}

/// The name of a register as an owned text, or the text of the error.
fn owned(name: Result<&'static str, &'static str>) -> (r: Result<String, String>)
    ensures
        match (name, r) {
            (Ok(name), Ok(text)) => text@ == name@,
            (Err(name), Err(text)) => text@ == name@,
            _ => false,
        },
{
    match name {
        Ok(name) => Ok(String::from_str(name)),
        Err(name) => Err(String::from_str(name)),
    }
}

/// The first operand byte as an operand, or the text of the error where
/// there is none.
fn first_operand(opcode_data: &[u8]) -> (r: Result<String, String>)
    ensures
        opcode_data@.len() > 0 ==> (r matches Ok(text) && text@ == byte_text(opcode_data[0])),
        opcode_data@.len() == 0 ==> (r matches Err(text) && text@ == INVALID_LD@),
{
    if opcode_data.len() > 0 {
        Ok(format_byte(opcode_data[0]))
    } else {
        Err(String::from_str("Received an invalid LD instruction"))
    }
}

/// A load as the assembler writes it.
pub fn decode(instruction_data: &InstructionData, opcode_data: &[u8]) -> (r: Result<String, String>)
    ensures
        match r {
            Ok(text) => ld_text(*instruction_data, opcode_data@) == Some(text@),
            Err(text) => ld_text(*instruction_data, opcode_data@) is None && text@ == ld_failure(
                *instruction_data,
            ),
        },
{
    match instruction_data.instruction {
        Instruction::LD_RR => {
            let lhs_register = owned(extract_register(extract_lhs(instruction_data.byte)))?;
            let rhs_register = owned(extract_register(extract_rhs(instruction_data.byte)))?;
            two_operands(lhs_register, rhs_register)
        },
        Instruction::LD_RN => {
            let lhs_register = owned(extract_register(extract_lhs(instruction_data.byte)))?;
            let rhs = first_operand(opcode_data)?;
            two_operands(lhs_register, rhs)
        },
        Instruction::LD_RHL => {
            let lhs_register = owned(extract_register(extract_lhs(instruction_data.byte)))?;
            two_operands(lhs_register, String::from_str(decoded_register::HL))
        },
        Instruction::LD_HLR => {
            let rhs_register = owned(extract_register(extract_rhs(instruction_data.byte)))?;
            two_operands(String::from_str(decoded_register::HL), rhs_register)
        },
        Instruction::LD_HLN => {
            let arg = first_operand(opcode_data)?;
            two_operands(String::from_str(decoded_register::HL), arg)
        },
        Instruction::LD_ABC => two_operands(
            String::from_str(decoded_register::A),
            String::from_str(decoded_register::BC),
        ),
        Instruction::LD_ADE => two_operands(
            String::from_str(decoded_register::A),
            String::from_str(decoded_register::DE),
        ),
        Instruction::LD_AN => {
            let arg = first_operand(opcode_data)?;
            two_operands(String::from_str(decoded_register::A), arg)
        },
        Instruction::LD_ANN => {
            let data = format_data(opcode_data);
            two_operands(String::from_str(decoded_register::A), data)
        },
        Instruction::LD_BCA => two_operands(
            String::from_str(decoded_register::BC),
            String::from_str(decoded_register::A),
        ),
        Instruction::LD_DEA => two_operands(
            String::from_str(decoded_register::DE),
            String::from_str(decoded_register::A),
        ),
        Instruction::LD_NA => {
            let arg = first_operand(opcode_data)?;
            two_operands(arg, String::from_str(decoded_register::A))
        },
        Instruction::LD_NNA => {
            let data = format_data(opcode_data);
            two_operands(data, String::from_str(decoded_register::A))
        },
        Instruction::LD_AFF00C => two_operands(
            String::from_str(decoded_register::A),
            String::from_str(decoded_register::FF00C),
        ),
        Instruction::LD_FF00CA => two_operands(
            String::from_str(decoded_register::FF00C),
            String::from_str(decoded_register::A),
        ),
        Instruction::LD_HLIA => two_operands(
            String::from_str(decoded_register::HLI),
            String::from_str(decoded_register::A),
        ),
        Instruction::LD_AHLI => two_operands(
            String::from_str(decoded_register::A),
            String::from_str(decoded_register::HLI),
        ),
        Instruction::LD_HLDA => two_operands(
            String::from_str(decoded_register::HLD),
            String::from_str(decoded_register::A),
        ),
        Instruction::LD_AHLD => two_operands(
            String::from_str(decoded_register::A),
            String::from_str(decoded_register::HLD),
        ),
        Instruction::LD_RRNN => {
            let lhs_register = owned(extract_ld_register(extract_lhs(instruction_data.byte)))?;
            let data = format_data(opcode_data);
            two_operands(lhs_register, data)
        },
        Instruction::LD_SPHL => two_operands(
            String::from_str(decoded_register::SP),
            String::from_str(decoded_register::HL),
        ),
        Instruction::LDHL => {
            let arg = first_operand(opcode_data)?;
            two_operands(String::from_str(decoded_register::SP), arg)
        },
        _ => Err(String::from_str("Received an invalid LD instruction")),
    }
}

} // verus!
