//! The texts of the listing.

use crate::dasm::decode_ld;
use crate::dasm::decoded_register::{
    lookup_ld_register, lookup_register, pair_name, register_name,
};
use crate::dasm::InstructionData;
use crate::hardware::mnemonic::{mnemonic_name, Mnemonic};
use crate::util::text::{format_hex, upper_hex};
use vstd::prelude::*;
use vstd::string::StringExecFns;

verus! {

/// What the lookups say of a selector that names no register.
pub const NO_REGISTER: &'static str = "Unable to lookup register";

/// Operands written one after another, with a comma and a blank between.
pub open spec fn joined(args: Seq<Seq<char>>) -> Seq<char>
    decreases args.len(),
{
    if args.len() == 0 {
        Seq::empty()
    } else if args.len() == 1 {
        args[0]
    } else {
        joined(args.drop_last()) + ", "@ + args.last()
    }
}

/// An instruction as the assembler writes it: the mnemonic, and after a tab
/// its operands, where it has any.
pub open spec fn instruction_text(mnemonic: Mnemonic, args: Seq<Seq<char>>) -> Seq<char> {
    if args.len() == 0 {
        mnemonic_name(mnemonic)
    } else {
        mnemonic_name(mnemonic) + "\t"@ + joined(args)
    }
}

/// A byte as an operand: upper-case hexadecimal with an `h` behind.
pub open spec fn byte_text(byte: u8) -> Seq<char> {
    upper_hex(byte as nat) + "h"@
}

/// The bytes of an operand in hexadecimal, one after another.
pub open spec fn data_hex(data: Seq<u8>) -> Seq<char>
    decreases data.len(),
{
    if data.len() == 0 {
        Seq::empty()
    } else {
        data_hex(data.drop_last()) + upper_hex(data.last() as nat)
    }
}

/// An address operand: two bytes or more in brackets with an `h` behind, a
/// single byte as an offset into the page at `0xFF00`.
pub open spec fn data_text(data: Seq<u8>) -> Seq<char> {
    if data.len() > 1 {
        "("@ + data_hex(data) + ")h"@
    } else {
        "(FF"@ + data_hex(data) + ")"@
    }
}

/// Operands written one after another, with a comma and a blank between.
pub fn format_args(args: &Vec<String>) -> (r: String)
    ensures
        r@ == joined(args.deep_view()),
{
    let mut text = String::new();
    let mut index: usize = 0;
    while index < args.len()
        invariant
            index <= args.len(),
            text@ == joined(args.deep_view().take(index as int)),
        decreases args.len() - index,
    {
        proof {
            let taken = args.deep_view().take(index + 1);
            assert(taken.drop_last() =~= args.deep_view().take(index as int));
            assert(taken.last() == args[index as int]@);
        }
        if index > 0 {
            text.append(", ");
        }
        text.append(args[index].as_str());
        index += 1;
    }
    proof {
        assert(args.deep_view().take(args.len() as int) =~= args.deep_view());
    }
    text
}

/// An instruction as the assembler writes it.
pub fn format_instruction(mnemonic: &Mnemonic, args: &Vec<String>) -> (r: String)
    ensures
        r@ == instruction_text(*mnemonic, args.deep_view()),
{
    let mut text = mnemonic.name();
    if args.len() > 0 {
        text.append("\t");
        text.append(format_args(args).as_str());
    }
    text
}

/// A byte as an operand.
pub fn format_byte(byte: u8) -> (r: String)
    ensures
        r@ == byte_text(byte),
{
    let mut text = format_hex(byte as usize);
    text.append("h");
    text
}

/// An address operand.
pub fn format_data(data: &[u8]) -> (r: String)
    ensures
        r@ == data_text(data@),
{
    let mut byte_string = String::new();
    let mut index: usize = 0;
    while index < data.len()
        invariant
            index <= data.len(),
            byte_string@ == data_hex(data@.take(index as int)),
        decreases data.len() - index,
    {
        proof {
            let taken = data@.take(index + 1);
            assert(taken.drop_last() =~= data@.take(index as int));
        }
        byte_string.append(format_hex(data[index] as usize).as_str());
        index += 1;
    }
    proof {
        assert(data@.take(data.len() as int) =~= data@);
    }
    if data.len() > 1 {
        let mut text = String::from_str("(");
        text.append(byte_string.as_str());
        text.append(")h");
        text
    } else {
        let mut text = String::from_str("(FF");
        text.append(byte_string.as_str());
        text.append(")");
        text
    }
}

/// The name of the 8-bit operand that a 3-bit selector stands for.
pub fn extract_register(register_code: u8) -> (r: Result<&'static str, &'static str>)
    ensures
        r == match register_name(register_code) {
            Some(name) => Ok::<&'static str, &'static str>(name),
            None => Err::<&'static str, &'static str>(NO_REGISTER),
        },
{
    match lookup_register(register_code) {
        Ok(register) => Ok(register),
        _ => Err("Unable to lookup register"),
    }
}

/// The name of the pair that bits 5..3 of a 16-bit load stand for.
pub fn extract_ld_register(register_code: u8) -> (r: Result<&'static str, &'static str>)
    ensures
        r == match pair_name(register_code) {
            Some(name) => Ok::<&'static str, &'static str>(name),
            None => Err::<&'static str, &'static str>(NO_REGISTER),
        },
{
    match lookup_ld_register(register_code) {
        Ok(register) => Ok(register),
        _ => Err("Unable to lookup register"),
    }
}

/// What `decode` gives for an instruction: the text of a load, or what is
/// said in place of it.
pub open spec fn decoded(data: InstructionData, operands: Seq<u8>) -> Result<Seq<char>, Seq<char>> {
    if data.mnemonic == Mnemonic::LD {
        match decode_ld::ld_text(data, operands) {
            Some(text) => Ok(text),
            None => Err(decode_ld::ld_failure(data)),
        }
    } else {
        Err(mnemonic_name(data.mnemonic))
    }
}

/// An instruction as the assembler writes it. Only loads are written out; of
/// any other instruction the mnemonic is given back as the error.
pub fn decode(instruction_data: &InstructionData, opcode_data: &[u8]) -> (r: Result<String, String>)
    ensures
        match (r, decoded(*instruction_data, opcode_data@)) {
            (Ok(text), Ok(expected)) => text@ == expected,
            (Err(text), Err(expected)) => text@ == expected,
            _ => false,
        },
{
    match instruction_data.mnemonic {
        Mnemonic::LD => decode_ld::decode(instruction_data, opcode_data),
        _ => Err(instruction_data.mnemonic.name()),
    }
}

} // verus!
