//! The names of the operands in the listing.

use vstd::prelude::*;

verus! {

/// The operands that the disassembler writes by a fixed name.
pub const A: &'static str = "A";

/// The byte at the address in `BC`.
pub const BC: &'static str = "(BC)";

/// The byte at the address in `DE`.
pub const DE: &'static str = "(DE)";

/// The byte at the address in `HL`.
pub const HL: &'static str = "(HL)";

/// The byte at the address in `HL`, which is then moved one up.
pub const HLI: &'static str = "(HLI)";

/// The byte at the address in `HL`, which is then moved one down.
pub const HLD: &'static str = "(HLD)";

/// The byte at the offset `C` in the page at `0xFF00`.
pub const FF00C: &'static str = "(FF00+C)";

/// The stack pointer.
pub const SP: &'static str = "SP";

/// The name of the 8-bit operand that a 3-bit selector stands for: `110` is
/// the byte at `(HL)`.
pub open spec fn register_name(code: u8) -> Option<&'static str> {
    match code {
        0b000 => Some("B"),
        0b001 => Some("C"),
        0b010 => Some("D"),
        0b011 => Some("E"),
        0b100 => Some("H"),
        0b101 => Some("L"),
        0b110 => Some("(HL)"),
        0b111 => Some("A"),
        _ => None,
    }
}

/// The name of the pair that bits 5..3 of a 16-bit load stand for. Bit 3 is
/// clear in such a load, and bits 5..4 pick the pair.
pub open spec fn pair_name(code: u8) -> Option<&'static str> {
    match code {
        0b000 => Some("BC"),
        0b010 => Some("DE"),
        0b100 => Some("HL"),
        0b110 => Some("SP"),
        _ => None,
    }
}

/// The name of the 8-bit operand that a 3-bit selector stands for.
pub fn lookup_register(code: u8) -> (r: Result<&'static str, ()>)
    ensures
        r == match register_name(code) {
            Some(name) => Ok::<&'static str, ()>(name),
            None => Err::<&'static str, ()>(()),
        },
{
    match code {
        0b000 => Ok("B"),
        0b001 => Ok("C"),
        0b010 => Ok("D"),
        0b011 => Ok("E"),
        0b100 => Ok("H"),
        0b101 => Ok("L"),
        0b110 => Ok("(HL)"),
        0b111 => Ok("A"),
        _ => Err(()),
    }
}

/// The name of the pair that bits 5..3 of a 16-bit load stand for.
pub fn lookup_ld_register(code: u8) -> (r: Result<&'static str, ()>)
    ensures
        r == match pair_name(code) {
            Some(name) => Ok::<&'static str, ()>(name),
            None => Err::<&'static str, ()>(()),
        },
{
    match code {
        0b000 => Ok("BC"),
        0b010 => Ok("DE"),
        0b100 => Ok("HL"),
        0b110 => Ok("SP"),
        _ => Err(()),
    }
}

} // verus!
