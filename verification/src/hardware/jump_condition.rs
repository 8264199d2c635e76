//! The names of the four jump conditions.

use vstd::prelude::*;

verus! {

/// A code that names no jump condition.
#[derive(Debug, Clone, Copy, PartialEq, Eq, Structural)]
pub enum JumpConditionError {
    InvalidLookupInput,
}

/// The last result was not zero.
pub const NZ: &'static str = "NZ";

/// The last result was zero.
pub const Z: &'static str = "Z";

/// The last operation did not carry.
pub const NC: &'static str = "NC";

/// The last operation carried.
pub const C: &'static str = "C";

/// The name of the condition that a 2-bit code stands for, if any: `00` NZ,
/// `01` Z, `10` NC, `11` C.
pub open spec fn jump_condition_name(input: u8) -> Option<&'static str> {
    match input {
        0b00 => Some(NZ),
        0b01 => Some(Z),
        0b10 => Some(NC),
        0b11 => Some(C),
        _ => None,
    }
}

/// The name of the condition that a 2-bit code stands for.
pub fn lookup_jump_condition(input: u8) -> (r: Result<&'static str, JumpConditionError>)
    ensures
        r == match jump_condition_name(input) {
            Some(name) => Ok::<&'static str, JumpConditionError>(name),
            None => Err::<&'static str, JumpConditionError>(
                JumpConditionError::InvalidLookupInput,
            ),
        },
{
    match input {
        0b00 => Ok(NZ),
        0b01 => Ok(Z),
        0b10 => Ok(NC),
        0b11 => Ok(C),
        _ => Err(JumpConditionError::InvalidLookupInput),
    }
}

} // verus!
