//! The evaluators of the instruction families.

use crate::hardware::cpu::{describes, Error, Fault};
use crate::hardware::mnemonic::Mnemonic;
use vstd::prelude::*;
use vstd::string::StringExecFns;

pub mod alu;
pub mod bitwise;
pub mod branch;
pub mod control;
pub mod ld;
pub mod stack;

verus! {

/// The error of an evaluator that was handed an instruction of another
/// family.
pub fn unexpected_op(received: &Mnemonic, expected: &Mnemonic) -> (r: Error)
    ensures
        describes(r, Fault::UnexpectedOpcode(*received, *expected)),
{
    let received_name = received.name();
    let expected_name = expected.name();
    let mut message = String::from_str("Called evaluate_ld with ");
    message.append(received_name.as_str());
    message.append(" but expected type ");
    message.append(expected_name.as_str());
    message.append(". This is an unrecoverable program error");
    Error::UnexpectedOpcode(message)
}

} // verus!
