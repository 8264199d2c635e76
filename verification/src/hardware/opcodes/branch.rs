//! The jumps, calls and returns.

use crate::dasm::InstructionData;
use crate::hardware::cpu::{
    agrees, done, failed, pop_word, push_word, Error, Fault, Outcome, TStackable, CPU,
};
use crate::hardware::mmu::{holds_bytes, MmuView, MMU};
use crate::hardware::mnemonic::Mnemonic;
use crate::hardware::opcode::Instruction;
use crate::hardware::opcodes::alu::{lemma_signed_casts, signed_offset};
use crate::hardware::opcodes::unexpected_op;
use crate::hardware::register::{RegisterError, TRegister};
use crate::util::byte_ops::{hi_lo_combine, lemma_byte_fields, word_of};
use vstd::prelude::*;

verus! {

/// An absolute jump to `target`, where the condition holds: `taken` cycles;
/// `skipped` cycles where it does not.
pub open spec fn jump_if(
    cpu: CPU,
    mem: MmuView,
    holds: bool,
    target: u16,
    taken: u8,
    skipped: u8,
) -> Outcome {
    if holds {
        done(cpu.with_pc(target), mem, taken)
    } else {
        done(cpu, mem, skipped)
    }
}

/// A relative jump by the signed offset `e`, counted from the end of the
/// instruction, where the condition holds: three cycles; two where it does
/// not. A target outside the address space is refused.
pub open spec fn jump_relative_if(cpu: CPU, mem: MmuView, holds: bool, e: u8) -> Outcome {
    if !holds {
        done(cpu, mem, 2)
    } else if 0 <= cpu.pc() + signed_offset(e) <= 0xFFFF {
        done(cpu.with_pc((cpu.pc() + signed_offset(e)) as u16), mem, 3)
    } else {
        failed(cpu, mem, Fault::Register(RegisterError::CheckedFailure))
    }
}

/// A call of `target`, where the condition holds: the program counter, which
/// is past the instruction, is pushed: `taken` cycles; three where the
/// condition does not hold.
#[verifier::opaque]
pub open spec fn call_if(cpu: CPU, mem: MmuView, holds: bool, target: u16, taken: u8) -> Outcome {
    if !holds {
        done(cpu, mem, 3)
    } else {
        match push_word(cpu, mem, cpu.pc()).2 {
            Some(fault) => failed(cpu, mem, fault),
            None => done(
                push_word(cpu, mem, cpu.pc()).0.with_pc(target),
                push_word(cpu, mem, cpu.pc()).1,
                taken,
            ),
        }
    }
}

/// A return, where the condition holds: the program counter is popped:
/// `taken` cycles; `skipped` cycles where it does not. `enable` stands for
/// `RETI`, which sets the master interrupt enable at once.
#[verifier::opaque]
pub open spec fn return_if(
    cpu: CPU,
    mem: MmuView,
    holds: bool,
    enable: bool,
    taken: u8,
    skipped: u8,
) -> Outcome {
    if !holds {
        done(cpu, mem, skipped)
    } else {
        match pop_word(cpu, mem).1 {
            Err(fault) => failed(cpu, mem, fault),
            Ok(target) => done(
                pop_word(cpu, mem).0.with_pc(target),
                if enable {
                    MmuView { ime: true, ..mem }
                } else {
                    mem
                },
                taken,
            ),
        }
    }
}

/// Whether the condition that bits 4..3 of the opcode name holds.
pub open spec fn condition_holds(cpu: CPU, hi: u8) -> bool {
    cpu.registers.condition(hi % 4) == Some(true)
}

/// What a jump, call or return does. `d0` and `d1` are the two operand
/// bytes, a 16-bit operand having its low byte first.
///
/// The cycles of a conditional instruction depend on whether it is taken:
/// `JP cc` four and three, `JR cc` three and two, `CALL cc` six and three,
/// `RET cc` five and two.
#[verifier::opaque]
pub open spec fn branch_step(cpu: CPU, mem: MmuView, data: InstructionData, d0: u8, d1: u8) -> Outcome {
    let hi = data.byte_data.lhs;
    let nn = word_of(d1, d0);
    match data.instruction {
        Instruction::JP_NN => jump_if(cpu, mem, true, nn, 4, 4),
        Instruction::JP_HL => jump_if(cpu, mem, true, cpu.registers.spec_hl(), 1, 1),
        Instruction::JP_FNN => jump_if(cpu, mem, condition_holds(cpu, hi), nn, 4, 3),
        Instruction::JR_PCDD => jump_relative_if(cpu, mem, true, d0),
        Instruction::JR_FPCDD => jump_relative_if(cpu, mem, condition_holds(cpu, hi), d0),
        Instruction::CALL_NN => call_if(cpu, mem, true, nn, 6),
        Instruction::CALL_FNN => call_if(cpu, mem, condition_holds(cpu, hi), nn, 6),
        Instruction::RET => return_if(cpu, mem, true, false, 4, 4),
        Instruction::RET_F => return_if(cpu, mem, condition_holds(cpu, hi), false, 5, 2),
        Instruction::RETI => return_if(cpu, mem, true, true, 4, 4),
        Instruction::RST => call_if(cpu, mem, true, (hi as u16 * 8) as u16, 4),
        _ => failed(cpu, mem, Fault::UnexpectedOpcode(data.mnemonic, Mnemonic::PUSH)),
    }
}

/// A jump, call or return leaves the flags alone.
pub proof fn lemma_branch_keeps_flags(cpu: CPU, mem: MmuView, data: InstructionData, d0: u8, d1: u8)
    ensures
        branch_step(cpu, mem, data, d0, d1).cpu.registers.f == cpu.registers.f,
{
    reveal(branch_step);
    reveal(call_if);
    reveal(return_if);
}

/// `CALL nn` with the stack in RAM, and a later `RET` that finds the stack
/// pointer and the word on the stack as the call left them, bring the program
/// counter back to the instruction after the call, and the stack pointer to
/// where it was before the call.
pub proof fn lemma_call_then_return(
    cpu: CPU,
    mem: MmuView,
    call: InstructionData,
    d0: u8,
    d1: u8,
    later_cpu: CPU,
    later_mem: MmuView,
    ret: InstructionData,
    e0: u8,
    e1: u8,
)
    requires
        mem.wf(),
        call.instruction == Instruction::CALL_NN,
        ret.instruction == Instruction::RET,
        cpu.sp() >= 2,
        holds_bytes((cpu.sp() - 2) as u16),
        holds_bytes((cpu.sp() - 1) as u16),
        later_cpu.sp() == cpu.sp() - 2,
        later_mem.read_word(later_cpu.sp()) == branch_step(cpu, mem, call, d0, d1).mem.read_word(
            later_cpu.sp(),
        ),
    ensures
        ({
            let called = branch_step(cpu, mem, call, d0, d1);
            let returned = branch_step(later_cpu, later_mem, ret, e0, e1);
            &&& called.result == Ok::<u8, Fault>(6)
            &&& called.cpu.pc() == word_of(d1, d0)
            &&& called.cpu.sp() == cpu.sp() - 2
            &&& returned.result == Ok::<u8, Fault>(4)
            &&& returned.cpu.pc() == cpu.pc()
            &&& returned.cpu.sp() == cpu.sp()
            &&& returned.mem == later_mem
        }),
{
    reveal(branch_step);
    reveal(call_if);
    reveal(return_if);
    mem.lemma_word_round_trip((cpu.sp() - 2) as u16, cpu.pc());
}

/// The cycles of the conditional jumps: `JP cc,nn` takes four cycles where
/// the condition holds and three where it does not; `JR cc,e` takes three
/// and two. A jump that is not taken leaves the program counter alone.
pub proof fn lemma_conditional_jump_cycles(
    cpu: CPU,
    mem: MmuView,
    data: InstructionData,
    d0: u8,
    d1: u8,
)
    requires
        data.instruction == Instruction::JP_FNN || data.instruction == Instruction::JR_FPCDD,
    ensures
        ({
            let out = branch_step(cpu, mem, data, d0, d1);
            let holds = condition_holds(cpu, data.byte_data.lhs);
            &&& out.mem == mem
            &&& (data.instruction == Instruction::JP_FNN && holds) ==> out.result == Ok::<
                u8,
                Fault,
            >(4) && out.cpu == cpu.with_pc(word_of(d1, d0))
            &&& (data.instruction == Instruction::JP_FNN && !holds) ==> out.result == Ok::<
                u8,
                Fault,
            >(3) && out.cpu == cpu
            &&& (data.instruction == Instruction::JR_FPCDD && holds && 0 <= cpu.pc()
                + signed_offset(d0) <= 0xFFFF) ==> out.result == Ok::<u8, Fault>(3) && out.cpu
                == cpu.with_pc((cpu.pc() + signed_offset(d0)) as u16)
            &&& (data.instruction == Instruction::JR_FPCDD && !holds) ==> out.result == Ok::<
                u8,
                Fault,
            >(2) && out.cpu == cpu
        }),
{
    reveal(branch_step);
}

/// The cycles of the conditional calls and returns that are not taken:
/// `CALL cc,nn` takes three cycles and `RET cc` two, and neither changes
/// anything. Where they are taken and succeed, they take six and five.
pub proof fn lemma_conditional_call_cycles(
    cpu: CPU,
    mem: MmuView,
    data: InstructionData,
    d0: u8,
    d1: u8,
)
    requires
        data.instruction == Instruction::CALL_FNN || data.instruction == Instruction::RET_F,
    ensures
        ({
            let out = branch_step(cpu, mem, data, d0, d1);
            let holds = condition_holds(cpu, data.byte_data.lhs);
            &&& (data.instruction == Instruction::CALL_FNN && !holds) ==> out == done(cpu, mem, 3)
            &&& (data.instruction == Instruction::RET_F && !holds) ==> out == done(cpu, mem, 2)
            &&& (data.instruction == Instruction::CALL_FNN && holds && out.result is Ok)
                ==> out.result == Ok::<u8, Fault>(6)
            &&& (data.instruction == Instruction::RET_F && holds && out.result is Ok)
                ==> out.result == Ok::<u8, Fault>(5)
        }),
{
    reveal(branch_step);
    reveal(call_if);
    reveal(return_if);
}

impl CPU {
    /// Whether the condition that bits 4..3 of the opcode name holds.
    fn branch_condition(&self, hi: u8) -> (r: bool)
        ensures
            r == condition_holds(*self, hi),
    {
        proof {
            lemma_byte_fields(hi);
        }
        let cc = hi & 0b011;
        match self.registers.jump_condition(cc) {
            Ok(holds) => holds,
            Err(_) => false,
        }
    }

    /// An absolute jump.
    fn jump(&mut self, holds: bool, target: u16, taken: u8, skipped: u8) -> (r: Result<u8, Error>)
        requires
            old(self).spec_wf(),
        ensures
            final(self).spec_wf(),
            forall|mem: MmuView|
                #![trigger jump_if(*old(self), mem, holds, target, taken, skipped)]
                *final(self) == jump_if(*old(self), mem, holds, target, taken, skipped).cpu
                    && agrees(r, jump_if(*old(self), mem, holds, target, taken, skipped).result),
    {
        if holds {
            self.registers.pc.set_value(target);
            return Ok(taken);
        }
        Ok(skipped)
    }

    /// A relative jump.
    fn jump_relative(&mut self, holds: bool, e: u8) -> (r: Result<u8, Error>)
        requires
            old(self).spec_wf(),
        ensures
            final(self).spec_wf(),
            forall|mem: MmuView|
                #![trigger jump_relative_if(*old(self), mem, holds, e)]
                *final(self) == jump_relative_if(*old(self), mem, holds, e).cpu && agrees(
                    r,
                    jump_relative_if(*old(self), mem, holds, e).result,
                ),
    {
        if holds {
            proof {
                lemma_signed_casts(0, e, 0);
            }
            let offset = (#[verifier::truncate] (e as i8)) as i16;
            let target = match self.registers.pc.get_value().checked_add_signed(offset) {
                Some(target) => target,
                None => {
                    return Err(Error::RegisterError(RegisterError::CheckedFailure));
                },
            };
            self.registers.pc.set_value(target);
            return Ok(3);
        }
        Ok(2)
    }

    /// A call.
    fn call(&mut self, mmu: &mut MMU, holds: bool, target: u16, taken: u8) -> (r: Result<u8, Error>)
        requires
            old(self).spec_wf(),
            old(mmu).wf(),
        ensures
            final(self).spec_wf(),
            final(mmu).wf(),
            *final(self) == call_if(*old(self), old(mmu)@, holds, target, taken).cpu,
            final(mmu)@ == call_if(*old(self), old(mmu)@, holds, target, taken).mem,
            agrees(r, call_if(*old(self), old(mmu)@, holds, target, taken).result),
    {
        proof {
            reveal(call_if);
        }
        if holds {
            self.push_stack_word(*self.registers.pc.get_value(), mmu)?;
            self.registers.pc.set_value(target);
            return Ok(taken);
        }
        Ok(3)
    }

    /// A return.
    fn return_from_call(
        &mut self,
        mmu: &mut MMU,
        holds: bool,
        enable: bool,
        taken: u8,
        skipped: u8,
    ) -> (r: Result<u8, Error>)
        requires
            old(self).spec_wf(),
            old(mmu).wf(),
        ensures
            final(self).spec_wf(),
            final(mmu).wf(),
            *final(self) == return_if(*old(self), old(mmu)@, holds, enable, taken, skipped).cpu,
            final(mmu)@ == return_if(*old(self), old(mmu)@, holds, enable, taken, skipped).mem,
            agrees(r, return_if(*old(self), old(mmu)@, holds, enable, taken, skipped).result),
    {
        proof {
            reveal(return_if);
        }
        if holds {
            let stack_val = self.pop_stack_word(mmu)?;
            if enable {
                mmu.write_interrupt_enable_reg(true);
            }
            self.registers.pc.set_value(stack_val);
            return Ok(taken);
        }
        Ok(skipped)
    }

    /// Carries out a jump, call or return and gives the machine cycles it
    /// took.
    pub fn evaluate_branch(
        &mut self,
        instruction_data: &InstructionData,
        opcode_data: &[u8; 2],
        mmu: &mut MMU,
    ) -> (r: Result<u8, Error>)
        requires
            old(self).spec_wf(),
            old(mmu).wf(),
        ensures
            final(self).spec_wf(),
            final(mmu).wf(),
            *final(self) == branch_step(
                *old(self),
                old(mmu)@,
                *instruction_data,
                opcode_data[0],
                opcode_data[1],
            ).cpu,
            final(mmu)@ == branch_step(
                *old(self),
                old(mmu)@,
                *instruction_data,
                opcode_data[0],
                opcode_data[1],
            ).mem,
            agrees(
                r,
                branch_step(
                    *old(self),
                    old(mmu)@,
                    *instruction_data,
                    opcode_data[0],
                    opcode_data[1],
                ).result,
            ),
    {
        proof {
            reveal(branch_step);
        }
        let hi = instruction_data.byte_data.lhs;
        let address = hi_lo_combine(opcode_data[1], opcode_data[0]);
        let ghost mem = mmu@;
        match instruction_data.instruction {
            Instruction::JP_NN => {
                proof {
                    let _ = jump_if(*self, mem, true, address, 4, 4);
                }
                self.jump(true, address, 4, 4)
            },
            Instruction::JP_HL => {
                let target = self.registers.hl();
                proof {
                    let _ = jump_if(*self, mem, true, target, 1, 1);
                }
                self.jump(true, target, 1, 1)
            },
            Instruction::JP_FNN => {
                let holds = self.branch_condition(hi);
                proof {
                    let _ = jump_if(*self, mem, holds, address, 4, 3);
                }
                self.jump(holds, address, 4, 3)
            },
            Instruction::JR_PCDD => {
                proof {
                    let _ = jump_relative_if(*self, mem, true, opcode_data[0]);
                }
                self.jump_relative(true, opcode_data[0])
            },
            Instruction::JR_FPCDD => {
                let holds = self.branch_condition(hi);
                proof {
                    let _ = jump_relative_if(*self, mem, holds, opcode_data[0]);
                }
                self.jump_relative(holds, opcode_data[0])
            },
            Instruction::CALL_NN => self.call(mmu, true, address, 6),
            Instruction::CALL_FNN => {
                let holds = self.branch_condition(hi);
                self.call(mmu, holds, address, 6)
            },
            Instruction::RET => self.return_from_call(mmu, true, false, 4, 4),
            Instruction::RET_F => {
                let holds = self.branch_condition(hi);
                self.return_from_call(mmu, holds, false, 5, 2)
            },
            Instruction::RETI => self.return_from_call(mmu, true, true, 4, 4),
            Instruction::RST => self.call(mmu, true, (hi as u16) * 8, 4),
            _ => Err(unexpected_op(&instruction_data.mnemonic, &Mnemonic::PUSH)),
        }
    }
}

} // verus!
