//! The instructions that control the processor itself.

use crate::dasm::InstructionData;
use crate::hardware::cpu::{agrees, done, failed, Error, Fault, Outcome, CPU};
use crate::hardware::mmu::{MmuView, MMU};
use crate::hardware::mnemonic::Mnemonic;
use crate::hardware::opcode::Instruction;
use crate::hardware::opcodes::unexpected_op;
use crate::hardware::register::TRegister;
use crate::hardware::register_ops::{carry_flag, lemma_pack_flags, pack_flags, zero_flag};
use vstd::prelude::*;

verus! {

/// What a control instruction does: one cycle each.
///
/// `CCF` flips C and `SCF` sets it; both clear N and H and leave Z. `HALT`
/// and `STOP` halt the processor. `DI` clears the master interrupt enable at
/// once, and withdraws an `EI` that has not yet taken effect. `EI` leaves the
/// master enable as it is and asks for it to be set at the top of the next
/// step.
#[verifier::opaque]
pub open spec fn control_step(cpu: CPU, mem: MmuView, data: InstructionData) -> Outcome {
    let regs = cpu.registers;
    let f = regs.f.value;
    match data.instruction {
        Instruction::CCF => done(
            cpu.with_registers(regs.with_f(pack_flags(zero_flag(f), false, false, !carry_flag(f)))),
            mem,
            1,
        ),
        Instruction::SCF => done(
            cpu.with_registers(regs.with_f(pack_flags(zero_flag(f), false, false, true))),
            mem,
            1,
        ),
        Instruction::NOP => done(cpu, mem, 1),
        Instruction::HALT => done(CPU { halt: true, ..cpu }, mem, 1),
        Instruction::STOP => done(CPU { halt: true, ..cpu }, mem, 1),
        Instruction::DI => done(
            CPU { pending_enable: false, ..cpu },
            MmuView { ime: false, ..mem },
            1,
        ),
        Instruction::EI => done(CPU { pending_enable: true, ..cpu }, mem, 1),
        _ => failed(cpu, mem, Fault::UnexpectedOpcode(data.mnemonic, Mnemonic::PUSH)),
    }
}

/// A control instruction leaves the low nibble of `F` zero.
pub proof fn lemma_control_keeps_flags_clean(cpu: CPU, mem: MmuView, data: InstructionData)
    requires
        cpu.spec_wf(),
    ensures
        control_step(cpu, mem, data).cpu.spec_wf(),
{
    reveal(control_step);
    crate::hardware::register_ops::lemma_packed_flags_are_clean();
}

impl CPU {
    /// Carries out a control instruction and gives the machine cycles it
    /// took.
    pub fn evaluate_control(
        &mut self,
        instruction_data: &InstructionData,
        _opcode_data: &[u8; 2],
        mmu: &mut MMU,
    ) -> (r: Result<u8, Error>)
        requires
            old(self).spec_wf(),
            old(mmu).wf(),
        ensures
            final(self).spec_wf(),
            final(mmu).wf(),
            *final(self) == control_step(*old(self), old(mmu)@, *instruction_data).cpu,
            final(mmu)@ == control_step(*old(self), old(mmu)@, *instruction_data).mem,
            agrees(r, control_step(*old(self), old(mmu)@, *instruction_data).result),
    {
        proof {
            reveal(control_step);
        }
        match instruction_data.instruction {
            Instruction::CCF => {
                let mut flags = self.registers.flag_register();
                flags.c = if flags.c != 0 {
                    0
                } else {
                    1
                };
                flags.h = 0;
                flags.n = 0;
                proof {
                    lemma_pack_flags(flags.z != 0, false, false, flags.c != 0);
                }
                self.registers.f.set_value(flags.into());
                Ok(1)
            },
            Instruction::SCF => {
                let mut flags = self.registers.flag_register();
                flags.c = 1;
                flags.h = 0;
                flags.n = 0;
                proof {
                    lemma_pack_flags(flags.z != 0, false, false, true);
                }
                self.registers.f.set_value(flags.into());
                Ok(1)
            },
            Instruction::NOP => Ok(1),
            Instruction::HALT => {
                self.halt = true;
                Ok(1)
            },
            Instruction::STOP => {
                self.halt = true;
                Ok(1)
            },
            Instruction::DI => {
                self.pending_enable = false;
                mmu.write_interrupt_enable_reg(false);
                Ok(1)
            },
            Instruction::EI => {
                self.pending_enable = true;
                Ok(1)
            },
            _ => Err(unexpected_op(&instruction_data.mnemonic, &Mnemonic::PUSH)),
        }
    }
}

} // verus!
