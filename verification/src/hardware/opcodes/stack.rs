//! `PUSH` and `POP`.

use crate::dasm::InstructionData;
use crate::hardware::cpu::{
    agrees, done, failed, from_register, pop_word, push_word, Error, Fault, Outcome, TStackable,
    CPU,
};
use crate::hardware::mmu::{holds_bytes, MmuView, MMU};
use crate::hardware::mnemonic::Mnemonic;
use crate::hardware::opcode::Instruction;
use crate::hardware::opcodes::unexpected_op;
use crate::hardware::register::RegisterError;
use crate::hardware::register_ops::{high_nibble, lemma_flag_bits};
use crate::util::byte_ops::{lemma_byte_fields, lemma_word_fields, low_byte, word_of};
use vstd::prelude::*;

verus! {

/// The word that `POP` stores in the pair that a `qq` selector names: for
/// `AF` the low nibble, which `F` does not have, is cleared.
pub open spec fn popped_value(qq: u8, value: u16) -> u16 {
    if qq == 0b11 {
        ((value / 16) * 16) as u16
    } else {
        value
    }
}

/// `PUSH rr`: four cycles.
#[verifier::opaque]
pub open spec fn push_pair(cpu: CPU, mem: MmuView, qq: u8) -> Outcome {
    match cpu.registers.qq(qq) {
        None => failed(cpu, mem, Fault::Register(RegisterError::InvalidLookupInput)),
        Some(value) => match push_word(cpu, mem, value).2 {
            Some(fault) => failed(cpu, mem, fault),
            None => done(push_word(cpu, mem, value).0, push_word(cpu, mem, value).1, 4),
        },
    }
}

/// `POP rr`: three cycles. The word is popped before the pair is looked up.
#[verifier::opaque]
pub open spec fn pop_pair(cpu: CPU, mem: MmuView, qq: u8) -> Outcome {
    match pop_word(cpu, mem).1 {
        Err(fault) => failed(cpu, mem, fault),
        Ok(value) => {
            let popped = pop_word(cpu, mem).0;
            match popped.registers.qq(qq) {
                None => failed(popped, mem, Fault::Register(RegisterError::InvalidLookupInput)),
                Some(_) => done(
                    popped.with_registers(popped.registers.with_qq(qq, popped_value(qq, value))),
                    mem,
                    3,
                ),
            }
        },
    }
}

/// What a stack instruction does. Bits 5..4 of the opcode name the pair.
#[verifier::opaque]
pub open spec fn stack_step(cpu: CPU, mem: MmuView, data: InstructionData) -> Outcome {
    let qq = data.byte_data.lhs / 2;
    match data.instruction {
        Instruction::PUSH_RR => push_pair(cpu, mem, qq),
        Instruction::POP_RR => pop_pair(cpu, mem, qq),
        _ => failed(cpu, mem, Fault::UnexpectedOpcode(data.mnemonic, Mnemonic::PUSH)),
    }
}

/// A word without its low nibble has a low byte without its low nibble.
pub proof fn lemma_popped_flags(value: u16)
    ensures
        low_byte(popped_value(0b11, value)) & 0x0F == 0,
{
    lemma_flag_bits(low_byte(popped_value(0b11, value)));
}

/// A stack instruction leaves the low nibble of `F` zero.
pub proof fn lemma_stack_keeps_flags_clean(cpu: CPU, mem: MmuView, data: InstructionData)
    requires
        cpu.spec_wf(),
    ensures
        stack_step(cpu, mem, data).cpu.spec_wf(),
{
    reveal(stack_step);
    reveal(push_pair);
    reveal(pop_pair);
    if pop_word(cpu, mem).1 is Ok {
        lemma_popped_flags(pop_word(cpu, mem).1->Ok_0);
    }
}

/// After `POP AF` the low nibble of `F` is zero, whatever the stack held and
/// whatever `F` held before.
pub proof fn lemma_pop_af_clears_low_nibble(cpu: CPU, mem: MmuView, data: InstructionData)
    requires
        data.instruction == Instruction::POP_RR,
        data.byte_data.lhs / 2 == 0b11,
        stack_step(cpu, mem, data).result is Ok,
    ensures
        stack_step(cpu, mem, data).cpu.registers.f.value & 0x0F == 0,
{
    reveal(stack_step);
    reveal(pop_pair);
    let value = pop_word(cpu, mem).1->Ok_0;
    lemma_popped_flags(value);
}

/// `PUSH rr` followed by `POP rr`, with the stack in RAM, brings the stack
/// pointer back and leaves the pair as it was: for `BC`, `DE` and `HL` the
/// whole processor is as before; for `AF` the registers are as before but
/// for the low nibble of `F`, which is cleared.
pub proof fn lemma_push_then_pop(cpu: CPU, mem: MmuView, push: InstructionData, pop: InstructionData)
    requires
        mem.wf(),
        push.instruction == Instruction::PUSH_RR,
        pop.instruction == Instruction::POP_RR,
        push.byte_data.lhs / 2 == pop.byte_data.lhs / 2,
        push.byte_data.lhs / 2 <= 0b11,
        cpu.sp() >= 2,
        holds_bytes((cpu.sp() - 2) as u16),
        holds_bytes((cpu.sp() - 1) as u16),
    ensures
        ({
            let qq = push.byte_data.lhs / 2;
            let pushed = stack_step(cpu, mem, push);
            let popped = stack_step(pushed.cpu, pushed.mem, pop);
            &&& pushed.result == Ok::<u8, Fault>(4)
            &&& popped.result == Ok::<u8, Fault>(3)
            &&& popped.mem == pushed.mem
            &&& qq != 0b11 ==> popped.cpu == cpu
            &&& qq == 0b11 ==> popped.cpu == cpu.with_registers(
                cpu.registers.with_f(high_nibble(cpu.registers.f.value)),
            )
            &&& (qq == 0b11 && cpu.spec_wf()) ==> popped.cpu == cpu
        }),
{
    reveal(stack_step);
    reveal(push_pair);
    reveal(pop_pair);
    let qq = push.byte_data.lhs / 2;
    let value = cpu.registers.qq(qq)->Some_0;
    let sp = (cpu.sp() - 2) as u16;
    mem.lemma_word_round_trip(sp, value);
    crate::util::byte_ops::lemma_word_round_trip(cpu.registers.b.value, cpu.registers.c.value, 0);
    crate::util::byte_ops::lemma_word_round_trip(cpu.registers.d.value, cpu.registers.e.value, 0);
    crate::util::byte_ops::lemma_word_round_trip(cpu.registers.h.value, cpu.registers.l.value, 0);
    crate::util::byte_ops::lemma_word_round_trip(cpu.registers.a.value, cpu.registers.f.value, 0);
    crate::hardware::register_ops::lemma_pack_of_flags(cpu.registers.f.value);
    if qq == 0b11 {
        let a = cpu.registers.a.value;
        let f = cpu.registers.f.value;
        assert(popped_value(qq, value) == word_of(a, high_nibble(f)));
        crate::util::byte_ops::lemma_word_round_trip(a, high_nibble(f), 0);
    }
}

impl CPU {
    /// Carries out a stack instruction and gives the machine cycles it took.
    pub fn evaluate_stack_op(
        &mut self,
        instruction_data: &InstructionData,
        _opcode_data: &[u8; 2],
        mmu: &mut MMU,
    ) -> (r: Result<u8, Error>)
        requires
            old(self).spec_wf(),
            old(mmu).wf(),
        ensures
            final(self).spec_wf(),
            final(mmu).wf(),
            *final(self) == stack_step(*old(self), old(mmu)@, *instruction_data).cpu,
            final(mmu)@ == stack_step(*old(self), old(mmu)@, *instruction_data).mem,
            agrees(r, stack_step(*old(self), old(mmu)@, *instruction_data).result),
    {
        proof {
            reveal(stack_step);
            reveal(push_pair);
            reveal(pop_pair);
        }
        proof {
            lemma_byte_fields(instruction_data.byte_data.lhs);
        }
        match instruction_data.instruction {
            Instruction::PUSH_RR => {
                let qq = instruction_data.byte_data.lhs >> 1;
                let value = from_register(self.registers.read_qq(qq))?;
                self.push_stack_word(value, mmu)?;
                Ok(4)
            },
            Instruction::POP_RR => {
                let qq = instruction_data.byte_data.lhs >> 1;
                let mut value = self.pop_stack_word(mmu)?;
                proof {
                    lemma_word_fields(value);
                    lemma_popped_flags(value);
                }
                if qq == 0b11 {
                    value = value & 0xFFF0;
                }
                from_register(self.registers.write_qq(qq, value))?;
                Ok(3)
            },
            _ => Err(unexpected_op(&instruction_data.mnemonic, &Mnemonic::PUSH)),
        }
    }
}

} // verus!
