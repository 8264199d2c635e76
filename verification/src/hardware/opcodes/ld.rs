//! The loads.

use crate::dasm::InstructionData;
use crate::hardware::cpu::{
    agrees, done, failed, from_mmu, from_register, keeping, Error, Fault, Outcome, RegisterStep,
    CPU,
};
use crate::hardware::mmu::{Error as MmuError, MmuView, MMU};
use crate::hardware::mnemonic::Mnemonic;
use crate::hardware::opcode::Instruction;
use crate::hardware::opcodes::alu::{offset_flags, offset_word};
use crate::hardware::opcodes::unexpected_op;
use crate::hardware::register::{RegisterError, TRegister};
use crate::hardware::register_ops::{add16_value, sub16_value};
use crate::util::byte_ops::{hi_lo_combine, lemma_byte_fields, word_of};
use vstd::prelude::*;

verus! {

/// The address in the page `0xFF00..=0xFFFF` at a given offset.
pub open spec fn high_page(offset: u8) -> u16 {
    (0xFF00 + offset) as u16
}

/// `LD r,r'`: one cycle.
#[verifier::opaque]
pub open spec fn ld_r_r(cpu: CPU, to: u8, from: u8) -> RegisterStep {
    match (cpu.registers.r8(from), cpu.registers.r8(to)) {
        (Some(value), Some(_)) => RegisterStep {
            cpu: cpu.with_registers(cpu.registers.with_r8(to, value)),
            result: Ok(1),
        },
        _ => RegisterStep { cpu, result: Err(Fault::Register(RegisterError::InvalidLookupInput)) },
    }
}

/// `LD r,n`: two cycles.
#[verifier::opaque]
pub open spec fn ld_r_n(cpu: CPU, to: u8, n: u8) -> RegisterStep {
    match cpu.registers.r8(to) {
        Some(_) => RegisterStep {
            cpu: cpu.with_registers(cpu.registers.with_r8(to, n)),
            result: Ok(2),
        },
        None => RegisterStep {
            cpu,
            result: Err(Fault::Register(RegisterError::InvalidLookupInput)),
        },
    }
}

/// `LD r,(HL)`: two cycles. The byte is read before the register is looked
/// up.
#[verifier::opaque]
pub open spec fn ld_r_hl(cpu: CPU, mem: MmuView, to: u8) -> RegisterStep {
    match mem.read_byte(cpu.registers.spec_hl()) {
        Err(e) => RegisterStep { cpu, result: Err(Fault::Memory(e)) },
        Ok(value) => ld_r_n(cpu, to, value),
    }
}

/// `LD (HL),r`: two cycles.
#[verifier::opaque]
pub open spec fn ld_hl_r(cpu: CPU, mem: MmuView, from: u8) -> Outcome {
    match cpu.registers.r8(from) {
        Some(value) => done(cpu, mem.after_write_byte(cpu.registers.spec_hl(), value), 2),
        None => failed(cpu, mem, Fault::Register(RegisterError::InvalidLookupInput)),
    }
}

/// A load of `A` from an address.
#[verifier::opaque]
pub open spec fn load_a(cpu: CPU, mem: MmuView, address: u16, cycles: u8) -> RegisterStep {
    match mem.read_byte(address) {
        Ok(value) => RegisterStep {
            cpu: cpu.with_registers(cpu.registers.with_a(value)),
            result: Ok(cycles),
        },
        Err(e) => RegisterStep { cpu, result: Err(Fault::Memory(e)) },
    }
}

/// A store of a byte at an address.
#[verifier::opaque]
pub open spec fn store(cpu: CPU, mem: MmuView, address: u16, value: u8, cycles: u8) -> Outcome {
    done(cpu, mem.after_write_byte(address, value), cycles)
}

/// `HL` one up or one down, with wrap-around.
pub open spec fn stepped_hl(cpu: CPU, up: bool) -> CPU {
    cpu.with_registers(
        cpu.registers.with_hl(
            if up {
                add16_value(cpu.registers.spec_hl(), 1)
            } else {
                sub16_value(cpu.registers.spec_hl(), 1)
            },
        ),
    )
}

/// `LD A,(HL+)` and `LD A,(HL-)`: two cycles.
#[verifier::opaque]
pub open spec fn load_a_stepping(cpu: CPU, mem: MmuView, up: bool) -> RegisterStep {
    match mem.read_byte(cpu.registers.spec_hl()) {
        Ok(value) => RegisterStep {
            cpu: stepped_hl(cpu.with_registers(cpu.registers.with_a(value)), up),
            result: Ok(2),
        },
        Err(e) => RegisterStep { cpu, result: Err(Fault::Memory(e)) },
    }
}

/// `LD (HL+),A` and `LD (HL-),A`: two cycles.
#[verifier::opaque]
pub open spec fn store_a_stepping(cpu: CPU, mem: MmuView, up: bool) -> Outcome {
    done(
        stepped_hl(cpu, up),
        mem.after_write_byte(cpu.registers.spec_hl(), cpu.registers.a.value),
        2,
    )
}

/// `LD rr,nn`: three cycles.
#[verifier::opaque]
pub open spec fn ld_rr_nn(cpu: CPU, dd: u8, value: u16) -> RegisterStep {
    match cpu.registers.dd(dd) {
        Some(_) => RegisterStep {
            cpu: cpu.with_registers(cpu.registers.with_dd(dd, value)),
            result: Ok(3),
        },
        None => RegisterStep {
            cpu,
            result: Err(Fault::Register(RegisterError::InvalidLookupInput)),
        },
    }
}

/// `LD (nn),SP`: five cycles. There is no word at `0xFFFF`.
#[verifier::opaque]
pub open spec fn ld_nn_sp(cpu: CPU, mem: MmuView, address: u16) -> Outcome {
    if address == 0xFFFF {
        failed(cpu, mem, Fault::Memory(MmuError::WriteError))
    } else {
        done(cpu, mem.after_write_word(address, cpu.registers.sp.value), 5)
    }
}

/// `LD HL,SP+e`: three cycles.
#[verifier::opaque]
pub open spec fn ld_hl_sp(cpu: CPU, e: u8) -> RegisterStep {
    let regs = cpu.registers;
    RegisterStep {
        cpu: cpu.with_registers(
            regs.with_f(offset_flags(regs.sp.value, e)).with_hl(offset_word(regs.sp.value, e)),
        ),
        result: Ok(3),
    }
}

/// What a load instruction does. `d0` and `d1` are the two operand bytes, a
/// 16-bit operand having its low byte first. The register of an 8-bit load is
/// named by bits 5..3 of the opcode where it is written and by bits 2..0
/// where it is read; the pair of a 16-bit load by bits 5..4.
#[verifier::opaque]
pub open spec fn ld_step(cpu: CPU, mem: MmuView, data: InstructionData, d0: u8, d1: u8) -> Outcome {
    let regs = cpu.registers;
    let lo = data.byte_data.rhs;
    let hi = data.byte_data.lhs;
    let nn = word_of(d1, d0);
    match data.instruction {
        Instruction::LD_RR => keeping(mem, ld_r_r(cpu, hi, lo)),
        Instruction::LD_RN => keeping(mem, ld_r_n(cpu, hi, d0)),
        Instruction::LD_RHL => keeping(mem, ld_r_hl(cpu, mem, hi)),
        Instruction::LD_HLR => ld_hl_r(cpu, mem, lo),
        Instruction::LD_HLN => store(cpu, mem, regs.spec_hl(), d0, 3),
        Instruction::LD_ABC => keeping(mem, load_a(cpu, mem, regs.spec_bc(), 2)),
        Instruction::LD_ADE => keeping(mem, load_a(cpu, mem, regs.spec_de(), 2)),
        Instruction::LD_AN => keeping(mem, load_a(cpu, mem, high_page(d0), 3)),
        Instruction::LD_ANN => keeping(mem, load_a(cpu, mem, nn, 4)),
        Instruction::LD_BCA => store(cpu, mem, regs.spec_bc(), regs.a.value, 2),
        Instruction::LD_DEA => store(cpu, mem, regs.spec_de(), regs.a.value, 2),
        Instruction::LD_NA => store(cpu, mem, high_page(d0), regs.a.value, 3),
        Instruction::LD_NNA => store(cpu, mem, nn, regs.a.value, 4),
        Instruction::LD_AFF00C => keeping(mem, load_a(cpu, mem, high_page(regs.c.value), 2)),
        Instruction::LD_FF00CA => store(cpu, mem, high_page(regs.c.value), regs.a.value, 2),
        Instruction::LD_HLIA => store_a_stepping(cpu, mem, true),
        Instruction::LD_AHLI => keeping(mem, load_a_stepping(cpu, mem, true)),
        Instruction::LD_HLDA => store_a_stepping(cpu, mem, false),
        Instruction::LD_AHLD => keeping(mem, load_a_stepping(cpu, mem, false)),
        Instruction::LD_RRNN => keeping(mem, ld_rr_nn(cpu, hi / 2, nn)),
        Instruction::LD_SPHL => done(
            cpu.with_registers(regs.with_sp(regs.spec_hl())),
            mem,
            2,
        ),
        Instruction::LD_SPDD => ld_nn_sp(cpu, mem, nn),
        Instruction::LDHL => keeping(mem, ld_hl_sp(cpu, d0)),
        _ => failed(cpu, mem, Fault::UnexpectedOpcode(data.mnemonic, Mnemonic::LD)),
    }
}

/// A load leaves the low nibble of `F` zero.
pub proof fn lemma_ld_keeps_flags_clean(cpu: CPU, mem: MmuView, data: InstructionData, d0: u8, d1: u8)
    requires
        cpu.spec_wf(),
    ensures
        ld_step(cpu, mem, data, d0, d1).cpu.spec_wf(),
{
    reveal(ld_step);
    reveal(ld_r_r);
    reveal(ld_r_n);
    reveal(ld_r_hl);
    reveal(ld_hl_r);
    reveal(load_a);
    reveal(store);
    reveal(load_a_stepping);
    reveal(store_a_stepping);
    reveal(ld_rr_nn);
    reveal(ld_nn_sp);
    reveal(ld_hl_sp);
    crate::hardware::register_ops::lemma_packed_flags_are_clean();
}

impl CPU {
    /// `LD r,r'`.
    fn load_register(&mut self, to: u8, from: u8) -> (r: Result<u8, Error>)
        requires
            old(self).spec_wf(),
        ensures
            final(self).spec_wf(),
            *final(self) == ld_r_r(*old(self), to, from).cpu,
            agrees(r, ld_r_r(*old(self), to, from).result),
    {
        proof {
            reveal(ld_r_r);
        }
        let r_prime_value = from_register(self.registers.read_reg(from))?;
        from_register(self.registers.write_reg(to, r_prime_value))?;
        Ok(1)
    }

    /// `LD r,n`.
    fn load_operand(&mut self, to: u8, n: u8) -> (r: Result<u8, Error>)
        requires
            old(self).spec_wf(),
        ensures
            final(self).spec_wf(),
            *final(self) == ld_r_n(*old(self), to, n).cpu,
            agrees(r, ld_r_n(*old(self), to, n).result),
    {
        proof {
            reveal(ld_r_n);
        }
        from_register(self.registers.write_reg(to, n))?;
        Ok(2)
    }

    /// `LD r,(HL)`.
    fn load_from_hl(&mut self, to: u8, mmu: &MMU) -> (r: Result<u8, Error>)
        requires
            old(self).spec_wf(),
            mmu.wf(),
        ensures
            final(self).spec_wf(),
            *final(self) == ld_r_hl(*old(self), mmu@, to).cpu,
            agrees(r, ld_r_hl(*old(self), mmu@, to).result),
    {
        proof {
            reveal(ld_r_hl);
            reveal(ld_r_n);
        }
        let value = from_mmu(mmu.read_byte(self.registers.hl()))?;
        from_register(self.registers.write_reg(to, value))?;
        Ok(2)
    }

    /// `LD (HL),r`.
    fn store_at_hl(&mut self, from: u8, mmu: &mut MMU) -> (r: Result<u8, Error>)
        requires
            old(self).spec_wf(),
            old(mmu).wf(),
        ensures
            final(self).spec_wf(),
            final(mmu).wf(),
            *final(self) == ld_hl_r(*old(self), old(mmu)@, from).cpu,
            final(mmu)@ == ld_hl_r(*old(self), old(mmu)@, from).mem,
            agrees(r, ld_hl_r(*old(self), old(mmu)@, from).result),
    {
        proof {
            reveal(ld_hl_r);
        }
        let reg_r_value = from_register(self.registers.read_reg(from))?;
        from_mmu(mmu.write_byte(self.registers.hl(), reg_r_value))?;
        Ok(2)
    }

    /// A load of `A` from an address.
    fn load_accumulator(&mut self, mmu: &MMU, address: u16, cycles: u8) -> (r: Result<u8, Error>)
        requires
            old(self).spec_wf(),
            mmu.wf(),
        ensures
            final(self).spec_wf(),
            *final(self) == load_a(*old(self), mmu@, address, cycles).cpu,
            agrees(r, load_a(*old(self), mmu@, address, cycles).result),
    {
        proof {
            reveal(load_a);
        }
        let value = from_mmu(mmu.read_byte(address))?;
        self.registers.a.set_value(value);
        Ok(cycles)
    }

    /// A store of a byte at an address.
    fn store_byte(&self, mmu: &mut MMU, address: u16, value: u8, cycles: u8) -> (r: Result<
        u8,
        Error,
    >)
        requires
            old(mmu).wf(),
        ensures
            final(mmu).wf(),
            *self == store(*self, old(mmu)@, address, value, cycles).cpu,
            final(mmu)@ == store(*self, old(mmu)@, address, value, cycles).mem,
            agrees(r, store(*self, old(mmu)@, address, value, cycles).result),
    {
        proof {
            reveal(store);
        }
        from_mmu(mmu.write_byte(address, value))?;
        Ok(cycles)
    }

    /// Moves `HL` one up or one down.
    fn step_hl_pair(&mut self, up: bool)
        requires
            old(self).spec_wf(),
        ensures
            final(self).spec_wf(),
            *final(self) == stepped_hl(*old(self), up),
    {
        let hl = self.registers.hl();
        let next_hl = if up {
            hl.wrapping_add(1)
        } else {
            hl.wrapping_sub(1)
        };
        self.registers.hl_mut().set_value_16(next_hl);
    }

    /// `LD A,(HL+)` and `LD A,(HL-)`.
    fn load_accumulator_stepping(&mut self, mmu: &MMU, up: bool) -> (r: Result<u8, Error>)
        requires
            old(self).spec_wf(),
            mmu.wf(),
        ensures
            final(self).spec_wf(),
            *final(self) == load_a_stepping(*old(self), mmu@, up).cpu,
            agrees(r, load_a_stepping(*old(self), mmu@, up).result),
    {
        proof {
            reveal(load_a_stepping);
        }
        let hl = self.registers.hl();
        let value = from_mmu(mmu.read_byte(hl))?;
        self.registers.a.set_value(value);
        self.step_hl_pair(up);
        Ok(2)
    }

    /// `LD (HL+),A` and `LD (HL-),A`.
    fn store_accumulator_stepping(&mut self, mmu: &mut MMU, up: bool) -> (r: Result<u8, Error>)
        requires
            old(self).spec_wf(),
            old(mmu).wf(),
        ensures
            final(self).spec_wf(),
            final(mmu).wf(),
            *final(self) == store_a_stepping(*old(self), old(mmu)@, up).cpu,
            final(mmu)@ == store_a_stepping(*old(self), old(mmu)@, up).mem,
            agrees(r, store_a_stepping(*old(self), old(mmu)@, up).result),
    {
        proof {
            reveal(store_a_stepping);
        }
        let hl = self.registers.hl();
        from_mmu(mmu.write_byte(hl, *self.registers.a.get_value()))?;
        self.step_hl_pair(up);
        Ok(2)
    }

    /// `LD rr,nn`.
    fn load_pair(&mut self, dd: u8, high: u8, low: u8) -> (r: Result<u8, Error>)
        requires
            old(self).spec_wf(),
        ensures
            final(self).spec_wf(),
            *final(self) == ld_rr_nn(*old(self), dd, word_of(high, low)).cpu,
            agrees(r, ld_rr_nn(*old(self), dd, word_of(high, low)).result),
    {
        proof {
            reveal(ld_rr_nn);
        }
        proof {
            crate::util::byte_ops::lemma_word_round_trip(high, low, 0);
        }
        let mut reg_pair = from_register(self.registers.reg_pair_from_dd(dd))?;
        reg_pair.set_value(high, low);
        Ok(3)
    }

    /// `LD (nn),SP`.
    fn store_stack_pointer(&self, mmu: &mut MMU, address: u16) -> (r: Result<u8, Error>)
        requires
            old(mmu).wf(),
        ensures
            final(mmu).wf(),
            *self == ld_nn_sp(*self, old(mmu)@, address).cpu,
            final(mmu)@ == ld_nn_sp(*self, old(mmu)@, address).mem,
            agrees(r, ld_nn_sp(*self, old(mmu)@, address).result),
    {
        proof {
            reveal(ld_nn_sp);
        }
        from_mmu(mmu.write_word(address, *self.registers.sp.get_value()))?;
        Ok(5)
    }

    /// `LD HL,SP+e`.
    fn load_hl_from_sp(&mut self, e: u8) -> (r: Result<u8, Error>)
        requires
            old(self).spec_wf(),
        ensures
            final(self).spec_wf(),
            *final(self) == ld_hl_sp(*old(self), e).cpu,
            agrees(r, ld_hl_sp(*old(self), e).result),
    {
        proof {
            reveal(ld_hl_sp);
        }
        let value = self.offset_stack_pointer(e);
        self.registers.hl_mut().set_value_16(value);
        Ok(3)
    }

    /// Carries out a load instruction and gives the machine cycles it took.
    pub fn evaluate_ld(
        &mut self,
        instruction_data: &InstructionData,
        opcode_data: &[u8; 2],
        mmu: &mut MMU,
    ) -> (r: Result<u8, Error>)
        requires
            old(self).spec_wf(),
            old(mmu).wf(),
        ensures
            final(self).spec_wf(),
            final(mmu).wf(),
            *final(self) == ld_step(
                *old(self),
                old(mmu)@,
                *instruction_data,
                opcode_data[0],
                opcode_data[1],
            ).cpu,
            final(mmu)@ == ld_step(
                *old(self),
                old(mmu)@,
                *instruction_data,
                opcode_data[0],
                opcode_data[1],
            ).mem,
            agrees(
                r,
                ld_step(
                    *old(self),
                    old(mmu)@,
                    *instruction_data,
                    opcode_data[0],
                    opcode_data[1],
                ).result,
            ),
    {
        proof {
            reveal(ld_step);
        }
        let lo = instruction_data.byte_data.rhs;
        let hi = instruction_data.byte_data.lhs;
        let a = *self.registers.a.get_value();
        proof {
            lemma_byte_fields(hi);
        }
        match instruction_data.instruction {
            Instruction::LD_RR => self.load_register(hi, lo),
            Instruction::LD_RN => self.load_operand(hi, opcode_data[0]),
            Instruction::LD_RHL => self.load_from_hl(hi, mmu),
            Instruction::LD_HLR => self.store_at_hl(lo, mmu),
            Instruction::LD_HLN => self.store_byte(mmu, self.registers.hl(), opcode_data[0], 3),
            Instruction::LD_ABC => self.load_accumulator(mmu, self.registers.bc(), 2),
            Instruction::LD_ADE => self.load_accumulator(mmu, self.registers.de(), 2),
            Instruction::LD_AN => self.load_accumulator(mmu, 0xFF00 + (opcode_data[0] as u16), 3),
            Instruction::LD_ANN => self.load_accumulator(
                mmu,
                hi_lo_combine(opcode_data[1], opcode_data[0]),
                4,
            ),
            Instruction::LD_BCA => self.store_byte(mmu, self.registers.bc(), a, 2),
            Instruction::LD_DEA => self.store_byte(mmu, self.registers.de(), a, 2),
            Instruction::LD_NA => self.store_byte(mmu, 0xFF00 + (opcode_data[0] as u16), a, 3),
            Instruction::LD_NNA => self.store_byte(
                mmu,
                hi_lo_combine(opcode_data[1], opcode_data[0]),
                a,
                4,
            ),
            Instruction::LD_AFF00C => self.load_accumulator(
                mmu,
                0xFF00 + (*self.registers.c.get_value() as u16),
                2,
            ),
            Instruction::LD_FF00CA => self.store_byte(
                mmu,
                0xFF00 + (*self.registers.c.get_value() as u16),
                a,
                2,
            ),
            Instruction::LD_HLIA => self.store_accumulator_stepping(mmu, true),
            Instruction::LD_AHLI => self.load_accumulator_stepping(mmu, true),
            Instruction::LD_HLDA => self.store_accumulator_stepping(mmu, false),
            Instruction::LD_AHLD => self.load_accumulator_stepping(mmu, false),
            Instruction::LD_RRNN => self.load_pair(hi >> 1, opcode_data[1], opcode_data[0]),
            Instruction::LD_SPHL => {
                self.registers.sp.set_value(self.registers.hl());
                Ok(2)
            },
            Instruction::LD_SPDD => self.store_stack_pointer(
                mmu,
                hi_lo_combine(opcode_data[1], opcode_data[0]),
            ),
            Instruction::LDHL => self.load_hl_from_sp(opcode_data[0]),
            _ => Err(unexpected_op(&instruction_data.mnemonic, &Mnemonic::LD)),
        }
    }
}

} // verus!
