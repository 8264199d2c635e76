//! The rotations, the shifts and the instructions on single bits.

use crate::dasm::InstructionData;
use crate::hardware::cpu::{
    agrees, done, failed, from_mmu, from_register, keeping, Error, Fault, Outcome, RegisterStep,
    CPU,
};
use crate::hardware::mmu::{MmuView, MMU};
use crate::hardware::mnemonic::Mnemonic;
use crate::hardware::opcode::Instruction;
use crate::hardware::opcodes::unexpected_op;
use crate::hardware::register::{RegisterError, TRegister};
use crate::hardware::register_ops::{
    carry_flag, lemma_pack_flags, pack_flags, swap8, FlagRegister, Flags, RegisterOp,
};
use crate::util::byte_ops::lemma_byte_fields;
use vstd::prelude::*;

verus! {

/// The rotations and shifts.
#[derive(Debug, Clone, Copy, PartialEq, Eq, Structural)]
pub enum ShiftOp {
    /// Rotate left; bit 7 goes to bit 0 and to C.
    Rlc,
    /// Rotate left through C; C goes to bit 0, bit 7 to C.
    Rl,
    /// Rotate right; bit 0 goes to bit 7 and to C.
    Rrc,
    /// Rotate right through C; C goes to bit 7, bit 0 to C.
    Rr,
    /// Shift left; bit 0 is cleared, bit 7 goes to C.
    Sla,
    /// Shift right, keeping bit 7; bit 0 goes to C.
    Sra,
    /// Shift right; bit 7 is cleared, bit 0 goes to C.
    Srl,
    /// Exchange the nibbles; C is cleared.
    Swap,
}

/// The three operations on a single bit.
#[derive(Debug, Clone, Copy, PartialEq, Eq, Structural)]
pub enum BitOp {
    Test,
    SetBit,
    ResetBit,
}

/// The byte that a rotation or shift makes of `v`, with `carry` as the C that
/// goes in.
pub open spec fn shifted(op: ShiftOp, v: u8, carry: bool) -> u8 {
    let c: int = if carry {
        1
    } else {
        0
    };
    match op {
        ShiftOp::Rlc => ((v * 2) % 256 + v / 128) as u8,
        ShiftOp::Rl => ((v * 2) % 256 + c) as u8,
        ShiftOp::Rrc => (v / 2 + (v % 2) * 128) as u8,
        ShiftOp::Rr => (v / 2 + c * 128) as u8,
        ShiftOp::Sla => ((v * 2) % 256) as u8,
        ShiftOp::Sra => (v / 2 + (v / 128) * 128) as u8,
        ShiftOp::Srl => v / 2,
        ShiftOp::Swap => swap8(v),
    }
}

/// The C that a rotation or shift of `v` leaves: the bit that went out.
pub open spec fn shifted_out(op: ShiftOp, v: u8) -> bool {
    match op {
        ShiftOp::Rlc | ShiftOp::Rl | ShiftOp::Sla => v / 128 == 1,
        ShiftOp::Rrc | ShiftOp::Rr | ShiftOp::Sra | ShiftOp::Srl => v % 2 == 1,
        ShiftOp::Swap => false,
    }
}

/// The flags after a rotation or shift of the second page: Z from the result,
/// N and H clear, C the bit that went out.
pub open spec fn shift_flags(op: ShiftOp, v: u8, carry: bool) -> u8 {
    pack_flags(shifted(op, v, carry) == 0, false, false, shifted_out(op, v))
}

/// The mask of bit `n`.
pub open spec fn bit_mask(n: u8) -> u8
    recommends
        n < 8,
{
    1u8 << n
}

/// The byte after an operation on bit `n`: a test leaves it alone.
pub open spec fn bit_result(op: BitOp, n: u8, v: u8) -> u8 {
    match op {
        BitOp::Test => v,
        BitOp::SetBit => v | bit_mask(n),
        BitOp::ResetBit => v & !bit_mask(n),
    }
}

/// The flags after an operation on bit `n`: a test sets Z where the bit is
/// clear, clears N, sets H and leaves C; the others leave all flags.
pub open spec fn bit_flags(op: BitOp, n: u8, v: u8, f: u8) -> u8 {
    match op {
        BitOp::Test => pack_flags(v & bit_mask(n) == 0, false, true, carry_flag(f)),
        _ => f,
    }
}

/// A rotation of `A` by an instruction of the first page: Z is cleared: one
/// cycle.
#[verifier::opaque]
pub open spec fn rotate_a(cpu: CPU, op: ShiftOp) -> RegisterStep {
    let regs = cpu.registers;
    RegisterStep {
        cpu: cpu.with_registers(
            regs.with_a(shifted(op, regs.a.value, carry_flag(regs.f.value))).with_f(
                pack_flags(false, false, false, shifted_out(op, regs.a.value)),
            ),
        ),
        result: Ok(1),
    }
}

/// A rotation or shift of the register that the selector names: two cycles.
#[verifier::opaque]
pub open spec fn shift_r(cpu: CPU, op: ShiftOp, code: u8) -> RegisterStep {
    let regs = cpu.registers;
    match regs.r8(code) {
        Some(v) => RegisterStep {
            cpu: cpu.with_registers(
                regs.with_r8(code, shifted(op, v, carry_flag(regs.f.value))).with_f(
                    shift_flags(op, v, carry_flag(regs.f.value)),
                ),
            ),
            result: Ok(2),
        },
        None => RegisterStep {
            cpu,
            result: Err(Fault::Register(RegisterError::InvalidLookupInput)),
        },
    }
}

/// A rotation or shift of the byte at `(HL)`: four cycles.
#[verifier::opaque]
pub open spec fn shift_hl(cpu: CPU, mem: MmuView, op: ShiftOp) -> Outcome {
    let regs = cpu.registers;
    match mem.read_byte(regs.spec_hl()) {
        Ok(v) => done(
            cpu.with_registers(regs.with_f(shift_flags(op, v, carry_flag(regs.f.value)))),
            mem.after_write_byte(regs.spec_hl(), shifted(op, v, carry_flag(regs.f.value))),
            4,
        ),
        Err(e) => failed(cpu, mem, Fault::Memory(e)),
    }
}

/// An operation on bit `n` of the register that the selector names: two
/// cycles. A bit number above 7 is refused.
#[verifier::opaque]
pub open spec fn bit_r(cpu: CPU, op: BitOp, n: u8, code: u8) -> RegisterStep {
    let regs = cpu.registers;
    if n > 7 {
        RegisterStep { cpu, result: Err(Fault::Register(RegisterError::InvalidLookupInput)) }
    } else {
        match regs.r8(code) {
            Some(v) => RegisterStep {
                cpu: cpu.with_registers(
                    regs.with_r8(code, bit_result(op, n, v)).with_f(
                        bit_flags(op, n, v, regs.f.value),
                    ),
                ),
                result: Ok(2),
            },
            None => RegisterStep {
                cpu,
                result: Err(Fault::Register(RegisterError::InvalidLookupInput)),
            },
        }
    }
}

/// An operation on bit `n` of the byte at `(HL)`: three cycles for a test,
/// which writes nothing, four for the others. A bit number above 7 is
/// refused.
#[verifier::opaque]
pub open spec fn bit_hl(cpu: CPU, mem: MmuView, op: BitOp, n: u8) -> Outcome {
    let regs = cpu.registers;
    if n > 7 {
        failed(cpu, mem, Fault::Register(RegisterError::InvalidLookupInput))
    } else {
        match mem.read_byte(regs.spec_hl()) {
            Ok(v) => match op {
                BitOp::Test => done(
                    cpu.with_registers(regs.with_f(bit_flags(op, n, v, regs.f.value))),
                    mem,
                    3,
                ),
                _ => done(cpu, mem.after_write_byte(regs.spec_hl(), bit_result(op, n, v)), 4),
            },
            Err(e) => failed(cpu, mem, Fault::Memory(e)),
        }
    }
}

/// What a rotation, shift or bit instruction does. In the second page bits
/// 2..0 of the opcode name the register and bits 5..3 the bit.
#[verifier::opaque]
pub open spec fn bitwise_step(cpu: CPU, mem: MmuView, data: InstructionData) -> Outcome {
    let lo = data.byte_data.rhs;
    let hi = data.byte_data.lhs;
    match data.instruction {
        Instruction::RLCA => keeping(mem, rotate_a(cpu, ShiftOp::Rlc)),
        Instruction::RLA => keeping(mem, rotate_a(cpu, ShiftOp::Rl)),
        Instruction::RRCA => keeping(mem, rotate_a(cpu, ShiftOp::Rrc)),
        Instruction::RRA => keeping(mem, rotate_a(cpu, ShiftOp::Rr)),
        Instruction::RLC_R => keeping(mem, shift_r(cpu, ShiftOp::Rlc, lo)),
        Instruction::RLC_HL => shift_hl(cpu, mem, ShiftOp::Rlc),
        Instruction::RL_R => keeping(mem, shift_r(cpu, ShiftOp::Rl, lo)),
        Instruction::RL_HL => shift_hl(cpu, mem, ShiftOp::Rl),
        Instruction::RRC_R => keeping(mem, shift_r(cpu, ShiftOp::Rrc, lo)),
        Instruction::RRC_HL => shift_hl(cpu, mem, ShiftOp::Rrc),
        Instruction::RR_R => keeping(mem, shift_r(cpu, ShiftOp::Rr, lo)),
        Instruction::RR_HL => shift_hl(cpu, mem, ShiftOp::Rr),
        Instruction::SLA_R => keeping(mem, shift_r(cpu, ShiftOp::Sla, lo)),
        Instruction::SLA_HL => shift_hl(cpu, mem, ShiftOp::Sla),
        Instruction::SWAP_R => keeping(mem, shift_r(cpu, ShiftOp::Swap, lo)),
        Instruction::SWAP_HL => shift_hl(cpu, mem, ShiftOp::Swap),
        Instruction::SRA_R => keeping(mem, shift_r(cpu, ShiftOp::Sra, lo)),
        Instruction::SRA_HL => shift_hl(cpu, mem, ShiftOp::Sra),
        Instruction::SRL_R => keeping(mem, shift_r(cpu, ShiftOp::Srl, lo)),
        Instruction::SRL_HL => shift_hl(cpu, mem, ShiftOp::Srl),
        Instruction::BIT_NR => keeping(mem, bit_r(cpu, BitOp::Test, hi, lo)),
        Instruction::BIT_NHL => bit_hl(cpu, mem, BitOp::Test, hi),
        Instruction::SET_NR => keeping(mem, bit_r(cpu, BitOp::SetBit, hi, lo)),
        Instruction::SET_NHL => bit_hl(cpu, mem, BitOp::SetBit, hi),
        Instruction::RES_NR => keeping(mem, bit_r(cpu, BitOp::ResetBit, hi, lo)),
        Instruction::RES_NHL => bit_hl(cpu, mem, BitOp::ResetBit, hi),
        _ => failed(cpu, mem, Fault::UnexpectedOpcode(data.mnemonic, Mnemonic::PUSH)),
    }
}

/// A rotation, a shift and an operation on a bit leave the low nibble of `F`
/// zero.
proof fn lemma_shifts_keep_flags_clean(cpu: CPU, mem: MmuView)
    requires
        cpu.spec_wf(),
    ensures
        forall|op: ShiftOp| (#[trigger] rotate_a(cpu, op)).cpu.spec_wf(),
        forall|op: ShiftOp, code: u8| (#[trigger] shift_r(cpu, op, code)).cpu.spec_wf(),
        forall|op: ShiftOp| (#[trigger] shift_hl(cpu, mem, op)).cpu.spec_wf(),
        forall|op: BitOp, n: u8, code: u8| (#[trigger] bit_r(cpu, op, n, code)).cpu.spec_wf(),
        forall|op: BitOp, n: u8| (#[trigger] bit_hl(cpu, mem, op, n)).cpu.spec_wf(),
{
    crate::hardware::register_ops::lemma_packed_flags_are_clean();
    assert forall|op: ShiftOp| (#[trigger] rotate_a(cpu, op)).cpu.spec_wf() by {
        reveal(rotate_a);
    }
    assert forall|op: ShiftOp, code: u8| (#[trigger] shift_r(cpu, op, code)).cpu.spec_wf() by {
        reveal(shift_r);
    }
    assert forall|op: ShiftOp| (#[trigger] shift_hl(cpu, mem, op)).cpu.spec_wf() by {
        reveal(shift_hl);
    }
    assert forall|op: BitOp, n: u8, code: u8| (#[trigger] bit_r(cpu, op, n, code)).cpu.spec_wf() by {
        reveal(bit_r);
    }
    assert forall|op: BitOp, n: u8| (#[trigger] bit_hl(cpu, mem, op, n)).cpu.spec_wf() by {
        reveal(bit_hl);
    }
}

/// A rotation, shift or bit instruction leaves the low nibble of `F` zero.
pub proof fn lemma_bitwise_keeps_flags_clean(cpu: CPU, mem: MmuView, data: InstructionData)
    requires
        cpu.spec_wf(),
    ensures
        bitwise_step(cpu, mem, data).cpu.spec_wf(),
{
    reveal(bitwise_step);
    lemma_shifts_keep_flags_clean(cpu, mem);
}

/// How the masks that turn a rotation into a shift, or into a rotation
/// through C, read as arithmetic. `l` and `r` are `v` rotated left and right
/// by one place.
pub proof fn lemma_shift_masks(v: u8, c: u8, l: u8, r: u8)
    by (bit_vector)
    requires
        c <= 1,
        l == (v << 1u8) | (v >> 7u8),
        r == (v >> 1u8) | (v << 7u8),
    ensures
        ({
            &&& ((l & 0xFE) | c) as int == (v as int * 2) % 256 + c as int
            &&& (((c << 7u8) | 0x7F) & (r | 0x80)) as int == v as int / 2 + c as int * 128
            &&& (l & 0xFE) as int == (v as int * 2) % 256
            &&& ((r & 0x7F) | (v & 0x80)) as int == v as int / 2 + (v as int / 128) * 128
            &&& (r & 0x7F) as int == v as int / 2
            &&& l as int == (v as int * 2) % 256 + v as int / 128
            &&& r as int == v as int / 2 + (v as int % 2) * 128
        }),
{
}

impl FlagRegister {
    /// Sets Z where `value` is zero and clears it where it is not; the other
    /// bits stay.
    pub fn update_zero(&mut self, value: u8)
        ensures
            final(self).0 == pack_flags(
                value == 0,
                crate::hardware::register_ops::subtract_flag(old(self).0),
                crate::hardware::register_ops::half_carry_flag(old(self).0),
                carry_flag(old(self).0),
            ),
            final(self).0 & 0x0F == 0,
    {
        let mut flags = Flags::from(&*self);
        flags.z = if value == 0 {
            1
        } else {
            0
        };
        proof {
            lemma_pack_flags(flags.z != 0, flags.n != 0, flags.h != 0, flags.c != 0);
        }
        self.0 = FlagRegister::from(flags).0;
    }
}

impl CPU {
    /// Rotates or shifts a byte: the new byte, and the flags with Z from it.
    pub fn shift(op: ShiftOp, value: u8, carry_in: bool) -> (r: (u8, FlagRegister))
        ensures
            r.0 == shifted(op, value, carry_in),
            r.1.0 == shift_flags(op, value, carry_in),
            r.1.0 & 0x0F == 0,
    {
        let carry: u8 = if carry_in {
            1
        } else {
            0
        };
        let left = RegisterOp::new(value).rotate_left(1);
        let right = RegisterOp::new(value).rotate_right(1);
        proof {
            assert(left.value == (value << 1u8) | (value >> 7u8)) by {
                assert(1u8 % 8 == 1);
            }
            assert(right.value == (value >> 1u8) | (value << 7u8)) by {
                assert(1u8 % 8 == 1);
            }
            lemma_shift_masks(value, carry, left.value, right.value);
            lemma_byte_fields(value);
        }
        let (result, mut flags) = match op {
            ShiftOp::Rlc => (left.value, left.flags),
            ShiftOp::Rl => ((left.value & 0xFE) | carry, left.flags),
            ShiftOp::Rrc => (right.value, right.flags),
            ShiftOp::Rr => (((carry << 7u8) | 0x7F) & (right.value | 0x80), right.flags),
            ShiftOp::Sla => (left.value & 0xFE, left.flags),
            ShiftOp::Sra => ((right.value & 0x7f) | (value & 0x80), right.flags),
            ShiftOp::Srl => (right.value & 0b01111111, right.flags),
            ShiftOp::Swap => {
                let swapped = RegisterOp::new(value).swap();
                (swapped.value, swapped.flags)
            },
        };
        proof {
            lemma_pack_flags(false, false, false, shifted_out(op, value));
            lemma_pack_flags(value == 0, false, false, false);
        }
        flags.update_zero(result);
        (result, flags)
    }

    /// `RLCA`, `RLA`, `RRCA` and `RRA`.
    fn rotate_accumulator(&mut self, op: ShiftOp) -> (r: Result<u8, Error>)
        requires
            old(self).spec_wf(),
        ensures
            final(self).spec_wf(),
            *final(self) == rotate_a(*old(self), op).cpu,
            agrees(r, rotate_a(*old(self), op).result),
    {
        proof {
            reveal(rotate_a);
        }
        let carry = self.registers.flag_register().c != 0;
        let (value, flags) = Self::shift(op, *self.registers.a.get_value(), carry);
        let c = Flags::from(&flags).c != 0;
        proof {
            lemma_pack_flags(
                value == 0,
                false,
                false,
                shifted_out(op, old(self).registers.a.value),
            );
        }
        self.registers.a.set_value(value);
        self.registers.f.set_value(FlagRegister::new(false, false, false, c).0);
        Ok(1)
    }

    /// A rotation or shift of the register that the selector names.
    fn shift_register(&mut self, op: ShiftOp, code: u8) -> (r: Result<u8, Error>)
        requires
            old(self).spec_wf(),
        ensures
            final(self).spec_wf(),
            *final(self) == shift_r(*old(self), op, code).cpu,
            agrees(r, shift_r(*old(self), op, code).result),
    {
        proof {
            reveal(shift_r);
        }
        let carry = self.registers.flag_register().c != 0;
        let value = from_register(self.registers.read_reg(code))?;
        let (result, flags) = Self::shift(op, value, carry);
        from_register(self.registers.write_reg(code, result))?;
        self.registers.f.set_value(flags.0);
        Ok(2)
    }

    /// A rotation or shift of the byte at `(HL)`.
    fn shift_memory(&mut self, op: ShiftOp, mmu: &mut MMU) -> (r: Result<u8, Error>)
        requires
            old(self).spec_wf(),
            old(mmu).wf(),
        ensures
            final(self).spec_wf(),
            final(mmu).wf(),
            *final(self) == shift_hl(*old(self), old(mmu)@, op).cpu,
            final(mmu)@ == shift_hl(*old(self), old(mmu)@, op).mem,
            agrees(r, shift_hl(*old(self), old(mmu)@, op).result),
    {
        proof {
            reveal(shift_hl);
        }
        let carry = self.registers.flag_register().c != 0;
        let hl = self.registers.hl();
        let value = from_mmu(mmu.read_byte(hl))?;
        let (result, flags) = Self::shift(op, value, carry);
        from_mmu(mmu.write_byte(hl, result))?;
        self.registers.f.set_value(flags.0);
        Ok(4)
    }

    /// Sets the flags of a test of bit `n` of `value`.
    fn test_bit(&mut self, n: u8, value: u8)
        requires
            n < 8,
            old(self).spec_wf(),
        ensures
            final(self).spec_wf(),
            *final(self) == old(self).with_registers(
                old(self).registers.with_f(
                    bit_flags(BitOp::Test, n, value, old(self).registers.f.value),
                ),
            ),
    {
        let bit = 1u8 << n;
        let selected_bit = value & bit;
        let mut flags = self.registers.flag_register();
        flags.z = if selected_bit == 0 {
            1
        } else {
            0
        };
        flags.h = 1;
        flags.n = 0;
        proof {
            lemma_pack_flags(flags.z != 0, flags.n != 0, flags.h != 0, flags.c != 0);
        }
        self.registers.f.set_value(flags.into());
    }

    /// An operation on bit `n` of the register that the selector names.
    fn bit_register(&mut self, op: BitOp, n: u8, code: u8) -> (r: Result<u8, Error>)
        requires
            old(self).spec_wf(),
        ensures
            final(self).spec_wf(),
            *final(self) == bit_r(*old(self), op, n, code).cpu,
            agrees(r, bit_r(*old(self), op, n, code).result),
    {
        proof {
            reveal(bit_r);
        }
        if n > 7 {
            return Err(Error::RegisterError(RegisterError::InvalidLookupInput));
        }
        let bit = 1u8 << n;
        let value = from_register(self.registers.read_reg(code))?;
        match op {
            BitOp::Test => {
                self.test_bit(n, value);
            },
            BitOp::SetBit => {
                from_register(self.registers.write_reg(code, value | bit))?;
            },
            BitOp::ResetBit => {
                from_register(self.registers.write_reg(code, value & !bit))?;
            },
        }
        Ok(2)
    }

    /// An operation on bit `n` of the byte at `(HL)`.
    fn bit_memory(&mut self, op: BitOp, n: u8, mmu: &mut MMU) -> (r: Result<u8, Error>)
        requires
            old(self).spec_wf(),
            old(mmu).wf(),
        ensures
            final(self).spec_wf(),
            final(mmu).wf(),
            *final(self) == bit_hl(*old(self), old(mmu)@, op, n).cpu,
            final(mmu)@ == bit_hl(*old(self), old(mmu)@, op, n).mem,
            agrees(r, bit_hl(*old(self), old(mmu)@, op, n).result),
    {
        proof {
            reveal(bit_hl);
        }
        if n > 7 {
            return Err(Error::RegisterError(RegisterError::InvalidLookupInput));
        }
        let bit = 1u8 << n;
        let hl = self.registers.hl();
        let value = from_mmu(mmu.read_byte(hl))?;
        match op {
            BitOp::Test => {
                self.test_bit(n, value);
                Ok(3)
            },
            BitOp::SetBit => {
                from_mmu(mmu.write_byte(hl, value | bit))?;
                Ok(4)
            },
            BitOp::ResetBit => {
                from_mmu(mmu.write_byte(hl, value & !bit))?;
                Ok(4)
            },
        }
    }

    /// Carries out a rotation, shift or bit instruction and gives the machine
    /// cycles it took.
    pub fn evaluate_bitwise(
        &mut self,
        instruction_data: &InstructionData,
        _opcode_data: &[u8; 2],
        mmu: &mut MMU,
    ) -> (r: Result<u8, Error>)
        requires
            old(self).spec_wf(),
            old(mmu).wf(),
        ensures
            final(self).spec_wf(),
            final(mmu).wf(),
            *final(self) == bitwise_step(*old(self), old(mmu)@, *instruction_data).cpu,
            final(mmu)@ == bitwise_step(*old(self), old(mmu)@, *instruction_data).mem,
            agrees(r, bitwise_step(*old(self), old(mmu)@, *instruction_data).result),
    {
        proof {
            reveal(bitwise_step);
        }
        let lo = instruction_data.byte_data.rhs;
        let hi = instruction_data.byte_data.lhs;
        match instruction_data.instruction {
            Instruction::RLCA => self.rotate_accumulator(ShiftOp::Rlc),
            Instruction::RLA => self.rotate_accumulator(ShiftOp::Rl),
            Instruction::RRCA => self.rotate_accumulator(ShiftOp::Rrc),
            Instruction::RRA => self.rotate_accumulator(ShiftOp::Rr),
            Instruction::RLC_R => self.shift_register(ShiftOp::Rlc, lo),
            Instruction::RLC_HL => self.shift_memory(ShiftOp::Rlc, mmu),
            Instruction::RL_R => self.shift_register(ShiftOp::Rl, lo),
            Instruction::RL_HL => self.shift_memory(ShiftOp::Rl, mmu),
            Instruction::RRC_R => self.shift_register(ShiftOp::Rrc, lo),
            Instruction::RRC_HL => self.shift_memory(ShiftOp::Rrc, mmu),
            Instruction::RR_R => self.shift_register(ShiftOp::Rr, lo),
            Instruction::RR_HL => self.shift_memory(ShiftOp::Rr, mmu),
            Instruction::SLA_R => self.shift_register(ShiftOp::Sla, lo),
            Instruction::SLA_HL => self.shift_memory(ShiftOp::Sla, mmu),
            Instruction::SWAP_R => self.shift_register(ShiftOp::Swap, lo),
            Instruction::SWAP_HL => self.shift_memory(ShiftOp::Swap, mmu),
            Instruction::SRA_R => self.shift_register(ShiftOp::Sra, lo),
            Instruction::SRA_HL => self.shift_memory(ShiftOp::Sra, mmu),
            Instruction::SRL_R => self.shift_register(ShiftOp::Srl, lo),
            Instruction::SRL_HL => self.shift_memory(ShiftOp::Srl, mmu),
            Instruction::BIT_NR => self.bit_register(BitOp::Test, hi, lo),
            Instruction::BIT_NHL => self.bit_memory(BitOp::Test, hi, mmu),
            Instruction::SET_NR => self.bit_register(BitOp::SetBit, hi, lo),
            Instruction::SET_NHL => self.bit_memory(BitOp::SetBit, hi, mmu),
            Instruction::RES_NR => self.bit_register(BitOp::ResetBit, hi, lo),
            Instruction::RES_NHL => self.bit_memory(BitOp::ResetBit, hi, mmu),
            _ => Err(unexpected_op(&instruction_data.mnemonic, &Mnemonic::PUSH)),
        }
    }
}

} // verus!
