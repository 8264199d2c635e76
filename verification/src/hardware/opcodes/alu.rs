//! The arithmetic and logic instructions.

use crate::dasm::InstructionData;
use crate::hardware::cpu::{
    agrees, done, failed, from_mmu, from_register, keeping, Error, Fault, Outcome, RegisterStep,
    CPU,
};
use crate::hardware::mmu::{MmuView, MMU};
use crate::hardware::mnemonic::Mnemonic;
use crate::hardware::opcode::Instruction;
use crate::hardware::opcodes::unexpected_op;
use crate::hardware::register::{RegisterError, Registers, TRegister};
use crate::hardware::register_ops::{
    add16_value, add8_flags, add8_value, carry_flag, half_carry_flag, lemma_masked_flags,
    lemma_pack_flags, masked_flags, pack_flags, sub16_value, sub8_flags, sub8_value,
    subtract_flag, zero_flag, FlagRegister, Flags, RegisterOp, RegisterOpResult,
};
use crate::util::byte_ops::lemma_byte_fields;
use vstd::prelude::*;

verus! {

/// The eight binary operations on `A`.
#[derive(Debug, Clone, Copy, PartialEq, Eq, Structural)]
pub enum AluOp {
    Add,
    Adc,
    Sub,
    Sbc,
    And,
    Xor,
    Or,
    Cp,
}

/// What a binary operation leaves in `A`: a comparison leaves `A` alone.
pub open spec fn alu_value(op: AluOp, a: u8, b: u8, carry: bool) -> u8 {
    match op {
        AluOp::Add => add8_value(a, b, false),
        AluOp::Adc => add8_value(a, b, carry),
        AluOp::Sub => sub8_value(a, b, false),
        AluOp::Sbc => sub8_value(a, b, carry),
        AluOp::And => a & b,
        AluOp::Xor => a ^ b,
        AluOp::Or => a | b,
        AluOp::Cp => a,
    }
}

/// What a binary operation leaves in `F`: a comparison has the flags of the
/// subtraction it does not store.
pub open spec fn alu_flags(op: AluOp, a: u8, b: u8, carry: bool) -> u8 {
    match op {
        AluOp::Add => add8_flags(a, b, false),
        AluOp::Adc => add8_flags(a, b, carry),
        AluOp::Sub => sub8_flags(a, b, false),
        AluOp::Sbc => sub8_flags(a, b, carry),
        AluOp::And => pack_flags(a & b == 0, false, true, false),
        AluOp::Xor => pack_flags(a ^ b == 0, false, false, false),
        AluOp::Or => pack_flags(a | b == 0, false, false, false),
        AluOp::Cp => sub8_flags(a, b, false),
    }
}

/// The register file after a binary operation on `A` and `b`.
pub open spec fn after_binary(regs: Registers, op: AluOp, b: u8) -> Registers {
    regs.with_a(alu_value(op, regs.a.value, b, carry_flag(regs.f.value))).with_f(
        alu_flags(op, regs.a.value, b, carry_flag(regs.f.value)),
    )
}

/// The flags after an increment: Z and H from the addition of 1, N clear, C
/// as it was.
pub open spec fn inc_flags(f: u8, value: u8) -> u8 {
    pack_flags(add8_value(value, 1, false) == 0, false, value % 16 == 15, carry_flag(f))
}

/// The flags after a decrement: Z and H from the subtraction of 1, N set, C as
/// it was.
pub open spec fn dec_flags(f: u8, value: u8) -> u8 {
    pack_flags(sub8_value(value, 1, false) == 0, true, value % 16 == 0, carry_flag(f))
}

/// The flags after a 16-bit addition to `HL`: N clear, H the carry out of bit
/// 11, C the carry out of bit 15, Z as it was.
pub open spec fn add_hl_flags(f: u8, hl: u16, value: u16) -> u8 {
    pack_flags(zero_flag(f), false, (hl % 4096) + (value % 4096) > 4095, hl + value > 65535)
}

/// A byte read as a signed offset.
pub open spec fn signed_offset(e: u8) -> int {
    if e < 128 {
        e as int
    } else {
        e as int - 256
    }
}

/// A word moved by a signed offset, with wrap-around.
pub open spec fn offset_word(word: u16, e: u8) -> u16 {
    ((word + signed_offset(e)) % 65536) as u16
}

/// The flags after a signed offset is added to `SP`: Z and N clear, H and C
/// those of the 8-bit addition of the low byte of `SP` and the offset byte,
/// whatever the sign of the offset.
pub open spec fn offset_flags(sp: u16, e: u8) -> u8 {
    pack_flags(false, false, (sp % 16) + (e % 16) > 15, (sp % 256) + e > 255)
}

/// `A` after the decimal adjustment, given the flags N, H and C. After an
/// addition, 0x60 is added where C is set or `A` is above 0x99, then 0x06
/// where H is set or the low nibble is above 9. After a subtraction, 0x60 is
/// taken away where C is set, then 0x06 where H is set.
pub open spec fn daa_adjusted(a: u8, n: bool, h: bool, c: bool) -> u8 {
    if !n {
        let high = if c || a > 0x99 {
            add8_value(a, 0x60, false)
        } else {
            a
        };
        if h || high % 16 > 9 {
            add8_value(high, 0x06, false)
        } else {
            high
        }
    } else {
        let high = if c {
            sub8_value(a, 0x60, false)
        } else {
            a
        };
        if h {
            sub8_value(high, 0x06, false)
        } else {
            high
        }
    }
}

/// `A` after the decimal adjustment.
pub open spec fn daa_value(a: u8, f: u8) -> u8 {
    daa_adjusted(a, subtract_flag(f), half_carry_flag(f), carry_flag(f))
}

/// The flags after the decimal adjustment: Z from the result, N as it was, H
/// clear, C set where it was set or where the adjustment after an addition
/// added 0x60.
pub open spec fn daa_flags(a: u8, f: u8) -> u8 {
    pack_flags(
        daa_value(a, f) == 0,
        subtract_flag(f),
        false,
        carry_flag(f) || (!subtract_flag(f) && a > 0x99),
    )
}

/// A binary operation on `A` and the register that the selector names: one
/// cycle.
#[verifier::opaque]
pub open spec fn binary_r(cpu: CPU, op: AluOp, code: u8) -> RegisterStep {
    match cpu.registers.r8(code) {
        Some(b) => RegisterStep {
            cpu: cpu.with_registers(after_binary(cpu.registers, op, b)),
            result: Ok(1),
        },
        None => RegisterStep {
            cpu,
            result: Err(Fault::Register(RegisterError::InvalidLookupInput)),
        },
    }
}

/// A binary operation on `A` and the operand byte: two cycles.
#[verifier::opaque]
pub open spec fn binary_n(cpu: CPU, op: AluOp, n: u8) -> RegisterStep {
    RegisterStep { cpu: cpu.with_registers(after_binary(cpu.registers, op, n)), result: Ok(2) }
}

/// A binary operation on `A` and the byte at `(HL)`: two cycles.
#[verifier::opaque]
pub open spec fn binary_hl(cpu: CPU, mem: MmuView, op: AluOp) -> RegisterStep {
    match mem.read_byte(cpu.registers.spec_hl()) {
        Ok(b) => RegisterStep {
            cpu: cpu.with_registers(after_binary(cpu.registers, op, b)),
            result: Ok(2),
        },
        Err(e) => RegisterStep { cpu, result: Err(Fault::Memory(e)) },
    }
}

/// `INC r` and `DEC r`: the register that the selector names goes up or down
/// by one, with wrap-around: one cycle.
#[verifier::opaque]
pub open spec fn step_r(cpu: CPU, code: u8, up: bool) -> RegisterStep {
    let regs = cpu.registers;
    match regs.r8(code) {
        Some(value) => RegisterStep {
            cpu: cpu.with_registers(
                if up {
                    regs.with_r8(code, add8_value(value, 1, false)).with_f(
                        inc_flags(regs.f.value, value),
                    )
                } else {
                    regs.with_r8(code, sub8_value(value, 1, false)).with_f(
                        dec_flags(regs.f.value, value),
                    )
                },
            ),
            result: Ok(1),
        },
        None => RegisterStep {
            cpu,
            result: Err(Fault::Register(RegisterError::InvalidLookupInput)),
        },
    }
}

/// `INC (HL)` and `DEC (HL)`: the byte at `(HL)` goes up or down by one, with
/// wrap-around: three cycles.
#[verifier::opaque]
pub open spec fn step_hl(cpu: CPU, mem: MmuView, up: bool) -> Outcome {
    let regs = cpu.registers;
    match mem.read_byte(regs.spec_hl()) {
        Ok(value) => if up {
            done(
                cpu.with_registers(regs.with_f(inc_flags(regs.f.value, value))),
                mem.after_write_byte(regs.spec_hl(), add8_value(value, 1, false)),
                3,
            )
        } else {
            done(
                cpu.with_registers(regs.with_f(dec_flags(regs.f.value, value))),
                mem.after_write_byte(regs.spec_hl(), sub8_value(value, 1, false)),
                3,
            )
        },
        Err(e) => failed(cpu, mem, Fault::Memory(e)),
    }
}

/// `DAA`: one cycle.
#[verifier::opaque]
pub open spec fn daa_step(cpu: CPU) -> RegisterStep {
    let regs = cpu.registers;
    RegisterStep {
        cpu: cpu.with_registers(
            regs.with_a(daa_value(regs.a.value, regs.f.value)).with_f(
                daa_flags(regs.a.value, regs.f.value),
            ),
        ),
        result: Ok(1),
    }
}

/// `CPL`: `A` is complemented, N and H are set, Z and C stay: one cycle.
#[verifier::opaque]
pub open spec fn cpl_step(cpu: CPU) -> RegisterStep {
    let regs = cpu.registers;
    RegisterStep {
        cpu: cpu.with_registers(
            regs.with_a(!regs.a.value).with_f(
                pack_flags(zero_flag(regs.f.value), true, true, carry_flag(regs.f.value)),
            ),
        ),
        result: Ok(1),
    }
}

/// `ADD HL,rr`: two cycles.
#[verifier::opaque]
pub open spec fn add_hl_step(cpu: CPU, dd: u8) -> RegisterStep {
    let regs = cpu.registers;
    match regs.dd(dd) {
        Some(value) => RegisterStep {
            cpu: cpu.with_registers(
                regs.with_hl(add16_value(regs.spec_hl(), value)).with_f(
                    add_hl_flags(regs.f.value, regs.spec_hl(), value),
                ),
            ),
            result: Ok(2),
        },
        None => RegisterStep {
            cpu,
            result: Err(Fault::Register(RegisterError::InvalidLookupInput)),
        },
    }
}

/// `ADD SP,e`: four cycles.
#[verifier::opaque]
pub open spec fn add_sp_step(cpu: CPU, e: u8) -> RegisterStep {
    let regs = cpu.registers;
    RegisterStep {
        cpu: cpu.with_registers(
            regs.with_sp(offset_word(regs.sp.value, e)).with_f(offset_flags(regs.sp.value, e)),
        ),
        result: Ok(4),
    }
}

/// `INC rr` and `DEC rr`: the pair that the selector names goes up or down by
/// one, with wrap-around; the flags stay: two cycles.
#[verifier::opaque]
pub open spec fn step_rr(cpu: CPU, dd: u8, up: bool) -> RegisterStep {
    let regs = cpu.registers;
    match regs.dd(dd) {
        Some(value) => RegisterStep {
            cpu: cpu.with_registers(
                regs.with_dd(
                    dd,
                    if up {
                        add16_value(value, 1)
                    } else {
                        sub16_value(value, 1)
                    },
                ),
            ),
            result: Ok(2),
        },
        None => RegisterStep {
            cpu,
            result: Err(Fault::Register(RegisterError::InvalidLookupInput)),
        },
    }
}

/// What an arithmetic or logic instruction does. `d0` is the first operand
/// byte. The register of an 8-bit instruction is named by bits 2..0 of the
/// opcode where it is the second operand and by bits 5..3 where it is the
/// only one; the pair of a 16-bit instruction by bits 5..4.
#[verifier::opaque]
pub open spec fn alu_step(cpu: CPU, mem: MmuView, data: InstructionData, d0: u8) -> Outcome {
    let lo = data.byte_data.rhs;
    let hi = data.byte_data.lhs;
    let dd = hi / 2;
    match data.instruction {
        Instruction::ADD_AR => keeping(mem, binary_r(cpu, AluOp::Add, lo)),
        Instruction::ADD_AN => keeping(mem, binary_n(cpu, AluOp::Add, d0)),
        Instruction::ADD_AHL => keeping(mem, binary_hl(cpu, mem, AluOp::Add)),
        Instruction::ADC_AR => keeping(mem, binary_r(cpu, AluOp::Adc, lo)),
        Instruction::ADC_AN => keeping(mem, binary_n(cpu, AluOp::Adc, d0)),
        Instruction::ADC_AHL => keeping(mem, binary_hl(cpu, mem, AluOp::Adc)),
        Instruction::SUB_R => keeping(mem, binary_r(cpu, AluOp::Sub, lo)),
        Instruction::SUB_N => keeping(mem, binary_n(cpu, AluOp::Sub, d0)),
        Instruction::SUB_HL => keeping(mem, binary_hl(cpu, mem, AluOp::Sub)),
        Instruction::SBC_AR => keeping(mem, binary_r(cpu, AluOp::Sbc, lo)),
        Instruction::SBC_AN => keeping(mem, binary_n(cpu, AluOp::Sbc, d0)),
        Instruction::SBC_AHL => keeping(mem, binary_hl(cpu, mem, AluOp::Sbc)),
        Instruction::AND_R => keeping(mem, binary_r(cpu, AluOp::And, lo)),
        Instruction::AND_N => keeping(mem, binary_n(cpu, AluOp::And, d0)),
        Instruction::AND_HL => keeping(mem, binary_hl(cpu, mem, AluOp::And)),
        Instruction::XOR_R => keeping(mem, binary_r(cpu, AluOp::Xor, lo)),
        Instruction::XOR_N => keeping(mem, binary_n(cpu, AluOp::Xor, d0)),
        Instruction::XOR_HL => keeping(mem, binary_hl(cpu, mem, AluOp::Xor)),
        Instruction::OR_R => keeping(mem, binary_r(cpu, AluOp::Or, lo)),
        Instruction::OR_N => keeping(mem, binary_n(cpu, AluOp::Or, d0)),
        Instruction::OR_HL => keeping(mem, binary_hl(cpu, mem, AluOp::Or)),
        Instruction::CP_R => keeping(mem, binary_r(cpu, AluOp::Cp, lo)),
        Instruction::CP_N => keeping(mem, binary_n(cpu, AluOp::Cp, d0)),
        Instruction::CP_HL => keeping(mem, binary_hl(cpu, mem, AluOp::Cp)),
        Instruction::INC_R => keeping(mem, step_r(cpu, hi, true)),
        Instruction::INC_HL => step_hl(cpu, mem, true),
        Instruction::DEC_R => keeping(mem, step_r(cpu, hi, false)),
        Instruction::DEC_HL => step_hl(cpu, mem, false),
        Instruction::DAA => keeping(mem, daa_step(cpu)),
        Instruction::CPL => keeping(mem, cpl_step(cpu)),
        Instruction::ADD_HLRR => keeping(mem, add_hl_step(cpu, dd)),
        Instruction::ADD_SPN => keeping(mem, add_sp_step(cpu, d0)),
        Instruction::INC_RR => keeping(mem, step_rr(cpu, dd, true)),
        Instruction::DEC_RR => keeping(mem, step_rr(cpu, dd, false)),
        _ => failed(cpu, mem, Fault::UnexpectedOpcode(data.mnemonic, Mnemonic::ADD)),
    }
}

/// The sum and the difference of two bytes in eight bits, written without a
/// remainder.
pub proof fn lemma_wrapping(a: u8, b: u8)
    ensures
        add8_value(a, b, false) == (if a + b > 255 {
            a + b - 256
        } else {
            a + b
        }),
        sub8_value(a, b, false) == (if a < b {
            a - b + 256
        } else {
            a - b
        }),
{
}

/// A binary operation on `A` leaves the low nibble of `F` zero.
proof fn lemma_binary_keeps_flags_clean(cpu: CPU, mem: MmuView)
    requires
        cpu.spec_wf(),
    ensures
        forall|op: AluOp, code: u8| (#[trigger] binary_r(cpu, op, code)).cpu.spec_wf(),
        forall|op: AluOp, n: u8| (#[trigger] binary_n(cpu, op, n)).cpu.spec_wf(),
        forall|op: AluOp| (#[trigger] binary_hl(cpu, mem, op)).cpu.spec_wf(),
{
    crate::hardware::register_ops::lemma_packed_flags_are_clean();
    assert forall|op: AluOp, code: u8| (#[trigger] binary_r(cpu, op, code)).cpu.spec_wf() by {
        reveal(binary_r);
    }
    assert forall|op: AluOp, n: u8| (#[trigger] binary_n(cpu, op, n)).cpu.spec_wf() by {
        reveal(binary_n);
    }
    assert forall|op: AluOp| (#[trigger] binary_hl(cpu, mem, op)).cpu.spec_wf() by {
        reveal(binary_hl);
    }
}

/// An increment or decrement, an adjustment and a 16-bit addition leave the
/// low nibble of `F` zero.
proof fn lemma_unary_keeps_flags_clean(cpu: CPU, mem: MmuView)
    requires
        cpu.spec_wf(),
    ensures
        forall|code: u8, up: bool| (#[trigger] step_r(cpu, code, up)).cpu.spec_wf(),
        forall|up: bool| (#[trigger] step_hl(cpu, mem, up)).cpu.spec_wf(),
        forall|dd: u8, up: bool| (#[trigger] step_rr(cpu, dd, up)).cpu.spec_wf(),
        forall|dd: u8| (#[trigger] add_hl_step(cpu, dd)).cpu.spec_wf(),
        forall|e: u8| (#[trigger] add_sp_step(cpu, e)).cpu.spec_wf(),
        daa_step(cpu).cpu.spec_wf(),
        cpl_step(cpu).cpu.spec_wf(),
{
    crate::hardware::register_ops::lemma_packed_flags_are_clean();
    assert forall|code: u8, up: bool| (#[trigger] step_r(cpu, code, up)).cpu.spec_wf() by {
        reveal(step_r);
    }
    assert forall|up: bool| (#[trigger] step_hl(cpu, mem, up)).cpu.spec_wf() by {
        reveal(step_hl);
    }
    assert forall|dd: u8, up: bool| (#[trigger] step_rr(cpu, dd, up)).cpu.spec_wf() by {
        reveal(step_rr);
    }
    assert forall|dd: u8| (#[trigger] add_hl_step(cpu, dd)).cpu.spec_wf() by {
        reveal(add_hl_step);
    }
    assert forall|e: u8| (#[trigger] add_sp_step(cpu, e)).cpu.spec_wf() by {
        reveal(add_sp_step);
    }
    assert(daa_step(cpu).cpu.spec_wf()) by {
        reveal(daa_step);
    }
    assert(cpl_step(cpu).cpu.spec_wf()) by {
        reveal(cpl_step);
    }
}

/// An arithmetic or logic instruction leaves the low nibble of `F` zero.
pub proof fn lemma_alu_keeps_flags_clean(cpu: CPU, mem: MmuView, data: InstructionData, d0: u8)
    requires
        cpu.spec_wf(),
    ensures
        alu_step(cpu, mem, data, d0).cpu.spec_wf(),
{
    reveal(alu_step);
    lemma_binary_keeps_flags_clean(cpu, mem);
    lemma_unary_keeps_flags_clean(cpu, mem);
}

/// How a flag write under the masks of the increments and of the 16-bit
/// addition reads as arithmetic.
pub proof fn lemma_partial_masks(last: u8, flags: u8)
    by (bit_vector)
    requires
        last & 0x0F == 0,
        flags & 0x0F == 0,
    ensures
        ({
            &&& ((last & !0xE0u8) | (flags & 0xE0u8)) as int == (flags as int / 32) * 32 + ((last
                as int / 16) % 2) * 16
            &&& ((last & !0x70u8) | (flags & 0x70u8)) as int == (last as int / 128) * 128 + (flags
                as int % 128)
        }),
{
}

/// How the casts between unsigned and signed words read as arithmetic.
pub proof fn lemma_signed_casts(sp: u16, e: u8, r: i16)
    by (bit_vector)
    ensures
        ({
            &&& (sp as i16) as int == (if sp < 0x8000 {
                sp as int
            } else {
                sp as int - 0x10000
            })
            &&& ((e as i8) as i16) as int == (if e < 0x80 {
                e as int
            } else {
                e as int - 0x100
            })
            &&& (r as u16) as int == (if r >= 0 {
                r as int
            } else {
                r as int + 0x10000
            })
        }),
{
}

impl CPU {
    /// Carries out a binary operation on `A` and `value`.
    pub fn binary_op(&mut self, op: AluOp, value: u8)
        requires
            old(self).spec_wf(),
        ensures
            *final(self) == old(self).with_registers(after_binary(old(self).registers, op, value)),
            final(self).spec_wf(),
    {
        let a = *self.registers.a.get_value();
        let carry = self.registers.flag_register().c != 0;
        let result = match op {
            AluOp::Add => RegisterOp::new(a).add(value),
            AluOp::Adc => RegisterOp::new(a).add_with_carry(value, carry),
            AluOp::Sub => RegisterOp::new(a).sub(value),
            AluOp::Sbc => RegisterOp::new(a).sub_with_carry(value, carry),
            AluOp::And => RegisterOp::new(a).and(value),
            AluOp::Xor => RegisterOp::new(a).xor(value),
            AluOp::Or => RegisterOp::new(a).or(value),
            AluOp::Cp => RegisterOp::new(a).sub(value),
        };
        proof {
            lemma_masked_flags(self.registers.f.value, result.flags.0, 0xF0);
        }
        match op {
            AluOp::Cp => {},
            _ => { self.registers.a.set_value(result.value); },
        }
        self.registers.apply_flags(&result);
    }

    /// Adds the signed offset `e` to `SP` and gives the sum; `F` gets the
    /// flags of the addition, with Z clear.
    pub fn offset_stack_pointer(&mut self, e: u8) -> (r: u16)
        requires
            old(self).spec_wf(),
        ensures
            r == offset_word(old(self).registers.sp.value, e),
            *final(self) == old(self).with_registers(
                old(self).registers.with_f(offset_flags(old(self).registers.sp.value, e)),
            ),
            final(self).spec_wf(),
    {
        let sp = *self.registers.sp.get_value();
        let mut result = RegisterOp::new(#[verifier::truncate] (sp as i16)).add(
            (#[verifier::truncate] (e as i8)) as i16,
        );
        proof {
            lemma_signed_casts(sp, e, result.value);
            lemma_pack_flags(
                result.value == 0,
                false,
                (sp % 16) + (e % 16) > 15,
                (sp % 256) + e > 255,
            );
        }
        let h = Flags::from(&result.flags).h != 0;
        let c = Flags::from(&result.flags).c != 0;
        result.flags = FlagRegister::new(false, false, h, c);
        proof {
            lemma_masked_flags(self.registers.f.value, result.flags.0, 0xF0);
        }
        self.registers.apply_flags(&result);
        #[verifier::truncate]
        (result.value as u16)
    }

    /// A binary operation on `A` and the register that the selector names.
    fn binary_with_register(&mut self, op: AluOp, code: u8) -> (r: Result<u8, Error>)
        requires
            old(self).spec_wf(),
        ensures
            final(self).spec_wf(),
            *final(self) == binary_r(*old(self), op, code).cpu,
            agrees(r, binary_r(*old(self), op, code).result),
    {
        proof {
            reveal(binary_r);
        }
        let value = from_register(self.registers.read_reg(code))?;
        self.binary_op(op, value);
        Ok(1)
    }

    /// A binary operation on `A` and an operand byte.
    fn binary_with_operand(&mut self, op: AluOp, n: u8) -> (r: Result<u8, Error>)
        requires
            old(self).spec_wf(),
        ensures
            final(self).spec_wf(),
            *final(self) == binary_n(*old(self), op, n).cpu,
            agrees(r, binary_n(*old(self), op, n).result),
    {
        proof {
            reveal(binary_n);
        }
        self.binary_op(op, n);
        Ok(2)
    }

    /// A binary operation on `A` and the byte at `(HL)`.
    fn binary_with_memory(&mut self, op: AluOp, mmu: &MMU) -> (r: Result<u8, Error>)
        requires
            old(self).spec_wf(),
            mmu.wf(),
        ensures
            final(self).spec_wf(),
            *final(self) == binary_hl(*old(self), mmu@, op).cpu,
            agrees(r, binary_hl(*old(self), mmu@, op).result),
    {
        proof {
            reveal(binary_hl);
        }
        let value = from_mmu(mmu.read_byte(self.registers.hl()))?;
        self.binary_op(op, value);
        Ok(2)
    }

    /// The result of adding or taking away one, with the mask that leaves C
    /// alone.
    fn step_byte(value: u8, up: bool) -> (r: RegisterOpResult<u8>)
        ensures
            r.value == (if up {
                add8_value(value, 1, false)
            } else {
                sub8_value(value, 1, false)
            }),
            r.flags.0 & 0x0F == 0,
            forall|f: u8|
                f & 0x0F == 0 ==> #[trigger] masked_flags(f, r.flags.0, r.spec_mask()) == (if up {
                    inc_flags(f, value)
                } else {
                    dec_flags(f, value)
                }),
    {
        let mut result = if up {
            RegisterOp::new(value).add(1)
        } else {
            RegisterOp::new(value).sub(1)
        };
        result.set_mask(FlagRegister::new(true, true, true, false));
        proof {
            lemma_pack_flags(true, true, true, false);
            assert forall|f: u8| f & 0x0F == 0 implies #[trigger] masked_flags(
                f,
                result.flags.0,
                result.spec_mask(),
            ) == (if up {
                inc_flags(f, value)
            } else {
                dec_flags(f, value)
            }) by {
                lemma_partial_masks(f, result.flags.0);
                lemma_pack_flags(
                    add8_value(value, 1, false) == 0,
                    false,
                    value % 16 == 15,
                    carry_flag(f),
                );
                lemma_pack_flags(
                    sub8_value(value, 1, false) == 0,
                    true,
                    value % 16 == 0,
                    carry_flag(f),
                );
            }
        }
        result
    }

    /// `INC r` and `DEC r`.
    fn step_register(&mut self, code: u8, up: bool) -> (r: Result<u8, Error>)
        requires
            old(self).spec_wf(),
        ensures
            final(self).spec_wf(),
            *final(self) == step_r(*old(self), code, up).cpu,
            agrees(r, step_r(*old(self), code, up).result),
    {
        proof {
            reveal(step_r);
        }
        let value = from_register(self.registers.read_reg(code))?;
        let reg_op = Self::step_byte(value, up);
        from_register(self.registers.write_reg(code, reg_op.value))?;
        self.registers.apply_flags(&reg_op);
        Ok(1)
    }

    /// `INC (HL)` and `DEC (HL)`.
    fn step_memory(&mut self, mmu: &mut MMU, up: bool) -> (r: Result<u8, Error>)
        requires
            old(self).spec_wf(),
            old(mmu).wf(),
        ensures
            final(self).spec_wf(),
            final(mmu).wf(),
            *final(self) == step_hl(*old(self), old(mmu)@, up).cpu,
            final(mmu)@ == step_hl(*old(self), old(mmu)@, up).mem,
            agrees(r, step_hl(*old(self), old(mmu)@, up).result),
    {
        proof {
            reveal(step_hl);
        }
        let hl = self.registers.hl();
        let value = from_mmu(mmu.read_byte(hl))?;
        let result = Self::step_byte(value, up);
        from_mmu(mmu.write_byte(hl, result.value))?;
        self.registers.apply_flags(&result);
        Ok(3)
    }

    /// The decimal adjustment of `a` after an addition, under the flags H and
    /// C: the adjusted byte, and the new C.
    fn adjust_sum(a: u8, h: bool, c: bool) -> (r: (u8, bool))
        ensures
            r.0 == daa_adjusted(a, false, h, c),
            r.1 == (c || a > 0x99),
    {
        let mut a_value = a;
        let mut carry = c;
        if c || a_value > 0x99 {
            proof {
                lemma_wrapping(a_value, 0x60);
            }
            a_value = a_value.wrapping_add(0x60);
            carry = true;
        }
        proof {
            lemma_byte_fields(a_value);
            lemma_wrapping(a_value, 0x6);
        }
        if h || (a_value & 0x0f) > 0x09 {
            a_value = a_value.wrapping_add(0x6);
        }
        (a_value, carry)
    }

    /// The decimal adjustment of `a` after a subtraction, under the flags H
    /// and C.
    fn adjust_difference(a: u8, h: bool, c: bool) -> (r: u8)
        ensures
            r == daa_adjusted(a, true, h, c),
    {
        let mut a_value = a;
        if c {
            proof {
                lemma_wrapping(a_value, 0x60);
            }
            a_value = a_value.wrapping_sub(0x60);
        }
        if h {
            proof {
                lemma_wrapping(a_value, 0x6);
            }
            a_value = a_value.wrapping_sub(0x6);
        }
        a_value
    }

    /// The decimal adjustment of `a` under the flags N, H and C: the adjusted
    /// byte, and the new C.
    fn adjust(a: u8, n: bool, h: bool, c: bool) -> (r: (u8, bool))
        ensures
            r.0 == daa_adjusted(a, n, h, c),
            r.1 == (c || (!n && a > 0x99)),
    {
        if !n {
            Self::adjust_sum(a, h, c)
        } else {
            (Self::adjust_difference(a, h, c), c)
        }
    }

    /// `DAA`.
    fn decimal_adjust(&mut self) -> (r: Result<u8, Error>)
        requires
            old(self).spec_wf(),
        ensures
            final(self).spec_wf(),
            *final(self) == daa_step(*old(self)).cpu,
            agrees(r, daa_step(*old(self)).result),
    {
        proof {
            reveal(daa_step);
        }
        let mut flags = self.registers.flag_register();
        let (a_value, carry) = Self::adjust(
            *self.registers.a.get_value(),
            flags.n != 0,
            flags.h != 0,
            flags.c != 0,
        );
        flags.c = if carry {
            1
        } else {
            0
        };
        flags.z = if a_value == 0 {
            1
        } else {
            0
        };
        flags.h = 0;
        proof {
            lemma_pack_flags(flags.z != 0, flags.n != 0, flags.h != 0, flags.c != 0);
        }
        self.registers.f.set_value(FlagRegister::from(flags).0);
        self.registers.a.set_value(a_value);
        Ok(1)
    }

    /// `CPL`.
    fn complement(&mut self) -> (r: Result<u8, Error>)
        requires
            old(self).spec_wf(),
        ensures
            final(self).spec_wf(),
            *final(self) == cpl_step(*old(self)).cpu,
            agrees(r, cpl_step(*old(self)).result),
    {
        proof {
            reveal(cpl_step);
        }
        let flags = self.registers.flag_register();
        let a_value = *self.registers.a.get_value();
        self.registers.a.set_value(!a_value);
        self.registers.f.set_value(FlagRegister::new(flags.z != 0, true, true, flags.c != 0).0);
        Ok(1)
    }

    /// `ADD HL,rr`.
    fn add_to_hl(&mut self, dd: u8) -> (r: Result<u8, Error>)
        requires
            old(self).spec_wf(),
        ensures
            final(self).spec_wf(),
            *final(self) == add_hl_step(*old(self), dd).cpu,
            agrees(r, add_hl_step(*old(self), dd).result),
    {
        proof {
            reveal(add_hl_step);
        }
        let reg_value = from_register(self.registers.read_dd(dd))?;
        let hl = self.registers.hl();
        let mut result = RegisterOp::new(hl).add(reg_value);
        result.set_mask(FlagRegister::new(false, true, true, true));
        proof {
            lemma_partial_masks(self.registers.f.value, result.flags.0);
            lemma_pack_flags(false, true, true, true);
            lemma_pack_flags(
                result.value == 0,
                false,
                (hl % 4096) + (reg_value % 4096) > 4095,
                hl + reg_value > 65535,
            );
            lemma_pack_flags(
                zero_flag(self.registers.f.value),
                false,
                (hl % 4096) + (reg_value % 4096) > 4095,
                hl + reg_value > 65535,
            );
        }
        self.registers.hl_mut().set_value_16(result.value);
        self.registers.apply_flags(&result);
        Ok(2)
    }

    /// `ADD SP,e`.
    fn add_to_sp(&mut self, e: u8) -> (r: Result<u8, Error>)
        requires
            old(self).spec_wf(),
        ensures
            final(self).spec_wf(),
            *final(self) == add_sp_step(*old(self), e).cpu,
            agrees(r, add_sp_step(*old(self), e).result),
    {
        proof {
            reveal(add_sp_step);
        }
        let sp = self.offset_stack_pointer(e);
        self.registers.sp.set_value(sp);
        Ok(4)
    }

    /// `INC rr` and `DEC rr`.
    fn step_pair(&mut self, dd: u8, up: bool) -> (r: Result<u8, Error>)
        requires
            old(self).spec_wf(),
        ensures
            final(self).spec_wf(),
            *final(self) == step_rr(*old(self), dd, up).cpu,
            agrees(r, step_rr(*old(self), dd, up).result),
    {
        proof {
            reveal(step_rr);
        }
        let value = from_register(self.registers.read_dd(dd))?;
        if up {
            let result = value.wrapping_add(1);
            from_register(self.registers.write_dd(dd, result))?;
        } else {
            let mut result = RegisterOp::new(value).sub(1);
            result.set_mask(FlagRegister::new(false, false, false, false));
            proof {
                lemma_masked_flags(self.registers.f.value, result.flags.0, 0);
                lemma_pack_flags(false, false, false, false);
            }
            from_register(self.registers.write_dd(dd, result.value))?;
            self.registers.apply_flags(&result);
        }
        Ok(2)
    }

    /// Carries out an arithmetic or logic instruction and gives the machine
    /// cycles it took.
    pub fn evaluate_alu(
        &mut self,
        instruction_data: &InstructionData,
        opcode_data: &[u8; 2],
        mmu: &mut MMU,
    ) -> (r: Result<u8, Error>)
        requires
            old(self).spec_wf(),
            old(mmu).wf(),
        ensures
            final(self).spec_wf(),
            final(mmu).wf(),
            *final(self) == alu_step(*old(self), old(mmu)@, *instruction_data, opcode_data[0]).cpu,
            final(mmu)@ == alu_step(*old(self), old(mmu)@, *instruction_data, opcode_data[0]).mem,
            agrees(r, alu_step(*old(self), old(mmu)@, *instruction_data, opcode_data[0]).result),
    {
        proof {
            reveal(alu_step);
        }
        let lo = instruction_data.byte_data.rhs;
        let hi = instruction_data.byte_data.lhs;
        let n = opcode_data[0];
        proof {
            lemma_byte_fields(hi);
        }
        match instruction_data.instruction {
            Instruction::ADD_AR => self.binary_with_register(AluOp::Add, lo),
            Instruction::ADD_AN => self.binary_with_operand(AluOp::Add, n),
            Instruction::ADD_AHL => self.binary_with_memory(AluOp::Add, mmu),
            Instruction::ADC_AR => self.binary_with_register(AluOp::Adc, lo),
            Instruction::ADC_AN => self.binary_with_operand(AluOp::Adc, n),
            Instruction::ADC_AHL => self.binary_with_memory(AluOp::Adc, mmu),
            Instruction::SUB_R => self.binary_with_register(AluOp::Sub, lo),
            Instruction::SUB_N => self.binary_with_operand(AluOp::Sub, n),
            Instruction::SUB_HL => self.binary_with_memory(AluOp::Sub, mmu),
            Instruction::SBC_AR => self.binary_with_register(AluOp::Sbc, lo),
            Instruction::SBC_AN => self.binary_with_operand(AluOp::Sbc, n),
            Instruction::SBC_AHL => self.binary_with_memory(AluOp::Sbc, mmu),
            Instruction::AND_R => self.binary_with_register(AluOp::And, lo),
            Instruction::AND_N => self.binary_with_operand(AluOp::And, n),
            Instruction::AND_HL => self.binary_with_memory(AluOp::And, mmu),
            Instruction::XOR_R => self.binary_with_register(AluOp::Xor, lo),
            Instruction::XOR_N => self.binary_with_operand(AluOp::Xor, n),
            Instruction::XOR_HL => self.binary_with_memory(AluOp::Xor, mmu),
            Instruction::OR_R => self.binary_with_register(AluOp::Or, lo),
            Instruction::OR_N => self.binary_with_operand(AluOp::Or, n),
            Instruction::OR_HL => self.binary_with_memory(AluOp::Or, mmu),
            Instruction::CP_R => self.binary_with_register(AluOp::Cp, lo),
            Instruction::CP_N => self.binary_with_operand(AluOp::Cp, n),
            Instruction::CP_HL => self.binary_with_memory(AluOp::Cp, mmu),
            Instruction::INC_R => self.step_register(hi, true),
            Instruction::INC_HL => self.step_memory(mmu, true),
            Instruction::DEC_R => self.step_register(hi, false),
            Instruction::DEC_HL => self.step_memory(mmu, false),
            Instruction::DAA => self.decimal_adjust(),
            Instruction::CPL => self.complement(),
            Instruction::ADD_HLRR => self.add_to_hl(hi >> 1),
            Instruction::ADD_SPN => self.add_to_sp(n),
            Instruction::INC_RR => self.step_pair(hi >> 1, true),
            Instruction::DEC_RR => self.step_pair(hi >> 1, false),
            _ => Err(unexpected_op(&instruction_data.mnemonic, &Mnemonic::ADD)),
        }
    }
}

} // verus!
