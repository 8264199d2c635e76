//! The register file, and the selectors by which an opcode names a register
//! or a register pair.

use crate::hardware::mmu::Error as MmuError;
use crate::hardware::register_ops::{
    carry_flag, flags_of, lemma_flag_bits, masked_flags, zero_flag, Flags, FlagRegister,
    RegisterOpResult,
};
use crate::util::byte_ops::{
    hi_lo_combine, high_byte, low_byte, split_hi, split_lo, word_of,
};
use crate::util::text::{binary_of_four, format_binary_of_four, format_hex, upper_hex};
use vstd::prelude::*;
use vstd::string::StringExecFns;

verus! {

/// Why a register could not be found or updated.
#[derive(Debug, Clone, Copy, PartialEq, Eq, Structural)]
pub enum RegisterError {
    /// A selector that names no register.
    InvalidLookupInput,
    /// A checked update that left the register's range, or an access of the
    /// wrong width.
    CheckedFailure,
    MmuError(MmuError),
}

impl From<MmuError> for RegisterError {
    fn from(mmu_error: MmuError) -> (r: Self) {
        RegisterError::MmuError(mmu_error)
    }
}

impl vstd::std_specs::convert::FromSpecImpl<MmuError> for RegisterError {
    open spec fn obeys_from_spec() -> bool {
        true
    }

    open spec fn from_spec(mmu_error: MmuError) -> Self {
        RegisterError::MmuError(mmu_error)
    }
}

/// The names of the registers.
#[derive(Debug, Clone, Copy, PartialEq, Eq, Structural)]
pub enum RegisterType {
    A,
    B,
    C,
    D,
    E,
    H,
    L,
    F,
    PC,
    SP,
}

/// One register: its value and its name.
#[derive(Debug)]
pub struct Register<T> {
    pub value: T,
    pub tag: RegisterType,
}

/// Reading and updating a register's value.
pub trait TRegister: Sized {
    type ValueType;

    /// The value that the register holds.
    spec fn spec_value(&self) -> Self::ValueType;

    /// The register with another value and the same name.
    spec fn spec_with_value(&self, value: Self::ValueType) -> Self;

    /// Stores what `f` makes of the value. Where `f` gives no value the
    /// register is left alone and the update fails as a checked failure;
    /// where `f` fails, the update fails in the same way.
    fn update_value_checked<F>(&mut self, f: F) -> (r: Result<(), RegisterError>)
        where
            F: FnMut(&Self::ValueType) -> Result<Option<Self::ValueType>, RegisterError>,
        requires
            f.requires((&old(self).spec_value(),)),
        ensures
            exists|out: Result<Option<Self::ValueType>, RegisterError>|
                #[trigger] f.ensures((&old(self).spec_value(),), out) && match out {
                    Ok(Some(value)) => r is Ok && *final(self) == old(self).spec_with_value(value),
                    Ok(None) => r == Err::<(), RegisterError>(RegisterError::CheckedFailure)
                        && *final(self) == *old(self),
                    Err(e) => r == Err::<(), RegisterError>(e) && *final(self) == *old(self),
                },
    ;

    /// Stores what `f` makes of the value.
    fn update_value_wrapped<F>(&mut self, f: F)
        where
            F: FnMut(Self::ValueType) -> Self::ValueType,
        requires
            f.requires((old(self).spec_value(),)),
        ensures
            exists|out: Self::ValueType|
                #[trigger] f.ensures((old(self).spec_value(),), out) && *final(self) == old(
                    self,
                ).spec_with_value(out),
    ;

    fn get_value(&self) -> (r: &Self::ValueType)
        ensures
            *r == self.spec_value(),
    ;

    fn set_value(&mut self, value: Self::ValueType)
        ensures
            *final(self) == old(self).spec_with_value(value),
    ;
}

impl<T: Copy> TRegister for Register<T> {
    type ValueType = T;

    open spec fn spec_value(&self) -> T {
        self.value
    }

    open spec fn spec_with_value(&self, value: T) -> Self {
        Register { value, tag: self.tag }
    }

    fn update_value_checked<F>(&mut self, mut f: F) -> (r: Result<(), RegisterError>)
        where
            F: FnMut(&T) -> Result<Option<T>, RegisterError>,
    {
        let result = match f(&self.value) {
            Ok(Some(value)) => value,
            Ok(None) => {
                return Err(RegisterError::CheckedFailure);
            },
            Err(e) => {
                return Err(e);
            },
        };
        self.value = result;
        Ok(())
    }

    fn update_value_wrapped<F>(&mut self, mut f: F)
        where
            F: FnMut(T) -> T,
    {
        let result = f(self.value);
        self.value = result;
    }

    fn get_value(&self) -> (r: &T) {
        &self.value
    }

    fn set_value(&mut self, value: T) {
        self.value = value;
    }
}

impl<T> Register<T> {
    /// A register with a value and a name.
    pub fn new(value: T, tag: RegisterType) -> (r: Self)
        ensures
            r.value == value,
            r.tag == tag,
    {
        Self { value, tag }
    }
}

/// A register picked by a selector, open for writing.
#[derive(Debug)]
pub enum RegisterRefMut<'a> {
    Byte(&'a mut Register<u8>),
    Flag(&'a mut Register<u8>),
    PC(&'a mut Register<u16>),
    SP(&'a mut Register<u16>),
}

impl<'a> RegisterRefMut<'a> {
    /// Stores a byte in an 8-bit register; fails on a 16-bit one.
    pub fn set_eight_bit_val(&mut self, value: u8) -> (r: Result<(), RegisterError>)
        ensures
            match (*old(self), *final(self)) {
                (RegisterRefMut::Byte(p), RegisterRefMut::Byte(q)) => {
                    &&& r == Ok::<(), RegisterError>(())
                    &&& *q == (Register { value, tag: p.tag })
                    &&& *final(q) == *final(p)
                },
                (RegisterRefMut::Flag(p), RegisterRefMut::Flag(q)) => {
                    &&& r == Ok::<(), RegisterError>(())
                    &&& *q == (Register { value, tag: p.tag })
                    &&& *final(q) == *final(p)
                },
                (RegisterRefMut::PC(p), RegisterRefMut::PC(q)) => r == Err::<(), RegisterError>(
                    RegisterError::CheckedFailure,
                ) && *q == *p && *final(q) == *final(p),
                (RegisterRefMut::SP(p), RegisterRefMut::SP(q)) => r == Err::<(), RegisterError>(
                    RegisterError::CheckedFailure,
                ) && *q == *p && *final(q) == *final(p),
                _ => false,
            },
    {
        match self {
            RegisterRefMut::Byte(byte_reg) => {
                byte_reg.set_value(value);
                Ok(())
            },
            RegisterRefMut::Flag(flag_reg) => {
                flag_reg.set_value(value);
                Ok(())
            },
            _ => Err(RegisterError::CheckedFailure),
        }
    }

    /// Stores a word in a 16-bit register; fails on an 8-bit one.
    pub fn set_sixtn_bit_val(&mut self, value: u16) -> (r: Result<(), RegisterError>)
        ensures
            match (*old(self), *final(self)) {
                (RegisterRefMut::PC(p), RegisterRefMut::PC(q)) => {
                    &&& r == Ok::<(), RegisterError>(())
                    &&& *q == (Register { value, tag: p.tag })
                    &&& *final(q) == *final(p)
                },
                (RegisterRefMut::SP(p), RegisterRefMut::SP(q)) => {
                    &&& r == Ok::<(), RegisterError>(())
                    &&& *q == (Register { value, tag: p.tag })
                    &&& *final(q) == *final(p)
                },
                (RegisterRefMut::Byte(p), RegisterRefMut::Byte(q)) => r == Err::<(), RegisterError>(
                    RegisterError::CheckedFailure,
                ) && *q == *p && *final(q) == *final(p),
                (RegisterRefMut::Flag(p), RegisterRefMut::Flag(q)) => r == Err::<(), RegisterError>(
                    RegisterError::CheckedFailure,
                ) && *q == *p && *final(q) == *final(p),
                _ => false,
            },
    {
        match self {
            RegisterRefMut::SP(stack_pointer) => {
                stack_pointer.set_value(value);
                Ok(())
            },
            RegisterRefMut::PC(pc) => {
                pc.set_value(value);
                Ok(())
            },
            _ => Err(RegisterError::CheckedFailure),
        }
    }

    /// The byte of an 8-bit register; fails on a 16-bit one.
    pub fn get_eight_bit_val(&self) -> (r: Result<u8, RegisterError>)
        ensures
            r == match *self {
                RegisterRefMut::Byte(p) => Ok::<u8, RegisterError>(p.value),
                RegisterRefMut::Flag(p) => Ok::<u8, RegisterError>(p.value),
                _ => Err::<u8, RegisterError>(RegisterError::CheckedFailure),
            },
    {
        match self {
            RegisterRefMut::Byte(byte_reg) => Ok(*byte_reg.get_value()),
            RegisterRefMut::Flag(flag_reg) => Ok(*flag_reg.get_value()),
            _ => Err(RegisterError::CheckedFailure),
        }
    }

    /// The word of a 16-bit register; fails on an 8-bit one.
    pub fn get_sixtn_bit_val(&self) -> (r: Result<u16, RegisterError>)
        ensures
            r == match *self {
                RegisterRefMut::SP(p) => Ok::<u16, RegisterError>(p.value),
                RegisterRefMut::PC(p) => Ok::<u16, RegisterError>(p.value),
                _ => Err::<u16, RegisterError>(RegisterError::CheckedFailure),
            },
    {
        match self {
            RegisterRefMut::SP(stack_pointer) => Ok(*stack_pointer.get_value()),
            RegisterRefMut::PC(pc) => Ok(*pc.get_value()),
            _ => Err(RegisterError::CheckedFailure),
        }
    }
}

/// A register pair picked by a selector, open for writing: two 8-bit registers
/// read as one word, or one 16-bit register.
#[derive(Debug)]
pub enum RegisterPair<'a> {
    EightBit(&'a mut Register<u8>, &'a mut Register<u8>),
    SixteenBit(&'a mut Register<u16>),
}

impl<'a> RegisterPair<'a> {
    /// Stores the high and the low byte.
    pub fn set_value(&mut self, lhs: u8, rhs: u8)
        ensures
            match (*old(self), *final(self)) {
                (RegisterPair::EightBit(high, low), RegisterPair::EightBit(new_high, new_low)) => {
                    &&& *new_high == (Register { value: lhs, tag: high.tag })
                    &&& *new_low == (Register { value: rhs, tag: low.tag })
                    &&& *final(new_high) == *final(high)
                    &&& *final(new_low) == *final(low)
                },
                (RegisterPair::SixteenBit(p), RegisterPair::SixteenBit(q)) => {
                    &&& *q == (Register { value: word_of(lhs, rhs), tag: p.tag })
                    &&& *final(q) == *final(p)
                },
                _ => false,
            },
    {
        match self {
            RegisterPair::EightBit(lhs_reg, rhs_reg) => {
                lhs_reg.set_value(lhs);
                rhs_reg.set_value(rhs)
            },
            RegisterPair::SixteenBit(reg) => { reg.set_value(hi_lo_combine(lhs, rhs)) },
        }
    }

    /// Stores a word.
    pub fn set_value_16(&mut self, value: u16)
        ensures
            match (*old(self), *final(self)) {
                (RegisterPair::EightBit(high, low), RegisterPair::EightBit(new_high, new_low)) => {
                    &&& *new_high == (Register { value: high_byte(value), tag: high.tag })
                    &&& *new_low == (Register { value: low_byte(value), tag: low.tag })
                    &&& *final(new_high) == *final(high)
                    &&& *final(new_low) == *final(low)
                },
                (RegisterPair::SixteenBit(p), RegisterPair::SixteenBit(q)) => {
                    &&& *q == (Register { value, tag: p.tag })
                    &&& *final(q) == *final(p)
                },
                _ => false,
            },
    {
        let lhs = split_hi(value);
        let rhs = split_lo(value);
        self.set_value(lhs, rhs)
    }

    /// The word that the pair holds.
    pub fn get_value(&self) -> (r: u16)
        ensures
            r == match *self {
                RegisterPair::EightBit(high, low) => word_of(high.value, low.value),
                RegisterPair::SixteenBit(p) => p.value,
            },
    {
        match self {
            RegisterPair::EightBit(lhs, rhs) => hi_lo_combine(lhs.value, rhs.value),
            RegisterPair::SixteenBit(reg) => reg.value,
        }
    }
}

/// The register file.
#[derive(Debug)]
pub struct Registers {
    pub a: Register<u8>,
    pub b: Register<u8>,
    pub c: Register<u8>,
    pub d: Register<u8>,
    pub e: Register<u8>,
    pub h: Register<u8>,
    pub l: Register<u8>,
    pub f: Register<u8>,
    pub pc: Register<u16>,
    pub sp: Register<u16>,
}

impl Registers {
    /// The low nibble of `F` is zero.
    pub open spec fn wf(&self) -> bool {
        self.f.value & 0x0F == 0
    }

    /// The pair `BC`: `B` is the high byte.
    pub open spec fn spec_bc(&self) -> u16 {
        word_of(self.b.value, self.c.value)
    }

    /// The pair `DE`: `D` is the high byte.
    pub open spec fn spec_de(&self) -> u16 {
        word_of(self.d.value, self.e.value)
    }

    /// The pair `HL`: `H` is the high byte.
    pub open spec fn spec_hl(&self) -> u16 {
        word_of(self.h.value, self.l.value)
    }

    /// The pair `AF`: `A` is the high byte.
    pub open spec fn spec_af(&self) -> u16 {
        word_of(self.a.value, self.f.value)
    }

    /// The register file with another value in `A`.
    pub open spec fn with_a(self, value: u8) -> Registers {
        Registers { a: Register { value, tag: self.a.tag }, ..self }
    }

    /// The register file with another value in `F`.
    pub open spec fn with_f(self, value: u8) -> Registers {
        Registers { f: Register { value, tag: self.f.tag }, ..self }
    }

    /// The register file with another program counter.
    pub open spec fn with_pc(self, value: u16) -> Registers {
        Registers { pc: Register { value, tag: self.pc.tag }, ..self }
    }

    /// The register file with another stack pointer.
    pub open spec fn with_sp(self, value: u16) -> Registers {
        Registers { sp: Register { value, tag: self.sp.tag }, ..self }
    }

    /// The register file with a word in `BC`.
    pub open spec fn with_bc(self, value: u16) -> Registers {
        Registers {
            b: Register { value: high_byte(value), tag: self.b.tag },
            c: Register { value: low_byte(value), tag: self.c.tag },
            ..self
        }
    }

    /// The register file with a word in `DE`.
    pub open spec fn with_de(self, value: u16) -> Registers {
        Registers {
            d: Register { value: high_byte(value), tag: self.d.tag },
            e: Register { value: low_byte(value), tag: self.e.tag },
            ..self
        }
    }

    /// The register file with a word in `HL`.
    pub open spec fn with_hl(self, value: u16) -> Registers {
        Registers {
            h: Register { value: high_byte(value), tag: self.h.tag },
            l: Register { value: low_byte(value), tag: self.l.tag },
            ..self
        }
    }

    /// The register file with a word in `AF`, low nibble and all.
    pub open spec fn with_af(self, value: u16) -> Registers {
        Registers {
            a: Register { value: high_byte(value), tag: self.a.tag },
            f: Register { value: low_byte(value), tag: self.f.tag },
            ..self
        }
    }

    /// The 8-bit register that a 3-bit selector names: `000` B, `001` C,
    /// `010` D, `011` E, `100` H, `101` L, `111` A. The selector `110` stands
    /// for memory and names no register.
    pub open spec fn r8(&self, code: u8) -> Option<u8> {
        match code {
            0b111 => Some(self.a.value),
            0b000 => Some(self.b.value),
            0b001 => Some(self.c.value),
            0b010 => Some(self.d.value),
            0b011 => Some(self.e.value),
            0b100 => Some(self.h.value),
            0b101 => Some(self.l.value),
            _ => None,
        }
    }

    /// The register file with a byte in the register that a selector names;
    /// unchanged where it names none.
    pub open spec fn with_r8(self, code: u8, value: u8) -> Registers {
        match code {
            0b111 => Registers { a: Register { value, tag: self.a.tag }, ..self },
            0b000 => Registers { b: Register { value, tag: self.b.tag }, ..self },
            0b001 => Registers { c: Register { value, tag: self.c.tag }, ..self },
            0b010 => Registers { d: Register { value, tag: self.d.tag }, ..self },
            0b011 => Registers { e: Register { value, tag: self.e.tag }, ..self },
            0b100 => Registers { h: Register { value, tag: self.h.tag }, ..self },
            0b101 => Registers { l: Register { value, tag: self.l.tag }, ..self },
            _ => self,
        }
    }

    /// The pair that a 2-bit `dd` selector names: `00` BC, `01` DE, `10` HL,
    /// `11` SP.
    pub open spec fn dd(&self, code: u8) -> Option<u16> {
        match code {
            0b00 => Some(self.spec_bc()),
            0b01 => Some(self.spec_de()),
            0b10 => Some(self.spec_hl()),
            0b11 => Some(self.sp.value),
            _ => None,
        }
    }

    /// The register file with a word in the pair that a `dd` selector names.
    pub open spec fn with_dd(self, code: u8, value: u16) -> Registers {
        match code {
            0b00 => self.with_bc(value),
            0b01 => self.with_de(value),
            0b10 => self.with_hl(value),
            0b11 => self.with_sp(value),
            _ => self,
        }
    }

    /// The pair that a 2-bit `qq` selector names: as `dd`, but `11` is AF.
    pub open spec fn qq(&self, code: u8) -> Option<u16> {
        match code {
            0b11 => Some(self.spec_af()),
            _ => self.dd(code),
        }
    }

    /// The register file with a word in the pair that a `qq` selector names.
    pub open spec fn with_qq(self, code: u8, value: u16) -> Registers {
        match code {
            0b11 => self.with_af(value),
            _ => self.with_dd(code, value),
        }
    }

    /// Whether the condition that a 2-bit code names holds: `00` NZ, `01` Z,
    /// `10` NC, `11` C.
    pub open spec fn condition(&self, cc: u8) -> Option<bool> {
        match cc {
            0b00 => Some(!zero_flag(self.f.value)),
            0b01 => Some(zero_flag(self.f.value)),
            0b10 => Some(!carry_flag(self.f.value)),
            0b11 => Some(carry_flag(self.f.value)),
            _ => None,
        }
    }

    /// The register file after the boot program has run.
    pub fn new() -> (r: Registers)
        ensures
            r.a == (Register { value: 0x01u8, tag: RegisterType::A }),
            r.b == (Register { value: 0x00u8, tag: RegisterType::B }),
            r.c == (Register { value: 0x13u8, tag: RegisterType::C }),
            r.d == (Register { value: 0x00u8, tag: RegisterType::D }),
            r.e == (Register { value: 0xD8u8, tag: RegisterType::E }),
            r.h == (Register { value: 0x01u8, tag: RegisterType::H }),
            r.l == (Register { value: 0x4Du8, tag: RegisterType::L }),
            r.f == (Register { value: 0xB0u8, tag: RegisterType::F }),
            r.pc == (Register { value: 0x100u16, tag: RegisterType::PC }),
            r.sp == (Register { value: 0xFFFEu16, tag: RegisterType::SP }),
            r.wf(),
    {
        proof {
            lemma_flag_bits(0xB0);
        }
        Registers {
            a: Register::new(0x01, RegisterType::A),
            b: Register::new(0x00, RegisterType::B),
            c: Register::new(0x13, RegisterType::C),
            d: Register::new(0x00, RegisterType::D),
            e: Register::new(0xD8, RegisterType::E),
            h: Register::new(0x01, RegisterType::H),
            l: Register::new(0x4D, RegisterType::L),
            f: Register::new(0xB0, RegisterType::F),
            pc: Register::new(0x100, RegisterType::PC),
            sp: Register::new(0xFFFE, RegisterType::SP),
        }
    }

    /// The four flags of `F`.
    pub fn flag_register(&self) -> (r: Flags)
        ensures
            r == flags_of(self.f.value),
    {
        Flags::from(&FlagRegister(self.f.value))
    }

    /// The word in `BC`.
    pub fn bc(&self) -> (r: u16)
        ensures
            r == self.spec_bc(),
    {
        hi_lo_combine(self.b.value, self.c.value)
    }

    /// The word in `DE`.
    pub fn de(&self) -> (r: u16)
        ensures
            r == self.spec_de(),
    {
        hi_lo_combine(self.d.value, self.e.value)
    }

    /// The word in `HL`.
    pub fn hl(&self) -> (r: u16)
        ensures
            r == self.spec_hl(),
    {
        hi_lo_combine(self.h.value, self.l.value)
    }

    /// The word in `AF`.
    pub fn af(&self) -> (r: u16)
        ensures
            r == self.spec_af(),
    {
        hi_lo_combine(self.a.value, self.f.value)
    }

    /// The pair `BC`, open for writing.
    pub fn bc_mut(&mut self) -> (r: RegisterPair<'_>)
        ensures
            r matches RegisterPair::EightBit(p, q) && *p == old(self).b && *q == old(self).c
                && *final(self) == (Registers { b: *final(p), c: *final(q), ..*old(self) }),
    {
        RegisterPair::EightBit(&mut self.b, &mut self.c)
    }

    /// The pair `DE`, open for writing.
    pub fn de_mut(&mut self) -> (r: RegisterPair<'_>)
        ensures
            r matches RegisterPair::EightBit(p, q) && *p == old(self).d && *q == old(self).e
                && *final(self) == (Registers { d: *final(p), e: *final(q), ..*old(self) }),
    {
        RegisterPair::EightBit(&mut self.d, &mut self.e)
    }

    /// The pair `HL`, open for writing.
    pub fn hl_mut(&mut self) -> (r: RegisterPair<'_>)
        ensures
            r matches RegisterPair::EightBit(p, q) && *p == old(self).h && *q == old(self).l
                && *final(self) == (Registers { h: *final(p), l: *final(q), ..*old(self) }),
    {
        RegisterPair::EightBit(&mut self.h, &mut self.l)
    }

    /// The pair `AF`, open for writing.
    pub fn af_mut(&mut self) -> (r: RegisterPair<'_>)
        ensures
            r matches RegisterPair::EightBit(p, q) && *p == old(self).a && *q == old(self).f
                && *final(self) == (Registers { a: *final(p), f: *final(q), ..*old(self) }),
    {
        RegisterPair::EightBit(&mut self.a, &mut self.f)
    }

    /// Lets `f` work on the register file.
    pub fn update<F>(&mut self, mut f: F)
        where
            F: FnMut(&mut Self),
        requires
            forall|r: &mut Registers| *r == *old(self) ==> #[trigger] f.requires((r,)),
        ensures
            exists|r: &mut Registers|
                *r == *old(self) && *final(r) == *final(self) && #[trigger] f.ensures((r,), ()),
    {
        f(self)
    }

    /// Runs an operation that reads the register file, writes its flags to
    /// `F` under its mask, and gives its value.
    pub fn op<F, T>(&mut self, mut f: F) -> (r: T)
        where
            F: FnMut(&Self) -> RegisterOpResult<T>,
        requires
            f.requires((&*old(self),)),
        ensures
            exists|result: RegisterOpResult<T>|
                #[trigger] f.ensures((&*old(self),), result) && r == result.value && *final(self)
                    == old(self).with_f(
                    masked_flags(old(self).f.value, result.flags.0, result.spec_mask()),
                ),
    {
        let result = f(self);
        let flags = result.get_masked_value(self.f.value);
        self.f.set_value(flags);
        result.value
    }

    /// Runs an operation that may change the register file or fail. Where it
    /// succeeds, its flags are written to `F` under its mask and its value is
    /// given; where it fails, the register file stays as the operation left
    /// it.
    pub fn op_with_effect<F, T>(&mut self, mut f: F) -> (r: Result<T, RegisterError>)
        where
            F: FnMut(&mut Self) -> Result<RegisterOpResult<T>, RegisterError>,
        requires
            forall|r: &mut Registers| *r == *old(self) ==> #[trigger] f.requires((r,)),
        ensures
            exists|regs: &mut Registers, out: Result<RegisterOpResult<T>, RegisterError>|
                *regs == *old(self) && #[trigger] f.ensures((regs,), out) && match out {
                    Ok(result) => r == Ok::<T, RegisterError>(result.value) && *final(self)
                        == final(regs).with_f(
                        masked_flags(final(regs).f.value, result.flags.0, result.spec_mask()),
                    ),
                    Err(e) => r == Err::<T, RegisterError>(e) && *final(self) == *final(regs),
                },
    {
        let result = f(self)?;
        let flags = result.get_masked_value(self.f.value);
        self.f.set_value(flags);
        Ok(result.value)
    }

    /// The 8-bit register that a 3-bit selector names.
    pub fn reg_from_byte(&mut self, value: u8) -> (r: Result<RegisterRefMut<'_>, RegisterError>)
        ensures
            match value {
                0b111 => r matches Ok(RegisterRefMut::Byte(p)) && *p == old(self).a && *final(self)
                    == (Registers { a: *final(p), ..*old(self) }),
                0b000 => r matches Ok(RegisterRefMut::Byte(p)) && *p == old(self).b && *final(self)
                    == (Registers { b: *final(p), ..*old(self) }),
                0b001 => r matches Ok(RegisterRefMut::Byte(p)) && *p == old(self).c && *final(self)
                    == (Registers { c: *final(p), ..*old(self) }),
                0b010 => r matches Ok(RegisterRefMut::Byte(p)) && *p == old(self).d && *final(self)
                    == (Registers { d: *final(p), ..*old(self) }),
                0b011 => r matches Ok(RegisterRefMut::Byte(p)) && *p == old(self).e && *final(self)
                    == (Registers { e: *final(p), ..*old(self) }),
                0b100 => r matches Ok(RegisterRefMut::Byte(p)) && *p == old(self).h && *final(self)
                    == (Registers { h: *final(p), ..*old(self) }),
                0b101 => r matches Ok(RegisterRefMut::Byte(p)) && *p == old(self).l && *final(self)
                    == (Registers { l: *final(p), ..*old(self) }),
                _ => r matches Err(RegisterError::InvalidLookupInput) && *final(self) == *old(self),
            },
    {
        match value {
            0b111 => Ok(RegisterRefMut::Byte(&mut self.a)),
            0b000 => Ok(RegisterRefMut::Byte(&mut self.b)),
            0b001 => Ok(RegisterRefMut::Byte(&mut self.c)),
            0b010 => Ok(RegisterRefMut::Byte(&mut self.d)),
            0b011 => Ok(RegisterRefMut::Byte(&mut self.e)),
            0b100 => Ok(RegisterRefMut::Byte(&mut self.h)),
            0b101 => Ok(RegisterRefMut::Byte(&mut self.l)),
            _ => Err(RegisterError::InvalidLookupInput),
        }
    }

    /// The pair that a `dd` selector names.
    pub fn reg_pair_from_dd(&mut self, value: u8) -> (r: Result<RegisterPair<'_>, RegisterError>)
        ensures
            match value {
                0b00 => r matches Ok(RegisterPair::EightBit(p, q)) && *p == old(self).b && *q
                    == old(self).c && *final(self) == (Registers {
                    b: *final(p),
                    c: *final(q),
                    ..*old(self)
                }),
                0b01 => r matches Ok(RegisterPair::EightBit(p, q)) && *p == old(self).d && *q
                    == old(self).e && *final(self) == (Registers {
                    d: *final(p),
                    e: *final(q),
                    ..*old(self)
                }),
                0b10 => r matches Ok(RegisterPair::EightBit(p, q)) && *p == old(self).h && *q
                    == old(self).l && *final(self) == (Registers {
                    h: *final(p),
                    l: *final(q),
                    ..*old(self)
                }),
                0b11 => r matches Ok(RegisterPair::SixteenBit(p)) && *p == old(self).sp
                    && *final(self) == (Registers { sp: *final(p), ..*old(self) }),
                _ => r matches Err(RegisterError::InvalidLookupInput) && *final(self) == *old(self),
            },
    {
        match value {
            0b00 => Ok(RegisterPair::EightBit(&mut self.b, &mut self.c)),
            0b01 => Ok(RegisterPair::EightBit(&mut self.d, &mut self.e)),
            0b10 => Ok(RegisterPair::EightBit(&mut self.h, &mut self.l)),
            0b11 => Ok(RegisterPair::SixteenBit(&mut self.sp)),
            _ => Err(RegisterError::InvalidLookupInput),
        }
    }

    /// The pair that a `qq` selector names.
    pub fn reg_pair_from_qq(&mut self, value: u8) -> (r: Result<RegisterPair<'_>, RegisterError>)
        ensures
            match value {
                0b00 => r matches Ok(RegisterPair::EightBit(p, q)) && *p == old(self).b && *q
                    == old(self).c && *final(self) == (Registers {
                    b: *final(p),
                    c: *final(q),
                    ..*old(self)
                }),
                0b01 => r matches Ok(RegisterPair::EightBit(p, q)) && *p == old(self).d && *q
                    == old(self).e && *final(self) == (Registers {
                    d: *final(p),
                    e: *final(q),
                    ..*old(self)
                }),
                0b10 => r matches Ok(RegisterPair::EightBit(p, q)) && *p == old(self).h && *q
                    == old(self).l && *final(self) == (Registers {
                    h: *final(p),
                    l: *final(q),
                    ..*old(self)
                }),
                0b11 => r matches Ok(RegisterPair::EightBit(p, q)) && *p == old(self).a && *q
                    == old(self).f && *final(self) == (Registers {
                    a: *final(p),
                    f: *final(q),
                    ..*old(self)
                }),
                _ => r matches Err(RegisterError::InvalidLookupInput) && *final(self) == *old(self),
            },
    {
        match value {
            0b11 => Ok(RegisterPair::EightBit(&mut self.a, &mut self.f)),
            _ => self.reg_pair_from_dd(value),
        }
    }

    /// Whether the condition that a 2-bit code names holds.
    pub fn jump_condition(&self, cc: u8) -> (r: Result<bool, RegisterError>)
        ensures
            r == match self.condition(cc) {
                Some(holds) => Ok::<bool, RegisterError>(holds),
                None => Err::<bool, RegisterError>(RegisterError::InvalidLookupInput),
            },
    {
        let flags = self.flag_register();
        match cc {
            0b00 => Ok(flags.z == 0),
            0b01 => Ok(flags.z == 1),
            0b10 => Ok(flags.c == 0),
            0b11 => Ok(flags.c == 1),
            _ => Err(RegisterError::InvalidLookupInput),
        }
    }

    /// The byte in the register that a 3-bit selector names.
    pub fn read_reg(&mut self, code: u8) -> (r: Result<u8, RegisterError>)
        ensures
            *final(self) == *old(self),
            r == match old(self).r8(code) {
                Some(value) => Ok::<u8, RegisterError>(value),
                None => Err::<u8, RegisterError>(RegisterError::InvalidLookupInput),
            },
    {
        let reg = self.reg_from_byte(code)?;
        reg.get_eight_bit_val()
    }

    /// Stores a byte in the register that a 3-bit selector names.
    pub fn write_reg(&mut self, code: u8, value: u8) -> (r: Result<(), RegisterError>)
        ensures
            *final(self) == old(self).with_r8(code, value),
            r == match old(self).r8(code) {
                Some(_) => Ok::<(), RegisterError>(()),
                None => Err::<(), RegisterError>(RegisterError::InvalidLookupInput),
            },
    {
        let mut reg = self.reg_from_byte(code)?;
        reg.set_eight_bit_val(value)
    }

    /// The word in the pair that a `dd` selector names.
    pub fn read_dd(&mut self, code: u8) -> (r: Result<u16, RegisterError>)
        ensures
            *final(self) == *old(self),
            r == match old(self).dd(code) {
                Some(value) => Ok::<u16, RegisterError>(value),
                None => Err::<u16, RegisterError>(RegisterError::InvalidLookupInput),
            },
    {
        let pair = self.reg_pair_from_dd(code)?;
        Ok(pair.get_value())
    }

    /// Stores a word in the pair that a `dd` selector names.
    pub fn write_dd(&mut self, code: u8, value: u16) -> (r: Result<(), RegisterError>)
        ensures
            *final(self) == old(self).with_dd(code, value),
            r == match old(self).dd(code) {
                Some(_) => Ok::<(), RegisterError>(()),
                None => Err::<(), RegisterError>(RegisterError::InvalidLookupInput),
            },
    {
        let mut pair = self.reg_pair_from_dd(code)?;
        pair.set_value_16(value);
        Ok(())
    }

    /// The word in the pair that a `qq` selector names.
    pub fn read_qq(&mut self, code: u8) -> (r: Result<u16, RegisterError>)
        ensures
            *final(self) == *old(self),
            r == match old(self).qq(code) {
                Some(value) => Ok::<u16, RegisterError>(value),
                None => Err::<u16, RegisterError>(RegisterError::InvalidLookupInput),
            },
    {
        let pair = self.reg_pair_from_qq(code)?;
        Ok(pair.get_value())
    }

    /// Stores a word in the pair that a `qq` selector names.
    pub fn write_qq(&mut self, code: u8, value: u16) -> (r: Result<(), RegisterError>)
        ensures
            *final(self) == old(self).with_qq(code, value),
            r == match old(self).qq(code) {
                Some(_) => Ok::<(), RegisterError>(()),
                None => Err::<(), RegisterError>(RegisterError::InvalidLookupInput),
            },
    {
        let mut pair = self.reg_pair_from_qq(code)?;
        pair.set_value_16(value);
        Ok(())
    }

    /// Writes the flags of an operation to `F` under its mask.
    pub fn apply_flags<T>(&mut self, result: &RegisterOpResult<T>)
        ensures
            *final(self) == old(self).with_f(
                masked_flags(old(self).f.value, result.flags.0, result.spec_mask()),
            ),
            (old(self).wf() && result.flags.0 & 0x0F == 0) ==> final(self).wf(),
    {
        let flags = result.get_masked_value(self.f.value);
        self.f.set_value(flags);
    }
}

/// The name of a register.
pub open spec fn register_type_name(tag: RegisterType) -> Seq<char> {
    match tag {
        RegisterType::A => "A"@,
        RegisterType::B => "B"@,
        RegisterType::C => "C"@,
        RegisterType::D => "D"@,
        RegisterType::E => "E"@,
        RegisterType::H => "H"@,
        RegisterType::L => "L"@,
        RegisterType::F => "F"@,
        RegisterType::PC => "PC"@,
        RegisterType::SP => "SP"@,
    }
}

/// A register as a text: its name in brackets and its value, in binary for
/// the flag register and in hexadecimal for any other.
pub open spec fn register_text(tag: RegisterType, value: nat) -> Seq<char> {
    "["@ + register_type_name(tag) + "]: "@ + (if tag == RegisterType::F {
        binary_of_four(value)
    } else {
        upper_hex(value)
    })
}

/// The register file as a text: the ten registers, and the four pairs in
/// hexadecimal.
pub open spec fn registers_text(registers: Registers) -> Seq<char> {
    "Registers["@ + register_text(registers.a.tag, registers.a.value as nat) + " "@
        + register_text(registers.b.tag, registers.b.value as nat) + " "@ + register_text(
        registers.c.tag,
        registers.c.value as nat,
    ) + " "@ + register_text(registers.d.tag, registers.d.value as nat) + " "@ + register_text(
        registers.e.tag,
        registers.e.value as nat,
    ) + " "@ + register_text(registers.h.tag, registers.h.value as nat) + " "@ + register_text(
        registers.l.tag,
        registers.l.value as nat,
    ) + " "@ + register_text(registers.f.tag, registers.f.value as nat) + " "@ + register_text(
        registers.pc.tag,
        registers.pc.value as nat,
    ) + " "@ + register_text(registers.sp.tag, registers.sp.value as nat) + ", BC: "@ + upper_hex(
        registers.spec_bc() as nat,
    ) + ", DE: "@ + upper_hex(registers.spec_de() as nat) + ", HL: "@ + upper_hex(
        registers.spec_hl() as nat,
    ) + ", AF: "@ + upper_hex(registers.spec_af() as nat) + "]"@
}

impl RegisterType {
    /// The name of the register.
    pub fn name(&self) -> (r: String)
        ensures
            r@ == register_type_name(*self),
    {
        let str = match self {
            RegisterType::A => "A",
            RegisterType::B => "B",
            RegisterType::C => "C",
            RegisterType::D => "D",
            RegisterType::E => "E",
            RegisterType::H => "H",
            RegisterType::L => "L",
            RegisterType::F => "F",
            RegisterType::PC => "PC",
            RegisterType::SP => "SP",
        };
        String::from_str(str)
    }
}

/// A register as a text.
fn format_register(tag: &RegisterType, value: usize) -> (r: String)
    ensures
        r@ == register_text(*tag, value as nat),
{
    let mut text = String::from_str("[");
    text.append(tag.name().as_str());
    text.append("]: ");
    match tag {
        RegisterType::F => text.append(format_binary_of_four(value).as_str()),
        _ => text.append(format_hex(value).as_str()),
    }
    text
}

impl Register<u8> {
    /// The register as a text.
    pub fn to_text(&self) -> (r: String)
        ensures
            r@ == register_text(self.tag, self.value as nat),
    {
        format_register(&self.tag, self.value as usize)
    }
}

impl Register<u16> {
    /// The register as a text.
    pub fn to_text(&self) -> (r: String)
        ensures
            r@ == register_text(self.tag, self.value as nat),
    {
        format_register(&self.tag, self.value as usize)
    }
}

impl Registers {
    /// The register file as a text.
    pub fn to_text(&self) -> (r: String)
        ensures
            r@ == registers_text(*self),
    {
        let mut text = String::from_str("Registers[");
        text.append(self.a.to_text().as_str());
        text.append(" ");
        text.append(self.b.to_text().as_str());
        text.append(" ");
        text.append(self.c.to_text().as_str());
        text.append(" ");
        text.append(self.d.to_text().as_str());
        text.append(" ");
        text.append(self.e.to_text().as_str());
        text.append(" ");
        text.append(self.h.to_text().as_str());
        text.append(" ");
        text.append(self.l.to_text().as_str());
        text.append(" ");
        text.append(self.f.to_text().as_str());
        text.append(" ");
        text.append(self.pc.to_text().as_str());
        text.append(" ");
        text.append(self.sp.to_text().as_str());
        text.append(", BC: ");
        text.append(format_hex(self.bc() as usize).as_str());
        text.append(", DE: ");
        text.append(format_hex(self.de() as usize).as_str());
        text.append(", HL: ");
        text.append(format_hex(self.hl() as usize).as_str());
        text.append(", AF: ");
        text.append(format_hex(self.af() as usize).as_str());
        text.append("]");
        text
    }
}

} // verus!
