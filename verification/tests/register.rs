use wasmboi::hardware::mmu::Error as MmuError;
use wasmboi::hardware::register::{
    Register, RegisterError, RegisterPair, RegisterRefMut, RegisterType, Registers, TRegister,
};
use wasmboi::hardware::register_ops::{FlagRegister, RegisterOp, RegisterOpResult};

#[test]
fn registers_after_boot() {
    let registers = Registers::new();
    assert_eq!(registers.a.value, 0x01);
    assert_eq!(registers.a.tag, RegisterType::A);
    assert_eq!(registers.f.value, 0xB0);
    assert_eq!(registers.f.tag, RegisterType::F);
    assert_eq!(registers.bc(), 0x0013);
    assert_eq!(registers.de(), 0x00D8);
    assert_eq!(registers.hl(), 0x014D);
    assert_eq!(registers.af(), 0x01B0);
    assert_eq!(registers.pc.value, 0x0100);
    assert_eq!(registers.pc.tag, RegisterType::PC);
    assert_eq!(registers.sp.value, 0xFFFE);
    assert_eq!(registers.sp.tag, RegisterType::SP);
    let flags = registers.flag_register();
    assert_eq!((flags.z, flags.n, flags.h, flags.c), (1, 0, 1, 1));
}

#[test]
fn selectors_of_eight_bit_registers() {
    let mut registers = Registers::new();
    for (code, value) in [(0u8, 0x10u8), (1, 0x11), (2, 0x12), (3, 0x13), (4, 0x14), (5, 0x15), (7, 0x17)]
    {
        assert_eq!(registers.write_reg(code, value), Ok(()));
        assert_eq!(registers.read_reg(code), Ok(value));
    }
    assert_eq!(registers.b.value, 0x10);
    assert_eq!(registers.c.value, 0x11);
    assert_eq!(registers.d.value, 0x12);
    assert_eq!(registers.e.value, 0x13);
    assert_eq!(registers.h.value, 0x14);
    assert_eq!(registers.l.value, 0x15);
    assert_eq!(registers.a.value, 0x17);
    assert_eq!(registers.read_reg(6), Err(RegisterError::InvalidLookupInput));
    assert_eq!(registers.write_reg(6, 1), Err(RegisterError::InvalidLookupInput));
    assert_eq!(registers.read_reg(8), Err(RegisterError::InvalidLookupInput));
    assert!(matches!(registers.reg_from_byte(0), Ok(RegisterRefMut::Byte(_))));
    assert!(matches!(registers.reg_from_byte(6), Err(RegisterError::InvalidLookupInput)));
}

#[test]
fn selectors_of_pairs() {
    let mut registers = Registers::new();
    assert_eq!(registers.read_dd(0), Ok(0x0013));
    assert_eq!(registers.read_dd(1), Ok(0x00D8));
    assert_eq!(registers.read_dd(2), Ok(0x014D));
    assert_eq!(registers.read_dd(3), Ok(0xFFFE));
    assert_eq!(registers.read_dd(4), Err(RegisterError::InvalidLookupInput));
    assert_eq!(registers.read_qq(3), Ok(0x01B0));
    assert_eq!(registers.read_qq(2), Ok(0x014D));
    assert_eq!(registers.read_qq(4), Err(RegisterError::InvalidLookupInput));
    assert_eq!(registers.write_dd(0, 0xABCD), Ok(()));
    assert_eq!((registers.b.value, registers.c.value), (0xAB, 0xCD));
    assert_eq!(registers.write_dd(3, 0x1234), Ok(()));
    assert_eq!(registers.sp.value, 0x1234);
    assert_eq!(registers.write_qq(3, 0x55A0), Ok(()));
    assert_eq!((registers.a.value, registers.f.value), (0x55, 0xA0));
    assert_eq!(registers.sp.value, 0x1234);
    assert_eq!(registers.write_dd(4, 0), Err(RegisterError::InvalidLookupInput));
    assert!(matches!(registers.reg_pair_from_dd(3), Ok(RegisterPair::SixteenBit(_))));
    assert!(matches!(registers.reg_pair_from_qq(3), Ok(RegisterPair::EightBit(_, _))));
    assert!(matches!(registers.reg_pair_from_qq(1), Ok(RegisterPair::EightBit(_, _))));
    assert!(matches!(registers.reg_pair_from_qq(9), Err(RegisterError::InvalidLookupInput)));
}

#[test]
fn pairs_open_for_writing() {
    let mut registers = Registers::new();
    {
        let mut pair = registers.bc_mut();
        assert_eq!(pair.get_value(), 0x0013);
        pair.set_value(0x12, 0x34);
        assert_eq!(pair.get_value(), 0x1234);
    }
    assert_eq!(registers.bc(), 0x1234);
    registers.de_mut().set_value_16(0xBEEF);
    assert_eq!((registers.d.value, registers.e.value), (0xBE, 0xEF));
    registers.hl_mut().set_value_16(0x0001);
    assert_eq!(registers.hl(), 0x0001);
    registers.af_mut().set_value(0xAA, 0x50);
    assert_eq!(registers.af(), 0xAA50);
    let mut sp = Register::new(0u16, RegisterType::SP);
    let mut pair = RegisterPair::SixteenBit(&mut sp);
    pair.set_value(0xFF, 0x01);
    assert_eq!(pair.get_value(), 0xFF01);
    pair.set_value_16(0x8000);
    assert_eq!(sp.value, 0x8000);
}

#[test]
fn register_references_check_the_width() {
    let mut byte = Register::new(1u8, RegisterType::B);
    let mut word = Register::new(2u16, RegisterType::PC);
    {
        let mut reference = RegisterRefMut::Byte(&mut byte);
        assert_eq!(reference.get_eight_bit_val(), Ok(1));
        assert_eq!(reference.get_sixtn_bit_val(), Err(RegisterError::CheckedFailure));
        assert_eq!(reference.set_eight_bit_val(9), Ok(()));
        assert_eq!(reference.set_sixtn_bit_val(9), Err(RegisterError::CheckedFailure));
        assert_eq!(reference.get_eight_bit_val(), Ok(9));
    }
    assert_eq!(byte.value, 9);
    {
        let mut reference = RegisterRefMut::Flag(&mut byte);
        assert_eq!(reference.set_eight_bit_val(0xF0), Ok(()));
        assert_eq!(reference.get_eight_bit_val(), Ok(0xF0));
    }
    {
        let mut reference = RegisterRefMut::PC(&mut word);
        assert_eq!(reference.get_sixtn_bit_val(), Ok(2));
        assert_eq!(reference.get_eight_bit_val(), Err(RegisterError::CheckedFailure));
        assert_eq!(reference.set_eight_bit_val(9), Err(RegisterError::CheckedFailure));
        assert_eq!(reference.set_sixtn_bit_val(0x1234), Ok(()));
    }
    {
        let mut reference = RegisterRefMut::SP(&mut word);
        assert_eq!(reference.get_sixtn_bit_val(), Ok(0x1234));
        assert_eq!(reference.set_sixtn_bit_val(0xFFFE), Ok(()));
    }
    assert_eq!(word.value, 0xFFFE);
    assert_eq!(byte.tag, RegisterType::B);
}

#[test]
fn jump_conditions_read_the_flags() {
    let mut registers = Registers::new();
    registers.f.value = 0x80;
    assert_eq!(registers.jump_condition(0), Ok(false));
    assert_eq!(registers.jump_condition(1), Ok(true));
    assert_eq!(registers.jump_condition(2), Ok(true));
    assert_eq!(registers.jump_condition(3), Ok(false));
    registers.f.value = 0x10;
    assert_eq!(registers.jump_condition(0), Ok(true));
    assert_eq!(registers.jump_condition(1), Ok(false));
    assert_eq!(registers.jump_condition(2), Ok(false));
    assert_eq!(registers.jump_condition(3), Ok(true));
    assert_eq!(registers.jump_condition(4), Err(RegisterError::InvalidLookupInput));
}

#[test]
fn checked_and_wrapped_updates() {
    let mut register = Register::new(0xFFFEu16, RegisterType::SP);
    assert_eq!(*register.get_value(), 0xFFFE);
    assert_eq!(register.update_value_checked(|sp| Ok(sp.checked_add(1))), Ok(()));
    assert_eq!(register.value, 0xFFFF);
    assert_eq!(
        register.update_value_checked(|sp| Ok(sp.checked_add(1))),
        Err(RegisterError::CheckedFailure)
    );
    assert_eq!(register.value, 0xFFFF);
    assert_eq!(
        register.update_value_checked(|_| Err(RegisterError::MmuError(MmuError::ReadError))),
        Err(RegisterError::MmuError(MmuError::ReadError))
    );
    assert_eq!(register.value, 0xFFFF);
    register.update_value_wrapped(|sp| sp.wrapping_add(2));
    assert_eq!(register.value, 0x0001);
    register.set_value(7);
    assert_eq!(register.value, 7);
    assert_eq!(register.tag, RegisterType::SP);
    assert_eq!(RegisterError::from(MmuError::WriteError), RegisterError::MmuError(MmuError::WriteError));
}

#[test]
fn operations_write_their_flags_under_their_mask() {
    let mut registers = Registers::new();
    registers.f.value = 0x10;
    let value = registers.op(|r| RegisterOp::new(r.a.value).add(0xFF));
    assert_eq!(value, 0x00);
    assert_eq!(registers.a.value, 0x01);
    assert_eq!(registers.f.value, 0xB0);

    registers.f.value = 0x10;
    let value = registers.op(|r| {
        let mut result = RegisterOp::new(r.b.value).sub(1);
        result.set_mask(FlagRegister::new(true, true, true, false));
        result
    });
    assert_eq!(value, 0xFF);
    assert_eq!(registers.f.value, 0x70);

    registers.f.value = 0x80;
    let value = registers.op_with_effect(|r| {
        let result = RegisterOp::new(r.hl()).add(1);
        r.hl_mut().set_value_16(result.value);
        let mut result: RegisterOpResult<u16> = result;
        result.set_mask(FlagRegister::new(false, true, true, true));
        Ok(result)
    });
    assert_eq!(value, Ok(0x014E));
    assert_eq!(registers.hl(), 0x014E);
    assert_eq!(registers.f.value, 0x80);

    let failed: Result<u8, RegisterError> = registers.op_with_effect(|r| {
        r.a.value = 0x99;
        Err(RegisterError::InvalidLookupInput)
    });
    assert_eq!(failed, Err(RegisterError::InvalidLookupInput));
    assert_eq!(registers.a.value, 0x99);
    assert_eq!(registers.f.value, 0x80);

    registers.update(|r| r.sp.value = 0xC000);
    assert_eq!(registers.sp.value, 0xC000);

    let result = RegisterOp::new(0x0Fu8).add(1);
    registers.f.value = 0xC0;
    registers.apply_flags(&result);
    assert_eq!(registers.f.value, 0x20);
}

#[test]
fn registers_as_text() {
    let registers = Registers::new();
    assert_eq!(
        registers.to_text(),
        "Registers[[A]: 1 [B]: 0 [C]: 13 [D]: 0 [E]: D8 [H]: 1 [L]: 4D [F]: 10110000 [PC]: 100 [SP]: FFFE, BC: 13, DE: D8, HL: 14D, AF: 1B0]"
    );
    assert_eq!(Register::new(0u8, RegisterType::F).to_text(), "[F]: 0000");
    assert_eq!(Register::new(1u8, RegisterType::F).to_text(), "[F]: 0001");
    assert_eq!(Register::new(5u8, RegisterType::F).to_text(), "[F]: 0101");
    assert_eq!(Register::new(8u8, RegisterType::F).to_text(), "[F]: 1000");
    assert_eq!(Register::new(0xF0u8, RegisterType::F).to_text(), "[F]: 11110000");
    assert_eq!(Register::new(0xF0u8, RegisterType::A).to_text(), "[A]: F0");
    assert_eq!(Register::new(0xC000u16, RegisterType::SP).to_text(), "[SP]: C000");
    assert_eq!(RegisterType::PC.name(), "PC");
    assert_eq!(RegisterType::L.name(), "L");
}
