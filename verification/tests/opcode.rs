use wasmboi::hardware::jump_condition::{lookup_jump_condition, JumpConditionError};
use wasmboi::hardware::mnemonic::Mnemonic;
use wasmboi::hardware::opcode::{
    cb_prefix_instruction_lookup, instruction_lookup, Instruction, OpcodeError,
};

#[test]
fn first_page_samples() {
    assert_eq!(instruction_lookup(&0x00), Ok(Instruction::NOP));
    assert_eq!(instruction_lookup(&0x01), Ok(Instruction::LD_RRNN));
    assert_eq!(instruction_lookup(&0x08), Ok(Instruction::LD_SPDD));
    assert_eq!(instruction_lookup(&0x10), Ok(Instruction::STOP));
    assert_eq!(instruction_lookup(&0x18), Ok(Instruction::JR_PCDD));
    assert_eq!(instruction_lookup(&0x20), Ok(Instruction::JR_FPCDD));
    assert_eq!(instruction_lookup(&0x22), Ok(Instruction::LD_HLIA));
    assert_eq!(instruction_lookup(&0x2A), Ok(Instruction::LD_AHLI));
    assert_eq!(instruction_lookup(&0x32), Ok(Instruction::LD_HLDA));
    assert_eq!(instruction_lookup(&0x3A), Ok(Instruction::LD_AHLD));
    assert_eq!(instruction_lookup(&0x34), Ok(Instruction::INC_HL));
    assert_eq!(instruction_lookup(&0x36), Ok(Instruction::LD_HLN));
    assert_eq!(instruction_lookup(&0x27), Ok(Instruction::DAA));
    assert_eq!(instruction_lookup(&0x40), Ok(Instruction::LD_RR));
    assert_eq!(instruction_lookup(&0x46), Ok(Instruction::LD_RHL));
    assert_eq!(instruction_lookup(&0x70), Ok(Instruction::LD_HLR));
    assert_eq!(instruction_lookup(&0x76), Ok(Instruction::HALT));
    assert_eq!(instruction_lookup(&0x80), Ok(Instruction::ADD_AR));
    assert_eq!(instruction_lookup(&0x8E), Ok(Instruction::ADC_AHL));
    assert_eq!(instruction_lookup(&0xBF), Ok(Instruction::CP_R));
    assert_eq!(instruction_lookup(&0xC3), Ok(Instruction::JP_NN));
    assert_eq!(instruction_lookup(&0xC9), Ok(Instruction::RET));
    assert_eq!(instruction_lookup(&0xCD), Ok(Instruction::CALL_NN));
    assert_eq!(instruction_lookup(&0xD9), Ok(Instruction::RETI));
    assert_eq!(instruction_lookup(&0xE8), Ok(Instruction::ADD_SPN));
    assert_eq!(instruction_lookup(&0xF3), Ok(Instruction::DI));
    assert_eq!(instruction_lookup(&0xF8), Ok(Instruction::LDHL));
    assert_eq!(instruction_lookup(&0xFB), Ok(Instruction::EI));
    assert_eq!(instruction_lookup(&0xFF), Ok(Instruction::RST));
    assert_eq!(instruction_lookup(&0xCB), Ok(Instruction::SET_NR));
    assert_eq!(instruction_lookup(&0xD3), Err(OpcodeError::InvalidOpcodeInput));
}

#[test]
fn second_page_samples() {
    assert_eq!(cb_prefix_instruction_lookup(&0x00), Ok(Instruction::RLC_R));
    assert_eq!(cb_prefix_instruction_lookup(&0x06), Ok(Instruction::RLC_HL));
    assert_eq!(cb_prefix_instruction_lookup(&0x0F), Ok(Instruction::RRC_R));
    assert_eq!(cb_prefix_instruction_lookup(&0x16), Ok(Instruction::RL_HL));
    assert_eq!(cb_prefix_instruction_lookup(&0x1F), Ok(Instruction::RR_R));
    assert_eq!(cb_prefix_instruction_lookup(&0x27), Ok(Instruction::SLA_R));
    assert_eq!(cb_prefix_instruction_lookup(&0x2E), Ok(Instruction::SRA_HL));
    assert_eq!(cb_prefix_instruction_lookup(&0x37), Ok(Instruction::SWAP_R));
    assert_eq!(cb_prefix_instruction_lookup(&0x3E), Ok(Instruction::SRL_HL));
    assert_eq!(cb_prefix_instruction_lookup(&0x40), Ok(Instruction::BIT_NR));
    assert_eq!(cb_prefix_instruction_lookup(&0x7E), Ok(Instruction::BIT_NHL));
    assert_eq!(cb_prefix_instruction_lookup(&0x80), Ok(Instruction::RES_NR));
    assert_eq!(cb_prefix_instruction_lookup(&0xBE), Ok(Instruction::RES_NHL));
    assert_eq!(cb_prefix_instruction_lookup(&0xC0), Ok(Instruction::SET_NR));
    assert_eq!(cb_prefix_instruction_lookup(&0xFE), Ok(Instruction::SET_NHL));
}

#[test]
fn operand_sizes() {
    assert_eq!(Instruction::get_size(&Instruction::NOP), 0);
    assert_eq!(Instruction::get_size(&Instruction::LD_RR), 0);
    assert_eq!(Instruction::get_size(&Instruction::RST), 0);
    assert_eq!(Instruction::get_size(&Instruction::UNIMPLEMENTED), 0);
    assert_eq!(Instruction::get_size(&Instruction::LD_RN), 1);
    assert_eq!(Instruction::get_size(&Instruction::JR_FPCDD), 1);
    assert_eq!(Instruction::get_size(&Instruction::ADD_SPN), 1);
    assert_eq!(Instruction::get_size(&Instruction::BIT_NR), 1);
    assert_eq!(Instruction::get_size(&Instruction::SWAP_HL), 1);
    assert_eq!(Instruction::get_size(&Instruction::JP_NN), 2);
    assert_eq!(Instruction::get_size(&Instruction::CALL_FNN), 2);
    assert_eq!(Instruction::get_size(&Instruction::LD_SPDD), 2);
    assert_eq!(Instruction::get_size(&Instruction::LD_RRNN), 2);
}

#[test]
fn kinds_of_branches() {
    assert!(Instruction::is_branch(&Instruction::JP_NN));
    assert!(Instruction::is_branch(&Instruction::JP_HL));
    assert!(Instruction::is_branch(&Instruction::CALL_FNN));
    assert!(!Instruction::is_branch(&Instruction::JR_PCDD));
    assert!(!Instruction::is_branch(&Instruction::RET));
    assert!(Instruction::is_return(&Instruction::RET));
    assert!(!Instruction::is_return(&Instruction::RETI));
    assert!(Instruction::is_call(&Instruction::CALL_NN));
    assert!(Instruction::is_call(&Instruction::CALL_FNN));
    assert!(!Instruction::is_call(&Instruction::RST));
}

#[test]
fn mnemonics() {
    assert_eq!(Mnemonic::from(&Instruction::LD_SPDD), Mnemonic::LD);
    assert_eq!(Mnemonic::from(&Instruction::LDHL), Mnemonic::LDHL);
    assert_eq!(Mnemonic::from(&Instruction::ADD_SPN), Mnemonic::ADD);
    assert_eq!(Mnemonic::from(&Instruction::DEC_RR), Mnemonic::DEC);
    assert_eq!(Mnemonic::from(&Instruction::RET_F), Mnemonic::RET);
    assert_eq!(Mnemonic::from(&Instruction::SWAP_HL), Mnemonic::SWAP);
    assert_eq!(Mnemonic::from(&Instruction::UNIMPLEMENTED), Mnemonic::UNIMPLEMENTED);
    assert_eq!(String::from(&Mnemonic::LD), "LD");
    assert_eq!(String::from(&Mnemonic::RETI), "RETI");
    assert_eq!(Mnemonic::UNIMPLEMENTED.name(), "UNIMPLEMENTED");
}

#[test]
fn jump_condition_names() {
    assert_eq!(lookup_jump_condition(0), Ok("NZ"));
    assert_eq!(lookup_jump_condition(1), Ok("Z"));
    assert_eq!(lookup_jump_condition(2), Ok("NC"));
    assert_eq!(lookup_jump_condition(3), Ok("C"));
    assert_eq!(lookup_jump_condition(4), Err(JumpConditionError::InvalidLookupInput));
}
