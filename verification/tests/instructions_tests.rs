use gbemu::instructions::{
    instruction_by_opcode, instruction_by_prefixed_opcode, set_instructions, AddrMode, CondType,
    InType, Instruction, RegType,
};

fn entry(
    i_type: InType,
    mode: AddrMode,
    reg_1: RegType,
    reg_2: RegType,
    cond: CondType,
    param: u8,
) -> Option<Instruction> {
    Some(Instruction { i_type, mode, reg_1, reg_2, cond, param })
}

#[test]
fn table_row_0_entries() {
    let t = set_instructions();
    assert_eq!(
        instruction_by_opcode(&t, 0x00),
        entry(InType::IN_NOP, AddrMode::AM_IMP, RegType::RT_NONE, RegType::RT_NONE, CondType::CT_NONE, 0)
    );
    assert_eq!(
        instruction_by_opcode(&t, 0x01),
        entry(InType::IN_LD, AddrMode::AM_R_D16, RegType::RT_BC, RegType::RT_NONE, CondType::CT_NONE, 0)
    );
    assert_eq!(
        instruction_by_opcode(&t, 0x02),
        entry(InType::IN_LD, AddrMode::AM_MR_R, RegType::RT_BC, RegType::RT_A, CondType::CT_NONE, 0)
    );
    assert_eq!(
        instruction_by_opcode(&t, 0x05),
        entry(InType::IN_DEC, AddrMode::AM_R, RegType::RT_B, RegType::RT_NONE, CondType::CT_NONE, 0)
    );
    assert_eq!(
        instruction_by_opcode(&t, 0x06),
        entry(InType::IN_LD, AddrMode::AM_R_D8, RegType::RT_B, RegType::RT_NONE, CondType::CT_NONE, 0)
    );
    assert_eq!(
        instruction_by_opcode(&t, 0x08),
        entry(InType::IN_LD, AddrMode::AM_A16_R, RegType::RT_NONE, RegType::RT_SP, CondType::CT_NONE, 0)
    );
    assert_eq!(
        instruction_by_opcode(&t, 0x0A),
        entry(InType::IN_LD, AddrMode::AM_R_MR, RegType::RT_A, RegType::RT_BC, CondType::CT_NONE, 0)
    );
    assert_eq!(
        instruction_by_opcode(&t, 0x0E),
        entry(InType::IN_LD, AddrMode::AM_R_D8, RegType::RT_C, RegType::RT_NONE, CondType::CT_NONE, 0)
    );
}

#[test]
fn table_row_1_entries() {
    let t = set_instructions();
    assert_eq!(
        instruction_by_opcode(&t, 0x11),
        entry(InType::IN_LD, AddrMode::AM_R_D16, RegType::RT_DE, RegType::RT_NONE, CondType::CT_NONE, 0)
    );
    assert_eq!(
        instruction_by_opcode(&t, 0x12),
        entry(InType::IN_LD, AddrMode::AM_MR_R, RegType::RT_DE, RegType::RT_A, CondType::CT_NONE, 0)
    );
    assert_eq!(
        instruction_by_opcode(&t, 0x15),
        entry(InType::IN_DEC, AddrMode::AM_R, RegType::RT_D, RegType::RT_NONE, CondType::CT_NONE, 0)
    );
    assert_eq!(
        instruction_by_opcode(&t, 0x16),
        entry(InType::IN_LD, AddrMode::AM_R_D8, RegType::RT_D, RegType::RT_NONE, CondType::CT_NONE, 0)
    );
    assert_eq!(
        instruction_by_opcode(&t, 0x1A),
        entry(InType::IN_LD, AddrMode::AM_R_MR, RegType::RT_A, RegType::RT_DE, CondType::CT_NONE, 0)
    );
    assert_eq!(
        instruction_by_opcode(&t, 0x1E),
        entry(InType::IN_LD, AddrMode::AM_R_D8, RegType::RT_E, RegType::RT_NONE, CondType::CT_NONE, 0)
    );
}

#[test]
fn table_row_2_entries() {
    let t = set_instructions();
    assert_eq!(
        instruction_by_opcode(&t, 0x21),
        entry(InType::IN_LD, AddrMode::AM_R_D16, RegType::RT_HL, RegType::RT_NONE, CondType::CT_NONE, 0)
    );
    assert_eq!(
        instruction_by_opcode(&t, 0x22),
        entry(InType::IN_LD, AddrMode::AM_HLI_R, RegType::RT_HL, RegType::RT_A, CondType::CT_NONE, 0)
    );
    assert_eq!(
        instruction_by_opcode(&t, 0x25),
        entry(InType::IN_DEC, AddrMode::AM_R, RegType::RT_H, RegType::RT_NONE, CondType::CT_NONE, 0)
    );
    assert_eq!(
        instruction_by_opcode(&t, 0x26),
        entry(InType::IN_LD, AddrMode::AM_R_D8, RegType::RT_H, RegType::RT_NONE, CondType::CT_NONE, 0)
    );
    assert_eq!(
        instruction_by_opcode(&t, 0x2A),
        entry(InType::IN_LD, AddrMode::AM_R_HLI, RegType::RT_A, RegType::RT_HL, CondType::CT_NONE, 0)
    );
    assert_eq!(
        instruction_by_opcode(&t, 0x2E),
        entry(InType::IN_LD, AddrMode::AM_R_D8, RegType::RT_L, RegType::RT_NONE, CondType::CT_NONE, 0)
    );
}

#[test]
fn table_row_3_entries() {
    let t = set_instructions();
    assert_eq!(
        instruction_by_opcode(&t, 0x31),
        entry(InType::IN_LD, AddrMode::AM_R_D16, RegType::RT_SP, RegType::RT_NONE, CondType::CT_NONE, 0)
    );
    assert_eq!(
        instruction_by_opcode(&t, 0x32),
        entry(InType::IN_LD, AddrMode::AM_HLD_R, RegType::RT_HL, RegType::RT_A, CondType::CT_NONE, 0)
    );
    assert_eq!(
        instruction_by_opcode(&t, 0x36),
        entry(InType::IN_LD, AddrMode::AM_MR_D8, RegType::RT_HL, RegType::RT_NONE, CondType::CT_NONE, 0)
    );
    assert_eq!(
        instruction_by_opcode(&t, 0x3A),
        entry(InType::IN_LD, AddrMode::AM_R_HLD, RegType::RT_A, RegType::RT_HL, CondType::CT_NONE, 0)
    );
    assert_eq!(
        instruction_by_opcode(&t, 0x3E),
        entry(InType::IN_LD, AddrMode::AM_R_D8, RegType::RT_A, RegType::RT_NONE, CondType::CT_NONE, 0)
    );
}

#[test]
fn table_row_4_entries() {
    let t = set_instructions();
    assert_eq!(
        instruction_by_opcode(&t, 0x40),
        entry(InType::IN_LD, AddrMode::AM_R_R, RegType::RT_B, RegType::RT_B, CondType::CT_NONE, 0)
    );
    assert_eq!(
        instruction_by_opcode(&t, 0x41),
        entry(InType::IN_LD, AddrMode::AM_R_R, RegType::RT_B, RegType::RT_C, CondType::CT_NONE, 0)
    );
    assert_eq!(
        instruction_by_opcode(&t, 0x42),
        entry(InType::IN_LD, AddrMode::AM_R_R, RegType::RT_B, RegType::RT_D, CondType::CT_NONE, 0)
    );
    assert_eq!(
        instruction_by_opcode(&t, 0x43),
        entry(InType::IN_LD, AddrMode::AM_R_R, RegType::RT_B, RegType::RT_E, CondType::CT_NONE, 0)
    );
    assert_eq!(
        instruction_by_opcode(&t, 0x44),
        entry(InType::IN_LD, AddrMode::AM_R_R, RegType::RT_B, RegType::RT_H, CondType::CT_NONE, 0)
    );
    assert_eq!(
        instruction_by_opcode(&t, 0x45),
        entry(InType::IN_LD, AddrMode::AM_R_R, RegType::RT_B, RegType::RT_L, CondType::CT_NONE, 0)
    );
    assert_eq!(
        instruction_by_opcode(&t, 0x46),
        entry(InType::IN_LD, AddrMode::AM_R_MR, RegType::RT_B, RegType::RT_HL, CondType::CT_NONE, 0)
    );
    assert_eq!(
        instruction_by_opcode(&t, 0x47),
        entry(InType::IN_LD, AddrMode::AM_R_R, RegType::RT_B, RegType::RT_A, CondType::CT_NONE, 0)
    );
    assert_eq!(
        instruction_by_opcode(&t, 0x48),
        entry(InType::IN_LD, AddrMode::AM_R_R, RegType::RT_C, RegType::RT_B, CondType::CT_NONE, 0)
    );
    assert_eq!(
        instruction_by_opcode(&t, 0x49),
        entry(InType::IN_LD, AddrMode::AM_R_R, RegType::RT_C, RegType::RT_C, CondType::CT_NONE, 0)
    );
    assert_eq!(
        instruction_by_opcode(&t, 0x4A),
        entry(InType::IN_LD, AddrMode::AM_R_R, RegType::RT_C, RegType::RT_D, CondType::CT_NONE, 0)
    );
    assert_eq!(
        instruction_by_opcode(&t, 0x4B),
        entry(InType::IN_LD, AddrMode::AM_R_R, RegType::RT_C, RegType::RT_E, CondType::CT_NONE, 0)
    );
    assert_eq!(
        instruction_by_opcode(&t, 0x4C),
        entry(InType::IN_LD, AddrMode::AM_R_R, RegType::RT_C, RegType::RT_H, CondType::CT_NONE, 0)
    );
    assert_eq!(
        instruction_by_opcode(&t, 0x4D),
        entry(InType::IN_LD, AddrMode::AM_R_R, RegType::RT_C, RegType::RT_L, CondType::CT_NONE, 0)
    );
    assert_eq!(
        instruction_by_opcode(&t, 0x4E),
        entry(InType::IN_LD, AddrMode::AM_R_MR, RegType::RT_C, RegType::RT_HL, CondType::CT_NONE, 0)
    );
    assert_eq!(
        instruction_by_opcode(&t, 0x4F),
        entry(InType::IN_LD, AddrMode::AM_R_R, RegType::RT_C, RegType::RT_A, CondType::CT_NONE, 0)
    );
}

#[test]
fn table_row_5_entries() {
    let t = set_instructions();
    assert_eq!(
        instruction_by_opcode(&t, 0x50),
        entry(InType::IN_LD, AddrMode::AM_R_R, RegType::RT_D, RegType::RT_B, CondType::CT_NONE, 0)
    );
    assert_eq!(
        instruction_by_opcode(&t, 0x51),
        entry(InType::IN_LD, AddrMode::AM_R_R, RegType::RT_D, RegType::RT_C, CondType::CT_NONE, 0)
    );
    assert_eq!(
        instruction_by_opcode(&t, 0x52),
        entry(InType::IN_LD, AddrMode::AM_R_R, RegType::RT_D, RegType::RT_D, CondType::CT_NONE, 0)
    );
    assert_eq!(
        instruction_by_opcode(&t, 0x53),
        entry(InType::IN_LD, AddrMode::AM_R_R, RegType::RT_D, RegType::RT_E, CondType::CT_NONE, 0)
    );
    assert_eq!(
        instruction_by_opcode(&t, 0x54),
        entry(InType::IN_LD, AddrMode::AM_R_R, RegType::RT_D, RegType::RT_H, CondType::CT_NONE, 0)
    );
    assert_eq!(
        instruction_by_opcode(&t, 0x55),
        entry(InType::IN_LD, AddrMode::AM_R_R, RegType::RT_D, RegType::RT_L, CondType::CT_NONE, 0)
    );
    assert_eq!(
        instruction_by_opcode(&t, 0x56),
        entry(InType::IN_LD, AddrMode::AM_R_MR, RegType::RT_D, RegType::RT_HL, CondType::CT_NONE, 0)
    );
    assert_eq!(
        instruction_by_opcode(&t, 0x57),
        entry(InType::IN_LD, AddrMode::AM_R_R, RegType::RT_D, RegType::RT_A, CondType::CT_NONE, 0)
    );
    assert_eq!(
        instruction_by_opcode(&t, 0x58),
        entry(InType::IN_LD, AddrMode::AM_R_R, RegType::RT_E, RegType::RT_B, CondType::CT_NONE, 0)
    );
    assert_eq!(
        instruction_by_opcode(&t, 0x59),
        entry(InType::IN_LD, AddrMode::AM_R_R, RegType::RT_E, RegType::RT_C, CondType::CT_NONE, 0)
    );
    assert_eq!(
        instruction_by_opcode(&t, 0x5A),
        entry(InType::IN_LD, AddrMode::AM_R_R, RegType::RT_E, RegType::RT_D, CondType::CT_NONE, 0)
    );
    assert_eq!(
        instruction_by_opcode(&t, 0x5B),
        entry(InType::IN_LD, AddrMode::AM_R_R, RegType::RT_E, RegType::RT_E, CondType::CT_NONE, 0)
    );
    assert_eq!(
        instruction_by_opcode(&t, 0x5C),
        entry(InType::IN_LD, AddrMode::AM_R_R, RegType::RT_E, RegType::RT_H, CondType::CT_NONE, 0)
    );
    assert_eq!(
        instruction_by_opcode(&t, 0x5D),
        entry(InType::IN_LD, AddrMode::AM_R_R, RegType::RT_E, RegType::RT_L, CondType::CT_NONE, 0)
    );
    assert_eq!(
        instruction_by_opcode(&t, 0x5E),
        entry(InType::IN_LD, AddrMode::AM_R_MR, RegType::RT_E, RegType::RT_HL, CondType::CT_NONE, 0)
    );
    assert_eq!(
        instruction_by_opcode(&t, 0x5F),
        entry(InType::IN_LD, AddrMode::AM_R_R, RegType::RT_E, RegType::RT_A, CondType::CT_NONE, 0)
    );
}

#[test]
fn table_row_6_entries() {
    let t = set_instructions();
    assert_eq!(
        instruction_by_opcode(&t, 0x60),
        entry(InType::IN_LD, AddrMode::AM_R_R, RegType::RT_H, RegType::RT_B, CondType::CT_NONE, 0)
    );
    assert_eq!(
        instruction_by_opcode(&t, 0x61),
        entry(InType::IN_LD, AddrMode::AM_R_R, RegType::RT_H, RegType::RT_C, CondType::CT_NONE, 0)
    );
    assert_eq!(
        instruction_by_opcode(&t, 0x62),
        entry(InType::IN_LD, AddrMode::AM_R_R, RegType::RT_H, RegType::RT_D, CondType::CT_NONE, 0)
    );
    assert_eq!(
        instruction_by_opcode(&t, 0x63),
        entry(InType::IN_LD, AddrMode::AM_R_R, RegType::RT_H, RegType::RT_E, CondType::CT_NONE, 0)
    );
    assert_eq!(
        instruction_by_opcode(&t, 0x64),
        entry(InType::IN_LD, AddrMode::AM_R_R, RegType::RT_H, RegType::RT_H, CondType::CT_NONE, 0)
    );
    assert_eq!(
        instruction_by_opcode(&t, 0x65),
        entry(InType::IN_LD, AddrMode::AM_R_R, RegType::RT_H, RegType::RT_L, CondType::CT_NONE, 0)
    );
    assert_eq!(
        instruction_by_opcode(&t, 0x66),
        entry(InType::IN_LD, AddrMode::AM_R_MR, RegType::RT_H, RegType::RT_HL, CondType::CT_NONE, 0)
    );
    assert_eq!(
        instruction_by_opcode(&t, 0x67),
        entry(InType::IN_LD, AddrMode::AM_R_R, RegType::RT_H, RegType::RT_A, CondType::CT_NONE, 0)
    );
    assert_eq!(
        instruction_by_opcode(&t, 0x68),
        entry(InType::IN_LD, AddrMode::AM_R_R, RegType::RT_L, RegType::RT_B, CondType::CT_NONE, 0)
    );
    assert_eq!(
        instruction_by_opcode(&t, 0x69),
        entry(InType::IN_LD, AddrMode::AM_R_R, RegType::RT_L, RegType::RT_C, CondType::CT_NONE, 0)
    );
    assert_eq!(
        instruction_by_opcode(&t, 0x6A),
        entry(InType::IN_LD, AddrMode::AM_R_R, RegType::RT_L, RegType::RT_D, CondType::CT_NONE, 0)
    );
    assert_eq!(
        instruction_by_opcode(&t, 0x6B),
        entry(InType::IN_LD, AddrMode::AM_R_R, RegType::RT_L, RegType::RT_E, CondType::CT_NONE, 0)
    );
    assert_eq!(
        instruction_by_opcode(&t, 0x6C),
        entry(InType::IN_LD, AddrMode::AM_R_R, RegType::RT_L, RegType::RT_H, CondType::CT_NONE, 0)
    );
    assert_eq!(
        instruction_by_opcode(&t, 0x6D),
        entry(InType::IN_LD, AddrMode::AM_R_R, RegType::RT_L, RegType::RT_L, CondType::CT_NONE, 0)
    );
    assert_eq!(
        instruction_by_opcode(&t, 0x6E),
        entry(InType::IN_LD, AddrMode::AM_R_MR, RegType::RT_L, RegType::RT_HL, CondType::CT_NONE, 0)
    );
    assert_eq!(
        instruction_by_opcode(&t, 0x6F),
        entry(InType::IN_LD, AddrMode::AM_R_R, RegType::RT_L, RegType::RT_A, CondType::CT_NONE, 0)
    );
}

#[test]
fn table_row_7_entries() {
    let t = set_instructions();
    assert_eq!(
        instruction_by_opcode(&t, 0x70),
        entry(InType::IN_LD, AddrMode::AM_MR_R, RegType::RT_HL, RegType::RT_B, CondType::CT_NONE, 0)
    );
    assert_eq!(
        instruction_by_opcode(&t, 0x71),
        entry(InType::IN_LD, AddrMode::AM_MR_R, RegType::RT_HL, RegType::RT_C, CondType::CT_NONE, 0)
    );
    assert_eq!(
        instruction_by_opcode(&t, 0x72),
        entry(InType::IN_LD, AddrMode::AM_MR_R, RegType::RT_HL, RegType::RT_D, CondType::CT_NONE, 0)
    );
    assert_eq!(
        instruction_by_opcode(&t, 0x73),
        entry(InType::IN_LD, AddrMode::AM_MR_R, RegType::RT_HL, RegType::RT_E, CondType::CT_NONE, 0)
    );
    assert_eq!(
        instruction_by_opcode(&t, 0x74),
        entry(InType::IN_LD, AddrMode::AM_MR_R, RegType::RT_HL, RegType::RT_H, CondType::CT_NONE, 0)
    );
    assert_eq!(
        instruction_by_opcode(&t, 0x75),
        entry(InType::IN_LD, AddrMode::AM_MR_R, RegType::RT_HL, RegType::RT_L, CondType::CT_NONE, 0)
    );
    assert_eq!(
        instruction_by_opcode(&t, 0x76),
        entry(InType::IN_HALT, AddrMode::AM_IMP, RegType::RT_NONE, RegType::RT_NONE, CondType::CT_NONE, 0)
    );
    assert_eq!(
        instruction_by_opcode(&t, 0x77),
        entry(InType::IN_LD, AddrMode::AM_MR_R, RegType::RT_HL, RegType::RT_A, CondType::CT_NONE, 0)
    );
    assert_eq!(
        instruction_by_opcode(&t, 0x78),
        entry(InType::IN_LD, AddrMode::AM_R_R, RegType::RT_A, RegType::RT_B, CondType::CT_NONE, 0)
    );
    assert_eq!(
        instruction_by_opcode(&t, 0x79),
        entry(InType::IN_LD, AddrMode::AM_R_R, RegType::RT_A, RegType::RT_C, CondType::CT_NONE, 0)
    );
    assert_eq!(
        instruction_by_opcode(&t, 0x7A),
        entry(InType::IN_LD, AddrMode::AM_R_R, RegType::RT_A, RegType::RT_D, CondType::CT_NONE, 0)
    );
    assert_eq!(
        instruction_by_opcode(&t, 0x7B),
        entry(InType::IN_LD, AddrMode::AM_R_R, RegType::RT_A, RegType::RT_E, CondType::CT_NONE, 0)
    );
    assert_eq!(
        instruction_by_opcode(&t, 0x7C),
        entry(InType::IN_LD, AddrMode::AM_R_R, RegType::RT_A, RegType::RT_H, CondType::CT_NONE, 0)
    );
    assert_eq!(
        instruction_by_opcode(&t, 0x7D),
        entry(InType::IN_LD, AddrMode::AM_R_R, RegType::RT_A, RegType::RT_L, CondType::CT_NONE, 0)
    );
    assert_eq!(
        instruction_by_opcode(&t, 0x7E),
        entry(InType::IN_LD, AddrMode::AM_R_MR, RegType::RT_A, RegType::RT_HL, CondType::CT_NONE, 0)
    );
    assert_eq!(
        instruction_by_opcode(&t, 0x7F),
        entry(InType::IN_LD, AddrMode::AM_R_R, RegType::RT_A, RegType::RT_A, CondType::CT_NONE, 0)
    );
}

#[test]
fn table_row_a_entries() {
    let t = set_instructions();
    assert_eq!(
        instruction_by_opcode(&t, 0xAF),
        entry(InType::IN_XOR, AddrMode::AM_R, RegType::RT_A, RegType::RT_NONE, CondType::CT_NONE, 0)
    );
}

#[test]
fn table_row_c_entries() {
    let t = set_instructions();
    assert_eq!(
        instruction_by_opcode(&t, 0xC1),
        entry(InType::IN_POP, AddrMode::AM_R, RegType::RT_BC, RegType::RT_NONE, CondType::CT_NONE, 0)
    );
    assert_eq!(
        instruction_by_opcode(&t, 0xC3),
        entry(InType::IN_JP, AddrMode::AM_D16, RegType::RT_NONE, RegType::RT_NONE, CondType::CT_NONE, 0)
    );
    assert_eq!(
        instruction_by_opcode(&t, 0xC4),
        entry(InType::IN_CALL, AddrMode::AM_D16, RegType::RT_NONE, RegType::RT_NONE, CondType::CT_NZ, 0)
    );
    assert_eq!(
        instruction_by_opcode(&t, 0xC5),
        entry(InType::IN_PUSH, AddrMode::AM_R, RegType::RT_BC, RegType::RT_NONE, CondType::CT_NONE, 0)
    );
    assert_eq!(
        instruction_by_opcode(&t, 0xCC),
        entry(InType::IN_CALL, AddrMode::AM_D16, RegType::RT_NONE, RegType::RT_NONE, CondType::CT_Z, 0)
    );
    assert_eq!(
        instruction_by_opcode(&t, 0xCD),
        entry(InType::IN_CALL, AddrMode::AM_D16, RegType::RT_NONE, RegType::RT_NONE, CondType::CT_NONE, 0)
    );
}

#[test]
fn table_row_d_entries() {
    let t = set_instructions();
    assert_eq!(
        instruction_by_opcode(&t, 0xD1),
        entry(InType::IN_POP, AddrMode::AM_R, RegType::RT_DE, RegType::RT_NONE, CondType::CT_NONE, 0)
    );
    assert_eq!(
        instruction_by_opcode(&t, 0xD4),
        entry(InType::IN_CALL, AddrMode::AM_D16, RegType::RT_NONE, RegType::RT_NONE, CondType::CT_NC, 0)
    );
    assert_eq!(
        instruction_by_opcode(&t, 0xD5),
        entry(InType::IN_PUSH, AddrMode::AM_R, RegType::RT_DE, RegType::RT_NONE, CondType::CT_NONE, 0)
    );
    assert_eq!(
        instruction_by_opcode(&t, 0xDC),
        entry(InType::IN_CALL, AddrMode::AM_D16, RegType::RT_NONE, RegType::RT_NONE, CondType::CT_C, 0)
    );
}

#[test]
fn table_row_e_entries() {
    let t = set_instructions();
    assert_eq!(
        instruction_by_opcode(&t, 0xE0),
        entry(InType::IN_LDH, AddrMode::AM_A8_R, RegType::RT_NONE, RegType::RT_A, CondType::CT_NONE, 0)
    );
    assert_eq!(
        instruction_by_opcode(&t, 0xE1),
        entry(InType::IN_POP, AddrMode::AM_R, RegType::RT_HL, RegType::RT_NONE, CondType::CT_NONE, 0)
    );
    assert_eq!(
        instruction_by_opcode(&t, 0xEA),
        entry(InType::IN_LD, AddrMode::AM_A16_R, RegType::RT_NONE, RegType::RT_A, CondType::CT_NONE, 0)
    );
}

#[test]
fn table_row_f_entries() {
    let t = set_instructions();
    assert_eq!(
        instruction_by_opcode(&t, 0xF0),
        entry(InType::IN_LDH, AddrMode::AM_R_A8, RegType::RT_A, RegType::RT_NONE, CondType::CT_NONE, 0)
    );
    assert_eq!(
        instruction_by_opcode(&t, 0xF1),
        entry(InType::IN_POP, AddrMode::AM_R, RegType::RT_AF, RegType::RT_NONE, CondType::CT_NONE, 0)
    );
    assert_eq!(
        instruction_by_opcode(&t, 0xF2),
        entry(InType::IN_LD, AddrMode::AM_R_MR, RegType::RT_A, RegType::RT_C, CondType::CT_NONE, 0)
    );
    assert_eq!(
        instruction_by_opcode(&t, 0xF3),
        entry(InType::IN_DI, AddrMode::AM_IMP, RegType::RT_NONE, RegType::RT_NONE, CondType::CT_NONE, 0)
    );
    assert_eq!(
        instruction_by_opcode(&t, 0xFA),
        entry(InType::IN_LD, AddrMode::AM_R_A16, RegType::RT_A, RegType::RT_NONE, CondType::CT_NONE, 0)
    );
}

#[test]
fn undefined_opcodes_have_no_instruction() {
    let t = set_instructions();
    let undefined: [u8; 11] = [0xD3, 0xDB, 0xDD, 0xE3, 0xE4, 0xEB, 0xEC, 0xED, 0xF4, 0xFC, 0xFD];
    for code in undefined {
        assert_eq!(instruction_by_opcode(&t, code), None);
    }
}

#[test]
fn every_other_opcode_has_an_instruction() {
    let t = set_instructions();
    let undefined: [u8; 11] = [0xD3, 0xDB, 0xDD, 0xE3, 0xE4, 0xEB, 0xEC, 0xED, 0xF4, 0xFC, 0xFD];
    let mut defined = 0;
    for code in 0..=255u8 {
        match instruction_by_opcode(&t, code) {
            Some(inst) => {
                assert!(!undefined.contains(&code));
                assert_ne!(inst.i_type, InType::IN_NONE);
                defined += 1;
            }
            None => assert!(undefined.contains(&code)),
        }
    }
    assert_eq!(defined, 245);
}

#[test]
fn table_entries_are_the_lookup_results() {
    let t = set_instructions();
    for code in 0..=255u8 {
        let raw = t.entries[code as usize];
        match instruction_by_opcode(&t, code) {
            Some(inst) => assert_eq!(inst, raw),
            None => assert_eq!(
                Some(raw),
                entry(
                    InType::IN_NONE,
                    AddrMode::AM_IMP,
                    RegType::RT_NONE,
                    RegType::RT_NONE,
                    CondType::CT_NONE,
                    0
                )
            ),
        }
    }
}

#[test]
fn decrement_of_the_byte_at_hl_is_a_memory_operation() {
    let t = set_instructions();
    assert_eq!(
        instruction_by_opcode(&t, 0x35),
        entry(InType::IN_DEC, AddrMode::AM_MR, RegType::RT_HL, RegType::RT_NONE, CondType::CT_NONE, 0)
    );
    assert_eq!(
        instruction_by_opcode(&t, 0x34),
        entry(InType::IN_INC, AddrMode::AM_MR, RegType::RT_HL, RegType::RT_NONE, CondType::CT_NONE, 0)
    );
}

#[test]
fn store_through_c_is_a_store() {
    let t = set_instructions();
    assert_eq!(
        instruction_by_opcode(&t, 0xE2),
        entry(InType::IN_LD, AddrMode::AM_MR_R, RegType::RT_C, RegType::RT_A, CondType::CT_NONE, 0)
    );
}

#[test]
fn push_hl_and_push_af_have_their_own_opcodes() {
    let t = set_instructions();
    assert_eq!(
        instruction_by_opcode(&t, 0xE5),
        entry(InType::IN_PUSH, AddrMode::AM_R, RegType::RT_HL, RegType::RT_NONE, CondType::CT_NONE, 0)
    );
    assert_eq!(
        instruction_by_opcode(&t, 0xF5),
        entry(InType::IN_PUSH, AddrMode::AM_R, RegType::RT_AF, RegType::RT_NONE, CondType::CT_NONE, 0)
    );
}

#[test]
fn increments_and_decrements() {
    let t = set_instructions();
    assert_eq!(
        instruction_by_opcode(&t, 0x03),
        entry(InType::IN_INC, AddrMode::AM_R, RegType::RT_BC, RegType::RT_NONE, CondType::CT_NONE, 0)
    );
    assert_eq!(
        instruction_by_opcode(&t, 0x04),
        entry(InType::IN_INC, AddrMode::AM_R, RegType::RT_B, RegType::RT_NONE, CondType::CT_NONE, 0)
    );
    assert_eq!(
        instruction_by_opcode(&t, 0x3B),
        entry(InType::IN_DEC, AddrMode::AM_R, RegType::RT_SP, RegType::RT_NONE, CondType::CT_NONE, 0)
    );
    assert_eq!(
        instruction_by_opcode(&t, 0x3C),
        entry(InType::IN_INC, AddrMode::AM_R, RegType::RT_A, RegType::RT_NONE, CondType::CT_NONE, 0)
    );
}

#[test]
fn relative_jumps() {
    let t = set_instructions();
    let jr = |cond| entry(InType::IN_JR, AddrMode::AM_D8, RegType::RT_NONE, RegType::RT_NONE, cond, 0);
    assert_eq!(instruction_by_opcode(&t, 0x18), jr(CondType::CT_NONE));
    assert_eq!(instruction_by_opcode(&t, 0x20), jr(CondType::CT_NZ));
    assert_eq!(instruction_by_opcode(&t, 0x28), jr(CondType::CT_Z));
    assert_eq!(instruction_by_opcode(&t, 0x30), jr(CondType::CT_NC));
    assert_eq!(instruction_by_opcode(&t, 0x38), jr(CondType::CT_C));
}

#[test]
fn jumps_and_returns() {
    let t = set_instructions();
    let op = |kind, mode, cond| entry(kind, mode, RegType::RT_NONE, RegType::RT_NONE, cond, 0);
    assert_eq!(instruction_by_opcode(&t, 0xC2), op(InType::IN_JP, AddrMode::AM_D16, CondType::CT_NZ));
    assert_eq!(instruction_by_opcode(&t, 0xCA), op(InType::IN_JP, AddrMode::AM_D16, CondType::CT_Z));
    assert_eq!(instruction_by_opcode(&t, 0xD2), op(InType::IN_JP, AddrMode::AM_D16, CondType::CT_NC));
    assert_eq!(instruction_by_opcode(&t, 0xDA), op(InType::IN_JP, AddrMode::AM_D16, CondType::CT_C));
    assert_eq!(instruction_by_opcode(&t, 0xC0), op(InType::IN_RET, AddrMode::AM_IMP, CondType::CT_NZ));
    assert_eq!(instruction_by_opcode(&t, 0xC8), op(InType::IN_RET, AddrMode::AM_IMP, CondType::CT_Z));
    assert_eq!(instruction_by_opcode(&t, 0xC9), op(InType::IN_RET, AddrMode::AM_IMP, CondType::CT_NONE));
    assert_eq!(instruction_by_opcode(&t, 0xD0), op(InType::IN_RET, AddrMode::AM_IMP, CondType::CT_NC));
    assert_eq!(instruction_by_opcode(&t, 0xD8), op(InType::IN_RET, AddrMode::AM_IMP, CondType::CT_C));
    assert_eq!(instruction_by_opcode(&t, 0xD9), op(InType::IN_RETI, AddrMode::AM_IMP, CondType::CT_NONE));
    assert_eq!(instruction_by_opcode(&t, 0xCB), op(InType::IN_CB, AddrMode::AM_D8, CondType::CT_NONE));
    assert_eq!(instruction_by_opcode(&t, 0xFB), op(InType::IN_EI, AddrMode::AM_IMP, CondType::CT_NONE));
    assert_eq!(
        instruction_by_opcode(&t, 0xE9),
        entry(InType::IN_JP, AddrMode::AM_R, RegType::RT_HL, RegType::RT_NONE, CondType::CT_NONE, 0)
    );
}

#[test]
fn restarts_name_their_address() {
    let t = set_instructions();
    let targets: [(u8, u8); 8] = [
        (0xC7, 0x00),
        (0xCF, 0x08),
        (0xD7, 0x10),
        (0xDF, 0x18),
        (0xE7, 0x20),
        (0xEF, 0x28),
        (0xF7, 0x30),
        (0xFF, 0x38),
    ];
    for (code, target) in targets {
        assert_eq!(
            instruction_by_opcode(&t, code),
            entry(
                InType::IN_RST,
                AddrMode::AM_IMP,
                RegType::RT_NONE,
                RegType::RT_NONE,
                CondType::CT_NONE,
                target
            )
        );
    }
}

#[test]
fn accumulator_operations_by_row() {
    let t = set_instructions();
    let kinds: [(u8, InType); 8] = [
        (0x80, InType::IN_ADD),
        (0x88, InType::IN_ADC),
        (0x90, InType::IN_SUB),
        (0x98, InType::IN_SBC),
        (0xA0, InType::IN_AND),
        (0xA8, InType::IN_XOR),
        (0xB0, InType::IN_OR),
        (0xB8, InType::IN_CP),
    ];
    let sources: [RegType; 6] =
        [RegType::RT_B, RegType::RT_C, RegType::RT_D, RegType::RT_E, RegType::RT_H, RegType::RT_L];
    for (base, kind) in kinds {
        for (i, source) in sources.iter().enumerate() {
            assert_eq!(
                instruction_by_opcode(&t, base + i as u8),
                entry(kind, AddrMode::AM_R_R, RegType::RT_A, *source, CondType::CT_NONE, 0)
            );
        }
        assert_eq!(
            instruction_by_opcode(&t, base + 6),
            entry(kind, AddrMode::AM_R_MR, RegType::RT_A, RegType::RT_HL, CondType::CT_NONE, 0)
        );
    }
    assert_eq!(
        instruction_by_opcode(&t, 0x87),
        entry(InType::IN_ADD, AddrMode::AM_R_R, RegType::RT_A, RegType::RT_A, CondType::CT_NONE, 0)
    );
}

#[test]
fn accumulator_operations_with_an_immediate() {
    let t = set_instructions();
    let kinds: [(u8, InType); 8] = [
        (0xC6, InType::IN_ADD),
        (0xCE, InType::IN_ADC),
        (0xD6, InType::IN_SUB),
        (0xDE, InType::IN_SBC),
        (0xE6, InType::IN_AND),
        (0xEE, InType::IN_XOR),
        (0xF6, InType::IN_OR),
        (0xFE, InType::IN_CP),
    ];
    for (code, kind) in kinds {
        assert_eq!(
            instruction_by_opcode(&t, code),
            entry(kind, AddrMode::AM_R_D8, RegType::RT_A, RegType::RT_NONE, CondType::CT_NONE, 0)
        );
    }
}

#[test]
fn wide_arithmetic_and_stack_pointer_loads() {
    let t = set_instructions();
    assert_eq!(
        instruction_by_opcode(&t, 0x09),
        entry(InType::IN_ADD, AddrMode::AM_R_R, RegType::RT_HL, RegType::RT_BC, CondType::CT_NONE, 0)
    );
    assert_eq!(
        instruction_by_opcode(&t, 0x39),
        entry(InType::IN_ADD, AddrMode::AM_R_R, RegType::RT_HL, RegType::RT_SP, CondType::CT_NONE, 0)
    );
    assert_eq!(
        instruction_by_opcode(&t, 0xE8),
        entry(InType::IN_ADD, AddrMode::AM_R_D8, RegType::RT_SP, RegType::RT_NONE, CondType::CT_NONE, 0)
    );
    assert_eq!(
        instruction_by_opcode(&t, 0xF8),
        entry(InType::IN_LD, AddrMode::AM_HL_SPR, RegType::RT_HL, RegType::RT_SP, CondType::CT_NONE, 0)
    );
    assert_eq!(
        instruction_by_opcode(&t, 0xF9),
        entry(InType::IN_LD, AddrMode::AM_R_R, RegType::RT_SP, RegType::RT_HL, CondType::CT_NONE, 0)
    );
}

#[test]
fn operations_without_operands() {
    let t = set_instructions();
    let plain = |kind| {
        entry(kind, AddrMode::AM_IMP, RegType::RT_NONE, RegType::RT_NONE, CondType::CT_NONE, 0)
    };
    assert_eq!(instruction_by_opcode(&t, 0x07), plain(InType::IN_RLCA));
    assert_eq!(instruction_by_opcode(&t, 0x0F), plain(InType::IN_RRCA));
    assert_eq!(instruction_by_opcode(&t, 0x10), plain(InType::IN_STOP));
    assert_eq!(instruction_by_opcode(&t, 0x17), plain(InType::IN_RLA));
    assert_eq!(instruction_by_opcode(&t, 0x1F), plain(InType::IN_RRA));
    assert_eq!(instruction_by_opcode(&t, 0x27), plain(InType::IN_DAA));
    assert_eq!(instruction_by_opcode(&t, 0x2F), plain(InType::IN_CPL));
    assert_eq!(instruction_by_opcode(&t, 0x37), plain(InType::IN_SCF));
    assert_eq!(instruction_by_opcode(&t, 0x3F), plain(InType::IN_CCF));
}

#[test]
fn wide_registers() {
    assert!(RegType::RT_AF.is_16bit());
    assert!(RegType::RT_BC.is_16bit());
    assert!(RegType::RT_DE.is_16bit());
    assert!(RegType::RT_HL.is_16bit());
    assert!(RegType::RT_SP.is_16bit());
    assert!(RegType::RT_PC.is_16bit());
    assert!(!RegType::RT_NONE.is_16bit());
    assert!(!RegType::RT_A.is_16bit());
    assert!(!RegType::RT_F.is_16bit());
    assert!(!RegType::RT_B.is_16bit());
    assert!(!RegType::RT_C.is_16bit());
    assert!(!RegType::RT_D.is_16bit());
    assert!(!RegType::RT_E.is_16bit());
    assert!(!RegType::RT_H.is_16bit());
    assert!(!RegType::RT_L.is_16bit());
}

fn on_bit(i_type: InType, mode: AddrMode, reg: RegType, bit: u8) -> Instruction {
    Instruction {
        i_type,
        mode,
        reg_1: reg,
        reg_2: RegType::RT_NONE,
        cond: CondType::CT_NONE,
        param: bit,
    }
}

#[test]
fn prefixed_rotates_and_shifts() {
    let t = set_instructions();
    let cases: [(u8, InType, RegType); 10] = [
        (0x00, InType::IN_RLC, RegType::RT_B),
        (0x09, InType::IN_RRC, RegType::RT_C),
        (0x11, InType::IN_RL, RegType::RT_C),
        (0x1A, InType::IN_RR, RegType::RT_D),
        (0x23, InType::IN_SLA, RegType::RT_E),
        (0x27, InType::IN_SLA, RegType::RT_A),
        (0x2C, InType::IN_SRA, RegType::RT_H),
        (0x35, InType::IN_SWAP, RegType::RT_L),
        (0x37, InType::IN_SWAP, RegType::RT_A),
        (0x3F, InType::IN_SRL, RegType::RT_A),
    ];
    for (code, kind, reg) in cases {
        assert_eq!(
            instruction_by_prefixed_opcode(&t, code),
            on_bit(kind, AddrMode::AM_R, reg, 0)
        );
    }
}

#[test]
fn prefixed_bit_operations() {
    let t = set_instructions();
    let cases: [(u8, InType, RegType, u8); 9] = [
        (0x40, InType::IN_BIT, RegType::RT_B, 0),
        (0x4F, InType::IN_BIT, RegType::RT_A, 1),
        (0x7C, InType::IN_BIT, RegType::RT_H, 7),
        (0x80, InType::IN_RES, RegType::RT_B, 0),
        (0x87, InType::IN_RES, RegType::RT_A, 0),
        (0xAB, InType::IN_RES, RegType::RT_E, 5),
        (0xC0, InType::IN_SET, RegType::RT_B, 0),
        (0xDA, InType::IN_SET, RegType::RT_D, 3),
        (0xFF, InType::IN_SET, RegType::RT_A, 7),
    ];
    for (code, kind, reg, bit) in cases {
        assert_eq!(
            instruction_by_prefixed_opcode(&t, code),
            on_bit(kind, AddrMode::AM_R, reg, bit)
        );
    }
}

#[test]
fn prefixed_operations_on_the_byte_at_hl() {
    let t = set_instructions();
    let cases: [(u8, InType, u8); 6] = [
        (0x06, InType::IN_RLC, 0),
        (0x2E, InType::IN_SRA, 0),
        (0x36, InType::IN_SWAP, 0),
        (0x7E, InType::IN_BIT, 7),
        (0xBE, InType::IN_RES, 7),
        (0xC6, InType::IN_SET, 0),
    ];
    for (code, kind, bit) in cases {
        assert_eq!(
            instruction_by_prefixed_opcode(&t, code),
            on_bit(kind, AddrMode::AM_MR, RegType::RT_HL, bit)
        );
    }
}

#[test]
fn every_prefixed_opcode_is_defined() {
    let t = set_instructions();
    for code in 0..=255u8 {
        let inst = instruction_by_prefixed_opcode(&t, code);
        assert_ne!(inst.i_type, InType::IN_NONE);
        assert_eq!(inst.reg_2, RegType::RT_NONE);
        assert_eq!(inst.cond, CondType::CT_NONE);
        assert_eq!(inst, t.prefixed[code as usize]);
        if code < 0x40 {
            assert_eq!(inst.param, 0);
        } else {
            assert_eq!(inst.param, (code >> 3) & 7);
        }
    }
}

#[test]
fn increments_and_decrements_of_wide_registers_have_both_low_bits_set() {
    let t = set_instructions();
    let mut seen = 0;
    for code in 0..=255u8 {
        if let Some(inst) = instruction_by_opcode(&t, code) {
            if inst.i_type == InType::IN_INC || inst.i_type == InType::IN_DEC {
                seen += 1;
                let wide_register = inst.mode == AddrMode::AM_R && inst.reg_1.is_16bit();
                assert_eq!(code & 0x03 == 0x03, wide_register);
                if inst.i_type == InType::IN_DEC {
                    assert_eq!(code & 0x0B == 0x0B, wide_register);
                }
            }
        }
    }
    assert_eq!(seen, 24);
}
