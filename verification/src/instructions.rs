//! The opcode table: one descriptor per opcode byte, giving the operation
//! kind, the operand shape, the registers involved, the branch condition
//! and a fixed parameter.

use vstd::prelude::*;

verus! {

/// The shape of an instruction's operands: which registers, immediates or
/// memory cells it reads, and where its result goes.
#[allow(non_camel_case_types)]
#[derive(Debug, Clone, Copy, PartialEq, Eq, Structural)]
pub enum AddrMode {
    AM_IMP,
    AM_R_D16,
    AM_R_R,
    AM_MR_R,
    AM_R,
    AM_R_D8,
    AM_R_MR,
    AM_R_HLI,
    AM_R_HLD,
    AM_HLI_R,
    AM_HLD_R,
    AM_R_A8,
    AM_A8_R,
    AM_HL_SPR,
    AM_D16,
    AM_D8,
    AM_D16_R,
    AM_MR_D8,
    AM_MR,
    AM_A16_R,
    AM_R_A16,
}

/// A register operand: one of the eight-bit registers, a pair, SP or PC.
#[allow(non_camel_case_types)]
#[derive(Debug, Clone, Copy, PartialEq, Eq, Structural)]
pub enum RegType {
    RT_NONE,
    RT_A,
    RT_F,
    RT_B,
    RT_C,
    RT_D,
    RT_E,
    RT_H,
    RT_L,
    RT_AF,
    RT_BC,
    RT_DE,
    RT_HL,
    RT_SP,
    RT_PC,
}

impl RegType {
    /// Whether the operand is sixteen bits wide.
    pub open spec fn wide(self) -> bool {
        self == RegType::RT_AF || self == RegType::RT_BC || self == RegType::RT_DE || self
            == RegType::RT_HL || self == RegType::RT_SP || self == RegType::RT_PC
    }

    /// Whether the operand is a register pair, the stack pointer or the
    /// program counter.
    pub fn is_16bit(self) -> (r: bool)
        ensures
            r == self.wide(),
    {
        match self {
            RegType::RT_AF
            | RegType::RT_BC
            | RegType::RT_DE
            | RegType::RT_HL
            | RegType::RT_SP
            | RegType::RT_PC => true,
            _ => false,
        }
    }
}

/// The operation an instruction performs.
#[allow(non_camel_case_types)]
#[derive(Debug, Clone, Copy, PartialEq, Eq, Structural)]
pub enum InType {
    IN_NONE,
    IN_NOP,
    IN_LD,
    IN_INC,
    IN_DEC,
    IN_RLCA,
    IN_ADD,
    IN_RRCA,
    IN_STOP,
    IN_RLA,
    IN_JR,
    IN_RRA,
    IN_DAA,
    IN_CPL,
    IN_SCF,
    IN_CCF,
    IN_HALT,
    IN_ADC,
    IN_SUB,
    IN_SBC,
    IN_AND,
    IN_XOR,
    IN_OR,
    IN_CP,
    IN_POP,
    IN_JP,
    IN_PUSH,
    IN_RET,
    IN_CB,
    IN_CALL,
    IN_RETI,
    IN_LDH,
    IN_JPHL,
    IN_DI,
    IN_EI,
    IN_RST,
    IN_ERR,
    IN_RLC,
    IN_RRC,
    IN_RL,
    IN_RR,
    IN_SLA,
    IN_SRA,
    IN_SWAP,
    IN_SRL,
    IN_BIT,
    IN_RES,
    IN_SET,
}

/// The flag test that guards a jump, call or return.
#[allow(non_camel_case_types)]
#[derive(Debug, Clone, Copy, PartialEq, Eq, Structural)]
pub enum CondType {
    CT_NONE,
    CT_NZ,
    CT_Z,
    CT_NC,
    CT_C,
}

/// One entry of the opcode table.
#[derive(Debug, Clone, Copy, PartialEq, Eq, Structural)]
pub struct Instruction {
    pub i_type: InType,
    pub mode: AddrMode,
    pub reg_1: RegType,
    pub reg_2: RegType,
    pub cond: CondType,
    pub param: u8,
}

/// The descriptor with the given operation, operand shape and registers,
/// unconditional and without parameter.
pub open spec fn operand_entry(i_type: InType, mode: AddrMode, reg_1: RegType, reg_2: RegType)
    -> Instruction {
    Instruction { i_type, mode, reg_1, reg_2, cond: CondType::CT_NONE, param: 0 }
}

/// The descriptor of an operation without register operands, guarded by `cond`.
pub open spec fn branch_entry(i_type: InType, mode: AddrMode, cond: CondType) -> Instruction {
    Instruction {
        i_type,
        mode,
        reg_1: RegType::RT_NONE,
        reg_2: RegType::RT_NONE,
        cond,
        param: 0,
    }
}

/// The descriptor of an operation without operands.
pub open spec fn plain_entry(i_type: InType) -> Instruction {
    branch_entry(i_type, AddrMode::AM_IMP, CondType::CT_NONE)
}

/// The descriptor of a restart to the fixed address `param`.
pub open spec fn restart_entry(param: u8) -> Instruction {
    Instruction {
        i_type: InType::IN_RST,
        mode: AddrMode::AM_IMP,
        reg_1: RegType::RT_NONE,
        reg_2: RegType::RT_NONE,
        cond: CondType::CT_NONE,
        param,
    }
}

/// The eight-bit operand that the three-bit field `i` of an opcode selects;
/// field value 6 stands for the byte that HL points to.
pub open spec fn byte_operand(i: int) -> RegType {
    if i == 0 {
        RegType::RT_B
    } else if i == 1 {
        RegType::RT_C
    } else if i == 2 {
        RegType::RT_D
    } else if i == 3 {
        RegType::RT_E
    } else if i == 4 {
        RegType::RT_H
    } else if i == 5 {
        RegType::RT_L
    } else if i == 6 {
        RegType::RT_HL
    } else {
        RegType::RT_A
    }
}

/// The register pair that the two-bit field `i` selects in loads and arithmetic.
pub open spec fn pair_operand(i: int) -> RegType {
    if i == 0 {
        RegType::RT_BC
    } else if i == 1 {
        RegType::RT_DE
    } else if i == 2 {
        RegType::RT_HL
    } else {
        RegType::RT_SP
    }
}

/// The register pair that the two-bit field `i` selects in pushes and pops.
pub open spec fn stack_operand(i: int) -> RegType {
    if i == 3 {
        RegType::RT_AF
    } else {
        pair_operand(i)
    }
}

/// The branch condition that the two-bit field `i` selects.
pub open spec fn condition(i: int) -> CondType {
    if i == 0 {
        CondType::CT_NZ
    } else if i == 1 {
        CondType::CT_Z
    } else if i == 2 {
        CondType::CT_NC
    } else {
        CondType::CT_C
    }
}

/// The accumulator operation that the three-bit field `i` selects.
pub open spec fn accumulator_op(i: int) -> InType {
    if i == 0 {
        InType::IN_ADD
    } else if i == 1 {
        InType::IN_ADC
    } else if i == 2 {
        InType::IN_SUB
    } else if i == 3 {
        InType::IN_SBC
    } else if i == 4 {
        InType::IN_AND
    } else if i == 5 {
        InType::IN_XOR
    } else if i == 6 {
        InType::IN_OR
    } else {
        InType::IN_CP
    }
}

/// The operation without operands that the field `i` selects in the
/// column of rotates and flag adjustments.
pub open spec fn adjust_op(i: int) -> InType {
    if i == 0 {
        InType::IN_RLCA
    } else if i == 1 {
        InType::IN_RRCA
    } else if i == 2 {
        InType::IN_RLA
    } else if i == 3 {
        InType::IN_RRA
    } else if i == 4 {
        InType::IN_DAA
    } else if i == 5 {
        InType::IN_CPL
    } else if i == 6 {
        InType::IN_SCF
    } else {
        InType::IN_CCF
    }
}

/// Opcodes `0x00..=0x3F`: immediates, pair arithmetic, indirect loads
/// through a pair, increments and decrements, rotates and flag adjustments.
pub open spec fn low_entry(y: int, z: int) -> Instruction {
    let p = y / 2;
    let q = y % 2;
    if z == 0 {
        if y == 0 {
            plain_entry(InType::IN_NOP)
        } else if y == 1 {
            operand_entry(InType::IN_LD, AddrMode::AM_A16_R, RegType::RT_NONE, RegType::RT_SP)
        } else if y == 2 {
            plain_entry(InType::IN_STOP)
        } else if y == 3 {
            branch_entry(InType::IN_JR, AddrMode::AM_D8, CondType::CT_NONE)
        } else {
            branch_entry(InType::IN_JR, AddrMode::AM_D8, condition(y - 4))
        }
    } else if z == 1 {
        if q == 0 {
            operand_entry(InType::IN_LD, AddrMode::AM_R_D16, pair_operand(p), RegType::RT_NONE)
        } else {
            operand_entry(InType::IN_ADD, AddrMode::AM_R_R, RegType::RT_HL, pair_operand(p))
        }
    } else if z == 2 {
        if q == 0 {
            if p == 2 {
                operand_entry(InType::IN_LD, AddrMode::AM_HLI_R, RegType::RT_HL, RegType::RT_A)
            } else if p == 3 {
                operand_entry(InType::IN_LD, AddrMode::AM_HLD_R, RegType::RT_HL, RegType::RT_A)
            } else {
                operand_entry(InType::IN_LD, AddrMode::AM_MR_R, pair_operand(p), RegType::RT_A)
            }
        } else {
            if p == 2 {
                operand_entry(InType::IN_LD, AddrMode::AM_R_HLI, RegType::RT_A, RegType::RT_HL)
            } else if p == 3 {
                operand_entry(InType::IN_LD, AddrMode::AM_R_HLD, RegType::RT_A, RegType::RT_HL)
            } else {
                operand_entry(InType::IN_LD, AddrMode::AM_R_MR, RegType::RT_A, pair_operand(p))
            }
        }
    } else if z == 3 {
        operand_entry(
            if q == 0 {
                InType::IN_INC
            } else {
                InType::IN_DEC
            },
            AddrMode::AM_R,
            pair_operand(p),
            RegType::RT_NONE,
        )
    } else if z == 4 || z == 5 {
        operand_entry(
            if z == 4 {
                InType::IN_INC
            } else {
                InType::IN_DEC
            },
            if y == 6 {
                AddrMode::AM_MR
            } else {
                AddrMode::AM_R
            },
            byte_operand(y),
            RegType::RT_NONE,
        )
    } else if z == 6 {
        operand_entry(
            InType::IN_LD,
            if y == 6 {
                AddrMode::AM_MR_D8
            } else {
                AddrMode::AM_R_D8
            },
            byte_operand(y),
            RegType::RT_NONE,
        )
    } else {
        plain_entry(adjust_op(y))
    }
}

/// Opcodes `0x40..=0x7F`: loads between eight-bit operands, with HALT in
/// the place of a load from memory to memory.
pub open spec fn load_entry(y: int, z: int) -> Instruction {
    if y == 6 && z == 6 {
        plain_entry(InType::IN_HALT)
    } else if z == 6 {
        operand_entry(InType::IN_LD, AddrMode::AM_R_MR, byte_operand(y), RegType::RT_HL)
    } else if y == 6 {
        operand_entry(InType::IN_LD, AddrMode::AM_MR_R, RegType::RT_HL, byte_operand(z))
    } else {
        operand_entry(InType::IN_LD, AddrMode::AM_R_R, byte_operand(y), byte_operand(z))
    }
}

/// Opcodes `0x80..=0xBF`: the accumulator combined with an eight-bit
/// operand. The exclusive-or of the accumulator with itself is listed as an
/// operation on the single register A.
pub open spec fn accumulator_entry(y: int, z: int) -> Instruction {
    if y == 5 && z == 7 {
        operand_entry(InType::IN_XOR, AddrMode::AM_R, RegType::RT_A, RegType::RT_NONE)
    } else if z == 6 {
        operand_entry(accumulator_op(y), AddrMode::AM_R_MR, RegType::RT_A, RegType::RT_HL)
    } else {
        operand_entry(accumulator_op(y), AddrMode::AM_R_R, RegType::RT_A, byte_operand(z))
    }
}

/// Opcodes `0xC0..=0xFF`: returns, jumps, calls, restarts, the stack, the
/// page of addresses from `0xFF00`, and the accumulator combined with an
/// immediate byte. Eleven of them are not defined.
pub open spec fn high_entry(y: int, z: int) -> Instruction {
    let p = y / 2;
    let q = y % 2;
    if z == 0 {
        if y < 4 {
            branch_entry(InType::IN_RET, AddrMode::AM_IMP, condition(y))
        } else if y == 4 {
            operand_entry(InType::IN_LDH, AddrMode::AM_A8_R, RegType::RT_NONE, RegType::RT_A)
        } else if y == 5 {
            operand_entry(InType::IN_ADD, AddrMode::AM_R_D8, RegType::RT_SP, RegType::RT_NONE)
        } else if y == 6 {
            operand_entry(InType::IN_LDH, AddrMode::AM_R_A8, RegType::RT_A, RegType::RT_NONE)
        } else {
            operand_entry(InType::IN_LD, AddrMode::AM_HL_SPR, RegType::RT_HL, RegType::RT_SP)
        }
    } else if z == 1 {
        if q == 0 {
            operand_entry(InType::IN_POP, AddrMode::AM_R, stack_operand(p), RegType::RT_NONE)
        } else if p == 0 {
            plain_entry(InType::IN_RET)
        } else if p == 1 {
            plain_entry(InType::IN_RETI)
        } else if p == 2 {
            operand_entry(InType::IN_JP, AddrMode::AM_R, RegType::RT_HL, RegType::RT_NONE)
        } else {
            operand_entry(InType::IN_LD, AddrMode::AM_R_R, RegType::RT_SP, RegType::RT_HL)
        }
    } else if z == 2 {
        if y < 4 {
            branch_entry(InType::IN_JP, AddrMode::AM_D16, condition(y))
        } else if y == 4 {
            operand_entry(InType::IN_LD, AddrMode::AM_MR_R, RegType::RT_C, RegType::RT_A)
        } else if y == 5 {
            operand_entry(InType::IN_LD, AddrMode::AM_A16_R, RegType::RT_NONE, RegType::RT_A)
        } else if y == 6 {
            operand_entry(InType::IN_LD, AddrMode::AM_R_MR, RegType::RT_A, RegType::RT_C)
        } else {
            operand_entry(InType::IN_LD, AddrMode::AM_R_A16, RegType::RT_A, RegType::RT_NONE)
        }
    } else if z == 3 {
        if y == 0 {
            branch_entry(InType::IN_JP, AddrMode::AM_D16, CondType::CT_NONE)
        } else if y == 1 {
            branch_entry(InType::IN_CB, AddrMode::AM_D8, CondType::CT_NONE)
        } else if y == 6 {
            plain_entry(InType::IN_DI)
        } else if y == 7 {
            plain_entry(InType::IN_EI)
        } else {
            plain_entry(InType::IN_NONE)
        }
    } else if z == 4 {
        if y < 4 {
            branch_entry(InType::IN_CALL, AddrMode::AM_D16, condition(y))
        } else {
            plain_entry(InType::IN_NONE)
        }
    } else if z == 5 {
        if q == 0 {
            operand_entry(InType::IN_PUSH, AddrMode::AM_R, stack_operand(p), RegType::RT_NONE)
        } else if p == 0 {
            branch_entry(InType::IN_CALL, AddrMode::AM_D16, CondType::CT_NONE)
        } else {
            plain_entry(InType::IN_NONE)
        }
    } else if z == 6 {
        operand_entry(accumulator_op(y), AddrMode::AM_R_D8, RegType::RT_A, RegType::RT_NONE)
    } else {
        restart_entry((y * 8) as u8)
    }
}

/// The descriptor of opcode `code`. The two top bits of the opcode select
/// the quarter of the table, the next three bits the field `y` and the
/// last three bits the field `z`. An opcode that is not defined has the
/// kind `IN_NONE`.
pub open spec fn opcode_entry(code: u8) -> Instruction {
    let x = code as int / 64;
    let y = (code as int / 8) % 8;
    let z = code as int % 8;
    if x == 0 {
        low_entry(y, z)
    } else if x == 1 {
        load_entry(y, z)
    } else if x == 2 {
        accumulator_entry(y, z)
    } else {
        high_entry(y, z)
    }
}

/// The rotate or shift that the three-bit field `i` selects among the
/// opcodes that follow the prefix `0xCB`.
pub open spec fn shift_op(i: int) -> InType {
    if i == 0 {
        InType::IN_RLC
    } else if i == 1 {
        InType::IN_RRC
    } else if i == 2 {
        InType::IN_RL
    } else if i == 3 {
        InType::IN_RR
    } else if i == 4 {
        InType::IN_SLA
    } else if i == 5 {
        InType::IN_SRA
    } else if i == 6 {
        InType::IN_SWAP
    } else {
        InType::IN_SRL
    }
}

/// The descriptor of an operation on the single eight-bit operand
/// `reg`, with the bit number `bit` as its parameter. The operand HL
/// stands for the byte that HL points to.
pub open spec fn bit_entry(i_type: InType, reg: RegType, bit: u8) -> Instruction {
    Instruction {
        i_type,
        mode: if reg == RegType::RT_HL {
            AddrMode::AM_MR
        } else {
            AddrMode::AM_R
        },
        reg_1: reg,
        reg_2: RegType::RT_NONE,
        cond: CondType::CT_NONE,
        param: bit,
    }
}

/// The descriptor of the opcode `code` that follows the prefix `0xCB`.
/// The two top bits select rotates and shifts, bit tests, bit resets or
/// bit sets; the next three bits select the rotate or shift, or else the
/// bit; the last three bits select the operand. All 256 are defined.
pub open spec fn prefixed_entry(code: u8) -> Instruction {
    let x = code as int / 64;
    let y = (code as int / 8) % 8;
    let z = code as int % 8;
    if x == 0 {
        bit_entry(shift_op(y), byte_operand(z), 0)
    } else if x == 1 {
        bit_entry(InType::IN_BIT, byte_operand(z), y as u8)
    } else if x == 2 {
        bit_entry(InType::IN_RES, byte_operand(z), y as u8)
    } else {
        bit_entry(InType::IN_SET, byte_operand(z), y as u8)
    }
}

/// Whether `code` is one of the eleven opcodes without an instruction.
pub open spec fn undefined_opcode(code: u8) -> bool {
    code == 0xD3 || code == 0xDB || code == 0xDD || code == 0xE3 || code == 0xE4 || code == 0xEB
        || code == 0xEC || code == 0xED || code == 0xF4 || code == 0xFC || code == 0xFD
}

/// The instruction that opcode `code` stands for, or nothing where the
/// opcode is not defined.
pub open spec fn decode(code: u8) -> Option<Instruction> {
    if opcode_entry(code).i_type == InType::IN_NONE {
        None
    } else {
        Some(opcode_entry(code))
    }
}

/// The table of the 256 opcodes, and of the 256 opcodes that follow the
/// prefix `0xCB`.
pub struct InstructionTable {
    pub entries: [Instruction; 256],
    pub prefixed: [Instruction; 256],
}

impl InstructionTable {
    /// Every entry is the descriptor of its index.
    pub open spec fn wf(&self) -> bool {
        &&& forall|i: int| 0 <= i < 256 ==> #[trigger] self.entries[i] == opcode_entry(i as u8)
        &&& forall|i: int| 0 <= i < 256 ==> #[trigger] self.prefixed[i] == prefixed_entry(i as u8)
    }

    /// What a lookup of `code` gives: the entry at index `code`, or
    /// nothing where that entry has the kind `IN_NONE`.
    pub open spec fn lookup(&self, code: u8) -> Option<Instruction> {
        if self.entries[code as int].i_type == InType::IN_NONE {
            None
        } else {
            Some(self.entries[code as int])
        }
    }
}

/// Makes the descriptor of an operation on registers.
fn operand(i_type: InType, mode: AddrMode, reg_1: RegType, reg_2: RegType) -> (r: Instruction)
    ensures
        r == operand_entry(i_type, mode, reg_1, reg_2),
{
    Instruction { i_type, mode, reg_1, reg_2, cond: CondType::CT_NONE, param: 0 }
}

/// Makes the descriptor of an operation guarded by a condition.
fn branch(i_type: InType, mode: AddrMode, cond: CondType) -> (r: Instruction)
    ensures
        r == branch_entry(i_type, mode, cond),
{
    Instruction { i_type, mode, reg_1: RegType::RT_NONE, reg_2: RegType::RT_NONE, cond, param: 0 }
}

/// Makes the descriptor of an operation without operands.
fn plain(i_type: InType) -> (r: Instruction)
    ensures
        r == plain_entry(i_type),
{
    branch(i_type, AddrMode::AM_IMP, CondType::CT_NONE)
}

/// Makes the descriptor of an operation on one operand and one bit.
fn on_bit(i_type: InType, reg: RegType, bit: u8) -> (r: Instruction)
    ensures
        r == bit_entry(i_type, reg, bit),
{
    let mode = if reg == RegType::RT_HL {
        AddrMode::AM_MR
    } else {
        AddrMode::AM_R
    };
    Instruction { i_type, mode, reg_1: reg, reg_2: RegType::RT_NONE, cond: CondType::CT_NONE, param: bit }
}

/// Makes the descriptor of a restart.
fn restart(param: u8) -> (r: Instruction)
    ensures
        r == restart_entry(param),
{
    Instruction {
        i_type: InType::IN_RST,
        mode: AddrMode::AM_IMP,
        reg_1: RegType::RT_NONE,
        reg_2: RegType::RT_NONE,
        cond: CondType::CT_NONE,
        param,
    }
}

/// Fills in opcodes `0x00..=0x0F`.
fn set_row_0(t: &mut [Instruction; 256])
    ensures
        forall|i: int| 0x00 <= i < 0x10 ==> #[trigger] final(t)[i] == opcode_entry(i as u8),
        forall|i: int| 0 <= i < 256 && !(0x00 <= i < 0x10) ==> #[trigger] final(t)[i] == old(t)[i],
{
    t[0x00] = plain(InType::IN_NOP);
    t[0x01] = operand(InType::IN_LD, AddrMode::AM_R_D16, RegType::RT_BC, RegType::RT_NONE);
    t[0x02] = operand(InType::IN_LD, AddrMode::AM_MR_R, RegType::RT_BC, RegType::RT_A);
    t[0x03] = operand(InType::IN_INC, AddrMode::AM_R, RegType::RT_BC, RegType::RT_NONE);
    t[0x04] = operand(InType::IN_INC, AddrMode::AM_R, RegType::RT_B, RegType::RT_NONE);
    t[0x05] = operand(InType::IN_DEC, AddrMode::AM_R, RegType::RT_B, RegType::RT_NONE);
    t[0x06] = operand(InType::IN_LD, AddrMode::AM_R_D8, RegType::RT_B, RegType::RT_NONE);
    t[0x07] = plain(InType::IN_RLCA);
    t[0x08] = operand(InType::IN_LD, AddrMode::AM_A16_R, RegType::RT_NONE, RegType::RT_SP);
    t[0x09] = operand(InType::IN_ADD, AddrMode::AM_R_R, RegType::RT_HL, RegType::RT_BC);
    t[0x0A] = operand(InType::IN_LD, AddrMode::AM_R_MR, RegType::RT_A, RegType::RT_BC);
    t[0x0B] = operand(InType::IN_DEC, AddrMode::AM_R, RegType::RT_BC, RegType::RT_NONE);
    t[0x0C] = operand(InType::IN_INC, AddrMode::AM_R, RegType::RT_C, RegType::RT_NONE);
    t[0x0D] = operand(InType::IN_DEC, AddrMode::AM_R, RegType::RT_C, RegType::RT_NONE);
    t[0x0E] = operand(InType::IN_LD, AddrMode::AM_R_D8, RegType::RT_C, RegType::RT_NONE);
    t[0x0F] = plain(InType::IN_RRCA);
}

/// Fills in opcodes `0x10..=0x1F`.
fn set_row_1(t: &mut [Instruction; 256])
    ensures
        forall|i: int| 0x10 <= i < 0x20 ==> #[trigger] final(t)[i] == opcode_entry(i as u8),
        forall|i: int| 0 <= i < 256 && !(0x10 <= i < 0x20) ==> #[trigger] final(t)[i] == old(t)[i],
{
    t[0x10] = plain(InType::IN_STOP);
    t[0x11] = operand(InType::IN_LD, AddrMode::AM_R_D16, RegType::RT_DE, RegType::RT_NONE);
    t[0x12] = operand(InType::IN_LD, AddrMode::AM_MR_R, RegType::RT_DE, RegType::RT_A);
    t[0x13] = operand(InType::IN_INC, AddrMode::AM_R, RegType::RT_DE, RegType::RT_NONE);
    t[0x14] = operand(InType::IN_INC, AddrMode::AM_R, RegType::RT_D, RegType::RT_NONE);
    t[0x15] = operand(InType::IN_DEC, AddrMode::AM_R, RegType::RT_D, RegType::RT_NONE);
    t[0x16] = operand(InType::IN_LD, AddrMode::AM_R_D8, RegType::RT_D, RegType::RT_NONE);
    t[0x17] = plain(InType::IN_RLA);
    t[0x18] = branch(InType::IN_JR, AddrMode::AM_D8, CondType::CT_NONE);
    t[0x19] = operand(InType::IN_ADD, AddrMode::AM_R_R, RegType::RT_HL, RegType::RT_DE);
    t[0x1A] = operand(InType::IN_LD, AddrMode::AM_R_MR, RegType::RT_A, RegType::RT_DE);
    t[0x1B] = operand(InType::IN_DEC, AddrMode::AM_R, RegType::RT_DE, RegType::RT_NONE);
    t[0x1C] = operand(InType::IN_INC, AddrMode::AM_R, RegType::RT_E, RegType::RT_NONE);
    t[0x1D] = operand(InType::IN_DEC, AddrMode::AM_R, RegType::RT_E, RegType::RT_NONE);
    t[0x1E] = operand(InType::IN_LD, AddrMode::AM_R_D8, RegType::RT_E, RegType::RT_NONE);
    t[0x1F] = plain(InType::IN_RRA);
}

/// Fills in opcodes `0x20..=0x2F`.
fn set_row_2(t: &mut [Instruction; 256])
    ensures
        forall|i: int| 0x20 <= i < 0x30 ==> #[trigger] final(t)[i] == opcode_entry(i as u8),
        forall|i: int| 0 <= i < 256 && !(0x20 <= i < 0x30) ==> #[trigger] final(t)[i] == old(t)[i],
{
    t[0x20] = branch(InType::IN_JR, AddrMode::AM_D8, CondType::CT_NZ);
    t[0x21] = operand(InType::IN_LD, AddrMode::AM_R_D16, RegType::RT_HL, RegType::RT_NONE);
    t[0x22] = operand(InType::IN_LD, AddrMode::AM_HLI_R, RegType::RT_HL, RegType::RT_A);
    t[0x23] = operand(InType::IN_INC, AddrMode::AM_R, RegType::RT_HL, RegType::RT_NONE);
    t[0x24] = operand(InType::IN_INC, AddrMode::AM_R, RegType::RT_H, RegType::RT_NONE);
    t[0x25] = operand(InType::IN_DEC, AddrMode::AM_R, RegType::RT_H, RegType::RT_NONE);
    t[0x26] = operand(InType::IN_LD, AddrMode::AM_R_D8, RegType::RT_H, RegType::RT_NONE);
    t[0x27] = plain(InType::IN_DAA);
    t[0x28] = branch(InType::IN_JR, AddrMode::AM_D8, CondType::CT_Z);
    t[0x29] = operand(InType::IN_ADD, AddrMode::AM_R_R, RegType::RT_HL, RegType::RT_HL);
    t[0x2A] = operand(InType::IN_LD, AddrMode::AM_R_HLI, RegType::RT_A, RegType::RT_HL);
    t[0x2B] = operand(InType::IN_DEC, AddrMode::AM_R, RegType::RT_HL, RegType::RT_NONE);
    t[0x2C] = operand(InType::IN_INC, AddrMode::AM_R, RegType::RT_L, RegType::RT_NONE);
    t[0x2D] = operand(InType::IN_DEC, AddrMode::AM_R, RegType::RT_L, RegType::RT_NONE);
    t[0x2E] = operand(InType::IN_LD, AddrMode::AM_R_D8, RegType::RT_L, RegType::RT_NONE);
    t[0x2F] = plain(InType::IN_CPL);
}

/// Fills in opcodes `0x30..=0x3F`.
fn set_row_3(t: &mut [Instruction; 256])
    ensures
        forall|i: int| 0x30 <= i < 0x40 ==> #[trigger] final(t)[i] == opcode_entry(i as u8),
        forall|i: int| 0 <= i < 256 && !(0x30 <= i < 0x40) ==> #[trigger] final(t)[i] == old(t)[i],
{
    t[0x30] = branch(InType::IN_JR, AddrMode::AM_D8, CondType::CT_NC);
    t[0x31] = operand(InType::IN_LD, AddrMode::AM_R_D16, RegType::RT_SP, RegType::RT_NONE);
    t[0x32] = operand(InType::IN_LD, AddrMode::AM_HLD_R, RegType::RT_HL, RegType::RT_A);
    t[0x33] = operand(InType::IN_INC, AddrMode::AM_R, RegType::RT_SP, RegType::RT_NONE);
    t[0x34] = operand(InType::IN_INC, AddrMode::AM_MR, RegType::RT_HL, RegType::RT_NONE);
    t[0x35] = operand(InType::IN_DEC, AddrMode::AM_MR, RegType::RT_HL, RegType::RT_NONE);
    t[0x36] = operand(InType::IN_LD, AddrMode::AM_MR_D8, RegType::RT_HL, RegType::RT_NONE);
    t[0x37] = plain(InType::IN_SCF);
    t[0x38] = branch(InType::IN_JR, AddrMode::AM_D8, CondType::CT_C);
    t[0x39] = operand(InType::IN_ADD, AddrMode::AM_R_R, RegType::RT_HL, RegType::RT_SP);
    t[0x3A] = operand(InType::IN_LD, AddrMode::AM_R_HLD, RegType::RT_A, RegType::RT_HL);
    t[0x3B] = operand(InType::IN_DEC, AddrMode::AM_R, RegType::RT_SP, RegType::RT_NONE);
    t[0x3C] = operand(InType::IN_INC, AddrMode::AM_R, RegType::RT_A, RegType::RT_NONE);
    t[0x3D] = operand(InType::IN_DEC, AddrMode::AM_R, RegType::RT_A, RegType::RT_NONE);
    t[0x3E] = operand(InType::IN_LD, AddrMode::AM_R_D8, RegType::RT_A, RegType::RT_NONE);
    t[0x3F] = plain(InType::IN_CCF);
}

/// Fills in opcodes `0x40..=0x4F`.
fn set_row_4(t: &mut [Instruction; 256])
    ensures
        forall|i: int| 0x40 <= i < 0x50 ==> #[trigger] final(t)[i] == opcode_entry(i as u8),
        forall|i: int| 0 <= i < 256 && !(0x40 <= i < 0x50) ==> #[trigger] final(t)[i] == old(t)[i],
{
    t[0x40] = operand(InType::IN_LD, AddrMode::AM_R_R, RegType::RT_B, RegType::RT_B);
    t[0x41] = operand(InType::IN_LD, AddrMode::AM_R_R, RegType::RT_B, RegType::RT_C);
    t[0x42] = operand(InType::IN_LD, AddrMode::AM_R_R, RegType::RT_B, RegType::RT_D);
    t[0x43] = operand(InType::IN_LD, AddrMode::AM_R_R, RegType::RT_B, RegType::RT_E);
    t[0x44] = operand(InType::IN_LD, AddrMode::AM_R_R, RegType::RT_B, RegType::RT_H);
    t[0x45] = operand(InType::IN_LD, AddrMode::AM_R_R, RegType::RT_B, RegType::RT_L);
    t[0x46] = operand(InType::IN_LD, AddrMode::AM_R_MR, RegType::RT_B, RegType::RT_HL);
    t[0x47] = operand(InType::IN_LD, AddrMode::AM_R_R, RegType::RT_B, RegType::RT_A);
    t[0x48] = operand(InType::IN_LD, AddrMode::AM_R_R, RegType::RT_C, RegType::RT_B);
    t[0x49] = operand(InType::IN_LD, AddrMode::AM_R_R, RegType::RT_C, RegType::RT_C);
    t[0x4A] = operand(InType::IN_LD, AddrMode::AM_R_R, RegType::RT_C, RegType::RT_D);
    t[0x4B] = operand(InType::IN_LD, AddrMode::AM_R_R, RegType::RT_C, RegType::RT_E);
    t[0x4C] = operand(InType::IN_LD, AddrMode::AM_R_R, RegType::RT_C, RegType::RT_H);
    t[0x4D] = operand(InType::IN_LD, AddrMode::AM_R_R, RegType::RT_C, RegType::RT_L);
    t[0x4E] = operand(InType::IN_LD, AddrMode::AM_R_MR, RegType::RT_C, RegType::RT_HL);
    t[0x4F] = operand(InType::IN_LD, AddrMode::AM_R_R, RegType::RT_C, RegType::RT_A);
}

/// Fills in opcodes `0x50..=0x5F`.
fn set_row_5(t: &mut [Instruction; 256])
    ensures
        forall|i: int| 0x50 <= i < 0x60 ==> #[trigger] final(t)[i] == opcode_entry(i as u8),
        forall|i: int| 0 <= i < 256 && !(0x50 <= i < 0x60) ==> #[trigger] final(t)[i] == old(t)[i],
{
    t[0x50] = operand(InType::IN_LD, AddrMode::AM_R_R, RegType::RT_D, RegType::RT_B);
    t[0x51] = operand(InType::IN_LD, AddrMode::AM_R_R, RegType::RT_D, RegType::RT_C);
    t[0x52] = operand(InType::IN_LD, AddrMode::AM_R_R, RegType::RT_D, RegType::RT_D);
    t[0x53] = operand(InType::IN_LD, AddrMode::AM_R_R, RegType::RT_D, RegType::RT_E);
    t[0x54] = operand(InType::IN_LD, AddrMode::AM_R_R, RegType::RT_D, RegType::RT_H);
    t[0x55] = operand(InType::IN_LD, AddrMode::AM_R_R, RegType::RT_D, RegType::RT_L);
    t[0x56] = operand(InType::IN_LD, AddrMode::AM_R_MR, RegType::RT_D, RegType::RT_HL);
    t[0x57] = operand(InType::IN_LD, AddrMode::AM_R_R, RegType::RT_D, RegType::RT_A);
    t[0x58] = operand(InType::IN_LD, AddrMode::AM_R_R, RegType::RT_E, RegType::RT_B);
    t[0x59] = operand(InType::IN_LD, AddrMode::AM_R_R, RegType::RT_E, RegType::RT_C);
    t[0x5A] = operand(InType::IN_LD, AddrMode::AM_R_R, RegType::RT_E, RegType::RT_D);
    t[0x5B] = operand(InType::IN_LD, AddrMode::AM_R_R, RegType::RT_E, RegType::RT_E);
    t[0x5C] = operand(InType::IN_LD, AddrMode::AM_R_R, RegType::RT_E, RegType::RT_H);
    t[0x5D] = operand(InType::IN_LD, AddrMode::AM_R_R, RegType::RT_E, RegType::RT_L);
    t[0x5E] = operand(InType::IN_LD, AddrMode::AM_R_MR, RegType::RT_E, RegType::RT_HL);
    t[0x5F] = operand(InType::IN_LD, AddrMode::AM_R_R, RegType::RT_E, RegType::RT_A);
}

/// Fills in opcodes `0x60..=0x6F`.
fn set_row_6(t: &mut [Instruction; 256])
    ensures
        forall|i: int| 0x60 <= i < 0x70 ==> #[trigger] final(t)[i] == opcode_entry(i as u8),
        forall|i: int| 0 <= i < 256 && !(0x60 <= i < 0x70) ==> #[trigger] final(t)[i] == old(t)[i],
{
    t[0x60] = operand(InType::IN_LD, AddrMode::AM_R_R, RegType::RT_H, RegType::RT_B);
    t[0x61] = operand(InType::IN_LD, AddrMode::AM_R_R, RegType::RT_H, RegType::RT_C);
    t[0x62] = operand(InType::IN_LD, AddrMode::AM_R_R, RegType::RT_H, RegType::RT_D);
    t[0x63] = operand(InType::IN_LD, AddrMode::AM_R_R, RegType::RT_H, RegType::RT_E);
    t[0x64] = operand(InType::IN_LD, AddrMode::AM_R_R, RegType::RT_H, RegType::RT_H);
    t[0x65] = operand(InType::IN_LD, AddrMode::AM_R_R, RegType::RT_H, RegType::RT_L);
    t[0x66] = operand(InType::IN_LD, AddrMode::AM_R_MR, RegType::RT_H, RegType::RT_HL);
    t[0x67] = operand(InType::IN_LD, AddrMode::AM_R_R, RegType::RT_H, RegType::RT_A);
    t[0x68] = operand(InType::IN_LD, AddrMode::AM_R_R, RegType::RT_L, RegType::RT_B);
    t[0x69] = operand(InType::IN_LD, AddrMode::AM_R_R, RegType::RT_L, RegType::RT_C);
    t[0x6A] = operand(InType::IN_LD, AddrMode::AM_R_R, RegType::RT_L, RegType::RT_D);
    t[0x6B] = operand(InType::IN_LD, AddrMode::AM_R_R, RegType::RT_L, RegType::RT_E);
    t[0x6C] = operand(InType::IN_LD, AddrMode::AM_R_R, RegType::RT_L, RegType::RT_H);
    t[0x6D] = operand(InType::IN_LD, AddrMode::AM_R_R, RegType::RT_L, RegType::RT_L);
    t[0x6E] = operand(InType::IN_LD, AddrMode::AM_R_MR, RegType::RT_L, RegType::RT_HL);
    t[0x6F] = operand(InType::IN_LD, AddrMode::AM_R_R, RegType::RT_L, RegType::RT_A);
}

/// Fills in opcodes `0x70..=0x7F`.
fn set_row_7(t: &mut [Instruction; 256])
    ensures
        forall|i: int| 0x70 <= i < 0x80 ==> #[trigger] final(t)[i] == opcode_entry(i as u8),
        forall|i: int| 0 <= i < 256 && !(0x70 <= i < 0x80) ==> #[trigger] final(t)[i] == old(t)[i],
{
    t[0x70] = operand(InType::IN_LD, AddrMode::AM_MR_R, RegType::RT_HL, RegType::RT_B);
    t[0x71] = operand(InType::IN_LD, AddrMode::AM_MR_R, RegType::RT_HL, RegType::RT_C);
    t[0x72] = operand(InType::IN_LD, AddrMode::AM_MR_R, RegType::RT_HL, RegType::RT_D);
    t[0x73] = operand(InType::IN_LD, AddrMode::AM_MR_R, RegType::RT_HL, RegType::RT_E);
    t[0x74] = operand(InType::IN_LD, AddrMode::AM_MR_R, RegType::RT_HL, RegType::RT_H);
    t[0x75] = operand(InType::IN_LD, AddrMode::AM_MR_R, RegType::RT_HL, RegType::RT_L);
    t[0x76] = plain(InType::IN_HALT);
    t[0x77] = operand(InType::IN_LD, AddrMode::AM_MR_R, RegType::RT_HL, RegType::RT_A);
    t[0x78] = operand(InType::IN_LD, AddrMode::AM_R_R, RegType::RT_A, RegType::RT_B);
    t[0x79] = operand(InType::IN_LD, AddrMode::AM_R_R, RegType::RT_A, RegType::RT_C);
    t[0x7A] = operand(InType::IN_LD, AddrMode::AM_R_R, RegType::RT_A, RegType::RT_D);
    t[0x7B] = operand(InType::IN_LD, AddrMode::AM_R_R, RegType::RT_A, RegType::RT_E);
    t[0x7C] = operand(InType::IN_LD, AddrMode::AM_R_R, RegType::RT_A, RegType::RT_H);
    t[0x7D] = operand(InType::IN_LD, AddrMode::AM_R_R, RegType::RT_A, RegType::RT_L);
    t[0x7E] = operand(InType::IN_LD, AddrMode::AM_R_MR, RegType::RT_A, RegType::RT_HL);
    t[0x7F] = operand(InType::IN_LD, AddrMode::AM_R_R, RegType::RT_A, RegType::RT_A);
}

/// Fills in opcodes `0x80..=0x8F`.
fn set_row_8(t: &mut [Instruction; 256])
    ensures
        forall|i: int| 0x80 <= i < 0x90 ==> #[trigger] final(t)[i] == opcode_entry(i as u8),
        forall|i: int| 0 <= i < 256 && !(0x80 <= i < 0x90) ==> #[trigger] final(t)[i] == old(t)[i],
{
    t[0x80] = operand(InType::IN_ADD, AddrMode::AM_R_R, RegType::RT_A, RegType::RT_B);
    t[0x81] = operand(InType::IN_ADD, AddrMode::AM_R_R, RegType::RT_A, RegType::RT_C);
    t[0x82] = operand(InType::IN_ADD, AddrMode::AM_R_R, RegType::RT_A, RegType::RT_D);
    t[0x83] = operand(InType::IN_ADD, AddrMode::AM_R_R, RegType::RT_A, RegType::RT_E);
    t[0x84] = operand(InType::IN_ADD, AddrMode::AM_R_R, RegType::RT_A, RegType::RT_H);
    t[0x85] = operand(InType::IN_ADD, AddrMode::AM_R_R, RegType::RT_A, RegType::RT_L);
    t[0x86] = operand(InType::IN_ADD, AddrMode::AM_R_MR, RegType::RT_A, RegType::RT_HL);
    t[0x87] = operand(InType::IN_ADD, AddrMode::AM_R_R, RegType::RT_A, RegType::RT_A);
    t[0x88] = operand(InType::IN_ADC, AddrMode::AM_R_R, RegType::RT_A, RegType::RT_B);
    t[0x89] = operand(InType::IN_ADC, AddrMode::AM_R_R, RegType::RT_A, RegType::RT_C);
    t[0x8A] = operand(InType::IN_ADC, AddrMode::AM_R_R, RegType::RT_A, RegType::RT_D);
    t[0x8B] = operand(InType::IN_ADC, AddrMode::AM_R_R, RegType::RT_A, RegType::RT_E);
    t[0x8C] = operand(InType::IN_ADC, AddrMode::AM_R_R, RegType::RT_A, RegType::RT_H);
    t[0x8D] = operand(InType::IN_ADC, AddrMode::AM_R_R, RegType::RT_A, RegType::RT_L);
    t[0x8E] = operand(InType::IN_ADC, AddrMode::AM_R_MR, RegType::RT_A, RegType::RT_HL);
    t[0x8F] = operand(InType::IN_ADC, AddrMode::AM_R_R, RegType::RT_A, RegType::RT_A);
}

/// Fills in opcodes `0x90..=0x9F`.
fn set_row_9(t: &mut [Instruction; 256])
    ensures
        forall|i: int| 0x90 <= i < 0xA0 ==> #[trigger] final(t)[i] == opcode_entry(i as u8),
        forall|i: int| 0 <= i < 256 && !(0x90 <= i < 0xA0) ==> #[trigger] final(t)[i] == old(t)[i],
{
    t[0x90] = operand(InType::IN_SUB, AddrMode::AM_R_R, RegType::RT_A, RegType::RT_B);
    t[0x91] = operand(InType::IN_SUB, AddrMode::AM_R_R, RegType::RT_A, RegType::RT_C);
    t[0x92] = operand(InType::IN_SUB, AddrMode::AM_R_R, RegType::RT_A, RegType::RT_D);
    t[0x93] = operand(InType::IN_SUB, AddrMode::AM_R_R, RegType::RT_A, RegType::RT_E);
    t[0x94] = operand(InType::IN_SUB, AddrMode::AM_R_R, RegType::RT_A, RegType::RT_H);
    t[0x95] = operand(InType::IN_SUB, AddrMode::AM_R_R, RegType::RT_A, RegType::RT_L);
    t[0x96] = operand(InType::IN_SUB, AddrMode::AM_R_MR, RegType::RT_A, RegType::RT_HL);
    t[0x97] = operand(InType::IN_SUB, AddrMode::AM_R_R, RegType::RT_A, RegType::RT_A);
    t[0x98] = operand(InType::IN_SBC, AddrMode::AM_R_R, RegType::RT_A, RegType::RT_B);
    t[0x99] = operand(InType::IN_SBC, AddrMode::AM_R_R, RegType::RT_A, RegType::RT_C);
    t[0x9A] = operand(InType::IN_SBC, AddrMode::AM_R_R, RegType::RT_A, RegType::RT_D);
    t[0x9B] = operand(InType::IN_SBC, AddrMode::AM_R_R, RegType::RT_A, RegType::RT_E);
    t[0x9C] = operand(InType::IN_SBC, AddrMode::AM_R_R, RegType::RT_A, RegType::RT_H);
    t[0x9D] = operand(InType::IN_SBC, AddrMode::AM_R_R, RegType::RT_A, RegType::RT_L);
    t[0x9E] = operand(InType::IN_SBC, AddrMode::AM_R_MR, RegType::RT_A, RegType::RT_HL);
    t[0x9F] = operand(InType::IN_SBC, AddrMode::AM_R_R, RegType::RT_A, RegType::RT_A);
}

/// Fills in opcodes `0xA0..=0xAF`.
fn set_row_a(t: &mut [Instruction; 256])
    ensures
        forall|i: int| 0xA0 <= i < 0xB0 ==> #[trigger] final(t)[i] == opcode_entry(i as u8),
        forall|i: int| 0 <= i < 256 && !(0xA0 <= i < 0xB0) ==> #[trigger] final(t)[i] == old(t)[i],
{
    t[0xA0] = operand(InType::IN_AND, AddrMode::AM_R_R, RegType::RT_A, RegType::RT_B);
    t[0xA1] = operand(InType::IN_AND, AddrMode::AM_R_R, RegType::RT_A, RegType::RT_C);
    t[0xA2] = operand(InType::IN_AND, AddrMode::AM_R_R, RegType::RT_A, RegType::RT_D);
    t[0xA3] = operand(InType::IN_AND, AddrMode::AM_R_R, RegType::RT_A, RegType::RT_E);
    t[0xA4] = operand(InType::IN_AND, AddrMode::AM_R_R, RegType::RT_A, RegType::RT_H);
    t[0xA5] = operand(InType::IN_AND, AddrMode::AM_R_R, RegType::RT_A, RegType::RT_L);
    t[0xA6] = operand(InType::IN_AND, AddrMode::AM_R_MR, RegType::RT_A, RegType::RT_HL);
    t[0xA7] = operand(InType::IN_AND, AddrMode::AM_R_R, RegType::RT_A, RegType::RT_A);
    t[0xA8] = operand(InType::IN_XOR, AddrMode::AM_R_R, RegType::RT_A, RegType::RT_B);
    t[0xA9] = operand(InType::IN_XOR, AddrMode::AM_R_R, RegType::RT_A, RegType::RT_C);
    t[0xAA] = operand(InType::IN_XOR, AddrMode::AM_R_R, RegType::RT_A, RegType::RT_D);
    t[0xAB] = operand(InType::IN_XOR, AddrMode::AM_R_R, RegType::RT_A, RegType::RT_E);
    t[0xAC] = operand(InType::IN_XOR, AddrMode::AM_R_R, RegType::RT_A, RegType::RT_H);
    t[0xAD] = operand(InType::IN_XOR, AddrMode::AM_R_R, RegType::RT_A, RegType::RT_L);
    t[0xAE] = operand(InType::IN_XOR, AddrMode::AM_R_MR, RegType::RT_A, RegType::RT_HL);
    t[0xAF] = operand(InType::IN_XOR, AddrMode::AM_R, RegType::RT_A, RegType::RT_NONE);
}

/// Fills in opcodes `0xB0..=0xBF`.
fn set_row_b(t: &mut [Instruction; 256])
    ensures
        forall|i: int| 0xB0 <= i < 0xC0 ==> #[trigger] final(t)[i] == opcode_entry(i as u8),
        forall|i: int| 0 <= i < 256 && !(0xB0 <= i < 0xC0) ==> #[trigger] final(t)[i] == old(t)[i],
{
    t[0xB0] = operand(InType::IN_OR, AddrMode::AM_R_R, RegType::RT_A, RegType::RT_B);
    t[0xB1] = operand(InType::IN_OR, AddrMode::AM_R_R, RegType::RT_A, RegType::RT_C);
    t[0xB2] = operand(InType::IN_OR, AddrMode::AM_R_R, RegType::RT_A, RegType::RT_D);
    t[0xB3] = operand(InType::IN_OR, AddrMode::AM_R_R, RegType::RT_A, RegType::RT_E);
    t[0xB4] = operand(InType::IN_OR, AddrMode::AM_R_R, RegType::RT_A, RegType::RT_H);
    t[0xB5] = operand(InType::IN_OR, AddrMode::AM_R_R, RegType::RT_A, RegType::RT_L);
    t[0xB6] = operand(InType::IN_OR, AddrMode::AM_R_MR, RegType::RT_A, RegType::RT_HL);
    t[0xB7] = operand(InType::IN_OR, AddrMode::AM_R_R, RegType::RT_A, RegType::RT_A);
    t[0xB8] = operand(InType::IN_CP, AddrMode::AM_R_R, RegType::RT_A, RegType::RT_B);
    t[0xB9] = operand(InType::IN_CP, AddrMode::AM_R_R, RegType::RT_A, RegType::RT_C);
    t[0xBA] = operand(InType::IN_CP, AddrMode::AM_R_R, RegType::RT_A, RegType::RT_D);
    t[0xBB] = operand(InType::IN_CP, AddrMode::AM_R_R, RegType::RT_A, RegType::RT_E);
    t[0xBC] = operand(InType::IN_CP, AddrMode::AM_R_R, RegType::RT_A, RegType::RT_H);
    t[0xBD] = operand(InType::IN_CP, AddrMode::AM_R_R, RegType::RT_A, RegType::RT_L);
    t[0xBE] = operand(InType::IN_CP, AddrMode::AM_R_MR, RegType::RT_A, RegType::RT_HL);
    t[0xBF] = operand(InType::IN_CP, AddrMode::AM_R_R, RegType::RT_A, RegType::RT_A);
}

/// Fills in opcodes `0xC0..=0xCF`.
fn set_row_c(t: &mut [Instruction; 256])
    ensures
        forall|i: int| 0xC0 <= i < 0xD0 ==> #[trigger] final(t)[i] == opcode_entry(i as u8),
        forall|i: int| 0 <= i < 256 && !(0xC0 <= i < 0xD0) ==> #[trigger] final(t)[i] == old(t)[i],
{
    t[0xC0] = branch(InType::IN_RET, AddrMode::AM_IMP, CondType::CT_NZ);
    t[0xC1] = operand(InType::IN_POP, AddrMode::AM_R, RegType::RT_BC, RegType::RT_NONE);
    t[0xC2] = branch(InType::IN_JP, AddrMode::AM_D16, CondType::CT_NZ);
    t[0xC3] = branch(InType::IN_JP, AddrMode::AM_D16, CondType::CT_NONE);
    t[0xC4] = branch(InType::IN_CALL, AddrMode::AM_D16, CondType::CT_NZ);
    t[0xC5] = operand(InType::IN_PUSH, AddrMode::AM_R, RegType::RT_BC, RegType::RT_NONE);
    t[0xC6] = operand(InType::IN_ADD, AddrMode::AM_R_D8, RegType::RT_A, RegType::RT_NONE);
    t[0xC7] = restart(0x00);
    t[0xC8] = branch(InType::IN_RET, AddrMode::AM_IMP, CondType::CT_Z);
    t[0xC9] = plain(InType::IN_RET);
    t[0xCA] = branch(InType::IN_JP, AddrMode::AM_D16, CondType::CT_Z);
    t[0xCB] = branch(InType::IN_CB, AddrMode::AM_D8, CondType::CT_NONE);
    t[0xCC] = branch(InType::IN_CALL, AddrMode::AM_D16, CondType::CT_Z);
    t[0xCD] = branch(InType::IN_CALL, AddrMode::AM_D16, CondType::CT_NONE);
    t[0xCE] = operand(InType::IN_ADC, AddrMode::AM_R_D8, RegType::RT_A, RegType::RT_NONE);
    t[0xCF] = restart(0x08);
}

/// Fills in opcodes `0xD0..=0xDF`.
fn set_row_d(t: &mut [Instruction; 256])
    requires
        forall|i: int| 0xD0 <= i < 0xE0 ==> #[trigger] old(t)[i] == plain_entry(InType::IN_NONE),
    ensures
        forall|i: int| 0xD0 <= i < 0xE0 ==> #[trigger] final(t)[i] == opcode_entry(i as u8),
        forall|i: int| 0 <= i < 256 && !(0xD0 <= i < 0xE0) ==> #[trigger] final(t)[i] == old(t)[i],
{
    t[0xD0] = branch(InType::IN_RET, AddrMode::AM_IMP, CondType::CT_NC);
    t[0xD1] = operand(InType::IN_POP, AddrMode::AM_R, RegType::RT_DE, RegType::RT_NONE);
    t[0xD2] = branch(InType::IN_JP, AddrMode::AM_D16, CondType::CT_NC);
    t[0xD4] = branch(InType::IN_CALL, AddrMode::AM_D16, CondType::CT_NC);
    t[0xD5] = operand(InType::IN_PUSH, AddrMode::AM_R, RegType::RT_DE, RegType::RT_NONE);
    t[0xD6] = operand(InType::IN_SUB, AddrMode::AM_R_D8, RegType::RT_A, RegType::RT_NONE);
    t[0xD7] = restart(0x10);
    t[0xD8] = branch(InType::IN_RET, AddrMode::AM_IMP, CondType::CT_C);
    t[0xD9] = plain(InType::IN_RETI);
    t[0xDA] = branch(InType::IN_JP, AddrMode::AM_D16, CondType::CT_C);
    t[0xDC] = branch(InType::IN_CALL, AddrMode::AM_D16, CondType::CT_C);
    t[0xDE] = operand(InType::IN_SBC, AddrMode::AM_R_D8, RegType::RT_A, RegType::RT_NONE);
    t[0xDF] = restart(0x18);
}

/// Fills in opcodes `0xE0..=0xEF`.
fn set_row_e(t: &mut [Instruction; 256])
    requires
        forall|i: int| 0xE0 <= i < 0xF0 ==> #[trigger] old(t)[i] == plain_entry(InType::IN_NONE),
    ensures
        forall|i: int| 0xE0 <= i < 0xF0 ==> #[trigger] final(t)[i] == opcode_entry(i as u8),
        forall|i: int| 0 <= i < 256 && !(0xE0 <= i < 0xF0) ==> #[trigger] final(t)[i] == old(t)[i],
{
    t[0xE0] = operand(InType::IN_LDH, AddrMode::AM_A8_R, RegType::RT_NONE, RegType::RT_A);
    t[0xE1] = operand(InType::IN_POP, AddrMode::AM_R, RegType::RT_HL, RegType::RT_NONE);
    t[0xE2] = operand(InType::IN_LD, AddrMode::AM_MR_R, RegType::RT_C, RegType::RT_A);
    t[0xE5] = operand(InType::IN_PUSH, AddrMode::AM_R, RegType::RT_HL, RegType::RT_NONE);
    t[0xE6] = operand(InType::IN_AND, AddrMode::AM_R_D8, RegType::RT_A, RegType::RT_NONE);
    t[0xE7] = restart(0x20);
    t[0xE8] = operand(InType::IN_ADD, AddrMode::AM_R_D8, RegType::RT_SP, RegType::RT_NONE);
    t[0xE9] = operand(InType::IN_JP, AddrMode::AM_R, RegType::RT_HL, RegType::RT_NONE);
    t[0xEA] = operand(InType::IN_LD, AddrMode::AM_A16_R, RegType::RT_NONE, RegType::RT_A);
    t[0xEE] = operand(InType::IN_XOR, AddrMode::AM_R_D8, RegType::RT_A, RegType::RT_NONE);
    t[0xEF] = restart(0x28);
}

/// Fills in opcodes `0xF0..=0xFF`.
fn set_row_f(t: &mut [Instruction; 256])
    requires
        forall|i: int| 0xF0 <= i < 0x100 ==> #[trigger] old(t)[i] == plain_entry(InType::IN_NONE),
    ensures
        forall|i: int| 0xF0 <= i < 0x100 ==> #[trigger] final(t)[i] == opcode_entry(i as u8),
        forall|i: int| 0 <= i < 256 && !(0xF0 <= i < 0x100) ==> #[trigger] final(t)[i] == old(t)[i],
{
    t[0xF0] = operand(InType::IN_LDH, AddrMode::AM_R_A8, RegType::RT_A, RegType::RT_NONE);
    t[0xF1] = operand(InType::IN_POP, AddrMode::AM_R, RegType::RT_AF, RegType::RT_NONE);
    t[0xF2] = operand(InType::IN_LD, AddrMode::AM_R_MR, RegType::RT_A, RegType::RT_C);
    t[0xF3] = plain(InType::IN_DI);
    t[0xF5] = operand(InType::IN_PUSH, AddrMode::AM_R, RegType::RT_AF, RegType::RT_NONE);
    t[0xF6] = operand(InType::IN_OR, AddrMode::AM_R_D8, RegType::RT_A, RegType::RT_NONE);
    t[0xF7] = restart(0x30);
    t[0xF8] = operand(InType::IN_LD, AddrMode::AM_HL_SPR, RegType::RT_HL, RegType::RT_SP);
    t[0xF9] = operand(InType::IN_LD, AddrMode::AM_R_R, RegType::RT_SP, RegType::RT_HL);
    t[0xFA] = operand(InType::IN_LD, AddrMode::AM_R_A16, RegType::RT_A, RegType::RT_NONE);
    t[0xFB] = plain(InType::IN_EI);
    t[0xFE] = operand(InType::IN_CP, AddrMode::AM_R_D8, RegType::RT_A, RegType::RT_NONE);
    t[0xFF] = restart(0x38);
}

/// Fills in the prefixed opcodes `0x00..=0x0F`.
fn set_prefixed_row_0(t: &mut [Instruction; 256])
    ensures
        forall|i: int| 0x00 <= i < 0x10 ==> #[trigger] final(t)[i] == prefixed_entry(i as u8),
        forall|i: int| 0 <= i < 256 && !(0x00 <= i < 0x10) ==> #[trigger] final(t)[i] == old(t)[i],
{
    t[0x00] = on_bit(InType::IN_RLC, RegType::RT_B, 0);
    t[0x01] = on_bit(InType::IN_RLC, RegType::RT_C, 0);
    t[0x02] = on_bit(InType::IN_RLC, RegType::RT_D, 0);
    t[0x03] = on_bit(InType::IN_RLC, RegType::RT_E, 0);
    t[0x04] = on_bit(InType::IN_RLC, RegType::RT_H, 0);
    t[0x05] = on_bit(InType::IN_RLC, RegType::RT_L, 0);
    t[0x06] = on_bit(InType::IN_RLC, RegType::RT_HL, 0);
    t[0x07] = on_bit(InType::IN_RLC, RegType::RT_A, 0);
    t[0x08] = on_bit(InType::IN_RRC, RegType::RT_B, 0);
    t[0x09] = on_bit(InType::IN_RRC, RegType::RT_C, 0);
    t[0x0A] = on_bit(InType::IN_RRC, RegType::RT_D, 0);
    t[0x0B] = on_bit(InType::IN_RRC, RegType::RT_E, 0);
    t[0x0C] = on_bit(InType::IN_RRC, RegType::RT_H, 0);
    t[0x0D] = on_bit(InType::IN_RRC, RegType::RT_L, 0);
    t[0x0E] = on_bit(InType::IN_RRC, RegType::RT_HL, 0);
    t[0x0F] = on_bit(InType::IN_RRC, RegType::RT_A, 0);
}

/// Fills in the prefixed opcodes `0x10..=0x1F`.
fn set_prefixed_row_1(t: &mut [Instruction; 256])
    ensures
        forall|i: int| 0x10 <= i < 0x20 ==> #[trigger] final(t)[i] == prefixed_entry(i as u8),
        forall|i: int| 0 <= i < 256 && !(0x10 <= i < 0x20) ==> #[trigger] final(t)[i] == old(t)[i],
{
    t[0x10] = on_bit(InType::IN_RL, RegType::RT_B, 0);
    t[0x11] = on_bit(InType::IN_RL, RegType::RT_C, 0);
    t[0x12] = on_bit(InType::IN_RL, RegType::RT_D, 0);
    t[0x13] = on_bit(InType::IN_RL, RegType::RT_E, 0);
    t[0x14] = on_bit(InType::IN_RL, RegType::RT_H, 0);
    t[0x15] = on_bit(InType::IN_RL, RegType::RT_L, 0);
    t[0x16] = on_bit(InType::IN_RL, RegType::RT_HL, 0);
    t[0x17] = on_bit(InType::IN_RL, RegType::RT_A, 0);
    t[0x18] = on_bit(InType::IN_RR, RegType::RT_B, 0);
    t[0x19] = on_bit(InType::IN_RR, RegType::RT_C, 0);
    t[0x1A] = on_bit(InType::IN_RR, RegType::RT_D, 0);
    t[0x1B] = on_bit(InType::IN_RR, RegType::RT_E, 0);
    t[0x1C] = on_bit(InType::IN_RR, RegType::RT_H, 0);
    t[0x1D] = on_bit(InType::IN_RR, RegType::RT_L, 0);
    t[0x1E] = on_bit(InType::IN_RR, RegType::RT_HL, 0);
    t[0x1F] = on_bit(InType::IN_RR, RegType::RT_A, 0);
}

/// Fills in the prefixed opcodes `0x20..=0x2F`.
fn set_prefixed_row_2(t: &mut [Instruction; 256])
    ensures
        forall|i: int| 0x20 <= i < 0x30 ==> #[trigger] final(t)[i] == prefixed_entry(i as u8),
        forall|i: int| 0 <= i < 256 && !(0x20 <= i < 0x30) ==> #[trigger] final(t)[i] == old(t)[i],
{
    t[0x20] = on_bit(InType::IN_SLA, RegType::RT_B, 0);
    t[0x21] = on_bit(InType::IN_SLA, RegType::RT_C, 0);
    t[0x22] = on_bit(InType::IN_SLA, RegType::RT_D, 0);
    t[0x23] = on_bit(InType::IN_SLA, RegType::RT_E, 0);
    t[0x24] = on_bit(InType::IN_SLA, RegType::RT_H, 0);
    t[0x25] = on_bit(InType::IN_SLA, RegType::RT_L, 0);
    t[0x26] = on_bit(InType::IN_SLA, RegType::RT_HL, 0);
    t[0x27] = on_bit(InType::IN_SLA, RegType::RT_A, 0);
    t[0x28] = on_bit(InType::IN_SRA, RegType::RT_B, 0);
    t[0x29] = on_bit(InType::IN_SRA, RegType::RT_C, 0);
    t[0x2A] = on_bit(InType::IN_SRA, RegType::RT_D, 0);
    t[0x2B] = on_bit(InType::IN_SRA, RegType::RT_E, 0);
    t[0x2C] = on_bit(InType::IN_SRA, RegType::RT_H, 0);
    t[0x2D] = on_bit(InType::IN_SRA, RegType::RT_L, 0);
    t[0x2E] = on_bit(InType::IN_SRA, RegType::RT_HL, 0);
    t[0x2F] = on_bit(InType::IN_SRA, RegType::RT_A, 0);
}

/// Fills in the prefixed opcodes `0x30..=0x3F`.
fn set_prefixed_row_3(t: &mut [Instruction; 256])
    ensures
        forall|i: int| 0x30 <= i < 0x40 ==> #[trigger] final(t)[i] == prefixed_entry(i as u8),
        forall|i: int| 0 <= i < 256 && !(0x30 <= i < 0x40) ==> #[trigger] final(t)[i] == old(t)[i],
{
    t[0x30] = on_bit(InType::IN_SWAP, RegType::RT_B, 0);
    t[0x31] = on_bit(InType::IN_SWAP, RegType::RT_C, 0);
    t[0x32] = on_bit(InType::IN_SWAP, RegType::RT_D, 0);
    t[0x33] = on_bit(InType::IN_SWAP, RegType::RT_E, 0);
    t[0x34] = on_bit(InType::IN_SWAP, RegType::RT_H, 0);
    t[0x35] = on_bit(InType::IN_SWAP, RegType::RT_L, 0);
    t[0x36] = on_bit(InType::IN_SWAP, RegType::RT_HL, 0);
    t[0x37] = on_bit(InType::IN_SWAP, RegType::RT_A, 0);
    t[0x38] = on_bit(InType::IN_SRL, RegType::RT_B, 0);
    t[0x39] = on_bit(InType::IN_SRL, RegType::RT_C, 0);
    t[0x3A] = on_bit(InType::IN_SRL, RegType::RT_D, 0);
    t[0x3B] = on_bit(InType::IN_SRL, RegType::RT_E, 0);
    t[0x3C] = on_bit(InType::IN_SRL, RegType::RT_H, 0);
    t[0x3D] = on_bit(InType::IN_SRL, RegType::RT_L, 0);
    t[0x3E] = on_bit(InType::IN_SRL, RegType::RT_HL, 0);
    t[0x3F] = on_bit(InType::IN_SRL, RegType::RT_A, 0);
}

/// Fills in the prefixed opcodes `0x40..=0x4F`.
fn set_prefixed_row_4(t: &mut [Instruction; 256])
    ensures
        forall|i: int| 0x40 <= i < 0x50 ==> #[trigger] final(t)[i] == prefixed_entry(i as u8),
        forall|i: int| 0 <= i < 256 && !(0x40 <= i < 0x50) ==> #[trigger] final(t)[i] == old(t)[i],
{
    t[0x40] = on_bit(InType::IN_BIT, RegType::RT_B, 0);
    t[0x41] = on_bit(InType::IN_BIT, RegType::RT_C, 0);
    t[0x42] = on_bit(InType::IN_BIT, RegType::RT_D, 0);
    t[0x43] = on_bit(InType::IN_BIT, RegType::RT_E, 0);
    t[0x44] = on_bit(InType::IN_BIT, RegType::RT_H, 0);
    t[0x45] = on_bit(InType::IN_BIT, RegType::RT_L, 0);
    t[0x46] = on_bit(InType::IN_BIT, RegType::RT_HL, 0);
    t[0x47] = on_bit(InType::IN_BIT, RegType::RT_A, 0);
    t[0x48] = on_bit(InType::IN_BIT, RegType::RT_B, 1);
    t[0x49] = on_bit(InType::IN_BIT, RegType::RT_C, 1);
    t[0x4A] = on_bit(InType::IN_BIT, RegType::RT_D, 1);
    t[0x4B] = on_bit(InType::IN_BIT, RegType::RT_E, 1);
    t[0x4C] = on_bit(InType::IN_BIT, RegType::RT_H, 1);
    t[0x4D] = on_bit(InType::IN_BIT, RegType::RT_L, 1);
    t[0x4E] = on_bit(InType::IN_BIT, RegType::RT_HL, 1);
    t[0x4F] = on_bit(InType::IN_BIT, RegType::RT_A, 1);
}

/// Fills in the prefixed opcodes `0x50..=0x5F`.
fn set_prefixed_row_5(t: &mut [Instruction; 256])
    ensures
        forall|i: int| 0x50 <= i < 0x60 ==> #[trigger] final(t)[i] == prefixed_entry(i as u8),
        forall|i: int| 0 <= i < 256 && !(0x50 <= i < 0x60) ==> #[trigger] final(t)[i] == old(t)[i],
{
    t[0x50] = on_bit(InType::IN_BIT, RegType::RT_B, 2);
    t[0x51] = on_bit(InType::IN_BIT, RegType::RT_C, 2);
    t[0x52] = on_bit(InType::IN_BIT, RegType::RT_D, 2);
    t[0x53] = on_bit(InType::IN_BIT, RegType::RT_E, 2);
    t[0x54] = on_bit(InType::IN_BIT, RegType::RT_H, 2);
    t[0x55] = on_bit(InType::IN_BIT, RegType::RT_L, 2);
    t[0x56] = on_bit(InType::IN_BIT, RegType::RT_HL, 2);
    t[0x57] = on_bit(InType::IN_BIT, RegType::RT_A, 2);
    t[0x58] = on_bit(InType::IN_BIT, RegType::RT_B, 3);
    t[0x59] = on_bit(InType::IN_BIT, RegType::RT_C, 3);
    t[0x5A] = on_bit(InType::IN_BIT, RegType::RT_D, 3);
    t[0x5B] = on_bit(InType::IN_BIT, RegType::RT_E, 3);
    t[0x5C] = on_bit(InType::IN_BIT, RegType::RT_H, 3);
    t[0x5D] = on_bit(InType::IN_BIT, RegType::RT_L, 3);
    t[0x5E] = on_bit(InType::IN_BIT, RegType::RT_HL, 3);
    t[0x5F] = on_bit(InType::IN_BIT, RegType::RT_A, 3);
}

/// Fills in the prefixed opcodes `0x60..=0x6F`.
fn set_prefixed_row_6(t: &mut [Instruction; 256])
    ensures
        forall|i: int| 0x60 <= i < 0x70 ==> #[trigger] final(t)[i] == prefixed_entry(i as u8),
        forall|i: int| 0 <= i < 256 && !(0x60 <= i < 0x70) ==> #[trigger] final(t)[i] == old(t)[i],
{
    t[0x60] = on_bit(InType::IN_BIT, RegType::RT_B, 4);
    t[0x61] = on_bit(InType::IN_BIT, RegType::RT_C, 4);
    t[0x62] = on_bit(InType::IN_BIT, RegType::RT_D, 4);
    t[0x63] = on_bit(InType::IN_BIT, RegType::RT_E, 4);
    t[0x64] = on_bit(InType::IN_BIT, RegType::RT_H, 4);
    t[0x65] = on_bit(InType::IN_BIT, RegType::RT_L, 4);
    t[0x66] = on_bit(InType::IN_BIT, RegType::RT_HL, 4);
    t[0x67] = on_bit(InType::IN_BIT, RegType::RT_A, 4);
    t[0x68] = on_bit(InType::IN_BIT, RegType::RT_B, 5);
    t[0x69] = on_bit(InType::IN_BIT, RegType::RT_C, 5);
    t[0x6A] = on_bit(InType::IN_BIT, RegType::RT_D, 5);
    t[0x6B] = on_bit(InType::IN_BIT, RegType::RT_E, 5);
    t[0x6C] = on_bit(InType::IN_BIT, RegType::RT_H, 5);
    t[0x6D] = on_bit(InType::IN_BIT, RegType::RT_L, 5);
    t[0x6E] = on_bit(InType::IN_BIT, RegType::RT_HL, 5);
    t[0x6F] = on_bit(InType::IN_BIT, RegType::RT_A, 5);
}

/// Fills in the prefixed opcodes `0x70..=0x7F`.
fn set_prefixed_row_7(t: &mut [Instruction; 256])
    ensures
        forall|i: int| 0x70 <= i < 0x80 ==> #[trigger] final(t)[i] == prefixed_entry(i as u8),
        forall|i: int| 0 <= i < 256 && !(0x70 <= i < 0x80) ==> #[trigger] final(t)[i] == old(t)[i],
{
    t[0x70] = on_bit(InType::IN_BIT, RegType::RT_B, 6);
    t[0x71] = on_bit(InType::IN_BIT, RegType::RT_C, 6);
    t[0x72] = on_bit(InType::IN_BIT, RegType::RT_D, 6);
    t[0x73] = on_bit(InType::IN_BIT, RegType::RT_E, 6);
    t[0x74] = on_bit(InType::IN_BIT, RegType::RT_H, 6);
    t[0x75] = on_bit(InType::IN_BIT, RegType::RT_L, 6);
    t[0x76] = on_bit(InType::IN_BIT, RegType::RT_HL, 6);
    t[0x77] = on_bit(InType::IN_BIT, RegType::RT_A, 6);
    t[0x78] = on_bit(InType::IN_BIT, RegType::RT_B, 7);
    t[0x79] = on_bit(InType::IN_BIT, RegType::RT_C, 7);
    t[0x7A] = on_bit(InType::IN_BIT, RegType::RT_D, 7);
    t[0x7B] = on_bit(InType::IN_BIT, RegType::RT_E, 7);
    t[0x7C] = on_bit(InType::IN_BIT, RegType::RT_H, 7);
    t[0x7D] = on_bit(InType::IN_BIT, RegType::RT_L, 7);
    t[0x7E] = on_bit(InType::IN_BIT, RegType::RT_HL, 7);
    t[0x7F] = on_bit(InType::IN_BIT, RegType::RT_A, 7);
}

/// Fills in the prefixed opcodes `0x80..=0x8F`.
fn set_prefixed_row_8(t: &mut [Instruction; 256])
    ensures
        forall|i: int| 0x80 <= i < 0x90 ==> #[trigger] final(t)[i] == prefixed_entry(i as u8),
        forall|i: int| 0 <= i < 256 && !(0x80 <= i < 0x90) ==> #[trigger] final(t)[i] == old(t)[i],
{
    t[0x80] = on_bit(InType::IN_RES, RegType::RT_B, 0);
    t[0x81] = on_bit(InType::IN_RES, RegType::RT_C, 0);
    t[0x82] = on_bit(InType::IN_RES, RegType::RT_D, 0);
    t[0x83] = on_bit(InType::IN_RES, RegType::RT_E, 0);
    t[0x84] = on_bit(InType::IN_RES, RegType::RT_H, 0);
    t[0x85] = on_bit(InType::IN_RES, RegType::RT_L, 0);
    t[0x86] = on_bit(InType::IN_RES, RegType::RT_HL, 0);
    t[0x87] = on_bit(InType::IN_RES, RegType::RT_A, 0);
    t[0x88] = on_bit(InType::IN_RES, RegType::RT_B, 1);
    t[0x89] = on_bit(InType::IN_RES, RegType::RT_C, 1);
    t[0x8A] = on_bit(InType::IN_RES, RegType::RT_D, 1);
    t[0x8B] = on_bit(InType::IN_RES, RegType::RT_E, 1);
    t[0x8C] = on_bit(InType::IN_RES, RegType::RT_H, 1);
    t[0x8D] = on_bit(InType::IN_RES, RegType::RT_L, 1);
    t[0x8E] = on_bit(InType::IN_RES, RegType::RT_HL, 1);
    t[0x8F] = on_bit(InType::IN_RES, RegType::RT_A, 1);
}

/// Fills in the prefixed opcodes `0x90..=0x9F`.
fn set_prefixed_row_9(t: &mut [Instruction; 256])
    ensures
        forall|i: int| 0x90 <= i < 0xA0 ==> #[trigger] final(t)[i] == prefixed_entry(i as u8),
        forall|i: int| 0 <= i < 256 && !(0x90 <= i < 0xA0) ==> #[trigger] final(t)[i] == old(t)[i],
{
    t[0x90] = on_bit(InType::IN_RES, RegType::RT_B, 2);
    t[0x91] = on_bit(InType::IN_RES, RegType::RT_C, 2);
    t[0x92] = on_bit(InType::IN_RES, RegType::RT_D, 2);
    t[0x93] = on_bit(InType::IN_RES, RegType::RT_E, 2);
    t[0x94] = on_bit(InType::IN_RES, RegType::RT_H, 2);
    t[0x95] = on_bit(InType::IN_RES, RegType::RT_L, 2);
    t[0x96] = on_bit(InType::IN_RES, RegType::RT_HL, 2);
    t[0x97] = on_bit(InType::IN_RES, RegType::RT_A, 2);
    t[0x98] = on_bit(InType::IN_RES, RegType::RT_B, 3);
    t[0x99] = on_bit(InType::IN_RES, RegType::RT_C, 3);
    t[0x9A] = on_bit(InType::IN_RES, RegType::RT_D, 3);
    t[0x9B] = on_bit(InType::IN_RES, RegType::RT_E, 3);
    t[0x9C] = on_bit(InType::IN_RES, RegType::RT_H, 3);
    t[0x9D] = on_bit(InType::IN_RES, RegType::RT_L, 3);
    t[0x9E] = on_bit(InType::IN_RES, RegType::RT_HL, 3);
    t[0x9F] = on_bit(InType::IN_RES, RegType::RT_A, 3);
}

/// Fills in the prefixed opcodes `0xA0..=0xAF`.
fn set_prefixed_row_a(t: &mut [Instruction; 256])
    ensures
        forall|i: int| 0xA0 <= i < 0xB0 ==> #[trigger] final(t)[i] == prefixed_entry(i as u8),
        forall|i: int| 0 <= i < 256 && !(0xA0 <= i < 0xB0) ==> #[trigger] final(t)[i] == old(t)[i],
{
    t[0xA0] = on_bit(InType::IN_RES, RegType::RT_B, 4);
    t[0xA1] = on_bit(InType::IN_RES, RegType::RT_C, 4);
    t[0xA2] = on_bit(InType::IN_RES, RegType::RT_D, 4);
    t[0xA3] = on_bit(InType::IN_RES, RegType::RT_E, 4);
    t[0xA4] = on_bit(InType::IN_RES, RegType::RT_H, 4);
    t[0xA5] = on_bit(InType::IN_RES, RegType::RT_L, 4);
    t[0xA6] = on_bit(InType::IN_RES, RegType::RT_HL, 4);
    t[0xA7] = on_bit(InType::IN_RES, RegType::RT_A, 4);
    t[0xA8] = on_bit(InType::IN_RES, RegType::RT_B, 5);
    t[0xA9] = on_bit(InType::IN_RES, RegType::RT_C, 5);
    t[0xAA] = on_bit(InType::IN_RES, RegType::RT_D, 5);
    t[0xAB] = on_bit(InType::IN_RES, RegType::RT_E, 5);
    t[0xAC] = on_bit(InType::IN_RES, RegType::RT_H, 5);
    t[0xAD] = on_bit(InType::IN_RES, RegType::RT_L, 5);
    t[0xAE] = on_bit(InType::IN_RES, RegType::RT_HL, 5);
    t[0xAF] = on_bit(InType::IN_RES, RegType::RT_A, 5);
}

/// Fills in the prefixed opcodes `0xB0..=0xBF`.
fn set_prefixed_row_b(t: &mut [Instruction; 256])
    ensures
        forall|i: int| 0xB0 <= i < 0xC0 ==> #[trigger] final(t)[i] == prefixed_entry(i as u8),
        forall|i: int| 0 <= i < 256 && !(0xB0 <= i < 0xC0) ==> #[trigger] final(t)[i] == old(t)[i],
{
    t[0xB0] = on_bit(InType::IN_RES, RegType::RT_B, 6);
    t[0xB1] = on_bit(InType::IN_RES, RegType::RT_C, 6);
    t[0xB2] = on_bit(InType::IN_RES, RegType::RT_D, 6);
    t[0xB3] = on_bit(InType::IN_RES, RegType::RT_E, 6);
    t[0xB4] = on_bit(InType::IN_RES, RegType::RT_H, 6);
    t[0xB5] = on_bit(InType::IN_RES, RegType::RT_L, 6);
    t[0xB6] = on_bit(InType::IN_RES, RegType::RT_HL, 6);
    t[0xB7] = on_bit(InType::IN_RES, RegType::RT_A, 6);
    t[0xB8] = on_bit(InType::IN_RES, RegType::RT_B, 7);
    t[0xB9] = on_bit(InType::IN_RES, RegType::RT_C, 7);
    t[0xBA] = on_bit(InType::IN_RES, RegType::RT_D, 7);
    t[0xBB] = on_bit(InType::IN_RES, RegType::RT_E, 7);
    t[0xBC] = on_bit(InType::IN_RES, RegType::RT_H, 7);
    t[0xBD] = on_bit(InType::IN_RES, RegType::RT_L, 7);
    t[0xBE] = on_bit(InType::IN_RES, RegType::RT_HL, 7);
    t[0xBF] = on_bit(InType::IN_RES, RegType::RT_A, 7);
}

/// Fills in the prefixed opcodes `0xC0..=0xCF`.
fn set_prefixed_row_c(t: &mut [Instruction; 256])
    ensures
        forall|i: int| 0xC0 <= i < 0xD0 ==> #[trigger] final(t)[i] == prefixed_entry(i as u8),
        forall|i: int| 0 <= i < 256 && !(0xC0 <= i < 0xD0) ==> #[trigger] final(t)[i] == old(t)[i],
{
    t[0xC0] = on_bit(InType::IN_SET, RegType::RT_B, 0);
    t[0xC1] = on_bit(InType::IN_SET, RegType::RT_C, 0);
    t[0xC2] = on_bit(InType::IN_SET, RegType::RT_D, 0);
    t[0xC3] = on_bit(InType::IN_SET, RegType::RT_E, 0);
    t[0xC4] = on_bit(InType::IN_SET, RegType::RT_H, 0);
    t[0xC5] = on_bit(InType::IN_SET, RegType::RT_L, 0);
    t[0xC6] = on_bit(InType::IN_SET, RegType::RT_HL, 0);
    t[0xC7] = on_bit(InType::IN_SET, RegType::RT_A, 0);
    t[0xC8] = on_bit(InType::IN_SET, RegType::RT_B, 1);
    t[0xC9] = on_bit(InType::IN_SET, RegType::RT_C, 1);
    t[0xCA] = on_bit(InType::IN_SET, RegType::RT_D, 1);
    t[0xCB] = on_bit(InType::IN_SET, RegType::RT_E, 1);
    t[0xCC] = on_bit(InType::IN_SET, RegType::RT_H, 1);
    t[0xCD] = on_bit(InType::IN_SET, RegType::RT_L, 1);
    t[0xCE] = on_bit(InType::IN_SET, RegType::RT_HL, 1);
    t[0xCF] = on_bit(InType::IN_SET, RegType::RT_A, 1);
}

/// Fills in the prefixed opcodes `0xD0..=0xDF`.
fn set_prefixed_row_d(t: &mut [Instruction; 256])
    ensures
        forall|i: int| 0xD0 <= i < 0xE0 ==> #[trigger] final(t)[i] == prefixed_entry(i as u8),
        forall|i: int| 0 <= i < 256 && !(0xD0 <= i < 0xE0) ==> #[trigger] final(t)[i] == old(t)[i],
{
    t[0xD0] = on_bit(InType::IN_SET, RegType::RT_B, 2);
    t[0xD1] = on_bit(InType::IN_SET, RegType::RT_C, 2);
    t[0xD2] = on_bit(InType::IN_SET, RegType::RT_D, 2);
    t[0xD3] = on_bit(InType::IN_SET, RegType::RT_E, 2);
    t[0xD4] = on_bit(InType::IN_SET, RegType::RT_H, 2);
    t[0xD5] = on_bit(InType::IN_SET, RegType::RT_L, 2);
    t[0xD6] = on_bit(InType::IN_SET, RegType::RT_HL, 2);
    t[0xD7] = on_bit(InType::IN_SET, RegType::RT_A, 2);
    t[0xD8] = on_bit(InType::IN_SET, RegType::RT_B, 3);
    t[0xD9] = on_bit(InType::IN_SET, RegType::RT_C, 3);
    t[0xDA] = on_bit(InType::IN_SET, RegType::RT_D, 3);
    t[0xDB] = on_bit(InType::IN_SET, RegType::RT_E, 3);
    t[0xDC] = on_bit(InType::IN_SET, RegType::RT_H, 3);
    t[0xDD] = on_bit(InType::IN_SET, RegType::RT_L, 3);
    t[0xDE] = on_bit(InType::IN_SET, RegType::RT_HL, 3);
    t[0xDF] = on_bit(InType::IN_SET, RegType::RT_A, 3);
}

/// Fills in the prefixed opcodes `0xE0..=0xEF`.
fn set_prefixed_row_e(t: &mut [Instruction; 256])
    ensures
        forall|i: int| 0xE0 <= i < 0xF0 ==> #[trigger] final(t)[i] == prefixed_entry(i as u8),
        forall|i: int| 0 <= i < 256 && !(0xE0 <= i < 0xF0) ==> #[trigger] final(t)[i] == old(t)[i],
{
    t[0xE0] = on_bit(InType::IN_SET, RegType::RT_B, 4);
    t[0xE1] = on_bit(InType::IN_SET, RegType::RT_C, 4);
    t[0xE2] = on_bit(InType::IN_SET, RegType::RT_D, 4);
    t[0xE3] = on_bit(InType::IN_SET, RegType::RT_E, 4);
    t[0xE4] = on_bit(InType::IN_SET, RegType::RT_H, 4);
    t[0xE5] = on_bit(InType::IN_SET, RegType::RT_L, 4);
    t[0xE6] = on_bit(InType::IN_SET, RegType::RT_HL, 4);
    t[0xE7] = on_bit(InType::IN_SET, RegType::RT_A, 4);
    t[0xE8] = on_bit(InType::IN_SET, RegType::RT_B, 5);
    t[0xE9] = on_bit(InType::IN_SET, RegType::RT_C, 5);
    t[0xEA] = on_bit(InType::IN_SET, RegType::RT_D, 5);
    t[0xEB] = on_bit(InType::IN_SET, RegType::RT_E, 5);
    t[0xEC] = on_bit(InType::IN_SET, RegType::RT_H, 5);
    t[0xED] = on_bit(InType::IN_SET, RegType::RT_L, 5);
    t[0xEE] = on_bit(InType::IN_SET, RegType::RT_HL, 5);
    t[0xEF] = on_bit(InType::IN_SET, RegType::RT_A, 5);
}

/// Fills in the prefixed opcodes `0xF0..=0xFF`.
fn set_prefixed_row_f(t: &mut [Instruction; 256])
    ensures
        forall|i: int| 0xF0 <= i < 0x100 ==> #[trigger] final(t)[i] == prefixed_entry(i as u8),
        forall|i: int| 0 <= i < 256 && !(0xF0 <= i < 0x100) ==> #[trigger] final(t)[i] == old(t)[i],
{
    t[0xF0] = on_bit(InType::IN_SET, RegType::RT_B, 6);
    t[0xF1] = on_bit(InType::IN_SET, RegType::RT_C, 6);
    t[0xF2] = on_bit(InType::IN_SET, RegType::RT_D, 6);
    t[0xF3] = on_bit(InType::IN_SET, RegType::RT_E, 6);
    t[0xF4] = on_bit(InType::IN_SET, RegType::RT_H, 6);
    t[0xF5] = on_bit(InType::IN_SET, RegType::RT_L, 6);
    t[0xF6] = on_bit(InType::IN_SET, RegType::RT_HL, 6);
    t[0xF7] = on_bit(InType::IN_SET, RegType::RT_A, 6);
    t[0xF8] = on_bit(InType::IN_SET, RegType::RT_B, 7);
    t[0xF9] = on_bit(InType::IN_SET, RegType::RT_C, 7);
    t[0xFA] = on_bit(InType::IN_SET, RegType::RT_D, 7);
    t[0xFB] = on_bit(InType::IN_SET, RegType::RT_E, 7);
    t[0xFC] = on_bit(InType::IN_SET, RegType::RT_H, 7);
    t[0xFD] = on_bit(InType::IN_SET, RegType::RT_L, 7);
    t[0xFE] = on_bit(InType::IN_SET, RegType::RT_HL, 7);
    t[0xFF] = on_bit(InType::IN_SET, RegType::RT_A, 7);
}

/// Builds the opcode table: every defined opcode gets its descriptor, and
/// every other entry has the kind `IN_NONE`; every prefixed opcode gets
/// its descriptor.
pub fn set_instructions() -> (table: InstructionTable)
    ensures
        table.wf(),
{
    let none = plain(InType::IN_NONE);
    let mut entries: [Instruction; 256] = [none; 256];
    set_row_0(&mut entries);
    set_row_1(&mut entries);
    set_row_2(&mut entries);
    set_row_3(&mut entries);
    set_row_4(&mut entries);
    set_row_5(&mut entries);
    set_row_6(&mut entries);
    set_row_7(&mut entries);
    set_row_8(&mut entries);
    set_row_9(&mut entries);
    set_row_a(&mut entries);
    set_row_b(&mut entries);
    set_row_c(&mut entries);
    set_row_d(&mut entries);
    set_row_e(&mut entries);
    set_row_f(&mut entries);
    let mut prefixed: [Instruction; 256] = [none; 256];
    set_prefixed_row_0(&mut prefixed);
    set_prefixed_row_1(&mut prefixed);
    set_prefixed_row_2(&mut prefixed);
    set_prefixed_row_3(&mut prefixed);
    set_prefixed_row_4(&mut prefixed);
    set_prefixed_row_5(&mut prefixed);
    set_prefixed_row_6(&mut prefixed);
    set_prefixed_row_7(&mut prefixed);
    set_prefixed_row_8(&mut prefixed);
    set_prefixed_row_9(&mut prefixed);
    set_prefixed_row_a(&mut prefixed);
    set_prefixed_row_b(&mut prefixed);
    set_prefixed_row_c(&mut prefixed);
    set_prefixed_row_d(&mut prefixed);
    set_prefixed_row_e(&mut prefixed);
    set_prefixed_row_f(&mut prefixed);
    InstructionTable { entries, prefixed }
}

/// Looks up the descriptor of the opcode `code` that follows the prefix `0xCB`.
pub fn instruction_by_prefixed_opcode(table: &InstructionTable, code: u8) -> (r: Instruction)
    ensures
        r == table.prefixed[code as int],
        table.wf() ==> r == prefixed_entry(code),
{
    table.prefixed[code as usize]
}

/// Looks up the descriptor of `code`; `None` where the opcode is not defined.
pub fn instruction_by_opcode(table: &InstructionTable, code: u8) -> (r: Option<Instruction>)
    ensures
        r == table.lookup(code),
        table.wf() ==> r == decode(code),
{
    let entry = table.entries[code as usize];
    if entry.i_type == InType::IN_NONE {
        return None;
    }
    Some(entry)
}

/// In a table that is filled in, a lookup gives the instruction that the
/// opcode stands for.
pub proof fn lemma_lookup_decodes(table: InstructionTable, code: u8)
    requires
        table.wf(),
    ensures
        table.lookup(code) == decode(code),
{
}

/// Exactly eleven opcodes stand for no instruction.
pub proof fn lemma_decode_defined(code: u8)
    ensures
        decode(code) is None <==> undefined_opcode(code),
{
}

} // verus!
