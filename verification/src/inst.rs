//! The supported instruction set: the base integer instructions of RV32I,
//! without the environment calls.
//!
//! A fetched word either decodes to one [`Instruction`] or is illegal; there
//! is no third outcome and no instruction that is accepted and skipped.

use vstd::prelude::*;
use crate::layout::Width;

verus! {

/// The comparison that a conditional branch makes.
#[derive(Clone, Copy, Debug, PartialEq, Eq, Structural)]
pub enum Condition {
    /// Equal.
    Eq,
    /// Not equal.
    Ne,
    /// Less than, both operands read as signed.
    Lt,
    /// Greater than or equal, both operands read as signed.
    Ge,
    /// Less than, both operands read as unsigned.
    Ltu,
    /// Greater than or equal, both operands read as unsigned.
    Geu,
}

/// The operation of an arithmetic or logic instruction.
#[derive(Clone, Copy, Debug, PartialEq, Eq, Structural)]
pub enum AluOp {
    /// Sum, modulo 2^32.
    Add,
    /// Difference, modulo 2^32.
    Sub,
    /// Shift left by the low five bits of the second operand.
    Sll,
    /// One if the first operand is less than the second, both signed.
    Slt,
    /// One if the first operand is less than the second, both unsigned.
    Sltu,
    /// Bitwise exclusive or.
    Xor,
    /// Shift right by the low five bits of the second operand, filling with
    /// zeros.
    Srl,
    /// Shift right by the low five bits of the second operand, filling with
    /// the sign bit.
    Sra,
    /// Bitwise or.
    Or,
    /// Bitwise and.
    And,
}

/// One decoded instruction. Immediates and offsets are sign-extended to 32
/// bits; register fields are below 32.
#[derive(Clone, Copy, Debug, PartialEq, Eq, Structural)]
pub enum Instruction {
    /// `rd = imm`.
    Lui { rd: u8, imm: u32 },
    /// `rd = pc + imm`.
    Auipc { rd: u8, imm: u32 },
    /// `rd = pc + 4`, then jump to `pc + offset`.
    Jal { rd: u8, offset: u32 },
    /// `rd = pc + 4`, then jump to `rs1 + offset` with its lowest bit cleared.
    Jalr { rd: u8, rs1: u8, offset: u32 },
    /// Jump to `pc + offset` if the condition holds of `rs1` and `rs2`.
    Branch { cond: Condition, rs1: u8, rs2: u8, offset: u32 },
    /// `rd` = the value at `rs1 + offset`, sign- or zero-extended.
    Load { width: Width, signed: bool, rd: u8, rs1: u8, offset: u32 },
    /// Store the low bytes of `rs2` at `rs1 + offset`.
    Store { width: Width, rs1: u8, rs2: u8, offset: u32 },
    /// `rd = op(rs1, imm)`.
    OpImm { op: AluOp, rd: u8, rs1: u8, imm: u32 },
    /// `rd = op(rs1, rs2)`.
    Op { op: AluOp, rd: u8, rs1: u8, rs2: u8 },
    /// Memory ordering fence: with one hart per arena there is nothing to
    /// order.
    Fence,
}

impl Instruction {
    /// Every register field names one of the 32 registers.
    pub open spec fn wf(self) -> bool {
        match self {
            Instruction::Lui { rd, .. } => rd < 32,
            Instruction::Auipc { rd, .. } => rd < 32,
            Instruction::Jal { rd, .. } => rd < 32,
            Instruction::Jalr { rd, rs1, .. } => rd < 32 && rs1 < 32,
            Instruction::Branch { rs1, rs2, .. } => rs1 < 32 && rs2 < 32,
            Instruction::Load { rd, rs1, .. } => rd < 32 && rs1 < 32,
            Instruction::Store { rs1, rs2, .. } => rs1 < 32 && rs2 < 32,
            Instruction::OpImm { rd, rs1, .. } => rd < 32 && rs1 < 32,
            Instruction::Op { rd, rs1, rs2, .. } => rd < 32 && rs1 < 32 && rs2 < 32,
            Instruction::Fence => true,
        }
    }

    /// Whether the instruction can move the program counter anywhere but to
    /// the next instruction.
    pub open spec fn is_transfer(self) -> bool {
        self is Jal || self is Jalr || self is Branch
    }
}

/// Bits 6..0 of an instruction word: the major opcode.
pub open spec fn opcode_of(inst: u32) -> u32 {
    inst & 0x7f
}

/// Bits 11..7: the destination register.
pub open spec fn rd_of(inst: u32) -> u8 {
    ((inst >> 7) & 0x1f) as u8
}

/// Bits 14..12: the minor opcode.
pub open spec fn funct3_of(inst: u32) -> u32 {
    (inst >> 12) & 0x7
}

/// Bits 19..15: the first source register.
pub open spec fn rs1_of(inst: u32) -> u8 {
    ((inst >> 15) & 0x1f) as u8
}

/// Bits 24..20: the second source register, or a shift amount.
pub open spec fn rs2_of(inst: u32) -> u8 {
    ((inst >> 20) & 0x1f) as u8
}

/// Bits 31..25: the second minor opcode.
pub open spec fn funct7_of(inst: u32) -> u32 {
    inst >> 25
}

/// Bits 31..12 set if bit 31 of the word is set: the sign extension of a
/// twelve bit immediate.
pub open spec fn sign_of(inst: u32) -> u32 {
    if inst & 0x8000_0000 != 0 {
        0xffff_f000
    } else {
        0
    }
}

/// The immediate of the register-immediate format: bits 31..20.
pub open spec fn imm_i_of(inst: u32) -> u32 {
    sign_of(inst) | (inst >> 20)
}

/// The immediate of the store format: bits 31..25 and 11..7.
pub open spec fn imm_s_of(inst: u32) -> u32 {
    sign_of(inst) | ((inst >> 20) & 0xfe0) | ((inst >> 7) & 0x1f)
}

/// The offset of the branch format: bits 31, 7, 30..25 and 11..8, times two.
pub open spec fn imm_b_of(inst: u32) -> u32 {
    sign_of(inst) | ((inst << 4) & 0x800) | ((inst >> 20) & 0x7e0) | ((inst >> 7) & 0x1e)
}

/// The immediate of the upper-immediate format: bits 31..12, in place.
pub open spec fn imm_u_of(inst: u32) -> u32 {
    inst & 0xffff_f000
}

/// The offset of the jump format: bits 31, 19..12, 20 and 30..21, times two.
pub open spec fn imm_j_of(inst: u32) -> u32 {
    (if inst & 0x8000_0000 != 0 {
        0xfff0_0000u32
    } else {
        0u32
    }) | (inst & 0xf_f000) | ((inst >> 9) & 0x800) | ((inst >> 20) & 0x7fe)
}

/// The condition that a branch with the given minor opcode tests.
pub open spec fn condition_of(funct3: u32) -> Option<Condition> {
    if funct3 == 0 {
        Some(Condition::Eq)
    } else if funct3 == 1 {
        Some(Condition::Ne)
    } else if funct3 == 4 {
        Some(Condition::Lt)
    } else if funct3 == 5 {
        Some(Condition::Ge)
    } else if funct3 == 6 {
        Some(Condition::Ltu)
    } else if funct3 == 7 {
        Some(Condition::Geu)
    } else {
        None
    }
}

/// Width and signedness of a load with the given minor opcode.
pub open spec fn load_kind_of(funct3: u32) -> Option<(Width, bool)> {
    if funct3 == 0 {
        Some((Width::Byte, true))
    } else if funct3 == 1 {
        Some((Width::Half, true))
    } else if funct3 == 2 {
        Some((Width::Word, true))
    } else if funct3 == 4 {
        Some((Width::Byte, false))
    } else if funct3 == 5 {
        Some((Width::Half, false))
    } else {
        None
    }
}

/// Width of a store with the given minor opcode.
pub open spec fn store_width_of(funct3: u32) -> Option<Width> {
    if funct3 == 0 {
        Some(Width::Byte)
    } else if funct3 == 1 {
        Some(Width::Half)
    } else if funct3 == 2 {
        Some(Width::Word)
    } else {
        None
    }
}

/// The operation of a register-immediate instruction. The shifts take their
/// amount from the immediate and fix its upper bits.
pub open spec fn op_imm_of(funct3: u32, funct7: u32) -> Option<AluOp> {
    if funct3 == 0 {
        Some(AluOp::Add)
    } else if funct3 == 1 {
        if funct7 == 0 {
            Some(AluOp::Sll)
        } else {
            None
        }
    } else if funct3 == 2 {
        Some(AluOp::Slt)
    } else if funct3 == 3 {
        Some(AluOp::Sltu)
    } else if funct3 == 4 {
        Some(AluOp::Xor)
    } else if funct3 == 5 {
        if funct7 == 0 {
            Some(AluOp::Srl)
        } else if funct7 == 0x20 {
            Some(AluOp::Sra)
        } else {
            None
        }
    } else if funct3 == 6 {
        Some(AluOp::Or)
    } else {
        Some(AluOp::And)
    }
}

/// The operation of a register-register instruction.
pub open spec fn op_of(funct3: u32, funct7: u32) -> Option<AluOp> {
    if funct7 == 0 {
        if funct3 == 0 {
            Some(AluOp::Add)
        } else if funct3 == 1 {
            Some(AluOp::Sll)
        } else if funct3 == 2 {
            Some(AluOp::Slt)
        } else if funct3 == 3 {
            Some(AluOp::Sltu)
        } else if funct3 == 4 {
            Some(AluOp::Xor)
        } else if funct3 == 5 {
            Some(AluOp::Srl)
        } else if funct3 == 6 {
            Some(AluOp::Or)
        } else {
            Some(AluOp::And)
        }
    } else if funct7 == 0x20 {
        if funct3 == 0 {
            Some(AluOp::Sub)
        } else if funct3 == 5 {
            Some(AluOp::Sra)
        } else {
            None
        }
    } else {
        None
    }
}

/// The instruction that a word encodes, or `None` if the word is not an
/// instruction of the supported set.
pub open spec fn spec_decode(inst: u32) -> Option<Instruction> {
    let opcode = opcode_of(inst);
    let rd = rd_of(inst);
    let rs1 = rs1_of(inst);
    let rs2 = rs2_of(inst);
    let funct3 = funct3_of(inst);
    let funct7 = funct7_of(inst);
    if opcode == 0x37 {
        Some(Instruction::Lui { rd, imm: imm_u_of(inst) })
    } else if opcode == 0x17 {
        Some(Instruction::Auipc { rd, imm: imm_u_of(inst) })
    } else if opcode == 0x6f {
        Some(Instruction::Jal { rd, offset: imm_j_of(inst) })
    } else if opcode == 0x67 {
        if funct3 == 0 {
            Some(Instruction::Jalr { rd, rs1, offset: imm_i_of(inst) })
        } else {
            None
        }
    } else if opcode == 0x63 {
        match condition_of(funct3) {
            Some(cond) => Some(Instruction::Branch { cond, rs1, rs2, offset: imm_b_of(inst) }),
            None => None,
        }
    } else if opcode == 0x03 {
        match load_kind_of(funct3) {
            Some((width, signed)) => Some(
                Instruction::Load { width, signed, rd, rs1, offset: imm_i_of(inst) },
            ),
            None => None,
        }
    } else if opcode == 0x23 {
        match store_width_of(funct3) {
            Some(width) => Some(Instruction::Store { width, rs1, rs2, offset: imm_s_of(inst) }),
            None => None,
        }
    } else if opcode == 0x13 {
        match op_imm_of(funct3, funct7) {
            Some(op) => Some(
                Instruction::OpImm {
                    op,
                    rd,
                    rs1,
                    imm: if funct3 == 1 || funct3 == 5 {
                        rs2 as u32
                    } else {
                        imm_i_of(inst)
                    },
                },
            ),
            None => None,
        }
    } else if opcode == 0x33 {
        match op_of(funct3, funct7) {
            Some(op) => Some(Instruction::Op { op, rd, rs1, rs2 }),
            None => None,
        }
    } else if opcode == 0x0f {
        if funct3 == 0 {
            Some(Instruction::Fence)
        } else {
            None
        }
    } else {
        None
    }
}

/// A five bit field of an instruction word.
fn register_field(inst: u32, shift: u32) -> (field: u8)
    requires
        shift < 32,
    ensures
        field == ((inst >> shift) & 0x1f) as u8,
        field < 32,
{
    let raw: u32 = (inst >> shift) & 0x1f;
    assert(raw < 32) by (bit_vector)
        requires
            raw == (inst >> shift) & 0x1f,
    ;
    raw as u8
}

fn sign_bits(inst: u32) -> (sign: u32)
    ensures
        sign == sign_of(inst),
{
    if inst & 0x8000_0000 != 0 {
        0xffff_f000
    } else {
        0
    }
}

fn imm_i(inst: u32) -> (imm: u32)
    ensures
        imm == imm_i_of(inst),
{
    sign_bits(inst) | (inst >> 20)
}

fn imm_s(inst: u32) -> (imm: u32)
    ensures
        imm == imm_s_of(inst),
{
    sign_bits(inst) | ((inst >> 20) & 0xfe0) | ((inst >> 7) & 0x1f)
}

fn imm_b(inst: u32) -> (imm: u32)
    ensures
        imm == imm_b_of(inst),
{
    sign_bits(inst) | ((inst << 4) & 0x800) | ((inst >> 20) & 0x7e0) | ((inst >> 7) & 0x1e)
}

fn imm_j(inst: u32) -> (imm: u32)
    ensures
        imm == imm_j_of(inst),
{
    let sign: u32 = if inst & 0x8000_0000 != 0 {
        0xfff0_0000
    } else {
        0
    };
    sign | (inst & 0xf_f000) | ((inst >> 9) & 0x800) | ((inst >> 20) & 0x7fe)
}

fn condition(funct3: u32) -> (cond: Option<Condition>)
    ensures
        cond == condition_of(funct3),
{
    if funct3 == 0 {
        Some(Condition::Eq)
    } else if funct3 == 1 {
        Some(Condition::Ne)
    } else if funct3 == 4 {
        Some(Condition::Lt)
    } else if funct3 == 5 {
        Some(Condition::Ge)
    } else if funct3 == 6 {
        Some(Condition::Ltu)
    } else if funct3 == 7 {
        Some(Condition::Geu)
    } else {
        None
    }
}

fn load_kind(funct3: u32) -> (kind: Option<(Width, bool)>)
    ensures
        kind == load_kind_of(funct3),
{
    if funct3 == 0 {
        Some((Width::Byte, true))
    } else if funct3 == 1 {
        Some((Width::Half, true))
    } else if funct3 == 2 {
        Some((Width::Word, true))
    } else if funct3 == 4 {
        Some((Width::Byte, false))
    } else if funct3 == 5 {
        Some((Width::Half, false))
    } else {
        None
    }
}

fn store_width(funct3: u32) -> (width: Option<Width>)
    ensures
        width == store_width_of(funct3),
{
    if funct3 == 0 {
        Some(Width::Byte)
    } else if funct3 == 1 {
        Some(Width::Half)
    } else if funct3 == 2 {
        Some(Width::Word)
    } else {
        None
    }
}

fn op_imm(funct3: u32, funct7: u32) -> (op: Option<AluOp>)
    ensures
        op == op_imm_of(funct3, funct7),
{
    if funct3 == 0 {
        Some(AluOp::Add)
    } else if funct3 == 1 {
        if funct7 == 0 {
            Some(AluOp::Sll)
        } else {
            None
        }
    } else if funct3 == 2 {
        Some(AluOp::Slt)
    } else if funct3 == 3 {
        Some(AluOp::Sltu)
    } else if funct3 == 4 {
        Some(AluOp::Xor)
    } else if funct3 == 5 {
        if funct7 == 0 {
            Some(AluOp::Srl)
        } else if funct7 == 0x20 {
            Some(AluOp::Sra)
        } else {
            None
        }
    } else if funct3 == 6 {
        Some(AluOp::Or)
    } else {
        Some(AluOp::And)
    }
}

fn op(funct3: u32, funct7: u32) -> (op: Option<AluOp>)
    ensures
        op == op_of(funct3, funct7),
{
    if funct7 == 0 {
        if funct3 == 0 {
            Some(AluOp::Add)
        } else if funct3 == 1 {
            Some(AluOp::Sll)
        } else if funct3 == 2 {
            Some(AluOp::Slt)
        } else if funct3 == 3 {
            Some(AluOp::Sltu)
        } else if funct3 == 4 {
            Some(AluOp::Xor)
        } else if funct3 == 5 {
            Some(AluOp::Srl)
        } else if funct3 == 6 {
            Some(AluOp::Or)
        } else {
            Some(AluOp::And)
        }
    } else if funct7 == 0x20 {
        if funct3 == 0 {
            Some(AluOp::Sub)
        } else if funct3 == 5 {
            Some(AluOp::Sra)
        } else {
            None
        }
    } else {
        None
    }
}

/// Decodes an instruction word. `None` means that the word is illegal.
#[verifier::when_used_as_spec(spec_decode)]
pub fn decode(inst: u32) -> (decoded: Option<Instruction>)
    ensures
        decoded == spec_decode(inst),
        decoded matches Some(instruction) ==> instruction.wf(),
{
    let opcode: u32 = inst & 0x7f;
    let rd: u8 = register_field(inst, 7);
    let rs1: u8 = register_field(inst, 15);
    let rs2: u8 = register_field(inst, 20);
    let funct3: u32 = (inst >> 12) & 0x7;
    let funct7: u32 = inst >> 25;
    if opcode == 0x37 {
        Some(Instruction::Lui { rd, imm: inst & 0xffff_f000 })
    } else if opcode == 0x17 {
        Some(Instruction::Auipc { rd, imm: inst & 0xffff_f000 })
    } else if opcode == 0x6f {
        Some(Instruction::Jal { rd, offset: imm_j(inst) })
    } else if opcode == 0x67 {
        if funct3 == 0 {
            Some(Instruction::Jalr { rd, rs1, offset: imm_i(inst) })
        } else {
            None
        }
    } else if opcode == 0x63 {
        match condition(funct3) {
            Some(cond) => Some(Instruction::Branch { cond, rs1, rs2, offset: imm_b(inst) }),
            None => None,
        }
    } else if opcode == 0x03 {
        match load_kind(funct3) {
            Some((width, signed)) => Some(
                Instruction::Load { width, signed, rd, rs1, offset: imm_i(inst) },
            ),
            None => None,
        }
    } else if opcode == 0x23 {
        match store_width(funct3) {
            Some(width) => Some(Instruction::Store { width, rs1, rs2, offset: imm_s(inst) }),
            None => None,
        }
    } else if opcode == 0x13 {
        match op_imm(funct3, funct7) {
            Some(op) => {
                let imm: u32 = if funct3 == 1 || funct3 == 5 {
                    rs2 as u32
                } else {
                    imm_i(inst)
                };
                Some(Instruction::OpImm { op, rd, rs1, imm })
            },
            None => None,
        }
    } else if opcode == 0x33 {
        match op(funct3, funct7) {
            Some(op) => Some(Instruction::Op { op, rd, rs1, rs2 }),
            None => None,
        }
    } else if opcode == 0x0f {
        if funct3 == 0 {
            Some(Instruction::Fence)
        } else {
            None
        }
    } else {
        None
    }
}

/// An extension of the instruction set that bots may be compiled for and that
/// is not supported: every word of one of these is illegal.
#[derive(Clone, Copy, Debug, PartialEq, Eq, Structural)]
pub enum Extension {
    /// Instructions of sixteen bits.
    Compressed,
    /// Integer multiplication and division.
    Multiply,
    /// Atomic memory operations.
    Atomic,
    /// Floating point loads, stores and arithmetic.
    Float,
}

/// The unsupported extension that a word belongs to by its opcode, if any: a
/// word whose two lowest bits are not both set is a compressed instruction;
/// the others are told apart by their major opcode, and multiplication by
/// its second minor opcode.
pub open spec fn spec_extension_of(inst: u32) -> Option<Extension> {
    let opcode = opcode_of(inst);
    if inst & 0x3 != 0x3 {
        Some(Extension::Compressed)
    } else if opcode == 0x33 && funct7_of(inst) == 1 {
        Some(Extension::Multiply)
    } else if opcode == 0x2f {
        Some(Extension::Atomic)
    } else if opcode == 0x07 || opcode == 0x27 || opcode == 0x43 || opcode == 0x47 || opcode
        == 0x4b || opcode == 0x4f || opcode == 0x53 {
        Some(Extension::Float)
    } else {
        None
    }
}

/// Tells which unsupported extension an instruction word belongs to, so that
/// the host can say more of an illegal instruction than that it is one.
#[verifier::when_used_as_spec(spec_extension_of)]
pub fn extension_of(inst: u32) -> (extension: Option<Extension>)
    ensures
        extension == spec_extension_of(inst),
{
    let opcode: u32 = inst & 0x7f;
    if inst & 0x3 != 0x3 {
        Some(Extension::Compressed)
    } else if opcode == 0x33 && inst >> 25 == 1 {
        Some(Extension::Multiply)
    } else if opcode == 0x2f {
        Some(Extension::Atomic)
    } else if opcode == 0x07 || opcode == 0x27 || opcode == 0x43 || opcode == 0x47 || opcode
        == 0x4b || opcode == 0x4f || opcode == 0x53 {
        Some(Extension::Float)
    } else {
        None
    }
}

/// No word of an unsupported extension decodes to an instruction.
pub proof fn lemma_extensions_are_illegal(inst: u32)
    requires
        spec_extension_of(inst) is Some,
    ensures
        spec_decode(inst) is None,
{
    assert(inst & 0x3 != 0x3 ==> (inst & 0x7f) & 0x3 != 0x3) by (bit_vector);
    assert(0x37u32 & 0x3 == 0x3 && 0x17u32 & 0x3 == 0x3 && 0x6fu32 & 0x3 == 0x3 && 0x67u32 & 0x3
        == 0x3 && 0x63u32 & 0x3 == 0x3 && 0x03u32 & 0x3 == 0x3 && 0x23u32 & 0x3 == 0x3 && 0x13u32
        & 0x3 == 0x3 && 0x33u32 & 0x3 == 0x3 && 0x0fu32 & 0x3 == 0x3) by (bit_vector);
}

/// The fields of an instruction word in numbers: each is the word divided by
/// two to the power of its lowest bit, modulo two to the power of its width.
pub proof fn lemma_fields_in_numbers(inst: u32)
    ensures
        opcode_of(inst) == inst % 0x80,
        rd_of(inst) == inst / 0x80 % 0x20,
        funct3_of(inst) == inst / 0x1000 % 0x8,
        rs1_of(inst) == inst / 0x8000 % 0x20,
        rs2_of(inst) == inst / 0x10_0000 % 0x20,
        funct7_of(inst) == inst / 0x200_0000,
        imm_u_of(inst) == inst - inst % 0x1000,
{
    assert(inst & 0x7f == inst % 0x80) by (bit_vector);
    assert((inst >> 7) & 0x1f == inst / 0x80 % 0x20) by (bit_vector);
    assert((inst >> 12) & 0x7 == inst / 0x1000 % 0x8) by (bit_vector);
    assert((inst >> 15) & 0x1f == inst / 0x8000 % 0x20) by (bit_vector);
    assert((inst >> 20) & 0x1f == inst / 0x10_0000 % 0x20) by (bit_vector);
    assert(inst >> 25 == inst / 0x200_0000) by (bit_vector);
    assert(inst & 0xffff_f000 == inst - inst % 0x1000) by (bit_vector);
}

/// The immediates in numbers. That of the register-immediate format is the
/// word divided by 2^20 and rounded down, less 4096 (as a register value:
/// plus 2^32 - 4096) if bit 31 of the word is set: a number from -2048 to
/// 2047. So is that of the store format. The offsets of branches and jumps
/// are even, and lie from -4096 to 4094 and from -2^20 to 2^20 - 2.
pub proof fn lemma_immediates_in_numbers(inst: u32)
    ensures
        imm_i_of(inst) == if inst < 0x8000_0000 {
            (inst / 0x10_0000) as int
        } else {
            0xffff_f000 + inst / 0x10_0000 % 0x1000
        },
        imm_i_of(inst) < 0x800 || imm_i_of(inst) >= 0xffff_f800,
        imm_s_of(inst) < 0x800 || imm_s_of(inst) >= 0xffff_f800,
        imm_b_of(inst) % 2 == 0,
        imm_b_of(inst) < 0x1000 || imm_b_of(inst) >= 0xffff_f000,
        imm_j_of(inst) % 2 == 0,
        imm_j_of(inst) < 0x10_0000 || imm_j_of(inst) >= 0xfff0_0000,
{
    assert(inst & 0x8000_0000 != 0 <==> inst >= 0x8000_0000) by (bit_vector);
    assert(inst < 0x8000_0000 ==> 0u32 | (inst >> 20) == inst / 0x10_0000 && inst >> 20 < 0x800)
        by (bit_vector);
    assert(inst >= 0x8000_0000 ==> 0xffff_f000u32 | (inst >> 20) == 0xffff_f000 + inst
        / 0x10_0000 % 0x1000 && inst / 0x10_0000 % 0x1000 >= 0x800) by (bit_vector);
    let sign: u32 = sign_of(inst);
    assert(inst < 0x8000_0000 ==> (0u32 | ((inst >> 20) & 0xfe0) | ((inst >> 7) & 0x1f)) < 0x800)
        by (bit_vector);
    assert((0xffff_f000u32 | ((inst >> 20) & 0xfe0) | ((inst >> 7) & 0x1f)) >= 0xffff_f000)
        by (bit_vector);
    assert(inst >= 0x8000_0000 ==> (0xffff_f000u32 | ((inst >> 20) & 0xfe0) | ((inst >> 7)
        & 0x1f)) >= 0xffff_f800) by (bit_vector);
    assert((sign | ((inst << 4) & 0x800) | ((inst >> 20) & 0x7e0) | ((inst >> 7) & 0x1e)) % 2 == 0
        && ((0u32 | ((inst << 4) & 0x800) | ((inst >> 20) & 0x7e0) | ((inst >> 7) & 0x1e)) < 0x1000)
        && ((0xffff_f000u32 | ((inst << 4) & 0x800) | ((inst >> 20) & 0x7e0) | ((inst >> 7) & 0x1e))
        >= 0xffff_f000)) by (bit_vector)
        requires
            sign == 0 || sign == 0xffff_f000u32,
    ;
    assert(((0xfff0_0000u32 | (inst & 0xf_f000) | ((inst >> 9) & 0x800) | ((inst >> 20) & 0x7fe))
        % 2 == 0) && ((0u32 | (inst & 0xf_f000) | ((inst >> 9) & 0x800) | ((inst >> 20) & 0x7fe))
        % 2 == 0) && ((0u32 | (inst & 0xf_f000) | ((inst >> 9) & 0x800) | ((inst >> 20) & 0x7fe))
        < 0x10_0000) && ((0xfff0_0000u32 | (inst & 0xf_f000) | ((inst >> 9) & 0x800) | ((inst
        >> 20) & 0x7fe)) >= 0xfff0_0000)) by (bit_vector);
}

/// Every decoded instruction names registers that exist.
pub proof fn lemma_decode_wf(inst: u32)
    ensures
        spec_decode(inst) matches Some(instruction) ==> instruction.wf(),
{
    assert(((inst >> 7) & 0x1f) < 32) by (bit_vector);
    assert(((inst >> 15) & 0x1f) < 32) by (bit_vector);
    assert(((inst >> 20) & 0x1f) < 32) by (bit_vector);
}

} // verus!
