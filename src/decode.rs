//! Field extraction and opcode dispatch for 32-bit instruction words.

use vstd::prelude::*;

verus! {

/// Opcode of the add-immediate instruction.
pub const OPCODE_ADD_IMMEDIATE: u32 = 0x13;

/// Opcode of the add-register instruction.
pub const OPCODE_ADD_REGISTER: u32 = 0x33;

/// Bits [6:0]: the opcode.
pub open spec fn opcode_of(inst: u32) -> u32 {
    inst & 0x0000_007f
}

/// Bits [11:7]: the destination register.
pub open spec fn rd_of(inst: u32) -> u32 {
    (inst & 0x0000_0f80) >> 7
}

/// Bits [19:15]: the first source register.
pub open spec fn rs1_of(inst: u32) -> u32 {
    (inst & 0x000f_8000) >> 15
}

/// Bits [24:20]: the second source register.
pub open spec fn rs2_of(inst: u32) -> u32 {
    (inst & 0x01f0_0000) >> 20
}

/// Bits [31:20]: the raw 12-bit immediate field.
pub open spec fn imm_field_of(inst: u32) -> u32 {
    (inst & 0xfff0_0000) >> 20
}

/// A 12-bit field read as a two's-complement number and widened to 64 bits
/// (negative values wrap modulo 2^64).
pub open spec fn sign_extend_12(field: u32) -> u64 {
    if field < 0x800 {
        field as u64
    } else {
        (field as int - 0x1000 + 0x1_0000_0000_0000_0000) as u64
    }
}

/// The decoded immediate of an immediate-form instruction.
pub open spec fn imm_of(inst: u32) -> u64 {
    sign_extend_12(imm_field_of(inst))
}

/// One decoded instruction: the operation and the operands it reads.
#[derive(Clone, Copy, Debug, PartialEq, Eq, Structural)]
pub enum Op {
    /// `regs[rd] = regs[rs1] + imm`, wrapping.
    AddImmediate { rd: usize, rs1: usize, imm: u64 },
    /// `regs[rd] = regs[rs1] + regs[rs2]`, wrapping.
    AddRegister { rd: usize, rs1: usize, rs2: usize },
    /// An opcode with no entry in the table; executing it changes nothing.
    Undefined { opcode: u32 },
}

impl Op {
    /// Every register index that the operation names is in 0..32.
    pub open spec fn wf(self) -> bool {
        match self {
            Op::AddImmediate { rd, rs1, .. } => rd < 32 && rs1 < 32,
            Op::AddRegister { rd, rs1, rs2 } => rd < 32 && rs1 < 32 && rs2 < 32,
            Op::Undefined { .. } => true,
        }
    }
}

/// The operation that an instruction word stands for.
pub open spec fn decode_spec(inst: u32) -> Op {
    if opcode_of(inst) == OPCODE_ADD_IMMEDIATE {
        Op::AddImmediate { rd: rd_of(inst) as usize, rs1: rs1_of(inst) as usize, imm: imm_of(inst) }
    } else if opcode_of(inst) == OPCODE_ADD_REGISTER {
        Op::AddRegister {
            rd: rd_of(inst) as usize,
            rs1: rs1_of(inst) as usize,
            rs2: rs2_of(inst) as usize,
        }
    } else {
        Op::Undefined { opcode: opcode_of(inst) }
    }
}

/// Every register field of an instruction word is below 32.
pub proof fn lemma_register_fields_bounded(inst: u32)
    ensures
        rd_of(inst) < 32,
        rs1_of(inst) < 32,
        rs2_of(inst) < 32,
        imm_field_of(inst) < 0x1000,
{
    assert((inst & 0x0000_0f80) >> 7 < 32) by (bit_vector);
    assert((inst & 0x000f_8000) >> 15 < 32) by (bit_vector);
    assert((inst & 0x01f0_0000) >> 20 < 32) by (bit_vector);
    assert((inst & 0xfff0_0000) >> 20 < 0x1000) by (bit_vector);
}

/// Widens a 12-bit two's-complement field to 64 bits.
pub fn sign_extend(field: u32) -> (r: u64)
    requires
        field < 0x1000,
    ensures
        r == sign_extend_12(field),
{
    if field & 0x800 == 0 {
        assert(field & 0x800 == 0 && field < 0x1000 ==> field < 0x800) by (bit_vector);
        field as u64
    } else {
        assert(field & 0x800 != 0 ==> field >= 0x800) by (bit_vector);
        assert(field < 0x1000 ==> (field as u64 | 0xffff_ffff_ffff_f000u64) == field as u64
            + 0xffff_ffff_ffff_f000u64) by (bit_vector);
        field as u64 | 0xffff_ffff_ffff_f000
    }
}

/// Splits an instruction word into its operation and operands.
pub fn decode(inst: u32) -> (op: Op)
    ensures
        op == decode_spec(inst),
        op.wf(),
{
    proof {
        lemma_register_fields_bounded(inst);
    }
    let opcode = inst & 0x0000_007f;
    let rd = ((inst & 0x0000_0f80) >> 7) as usize;
    let rs1 = ((inst & 0x000f_8000) >> 15) as usize;
    let rs2 = ((inst & 0x01f0_0000) >> 20) as usize;
    if opcode == OPCODE_ADD_IMMEDIATE {
        let imm = sign_extend((inst & 0xfff0_0000) >> 20);
        Op::AddImmediate { rd, rs1, imm }
    } else if opcode == OPCODE_ADD_REGISTER {
        Op::AddRegister { rd, rs1, rs2 }
    } else {
        Op::Undefined { opcode }
    }
}

} // verus!
