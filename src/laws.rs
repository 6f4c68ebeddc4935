//! Properties of the instruction semantics and of whole runs.

use vstd::prelude::*;
use crate::cpu::{execute_spec, fetchable, run_spec, word_at, wrap_add, INSTRUCTION_WIDTH};
use crate::decode::{
    decode_spec, imm_field_of, lemma_register_fields_bounded, opcode_of, rd_of, rs1_of, rs2_of, sign_extend_12, Op,
    OPCODE_ADD_IMMEDIATE, OPCODE_ADD_REGISTER,
};

verus! {

/// The word of an immediate-form instruction.
pub open spec fn encode_immediate(opcode: u32, rd: u32, rs1: u32, imm12: u32) -> u32 {
    (imm12 << 20) | (rs1 << 15) | (rd << 7) | opcode
}

/// The word of a register-form instruction.
pub open spec fn encode_register(opcode: u32, rd: u32, rs1: u32, rs2: u32) -> u32 {
    (rs2 << 20) | (rs1 << 15) | (rd << 7) | opcode
}

/// Decoding reads back the fields that an immediate-form word was built from.
pub proof fn lemma_decode_immediate_form(opcode: u32, rd: u32, rs1: u32, imm12: u32)
    requires
        opcode < 0x80,
        rd < 32,
        rs1 < 32,
        imm12 < 0x1000,
    ensures
        opcode_of(encode_immediate(opcode, rd, rs1, imm12)) == opcode,
        rd_of(encode_immediate(opcode, rd, rs1, imm12)) == rd,
        rs1_of(encode_immediate(opcode, rd, rs1, imm12)) == rs1,
        imm_field_of(encode_immediate(opcode, rd, rs1, imm12)) == imm12,
{
    assert(opcode < 0x80 && rd < 32 && rs1 < 32 && imm12 < 0x1000 ==> {
        let w = (imm12 << 20) | (rs1 << 15) | (rd << 7) | opcode;
        &&& w & 0x0000_007f == opcode
        &&& (w & 0x0000_0f80) >> 7 == rd
        &&& (w & 0x000f_8000) >> 15 == rs1
        &&& (w & 0xfff0_0000) >> 20 == imm12
    }) by (bit_vector);
}

/// Decoding reads back the fields that a register-form word was built from.
pub proof fn lemma_decode_register_form(opcode: u32, rd: u32, rs1: u32, rs2: u32)
    requires
        opcode < 0x80,
        rd < 32,
        rs1 < 32,
        rs2 < 32,
    ensures
        opcode_of(encode_register(opcode, rd, rs1, rs2)) == opcode,
        rd_of(encode_register(opcode, rd, rs1, rs2)) == rd,
        rs1_of(encode_register(opcode, rd, rs1, rs2)) == rs1,
        rs2_of(encode_register(opcode, rd, rs1, rs2)) == rs2,
{
    assert(opcode < 0x80 && rd < 32 && rs1 < 32 && rs2 < 32 ==> {
        let w = (rs2 << 20) | (rs1 << 15) | (rd << 7) | opcode;
        &&& w & 0x0000_007f == opcode
        &&& (w & 0x0000_0f80) >> 7 == rd
        &&& (w & 0x000f_8000) >> 15 == rs1
        &&& (w & 0x01f0_0000) >> 20 == rs2
    }) by (bit_vector);
}

/// Whatever instruction executes, register 0 reads 0 afterwards.
pub proof fn lemma_zero_register_after_execute(regs: Seq<u64>, inst: u32)
    requires
        regs.len() == 32,
    ensures
        execute_spec(regs, inst)[0] == 0,
{
    lemma_register_fields_bounded(inst);
}

/// Add-immediate from register 0 loads the sign-extended immediate into any
/// destination other than register 0.
pub proof fn lemma_add_immediate_from_zero(regs: Seq<u64>, rd: u32, imm12: u32)
    requires
        regs.len() == 32,
        0 < rd < 32,
        imm12 < 0x1000,
    ensures
        execute_spec(regs, encode_immediate(OPCODE_ADD_IMMEDIATE, rd, 0, imm12))[rd as int]
            == sign_extend_12(imm12),
        imm12 < 0x800 ==> sign_extend_12(imm12) == imm12,
        imm12 >= 0x800 ==> sign_extend_12(imm12) == imm12 + 0xffff_ffff_ffff_f000,
{
    lemma_decode_immediate_form(OPCODE_ADD_IMMEDIATE, rd, 0, imm12);
}

/// Add-register stores the wrapping sum of its two sources (register 0
/// reading 0); where both sources are the destination, it doubles it.
pub proof fn lemma_add_register(regs: Seq<u64>, rd: u32, rs1: u32, rs2: u32)
    requires
        regs.len() == 32,
        0 < rd < 32,
        rs1 < 32,
        rs2 < 32,
    ensures
        ({
            let r0 = regs.update(0, 0);
            execute_spec(regs, encode_register(OPCODE_ADD_REGISTER, rd, rs1, rs2))[rd as int]
                == wrap_add(r0[rs1 as int], r0[rs2 as int])
        }),
        rs1 == rd && rs2 == rd ==> execute_spec(
            regs,
            encode_register(OPCODE_ADD_REGISTER, rd, rs1, rs2),
        )[rd as int] == (2 * regs[rd as int]) % 0x1_0000_0000_0000_0000,
{
    lemma_decode_register_form(OPCODE_ADD_REGISTER, rd, rs1, rs2);
}

/// An instruction whose opcode has no entry in the table leaves the register
/// file as it was (register 0 already reading 0).
pub proof fn lemma_undefined_opcode_keeps_registers(regs: Seq<u64>, inst: u32)
    requires
        regs.len() == 32,
        regs[0] == 0,
        opcode_of(inst) != OPCODE_ADD_IMMEDIATE,
        opcode_of(inst) != OPCODE_ADD_REGISTER,
    ensures
        decode_spec(inst) == (Op::Undefined { opcode: opcode_of(inst) }),
        execute_spec(regs, inst) == regs,
{
    assert(execute_spec(regs, inst) =~= regs);
}

/// Where memory is a whole number of words and the run starts on a word
/// boundary inside it, the run completes with the program counter exactly at
/// the end of memory.
pub proof fn lemma_run_ends_at_memory_end(regs: Seq<u64>, pc: int, mem: Seq<u8>)
    requires
        mem.len() % 4 == 0,
        pc % 4 == 0,
        0 <= pc <= mem.len(),
    ensures
        run_spec(regs, pc, mem).1 == mem.len(),
        run_spec(regs, pc, mem).2,
    decreases mem.len() - pc,
{
    if pc < mem.len() {
        assert(fetchable(mem, pc));
        lemma_run_ends_at_memory_end(
            execute_spec(regs, word_at(mem, pc)),
            pc + INSTRUCTION_WIDTH,
            mem,
        );
    }
}

} // verus!
