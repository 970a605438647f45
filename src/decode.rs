//! Field extraction from 32-bit instruction words, and reassembly of the
//! immediates that the formats scatter over non-contiguous bits.

use vstd::prelude::*;
use crate::opcodes::{
    MASK_BRANCH_IMM_10_5,
    MASK_BRANCH_IMM_11,
    MASK_BRANCH_IMM_12,
    MASK_BRANCH_IMM_4_1,
    MASK_F3,
    MASK_F7,
    MASK_I_IMM,
    MASK_JAL_IMM_10_1,
    MASK_JAL_IMM_11,
    MASK_JAL_IMM_19_12,
    MASK_JAL_IMM_20,
    MASK_LUI_IMM,
    MASK_OP,
    MASK_RD,
    MASK_RS1,
    MASK_RS2,
    MASK_STORE_IMM_11_5,
    MASK_STORE_IMM_4_0,
};

verus! {

/// Bits 6:0.
pub open spec fn opcode_of(w: u32) -> u8 {
    (w & MASK_OP) as u8
}

/// Bits 11:7.
pub open spec fn rd_of(w: u32) -> u8 {
    ((w & MASK_RD) >> 7u32) as u8
}

/// Bits 14:12.
pub open spec fn funct3_of(w: u32) -> u8 {
    ((w & MASK_F3) >> 12u32) as u8
}

/// Bits 19:15.
pub open spec fn rs1_of(w: u32) -> u8 {
    ((w & MASK_RS1) >> 15u32) as u8
}

/// Bits 24:20.
pub open spec fn rs2_of(w: u32) -> u8 {
    ((w & MASK_RS2) >> 20u32) as u8
}

/// Bits 31:25.
pub open spec fn funct7_of(w: u32) -> u8 {
    ((w & MASK_F7) >> 25u32) as u8
}

/// The composite dispatch key `(funct7 << 3) | funct3` of a register-register operation.
pub open spec fn alu_key_of(w: u32) -> u16 {
    ((funct7_of(w) as u16) << 3u16) | (funct3_of(w) as u16)
}

/// Bit 30, which selects the rotating variant of a right shift by an immediate.
pub open spec fn shift_rotates(w: u32) -> bool {
    (w >> 30u32) & 1 == 1
}

/// Upper immediate: bits 31:12 in place, the low twelve bits zero.
pub open spec fn imm_u(w: u32) -> u32 {
    w & MASK_LUI_IMM
}

/// The twelve-bit immediate of bits 31:20, zero-extended.
pub open spec fn imm_i(w: u32) -> u32 {
    (w & MASK_I_IMM) >> 20u32
}

/// Sign extension of a twelve-bit value.
pub open spec fn sign_extend_12(x: u32) -> u32 {
    if x & 0x800 != 0 {
        x | 0xFFFF_F000
    } else {
        x
    }
}

/// The store immediate: bits 11:5 from bits 31:25, bits 4:0 from bits 11:7.
pub open spec fn imm_s(w: u32) -> u32 {
    (((w & MASK_STORE_IMM_11_5) >> 25u32) << 5u32) | ((w & MASK_STORE_IMM_4_0) >> 7u32)
}

/// The branch offset, sign-extended from thirteen bits: bit 12 from bit 31,
/// bit 11 from bit 7, bits 10:5 from bits 30:25, bits 4:1 from bits 11:8.
pub open spec fn imm_b(w: u32) -> u32 {
    let raw = (((w & MASK_BRANCH_IMM_12) >> 31u32) << 12u32) | (((w & MASK_BRANCH_IMM_11)
        >> 7u32) << 11u32) | (((w & MASK_BRANCH_IMM_10_5) >> 25u32) << 5u32) | (((w
        & MASK_BRANCH_IMM_4_1) >> 8u32) << 1u32);
    if raw & 0x1000 != 0 {
        raw | 0xFFFF_E000
    } else {
        raw
    }
}

/// The jump immediate, sign-extended from twenty-one bits: bit 20 from bit 31,
/// bits 19:12 in place, bit 11 from bit 20, bits 10:1 from bits 30:21.
pub open spec fn imm_j(w: u32) -> u32 {
    let raw = ((w & MASK_JAL_IMM_20) >> 11u32) | (w & MASK_JAL_IMM_19_12) | ((w & MASK_JAL_IMM_11)
        >> 9u32) | ((w & MASK_JAL_IMM_10_1) >> 20u32);
    if raw & 0x10_0000 != 0 {
        raw | 0xFFE0_0000
    } else {
        raw
    }
}

/// Register fields hold five bits, function-3 three and function-7 seven.
pub proof fn lemma_field_bounds(w: u32)
    by (bit_vector)
    ensures
        opcode_of(w) < 128,
        rd_of(w) < 32,
        funct3_of(w) < 8,
        rs1_of(w) < 32,
        rs2_of(w) < 32,
        funct7_of(w) < 128,
{
}

/// The opcode field of `w`.
pub fn opcode(w: u32) -> (r: u8)
    ensures
        r == opcode_of(w),
{
    #[verifier::truncate]
    ((w & MASK_OP) as u8)
}

/// The destination-register field of `w`.
pub fn rd(w: u32) -> (r: u8)
    ensures
        r == rd_of(w),
        r < 32,
{
    proof {
        lemma_field_bounds(w);
    }
    #[verifier::truncate]
    (((w & MASK_RD) >> 7u32) as u8)
}

/// The function-3 field of `w`.
pub fn funct3(w: u32) -> (r: u8)
    ensures
        r == funct3_of(w),
        r < 8,
{
    proof {
        lemma_field_bounds(w);
    }
    #[verifier::truncate]
    (((w & MASK_F3) >> 12u32) as u8)
}

/// The source-register-1 field of `w`.
pub fn rs1(w: u32) -> (r: u8)
    ensures
        r == rs1_of(w),
        r < 32,
{
    proof {
        lemma_field_bounds(w);
    }
    #[verifier::truncate]
    (((w & MASK_RS1) >> 15u32) as u8)
}

/// The source-register-2 field of `w`.
pub fn rs2(w: u32) -> (r: u8)
    ensures
        r == rs2_of(w),
        r < 32,
{
    proof {
        lemma_field_bounds(w);
    }
    #[verifier::truncate]
    (((w & MASK_RS2) >> 20u32) as u8)
}

/// The function-7 field of `w`.
pub fn funct7(w: u32) -> (r: u8)
    ensures
        r == funct7_of(w),
        r < 128,
{
    proof {
        lemma_field_bounds(w);
    }
    #[verifier::truncate]
    (((w & MASK_F7) >> 25u32) as u8)
}

/// The composite dispatch key of `w`.
pub fn alu_key(w: u32) -> (r: u16)
    ensures
        r == alu_key_of(w),
{
    ((funct7(w) as u16) << 3u16) | (funct3(w) as u16)
}

/// Whether a right shift by an immediate in `w` rotates.
pub fn rotates(w: u32) -> (r: bool)
    ensures
        r == shift_rotates(w),
{
    (w >> 30u32) & 1 == 1
}

/// The upper immediate of `w`.
pub fn upper_immediate(w: u32) -> (r: u32)
    ensures
        r == imm_u(w),
{
    w & MASK_LUI_IMM
}

/// The twelve-bit immediate of `w`, zero-extended.
pub fn i_immediate(w: u32) -> (r: u32)
    ensures
        r == imm_i(w),
{
    (w & MASK_I_IMM) >> 20u32
}

/// `x` sign-extended from twelve bits.
pub fn sign_extend_twelve(x: u32) -> (r: u32)
    ensures
        r == sign_extend_12(x),
{
    if x & 0x800 != 0 {
        x | 0xFFFF_F000
    } else {
        x
    }
}

/// The reassembled store immediate of `w`.
pub fn store_immediate(w: u32) -> (r: u32)
    ensures
        r == imm_s(w),
{
    (((w & MASK_STORE_IMM_11_5) >> 25u32) << 5u32) | ((w & MASK_STORE_IMM_4_0) >> 7u32)
}

/// The reassembled, sign-extended branch offset of `w`.
pub fn branch_immediate(w: u32) -> (r: u32)
    ensures
        r == imm_b(w),
{
    let imm_12 = ((w & MASK_BRANCH_IMM_12) >> 31u32) << 12u32;
    let imm_11 = ((w & MASK_BRANCH_IMM_11) >> 7u32) << 11u32;
    let imm_10_5 = ((w & MASK_BRANCH_IMM_10_5) >> 25u32) << 5u32;
    let imm_4_1 = ((w & MASK_BRANCH_IMM_4_1) >> 8u32) << 1u32;
    let raw = imm_12 | imm_11 | imm_10_5 | imm_4_1;
    if raw & 0x1000 != 0 {
        raw | 0xFFFF_E000
    } else {
        raw
    }
}

/// The reassembled, sign-extended jump immediate of `w`.
pub fn jump_immediate(w: u32) -> (r: u32)
    ensures
        r == imm_j(w),
{
    let imm_20 = (w & MASK_JAL_IMM_20) >> 11u32;
    let imm_19_12 = w & MASK_JAL_IMM_19_12;
    let imm_11 = (w & MASK_JAL_IMM_11) >> 9u32;
    let imm_10_1 = (w & MASK_JAL_IMM_10_1) >> 20u32;
    let raw = imm_20 | imm_19_12 | imm_11 | imm_10_1;
    if raw & 0x10_0000 != 0 {
        raw | 0xFFE0_0000
    } else {
        raw
    }
}

} // verus!
