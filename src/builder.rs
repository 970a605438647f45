//! Assembles instruction words from their fields, in the standard 32-bit
//! RISC-V layouts.

use vstd::prelude::*;
use crate::decode::{
    alu_key_of,
    funct3_of,
    funct7_of,
    imm_b,
    imm_i,
    imm_j,
    imm_s,
    imm_u,
    opcode_of,
    rd_of,
    rs1_of,
    rs2_of,
};
use crate::opcodes::{OP_ALU, OP_ALUI, OP_BRANCH, OP_JAL, OP_JALR, OP_LOAD, OP_LUI, OP_STORE};

verus! {

/// Encodes instructions. Each method places its arguments in the fields of
/// one instruction format; a field argument wider than its field spills into
/// the neighbouring bits.
pub struct InstructionBuilder;

impl InstructionBuilder {
    /// Load-upper-immediate of `imm` (the value of bits 31:12) into `rd`.
    pub fn lui(&self, imm: u32, rd: u8) -> (r: u32)
        ensures
            r == (imm << 12u32) | ((rd as u32) << 7u32) | (OP_LUI as u32),
            rd < 32 ==> opcode_of(r) == OP_LUI && rd_of(r) == rd && imm_u(r) == imm << 12u32,
    {
        let r = (imm << 12u32) | ((rd as u32) << 7u32) | (OP_LUI as u32);
        proof {
            assert(rd < 32 ==> opcode_of(r) == OP_LUI && rd_of(r) == rd && imm_u(r) == imm
                << 12u32) by (bit_vector)
                requires
                    r == (imm << 12u32) | ((rd as u32) << 7u32) | (OP_LUI as u32),
            ;
        }
        r
    }

    /// Jump-and-link to `address` (bits 20:1 are encoded), linking into `rd`.
    pub fn jal(&self, address: u32, rd: u8) -> (r: u32)
        ensures
            r == ((address & 0x10_0000) << 11u32) | ((address & 0x7FE) << 20u32) | ((address
                & 0x800) << 9u32) | (address & 0xF_F000) | ((rd as u32) << 7u32) | (OP_JAL as u32),
            rd < 32 ==> opcode_of(r) == OP_JAL && rd_of(r) == rd,
            rd < 32 && address & 1 == 0 && (address < 0x10_0000 || address >= 0xFFF0_0000)
                ==> imm_j(r) == address,
    {
        let imm_20 = (address & 0x10_0000) << 11u32;
        let imm_10_1 = (address & 0x7FE) << 20u32;
        let imm_11 = (address & 0x800) << 9u32;
        let imm_19_12 = address & 0xF_F000;
        let r = imm_20 | imm_10_1 | imm_11 | imm_19_12 | ((rd as u32) << 7u32) | (OP_JAL as u32);
        proof {
            assert(rd < 32 ==> opcode_of(r) == OP_JAL && rd_of(r) == rd) by (bit_vector)
                requires
                    r == ((address & 0x10_0000) << 11u32) | ((address & 0x7FE) << 20u32) | ((
                    address & 0x800) << 9u32) | (address & 0xF_F000) | ((rd as u32) << 7u32) | (
                    OP_JAL as u32),
            ;
            assert(rd < 32 && address & 1 == 0 && (address < 0x10_0000 || address >= 0xFFF0_0000)
                ==> imm_j(r) == address) by (bit_vector)
                requires
                    r == ((address & 0x10_0000) << 11u32) | ((address & 0x7FE) << 20u32) | ((
                    address & 0x800) << 9u32) | (address & 0xF_F000) | ((rd as u32) << 7u32) | (
                    OP_JAL as u32),
            ;
        }
        r
    }

    /// Jump-and-link-register by the twelve-bit `offset` from `rs1`, linking into `rd`.
    pub fn jalr(&self, offset: u32, rs1: u8, rd: u8) -> (r: u32)
        ensures
            r == ((offset & 0xFFF) << 20u32) | ((rs1 as u32) << 15u32) | ((rd as u32) << 7u32) | (
            OP_JALR as u32),
            rs1 < 32 && rd < 32 ==> opcode_of(r) == OP_JALR && rs1_of(r) == rs1 && rd_of(r) == rd
                && imm_i(r) == offset & 0xFFF,
    {
        let r = ((offset & 0xFFF) << 20u32) | ((rs1 as u32) << 15u32) | ((rd as u32) << 7u32) | (
        OP_JALR as u32);
        proof {
            assert(rs1 < 32 && rd < 32 ==> opcode_of(r) == OP_JALR && rs1_of(r) == rs1 && rd_of(r)
                == rd && imm_i(r) == offset & 0xFFF) by (bit_vector)
                requires
                    r == ((offset & 0xFFF) << 20u32) | ((rs1 as u32) << 15u32) | ((rd as u32)
                        << 7u32) | (OP_JALR as u32),
            ;
        }
        r
    }

    /// Load with function code `funct3` from the twelve-bit `address`
    /// (relative to register zero) into `rd`.
    pub fn load(&self, address: u32, funct3: u8, rd: u8) -> (r: u32)
        ensures
            r == (address << 20u32) | ((funct3 as u32) << 12u32) | ((rd as u32) << 7u32) | (
            OP_LOAD as u32),
            funct3 < 8 && rd < 32 ==> opcode_of(r) == OP_LOAD && funct3_of(r) == funct3 && rd_of(r)
                == rd && rs1_of(r) == 0 && imm_i(r) == address & 0xFFF,
    {
        let r = (address << 20u32) | ((funct3 as u32) << 12u32) | ((rd as u32) << 7u32) | (
        OP_LOAD as u32);
        proof {
            assert(funct3 < 8 && rd < 32 ==> opcode_of(r) == OP_LOAD && funct3_of(r) == funct3
                && rd_of(r) == rd && rs1_of(r) == 0 && imm_i(r) == address & 0xFFF) by (bit_vector)
                requires
                    r == (address << 20u32) | ((funct3 as u32) << 12u32) | ((rd as u32) << 7u32) | (
                    OP_LOAD as u32),
            ;
        }
        r
    }

    /// Store of `rs2` with function code `funct3` at the twelve-bit `address`
    /// relative to `rs1`.
    pub fn store(&self, address: u32, funct3: u8, rs2: u8, rs1: u8) -> (r: u32)
        ensures
            r == (((address >> 5u32) & 0x7F) << 25u32) | ((rs2 as u32) << 20u32) | ((rs1 as u32)
                << 15u32) | ((funct3 as u32) << 12u32) | ((address & 0x1F) << 7u32) | (
            OP_STORE as u32),
            funct3 < 8 && rs2 < 32 && rs1 < 32 ==> opcode_of(r) == OP_STORE && funct3_of(r)
                == funct3 && rs2_of(r) == rs2 && rs1_of(r) == rs1 && imm_s(r) == address & 0xFFF,
    {
        let imm_11_5 = (address >> 5u32) & 0x7F;
        let imm_4_0 = address & 0x1F;
        let r = (imm_11_5 << 25u32) | ((rs2 as u32) << 20u32) | ((rs1 as u32) << 15u32) | ((
        funct3 as u32) << 12u32) | (imm_4_0 << 7u32) | (OP_STORE as u32);
        proof {
            assert(funct3 < 8 && rs2 < 32 && rs1 < 32 ==> opcode_of(r) == OP_STORE && funct3_of(r)
                == funct3 && rs2_of(r) == rs2 && rs1_of(r) == rs1 && imm_s(r) == address & 0xFFF)
                by (bit_vector)
                requires
                    r == (((address >> 5u32) & 0x7F) << 25u32) | ((rs2 as u32) << 20u32) | ((
                    rs1 as u32) << 15u32) | ((funct3 as u32) << 12u32) | ((address & 0x1F)
                        << 7u32) | (OP_STORE as u32),
            ;
        }
        r
    }

    /// Branch with function code `funct3` comparing `rs1` with `rs2`, by
    /// `offset` (bits 12:1 are encoded).
    pub fn branch(&self, offset: u32, funct3: u8, rs2: u8, rs1: u8) -> (r: u32)
        ensures
            r == (((offset >> 12u32) & 0x1) << 31u32) | (((offset >> 5u32) & 0x3F) << 25u32) | ((
            rs2 as u32) << 20u32) | ((rs1 as u32) << 15u32) | ((funct3 as u32) << 12u32) | (((
            offset >> 1u32) & 0xF) << 8u32) | (((offset >> 11u32) & 0x1) << 7u32) | (
            OP_BRANCH as u32),
            funct3 < 8 && rs2 < 32 && rs1 < 32 ==> opcode_of(r) == OP_BRANCH && funct3_of(r)
                == funct3 && rs2_of(r) == rs2 && rs1_of(r) == rs1,
            funct3 < 8 && rs2 < 32 && rs1 < 32 && offset & 1 == 0 && (offset < 0x1000 || offset
                >= 0xFFFF_F000) ==> imm_b(r) == offset,
    {
        let imm_12 = (offset >> 12u32) & 0x1;
        let imm_11 = (offset >> 11u32) & 0x1;
        let imm_10_5 = (offset >> 5u32) & 0x3F;
        let imm_4_1 = (offset >> 1u32) & 0xF;
        let r = (imm_12 << 31u32) | (imm_10_5 << 25u32) | ((rs2 as u32) << 20u32) | ((rs1 as u32)
            << 15u32) | ((funct3 as u32) << 12u32) | (imm_4_1 << 8u32) | (imm_11 << 7u32) | (
        OP_BRANCH as u32);
        proof {
            assert(funct3 < 8 && rs2 < 32 && rs1 < 32 ==> opcode_of(r) == OP_BRANCH && funct3_of(r)
                == funct3 && rs2_of(r) == rs2 && rs1_of(r) == rs1) by (bit_vector)
                requires
                    r == (((offset >> 12u32) & 0x1) << 31u32) | (((offset >> 5u32) & 0x3F)
                        << 25u32) | ((rs2 as u32) << 20u32) | ((rs1 as u32) << 15u32) | ((
                    funct3 as u32) << 12u32) | (((offset >> 1u32) & 0xF) << 8u32) | (((offset
                        >> 11u32) & 0x1) << 7u32) | (OP_BRANCH as u32),
            ;
            assert(funct3 < 8 && rs2 < 32 && rs1 < 32 && offset & 1 == 0 && (offset < 0x1000
                || offset >= 0xFFFF_F000) ==> imm_b(r) == offset) by (bit_vector)
                requires
                    r == (((offset >> 12u32) & 0x1) << 31u32) | (((offset >> 5u32) & 0x3F)
                        << 25u32) | ((rs2 as u32) << 20u32) | ((rs1 as u32) << 15u32) | ((
                    funct3 as u32) << 12u32) | (((offset >> 1u32) & 0xF) << 8u32) | (((offset
                        >> 11u32) & 0x1) << 7u32) | (OP_BRANCH as u32),
            ;
        }
        r
    }

    /// Register-immediate operation with function code `funct3` on `rs1` and
    /// the low twelve bits of `imm`, into `rd`.
    pub fn alui(&self, imm: u32, funct3: u8, rs1: u8, rd: u8) -> (r: u32)
        ensures
            r == ((imm & 0xFFF) << 20u32) | ((rs1 as u32) << 15u32) | ((funct3 as u32) << 12u32) | (
            (rd as u32) << 7u32) | (OP_ALUI as u32),
            funct3 < 8 && rs1 < 32 && rd < 32 ==> opcode_of(r) == OP_ALUI && funct3_of(r) == funct3
                && rs1_of(r) == rs1 && rd_of(r) == rd && imm_i(r) == imm & 0xFFF,
    {
        let r = ((imm & 0xFFF) << 20u32) | ((rs1 as u32) << 15u32) | ((funct3 as u32) << 12u32) | (
        (rd as u32) << 7u32) | (OP_ALUI as u32);
        proof {
            assert(funct3 < 8 && rs1 < 32 && rd < 32 ==> opcode_of(r) == OP_ALUI && funct3_of(r)
                == funct3 && rs1_of(r) == rs1 && rd_of(r) == rd && imm_i(r) == imm & 0xFFF)
                by (bit_vector)
                requires
                    r == ((imm & 0xFFF) << 20u32) | ((rs1 as u32) << 15u32) | ((funct3 as u32)
                        << 12u32) | ((rd as u32) << 7u32) | (OP_ALUI as u32),
            ;
        }
        r
    }

    /// Register-register operation selected by `funct7` and `funct3` on `rs1`
    /// and `rs2`, into `rd`.
    pub fn alu(&self, funct7: u8, funct3: u8, rs2: u8, rs1: u8, rd: u8) -> (r: u32)
        ensures
            r == ((funct7 as u32) << 25u32) | ((rs2 as u32) << 20u32) | ((rs1 as u32) << 15u32) | (
            (funct3 as u32) << 12u32) | ((rd as u32) << 7u32) | (OP_ALU as u32),
            funct7 < 128 && funct3 < 8 && rs2 < 32 && rs1 < 32 && rd < 32 ==> opcode_of(r)
                == OP_ALU && funct7_of(r) == funct7 && funct3_of(r) == funct3 && rs2_of(r) == rs2
                && rs1_of(r) == rs1 && rd_of(r) == rd && alu_key_of(r) == ((funct7 as u16)
                << 3u16) | (funct3 as u16),
    {
        let r = ((funct7 as u32) << 25u32) | ((rs2 as u32) << 20u32) | ((rs1 as u32) << 15u32) | (
        (funct3 as u32) << 12u32) | ((rd as u32) << 7u32) | (OP_ALU as u32);
        proof {
            assert(funct7 < 128 && funct3 < 8 && rs2 < 32 && rs1 < 32 && rd < 32 ==> opcode_of(r)
                == OP_ALU && funct7_of(r) == funct7 && funct3_of(r) == funct3 && rs2_of(r) == rs2
                && rs1_of(r) == rs1 && rd_of(r) == rd && alu_key_of(r) == ((funct7 as u16)
                << 3u16) | (funct3 as u16)) by (bit_vector)
                requires
                    r == ((funct7 as u32) << 25u32) | ((rs2 as u32) << 20u32) | ((rs1 as u32)
                        << 15u32) | ((funct3 as u32) << 12u32) | ((rd as u32) << 7u32) | (
                    OP_ALU as u32),
            ;
        }
        r
    }
}

} // verus!
