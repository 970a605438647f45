//! Encoding tables of the 32-bit RISC-V base integer set and its multiply/divide
//! extension: field masks, opcodes, function-3 and function-7 codes, and the
//! composite keys `(funct7 << 3) | funct3` of the register-register operations.

use vstd::prelude::*;

verus! {

// Field masks.
pub const MASK_OP: u32 = 0x7F;
pub const MASK_RD: u32 = 0x1F << 7;
pub const MASK_F3: u32 = 0x7 << 12;
pub const MASK_RS1: u32 = 0x1F << 15;
pub const MASK_RS2: u32 = 0x1F << 20;
pub const MASK_F7: u32 = 0x7F << 25;

// Immediate masks, by format.
pub const MASK_LUI_IMM: u32 = 0xFFFF_F000;
pub const MASK_JAL_IMM_20: u32 = 0x1 << 31;
pub const MASK_JAL_IMM_10_1: u32 = 0x3FF << 21;
pub const MASK_JAL_IMM_11: u32 = 0x1 << 20;
pub const MASK_JAL_IMM_19_12: u32 = 0xFF << 12;
pub const MASK_I_IMM: u32 = 0xFFF << 20;
pub const MASK_STORE_IMM_11_5: u32 = 0x7F << 25;
pub const MASK_STORE_IMM_4_0: u32 = 0x1F << 7;
pub const MASK_BRANCH_IMM_12: u32 = 0x1 << 31;
pub const MASK_BRANCH_IMM_11: u32 = 0x1 << 7;
pub const MASK_BRANCH_IMM_10_5: u32 = 0x3F << 25;
pub const MASK_BRANCH_IMM_4_1: u32 = 0xF << 8;

// Opcodes.
pub const OP_LUI: u8 = 0x37;
pub const OP_AUIPC: u8 = 0x17;
pub const OP_JAL: u8 = 0x6F;
pub const OP_JALR: u8 = 0x67;
pub const OP_BRANCH: u8 = 0x63;
pub const OP_LOAD: u8 = 0x03;
pub const OP_STORE: u8 = 0x23;
pub const OP_ALUI: u8 = 0x13;
pub const OP_ALU: u8 = 0x33;
pub const OP_FENCE: u8 = 0x0F;
/// Environment call and break; the simulator halts on it.
pub const OP_E_C: u8 = 0x73;

// Function-3 codes of the branches.
pub const F3_BEQ: u8 = 0x0;
pub const F3_BNE: u8 = 0x1;
pub const F3_BLT: u8 = 0x4;
pub const F3_BGE: u8 = 0x5;
pub const F3_BLTU: u8 = 0x6;
pub const F3_BGEU: u8 = 0x7;

// Function-3 codes of the loads.
pub const F3_LB: u8 = 0x0;
pub const F3_LH: u8 = 0x1;
pub const F3_LW: u8 = 0x2;
pub const F3_LBU: u8 = 0x4;
pub const F3_LHU: u8 = 0x5;

// Function-3 codes of the stores.
pub const F3_SB: u8 = 0x0;
pub const F3_SH: u8 = 0x1;
pub const F3_SW: u8 = 0x2;

// Function-3 codes of the register-immediate operations.
pub const F3_ADDI: u8 = 0x0;
pub const F3_SLLI: u8 = 0x1;
pub const F3_SLTI: u8 = 0x2;
pub const F3_SLTIU: u8 = 0x3;
pub const F3_XORI: u8 = 0x4;
/// Shift right by an immediate; bit 30 of the instruction picks the variant.
pub const F3_SRLI_SRAI: u8 = 0x5;
pub const F3_ORI: u8 = 0x6;
pub const F3_ANDI: u8 = 0x7;

// Function-3 codes of the register-register operations.
pub const F3_ADD_SUB: u8 = 0x0;
pub const F3_SLL: u8 = 0x1;
pub const F3_SLT: u8 = 0x2;
pub const F3_SLTU: u8 = 0x3;
pub const F3_XOR: u8 = 0x4;
pub const F3_SRL_SLA: u8 = 0x5;
pub const F3_OR: u8 = 0x6;
pub const F3_AND: u8 = 0x7;

// Function-3 codes of the multiply/divide extension.
pub const F3_MUL: u8 = 0x0;
pub const F3_MULH: u8 = 0x1;
pub const F3_MULHSU: u8 = 0x2;
pub const F3_MULHU: u8 = 0x3;
pub const F3_DIV: u8 = 0x4;
pub const F3_DIVU: u8 = 0x5;
pub const F3_REM: u8 = 0x6;
pub const F3_REMU: u8 = 0x7;

// Function-7 codes.
pub const F7_ADD: u8 = 0x00;
pub const F7_SUB: u8 = 0x20;
pub const F7_SRL: u8 = 0x00;
pub const F7_SRA: u8 = 0x20;
/// Shared by every operation of the multiply/divide extension.
pub const F7_M_EXTENSION: u8 = 0x01;

// Composite keys `(funct7 << 3) | funct3` of the register-register operations.
pub const F73_ADD: u16 = 0x00 << 3 | 0x0;
pub const F73_SUB: u16 = 0x20 << 3 | 0x0;
pub const F73_SLL: u16 = 0x00 << 3 | 0x1;
pub const F73_SLT: u16 = 0x00 << 3 | 0x2;
pub const F73_SLTU: u16 = 0x00 << 3 | 0x3;
pub const F73_XOR: u16 = 0x00 << 3 | 0x4;
pub const F73_SRL: u16 = 0x00 << 3 | 0x5;
pub const F73_SRA: u16 = 0x20 << 3 | 0x5;
pub const F73_OR: u16 = 0x00 << 3 | 0x6;
pub const F73_AND: u16 = 0x00 << 3 | 0x7;
pub const F73_MUL: u16 = 0x01 << 3 | 0x0;
pub const F73_MULH: u16 = 0x01 << 3 | 0x1;
pub const F73_MULHSU: u16 = 0x01 << 3 | 0x2;
pub const F73_MULHU: u16 = 0x01 << 3 | 0x3;
pub const F73_DIV: u16 = 0x01 << 3 | 0x4;
pub const F73_DIVU: u16 = 0x01 << 3 | 0x5;
pub const F73_REM: u16 = 0x01 << 3 | 0x6;
pub const F73_REMU: u16 = 0x01 << 3 | 0x7;

} // verus!
