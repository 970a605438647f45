//! Arithmetic and logic of the register-register and register-immediate
//! operations, including the multiply/divide extension, over 32-bit values
//! read as unsigned or as two's-complement integers.

use vstd::prelude::*;
use vstd::arithmetic::div_mod::{lemma_fundamental_div_mod_converse, lemma_mul_mod_noop_general};
use vstd::arithmetic::power2::lemma2_to64;
use vstd::bits::lemma_u64_shr_is_div;
use vstd::math::abs;
use crate::decode::sign_extend_12;
use crate::opcodes::{
    F3_ADDI,
    F3_ORI,
    F3_SLLI,
    F3_SLTI,
    F3_SLTIU,
    F3_SRLI_SRAI,
    F3_XORI,
    F73_ADD,
    F73_AND,
    F73_DIV,
    F73_DIVU,
    F73_MUL,
    F73_MULH,
    F73_MULHSU,
    F73_MULHU,
    F73_OR,
    F73_REM,
    F73_REMU,
    F73_SLL,
    F73_SLT,
    F73_SLTU,
    F73_SRA,
    F73_SRL,
    F73_SUB,
    F73_XOR,
};

verus! {

/// The two's-complement value of a 32-bit word.
pub open spec fn signed(x: u32) -> int {
    if x < 0x8000_0000 {
        x as int
    } else {
        x - 0x1_0000_0000
    }
}

/// The low 32 bits of an integer, as an unsigned word.
pub open spec fn to_u32(x: int) -> u32 {
    (x % 0x1_0000_0000) as u32
}

/// Bits 63:32 of the 64-bit two's-complement representation of `p`.
pub open spec fn high_word(p: int) -> u32 {
    ((p % 0x1_0000_0000_0000_0000) / 0x1_0000_0000) as u32
}

/// Integer division rounding toward zero.
pub open spec fn quotient_toward_zero(x: int, y: int) -> int {
    if (x < 0) == (y < 0) {
        (abs(x) / abs(y)) as int
    } else {
        -(abs(x) / abs(y))
    }
}

/// The remainder of division rounding toward zero; it takes the dividend's sign.
pub open spec fn remainder_toward_zero(x: int, y: int) -> int {
    if x < 0 {
        -(abs(x) % abs(y))
    } else {
        (abs(x) % abs(y)) as int
    }
}

/// `x` rotated right by `s % 32` bits.
pub open spec fn rotated_right(x: u32, s: u32) -> u32 {
    let k = s % 32;
    if k == 0 {
        x
    } else {
        (x >> k) | (x << ((32 - k) as u32))
    }
}

/// One for true, zero for false.
pub open spec fn flag(b: bool) -> u32 {
    if b {
        1
    } else {
        0
    }
}

/// The register-register operations.
#[derive(Clone, Copy, Debug, PartialEq, Eq, Structural)]
pub enum AluOp {
    Add,
    Sub,
    Sll,
    Slt,
    Sltu,
    Xor,
    Srl,
    Sra,
    Or,
    And,
    Mul,
    Mulh,
    Mulhsu,
    Mulhu,
    Div,
    Divu,
    Rem,
    Remu,
}

/// The operation that a composite key `(funct7 << 3) | funct3` selects, if any.
pub open spec fn alu_op_of(key: u16) -> Option<AluOp> {
    if key == F73_ADD {
        Some(AluOp::Add)
    } else if key == F73_SUB {
        Some(AluOp::Sub)
    } else if key == F73_SLL {
        Some(AluOp::Sll)
    } else if key == F73_SLT {
        Some(AluOp::Slt)
    } else if key == F73_SLTU {
        Some(AluOp::Sltu)
    } else if key == F73_XOR {
        Some(AluOp::Xor)
    } else if key == F73_SRL {
        Some(AluOp::Srl)
    } else if key == F73_SRA {
        Some(AluOp::Sra)
    } else if key == F73_OR {
        Some(AluOp::Or)
    } else if key == F73_AND {
        Some(AluOp::And)
    } else if key == F73_MUL {
        Some(AluOp::Mul)
    } else if key == F73_MULH {
        Some(AluOp::Mulh)
    } else if key == F73_MULHSU {
        Some(AluOp::Mulhsu)
    } else if key == F73_MULHU {
        Some(AluOp::Mulhu)
    } else if key == F73_DIV {
        Some(AluOp::Div)
    } else if key == F73_DIVU {
        Some(AluOp::Divu)
    } else if key == F73_REM {
        Some(AluOp::Rem)
    } else if key == F73_REMU {
        Some(AluOp::Remu)
    } else {
        None
    }
}

/// The result of register-register operation `op` on `a` and `b`. Shift
/// amounts are taken from the low five bits of `b`; the arithmetic right shift
/// rotates. Division by zero gives all ones, remainder by zero the dividend.
pub open spec fn alu_value(op: AluOp, a: u32, b: u32) -> u32 {
    match op {
        AluOp::Add => to_u32(a + b),
        AluOp::Sub => to_u32(a - b),
        AluOp::Sll => a << (b & 0x1F),
        AluOp::Slt => flag(signed(a) < signed(b)),
        AluOp::Sltu => flag(a < b),
        AluOp::Xor => a ^ b,
        AluOp::Srl => a >> (b & 0x1F),
        AluOp::Sra => rotated_right(a, b & 0x1F),
        AluOp::Or => a | b,
        AluOp::And => a & b,
        AluOp::Mul => to_u32(a * b),
        AluOp::Mulh => high_word(signed(a) * signed(b)),
        AluOp::Mulhsu => high_word(signed(a) * b),
        AluOp::Mulhu => high_word(a * b),
        AluOp::Div => if b == 0 {
            0xFFFF_FFFF
        } else {
            to_u32(quotient_toward_zero(signed(a), signed(b)))
        },
        AluOp::Divu => if b == 0 {
            0xFFFF_FFFF
        } else {
            a / b
        },
        AluOp::Rem => if b == 0 {
            a
        } else {
            to_u32(remainder_toward_zero(signed(a), signed(b)))
        },
        AluOp::Remu => if b == 0 {
            a
        } else {
            a % b
        },
    }
}

/// The result of the register-immediate operation with function code
/// `funct3` on register value `x` and the twelve-bit immediate `imm`. Only the
/// two comparisons sign-extend the immediate; shifts move by the low five bits
/// of the immediate, and a right shift rotates when `rotate` is set.
pub open spec fn alui_value(funct3: u8, x: u32, imm: u32, rotate: bool) -> u32 {
    if funct3 == F3_ADDI {
        to_u32(x + imm)
    } else if funct3 == F3_SLLI {
        x << (imm & 0x1F)
    } else if funct3 == F3_SLTI {
        flag(signed(x) < signed(sign_extend_12(imm)))
    } else if funct3 == F3_SLTIU {
        flag(x < sign_extend_12(imm))
    } else if funct3 == F3_XORI {
        x ^ imm
    } else if funct3 == F3_SRLI_SRAI {
        if rotate {
            rotated_right(x, imm)
        } else {
            x >> (imm & 0x1F)
        }
    } else if funct3 == F3_ORI {
        x | imm
    } else {
        x & imm
    }
}

/// A shift amount masked to five bits is below 32.
proof fn lemma_shift_amount(x: u32)
    by (bit_vector)
    ensures
        x & 0x1F < 32,
{
}

/// Sum modulo 2^32.
pub fn add_wrapping(a: u32, b: u32) -> (r: u32)
    ensures
        r == to_u32(a + b),
{
    proof {
        if a + b >= 0x1_0000_0000 {
            lemma_fundamental_div_mod_converse(a + b, 0x1_0000_0000, 1, a + b - 0x1_0000_0000);
        } else {
            lemma_fundamental_div_mod_converse(a + b, 0x1_0000_0000, 0, a + b);
        }
    }
    a.wrapping_add(b)
}

/// Difference modulo 2^32.
pub fn sub_wrapping(a: u32, b: u32) -> (r: u32)
    ensures
        r == to_u32(a - b),
{
    proof {
        if a - b < 0 {
            lemma_fundamental_div_mod_converse(a - b, 0x1_0000_0000, -1, a - b + 0x1_0000_0000);
        } else {
            lemma_fundamental_div_mod_converse(a - b, 0x1_0000_0000, 0, a - b);
        }
    }
    a.wrapping_sub(b)
}

/// Whether `a < b` as two's-complement integers.
pub fn less_signed(a: u32, b: u32) -> (r: bool)
    ensures
        r == (signed(a) < signed(b)),
{
    let a_negative = a >= 0x8000_0000;
    let b_negative = b >= 0x8000_0000;
    if a_negative == b_negative {
        a < b
    } else {
        a_negative
    }
}

/// `x` rotated right by `s % 32` bits.
pub fn rotate_right(x: u32, s: u32) -> (r: u32)
    ensures
        r == rotated_right(x, s),
{
    let k = s % 32;
    if k == 0 {
        x
    } else {
        (x >> k) | (x << (32 - k))
    }
}

/// The 64-bit two's-complement representation of `signed(x)`.
fn widen_signed(x: u32) -> (r: u64)
    ensures
        r as int == signed(x) % 0x1_0000_0000_0000_0000,
{
    if x < 0x8000_0000 {
        proof {
            lemma_fundamental_div_mod_converse(x as int, 0x1_0000_0000_0000_0000, 0, x as int);
        }
        x as u64
    } else {
        proof {
            lemma_fundamental_div_mod_converse(
                x - 0x1_0000_0000,
                0x1_0000_0000_0000_0000,
                -1,
                x + 0xFFFF_FFFF_0000_0000,
            );
        }
        x as u64 + 0xFFFF_FFFF_0000_0000
    }
}

/// Bits 63:32 of the product `x * y`.
fn high_word_of_product(x: u64, y: u64) -> (r: u32)
    ensures
        r == high_word(x * y),
{
    let p = x.wrapping_mul(y);
    proof {
        lemma_u64_shr_is_div(p, 32);
        lemma2_to64();
        assert(p >> 32u64 <= 0xFFFF_FFFF) by (bit_vector);
    }
    (p >> 32u64) as u32
}

/// Products whose factors agree modulo 2^64 agree in their high words.
proof fn lemma_high_word_congruent(x: int, y: int, a: int, b: int)
    requires
        x == a % 0x1_0000_0000_0000_0000,
        y == b % 0x1_0000_0000_0000_0000,
    ensures
        high_word(x * y) == high_word(a * b),
{
    lemma_mul_mod_noop_general(a, b, 0x1_0000_0000_0000_0000);
}

/// The magnitude of the two's-complement value of `x`.
fn magnitude(x: u32) -> (r: u32)
    ensures
        r as int == abs(signed(x)),
{
    if x < 0x8000_0000 {
        x
    } else {
        0u32.wrapping_sub(x)
    }
}

/// The word whose two's-complement value is `-x`, for `x` at most 2^31.
fn negate(x: u32) -> (r: u32)
    requires
        x <= 0x8000_0000,
    ensures
        r == to_u32(-x),
{
    proof {
        if x == 0 {
            lemma_fundamental_div_mod_converse(0, 0x1_0000_0000, 0, 0);
        } else {
            lemma_fundamental_div_mod_converse(-x, 0x1_0000_0000, -1, 0x1_0000_0000 - x);
        }
    }
    0u32.wrapping_sub(x)
}

/// Signed division rounding toward zero; all ones for a zero divisor.
fn divide_signed(a: u32, b: u32) -> (r: u32)
    ensures
        r == alu_value(AluOp::Div, a, b),
{
    if b == 0 {
        0xFFFF_FFFF
    } else {
        let q = magnitude(a) / magnitude(b);
        if (a >= 0x8000_0000) == (b >= 0x8000_0000) {
            proof {
                lemma_fundamental_div_mod_converse(q as int, 0x1_0000_0000, 0, q as int);
            }
            q
        } else {
            negate(q)
        }
    }
}

/// Signed remainder of division rounding toward zero; the dividend for a zero divisor.
fn remainder_signed(a: u32, b: u32) -> (r: u32)
    ensures
        r == alu_value(AluOp::Rem, a, b),
{
    if b == 0 {
        a
    } else {
        let m = magnitude(a) % magnitude(b);
        if a >= 0x8000_0000 {
            negate(m)
        } else {
            proof {
                lemma_fundamental_div_mod_converse(m as int, 0x1_0000_0000, 0, m as int);
            }
            m
        }
    }
}

/// The operation that a composite key selects, if any.
pub fn alu_op(key: u16) -> (r: Option<AluOp>)
    ensures
        r == alu_op_of(key),
{
    match key {
        F73_ADD => Some(AluOp::Add),
        F73_SUB => Some(AluOp::Sub),
        F73_SLL => Some(AluOp::Sll),
        F73_SLT => Some(AluOp::Slt),
        F73_SLTU => Some(AluOp::Sltu),
        F73_XOR => Some(AluOp::Xor),
        F73_SRL => Some(AluOp::Srl),
        F73_SRA => Some(AluOp::Sra),
        F73_OR => Some(AluOp::Or),
        F73_AND => Some(AluOp::And),
        F73_MUL => Some(AluOp::Mul),
        F73_MULH => Some(AluOp::Mulh),
        F73_MULHSU => Some(AluOp::Mulhsu),
        F73_MULHU => Some(AluOp::Mulhu),
        F73_DIV => Some(AluOp::Div),
        F73_DIVU => Some(AluOp::Divu),
        F73_REM => Some(AluOp::Rem),
        F73_REMU => Some(AluOp::Remu),
        _ => None,
    }
}

/// Applies register-register operation `op` to `a` and `b`.
pub fn alu_compute(op: AluOp, a: u32, b: u32) -> (r: u32)
    ensures
        r == alu_value(op, a, b),
{
    proof {
        lemma_shift_amount(b);
    }
    match op {
        AluOp::Add => add_wrapping(a, b),
        AluOp::Sub => sub_wrapping(a, b),
        AluOp::Sll => a << (b & 0x1F),
        AluOp::Slt => if less_signed(a, b) {
            1
        } else {
            0
        },
        AluOp::Sltu => if a < b {
            1
        } else {
            0
        },
        AluOp::Xor => a ^ b,
        AluOp::Srl => a >> (b & 0x1F),
        AluOp::Sra => rotate_right(a, b & 0x1F),
        AluOp::Or => a | b,
        AluOp::And => a & b,
        AluOp::Mul => a.wrapping_mul(b),
        AluOp::Mulh => {
            let x = widen_signed(a);
            let y = widen_signed(b);
            proof {
                lemma_high_word_congruent(x as int, y as int, signed(a), signed(b));
            }
            high_word_of_product(x, y)
        },
        AluOp::Mulhsu => {
            let x = widen_signed(a);
            proof {
                lemma_fundamental_div_mod_converse(b as int, 0x1_0000_0000_0000_0000, 0, b as int);
                lemma_high_word_congruent(x as int, b as int, signed(a), b as int);
            }
            high_word_of_product(x, b as u64)
        },
        AluOp::Mulhu => high_word_of_product(a as u64, b as u64),
        AluOp::Div => divide_signed(a, b),
        AluOp::Divu => if b == 0 {
            0xFFFF_FFFF
        } else {
            a / b
        },
        AluOp::Rem => remainder_signed(a, b),
        AluOp::Remu => if b == 0 {
            a
        } else {
            a % b
        },
    }
}

/// Applies the register-immediate operation with function code `funct3`.
pub fn alui_compute(funct3: u8, x: u32, imm: u32, rotate: bool) -> (r: u32)
    ensures
        r == alui_value(funct3, x, imm, rotate),
{
    proof {
        lemma_shift_amount(imm);
    }
    if funct3 == F3_ADDI {
        add_wrapping(x, imm)
    } else if funct3 == F3_SLLI {
        x << (imm & 0x1F)
    } else if funct3 == F3_SLTI {
        let extended = crate::decode::sign_extend_twelve(imm);
        if less_signed(x, extended) {
            1
        } else {
            0
        }
    } else if funct3 == F3_SLTIU {
        let extended = crate::decode::sign_extend_twelve(imm);
        if x < extended {
            1
        } else {
            0
        }
    } else if funct3 == F3_XORI {
        x ^ imm
    } else if funct3 == F3_SRLI_SRAI {
        if rotate {
            rotate_right(x, imm)
        } else {
            x >> (imm & 0x1F)
        }
    } else if funct3 == F3_ORI {
        x | imm
    } else {
        x & imm
    }
}

/// Division by zero is no fault: both divisions give all ones and both
/// remainders give the dividend.
pub proof fn lemma_divide_by_zero(a: u32)
    ensures
        alu_value(AluOp::Div, a, 0) == 0xFFFF_FFFF,
        alu_value(AluOp::Divu, a, 0) == 0xFFFF_FFFF,
        alu_value(AluOp::Rem, a, 0) == a,
        alu_value(AluOp::Remu, a, 0) == a,
{
}

/// Signed division overflow is no fault: the most negative value divided by
/// minus one gives the dividend back, with remainder zero.
pub proof fn lemma_signed_division_overflow()
    ensures
        alu_value(AluOp::Div, 0x8000_0000, 0xFFFF_FFFF) == 0x8000_0000,
        alu_value(AluOp::Rem, 0x8000_0000, 0xFFFF_FFFF) == 0,
{
    lemma_fundamental_div_mod_converse(0x8000_0000, 1, 0x8000_0000, 0);
    lemma_fundamental_div_mod_converse(0x8000_0000, 0x1_0000_0000, 0, 0x8000_0000);
    lemma_fundamental_div_mod_converse(0, 0x1_0000_0000, 0, 0);
}

} // verus!
