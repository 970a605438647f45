//! The machine model: what each instruction does to the program counter, the
//! registers and memory, and what a run of the fetch-execute loop computes.

use vstd::prelude::*;
use crate::alu::{alu_op_of, alu_value, alui_value, signed, to_u32, AluOp};
use crate::decode::{
    alu_key_of,
    funct3_of,
    imm_b,
    imm_i,
    imm_j,
    imm_s,
    imm_u,
    opcode_of,
    rd_of,
    rs1_of,
    rs2_of,
    shift_rotates,
    sign_extend_12,
};
use crate::error::VmError;
use crate::little_endian::{read_u16, read_u32, read_u8, write_u16, write_u32, write_u8};
use crate::mmu::accessible;
use crate::opcodes::{
    F3_BEQ,
    F3_BGE,
    F3_BGEU,
    F3_BLT,
    F3_BLTU,
    F3_BNE,
    F3_LB,
    F3_LH,
    F3_LHU,
    F3_LW,
    F3_SB,
    F3_SH,
    F3_SW,
    OP_ALU,
    OP_ALUI,
    OP_BRANCH,
    OP_E_C,
    OP_JAL,
    OP_JALR,
    OP_LOAD,
    OP_LUI,
    OP_STORE,
};
use crate::register::{write_register, REG_RA};

verus! {

/// The architectural state: program counter, registers, and memory as a
/// sequence of bytes split into pages of `page_size` bytes.
pub ghost struct Machine {
    pub pc: u32,
    pub regs: Seq<u32>,
    pub mem: Seq<u8>,
    pub page_size: nat,
}

impl Machine {
    /// Thirty-two registers, and memory made of whole pages whose size is a
    /// divisor of 2^32 (as a power of two no larger than 2^31 is).
    pub open spec fn wf(self) -> bool {
        &&& self.regs.len() == 32
        &&& 0 < self.page_size <= 0x8000_0000
        &&& 0x1_0000_0000int % (self.page_size as int) == 0
        &&& self.mem.len() % self.page_size == 0
    }

    pub open spec fn reg(self, index: u8) -> u32 {
        self.regs[index as int]
    }

    /// Whether `width` bytes at `address` can be accessed at once.
    pub open spec fn can_access(self, address: u32, width: int) -> bool {
        accessible(self.mem.len(), self.page_size, address as int, width)
    }

    /// The state after writing `value` to register `index` (discarded for register zero).
    pub open spec fn set_reg(self, index: u8, value: u32) -> Machine {
        Machine { regs: write_register(self.regs, index as int, value), ..self }
    }

    /// The state with the program counter at `pc`.
    pub open spec fn jump(self, pc: u32) -> Machine {
        Machine { pc, ..self }
    }

    /// The state with the program counter at the next instruction.
    pub open spec fn advance(self) -> Machine {
        self.jump(to_u32(self.pc + 4))
    }
}

/// Load-upper-immediate: the destination receives the upper immediate.
pub open spec fn lui_step(m: Machine, w: u32) -> Machine {
    m.set_reg(rd_of(w), imm_u(w)).advance()
}

/// Jump-and-link: the destination receives the return address and the
/// reassembled, sign-extended immediate becomes the program counter.
pub open spec fn jal_step(m: Machine, w: u32) -> Machine {
    m.set_reg(rd_of(w), to_u32(m.pc + 4)).jump(imm_j(w))
}

/// Jump-and-link-register: the destination receives the return address, then
/// the program counter advances by the immediate plus source register 1.
pub open spec fn jalr_step(m: Machine, w: u32) -> Machine {
    let linked = m.set_reg(rd_of(w), to_u32(m.pc + 4));
    linked.jump(to_u32(m.pc + imm_i(w) + linked.reg(rs1_of(w))))
}

/// Whether the branch with function code `funct3` is taken on `a` and `b`;
/// `None` for a code that names no branch.
pub open spec fn branch_condition(funct3: u8, a: u32, b: u32) -> Option<bool> {
    if funct3 == F3_BEQ {
        Some(a == b)
    } else if funct3 == F3_BNE {
        Some(a != b)
    } else if funct3 == F3_BLT {
        Some(signed(a) < signed(b))
    } else if funct3 == F3_BGE {
        Some(signed(a) >= signed(b))
    } else if funct3 == F3_BLTU {
        Some(a < b)
    } else if funct3 == F3_BGEU {
        Some(a >= b)
    } else {
        None
    }
}

/// Conditional branch. A taken branch also writes the return address to the
/// link register.
pub open spec fn branch_step(m: Machine, w: u32) -> Result<Machine, VmError> {
    match branch_condition(funct3_of(w), m.reg(rs1_of(w)), m.reg(rs2_of(w))) {
        None => Err(VmError::InvalidFunct3 { opcode: OP_BRANCH, funct3: funct3_of(w) }),
        Some(true) => Ok(m.set_reg(REG_RA, to_u32(m.pc + 4)).jump(to_u32(m.pc + imm_b(w)))),
        Some(false) => Ok(m.advance()),
    }
}

/// The effective address of a load: source register 1 plus the sign-extended immediate.
pub open spec fn load_address(m: Machine, w: u32) -> u32 {
    to_u32(m.reg(rs1_of(w)) + sign_extend_12(imm_i(w)))
}

/// Where a load with function code `funct3` reads, and how many bytes: a word
/// at the effective address, a half-word two bytes beyond it (or at it,
/// unsigned variant), a byte three bytes beyond it.
pub open spec fn load_target(funct3: u8, address: u32) -> Option<(u32, int)> {
    if funct3 == F3_LW {
        Some((address, 4))
    } else if funct3 == F3_LH {
        Some((to_u32(address + 2), 2))
    } else if funct3 == F3_LHU {
        Some((address, 2))
    } else if funct3 == F3_LB {
        Some((to_u32(address + 3), 1))
    } else {
        None
    }
}

/// The zero-extended value of `width` bytes at `address`.
pub open spec fn load_value(mem: Seq<u8>, address: int, width: int) -> u32 {
    if width == 4 {
        read_u32(mem, address)
    } else if width == 2 {
        read_u16(mem, address) as u32
    } else {
        read_u8(mem, address) as u32
    }
}

/// Load into the destination register.
pub open spec fn load_step(m: Machine, w: u32) -> Result<Machine, VmError> {
    match load_target(funct3_of(w), load_address(m, w)) {
        None => Err(VmError::InvalidFunct3 { opcode: OP_LOAD, funct3: funct3_of(w) }),
        Some((address, width)) => if m.can_access(address, width) {
            Ok(m.set_reg(rd_of(w), load_value(m.mem, address as int, width)).advance())
        } else {
            Err(VmError::MemoryFault { address })
        },
    }
}

/// The effective address of a store: source register 1 plus the store immediate.
pub open spec fn store_address(m: Machine, w: u32) -> u32 {
    to_u32(m.reg(rs1_of(w)) + imm_s(w))
}

/// How many bytes a store with function code `funct3` writes.
pub open spec fn store_width(funct3: u8) -> Option<int> {
    if funct3 == F3_SW {
        Some(4)
    } else if funct3 == F3_SH {
        Some(2)
    } else if funct3 == F3_SB {
        Some(1)
    } else {
        None
    }
}

/// `mem` with the low `width` bytes of `value` stored little-endian at `address`.
pub open spec fn store_bytes(mem: Seq<u8>, address: int, width: int, value: u32) -> Seq<u8> {
    if width == 4 {
        write_u32(mem, address, value)
    } else if width == 2 {
        write_u16(mem, address, value as u16)
    } else {
        write_u8(mem, address, value as u8)
    }
}

/// Store source register 2 to memory.
pub open spec fn store_step(m: Machine, w: u32) -> Result<Machine, VmError> {
    let address = store_address(m, w);
    match store_width(funct3_of(w)) {
        None => Err(VmError::InvalidFunct3 { opcode: OP_STORE, funct3: funct3_of(w) }),
        Some(width) => if m.can_access(address, width) {
            Ok(
                Machine {
                    mem: store_bytes(m.mem, address as int, width, m.reg(rs2_of(w))),
                    ..m
                }.advance(),
            )
        } else {
            Err(VmError::MemoryFault { address })
        },
    }
}

/// Register-immediate operation into the destination register.
pub open spec fn alui_step(m: Machine, w: u32) -> Machine {
    m.set_reg(
        rd_of(w),
        alui_value(funct3_of(w), m.reg(rs1_of(w)), imm_i(w), shift_rotates(w)),
    ).advance()
}

/// Register-register operation into the destination register.
pub open spec fn alu_step(m: Machine, w: u32) -> Result<Machine, VmError> {
    match alu_op_of(alu_key_of(w)) {
        None => Err(VmError::InvalidAluKey { key: alu_key_of(w) }),
        Some(op) => Ok(
            m.set_reg(rd_of(w), alu_value(op, m.reg(rs1_of(w)), m.reg(rs2_of(w)))).advance(),
        ),
    }
}

/// A step that may fail, as one that may also halt.
pub open spec fn continuing(r: Result<Machine, VmError>) -> Result<Option<Machine>, VmError> {
    match r {
        Ok(m) => Ok(Some(m)),
        Err(e) => Err(e),
    }
}

/// Executes instruction word `w` dispatched on `opcode`: the next state, or
/// `None` when the opcode signals a halt (environment call/break, or zero).
#[verifier::opaque]
pub open spec fn execute(m: Machine, opcode: u8, w: u32) -> Result<Option<Machine>, VmError> {
    if opcode == OP_LUI {
        Ok(Some(lui_step(m, w)))
    } else if opcode == OP_JAL {
        Ok(Some(jal_step(m, w)))
    } else if opcode == OP_JALR {
        Ok(Some(jalr_step(m, w)))
    } else if opcode == OP_BRANCH {
        continuing(branch_step(m, w))
    } else if opcode == OP_LOAD {
        continuing(load_step(m, w))
    } else if opcode == OP_STORE {
        continuing(store_step(m, w))
    } else if opcode == OP_ALUI {
        Ok(Some(alui_step(m, w)))
    } else if opcode == OP_ALU {
        continuing(alu_step(m, w))
    } else if opcode == OP_E_C || opcode == 0 {
        Ok(None)
    } else {
        Err(VmError::InvalidOpcode { opcode })
    }
}

/// The instruction word at the program counter.
pub open spec fn fetch(m: Machine) -> Result<u32, VmError> {
    if m.can_access(m.pc, 4) {
        Ok(read_u32(m.mem, m.pc as int))
    } else {
        Err(VmError::MemoryFault { address: m.pc })
    }
}

/// At most `fuel` fetch-execute cycles from `m`: the final state, and whether
/// execution halted (`Ok(true)`), ran out of cycles (`Ok(false)`) or failed.
pub open spec fn run_cycles(m: Machine, fuel: nat) -> (Machine, Result<bool, VmError>)
    decreases fuel,
{
    if fuel == 0 {
        (m, Ok(false))
    } else {
        match fetch(m) {
            Err(e) => (m, Err(e)),
            Ok(w) => match execute(m, opcode_of(w), w) {
                Err(e) => (m, Err(e)),
                Ok(None) => (m, Ok(true)),
                Ok(Some(next)) => run_cycles(next, (fuel - 1) as nat),
            },
        }
    }
}

/// What the register-register path writes reads back: after an operation
/// with a defined key, the destination (unless it is register zero) holds the
/// computed value, every other register keeps its value, and the program
/// counter moves to the next instruction.
pub proof fn lemma_alu_writes_destination(m: Machine, w: u32)
    requires
        m.wf(),
        alu_op_of(alu_key_of(w)) is Some,
    ensures
        alu_step(m, w) is Ok,
        ({
            let after = alu_step(m, w)->Ok_0;
            let value = alu_value(
                alu_op_of(alu_key_of(w))->Some_0,
                m.reg(rs1_of(w)),
                m.reg(rs2_of(w)),
            );
            &&& after.wf()
            &&& rd_of(w) != 0 ==> after.reg(rd_of(w)) == value
            &&& forall|i: int| 0 <= i < 32 && i != rd_of(w) ==> #[trigger] after.regs[i] == m.regs[i]
            &&& after.pc == to_u32(m.pc + 4)
            &&& after.mem == m.mem
        }),
{
    crate::decode::lemma_field_bounds(w);
}

/// What the register-immediate path writes reads back: the destination
/// (unless it is register zero) holds the computed value, every other register
/// keeps its value, and the program counter moves to the next instruction.
pub proof fn lemma_alui_writes_destination(m: Machine, w: u32)
    requires
        m.wf(),
    ensures
        ({
            let after = alui_step(m, w);
            let value = alui_value(funct3_of(w), m.reg(rs1_of(w)), imm_i(w), shift_rotates(w));
            &&& after.wf()
            &&& rd_of(w) != 0 ==> after.reg(rd_of(w)) == value
            &&& forall|i: int| 0 <= i < 32 && i != rd_of(w) ==> #[trigger] after.regs[i] == m.regs[i]
            &&& after.pc == to_u32(m.pc + 4)
            &&& after.mem == m.mem
        }),
{
    crate::decode::lemma_field_bounds(w);
}

/// Division and remainder by zero complete without fault: the divisions write
/// all ones, the remainders write the dividend, and the program counter moves
/// on by four.
pub proof fn lemma_divide_by_zero_step(m: Machine, w: u32)
    requires
        m.wf(),
        alu_op_of(alu_key_of(w)) == Some(AluOp::Div) || alu_op_of(alu_key_of(w)) == Some(
            AluOp::Divu,
        ) || alu_op_of(alu_key_of(w)) == Some(AluOp::Rem) || alu_op_of(alu_key_of(w)) == Some(
            AluOp::Remu,
        ),
        m.reg(rs2_of(w)) == 0,
    ensures
        alu_step(m, w) == Ok::<Machine, VmError>(
            m.set_reg(
                rd_of(w),
                if alu_op_of(alu_key_of(w)) == Some(AluOp::Div) || alu_op_of(alu_key_of(w)) == Some(
                    AluOp::Divu,
                ) {
                    0xFFFF_FFFF
                } else {
                    m.reg(rs1_of(w))
                },
            ).jump(to_u32(m.pc + 4)),
        ),
{
    crate::alu::lemma_divide_by_zero(m.reg(rs1_of(w)));
}

/// A word that a store puts in memory reads back through every load variant
/// aimed at the same effective address: the word itself, the half-word two
/// bytes above (the high half), the half-word at the address (the low half),
/// and the byte three bytes above (the top byte), each equal to what the
/// memory's own readers return there.
pub proof fn lemma_store_then_load(m: Machine, store: u32, load: u32)
    requires
        m.wf(),
        funct3_of(store) == F3_SW,
        m.can_access(store_address(m, store), 4),
        load_address(store_step(m, store)->Ok_0, load) == store_address(m, store),
    ensures
        store_step(m, store) is Ok,
        ({
            let address = store_address(m, store);
            let value = m.reg(rs2_of(store));
            let stored = store_step(m, store)->Ok_0;
            let loaded = |v: u32| stored.set_reg(rd_of(load), v).jump(to_u32(stored.pc + 4));
            &&& stored.mem == write_u32(m.mem, address as int, value)
            &&& funct3_of(load) == F3_LW ==> load_step(stored, load) == Ok::<Machine, VmError>(
                loaded(read_u32(stored.mem, address as int)),
            ) && read_u32(stored.mem, address as int) == value
            &&& funct3_of(load) == F3_LHU ==> load_step(stored, load) == Ok::<Machine, VmError>(
                loaded(read_u16(stored.mem, address as int) as u32),
            ) && read_u16(stored.mem, address as int) == #[verifier::truncate] (value as u16)
            &&& funct3_of(load) == F3_LH ==> load_step(stored, load) == Ok::<Machine, VmError>(
                loaded(read_u16(stored.mem, address + 2) as u32),
            ) && read_u16(stored.mem, address + 2) == #[verifier::truncate] ((value >> 16u32) as u16)
            &&& funct3_of(load) == F3_LB ==> load_step(stored, load) == Ok::<Machine, VmError>(
                loaded(read_u8(stored.mem, address + 3) as u32),
            ) && read_u8(stored.mem, address + 3) == (value >> 24u32) as u8
        }),
{
    let address = store_address(m, store);
    let value = m.reg(rs2_of(store));
    let ps = m.page_size as int;
    let a = address as int;
    let q = a / ps;
    let t = 0x1_0000_0000int / ps;
    vstd::arithmetic::div_mod::lemma_fundamental_div_mod(a, ps);
    vstd::arithmetic::div_mod::lemma_fundamental_div_mod(0x1_0000_0000int, ps);
    assert(q < t) by (nonlinear_arith)
        requires
            a == ps * q + a % ps,
            0 <= a % ps,
            a < 0x1_0000_0000int,
            0x1_0000_0000int == ps * t,
            ps > 0,
    ;
    assert(a + 4 <= 0x1_0000_0000int) by (nonlinear_arith)
        requires
            a == ps * q + a % ps,
            a % ps + 4 <= ps,
            q + 1 <= t,
            0x1_0000_0000int == ps * t,
            ps > 0,
    ;
    let n = m.mem.len() as int / ps;
    vstd::arithmetic::div_mod::lemma_fundamental_div_mod(m.mem.len() as int, ps);
    assert(q < n) by (nonlinear_arith)
        requires
            a == ps * q + a % ps,
            0 <= a % ps,
            a < m.mem.len(),
            m.mem.len() == ps * n,
            ps > 0,
    ;
    assert(a + 4 <= m.mem.len()) by (nonlinear_arith)
        requires
            a == ps * q + a % ps,
            a % ps + 4 <= ps,
            q + 1 <= n,
            m.mem.len() == ps * n,
            ps > 0,
    ;
    vstd::arithmetic::div_mod::lemma_fundamental_div_mod_converse(a + 2, 0x1_0000_0000, 0, a + 2);
    vstd::arithmetic::div_mod::lemma_fundamental_div_mod_converse(a + 3, 0x1_0000_0000, 0, a + 3);
    vstd::arithmetic::div_mod::lemma_fundamental_div_mod_converse(a + 2, ps, q, a % ps + 2);
    vstd::arithmetic::div_mod::lemma_fundamental_div_mod_converse(a + 3, ps, q, a % ps + 3);
    crate::little_endian::lemma_write_read_u32(m.mem, a, value);
    crate::little_endian::lemma_word_subfields(m.mem, a, value);
}

} // verus!
