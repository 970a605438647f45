//! The execution routines: one per instruction category, each responsible for
//! leaving the program counter at the next instruction to fetch.

use vstd::prelude::*;
use vstd::arithmetic::div_mod::lemma_add_mod_noop;
use crate::alu::{add_wrapping, alu_compute, alu_op, alui_compute, less_signed, to_u32};
use crate::cpu::CPU;
use crate::decode::{
    alu_key,
    branch_immediate,
    funct3,
    i_immediate,
    jump_immediate,
    rd,
    rotates,
    rs1,
    rs2,
    sign_extend_twelve,
    store_immediate,
    upper_immediate,
};
use crate::error::VmError;
use crate::machine::{
    alu_step,
    alui_step,
    branch_step,
    execute,
    jal_step,
    jalr_step,
    load_step,
    lui_step,
    store_step,
};
use crate::opcodes::{
    F3_BEQ,
    F3_BGE,
    F3_BGEU,
    F3_BLT,
    F3_BLTU,
    F3_BNE,
    F3_LB,
    F3_LH,
    F3_LHU,
    F3_LW,
    F3_SB,
    F3_SH,
    F3_SW,
    OP_ALU,
    OP_ALUI,
    OP_BRANCH,
    OP_E_C,
    OP_JAL,
    OP_JALR,
    OP_LOAD,
    OP_LUI,
    OP_STORE,
};
use crate::register::REG_RA;

verus! {

impl CPU {
    /// Whether `self` differs from `other` at most in its architectural state,
    /// not in the fetched word.
    pub open spec fn same_fetch(&self, other: &CPU) -> bool {
        self.instruction == other.instruction && self.opcode == other.opcode
    }

    /// Load-upper-immediate.
    pub fn inst_lui(&mut self)
        requires
            old(self).wf(),
        ensures
            final(self).wf(),
            final(self).same_fetch(old(self)),
            final(self)@ == lui_step(old(self)@, old(self).instruction),
    {
        let w = self.instruction;
        let rd = rd(w);
        self.registers.set_register(rd, upper_immediate(w));
        self.pc = add_wrapping(self.pc, 4);
    }

    /// Jump-and-link.
    pub fn inst_jal(&mut self)
        requires
            old(self).wf(),
        ensures
            final(self).wf(),
            final(self).same_fetch(old(self)),
            final(self)@ == jal_step(old(self)@, old(self).instruction),
    {
        let w = self.instruction;
        let rd = rd(w);
        let target = jump_immediate(w);
        self.registers.set_register(rd, add_wrapping(self.pc, 4));
        self.pc = target;
    }

    /// Jump-and-link-register.
    pub fn inst_jalr(&mut self)
        requires
            old(self).wf(),
        ensures
            final(self).wf(),
            final(self).same_fetch(old(self)),
            final(self)@ == jalr_step(old(self)@, old(self).instruction),
    {
        let w = self.instruction;
        let rd = rd(w);
        let rs1 = rs1(w);
        let imm = i_immediate(w);
        self.registers.set_register(rd, add_wrapping(self.pc, 4));
        let base = self.registers.get_register(rs1);
        proof {
            let m: int = 0x1_0000_0000;
            lemma_add_mod_noop(self.pc + imm, base as int, m);
            vstd::arithmetic::div_mod::lemma_small_mod(base as nat, m as nat);
            assert((to_u32(self.pc + imm) + base) % m == (self.pc + imm + base) % m);
        }
        self.pc = add_wrapping(add_wrapping(self.pc, imm), base);
    }

    /// Loads a word, a half-word or a byte into the destination register.
    pub fn inst_load(&mut self) -> (r: Result<(), VmError>)
        requires
            old(self).wf(),
        ensures
            final(self).wf(),
            final(self).same_fetch(old(self)),
            match load_step(old(self)@, old(self).instruction) {
                Ok(m) => r is Ok && final(self)@ == m,
                Err(e) => r == Err::<(), VmError>(e) && final(self)@ == old(self)@,
            },
    {
        let w = self.instruction;
        let rd = rd(w);
        let funct3 = funct3(w);
        let rs1 = rs1(w);
        let imm = sign_extend_twelve(i_immediate(w));
        let address = add_wrapping(self.registers.get_register(rs1), imm);
        let value: u32;
        if funct3 == F3_LW {
            if !self.memory.is_accessible(address, 4) {
                return Err(VmError::MemoryFault { address });
            }
            value = self.memory.get_u32(address);
        } else if funct3 == F3_LH {
            let at = add_wrapping(address, 2);
            if !self.memory.is_accessible(at, 2) {
                return Err(VmError::MemoryFault { address: at });
            }
            value = self.memory.get_u16(at) as u32;
        } else if funct3 == F3_LHU {
            if !self.memory.is_accessible(address, 2) {
                return Err(VmError::MemoryFault { address });
            }
            value = self.memory.get_u16(address) as u32;
        } else if funct3 == F3_LB {
            let at = add_wrapping(address, 3);
            if !self.memory.is_accessible(at, 1) {
                return Err(VmError::MemoryFault { address: at });
            }
            value = self.memory.get_u8(at) as u32;
        } else {
            return Err(VmError::InvalidFunct3 { opcode: OP_LOAD, funct3 });
        }
        self.registers.set_register(rd, value);
        self.pc = add_wrapping(self.pc, 4);
        Ok(())
    }

    /// Stores a word, a half-word or a byte of source register 2.
    pub fn inst_store(&mut self) -> (r: Result<(), VmError>)
        requires
            old(self).wf(),
        ensures
            final(self).wf(),
            final(self).same_fetch(old(self)),
            match store_step(old(self)@, old(self).instruction) {
                Ok(m) => r is Ok && final(self)@ == m,
                Err(e) => r == Err::<(), VmError>(e) && final(self)@ == old(self)@,
            },
    {
        let w = self.instruction;
        let funct3 = funct3(w);
        let rs1 = rs1(w);
        let rs2 = rs2(w);
        let address = add_wrapping(self.registers.get_register(rs1), store_immediate(w));
        let value = self.registers.get_register(rs2);
        if funct3 == F3_SW {
            if !self.memory.is_accessible(address, 4) {
                return Err(VmError::MemoryFault { address });
            }
            self.memory.set_u32(address, value);
        } else if funct3 == F3_SH {
            if !self.memory.is_accessible(address, 2) {
                return Err(VmError::MemoryFault { address });
            }
            self.memory.set_u16(address, #[verifier::truncate] (value as u16));
        } else if funct3 == F3_SB {
            if !self.memory.is_accessible(address, 1) {
                return Err(VmError::MemoryFault { address });
            }
            self.memory.set_u8(address, #[verifier::truncate] (value as u8));
        } else {
            return Err(VmError::InvalidFunct3 { opcode: OP_STORE, funct3 });
        }
        self.pc = add_wrapping(self.pc, 4);
        Ok(())
    }

    /// Conditional branch; a taken branch writes the return address to the
    /// link register.
    pub fn inst_branch(&mut self) -> (r: Result<(), VmError>)
        requires
            old(self).wf(),
        ensures
            final(self).wf(),
            final(self).same_fetch(old(self)),
            match branch_step(old(self)@, old(self).instruction) {
                Ok(m) => r is Ok && final(self)@ == m,
                Err(e) => r == Err::<(), VmError>(e) && final(self)@ == old(self)@,
            },
    {
        let w = self.instruction;
        let rs1 = rs1(w);
        let rs2 = rs2(w);
        let funct3 = funct3(w);
        let offset = branch_immediate(w);
        let a = self.registers.get_register(rs1);
        let b = self.registers.get_register(rs2);
        let condition: bool;
        if funct3 == F3_BEQ {
            condition = a == b;
        } else if funct3 == F3_BNE {
            condition = a != b;
        } else if funct3 == F3_BLT {
            condition = less_signed(a, b);
        } else if funct3 == F3_BGE {
            condition = !less_signed(a, b);
        } else if funct3 == F3_BLTU {
            condition = a < b;
        } else if funct3 == F3_BGEU {
            condition = a >= b;
        } else {
            return Err(VmError::InvalidFunct3 { opcode: OP_BRANCH, funct3 });
        }
        if condition {
            self.registers.set_register(REG_RA, add_wrapping(self.pc, 4));
            self.pc = add_wrapping(self.pc, offset);
        } else {
            self.pc = add_wrapping(self.pc, 4);
        }
        Ok(())
    }

    /// Register-immediate arithmetic and logic.
    pub fn inst_alui(&mut self)
        requires
            old(self).wf(),
        ensures
            final(self).wf(),
            final(self).same_fetch(old(self)),
            final(self)@ == alui_step(old(self)@, old(self).instruction),
    {
        let w = self.instruction;
        let rd = rd(w);
        let funct3 = funct3(w);
        let rs1 = rs1(w);
        let imm = i_immediate(w);
        let result = alui_compute(funct3, self.registers.get_register(rs1), imm, rotates(w));
        self.registers.set_register(rd, result);
        self.pc = add_wrapping(self.pc, 4);
    }

    /// Register-register arithmetic and logic, multiply, divide and
    /// remainder, dispatched on the composite key `(funct7 << 3) | funct3`.
    pub fn inst_alu(&mut self) -> (r: Result<(), VmError>)
        requires
            old(self).wf(),
        ensures
            final(self).wf(),
            final(self).same_fetch(old(self)),
            match alu_step(old(self)@, old(self).instruction) {
                Ok(m) => r is Ok && final(self)@ == m,
                Err(e) => r == Err::<(), VmError>(e) && final(self)@ == old(self)@,
            },
    {
        let w = self.instruction;
        let rd = rd(w);
        let key = alu_key(w);
        let rs1 = rs1(w);
        let rs2 = rs2(w);
        match alu_op(key) {
            None => Err(VmError::InvalidAluKey { key }),
            Some(op) => {
                let result = alu_compute(
                    op,
                    self.registers.get_register(rs1),
                    self.registers.get_register(rs2),
                );
                self.registers.set_register(rd, result);
                self.pc = add_wrapping(self.pc, 4);
                Ok(())
            },
        }
    }

    /// Executes the fetched instruction, dispatching on `opcode`. Returns
    /// `Ok(true)` when the opcode signals a halt (environment call/break, or
    /// an all-zero word), `Ok(false)` after executing an instruction.
    pub fn exec_inst(&mut self) -> (r: Result<bool, VmError>)
        requires
            old(self).wf(),
        ensures
            final(self).wf(),
            final(self).same_fetch(old(self)),
            match execute(old(self)@, old(self).opcode, old(self).instruction) {
                Ok(Some(m)) => r == Ok::<bool, VmError>(false) && final(self)@ == m,
                Ok(None) => r == Ok::<bool, VmError>(true) && final(self)@ == old(self)@,
                Err(e) => r == Err::<bool, VmError>(e) && final(self)@ == old(self)@,
            },
    {
        proof {
            reveal(execute);
        }
        let opcode = self.opcode;
        if opcode == OP_LUI {
            self.inst_lui();
        } else if opcode == OP_JAL {
            self.inst_jal();
        } else if opcode == OP_JALR {
            self.inst_jalr();
        } else if opcode == OP_BRANCH {
            self.inst_branch()?;
        } else if opcode == OP_LOAD {
            self.inst_load()?;
        } else if opcode == OP_STORE {
            self.inst_store()?;
        } else if opcode == OP_ALUI {
            self.inst_alui();
        } else if opcode == OP_ALU {
            self.inst_alu()?;
        } else if opcode == OP_E_C || opcode == 0 {
            return Ok(true);
        } else {
            return Err(VmError::InvalidOpcode { opcode });
        }
        Ok(false)
    }
}

} // verus!
