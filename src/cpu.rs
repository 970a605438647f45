//! The processor: program counter, register file and memory, with the
//! fetch-execute loop.

use vstd::prelude::*;
use vstd::arithmetic::power2::{lemma2_to64, pow2};
use crate::decode::{opcode, opcode_of};
use crate::error::VmError;
use crate::machine::{fetch, run_cycles, Machine};
use crate::memory::Memory;
use crate::register::Register;

verus! {

/// Memory size of a new processor, in bytes.
pub const MEMSIZE: usize = 2 * 1024 * 1024;

/// Bits of an address that select the byte within a page.
pub const PAGE_OFFSET_BITS: usize = 8;

/// A simulated RV32IM core. `instruction` and `opcode` hold the word most
/// recently fetched and its opcode; the execution routines act on them.
pub struct CPU {
    pub pc: u32,
    pub registers: Register,
    pub memory: Memory,
    pub instruction: u32,
    pub opcode: u8,
}

impl View for CPU {
    type V = Machine;

    open spec fn view(&self) -> Machine {
        Machine {
            pc: self.pc,
            regs: self.registers@,
            mem: self.memory@,
            page_size: self.memory.page_size(),
        }
    }
}

impl CPU {
    pub open spec fn wf(&self) -> bool {
        self.memory.wf()
    }

    /// The state of a well-formed core is a well-formed machine.
    pub proof fn lemma_view_wf(&self)
        requires
            self.wf(),
        ensures
            self@.wf(),
    {
        self.registers.lemma_len();
        self.memory.lemma_layout();
    }

    /// A core with the program counter at 4, all registers zero, and
    /// `MEMSIZE` bytes of zeroed memory in pages of 256 bytes.
    pub fn new() -> (r: Self)
        ensures
            r.wf(),
            r.pc == 4,
            r.registers@ == Seq::new(32, |_i: int| 0u32),
            r.memory@ == Seq::new(MEMSIZE as nat, |_a: int| 0u8),
            r.memory.page_size() == 256,
            r.instruction == 0,
            r.opcode == 0,
    {
        let r = Self {
            pc: 4,
            registers: Register::new(),
            memory: Memory::new(MEMSIZE, PAGE_OFFSET_BITS),
            instruction: 0,
            opcode: 0,
        };
        proof {
            lemma2_to64();
            assert(pow2(8) == 256);
            vstd::arithmetic::div_mod::lemma_fundamental_div_mod_converse(
                MEMSIZE as int,
                256,
                8192,
                0,
            );
        }
        r
    }

    /// The program counter.
    pub fn get_pc(&self) -> (r: u32)
        ensures
            r == self.pc,
    {
        self.pc
    }

    /// Reads the word at the program counter into `instruction`, and its low
    /// seven bits into `opcode`.
    pub fn fetch_inst(&mut self) -> (r: Result<(), VmError>)
        requires
            old(self).wf(),
        ensures
            final(self).wf(),
            final(self)@ == old(self)@,
            match fetch(old(self)@) {
                Ok(w) => r is Ok && final(self).instruction == w && final(self).opcode
                    == opcode_of(w),
                Err(e) => r == Err::<(), VmError>(e) && final(self).instruction
                    == old(self).instruction && final(self).opcode == old(self).opcode,
            },
    {
        if !self.memory.is_accessible(self.pc, 4) {
            return Err(VmError::MemoryFault { address: self.pc });
        }
        let w = self.memory.get_u32(self.pc);
        self.instruction = w;
        self.opcode = opcode(w);
        Ok(())
    }

    /// Copies a program image into memory starting at `offset`.
    pub fn load_image(&mut self, offset: u32, program: &Vec<u8>)
        requires
            old(self).wf(),
            offset + program@.len() <= old(self).memory@.len(),
            offset + program@.len() <= 0x1_0000_0000,
        ensures
            final(self).wf(),
            final(self)@ == (Machine {
                mem: Seq::new(
                    old(self).memory@.len(),
                    |a: int|
                        if offset <= a < offset + program@.len() {
                            program@[a - offset]
                        } else {
                            old(self).memory@[a]
                        },
                ),
                ..old(self)@
            }),
            final(self).instruction == old(self).instruction,
            final(self).opcode == old(self).opcode,
    {
        self.memory.load_image(offset, program);
        proof {
            let expected = Seq::new(
                old(self).memory@.len(),
                |a: int|
                    if offset <= a < offset + program@.len() {
                        program@[a - offset]
                    } else {
                        old(self).memory@[a]
                    },
            );
            assert(self.memory@ =~= expected);
        }
    }

    /// Sets the program counter to `start` and runs the fetch-execute loop
    /// for at most `max_steps` cycles. Returns `Ok(true)` when a halting
    /// instruction is reached, `Ok(false)` when the cycles run out first, and
    /// the error that stopped execution otherwise.
    pub fn run(&mut self, start: u32, max_steps: u64) -> (r: Result<bool, VmError>)
        requires
            old(self).wf(),
        ensures
            final(self).wf(),
            (final(self)@, r) == run_cycles(old(self)@.jump(start), max_steps as nat),
    {
        self.pc = start;
        let ghost initial = self@;
        let mut steps: u64 = 0;
        while steps < max_steps
            invariant
                self.wf(),
                initial == old(self)@.jump(start),
                steps <= max_steps,
                run_cycles(self@, (max_steps - steps) as nat) == run_cycles(
                    initial,
                    max_steps as nat,
                ),
            decreases max_steps - steps,
        {
            match self.fetch_inst() {
                Err(e) => {
                    return Err(e);
                },
                Ok(()) => {},
            }
            match self.exec_inst() {
                Err(e) => {
                    return Err(e);
                },
                Ok(true) => {
                    return Ok(true);
                },
                Ok(false) => {},
            }
            steps = steps + 1;
        }
        Ok(false)
    }
}

} // verus!
