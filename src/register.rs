//! The register file: thirty-two 32-bit general-purpose registers.

use vstd::prelude::*;

verus! {

pub const REG_ZERO: u8 = 0;
pub const REG_RA: u8 = 1;
pub const REG_SP: u8 = 2;
pub const REG_GP: u8 = 3;
pub const REG_TP: u8 = 4;
pub const REG_T0: u8 = 5;
pub const REG_T1: u8 = 6;
pub const REG_T2: u8 = 7;
pub const REG_S0: u8 = 8;
pub const REG_S1: u8 = 9;
pub const REG_A0: u8 = 10;
pub const REG_A1: u8 = 11;
pub const REG_A2: u8 = 12;
pub const REG_A3: u8 = 13;
pub const REG_A4: u8 = 14;
pub const REG_A5: u8 = 15;
pub const REG_A6: u8 = 16;
pub const REG_A7: u8 = 17;
pub const REG_S2: u8 = 18;
pub const REG_S3: u8 = 19;
pub const REG_S4: u8 = 20;
pub const REG_S5: u8 = 21;
pub const REG_S6: u8 = 22;
pub const REG_S7: u8 = 23;
pub const REG_S8: u8 = 24;
pub const REG_S9: u8 = 25;
pub const REG_S10: u8 = 26;
pub const REG_S11: u8 = 27;
pub const REG_T3: u8 = 28;
pub const REG_T4: u8 = 29;
pub const REG_T5: u8 = 30;
pub const REG_T6: u8 = 31;

/// The number of general-purpose registers.
pub const NUM_REGISTERS: usize = 32;

/// The register values after writing `value` to register `index`. Register
/// zero is hard-wired to zero, so a write to it is discarded.
pub open spec fn write_register(registers: Seq<u32>, index: int, value: u32) -> Seq<u32> {
    if index == 0 {
        registers
    } else {
        registers.update(index, value)
    }
}

/// A value written to a register other than register zero reads back
/// unchanged, and the other registers keep their values; a write to register
/// zero changes nothing.
pub proof fn lemma_write_then_read(registers: Seq<u32>, index: int, value: u32)
    requires
        registers.len() == 32,
        0 <= index < 32,
    ensures
        write_register(registers, index, value).len() == 32,
        index != 0 ==> write_register(registers, index, value)[index] == value,
        index == 0 ==> write_register(registers, index, value) == registers,
        forall|i: int|
            0 <= i < 32 && i != index ==> #[trigger] write_register(registers, index, value)[i]
                == registers[i],
{
}

/// Thirty-two 32-bit registers, indexed 0 to 31.
pub struct Register {
    registers: [u32; 32],
}

impl View for Register {
    type V = Seq<u32>;

    closed spec fn view(&self) -> Seq<u32> {
        self.registers@
    }
}

impl Register {
    /// There are always thirty-two registers.
    pub proof fn lemma_len(&self)
        ensures
            self@.len() == 32,
    {
    }

    /// Thirty-two registers, all zero.
    pub fn new() -> (r: Self)
        ensures
            r@ == Seq::new(32, |_i: int| 0u32),
    {
        let r = Register { registers: [0u32; 32] };
        assert(r@ =~= Seq::new(32, |_i: int| 0u32));
        r
    }

    /// The value of register `index`.
    pub fn get_register(&self, index: u8) -> (r: u32)
        requires
            index < 32,
        ensures
            r == self@[index as int],
    {
        self.registers[index as usize]
    }

    /// Writes `value` to register `index`; a write to register zero is discarded.
    pub fn set_register(&mut self, index: u8, value: u32)
        requires
            index < 32,
        ensures
            final(self)@ == write_register(old(self)@, index as int, value),
            final(self)@.len() == 32,
    {
        if index != 0 {
            self.registers[index as usize] = value;
        }
    }
}

} // verus!
