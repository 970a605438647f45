use tiny_vm::builder::InstructionBuilder;
use tiny_vm::cpu::CPU;
use tiny_vm::decode::{branch_immediate, jump_immediate, store_immediate};
use tiny_vm::error::VmError;
use tiny_vm::memory::Memory;
use tiny_vm::opcodes::{
    F3_ADDI, F3_ADD_SUB, F3_BEQ, F3_BLT, F3_BLTU, F3_DIV, F3_DIVU, F3_LB, F3_LBU, F3_LH, F3_LHU,
    F3_LW, F3_MULH, F3_REM, F3_REMU, F3_SB, F3_SLTI, F3_SLTIU, F3_SW, F7_ADD, F7_M_EXTENSION,
    OP_ALU, OP_ALUI, OP_BRANCH, OP_E_C, OP_JALR, OP_LOAD, OP_STORE,
};
use tiny_vm::register::{REG_A0, REG_RA, REG_S0, REG_S1, REG_S2, REG_ZERO};

fn alu_cpu(funct7: u8, funct3: u8, a: u32, b: u32) -> CPU {
    let mut cpu = CPU::new();
    cpu.registers.set_register(REG_S1, a);
    cpu.registers.set_register(REG_S2, b);
    cpu.pc = 0x10;
    cpu.opcode = OP_ALU;
    cpu.instruction = InstructionBuilder.alu(funct7, funct3, REG_S2, REG_S1, REG_S0);
    cpu
}

#[test]
fn alu_write_reads_back_in_every_register() {
    for rd in 1u8..32 {
        for value in [0u32, 1, 0x7FFF_FFFF, 0x8000_0000, 0xDEAD_BEEF, 0xFFFF_FFFF] {
            let mut cpu = CPU::new();
            cpu.registers.set_register(REG_S1, value);
            cpu.pc = 0x10;
            cpu.opcode = OP_ALU;
            cpu.instruction = InstructionBuilder.alu(F7_ADD, F3_ADD_SUB, REG_ZERO, REG_S1, rd);
            cpu.inst_alu().unwrap();
            assert_eq!(cpu.registers.get_register(rd), value);
            assert_eq!(cpu.pc, 0x14);
        }
    }
}

#[test]
fn alui_write_reads_back_in_every_register() {
    for rd in 1u8..32 {
        let mut cpu = CPU::new();
        cpu.pc = 0x10;
        cpu.opcode = OP_ALUI;
        cpu.instruction = InstructionBuilder.alui(0x5A5, F3_ADDI, REG_ZERO, rd);
        cpu.inst_alui();
        assert_eq!(cpu.registers.get_register(rd), 0x5A5);
        assert_eq!(cpu.pc, 0x14);
    }
}

#[test]
fn write_to_register_zero_is_discarded() {
    let mut cpu = CPU::new();
    cpu.registers.set_register(REG_S1, 0x1234);
    cpu.pc = 0x10;
    cpu.opcode = OP_ALU;
    cpu.instruction = InstructionBuilder.alu(F7_ADD, F3_ADD_SUB, REG_S1, REG_S1, REG_ZERO);
    cpu.inst_alu().unwrap();
    assert_eq!(cpu.registers.get_register(REG_ZERO), 0);
    cpu.registers.set_register(REG_ZERO, 7);
    assert_eq!(cpu.registers.get_register(REG_ZERO), 0);
}

#[test]
fn memory_round_trip_at_every_granularity() {
    let mut memory = Memory::new(1024, 8);
    for address in [0u32, 1, 100, 252, 256, 1020] {
        memory.set_u32(address, 0x8BAD_F00D);
        assert_eq!(memory.get_u32(address), 0x8BAD_F00D);
    }
    for address in [0u32, 3, 254, 255 + 1, 1022] {
        memory.set_u16(address, 0xC0DE);
        assert_eq!(memory.get_u16(address), 0xC0DE);
    }
    for address in [0u32, 255, 256, 1023] {
        memory.set_u8(address, 0xA7);
        assert_eq!(memory.get_u8(address), 0xA7);
    }
}

#[test]
fn memory_is_little_endian() {
    let mut memory = Memory::new(1024, 8);
    memory.set_u32(0x40, 0x1122_3344);
    assert_eq!(memory.get_u8(0x40), 0x44);
    assert_eq!(memory.get_u8(0x41), 0x33);
    assert_eq!(memory.get_u8(0x42), 0x22);
    assert_eq!(memory.get_u8(0x43), 0x11);
    assert_eq!(memory.get_u16(0x40), 0x3344);
    assert_eq!(memory.get_u16(0x42), 0x1122);
}

#[test]
fn memory_layout_and_accessibility() {
    let memory = Memory::new(1000, 8);
    // 1000 bytes round down to three pages of 256 bytes.
    assert_eq!(memory.get_memory().len(), 3);
    assert_eq!(memory.get_memory()[2].get_page().len(), 256);
    assert!(memory.is_accessible(252, 4));
    assert!(!memory.is_accessible(253, 4));
    assert!(!memory.is_accessible(255, 2));
    assert!(memory.is_accessible(767, 1));
    assert!(!memory.is_accessible(768, 1));
}

#[test]
fn load_image_copies_bytes_in_order() {
    let mut memory = Memory::new(1024, 8);
    memory.load_image(254, &vec![1u8, 2, 3, 4]);
    assert_eq!(memory.get_u8(253), 0);
    assert_eq!(memory.get_u8(254), 1);
    assert_eq!(memory.get_u8(255), 2);
    assert_eq!(memory.get_u8(256), 3);
    assert_eq!(memory.get_u8(257), 4);
    assert_eq!(memory.get_u8(258), 0);
}

#[test]
fn new_cpu_state() {
    let cpu = CPU::new();
    assert_eq!(cpu.get_pc(), 4);
    assert_eq!(cpu.memory.get_memory().len(), 8192);
    assert_eq!(cpu.memory.get_memory()[0].get_page().len(), 256);
    for r in 0u8..32 {
        assert_eq!(cpu.registers.get_register(r), 0);
    }
}

#[test]
fn lui_scenario() {
    let mut cpu = CPU::new();
    cpu.pc = 0x200;
    cpu.instruction = InstructionBuilder.lui(0x420, REG_A0);
    cpu.opcode = cpu.instruction as u8 & 0x7F;
    assert_eq!(cpu.exec_inst(), Ok(false));
    assert_eq!(cpu.registers.get_register(REG_A0), 0x420000);
    assert_eq!(cpu.pc, 0x204);
}

#[test]
fn jal_scenario_and_negative_offset() {
    let mut cpu = CPU::new();
    cpu.pc = 0x10;
    cpu.instruction = InstructionBuilder.jal(8, REG_RA);
    cpu.inst_jal();
    assert_eq!(cpu.registers.get_register(REG_RA), 0x14);
    assert_eq!(cpu.pc, 0x8);
    assert_eq!(jump_immediate(InstructionBuilder.jal(0xFFFF_FFF8, REG_RA)), 0xFFFF_FFF8);
    assert_eq!(jump_immediate(InstructionBuilder.jal(0xF_F00A, REG_RA)), 0xF_F00A);
}

#[test]
fn jalr_links_then_jumps() {
    let mut cpu = CPU::new();
    cpu.registers.set_register(REG_S1, 0x100);
    cpu.pc = 0x10;
    cpu.opcode = OP_JALR;
    cpu.instruction = InstructionBuilder.jalr(4, REG_S1, REG_RA);
    assert_eq!(cpu.exec_inst(), Ok(false));
    assert_eq!(cpu.registers.get_register(REG_RA), 0x14);
    assert_eq!(cpu.pc, 0x114);
}

#[test]
fn divide_by_zero_gives_defined_results() {
    for dividend in [0u32, 1, 0x7FFF_FFFF, 0x8000_0000, 0xFFFF_FFFF] {
        for (funct3, expected) in [
            (F3_DIV, 0xFFFF_FFFF),
            (F3_DIVU, 0xFFFF_FFFF),
            (F3_REM, dividend),
            (F3_REMU, dividend),
        ] {
            let mut cpu = alu_cpu(F7_M_EXTENSION, funct3, dividend, 0);
            cpu.inst_alu().unwrap();
            assert_eq!(cpu.registers.get_register(REG_S0), expected);
            assert_eq!(cpu.pc, 0x14);
        }
    }
}

#[test]
fn signed_division_overflow() {
    let mut cpu = alu_cpu(F7_M_EXTENSION, F3_DIV, 0x8000_0000, 0xFFFF_FFFF);
    cpu.inst_alu().unwrap();
    assert_eq!(cpu.registers.get_register(REG_S0), 0x8000_0000);
    let mut cpu = alu_cpu(F7_M_EXTENSION, F3_REM, 0x8000_0000, 0xFFFF_FFFF);
    cpu.inst_alu().unwrap();
    assert_eq!(cpu.registers.get_register(REG_S0), 0);
}

#[test]
fn signed_division_rounds_toward_zero() {
    // -7 / 2 == -3, -7 % 2 == -1
    let mut cpu = alu_cpu(F7_M_EXTENSION, F3_DIV, 0xFFFF_FFF9, 2);
    cpu.inst_alu().unwrap();
    assert_eq!(cpu.registers.get_register(REG_S0), 0xFFFF_FFFD);
    let mut cpu = alu_cpu(F7_M_EXTENSION, F3_REM, 0xFFFF_FFF9, 2);
    cpu.inst_alu().unwrap();
    assert_eq!(cpu.registers.get_register(REG_S0), 0xFFFF_FFFF);
}

#[test]
fn mulh_of_two_small_negatives_is_zero() {
    let mut cpu = alu_cpu(F7_M_EXTENSION, F3_MULH, 0xFFFF_FFFF, 0xFFFF_FFFE);
    cpu.inst_alu().unwrap();
    assert_eq!(cpu.registers.get_register(REG_S0), 0x0000_0000);
    assert_eq!(cpu.pc, 0x14);
}

#[test]
fn branch_equal_taken_and_not_taken() {
    let mut cpu = CPU::new();
    cpu.registers.set_register(REG_S1, 0x420);
    cpu.registers.set_register(REG_S2, 0x420);
    cpu.pc = 0x10;
    cpu.opcode = OP_BRANCH;
    cpu.instruction = InstructionBuilder.branch(0x108, F3_BEQ, REG_S2, REG_S1);
    assert_eq!(cpu.exec_inst(), Ok(false));
    assert_eq!(cpu.pc, 0x118);
    assert_eq!(cpu.registers.get_register(REG_RA), 0x14);

    let mut cpu = CPU::new();
    cpu.registers.set_register(REG_S1, 0x420);
    cpu.registers.set_register(REG_S2, 0x421);
    cpu.pc = 0x10;
    cpu.opcode = OP_BRANCH;
    cpu.instruction = InstructionBuilder.branch(0x108, F3_BEQ, REG_S2, REG_S1);
    assert_eq!(cpu.exec_inst(), Ok(false));
    assert_eq!(cpu.pc, 0x14);
    assert_eq!(cpu.registers.get_register(REG_RA), 0);
}

#[test]
fn branch_signed_and_unsigned_comparisons_and_backward_offset() {
    // -1 < 1 signed, but not unsigned.
    let mut cpu = CPU::new();
    cpu.registers.set_register(REG_S1, 0xFFFF_FFFF);
    cpu.registers.set_register(REG_S2, 1);
    cpu.pc = 0x40;
    cpu.instruction = InstructionBuilder.branch(0xFFFF_FFF0, F3_BLT, REG_S2, REG_S1);
    cpu.inst_branch().unwrap();
    assert_eq!(cpu.pc, 0x30);

    let mut cpu = CPU::new();
    cpu.registers.set_register(REG_S1, 0xFFFF_FFFF);
    cpu.registers.set_register(REG_S2, 1);
    cpu.pc = 0x40;
    cpu.instruction = InstructionBuilder.branch(0xFFFF_FFF0, F3_BLTU, REG_S2, REG_S1);
    cpu.inst_branch().unwrap();
    assert_eq!(cpu.pc, 0x44);
    assert_eq!(branch_immediate(InstructionBuilder.branch(0xFFFF_F000, F3_BEQ, 0, 0)), 0xFFFF_F000);
}

#[test]
fn immediate_comparisons_sign_extend() {
    // 5 < sign_extend(0xFFF) = 0xFFFF_FFFF unsigned; 5 < -1 is false signed.
    let mut cpu = CPU::new();
    cpu.registers.set_register(REG_S1, 5);
    cpu.instruction = InstructionBuilder.alui(0xFFF, F3_SLTIU, REG_S1, REG_S0);
    cpu.inst_alui();
    assert_eq!(cpu.registers.get_register(REG_S0), 1);
    cpu.instruction = InstructionBuilder.alui(0xFFF, F3_SLTI, REG_S1, REG_S0);
    cpu.inst_alui();
    assert_eq!(cpu.registers.get_register(REG_S0), 0);
}

#[test]
fn store_then_load_every_variant() {
    for (funct3, expected) in [(F3_LW, 0xCAFE_BABE), (F3_LHU, 0xBABE), (F3_LH, 0xCAFE), (F3_LB, 0xCA)] {
        let mut cpu = CPU::new();
        cpu.registers.set_register(REG_S0, 0x300);
        cpu.registers.set_register(REG_S1, 0xCAFE_BABE);
        cpu.pc = 0x10;
        cpu.opcode = OP_STORE;
        cpu.instruction = InstructionBuilder.store(0x24, F3_SW, REG_S1, REG_S0);
        assert_eq!(cpu.exec_inst(), Ok(false));
        assert_eq!(cpu.memory.get_u32(0x324), 0xCAFE_BABE);

        cpu.opcode = OP_LOAD;
        cpu.instruction = InstructionBuilder.load(0x324, funct3, REG_A0);
        assert_eq!(cpu.exec_inst(), Ok(false));
        assert_eq!(cpu.registers.get_register(REG_A0), expected);
        assert_eq!(cpu.pc, 0x18);
    }
    assert_eq!(store_immediate(InstructionBuilder.store(0xABC, F3_SB, 0, 0)), 0xABC);
}

#[test]
fn load_across_a_page_boundary_faults() {
    let mut cpu = CPU::new();
    cpu.pc = 0x10;
    cpu.instruction = InstructionBuilder.load(0xFE, F3_LW, REG_A0);
    assert_eq!(cpu.inst_load(), Err(VmError::MemoryFault { address: 0xFE }));
    assert_eq!(cpu.pc, 0x10);
    assert_eq!(cpu.registers.get_register(REG_A0), 0);
}

#[test]
fn store_outside_memory_faults() {
    let mut cpu = CPU::new();
    cpu.registers.set_register(REG_S0, 0x20_0000);
    cpu.pc = 0x10;
    cpu.instruction = InstructionBuilder.store(0, F3_SB, REG_S1, REG_S0);
    assert_eq!(cpu.inst_store(), Err(VmError::MemoryFault { address: 0x20_0000 }));
    assert_eq!(cpu.pc, 0x10);
}

#[test]
fn undefined_encodings_are_errors() {
    let mut cpu = CPU::new();
    cpu.instruction = InstructionBuilder.load(0x10, F3_LBU, REG_A0);
    assert_eq!(cpu.inst_load(), Err(VmError::InvalidFunct3 { opcode: OP_LOAD, funct3: 4 }));
    cpu.instruction = InstructionBuilder.store(0x10, 3, REG_A0, REG_S0);
    assert_eq!(cpu.inst_store(), Err(VmError::InvalidFunct3 { opcode: OP_STORE, funct3: 3 }));
    cpu.instruction = InstructionBuilder.branch(0x10, 2, REG_A0, REG_S0);
    assert_eq!(cpu.inst_branch(), Err(VmError::InvalidFunct3 { opcode: OP_BRANCH, funct3: 2 }));
    cpu.instruction = InstructionBuilder.alu(0x02, 0, REG_A0, REG_S0, REG_S1);
    assert_eq!(cpu.inst_alu(), Err(VmError::InvalidAluKey { key: 0x10 }));
    cpu.opcode = 0x7F;
    assert_eq!(cpu.exec_inst(), Err(VmError::InvalidOpcode { opcode: 0x7F }));
    assert_eq!(cpu.pc, 4);
}

#[test]
fn halting_opcodes() {
    let mut cpu = CPU::new();
    cpu.opcode = OP_E_C;
    assert_eq!(cpu.exec_inst(), Ok(true));
    cpu.opcode = 0;
    assert_eq!(cpu.exec_inst(), Ok(true));
    assert_eq!(cpu.pc, 4);
}

fn program() -> Vec<u8> {
    let words = [
        InstructionBuilder.alui(5, F3_ADDI, REG_ZERO, REG_S0),
        InstructionBuilder.alui(7, F3_ADDI, REG_ZERO, REG_S1),
        InstructionBuilder.alu(F7_ADD, F3_ADD_SUB, REG_S1, REG_S0, REG_S2),
        OP_E_C as u32,
    ];
    let mut bytes = Vec::new();
    for w in words {
        bytes.extend_from_slice(&w.to_le_bytes());
    }
    bytes
}

#[test]
fn run_executes_until_halt() {
    let mut cpu = CPU::new();
    cpu.load_image(0x100, &program());
    assert_eq!(cpu.run(0x100, 100), Ok(true));
    assert_eq!(cpu.registers.get_register(REG_S2), 12);
    assert_eq!(cpu.pc, 0x10C);
}

#[test]
fn run_stops_after_the_given_number_of_cycles() {
    let mut cpu = CPU::new();
    cpu.load_image(0x100, &program());
    assert_eq!(cpu.run(0x100, 2), Ok(false));
    assert_eq!(cpu.registers.get_register(REG_S1), 7);
    assert_eq!(cpu.registers.get_register(REG_S2), 0);
    assert_eq!(cpu.pc, 0x108);
}

#[test]
fn run_halts_on_zeroed_memory_and_faults_outside_it() {
    let mut cpu = CPU::new();
    assert_eq!(cpu.run(0x400, 10), Ok(true));
    assert_eq!(cpu.run(0x20_0000, 10), Err(VmError::MemoryFault { address: 0x20_0000 }));
}
