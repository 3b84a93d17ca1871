//! Error tests: each error variant is produced by a concrete input, and
//! the offending opcode, register selector or address is named in it.

use h8300h::bus::MEMORY_START_ADDR;
use h8300h::cpu::{Cpu, CpuError};

#[test]
fn test_unknown_opcode() {
    let mut cpu = Cpu::new();
    cpu.pc = MEMORY_START_ADDR;
    cpu.bus.memory[0..2].copy_from_slice(&[0xff, 0x00]);
    let opcode = cpu.fetch();
    assert_eq!(cpu.exec(opcode), Err(CpuError::InvalidOpcode { opcode: 0xff00 }));
}

#[test]
fn test_unknown_prefix_nibble() {
    // 0x79 with a low-nibble selector outside the MOV/ADD/CMP/SUB group.
    let mut cpu = Cpu::new();
    cpu.pc = MEMORY_START_ADDR;
    cpu.bus.memory[0..2].copy_from_slice(&[0x79, 0x40]);
    let opcode = cpu.fetch();
    assert_eq!(cpu.exec(opcode), Err(CpuError::InvalidOpcode { opcode: 0x7940 }));
}

#[test]
fn test_unknown_second_opcode() {
    // 0x78 prefix followed by a second word that is neither a byte nor a
    // word displacement move.
    let mut cpu = Cpu::new();
    cpu.pc = MEMORY_START_ADDR;
    cpu.bus.memory[0..4].copy_from_slice(&[0x78, 0x00, 0x00, 0x00]);
    let opcode = cpu.fetch();
    assert_eq!(
        cpu.exec(opcode),
        Err(CpuError::InvalidSecondOpcode { opcode: 0x7800, opcode2: 0x0000 })
    );
}

#[test]
fn test_invalid_long_selector() {
    // mov.l ER0, (selector 8): the destination selector has bit 3 set.
    let mut cpu = Cpu::new();
    cpu.pc = MEMORY_START_ADDR;
    cpu.bus.memory[0..2].copy_from_slice(&[0x0f, 0x88]);
    let opcode = cpu.fetch();
    assert_eq!(cpu.exec(opcode), Err(CpuError::InvalidRegister { field: 8 }));
}

#[test]
fn test_misaligned_word_access() {
    // mov.w @ER0, R1 with an odd effective address.
    let mut cpu = Cpu::new();
    cpu.pc = MEMORY_START_ADDR;
    cpu.write_rn_l(0, 0xffcf21).unwrap();
    cpu.bus.memory[0..2].copy_from_slice(&[0x69, 0x01]);
    let opcode = cpu.fetch();
    assert_eq!(cpu.exec(opcode), Err(CpuError::MisalignedAccess { address: 0xffcf21 }));
}

#[test]
fn test_misaligned_long_access() {
    // rts with an odd stack pointer.
    let mut cpu = Cpu::new();
    cpu.pc = MEMORY_START_ADDR;
    cpu.write_rn_l(7, 0xffcf21).unwrap();
    cpu.bus.memory[0..2].copy_from_slice(&[0x54, 0x70]);
    let opcode = cpu.fetch();
    assert_eq!(cpu.exec(opcode), Err(CpuError::MisalignedAccess { address: 0xffcf21 }));
}

#[test]
fn test_error_leaves_state_alone() {
    let mut cpu = Cpu::new();
    cpu.pc = MEMORY_START_ADDR;
    cpu.ccr = 0x15;
    cpu.write_rn_l(3, 0xdeadbeef).unwrap();
    cpu.bus.memory[0..2].copy_from_slice(&[0xff, 0x00]);
    let opcode = cpu.fetch();
    assert!(cpu.exec(opcode).is_err());
    assert_eq!(cpu.ccr, 0x15);
    assert_eq!(cpu.read_rn_l(3).unwrap(), 0xdeadbeef);
    assert_eq!(cpu.pc, 0x02);
}
