//! Byte-move instruction tests: each exercises one addressing mode of
//! MOV.B and checks the destination, the N/Z/V flags, and the consumed
//! states.

use h8300h::bus::MEMORY_START_ADDR;
use h8300h::cpu::Cpu;

#[test]
fn test_mov_b_rn() {
    // mov.b R0L, R1L (`0C 09`).
    let mut cpu = Cpu::new();
    cpu.pc = MEMORY_START_ADDR;
    cpu.ccr = 0x04;
    cpu.write_rn_b(0, 0xb6).unwrap();
    cpu.bus.memory[0..2].copy_from_slice(&[0x0c, 0x09]);
    let opcode = cpu.fetch();
    let state = cpu.exec(opcode).unwrap();
    assert_eq!(state, 2);
    assert_eq!(cpu.read_rn_b(9).unwrap(), 0xb6);
    assert_eq!(cpu.ccr & 0x0e, 0x08);
}

#[test]
fn test_mov_b_imm() {
    // mov.b #0x00 into the selector named by the opcode high byte.
    let mut cpu = Cpu::new();
    cpu.pc = MEMORY_START_ADDR;
    cpu.ccr = 0x0a;
    cpu.bus.memory[0..2].copy_from_slice(&[0xf2, 0x00]);
    let opcode = cpu.fetch();
    let state = cpu.exec(opcode).unwrap();
    assert_eq!(state, 2);
    assert_eq!(cpu.read_rn_b(2).unwrap(), 0x00);
    assert_eq!(cpu.ccr & 0x0e, 0x04);
}

#[test]
fn test_mov_b_ern_both_directions() {
    // mov.b @ER0, R1L (`68 09`).
    let mut cpu = Cpu::new();
    cpu.pc = MEMORY_START_ADDR;
    cpu.write_rn_l(0, 0xffcf20).unwrap();
    cpu.bus.memory[0xffcf20] = 0xb6;
    cpu.bus.memory[0..2].copy_from_slice(&[0x68, 0x09]);
    let opcode = cpu.fetch();
    let state = cpu.exec(opcode).unwrap();
    assert_eq!(state, 4);
    assert_eq!(cpu.read_rn_b(9).unwrap(), 0xb6);

    // mov.b R1L, @ER0 (`68 89`).
    let mut cpu = Cpu::new();
    cpu.pc = MEMORY_START_ADDR;
    cpu.write_rn_l(0, 0xffcf20).unwrap();
    cpu.write_rn_b(9, 0xa5).unwrap();
    cpu.bus.memory[0..2].copy_from_slice(&[0x68, 0x89]);
    let opcode = cpu.fetch();
    let state = cpu.exec(opcode).unwrap();
    assert_eq!(state, 4);
    assert_eq!(cpu.bus.memory[0xffcf20], 0xa5);
}

#[test]
fn test_mov_b_abs8_both_directions() {
    // mov.b @0x12:8, R0L (`20 12`): the address is the top page.
    let mut cpu = Cpu::new();
    cpu.pc = MEMORY_START_ADDR;
    cpu.bus.memory[0xffff12] = 0x7f;
    cpu.bus.memory[0..2].copy_from_slice(&[0x20, 0x12]);
    let opcode = cpu.fetch();
    let state = cpu.exec(opcode).unwrap();
    assert_eq!(state, 4);
    assert_eq!(cpu.read_rn_b(0).unwrap(), 0x7f);
    assert_eq!(cpu.ccr & 0x0e, 0x00);

    // mov.b R0L, @0x12:8 (`30 12`).
    let mut cpu = Cpu::new();
    cpu.pc = MEMORY_START_ADDR;
    cpu.write_rn_b(0, 0x42).unwrap();
    cpu.bus.memory[0..2].copy_from_slice(&[0x30, 0x12]);
    let opcode = cpu.fetch();
    let state = cpu.exec(opcode).unwrap();
    assert_eq!(state, 4);
    assert_eq!(cpu.bus.memory[0xffff12], 0x42);
}

#[test]
fn test_mov_b_inc_and_dec() {
    // mov.b @ER0+, R1L (`6C 09`): reads the old address, then bumps ER0.
    let mut cpu = Cpu::new();
    cpu.pc = MEMORY_START_ADDR;
    cpu.write_rn_l(0, 0xffcf20).unwrap();
    cpu.bus.memory[0xffcf20] = 0x55;
    cpu.bus.memory[0..2].copy_from_slice(&[0x6c, 0x09]);
    let opcode = cpu.fetch();
    let state = cpu.exec(opcode).unwrap();
    assert_eq!(state, 6);
    assert_eq!(cpu.read_rn_b(9).unwrap(), 0x55);
    assert_eq!(cpu.read_rn_l(0).unwrap(), 0xffcf21);

    // mov.b R1L, @-ER0 (`6C 89`): decrements ER0, then writes there.
    let mut cpu = Cpu::new();
    cpu.pc = MEMORY_START_ADDR;
    cpu.write_rn_l(0, 0xffcf21).unwrap();
    cpu.write_rn_b(9, 0x66).unwrap();
    cpu.bus.memory[0..2].copy_from_slice(&[0x6c, 0x89]);
    let opcode = cpu.fetch();
    let state = cpu.exec(opcode).unwrap();
    assert_eq!(state, 6);
    assert_eq!(cpu.bus.memory[0xffcf20], 0x66);
    assert_eq!(cpu.read_rn_l(0).unwrap(), 0xffcf20);
}

#[test]
fn test_mov_b_disp16() {
    // mov.b @(0xee0e,ER0), R1L (`6E 09 EE 0E`): a negative displacement.
    let mut cpu = Cpu::new();
    cpu.pc = MEMORY_START_ADDR;
    cpu.write_rn_l(0, 0xffcf20).unwrap();
    cpu.bus.memory[0xffbd2e] = 0x99;
    cpu.bus.memory[0..4].copy_from_slice(&[0x6e, 0x09, 0xee, 0x0e]);
    let opcode = cpu.fetch();
    let state = cpu.exec(opcode).unwrap();
    assert_eq!(state, 6);
    assert_eq!(cpu.read_rn_b(9).unwrap(), 0x99);
}

#[test]
fn test_mov_b_abs16_and_abs24() {
    // mov.b @0xff12:16, R0L (`6A 00 FF 12`).
    let mut cpu = Cpu::new();
    cpu.pc = MEMORY_START_ADDR;
    cpu.bus.memory[0xffff12] = 0x31;
    cpu.bus.memory[0..4].copy_from_slice(&[0x6a, 0x00, 0xff, 0x12]);
    let opcode = cpu.fetch();
    let state = cpu.exec(opcode).unwrap();
    assert_eq!(state, 6);
    assert_eq!(cpu.read_rn_b(0).unwrap(), 0x31);

    // mov.b R0L, @0xffcf20:24 (`6A A0 00 FF CF 20`).
    let mut cpu = Cpu::new();
    cpu.pc = MEMORY_START_ADDR;
    cpu.write_rn_b(0, 0x77).unwrap();
    cpu.bus.memory[0..6].copy_from_slice(&[0x6a, 0xa0, 0x00, 0xff, 0xcf, 0x20]);
    let opcode = cpu.fetch();
    let state = cpu.exec(opcode).unwrap();
    assert_eq!(state, 8);
    assert_eq!(cpu.bus.memory[0xffcf20], 0x77);
}

#[test]
fn test_mov_b_disp24() {
    // mov.b @(0x00fffeee,ER0), R1L (`78 00 6A 29 00 FF FE EE`).
    let mut cpu = Cpu::new();
    cpu.pc = MEMORY_START_ADDR;
    cpu.write_rn_l(0, 0xffcf20).unwrap();
    cpu.bus.memory[0xffce0e] = 0xb6;
    cpu.bus.memory[0..8].copy_from_slice(&[0x78, 0x00, 0x6a, 0x29, 0x00, 0xff, 0xfe, 0xee]);
    let opcode = cpu.fetch();
    let state = cpu.exec(opcode).unwrap();
    assert_eq!(state, 10);
    assert_eq!(cpu.read_rn_b(9).unwrap(), 0xb6);
}
