//! Long-move instruction tests: register, immediate, and the prefixed
//! memory forms, with destination, flag and state-count expectations.

use h8300h::bus::MEMORY_START_ADDR;
use h8300h::cpu::Cpu;

#[test]
fn test_mov_l_rn() {
    // mov.l ER1, ER0 (`0F 90`).
    let mut cpu = Cpu::new();
    cpu.pc = MEMORY_START_ADDR;
    cpu.ccr = 0x04;
    cpu.write_rn_l(1, 0xb6a51234).unwrap();
    cpu.bus.memory[0..2].copy_from_slice(&[0x0f, 0x90]);
    let opcode = cpu.fetch();
    let state = cpu.exec(opcode).unwrap();
    assert_eq!(state, 2);
    assert_eq!(cpu.read_rn_l(0).unwrap(), 0xb6a51234);
    assert_eq!(cpu.ccr & 0x0e, 0x08);
}

#[test]
fn test_mov_l_imm() {
    // mov.l #0x00000000, ER0 (`7A 00 00 00 00 00`).
    let mut cpu = Cpu::new();
    cpu.pc = MEMORY_START_ADDR;
    cpu.ccr = 0x0a;
    cpu.write_rn_l(0, 0xffffffff).unwrap();
    cpu.bus.memory[0..6].copy_from_slice(&[0x7a, 0x00, 0x00, 0x00, 0x00, 0x00]);
    let opcode = cpu.fetch();
    let state = cpu.exec(opcode).unwrap();
    assert_eq!(state, 6);
    assert_eq!(cpu.read_rn_l(0).unwrap(), 0);
    assert_eq!(cpu.ccr & 0x0e, 0x04);
}

#[test]
fn test_mov_l_ern_both_directions() {
    // mov.l @ER1, ER0 (`01 00 69 10`).
    let mut cpu = Cpu::new();
    cpu.pc = MEMORY_START_ADDR;
    cpu.write_rn_l(1, 0xffcf20).unwrap();
    cpu.bus.memory[0xffcf20..0xffcf24].copy_from_slice(&[0xb6, 0xa5, 0x12, 0x34]);
    cpu.bus.memory[0..4].copy_from_slice(&[0x01, 0x00, 0x69, 0x10]);
    let opcode = cpu.fetch();
    let state = cpu.exec(opcode).unwrap();
    assert_eq!(state, 8);
    assert_eq!(cpu.read_rn_l(0).unwrap(), 0xb6a51234);
    assert_eq!(cpu.ccr & 0x0e, 0x08);

    // mov.l ER0, @ER1 (`01 00 69 90`).
    let mut cpu = Cpu::new();
    cpu.pc = MEMORY_START_ADDR;
    cpu.write_rn_l(0, 0x0055aa77).unwrap();
    cpu.write_rn_l(1, 0xffcf20).unwrap();
    cpu.bus.memory[0..4].copy_from_slice(&[0x01, 0x00, 0x69, 0x90]);
    let opcode = cpu.fetch();
    let state = cpu.exec(opcode).unwrap();
    assert_eq!(state, 8);
    assert_eq!(&cpu.bus.memory[0xffcf20..0xffcf24], &[0x00, 0x55, 0xaa, 0x77]);
}

#[test]
fn test_mov_l_inc_and_dec() {
    // mov.l @ER1+, ER0 (`01 00 6D 10`).
    let mut cpu = Cpu::new();
    cpu.pc = MEMORY_START_ADDR;
    cpu.write_rn_l(1, 0xffcf20).unwrap();
    cpu.bus.memory[0xffcf20..0xffcf24].copy_from_slice(&[0x00, 0x00, 0x00, 0x2a]);
    cpu.bus.memory[0..4].copy_from_slice(&[0x01, 0x00, 0x6d, 0x10]);
    let opcode = cpu.fetch();
    let state = cpu.exec(opcode).unwrap();
    assert_eq!(state, 10);
    assert_eq!(cpu.read_rn_l(0).unwrap(), 0x2a);
    assert_eq!(cpu.read_rn_l(1).unwrap(), 0xffcf24);

    // mov.l ER0, @-ER1 (`01 00 6D 90`).
    let mut cpu = Cpu::new();
    cpu.pc = MEMORY_START_ADDR;
    cpu.write_rn_l(0, 0x01020304).unwrap();
    cpu.write_rn_l(1, 0xffcf24).unwrap();
    cpu.bus.memory[0..4].copy_from_slice(&[0x01, 0x00, 0x6d, 0x90]);
    let opcode = cpu.fetch();
    let state = cpu.exec(opcode).unwrap();
    assert_eq!(state, 10);
    assert_eq!(&cpu.bus.memory[0xffcf20..0xffcf24], &[0x01, 0x02, 0x03, 0x04]);
    assert_eq!(cpu.read_rn_l(1).unwrap(), 0xffcf20);
}

#[test]
fn test_mov_l_abs24() {
    // mov.l @0xffcf20:24, ER0 (`01 00 6B 20 00 FF CF 20`).
    let mut cpu = Cpu::new();
    cpu.pc = MEMORY_START_ADDR;
    cpu.bus.memory[0xffcf20..0xffcf24].copy_from_slice(&[0xde, 0xad, 0xbe, 0xef]);
    cpu.bus.memory[0..8].copy_from_slice(&[0x01, 0x00, 0x6b, 0x20, 0x00, 0xff, 0xcf, 0x20]);
    let opcode = cpu.fetch();
    let state = cpu.exec(opcode).unwrap();
    assert_eq!(state, 12);
    assert_eq!(cpu.read_rn_l(0).unwrap(), 0xdeadbeef);
    assert_eq!(cpu.ccr & 0x0e, 0x08);
}

#[test]
fn test_mov_l_disp16() {
    // mov.l @(0x0010,ER1), ER0 (`01 00 6F 10 00 10`).
    let mut cpu = Cpu::new();
    cpu.pc = MEMORY_START_ADDR;
    cpu.write_rn_l(1, 0xffcf20).unwrap();
    cpu.bus.memory[0xffcf30..0xffcf34].copy_from_slice(&[0x00, 0x00, 0x11, 0x22]);
    cpu.bus.memory[0..6].copy_from_slice(&[0x01, 0x00, 0x6f, 0x10, 0x00, 0x10]);
    let opcode = cpu.fetch();
    let state = cpu.exec(opcode).unwrap();
    assert_eq!(state, 10);
    assert_eq!(cpu.read_rn_l(0).unwrap(), 0x1122);
}

#[test]
fn test_mov_l_disp24() {
    // mov.l @(0x00fffeee,ER1), ER0 (`01 00 78 10 6B 20 00 FF FE EE`).
    let mut cpu = Cpu::new();
    cpu.pc = MEMORY_START_ADDR;
    cpu.write_rn_l(1, 0xffcf20).unwrap();
    cpu.bus.memory[0xffce0e..0xffce12].copy_from_slice(&[0x00, 0x00, 0x00, 0x99]);
    cpu.bus.memory[0..10].copy_from_slice(
        &[0x01, 0x00, 0x78, 0x10, 0x6b, 0x20, 0x00, 0xff, 0xfe, 0xee],
    );
    let opcode = cpu.fetch();
    let state = cpu.exec(opcode).unwrap();
    assert_eq!(state, 14);
    assert_eq!(cpu.read_rn_l(0).unwrap(), 0x99);
}
