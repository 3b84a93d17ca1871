//! End-to-end single-instruction scenarios: literal memory images run
//! through `fetch` and `exec`, with exact register, flag and state-count
//! expectations.

use h8300h::bus::MEMORY_START_ADDR;
use h8300h::cpu::Cpu;

#[test]
fn scenario_mov_w_rn_canonical() {
    // mov.w R0, E0: `0D 0F` with R0 = 0xB6A5 and CCR = 0x04.
    let mut cpu = Cpu::new();
    cpu.pc = MEMORY_START_ADDR;
    cpu.ccr = 0x04;
    cpu.write_rn_w(0, 0xb6a5).unwrap();
    cpu.bus.memory[0..2].copy_from_slice(&[0x0d, 0x0f]);
    let opcode = cpu.fetch();
    let state = cpu.exec(opcode).unwrap();
    assert_eq!(state, 2);
    assert_eq!(cpu.ccr & 0x0e, 0x08);
    assert_eq!(cpu.read_rn_w(0xf).unwrap(), 0xb6a5);
}

#[test]
fn scenario_mov_w_imm() {
    // mov.w #0xB6A5, R0: `79 00 B6 A5`.
    let mut cpu = Cpu::new();
    cpu.pc = MEMORY_START_ADDR;
    cpu.bus.memory[0..4].copy_from_slice(&[0x79, 0x00, 0xb6, 0xa5]);
    let opcode = cpu.fetch();
    let state = cpu.exec(opcode).unwrap();
    assert_eq!(state, 4);
    assert_eq!(cpu.read_rn_w(0).unwrap(), 0xb6a5);
    // N set, Z clear, V clear.
    assert_eq!(cpu.ccr & 0x08, 0x08);
    assert_eq!(cpu.ccr & 0x04, 0x00);
    assert_eq!(cpu.ccr & 0x02, 0x00);
}

#[test]
fn scenario_mov_w_ern() {
    // mov.w @ER0, E0: `69 0F` with ER0 = 0xFFCF20.
    let mut cpu = Cpu::new();
    cpu.pc = MEMORY_START_ADDR;
    cpu.write_rn_l(0, 0xffcf20).unwrap();
    cpu.bus.memory[0xffcf20..0xffcf22].copy_from_slice(&[0xb6, 0xa5]);
    cpu.bus.memory[0..2].copy_from_slice(&[0x69, 0x0f]);
    let opcode = cpu.fetch();
    let state = cpu.exec(opcode).unwrap();
    assert_eq!(state, 4);
    assert_eq!(cpu.read_rn_w(0xf).unwrap(), 0xb6a5);
    assert_eq!(cpu.ccr & 0x08, 0x08);
    assert_eq!(cpu.ccr & 0x04, 0x00);
}

#[test]
fn scenario_mov_w_post_increment() {
    // mov.w @ER0+, E0: `6D 0F` with ER0 = 0xFFCF20.
    let mut cpu = Cpu::new();
    cpu.pc = MEMORY_START_ADDR;
    cpu.write_rn_l(0, 0xffcf20).unwrap();
    cpu.bus.memory[0xffcf20..0xffcf22].copy_from_slice(&[0xb6, 0xa5]);
    cpu.bus.memory[0..2].copy_from_slice(&[0x6d, 0x0f]);
    let opcode = cpu.fetch();
    let state = cpu.exec(opcode).unwrap();
    assert_eq!(state, 6);
    assert_eq!(cpu.read_rn_w(0xf).unwrap(), 0xb6a5);
    assert_eq!(cpu.read_rn_l(0).unwrap(), 0xffcf22);
}

#[test]
fn scenario_bxor_rn() {
    // bxor #0, R0L: `75 00` with bit 0 of the byte set and carry set.
    let mut cpu = Cpu::new();
    cpu.ccr = 0x01;
    cpu.write_rn_b(0, 0x01).unwrap();
    cpu.bus.memory[0..2].copy_from_slice(&[0x75, 0x00]);
    let opcode = cpu.fetch();
    let state = cpu.exec(opcode).unwrap();
    assert_eq!(state, 2);
    assert_eq!(cpu.ccr & 0x01, 0x00);

    // Bit 0 clear (byte 0xFE), carry clear: carry stays clear.
    let mut cpu = Cpu::new();
    cpu.ccr = 0x00;
    cpu.write_rn_b(0, 0xfe).unwrap();
    cpu.bus.memory[0..2].copy_from_slice(&[0x75, 0x00]);
    let opcode = cpu.fetch();
    cpu.exec(opcode).unwrap();
    assert_eq!(cpu.ccr & 0x01, 0x00);

    // Bit 0 clear, carry set: carry stays set.
    let mut cpu = Cpu::new();
    cpu.ccr = 0x01;
    cpu.write_rn_b(0, 0xfe).unwrap();
    cpu.bus.memory[0..2].copy_from_slice(&[0x75, 0x00]);
    let opcode = cpu.fetch();
    cpu.exec(opcode).unwrap();
    assert_eq!(cpu.ccr & 0x01, 0x01);
}

#[test]
fn scenario_bxor_ern() {
    // bxor #0, @ER0: `7C 00 75 00` with mem[0xFFCF20] = 0x01 and carry set.
    let mut cpu = Cpu::new();
    cpu.ccr = 0x01;
    cpu.write_rn_l(0, 0xffcf20).unwrap();
    cpu.bus.memory[0xffcf20] = 0x01;
    cpu.bus.memory[0..4].copy_from_slice(&[0x7c, 0x00, 0x75, 0x00]);
    let opcode = cpu.fetch();
    let state = cpu.exec(opcode).unwrap();
    assert_eq!(state, 6);
    assert_eq!(cpu.ccr & 0x01, 0x00);
}
