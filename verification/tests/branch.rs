//! Control-flow tests: branch conditions and displacements, jumps,
//! subroutine call and return, and the TRAPA cycle charge.

use h8300h::bus::MEMORY_START_ADDR;
use h8300h::cpu::Cpu;

#[test]
fn test_bcc_taken_and_not_taken() {
    // beq d:8 (`47 10`): taken exactly when Z is set.
    let mut cpu = Cpu::new();
    cpu.pc = MEMORY_START_ADDR;
    cpu.ccr = 0x04;
    cpu.bus.memory[0..2].copy_from_slice(&[0x47, 0x10]);
    let opcode = cpu.fetch();
    let state = cpu.exec(opcode).unwrap();
    assert_eq!(state, 4);
    assert_eq!(cpu.pc, 0x12);

    let mut cpu = Cpu::new();
    cpu.pc = MEMORY_START_ADDR;
    cpu.ccr = 0x00;
    cpu.bus.memory[0..2].copy_from_slice(&[0x47, 0x10]);
    let opcode = cpu.fetch();
    let state = cpu.exec(opcode).unwrap();
    assert_eq!(state, 4);
    assert_eq!(cpu.pc, 0x02);
}

#[test]
fn test_bra_negative_displacement() {
    // bra d:8 with displacement -2 (`40 FE`) loops onto itself.
    let mut cpu = Cpu::new();
    cpu.pc = MEMORY_START_ADDR;
    cpu.bus.memory[0..2].copy_from_slice(&[0x40, 0xfe]);
    let opcode = cpu.fetch();
    cpu.exec(opcode).unwrap();
    assert_eq!(cpu.pc, 0x00);
}

#[test]
fn test_bcc_word_displacement() {
    // bne d:16 (`58 60 01 00`): taken when Z is clear.
    let mut cpu = Cpu::new();
    cpu.pc = MEMORY_START_ADDR;
    cpu.ccr = 0x00;
    cpu.bus.memory[0..4].copy_from_slice(&[0x58, 0x60, 0x01, 0x00]);
    let opcode = cpu.fetch();
    let state = cpu.exec(opcode).unwrap();
    assert_eq!(state, 6);
    assert_eq!(cpu.pc, 0x104);

    let mut cpu = Cpu::new();
    cpu.pc = MEMORY_START_ADDR;
    cpu.ccr = 0x04;
    cpu.bus.memory[0..4].copy_from_slice(&[0x58, 0x60, 0x01, 0x00]);
    let opcode = cpu.fetch();
    let state = cpu.exec(opcode).unwrap();
    assert_eq!(state, 6);
    assert_eq!(cpu.pc, 0x04);
}

#[test]
fn test_bcc_condition_table() {
    // blt d:8 (`4D 10`): taken exactly when N differs from V.
    for (ccr, taken) in [(0x08u8, true), (0x02, true), (0x0a, false), (0x00, false)] {
        let mut cpu = Cpu::new();
        cpu.pc = MEMORY_START_ADDR;
        cpu.ccr = ccr;
        cpu.bus.memory[0..2].copy_from_slice(&[0x4d, 0x10]);
        let opcode = cpu.fetch();
        cpu.exec(opcode).unwrap();
        assert_eq!(cpu.pc, if taken { 0x12 } else { 0x02 });
    }
}

#[test]
fn test_jmp_ern() {
    // jmp @ER1 (`59 10`).
    let mut cpu = Cpu::new();
    cpu.pc = MEMORY_START_ADDR;
    cpu.write_rn_l(1, 0x00ffcf20).unwrap();
    cpu.bus.memory[0..2].copy_from_slice(&[0x59, 0x10]);
    let opcode = cpu.fetch();
    let state = cpu.exec(opcode).unwrap();
    assert_eq!(state, 4);
    assert_eq!(cpu.pc, 0xffcf20);
}

#[test]
fn test_jmp_abs24() {
    // jmp @0x00cf20:24 (`5A 00 CF 20`).
    let mut cpu = Cpu::new();
    cpu.pc = MEMORY_START_ADDR;
    cpu.bus.memory[0..4].copy_from_slice(&[0x5a, 0x00, 0xcf, 0x20]);
    let opcode = cpu.fetch();
    let state = cpu.exec(opcode).unwrap();
    assert_eq!(state, 6);
    assert_eq!(cpu.pc, 0xcf20);
}

#[test]
fn test_jsr_then_rts_round_trip() {
    // jsr @ER1 to 0x100, one TRAPA there, then rts back.
    let mut cpu = Cpu::new();
    cpu.pc = MEMORY_START_ADDR;
    cpu.write_rn_l(7, 0xffff00).unwrap();
    cpu.write_rn_l(1, 0x100).unwrap();
    cpu.bus.memory[0..2].copy_from_slice(&[0x5d, 0x10]);
    cpu.bus.memory[0x100..0x104].copy_from_slice(&[0x57, 0x00, 0x54, 0x70]);
    let opcode = cpu.fetch();
    let state = cpu.exec(opcode).unwrap();
    assert_eq!(state, 8);
    assert_eq!(cpu.pc, 0x100);
    assert_eq!(cpu.read_rn_l(7).unwrap(), 0xfffefc);
    // The 24-bit return address sits at the top of stack, big-endian.
    assert_eq!(&cpu.bus.memory[0xfffefc..0xffff00], &[0x00, 0x00, 0x00, 0x02]);

    let opcode = cpu.fetch();
    let state = cpu.exec(opcode).unwrap();
    assert_eq!(state, 14);

    let opcode = cpu.fetch();
    let state = cpu.exec(opcode).unwrap();
    assert_eq!(state, 10);
    assert_eq!(cpu.pc, 0x02);
    assert_eq!(cpu.read_rn_l(7).unwrap(), 0xffff00);
}

#[test]
fn test_jmp_memory_indirect() {
    // jmp @@0x10:8 (`5B 10`) with the long vector at 0x10.
    let mut cpu = Cpu::new();
    cpu.pc = MEMORY_START_ADDR;
    cpu.bus.memory[0..2].copy_from_slice(&[0x5b, 0x10]);
    cpu.bus.memory[0x10..0x14].copy_from_slice(&[0x00, 0x00, 0xcf, 0x20]);
    let opcode = cpu.fetch();
    let state = cpu.exec(opcode).unwrap();
    assert_eq!(state, 10);
    assert_eq!(cpu.pc, 0xcf20);
}
