//! Bit-exclusive-or instruction tests: BXOR against a register byte, a
//! byte behind a register indirection, and a byte behind an 8-bit
//! absolute address; each checks the carry flag and the consumed states.

use h8300h::cpu::Cpu;

#[test]
fn test_bxor_rn() {
    let mut cpu = Cpu::new();
    cpu.ccr = 1;
    cpu.write_rn_b(0, 0x01).unwrap();
    cpu.bus.memory[0..2].copy_from_slice(&[0x75, 0x00]);
    let opcode = cpu.fetch();
    let state = cpu.exec(opcode).unwrap();
    assert_eq!(state, 2);
    assert_eq!(cpu.ccr, 0);

    // bit7
    let mut cpu = Cpu::new();
    cpu.ccr = 1;
    cpu.write_rn_b(0, 0x80).unwrap();
    cpu.bus.memory[0..2].copy_from_slice(&[0x75, 0x70]);
    let opcode = cpu.fetch();
    let state = cpu.exec(opcode).unwrap();
    assert_eq!(state, 2);
    assert_eq!(cpu.ccr, 0);

    // register 0xf
    let mut cpu = Cpu::new();
    cpu.ccr = 1;
    cpu.write_rn_b(0xf, 0x01).unwrap();
    cpu.bus.memory[0..2].copy_from_slice(&[0x75, 0x0f]);
    let opcode = cpu.fetch();
    let state = cpu.exec(opcode).unwrap();
    assert_eq!(state, 2);
    assert_eq!(cpu.ccr, 0);

    let mut cpu = Cpu::new();
    cpu.ccr = 1;
    cpu.write_rn_b(0, 0xfe).unwrap();
    cpu.bus.memory[0..2].copy_from_slice(&[0x75, 0x00]);
    let opcode = cpu.fetch();
    let state = cpu.exec(opcode).unwrap();
    assert_eq!(state, 2);
    assert_eq!(cpu.ccr, 1);

    let mut cpu = Cpu::new();
    cpu.ccr = 0;
    cpu.write_rn_b(0, 0x01).unwrap();
    cpu.bus.memory[0..2].copy_from_slice(&[0x75, 0x00]);
    let opcode = cpu.fetch();
    let state = cpu.exec(opcode).unwrap();
    assert_eq!(state, 2);
    assert_eq!(cpu.ccr, 1);

    let mut cpu = Cpu::new();
    cpu.ccr = 0;
    cpu.write_rn_b(0, 0).unwrap();
    cpu.bus.memory[0..2].copy_from_slice(&[0x75, 0x00]);
    let opcode = cpu.fetch();
    let state = cpu.exec(opcode).unwrap();
    assert_eq!(state, 2);
    assert_eq!(cpu.ccr, 0);
}

#[test]
fn test_bxor_ern() {
    let mut cpu = Cpu::new();
    cpu.ccr = 1;
    cpu.write_abs24_b(0xffcf20, 0x01).unwrap();
    cpu.write_rn_l(0, 0xffcf20).unwrap();
    cpu.bus.memory[0..4].copy_from_slice(&[0x7c, 0x00, 0x75, 0x00]);
    let opcode = cpu.fetch();
    let state = cpu.exec(opcode).unwrap();
    assert_eq!(state, 6);
    assert_eq!(cpu.ccr, 0);

    // bit 7
    let mut cpu = Cpu::new();
    cpu.ccr = 1;
    cpu.write_abs24_b(0xffcf20, 0x80).unwrap();
    cpu.write_rn_l(0, 0xffcf20).unwrap();
    cpu.bus.memory[0..4].copy_from_slice(&[0x7c, 0x00, 0x75, 0x70]);
    let opcode = cpu.fetch();
    let state = cpu.exec(opcode).unwrap();
    assert_eq!(state, 6);
    assert_eq!(cpu.ccr, 0);

    // register 7
    let mut cpu = Cpu::new();
    cpu.ccr = 1;
    cpu.write_abs24_b(0xffcf20, 0x01).unwrap();
    cpu.write_rn_l(7, 0xffcf20).unwrap();
    cpu.bus.memory[0..4].copy_from_slice(&[0x7c, 0x70, 0x75, 0x00]);
    let opcode = cpu.fetch();
    let state = cpu.exec(opcode).unwrap();
    assert_eq!(state, 6);
    assert_eq!(cpu.ccr, 0);

    let mut cpu = Cpu::new();
    cpu.ccr = 1;
    cpu.write_abs24_b(0xffcf20, 0xfe).unwrap();
    cpu.write_rn_l(0, 0xffcf20).unwrap();
    cpu.bus.memory[0..4].copy_from_slice(&[0x7c, 0x00, 0x75, 0x00]);
    let opcode = cpu.fetch();
    let state = cpu.exec(opcode).unwrap();
    assert_eq!(state, 6);
    assert_eq!(cpu.ccr, 1);

    let mut cpu = Cpu::new();
    cpu.ccr = 0;
    cpu.write_abs24_b(0xffcf20, 0x01).unwrap();
    cpu.write_rn_l(0, 0xffcf20).unwrap();
    cpu.bus.memory[0..4].copy_from_slice(&[0x7c, 0x00, 0x75, 0x00]);
    let opcode = cpu.fetch();
    let state = cpu.exec(opcode).unwrap();
    assert_eq!(state, 6);
    assert_eq!(cpu.ccr, 1);

    let mut cpu = Cpu::new();
    cpu.ccr = 0;
    cpu.write_abs24_b(0xffcf20, 0).unwrap();
    cpu.write_rn_l(0, 0xffcf20).unwrap();
    cpu.bus.memory[0..4].copy_from_slice(&[0x7c, 0x00, 0x75, 0x00]);
    let opcode = cpu.fetch();
    let state = cpu.exec(opcode).unwrap();
    assert_eq!(state, 6);
    assert_eq!(cpu.ccr, 0);
}

#[test]
fn test_bxor_abs() {
    let mut cpu = Cpu::new();
    cpu.ccr = 1;
    cpu.write_abs24_b(0xffff12, 0x01).unwrap();
    cpu.bus.memory[0..4].copy_from_slice(&[0x7e, 0x12, 0x75, 0x00]);
    let opcode = cpu.fetch();
    let state = cpu.exec(opcode).unwrap();
    assert_eq!(state, 6);
    assert_eq!(cpu.ccr, 0);

    // bit 7
    let mut cpu = Cpu::new();
    cpu.ccr = 1;
    cpu.write_abs24_b(0xffff12, 0x80).unwrap();
    cpu.bus.memory[0..4].copy_from_slice(&[0x7e, 0x12, 0x75, 0x70]);
    let opcode = cpu.fetch();
    let state = cpu.exec(opcode).unwrap();
    assert_eq!(state, 6);
    assert_eq!(cpu.ccr, 0);

    let mut cpu = Cpu::new();
    cpu.ccr = 1;
    cpu.write_abs24_b(0xffff12, 0xfe).unwrap();
    cpu.bus.memory[0..4].copy_from_slice(&[0x7e, 0x12, 0x75, 0x00]);
    let opcode = cpu.fetch();
    let state = cpu.exec(opcode).unwrap();
    assert_eq!(state, 6);
    assert_eq!(cpu.ccr, 1);

    let mut cpu = Cpu::new();
    cpu.ccr = 0;
    cpu.write_abs24_b(0xffff12, 0x01).unwrap();
    cpu.bus.memory[0..4].copy_from_slice(&[0x7e, 0x12, 0x75, 0x00]);
    let opcode = cpu.fetch();
    let state = cpu.exec(opcode).unwrap();
    assert_eq!(state, 6);
    assert_eq!(cpu.ccr, 1);

    let mut cpu = Cpu::new();
    cpu.ccr = 0;
    cpu.write_abs24_b(0xffff12, 0).unwrap();
    cpu.bus.memory[0..4].copy_from_slice(&[0x7e, 0x12, 0x75, 0x00]);
    let opcode = cpu.fetch();
    let state = cpu.exec(opcode).unwrap();
    assert_eq!(state, 6);
    assert_eq!(cpu.ccr, 0);
}
