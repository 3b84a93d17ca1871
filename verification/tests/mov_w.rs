//! Word-move instruction tests: each exercises one addressing mode of
//! MOV.W through `fetch` and `exec` and checks the destination, the
//! N/Z/V flags, and the consumed states.

use h8300h::bus::MEMORY_START_ADDR;
use h8300h::cpu::Cpu;

#[test]
fn test_mov_w_rn() {
    let mut cpu = Cpu::new();
    cpu.pc = MEMORY_START_ADDR;
    cpu.ccr = 0x04;

    cpu.bus.memory[0..2].copy_from_slice(&[0x0d, 0x0f]);
    cpu.write_rn_w(0, 0xb6a5).unwrap();
    let opcode = cpu.fetch();
    let state = cpu.exec(opcode).unwrap();
    assert_eq!(state, 2);
    assert_eq!(cpu.ccr & 0b00001110, 0b00001000);
    assert_eq!(cpu.read_rn_w(0xf).unwrap(), 0xb6a5);

    let mut cpu = Cpu::new();
    cpu.pc = MEMORY_START_ADDR;
    cpu.ccr = 0x04;

    cpu.bus.memory[0..2].copy_from_slice(&[0x0d, 0xf0]);
    cpu.write_rn_w(0xf, 0xb6a5).unwrap();
    let opcode = cpu.fetch();
    let state = cpu.exec(opcode).unwrap();
    assert_eq!(state, 2);
    assert_eq!(cpu.ccr & 0b00001110, 0b00001000);
    assert_eq!(cpu.read_rn_w(0).unwrap(), 0xb6a5);

    let mut cpu = Cpu::new();
    cpu.pc = MEMORY_START_ADDR;
    cpu.ccr = 0x0a;

    cpu.bus.memory[0..2].copy_from_slice(&[0x0d, 0x0f]);
    cpu.write_rn_w(0, 0).unwrap();
    let opcode = cpu.fetch();
    let state = cpu.exec(opcode).unwrap();
    assert_eq!(state, 2);
    assert_eq!(cpu.ccr & 0b00001110, 0b00000100);
    assert_eq!(cpu.read_rn_w(0xf).unwrap(), 0);
}

#[test]
fn test_mov_w_imm() {
    let mut cpu = Cpu::new();
    cpu.pc = MEMORY_START_ADDR;
    cpu.ccr = 0x04;

    cpu.bus.memory[0..4].copy_from_slice(&[0x79, 0x00, 0xb6, 0xa5]);
    let opcode = cpu.fetch();
    let state = cpu.exec(opcode).unwrap();
    assert_eq!(state, 4);
    assert_eq!(cpu.ccr & 0b00001110, 0b00001000);
    assert_eq!(cpu.read_rn_w(0).unwrap(), 0xb6a5);

    let mut cpu = Cpu::new();
    cpu.pc = MEMORY_START_ADDR;
    cpu.ccr = 0x04;

    cpu.bus.memory[0..4].copy_from_slice(&[0x79, 0x0f, 0xb6, 0xa5]);
    let opcode = cpu.fetch();
    let state = cpu.exec(opcode).unwrap();
    assert_eq!(state, 4);
    assert_eq!(cpu.ccr & 0b00001110, 0b00001000);
    assert_eq!(cpu.read_rn_w(0xf).unwrap(), 0xb6a5);

    let mut cpu = Cpu::new();
    cpu.pc = MEMORY_START_ADDR;
    cpu.ccr = 0x0a;

    cpu.bus.memory[0..4].copy_from_slice(&[0x79, 0x00, 0x00, 0x00]);
    let opcode = cpu.fetch();
    let state = cpu.exec(opcode).unwrap();
    assert_eq!(state, 4);
    assert_eq!(cpu.ccr & 0b00001110, 0b00000100);
    assert_eq!(cpu.read_rn_w(0).unwrap(), 0);
}

#[test]
fn test_mov_w_ern() {
    ////////
    // EAs to Rd

    let mut cpu = Cpu::new();
    cpu.pc = MEMORY_START_ADDR;
    cpu.ccr = 0x04;

    cpu.write_rn_l(0, 0xffcf20).unwrap();
    cpu.write_abs24_w(0xffcf20, 0xb6a5).unwrap();
    cpu.bus.memory[0..2].copy_from_slice(&[0x69, 0x0f]);
    let opcode = cpu.fetch();
    let state = cpu.exec(opcode).unwrap();
    assert_eq!(state, 4);
    assert_eq!(cpu.ccr & 0b00001110, 0b00001000);
    assert_eq!(cpu.read_rn_w(0xf).unwrap(), 0xb6a5);

    let mut cpu = Cpu::new();
    cpu.pc = MEMORY_START_ADDR;
    cpu.ccr = 0x04;

    cpu.write_rn_l(7, 0xffcf20).unwrap();
    cpu.write_abs24_w(0xffcf20, 0xb6a5).unwrap();
    cpu.bus.memory[0..2].copy_from_slice(&[0x69, 0x70]);
    let opcode = cpu.fetch();
    let state = cpu.exec(opcode).unwrap();
    assert_eq!(state, 4);
    assert_eq!(cpu.ccr & 0b00001110, 0b00001000);
    assert_eq!(cpu.read_rn_w(0).unwrap(), 0xb6a5);

    let mut cpu = Cpu::new();
    cpu.pc = MEMORY_START_ADDR;
    cpu.ccr = 0x0a;

    cpu.write_rn_l(0, 0xffcf20).unwrap();
    cpu.write_abs24_w(0xffcf20, 0).unwrap();
    cpu.bus.memory[0..2].copy_from_slice(&[0x69, 0x0f]);
    let opcode = cpu.fetch();
    let state = cpu.exec(opcode).unwrap();
    assert_eq!(state, 4);
    assert_eq!(cpu.ccr & 0b00001110, 0b00000100);
    assert_eq!(cpu.read_rn_w(0xf).unwrap(), 0);

    ////////
    // Rs to ERs

    let mut cpu = Cpu::new();
    cpu.pc = MEMORY_START_ADDR;
    cpu.ccr = 0x04;

    cpu.write_rn_w(0, 0xb6a5).unwrap();
    cpu.write_rn_l(7, 0xffcf20).unwrap();
    cpu.bus.memory[0..2].copy_from_slice(&[0x69, 0xf0]);
    let opcode = cpu.fetch();
    let state = cpu.exec(opcode).unwrap();
    assert_eq!(state, 4);
    assert_eq!(cpu.ccr & 0b00001110, 0b00001000);
    assert_eq!(cpu.read_abs24_w(0xffcf20).unwrap(), 0xb6a5);

    let mut cpu = Cpu::new();
    cpu.pc = MEMORY_START_ADDR;
    cpu.ccr = 0x04;

    cpu.write_rn_w(0xf, 0xb6a5).unwrap();
    cpu.write_rn_l(0, 0xffcf20).unwrap();
    cpu.bus.memory[0..2].copy_from_slice(&[0x69, 0x8f]);
    let opcode = cpu.fetch();
    let state = cpu.exec(opcode).unwrap();
    assert_eq!(state, 4);
    assert_eq!(cpu.ccr & 0b00001110, 0b00001000);
    assert_eq!(cpu.read_abs24_w(0xffcf20).unwrap(), 0xb6a5);

    let mut cpu = Cpu::new();
    cpu.pc = MEMORY_START_ADDR;
    cpu.ccr = 0x0a;

    cpu.write_rn_w(0, 0).unwrap();
    cpu.write_rn_l(7, 0xffcf20).unwrap();
    cpu.bus.memory[0..2].copy_from_slice(&[0x69, 0xf0]);
    let opcode = cpu.fetch();
    let state = cpu.exec(opcode).unwrap();
    assert_eq!(state, 4);
    assert_eq!(cpu.ccr & 0b00001110, 0b00000100);
    assert_eq!(cpu.read_abs24_w(0xffcf20).unwrap(), 0);
}

#[test]
fn test_mov_w_disp16() {
    ////////
    // EAs to Rd

    let mut cpu = Cpu::new();
    cpu.pc = MEMORY_START_ADDR;
    cpu.ccr = 0x04;

    cpu.write_rn_l(0, 0xffcf20).unwrap();
    cpu.write_abs24_w(0xffde0e, 0xb6a5).unwrap();
    cpu.bus.memory[0..4].copy_from_slice(&[0x6f, 0x0f, 0x0e, 0xee]);
    let opcode = cpu.fetch();
    let state = cpu.exec(opcode).unwrap();
    assert_eq!(state, 6);
    assert_eq!(cpu.ccr & 0b00001110, 0b00001000);
    assert_eq!(cpu.read_rn_w(0xf).unwrap(), 0xb6a5);

    let mut cpu = Cpu::new();
    cpu.pc = MEMORY_START_ADDR;
    cpu.ccr = 0x04;

    cpu.write_rn_l(7, 0xffcf20).unwrap();
    cpu.write_abs24_w(0xffde0e, 0xb6a5).unwrap();
    cpu.bus.memory[0..4].copy_from_slice(&[0x6f, 0x70, 0x0e, 0xee]);
    let opcode = cpu.fetch();
    let state = cpu.exec(opcode).unwrap();
    assert_eq!(state, 6);
    assert_eq!(cpu.ccr & 0b00001110, 0b00001000);
    assert_eq!(cpu.read_rn_w(0).unwrap(), 0xb6a5);

    let mut cpu = Cpu::new();
    cpu.pc = MEMORY_START_ADDR;
    cpu.ccr = 0x0a;

    cpu.write_rn_l(0, 0xffcf20).unwrap();
    cpu.write_abs24_w(0xffde0e, 0).unwrap();
    cpu.bus.memory[0..4].copy_from_slice(&[0x6f, 0x0f, 0x0e, 0xee]);
    let opcode = cpu.fetch();
    let state = cpu.exec(opcode).unwrap();
    assert_eq!(state, 6);
    assert_eq!(cpu.ccr & 0b00001110, 0b00000100);
    assert_eq!(cpu.read_rn_w(0xf).unwrap(), 0);

    ////////
    // Rs to ERs

    let mut cpu = Cpu::new();
    cpu.pc = MEMORY_START_ADDR;
    cpu.ccr = 0x04;

    cpu.write_rn_w(0xf, 0xb6a5).unwrap();
    cpu.write_rn_l(0, 0xffcf20).unwrap();
    cpu.bus.memory[0..4].copy_from_slice(&[0x6f, 0x8f, 0x0e, 0xee]);
    let opcode = cpu.fetch();
    let state = cpu.exec(opcode).unwrap();
    assert_eq!(state, 6);
    assert_eq!(cpu.ccr & 0b00001110, 0b00001000);
    assert_eq!(cpu.read_abs24_w(0xffde0e).unwrap(), 0xb6a5);

    let mut cpu = Cpu::new();
    cpu.pc = MEMORY_START_ADDR;
    cpu.ccr = 0x04;

    cpu.write_rn_w(0, 0xb6a5).unwrap();
    cpu.write_rn_l(7, 0xffcf20).unwrap();
    cpu.bus.memory[0..4].copy_from_slice(&[0x6f, 0xf0, 0x0e, 0xee]);
    let opcode = cpu.fetch();
    let state = cpu.exec(opcode).unwrap();
    assert_eq!(state, 6);
    assert_eq!(cpu.ccr & 0b00001110, 0b00001000);
    assert_eq!(cpu.read_abs24_w(0xffde0e).unwrap(), 0xb6a5);

    let mut cpu = Cpu::new();
    cpu.pc = MEMORY_START_ADDR;
    cpu.ccr = 0x0a;

    cpu.write_rn_w(0xf, 0).unwrap();
    cpu.write_rn_l(0, 0xffcf20).unwrap();
    cpu.bus.memory[0..4].copy_from_slice(&[0x6f, 0x8f, 0x0e, 0xee]);
    let opcode = cpu.fetch();
    let state = cpu.exec(opcode).unwrap();
    assert_eq!(state, 6);
    assert_eq!(cpu.ccr & 0b00001110, 0b00000100);
    assert_eq!(cpu.read_abs24_w(0xffde0e).unwrap(), 0);
}

#[test]
fn test_mov_w_disp24() {
    ////////
    // EAs to Rd

    let mut cpu = Cpu::new();
    cpu.pc = MEMORY_START_ADDR;
    cpu.ccr = 0x04;

    cpu.write_rn_l(0, 0xffcf20).unwrap();
    cpu.write_abs24_w(0xffce0e, 0xb6a5).unwrap();
    cpu.bus.memory[0..8].copy_from_slice(&[0x78, 0x00, 0x6b, 0x2f, 0x00, 0xff, 0xfe, 0xee]);
    let opcode = cpu.fetch();
    let state = cpu.exec(opcode).unwrap();
    assert_eq!(state, 10);
    assert_eq!(cpu.ccr & 0b00001110, 0b00001000);
    assert_eq!(cpu.read_rn_w(0xf).unwrap(), 0xb6a5);

    let mut cpu = Cpu::new();
    cpu.pc = MEMORY_START_ADDR;
    cpu.ccr = 0x04;

    cpu.write_rn_l(7, 0xffcf20).unwrap();
    cpu.write_abs24_w(0xffce0e, 0xb6a5).unwrap();
    cpu.bus.memory[0..8].copy_from_slice(&[0x78, 0x70, 0x6b, 0x20, 0x00, 0xff, 0xfe, 0xee]);
    let opcode = cpu.fetch();
    let state = cpu.exec(opcode).unwrap();
    assert_eq!(state, 10);
    assert_eq!(cpu.ccr & 0b00001110, 0b00001000);
    assert_eq!(cpu.read_rn_w(0).unwrap(), 0xb6a5);

    let mut cpu = Cpu::new();
    cpu.pc = MEMORY_START_ADDR;
    cpu.ccr = 0x0a;

    cpu.write_rn_l(0, 0xffcf20).unwrap();
    cpu.write_abs24_w(0xffce0e, 0).unwrap();
    cpu.bus.memory[0..8].copy_from_slice(&[0x78, 0x00, 0x6b, 0x2f, 0x00, 0xff, 0xfe, 0xee]);
    let opcode = cpu.fetch();
    let state = cpu.exec(opcode).unwrap();
    assert_eq!(state, 10);
    assert_eq!(cpu.ccr & 0b00001110, 0b00000100);
    assert_eq!(cpu.read_rn_w(0xf).unwrap(), 0);

    ////////
    // Rs to ERs

    let mut cpu = Cpu::new();
    cpu.pc = MEMORY_START_ADDR;
    cpu.ccr = 0x04;

    cpu.write_rn_w(0xf, 0xb6a5).unwrap();
    cpu.write_rn_l(0, 0xffcf20).unwrap();
    cpu.bus.memory[0..8].copy_from_slice(&[0x78, 0x00, 0x6b, 0xaf, 0x00, 0xff, 0xfe, 0xee]);
    let opcode = cpu.fetch();
    let state = cpu.exec(opcode).unwrap();
    assert_eq!(state, 10);
    assert_eq!(cpu.ccr & 0b00001110, 0b00001000);
    assert_eq!(cpu.read_abs24_w(0xffce0e).unwrap(), 0xb6a5);

    let mut cpu = Cpu::new();
    cpu.pc = MEMORY_START_ADDR;
    cpu.ccr = 0x04;

    cpu.write_rn_w(0, 0xb6a5).unwrap();
    cpu.write_rn_l(7, 0xffcf20).unwrap();
    cpu.bus.memory[0..8].copy_from_slice(&[0x78, 0x70, 0x6b, 0xa0, 0x00, 0xff, 0xfe, 0xee]);
    let opcode = cpu.fetch();
    let state = cpu.exec(opcode).unwrap();
    assert_eq!(state, 10);
    assert_eq!(cpu.ccr & 0b00001110, 0b00001000);
    assert_eq!(cpu.read_abs24_w(0xffce0e).unwrap(), 0xb6a5);

    let mut cpu = Cpu::new();
    cpu.pc = MEMORY_START_ADDR;
    cpu.ccr = 0x0a;

    cpu.write_rn_w(0xf, 0).unwrap();
    cpu.write_rn_l(0, 0xffcf20).unwrap();
    cpu.bus.memory[0..8].copy_from_slice(&[0x78, 0x00, 0x6b, 0xaf, 0x00, 0xff, 0xfe, 0xee]);
    let opcode = cpu.fetch();
    let state = cpu.exec(opcode).unwrap();
    assert_eq!(state, 10);
    assert_eq!(cpu.ccr & 0b00001110, 0b00000100);
    assert_eq!(cpu.read_abs24_w(0xffce0e).unwrap(), 0);
}

#[test]
fn test_mov_w_inc_or_dec() {
    ////////
    // increment

    let mut cpu = Cpu::new();
    cpu.pc = MEMORY_START_ADDR;
    cpu.ccr = 0x04;

    cpu.write_rn_l(0, 0xffcf20).unwrap();
    cpu.write_abs24_w(0xffcf20, 0xb6a5).unwrap();
    cpu.bus.memory[0..2].copy_from_slice(&[0x6d, 0x0f]);
    let opcode = cpu.fetch();
    let state = cpu.exec(opcode).unwrap();
    assert_eq!(state, 6);
    assert_eq!(cpu.ccr & 0b00001110, 0b00001000);
    assert_eq!(cpu.read_rn_w(0xf).unwrap(), 0xb6a5);
    assert_eq!(cpu.read_rn_l(0).unwrap(), 0xffcf22);

    let mut cpu = Cpu::new();
    cpu.pc = MEMORY_START_ADDR;
    cpu.ccr = 0x04;

    cpu.write_rn_l(7, 0xffcf20).unwrap();
    cpu.write_abs24_w(0xffcf20, 0xb6a5).unwrap();
    cpu.bus.memory[0..2].copy_from_slice(&[0x6d, 0x70]);
    let opcode = cpu.fetch();
    let state = cpu.exec(opcode).unwrap();
    assert_eq!(state, 6);
    assert_eq!(cpu.ccr & 0b00001110, 0b00001000);
    assert_eq!(cpu.read_rn_w(0).unwrap(), 0xb6a5);
    assert_eq!(cpu.read_rn_l(7).unwrap(), 0xffcf22);

    let mut cpu = Cpu::new();
    cpu.pc = MEMORY_START_ADDR;
    cpu.ccr = 0x0a;

    cpu.write_rn_l(0, 0xffcf20).unwrap();
    cpu.write_abs24_w(0xffcf20, 0).unwrap();
    cpu.bus.memory[0..2].copy_from_slice(&[0x6d, 0x0f]);
    let opcode = cpu.fetch();
    let state = cpu.exec(opcode).unwrap();
    assert_eq!(state, 6);
    assert_eq!(cpu.ccr & 0b00001110, 0b00000100);
    assert_eq!(cpu.read_rn_w(0xf).unwrap(), 0);
    assert_eq!(cpu.read_rn_l(0).unwrap(), 0xffcf22);

    ////////
    // decrement

    let mut cpu = Cpu::new();
    cpu.pc = MEMORY_START_ADDR;
    cpu.ccr = 0x04;

    cpu.write_rn_w(0xf, 0xb6a5).unwrap();
    cpu.write_rn_l(0, 0xffcf22).unwrap();
    cpu.bus.memory[0..2].copy_from_slice(&[0x6d, 0x8f]);
    let opcode = cpu.fetch();
    let state = cpu.exec(opcode).unwrap();
    assert_eq!(state, 6);
    assert_eq!(cpu.ccr & 0b00001110, 0b00001000);
    assert_eq!(cpu.read_abs24_w(0xffcf20).unwrap(), 0xb6a5);
    assert_eq!(cpu.read_rn_l(0).unwrap(), 0xffcf20);

    let mut cpu = Cpu::new();
    cpu.pc = MEMORY_START_ADDR;
    cpu.ccr = 0x04;

    cpu.write_rn_w(0, 0xb6a5).unwrap();
    cpu.write_rn_l(7, 0xffcf22).unwrap();
    cpu.bus.memory[0..2].copy_from_slice(&[0x6d, 0xf0]);
    let opcode = cpu.fetch();
    let state = cpu.exec(opcode).unwrap();
    assert_eq!(state, 6);
    assert_eq!(cpu.ccr & 0b00001110, 0b00001000);
    assert_eq!(cpu.read_abs24_w(0xffcf20).unwrap(), 0xb6a5);
    assert_eq!(cpu.read_rn_l(7).unwrap(), 0xffcf20);

    let mut cpu = Cpu::new();
    cpu.pc = MEMORY_START_ADDR;
    cpu.ccr = 0x0a;

    cpu.write_rn_w(0xf, 0).unwrap();
    cpu.write_rn_l(0, 0xffcf22).unwrap();
    cpu.bus.memory[0..2].copy_from_slice(&[0x6d, 0x8f]);
    let opcode = cpu.fetch();
    let state = cpu.exec(opcode).unwrap();
    assert_eq!(state, 6);
    assert_eq!(cpu.ccr & 0b00001110, 0b00000100);
    assert_eq!(cpu.read_abs24_w(0xffcf20).unwrap(), 0);
    assert_eq!(cpu.read_rn_l(0).unwrap(), 0xffcf20);
}

#[test]
fn test_mov_w_abs16() {
    ////////
    // EAs to Rd

    let mut cpu = Cpu::new();
    cpu.pc = MEMORY_START_ADDR;
    cpu.ccr = 0x04;

    cpu.write_abs24_w(0xffff02, 0xb6a5).unwrap();
    cpu.bus.memory[0..4].copy_from_slice(&[0x6b, 0x00, 0xff, 0x02]);
    let opcode = cpu.fetch();
    let state = cpu.exec(opcode).unwrap();
    assert_eq!(state, 6);
    assert_eq!(cpu.ccr & 0b00001110, 0b00001000);
    assert_eq!(cpu.read_rn_w(0).unwrap(), 0xb6a5);

    let mut cpu = Cpu::new();
    cpu.pc = MEMORY_START_ADDR;
    cpu.ccr = 0x04;

    cpu.write_abs24_w(0xffff02, 0xb6a5).unwrap();
    cpu.bus.memory[0..4].copy_from_slice(&[0x6b, 0x0f, 0xff, 0x02]);
    let opcode = cpu.fetch();
    let state = cpu.exec(opcode).unwrap();
    assert_eq!(state, 6);
    assert_eq!(cpu.ccr & 0b00001110, 0b00001000);
    assert_eq!(cpu.read_rn_w(0xf).unwrap(), 0xb6a5);

    let mut cpu = Cpu::new();
    cpu.pc = MEMORY_START_ADDR;
    cpu.ccr = 0x0a;

    cpu.write_abs24_w(0xffff02, 0).unwrap();
    cpu.bus.memory[0..4].copy_from_slice(&[0x6b, 0x00, 0xff, 0x02]);
    let opcode = cpu.fetch();
    let state = cpu.exec(opcode).unwrap();
    assert_eq!(state, 6);
    assert_eq!(cpu.ccr & 0b00001110, 0b00000100);
    assert_eq!(cpu.read_rn_w(0).unwrap(), 0);

    ////////
    // Rs to ERs

    let mut cpu = Cpu::new();
    cpu.pc = MEMORY_START_ADDR;
    cpu.ccr = 0x04;

    cpu.write_rn_w(0, 0xb6a5).unwrap();
    cpu.bus.memory[0..4].copy_from_slice(&[0x6b, 0x80, 0xff, 0x02]);
    let opcode = cpu.fetch();
    let state = cpu.exec(opcode).unwrap();
    assert_eq!(state, 6);
    assert_eq!(cpu.ccr & 0b00001110, 0b00001000);
    assert_eq!(cpu.read_abs24_w(0xffff02).unwrap(), 0xb6a5);

    let mut cpu = Cpu::new();
    cpu.pc = MEMORY_START_ADDR;
    cpu.ccr = 0x04;

    cpu.write_rn_w(0xf, 0xb6a5).unwrap();
    cpu.bus.memory[0..4].copy_from_slice(&[0x6b, 0x8f, 0xff, 0x02]);
    let opcode = cpu.fetch();
    let state = cpu.exec(opcode).unwrap();
    assert_eq!(state, 6);
    assert_eq!(cpu.ccr & 0b00001110, 0b00001000);
    assert_eq!(cpu.read_abs24_w(0xffff02).unwrap(), 0xb6a5);

    let mut cpu = Cpu::new();
    cpu.pc = MEMORY_START_ADDR;
    cpu.ccr = 0x0a;

    cpu.write_rn_w(0, 0).unwrap();
    cpu.bus.memory[0..4].copy_from_slice(&[0x6b, 0x80, 0xff, 0x02]);
    let opcode = cpu.fetch();
    let state = cpu.exec(opcode).unwrap();
    assert_eq!(state, 6);
    assert_eq!(cpu.ccr & 0b00001110, 0b00000100);
    assert_eq!(cpu.read_abs24_w(0xffff02).unwrap(), 0);
}

#[test]
fn test_mov_w_abs24() {
    ////////
    // EAs to Rd

    let mut cpu = Cpu::new();
    cpu.pc = MEMORY_START_ADDR;
    cpu.ccr = 0x04;

    cpu.write_abs24_w(0xffff02, 0xb6a5).unwrap();
    cpu.bus.memory[0..6].copy_from_slice(&[0x6b, 0x20, 0x00, 0xff, 0xff, 0x02]);
    let opcode = cpu.fetch();
    let state = cpu.exec(opcode).unwrap();
    assert_eq!(state, 8);
    assert_eq!(cpu.ccr & 0b00001110, 0b00001000);
    assert_eq!(cpu.read_rn_w(0).unwrap(), 0xb6a5);

    let mut cpu = Cpu::new();
    cpu.pc = MEMORY_START_ADDR;
    cpu.ccr = 0x04;

    cpu.write_abs24_w(0xffff02, 0xb6a5).unwrap();
    cpu.bus.memory[0..6].copy_from_slice(&[0x6b, 0x2f, 0x00, 0xff, 0xff, 0x02]);
    let opcode = cpu.fetch();
    let state = cpu.exec(opcode).unwrap();
    assert_eq!(state, 8);
    assert_eq!(cpu.ccr & 0b00001110, 0b00001000);
    assert_eq!(cpu.read_rn_w(0xf).unwrap(), 0xb6a5);

    let mut cpu = Cpu::new();
    cpu.pc = MEMORY_START_ADDR;
    cpu.ccr = 0x0a;

    cpu.write_abs24_w(0xffff02, 0).unwrap();
    cpu.bus.memory[0..6].copy_from_slice(&[0x6b, 0x20, 0x00, 0xff, 0xff, 0x02]);
    let opcode = cpu.fetch();
    let state = cpu.exec(opcode).unwrap();
    assert_eq!(state, 8);
    assert_eq!(cpu.ccr & 0b00001110, 0b00000100);
    assert_eq!(cpu.read_rn_w(0).unwrap(), 0);

    ////////
    // Rs to ERs

    let mut cpu = Cpu::new();
    cpu.pc = MEMORY_START_ADDR;
    cpu.ccr = 0x04;

    cpu.write_rn_w(0, 0xb6a5).unwrap();
    cpu.bus.memory[0..6].copy_from_slice(&[0x6b, 0xa0, 0x00, 0xff, 0xff, 0x02]);
    let opcode = cpu.fetch();
    let state = cpu.exec(opcode).unwrap();
    assert_eq!(state, 8);
    assert_eq!(cpu.ccr & 0b00001110, 0b00001000);
    assert_eq!(cpu.read_abs24_w(0xffff02).unwrap(), 0xb6a5);

    let mut cpu = Cpu::new();
    cpu.pc = MEMORY_START_ADDR;
    cpu.ccr = 0x04;

    cpu.write_rn_w(0xf, 0xb6a5).unwrap();
    cpu.bus.memory[0..6].copy_from_slice(&[0x6b, 0xaf, 0x00, 0xff, 0xff, 0x02]);
    let opcode = cpu.fetch();
    let state = cpu.exec(opcode).unwrap();
    assert_eq!(state, 8);
    assert_eq!(cpu.ccr & 0b00001110, 0b00001000);
    assert_eq!(cpu.read_abs24_w(0xffff02).unwrap(), 0xb6a5);

    let mut cpu = Cpu::new();
    cpu.pc = MEMORY_START_ADDR;
    cpu.ccr = 0x0a;

    cpu.write_rn_w(0, 0).unwrap();
    cpu.bus.memory[0..6].copy_from_slice(&[0x6b, 0xa0, 0x00, 0xff, 0xff, 0x02]);
    let opcode = cpu.fetch();
    let state = cpu.exec(opcode).unwrap();
    assert_eq!(state, 8);
    assert_eq!(cpu.ccr & 0b00001110, 0b00000100);
    assert_eq!(cpu.read_abs24_w(0xffff02).unwrap(), 0);
}
