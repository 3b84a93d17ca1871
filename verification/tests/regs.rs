//! Register-file tests: aliased views read back what was written, a
//! partial write leaves the unaddressed bits of the register alone, and
//! out-of-range selectors are rejected.

use h8300h::cpu::{Cpu, CpuError};

#[test]
fn test_byte_views_round_trip() {
    let mut cpu = Cpu::new();
    for sel in 0..16u8 {
        cpu.write_rn_b(sel, 0x5a ^ sel).unwrap();
        assert_eq!(cpu.read_rn_b(sel).unwrap(), 0x5a ^ sel);
    }
}

#[test]
fn test_word_views_round_trip() {
    let mut cpu = Cpu::new();
    for sel in 0..16u8 {
        let v = 0xa500u16 | (sel as u16);
        cpu.write_rn_w(sel, v).unwrap();
        assert_eq!(cpu.read_rn_w(sel).unwrap(), v);
    }
}

#[test]
fn test_long_views_round_trip() {
    let mut cpu = Cpu::new();
    for sel in 0..8u8 {
        let v = 0x12345600u32 | (sel as u32);
        cpu.write_rn_l(sel, v).unwrap();
        assert_eq!(cpu.read_rn_l(sel).unwrap(), v);
    }
}

#[test]
fn test_partial_write_preserves_rest() {
    let mut cpu = Cpu::new();
    cpu.write_rn_l(0, 0x11223344).unwrap();
    // Low byte of R0 (selector 0) changes; everything else stays.
    cpu.write_rn_b(0, 0xaa).unwrap();
    assert_eq!(cpu.read_rn_l(0).unwrap(), 0x112233aa);
    assert_eq!(cpu.read_rn_b(8).unwrap(), 0x33);
    assert_eq!(cpu.read_rn_w(8).unwrap(), 0x1122);
    // High byte of R0 (selector 8) changes; low byte and upper word stay.
    cpu.write_rn_b(8, 0xbb).unwrap();
    assert_eq!(cpu.read_rn_l(0).unwrap(), 0x1122bbaa);
    // Lower word (selector 0) changes; upper word stays.
    cpu.write_rn_w(0, 0xcccc).unwrap();
    assert_eq!(cpu.read_rn_l(0).unwrap(), 0x1122cccc);
    // Upper word (selector 8) changes; lower word stays.
    cpu.write_rn_w(8, 0xdddd).unwrap();
    assert_eq!(cpu.read_rn_l(0).unwrap(), 0xddddcccc);
    // A neighbouring register never moves.
    assert_eq!(cpu.read_rn_l(1).unwrap(), 0);
}

#[test]
fn test_invalid_selectors() {
    let mut cpu = Cpu::new();
    assert_eq!(cpu.read_rn_b(16), Err(CpuError::InvalidRegister { field: 16 }));
    assert_eq!(cpu.read_rn_w(16), Err(CpuError::InvalidRegister { field: 16 }));
    assert_eq!(cpu.read_rn_l(8), Err(CpuError::InvalidRegister { field: 8 }));
    assert_eq!(cpu.write_rn_b(16, 0), Err(CpuError::InvalidRegister { field: 16 }));
    assert_eq!(cpu.write_rn_w(16, 0), Err(CpuError::InvalidRegister { field: 16 }));
    assert_eq!(cpu.write_rn_l(8, 0), Err(CpuError::InvalidRegister { field: 8 }));
}
