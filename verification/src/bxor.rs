//! BXOR: exclusive-or of one bit of a source byte into the carry flag.
//! The source is a register byte, a byte behind `@ERn`, or a byte behind
//! `@aa:8`; only the carry flag changes.

use vstd::prelude::*;

use crate::addressing::{ea_abs8, ea_ern};
use crate::bus::access_states_of;
use crate::ccr::{flag_of, with_flag, CCR};
use crate::cpu::{nibble, Cpu, CpuError, StateType};
use crate::regs::rn_b_of;

verus! {

broadcast use
    crate::cpu::lemma_nibble,
    crate::bits::lemma_mask24,
    crate::bits::lemma_sel_low3,
    crate::bits::lemma_abs8_ea,
    crate::bits::lemma_low_bit,
    crate::bits::lemma_bit_xor;

/// The condition code register after BXOR: carry becomes the exclusive-or
/// of bit `imm` of `v` with the old carry; nothing else changes.
pub open spec fn bxor_ccr(c: u8, v: u8, imm: u8) -> u8 {
    with_flag(c, CCR::C, (((v >> imm) & 1) ^ flag_of(c, CCR::C)) == 1)
}

/// `BXOR #imm, Rd`: the bit number is nibble 3, the register nibble 4.
pub open spec fn bxor_rn_post(pre: Cpu, post: Cpu, op: u16, r: Result<u8, CpuError>) -> bool {
    let v = rn_b_of(pre.er@, nibble(op, 4));
    let imm = (nibble(op, 3) & 7) as u8;
    &&& post.ccr == bxor_ccr(pre.ccr, v, imm)
    &&& post == (Cpu { ccr: post.ccr, ..pre })
    &&& r == Ok::<u8, CpuError>(2)
}

/// `BXOR #imm, @ERd` under the `0x7c` prefix: the register selector is
/// nibble 3 of the first word and must name a full register; the bit
/// number is nibble 3 of the second word.
pub open spec fn bxor_ern_post(pre: Cpu, post: Cpu, op: u16, op2: u16, r: Result<u8, CpuError>) -> bool {
    let reg = nibble(op, 3);
    if reg >= 8 {
        post == pre && r == Err::<u8, CpuError>((CpuError::InvalidRegister { field: reg }))
    } else {
        let ea = ea_ern(pre.er@, reg);
        let v = pre.bus.memory@[ea as int];
        let imm = (nibble(op2, 3) & 7) as u8;
        &&& post.ccr == bxor_ccr(pre.ccr, v, imm)
        &&& post == (Cpu { ccr: post.ccr, ..pre })
        &&& r == Ok::<u8, CpuError>(((4 + access_states_of(ea)) as u8))
    }
}

/// `BXOR #imm, @aa:8` under the `0x7e` prefix: the address is the low
/// byte of the first word; the bit number is nibble 3 of the second.
pub open spec fn bxor_abs_post(pre: Cpu, post: Cpu, op: u16, op2: u16, r: Result<u8, CpuError>) -> bool {
    let ea = ea_abs8(op as u8);
    let v = pre.bus.memory@[ea as int];
    let imm = (nibble(op2, 3) & 7) as u8;
    &&& post.ccr == bxor_ccr(pre.ccr, v, imm)
    &&& post == (Cpu { ccr: post.ccr, ..pre })
    &&& r == Ok::<u8, CpuError>(((4 + access_states_of(ea)) as u8))
}

impl Cpu {
    /// `BXOR #imm, Rd`.
    pub fn bxor_rn(&mut self, opcode: u16) -> (r: Result<u8, CpuError>)
        requires
            old(self).wf(),
        ensures
            final(self).wf(),
            bxor_rn_post(*old(self), *final(self), opcode, r),
    {
        let register = match Cpu::get_nibble_opcode(opcode, 4) {
            Ok(v) => v,
            Err(e) => return Err(e),
        };
        let value = match self.read_rn_b(register) {
            Ok(v) => v,
            Err(e) => return Err(e),
        };
        let imm = match Cpu::get_nibble_opcode(opcode, 3) {
            Ok(v) => v & 7,
            Err(e) => return Err(e),
        };
        let bit = ((value >> imm) & 1) ^ self.read_ccr(CCR::C);
        self.write_ccr(CCR::C, bit);
        Ok(self.calc_state(StateType::I, 1))
    }

    /// `BXOR #imm, @ERd`; the caller has already fetched the second
    /// opcode word.
    pub fn bxor_ern(&mut self, opcode: u16, opcode2: u16) -> (r: Result<u8, CpuError>)
        requires
            old(self).wf(),
        ensures
            final(self).wf(),
            bxor_ern_post(*old(self), *final(self), opcode, opcode2, r),
    {
        let register = match Cpu::get_nibble_opcode(opcode, 3) {
            Ok(v) => v,
            Err(e) => return Err(e),
        };
        let access_addr = match self.get_addr_ern(register) {
            Ok(a) => a,
            Err(e) => return Err(e),
        };
        let value = match self.read_ern_b(register) {
            Ok(v) => v,
            Err(e) => return Err(e),
        };
        let imm = match Cpu::get_nibble_opcode(opcode2, 3) {
            Ok(v) => v & 7,
            Err(e) => return Err(e),
        };
        let bit = ((value >> imm) & 1) ^ self.read_ccr(CCR::C);
        self.write_ccr(CCR::C, bit);
        Ok(
            self.calc_state(StateType::I, 2) + self.calc_state_with_addr(
                StateType::M,
                1,
                access_addr,
            ),
        )
    }

    /// `BXOR #imm, @aa:8`; the caller has already fetched the second
    /// opcode word.
    pub fn bxor_abs(&mut self, opcode: u16, opcode2: u16) -> (r: Result<u8, CpuError>)
        requires
            old(self).wf(),
        ensures
            final(self).wf(),
            bxor_abs_post(*old(self), *final(self), opcode, opcode2, r),
    {
        let imm = match Cpu::get_nibble_opcode(opcode2, 3) {
            Ok(v) => v & 7,
            Err(e) => return Err(e),
        };
        let abs_addr = opcode as u8;
        let access_addr = 0xffff00u32 | (abs_addr as u32);
        let value = match self.read_abs8_b(abs_addr) {
            Ok(v) => v,
            Err(e) => return Err(e),
        };
        let bit = ((value >> imm) & 1) ^ self.read_ccr(CCR::C);
        self.write_ccr(CCR::C, bit);
        Ok(
            self.calc_state(StateType::I, 2) + self.calc_state_with_addr(
                StateType::M,
                1,
                access_addr,
            ),
        )
    }
}

} // verus!
