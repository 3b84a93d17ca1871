//! MOV.W: word moves between registers, memory and immediates. Every
//! variant loads the moved word into its destination, sets N to the sign
//! of the word and Z to whether it is zero, clears V, and leaves C and H
//! unchanged.

use vstd::prelude::*;

use crate::addressing::{ea_abs16, ea_abs24, ea_disp16, ea_disp24, ea_ern};
use crate::bus::{access_states_of, word_at, word_write, AccessWidth, WriteNote, MEMORY_END_ADDR};
use crate::ccr::{with_flag, CCR};
use crate::cpu::{fetch_word, nibble, Cpu, CpuError, StateType};
use crate::regs::{rn_l_of, rn_w_of, wr_l, wr_w};

verus! {

broadcast use
    crate::cpu::lemma_nibble,
    crate::bits::lemma_mask24,
    crate::bits::lemma_sel_low3,
    crate::bits::lemma_even_mask;

/// The condition code register after a word move of `v`: N tracks the
/// sign bit, Z tracks zero, V is cleared, C and H keep their values.
pub open spec fn mov_ccr_w(c: u8, v: u16) -> u8 {
    with_flag(with_flag(with_flag(c, CCR::N, v >= 0x8000), CCR::Z, v == 0), CCR::V, false)
}

/// `MOV.W Rs, Rd` (register to register).
pub open spec fn mov_w_rn_post(pre: Cpu, post: Cpu, op: u16, r: Result<u8, CpuError>) -> bool {
    let v = rn_w_of(pre.er@, nibble(op, 3));
    &&& post.er@ == wr_w(pre.er@, nibble(op, 4), v)
    &&& post.ccr == mov_ccr_w(pre.ccr, v)
    &&& post == (Cpu { er: post.er, ccr: post.ccr, ..pre })
    &&& r == Ok::<u8, CpuError>(2)
}

/// `MOV.W #imm, Rd`: the immediate word follows the opcode.
pub open spec fn mov_w_imm_post(pre: Cpu, post: Cpu, op: u16, r: Result<u8, CpuError>) -> bool {
    let imm = fetch_word(pre, 0);
    &&& post.er@ == wr_w(pre.er@, nibble(op, 4), imm)
    &&& post.ccr == mov_ccr_w(pre.ccr, imm)
    &&& post.pc == pre.pc + 2
    &&& post == (Cpu { er: post.er, ccr: post.ccr, pc: post.pc, ..pre })
    &&& r == Ok::<u8, CpuError>(4)
}

/// `MOV.W @ERs, Rd` / `MOV.W Rs, @ERd`, told apart by bit 7.
pub open spec fn mov_w_ern_post(pre: Cpu, post: Cpu, op: u16, r: Result<u8, CpuError>) -> bool {
    if op & 0x0080 == 0 {
        let ea = ea_ern(pre.er@, nibble(op, 3));
        if ea % 2 == 0 {
            let v = word_at(pre.bus.memory@, ea);
            &&& post.er@ == wr_w(pre.er@, nibble(op, 4), v)
            &&& post.ccr == mov_ccr_w(pre.ccr, v)
            &&& post == (Cpu { er: post.er, ccr: post.ccr, ..pre })
            &&& r == Ok::<u8, CpuError>(((2 + access_states_of(ea)) as u8))
        } else {
            post == pre && r == Err::<u8, CpuError>((CpuError::MisalignedAccess { address: ea }))
        }
    } else {
        let ea = ea_ern(pre.er@, (nibble(op, 3) & 0x07) as u8);
        let v = rn_w_of(pre.er@, nibble(op, 4));
        if ea % 2 == 0 {
            &&& post.bus.memory@ == word_write(pre.bus.memory@, ea, v)
            &&& post.bus.notes@ == pre.bus.notes@.push(
                (WriteNote { width: AccessWidth::Word, addr: ea, value: v as u32 }),
            )
            &&& post.ccr == mov_ccr_w(pre.ccr, v)
            &&& post == (Cpu { bus: post.bus, ccr: post.ccr, ..pre })
            &&& r == Ok::<u8, CpuError>(((2 + access_states_of(ea)) as u8))
        } else {
            post == pre && r == Err::<u8, CpuError>((CpuError::MisalignedAccess { address: ea }))
        }
    }
}

/// `MOV.W @(d16,ERs), Rd` / `MOV.W Rs, @(d16,ERd)`: the displacement word
/// follows the opcode; bit 7 tells the directions apart.
pub open spec fn mov_w_disp16_post(pre: Cpu, post: Cpu, op: u16, r: Result<u8, CpuError>) -> bool {
    let disp = fetch_word(pre, 0);
    if op & 0x0080 == 0 {
        let ea = ea_disp16(pre.er@, nibble(op, 3), disp);
        if ea % 2 == 0 {
            let v = word_at(pre.bus.memory@, ea);
            &&& post.er@ == wr_w(pre.er@, nibble(op, 4), v)
            &&& post.ccr == mov_ccr_w(pre.ccr, v)
            &&& post.pc == pre.pc + 2
            &&& post == (Cpu { er: post.er, ccr: post.ccr, pc: post.pc, ..pre })
            &&& r == Ok::<u8, CpuError>(((4 + access_states_of(ea)) as u8))
        } else {
            &&& post.pc == pre.pc + 2
            &&& post == (Cpu { pc: post.pc, ..pre })
            &&& r == Err::<u8, CpuError>((CpuError::MisalignedAccess { address: ea }))
        }
    } else {
        let ea = ea_disp16(pre.er@, (nibble(op, 3) & 0x07) as u8, disp);
        let v = rn_w_of(pre.er@, nibble(op, 4));
        if ea % 2 == 0 {
            &&& post.bus.memory@ == word_write(pre.bus.memory@, ea, v)
            &&& post.bus.notes@ == pre.bus.notes@.push(
                (WriteNote { width: AccessWidth::Word, addr: ea, value: v as u32 }),
            )
            &&& post.ccr == mov_ccr_w(pre.ccr, v)
            &&& post.pc == pre.pc + 2
            &&& post == (Cpu { bus: post.bus, ccr: post.ccr, pc: post.pc, ..pre })
            &&& r == Ok::<u8, CpuError>(((4 + access_states_of(ea)) as u8))
        } else {
            &&& post.pc == pre.pc + 2
            &&& post == (Cpu { pc: post.pc, ..pre })
            &&& r == Err::<u8, CpuError>((CpuError::MisalignedAccess { address: ea }))
        }
    }
}

/// `MOV.W @(d24,ERs), Rd` / `MOV.W Rs, @(d24,ERd)` under the `0x78`
/// prefix: two displacement words follow the second opcode word, whose
/// bit 7 (`0x6b20` read, `0x6ba0` write) gives the direction.
pub open spec fn mov_w_disp24_post(
    pre: Cpu,
    post: Cpu,
    op: u16,
    op2: u16,
    r: Result<u8, CpuError>,
) -> bool {
    let disp = (((fetch_word(pre, 0) as u32) << 16) | (fetch_word(pre, 1) as u32)) as u32;
    if op2 & 0xfff0 == 0x6b20 {
        let reg = nibble(op, 3);
        let ea = ea_disp24(pre.er@, reg, disp);
        if reg >= 8 {
            &&& post.pc == pre.pc + 4
            &&& post == (Cpu { pc: post.pc, ..pre })
            &&& r == Err::<u8, CpuError>((CpuError::InvalidRegister { field: reg }))
        } else if ea % 2 == 0 {
            let v = word_at(pre.bus.memory@, ea);
            &&& post.er@ == wr_w(pre.er@, nibble(op2, 4), v)
            &&& post.ccr == mov_ccr_w(pre.ccr, v)
            &&& post.pc == pre.pc + 4
            &&& post == (Cpu { er: post.er, ccr: post.ccr, pc: post.pc, ..pre })
            &&& r == Ok::<u8, CpuError>(((8 + access_states_of(ea)) as u8))
        } else {
            &&& post.pc == pre.pc + 4
            &&& post == (Cpu { pc: post.pc, ..pre })
            &&& r == Err::<u8, CpuError>((CpuError::MisalignedAccess { address: ea }))
        }
    } else if op2 & 0xfff0 == 0x6ba0 {
        let ea = ea_disp24(pre.er@, (nibble(op, 3) & 0x07) as u8, disp);
        let v = rn_w_of(pre.er@, nibble(op2, 4));
        if ea % 2 == 0 {
            &&& post.bus.memory@ == word_write(pre.bus.memory@, ea, v)
            &&& post.bus.notes@ == pre.bus.notes@.push(
                (WriteNote { width: AccessWidth::Word, addr: ea, value: v as u32 }),
            )
            &&& post.ccr == mov_ccr_w(pre.ccr, v)
            &&& post.pc == pre.pc + 4
            &&& post == (Cpu { bus: post.bus, ccr: post.ccr, pc: post.pc, ..pre })
            &&& r == Ok::<u8, CpuError>(((8 + access_states_of(ea)) as u8))
        } else {
            &&& post.pc == pre.pc + 4
            &&& post == (Cpu { pc: post.pc, ..pre })
            &&& r == Err::<u8, CpuError>((CpuError::MisalignedAccess { address: ea }))
        }
    } else {
        &&& post.pc == pre.pc + 4
        &&& post == (Cpu { pc: post.pc, ..pre })
        &&& r == Err::<u8, CpuError>((CpuError::InvalidSecondOpcode { opcode: op, opcode2: op2 }))
    }
}

/// `MOV.W @ERs+, Rd` / `MOV.W Rs, @-ERd`: the access and the register
/// update of the post-increment and pre-decrement modes.
pub open spec fn mov_w_inc_or_dec_post(pre: Cpu, post: Cpu, op: u16, r: Result<u8, CpuError>) -> bool {
    if op & 0x0080 == 0 {
        let reg = nibble(op, 3);
        let ea = ea_ern(pre.er@, reg);
        if ea % 2 == 0 {
            let v = word_at(pre.bus.memory@, ea);
            let bumped = wr_l(pre.er@, reg, rn_l_of(pre.er@, reg).wrapping_add(2));
            &&& post.er@ == wr_w(bumped, nibble(op, 4), v)
            &&& post.ccr == mov_ccr_w(pre.ccr, v)
            &&& post == (Cpu { er: post.er, ccr: post.ccr, ..pre })
            &&& r == Ok::<u8, CpuError>(((4 + access_states_of(ea)) as u8))
        } else {
            post == pre && r == Err::<u8, CpuError>((CpuError::MisalignedAccess { address: ea }))
        }
    } else {
        let reg = (nibble(op, 3) & 0x07) as u8;
        let nv = rn_l_of(pre.er@, reg).wrapping_sub(2);
        let ea = nv & 0xffffff;
        let v = rn_w_of(pre.er@, nibble(op, 4));
        if ea % 2 == 0 {
            &&& post.er@ == wr_l(pre.er@, reg, nv)
            &&& post.bus.memory@ == word_write(pre.bus.memory@, ea, v)
            &&& post.bus.notes@ == pre.bus.notes@.push(
                (WriteNote { width: AccessWidth::Word, addr: ea, value: v as u32 }),
            )
            &&& post.ccr == mov_ccr_w(pre.ccr, v)
            &&& post == (Cpu { er: post.er, bus: post.bus, ccr: post.ccr, ..pre })
            &&& r == Ok::<u8, CpuError>(((4 + access_states_of(ea)) as u8))
        } else {
            &&& post.er@ == wr_l(pre.er@, reg, nv)
            &&& post == (Cpu { er: post.er, ..pre })
            &&& r == Err::<u8, CpuError>((CpuError::MisalignedAccess { address: ea }))
        }
    }
}

/// `MOV.W @aa:16, Rd` / `MOV.W Rs, @aa:16`: the absolute word follows the
/// opcode; bit 7 tells the directions apart.
pub open spec fn mov_w_abs16_post(pre: Cpu, post: Cpu, op: u16, r: Result<u8, CpuError>) -> bool {
    let ea = ea_abs16(fetch_word(pre, 0));
    if op & 0xfff0 == 0x6b00 {
        if ea % 2 == 0 {
            let v = word_at(pre.bus.memory@, ea);
            &&& post.er@ == wr_w(pre.er@, nibble(op, 4), v)
            &&& post.ccr == mov_ccr_w(pre.ccr, v)
            &&& post.pc == pre.pc + 2
            &&& post == (Cpu { er: post.er, ccr: post.ccr, pc: post.pc, ..pre })
            &&& r == Ok::<u8, CpuError>(((4 + access_states_of(ea)) as u8))
        } else {
            &&& post.pc == pre.pc + 2
            &&& post == (Cpu { pc: post.pc, ..pre })
            &&& r == Err::<u8, CpuError>((CpuError::MisalignedAccess { address: ea }))
        }
    } else {
        let v = rn_w_of(pre.er@, nibble(op, 4));
        if ea % 2 == 0 {
            &&& post.bus.memory@ == word_write(pre.bus.memory@, ea, v)
            &&& post.bus.notes@ == pre.bus.notes@.push(
                (WriteNote { width: AccessWidth::Word, addr: ea, value: v as u32 }),
            )
            &&& post.ccr == mov_ccr_w(pre.ccr, v)
            &&& post.pc == pre.pc + 2
            &&& post == (Cpu { bus: post.bus, ccr: post.ccr, pc: post.pc, ..pre })
            &&& r == Ok::<u8, CpuError>(((4 + access_states_of(ea)) as u8))
        } else {
            &&& post.pc == pre.pc + 2
            &&& post == (Cpu { pc: post.pc, ..pre })
            &&& r == Err::<u8, CpuError>((CpuError::MisalignedAccess { address: ea }))
        }
    }
}

/// `MOV.W @aa:24, Rd` / `MOV.W Rs, @aa:24`: two absolute words follow the
/// opcode; bit 7 tells the directions apart.
pub open spec fn mov_w_abs24_post(pre: Cpu, post: Cpu, op: u16, r: Result<u8, CpuError>) -> bool {
    let abs = (((fetch_word(pre, 0) as u32) << 16) | (fetch_word(pre, 1) as u32)) as u32;
    let ea = ea_abs24(abs);
    if op & 0xfff0 == 0x6b20 {
        if ea % 2 == 0 {
            let v = word_at(pre.bus.memory@, ea);
            &&& post.er@ == wr_w(pre.er@, nibble(op, 4), v)
            &&& post.ccr == mov_ccr_w(pre.ccr, v)
            &&& post.pc == pre.pc + 4
            &&& post == (Cpu { er: post.er, ccr: post.ccr, pc: post.pc, ..pre })
            &&& r == Ok::<u8, CpuError>(((6 + access_states_of(ea)) as u8))
        } else {
            &&& post.pc == pre.pc + 4
            &&& post == (Cpu { pc: post.pc, ..pre })
            &&& r == Err::<u8, CpuError>((CpuError::MisalignedAccess { address: ea }))
        }
    } else {
        let v = rn_w_of(pre.er@, nibble(op, 4));
        if ea % 2 == 0 {
            &&& post.bus.memory@ == word_write(pre.bus.memory@, ea, v)
            &&& post.bus.notes@ == pre.bus.notes@.push(
                (WriteNote { width: AccessWidth::Word, addr: ea, value: v as u32 }),
            )
            &&& post.ccr == mov_ccr_w(pre.ccr, v)
            &&& post.pc == pre.pc + 4
            &&& post == (Cpu { bus: post.bus, ccr: post.ccr, pc: post.pc, ..pre })
            &&& r == Ok::<u8, CpuError>(((6 + access_states_of(ea)) as u8))
        } else {
            &&& post.pc == pre.pc + 4
            &&& post == (Cpu { pc: post.pc, ..pre })
            &&& r == Err::<u8, CpuError>((CpuError::MisalignedAccess { address: ea }))
        }
    }
}

/// Any word move except the `0x78`-prefixed 24-bit displacement forms,
/// dispatched on the opcode's high byte.
pub open spec fn mov_w_post(pre: Cpu, post: Cpu, op: u16, r: Result<u8, CpuError>) -> bool {
    let hi = (op >> 8) as u8;
    if hi == 0x0d {
        mov_w_rn_post(pre, post, op, r)
    } else if hi == 0x79 {
        mov_w_imm_post(pre, post, op, r)
    } else if hi == 0x69 {
        mov_w_ern_post(pre, post, op, r)
    } else if hi == 0x6f {
        mov_w_disp16_post(pre, post, op, r)
    } else if hi == 0x6d {
        mov_w_inc_or_dec_post(pre, post, op, r)
    } else if hi == 0x6b {
        if op & 0xfff0 == 0x6b00 || op & 0xfff0 == 0x6b80 {
            mov_w_abs16_post(pre, post, op, r)
        } else if op & 0xfff0 == 0x6b20 || op & 0xfff0 == 0x6ba0 {
            mov_w_abs24_post(pre, post, op, r)
        } else {
            post == pre && r == Err::<u8, CpuError>((CpuError::InvalidOpcode { opcode: op }))
        }
    } else {
        post == pre && r == Err::<u8, CpuError>((CpuError::InvalidOpcode { opcode: op }))
    }
}

impl Cpu {
    /// Dispatch a word move on the opcode's high byte.
    pub fn mov_w(&mut self, opcode: u16) -> (r: Result<u8, CpuError>)
        requires
            old(self).wf(),
            old(self).pc + 4 <= MEMORY_END_ADDR,
        ensures
            final(self).wf(),
            mov_w_post(*old(self), *final(self), opcode, r),
    {
        match (opcode >> 8) as u8 {
            0x0d => self.mov_w_rn(opcode),
            0x79 => self.mov_w_imm(opcode),
            0x69 => self.mov_w_ern(opcode),
            0x6f => self.mov_w_disp16(opcode),
            0x6d => self.mov_w_inc_or_dec(opcode),
            0x6b => match opcode & 0xfff0 {
                0x6b00 | 0x6b80 => self.mov_w_abs16(opcode),
                0x6b20 | 0x6ba0 => self.mov_w_abs24(opcode),
                _ => Err(CpuError::InvalidOpcode { opcode }),
            },
            _ => Err(CpuError::InvalidOpcode { opcode }),
        }
    }

    /// Set N, Z and V for a moved word.
    fn mov_w_proc_pcc(&mut self, src: u16)
        ensures
            final(self).ccr == mov_ccr_w(old(self).ccr, src),
            *final(self) == (Cpu { ccr: final(self).ccr, ..*old(self) }),
    {
        self.change_ccr(CCR::N, src >= 0x8000);
        self.change_ccr(CCR::Z, src == 0);
        self.write_ccr(CCR::V, 0);
    }

    /// `MOV.W Rs, Rd`.
    pub fn mov_w_rn(&mut self, opcode: u16) -> (r: Result<u8, CpuError>)
        requires
            old(self).wf(),
        ensures
            final(self).wf(),
            mov_w_rn_post(*old(self), *final(self), opcode, r),
    {
        let src = match Cpu::get_nibble_opcode(opcode, 3) {
            Ok(v) => v,
            Err(e) => return Err(e),
        };
        let value = match self.read_rn_w(src) {
            Ok(v) => v,
            Err(e) => return Err(e),
        };
        let dst = match Cpu::get_nibble_opcode(opcode, 4) {
            Ok(v) => v,
            Err(e) => return Err(e),
        };
        match self.write_rn_w(dst, value) {
            Ok(_) => {},
            Err(e) => return Err(e),
        };
        self.mov_w_proc_pcc(value);
        Ok(self.calc_state(StateType::I, 1))
    }

    /// `MOV.W #imm, Rd`.
    pub fn mov_w_imm(&mut self, opcode: u16) -> (r: Result<u8, CpuError>)
        requires
            old(self).wf(),
            old(self).pc + 2 <= MEMORY_END_ADDR,
        ensures
            final(self).wf(),
            mov_w_imm_post(*old(self), *final(self), opcode, r),
    {
        let imm = self.fetch();
        let dst = match Cpu::get_nibble_opcode(opcode, 4) {
            Ok(v) => v,
            Err(e) => return Err(e),
        };
        match self.write_rn_w(dst, imm) {
            Ok(_) => {},
            Err(e) => return Err(e),
        };
        self.mov_w_proc_pcc(imm);
        Ok(self.calc_state(StateType::I, 2))
    }

    /// `MOV.W @ERs, Rd` / `MOV.W Rs, @ERd`.
    pub fn mov_w_ern(&mut self, opcode: u16) -> (r: Result<u8, CpuError>)
        requires
            old(self).wf(),
        ensures
            final(self).wf(),
            mov_w_ern_post(*old(self), *final(self), opcode, r),
    {
        if opcode & 0x0080 == 0 {
            let register_ern = match Cpu::get_nibble_opcode(opcode, 3) {
                Ok(v) => v,
                Err(e) => return Err(e),
            };
            let access_addr = match self.get_addr_ern(register_ern) {
                Ok(a) => a,
                Err(e) => return Err(e),
            };
            let value = match self.read_ern_w(register_ern) {
                Ok(v) => v,
                Err(e) => return Err(e),
            };
            let dst = match Cpu::get_nibble_opcode(opcode, 4) {
                Ok(v) => v,
                Err(e) => return Err(e),
            };
            match self.write_rn_w(dst, value) {
                Ok(_) => {},
                Err(e) => return Err(e),
            };
            self.mov_w_proc_pcc(value);
            Ok(
                self.calc_state(StateType::I, 1) + self.calc_state_with_addr(
                    StateType::M,
                    1,
                    access_addr,
                ),
            )
        } else {
            let register_ern = match Cpu::get_nibble_opcode(opcode, 3) {
                Ok(v) => v & 0x07,
                Err(e) => return Err(e),
            };
            let access_addr = match self.get_addr_ern(register_ern) {
                Ok(a) => a,
                Err(e) => return Err(e),
            };
            let src = match Cpu::get_nibble_opcode(opcode, 4) {
                Ok(v) => v,
                Err(e) => return Err(e),
            };
            let value = match self.read_rn_w(src) {
                Ok(v) => v,
                Err(e) => return Err(e),
            };
            match self.write_ern_w(register_ern, value) {
                Ok(_) => {},
                Err(e) => return Err(e),
            };
            self.mov_w_proc_pcc(value);
            Ok(
                self.calc_state(StateType::I, 1) + self.calc_state_with_addr(
                    StateType::M,
                    1,
                    access_addr,
                ),
            )
        }
    }

    /// `MOV.W @(d16,ERs), Rd` / `MOV.W Rs, @(d16,ERd)`.
    pub fn mov_w_disp16(&mut self, opcode: u16) -> (r: Result<u8, CpuError>)
        requires
            old(self).wf(),
            old(self).pc + 2 <= MEMORY_END_ADDR,
        ensures
            final(self).wf(),
            mov_w_disp16_post(*old(self), *final(self), opcode, r),
    {
        let disp = self.fetch();
        if opcode & 0x0080 == 0 {
            let register_ern = match Cpu::get_nibble_opcode(opcode, 3) {
                Ok(v) => v,
                Err(e) => return Err(e),
            };
            let access_addr = match self.get_addr_disp16(register_ern, disp) {
                Ok(a) => a,
                Err(e) => return Err(e),
            };
            let value = match self.read_disp16_ern_w(register_ern, disp) {
                Ok(v) => v,
                Err(e) => return Err(e),
            };
            let dst = match Cpu::get_nibble_opcode(opcode, 4) {
                Ok(v) => v,
                Err(e) => return Err(e),
            };
            match self.write_rn_w(dst, value) {
                Ok(_) => {},
                Err(e) => return Err(e),
            };
            self.mov_w_proc_pcc(value);
            Ok(
                self.calc_state(StateType::I, 2) + self.calc_state_with_addr(
                    StateType::M,
                    1,
                    access_addr,
                ),
            )
        } else {
            let register_ern = match Cpu::get_nibble_opcode(opcode, 3) {
                Ok(v) => v & 0x07,
                Err(e) => return Err(e),
            };
            let access_addr = match self.get_addr_disp16(register_ern, disp) {
                Ok(a) => a,
                Err(e) => return Err(e),
            };
            let src = match Cpu::get_nibble_opcode(opcode, 4) {
                Ok(v) => v,
                Err(e) => return Err(e),
            };
            let value = match self.read_rn_w(src) {
                Ok(v) => v,
                Err(e) => return Err(e),
            };
            match self.write_disp16_ern_w(register_ern, disp, value) {
                Ok(_) => {},
                Err(e) => return Err(e),
            };
            self.mov_w_proc_pcc(value);
            Ok(
                self.calc_state(StateType::I, 2) + self.calc_state_with_addr(
                    StateType::M,
                    1,
                    access_addr,
                ),
            )
        }
    }

    /// `MOV.W @(d24,ERs), Rd` / `MOV.W Rs, @(d24,ERd)` under the `0x78`
    /// prefix; the caller has already fetched the second opcode word.
    pub fn mov_w_disp24(&mut self, opcode: u16, opcode2: u16) -> (r: Result<u8, CpuError>)
        requires
            old(self).wf(),
            old(self).pc + 4 <= MEMORY_END_ADDR,
        ensures
            final(self).wf(),
            mov_w_disp24_post(*old(self), *final(self), opcode, opcode2, r),
    {
        let disp_hi = self.fetch();
        let disp_lo = self.fetch();
        let disp = ((disp_hi as u32) << 16) | (disp_lo as u32);
        if opcode2 & 0xfff0 == 0x6b20 {
            let register_ern = match Cpu::get_nibble_opcode(opcode, 3) {
                Ok(v) => v,
                Err(e) => return Err(e),
            };
            let access_addr = match self.get_addr_disp24(register_ern, disp) {
                Ok(a) => a,
                Err(e) => return Err(e),
            };
            let value = match self.read_disp24_ern_w(register_ern, disp) {
                Ok(v) => v,
                Err(e) => return Err(e),
            };
            let dst = match Cpu::get_nibble_opcode(opcode2, 4) {
                Ok(v) => v,
                Err(e) => return Err(e),
            };
            match self.write_rn_w(dst, value) {
                Ok(_) => {},
                Err(e) => return Err(e),
            };
            self.mov_w_proc_pcc(value);
            Ok(
                self.calc_state(StateType::I, 4) + self.calc_state_with_addr(
                    StateType::M,
                    1,
                    access_addr,
                ),
            )
        } else if opcode2 & 0xfff0 == 0x6ba0 {
            let register_ern = match Cpu::get_nibble_opcode(opcode, 3) {
                Ok(v) => v & 0x07,
                Err(e) => return Err(e),
            };
            let access_addr = match self.get_addr_disp24(register_ern, disp) {
                Ok(a) => a,
                Err(e) => return Err(e),
            };
            let src = match Cpu::get_nibble_opcode(opcode2, 4) {
                Ok(v) => v,
                Err(e) => return Err(e),
            };
            let value = match self.read_rn_w(src) {
                Ok(v) => v,
                Err(e) => return Err(e),
            };
            match self.write_disp24_ern_w(register_ern, disp, value) {
                Ok(_) => {},
                Err(e) => return Err(e),
            };
            self.mov_w_proc_pcc(value);
            Ok(
                self.calc_state(StateType::I, 4) + self.calc_state_with_addr(
                    StateType::M,
                    1,
                    access_addr,
                ),
            )
        } else {
            Err(CpuError::InvalidSecondOpcode { opcode, opcode2 })
        }
    }

    /// `MOV.W @ERs+, Rd` / `MOV.W Rs, @-ERd`.
    pub fn mov_w_inc_or_dec(&mut self, opcode: u16) -> (r: Result<u8, CpuError>)
        requires
            old(self).wf(),
        ensures
            final(self).wf(),
            mov_w_inc_or_dec_post(*old(self), *final(self), opcode, r),
    {
        if opcode & 0x0080 == 0 {
            let register_ern = match Cpu::get_nibble_opcode(opcode, 3) {
                Ok(v) => v,
                Err(e) => return Err(e),
            };
            let access_addr = match self.get_addr_ern(register_ern) {
                Ok(a) => a,
                Err(e) => return Err(e),
            };
            let value = match self.read_inc_ern_w(register_ern) {
                Ok(v) => v,
                Err(e) => return Err(e),
            };
            let dst = match Cpu::get_nibble_opcode(opcode, 4) {
                Ok(v) => v,
                Err(e) => return Err(e),
            };
            match self.write_rn_w(dst, value) {
                Ok(_) => {},
                Err(e) => return Err(e),
            };
            self.mov_w_proc_pcc(value);
            Ok(
                self.calc_state(StateType::I, 1) + self.calc_state_with_addr(
                    StateType::M,
                    1,
                    access_addr,
                ) + self.calc_state(StateType::N, 2),
            )
        } else {
            let register_ern = match Cpu::get_nibble_opcode(opcode, 3) {
                Ok(v) => v & 0x07,
                Err(e) => return Err(e),
            };
            let src = match Cpu::get_nibble_opcode(opcode, 4) {
                Ok(v) => v,
                Err(e) => return Err(e),
            };
            let value = match self.read_rn_w(src) {
                Ok(v) => v,
                Err(e) => return Err(e),
            };
            let x = match self.read_rn_l(register_ern) {
                Ok(v) => v,
                Err(e) => return Err(e),
            };
            let access_addr = x.wrapping_sub(2) & crate::cpu::ADDRESS_MASK;
            match self.write_dec_ern_w(register_ern, value) {
                Ok(_) => {},
                Err(e) => return Err(e),
            };
            self.mov_w_proc_pcc(value);
            Ok(
                self.calc_state(StateType::I, 1) + self.calc_state_with_addr(
                    StateType::M,
                    1,
                    access_addr,
                ) + self.calc_state(StateType::N, 2),
            )
        }
    }

    /// `MOV.W @aa:16, Rd` / `MOV.W Rs, @aa:16`.
    pub fn mov_w_abs16(&mut self, opcode: u16) -> (r: Result<u8, CpuError>)
        requires
            old(self).wf(),
            old(self).pc + 2 <= MEMORY_END_ADDR,
        ensures
            final(self).wf(),
            mov_w_abs16_post(*old(self), *final(self), opcode, r),
    {
        let abs_addr = self.fetch();
        let access_addr = self.get_addr_abs16(abs_addr);
        if opcode & 0xfff0 == 0x6b00 {
            let value = match self.read_abs16_w(abs_addr) {
                Ok(v) => v,
                Err(e) => return Err(e),
            };
            let dst = match Cpu::get_nibble_opcode(opcode, 4) {
                Ok(v) => v,
                Err(e) => return Err(e),
            };
            match self.write_rn_w(dst, value) {
                Ok(_) => {},
                Err(e) => return Err(e),
            };
            self.mov_w_proc_pcc(value);
            Ok(
                self.calc_state(StateType::I, 2) + self.calc_state_with_addr(
                    StateType::M,
                    1,
                    access_addr,
                ),
            )
        } else {
            let src = match Cpu::get_nibble_opcode(opcode, 4) {
                Ok(v) => v,
                Err(e) => return Err(e),
            };
            let value = match self.read_rn_w(src) {
                Ok(v) => v,
                Err(e) => return Err(e),
            };
            match self.write_abs16_w(abs_addr, value) {
                Ok(_) => {},
                Err(e) => return Err(e),
            };
            self.mov_w_proc_pcc(value);
            Ok(
                self.calc_state(StateType::I, 2) + self.calc_state_with_addr(
                    StateType::M,
                    1,
                    access_addr,
                ),
            )
        }
    }

    /// `MOV.W @aa:24, Rd` / `MOV.W Rs, @aa:24`.
    pub fn mov_w_abs24(&mut self, opcode: u16) -> (r: Result<u8, CpuError>)
        requires
            old(self).wf(),
            old(self).pc + 4 <= MEMORY_END_ADDR,
        ensures
            final(self).wf(),
            mov_w_abs24_post(*old(self), *final(self), opcode, r),
    {
        let abs_hi = self.fetch();
        let abs_lo = self.fetch();
        let abs_addr = ((abs_hi as u32) << 16) | (abs_lo as u32);
        let access_addr = abs_addr & crate::cpu::ADDRESS_MASK;
        if opcode & 0xfff0 == 0x6b20 {
            let value = match self.read_abs24_w(abs_addr) {
                Ok(v) => v,
                Err(e) => return Err(e),
            };
            let dst = match Cpu::get_nibble_opcode(opcode, 4) {
                Ok(v) => v,
                Err(e) => return Err(e),
            };
            match self.write_rn_w(dst, value) {
                Ok(_) => {},
                Err(e) => return Err(e),
            };
            self.mov_w_proc_pcc(value);
            Ok(
                self.calc_state(StateType::I, 3) + self.calc_state_with_addr(
                    StateType::M,
                    1,
                    access_addr,
                ),
            )
        } else {
            let src = match Cpu::get_nibble_opcode(opcode, 4) {
                Ok(v) => v,
                Err(e) => return Err(e),
            };
            let value = match self.read_rn_w(src) {
                Ok(v) => v,
                Err(e) => return Err(e),
            };
            match self.write_abs24_w(abs_addr, value) {
                Ok(_) => {},
                Err(e) => return Err(e),
            };
            self.mov_w_proc_pcc(value);
            Ok(
                self.calc_state(StateType::I, 3) + self.calc_state_with_addr(
                    StateType::M,
                    1,
                    access_addr,
                ),
            )
        }
    }
}

} // verus!
