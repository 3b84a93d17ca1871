//! MOV.B: byte moves between registers, memory and immediates. Every
//! variant loads the moved byte into its destination, sets N to the sign
//! of the byte and Z to whether it is zero, clears V, and leaves C and H
//! unchanged. Byte accesses never fault on alignment.

use vstd::prelude::*;

use crate::addressing::{ea_abs16, ea_abs24, ea_abs8, ea_disp16, ea_disp24, ea_ern};
use crate::bus::{access_states_of, AccessWidth, WriteNote, MEMORY_END_ADDR};
use crate::ccr::{with_flag, CCR};
use crate::cpu::{fetch_word, nibble, Cpu, CpuError, StateType};
use crate::regs::{rn_b_of, rn_l_of, wr_b, wr_l};

verus! {

broadcast use
    crate::cpu::lemma_nibble,
    crate::bits::lemma_mask24,
    crate::bits::lemma_sel_low3,
    crate::bits::lemma_abs8_ea,
    crate::bits::lemma_abs16_ea,
    crate::bits::lemma_even_mask;

/// The condition code register after a byte move of `v`: N tracks the
/// sign bit, Z tracks zero, V is cleared, C and H keep their values.
pub open spec fn mov_ccr_b(c: u8, v: u8) -> u8 {
    with_flag(with_flag(with_flag(c, CCR::N, v >= 0x80), CCR::Z, v == 0), CCR::V, false)
}

/// A byte read into a register view, with the move flags.
pub open spec fn mov_b_load_post(pre: Cpu, post: Cpu, dst: u8, v: u8, pc_step: u32) -> bool {
    &&& post.er@ == wr_b(pre.er@, dst, v)
    &&& post.ccr == mov_ccr_b(pre.ccr, v)
    &&& post.pc == pre.pc + pc_step
    &&& post == (Cpu { er: post.er, ccr: post.ccr, pc: post.pc, ..pre })
}

/// A byte written to memory, with the move flags and one notification.
pub open spec fn mov_b_store_post(pre: Cpu, post: Cpu, ea: u32, v: u8, pc_step: u32) -> bool {
    &&& post.bus.memory@ == pre.bus.memory@.update(ea as int, v)
    &&& post.bus.notes@ == pre.bus.notes@.push(
        (WriteNote { width: AccessWidth::Byte, addr: ea, value: v as u32 }),
    )
    &&& post.ccr == mov_ccr_b(pre.ccr, v)
    &&& post.pc == pre.pc + pc_step
    &&& post == (Cpu { bus: post.bus, ccr: post.ccr, pc: post.pc, ..pre })
}

/// `MOV.B Rs, Rd` (register to register).
pub open spec fn mov_b_rn_post(pre: Cpu, post: Cpu, op: u16, r: Result<u8, CpuError>) -> bool {
    let v = rn_b_of(pre.er@, nibble(op, 3));
    &&& mov_b_load_post(pre, post, nibble(op, 4), v, 0)
    &&& r == Ok::<u8, CpuError>(2)
}

/// `MOV.B #imm, Rd`: the immediate is the opcode's low byte.
pub open spec fn mov_b_imm_post(pre: Cpu, post: Cpu, op: u16, r: Result<u8, CpuError>) -> bool {
    &&& mov_b_load_post(pre, post, nibble(op, 2), op as u8, 0)
    &&& r == Ok::<u8, CpuError>(2)
}

/// `MOV.B @ERs, Rd` / `MOV.B Rs, @ERd`, told apart by bit 7.
pub open spec fn mov_b_ern_post(pre: Cpu, post: Cpu, op: u16, r: Result<u8, CpuError>) -> bool {
    if op & 0x0080 == 0 {
        let ea = ea_ern(pre.er@, nibble(op, 3));
        let v = pre.bus.memory@[ea as int];
        &&& mov_b_load_post(pre, post, nibble(op, 4), v, 0)
        &&& r == Ok::<u8, CpuError>(((2 + access_states_of(ea)) as u8))
    } else {
        let ea = ea_ern(pre.er@, (nibble(op, 3) & 0x07) as u8);
        let v = rn_b_of(pre.er@, nibble(op, 4));
        &&& mov_b_store_post(pre, post, ea, v, 0)
        &&& r == Ok::<u8, CpuError>(((2 + access_states_of(ea)) as u8))
    }
}

/// `MOV.B @(d16,ERs), Rd` / `MOV.B Rs, @(d16,ERd)`: the displacement word
/// follows the opcode.
pub open spec fn mov_b_disp16_post(pre: Cpu, post: Cpu, op: u16, r: Result<u8, CpuError>) -> bool {
    let disp = fetch_word(pre, 0);
    if op & 0x0080 == 0 {
        let ea = ea_disp16(pre.er@, nibble(op, 3), disp);
        let v = pre.bus.memory@[ea as int];
        &&& mov_b_load_post(pre, post, nibble(op, 4), v, 2)
        &&& r == Ok::<u8, CpuError>(((4 + access_states_of(ea)) as u8))
    } else {
        let ea = ea_disp16(pre.er@, (nibble(op, 3) & 0x07) as u8, disp);
        let v = rn_b_of(pre.er@, nibble(op, 4));
        &&& mov_b_store_post(pre, post, ea, v, 2)
        &&& r == Ok::<u8, CpuError>(((4 + access_states_of(ea)) as u8))
    }
}

/// `MOV.B @(d24,ERs), Rd` / `MOV.B Rs, @(d24,ERd)` under the `0x78`
/// prefix: two displacement words follow the second opcode word
/// (`0x6a20` read, `0x6aa0` write).
pub open spec fn mov_b_disp24_post(
    pre: Cpu,
    post: Cpu,
    op: u16,
    op2: u16,
    r: Result<u8, CpuError>,
) -> bool {
    let disp = (((fetch_word(pre, 0) as u32) << 16) | (fetch_word(pre, 1) as u32)) as u32;
    if op2 & 0xfff0 == 0x6a20 {
        let reg = nibble(op, 3);
        let ea = ea_disp24(pre.er@, reg, disp);
        if reg >= 8 {
            &&& post.pc == pre.pc + 4
            &&& post == (Cpu { pc: post.pc, ..pre })
            &&& r == Err::<u8, CpuError>((CpuError::InvalidRegister { field: reg }))
        } else {
            let v = pre.bus.memory@[ea as int];
            &&& mov_b_load_post(pre, post, nibble(op2, 4), v, 4)
            &&& r == Ok::<u8, CpuError>(((8 + access_states_of(ea)) as u8))
        }
    } else if op2 & 0xfff0 == 0x6aa0 {
        let ea = ea_disp24(pre.er@, (nibble(op, 3) & 0x07) as u8, disp);
        let v = rn_b_of(pre.er@, nibble(op2, 4));
        &&& mov_b_store_post(pre, post, ea, v, 4)
        &&& r == Ok::<u8, CpuError>(((8 + access_states_of(ea)) as u8))
    } else {
        &&& post.pc == pre.pc + 4
        &&& post == (Cpu { pc: post.pc, ..pre })
        &&& r == Err::<u8, CpuError>((CpuError::InvalidSecondOpcode { opcode: op, opcode2: op2 }))
    }
}

/// `MOV.B @ERs+, Rd` / `MOV.B Rs, @-ERd`.
pub open spec fn mov_b_inc_or_dec_post(pre: Cpu, post: Cpu, op: u16, r: Result<u8, CpuError>) -> bool {
    if op & 0x0080 == 0 {
        let reg = nibble(op, 3);
        let ea = ea_ern(pre.er@, reg);
        let v = pre.bus.memory@[ea as int];
        let bumped = wr_l(pre.er@, reg, rn_l_of(pre.er@, reg).wrapping_add(1));
        &&& post.er@ == wr_b(bumped, nibble(op, 4), v)
        &&& post.ccr == mov_ccr_b(pre.ccr, v)
        &&& post == (Cpu { er: post.er, ccr: post.ccr, ..pre })
        &&& r == Ok::<u8, CpuError>(((4 + access_states_of(ea)) as u8))
    } else {
        let reg = (nibble(op, 3) & 0x07) as u8;
        let nv = rn_l_of(pre.er@, reg).wrapping_sub(1);
        let ea = nv & 0xffffff;
        let v = rn_b_of(pre.er@, nibble(op, 4));
        &&& post.er@ == wr_l(pre.er@, reg, nv)
        &&& post.bus.memory@ == pre.bus.memory@.update(ea as int, v)
        &&& post.bus.notes@ == pre.bus.notes@.push(
            (WriteNote { width: AccessWidth::Byte, addr: ea, value: v as u32 }),
        )
        &&& post.ccr == mov_ccr_b(pre.ccr, v)
        &&& post == (Cpu { er: post.er, bus: post.bus, ccr: post.ccr, ..pre })
        &&& r == Ok::<u8, CpuError>(((4 + access_states_of(ea)) as u8))
    }
}

/// `MOV.B @aa:8, Rd` / `MOV.B Rs, @aa:8`: the low opcode byte is the
/// address; high nibble `0x2` reads, `0x3` writes.
pub open spec fn mov_b_abs8_post(pre: Cpu, post: Cpu, op: u16, r: Result<u8, CpuError>) -> bool {
    let ea = ea_abs8(op as u8);
    if op & 0xf000 == 0x2000 {
        let v = pre.bus.memory@[ea as int];
        &&& mov_b_load_post(pre, post, nibble(op, 2), v, 0)
        &&& r == Ok::<u8, CpuError>(((2 + access_states_of(ea)) as u8))
    } else {
        let v = rn_b_of(pre.er@, nibble(op, 2));
        &&& mov_b_store_post(pre, post, ea, v, 0)
        &&& r == Ok::<u8, CpuError>(((2 + access_states_of(ea)) as u8))
    }
}

/// `MOV.B @aa:16, Rd` / `MOV.B Rs, @aa:16`: the absolute word follows the
/// opcode; bit 7 tells the directions apart.
pub open spec fn mov_b_abs16_post(pre: Cpu, post: Cpu, op: u16, r: Result<u8, CpuError>) -> bool {
    let ea = ea_abs16(fetch_word(pre, 0));
    if op & 0xfff0 == 0x6a00 {
        let v = pre.bus.memory@[ea as int];
        &&& mov_b_load_post(pre, post, nibble(op, 4), v, 2)
        &&& r == Ok::<u8, CpuError>(((4 + access_states_of(ea)) as u8))
    } else {
        let v = rn_b_of(pre.er@, nibble(op, 4));
        &&& mov_b_store_post(pre, post, ea, v, 2)
        &&& r == Ok::<u8, CpuError>(((4 + access_states_of(ea)) as u8))
    }
}

/// `MOV.B @aa:24, Rd` / `MOV.B Rs, @aa:24`: two absolute words follow the
/// opcode; bit 7 tells the directions apart.
pub open spec fn mov_b_abs24_post(pre: Cpu, post: Cpu, op: u16, r: Result<u8, CpuError>) -> bool {
    let abs = (((fetch_word(pre, 0) as u32) << 16) | (fetch_word(pre, 1) as u32)) as u32;
    let ea = ea_abs24(abs);
    if op & 0xfff0 == 0x6a20 {
        let v = pre.bus.memory@[ea as int];
        &&& mov_b_load_post(pre, post, nibble(op, 4), v, 4)
        &&& r == Ok::<u8, CpuError>(((6 + access_states_of(ea)) as u8))
    } else {
        let v = rn_b_of(pre.er@, nibble(op, 4));
        &&& mov_b_store_post(pre, post, ea, v, 4)
        &&& r == Ok::<u8, CpuError>(((6 + access_states_of(ea)) as u8))
    }
}

/// Any byte move except the `0x78`-prefixed 24-bit displacement forms,
/// dispatched on the opcode's high byte.
pub open spec fn mov_b_post(pre: Cpu, post: Cpu, op: u16, r: Result<u8, CpuError>) -> bool {
    let hi = (op >> 8) as u8;
    if hi == 0x0c {
        mov_b_rn_post(pre, post, op, r)
    } else if 0xf0 <= hi && hi <= 0xf7 {
        mov_b_imm_post(pre, post, op, r)
    } else if hi == 0x68 {
        mov_b_ern_post(pre, post, op, r)
    } else if hi == 0x6e {
        mov_b_disp16_post(pre, post, op, r)
    } else if hi == 0x6c {
        mov_b_inc_or_dec_post(pre, post, op, r)
    } else if (0x20 <= hi && hi <= 0x27) || (0x30 <= hi && hi <= 0x37) {
        mov_b_abs8_post(pre, post, op, r)
    } else if hi == 0x6a {
        if op & 0xfff0 == 0x6a00 || op & 0xfff0 == 0x6a80 {
            mov_b_abs16_post(pre, post, op, r)
        } else if op & 0xfff0 == 0x6a20 || op & 0xfff0 == 0x6aa0 {
            mov_b_abs24_post(pre, post, op, r)
        } else {
            post == pre && r == Err::<u8, CpuError>((CpuError::InvalidOpcode { opcode: op }))
        }
    } else {
        post == pre && r == Err::<u8, CpuError>((CpuError::InvalidOpcode { opcode: op }))
    }
}

impl Cpu {
    /// Dispatch a byte move on the opcode's high byte.
    pub fn mov_b(&mut self, opcode: u16) -> (r: Result<u8, CpuError>)
        requires
            old(self).wf(),
            old(self).pc + 4 <= MEMORY_END_ADDR,
        ensures
            final(self).wf(),
            mov_b_post(*old(self), *final(self), opcode, r),
    {
        match (opcode >> 8) as u8 {
            0x0c => self.mov_b_rn(opcode),
            0xf0..=0xf7 => self.mov_b_imm(opcode),
            0x68 => self.mov_b_ern(opcode),
            0x6e => self.mov_b_disp16(opcode),
            0x6c => self.mov_b_inc_or_dec(opcode),
            0x20..=0x27 | 0x30..=0x37 => self.mov_b_abs8(opcode),
            0x6a => self.mov_b_abs_16_or_24(opcode),
            _ => Err(CpuError::InvalidOpcode { opcode }),
        }
    }

    /// Set N, Z and V for a moved byte.
    fn mov_b_proc_pcc(&mut self, src: u8)
        ensures
            final(self).ccr == mov_ccr_b(old(self).ccr, src),
            *final(self) == (Cpu { ccr: final(self).ccr, ..*old(self) }),
    {
        self.change_ccr(CCR::N, src >= 0x80);
        self.change_ccr(CCR::Z, src == 0);
        self.write_ccr(CCR::V, 0);
    }

    /// `MOV.B Rs, Rd`.
    pub fn mov_b_rn(&mut self, opcode: u16) -> (r: Result<u8, CpuError>)
        requires
            old(self).wf(),
        ensures
            final(self).wf(),
            mov_b_rn_post(*old(self), *final(self), opcode, r),
    {
        let src = match Cpu::get_nibble_opcode(opcode, 3) {
            Ok(v) => v,
            Err(e) => return Err(e),
        };
        let value = match self.read_rn_b(src) {
            Ok(v) => v,
            Err(e) => return Err(e),
        };
        let dst = match Cpu::get_nibble_opcode(opcode, 4) {
            Ok(v) => v,
            Err(e) => return Err(e),
        };
        match self.write_rn_b(dst, value) {
            Ok(_) => {},
            Err(e) => return Err(e),
        };
        self.mov_b_proc_pcc(value);
        Ok(self.calc_state(StateType::I, 1))
    }

    /// `MOV.B #imm, Rd`: the immediate is the opcode's low byte.
    pub fn mov_b_imm(&mut self, opcode: u16) -> (r: Result<u8, CpuError>)
        requires
            old(self).wf(),
        ensures
            final(self).wf(),
            mov_b_imm_post(*old(self), *final(self), opcode, r),
    {
        let dst = match Cpu::get_nibble_opcode(opcode, 2) {
            Ok(v) => v,
            Err(e) => return Err(e),
        };
        match self.write_rn_b(dst, opcode as u8) {
            Ok(_) => {},
            Err(e) => return Err(e),
        };
        self.mov_b_proc_pcc(opcode as u8);
        Ok(self.calc_state(StateType::I, 1))
    }

    /// `MOV.B @ERs, Rd` / `MOV.B Rs, @ERd`.
    pub fn mov_b_ern(&mut self, opcode: u16) -> (r: Result<u8, CpuError>)
        requires
            old(self).wf(),
        ensures
            final(self).wf(),
            mov_b_ern_post(*old(self), *final(self), opcode, r),
    {
        if opcode & 0x0080 == 0 {
            let register_ern = match Cpu::get_nibble_opcode(opcode, 3) {
                Ok(v) => v,
                Err(e) => return Err(e),
            };
            let access_addr = match self.get_addr_ern(register_ern) {
                Ok(a) => a,
                Err(e) => return Err(e),
            };
            let value = match self.read_ern_b(register_ern) {
                Ok(v) => v,
                Err(e) => return Err(e),
            };
            let dst = match Cpu::get_nibble_opcode(opcode, 4) {
                Ok(v) => v,
                Err(e) => return Err(e),
            };
            match self.write_rn_b(dst, value) {
                Ok(_) => {},
                Err(e) => return Err(e),
            };
            self.mov_b_proc_pcc(value);
            Ok(
                self.calc_state(StateType::I, 1) + self.calc_state_with_addr(
                    StateType::M,
                    1,
                    access_addr,
                ),
            )
        } else {
            let register_ern = match Cpu::get_nibble_opcode(opcode, 3) {
                Ok(v) => v & 0x07,
                Err(e) => return Err(e),
            };
            let access_addr = match self.get_addr_ern(register_ern) {
                Ok(a) => a,
                Err(e) => return Err(e),
            };
            let src = match Cpu::get_nibble_opcode(opcode, 4) {
                Ok(v) => v,
                Err(e) => return Err(e),
            };
            let value = match self.read_rn_b(src) {
                Ok(v) => v,
                Err(e) => return Err(e),
            };
            match self.write_ern_b(register_ern, value) {
                Ok(_) => {},
                Err(e) => return Err(e),
            };
            self.mov_b_proc_pcc(value);
            Ok(
                self.calc_state(StateType::I, 1) + self.calc_state_with_addr(
                    StateType::M,
                    1,
                    access_addr,
                ),
            )
        }
    }

    /// `MOV.B @(d16,ERs), Rd` / `MOV.B Rs, @(d16,ERd)`.
    pub fn mov_b_disp16(&mut self, opcode: u16) -> (r: Result<u8, CpuError>)
        requires
            old(self).wf(),
            old(self).pc + 2 <= MEMORY_END_ADDR,
        ensures
            final(self).wf(),
            mov_b_disp16_post(*old(self), *final(self), opcode, r),
    {
        let disp = self.fetch();
        if opcode & 0x0080 == 0 {
            let register_ern = match Cpu::get_nibble_opcode(opcode, 3) {
                Ok(v) => v,
                Err(e) => return Err(e),
            };
            let access_addr = match self.get_addr_disp16(register_ern, disp) {
                Ok(a) => a,
                Err(e) => return Err(e),
            };
            let value = match self.read_disp16_ern_b(register_ern, disp) {
                Ok(v) => v,
                Err(e) => return Err(e),
            };
            let dst = match Cpu::get_nibble_opcode(opcode, 4) {
                Ok(v) => v,
                Err(e) => return Err(e),
            };
            match self.write_rn_b(dst, value) {
                Ok(_) => {},
                Err(e) => return Err(e),
            };
            self.mov_b_proc_pcc(value);
            Ok(
                self.calc_state(StateType::I, 2) + self.calc_state_with_addr(
                    StateType::M,
                    1,
                    access_addr,
                ),
            )
        } else {
            let register_ern = match Cpu::get_nibble_opcode(opcode, 3) {
                Ok(v) => v & 0x07,
                Err(e) => return Err(e),
            };
            let access_addr = match self.get_addr_disp16(register_ern, disp) {
                Ok(a) => a,
                Err(e) => return Err(e),
            };
            let src = match Cpu::get_nibble_opcode(opcode, 4) {
                Ok(v) => v,
                Err(e) => return Err(e),
            };
            let value = match self.read_rn_b(src) {
                Ok(v) => v,
                Err(e) => return Err(e),
            };
            match self.write_disp16_ern_b(register_ern, disp, value) {
                Ok(_) => {},
                Err(e) => return Err(e),
            };
            self.mov_b_proc_pcc(value);
            Ok(
                self.calc_state(StateType::I, 2) + self.calc_state_with_addr(
                    StateType::M,
                    1,
                    access_addr,
                ),
            )
        }
    }

    /// `MOV.B @(d24,ERs), Rd` / `MOV.B Rs, @(d24,ERd)` under the `0x78`
    /// prefix; the caller has already fetched the second opcode word.
    pub fn mov_b_disp24(&mut self, opcode: u16, opcode2: u16) -> (r: Result<u8, CpuError>)
        requires
            old(self).wf(),
            old(self).pc + 4 <= MEMORY_END_ADDR,
        ensures
            final(self).wf(),
            mov_b_disp24_post(*old(self), *final(self), opcode, opcode2, r),
    {
        let disp_hi = self.fetch();
        let disp_lo = self.fetch();
        let disp = ((disp_hi as u32) << 16) | (disp_lo as u32);
        if opcode2 & 0xfff0 == 0x6a20 {
            let register_ern = match Cpu::get_nibble_opcode(opcode, 3) {
                Ok(v) => v,
                Err(e) => return Err(e),
            };
            let access_addr = match self.get_addr_disp24(register_ern, disp) {
                Ok(a) => a,
                Err(e) => return Err(e),
            };
            let value = match self.read_disp24_ern_b(register_ern, disp) {
                Ok(v) => v,
                Err(e) => return Err(e),
            };
            let dst = match Cpu::get_nibble_opcode(opcode2, 4) {
                Ok(v) => v,
                Err(e) => return Err(e),
            };
            match self.write_rn_b(dst, value) {
                Ok(_) => {},
                Err(e) => return Err(e),
            };
            self.mov_b_proc_pcc(value);
            Ok(
                self.calc_state(StateType::I, 4) + self.calc_state_with_addr(
                    StateType::M,
                    1,
                    access_addr,
                ),
            )
        } else if opcode2 & 0xfff0 == 0x6aa0 {
            let register_ern = match Cpu::get_nibble_opcode(opcode, 3) {
                Ok(v) => v & 0x07,
                Err(e) => return Err(e),
            };
            let access_addr = match self.get_addr_disp24(register_ern, disp) {
                Ok(a) => a,
                Err(e) => return Err(e),
            };
            let src = match Cpu::get_nibble_opcode(opcode2, 4) {
                Ok(v) => v,
                Err(e) => return Err(e),
            };
            let value = match self.read_rn_b(src) {
                Ok(v) => v,
                Err(e) => return Err(e),
            };
            match self.write_disp24_ern_b(register_ern, disp, value) {
                Ok(_) => {},
                Err(e) => return Err(e),
            };
            self.mov_b_proc_pcc(value);
            Ok(
                self.calc_state(StateType::I, 4) + self.calc_state_with_addr(
                    StateType::M,
                    1,
                    access_addr,
                ),
            )
        } else {
            Err(CpuError::InvalidSecondOpcode { opcode, opcode2 })
        }
    }

    /// `MOV.B @ERs+, Rd` / `MOV.B Rs, @-ERd`.
    pub fn mov_b_inc_or_dec(&mut self, opcode: u16) -> (r: Result<u8, CpuError>)
        requires
            old(self).wf(),
        ensures
            final(self).wf(),
            mov_b_inc_or_dec_post(*old(self), *final(self), opcode, r),
    {
        if opcode & 0x0080 == 0 {
            let register_ern = match Cpu::get_nibble_opcode(opcode, 3) {
                Ok(v) => v,
                Err(e) => return Err(e),
            };
            let access_addr = match self.get_addr_ern(register_ern) {
                Ok(a) => a,
                Err(e) => return Err(e),
            };
            let value = match self.read_inc_ern_b(register_ern) {
                Ok(v) => v,
                Err(e) => return Err(e),
            };
            let dst = match Cpu::get_nibble_opcode(opcode, 4) {
                Ok(v) => v,
                Err(e) => return Err(e),
            };
            match self.write_rn_b(dst, value) {
                Ok(_) => {},
                Err(e) => return Err(e),
            };
            self.mov_b_proc_pcc(value);
            Ok(
                self.calc_state(StateType::I, 1) + self.calc_state_with_addr(
                    StateType::M,
                    1,
                    access_addr,
                ) + self.calc_state(StateType::N, 2),
            )
        } else {
            let register_ern = match Cpu::get_nibble_opcode(opcode, 3) {
                Ok(v) => v & 0x07,
                Err(e) => return Err(e),
            };
            let src = match Cpu::get_nibble_opcode(opcode, 4) {
                Ok(v) => v,
                Err(e) => return Err(e),
            };
            let value = match self.read_rn_b(src) {
                Ok(v) => v,
                Err(e) => return Err(e),
            };
            let x = match self.read_rn_l(register_ern) {
                Ok(v) => v,
                Err(e) => return Err(e),
            };
            let access_addr = x.wrapping_sub(1) & crate::cpu::ADDRESS_MASK;
            match self.write_dec_ern_b(register_ern, value) {
                Ok(_) => {},
                Err(e) => return Err(e),
            };
            self.mov_b_proc_pcc(value);
            Ok(
                self.calc_state(StateType::I, 1) + self.calc_state_with_addr(
                    StateType::M,
                    1,
                    access_addr,
                ) + self.calc_state(StateType::N, 2),
            )
        }
    }

    /// `MOV.B @aa:8, Rd` / `MOV.B Rs, @aa:8`.
    pub fn mov_b_abs8(&mut self, opcode: u16) -> (r: Result<u8, CpuError>)
        requires
            old(self).wf(),
        ensures
            final(self).wf(),
            mov_b_abs8_post(*old(self), *final(self), opcode, r),
    {
        let abs_addr = opcode as u8;
        let access_addr = 0xffff00u32 | (abs_addr as u32);
        if opcode & 0xf000 == 0x2000 {
            let value = match self.read_abs8_b(abs_addr) {
                Ok(v) => v,
                Err(e) => return Err(e),
            };
            let dst = match Cpu::get_nibble_opcode(opcode, 2) {
                Ok(v) => v,
                Err(e) => return Err(e),
            };
            match self.write_rn_b(dst, value) {
                Ok(_) => {},
                Err(e) => return Err(e),
            };
            self.mov_b_proc_pcc(value);
            Ok(
                self.calc_state(StateType::I, 1) + self.calc_state_with_addr(
                    StateType::M,
                    1,
                    access_addr,
                ),
            )
        } else {
            let src = match Cpu::get_nibble_opcode(opcode, 2) {
                Ok(v) => v,
                Err(e) => return Err(e),
            };
            let value = match self.read_rn_b(src) {
                Ok(v) => v,
                Err(e) => return Err(e),
            };
            match self.write_abs8_b(abs_addr, value) {
                Ok(_) => {},
                Err(e) => return Err(e),
            };
            self.mov_b_proc_pcc(value);
            Ok(
                self.calc_state(StateType::I, 1) + self.calc_state_with_addr(
                    StateType::M,
                    1,
                    access_addr,
                ),
            )
        }
    }

    /// `MOV.B` through a 16- or 24-bit absolute address, told apart by
    /// bit 5 of the opcode's low byte.
    pub fn mov_b_abs_16_or_24(&mut self, opcode: u16) -> (r: Result<u8, CpuError>)
        requires
            old(self).wf(),
            old(self).pc + 4 <= MEMORY_END_ADDR,
        ensures
            final(self).wf(),
            (if opcode & 0xfff0 == 0x6a00 || opcode & 0xfff0 == 0x6a80 {
                mov_b_abs16_post(*old(self), *final(self), opcode, r)
            } else if opcode & 0xfff0 == 0x6a20 || opcode & 0xfff0 == 0x6aa0 {
                mov_b_abs24_post(*old(self), *final(self), opcode, r)
            } else {
                *final(self) == *old(self) && r == Err::<u8, CpuError>(
                    (CpuError::InvalidOpcode { opcode }),
                )
            }),
    {
        match opcode & 0xfff0 {
            0x6a00 | 0x6a80 => self.mov_b_abs16(opcode),
            0x6a20 | 0x6aa0 => self.mov_b_abs24(opcode),
            _ => Err(CpuError::InvalidOpcode { opcode }),
        }
    }

    /// `MOV.B @aa:16, Rd` / `MOV.B Rs, @aa:16`.
    pub fn mov_b_abs16(&mut self, opcode: u16) -> (r: Result<u8, CpuError>)
        requires
            old(self).wf(),
            old(self).pc + 2 <= MEMORY_END_ADDR,
        ensures
            final(self).wf(),
            mov_b_abs16_post(*old(self), *final(self), opcode, r),
    {
        let abs_addr = self.fetch();
        let access_addr = self.get_addr_abs16(abs_addr);
        if opcode & 0xfff0 == 0x6a00 {
            let value = match self.read_abs16_b(abs_addr) {
                Ok(v) => v,
                Err(e) => return Err(e),
            };
            let dst = match Cpu::get_nibble_opcode(opcode, 4) {
                Ok(v) => v,
                Err(e) => return Err(e),
            };
            match self.write_rn_b(dst, value) {
                Ok(_) => {},
                Err(e) => return Err(e),
            };
            self.mov_b_proc_pcc(value);
            Ok(
                self.calc_state(StateType::I, 2) + self.calc_state_with_addr(
                    StateType::M,
                    1,
                    access_addr,
                ),
            )
        } else {
            let src = match Cpu::get_nibble_opcode(opcode, 4) {
                Ok(v) => v,
                Err(e) => return Err(e),
            };
            let value = match self.read_rn_b(src) {
                Ok(v) => v,
                Err(e) => return Err(e),
            };
            match self.write_abs16_b(abs_addr, value) {
                Ok(_) => {},
                Err(e) => return Err(e),
            };
            self.mov_b_proc_pcc(value);
            Ok(
                self.calc_state(StateType::I, 2) + self.calc_state_with_addr(
                    StateType::M,
                    1,
                    access_addr,
                ),
            )
        }
    }

    /// `MOV.B @aa:24, Rd` / `MOV.B Rs, @aa:24`.
    pub fn mov_b_abs24(&mut self, opcode: u16) -> (r: Result<u8, CpuError>)
        requires
            old(self).wf(),
            old(self).pc + 4 <= MEMORY_END_ADDR,
        ensures
            final(self).wf(),
            mov_b_abs24_post(*old(self), *final(self), opcode, r),
    {
        let abs_hi = self.fetch();
        let abs_lo = self.fetch();
        let abs_addr = ((abs_hi as u32) << 16) | (abs_lo as u32);
        let access_addr = abs_addr & crate::cpu::ADDRESS_MASK;
        if opcode & 0xfff0 == 0x6a20 {
            let value = match self.read_abs24_b(abs_addr) {
                Ok(v) => v,
                Err(e) => return Err(e),
            };
            let dst = match Cpu::get_nibble_opcode(opcode, 4) {
                Ok(v) => v,
                Err(e) => return Err(e),
            };
            match self.write_rn_b(dst, value) {
                Ok(_) => {},
                Err(e) => return Err(e),
            };
            self.mov_b_proc_pcc(value);
            Ok(
                self.calc_state(StateType::I, 3) + self.calc_state_with_addr(
                    StateType::M,
                    1,
                    access_addr,
                ),
            )
        } else {
            let src = match Cpu::get_nibble_opcode(opcode, 4) {
                Ok(v) => v,
                Err(e) => return Err(e),
            };
            let value = match self.read_rn_b(src) {
                Ok(v) => v,
                Err(e) => return Err(e),
            };
            match self.write_abs24_b(abs_addr, value) {
                Ok(_) => {},
                Err(e) => return Err(e),
            };
            self.mov_b_proc_pcc(value);
            Ok(
                self.calc_state(StateType::I, 3) + self.calc_state_with_addr(
                    StateType::M,
                    1,
                    access_addr,
                ),
            )
        }
    }
}

} // verus!
