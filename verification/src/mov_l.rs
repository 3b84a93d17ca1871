//! MOV.L: long moves between full registers, memory and immediates.
//! Register selectors for 32-bit operands must have their high bit clear;
//! most variants live under the `0x0100` prefix word. Every variant sets
//! N to the sign of the moved long and Z to whether it is zero, clears V,
//! and leaves C and H unchanged.

use vstd::prelude::*;

use crate::addressing::{ea_abs16, ea_abs24, ea_disp16, ea_disp24, ea_ern};
use crate::bus::{access_states_of, long_at, long_write, AccessWidth, WriteNote, MEMORY_END_ADDR};
use crate::ccr::{with_flag, CCR};
use crate::cpu::{fetch_word, nibble, Cpu, CpuError, StateType};
use crate::regs::{rn_l_of, wr_l};

verus! {

broadcast use
    crate::cpu::lemma_nibble,
    crate::bits::lemma_mask24,
    crate::bits::lemma_sel_low3,
    crate::bits::lemma_abs16_ea,
    crate::bits::lemma_even_mask;

/// The condition code register after a long move of `v`: N tracks the
/// sign bit, Z tracks zero, V is cleared, C and H keep their values.
pub open spec fn mov_ccr_l(c: u8, v: u32) -> u8 {
    with_flag(with_flag(with_flag(c, CCR::N, v >= 0x80000000), CCR::Z, v == 0), CCR::V, false)
}

/// A long loaded into a full register, with the move flags.
pub open spec fn mov_l_load_post(pre: Cpu, post: Cpu, dst: u8, v: u32, pc_step: u32) -> bool {
    &&& post.er@ == wr_l(pre.er@, dst, v)
    &&& post.ccr == mov_ccr_l(pre.ccr, v)
    &&& post.pc == pre.pc + pc_step
    &&& post == (Cpu { er: post.er, ccr: post.ccr, pc: post.pc, ..pre })
}

/// A long stored to memory, with the move flags and one notification.
pub open spec fn mov_l_store_post(pre: Cpu, post: Cpu, ea: u32, v: u32, pc_step: u32) -> bool {
    &&& post.bus.memory@ == long_write(pre.bus.memory@, ea, v)
    &&& post.bus.notes@ == pre.bus.notes@.push(
        (WriteNote { width: AccessWidth::Long, addr: ea, value: v }),
    )
    &&& post.ccr == mov_ccr_l(pre.ccr, v)
    &&& post.pc == pre.pc + pc_step
    &&& post == (Cpu { bus: post.bus, ccr: post.ccr, pc: post.pc, ..pre })
}

/// A decode or selector error that leaves only the program counter
/// moved, by the words already fetched.
pub open spec fn err_pc_post(pre: Cpu, post: Cpu, pc_step: u32) -> bool {
    &&& post.pc == pre.pc + pc_step
    &&& post == (Cpu { pc: post.pc, ..pre })
}

/// `MOV.L ERs, ERd`.
pub open spec fn mov_l_rn_post(pre: Cpu, post: Cpu, op: u16, r: Result<u8, CpuError>) -> bool {
    if op & 0x0080 == 0 {
        post == pre && r == Err::<u8, CpuError>((CpuError::InvalidOpcode { opcode: op }))
    } else {
        let dst = nibble(op, 4);
        let v = rn_l_of(pre.er@, (nibble(op, 3) & 7) as u8);
        if dst >= 8 {
            post == pre && r == Err::<u8, CpuError>((CpuError::InvalidRegister { field: dst }))
        } else {
            &&& mov_l_load_post(pre, post, dst, v, 0)
            &&& r == Ok::<u8, CpuError>(2)
        }
    }
}

/// `MOV.L #imm, ERd`: two immediate words follow the opcode.
pub open spec fn mov_l_imm_post(pre: Cpu, post: Cpu, op: u16, r: Result<u8, CpuError>) -> bool {
    let imm = (((fetch_word(pre, 0) as u32) << 16) | (fetch_word(pre, 1) as u32)) as u32;
    let dst = nibble(op, 4);
    if dst >= 8 {
        &&& err_pc_post(pre, post, 4)
        &&& r == Err::<u8, CpuError>((CpuError::InvalidRegister { field: dst }))
    } else {
        &&& mov_l_load_post(pre, post, dst, imm, 4)
        &&& r == Ok::<u8, CpuError>(6)
    }
}

/// `MOV.L @ERs, ERd` / `MOV.L ERs, @ERd`, told apart by bit 7 of the
/// second opcode word.
pub open spec fn mov_l_ern_post(pre: Cpu, post: Cpu, op2: u16, r: Result<u8, CpuError>) -> bool {
    if op2 & 0x0080 == 0 {
        let ea = ea_ern(pre.er@, nibble(op2, 3));
        let dst = nibble(op2, 4);
        if ea % 2 != 0 {
            post == pre && r == Err::<u8, CpuError>((CpuError::MisalignedAccess { address: ea }))
        } else if dst >= 8 {
            post == pre && r == Err::<u8, CpuError>((CpuError::InvalidRegister { field: dst }))
        } else {
            &&& mov_l_load_post(pre, post, dst, long_at(pre.bus.memory@, ea), 0)
            &&& r == Ok::<u8, CpuError>(((4 + 2 * access_states_of(ea)) as u8))
        }
    } else {
        let ea = ea_ern(pre.er@, (nibble(op2, 3) & 0x07) as u8);
        let src = nibble(op2, 4);
        if src >= 8 {
            post == pre && r == Err::<u8, CpuError>((CpuError::InvalidRegister { field: src }))
        } else if ea % 2 != 0 {
            post == pre && r == Err::<u8, CpuError>((CpuError::MisalignedAccess { address: ea }))
        } else {
            &&& mov_l_store_post(pre, post, ea, rn_l_of(pre.er@, src), 0)
            &&& r == Ok::<u8, CpuError>(((4 + 2 * access_states_of(ea)) as u8))
        }
    }
}

/// `MOV.L @(d16,ERs), ERd` / `MOV.L ERs, @(d16,ERd)`: one displacement
/// word follows the second opcode word.
pub open spec fn mov_l_disp16_post(pre: Cpu, post: Cpu, op2: u16, r: Result<u8, CpuError>) -> bool {
    let disp = fetch_word(pre, 0);
    if op2 & 0x0080 == 0 {
        let ea = ea_disp16(pre.er@, nibble(op2, 3), disp);
        let dst = nibble(op2, 4);
        if ea % 2 != 0 {
            &&& err_pc_post(pre, post, 2)
            &&& r == Err::<u8, CpuError>((CpuError::MisalignedAccess { address: ea }))
        } else if dst >= 8 {
            &&& err_pc_post(pre, post, 2)
            &&& r == Err::<u8, CpuError>((CpuError::InvalidRegister { field: dst }))
        } else {
            &&& mov_l_load_post(pre, post, dst, long_at(pre.bus.memory@, ea), 2)
            &&& r == Ok::<u8, CpuError>(((6 + 2 * access_states_of(ea)) as u8))
        }
    } else {
        let ea = ea_disp16(pre.er@, (nibble(op2, 3) & 0x07) as u8, disp);
        let src = nibble(op2, 4);
        if src >= 8 {
            &&& err_pc_post(pre, post, 2)
            &&& r == Err::<u8, CpuError>((CpuError::InvalidRegister { field: src }))
        } else if ea % 2 != 0 {
            &&& err_pc_post(pre, post, 2)
            &&& r == Err::<u8, CpuError>((CpuError::MisalignedAccess { address: ea }))
        } else {
            &&& mov_l_store_post(pre, post, ea, rn_l_of(pre.er@, src), 2)
            &&& r == Ok::<u8, CpuError>(((6 + 2 * access_states_of(ea)) as u8))
        }
    }
}

/// `MOV.L @(d24,ERs), ERd` / `MOV.L ERs, @(d24,ERd)`: the register word
/// (`0x78`) and the direction word precede two displacement words.
pub open spec fn mov_l_disp24_post(
    pre: Cpu,
    post: Cpu,
    op2: u16,
    op3: u16,
    r: Result<u8, CpuError>,
) -> bool {
    let disp = (((fetch_word(pre, 0) as u32) << 16) | (fetch_word(pre, 1) as u32)) as u32;
    if op3 & 0xfff0 == 0x6b20 {
        let reg = nibble(op2, 3);
        let dst = nibble(op3, 4);
        if reg >= 8 {
            &&& err_pc_post(pre, post, 4)
            &&& r == Err::<u8, CpuError>((CpuError::InvalidRegister { field: reg }))
        } else {
            let ea = ea_disp24(pre.er@, reg, disp);
            if ea % 2 != 0 {
                &&& err_pc_post(pre, post, 4)
                &&& r == Err::<u8, CpuError>((CpuError::MisalignedAccess { address: ea }))
            } else if dst >= 8 {
                &&& err_pc_post(pre, post, 4)
                &&& r == Err::<u8, CpuError>((CpuError::InvalidRegister { field: dst }))
            } else {
                &&& mov_l_load_post(pre, post, dst, long_at(pre.bus.memory@, ea), 4)
                &&& r == Ok::<u8, CpuError>(((10 + 2 * access_states_of(ea)) as u8))
            }
        }
    } else if op3 & 0xfff0 == 0x6ba0 {
        let ea = ea_disp24(pre.er@, (nibble(op2, 3) & 0x07) as u8, disp);
        let src = nibble(op3, 4);
        if src >= 8 {
            &&& err_pc_post(pre, post, 4)
            &&& r == Err::<u8, CpuError>((CpuError::InvalidRegister { field: src }))
        } else if ea % 2 != 0 {
            &&& err_pc_post(pre, post, 4)
            &&& r == Err::<u8, CpuError>((CpuError::MisalignedAccess { address: ea }))
        } else {
            &&& mov_l_store_post(pre, post, ea, rn_l_of(pre.er@, src), 4)
            &&& r == Ok::<u8, CpuError>(((10 + 2 * access_states_of(ea)) as u8))
        }
    } else {
        &&& err_pc_post(pre, post, 4)
        &&& r == Err::<u8, CpuError>((CpuError::InvalidSecondOpcode { opcode: op2, opcode2: op3 }))
    }
}

/// `MOV.L @ERs+, ERd` / `MOV.L ERs, @-ERd`.
pub open spec fn mov_l_inc_or_dec_post(pre: Cpu, post: Cpu, op2: u16, r: Result<u8, CpuError>) -> bool {
    if op2 & 0x0080 == 0 {
        let reg = nibble(op2, 3);
        let ea = ea_ern(pre.er@, reg);
        let dst = nibble(op2, 4);
        if dst >= 8 {
            post == pre && r == Err::<u8, CpuError>((CpuError::InvalidRegister { field: dst }))
        } else if ea % 2 != 0 {
            post == pre && r == Err::<u8, CpuError>((CpuError::MisalignedAccess { address: ea }))
        } else {
            let v = long_at(pre.bus.memory@, ea);
            let bumped = wr_l(pre.er@, reg, rn_l_of(pre.er@, reg).wrapping_add(4));
            &&& post.er@ == wr_l(bumped, dst, v)
            &&& post.ccr == mov_ccr_l(pre.ccr, v)
            &&& post == (Cpu { er: post.er, ccr: post.ccr, ..pre })
            &&& r == Ok::<u8, CpuError>(((6 + 2 * access_states_of(ea)) as u8))
        }
    } else {
        let reg = (nibble(op2, 3) & 0x07) as u8;
        let nv = rn_l_of(pre.er@, reg).wrapping_sub(4);
        let ea = nv & 0xffffff;
        let src = nibble(op2, 4);
        if src >= 8 {
            post == pre && r == Err::<u8, CpuError>((CpuError::InvalidRegister { field: src }))
        } else {
            let v = rn_l_of(pre.er@, src);
            if ea % 2 == 0 {
                &&& post.er@ == wr_l(pre.er@, reg, nv)
                &&& post.bus.memory@ == long_write(pre.bus.memory@, ea, v)
                &&& post.bus.notes@ == pre.bus.notes@.push(
                    (WriteNote { width: AccessWidth::Long, addr: ea, value: v }),
                )
                &&& post.ccr == mov_ccr_l(pre.ccr, v)
                &&& post == (Cpu { er: post.er, bus: post.bus, ccr: post.ccr, ..pre })
                &&& r == Ok::<u8, CpuError>(((6 + 2 * access_states_of(ea)) as u8))
            } else {
                &&& post.er@ == wr_l(pre.er@, reg, nv)
                &&& post == (Cpu { er: post.er, ..pre })
                &&& r == Err::<u8, CpuError>((CpuError::MisalignedAccess { address: ea }))
            }
        }
    }
}

/// `MOV.L @aa:16, ERd` / `MOV.L ERs, @aa:16`.
pub open spec fn mov_l_abs16_post(pre: Cpu, post: Cpu, op2: u16, r: Result<u8, CpuError>) -> bool {
    let ea = ea_abs16(fetch_word(pre, 0));
    if op2 & 0xfff0 == 0x6b00 {
        let dst = nibble(op2, 4);
        if ea % 2 != 0 {
            &&& err_pc_post(pre, post, 2)
            &&& r == Err::<u8, CpuError>((CpuError::MisalignedAccess { address: ea }))
        } else if dst >= 8 {
            &&& err_pc_post(pre, post, 2)
            &&& r == Err::<u8, CpuError>((CpuError::InvalidRegister { field: dst }))
        } else {
            &&& mov_l_load_post(pre, post, dst, long_at(pre.bus.memory@, ea), 2)
            &&& r == Ok::<u8, CpuError>(((6 + 2 * access_states_of(ea)) as u8))
        }
    } else {
        let src = nibble(op2, 4);
        if src >= 8 {
            &&& err_pc_post(pre, post, 2)
            &&& r == Err::<u8, CpuError>((CpuError::InvalidRegister { field: src }))
        } else if ea % 2 != 0 {
            &&& err_pc_post(pre, post, 2)
            &&& r == Err::<u8, CpuError>((CpuError::MisalignedAccess { address: ea }))
        } else {
            &&& mov_l_store_post(pre, post, ea, rn_l_of(pre.er@, src), 2)
            &&& r == Ok::<u8, CpuError>(((6 + 2 * access_states_of(ea)) as u8))
        }
    }
}

/// `MOV.L @aa:24, ERd` / `MOV.L ERs, @aa:24`.
pub open spec fn mov_l_abs24_post(pre: Cpu, post: Cpu, op2: u16, r: Result<u8, CpuError>) -> bool {
    let abs = (((fetch_word(pre, 0) as u32) << 16) | (fetch_word(pre, 1) as u32)) as u32;
    let ea = ea_abs24(abs);
    if op2 & 0xfff0 == 0x6b20 {
        let dst = nibble(op2, 4);
        if ea % 2 != 0 {
            &&& err_pc_post(pre, post, 4)
            &&& r == Err::<u8, CpuError>((CpuError::MisalignedAccess { address: ea }))
        } else if dst >= 8 {
            &&& err_pc_post(pre, post, 4)
            &&& r == Err::<u8, CpuError>((CpuError::InvalidRegister { field: dst }))
        } else {
            &&& mov_l_load_post(pre, post, dst, long_at(pre.bus.memory@, ea), 4)
            &&& r == Ok::<u8, CpuError>(((8 + 2 * access_states_of(ea)) as u8))
        }
    } else {
        let src = nibble(op2, 4);
        if src >= 8 {
            &&& err_pc_post(pre, post, 4)
            &&& r == Err::<u8, CpuError>((CpuError::InvalidRegister { field: src }))
        } else if ea % 2 != 0 {
            &&& err_pc_post(pre, post, 4)
            &&& r == Err::<u8, CpuError>((CpuError::MisalignedAccess { address: ea }))
        } else {
            &&& mov_l_store_post(pre, post, ea, rn_l_of(pre.er@, src), 4)
            &&& r == Ok::<u8, CpuError>(((8 + 2 * access_states_of(ea)) as u8))
        }
    }
}

/// Any long move: the register and immediate forms stand alone; the rest
/// live under the `0x0100` prefix word, the 24-bit displacement forms
/// under a further `0x78` word.
pub open spec fn mov_l_post(pre: Cpu, post: Cpu, op: u16, r: Result<u8, CpuError>) -> bool {
    let hi = (op >> 8) as u8;
    if hi == 0x0f {
        mov_l_rn_post(pre, post, op, r)
    } else if hi == 0x7a {
        mov_l_imm_post(pre, post, op, r)
    } else if hi == 0x01 {
        if op != 0x0100 {
            post == pre && r == Err::<u8, CpuError>((CpuError::InvalidOpcode { opcode: op }))
        } else {
            let op2 = fetch_word(pre, 0);
            let mid = (Cpu { pc: (pre.pc + 2) as u32, ..pre });
            let hi2 = (op2 >> 8) as u8;
            if hi2 == 0x69 {
                mov_l_ern_post(mid, post, op2, r)
            } else if hi2 == 0x6f {
                mov_l_disp16_post(mid, post, op2, r)
            } else if hi2 == 0x6d {
                mov_l_inc_or_dec_post(mid, post, op2, r)
            } else if hi2 == 0x6b {
                if op2 & 0xfff0 == 0x6b00 || op2 & 0xfff0 == 0x6b80 {
                    mov_l_abs16_post(mid, post, op2, r)
                } else if op2 & 0xfff0 == 0x6b20 || op2 & 0xfff0 == 0x6ba0 {
                    mov_l_abs24_post(mid, post, op2, r)
                } else {
                    post == mid && r == Err::<u8, CpuError>(
                        (CpuError::InvalidSecondOpcode { opcode: op, opcode2: op2 }),
                    )
                }
            } else if hi2 == 0x78 {
                let op3 = fetch_word(pre, 1);
                let mid2 = (Cpu { pc: (pre.pc + 4) as u32, ..pre });
                mov_l_disp24_post(mid2, post, op2, op3, r)
            } else {
                post == mid && r == Err::<u8, CpuError>(
                    (CpuError::InvalidSecondOpcode { opcode: op, opcode2: op2 }),
                )
            }
        }
    } else {
        post == pre && r == Err::<u8, CpuError>((CpuError::InvalidOpcode { opcode: op }))
    }
}

impl Cpu {
    /// Dispatch a long move.
    pub fn mov_l(&mut self, opcode: u16) -> (r: Result<u8, CpuError>)
        requires
            old(self).wf(),
            old(self).pc + 8 <= MEMORY_END_ADDR,
        ensures
            final(self).wf(),
            mov_l_post(*old(self), *final(self), opcode, r),
    {
        match (opcode >> 8) as u8 {
            0x0f => self.mov_l_rn(opcode),
            0x7a => self.mov_l_imm(opcode),
            0x01 => {
                if opcode != 0x0100 {
                    return Err(CpuError::InvalidOpcode { opcode });
                }
                let opcode2 = self.fetch();
                match (opcode2 >> 8) as u8 {
                    0x69 => self.mov_l_ern(opcode2),
                    0x6f => self.mov_l_disp16(opcode2),
                    0x6d => self.mov_l_inc_or_dec(opcode2),
                    0x6b => match opcode2 & 0xfff0 {
                        0x6b00 | 0x6b80 | 0x6b20 | 0x6ba0 => self.mov_l_abs_16_or_24(opcode2),
                        _ => Err(CpuError::InvalidSecondOpcode { opcode, opcode2 }),
                    },
                    0x78 => {
                        let opcode3 = self.fetch();
                        self.mov_l_disp24(opcode2, opcode3)
                    },
                    _ => Err(CpuError::InvalidSecondOpcode { opcode, opcode2 }),
                }
            },
            _ => Err(CpuError::InvalidOpcode { opcode }),
        }
    }

    /// Set N, Z and V for a moved long.
    fn mov_l_proc_pcc(&mut self, src: u32)
        ensures
            final(self).ccr == mov_ccr_l(old(self).ccr, src),
            *final(self) == (Cpu { ccr: final(self).ccr, ..*old(self) }),
    {
        self.change_ccr(CCR::N, src >= 0x80000000);
        self.change_ccr(CCR::Z, src == 0);
        self.write_ccr(CCR::V, 0);
    }

    /// `MOV.L ERs, ERd`.
    pub fn mov_l_rn(&mut self, opcode: u16) -> (r: Result<u8, CpuError>)
        requires
            old(self).wf(),
        ensures
            final(self).wf(),
            mov_l_rn_post(*old(self), *final(self), opcode, r),
    {
        if opcode & 0x0080 == 0 {
            return Err(CpuError::InvalidOpcode { opcode });
        }
        let src = match Cpu::get_nibble_opcode(opcode, 3) {
            Ok(v) => v,
            Err(e) => return Err(e),
        };
        let value = match self.read_rn_l(src & 7) {
            Ok(v) => v,
            Err(e) => return Err(e),
        };
        let dst = match Cpu::get_nibble_opcode(opcode, 4) {
            Ok(v) => v,
            Err(e) => return Err(e),
        };
        match self.write_rn_l(dst, value) {
            Ok(_) => {},
            Err(e) => return Err(e),
        };
        self.mov_l_proc_pcc(value);
        Ok(self.calc_state(StateType::I, 1))
    }

    /// `MOV.L #imm, ERd`.
    pub fn mov_l_imm(&mut self, opcode: u16) -> (r: Result<u8, CpuError>)
        requires
            old(self).wf(),
            old(self).pc + 4 <= MEMORY_END_ADDR,
        ensures
            final(self).wf(),
            mov_l_imm_post(*old(self), *final(self), opcode, r),
    {
        let imm_hi = self.fetch();
        let imm_lo = self.fetch();
        let value = ((imm_hi as u32) << 16) | (imm_lo as u32);
        let dst = match Cpu::get_nibble_opcode(opcode, 4) {
            Ok(v) => v,
            Err(e) => return Err(e),
        };
        match self.write_rn_l(dst, value) {
            Ok(_) => {},
            Err(e) => return Err(e),
        };
        self.mov_l_proc_pcc(value);
        Ok(self.calc_state(StateType::I, 3))
    }

    /// `MOV.L @ERs, ERd` / `MOV.L ERs, @ERd`.
    pub fn mov_l_ern(&mut self, opcode2: u16) -> (r: Result<u8, CpuError>)
        requires
            old(self).wf(),
        ensures
            final(self).wf(),
            mov_l_ern_post(*old(self), *final(self), opcode2, r),
    {
        if opcode2 & 0x0080 == 0 {
            let register_ern = match Cpu::get_nibble_opcode(opcode2, 3) {
            Ok(v) => v,
            Err(e) => return Err(e),
        };
            let access_addr = match self.get_addr_ern(register_ern) {
            Ok(a) => a,
            Err(e) => return Err(e),
        };
            let value = match self.read_ern_l(register_ern) {
            Ok(v) => v,
            Err(e) => return Err(e),
        };
            let dst = match Cpu::get_nibble_opcode(opcode2, 4) {
            Ok(v) => v,
            Err(e) => return Err(e),
        };
            match self.write_rn_l(dst, value) {
            Ok(_) => {},
            Err(e) => return Err(e),
        };
            self.mov_l_proc_pcc(value);
            Ok(
                self.calc_state(StateType::I, 2) + self.calc_state_with_addr(
                    StateType::M,
                    2,
                    access_addr,
                ),
            )
        } else {
            let register_ern = match Cpu::get_nibble_opcode(opcode2, 3) {
            Ok(v) => v & 0x07,
            Err(e) => return Err(e),
        };
            let access_addr = match self.get_addr_ern(register_ern) {
            Ok(a) => a,
            Err(e) => return Err(e),
        };
            let src = match Cpu::get_nibble_opcode(opcode2, 4) {
            Ok(v) => v,
            Err(e) => return Err(e),
        };
            let value = match self.read_rn_l(src) {
            Ok(v) => v,
            Err(e) => return Err(e),
        };
            match self.write_ern_l(register_ern, value) {
            Ok(_) => {},
            Err(e) => return Err(e),
        };
            self.mov_l_proc_pcc(value);
            Ok(
                self.calc_state(StateType::I, 2) + self.calc_state_with_addr(
                    StateType::M,
                    2,
                    access_addr,
                ),
            )
        }
    }

    /// `MOV.L @(d16,ERs), ERd` / `MOV.L ERs, @(d16,ERd)`.
    pub fn mov_l_disp16(&mut self, opcode2: u16) -> (r: Result<u8, CpuError>)
        requires
            old(self).wf(),
            old(self).pc + 2 <= MEMORY_END_ADDR,
        ensures
            final(self).wf(),
            mov_l_disp16_post(*old(self), *final(self), opcode2, r),
    {
        let disp = self.fetch();
        if opcode2 & 0x0080 == 0 {
            let register_ern = match Cpu::get_nibble_opcode(opcode2, 3) {
            Ok(v) => v,
            Err(e) => return Err(e),
        };
            let access_addr = match self.get_addr_disp16(register_ern, disp) {
            Ok(a) => a,
            Err(e) => return Err(e),
        };
            let value = match self.read_disp16_ern_l(register_ern, disp) {
            Ok(v) => v,
            Err(e) => return Err(e),
        };
            let dst = match Cpu::get_nibble_opcode(opcode2, 4) {
            Ok(v) => v,
            Err(e) => return Err(e),
        };
            match self.write_rn_l(dst, value) {
            Ok(_) => {},
            Err(e) => return Err(e),
        };
            self.mov_l_proc_pcc(value);
            Ok(
                self.calc_state(StateType::I, 3) + self.calc_state_with_addr(
                    StateType::M,
                    2,
                    access_addr,
                ),
            )
        } else {
            let register_ern = match Cpu::get_nibble_opcode(opcode2, 3) {
            Ok(v) => v & 0x07,
            Err(e) => return Err(e),
        };
            let access_addr = match self.get_addr_disp16(register_ern, disp) {
            Ok(a) => a,
            Err(e) => return Err(e),
        };
            let src = match Cpu::get_nibble_opcode(opcode2, 4) {
            Ok(v) => v,
            Err(e) => return Err(e),
        };
            let value = match self.read_rn_l(src) {
            Ok(v) => v,
            Err(e) => return Err(e),
        };
            match self.write_disp16_ern_l(register_ern, disp, value) {
            Ok(_) => {},
            Err(e) => return Err(e),
        };
            self.mov_l_proc_pcc(value);
            Ok(
                self.calc_state(StateType::I, 3) + self.calc_state_with_addr(
                    StateType::M,
                    2,
                    access_addr,
                ),
            )
        }
    }

    /// `MOV.L @(d24,ERs), ERd` / `MOV.L ERs, @(d24,ERd)`; the caller has
    /// fetched the register word and the direction word.
    pub fn mov_l_disp24(&mut self, opcode2: u16, opcode3: u16) -> (r: Result<u8, CpuError>)
        requires
            old(self).wf(),
            old(self).pc + 4 <= MEMORY_END_ADDR,
        ensures
            final(self).wf(),
            mov_l_disp24_post(*old(self), *final(self), opcode2, opcode3, r),
    {
        let disp_hi = self.fetch();
        let disp_lo = self.fetch();
        let disp = ((disp_hi as u32) << 16) | (disp_lo as u32);
        if opcode3 & 0xfff0 == 0x6b20 {
            let register_ern = match Cpu::get_nibble_opcode(opcode2, 3) {
            Ok(v) => v,
            Err(e) => return Err(e),
        };
            let access_addr = match self.get_addr_disp24(register_ern, disp) {
            Ok(a) => a,
            Err(e) => return Err(e),
        };
            let value = match self.read_disp24_ern_l(register_ern, disp) {
            Ok(v) => v,
            Err(e) => return Err(e),
        };
            let dst = match Cpu::get_nibble_opcode(opcode3, 4) {
            Ok(v) => v,
            Err(e) => return Err(e),
        };
            match self.write_rn_l(dst, value) {
            Ok(_) => {},
            Err(e) => return Err(e),
        };
            self.mov_l_proc_pcc(value);
            Ok(
                self.calc_state(StateType::I, 5) + self.calc_state_with_addr(
                    StateType::M,
                    2,
                    access_addr,
                ),
            )
        } else if opcode3 & 0xfff0 == 0x6ba0 {
            let register_ern = match Cpu::get_nibble_opcode(opcode2, 3) {
            Ok(v) => v & 0x07,
            Err(e) => return Err(e),
        };
            let access_addr = match self.get_addr_disp24(register_ern, disp) {
            Ok(a) => a,
            Err(e) => return Err(e),
        };
            let src = match Cpu::get_nibble_opcode(opcode3, 4) {
            Ok(v) => v,
            Err(e) => return Err(e),
        };
            let value = match self.read_rn_l(src) {
            Ok(v) => v,
            Err(e) => return Err(e),
        };
            match self.write_disp24_ern_l(register_ern, disp, value) {
            Ok(_) => {},
            Err(e) => return Err(e),
        };
            self.mov_l_proc_pcc(value);
            Ok(
                self.calc_state(StateType::I, 5) + self.calc_state_with_addr(
                    StateType::M,
                    2,
                    access_addr,
                ),
            )
        } else {
            Err(CpuError::InvalidSecondOpcode { opcode: opcode2, opcode2: opcode3 })
        }
    }

    /// `MOV.L @ERs+, ERd` / `MOV.L ERs, @-ERd`.
    pub fn mov_l_inc_or_dec(&mut self, opcode2: u16) -> (r: Result<u8, CpuError>)
        requires
            old(self).wf(),
        ensures
            final(self).wf(),
            mov_l_inc_or_dec_post(*old(self), *final(self), opcode2, r),
    {
        if opcode2 & 0x0080 == 0 {
            let dst = match Cpu::get_nibble_opcode(opcode2, 4) {
            Ok(v) => v,
            Err(e) => return Err(e),
        };
            if dst >= 8 {
                return Err(CpuError::InvalidRegister { field: dst });
            }
            let register_ern = match Cpu::get_nibble_opcode(opcode2, 3) {
            Ok(v) => v,
            Err(e) => return Err(e),
        };
            let access_addr = match self.get_addr_ern(register_ern) {
            Ok(a) => a,
            Err(e) => return Err(e),
        };
            let value = match self.read_inc_ern_l(register_ern) {
            Ok(v) => v,
            Err(e) => return Err(e),
        };
            match self.write_rn_l(dst, value) {
            Ok(_) => {},
            Err(e) => return Err(e),
        };
            self.mov_l_proc_pcc(value);
            Ok(
                self.calc_state(StateType::I, 2) + self.calc_state_with_addr(
                    StateType::M,
                    2,
                    access_addr,
                ) + self.calc_state(StateType::N, 2),
            )
        } else {
            let register_ern = match Cpu::get_nibble_opcode(opcode2, 3) {
            Ok(v) => v & 0x07,
            Err(e) => return Err(e),
        };
            let src = match Cpu::get_nibble_opcode(opcode2, 4) {
            Ok(v) => v,
            Err(e) => return Err(e),
        };
            let value = match self.read_rn_l(src) {
            Ok(v) => v,
            Err(e) => return Err(e),
        };
            let x = match self.read_rn_l(register_ern) {
            Ok(v) => v,
            Err(e) => return Err(e),
        };
            let access_addr = x.wrapping_sub(4) & crate::cpu::ADDRESS_MASK;
            match self.write_dec_ern_l(register_ern, value) {
            Ok(_) => {},
            Err(e) => return Err(e),
        };
            self.mov_l_proc_pcc(value);
            Ok(
                self.calc_state(StateType::I, 2) + self.calc_state_with_addr(
                    StateType::M,
                    2,
                    access_addr,
                ) + self.calc_state(StateType::N, 2),
            )
        }
    }

    /// `MOV.L` through a 16- or 24-bit absolute address.
    pub fn mov_l_abs_16_or_24(&mut self, opcode2: u16) -> (r: Result<u8, CpuError>)
        requires
            old(self).wf(),
            old(self).pc + 4 <= MEMORY_END_ADDR,
        ensures
            final(self).wf(),
            (if opcode2 & 0xfff0 == 0x6b00 || opcode2 & 0xfff0 == 0x6b80 {
                mov_l_abs16_post(*old(self), *final(self), opcode2, r)
            } else if opcode2 & 0xfff0 == 0x6b20 || opcode2 & 0xfff0 == 0x6ba0 {
                mov_l_abs24_post(*old(self), *final(self), opcode2, r)
            } else {
                *final(self) == *old(self) && r == Err::<u8, CpuError>(
                    (CpuError::InvalidOpcode { opcode: opcode2 }),
                )
            }),
    {
        match opcode2 & 0xfff0 {
            0x6b00 | 0x6b80 => self.mov_l_abs16(opcode2),
            0x6b20 | 0x6ba0 => self.mov_l_abs24(opcode2),
            _ => Err(CpuError::InvalidOpcode { opcode: opcode2 }),
        }
    }

    /// `MOV.L @aa:16, ERd` / `MOV.L ERs, @aa:16`.
    pub fn mov_l_abs16(&mut self, opcode2: u16) -> (r: Result<u8, CpuError>)
        requires
            old(self).wf(),
            old(self).pc + 2 <= MEMORY_END_ADDR,
        ensures
            final(self).wf(),
            mov_l_abs16_post(*old(self), *final(self), opcode2, r),
    {
        let abs_addr = self.fetch();
        let access_addr = self.get_addr_abs16(abs_addr);
        if opcode2 & 0xfff0 == 0x6b00 {
            let value = match self.read_abs16_l(abs_addr) {
            Ok(v) => v,
            Err(e) => return Err(e),
        };
            let dst = match Cpu::get_nibble_opcode(opcode2, 4) {
            Ok(v) => v,
            Err(e) => return Err(e),
        };
            match self.write_rn_l(dst, value) {
            Ok(_) => {},
            Err(e) => return Err(e),
        };
            self.mov_l_proc_pcc(value);
            Ok(
                self.calc_state(StateType::I, 3) + self.calc_state_with_addr(
                    StateType::M,
                    2,
                    access_addr,
                ),
            )
        } else {
            let src = match Cpu::get_nibble_opcode(opcode2, 4) {
            Ok(v) => v,
            Err(e) => return Err(e),
        };
            let value = match self.read_rn_l(src) {
            Ok(v) => v,
            Err(e) => return Err(e),
        };
            match self.write_abs16_l(abs_addr, value) {
            Ok(_) => {},
            Err(e) => return Err(e),
        };
            self.mov_l_proc_pcc(value);
            Ok(
                self.calc_state(StateType::I, 3) + self.calc_state_with_addr(
                    StateType::M,
                    2,
                    access_addr,
                ),
            )
        }
    }

    /// `MOV.L @aa:24, ERd` / `MOV.L ERs, @aa:24`.
    pub fn mov_l_abs24(&mut self, opcode2: u16) -> (r: Result<u8, CpuError>)
        requires
            old(self).wf(),
            old(self).pc + 4 <= MEMORY_END_ADDR,
        ensures
            final(self).wf(),
            mov_l_abs24_post(*old(self), *final(self), opcode2, r),
    {
        let abs_hi = self.fetch();
        let abs_lo = self.fetch();
        let abs_addr = ((abs_hi as u32) << 16) | (abs_lo as u32);
        let access_addr = abs_addr & crate::cpu::ADDRESS_MASK;
        if opcode2 & 0xfff0 == 0x6b20 {
            let value = match self.read_abs24_l(abs_addr) {
            Ok(v) => v,
            Err(e) => return Err(e),
        };
            let dst = match Cpu::get_nibble_opcode(opcode2, 4) {
            Ok(v) => v,
            Err(e) => return Err(e),
        };
            match self.write_rn_l(dst, value) {
            Ok(_) => {},
            Err(e) => return Err(e),
        };
            self.mov_l_proc_pcc(value);
            Ok(
                self.calc_state(StateType::I, 4) + self.calc_state_with_addr(
                    StateType::M,
                    2,
                    access_addr,
                ),
            )
        } else {
            let src = match Cpu::get_nibble_opcode(opcode2, 4) {
            Ok(v) => v,
            Err(e) => return Err(e),
        };
            let value = match self.read_rn_l(src) {
            Ok(v) => v,
            Err(e) => return Err(e),
        };
            match self.write_abs24_l(abs_addr, value) {
            Ok(_) => {},
            Err(e) => return Err(e),
        };
            self.mov_l_proc_pcc(value);
            Ok(
                self.calc_state(StateType::I, 4) + self.calc_state_with_addr(
                    StateType::M,
                    2,
                    access_addr,
                ),
            )
        }
    }
}

} // verus!
