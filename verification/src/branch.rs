//! Control flow: conditional branches, jumps, and the subroutine call
//! and return pair. Displacements are sign-extended and applied to the
//! program counter after the instruction's words have been fetched; JSR
//! pushes the 24-bit return address through `@-ER7` and RTS pops it
//! through `@ER7+`.

use vstd::prelude::*;

use crate::addressing::{ea_ern, sx16};
use crate::bus::{access_states_of, long_at, long_write, AccessWidth, WriteNote, MEMORY_END_ADDR};
use crate::ccr::{flag_of, CCR};
use crate::cpu::{fetch_word, nibble, Cpu, CpuError, StateType, ADDRESS_MASK};
use crate::regs::{rn_l_of, wr_l};

verus! {

broadcast use
    crate::cpu::lemma_nibble,
    crate::bits::lemma_mask24,
    crate::bits::lemma_sel_low3,
    crate::bits::lemma_even_mask;

/// An 8-bit displacement sign-extended to 32 bits.
pub open spec fn sx8(d: u8) -> u32 {
    if d & 0x80 != 0 {
        0xffffff00u32 | (d as u32)
    } else {
        d as u32
    }
}

/// Whether the branch condition named by the low nibble of a Bcc opcode
/// holds under the given condition code register.
pub open spec fn bcc_cond(cond: u8, ccr: u8) -> bool {
    let cf = flag_of(ccr, CCR::C) == 1;
    let vf = flag_of(ccr, CCR::V) == 1;
    let zf = flag_of(ccr, CCR::Z) == 1;
    let nf = flag_of(ccr, CCR::N) == 1;
    if cond == 0x0 {
        true
    } else if cond == 0x1 {
        false
    } else if cond == 0x2 {
        !(cf || zf)
    } else if cond == 0x3 {
        cf || zf
    } else if cond == 0x4 {
        !cf
    } else if cond == 0x5 {
        cf
    } else if cond == 0x6 {
        !zf
    } else if cond == 0x7 {
        zf
    } else if cond == 0x8 {
        !vf
    } else if cond == 0x9 {
        vf
    } else if cond == 0xa {
        !nf
    } else if cond == 0xb {
        nf
    } else if cond == 0xc {
        nf == vf
    } else if cond == 0xd {
        nf != vf
    } else if cond == 0xe {
        !(zf || (nf != vf))
    } else {
        zf || (nf != vf)
    }
}

/// `Bcc d:8` / `Bcc d:16`: the branch is taken exactly when its condition
/// holds; the displacement counts from the address after the last
/// instruction word.
pub open spec fn bcc_post(pre: Cpu, post: Cpu, op: u16, r: Result<u8, CpuError>) -> bool {
    let hi = (op >> 8) as u8;
    if hi == 0x58 {
        if nibble(op, 4) != 0 {
            post == pre && r == Err::<u8, CpuError>((CpuError::InvalidOpcode { opcode: op }))
        } else {
            let disp = fetch_word(pre, 0);
            let taken = bcc_cond(nibble(op, 3), pre.ccr);
            let base = (pre.pc + 2) as u32;
            &&& post.pc == (if taken {
                base.wrapping_add(sx16(disp))
            } else {
                base
            })
            &&& post == (Cpu { pc: post.pc, ..pre })
            &&& r == Ok::<u8, CpuError>(6)
        }
    } else {
        let taken = bcc_cond(nibble(op, 2), pre.ccr);
        &&& post.pc == (if taken {
            pre.pc.wrapping_add(sx8(op as u8))
        } else {
            pre.pc
        })
        &&& post == (Cpu { pc: post.pc, ..pre })
        &&& r == Ok::<u8, CpuError>(4)
    }
}

/// `JMP @ERn` / `JMP @aa:24` / `JMP @@aa:8`: the program counter moves to
/// the 24-bit target; the memory-indirect form reads a long vector from
/// the zero page.
pub open spec fn jmp_post(pre: Cpu, post: Cpu, op: u16, r: Result<u8, CpuError>) -> bool {
    let hi = (op >> 8) as u8;
    if hi == 0x59 {
        let reg = nibble(op, 3);
        if reg >= 8 {
            post == pre && r == Err::<u8, CpuError>((CpuError::InvalidRegister { field: reg }))
        } else {
            &&& post.pc == ea_ern(pre.er@, reg)
            &&& post == (Cpu { pc: post.pc, ..pre })
            &&& r == Ok::<u8, CpuError>(4)
        }
    } else if hi == 0x5a {
        let target = ((((op as u8) as u32) << 16) | (fetch_word(pre, 0) as u32)) as u32;
        &&& post.pc == target
        &&& post == (Cpu { pc: post.pc, ..pre })
        &&& r == Ok::<u8, CpuError>(6)
    } else {
        let vea = (op as u8) as u32;
        if vea % 2 != 0 {
            post == pre && r == Err::<u8, CpuError>((CpuError::MisalignedAccess { address: vea }))
        } else {
            &&& post.pc == long_at(pre.bus.memory@, vea) & 0xffffff
            &&& post == (Cpu { pc: post.pc, ..pre })
            &&& r == Ok::<u8, CpuError>(((4 + 2 * access_states_of(vea) + 2) as u8))
        }
    }
}

/// The 24-bit return address pushed onto the stack and the stack pointer
/// after a push: ER7 shrinks by four and the return address is stored as
/// a long at the new top of stack.
pub open spec fn jsr_push_post(
    pre: Cpu,
    post: Cpu,
    ret: u32,
    target: u32,
    states: u8,
    r: Result<u8, CpuError>,
) -> bool {
    let nv = rn_l_of(pre.er@, 7).wrapping_sub(4);
    let ea = nv & 0xffffff;
    if ea % 2 == 0 {
        &&& post.er@ == wr_l(pre.er@, 7, nv)
        &&& post.bus.memory@ == long_write(pre.bus.memory@, ea, ret & 0xffffff)
        &&& post.bus.notes@ == pre.bus.notes@.push(
            (WriteNote { width: AccessWidth::Long, addr: ea, value: ret & 0xffffff }),
        )
        &&& post.pc == target
        &&& post == (Cpu { er: post.er, bus: post.bus, pc: post.pc, ..pre })
        &&& r == Ok::<u8, CpuError>(states)
    } else {
        &&& post.er@ == wr_l(pre.er@, 7, nv)
        &&& post == (Cpu { er: post.er, ..pre })
        &&& r == Err::<u8, CpuError>((CpuError::MisalignedAccess { address: ea }))
    }
}

/// `JSR @ERn` / `JSR @aa:24` / `JSR @@aa:8`: the return address is the
/// address after the instruction; it is pushed through `@-ER7` before the
/// program counter moves to the target.
pub open spec fn jsr_post(pre: Cpu, post: Cpu, op: u16, r: Result<u8, CpuError>) -> bool {
    let hi = (op >> 8) as u8;
    if hi == 0x5d {
        let reg = nibble(op, 3);
        if reg >= 8 {
            post == pre && r == Err::<u8, CpuError>((CpuError::InvalidRegister { field: reg }))
        } else {
            let nv = rn_l_of(pre.er@, 7).wrapping_sub(4);
            let ea = nv & 0xffffff;
            jsr_push_post(
                pre,
                post,
                pre.pc,
                ea_ern(pre.er@, reg),
                ((4 + 2 * access_states_of(ea)) as u8),
                r,
            )
        }
    } else if hi == 0x5e {
        let target = ((((op as u8) as u32) << 16) | (fetch_word(pre, 0) as u32)) as u32;
        let mid = (Cpu { pc: (pre.pc + 2) as u32, ..pre });
        let nv = rn_l_of(pre.er@, 7).wrapping_sub(4);
        let ea = nv & 0xffffff;
        jsr_push_post(mid, post, (pre.pc + 2) as u32, target, ((6 + 2 * access_states_of(ea)) as u8), r)
    } else {
        let vea = (op as u8) as u32;
        if vea % 2 != 0 {
            post == pre && r == Err::<u8, CpuError>((CpuError::MisalignedAccess { address: vea }))
        } else {
            let target = long_at(pre.bus.memory@, vea) & 0xffffff;
            let nv = rn_l_of(pre.er@, 7).wrapping_sub(4);
            let ea = nv & 0xffffff;
            jsr_push_post(
                pre,
                post,
                pre.pc,
                target,
                ((4 + 2 * access_states_of(vea) + 2 * access_states_of(ea)) as u8),
                r,
            )
        }
    }
}

/// `RTS`: the 24-bit return address is popped through `@ER7+` into the
/// program counter.
pub open spec fn rts_post(pre: Cpu, post: Cpu, r: Result<u8, CpuError>) -> bool {
    let ea = ea_ern(pre.er@, 7);
    if ea % 2 == 0 {
        &&& post.er@ == wr_l(pre.er@, 7, rn_l_of(pre.er@, 7).wrapping_add(4))
        &&& post.pc == long_at(pre.bus.memory@, ea) & 0xffffff
        &&& post == (Cpu { er: post.er, pc: post.pc, ..pre })
        &&& r == Ok::<u8, CpuError>(((4 + 2 * access_states_of(ea) + 2) as u8))
    } else {
        post == pre && r == Err::<u8, CpuError>((CpuError::MisalignedAccess { address: ea }))
    }
}

impl Cpu {
    /// Whether the branch condition named by `cond` holds now.
    fn bcc_cond_holds(&self, cond: u8) -> (t: bool)
        ensures
            t == bcc_cond(cond, self.ccr),
    {
        let cf = self.read_ccr(CCR::C) == 1;
        let vf = self.read_ccr(CCR::V) == 1;
        let zf = self.read_ccr(CCR::Z) == 1;
        let nf = self.read_ccr(CCR::N) == 1;
        if cond == 0x0 {
            true
        } else if cond == 0x1 {
            false
        } else if cond == 0x2 {
            !(cf || zf)
        } else if cond == 0x3 {
            cf || zf
        } else if cond == 0x4 {
            !cf
        } else if cond == 0x5 {
            cf
        } else if cond == 0x6 {
            !zf
        } else if cond == 0x7 {
            zf
        } else if cond == 0x8 {
            !vf
        } else if cond == 0x9 {
            vf
        } else if cond == 0xa {
            !nf
        } else if cond == 0xb {
            nf
        } else if cond == 0xc {
            nf == vf
        } else if cond == 0xd {
            nf != vf
        } else if cond == 0xe {
            !(zf || (nf != vf))
        } else {
            zf || (nf != vf)
        }
    }

    /// `Bcc d:8` / `Bcc d:16`.
    pub fn bcc(&mut self, opcode: u16) -> (r: Result<u8, CpuError>)
        requires
            old(self).wf(),
            old(self).pc + 2 <= MEMORY_END_ADDR,
        ensures
            final(self).wf(),
            bcc_post(*old(self), *final(self), opcode, r),
    {
        if (opcode >> 8) as u8 == 0x58 {
            let low = match Cpu::get_nibble_opcode(opcode, 4) {
                Ok(v) => v,
                Err(e) => return Err(e),
            };
            if low != 0 {
                return Err(CpuError::InvalidOpcode { opcode });
            }
            let disp = self.fetch();
            let cond = match Cpu::get_nibble_opcode(opcode, 3) {
                Ok(v) => v,
                Err(e) => return Err(e),
            };
            if self.bcc_cond_holds(cond) {
                self.pc = self.pc.wrapping_add(
                    if disp & 0x8000 != 0 {
                        0xffff0000u32 | (disp as u32)
                    } else {
                        disp as u32
                    },
                );
            }
            Ok(self.calc_state(StateType::I, 3))
        } else {
            let cond = match Cpu::get_nibble_opcode(opcode, 2) {
                Ok(v) => v,
                Err(e) => return Err(e),
            };
            let disp = opcode as u8;
            if self.bcc_cond_holds(cond) {
                self.pc = self.pc.wrapping_add(
                    if disp & 0x80 != 0 {
                        0xffffff00u32 | (disp as u32)
                    } else {
                        disp as u32
                    },
                );
            }
            Ok(self.calc_state(StateType::I, 2))
        }
    }

    /// `JMP @ERn` / `JMP @aa:24` / `JMP @@aa:8`.
    pub fn jmp(&mut self, opcode: u16) -> (r: Result<u8, CpuError>)
        requires
            old(self).wf(),
            old(self).pc + 2 <= MEMORY_END_ADDR,
        ensures
            final(self).wf(),
            jmp_post(*old(self), *final(self), opcode, r),
    {
        match (opcode >> 8) as u8 {
            0x59 => {
                let reg = match Cpu::get_nibble_opcode(opcode, 3) {
                    Ok(v) => v,
                    Err(e) => return Err(e),
                };
                let target = match self.get_addr_ern(reg) {
                    Ok(a) => a,
                    Err(e) => return Err(e),
                };
                self.pc = target;
                Ok(self.calc_state(StateType::I, 2))
            },
            0x5a => {
                let low = self.fetch();
                self.pc = (((opcode as u8) as u32) << 16) | (low as u32);
                Ok(self.calc_state(StateType::I, 3))
            },
            _ => {
                let vea = (opcode as u8) as u32;
                if vea % 2 != 0 {
                    return Err(CpuError::MisalignedAccess { address: vea });
                }
                let vector = self.bus.read32(vea);
                self.pc = vector & ADDRESS_MASK;
                Ok(
                    self.calc_state(StateType::I, 2) + self.calc_state_with_addr(
                        StateType::M,
                        2,
                        vea,
                    ) + self.calc_state(StateType::N, 2),
                )
            },
        }
    }

    /// Push the 24-bit return address through `@-ER7`.
    fn jsr_push(&mut self, ret: u32) -> (r: Result<(), CpuError>)
        requires
            old(self).wf(),
        ensures
            final(self).wf(),
            *final(self) == (Cpu { bus: final(self).bus, er: final(self).er, ..*old(self) }),
            ({
                let nv = rn_l_of(old(self).er@, 7).wrapping_sub(4);
                let ea = nv & 0xffffff;
                if ea % 2 == 0 {
                    &&& final(self).er@ == wr_l(old(self).er@, 7, nv)
                    &&& final(self).bus.memory@ == long_write(
                        old(self).bus.memory@,
                        ea,
                        ret & 0xffffff,
                    )
                    &&& final(self).bus.notes@ == old(self).bus.notes@.push(
                        (WriteNote { width: AccessWidth::Long, addr: ea, value: ret & 0xffffff }),
                    )
                    &&& r == Ok::<(), CpuError>(())
                } else {
                    &&& final(self).er@ == wr_l(old(self).er@, 7, nv)
                    &&& *final(self) == (Cpu { er: final(self).er, ..*old(self) })
                    &&& r == Err::<(), CpuError>((CpuError::MisalignedAccess { address: ea }))
                }
            }),
    {
        self.write_dec_ern_l(7, ret & ADDRESS_MASK)
    }

    /// `JSR @ERn` / `JSR @aa:24` / `JSR @@aa:8`.
    pub fn jsr(&mut self, opcode: u16) -> (r: Result<u8, CpuError>)
        requires
            old(self).wf(),
            old(self).pc + 2 <= MEMORY_END_ADDR,
        ensures
            final(self).wf(),
            jsr_post(*old(self), *final(self), opcode, r),
    {
        match (opcode >> 8) as u8 {
            0x5d => {
                let reg = match Cpu::get_nibble_opcode(opcode, 3) {
                    Ok(v) => v,
                    Err(e) => return Err(e),
                };
                let target = match self.get_addr_ern(reg) {
                    Ok(a) => a,
                    Err(e) => return Err(e),
                };
                let sp = match self.read_rn_l(7) {
                    Ok(v) => v,
                    Err(e) => return Err(e),
                };
                let push_addr = sp.wrapping_sub(4) & ADDRESS_MASK;
                let ret = self.pc;
                match self.jsr_push(ret) {
                    Ok(_) => {},
                    Err(e) => return Err(e),
                };
                self.pc = target;
                Ok(
                    self.calc_state(StateType::I, 2) + self.calc_state_with_addr(
                        StateType::M,
                        2,
                        push_addr,
                    ),
                )
            },
            0x5e => {
                let low = self.fetch();
                let target = (((opcode as u8) as u32) << 16) | (low as u32);
                let sp = match self.read_rn_l(7) {
                    Ok(v) => v,
                    Err(e) => return Err(e),
                };
                let push_addr = sp.wrapping_sub(4) & ADDRESS_MASK;
                let ret = self.pc;
                match self.jsr_push(ret) {
                    Ok(_) => {},
                    Err(e) => return Err(e),
                };
                self.pc = target;
                Ok(
                    self.calc_state(StateType::I, 3) + self.calc_state_with_addr(
                        StateType::M,
                        2,
                        push_addr,
                    ),
                )
            },
            _ => {
                let vea = (opcode as u8) as u32;
                if vea % 2 != 0 {
                    return Err(CpuError::MisalignedAccess { address: vea });
                }
                let vector = self.bus.read32(vea);
                let target = vector & ADDRESS_MASK;
                let sp = match self.read_rn_l(7) {
                    Ok(v) => v,
                    Err(e) => return Err(e),
                };
                let push_addr = sp.wrapping_sub(4) & ADDRESS_MASK;
                let ret = self.pc;
                match self.jsr_push(ret) {
                    Ok(_) => {},
                    Err(e) => return Err(e),
                };
                self.pc = target;
                Ok(
                    self.calc_state(StateType::I, 2) + self.calc_state_with_addr(
                        StateType::M,
                        2,
                        vea,
                    ) + self.calc_state_with_addr(StateType::M, 2, push_addr),
                )
            },
        }
    }

    /// `RTS`.
    pub fn rts(&mut self) -> (r: Result<u8, CpuError>)
        requires
            old(self).wf(),
        ensures
            final(self).wf(),
            rts_post(*old(self), *final(self), r),
    {
        let pop_addr = match self.get_addr_ern(7) {
            Ok(a) => a,
            Err(e) => return Err(e),
        };
        let value = match self.read_inc_ern_l(7) {
            Ok(v) => v,
            Err(e) => return Err(e),
        };
        self.pc = value & ADDRESS_MASK;
        Ok(
            self.calc_state(StateType::I, 2) + self.calc_state_with_addr(StateType::M, 2, pop_addr)
                + self.calc_state(StateType::N, 2),
        )
    }
}

} // verus!
