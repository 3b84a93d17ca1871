//! ADD, SUB and CMP at byte, word and long widths, and the flag-silent
//! ADDS and SUBS register adjustments. The arithmetic flags follow one
//! rule at every width: N is the sign of the truncated result, Z its
//! zeroness, V signed overflow, C the unsigned carry or borrow, and H the
//! carry or borrow out of the low nibble group.

use vstd::prelude::*;

use crate::bus::MEMORY_END_ADDR;
use crate::ccr::{with_flag, CCR};
use crate::cpu::{fetch_word, nibble, Cpu, CpuError, StateType};
use crate::regs::{rn_b_of, rn_l_of, rn_w_of, wr_b, wr_l, wr_w};

verus! {

broadcast use
    crate::cpu::lemma_nibble,
    crate::bits::lemma_sel_low3,
    crate::bits::lemma_even_mask;

/// Flags after a byte addition of `b` to `a`.
pub open spec fn add_ccr_b(c: u8, a: u8, b: u8) -> u8 {
    let res = a.wrapping_add(b);
    with_flag(
        with_flag(
            with_flag(
                with_flag(
                    with_flag(c, CCR::H, (a & 0xf) + (b & 0xf) > 0xf),
                    CCR::N,
                    res >= 0x80,
                ),
                CCR::Z,
                res == 0,
            ),
            CCR::V,
            ((!(a ^ b)) & (a ^ res)) & 0x80 != 0,
        ),
        CCR::C,
        a + b > 0xff,
    )
}

/// Flags after a byte subtraction or compare of `b` against `a`.
pub open spec fn sub_ccr_b(c: u8, a: u8, b: u8) -> u8 {
    let res = a.wrapping_sub(b);
    with_flag(
        with_flag(
            with_flag(
                with_flag(
                    with_flag(c, CCR::H, (a & 0xf) < (b & 0xf)),
                    CCR::N,
                    res >= 0x80,
                ),
                CCR::Z,
                res == 0,
            ),
            CCR::V,
            ((a ^ b) & (a ^ res)) & 0x80 != 0,
        ),
        CCR::C,
        a < b,
    )
}

/// Flags after a word addition of `b` to `a`.
pub open spec fn add_ccr_w(c: u8, a: u16, b: u16) -> u8 {
    let res = a.wrapping_add(b);
    with_flag(
        with_flag(
            with_flag(
                with_flag(
                    with_flag(c, CCR::H, (a & 0xfff) + (b & 0xfff) > 0xfff),
                    CCR::N,
                    res >= 0x8000,
                ),
                CCR::Z,
                res == 0,
            ),
            CCR::V,
            ((!(a ^ b)) & (a ^ res)) & 0x8000 != 0,
        ),
        CCR::C,
        a + b > 0xffff,
    )
}

/// Flags after a word subtraction or compare of `b` against `a`.
pub open spec fn sub_ccr_w(c: u8, a: u16, b: u16) -> u8 {
    let res = a.wrapping_sub(b);
    with_flag(
        with_flag(
            with_flag(
                with_flag(
                    with_flag(c, CCR::H, (a & 0xfff) < (b & 0xfff)),
                    CCR::N,
                    res >= 0x8000,
                ),
                CCR::Z,
                res == 0,
            ),
            CCR::V,
            ((a ^ b) & (a ^ res)) & 0x8000 != 0,
        ),
        CCR::C,
        a < b,
    )
}

/// Flags after a long addition of `b` to `a`.
pub open spec fn add_ccr_l(c: u8, a: u32, b: u32) -> u8 {
    let res = a.wrapping_add(b);
    with_flag(
        with_flag(
            with_flag(
                with_flag(
                    with_flag(c, CCR::H, (a & 0xfffffff) + (b & 0xfffffff) > 0xfffffff),
                    CCR::N,
                    res >= 0x80000000,
                ),
                CCR::Z,
                res == 0,
            ),
            CCR::V,
            ((!(a ^ b)) & (a ^ res)) & 0x80000000 != 0,
        ),
        CCR::C,
        a + b > 0xffffffff,
    )
}

/// Flags after a long subtraction or compare of `b` against `a`.
pub open spec fn sub_ccr_l(c: u8, a: u32, b: u32) -> u8 {
    let res = a.wrapping_sub(b);
    with_flag(
        with_flag(
            with_flag(
                with_flag(
                    with_flag(c, CCR::H, (a & 0xfffffff) < (b & 0xfffffff)),
                    CCR::N,
                    res >= 0x80000000,
                ),
                CCR::Z,
                res == 0,
            ),
            CCR::V,
            ((a ^ b) & (a ^ res)) & 0x80000000 != 0,
        ),
        CCR::C,
        a < b,
    )
}

/// `ADD.B Rs, Rd` / `ADD.B #imm, Rd`.
pub open spec fn add_b_post(pre: Cpu, post: Cpu, op: u16, r: Result<u8, CpuError>) -> bool {
    if (op >> 8) as u8 == 0x08 {
        let a = rn_b_of(pre.er@, nibble(op, 4));
        let b = rn_b_of(pre.er@, nibble(op, 3));
        &&& post.er@ == wr_b(pre.er@, nibble(op, 4), a.wrapping_add(b))
        &&& post.ccr == add_ccr_b(pre.ccr, a, b)
        &&& post == (Cpu { er: post.er, ccr: post.ccr, ..pre })
        &&& r == Ok::<u8, CpuError>(2)
    } else {
        let a = rn_b_of(pre.er@, nibble(op, 2));
        let b = op as u8;
        &&& post.er@ == wr_b(pre.er@, nibble(op, 2), a.wrapping_add(b))
        &&& post.ccr == add_ccr_b(pre.ccr, a, b)
        &&& post == (Cpu { er: post.er, ccr: post.ccr, ..pre })
        &&& r == Ok::<u8, CpuError>(2)
    }
}

/// `SUB.B Rs, Rd`.
pub open spec fn sub_b_post(pre: Cpu, post: Cpu, op: u16, r: Result<u8, CpuError>) -> bool {
    let a = rn_b_of(pre.er@, nibble(op, 4));
    let b = rn_b_of(pre.er@, nibble(op, 3));
    &&& post.er@ == wr_b(pre.er@, nibble(op, 4), a.wrapping_sub(b))
    &&& post.ccr == sub_ccr_b(pre.ccr, a, b)
    &&& post == (Cpu { er: post.er, ccr: post.ccr, ..pre })
    &&& r == Ok::<u8, CpuError>(2)
}

/// `CMP.B Rs, Rd` / `CMP.B #imm, Rd`.
pub open spec fn cmp_b_post(pre: Cpu, post: Cpu, op: u16, r: Result<u8, CpuError>) -> bool {
    if (op >> 8) as u8 == 0x1c {
        let a = rn_b_of(pre.er@, nibble(op, 4));
        let b = rn_b_of(pre.er@, nibble(op, 3));
        &&& post.ccr == sub_ccr_b(pre.ccr, a, b)
        &&& post == (Cpu { ccr: post.ccr, ..pre })
        &&& r == Ok::<u8, CpuError>(2)
    } else {
        let a = rn_b_of(pre.er@, nibble(op, 2));
        let b = op as u8;
        &&& post.ccr == sub_ccr_b(pre.ccr, a, b)
        &&& post == (Cpu { ccr: post.ccr, ..pre })
        &&& r == Ok::<u8, CpuError>(2)
    }
}

/// `ADD.W Rs, Rd` / `ADD.W #imm, Rd` (the immediate form under
/// the `0x79` prefix fetches one extension word).
pub open spec fn add_w_post(pre: Cpu, post: Cpu, op: u16, r: Result<u8, CpuError>) -> bool {
    if (op >> 8) as u8 == 0x09 {
        let a = rn_w_of(pre.er@, nibble(op, 4));
        let b = rn_w_of(pre.er@, nibble(op, 3));
        &&& post.er@ == wr_w(pre.er@, nibble(op, 4), a.wrapping_add(b))
        &&& post.ccr == add_ccr_w(pre.ccr, a, b)
        &&& post == (Cpu { er: post.er, ccr: post.ccr, ..pre })
        &&& r == Ok::<u8, CpuError>(2)
    } else {
        let a = rn_w_of(pre.er@, nibble(op, 4));
        let b = fetch_word(pre, 0);
        &&& post.er@ == wr_w(pre.er@, nibble(op, 4), a.wrapping_add(b))
        &&& post.ccr == add_ccr_w(pre.ccr, a, b)
        &&& post.pc == pre.pc + 2
        &&& post == (Cpu { er: post.er, ccr: post.ccr, pc: post.pc, ..pre })
        &&& r == Ok::<u8, CpuError>(4)
    }
}

/// `SUB.W Rs, Rd` / `SUB.W #imm, Rd` (the immediate form under
/// the `0x79` prefix fetches one extension word).
pub open spec fn sub_w_post(pre: Cpu, post: Cpu, op: u16, r: Result<u8, CpuError>) -> bool {
    if (op >> 8) as u8 == 0x19 {
        let a = rn_w_of(pre.er@, nibble(op, 4));
        let b = rn_w_of(pre.er@, nibble(op, 3));
        &&& post.er@ == wr_w(pre.er@, nibble(op, 4), a.wrapping_sub(b))
        &&& post.ccr == sub_ccr_w(pre.ccr, a, b)
        &&& post == (Cpu { er: post.er, ccr: post.ccr, ..pre })
        &&& r == Ok::<u8, CpuError>(2)
    } else {
        let a = rn_w_of(pre.er@, nibble(op, 4));
        let b = fetch_word(pre, 0);
        &&& post.er@ == wr_w(pre.er@, nibble(op, 4), a.wrapping_sub(b))
        &&& post.ccr == sub_ccr_w(pre.ccr, a, b)
        &&& post.pc == pre.pc + 2
        &&& post == (Cpu { er: post.er, ccr: post.ccr, pc: post.pc, ..pre })
        &&& r == Ok::<u8, CpuError>(4)
    }
}

/// `CMP.W Rs, Rd` / `CMP.W #imm, Rd` (the immediate form under
/// the `0x79` prefix fetches one extension word).
pub open spec fn cmp_w_post(pre: Cpu, post: Cpu, op: u16, r: Result<u8, CpuError>) -> bool {
    if (op >> 8) as u8 == 0x1d {
        let a = rn_w_of(pre.er@, nibble(op, 4));
        let b = rn_w_of(pre.er@, nibble(op, 3));
        &&& post.ccr == sub_ccr_w(pre.ccr, a, b)
        &&& post == (Cpu { ccr: post.ccr, ..pre })
        &&& r == Ok::<u8, CpuError>(2)
    } else {
        let a = rn_w_of(pre.er@, nibble(op, 4));
        let b = fetch_word(pre, 0);
        &&& post.ccr == sub_ccr_w(pre.ccr, a, b)
        &&& post.pc == pre.pc + 2
        &&& post == (Cpu { ccr: post.ccr, pc: post.pc, ..pre })
        &&& r == Ok::<u8, CpuError>(4)
    }
}

/// `ADD.L ERs, ERd` / `ADD.L #imm, ERd` (the immediate form
/// under the `0x7a` prefix fetches two extension words).
pub open spec fn add_l_post(pre: Cpu, post: Cpu, op: u16, r: Result<u8, CpuError>) -> bool {
    if (op >> 8) as u8 == 0x0a {
        if op & 0x0080 == 0 {
            post == pre && r == Err::<u8, CpuError>((CpuError::InvalidOpcode { opcode: op }))
        } else {
            let dst = nibble(op, 4);
            if dst >= 8 {
                post == pre && r == Err::<u8, CpuError>(
                    (CpuError::InvalidRegister { field: dst }),
                )
            } else {
                let a = rn_l_of(pre.er@, dst);
                let b = rn_l_of(pre.er@, (nibble(op, 3) & 7) as u8);
            &&& post.er@ == wr_l(pre.er@, dst, a.wrapping_add(b))
                &&& post.ccr == add_ccr_l(pre.ccr, a, b)
                &&& post == (Cpu { er: post.er, ccr: post.ccr, ..pre })
                &&& r == Ok::<u8, CpuError>(2)
            }
        }
    } else {
        let dst = nibble(op, 4);
        let b = (((fetch_word(pre, 0) as u32) << 16) | (fetch_word(pre, 1) as u32)) as u32;
        if dst >= 8 {
            &&& post.pc == pre.pc + 4
            &&& post == (Cpu { pc: post.pc, ..pre })
            &&& r == Err::<u8, CpuError>((CpuError::InvalidRegister { field: dst }))
        } else {
            let a = rn_l_of(pre.er@, dst);
            &&& post.er@ == wr_l(pre.er@, dst, a.wrapping_add(b))
            &&& post.ccr == add_ccr_l(pre.ccr, a, b)
            &&& post.pc == pre.pc + 4
            &&& post == (Cpu { er: post.er, ccr: post.ccr, pc: post.pc, ..pre })
            &&& r == Ok::<u8, CpuError>(6)
        }
    }
}

/// `SUB.L ERs, ERd` / `SUB.L #imm, ERd` (the immediate form
/// under the `0x7a` prefix fetches two extension words).
pub open spec fn sub_l_post(pre: Cpu, post: Cpu, op: u16, r: Result<u8, CpuError>) -> bool {
    if (op >> 8) as u8 == 0x1a {
        if op & 0x0080 == 0 {
            post == pre && r == Err::<u8, CpuError>((CpuError::InvalidOpcode { opcode: op }))
        } else {
            let dst = nibble(op, 4);
            if dst >= 8 {
                post == pre && r == Err::<u8, CpuError>(
                    (CpuError::InvalidRegister { field: dst }),
                )
            } else {
                let a = rn_l_of(pre.er@, dst);
                let b = rn_l_of(pre.er@, (nibble(op, 3) & 7) as u8);
            &&& post.er@ == wr_l(pre.er@, dst, a.wrapping_sub(b))
                &&& post.ccr == sub_ccr_l(pre.ccr, a, b)
                &&& post == (Cpu { er: post.er, ccr: post.ccr, ..pre })
                &&& r == Ok::<u8, CpuError>(2)
            }
        }
    } else {
        let dst = nibble(op, 4);
        let b = (((fetch_word(pre, 0) as u32) << 16) | (fetch_word(pre, 1) as u32)) as u32;
        if dst >= 8 {
            &&& post.pc == pre.pc + 4
            &&& post == (Cpu { pc: post.pc, ..pre })
            &&& r == Err::<u8, CpuError>((CpuError::InvalidRegister { field: dst }))
        } else {
            let a = rn_l_of(pre.er@, dst);
            &&& post.er@ == wr_l(pre.er@, dst, a.wrapping_sub(b))
            &&& post.ccr == sub_ccr_l(pre.ccr, a, b)
            &&& post.pc == pre.pc + 4
            &&& post == (Cpu { er: post.er, ccr: post.ccr, pc: post.pc, ..pre })
            &&& r == Ok::<u8, CpuError>(6)
        }
    }
}

/// `CMP.L ERs, ERd` / `CMP.L #imm, ERd` (the immediate form
/// under the `0x7a` prefix fetches two extension words).
pub open spec fn cmp_l_post(pre: Cpu, post: Cpu, op: u16, r: Result<u8, CpuError>) -> bool {
    if (op >> 8) as u8 == 0x1f {
        if op & 0x0080 == 0 {
            post == pre && r == Err::<u8, CpuError>((CpuError::InvalidOpcode { opcode: op }))
        } else {
            let dst = nibble(op, 4);
            if dst >= 8 {
                post == pre && r == Err::<u8, CpuError>(
                    (CpuError::InvalidRegister { field: dst }),
                )
            } else {
                let a = rn_l_of(pre.er@, dst);
                let b = rn_l_of(pre.er@, (nibble(op, 3) & 7) as u8);
                &&& post.ccr == sub_ccr_l(pre.ccr, a, b)
                &&& post == (Cpu { ccr: post.ccr, ..pre })
                &&& r == Ok::<u8, CpuError>(2)
            }
        }
    } else {
        let dst = nibble(op, 4);
        let b = (((fetch_word(pre, 0) as u32) << 16) | (fetch_word(pre, 1) as u32)) as u32;
        if dst >= 8 {
            &&& post.pc == pre.pc + 4
            &&& post == (Cpu { pc: post.pc, ..pre })
            &&& r == Err::<u8, CpuError>((CpuError::InvalidRegister { field: dst }))
        } else {
            let a = rn_l_of(pre.er@, dst);
            &&& post.ccr == sub_ccr_l(pre.ccr, a, b)
            &&& post.pc == pre.pc + 4
            &&& post == (Cpu { ccr: post.ccr, pc: post.pc, ..pre })
            &&& r == Ok::<u8, CpuError>(6)
        }
    }
}

/// `ADDS #1/#2/#4, ERd`: the constant named by nibble 3 is
/// added to the full register; no flag changes.
pub open spec fn adds_post(pre: Cpu, post: Cpu, op: u16, r: Result<u8, CpuError>) -> bool {
    let sel = nibble(op, 3);
    if sel == 0x0 || sel == 0x8 || sel == 0x9 {
        let inc: u32 = if sel == 0x0 { 1 } else if sel == 0x8 { 2 } else { 4 };
        let dst = nibble(op, 4);
        if dst >= 8 {
            post == pre && r == Err::<u8, CpuError>((CpuError::InvalidRegister { field: dst }))
        } else {
            &&& post.er@ == wr_l(pre.er@, dst, rn_l_of(pre.er@, dst).wrapping_add(inc))
            &&& post == (Cpu { er: post.er, ..pre })
            &&& r == Ok::<u8, CpuError>(2)
        }
    } else {
        post == pre && r == Err::<u8, CpuError>((CpuError::InvalidOpcode { opcode: op }))
    }
}

/// `SUBS #1/#2/#4, ERd`: the constant named by nibble 3 is
/// subtracted from the full register; no flag changes.
pub open spec fn subs_post(pre: Cpu, post: Cpu, op: u16, r: Result<u8, CpuError>) -> bool {
    let sel = nibble(op, 3);
    if sel == 0x0 || sel == 0x8 || sel == 0x9 {
        let inc: u32 = if sel == 0x0 { 1 } else if sel == 0x8 { 2 } else { 4 };
        let dst = nibble(op, 4);
        if dst >= 8 {
            post == pre && r == Err::<u8, CpuError>((CpuError::InvalidRegister { field: dst }))
        } else {
            &&& post.er@ == wr_l(pre.er@, dst, rn_l_of(pre.er@, dst).wrapping_sub(inc))
            &&& post == (Cpu { er: post.er, ..pre })
            &&& r == Ok::<u8, CpuError>(2)
        }
    } else {
        post == pre && r == Err::<u8, CpuError>((CpuError::InvalidOpcode { opcode: op }))
    }
}

impl Cpu {
    /// Set H, N, Z, V and C for a byte addition.
    fn add_proc_pcc_b(&mut self, a: u8, b: u8)
        ensures
            final(self).ccr == add_ccr_b(old(self).ccr, a, b),
            *final(self) == (Cpu { ccr: final(self).ccr, ..*old(self) }),
    {
        let res = a.wrapping_add(b);
        self.change_ccr(CCR::H, ((a & 0xf) as u16) + ((b & 0xf) as u16) > 0xf);
        self.change_ccr(CCR::N, res >= 0x80);
        self.change_ccr(CCR::Z, res == 0);
        self.change_ccr(CCR::V, ((!(a ^ b)) & (a ^ res)) & 0x80 != 0);
        self.change_ccr(CCR::C, (a as u16) + (b as u16) > 0xff);
    }

    /// Set H, N, Z, V and C for a byte subtraction or compare.
    fn sub_proc_pcc_b(&mut self, a: u8, b: u8)
        ensures
            final(self).ccr == sub_ccr_b(old(self).ccr, a, b),
            *final(self) == (Cpu { ccr: final(self).ccr, ..*old(self) }),
    {
        let res = a.wrapping_sub(b);
        self.change_ccr(CCR::H, (a & 0xf) < (b & 0xf));
        self.change_ccr(CCR::N, res >= 0x80);
        self.change_ccr(CCR::Z, res == 0);
        self.change_ccr(CCR::V, ((a ^ b) & (a ^ res)) & 0x80 != 0);
        self.change_ccr(CCR::C, a < b);
    }

    /// Set H, N, Z, V and C for a word addition.
    fn add_proc_pcc_w(&mut self, a: u16, b: u16)
        ensures
            final(self).ccr == add_ccr_w(old(self).ccr, a, b),
            *final(self) == (Cpu { ccr: final(self).ccr, ..*old(self) }),
    {
        let res = a.wrapping_add(b);
        self.change_ccr(CCR::H, ((a & 0xfff) as u32) + ((b & 0xfff) as u32) > 0xfff);
        self.change_ccr(CCR::N, res >= 0x8000);
        self.change_ccr(CCR::Z, res == 0);
        self.change_ccr(CCR::V, ((!(a ^ b)) & (a ^ res)) & 0x8000 != 0);
        self.change_ccr(CCR::C, (a as u32) + (b as u32) > 0xffff);
    }

    /// Set H, N, Z, V and C for a word subtraction or compare.
    fn sub_proc_pcc_w(&mut self, a: u16, b: u16)
        ensures
            final(self).ccr == sub_ccr_w(old(self).ccr, a, b),
            *final(self) == (Cpu { ccr: final(self).ccr, ..*old(self) }),
    {
        let res = a.wrapping_sub(b);
        self.change_ccr(CCR::H, (a & 0xfff) < (b & 0xfff));
        self.change_ccr(CCR::N, res >= 0x8000);
        self.change_ccr(CCR::Z, res == 0);
        self.change_ccr(CCR::V, ((a ^ b) & (a ^ res)) & 0x8000 != 0);
        self.change_ccr(CCR::C, a < b);
    }

    /// Set H, N, Z, V and C for a long addition.
    fn add_proc_pcc_l(&mut self, a: u32, b: u32)
        ensures
            final(self).ccr == add_ccr_l(old(self).ccr, a, b),
            *final(self) == (Cpu { ccr: final(self).ccr, ..*old(self) }),
    {
        let res = a.wrapping_add(b);
        self.change_ccr(CCR::H, ((a & 0xfffffff) as u64) + ((b & 0xfffffff) as u64) > 0xfffffff);
        self.change_ccr(CCR::N, res >= 0x80000000);
        self.change_ccr(CCR::Z, res == 0);
        self.change_ccr(CCR::V, ((!(a ^ b)) & (a ^ res)) & 0x80000000 != 0);
        self.change_ccr(CCR::C, (a as u64) + (b as u64) > 0xffffffff);
    }

    /// Set H, N, Z, V and C for a long subtraction or compare.
    fn sub_proc_pcc_l(&mut self, a: u32, b: u32)
        ensures
            final(self).ccr == sub_ccr_l(old(self).ccr, a, b),
            *final(self) == (Cpu { ccr: final(self).ccr, ..*old(self) }),
    {
        let res = a.wrapping_sub(b);
        self.change_ccr(CCR::H, (a & 0xfffffff) < (b & 0xfffffff));
        self.change_ccr(CCR::N, res >= 0x80000000);
        self.change_ccr(CCR::Z, res == 0);
        self.change_ccr(CCR::V, ((a ^ b) & (a ^ res)) & 0x80000000 != 0);
        self.change_ccr(CCR::C, a < b);
    }

    /// `ADD.B Rs, Rd` / `ADD.B #imm, Rd`.
    pub fn add_b(&mut self, opcode: u16) -> (r: Result<u8, CpuError>)
        requires
            old(self).wf(),
        ensures
            final(self).wf(),
            add_b_post(*old(self), *final(self), opcode, r),
    {
        if (opcode >> 8) as u8 == 0x08 {
            let src = match Cpu::get_nibble_opcode(opcode, 3) {
            Ok(v) => v,
            Err(e) => return Err(e),
        };
            let b = match self.read_rn_b(src) {
            Ok(v) => v,
            Err(e) => return Err(e),
        };
            let dst = match Cpu::get_nibble_opcode(opcode, 4) {
            Ok(v) => v,
            Err(e) => return Err(e),
        };
            let a = match self.read_rn_b(dst) {
            Ok(v) => v,
            Err(e) => return Err(e),
        };
        match self.write_rn_b(dst, a.wrapping_add(b)) {
                Ok(_) => {},
                Err(e) => return Err(e),
            };
            self.add_proc_pcc_b(a, b);
            Ok(self.calc_state(StateType::I, 1))
        } else {
            let dst = match Cpu::get_nibble_opcode(opcode, 2) {
            Ok(v) => v,
            Err(e) => return Err(e),
        };
            let a = match self.read_rn_b(dst) {
            Ok(v) => v,
            Err(e) => return Err(e),
        };
            let b = opcode as u8;
        match self.write_rn_b(dst, a.wrapping_add(b)) {
                Ok(_) => {},
                Err(e) => return Err(e),
            };
            self.add_proc_pcc_b(a, b);
            Ok(self.calc_state(StateType::I, 1))
        }
    }

    /// `SUB.B Rs, Rd`.
    pub fn sub_b(&mut self, opcode: u16) -> (r: Result<u8, CpuError>)
        requires
            old(self).wf(),
        ensures
            final(self).wf(),
            sub_b_post(*old(self), *final(self), opcode, r),
    {
        let src = match Cpu::get_nibble_opcode(opcode, 3) {
            Ok(v) => v,
            Err(e) => return Err(e),
        };
        let b = match self.read_rn_b(src) {
            Ok(v) => v,
            Err(e) => return Err(e),
        };
        let dst = match Cpu::get_nibble_opcode(opcode, 4) {
            Ok(v) => v,
            Err(e) => return Err(e),
        };
        let a = match self.read_rn_b(dst) {
            Ok(v) => v,
            Err(e) => return Err(e),
        };
        match self.write_rn_b(dst, a.wrapping_sub(b)) {
            Ok(_) => {},
            Err(e) => return Err(e),
        };
        self.sub_proc_pcc_b(a, b);
        Ok(self.calc_state(StateType::I, 1))
    }

    /// `CMP.B Rs, Rd` / `CMP.B #imm, Rd`.
    pub fn cmp_b(&mut self, opcode: u16) -> (r: Result<u8, CpuError>)
        requires
            old(self).wf(),
        ensures
            final(self).wf(),
            cmp_b_post(*old(self), *final(self), opcode, r),
    {
        if (opcode >> 8) as u8 == 0x1c {
            let src = match Cpu::get_nibble_opcode(opcode, 3) {
            Ok(v) => v,
            Err(e) => return Err(e),
        };
            let b = match self.read_rn_b(src) {
            Ok(v) => v,
            Err(e) => return Err(e),
        };
            let dst = match Cpu::get_nibble_opcode(opcode, 4) {
            Ok(v) => v,
            Err(e) => return Err(e),
        };
            let a = match self.read_rn_b(dst) {
            Ok(v) => v,
            Err(e) => return Err(e),
        };
            self.sub_proc_pcc_b(a, b);
            Ok(self.calc_state(StateType::I, 1))
        } else {
            let dst = match Cpu::get_nibble_opcode(opcode, 2) {
            Ok(v) => v,
            Err(e) => return Err(e),
        };
            let a = match self.read_rn_b(dst) {
            Ok(v) => v,
            Err(e) => return Err(e),
        };
            let b = opcode as u8;
            self.sub_proc_pcc_b(a, b);
            Ok(self.calc_state(StateType::I, 1))
        }
    }

    /// `ADD.W Rs, Rd` / `ADD.W #imm, Rd`.
    pub fn add_w(&mut self, opcode: u16) -> (r: Result<u8, CpuError>)
        requires
            old(self).wf(),
            old(self).pc + 2 <= MEMORY_END_ADDR,
        ensures
            final(self).wf(),
            add_w_post(*old(self), *final(self), opcode, r),
    {
        if (opcode >> 8) as u8 == 0x09 {
            let src = match Cpu::get_nibble_opcode(opcode, 3) {
            Ok(v) => v,
            Err(e) => return Err(e),
        };
            let b = match self.read_rn_w(src) {
            Ok(v) => v,
            Err(e) => return Err(e),
        };
            let dst = match Cpu::get_nibble_opcode(opcode, 4) {
            Ok(v) => v,
            Err(e) => return Err(e),
        };
            let a = match self.read_rn_w(dst) {
            Ok(v) => v,
            Err(e) => return Err(e),
        };
            match self.write_rn_w(dst, a.wrapping_add(b)) {
            Ok(_) => {},
            Err(e) => return Err(e),
        };
            self.add_proc_pcc_w(a, b);
            Ok(self.calc_state(StateType::I, 1))
        } else {
            let b = self.fetch();
            let dst = match Cpu::get_nibble_opcode(opcode, 4) {
            Ok(v) => v,
            Err(e) => return Err(e),
        };
            let a = match self.read_rn_w(dst) {
            Ok(v) => v,
            Err(e) => return Err(e),
        };
            match self.write_rn_w(dst, a.wrapping_add(b)) {
            Ok(_) => {},
            Err(e) => return Err(e),
        };
            self.add_proc_pcc_w(a, b);
            Ok(self.calc_state(StateType::I, 2))
        }
    }

    /// `SUB.W Rs, Rd` / `SUB.W #imm, Rd`.
    pub fn sub_w(&mut self, opcode: u16) -> (r: Result<u8, CpuError>)
        requires
            old(self).wf(),
            old(self).pc + 2 <= MEMORY_END_ADDR,
        ensures
            final(self).wf(),
            sub_w_post(*old(self), *final(self), opcode, r),
    {
        if (opcode >> 8) as u8 == 0x19 {
            let src = match Cpu::get_nibble_opcode(opcode, 3) {
            Ok(v) => v,
            Err(e) => return Err(e),
        };
            let b = match self.read_rn_w(src) {
            Ok(v) => v,
            Err(e) => return Err(e),
        };
            let dst = match Cpu::get_nibble_opcode(opcode, 4) {
            Ok(v) => v,
            Err(e) => return Err(e),
        };
            let a = match self.read_rn_w(dst) {
            Ok(v) => v,
            Err(e) => return Err(e),
        };
            match self.write_rn_w(dst, a.wrapping_sub(b)) {
            Ok(_) => {},
            Err(e) => return Err(e),
        };
            self.sub_proc_pcc_w(a, b);
            Ok(self.calc_state(StateType::I, 1))
        } else {
            let b = self.fetch();
            let dst = match Cpu::get_nibble_opcode(opcode, 4) {
            Ok(v) => v,
            Err(e) => return Err(e),
        };
            let a = match self.read_rn_w(dst) {
            Ok(v) => v,
            Err(e) => return Err(e),
        };
            match self.write_rn_w(dst, a.wrapping_sub(b)) {
            Ok(_) => {},
            Err(e) => return Err(e),
        };
            self.sub_proc_pcc_w(a, b);
            Ok(self.calc_state(StateType::I, 2))
        }
    }

    /// `CMP.W Rs, Rd` / `CMP.W #imm, Rd`.
    pub fn cmp_w(&mut self, opcode: u16) -> (r: Result<u8, CpuError>)
        requires
            old(self).wf(),
            old(self).pc + 2 <= MEMORY_END_ADDR,
        ensures
            final(self).wf(),
            cmp_w_post(*old(self), *final(self), opcode, r),
    {
        if (opcode >> 8) as u8 == 0x1d {
            let src = match Cpu::get_nibble_opcode(opcode, 3) {
            Ok(v) => v,
            Err(e) => return Err(e),
        };
            let b = match self.read_rn_w(src) {
            Ok(v) => v,
            Err(e) => return Err(e),
        };
            let dst = match Cpu::get_nibble_opcode(opcode, 4) {
            Ok(v) => v,
            Err(e) => return Err(e),
        };
            let a = match self.read_rn_w(dst) {
            Ok(v) => v,
            Err(e) => return Err(e),
        };
            self.sub_proc_pcc_w(a, b);
            Ok(self.calc_state(StateType::I, 1))
        } else {
            let b = self.fetch();
            let dst = match Cpu::get_nibble_opcode(opcode, 4) {
            Ok(v) => v,
            Err(e) => return Err(e),
        };
            let a = match self.read_rn_w(dst) {
            Ok(v) => v,
            Err(e) => return Err(e),
        };
            self.sub_proc_pcc_w(a, b);
            Ok(self.calc_state(StateType::I, 2))
        }
    }

    /// `ADD.L ERs, ERd` / `ADD.L #imm, ERd`.
    pub fn add_l(&mut self, opcode: u16) -> (r: Result<u8, CpuError>)
        requires
            old(self).wf(),
            old(self).pc + 4 <= MEMORY_END_ADDR,
        ensures
            final(self).wf(),
            add_l_post(*old(self), *final(self), opcode, r),
    {
        if (opcode >> 8) as u8 == 0x0a {
            if opcode & 0x0080 == 0 {
                return Err(CpuError::InvalidOpcode { opcode });
            }
            let dst = match Cpu::get_nibble_opcode(opcode, 4) {
            Ok(v) => v,
            Err(e) => return Err(e),
        };
            let a = match self.read_rn_l(dst) {
            Ok(v) => v,
            Err(e) => return Err(e),
        };
            let src = match Cpu::get_nibble_opcode(opcode, 3) {
            Ok(v) => v,
            Err(e) => return Err(e),
        };
            let b = match self.read_rn_l(src & 7) {
            Ok(v) => v,
            Err(e) => return Err(e),
        };
            match self.write_rn_l(dst, a.wrapping_add(b)) {
            Ok(_) => {},
            Err(e) => return Err(e),
        };
            self.add_proc_pcc_l(a, b);
            Ok(self.calc_state(StateType::I, 1))
        } else {
            let imm_hi = self.fetch();
            let imm_lo = self.fetch();
            let b = ((imm_hi as u32) << 16) | (imm_lo as u32);
            let dst = match Cpu::get_nibble_opcode(opcode, 4) {
            Ok(v) => v,
            Err(e) => return Err(e),
        };
            let a = match self.read_rn_l(dst) {
            Ok(v) => v,
            Err(e) => return Err(e),
        };
            match self.write_rn_l(dst, a.wrapping_add(b)) {
            Ok(_) => {},
            Err(e) => return Err(e),
        };
            self.add_proc_pcc_l(a, b);
            Ok(self.calc_state(StateType::I, 3))
        }
    }

    /// `SUB.L ERs, ERd` / `SUB.L #imm, ERd`.
    pub fn sub_l(&mut self, opcode: u16) -> (r: Result<u8, CpuError>)
        requires
            old(self).wf(),
            old(self).pc + 4 <= MEMORY_END_ADDR,
        ensures
            final(self).wf(),
            sub_l_post(*old(self), *final(self), opcode, r),
    {
        if (opcode >> 8) as u8 == 0x1a {
            if opcode & 0x0080 == 0 {
                return Err(CpuError::InvalidOpcode { opcode });
            }
            let dst = match Cpu::get_nibble_opcode(opcode, 4) {
            Ok(v) => v,
            Err(e) => return Err(e),
        };
            let a = match self.read_rn_l(dst) {
            Ok(v) => v,
            Err(e) => return Err(e),
        };
            let src = match Cpu::get_nibble_opcode(opcode, 3) {
            Ok(v) => v,
            Err(e) => return Err(e),
        };
            let b = match self.read_rn_l(src & 7) {
            Ok(v) => v,
            Err(e) => return Err(e),
        };
            match self.write_rn_l(dst, a.wrapping_sub(b)) {
            Ok(_) => {},
            Err(e) => return Err(e),
        };
            self.sub_proc_pcc_l(a, b);
            Ok(self.calc_state(StateType::I, 1))
        } else {
            let imm_hi = self.fetch();
            let imm_lo = self.fetch();
            let b = ((imm_hi as u32) << 16) | (imm_lo as u32);
            let dst = match Cpu::get_nibble_opcode(opcode, 4) {
            Ok(v) => v,
            Err(e) => return Err(e),
        };
            let a = match self.read_rn_l(dst) {
            Ok(v) => v,
            Err(e) => return Err(e),
        };
            match self.write_rn_l(dst, a.wrapping_sub(b)) {
            Ok(_) => {},
            Err(e) => return Err(e),
        };
            self.sub_proc_pcc_l(a, b);
            Ok(self.calc_state(StateType::I, 3))
        }
    }

    /// `CMP.L ERs, ERd` / `CMP.L #imm, ERd`.
    pub fn cmp_l(&mut self, opcode: u16) -> (r: Result<u8, CpuError>)
        requires
            old(self).wf(),
            old(self).pc + 4 <= MEMORY_END_ADDR,
        ensures
            final(self).wf(),
            cmp_l_post(*old(self), *final(self), opcode, r),
    {
        if (opcode >> 8) as u8 == 0x1f {
            if opcode & 0x0080 == 0 {
                return Err(CpuError::InvalidOpcode { opcode });
            }
            let dst = match Cpu::get_nibble_opcode(opcode, 4) {
            Ok(v) => v,
            Err(e) => return Err(e),
        };
            let a = match self.read_rn_l(dst) {
            Ok(v) => v,
            Err(e) => return Err(e),
        };
            let src = match Cpu::get_nibble_opcode(opcode, 3) {
            Ok(v) => v,
            Err(e) => return Err(e),
        };
            let b = match self.read_rn_l(src & 7) {
            Ok(v) => v,
            Err(e) => return Err(e),
        };
            self.sub_proc_pcc_l(a, b);
            Ok(self.calc_state(StateType::I, 1))
        } else {
            let imm_hi = self.fetch();
            let imm_lo = self.fetch();
            let b = ((imm_hi as u32) << 16) | (imm_lo as u32);
            let dst = match Cpu::get_nibble_opcode(opcode, 4) {
            Ok(v) => v,
            Err(e) => return Err(e),
        };
            let a = match self.read_rn_l(dst) {
            Ok(v) => v,
            Err(e) => return Err(e),
        };
            self.sub_proc_pcc_l(a, b);
            Ok(self.calc_state(StateType::I, 3))
        }
    }

    /// `ADDS #1/#2/#4, ERd`: adjusts a full register without
    /// touching the flags.
    pub fn adds(&mut self, opcode: u16) -> (r: Result<u8, CpuError>)
        requires
            old(self).wf(),
        ensures
            final(self).wf(),
            adds_post(*old(self), *final(self), opcode, r),
    {
        let sel = match Cpu::get_nibble_opcode(opcode, 3) {
            Ok(v) => v,
            Err(e) => return Err(e),
        };
        let inc: u32 = if sel == 0x0 {
            1
        } else if sel == 0x8 {
            2
        } else if sel == 0x9 {
            4
        } else {
            return Err(CpuError::InvalidOpcode { opcode });
        };
        let dst = match Cpu::get_nibble_opcode(opcode, 4) {
            Ok(v) => v,
            Err(e) => return Err(e),
        };
        let a = match self.read_rn_l(dst) {
            Ok(v) => v,
            Err(e) => return Err(e),
        };
        match self.write_rn_l(dst, a.wrapping_add(inc)) {
            Ok(_) => {},
            Err(e) => return Err(e),
        };
        Ok(self.calc_state(StateType::I, 1))
    }

    /// `SUBS #1/#2/#4, ERd`: adjusts a full register without
    /// touching the flags.
    pub fn subs(&mut self, opcode: u16) -> (r: Result<u8, CpuError>)
        requires
            old(self).wf(),
        ensures
            final(self).wf(),
            subs_post(*old(self), *final(self), opcode, r),
    {
        let sel = match Cpu::get_nibble_opcode(opcode, 3) {
            Ok(v) => v,
            Err(e) => return Err(e),
        };
        let inc: u32 = if sel == 0x0 {
            1
        } else if sel == 0x8 {
            2
        } else if sel == 0x9 {
            4
        } else {
            return Err(CpuError::InvalidOpcode { opcode });
        };
        let dst = match Cpu::get_nibble_opcode(opcode, 4) {
            Ok(v) => v,
            Err(e) => return Err(e),
        };
        let a = match self.read_rn_l(dst) {
            Ok(v) => v,
            Err(e) => return Err(e),
        };
        match self.write_rn_l(dst, a.wrapping_sub(inc)) {
            Ok(_) => {},
            Err(e) => return Err(e),
        };
        Ok(self.calc_state(StateType::I, 1))
    }

}

} // verus!
