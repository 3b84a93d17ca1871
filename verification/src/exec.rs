//! Decode and dispatch: one instruction is executed per call, selected by
//! the high byte of the already-fetched opcode word, with secondary
//! dispatch on a low nibble or on a further opcode word for the prefix
//! groups. `step` wraps one fetch-and-execute round and accumulates the
//! consumed states.

use vstd::prelude::*;

use crate::arith::{
    add_b_post, add_l_post, add_w_post, adds_post, cmp_b_post, cmp_l_post, cmp_w_post, sub_b_post,
    sub_l_post, sub_w_post, subs_post,
};
use crate::branch::{bcc_post, jmp_post, jsr_post, rts_post};
use crate::bus::MEMORY_END_ADDR;
use crate::bxor::{bxor_abs_post, bxor_ern_post, bxor_rn_post};
use crate::cpu::{fetch_word, Cpu, CpuError};
use crate::mov_b::{mov_b_disp24_post, mov_b_post};
use crate::mov_l::mov_l_post;
use crate::mov_w::{mov_w_disp24_post, mov_w_post};

verus! {

broadcast use crate::bits::lemma_even_mask;

/// The transition of one executed instruction: for every covered opcode
/// the machine changes as that instruction's own description says; an
/// opcode outside the covered space leaves the machine unchanged and
/// names itself in the error.
pub open spec fn exec_post(pre: Cpu, post: Cpu, op: u16, r: Result<u8, CpuError>) -> bool {
    let hi = (op >> 8) as u8;
    if hi == 0x01 || hi == 0x0f {
        mov_l_post(pre, post, op, r)
    } else if hi == 0x0c || (0xf0 <= hi && hi <= 0xf7) || hi == 0x68 || hi == 0x6e || hi == 0x6c
        || (0x20 <= hi && hi <= 0x27) || (0x30 <= hi && hi <= 0x37) || hi == 0x6a {
        mov_b_post(pre, post, op, r)
    } else if hi == 0x0d || hi == 0x69 || hi == 0x6f || hi == 0x6d || hi == 0x6b {
        mov_w_post(pre, post, op, r)
    } else if hi == 0x78 {
        let op2 = fetch_word(pre, 0);
        let mid = (Cpu { pc: (pre.pc + 2) as u32, ..pre });
        let hi2 = (op2 >> 8) as u8;
        if hi2 == 0x6a {
            mov_b_disp24_post(mid, post, op, op2, r)
        } else if hi2 == 0x6b {
            mov_w_disp24_post(mid, post, op, op2, r)
        } else {
            post == mid && r == Err::<u8, CpuError>(
                (CpuError::InvalidSecondOpcode { opcode: op, opcode2: op2 }),
            )
        }
    } else if hi == 0x79 {
        if op & 0x00f0 == 0x0000 {
            mov_w_post(pre, post, op, r)
        } else if op & 0x00f0 == 0x0010 {
            add_w_post(pre, post, op, r)
        } else if op & 0x00f0 == 0x0020 {
            cmp_w_post(pre, post, op, r)
        } else if op & 0x00f0 == 0x0030 {
            sub_w_post(pre, post, op, r)
        } else {
            post == pre && r == Err::<u8, CpuError>((CpuError::InvalidOpcode { opcode: op }))
        }
    } else if hi == 0x7a {
        if op & 0x00f0 == 0x0000 {
            mov_l_post(pre, post, op, r)
        } else if op & 0x00f0 == 0x0010 {
            add_l_post(pre, post, op, r)
        } else if op & 0x00f0 == 0x0020 {
            cmp_l_post(pre, post, op, r)
        } else if op & 0x00f0 == 0x0030 {
            sub_l_post(pre, post, op, r)
        } else {
            post == pre && r == Err::<u8, CpuError>((CpuError::InvalidOpcode { opcode: op }))
        }
    } else if hi == 0x08 || (0x80 <= hi && hi <= 0x8f) {
        add_b_post(pre, post, op, r)
    } else if hi == 0x09 {
        add_w_post(pre, post, op, r)
    } else if hi == 0x0a {
        add_l_post(pre, post, op, r)
    } else if hi == 0x0b {
        adds_post(pre, post, op, r)
    } else if hi == 0x18 {
        sub_b_post(pre, post, op, r)
    } else if hi == 0x19 {
        sub_w_post(pre, post, op, r)
    } else if hi == 0x1a {
        sub_l_post(pre, post, op, r)
    } else if hi == 0x1b {
        subs_post(pre, post, op, r)
    } else if hi == 0x1c || (0xa0 <= hi && hi <= 0xa7) {
        cmp_b_post(pre, post, op, r)
    } else if hi == 0x1d {
        cmp_w_post(pre, post, op, r)
    } else if hi == 0x1f {
        cmp_l_post(pre, post, op, r)
    } else if hi == 0x59 || hi == 0x5a || hi == 0x5b {
        jmp_post(pre, post, op, r)
    } else if hi == 0x5d || hi == 0x5e || hi == 0x5f {
        jsr_post(pre, post, op, r)
    } else if (0x40 <= hi && hi <= 0x4f) || hi == 0x58 {
        bcc_post(pre, post, op, r)
    } else if hi == 0x54 {
        rts_post(pre, post, r)
    } else if hi == 0x57 {
        post == pre && r == Ok::<u8, CpuError>(14)
    } else if hi == 0x75 {
        bxor_rn_post(pre, post, op, r)
    } else if hi == 0x7c || hi == 0x7e {
        let op2 = fetch_word(pre, 0);
        let mid = (Cpu { pc: (pre.pc + 2) as u32, ..pre });
        if (op2 >> 8) as u8 == 0x75 {
            if hi == 0x7c {
                bxor_ern_post(mid, post, op, op2, r)
            } else {
                bxor_abs_post(mid, post, op, op2, r)
            }
        } else {
            post == mid && r == Err::<u8, CpuError>(
                (CpuError::InvalidSecondOpcode { opcode: op, opcode2: op2 }),
            )
        }
    } else {
        post == pre && r == Err::<u8, CpuError>((CpuError::InvalidOpcode { opcode: op }))
    }
}

impl Cpu {
    /// Execute the already-fetched opcode word: decode it, run the
    /// instruction, and return the states it consumed.
    pub fn exec(&mut self, opcode: u16) -> (r: Result<u8, CpuError>)
        requires
            old(self).wf(),
            old(self).pc + 8 <= MEMORY_END_ADDR,
        ensures
            final(self).wf(),
            exec_post(*old(self), *final(self), opcode, r),
    {
        match (opcode >> 8) as u8 {
            0x01 | 0x0f => self.mov_l(opcode),
            0x0c | 0xf0..=0xf7 | 0x68 | 0x6e | 0x6c | 0x20..=0x27 | 0x30..=0x37 | 0x6a => self.mov_b(
                opcode,
            ),
            0x0d | 0x69 | 0x6f | 0x6d | 0x6b => self.mov_w(opcode),
            0x78 => {
                let opcode2 = self.fetch();
                match (opcode2 >> 8) as u8 {
                    0x6a => self.mov_b_disp24(opcode, opcode2),
                    0x6b => self.mov_w_disp24(opcode, opcode2),
                    _ => Err(CpuError::InvalidSecondOpcode { opcode, opcode2 }),
                }
            },
            0x79 => match opcode & 0x00f0 {
                0x0000 => self.mov_w(opcode),
                0x0010 => self.add_w(opcode),
                0x0020 => self.cmp_w(opcode),
                0x0030 => self.sub_w(opcode),
                _ => Err(CpuError::InvalidOpcode { opcode }),
            },
            0x7a => match opcode & 0x00f0 {
                0x0000 => self.mov_l(opcode),
                0x0010 => self.add_l(opcode),
                0x0020 => self.cmp_l(opcode),
                0x0030 => self.sub_l(opcode),
                _ => Err(CpuError::InvalidOpcode { opcode }),
            },
            0x08 | 0x80..=0x8f => self.add_b(opcode),
            0x09 => self.add_w(opcode),
            0x0a => self.add_l(opcode),
            0x0b => self.adds(opcode),
            0x18 => self.sub_b(opcode),
            0x19 => self.sub_w(opcode),
            0x1a => self.sub_l(opcode),
            0x1b => self.subs(opcode),
            0x1c | 0xa0..=0xa7 => self.cmp_b(opcode),
            0x1d => self.cmp_w(opcode),
            0x1f => self.cmp_l(opcode),
            0x59 | 0x5a | 0x5b => self.jmp(opcode),
            0x5d | 0x5e | 0x5f => self.jsr(opcode),
            0x40..=0x4f | 0x58 => self.bcc(opcode),
            0x54 => self.rts(),
            0x57 => Ok(14),
            0x75 => self.bxor_rn(opcode),
            0x7c => {
                let opcode2 = self.fetch();
                if (opcode2 >> 8) as u8 == 0x75 {
                    self.bxor_ern(opcode, opcode2)
                } else {
                    Err(CpuError::InvalidSecondOpcode { opcode, opcode2 })
                }
            },
            0x7e => {
                let opcode2 = self.fetch();
                if (opcode2 >> 8) as u8 == 0x75 {
                    self.bxor_abs(opcode, opcode2)
                } else {
                    Err(CpuError::InvalidSecondOpcode { opcode, opcode2 })
                }
            },
            _ => Err(CpuError::InvalidOpcode { opcode }),
        }
    }

    /// One fetch-and-execute round: fetch the opcode at the program
    /// counter, execute it, and add the consumed states to the running
    /// total, which never decreases.
    pub fn step(&mut self) -> (r: Result<u8, CpuError>)
        requires
            old(self).wf(),
            old(self).pc + 10 <= MEMORY_END_ADDR,
            old(self).state_sum + 255 <= u64::MAX,
        ensures
            final(self).wf(),
            ({
                let opcode = fetch_word(*old(self), 0);
                let mid = (Cpu { pc: (old(self).pc + 2) as u32, ..*old(self) });
                let stepped = (Cpu { state_sum: old(self).state_sum, ..*final(self) });
                &&& exec_post(mid, stepped, opcode, r)
                &&& final(self).state_sum == old(self).state_sum + (match r {
                    Ok(s) => s as int,
                    Err(_) => 0int,
                })
            }),
            final(self).state_sum >= old(self).state_sum,
    {
        let opcode = self.fetch();
        match self.exec(opcode) {
            Ok(states) => {
                self.state_sum = self.state_sum + (states as u64);
                Ok(states)
            },
            Err(e) => Err(e),
        }
    }
}

} // verus!
