//! Laws of the register file and of the subroutine call pair, stated
//! over the same view functions the instruction contracts use.

use vstd::prelude::*;

use crate::addressing::ea_ern;
use crate::arith::{add_ccr_w, sub_ccr_w};
use crate::branch::{jsr_post, rts_post};
use crate::bus::{long_at, long_write, next_word_addr, AccessWidth, WriteNote};
use crate::bxor::bxor_ccr;
use crate::ccr::{flag_of, lemma_with_flag, with_flag, CCR};
use crate::cpu::{nibble, Cpu, CpuError};
use crate::mov_b::mov_ccr_b;
use crate::mov_l::mov_ccr_l;
use crate::mov_w::mov_ccr_w;
use crate::regs::{rn_b_of, rn_l_of, rn_w_of, wr_b, wr_l, wr_w};

verus! {

broadcast use crate::bits::lemma_sel_low3, crate::bits::lemma_sel_bit3, crate::bits::lemma_mask24;

/// Writing a byte view reads back as written, and every view it does not
/// overlap is unchanged: every other byte view, every upper-word view and
/// the word and long views of the other registers.
pub proof fn lemma_reg_byte_round_trip(er: Seq<u32>, sel: u8, v: u8)
    requires
        er.len() == 8,
        sel < 16,
    ensures
        rn_b_of(wr_b(er, sel, v), sel) == v,
        forall|s2: u8| s2 < 16 && s2 != sel ==> rn_b_of(wr_b(er, sel, v), s2) == rn_b_of(er, s2),
        forall|s2: u8|
            s2 < 16 && ((s2 & 7) != (sel & 7) || (s2 & 8) == 8) ==> rn_w_of(wr_b(er, sel, v), s2)
                == rn_w_of(er, s2),
        forall|s2: u8| s2 < 8 && s2 != (sel & 7) ==> rn_l_of(wr_b(er, sel, v), s2) == rn_l_of(
            er,
            s2,
        ),
{
    crate::bits::lemma_byte_view_update(er[(sel & 7) as int], v);
    assert forall|s2: u8| s2 < 16 && s2 != sel implies rn_b_of(wr_b(er, sel, v), s2) == rn_b_of(
        er,
        s2,
    ) by {
        crate::bits::lemma_sel_distinct(s2, sel);
        crate::bits::lemma_byte_view_update(er[(sel & 7) as int], v);
    }
}

/// Writing a word view reads back as written, and every view it does not
/// overlap is unchanged: the other word of the same register, every view
/// of the other registers, and (for an upper-word write) the byte views.
pub proof fn lemma_reg_word_round_trip(er: Seq<u32>, sel: u8, v: u16)
    requires
        er.len() == 8,
        sel < 16,
    ensures
        rn_w_of(wr_w(er, sel, v), sel) == v,
        forall|s2: u8|
            s2 < 16 && s2 != sel && ((s2 & 7) != (sel & 7) || (s2 & 8) != (sel & 8)) ==> rn_w_of(
                wr_w(er, sel, v),
                s2,
            ) == rn_w_of(er, s2),
        forall|s2: u8|
            s2 < 16 && ((s2 & 7) != (sel & 7) || (sel & 8) == 8) ==> rn_b_of(wr_w(er, sel, v), s2)
                == rn_b_of(er, s2),
        forall|s2: u8| s2 < 8 && s2 != (sel & 7) ==> rn_l_of(wr_w(er, sel, v), s2) == rn_l_of(
            er,
            s2,
        ),
{
    crate::bits::lemma_word_view_update(er[(sel & 7) as int], v);
    assert forall|s2: u8|
        s2 < 16 && s2 != sel && ((s2 & 7) != (sel & 7) || (s2 & 8) != (sel & 8)) implies rn_w_of(
        wr_w(er, sel, v),
        s2,
    ) == rn_w_of(er, s2) by {
        crate::bits::lemma_sel_distinct(s2, sel);
        crate::bits::lemma_word_view_update(er[(sel & 7) as int], v);
    }
    assert forall|s2: u8|
        s2 < 16 && ((s2 & 7) != (sel & 7) || (sel & 8) == 8) implies rn_b_of(wr_w(er, sel, v), s2)
        == rn_b_of(er, s2) by {
        crate::bits::lemma_word_view_update(er[(sel & 7) as int], v);
    }
}

/// Writing a full register reads back as written and leaves every view
/// of every other register unchanged.
pub proof fn lemma_reg_long_round_trip(er: Seq<u32>, sel: u8, v: u32)
    requires
        er.len() == 8,
        sel < 8,
    ensures
        rn_l_of(wr_l(er, sel, v), sel) == v,
        forall|s2: u8| s2 < 8 && s2 != sel ==> rn_l_of(wr_l(er, sel, v), s2) == rn_l_of(er, s2),
        forall|s2: u8| s2 < 16 && (s2 & 7) != sel ==> rn_w_of(wr_l(er, sel, v), s2) == rn_w_of(
            er,
            s2,
        ),
        forall|s2: u8| s2 < 16 && (s2 & 7) != sel ==> rn_b_of(wr_l(er, sel, v), s2) == rn_b_of(
            er,
            s2,
        ),
{
}

/// One of the four stack bytes a push at `ea` occupies.
pub open spec fn in_pushed_slot(ea: u32, i: int) -> bool {
    i == ea || i == ea + 1 || i == next_word_addr(ea) || i == next_word_addr(ea) + 1
}

/// A long stored by a push reads back as stored.
pub proof fn lemma_push_pop_value(m: Seq<u8>, ea: u32, v: u32)
    requires
        m.len() == 0x1000000,
        ea < 0x1000000,
        ea % 2 == 0,
    ensures
        long_at(long_write(m, ea, v), ea) == v,
        forall|i: int| 0 <= i < 0x1000000 && !in_pushed_slot(ea, i) ==> long_write(m, ea, v)[i]
            == m[i],
{
    crate::bits::lemma_long_recompose(v);
}

/// `JSR @ERn` then `RTS`: from any machine whose stack pointer is even
/// and whose program counter sits in the address space, the call pushes
/// the return address and the return restores it, so registers, flags
/// and program counter all return to their values before the call; only
/// the four pushed stack bytes and the notification log differ, and the
/// state counts of both instructions were charged.
pub proof fn lemma_jsr_rts_round_trip(
    pre: Cpu,
    mid: Cpu,
    post: Cpu,
    op: u16,
    r1: Result<u8, CpuError>,
    r2: Result<u8, CpuError>,
)
    requires
        (op >> 8) as u8 == 0x5d,
        nibble(op, 3) < 8,
        rn_l_of(pre.er@, 7) % 2 == 0,
        pre.pc < 0x1000000,
        pre.bus.memory@.len() == 0x1000000,
        jsr_post(pre, mid, op, r1),
        rts_post(mid, post, r2),
    ensures
        r1 is Ok && r2 is Ok,
        post.pc == pre.pc,
        post.er@ == pre.er@,
        post.ccr == pre.ccr,
        post.exit_addr == pre.exit_addr,
        post.state_sum == pre.state_sum,
        ({
            let ea = rn_l_of(pre.er@, 7).wrapping_sub(4) & 0xffffff;
            &&& forall|i: int| 0 <= i < 0x1000000 && !in_pushed_slot(ea, i)
                ==> post.bus.memory@[i] == pre.bus.memory@[i]
            &&& post.bus.notes@ == pre.bus.notes@.push(
                (WriteNote { width: AccessWidth::Long, addr: ea, value: pre.pc }),
            )
        }),
{
    let sp = rn_l_of(pre.er@, 7);
    let nv = sp.wrapping_sub(4);
    let ea = nv & 0xffffff;
    assert(nv % 2 == 0);
    assert(ea % 2 == 0);
    assert(mid.er@ == wr_l(pre.er@, 7, nv));
    assert(ea_ern(mid.er@, 7) == ea);
    assert(mid.bus.memory@ == long_write(pre.bus.memory@, ea, pre.pc & 0xffffff));
    
    lemma_push_pop_value(pre.bus.memory@, ea, pre.pc & 0xffffff);
    assert(long_at(mid.bus.memory@, ea) == pre.pc & 0xffffff);
    assert(pre.pc & 0xffffff == pre.pc);
    assert(post.pc == (pre.pc & 0xffffff) & 0xffffff);
    assert(post.er@ == wr_l(mid.er@, 7, nv.wrapping_add(4)));
    assert(nv.wrapping_add(4) == sp);
    assert(post.er@ =~= pre.er@);
}

/// The move flag update, one flag at a time: N and Z are as given, V is
/// cleared, and carry, half-carry and every other flag keep their
/// values. `mov_ccr_b`, `mov_ccr_w` and `mov_ccr_l` are instances of
/// this chain with N and Z taken from the moved value.
pub proof fn lemma_mov_flag_chain(c: u8, n: bool, z: bool, g: CCR)
    ensures
        ({
            let r = with_flag(with_flag(with_flag(c, CCR::N, n), CCR::Z, z), CCR::V, false);
            &&& flag_of(r, CCR::N) == (if n { 1u8 } else { 0u8 })
            &&& flag_of(r, CCR::Z) == (if z { 1u8 } else { 0u8 })
            &&& flag_of(r, CCR::V) == 0
            &&& (g != CCR::N && g != CCR::Z && g != CCR::V ==> flag_of(r, g) == flag_of(c, g))
        }),
{
    let c1 = with_flag(c, CCR::N, n);
    let c2 = with_flag(c1, CCR::Z, z);
    lemma_with_flag(c, CCR::N, n, CCR::N);
    lemma_with_flag(c, CCR::N, n, g);
    lemma_with_flag(c1, CCR::Z, z, CCR::N);
    lemma_with_flag(c1, CCR::Z, z, CCR::Z);
    lemma_with_flag(c1, CCR::Z, z, g);
    lemma_with_flag(c2, CCR::V, false, CCR::N);
    lemma_with_flag(c2, CCR::V, false, CCR::Z);
    lemma_with_flag(c2, CCR::V, false, CCR::V);
    lemma_with_flag(c2, CCR::V, false, g);
}

/// A word move against each flag: N is the sign of the moved word, Z its
/// zeroness, V cleared, C and H exactly as they were.
pub proof fn lemma_mov_w_flags(c: u8, v: u16)
    ensures
        flag_of(mov_ccr_w(c, v), CCR::N) == (if v >= 0x8000 { 1u8 } else { 0u8 }),
        flag_of(mov_ccr_w(c, v), CCR::Z) == (if v == 0 { 1u8 } else { 0u8 }),
        flag_of(mov_ccr_w(c, v), CCR::V) == 0,
        flag_of(mov_ccr_w(c, v), CCR::C) == flag_of(c, CCR::C),
        flag_of(mov_ccr_w(c, v), CCR::H) == flag_of(c, CCR::H),
{
    lemma_mov_flag_chain(c, v >= 0x8000, v == 0, CCR::C);
    lemma_mov_flag_chain(c, v >= 0x8000, v == 0, CCR::H);
}

/// A byte move against each flag.
pub proof fn lemma_mov_b_flags(c: u8, v: u8)
    ensures
        flag_of(mov_ccr_b(c, v), CCR::N) == (if v >= 0x80 { 1u8 } else { 0u8 }),
        flag_of(mov_ccr_b(c, v), CCR::Z) == (if v == 0 { 1u8 } else { 0u8 }),
        flag_of(mov_ccr_b(c, v), CCR::V) == 0,
        flag_of(mov_ccr_b(c, v), CCR::C) == flag_of(c, CCR::C),
        flag_of(mov_ccr_b(c, v), CCR::H) == flag_of(c, CCR::H),
{
    lemma_mov_flag_chain(c, v >= 0x80, v == 0, CCR::C);
    lemma_mov_flag_chain(c, v >= 0x80, v == 0, CCR::H);
}

/// A long move against each flag.
pub proof fn lemma_mov_l_flags(c: u8, v: u32)
    ensures
        flag_of(mov_ccr_l(c, v), CCR::N) == (if v >= 0x80000000 { 1u8 } else { 0u8 }),
        flag_of(mov_ccr_l(c, v), CCR::Z) == (if v == 0 { 1u8 } else { 0u8 }),
        flag_of(mov_ccr_l(c, v), CCR::V) == 0,
        flag_of(mov_ccr_l(c, v), CCR::C) == flag_of(c, CCR::C),
        flag_of(mov_ccr_l(c, v), CCR::H) == flag_of(c, CCR::H),
{
    lemma_mov_flag_chain(c, v >= 0x80000000, v == 0, CCR::C);
    lemma_mov_flag_chain(c, v >= 0x80000000, v == 0, CCR::H);
}

/// The arithmetic flag update, one flag at a time: H, N, Z, V and C are
/// as given and the remaining flags keep their values. The `add_ccr` and
/// `sub_ccr` functions of every width are instances of this chain with
/// the reference formulas filled in.
pub proof fn lemma_arith_flag_chain(c: u8, h: bool, n: bool, z: bool, v: bool, carry: bool, g: CCR)
    ensures
        ({
            let r = with_flag(
                with_flag(
                    with_flag(with_flag(with_flag(c, CCR::H, h), CCR::N, n), CCR::Z, z),
                    CCR::V,
                    v,
                ),
                CCR::C,
                carry,
            );
            &&& flag_of(r, CCR::H) == (if h { 1u8 } else { 0u8 })
            &&& flag_of(r, CCR::N) == (if n { 1u8 } else { 0u8 })
            &&& flag_of(r, CCR::Z) == (if z { 1u8 } else { 0u8 })
            &&& flag_of(r, CCR::V) == (if v { 1u8 } else { 0u8 })
            &&& flag_of(r, CCR::C) == (if carry { 1u8 } else { 0u8 })
            &&& (g != CCR::H && g != CCR::N && g != CCR::Z && g != CCR::V && g != CCR::C
                ==> flag_of(r, g) == flag_of(c, g))
        }),
{
    let c1 = with_flag(c, CCR::H, h);
    let c2 = with_flag(c1, CCR::N, n);
    let c3 = with_flag(c2, CCR::Z, z);
    let c4 = with_flag(c3, CCR::V, v);
    lemma_with_flag(c, CCR::H, h, CCR::H);
    lemma_with_flag(c, CCR::H, h, g);
    lemma_with_flag(c1, CCR::N, n, CCR::H);
    lemma_with_flag(c1, CCR::N, n, CCR::N);
    lemma_with_flag(c1, CCR::N, n, g);
    lemma_with_flag(c2, CCR::Z, z, CCR::H);
    lemma_with_flag(c2, CCR::Z, z, CCR::N);
    lemma_with_flag(c2, CCR::Z, z, CCR::Z);
    lemma_with_flag(c2, CCR::Z, z, g);
    lemma_with_flag(c3, CCR::V, v, CCR::H);
    lemma_with_flag(c3, CCR::V, v, CCR::N);
    lemma_with_flag(c3, CCR::V, v, CCR::Z);
    lemma_with_flag(c3, CCR::V, v, CCR::V);
    lemma_with_flag(c3, CCR::V, v, g);
    lemma_with_flag(c4, CCR::C, carry, CCR::H);
    lemma_with_flag(c4, CCR::C, carry, CCR::N);
    lemma_with_flag(c4, CCR::C, carry, CCR::Z);
    lemma_with_flag(c4, CCR::C, carry, CCR::V);
    lemma_with_flag(c4, CCR::C, carry, CCR::C);
    lemma_with_flag(c4, CCR::C, carry, g);
}

/// A word addition against each flag: exactly the reference formulas.
pub proof fn lemma_add_w_flags(c: u8, a: u16, b: u16)
    ensures
        flag_of(add_ccr_w(c, a, b), CCR::H) == (if (a & 0xfff) + (b & 0xfff) > 0xfff {
            1u8
        } else {
            0u8
        }),
        flag_of(add_ccr_w(c, a, b), CCR::N) == (if a.wrapping_add(b) >= 0x8000 {
            1u8
        } else {
            0u8
        }),
        flag_of(add_ccr_w(c, a, b), CCR::Z) == (if a.wrapping_add(b) == 0 {
            1u8
        } else {
            0u8
        }),
        flag_of(add_ccr_w(c, a, b), CCR::V) == (if ((!(a ^ b)) & (a ^ a.wrapping_add(b))) & 0x8000
            != 0 {
            1u8
        } else {
            0u8
        }),
        flag_of(add_ccr_w(c, a, b), CCR::C) == (if a + b > 0xffff {
            1u8
        } else {
            0u8
        }),
        flag_of(add_ccr_w(c, a, b), CCR::U) == flag_of(c, CCR::U),
        flag_of(add_ccr_w(c, a, b), CCR::I) == flag_of(c, CCR::I),
{
    let res = a.wrapping_add(b);
    lemma_arith_flag_chain(
        c,
        (a & 0xfff) + (b & 0xfff) > 0xfff,
        res >= 0x8000,
        res == 0,
        ((!(a ^ b)) & (a ^ res)) & 0x8000 != 0,
        a + b > 0xffff,
        CCR::U,
    );
    lemma_arith_flag_chain(
        c,
        (a & 0xfff) + (b & 0xfff) > 0xfff,
        res >= 0x8000,
        res == 0,
        ((!(a ^ b)) & (a ^ res)) & 0x8000 != 0,
        a + b > 0xffff,
        CCR::I,
    );
}

/// A word subtraction or compare against each flag: exactly the
/// reference formulas, with the borrow as carry.
pub proof fn lemma_sub_w_flags(c: u8, a: u16, b: u16)
    ensures
        flag_of(sub_ccr_w(c, a, b), CCR::H) == (if (a & 0xfff) < (b & 0xfff) {
            1u8
        } else {
            0u8
        }),
        flag_of(sub_ccr_w(c, a, b), CCR::N) == (if a.wrapping_sub(b) >= 0x8000 {
            1u8
        } else {
            0u8
        }),
        flag_of(sub_ccr_w(c, a, b), CCR::Z) == (if a.wrapping_sub(b) == 0 {
            1u8
        } else {
            0u8
        }),
        flag_of(sub_ccr_w(c, a, b), CCR::V) == (if ((a ^ b) & (a ^ a.wrapping_sub(b))) & 0x8000
            != 0 {
            1u8
        } else {
            0u8
        }),
        flag_of(sub_ccr_w(c, a, b), CCR::C) == (if a < b {
            1u8
        } else {
            0u8
        }),
        flag_of(sub_ccr_w(c, a, b), CCR::U) == flag_of(c, CCR::U),
        flag_of(sub_ccr_w(c, a, b), CCR::I) == flag_of(c, CCR::I),
{
    let res = a.wrapping_sub(b);
    lemma_arith_flag_chain(
        c,
        (a & 0xfff) < (b & 0xfff),
        res >= 0x8000,
        res == 0,
        ((a ^ b) & (a ^ res)) & 0x8000 != 0,
        a < b,
        CCR::U,
    );
    lemma_arith_flag_chain(
        c,
        (a & 0xfff) < (b & 0xfff),
        res >= 0x8000,
        res == 0,
        ((a ^ b) & (a ^ res)) & 0x8000 != 0,
        a < b,
        CCR::I,
    );
}

/// BXOR touches the carry flag alone: it becomes the exclusive-or of the
/// chosen bit with the old carry, and every other flag keeps its value.
pub proof fn lemma_bxor_flags(c: u8, v: u8, imm: u8, g: CCR)
    ensures
        flag_of(bxor_ccr(c, v, imm), CCR::C) == (((v >> imm) & 1) ^ flag_of(c, CCR::C)),
        g != CCR::C ==> flag_of(bxor_ccr(c, v, imm), g) == flag_of(c, g),
{
    let bit = ((v >> imm) & 1) ^ flag_of(c, CCR::C);
    crate::bits::lemma_low_bit(v >> imm);
    crate::bits::lemma_low_bit(c >> 0);
    crate::bits::lemma_bit_xor((v >> imm) & 1, flag_of(c, CCR::C));
    lemma_with_flag(c, CCR::C, bit == 1, CCR::C);
    lemma_with_flag(c, CCR::C, bit == 1, g);
}

} // verus!
