//! The condition code register: eight one-bit flags, addressed by name.
//! Carry, overflow, zero, negative and half-carry have defined updates in
//! the covered instruction set; the remaining bits are only stored.

use vstd::prelude::*;

verus! {

/// One flag of the condition code register, from the least significant
/// bit up: carry, overflow, zero, negative, user, half-carry,
/// user/interrupt, interrupt mask.
#[derive(Clone, Copy, Debug, PartialEq, Eq, Structural)]
pub enum CCR {
    C,
    V,
    Z,
    N,
    U,
    H,
    UI,
    I,
}

/// Bit position of a flag inside the register.
pub open spec fn flag_pos(f: CCR) -> u8 {
    match f {
        CCR::C => 0,
        CCR::V => 1,
        CCR::Z => 2,
        CCR::N => 3,
        CCR::U => 4,
        CCR::H => 5,
        CCR::UI => 6,
        CCR::I => 7,
    }
}

/// The value of one flag, 0 or 1.
pub open spec fn flag_of(ccr: u8, f: CCR) -> u8 {
    (ccr >> flag_pos(f)) & 1
}

/// The register with one flag set to the given truth value and every
/// other bit unchanged.
pub open spec fn with_flag(ccr: u8, f: CCR, bit: bool) -> u8 {
    if bit {
        ccr | (1u8 << flag_pos(f))
    } else {
        ccr & !(1u8 << flag_pos(f))
    }
}

/// A single-flag update reads back as written and leaves the other flags
/// unchanged.
pub proof fn lemma_with_flag(ccr: u8, f: CCR, bit: bool, g: CCR)
    ensures
        flag_of(with_flag(ccr, f, bit), f) == (if bit {
            1u8
        } else {
            0u8
        }),
        g != f ==> flag_of(with_flag(ccr, f, bit), g) == flag_of(ccr, g),
{
    crate::bits::lemma_flag_update(ccr, flag_pos(f), flag_pos(g));
}

} // verus!
