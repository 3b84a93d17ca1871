//! The register file: eight 32-bit registers with aliased views. A 4-bit
//! selector names a view; bits 0..2 pick the register. For byte views
//! bit 3 picks the low (0) or high (1) byte of the lower word; for word
//! views it picks the lower (0) or upper (1) word; for long views it must
//! be zero. Partial writes preserve every unaddressed bit.

use vstd::prelude::*;

use crate::cpu::{Cpu, CpuError};

verus! {

broadcast use crate::bits::lemma_sel_low3, crate::bits::lemma_sel_bit3;

/// Index of the register a selector names.
pub open spec fn reg_idx(sel: u8) -> int {
    (sel & 7) as int
}

/// The byte view a selector names.
pub open spec fn rn_b_of(er: Seq<u32>, sel: u8) -> u8 {
    if sel & 8 == 0 {
        er[reg_idx(sel)] as u8
    } else {
        (er[reg_idx(sel)] >> 8) as u8
    }
}

/// The register file after a write to a byte view.
pub open spec fn wr_b(er: Seq<u32>, sel: u8, v: u8) -> Seq<u32> {
    let x = er[reg_idx(sel)];
    if sel & 8 == 0 {
        er.update(reg_idx(sel), (x & 0xffffff00) | (v as u32))
    } else {
        er.update(reg_idx(sel), (x & 0xffff00ff) | ((v as u32) << 8))
    }
}

/// The word view a selector names.
pub open spec fn rn_w_of(er: Seq<u32>, sel: u8) -> u16 {
    if sel & 8 == 0 {
        er[reg_idx(sel)] as u16
    } else {
        (er[reg_idx(sel)] >> 16) as u16
    }
}

/// The register file after a write to a word view.
pub open spec fn wr_w(er: Seq<u32>, sel: u8, v: u16) -> Seq<u32> {
    let x = er[reg_idx(sel)];
    if sel & 8 == 0 {
        er.update(reg_idx(sel), (x & 0xffff0000) | (v as u32))
    } else {
        er.update(reg_idx(sel), (x & 0x0000ffff) | ((v as u32) << 16))
    }
}

/// The long view a selector names; meaningful when bit 3 is clear.
pub open spec fn rn_l_of(er: Seq<u32>, sel: u8) -> u32 {
    er[reg_idx(sel)]
}

/// The register file after a write to a long view.
pub open spec fn wr_l(er: Seq<u32>, sel: u8, v: u32) -> Seq<u32> {
    er.update(reg_idx(sel), v)
}

impl Cpu {
    /// Read a byte view of the register file: zero-extended low or high
    /// byte of the selected lower word.
    pub fn read_rn_b(&self, register_field: u8) -> (r: Result<u8, CpuError>)
        ensures
            register_field < 16 ==> r == Ok::<u8, CpuError>(rn_b_of(self.er@, register_field)),
            register_field >= 16 ==> r == Err::<u8, CpuError>(
                (CpuError::InvalidRegister { field: register_field }),
            ),
    {
        if register_field < 8 {
            Ok(self.er[(register_field & 7) as usize] as u8)
        } else if register_field < 16 {
            Ok((self.er[(register_field & 7) as usize] >> 8) as u8)
        } else {
            Err(CpuError::InvalidRegister { field: register_field })
        }
    }

    /// Write a byte view of the register file; the other 24 bits of the
    /// register keep their values.
    pub fn write_rn_b(&mut self, register_field: u8, value: u8) -> (r: Result<(), CpuError>)
        ensures
            register_field < 16 ==> final(self).er@ == wr_b(old(self).er@, register_field, value)
                && r == Ok::<(), CpuError>(()),
            register_field >= 16 ==> *final(self) == *old(self) && r == Err::<(), CpuError>(
                (CpuError::InvalidRegister { field: register_field }),
            ),
            *final(self) == (Cpu { er: final(self).er, ..*old(self) }),
    {
        if register_field < 8 {
            let i = (register_field & 7) as usize;
            let x = self.er[i];
            self.er[i] = (x & 0xffffff00) | (value as u32);
            Ok(())
        } else if register_field < 16 {
            let i = (register_field & 7) as usize;
            let x = self.er[i];
            self.er[i] = (x & 0xffff00ff) | ((value as u32) << 8);
            Ok(())
        } else {
            Err(CpuError::InvalidRegister { field: register_field })
        }
    }

    /// Read a word view of the register file: the lower or upper word of
    /// the selected register.
    pub fn read_rn_w(&self, register_field: u8) -> (r: Result<u16, CpuError>)
        ensures
            register_field < 16 ==> r == Ok::<u16, CpuError>(rn_w_of(self.er@, register_field)),
            register_field >= 16 ==> r == Err::<u16, CpuError>(
                (CpuError::InvalidRegister { field: register_field }),
            ),
    {
        if register_field < 8 {
            Ok(self.er[(register_field & 7) as usize] as u16)
        } else if register_field < 16 {
            Ok((self.er[(register_field & 7) as usize] >> 16) as u16)
        } else {
            Err(CpuError::InvalidRegister { field: register_field })
        }
    }

    /// Write a word view of the register file; the other word of the
    /// register keeps its value.
    pub fn write_rn_w(&mut self, register_field: u8, value: u16) -> (r: Result<(), CpuError>)
        ensures
            register_field < 16 ==> final(self).er@ == wr_w(old(self).er@, register_field, value)
                && r == Ok::<(), CpuError>(()),
            register_field >= 16 ==> *final(self) == *old(self) && r == Err::<(), CpuError>(
                (CpuError::InvalidRegister { field: register_field }),
            ),
            *final(self) == (Cpu { er: final(self).er, ..*old(self) }),
    {
        if register_field < 8 {
            let i = (register_field & 7) as usize;
            let x = self.er[i];
            self.er[i] = (x & 0xffff0000) | (value as u32);
            Ok(())
        } else if register_field < 16 {
            let i = (register_field & 7) as usize;
            let x = self.er[i];
            self.er[i] = (x & 0x0000ffff) | ((value as u32) << 16);
            Ok(())
        } else {
            Err(CpuError::InvalidRegister { field: register_field })
        }
    }

    /// Read a full 32-bit register; the selector's high bit must be
    /// clear, as the instruction encoding demands.
    pub fn read_rn_l(&self, register_field: u8) -> (r: Result<u32, CpuError>)
        ensures
            register_field < 8 ==> r == Ok::<u32, CpuError>(rn_l_of(self.er@, register_field)),
            register_field >= 8 ==> r == Err::<u32, CpuError>(
                (CpuError::InvalidRegister { field: register_field }),
            ),
    {
        if register_field < 8 {
            Ok(self.er[register_field as usize])
        } else {
            Err(CpuError::InvalidRegister { field: register_field })
        }
    }

    /// Write a full 32-bit register; the selector's high bit must be
    /// clear.
    pub fn write_rn_l(&mut self, register_field: u8, value: u32) -> (r: Result<(), CpuError>)
        ensures
            register_field < 8 ==> final(self).er@ == wr_l(old(self).er@, register_field, value)
                && r == Ok::<(), CpuError>(()),
            register_field >= 8 ==> *final(self) == *old(self) && r == Err::<(), CpuError>(
                (CpuError::InvalidRegister { field: register_field }),
            ),
            *final(self) == (Cpu { er: final(self).er, ..*old(self) }),
    {
        if register_field < 8 {
            self.er[register_field as usize] = value;
            Ok(())
        } else {
            Err(CpuError::InvalidRegister { field: register_field })
        }
    }
}

} // verus!
