//! Addressing-mode resolver: effective-address computation and the typed
//! memory accessors for every covered mode. Every effective address is a
//! 24-bit address into the memory image; word and long accesses fault at
//! odd addresses. Post-increment reads use the register value before the
//! update; pre-decrement writes use the value after it.

use vstd::prelude::*;

use crate::bus::{long_at, long_write, word_at, word_write};
use crate::cpu::{Cpu, CpuError, ADDRESS_MASK};
use crate::regs::{rn_l_of, wr_l};

verus! {

broadcast use
    crate::bits::lemma_mask24,
    crate::bits::lemma_abs8_ea,
    crate::bits::lemma_abs16_ea,
    crate::bits::lemma_sel_low3;


/// A 16-bit displacement sign-extended to 32 bits.
pub open spec fn sx16(d: u16) -> u32 {
    if d & 0x8000 != 0 {
        0xffff0000u32 | (d as u32)
    } else {
        d as u32
    }
}

/// Effective address of `@ERn`: the low 24 bits of the register.
pub open spec fn ea_ern(er: Seq<u32>, sel: u8) -> u32 {
    rn_l_of(er, sel) & 0xffffff
}

/// Effective address of `@(d16,ERn)`.
pub open spec fn ea_disp16(er: Seq<u32>, sel: u8, disp: u16) -> u32 {
    rn_l_of(er, sel).wrapping_add(sx16(disp)) & 0xffffff
}

/// Effective address of `@(d24,ERn)`.
pub open spec fn ea_disp24(er: Seq<u32>, sel: u8, disp: u32) -> u32 {
    rn_l_of(er, sel).wrapping_add(disp) & 0xffffff
}

/// Effective address of `@aa:8`: the top page of the address space.
pub open spec fn ea_abs8(abs: u8) -> u32 {
    0xffff00u32 | (abs as u32)
}

/// Effective address of `@aa:16`: the upper eight bits follow bit 15.
pub open spec fn ea_abs16(abs: u16) -> u32 {
    if abs & 0x8000 != 0 {
        0xff0000u32 | (abs as u32)
    } else {
        abs as u32
    }
}

/// Effective address of `@aa:24`.
pub open spec fn ea_abs24(abs: u32) -> u32 {
    abs & 0xffffff
}

impl Cpu {
    /// Effective address of `@ERn`.
    pub fn get_addr_ern(&self, register_ern: u8) -> (r: Result<u32, CpuError>)
        ensures
            register_ern < 8 ==> r == Ok::<u32, CpuError>(ea_ern(self.er@, register_ern)),
            register_ern >= 8 ==> r == Err::<u32, CpuError>(
                (CpuError::InvalidRegister { field: register_ern }),
            ),
    {
        match self.read_rn_l(register_ern) {
            Ok(v) => Ok(v & ADDRESS_MASK),
            Err(e) => Err(e),
        }
    }

    /// Effective address of `@(d16,ERn)`.
    pub fn get_addr_disp16(&self, register_ern: u8, disp: u16) -> (r: Result<u32, CpuError>)
        ensures
            register_ern < 8 ==> r == Ok::<u32, CpuError>(ea_disp16(self.er@, register_ern, disp)),
            register_ern >= 8 ==> r == Err::<u32, CpuError>(
                (CpuError::InvalidRegister { field: register_ern }),
            ),
    {
        let sx: u32 = if disp & 0x8000 != 0 {
            0xffff0000u32 | (disp as u32)
        } else {
            disp as u32
        };
        match self.read_rn_l(register_ern) {
            Ok(v) => Ok(v.wrapping_add(sx) & ADDRESS_MASK),
            Err(e) => Err(e),
        }
    }

    /// Effective address of `@(d24,ERn)`.
    pub fn get_addr_disp24(&self, register_ern: u8, disp: u32) -> (r: Result<u32, CpuError>)
        ensures
            register_ern < 8 ==> r == Ok::<u32, CpuError>(ea_disp24(self.er@, register_ern, disp)),
            register_ern >= 8 ==> r == Err::<u32, CpuError>(
                (CpuError::InvalidRegister { field: register_ern }),
            ),
    {
        match self.read_rn_l(register_ern) {
            Ok(v) => Ok(v.wrapping_add(disp) & ADDRESS_MASK),
            Err(e) => Err(e),
        }
    }

    /// Effective address of `@aa:16`.
    pub fn get_addr_abs16(&self, abs_addr: u16) -> (r: u32)
        ensures
            r == ea_abs16(abs_addr),
    {
        if abs_addr & 0x8000 != 0 {
            0xff0000u32 | (abs_addr as u32)
        } else {
            abs_addr as u32
        }
    }

    /// Byte read through `@ERn`.
    pub fn read_ern_b(&self, register_ern: u8) -> (r: Result<u8, CpuError>)
        requires
            self.wf(),
        ensures
            register_ern < 8 ==> r == Ok::<u8, CpuError>(
                self.bus.memory@[ea_ern(self.er@, register_ern) as int],
            ),
            register_ern >= 8 ==> r == Err::<u8, CpuError>(
                (CpuError::InvalidRegister { field: register_ern }),
            ),
    {
        let addr = match self.get_addr_ern(register_ern) {
            Ok(a) => a,
            Err(e) => return Err(e),
        };
        Ok(self.bus.read8(addr))
    }

    /// Byte write through `@ERn`.
    pub fn write_ern_b(&mut self, register_ern: u8, value: u8) -> (r: Result<(), CpuError>)
        requires
            old(self).wf(),
        ensures
            final(self).wf(),
            *final(self) == (Cpu { bus: final(self).bus, ..*old(self) }),
            register_ern < 8 ==> ({
                let ea = ea_ern(old(self).er@, register_ern);
                final(self).bus.memory@ == old(self).bus.memory@.update(ea as int, value)
                    && final(self).bus.notes@ == old(self).bus.notes@.push(
                    (crate::bus::WriteNote {
                        width: crate::bus::AccessWidth::Byte,
                        addr: ea,
                        value: value as u32,
                    }),
                ) && r == Ok::<(), CpuError>(())
            }),
            register_ern >= 8 ==> *final(self) == *old(self) && r == Err::<(), CpuError>(
                (CpuError::InvalidRegister { field: register_ern }),
            ),
    {
        let addr = match self.get_addr_ern(register_ern) {
            Ok(a) => a,
            Err(e) => return Err(e),
        };
        self.bus.write8(addr, value);
        Ok(())
    }

    /// Word read through `@ERn`.
    pub fn read_ern_w(&self, register_ern: u8) -> (r: Result<u16, CpuError>)
        requires
            self.wf(),
        ensures
            register_ern < 8 ==> ({
                let ea = ea_ern(self.er@, register_ern);
                if ea % 2 == 0 {
                    r == Ok::<u16, CpuError>(word_at(self.bus.memory@, ea))
                } else {
                    r == Err::<u16, CpuError>((CpuError::MisalignedAccess { address: ea }))
                }
            }),
            register_ern >= 8 ==> r == Err::<u16, CpuError>(
                (CpuError::InvalidRegister { field: register_ern }),
            ),
    {
        let addr = match self.get_addr_ern(register_ern) {
            Ok(a) => a,
            Err(e) => return Err(e),
        };
        if addr % 2 != 0 {
            return Err(CpuError::MisalignedAccess { address: addr });
        }
        Ok(self.bus.read16(addr))
    }

    /// Word write through `@ERn`.
    pub fn write_ern_w(&mut self, register_ern: u8, value: u16) -> (r: Result<(), CpuError>)
        requires
            old(self).wf(),
        ensures
            final(self).wf(),
            *final(self) == (Cpu { bus: final(self).bus, ..*old(self) }),
            register_ern < 8 ==> ({
                let ea = ea_ern(old(self).er@, register_ern);
                if ea % 2 == 0 {
                    final(self).bus.memory@ == word_write(old(self).bus.memory@, ea, value)
                        && final(self).bus.notes@ == old(self).bus.notes@.push(
                        (crate::bus::WriteNote {
                            width: crate::bus::AccessWidth::Word,
                            addr: ea,
                            value: value as u32,
                        }),
                    ) && r == Ok::<(), CpuError>(())
                } else {
                    *final(self) == *old(self) && r == Err::<(), CpuError>(
                        (CpuError::MisalignedAccess { address: ea }),
                    )
                }
            }),
            register_ern >= 8 ==> *final(self) == *old(self) && r == Err::<(), CpuError>(
                (CpuError::InvalidRegister { field: register_ern }),
            ),
    {
        let addr = match self.get_addr_ern(register_ern) {
            Ok(a) => a,
            Err(e) => return Err(e),
        };
        if addr % 2 != 0 {
            return Err(CpuError::MisalignedAccess { address: addr });
        }
        self.bus.write16(addr, value);
        Ok(())
    }

    /// Long read through `@ERn`.
    pub fn read_ern_l(&self, register_ern: u8) -> (r: Result<u32, CpuError>)
        requires
            self.wf(),
        ensures
            register_ern < 8 ==> ({
                let ea = ea_ern(self.er@, register_ern);
                if ea % 2 == 0 {
                    r == Ok::<u32, CpuError>(long_at(self.bus.memory@, ea))
                } else {
                    r == Err::<u32, CpuError>((CpuError::MisalignedAccess { address: ea }))
                }
            }),
            register_ern >= 8 ==> r == Err::<u32, CpuError>(
                (CpuError::InvalidRegister { field: register_ern }),
            ),
    {
        let addr = match self.get_addr_ern(register_ern) {
            Ok(a) => a,
            Err(e) => return Err(e),
        };
        if addr % 2 != 0 {
            return Err(CpuError::MisalignedAccess { address: addr });
        }
        Ok(self.bus.read32(addr))
    }

    /// Long write through `@ERn`.
    pub fn write_ern_l(&mut self, register_ern: u8, value: u32) -> (r: Result<(), CpuError>)
        requires
            old(self).wf(),
        ensures
            final(self).wf(),
            *final(self) == (Cpu { bus: final(self).bus, ..*old(self) }),
            register_ern < 8 ==> ({
                let ea = ea_ern(old(self).er@, register_ern);
                if ea % 2 == 0 {
                    final(self).bus.memory@ == long_write(old(self).bus.memory@, ea, value)
                        && final(self).bus.notes@ == old(self).bus.notes@.push(
                        (crate::bus::WriteNote {
                            width: crate::bus::AccessWidth::Long,
                            addr: ea,
                            value,
                        }),
                    ) && r == Ok::<(), CpuError>(())
                } else {
                    *final(self) == *old(self) && r == Err::<(), CpuError>(
                        (CpuError::MisalignedAccess { address: ea }),
                    )
                }
            }),
            register_ern >= 8 ==> *final(self) == *old(self) && r == Err::<(), CpuError>(
                (CpuError::InvalidRegister { field: register_ern }),
            ),
    {
        let addr = match self.get_addr_ern(register_ern) {
            Ok(a) => a,
            Err(e) => return Err(e),
        };
        if addr % 2 != 0 {
            return Err(CpuError::MisalignedAccess { address: addr });
        }
        self.bus.write32(addr, value);
        Ok(())
    }

    /// Byte read through `@(d16,ERn)`.
    pub fn read_disp16_ern_b(&self, register_ern: u8, disp: u16) -> (r: Result<u8, CpuError>)
        requires
            self.wf(),
        ensures
            register_ern < 8 ==> ({
                let ea = ea_disp16(self.er@, register_ern, disp);
                r == Ok::<u8, CpuError>(self.bus.memory@[ea as int])
            }),
            register_ern >= 8 ==> r == Err::<u8, CpuError>(
                (CpuError::InvalidRegister { field: register_ern }),
            ),
    {
        let addr = match self.get_addr_disp16(register_ern, disp) {
            Ok(a) => a,
            Err(e) => return Err(e),
        };
        Ok(self.bus.read8(addr))
    }
    /// Byte write through `@(d16,ERn)`.
    pub fn write_disp16_ern_b(&mut self, register_ern: u8, disp: u16, value: u8) -> (r: Result<(), CpuError>)
        requires
            old(self).wf(),
        ensures
            final(self).wf(),
            *final(self) == (Cpu { bus: final(self).bus, ..*old(self) }),
            register_ern < 8 ==> ({
                let ea = ea_disp16(old(self).er@, register_ern, disp);
                final(self).bus.memory@ == old(self).bus.memory@.update(ea as int, value) && final(self).bus.notes@ == old(
                    self,
                ).bus.notes@.push(
                    (crate::bus::WriteNote {
                        width: crate::bus::AccessWidth::Byte,
                        addr: ea,
                        value: value as u32,
                    }),
                ) && r == Ok::<(), CpuError>(())
            }),
            register_ern >= 8 ==> *final(self) == *old(self) && r == Err::<(), CpuError>(
                (CpuError::InvalidRegister { field: register_ern }),
            ),
    {
        let addr = match self.get_addr_disp16(register_ern, disp) {
            Ok(a) => a,
            Err(e) => return Err(e),
        };
        self.bus.write8(addr, value);
        Ok(())
    }
    /// Word read through `@(d16,ERn)`.
    pub fn read_disp16_ern_w(&self, register_ern: u8, disp: u16) -> (r: Result<u16, CpuError>)
        requires
            self.wf(),
        ensures
            register_ern < 8 ==> ({
                let ea = ea_disp16(self.er@, register_ern, disp);
                if ea % 2 == 0 {
                    r == Ok::<u16, CpuError>(word_at(self.bus.memory@, ea))
                } else {
                    r == Err::<u16, CpuError>((CpuError::MisalignedAccess { address: ea }))
                }
            }),
            register_ern >= 8 ==> r == Err::<u16, CpuError>(
                (CpuError::InvalidRegister { field: register_ern }),
            ),
    {
        let addr = match self.get_addr_disp16(register_ern, disp) {
            Ok(a) => a,
            Err(e) => return Err(e),
        };
        if addr % 2 != 0 {
            return Err(CpuError::MisalignedAccess { address: addr });
        }
        Ok(self.bus.read16(addr))
    }
    /// Word write through `@(d16,ERn)`.
    pub fn write_disp16_ern_w(&mut self, register_ern: u8, disp: u16, value: u16) -> (r: Result<(), CpuError>)
        requires
            old(self).wf(),
        ensures
            final(self).wf(),
            *final(self) == (Cpu { bus: final(self).bus, ..*old(self) }),
            register_ern < 8 ==> ({
                let ea = ea_disp16(old(self).er@, register_ern, disp);
                if ea % 2 == 0 {
                    final(self).bus.memory@ == word_write(old(self).bus.memory@, ea, value) && final(self).bus.notes@ == old(
                        self,
                    ).bus.notes@.push(
                        (crate::bus::WriteNote {
                            width: crate::bus::AccessWidth::Word,
                            addr: ea,
                            value: value as u32,
                        }),
                    ) && r == Ok::<(), CpuError>(())
                } else {
                    *final(self) == *old(self) && r == Err::<(), CpuError>(
                        (CpuError::MisalignedAccess { address: ea }),
                    )
                }
            }),
            register_ern >= 8 ==> *final(self) == *old(self) && r == Err::<(), CpuError>(
                (CpuError::InvalidRegister { field: register_ern }),
            ),
    {
        let addr = match self.get_addr_disp16(register_ern, disp) {
            Ok(a) => a,
            Err(e) => return Err(e),
        };
        if addr % 2 != 0 {
            return Err(CpuError::MisalignedAccess { address: addr });
        }
        self.bus.write16(addr, value);
        Ok(())
    }
    /// Long read through `@(d16,ERn)`.
    pub fn read_disp16_ern_l(&self, register_ern: u8, disp: u16) -> (r: Result<u32, CpuError>)
        requires
            self.wf(),
        ensures
            register_ern < 8 ==> ({
                let ea = ea_disp16(self.er@, register_ern, disp);
                if ea % 2 == 0 {
                    r == Ok::<u32, CpuError>(long_at(self.bus.memory@, ea))
                } else {
                    r == Err::<u32, CpuError>((CpuError::MisalignedAccess { address: ea }))
                }
            }),
            register_ern >= 8 ==> r == Err::<u32, CpuError>(
                (CpuError::InvalidRegister { field: register_ern }),
            ),
    {
        let addr = match self.get_addr_disp16(register_ern, disp) {
            Ok(a) => a,
            Err(e) => return Err(e),
        };
        if addr % 2 != 0 {
            return Err(CpuError::MisalignedAccess { address: addr });
        }
        Ok(self.bus.read32(addr))
    }
    /// Long write through `@(d16,ERn)`.
    pub fn write_disp16_ern_l(&mut self, register_ern: u8, disp: u16, value: u32) -> (r: Result<(), CpuError>)
        requires
            old(self).wf(),
        ensures
            final(self).wf(),
            *final(self) == (Cpu { bus: final(self).bus, ..*old(self) }),
            register_ern < 8 ==> ({
                let ea = ea_disp16(old(self).er@, register_ern, disp);
                if ea % 2 == 0 {
                    final(self).bus.memory@ == long_write(old(self).bus.memory@, ea, value) && final(self).bus.notes@ == old(
                        self,
                    ).bus.notes@.push(
                        (crate::bus::WriteNote {
                            width: crate::bus::AccessWidth::Long,
                            addr: ea,
                            value: value,
                        }),
                    ) && r == Ok::<(), CpuError>(())
                } else {
                    *final(self) == *old(self) && r == Err::<(), CpuError>(
                        (CpuError::MisalignedAccess { address: ea }),
                    )
                }
            }),
            register_ern >= 8 ==> *final(self) == *old(self) && r == Err::<(), CpuError>(
                (CpuError::InvalidRegister { field: register_ern }),
            ),
    {
        let addr = match self.get_addr_disp16(register_ern, disp) {
            Ok(a) => a,
            Err(e) => return Err(e),
        };
        if addr % 2 != 0 {
            return Err(CpuError::MisalignedAccess { address: addr });
        }
        self.bus.write32(addr, value);
        Ok(())
    }
    /// Byte read through `@(d24,ERn)`.
    pub fn read_disp24_ern_b(&self, register_ern: u8, disp: u32) -> (r: Result<u8, CpuError>)
        requires
            self.wf(),
        ensures
            register_ern < 8 ==> ({
                let ea = ea_disp24(self.er@, register_ern, disp);
                r == Ok::<u8, CpuError>(self.bus.memory@[ea as int])
            }),
            register_ern >= 8 ==> r == Err::<u8, CpuError>(
                (CpuError::InvalidRegister { field: register_ern }),
            ),
    {
        let addr = match self.get_addr_disp24(register_ern, disp) {
            Ok(a) => a,
            Err(e) => return Err(e),
        };
        Ok(self.bus.read8(addr))
    }
    /// Byte write through `@(d24,ERn)`.
    pub fn write_disp24_ern_b(&mut self, register_ern: u8, disp: u32, value: u8) -> (r: Result<(), CpuError>)
        requires
            old(self).wf(),
        ensures
            final(self).wf(),
            *final(self) == (Cpu { bus: final(self).bus, ..*old(self) }),
            register_ern < 8 ==> ({
                let ea = ea_disp24(old(self).er@, register_ern, disp);
                final(self).bus.memory@ == old(self).bus.memory@.update(ea as int, value) && final(self).bus.notes@ == old(
                    self,
                ).bus.notes@.push(
                    (crate::bus::WriteNote {
                        width: crate::bus::AccessWidth::Byte,
                        addr: ea,
                        value: value as u32,
                    }),
                ) && r == Ok::<(), CpuError>(())
            }),
            register_ern >= 8 ==> *final(self) == *old(self) && r == Err::<(), CpuError>(
                (CpuError::InvalidRegister { field: register_ern }),
            ),
    {
        let addr = match self.get_addr_disp24(register_ern, disp) {
            Ok(a) => a,
            Err(e) => return Err(e),
        };
        self.bus.write8(addr, value);
        Ok(())
    }
    /// Word read through `@(d24,ERn)`.
    pub fn read_disp24_ern_w(&self, register_ern: u8, disp: u32) -> (r: Result<u16, CpuError>)
        requires
            self.wf(),
        ensures
            register_ern < 8 ==> ({
                let ea = ea_disp24(self.er@, register_ern, disp);
                if ea % 2 == 0 {
                    r == Ok::<u16, CpuError>(word_at(self.bus.memory@, ea))
                } else {
                    r == Err::<u16, CpuError>((CpuError::MisalignedAccess { address: ea }))
                }
            }),
            register_ern >= 8 ==> r == Err::<u16, CpuError>(
                (CpuError::InvalidRegister { field: register_ern }),
            ),
    {
        let addr = match self.get_addr_disp24(register_ern, disp) {
            Ok(a) => a,
            Err(e) => return Err(e),
        };
        if addr % 2 != 0 {
            return Err(CpuError::MisalignedAccess { address: addr });
        }
        Ok(self.bus.read16(addr))
    }
    /// Word write through `@(d24,ERn)`.
    pub fn write_disp24_ern_w(&mut self, register_ern: u8, disp: u32, value: u16) -> (r: Result<(), CpuError>)
        requires
            old(self).wf(),
        ensures
            final(self).wf(),
            *final(self) == (Cpu { bus: final(self).bus, ..*old(self) }),
            register_ern < 8 ==> ({
                let ea = ea_disp24(old(self).er@, register_ern, disp);
                if ea % 2 == 0 {
                    final(self).bus.memory@ == word_write(old(self).bus.memory@, ea, value) && final(self).bus.notes@ == old(
                        self,
                    ).bus.notes@.push(
                        (crate::bus::WriteNote {
                            width: crate::bus::AccessWidth::Word,
                            addr: ea,
                            value: value as u32,
                        }),
                    ) && r == Ok::<(), CpuError>(())
                } else {
                    *final(self) == *old(self) && r == Err::<(), CpuError>(
                        (CpuError::MisalignedAccess { address: ea }),
                    )
                }
            }),
            register_ern >= 8 ==> *final(self) == *old(self) && r == Err::<(), CpuError>(
                (CpuError::InvalidRegister { field: register_ern }),
            ),
    {
        let addr = match self.get_addr_disp24(register_ern, disp) {
            Ok(a) => a,
            Err(e) => return Err(e),
        };
        if addr % 2 != 0 {
            return Err(CpuError::MisalignedAccess { address: addr });
        }
        self.bus.write16(addr, value);
        Ok(())
    }
    /// Long read through `@(d24,ERn)`.
    pub fn read_disp24_ern_l(&self, register_ern: u8, disp: u32) -> (r: Result<u32, CpuError>)
        requires
            self.wf(),
        ensures
            register_ern < 8 ==> ({
                let ea = ea_disp24(self.er@, register_ern, disp);
                if ea % 2 == 0 {
                    r == Ok::<u32, CpuError>(long_at(self.bus.memory@, ea))
                } else {
                    r == Err::<u32, CpuError>((CpuError::MisalignedAccess { address: ea }))
                }
            }),
            register_ern >= 8 ==> r == Err::<u32, CpuError>(
                (CpuError::InvalidRegister { field: register_ern }),
            ),
    {
        let addr = match self.get_addr_disp24(register_ern, disp) {
            Ok(a) => a,
            Err(e) => return Err(e),
        };
        if addr % 2 != 0 {
            return Err(CpuError::MisalignedAccess { address: addr });
        }
        Ok(self.bus.read32(addr))
    }
    /// Long write through `@(d24,ERn)`.
    pub fn write_disp24_ern_l(&mut self, register_ern: u8, disp: u32, value: u32) -> (r: Result<(), CpuError>)
        requires
            old(self).wf(),
        ensures
            final(self).wf(),
            *final(self) == (Cpu { bus: final(self).bus, ..*old(self) }),
            register_ern < 8 ==> ({
                let ea = ea_disp24(old(self).er@, register_ern, disp);
                if ea % 2 == 0 {
                    final(self).bus.memory@ == long_write(old(self).bus.memory@, ea, value) && final(self).bus.notes@ == old(
                        self,
                    ).bus.notes@.push(
                        (crate::bus::WriteNote {
                            width: crate::bus::AccessWidth::Long,
                            addr: ea,
                            value: value,
                        }),
                    ) && r == Ok::<(), CpuError>(())
                } else {
                    *final(self) == *old(self) && r == Err::<(), CpuError>(
                        (CpuError::MisalignedAccess { address: ea }),
                    )
                }
            }),
            register_ern >= 8 ==> *final(self) == *old(self) && r == Err::<(), CpuError>(
                (CpuError::InvalidRegister { field: register_ern }),
            ),
    {
        let addr = match self.get_addr_disp24(register_ern, disp) {
            Ok(a) => a,
            Err(e) => return Err(e),
        };
        if addr % 2 != 0 {
            return Err(CpuError::MisalignedAccess { address: addr });
        }
        self.bus.write32(addr, value);
        Ok(())
    }

    /// Byte read through `@ERn+`: the access uses the register
    /// value before the update; the register then grows by 1.
    pub fn read_inc_ern_b(&mut self, register_ern: u8) -> (r: Result<u8, CpuError>)
        requires
            old(self).wf(),
        ensures
            final(self).wf(),
            *final(self) == (Cpu { er: final(self).er, ..*old(self) }),
            register_ern < 8 ==> ({
                let ea = ea_ern(old(self).er@, register_ern);
                r == Ok::<u8, CpuError>(old(self).bus.memory@[ea as int]) && final(self).er@ == wr_l(
                    old(self).er@,
                    register_ern,
                    rn_l_of(old(self).er@, register_ern).wrapping_add(1),
                )
            }),
            register_ern >= 8 ==> *final(self) == *old(self) && r == Err::<u8, CpuError>(
                (CpuError::InvalidRegister { field: register_ern }),
            ),
    {
        let value = match self.read_ern_b(register_ern) {
            Ok(v) => v,
            Err(e) => return Err(e),
        };
        let x = match self.read_rn_l(register_ern) {
            Ok(v) => v,
            Err(e) => return Err(e),
        };
        match self.write_rn_l(register_ern, x.wrapping_add(1)) {
            Ok(_) => {},
            Err(e) => return Err(e),
        };
        Ok(value)
    }
    /// Word read through `@ERn+`: the access uses the register
    /// value before the update; the register then grows by 2.
    pub fn read_inc_ern_w(&mut self, register_ern: u8) -> (r: Result<u16, CpuError>)
        requires
            old(self).wf(),
        ensures
            final(self).wf(),
            *final(self) == (Cpu { er: final(self).er, ..*old(self) }),
            register_ern < 8 ==> ({
                let ea = ea_ern(old(self).er@, register_ern);
                if ea % 2 == 0 {
                    r == Ok::<u16, CpuError>(word_at(old(self).bus.memory@, ea)) && final(self).er@ == wr_l(
                    old(self).er@,
                    register_ern,
                    rn_l_of(old(self).er@, register_ern).wrapping_add(2),
                )
                } else {
                    *final(self) == *old(self) && r == Err::<u16, CpuError>(
                        (CpuError::MisalignedAccess { address: ea }),
                    )
                }
            }),
            register_ern >= 8 ==> *final(self) == *old(self) && r == Err::<u16, CpuError>(
                (CpuError::InvalidRegister { field: register_ern }),
            ),
    {
        let value = match self.read_ern_w(register_ern) {
            Ok(v) => v,
            Err(e) => return Err(e),
        };
        let x = match self.read_rn_l(register_ern) {
            Ok(v) => v,
            Err(e) => return Err(e),
        };
        match self.write_rn_l(register_ern, x.wrapping_add(2)) {
            Ok(_) => {},
            Err(e) => return Err(e),
        };
        Ok(value)
    }
    /// Long read through `@ERn+`: the access uses the register
    /// value before the update; the register then grows by 4.
    pub fn read_inc_ern_l(&mut self, register_ern: u8) -> (r: Result<u32, CpuError>)
        requires
            old(self).wf(),
        ensures
            final(self).wf(),
            *final(self) == (Cpu { er: final(self).er, ..*old(self) }),
            register_ern < 8 ==> ({
                let ea = ea_ern(old(self).er@, register_ern);
                if ea % 2 == 0 {
                    r == Ok::<u32, CpuError>(long_at(old(self).bus.memory@, ea)) && final(self).er@ == wr_l(
                    old(self).er@,
                    register_ern,
                    rn_l_of(old(self).er@, register_ern).wrapping_add(4),
                )
                } else {
                    *final(self) == *old(self) && r == Err::<u32, CpuError>(
                        (CpuError::MisalignedAccess { address: ea }),
                    )
                }
            }),
            register_ern >= 8 ==> *final(self) == *old(self) && r == Err::<u32, CpuError>(
                (CpuError::InvalidRegister { field: register_ern }),
            ),
    {
        let value = match self.read_ern_l(register_ern) {
            Ok(v) => v,
            Err(e) => return Err(e),
        };
        let x = match self.read_rn_l(register_ern) {
            Ok(v) => v,
            Err(e) => return Err(e),
        };
        match self.write_rn_l(register_ern, x.wrapping_add(4)) {
            Ok(_) => {},
            Err(e) => return Err(e),
        };
        Ok(value)
    }
    /// Byte write through `@-ERn`: the register first shrinks by
    /// 1; the access then uses the updated value.
    pub fn write_dec_ern_b(&mut self, register_ern: u8, value: u8) -> (r: Result<
        (),
        CpuError,
    >)
        requires
            old(self).wf(),
        ensures
            final(self).wf(),
            *final(self) == (Cpu { bus: final(self).bus, er: final(self).er, ..*old(self) }),
            register_ern < 8 ==> ({
                let nv = rn_l_of(old(self).er@, register_ern).wrapping_sub(1);
                let ea = nv & 0xffffff;
                final(self).er@ == wr_l(old(self).er@, register_ern, nv) && final(self).bus.memory@ == old(self).bus.memory@.update(ea as int, value)
                    && final(self).bus.notes@ == old(self).bus.notes@.push(
                        (crate::bus::WriteNote {
                            width: crate::bus::AccessWidth::Byte,
                            addr: ea,
                            value: value as u32,
                        }),
                    ) && r == Ok::<(), CpuError>(())
            }),
            register_ern >= 8 ==> *final(self) == *old(self) && r == Err::<(), CpuError>(
                (CpuError::InvalidRegister { field: register_ern }),
            ),
    {
        let x = match self.read_rn_l(register_ern) {
            Ok(v) => v,
            Err(e) => return Err(e),
        };
        match self.write_rn_l(register_ern, x.wrapping_sub(1)) {
            Ok(_) => {},
            Err(e) => return Err(e),
        };
        match self.write_ern_b(register_ern, value) {
            Ok(_) => Ok(()),
            Err(e) => Err(e),
        }
    }
    /// Word write through `@-ERn`: the register first shrinks by
    /// 2; the access then uses the updated value.
    pub fn write_dec_ern_w(&mut self, register_ern: u8, value: u16) -> (r: Result<
        (),
        CpuError,
    >)
        requires
            old(self).wf(),
        ensures
            final(self).wf(),
            *final(self) == (Cpu { bus: final(self).bus, er: final(self).er, ..*old(self) }),
            register_ern < 8 ==> ({
                let nv = rn_l_of(old(self).er@, register_ern).wrapping_sub(2);
                let ea = nv & 0xffffff;
                if ea % 2 == 0 {
                    final(self).er@ == wr_l(old(self).er@, register_ern, nv) && final(self).bus.memory@ == word_write(old(self).bus.memory@, ea, value)
                        && final(self).bus.notes@ == old(self).bus.notes@.push(
                        (crate::bus::WriteNote {
                            width: crate::bus::AccessWidth::Word,
                            addr: ea,
                            value: value as u32,
                        }),
                    ) && r == Ok::<(), CpuError>(())
                } else {
                    final(self).er@ == wr_l(old(self).er@, register_ern, nv) && *final(self) == (Cpu {
                        er: final(self).er,
                        ..*old(self)
                    }) && r == Err::<(), CpuError>((CpuError::MisalignedAccess { address: ea }))
                }
            }),
            register_ern >= 8 ==> *final(self) == *old(self) && r == Err::<(), CpuError>(
                (CpuError::InvalidRegister { field: register_ern }),
            ),
    {
        let x = match self.read_rn_l(register_ern) {
            Ok(v) => v,
            Err(e) => return Err(e),
        };
        match self.write_rn_l(register_ern, x.wrapping_sub(2)) {
            Ok(_) => {},
            Err(e) => return Err(e),
        };
        match self.write_ern_w(register_ern, value) {
            Ok(_) => Ok(()),
            Err(e) => Err(e),
        }
    }
    /// Long write through `@-ERn`: the register first shrinks by
    /// 4; the access then uses the updated value.
    pub fn write_dec_ern_l(&mut self, register_ern: u8, value: u32) -> (r: Result<
        (),
        CpuError,
    >)
        requires
            old(self).wf(),
        ensures
            final(self).wf(),
            *final(self) == (Cpu { bus: final(self).bus, er: final(self).er, ..*old(self) }),
            register_ern < 8 ==> ({
                let nv = rn_l_of(old(self).er@, register_ern).wrapping_sub(4);
                let ea = nv & 0xffffff;
                if ea % 2 == 0 {
                    final(self).er@ == wr_l(old(self).er@, register_ern, nv) && final(self).bus.memory@ == long_write(old(self).bus.memory@, ea, value)
                        && final(self).bus.notes@ == old(self).bus.notes@.push(
                        (crate::bus::WriteNote {
                            width: crate::bus::AccessWidth::Long,
                            addr: ea,
                            value: value,
                        }),
                    ) && r == Ok::<(), CpuError>(())
                } else {
                    final(self).er@ == wr_l(old(self).er@, register_ern, nv) && *final(self) == (Cpu {
                        er: final(self).er,
                        ..*old(self)
                    }) && r == Err::<(), CpuError>((CpuError::MisalignedAccess { address: ea }))
                }
            }),
            register_ern >= 8 ==> *final(self) == *old(self) && r == Err::<(), CpuError>(
                (CpuError::InvalidRegister { field: register_ern }),
            ),
    {
        let x = match self.read_rn_l(register_ern) {
            Ok(v) => v,
            Err(e) => return Err(e),
        };
        match self.write_rn_l(register_ern, x.wrapping_sub(4)) {
            Ok(_) => {},
            Err(e) => return Err(e),
        };
        match self.write_ern_l(register_ern, value) {
            Ok(_) => Ok(()),
            Err(e) => Err(e),
        }
    }
    /// Byte read through `@aa:8`.
    pub fn read_abs8_b(&self, abs_addr: u8) -> (r: Result<u8, CpuError>)
        requires
            self.wf(),
        ensures
            ({
                let ea = ea_abs8(abs_addr);
                r == Ok::<u8, CpuError>(self.bus.memory@[ea as int])
            }),
    {
        let addr = 0xffff00u32 | (abs_addr as u32);
        Ok(self.bus.read8(addr))
    }
    /// Byte write through `@aa:8`.
    pub fn write_abs8_b(&mut self, abs_addr: u8, value: u8) -> (r: Result<
        (),
        CpuError,
    >)
        requires
            old(self).wf(),
        ensures
            final(self).wf(),
            *final(self) == (Cpu { bus: final(self).bus, ..*old(self) }),
            ({
                let ea = ea_abs8(abs_addr);
                final(self).bus.memory@ == old(self).bus.memory@.update(ea as int, value)
                    && final(self).bus.notes@ == old(self).bus.notes@.push(
                        (crate::bus::WriteNote {
                            width: crate::bus::AccessWidth::Byte,
                            addr: ea,
                            value: value as u32,
                        }),
                    ) && r == Ok::<(), CpuError>(())
            }),
    {
        let addr = 0xffff00u32 | (abs_addr as u32);
        self.bus.write8(addr, value);
        Ok(())
    }
    /// Byte read through `@aa:16`.
    pub fn read_abs16_b(&self, abs_addr: u16) -> (r: Result<u8, CpuError>)
        requires
            self.wf(),
        ensures
            ({
                let ea = ea_abs16(abs_addr);
                r == Ok::<u8, CpuError>(self.bus.memory@[ea as int])
            }),
    {
        let addr = self.get_addr_abs16(abs_addr);
        Ok(self.bus.read8(addr))
    }
    /// Byte write through `@aa:16`.
    pub fn write_abs16_b(&mut self, abs_addr: u16, value: u8) -> (r: Result<
        (),
        CpuError,
    >)
        requires
            old(self).wf(),
        ensures
            final(self).wf(),
            *final(self) == (Cpu { bus: final(self).bus, ..*old(self) }),
            ({
                let ea = ea_abs16(abs_addr);
                final(self).bus.memory@ == old(self).bus.memory@.update(ea as int, value)
                    && final(self).bus.notes@ == old(self).bus.notes@.push(
                        (crate::bus::WriteNote {
                            width: crate::bus::AccessWidth::Byte,
                            addr: ea,
                            value: value as u32,
                        }),
                    ) && r == Ok::<(), CpuError>(())
            }),
    {
        let addr = self.get_addr_abs16(abs_addr);
        self.bus.write8(addr, value);
        Ok(())
    }
    /// Word read through `@aa:16`.
    pub fn read_abs16_w(&self, abs_addr: u16) -> (r: Result<u16, CpuError>)
        requires
            self.wf(),
        ensures
            ({
                let ea = ea_abs16(abs_addr);
                if ea % 2 == 0 {
                    r == Ok::<u16, CpuError>(word_at(self.bus.memory@, ea))
                } else {
                    r == Err::<u16, CpuError>((CpuError::MisalignedAccess { address: ea }))
                }
            }),
    {
        let addr = self.get_addr_abs16(abs_addr);
        if addr % 2 != 0 {
            return Err(CpuError::MisalignedAccess { address: addr });
        }
        Ok(self.bus.read16(addr))
    }
    /// Word write through `@aa:16`.
    pub fn write_abs16_w(&mut self, abs_addr: u16, value: u16) -> (r: Result<
        (),
        CpuError,
    >)
        requires
            old(self).wf(),
        ensures
            final(self).wf(),
            *final(self) == (Cpu { bus: final(self).bus, ..*old(self) }),
            ({
                let ea = ea_abs16(abs_addr);
                if ea % 2 == 0 {
                    final(self).bus.memory@ == word_write(old(self).bus.memory@, ea, value)
                        && final(self).bus.notes@ == old(self).bus.notes@.push(
                        (crate::bus::WriteNote {
                            width: crate::bus::AccessWidth::Word,
                            addr: ea,
                            value: value as u32,
                        }),
                    ) && r == Ok::<(), CpuError>(())
                } else {
                    *final(self) == *old(self) && r == Err::<(), CpuError>(
                        (CpuError::MisalignedAccess { address: ea }),
                    )
                }
            }),
    {
        let addr = self.get_addr_abs16(abs_addr);
        if addr % 2 != 0 {
            return Err(CpuError::MisalignedAccess { address: addr });
        }
        self.bus.write16(addr, value);
        Ok(())
    }
    /// Long read through `@aa:16`.
    pub fn read_abs16_l(&self, abs_addr: u16) -> (r: Result<u32, CpuError>)
        requires
            self.wf(),
        ensures
            ({
                let ea = ea_abs16(abs_addr);
                if ea % 2 == 0 {
                    r == Ok::<u32, CpuError>(long_at(self.bus.memory@, ea))
                } else {
                    r == Err::<u32, CpuError>((CpuError::MisalignedAccess { address: ea }))
                }
            }),
    {
        let addr = self.get_addr_abs16(abs_addr);
        if addr % 2 != 0 {
            return Err(CpuError::MisalignedAccess { address: addr });
        }
        Ok(self.bus.read32(addr))
    }
    /// Long write through `@aa:16`.
    pub fn write_abs16_l(&mut self, abs_addr: u16, value: u32) -> (r: Result<
        (),
        CpuError,
    >)
        requires
            old(self).wf(),
        ensures
            final(self).wf(),
            *final(self) == (Cpu { bus: final(self).bus, ..*old(self) }),
            ({
                let ea = ea_abs16(abs_addr);
                if ea % 2 == 0 {
                    final(self).bus.memory@ == long_write(old(self).bus.memory@, ea, value)
                        && final(self).bus.notes@ == old(self).bus.notes@.push(
                        (crate::bus::WriteNote {
                            width: crate::bus::AccessWidth::Long,
                            addr: ea,
                            value: value,
                        }),
                    ) && r == Ok::<(), CpuError>(())
                } else {
                    *final(self) == *old(self) && r == Err::<(), CpuError>(
                        (CpuError::MisalignedAccess { address: ea }),
                    )
                }
            }),
    {
        let addr = self.get_addr_abs16(abs_addr);
        if addr % 2 != 0 {
            return Err(CpuError::MisalignedAccess { address: addr });
        }
        self.bus.write32(addr, value);
        Ok(())
    }
    /// Byte read through `@aa:24`.
    pub fn read_abs24_b(&self, abs_addr: u32) -> (r: Result<u8, CpuError>)
        requires
            self.wf(),
        ensures
            ({
                let ea = ea_abs24(abs_addr);
                r == Ok::<u8, CpuError>(self.bus.memory@[ea as int])
            }),
    {
        let addr = abs_addr & ADDRESS_MASK;
        Ok(self.bus.read8(addr))
    }
    /// Byte write through `@aa:24`.
    pub fn write_abs24_b(&mut self, abs_addr: u32, value: u8) -> (r: Result<
        (),
        CpuError,
    >)
        requires
            old(self).wf(),
        ensures
            final(self).wf(),
            *final(self) == (Cpu { bus: final(self).bus, ..*old(self) }),
            ({
                let ea = ea_abs24(abs_addr);
                final(self).bus.memory@ == old(self).bus.memory@.update(ea as int, value)
                    && final(self).bus.notes@ == old(self).bus.notes@.push(
                        (crate::bus::WriteNote {
                            width: crate::bus::AccessWidth::Byte,
                            addr: ea,
                            value: value as u32,
                        }),
                    ) && r == Ok::<(), CpuError>(())
            }),
    {
        let addr = abs_addr & ADDRESS_MASK;
        self.bus.write8(addr, value);
        Ok(())
    }
    /// Word read through `@aa:24`.
    pub fn read_abs24_w(&self, abs_addr: u32) -> (r: Result<u16, CpuError>)
        requires
            self.wf(),
        ensures
            ({
                let ea = ea_abs24(abs_addr);
                if ea % 2 == 0 {
                    r == Ok::<u16, CpuError>(word_at(self.bus.memory@, ea))
                } else {
                    r == Err::<u16, CpuError>((CpuError::MisalignedAccess { address: ea }))
                }
            }),
    {
        let addr = abs_addr & ADDRESS_MASK;
        if addr % 2 != 0 {
            return Err(CpuError::MisalignedAccess { address: addr });
        }
        Ok(self.bus.read16(addr))
    }
    /// Word write through `@aa:24`.
    pub fn write_abs24_w(&mut self, abs_addr: u32, value: u16) -> (r: Result<
        (),
        CpuError,
    >)
        requires
            old(self).wf(),
        ensures
            final(self).wf(),
            *final(self) == (Cpu { bus: final(self).bus, ..*old(self) }),
            ({
                let ea = ea_abs24(abs_addr);
                if ea % 2 == 0 {
                    final(self).bus.memory@ == word_write(old(self).bus.memory@, ea, value)
                        && final(self).bus.notes@ == old(self).bus.notes@.push(
                        (crate::bus::WriteNote {
                            width: crate::bus::AccessWidth::Word,
                            addr: ea,
                            value: value as u32,
                        }),
                    ) && r == Ok::<(), CpuError>(())
                } else {
                    *final(self) == *old(self) && r == Err::<(), CpuError>(
                        (CpuError::MisalignedAccess { address: ea }),
                    )
                }
            }),
    {
        let addr = abs_addr & ADDRESS_MASK;
        if addr % 2 != 0 {
            return Err(CpuError::MisalignedAccess { address: addr });
        }
        self.bus.write16(addr, value);
        Ok(())
    }
    /// Long read through `@aa:24`.
    pub fn read_abs24_l(&self, abs_addr: u32) -> (r: Result<u32, CpuError>)
        requires
            self.wf(),
        ensures
            ({
                let ea = ea_abs24(abs_addr);
                if ea % 2 == 0 {
                    r == Ok::<u32, CpuError>(long_at(self.bus.memory@, ea))
                } else {
                    r == Err::<u32, CpuError>((CpuError::MisalignedAccess { address: ea }))
                }
            }),
    {
        let addr = abs_addr & ADDRESS_MASK;
        if addr % 2 != 0 {
            return Err(CpuError::MisalignedAccess { address: addr });
        }
        Ok(self.bus.read32(addr))
    }
    /// Long write through `@aa:24`.
    pub fn write_abs24_l(&mut self, abs_addr: u32, value: u32) -> (r: Result<
        (),
        CpuError,
    >)
        requires
            old(self).wf(),
        ensures
            final(self).wf(),
            *final(self) == (Cpu { bus: final(self).bus, ..*old(self) }),
            ({
                let ea = ea_abs24(abs_addr);
                if ea % 2 == 0 {
                    final(self).bus.memory@ == long_write(old(self).bus.memory@, ea, value)
                        && final(self).bus.notes@ == old(self).bus.notes@.push(
                        (crate::bus::WriteNote {
                            width: crate::bus::AccessWidth::Long,
                            addr: ea,
                            value: value,
                        }),
                    ) && r == Ok::<(), CpuError>(())
                } else {
                    *final(self) == *old(self) && r == Err::<(), CpuError>(
                        (CpuError::MisalignedAccess { address: ea }),
                    )
                }
            }),
    {
        let addr = abs_addr & ADDRESS_MASK;
        if addr % 2 != 0 {
            return Err(CpuError::MisalignedAccess { address: addr });
        }
        self.bus.write32(addr, value);
        Ok(())
    }
}

} // verus!
