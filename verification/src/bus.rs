//! Memory facade: a flat byte-addressable image over the 24-bit address
//! space with big-endian word and long accesses, a region classifier used
//! by the cycle accounting, and an ordered log of write notifications for
//! an attached observer.

use vstd::prelude::*;

verus! {

/// First address of the memory image.
pub const MEMORY_START_ADDR: u32 = 0;

/// One past the last address of the memory image; the image spans 2^24 bytes.
pub const MEMORY_END_ADDR: u32 = 0x1000000;

/// Length of the memory image in bytes.
pub const MEMORY_SIZE: usize = 0x1000000;

/// Width of a memory access, recorded with each write notification.
#[derive(Clone, Copy, Debug, PartialEq, Eq, Structural)]
pub enum AccessWidth {
    Byte,
    Word,
    Long,
}

/// One write notification: the width, the address written, and the value,
/// in the order the core issued them.
#[derive(Clone, Copy, Debug, PartialEq, Eq, Structural)]
pub struct WriteNote {
    pub width: AccessWidth,
    pub addr: u32,
    pub value: u32,
}

/// Address-map region of an access, as the cycle accounting sees it.
#[derive(Clone, Copy, Debug, PartialEq, Eq, Structural)]
pub enum Region {
    OnChip,
    Io,
    External,
}

/// Region of an address: on-chip RAM, the I/O register block at the top of
/// the map, or external space below them.
pub open spec fn region_of(addr: u32) -> Region {
    if 0xffbf20 <= addr && addr <= 0xffff1f {
        Region::OnChip
    } else if 0xffff20 <= addr && addr <= 0xffffff {
        Region::Io
    } else {
        Region::External
    }
}

/// States charged for one data access in the given region. The modelled
/// device runs every region at the on-chip rate of two states per access.
pub open spec fn access_states_of(addr: u32) -> u8 {
    match region_of(addr) {
        Region::OnChip => 2,
        Region::Io => 2,
        Region::External => 2,
    }
}

/// The big-endian word stored at an even address.
pub open spec fn word_at(m: Seq<u8>, a: u32) -> u16 {
    ((m[a as int] as u16) << 8) | (m[a as int + 1] as u16)
}

/// The even address two past `a`, wrapped to the 24-bit space.
pub open spec fn next_word_addr(a: u32) -> u32 {
    if a + 2 < 0x1000000 {
        (a + 2) as u32
    } else {
        0
    }
}

/// The big-endian long stored at an even address: effectively two word
/// accesses, the second at the following word address.
pub open spec fn long_at(m: Seq<u8>, a: u32) -> u32 {
    let a2 = next_word_addr(a);
    ((m[a as int] as u32) << 24) | ((m[a as int + 1] as u32) << 16) | ((m[a2 as int] as u32) << 8)
        | (m[a2 as int + 1] as u32)
}

/// A word write as it changes the memory image.
pub open spec fn word_write(m: Seq<u8>, a: u32, v: u16) -> Seq<u8> {
    m.update(a as int, (v >> 8) as u8).update(a as int + 1, v as u8)
}

/// A long write as it changes the memory image: effectively two word
/// writes, the second at the following word address.
pub open spec fn long_write(m: Seq<u8>, a: u32, v: u32) -> Seq<u8> {
    let a2 = next_word_addr(a);
    m.update(a as int, (v >> 24) as u8).update(a as int + 1, (v >> 16) as u8).update(
        a2 as int,
        (v >> 8) as u8,
    ).update(a2 as int + 1, v as u8)
}

/// The memory image together with the notification log.
pub struct Bus {
    pub memory: Vec<u8>,
    pub notes: Vec<WriteNote>,
}

impl Bus {
    /// The image covers the whole 24-bit address space.
    pub open spec fn wf(self) -> bool {
        self.memory@.len() == MEMORY_SIZE
    }

    /// A fresh bus: all of memory zeroed, no notifications pending.
    pub fn new() -> (bus: Bus)
        ensures
            bus.wf(),
            forall|i: int| 0 <= i < MEMORY_SIZE ==> bus.memory@[i] == 0u8,
            bus.notes@ === Seq::<WriteNote>::empty(),
    {
        let memory: Vec<u8> = vec![0u8; MEMORY_SIZE];
        Bus { memory, notes: Vec::new() }
    }

    /// Region of an address, for cycle accounting.
    pub fn region(&self, addr: u32) -> (r: Region)
        ensures
            r == region_of(addr),
    {
        if 0xffbf20 <= addr && addr <= 0xffff1f {
            Region::OnChip
        } else if 0xffff20 <= addr && addr <= 0xffffff {
            Region::Io
        } else {
            Region::External
        }
    }

    /// States charged for one data access at this address.
    pub fn access_states(&self, addr: u32) -> (r: u8)
        ensures
            r == access_states_of(addr),
    {
        match self.region(addr) {
            Region::OnChip => 2,
            Region::Io => 2,
            Region::External => 2,
        }
    }

    /// Byte read.
    pub fn read8(&self, addr: u32) -> (r: u8)
        requires
            self.wf(),
            addr < MEMORY_END_ADDR,
        ensures
            r == self.memory@[addr as int],
    {
        self.memory[(addr - MEMORY_START_ADDR) as usize]
    }

    /// Big-endian word read at an even address.
    pub fn read16(&self, addr: u32) -> (r: u16)
        requires
            self.wf(),
            addr < MEMORY_END_ADDR,
            addr % 2 == 0,
        ensures
            r == word_at(self.memory@, addr),
    {
        let hi = self.memory[(addr - MEMORY_START_ADDR) as usize];
        let lo = self.memory[(addr - MEMORY_START_ADDR + 1) as usize];
        ((hi as u16) << 8) | (lo as u16)
    }

    /// Big-endian long read at an even address: two word reads, the second
    /// wrapped to the 24-bit space.
    pub fn read32(&self, addr: u32) -> (r: u32)
        requires
            self.wf(),
            addr < MEMORY_END_ADDR,
            addr % 2 == 0,
        ensures
            r == long_at(self.memory@, addr),
    {
        let sum: u32 = addr + 2;
        let a2 = sum & 0xffffff;
        proof {
            crate::bits::lemma_mask24(sum);
        }
        let b0 = self.memory[(addr - MEMORY_START_ADDR) as usize];
        let b1 = self.memory[(addr - MEMORY_START_ADDR + 1) as usize];
        let b2 = self.memory[(a2 - MEMORY_START_ADDR) as usize];
        let b3 = self.memory[(a2 - MEMORY_START_ADDR + 1) as usize];
        ((b0 as u32) << 24) | ((b1 as u32) << 16) | ((b2 as u32) << 8) | (b3 as u32)
    }

    /// Byte write; appends one notification.
    pub fn write8(&mut self, addr: u32, value: u8)
        requires
            old(self).wf(),
            addr < MEMORY_END_ADDR,
        ensures
            final(self).wf(),
            final(self).memory@ == old(self).memory@.update(addr as int, value),
            final(self).notes@ == old(self).notes@.push(
                (WriteNote { width: AccessWidth::Byte, addr, value: value as u32 }),
            ),
    {
        self.memory[(addr - MEMORY_START_ADDR) as usize] = value;
        self.notes.push(WriteNote { width: AccessWidth::Byte, addr, value: value as u32 });
    }

    /// Big-endian word write at an even address; appends one notification.
    pub fn write16(&mut self, addr: u32, value: u16)
        requires
            old(self).wf(),
            addr < MEMORY_END_ADDR,
            addr % 2 == 0,
        ensures
            final(self).wf(),
            final(self).memory@ == word_write(old(self).memory@, addr, value),
            final(self).notes@ == old(self).notes@.push(
                (WriteNote { width: AccessWidth::Word, addr, value: value as u32 }),
            ),
    {
        self.memory[(addr - MEMORY_START_ADDR) as usize] = (value >> 8) as u8;
        self.memory[(addr - MEMORY_START_ADDR + 1) as usize] = value as u8;
        self.notes.push(WriteNote { width: AccessWidth::Word, addr, value: value as u32 });
    }

    /// Big-endian long write at an even address: two word writes, the second
    /// wrapped to the 24-bit space; appends one notification.
    pub fn write32(&mut self, addr: u32, value: u32)
        requires
            old(self).wf(),
            addr < MEMORY_END_ADDR,
            addr % 2 == 0,
        ensures
            final(self).wf(),
            final(self).memory@ == long_write(old(self).memory@, addr, value),
            final(self).notes@ == old(self).notes@.push(
                (WriteNote { width: AccessWidth::Long, addr, value }),
            ),
    {
        let sum: u32 = addr + 2;
        let a2 = sum & 0xffffff;
        proof {
            crate::bits::lemma_mask24(sum);
        }
        self.memory[(addr - MEMORY_START_ADDR) as usize] = (value >> 24) as u8;
        self.memory[(addr - MEMORY_START_ADDR + 1) as usize] = (value >> 16) as u8;
        self.memory[(a2 - MEMORY_START_ADDR) as usize] = (value >> 8) as u8;
        self.memory[(a2 - MEMORY_START_ADDR + 1) as usize] = value as u8;
        self.notes.push(WriteNote { width: AccessWidth::Long, addr, value });
    }
}

} // verus!
