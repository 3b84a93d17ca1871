//! The CPU: eight 32-bit general registers, program counter, condition
//! code register and exit sentinel over the memory facade, with the
//! opcode fetch and the per-instruction state (cycle) accounting.

use vstd::prelude::*;

use crate::bus::{Bus, MEMORY_END_ADDR, MEMORY_SIZE, MEMORY_START_ADDR};
use crate::ccr::{flag_of, flag_pos, with_flag, CCR};

verus! {

broadcast use crate::bits::lemma_even_mask;

/// Simulated clock frequency in Hz, used by a host to pace execution.
pub const CPUCLOCK: u32 = 20000000;

/// Mask that takes an effective address into the 24-bit space.
pub const ADDRESS_MASK: u32 = 0x00ffffff;

/// Why an instruction could not be executed. Decode errors name the
/// offending opcode words; address errors name the offending address or
/// register selector.
#[derive(Clone, Copy, Debug, PartialEq, Eq, Structural)]
pub enum CpuError {
    /// No covered instruction starts with this opcode word.
    InvalidOpcode { opcode: u16 },
    /// The second opcode word of a prefixed instruction is not covered.
    InvalidSecondOpcode { opcode: u16, opcode2: u16 },
    /// A register selector outside the encodable range, or with the high
    /// bit set where a 32-bit register is required.
    InvalidRegister { field: u8 },
    /// A word or long access at an odd address.
    MisalignedAccess { address: u32 },
}

/// Kind of a state-count contribution: internal operation, memory access,
/// or internal operation without bus access.
#[derive(Clone, Copy, Debug, PartialEq, Eq, Structural)]
pub enum StateType {
    I,
    M,
    N,
}

/// States charged per unit for internal operations and no-access internal
/// updates; memory accesses are charged by address region.
pub open spec fn state_units(ty: StateType, count: u8) -> int {
    match ty {
        StateType::I => 2 * count,
        StateType::M => 2 * count,
        StateType::N => 1 * count,
    }
}

/// The CPU state: memory facade, program counter, condition code
/// register, general registers, exit sentinel, and the running total of
/// consumed states.
pub struct Cpu {
    pub bus: Bus,
    pub pc: u32,
    pub ccr: u8,
    pub er: [u32; 8],
    pub exit_addr: u32,
    pub state_sum: u64,
}

impl Cpu {
    /// The memory image spans the whole 24-bit address space.
    pub open spec fn wf(self) -> bool {
        self.bus.wf()
    }

    /// A fresh CPU: zeroed registers and flags, program counter at the
    /// base of memory, zeroed memory image.
    pub fn new() -> (cpu: Cpu)
        ensures
            cpu.wf(),
            cpu.pc == MEMORY_START_ADDR,
            cpu.ccr == 0,
            forall|i: int| 0 <= i < 8 ==> cpu.er@[i] == 0,
            cpu.exit_addr == 0,
            cpu.state_sum == 0,
            forall|i: int| 0 <= i < MEMORY_SIZE ==> cpu.bus.memory@[i] == 0u8,
            cpu.bus.notes@ === Seq::<crate::bus::WriteNote>::empty(),
    {
        Cpu {
            bus: Bus::new(),
            pc: MEMORY_START_ADDR,
            ccr: 0,
            er: [0u32, 0u32, 0u32, 0u32, 0u32, 0u32, 0u32, 0u32],
            exit_addr: 0,
            state_sum: 0,
        }
    }

    /// Set one flag of the condition code register to 0 or 1; every other
    /// bit keeps its value.
    pub fn write_ccr(&mut self, target: CCR, val: u8)
        requires
            val <= 1,
        ensures
            final(self).ccr == with_flag(old(self).ccr, target, val == 1),
            *final(self) == (Cpu { ccr: final(self).ccr, ..*old(self) }),
    {
        let shift = Self::flag_shift(target);
        if val == 0 {
            self.ccr = self.ccr & !(1u8 << shift);
        } else {
            self.ccr = self.ccr | (1u8 << shift);
        }
    }

    /// Read one flag of the condition code register as 0 or 1.
    pub fn read_ccr(&self, target: CCR) -> (r: u8)
        ensures
            r == flag_of(self.ccr, target),
    {
        (self.ccr >> Self::flag_shift(target)) & 1
    }

    /// Set one flag from a truth value.
    pub fn change_ccr(&mut self, target: CCR, value: bool)
        ensures
            final(self).ccr == with_flag(old(self).ccr, target, value),
            *final(self) == (Cpu { ccr: final(self).ccr, ..*old(self) }),
    {
        if value {
            self.write_ccr(target, 1);
        } else {
            self.write_ccr(target, 0);
        }
    }

    /// Bit position of a flag inside the register.
    fn flag_shift(target: CCR) -> (s: u8)
        ensures
            s == flag_pos(target),
    {
        match target {
            CCR::C => 0,
            CCR::V => 1,
            CCR::Z => 2,
            CCR::N => 3,
            CCR::U => 4,
            CCR::H => 5,
            CCR::UI => 6,
            CCR::I => 7,
        }
    }

    /// One 4-bit field of an opcode word, counted from the most
    /// significant nibble (position 1) to the least (position 4).
    pub fn get_nibble_opcode(opcode: u16, position: u8) -> (r: Result<u8, CpuError>)
        ensures
            1 <= position <= 4 ==> r == Ok::<u8, CpuError>(nibble(opcode, position)),
            !(1 <= position <= 4) ==> r == Err::<u8, CpuError>(
                (CpuError::InvalidRegister { field: position }),
            ),
    {
        match position {
            1 => Ok((opcode >> 12) as u8),
            2 => Ok(((opcode >> 8) & 0xf) as u8),
            3 => Ok(((opcode >> 4) & 0xf) as u8),
            4 => Ok((opcode & 0xf) as u8),
            _ => Err(CpuError::InvalidRegister { field: position }),
        }
    }

    /// States consumed by `count` units of the given kind, independent of
    /// any accessed address.
    pub fn calc_state(&self, ty: StateType, count: u8) -> (r: u8)
        requires
            count <= 100,
        ensures
            r == state_units(ty, count),
    {
        match ty {
            StateType::I => 2 * count,
            StateType::M => 2 * count,
            StateType::N => 1 * count,
        }
    }

    /// States consumed by `count` memory accesses at the given address,
    /// charged at the rate of the address's region; other kinds are
    /// charged as without an address.
    pub fn calc_state_with_addr(&self, ty: StateType, count: u8, addr: u32) -> (r: u8)
        requires
            count <= 100,
        ensures
            r == state_units_with_addr(ty, count, addr),
    {
        match ty {
            StateType::M => self.bus.access_states(addr) * count,
            _ => self.calc_state(ty, count),
        }
    }

    /// Fetch the 16-bit word at the program counter (its lowest bit
    /// masked) and advance the program counter by two.
    pub fn fetch(&mut self) -> (op: u16)
        requires
            old(self).wf(),
            (old(self).pc & 0xfffffffe) < MEMORY_END_ADDR,
        ensures
            final(self).wf(),
            op == crate::bus::word_at(final(self).bus.memory@, old(self).pc & 0xfffffffe),
            final(self).pc == old(self).pc + 2,
            *final(self) == (Cpu { pc: final(self).pc, ..*old(self) }),
    {
        let pc_masked = self.pc & 0xfffffffe;
        let op = self.bus.read16(pc_masked);
        self.pc = self.pc + 2;
        op
    }
}

/// One 4-bit field of an opcode word, position 1 the most significant.
pub open spec fn nibble(opcode: u16, position: u8) -> u8 {
    if position == 1 {
        (opcode >> 12) as u8
    } else if position == 2 {
        ((opcode >> 8) & 0xf) as u8
    } else if position == 3 {
        ((opcode >> 4) & 0xf) as u8
    } else {
        (opcode & 0xf) as u8
    }
}

/// States consumed by `count` memory accesses at `addr`, or by `count`
/// units of a kind that does not touch the bus.
pub open spec fn state_units_with_addr(ty: StateType, count: u8, addr: u32) -> int {
    match ty {
        StateType::M => crate::bus::access_states_of(addr) * count,
        _ => state_units(ty, count),
    }
}

/// Any opcode nibble is a valid view selector; when bit 7 of the opcode
/// is clear, nibble 3 selects one of the eight full registers.
pub broadcast proof fn lemma_nibble(opcode: u16, position: u8)
    ensures
        #[trigger] nibble(opcode, position) < 16,
        (opcode & 0x0080) == 0 ==> nibble(opcode, 3) < 8,
{
    assert((((opcode >> 12) as u8) < 16) && ((((opcode >> 8) & 0xf) as u8) < 16) && ((((opcode >> 4)
        & 0xf) as u8) < 16) && (((opcode & 0xf) as u8) < 16) && ((opcode & 0x0080) == 0 ==> (((
    opcode >> 4) & 0xf) as u8) < 8)) by (bit_vector);
}

/// The word the next `fetch` would return, `k` words past the current
/// program counter.
pub open spec fn fetch_word(c: Cpu, k: u32) -> u16 {
    crate::bus::word_at(c.bus.memory@, ((c.pc + 2 * k) as u32) & 0xfffffffe)
}

impl Cpu {
    /// Whether execution has reached the exit sentinel.
    pub fn reached_exit(&self) -> (r: bool)
        ensures
            r == (self.pc == self.exit_addr),
    {
        self.pc == self.exit_addr
    }
}

/// States per pacing batch: the run loop sleeps once this many states
/// have accumulated since the last sleep.
pub const PACE_BATCH_STATES: u64 = 20000;

/// Nanoseconds of simulated time that `states` CPU states take at the
/// configured clock.
pub fn pace_nanos(states: u64) -> (r: u64)
    requires
        states <= 0xffffffff,
    ensures
        r == (states as int) * 1000000000 / (CPUCLOCK as int),
{
    states * 1000000000u64 / (CPUCLOCK as u64)
}

} // verus!
