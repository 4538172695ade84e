//! Motorola 68000 CPU.
//!
//! The 68000 is a 16/32-bit CISC processor with eight data registers, eight
//! address registers (A7 is the stack pointer), a 24-bit program counter, a
//! 16-bit status register and big-endian memory. In the Genesis it runs at the
//! master clock divided by seven.
use vstd::prelude::*;

pub mod bcd;
pub mod cycle_laws;
pub mod decode;
pub mod engine;
pub mod exception;
pub mod exec_alu;
pub mod exec_bits;
pub mod exec_flow;
pub mod exec_move;
pub mod exec_shift;
pub mod execute;
pub mod flags;
pub mod laws;
pub mod memory_laws;
pub mod operand;
pub mod program_laws;
pub mod simulation;
pub mod system_laws;

pub use decode::{decode, AddressingMode, Instruction, InstructionSize};
pub use engine::Cpu;
pub use execute::{deliver_interrupt, execute_instruction};
pub use operand::Bus;

verus! {

/// Snapshot of the CPU state for save states.
#[derive(Debug, Clone, Copy, PartialEq, Eq)]
pub struct CpuSnapshot {
    /// Data registers D0-D7.
    pub d: [u32; 8],
    /// Address registers A0-A7 (A7 is the active stack pointer).
    pub a: [u32; 8],
    /// Program counter.
    pub pc: u32,
    /// Status register.
    pub sr: u16,
    /// Supervisor stack pointer.
    pub ssp: u32,
    /// User stack pointer.
    pub usp: u32,
    /// Total cycles elapsed.
    pub cycles: u64,
    /// Whether the CPU is halted.
    pub halted: bool,
    /// Whether the CPU is stopped (STOP instruction).
    pub stopped: bool,
}

impl CpuSnapshot {
    /// Whether two snapshots hold the same state.
    pub fn same(&self, other: &CpuSnapshot) -> (r: bool)
        ensures
            r == (*self == *other),
    {
        let mut i: usize = 0;
        while i < 8
            invariant
                i <= 8,
                forall|j: int| 0 <= j < i ==> self.d@[j] == other.d@[j] && self.a@[j] == other.a@[j],
            decreases 8 - i,
        {
            if self.d[i] != other.d[i] || self.a[i] != other.a[i] {
                return false;
            }
            i += 1;
        }
        assert(self.d =~= other.d);
        assert(self.a =~= other.a);
        self.pc == other.pc && self.sr == other.sr && self.ssp == other.ssp && self.usp == other.usp
            && self.cycles == other.cycles && self.halted == other.halted && self.stopped
            == other.stopped
    }
}

/// The value of a status word after the flags in `mask` are set or cleared.
pub open spec fn with_flag(sr: u16, mask: u16, value: bool) -> u16 {
    if value {
        sr | mask
    } else {
        sr & !mask
    }
}

/// Whether any of the flags in `mask` is set in a status word.
pub open spec fn has_flag(sr: u16, mask: u16) -> bool {
    sr & mask != 0
}

/// The interrupt priority held in bits 8-10 of a status word.
pub open spec fn interrupt_level(sr: u16) -> u8 {
    ((sr & 0x0700) >> 8) as u8
}

/// The value of a status word after its interrupt priority is replaced by the
/// low three bits of `level`.
pub open spec fn with_interrupt_level(sr: u16, level: u8) -> u16 {
    (sr & !0x0700u16) | (((level & 7) as u16) << 8)
}

/// 68000 status register: the condition codes in the low byte, the system byte
/// above them.
#[derive(Debug, Clone, Copy, PartialEq, Eq, Structural)]
pub struct StatusRegister(pub u16);

impl StatusRegister {
    /// Carry flag.
    pub const C: u16 = 0x0001;

    /// Overflow flag.
    pub const V: u16 = 0x0002;

    /// Zero flag.
    pub const Z: u16 = 0x0004;

    /// Negative flag.
    pub const N: u16 = 0x0008;

    /// Extend flag.
    pub const X: u16 = 0x0010;

    /// Interrupt priority mask (bits 8-10).
    pub const IPM_MASK: u16 = 0x0700;

    /// Supervisor mode.
    pub const S: u16 = 0x2000;

    /// Trace mode.
    pub const T: u16 = 0x8000;

    /// Creates a status register with the given raw value.
    pub fn new(value: u16) -> (r: Self)
        ensures
            r.0 == value,
    {
        StatusRegister(value)
    }

    /// Returns true if the given flag is set.
    pub fn flag(self, mask: u16) -> (r: bool)
        ensures
            r == has_flag(self.0, mask),
    {
        self.0 & mask != 0
    }

    /// Sets or clears a flag.
    pub fn set_flag(&mut self, mask: u16, value: bool)
        ensures
            final(self).0 == with_flag(old(self).0, mask, value),
    {
        if value {
            self.0 = self.0 | mask;
        } else {
            self.0 = self.0 & !mask;
        }
    }

    /// Returns the interrupt priority mask (0-7).
    pub fn interrupt_mask(self) -> (r: u8)
        ensures
            r == interrupt_level(self.0),
            r <= 7,
    {
        let w: u16 = self.0;
        assert(((w & 0x0700) >> 8) as u8 <= 7) by (bit_vector);
        ((self.0 & Self::IPM_MASK) >> 8) as u8
    }

    /// Sets the interrupt priority mask (0-7).
    pub fn set_interrupt_mask(&mut self, level: u8)
        ensures
            final(self).0 == with_interrupt_level(old(self).0, level),
    {
        self.0 = (self.0 & !Self::IPM_MASK) | (((level & 7) as u16) << 8);
    }

    /// Returns true if in supervisor mode.
    pub fn supervisor(self) -> (r: bool)
        ensures
            r == has_flag(self.0, Self::S),
    {
        self.flag(Self::S)
    }

    /// Returns the condition codes (low five bits).
    pub fn ccr(self) -> (r: u8)
        ensures
            r == self.0 % 32,
    {
        let w: u16 = self.0;
        assert((w & 0x1F) as u8 == w % 32) by (bit_vector);
        (self.0 & 0x1F) as u8
    }
}

/// Setting a flag makes it read back as set, clearing makes it read back as
/// clear, and flags outside the mask keep their value.
pub proof fn law_flag_write_reads_back(sr: u16, mask: u16, other: u16, value: bool)
    requires
        mask != 0,
        mask & other == 0,
    ensures
        has_flag(with_flag(sr, mask, value), mask) == value,
        has_flag(with_flag(sr, mask, value), other) == has_flag(sr, other),
{
    assert((sr | mask) & mask != 0 && (sr & !mask) & mask == 0 && (mask & other == 0 ==> (sr | mask)
        & other == sr & other && (sr & !mask) & other == sr & other)) by (bit_vector)
        requires
            mask != 0,
    ;
}

/// The interrupt priority reads back as the low three bits written, and no
/// other status bit changes.
pub proof fn law_interrupt_mask_reads_back(sr: u16, level: u8)
    ensures
        interrupt_level(with_interrupt_level(sr, level)) == level % 8,
        with_interrupt_level(sr, level) & !0x0700u16 == sr & !0x0700u16,
{
    assert((((sr & !0x0700u16) | (((level & 7) as u16) << 8)) & 0x0700) >> 8 == level % 8
        && ((sr & !0x0700u16) | (((level & 7) as u16) << 8)) & !0x0700u16 == sr & !0x0700u16)
        by (bit_vector);
}

} // verus!
