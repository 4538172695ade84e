//! The Z80 as the core sees it: its registers, cycle count, halt state and
//! interrupt line. Executing its instructions is up to the frontend, which finds
//! the registers here, asks the core for bus accesses, and reports the registers
//! and the cycles that went by.
use vstd::prelude::*;

verus! {

/// The register file of a Z80, but for the program counter. The core keeps it
/// between instructions and does not look into it.
#[derive(Debug, Clone, Copy, PartialEq, Eq, Structural)]
pub struct Z80Registers {
    /// Accumulator and flags.
    pub af: u16,
    /// B and C.
    pub bc: u16,
    /// D and E.
    pub de: u16,
    /// H and L.
    pub hl: u16,
    /// Accumulator and flags of the other bank.
    pub af_alt: u16,
    /// B and C of the other bank.
    pub bc_alt: u16,
    /// D and E of the other bank.
    pub de_alt: u16,
    /// H and L of the other bank.
    pub hl_alt: u16,
    /// Index register X.
    pub ix: u16,
    /// Index register Y.
    pub iy: u16,
    /// Stack pointer.
    pub sp: u16,
    /// Interrupt vector.
    pub i: u8,
    /// Memory refresh.
    pub r: u8,
    /// Interrupt mode.
    pub interrupt_mode: u8,
    /// Interrupts are enabled.
    pub iff1: bool,
    /// Interrupts were enabled before a non-maskable one.
    pub iff2: bool,
    /// The last instruction was EI: no interrupt yet.
    pub ei_delay: bool,
}

/// Z80 state for save states.
#[derive(Debug, Clone, Copy, PartialEq, Eq, Structural)]
pub struct Z80Snapshot {
    /// Program counter.
    pub pc: u16,
    /// Total cycles elapsed.
    pub cycles: u64,
    /// The Z80 has executed HALT.
    pub halted: bool,
    /// The interrupt line is asserted.
    pub int_line: bool,
    /// A reset is due before the Z80 runs on.
    pub reset_due: bool,
    /// The other registers.
    pub registers: Z80Registers,
}

/// The Z80.
#[derive(Debug, Clone, Copy, PartialEq, Eq, Structural)]
pub struct Z80 {
    /// Program counter.
    pub pc: u16,
    /// Total cycles elapsed (wraps).
    pub cycles: u64,
    /// The Z80 has executed HALT.
    pub halted: bool,
    /// The interrupt line is asserted.
    pub int_line: bool,
    /// A reset is due before the Z80 runs on.
    pub reset_due: bool,
    /// The other registers.
    pub registers: Z80Registers,
}

/// Registers that are all zero.
pub open spec fn zero_registers() -> Z80Registers {
    Z80Registers {
        af: 0,
        bc: 0,
        de: 0,
        hl: 0,
        af_alt: 0,
        bc_alt: 0,
        de_alt: 0,
        hl_alt: 0,
        ix: 0,
        iy: 0,
        sp: 0,
        i: 0,
        r: 0,
        interrupt_mode: 0,
        iff1: false,
        iff2: false,
        ei_delay: false,
    }
}

/// The power-on Z80.
pub open spec fn power_on_z80() -> Z80 {
    Z80 {
        pc: 0,
        cycles: 0,
        halted: false,
        int_line: false,
        reset_due: true,
        registers: zero_registers(),
    }
}

/// The Z80 after a reset: it restarts at address 0. The other registers are
/// reset before it runs on.
pub open spec fn reset_z80(z: Z80) -> Z80 {
    Z80 { pc: 0, halted: false, reset_due: true, ..z }
}

/// The snapshot of a Z80.
pub open spec fn z80_snapshot_of(z: Z80) -> Z80Snapshot {
    Z80Snapshot {
        pc: z.pc,
        cycles: z.cycles,
        halted: z.halted,
        int_line: z.int_line,
        reset_due: z.reset_due,
        registers: z.registers,
    }
}

/// The Z80 of a snapshot.
pub open spec fn z80_of_snapshot(s: Z80Snapshot) -> Z80 {
    Z80 {
        pc: s.pc,
        cycles: s.cycles,
        halted: s.halted,
        int_line: s.int_line,
        reset_due: s.reset_due,
        registers: s.registers,
    }
}

impl Default for Z80Registers {
    fn default() -> (r: Self)
        ensures
            r == zero_registers(),
    {
        Z80Registers {
            af: 0,
            bc: 0,
            de: 0,
            hl: 0,
            af_alt: 0,
            bc_alt: 0,
            de_alt: 0,
            hl_alt: 0,
            ix: 0,
            iy: 0,
            sp: 0,
            i: 0,
            r: 0,
            interrupt_mode: 0,
            iff1: false,
            iff2: false,
            ei_delay: false,
        }
    }
}

impl Z80 {
    /// Creates a Z80 in its power-on state.
    #[must_use]
    pub fn new() -> (r: Self)
        ensures
            r == power_on_z80(),
    {
        Z80 {
            pc: 0,
            cycles: 0,
            halted: false,
            int_line: false,
            reset_due: true,
            registers: Z80Registers::default(),
        }
    }

    /// Restarts the Z80 at address 0.
    pub fn reset(&mut self)
        ensures
            *final(self) == reset_z80(*old(self)),
    {
        self.pc = 0;
        self.halted = false;
        self.reset_due = true;
    }

    /// Snapshot for save states.
    #[must_use]
    pub fn snapshot(&self) -> (r: Z80Snapshot)
        ensures
            r == z80_snapshot_of(*self),
    {
        Z80Snapshot {
            pc: self.pc,
            cycles: self.cycles,
            halted: self.halted,
            int_line: self.int_line,
            reset_due: self.reset_due,
            registers: self.registers,
        }
    }

    /// Restores the state from a snapshot.
    pub fn restore(&mut self, snap: &Z80Snapshot)
        ensures
            *final(self) == z80_of_snapshot(*snap),
    {
        self.pc = snap.pc;
        self.cycles = snap.cycles;
        self.halted = snap.halted;
        self.int_line = snap.int_line;
        self.reset_due = snap.reset_due;
        self.registers = snap.registers;
    }
}

impl Default for Z80 {
    fn default() -> (r: Self)
        ensures
            r == power_on_z80(),
    {
        Z80::new()
    }
}

/// Restoring a snapshot gives back the Z80 it was taken of.
pub proof fn law_z80_snapshot_roundtrip(z: Z80)
    ensures
        z80_of_snapshot(z80_snapshot_of(z)) == z,
{
}

} // verus!
