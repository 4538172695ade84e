//! The 68000 register file.
use vstd::prelude::*;

use super::{has_flag, CpuSnapshot, StatusRegister};

verus! {

/// The Motorola 68000 register file.
#[derive(Debug, Clone, Copy)]
pub struct Cpu {
    /// Data registers D0-D7.
    pub d: [u32; 8],
    /// Address registers A0-A6. A7 is whichever of `usp`/`ssp` is active.
    pub a: [u32; 7],
    /// Program counter (24-bit, upper byte ignored on the bus).
    pub pc: u32,
    /// Status register (condition codes and system byte).
    pub sr: StatusRegister,
    /// Supervisor stack pointer.
    pub ssp: u32,
    /// User stack pointer.
    pub usp: u32,
    /// Total CPU cycles elapsed.
    pub cycles: u64,
    /// CPU is halted (double bus fault).
    pub halted: bool,
    /// CPU is stopped (STOP instruction, waiting for interrupt).
    pub stopped: bool,
}

/// Mathematical model of the register file.
#[verifier::ext_equal]
pub ghost struct CpuState {
    pub d: Seq<u32>,
    pub a: Seq<u32>,
    pub pc: u32,
    pub sr: u16,
    pub ssp: u32,
    pub usp: u32,
    pub cycles: u64,
    pub halted: bool,
    pub stopped: bool,
}

impl View for Cpu {
    type V = CpuState;

    open spec fn view(&self) -> CpuState {
        CpuState {
            d: self.d@,
            a: self.a@,
            pc: self.pc,
            sr: self.sr.0,
            ssp: self.ssp,
            usp: self.usp,
            cycles: self.cycles,
            halted: self.halted,
            stopped: self.stopped,
        }
    }
}

impl CpuState {
    /// Supervisor mode is active.
    pub open spec fn supervisor(self) -> bool {
        has_flag(self.sr, StatusRegister::S)
    }

    /// The active stack pointer.
    pub open spec fn sp(self) -> u32 {
        if self.supervisor() {
            self.ssp
        } else {
            self.usp
        }
    }

    /// The registers after the active stack pointer is replaced.
    pub open spec fn with_sp(self, value: u32) -> CpuState {
        if self.supervisor() {
            CpuState { ssp: value, ..self }
        } else {
            CpuState { usp: value, ..self }
        }
    }

    /// Address register `reg`, where 7 is the active stack pointer.
    pub open spec fn read_a(self, reg: int) -> u32 {
        if reg == 7 {
            self.sp()
        } else {
            self.a[reg]
        }
    }

    /// The registers after address register `reg` is replaced.
    pub open spec fn write_a(self, reg: int, value: u32) -> CpuState {
        if reg == 7 {
            self.with_sp(value)
        } else {
            CpuState { a: self.a.update(reg, value), ..self }
        }
    }

    /// The registers after data register `reg` is replaced.
    pub open spec fn write_d(self, reg: int, value: u32) -> CpuState {
        CpuState { d: self.d.update(reg, value), ..self }
    }

    /// The registers after the status word is replaced.
    pub open spec fn with_sr(self, sr: u16) -> CpuState {
        CpuState { sr, ..self }
    }

    /// The registers after the program counter is replaced.
    pub open spec fn with_pc(self, pc: u32) -> CpuState {
        CpuState { pc, ..self }
    }
}

/// The power-on register file: all registers zero, supervisor mode.
pub open spec fn power_on_cpu() -> CpuState {
    CpuState {
        d: Seq::new(8, |i: int| 0u32),
        a: Seq::new(7, |i: int| 0u32),
        pc: 0,
        sr: StatusRegister::S,
        ssp: 0,
        usp: 0,
        cycles: 0,
        halted: false,
        stopped: false,
    }
}

/// The registers that a snapshot describes.
pub open spec fn snapshot_state(s: CpuSnapshot) -> CpuState {
    CpuState {
        d: s.d@,
        a: s.a@.take(7),
        pc: s.pc,
        sr: s.sr,
        ssp: s.ssp,
        usp: s.usp,
        cycles: s.cycles,
        halted: s.halted,
        stopped: s.stopped,
    }
}

/// The snapshot `s` was taken of the registers `c`.
pub open spec fn is_snapshot_of(s: CpuSnapshot, c: CpuState) -> bool {
    &&& snapshot_state(s) == c
    &&& s.a@[7] == c.sp()
}

/// The snapshot of registers.
pub open spec fn cpu_snapshot_of(c: CpuState) -> CpuSnapshot {
    choose|s: CpuSnapshot| is_snapshot_of(s, c)
}

/// There is one snapshot of given registers.
pub proof fn lemma_cpu_snapshot_unique(s: CpuSnapshot, c: CpuState)
    requires
        is_snapshot_of(s, c),
    ensures
        s == cpu_snapshot_of(c),
{
    let t = cpu_snapshot_of(c);
    assert(is_snapshot_of(t, c));
    assert(s.d =~= t.d);
    assert forall|i: int| 0 <= i < 8 implies s.a@[i] == t.a@[i] by {
        if i < 7 {
            assert(s.a@.take(7)[i] == t.a@.take(7)[i]);
        }
    }
    assert(s.a =~= t.a);
}

/// Registers of the right number have a snapshot.
pub proof fn lemma_cpu_has_snapshot(c: CpuState)
    requires
        c.d.len() == 8,
        c.a.len() == 7,
    ensures
        is_snapshot_of(cpu_snapshot_of(c), c),
{
    let d = [c.d[0], c.d[1], c.d[2], c.d[3], c.d[4], c.d[5], c.d[6], c.d[7]];
    let a = [c.a[0], c.a[1], c.a[2], c.a[3], c.a[4], c.a[5], c.a[6], c.sp()];
    let s = CpuSnapshot {
        d,
        a,
        pc: c.pc,
        sr: c.sr,
        ssp: c.ssp,
        usp: c.usp,
        cycles: c.cycles,
        halted: c.halted,
        stopped: c.stopped,
    };
    assert(s.d@ =~= c.d);
    assert(s.a@.take(7) =~= c.a);
    assert(snapshot_state(s) =~= c);
    assert(is_snapshot_of(s, c));
}

impl Cpu {
    /// Creates a CPU in its power-on state.
    ///
    /// The initial stack pointer and program counter come from the reset
    /// vectors, which the owner of the bus loads afterwards.
    pub fn new() -> (r: Self)
        ensures
            r@ == power_on_cpu(),
    {
        let r = Cpu {
            d: [0u32;8],
            a: [0u32;7],
            pc: 0,
            sr: StatusRegister::new(StatusRegister::S),
            ssp: 0,
            usp: 0,
            cycles: 0,
            halted: false,
            stopped: false,
        };
        assert(r@ =~= power_on_cpu());
        r
    }

    /// Returns the active stack pointer (SSP in supervisor mode, USP otherwise).
    pub fn sp(&self) -> (r: u32)
        ensures
            r == self@.sp(),
    {
        if self.sr.supervisor() {
            self.ssp
        } else {
            self.usp
        }
    }

    /// Sets the active stack pointer.
    pub fn set_sp(&mut self, value: u32)
        ensures
            final(self)@ == old(self)@.with_sp(value),
    {
        if self.sr.supervisor() {
            self.ssp = value;
        } else {
            self.usp = value;
        }
    }

    /// Returns address register by index (0-7, where 7 is the active stack pointer).
    pub fn read_a(&self, reg: u8) -> (r: u32)
        requires
            reg < 8,
        ensures
            r == self@.read_a(reg as int),
    {
        if reg == 7 {
            self.sp()
        } else {
            self.a[reg as usize]
        }
    }

    /// Sets address register by index (0-7, where 7 is the active stack pointer).
    pub fn write_a(&mut self, reg: u8, value: u32)
        requires
            reg < 8,
        ensures
            final(self)@ == old(self)@.write_a(reg as int, value),
    {
        if reg == 7 {
            self.set_sp(value);
        } else {
            self.a[reg as usize] = value;
        }
    }

    /// Sets data register by index (0-7).
    pub fn write_d(&mut self, reg: u8, value: u32)
        requires
            reg < 8,
        ensures
            final(self)@ == old(self)@.write_d(reg as int, value),
    {
        self.d[reg as usize] = value;
    }

    /// Returns data register by index (0-7).
    pub fn read_d(&self, reg: u8) -> (r: u32)
        requires
            reg < 8,
        ensures
            r == self@.d[reg as int],
    {
        self.d[reg as usize]
    }

    /// Masks the program counter to 24 bits.
    pub fn masked_pc(&self) -> (r: u32)
        ensures
            r == self.pc % 0x0100_0000,
    {
        self.pc % 0x0100_0000
    }

    /// Snapshot for save states.
    pub fn snapshot(&self) -> (r: CpuSnapshot)
        ensures
            is_snapshot_of(r, self@),
            r == cpu_snapshot_of(self@),
    {
        let a: [u32; 8] = [
            self.a[0],
            self.a[1],
            self.a[2],
            self.a[3],
            self.a[4],
            self.a[5],
            self.a[6],
            self.sp(),
        ];
        let r = CpuSnapshot {
            d: self.d,
            a,
            pc: self.pc,
            sr: self.sr.0,
            ssp: self.ssp,
            usp: self.usp,
            cycles: self.cycles,
            halted: self.halted,
            stopped: self.stopped,
        };
        assert(r.a@.take(7) =~= self.a@);
        assert(snapshot_state(r) =~= self@);
        proof {
            lemma_cpu_snapshot_unique(r, self@);
        }
        r
    }

    /// Restore from a snapshot.
    pub fn restore(&mut self, snap: &CpuSnapshot)
        ensures
            final(self)@ == snapshot_state(*snap),
    {
        self.d = snap.d;
        self.a = [
            snap.a[0],
            snap.a[1],
            snap.a[2],
            snap.a[3],
            snap.a[4],
            snap.a[5],
            snap.a[6],
        ];
        self.pc = snap.pc;
        self.sr = StatusRegister::new(snap.sr);
        self.ssp = snap.ssp;
        self.usp = snap.usp;
        self.cycles = snap.cycles;
        self.halted = snap.halted;
        self.stopped = snap.stopped;
        assert(self@ =~= snapshot_state(*snap));
    }
}

impl Default for Cpu {
    fn default() -> (r: Self)
        ensures
            r@ == power_on_cpu(),
    {
        Self::new()
    }
}

/// Restoring the snapshot taken of a CPU gives that CPU back.
pub proof fn law_cpu_snapshot_roundtrip(c: CpuState, s: CpuSnapshot)
    requires
        is_snapshot_of(s, c),
    ensures
        snapshot_state(s) == c,
{
}

/// A write to an address register reads back, and leaves every other address
/// register and every data register alone.
pub proof fn law_address_register_write(c: CpuState, reg: int, other: int, value: u32)
    requires
        c.a.len() == 7,
        0 <= reg < 8,
        0 <= other < 8,
    ensures
        c.write_a(reg, value).read_a(reg) == value,
        other != reg ==> c.write_a(reg, value).read_a(other) == c.read_a(other),
        c.write_a(reg, value).d == c.d,
        c.write_a(reg, value).sr == c.sr,
{
}

} // verus!
