//! Global hardware cycle counters.
//!
//! Master clock (NTSC): 53.693175 MHz. The 68000 runs at master / 7, the VDP
//! at master / 4 and the Z80 at master / 15; counting master ticks keeps the
//! ratios exact in integers.
use vstd::prelude::*;

verus! {

/// NTSC Genesis master clock frequency in Hz.
pub const MASTER_CLOCK_NTSC: u64 = 53_693_175;

/// Master clock ticks per 68000 CPU cycle.
pub const MASTER_PER_CPU: u64 = 7;

/// Master clock ticks per VDP cycle.
pub const MASTER_PER_VDP: u64 = 4;

/// Master clock ticks per Z80 cycle.
pub const MASTER_PER_Z80: u64 = 15;

/// Master clock ticks of one H40 scanline.
pub const H40_LINE_MASTER_TICKS: u64 = 3420;

/// Scanlines of an NTSC frame.
pub const TOTAL_SCANLINES_NTSC: u16 = 262;

/// Television standard of a console.
#[derive(Debug, Clone, Copy, PartialEq, Eq, Structural)]
pub enum Region {
    /// 60 Hz: 262 lines.
    Ntsc,
    /// 50 Hz: 313 lines.
    Pal,
}

impl Region {
    /// Scanlines per frame, visible and blanking.
    pub fn total_scanlines(self) -> (r: u16)
        ensures
            r == match self {
                Region::Ntsc => 262u16,
                Region::Pal => 313,
            },
    {
        match self {
            Region::Ntsc => TOTAL_SCANLINES_NTSC,
            Region::Pal => 313,
        }
    }
}

/// Scheduler snapshot for save states.
#[derive(Debug, Clone, Copy, PartialEq, Eq, Structural)]
pub struct SchedulerSnapshot {
    /// Total master clock ticks elapsed.
    pub master_ticks: u64,
    /// Total 68000 CPU cycles elapsed.
    pub cpu_cycles: u64,
    /// Total VDP cycles elapsed.
    pub vdp_cycles: u64,
}

/// Live cycle counters for the running core. The counters wrap around at 64
/// bits.
#[derive(Debug, Clone, Copy, PartialEq, Eq, Structural)]
pub struct Scheduler {
    pub master_ticks: u64,
    pub cpu_cycles: u64,
    pub vdp_cycles: u64,
}

/// The zeroed scheduler.
pub open spec fn zero_scheduler() -> Scheduler {
    Scheduler { master_ticks: 0, cpu_cycles: 0, vdp_cycles: 0 }
}

/// The counters after `n` CPU cycles.
pub open spec fn after_cpu_cycles(s: Scheduler, n: u64) -> Scheduler {
    Scheduler {
        cpu_cycles: s.cpu_cycles.wrapping_add(n),
        master_ticks: s.master_ticks.wrapping_add((n * 7) as u64),
        ..s
    }
}

impl Scheduler {
    /// Creates a zeroed scheduler.
    pub fn new() -> (r: Self)
        ensures
            r == zero_scheduler(),
    {
        Scheduler { master_ticks: 0, cpu_cycles: 0, vdp_cycles: 0 }
    }

    /// Advances by one 68000 CPU cycle (7 master ticks).
    pub fn step_cpu_cycle(&mut self)
        ensures
            *final(self) == after_cpu_cycles(*old(self), 1),
    {
        self.cpu_cycles = self.cpu_cycles.wrapping_add(1);
        self.master_ticks = self.master_ticks.wrapping_add(MASTER_PER_CPU);
    }

    /// Records one VDP cycle executed. The master clock is driven by the CPU
    /// alone; the VDP catches up to it.
    pub fn step_vdp_cycle(&mut self)
        ensures
            *final(self) == (Scheduler {
                vdp_cycles: old(self).vdp_cycles.wrapping_add(1),
                ..*old(self)
            }),
    {
        self.vdp_cycles = self.vdp_cycles.wrapping_add(1);
    }

    /// Advances by `n` CPU cycles, updating master ticks accordingly.
    pub fn advance_cpu(&mut self, n: u64)
        requires
            n * 7 <= u64::MAX,
        ensures
            *final(self) == after_cpu_cycles(*old(self), n),
    {
        self.cpu_cycles = self.cpu_cycles.wrapping_add(n);
        self.master_ticks = self.master_ticks.wrapping_add(n * MASTER_PER_CPU);
    }

    /// Returns the number of VDP cycles that should have elapsed given the
    /// current master tick count.
    pub fn expected_vdp_cycles(&self) -> (r: u64)
        ensures
            r == self.master_ticks / 4,
    {
        self.master_ticks / MASTER_PER_VDP
    }

    /// Returns how many VDP cycles the VDP needs to catch up.
    pub fn vdp_catchup_cycles(&self) -> (r: u64)
        ensures
            r == if self.master_ticks / 4 > self.vdp_cycles {
                self.master_ticks / 4 - self.vdp_cycles
            } else {
                0
            },
    {
        self.expected_vdp_cycles().saturating_sub(self.vdp_cycles)
    }

    /// Snapshot for save states.
    pub fn snapshot(&self) -> (r: SchedulerSnapshot)
        ensures
            r == scheduler_snapshot(*self),
    {
        SchedulerSnapshot {
            master_ticks: self.master_ticks,
            cpu_cycles: self.cpu_cycles,
            vdp_cycles: self.vdp_cycles,
        }
    }

    /// Restore from a snapshot.
    pub fn restore(&mut self, snap: &SchedulerSnapshot)
        ensures
            *final(self) == restored_scheduler(*snap),
    {
        self.master_ticks = snap.master_ticks;
        self.cpu_cycles = snap.cpu_cycles;
        self.vdp_cycles = snap.vdp_cycles;
    }

    /// Total CPU cycles elapsed.
    pub fn cpu_cycles(&self) -> (r: u64)
        ensures
            r == self.cpu_cycles,
    {
        self.cpu_cycles
    }

    /// Total VDP cycles elapsed.
    pub fn vdp_cycles(&self) -> (r: u64)
        ensures
            r == self.vdp_cycles,
    {
        self.vdp_cycles
    }

    /// Total master clock ticks.
    pub fn master_ticks(&self) -> (r: u64)
        ensures
            r == self.master_ticks,
    {
        self.master_ticks
    }
}

/// The snapshot of a scheduler.
pub open spec fn scheduler_snapshot(s: Scheduler) -> SchedulerSnapshot {
    SchedulerSnapshot {
        master_ticks: s.master_ticks,
        cpu_cycles: s.cpu_cycles,
        vdp_cycles: s.vdp_cycles,
    }
}

/// The scheduler that a snapshot describes.
pub open spec fn restored_scheduler(s: SchedulerSnapshot) -> Scheduler {
    Scheduler {
        master_ticks: s.master_ticks,
        cpu_cycles: s.cpu_cycles,
        vdp_cycles: s.vdp_cycles,
    }
}

impl Default for Scheduler {
    fn default() -> (r: Self)
        ensures
            r == zero_scheduler(),
    {
        Self::new()
    }
}

/// Restoring the snapshot of a scheduler gives that scheduler back.
pub proof fn law_scheduler_snapshot_roundtrip(s: Scheduler)
    ensures
        restored_scheduler(scheduler_snapshot(s)) == s,
{
}

/// Advancing by a batch is advancing by its parts.
pub proof fn law_cpu_cycles_add_up(s: Scheduler, a: u64, b: u64)
    requires
        (a + b) * 7 <= u64::MAX,
    ensures
        after_cpu_cycles(after_cpu_cycles(s, a), b) == after_cpu_cycles(s, (a + b) as u64),
{
}

} // verus!
