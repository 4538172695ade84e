//! What the core exchanges with its frontends: commands, queries, snapshots and
//! timed sound writes.
use vstd::prelude::*;

use crate::cpu::CpuSnapshot;
use crate::io::{Button, ControllerPort};
use crate::psg::{Psg, PsgState};
use crate::rewind::RewindConfig;
use crate::rom::SramLayout;
use crate::scheduler::{Region, SchedulerSnapshot};
use crate::vdp::{VdpCore, VdpSnapshot};
use crate::ym2612::{Ym2612, YmState};
use crate::z80::Z80Snapshot;

verus! {

/// Analog output profile of the console model.
#[derive(Debug, Clone, Copy, PartialEq, Eq, Structural)]
pub enum AudioOutputProfile {
    /// The filters of the native sample rates, no analog stage.
    Legacy,
    /// Model 1 (VA2) analog output stage.
    Model1Va2,
}

/// Shape of an equalizer stage.
#[derive(Debug, Clone, Copy, PartialEq, Eq, Structural)]
pub enum AudioEqKind {
    /// Low shelf.
    LowShelf,
    /// Peaking.
    Peaking,
    /// High shelf.
    HighShelf,
}

/// Commands that frontends send to drive the emulator.
#[derive(Debug, Clone)]
pub enum Command {
    /// Load a ROM from raw bytes.
    LoadRom(Vec<u8>),
    /// Hard reset (as if power cycled).
    PowerCycle,
    /// Soft reset (reset button).
    Reset,
    /// Execute one CPU instruction.
    StepCpu,
    /// Execute until end of current scanline.
    StepScanline,
    /// Execute one full frame.
    StepFrame,
    /// Set controller state from raw bitmask.
    SetControllerState { port: u8, buttons: u16 },
    /// Press a single button.
    PressButton { port: u8, button: Button },
    /// Release a single button.
    ReleaseButton { port: u8, button: Button },
    /// Set emulation speed in permille (1000 = normal).
    SetSpeed(u16),
    /// Set audio output sample rate in Hz (e.g. 44100, 48000).
    SetAudioSampleRate(u32),
    /// Set the delay of YM2612 key writes on the audio path, in master ticks per
    /// channel.
    SetKeyDelays([u64; 6]),
    /// Pause emulation.
    Pause,
    /// Resume emulation.
    Resume,
    /// Rewind emulation by the given number of frames (time-travel).
    Rewind { frames: u32 },
    /// Step exactly one frame backward.
    StepBack,
    /// Reconfigure the rewind timeline.
    SetRewindConfig(RewindConfig),
}

/// Queries for reading emulator state without mutation.
#[derive(Debug, Clone, Copy, PartialEq, Eq, Structural)]
pub enum CoreQuery {
    /// Overall emulator state.
    EmulatorState,
    /// CPU register values.
    Registers,
    /// Read memory at address for given length.
    Memory { addr: u32, len: u16 },
    /// VDP register values.
    VdpRegisters,
    /// Current FPS in millihertz.
    FpsMilli,
    /// Frame counter.
    FrameCounter,
    /// Rewind buffer status.
    RewindStatus,
}

/// A YM2612 register write observed on the live machine timeline.
#[derive(Debug, Clone, Copy, PartialEq, Eq, Structural)]
pub struct TimedYm2612Write {
    /// Absolute NTSC master-clock tick when the write reached the YM bus.
    pub master_tick: u64,
    /// Frame index when the write occurred.
    pub frame: u64,
    /// Scanline within the frame when the write occurred.
    pub scanline: u16,
    /// YM2612 port number: 0 for channels 1-3/global, 1 for channels 4-6.
    pub port: u8,
    /// YM2612 register address latched for the write.
    pub addr: u8,
    /// Register value written on the data port.
    pub value: u8,
}

/// A PSG register write observed on the live machine timeline.
#[derive(Debug, Clone, Copy, PartialEq, Eq, Structural)]
pub struct TimedPsgWrite {
    /// Absolute NTSC master-clock tick when the write reached the PSG bus.
    pub master_tick: u64,
    /// Frame index when the write occurred.
    pub frame: u64,
    /// Scanline within the frame when the write occurred.
    pub scanline: u16,
    /// PSG data byte written.
    pub value: u8,
}

/// Cartridge address mapper.
#[derive(Debug, Clone, Copy, PartialEq, Eq)]
pub enum Mapper {
    /// The ROM is mapped as it is.
    Flat,
    /// Super Street Fighter II style banking: eight windows of 512KB.
    Ssf2 { banks: [u8; 8] },
}

impl Mapper {
    /// Whether two mappers are the same.
    pub fn same(&self, other: &Mapper) -> (r: bool)
        ensures
            r == (*self == *other),
    {
        match (self, other) {
            (Mapper::Flat, Mapper::Flat) => true,
            (Mapper::Ssf2 { banks: a }, Mapper::Ssf2 { banks: b }) => {
                let mut i: usize = 0;
                while i < 8
                    invariant
                        i <= 8,
                        *self == (Mapper::Ssf2 { banks: *a }),
                        *other == (Mapper::Ssf2 { banks: *b }),
                        forall|j: int| 0 <= j < i ==> a@[j] == b@[j],
                    decreases 8 - i,
                {
                    if a[i] != b[i] {
                        return false;
                    }
                    i = i + 1;
                }
                assert(a =~= b);
                true
            },
            _ => false,
        }
    }
}

/// Cartridge backup RAM.
#[derive(Debug, PartialEq, Eq)]
pub struct CartSram {
    /// The backing bytes.
    pub data: Vec<u8>,
    /// The RAM is mapped in.
    pub enabled: bool,
    /// The RAM is battery backed.
    pub has_battery: bool,
    /// The header declares the RAM.
    pub header_declared: bool,
    /// The RAM has been accessed.
    pub touched: bool,
    /// The RAM has changed since it was saved.
    pub dirty: bool,
    /// First address of the window.
    pub start: u32,
    /// Last address of the window.
    pub end: u32,
    /// Byte lanes.
    pub layout: SramLayout,
}

/// Mathematical model of the backup RAM.
#[verifier::ext_equal]
pub ghost struct SramState {
    pub data: Seq<u8>,
    pub enabled: bool,
    pub has_battery: bool,
    pub header_declared: bool,
    pub touched: bool,
    pub dirty: bool,
    pub start: u32,
    pub end: u32,
    pub layout: SramLayout,
}

impl View for CartSram {
    type V = SramState;

    open spec fn view(&self) -> SramState {
        SramState {
            data: self.data@,
            enabled: self.enabled,
            has_battery: self.has_battery,
            header_declared: self.header_declared,
            touched: self.touched,
            dirty: self.dirty,
            start: self.start,
            end: self.end,
            layout: self.layout,
        }
    }
}

/// The backup RAM of a fresh core: cleared, not mapped in.
pub open spec fn power_on_sram() -> SramState {
    SramState {
        data: Seq::new(0x1_0000, |i: int| 0u8),
        enabled: false,
        has_battery: false,
        header_declared: false,
        touched: false,
        dirty: false,
        start: 0x20_0000,
        end: 0x20_FFFF,
        layout: SramLayout::Both,
    }
}

/// A vector of `n` zero bytes.
pub fn zeroed(n: usize) -> (r: Vec<u8>)
    ensures
        r@ == Seq::new(n as nat, |i: int| 0u8),
{
    let mut r: Vec<u8> = Vec::new();
    let mut i: usize = 0;
    while i < n
        invariant
            i <= n,
            r@ == Seq::new(i as nat, |i: int| 0u8),
        decreases n - i,
    {
        r.push(0u8);
        i = i + 1;
        assert(r@ =~= Seq::new(i as nat, |i: int| 0u8));
    }
    r
}

impl CartSram {
    /// Creates the backup RAM of a fresh core.
    #[must_use]
    pub fn new() -> (r: Self)
        ensures
            r@ == power_on_sram(),
    {
        CartSram {
            data: zeroed(0x1_0000),
            enabled: false,
            has_battery: false,
            header_declared: false,
            touched: false,
            dirty: false,
            start: 0x20_0000,
            end: 0x20_FFFF,
            layout: SramLayout::Both,
        }
    }
}

impl Clone for CartSram {
    fn clone(&self) -> (r: Self)
        ensures
            r@ == self@,
    {
        CartSram {
            data: vstd::slice::slice_to_vec(self.data.as_slice()),
            enabled: self.enabled,
            has_battery: self.has_battery,
            header_declared: self.header_declared,
            touched: self.touched,
            dirty: self.dirty,
            start: self.start,
            end: self.end,
            layout: self.layout,
        }
    }
}

/// A complete snapshot of the deterministic emulation state.
///
/// It holds everything required to reproduce identical subsequent emulation. It
/// leaves out the ROM, which does not change while it is loaded, the
/// framebuffer, which rendering derives again, and the audio timeline and debug
/// traces, which a restore rebuilds.
#[derive(Debug, PartialEq)]
pub struct GenesisCoreSnapshot {
    /// 68000 CPU register state.
    pub cpu: CpuSnapshot,
    /// Full VDP state (minus framebuffer).
    pub vdp: VdpSnapshot,
    /// Cycle scheduler counters.
    pub scheduler: SchedulerSnapshot,
    /// Z80 state.
    pub z80: Z80Snapshot,
    /// 64KB work RAM.
    pub work_ram: Vec<u8>,
    /// 8KB Z80 RAM.
    pub z80_ram: Vec<u8>,
    /// 68K ROM bank register.
    pub z80_bank: u32,
    /// 68K has requested the Z80 bus.
    pub z80_bus_requested: bool,
    /// Z80 in reset state.
    pub z80_reset: bool,
    /// Z80 reset transition pending.
    pub z80_reset_pending: bool,
    /// Z80 bus released at some point during the current scanline.
    pub z80_bus_released_this_scanline: bool,
    /// SN76489 PSG state.
    pub psg: Psg,
    /// YM2612 FM synthesis state.
    pub ym2612: Ym2612,
    /// Controller port 1.
    pub port1: ControllerPort,
    /// Controller port 2.
    pub port2: ControllerPort,
    /// Frame counter.
    pub frame_count: u64,
    /// Emulation speed in permille.
    pub speed_permille: u16,
    /// Whether emulation is paused.
    pub paused: bool,
    /// Television standard.
    pub region: Region,
    /// Overseas (not Japanese) console.
    pub overseas: bool,
    /// Television standard chosen by the user.
    pub region_override: Option<Region>,
    /// Cartridge backup RAM.
    pub sram: CartSram,
    /// Cartridge address mapper.
    pub mapper: Mapper,
}

/// Mathematical model of a snapshot.
#[verifier::ext_equal]
pub ghost struct SnapshotState {
    pub cpu: CpuSnapshot,
    pub vdp: VdpCore,
    pub scheduler: SchedulerSnapshot,
    pub z80: Z80Snapshot,
    pub work_ram: Seq<u8>,
    pub z80_ram: Seq<u8>,
    pub z80_bank: u32,
    pub z80_bus_requested: bool,
    pub z80_reset: bool,
    pub z80_reset_pending: bool,
    pub z80_bus_released_this_scanline: bool,
    pub psg: PsgState,
    pub ym2612: YmState,
    pub port1: ControllerPort,
    pub port2: ControllerPort,
    pub frame_count: u64,
    pub speed_permille: u16,
    pub paused: bool,
    pub region: Region,
    pub overseas: bool,
    pub region_override: Option<Region>,
    pub sram: SramState,
    pub mapper: Mapper,
}

impl View for GenesisCoreSnapshot {
    type V = SnapshotState;

    open spec fn view(&self) -> SnapshotState {
        SnapshotState {
            cpu: self.cpu,
            vdp: self.vdp@,
            scheduler: self.scheduler,
            z80: self.z80,
            work_ram: self.work_ram@,
            z80_ram: self.z80_ram@,
            z80_bank: self.z80_bank,
            z80_bus_requested: self.z80_bus_requested,
            z80_reset: self.z80_reset,
            z80_reset_pending: self.z80_reset_pending,
            z80_bus_released_this_scanline: self.z80_bus_released_this_scanline,
            psg: self.psg@,
            ym2612: self.ym2612@,
            port1: self.port1,
            port2: self.port2,
            frame_count: self.frame_count,
            speed_permille: self.speed_permille,
            paused: self.paused,
            region: self.region,
            overseas: self.overseas,
            region_override: self.region_override,
            sram: self.sram@,
            mapper: self.mapper,
        }
    }
}

impl SnapshotState {
    /// The buffers have their hardware sizes, and the length of the backup RAM
    /// fits the 32 bits in which deltas store it.
    pub open spec fn sized(self) -> bool {
        &&& self.work_ram.len() == 0x1_0000
        &&& self.z80_ram.len() == 0x2000
        &&& self.vdp.vram.len() == 0x1_0000
        &&& self.sram.data.len() <= u32::MAX
    }

    /// The state can be restored: the buffers have their sizes, and the chips
    /// are well formed.
    pub open spec fn wf(self) -> bool {
        &&& self.sized()
        &&& self.vdp.wf()
        &&& self.psg.wf()
        &&& self.ym2612.wf()
    }
}

impl GenesisCoreSnapshot {
    /// Whether the state can be restored: the buffers have their sizes, and the
    /// chips are well formed. A snapshot of a core always can; one that was put
    /// together or read from a file need not.
    #[must_use]
    pub fn is_well_formed(&self) -> (r: bool)
        ensures
            r == self@.wf(),
    {
        self.work_ram.len() == 0x1_0000 && self.z80_ram.len() == 0x2000 && self.sram.data.len()
            as u64 <= u32::MAX as u64 && self.vdp.is_well_formed() && self.psg.is_well_formed()
            && self.ym2612.is_well_formed()
    }
}

impl Clone for GenesisCoreSnapshot {
    fn clone(&self) -> (r: Self)
        ensures
            r@ == self@,
    {
        GenesisCoreSnapshot {
            cpu: self.cpu,
            vdp: self.vdp.clone(),
            scheduler: self.scheduler,
            z80: self.z80,
            work_ram: vstd::slice::slice_to_vec(self.work_ram.as_slice()),
            z80_ram: vstd::slice::slice_to_vec(self.z80_ram.as_slice()),
            z80_bank: self.z80_bank,
            z80_bus_requested: self.z80_bus_requested,
            z80_reset: self.z80_reset,
            z80_reset_pending: self.z80_reset_pending,
            z80_bus_released_this_scanline: self.z80_bus_released_this_scanline,
            psg: self.psg,
            ym2612: self.ym2612.clone(),
            port1: self.port1,
            port2: self.port2,
            frame_count: self.frame_count,
            speed_permille: self.speed_permille,
            paused: self.paused,
            region: self.region,
            overseas: self.overseas,
            region_override: self.region_override,
            sram: self.sram.clone(),
            mapper: self.mapper,
        }
    }
}

} // verus!
