//! Frame deltas: everything that changed from one snapshot to the next.
use vstd::prelude::*;

use crate::api::state::{GenesisCoreSnapshot, Mapper, SnapshotState, SramState};
use crate::cpu::CpuSnapshot;
use crate::io::ControllerPort;
use crate::psg::{Psg, PsgState};
use crate::rewind::delta::{
    apply_deltas, count_run_bytes, diff_array, diff_runs, law_diff_apply_roundtrip,
    lemma_diff_apply_resized, lemma_diff_bytes, run_bytes, runs_applied, runs_of, zero_extended,
    ArrayDelta, Run,
};
use crate::rom::SramLayout;
use crate::scheduler::{Region, SchedulerSnapshot};
use crate::vdp::{AccessType, ControlState, VdpCore, VdpSnapshot};
use crate::ym2612::{same_bytes, Ym2612, YmState};
use crate::z80::Z80Snapshot;

verus! {

// ── VDP meta ─────────────────────────────────────────────────────────────

/// The non-VRAM portion of the VDP state, stored whole when any of it changes.
#[derive(Debug, Clone, PartialEq, Eq)]
pub struct VdpMeta {
    pub cram: Vec<u16>,
    pub vsram: Vec<u16>,
    pub registers: Vec<u8>,
    pub control_state: ControlState,
    pub address: u16,
    pub scanline: u16,
    pub dot: u16,
    pub auto_increment: u16,
    pub access_type: Option<AccessType>,
    pub in_vblank: bool,
    pub in_hblank: bool,
    pub dma_pending: bool,
    pub dma_fill_pending: bool,
    pub h_interrupt_counter: i16,
    pub h_interrupt_pending: bool,
    pub control_code: u8,
    pub odd_frame: bool,
    pub vint_pending: bool,
    pub dma_busy_cpu_cycles: u32,
    pub region: Region,
}

impl View for VdpMeta {
    type V = VdpCore;

    open spec fn view(&self) -> VdpCore {
        VdpCore {
            vram: Seq::empty(),
            cram: self.cram@,
            vsram: self.vsram@,
            registers: self.registers@,
            control_state: self.control_state,
            address: self.address,
            scanline: self.scanline,
            dot: self.dot,
            auto_increment: self.auto_increment,
            access_type: self.access_type,
            in_vblank: self.in_vblank,
            in_hblank: self.in_hblank,
            dma_pending: self.dma_pending,
            dma_fill_pending: self.dma_fill_pending,
            h_interrupt_counter: self.h_interrupt_counter,
            h_interrupt_pending: self.h_interrupt_pending,
            control_code: self.control_code,
            odd_frame: self.odd_frame,
            vint_pending: self.vint_pending,
            dma_busy_cpu_cycles: self.dma_busy_cpu_cycles,
            region: self.region,
        }
    }
}

/// A VDP state without its VRAM.
pub open spec fn meta_of(v: VdpCore) -> VdpCore {
    VdpCore { vram: Seq::empty(), ..v }
}

/// A VDP state with everything but its VRAM from a meta state.
pub open spec fn with_meta(v: VdpCore, meta: VdpCore) -> VdpCore {
    VdpCore { vram: v.vram, ..meta }
}

/// Whether two word vectors are equal.
fn same_words(a: &Vec<u16>, b: &Vec<u16>) -> (r: bool)
    ensures
        r == (a@ == b@),
{
    if a.len() != b.len() {
        return false;
    }
    let mut i: usize = 0;
    while i < a.len()
        invariant
            i <= a@.len(),
            a@.len() == b@.len(),
            forall|j: int| 0 <= j < i ==> a@[j] == b@[j],
        decreases a@.len() - i,
    {
        if a[i] != b[i] {
            return false;
        }
        i = i + 1;
    }
    assert(a@ =~= b@);
    true
}

/// Copies a word vector.
fn copy_words(a: &Vec<u16>) -> (r: Vec<u16>)
    ensures
        r@ == a@,
{
    vstd::slice::slice_to_vec(a.as_slice())
}

/// Copies a byte vector.
fn copy_bytes(a: &Vec<u8>) -> (r: Vec<u8>)
    ensures
        r@ == a@,
{
    vstd::slice::slice_to_vec(a.as_slice())
}

impl VdpMeta {
    /// The meta state of a VDP snapshot.
    #[must_use]
    pub fn from_snapshot(v: &VdpSnapshot) -> (r: Self)
        ensures
            r@ == meta_of(v@),
    {
        VdpMeta {
            cram: copy_words(&v.cram),
            vsram: copy_words(&v.vsram),
            registers: copy_bytes(&v.registers),
            control_state: v.control_state,
            address: v.address,
            scanline: v.scanline,
            dot: v.dot,
            auto_increment: v.auto_increment,
            access_type: v.access_type,
            in_vblank: v.in_vblank,
            in_hblank: v.in_hblank,
            dma_pending: v.dma_pending,
            dma_fill_pending: v.dma_fill_pending,
            h_interrupt_counter: v.h_interrupt_counter,
            h_interrupt_pending: v.h_interrupt_pending,
            control_code: v.control_code,
            odd_frame: v.odd_frame,
            vint_pending: v.vint_pending,
            dma_busy_cpu_cycles: v.dma_busy_cpu_cycles,
            region: v.region,
        }
    }

    /// Whether two meta states are the same.
    #[must_use]
    pub fn same(&self, other: &VdpMeta) -> (r: bool)
        ensures
            r == (self@ == other@),
    {
        same_words(&self.cram, &other.cram) && same_words(&self.vsram, &other.vsram) && same_bytes(
            self.registers.as_slice(),
            other.registers.as_slice(),
        ) && self.control_state == other.control_state && self.address == other.address
            && self.scanline == other.scanline && self.dot == other.dot && self.auto_increment
            == other.auto_increment && self.access_type == other.access_type && self.in_vblank
            == other.in_vblank && self.in_hblank == other.in_hblank && self.dma_pending
            == other.dma_pending && self.dma_fill_pending == other.dma_fill_pending
            && self.h_interrupt_counter == other.h_interrupt_counter && self.h_interrupt_pending
            == other.h_interrupt_pending && self.control_code == other.control_code
            && self.odd_frame == other.odd_frame && self.vint_pending == other.vint_pending
            && self.dma_busy_cpu_cycles == other.dma_busy_cpu_cycles && self.region == other.region
    }

    /// Writes the meta state into a VDP snapshot.
    pub fn apply_to(&self, v: &mut VdpSnapshot)
        ensures
            final(v)@ == with_meta(old(v)@, self@),
    {
        v.cram = copy_words(&self.cram);
        v.vsram = copy_words(&self.vsram);
        v.registers = copy_bytes(&self.registers);
        v.control_state = self.control_state;
        v.address = self.address;
        v.scanline = self.scanline;
        v.dot = self.dot;
        v.auto_increment = self.auto_increment;
        v.access_type = self.access_type;
        v.in_vblank = self.in_vblank;
        v.in_hblank = self.in_hblank;
        v.dma_pending = self.dma_pending;
        v.dma_fill_pending = self.dma_fill_pending;
        v.h_interrupt_counter = self.h_interrupt_counter;
        v.h_interrupt_pending = self.h_interrupt_pending;
        v.control_code = self.control_code;
        v.odd_frame = self.odd_frame;
        v.vint_pending = self.vint_pending;
        v.dma_busy_cpu_cycles = self.dma_busy_cpu_cycles;
        v.region = self.region;
    }

    /// Estimated bytes of a stored meta state. Saturates.
    #[must_use]
    pub fn estimated_bytes(&self) -> (r: usize)
        ensures
            r == saturated(meta_bytes(self@)),
    {
        saturating_sum(
            saturating_sum(
                saturating_sum(self.cram.len(), self.cram.len()),
                saturating_sum(self.vsram.len(), self.vsram.len()),
            ),
            saturating_sum(self.registers.len(), 32),
        )
    }
}

/// Bytes charged for a meta state.
pub open spec fn meta_bytes(v: VdpCore) -> int {
    v.cram.len() as int * 2 + v.vsram.len() as int * 2 + v.registers.len() as int + 32
}

/// A size as a `usize`, the largest one standing for all beyond it.
pub open spec fn saturated(n: int) -> usize {
    if n > usize::MAX {
        usize::MAX
    } else {
        n as usize
    }
}

/// Adds two sizes. Saturates.
pub fn saturating_sum(a: usize, b: usize) -> (r: usize)
    ensures
        r == saturated(a + b),
{
    if a > usize::MAX - b {
        usize::MAX
    } else {
        a + b
    }
}

// ── Scalars ──────────────────────────────────────────────────────────────

/// The scalar core fields, bundled so they are diffed as one unit.
#[derive(Debug, Clone, Copy, PartialEq, Eq, Structural)]
pub struct ScalarState {
    pub z80_bank: u32,
    pub z80_bus_requested: bool,
    pub z80_reset: bool,
    pub z80_reset_pending: bool,
    pub z80_bus_released_this_scanline: bool,
    pub frame_count: u64,
    pub speed_permille: u16,
    pub paused: bool,
    pub region: Region,
    pub overseas: bool,
    pub region_override: Option<Region>,
    pub sram_enabled: bool,
    pub sram_has_battery: bool,
    pub sram_header_declared: bool,
    pub sram_touched: bool,
    pub sram_dirty: bool,
    pub sram_start: u32,
    pub sram_end: u32,
    pub sram_layout: SramLayout,
}

/// The scalars of a snapshot.
pub open spec fn scalars_of(s: SnapshotState) -> ScalarState {
    ScalarState {
        z80_bank: s.z80_bank,
        z80_bus_requested: s.z80_bus_requested,
        z80_reset: s.z80_reset,
        z80_reset_pending: s.z80_reset_pending,
        z80_bus_released_this_scanline: s.z80_bus_released_this_scanline,
        frame_count: s.frame_count,
        speed_permille: s.speed_permille,
        paused: s.paused,
        region: s.region,
        overseas: s.overseas,
        region_override: s.region_override,
        sram_enabled: s.sram.enabled,
        sram_has_battery: s.sram.has_battery,
        sram_header_declared: s.sram.header_declared,
        sram_touched: s.sram.touched,
        sram_dirty: s.sram.dirty,
        sram_start: s.sram.start,
        sram_end: s.sram.end,
        sram_layout: s.sram.layout,
    }
}

/// A snapshot with its scalars replaced.
pub open spec fn with_scalars(s: SnapshotState, c: ScalarState) -> SnapshotState {
    SnapshotState {
        z80_bank: c.z80_bank,
        z80_bus_requested: c.z80_bus_requested,
        z80_reset: c.z80_reset,
        z80_reset_pending: c.z80_reset_pending,
        z80_bus_released_this_scanline: c.z80_bus_released_this_scanline,
        frame_count: c.frame_count,
        speed_permille: c.speed_permille,
        paused: c.paused,
        region: c.region,
        overseas: c.overseas,
        region_override: c.region_override,
        sram: SramState {
            data: s.sram.data,
            enabled: c.sram_enabled,
            has_battery: c.sram_has_battery,
            header_declared: c.sram_header_declared,
            touched: c.sram_touched,
            dirty: c.sram_dirty,
            start: c.sram_start,
            end: c.sram_end,
            layout: c.sram_layout,
        },
        ..s
    }
}

impl ScalarState {
    /// The scalars of a snapshot.
    #[must_use]
    pub fn from_snapshot(s: &GenesisCoreSnapshot) -> (r: Self)
        ensures
            r == scalars_of(s@),
    {
        ScalarState {
            z80_bank: s.z80_bank,
            z80_bus_requested: s.z80_bus_requested,
            z80_reset: s.z80_reset,
            z80_reset_pending: s.z80_reset_pending,
            z80_bus_released_this_scanline: s.z80_bus_released_this_scanline,
            frame_count: s.frame_count,
            speed_permille: s.speed_permille,
            paused: s.paused,
            region: s.region,
            overseas: s.overseas,
            region_override: s.region_override,
            sram_enabled: s.sram.enabled,
            sram_has_battery: s.sram.has_battery,
            sram_header_declared: s.sram.header_declared,
            sram_touched: s.sram.touched,
            sram_dirty: s.sram.dirty,
            sram_start: s.sram.start,
            sram_end: s.sram.end,
            sram_layout: s.sram.layout,
        }
    }

    /// Writes the scalars into a snapshot.
    pub fn apply_to(&self, s: &mut GenesisCoreSnapshot)
        ensures
            final(s)@ == with_scalars(old(s)@, *self),
    {
        s.z80_bank = self.z80_bank;
        s.z80_bus_requested = self.z80_bus_requested;
        s.z80_reset = self.z80_reset;
        s.z80_reset_pending = self.z80_reset_pending;
        s.z80_bus_released_this_scanline = self.z80_bus_released_this_scanline;
        s.frame_count = self.frame_count;
        s.speed_permille = self.speed_permille;
        s.paused = self.paused;
        s.region = self.region;
        s.overseas = self.overseas;
        s.region_override = self.region_override;
        s.sram.enabled = self.sram_enabled;
        s.sram.has_battery = self.sram_has_battery;
        s.sram.header_declared = self.sram_header_declared;
        s.sram.touched = self.sram_touched;
        s.sram.dirty = self.sram_dirty;
        s.sram.start = self.sram_start;
        s.sram.end = self.sram_end;
        s.sram.layout = self.sram_layout;
    }
}

// ── Fields ───────────────────────────────────────────────────────────────

/// The small components of a snapshot, each present only if it changed relative
/// to the previous frame.
#[derive(Debug, Clone, PartialEq)]
pub struct FieldDelta {
    pub cpu: Option<CpuSnapshot>,
    pub scheduler: Option<SchedulerSnapshot>,
    pub z80: Option<Z80Snapshot>,
    pub psg: Option<Psg>,
    pub ym2612: Option<Ym2612>,
    pub port1: Option<ControllerPort>,
    pub port2: Option<ControllerPort>,
    pub vdp_meta: Option<VdpMeta>,
    pub scalars: Option<ScalarState>,
    pub mapper: Option<Mapper>,
}

/// Mathematical model of a field delta.
#[verifier::ext_equal]
pub ghost struct FieldState {
    pub cpu: Option<CpuSnapshot>,
    pub scheduler: Option<SchedulerSnapshot>,
    pub z80: Option<Z80Snapshot>,
    pub psg: Option<PsgState>,
    pub ym2612: Option<YmState>,
    pub port1: Option<ControllerPort>,
    pub port2: Option<ControllerPort>,
    pub vdp_meta: Option<VdpCore>,
    pub scalars: Option<ScalarState>,
    pub mapper: Option<Mapper>,
}

impl View for FieldDelta {
    type V = FieldState;

    open spec fn view(&self) -> FieldState {
        FieldState {
            cpu: self.cpu,
            scheduler: self.scheduler,
            z80: self.z80,
            psg: match self.psg {
                Some(p) => Some(p@),
                None => None,
            },
            ym2612: match self.ym2612 {
                Some(y) => Some(y@),
                None => None,
            },
            port1: self.port1,
            port2: self.port2,
            vdp_meta: match self.vdp_meta {
                Some(v) => Some(v@),
                None => None,
            },
            scalars: self.scalars,
            mapper: self.mapper,
        }
    }
}

/// A component where it changed.
#[verifier::opaque]
pub open spec fn changed<T>(before: T, after: T) -> Option<T> {
    if before == after {
        None
    } else {
        Some(after)
    }
}

/// A component with its change.
#[verifier::opaque]
pub open spec fn updated<T>(value: T, change: Option<T>) -> T {
    match change {
        Some(v) => v,
        None => value,
    }
}

/// The components that changed from one snapshot to another.
pub open spec fn fields_between(b: SnapshotState, a: SnapshotState) -> FieldState {
    FieldState {
        cpu: changed(b.cpu, a.cpu),
        scheduler: changed(b.scheduler, a.scheduler),
        z80: changed(b.z80, a.z80),
        psg: changed(b.psg, a.psg),
        ym2612: changed(b.ym2612, a.ym2612),
        port1: changed(b.port1, a.port1),
        port2: changed(b.port2, a.port2),
        vdp_meta: changed(meta_of(b.vdp), meta_of(a.vdp)),
        scalars: changed(scalars_of(b), scalars_of(a)),
        mapper: changed(b.mapper, a.mapper),
    }
}

/// A snapshot with changed chips, ports and mapper.
pub open spec fn parts_applied(s: SnapshotState, f: FieldState) -> SnapshotState {
    SnapshotState {
        cpu: updated(s.cpu, f.cpu),
        scheduler: updated(s.scheduler, f.scheduler),
        z80: updated(s.z80, f.z80),
        psg: updated(s.psg, f.psg),
        ym2612: updated(s.ym2612, f.ym2612),
        port1: updated(s.port1, f.port1),
        port2: updated(s.port2, f.port2),
        mapper: updated(s.mapper, f.mapper),
        ..s
    }
}

/// A snapshot with a changed VDP meta state.
pub open spec fn meta_applied(s: SnapshotState, meta: Option<VdpCore>) -> SnapshotState {
    match meta {
        Some(m) => SnapshotState { vdp: with_meta(s.vdp, m), ..s },
        None => s,
    }
}

/// A snapshot with changed scalars.
pub open spec fn scalars_applied(s: SnapshotState, c: Option<ScalarState>) -> SnapshotState {
    match c {
        Some(c) => with_scalars(s, c),
        None => s,
    }
}

/// A snapshot with changed components.
#[verifier::opaque]
pub open spec fn fields_applied(s: SnapshotState, f: FieldState) -> SnapshotState {
    scalars_applied(meta_applied(parts_applied(s, f), f.vdp_meta), f.scalars)
}

/// A size charged for a present component.
#[verifier::opaque]
pub open spec fn charge(present: bool, bytes: int) -> int {
    if present {
        bytes
    } else {
        0
    }
}

/// Bytes charged for a field delta.
pub open spec fn field_bytes(f: FieldState) -> int {
    charge(f.cpu is Some, 64) + charge(f.mapper is Some, 16) + charge(f.scheduler is Some, 24)
        + charge(f.z80 is Some, 40) + charge(f.psg is Some, 64) + charge(f.ym2612 is Some, 1024)
        + charge(f.port1 is Some, 8) + charge(f.port2 is Some, 8) + (match f.vdp_meta {
        Some(v) => meta_bytes(v),
        None => 0,
    }) + charge(f.scalars is Some, 24)
}

impl Default for FieldDelta {
    /// A delta that changes nothing.
    fn default() -> (r: Self)
        ensures
            r@.cpu is None,
            r@.scheduler is None,
            r@.z80 is None,
            r@.psg is None,
            r@.ym2612 is None,
            r@.port1 is None,
            r@.port2 is None,
            r@.vdp_meta is None,
            r@.scalars is None,
            r@.mapper is None,
    {
        FieldDelta {
            cpu: None,
            scheduler: None,
            z80: None,
            psg: None,
            ym2612: None,
            port1: None,
            port2: None,
            vdp_meta: None,
            scalars: None,
            mapper: None,
        }
    }
}

impl FieldDelta {
    /// The components that changed from `before` to `after`.
    #[must_use]
    pub fn compute(before: &GenesisCoreSnapshot, after: &GenesisCoreSnapshot) -> (r: Self)
        ensures
            r@ == fields_between(before@, after@),
    {
        reveal(changed);
        let b_meta = VdpMeta::from_snapshot(&before.vdp);
        let a_meta = VdpMeta::from_snapshot(&after.vdp);
        let b_scalars = ScalarState::from_snapshot(before);
        let a_scalars = ScalarState::from_snapshot(after);
        FieldDelta {
            cpu: if before.cpu.same(&after.cpu) {
                None
            } else {
                Some(after.cpu)
            },
            scheduler: if before.scheduler == after.scheduler {
                None
            } else {
                Some(after.scheduler)
            },
            z80: if before.z80 == after.z80 {
                None
            } else {
                Some(after.z80)
            },
            psg: if before.psg.same(&after.psg) {
                None
            } else {
                Some(after.psg)
            },
            ym2612: if before.ym2612.same(&after.ym2612) {
                None
            } else {
                Some(after.ym2612.clone())
            },
            port1: if before.port1 == after.port1 {
                None
            } else {
                Some(after.port1)
            },
            port2: if before.port2 == after.port2 {
                None
            } else {
                Some(after.port2)
            },
            vdp_meta: if b_meta.same(&a_meta) {
                None
            } else {
                Some(a_meta)
            },
            scalars: if b_scalars == a_scalars {
                None
            } else {
                Some(a_scalars)
            },
            mapper: if before.mapper.same(&after.mapper) {
                None
            } else {
                Some(after.mapper)
            },
        }
    }

    /// Writes the changed components into a snapshot.
    pub fn apply(&self, target: &mut GenesisCoreSnapshot)
        ensures
            final(target)@ == fields_applied(old(target)@, self@),
    {
        reveal(fields_applied);
        self.apply_parts(target);
        self.apply_meta(target);
        self.apply_scalars(target);
    }

    /// Writes the changed chips, ports and mapper.
    fn apply_parts(&self, target: &mut GenesisCoreSnapshot)
        ensures
            final(target)@ == parts_applied(old(target)@, self@),
    {
        target.cpu = pick(target.cpu, self.cpu);
        target.mapper = pick(target.mapper, self.mapper);
        target.scheduler = pick(target.scheduler, self.scheduler);
        target.z80 = pick(target.z80, self.z80);
        target.psg = pick(target.psg, self.psg);
        target.port1 = pick(target.port1, self.port1);
        target.port2 = pick(target.port2, self.port2);
        reveal(updated);
        if let Some(v) = &self.ym2612 {
            target.ym2612 = v.clone();
        }
    }

    /// Writes the changed VDP meta state.
    fn apply_meta(&self, target: &mut GenesisCoreSnapshot)
        ensures
            final(target)@ == meta_applied(old(target)@, self@.vdp_meta),
    {
        if let Some(v) = &self.vdp_meta {
            v.apply_to(&mut target.vdp);
        }
    }

    /// Writes the changed scalars.
    fn apply_scalars(&self, target: &mut GenesisCoreSnapshot)
        ensures
            final(target)@ == scalars_applied(old(target)@, self@.scalars),
    {
        if let Some(v) = &self.scalars {
            v.apply_to(target);
        }
    }

    /// Estimated bytes of a stored field delta. Saturates.
    #[must_use]
    pub fn estimated_bytes(&self) -> (r: usize)
        ensures
            r == saturated(field_bytes(self@)),
    {
        let fixed: usize = charge_if(self.cpu.is_some(), 64) + charge_if(self.mapper.is_some(), 16)
            + charge_if(self.scheduler.is_some(), 24) + charge_if(self.z80.is_some(), 40)
            + charge_if(self.psg.is_some(), 64) + charge_if(self.ym2612.is_some(), 1024)
            + charge_if(self.port1.is_some(), 8) + charge_if(self.port2.is_some(), 8) + charge_if(
            self.scalars.is_some(),
            24,
        );
        match &self.vdp_meta {
            Some(v) => saturating_sum(fixed, v.estimated_bytes()),
            None => fixed,
        }
    }
}

/// A value, or its change where there is one.
fn pick<T: Copy>(value: T, change: Option<T>) -> (r: T)
    ensures
        r == updated(value, change),
{
    reveal(updated);
    match change {
        Some(v) => v,
        None => value,
    }
}

/// A size charged for a present component.
fn charge_if(present: bool, bytes: usize) -> (r: usize)
    ensures
        r == charge(present, bytes as int),
        r <= bytes,
{
    reveal(charge);
    if present {
        bytes
    } else {
        0
    }
}

// ── Frames ───────────────────────────────────────────────────────────────

/// Controller input recorded for a frame, enabling deterministic replay.
#[derive(Debug, Clone, Copy, PartialEq, Eq, Structural)]
pub struct FrameInput {
    pub port1_buttons: u16,
    pub port2_buttons: u16,
}

impl Default for FrameInput {
    fn default() -> (r: Self)
        ensures
            r == (FrameInput { port1_buttons: 0, port2_buttons: 0 }),
    {
        FrameInput { port1_buttons: 0, port2_buttons: 0 }
    }
}

/// A per-frame delta: the byte runs that changed in each large buffer plus the
/// small components that changed, tagged with the frame id and the input that
/// produced this frame.
#[derive(Debug, Clone, PartialEq)]
pub struct FrameDelta {
    pub frame_id: u64,
    pub work_ram_deltas: Vec<ArrayDelta>,
    pub vram_deltas: Vec<ArrayDelta>,
    pub z80_ram_deltas: Vec<ArrayDelta>,
    /// Byte diff of the backup RAM.
    pub sram_deltas: Vec<ArrayDelta>,
    /// Length of the backup RAM after this frame.
    pub sram_len: u32,
    pub fields: FieldDelta,
    pub input: FrameInput,
    /// Sum of changed-byte-run lengths across all buffers; drives the keyframe
    /// promotion policy.
    pub compressed_size: u32,
}

/// Mathematical model of a frame delta.
#[verifier::ext_equal]
pub ghost struct DeltaState {
    pub frame_id: u64,
    pub work_ram: Seq<Run>,
    pub vram: Seq<Run>,
    pub z80_ram: Seq<Run>,
    pub sram: Seq<Run>,
    pub sram_len: u32,
    pub fields: FieldState,
    pub input: FrameInput,
    pub compressed_size: u32,
}

impl View for FrameDelta {
    type V = DeltaState;

    open spec fn view(&self) -> DeltaState {
        DeltaState {
            frame_id: self.frame_id,
            work_ram: runs_of(self.work_ram_deltas@),
            vram: runs_of(self.vram_deltas@),
            z80_ram: runs_of(self.z80_ram_deltas@),
            sram: runs_of(self.sram_deltas@),
            sram_len: self.sram_len,
            fields: self.fields@,
            input: self.input,
            compressed_size: self.compressed_size,
        }
    }
}

/// The delta from one snapshot to the next.
#[verifier::opaque]
pub open spec fn delta_between(b: SnapshotState, a: SnapshotState, input: FrameInput) -> DeltaState {
    let work_ram = diff_runs(b.work_ram, a.work_ram);
    let vram = diff_runs(b.vdp.vram, a.vdp.vram);
    let z80_ram = diff_runs(b.z80_ram, a.z80_ram);
    let sram = diff_runs(b.sram.data, a.sram.data);
    DeltaState {
        frame_id: a.frame_count,
        work_ram,
        vram,
        z80_ram,
        sram,
        sram_len: a.sram.data.len() as u32,
        fields: fields_between(b, a),
        input,
        compressed_size: (run_bytes(work_ram) + run_bytes(vram) + run_bytes(z80_ram) + run_bytes(
            sram,
        )) as u32,
    }
}

/// A snapshot with changed work RAM.
pub open spec fn work_ram_applied(s: SnapshotState, runs: Seq<Run>) -> SnapshotState {
    SnapshotState { work_ram: runs_applied(s.work_ram, runs, 0), ..s }
}

/// A snapshot with changed VRAM.
pub open spec fn vram_applied(s: SnapshotState, runs: Seq<Run>) -> SnapshotState {
    SnapshotState { vdp: VdpCore { vram: runs_applied(s.vdp.vram, runs, 0), ..s.vdp }, ..s }
}

/// A snapshot with changed Z80 RAM.
pub open spec fn z80_ram_applied(s: SnapshotState, runs: Seq<Run>) -> SnapshotState {
    SnapshotState { z80_ram: runs_applied(s.z80_ram, runs, 0), ..s }
}

/// A snapshot with changed backup RAM.
pub open spec fn sram_applied(s: SnapshotState, runs: Seq<Run>, len: nat) -> SnapshotState {
    SnapshotState {
        sram: SramState {
            data: runs_applied(zero_extended(s.sram.data, len), runs, 0),
            ..s.sram
        },
        ..s
    }
}

/// A snapshot with a delta applied.
#[verifier::opaque]
pub open spec fn delta_applied(s: SnapshotState, d: DeltaState) -> SnapshotState {
    let buffers = sram_applied(
        z80_ram_applied(vram_applied(work_ram_applied(s, d.work_ram), d.vram), d.z80_ram),
        d.sram,
        d.sram_len as nat,
    );
    fields_applied(buffers, d.fields)
}

/// Bytes charged for a frame delta.
pub open spec fn delta_bytes(d: DeltaState) -> int {
    d.compressed_size + field_bytes(d.fields)
}

/// Cuts a byte vector, or fills it with zeros, to a length.
fn resize_bytes(v: &mut Vec<u8>, len: usize)
    ensures
        final(v)@ == zero_extended(old(v)@, len as nat),
{
    if v.len() > len {
        v.truncate(len);
    }
    while v.len() < len
        invariant
            v@.len() <= len,
            old(v)@.len() > len ==> v@.len() == len,
            old(v)@.len() <= len ==> v@.len() >= old(v)@.len(),
            forall|i: int|
                0 <= i < v@.len() ==> v@[i] == if i < old(v)@.len() {
                    old(v)@[i]
                } else {
                    0u8
                },
        decreases len - v@.len(),
    {
        v.push(0u8);
    }
    assert(v@ =~= zero_extended(old(v)@, len as nat));
}

impl FrameDelta {
    /// Diffs `before` to `after`, producing a delta for `after`'s frame id.
    #[must_use]
    pub fn compute(
        before: &GenesisCoreSnapshot,
        after: &GenesisCoreSnapshot,
        input: FrameInput,
    ) -> (r: Self)
        ensures
            r@ == delta_between(before@, after@, input),
            r.frame_id == after.frame_count,
    {
        reveal(delta_between);
        let work_ram_deltas = diff_array(before.work_ram.as_slice(), after.work_ram.as_slice());
        let vram_deltas = diff_array(before.vdp.vram.as_slice(), after.vdp.vram.as_slice());
        let z80_ram_deltas = diff_array(before.z80_ram.as_slice(), after.z80_ram.as_slice());
        let sram_deltas = diff_array(before.sram.data.as_slice(), after.sram.data.as_slice());
        let fields = FieldDelta::compute(before, after);
        proof {
            lemma_diff_bytes(before@.work_ram, after@.work_ram, 0);
            lemma_diff_bytes(before@.vdp.vram, after@.vdp.vram, 0);
            lemma_diff_bytes(before@.z80_ram, after@.z80_ram, 0);
            lemma_diff_bytes(before@.sram.data, after@.sram.data, 0);
            assert(after@.work_ram.len() == after.work_ram.len());
            assert(after@.vdp.vram.len() == after.vdp.vram.len());
            assert(after@.z80_ram.len() == after.z80_ram.len());
            assert(after@.sram.data.len() == after.sram.data.len());
        }
        let total: u128 = count_run_bytes(&work_ram_deltas) as u128 + count_run_bytes(
            &vram_deltas,
        ) as u128 + count_run_bytes(&z80_ram_deltas) as u128 + count_run_bytes(
            &sram_deltas,
        ) as u128;
        let compressed_size: u32 = total as u32;
        FrameDelta {
            frame_id: after.frame_count,
            work_ram_deltas,
            vram_deltas,
            z80_ram_deltas,
            sram_deltas,
            sram_len: after.sram.data.len() as u32,
            fields,
            input,
            compressed_size,
        }
    }

    /// Applies this delta onto `target`, advancing it to this frame's state.
    pub fn apply(&self, target: &mut GenesisCoreSnapshot)
        ensures
            final(target)@ == delta_applied(old(target)@, self@),
    {
        reveal(delta_applied);
        self.apply_work_ram(target);
        self.apply_vram(target);
        self.apply_z80_ram(target);
        self.apply_sram(target);
        self.fields.apply(target);
    }

    /// Writes the changed work RAM.
    fn apply_work_ram(&self, target: &mut GenesisCoreSnapshot)
        ensures
            final(target)@ == work_ram_applied(old(target)@, self@.work_ram),
    {
        apply_deltas(&mut target.work_ram, self.work_ram_deltas.as_slice());
    }

    /// Writes the changed VRAM.
    fn apply_vram(&self, target: &mut GenesisCoreSnapshot)
        ensures
            final(target)@ == vram_applied(old(target)@, self@.vram),
    {
        apply_deltas(&mut target.vdp.vram, self.vram_deltas.as_slice());
    }

    /// Writes the changed Z80 RAM.
    fn apply_z80_ram(&self, target: &mut GenesisCoreSnapshot)
        ensures
            final(target)@ == z80_ram_applied(old(target)@, self@.z80_ram),
    {
        apply_deltas(&mut target.z80_ram, self.z80_ram_deltas.as_slice());
    }

    /// Writes the changed backup RAM, at its new length.
    fn apply_sram(&self, target: &mut GenesisCoreSnapshot)
        ensures
            final(target)@ == sram_applied(old(target)@, self@.sram, self@.sram_len as nat),
    {
        resize_bytes(&mut target.sram.data, self.sram_len as usize);
        apply_deltas(&mut target.sram.data, self.sram_deltas.as_slice());
    }

    /// Estimated heap cost of storing this delta. Saturates.
    #[must_use]
    pub fn estimated_bytes(&self) -> (r: usize)
        ensures
            r == saturated(delta_bytes(self@)),
    {
        proof {
            lemma_field_bytes_nonnegative(self@.fields);
        }
        saturating_sum(self.compressed_size as usize, self.fields.estimated_bytes())
    }
}

// ── Laws ─────────────────────────────────────────────────────────────────

/// Replacing the changed components gives every component of the new snapshot.
proof fn lemma_fields_roundtrip(b: SnapshotState, a: SnapshotState, s: SnapshotState)
    requires
        s == with_buffers(b, s),
    ensures
        fields_applied(s, fields_between(b, a)) == with_buffers(a, s),
{
    reveal(fields_applied);
    let f = fields_between(b, a);
    let p = parts_applied(s, f);
    lemma_change(b.cpu, a.cpu);
    lemma_change(b.scheduler, a.scheduler);
    lemma_change(b.z80, a.z80);
    lemma_change(b.psg, a.psg);
    lemma_change(b.ym2612, a.ym2612);
    lemma_change(b.port1, a.port1);
    lemma_change(b.port2, a.port2);
    lemma_change(b.mapper, a.mapper);
    assert(p == parts_of(s, a));
    let m = meta_applied(p, f.vdp_meta);
    lemma_meta_roundtrip(b, a, p);
    assert(m.vdp == (VdpCore { vram: s.vdp.vram, ..a.vdp }));
    lemma_scalars_roundtrip(b, a, m);
}

/// A component with its change is the new one.
proof fn lemma_change<T>(before: T, after: T)
    ensures
        updated(before, changed(before, after)) == after,
{
    reveal(changed);
    reveal(updated);
}

/// A snapshot with the large buffers of another.
pub open spec fn with_buffers(a: SnapshotState, s: SnapshotState) -> SnapshotState {
    SnapshotState {
        work_ram: s.work_ram,
        vdp: VdpCore { vram: s.vdp.vram, ..a.vdp },
        z80_ram: s.z80_ram,
        sram: SramState { data: s.sram.data, ..a.sram },
        ..a
    }
}

/// A snapshot with the chips, ports and mapper of another.
pub open spec fn parts_of(s: SnapshotState, a: SnapshotState) -> SnapshotState {
    SnapshotState {
        cpu: a.cpu,
        scheduler: a.scheduler,
        z80: a.z80,
        psg: a.psg,
        ym2612: a.ym2612,
        port1: a.port1,
        port2: a.port2,
        mapper: a.mapper,
        ..s
    }
}

/// The VDP meta state follows.
proof fn lemma_meta_roundtrip(b: SnapshotState, a: SnapshotState, p: SnapshotState)
    requires
        p.vdp == (VdpCore { vram: p.vdp.vram, ..b.vdp }),
    ensures
        meta_applied(p, changed(meta_of(b.vdp), meta_of(a.vdp))) == (SnapshotState {
            vdp: VdpCore { vram: p.vdp.vram, ..a.vdp },
            ..p
        }),
{
    reveal(changed);
    if meta_of(b.vdp) == meta_of(a.vdp) {
        lemma_same_meta(b.vdp, a.vdp, p.vdp.vram);
    }
}

/// VDP states of one meta state differ in VRAM only.
proof fn lemma_same_meta(b: VdpCore, a: VdpCore, vram: Seq<u8>)
    requires
        meta_of(b) == meta_of(a),
    ensures
        (VdpCore { vram, ..b }) == (VdpCore { vram, ..a }),
{
    let x = VdpCore { vram, ..b };
    let y = VdpCore { vram, ..a };
    assert(x == with_meta(x, meta_of(b)));
    assert(y == with_meta(x, meta_of(a)));
}

/// The scalars follow.
proof fn lemma_scalars_roundtrip(b: SnapshotState, a: SnapshotState, m: SnapshotState)
    requires
        scalars_of(m) == scalars_of(b),
    ensures
        scalars_applied(m, changed(scalars_of(b), scalars_of(a))) == with_scalars(m, scalars_of(a)),
{
    reveal(changed);
    assert(with_scalars(m, scalars_of(m)) == m);
}

/// A delta can lead from one snapshot to another: the fixed buffers keep their
/// lengths, and offsets and the length of the backup RAM fit in 32 bits.
pub open spec fn bridges(b: SnapshotState, a: SnapshotState) -> bool {
    &&& b.work_ram.len() == a.work_ram.len() <= 0x1_0000_0000
    &&& b.vdp.vram.len() == a.vdp.vram.len() <= 0x1_0000_0000
    &&& b.z80_ram.len() == a.z80_ram.len() <= 0x1_0000_0000
    &&& a.sram.data.len() <= u32::MAX
}

/// Applying the delta from one snapshot to another to the first gives the second.
pub proof fn law_delta_roundtrip(b: SnapshotState, a: SnapshotState, input: FrameInput)
    requires
        bridges(b, a),
    ensures
        delta_applied(b, delta_between(b, a, input)) == a,
{
    reveal(delta_between);
    let d = delta_between(b, a, input);
    let buffers = with_buffers(b, a);
    lemma_buffers_roundtrip(b, a);
    lemma_delta_by_buffers(b, d, buffers);
    lemma_buffers_twice(b, a);
    lemma_fields_roundtrip(b, a, buffers);
}

/// A delta carries the frame id and the input of its frame.
pub proof fn law_delta_tags(b: SnapshotState, a: SnapshotState, input: FrameInput)
    ensures
        delta_between(b, a, input).frame_id == a.frame_count,
        delta_between(b, a, input).input == input,
{
    reveal(delta_between);
}

/// A delta is its buffers, then its components.
proof fn lemma_delta_by_buffers(s: SnapshotState, d: DeltaState, buffers: SnapshotState)
    requires
        sram_applied(
            z80_ram_applied(vram_applied(work_ram_applied(s, d.work_ram), d.vram), d.z80_ram),
            d.sram,
            d.sram_len as nat,
        ) == buffers,
    ensures
        delta_applied(s, d) == fields_applied(buffers, d.fields),
{
    reveal(delta_applied);
}

/// Taking buffers over again changes nothing, and a snapshot that takes its own
/// buffers back is itself.
proof fn lemma_buffers_twice(b: SnapshotState, a: SnapshotState)
    ensures
        with_buffers(b, with_buffers(b, a)) == with_buffers(b, a),
        with_buffers(a, with_buffers(b, a)) == a,
{
    lemma_own_vram(a.vdp);
    lemma_own_data(a.sram);
    let s = with_buffers(b, a);
    assert(s.vdp.vram == a.vdp.vram);
    assert(s.sram.data == a.sram.data);
    let x = with_buffers(b, s);
    assert(x.vdp == s.vdp);
    assert(x.sram == s.sram);
    let y = with_buffers(a, s);
    assert(y.vdp == a.vdp);
    assert(y.sram == a.sram);
}

/// A VDP state with its own VRAM is itself.
proof fn lemma_own_vram(v: VdpCore)
    ensures
        (VdpCore { vram: v.vram, ..v }) == v,
{
}

/// A backup RAM with its own bytes is itself.
proof fn lemma_own_data(s: SramState)
    ensures
        (SramState { data: s.data, ..s }) == s,
{
}

/// Writing the runs of the differences gives the large buffers of the new
/// snapshot.
proof fn lemma_buffers_roundtrip(b: SnapshotState, a: SnapshotState)
    requires
        bridges(b, a),
    ensures
        sram_applied(
            z80_ram_applied(
                vram_applied(
                    work_ram_applied(b, diff_runs(b.work_ram, a.work_ram)),
                    diff_runs(b.vdp.vram, a.vdp.vram),
                ),
                diff_runs(b.z80_ram, a.z80_ram),
            ),
            diff_runs(b.sram.data, a.sram.data),
            a.sram.data.len(),
        ) == with_buffers(b, a),
{
    law_diff_apply_roundtrip(b.work_ram, a.work_ram);
    law_diff_apply_roundtrip(b.vdp.vram, a.vdp.vram);
    law_diff_apply_roundtrip(b.z80_ram, a.z80_ram);
    lemma_diff_apply_resized(b.sram.data, a.sram.data);
}

/// A delta is charged no negative size.
pub proof fn lemma_delta_bytes_nonnegative(d: DeltaState)
    ensures
        delta_bytes(d) >= 0,
{
    lemma_field_bytes_nonnegative(d.fields);
}

/// A field delta is charged no negative size.
proof fn lemma_field_bytes_nonnegative(f: FieldState)
    ensures
        field_bytes(f) >= 0,
{
    reveal(charge);
}

} // verus!
