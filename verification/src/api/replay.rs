//! Replay: the course of the machine depends on nothing that a snapshot leaves
//! out, but for the ROM.
//!
//! Cores that agree here run on in agreement, whatever their traces, their audio
//! timelines, their rewind histories and their pictures are.
use vstd::prelude::*;

use crate::api::board::{
    bus_elapsed, clocked, code_word, cpu_stepped, dma_run, dma_words, elapsed, instruction_run,
    interrupt_elapsed, interrupt_run, line_run, line_step, live_stamp, slot_run, soft_reset,
    stamped, vint_cleared, vint_ready, vint_taken, BoardState, Clock,
};
use crate::api::bus::{
    byte_at, byte_written, control_written_byte, io_written, vdp_word_written, word_at, word_read,
    word_written, z80_area_word_written, z80_byte_at, z80_byte_written, BusState, CoreBus, Stamp,
};
use crate::api::console::{
    commanded, frame_closed, frame_opened, frame_run, frame_stepped, line_entered, line_left,
    port_of, power_cycled, report_noted, restored, rewound, snapshot_of, stamp_of, with_port, with_z80,
    z80_answered, z80_done, z80_granted, z80_idled, z80_restarted, z80_turn, CoreState, FrameProgress,
    Z80Report, Z80Turn,
};
use crate::api::frame::{
    frame_counted, hint_served, line_begun, line_shown, vblank_entered, vint_latched, with_vdp,
};
use crate::api::laws::{
    law_power_cycle_forgets, law_snapshot_roundtrip, law_step_back_reconstructs, played, waits_for,
    z80_acted, Z80Event,
};
use crate::api::state::Command;
use crate::bus::{region_of, BusRegion};
use crate::cpu::operand::{Bus, Machine};
use crate::cpu::simulation::{
    law_execute_keeps_relation, law_interrupt_keeps_relation, respected,
};
use crate::io::{with_pressed, with_released, ControllerPort};
use crate::rewind::timeline::{oldest_of, reconstructed};
use crate::vdp::render::scanline_rendered;
use crate::vdp::{VdpCore, VdpState};

verus! {

// ── The bus ──────────────────────────────────────────────────────────────

/// The bus without its traces, its time stamp and the picture.
#[verifier::opaque]
pub open spec fn bare(b: BusState) -> BusState {
    BusState {
        vdp: VdpState { core: b.vdp.core, framebuffer: Seq::empty(), frame_width: 0 },
        z80_cmd_trace: Seq::empty(),
        z80_driver_write_count: 0,
        z80_driver_last_write_frame: 0,
        ym2612_timed_write_trace: Seq::empty(),
        psg_timed_write_trace: Seq::empty(),
        stamp: Stamp { frame: 0, scanline: 0, master_tick: 0 },
        ..b
    }
}

/// Reads of the 68000 do not see the traces.
proof fn lemma_reads(a: BusState, b: BusState, addr: u32)
    requires
        bare(a) == bare(b),
    ensures
        byte_at(a, addr) == byte_at(b, addr),
        word_at(a, addr) == word_at(b, addr),
        bare(word_read(a, addr)) == bare(word_read(b, addr)),
{
    reveal(byte_at);
    reveal(word_at);
    reveal(word_read);
    reveal(bare);
}

/// A byte write of the 68000 does not see the traces.
proof fn lemma_byte_written(a: BusState, b: BusState, addr: u32, val: u8)
    requires
        bare(a) == bare(b),
    ensures
        bare(byte_written(a, addr, val)) == bare(byte_written(b, addr, val)),
{
    reveal(byte_written);
    reveal(bare);
}

/// A word write to the VDP ports does not see the traces.
proof fn lemma_vdp_word_written(a: BusState, b: BusState, addr: u32, val: u16)
    requires
        bare(a) == bare(b),
    ensures
        bare(vdp_word_written(a, addr, val)) == bare(vdp_word_written(b, addr, val)),
{
    reveal(bare);
}

/// A word write to the Z80 area does not see the traces.
proof fn lemma_z80_area_word_written(a: BusState, b: BusState, addr: u32, hi: u8, lo: u8)
    requires
        bare(a) == bare(b),
    ensures
        bare(z80_area_word_written(a, addr, hi, lo)) == bare(
            z80_area_word_written(b, addr, hi, lo),
        ),
{
    reveal(bare);
}

/// A write to the I/O or the control registers does not see the traces.
proof fn lemma_register_written(a: BusState, b: BusState, addr: u32, val: u8)
    requires
        bare(a) == bare(b),
    ensures
        bare(io_written(a, addr, val)) == bare(io_written(b, addr, val)),
        bare(control_written_byte(a, addr, val)) == bare(control_written_byte(b, addr, val)),
{
    reveal(bare);
}

/// Another work RAM does not make the traces seen.
proof fn lemma_with_work_ram(a: BusState, b: BusState, work_ram: Seq<u8>)
    requires
        bare(a) == bare(b),
    ensures
        a.work_ram == b.work_ram,
        bare(BusState { work_ram, ..a }) == bare(BusState { work_ram, ..b }),
{
    reveal(bare);
}

/// A word write of the 68000 does not see the traces.
proof fn lemma_word_written(a: BusState, b: BusState, addr: u32, val: u16)
    requires
        bare(a) == bare(b),
    ensures
        bare(word_written(a, addr, val)) == bare(word_written(b, addr, val)),
{
    reveal(word_written);
    let hi = (val / 0x100) as u8;
    let lo = (val % 0x100) as u8;
    match region_of(addr) {
        BusRegion::WorkRam => {
            lemma_with_work_ram(a, b, word_written(a, addr, val).work_ram);
        },
        BusRegion::Vdp => {
            lemma_vdp_word_written(a, b, addr, val);
        },
        BusRegion::IoRegisters => {
            lemma_register_written(a, b, addr, lo);
        },
        BusRegion::Z80Area => {
            lemma_z80_area_word_written(a, b, addr, hi, lo);
        },
        BusRegion::ControlRegisters => {
            lemma_register_written(a, b, addr, hi);
        },
        _ => {},
    }
}

/// Two buses are equal without their traces.
pub open spec fn bare_equal() -> spec_fn(BusState, BusState) -> bool {
    |a: BusState, b: BusState| bare(a) == bare(b)
}

/// The bus operations do not see the traces.
pub proof fn law_traces_are_not_seen()
    ensures
        respected::<CoreBus>(bare_equal()),
{
    reveal(respected);
    let rel = bare_equal();
    assert forall|a: BusState, b: BusState, addr: u32| rel(a, b) implies {
        let x = #[trigger] CoreBus::read_byte_model(a, addr);
        let y = #[trigger] CoreBus::read_byte_model(b, addr);
        x.0 == y.0 && rel(x.1, y.1)
    } by {
        lemma_reads(a, b, addr);
    }
    assert forall|a: BusState, b: BusState, addr: u32| rel(a, b) implies {
        let x = #[trigger] CoreBus::read_word_model(a, addr);
        let y = #[trigger] CoreBus::read_word_model(b, addr);
        x.0 == y.0 && rel(x.1, y.1)
    } by {
        lemma_reads(a, b, addr);
    }
    assert forall|a: BusState, b: BusState, addr: u32, val: u8| rel(a, b) implies rel(
        #[trigger] CoreBus::write_byte_model(a, addr, val),
        #[trigger] CoreBus::write_byte_model(b, addr, val),
    ) by {
        lemma_byte_written(a, b, addr, val);
    }
    assert forall|a: BusState, b: BusState, addr: u32, val: u16| rel(a, b) implies rel(
        #[trigger] CoreBus::write_word_model(a, addr, val),
        #[trigger] CoreBus::write_word_model(b, addr, val),
    ) by {
        lemma_word_written(a, b, addr, val);
    }
}

// ── The mainboard ────────────────────────────────────────────────────────

/// Two mainboards agree: equal registers and cycle counters, and buses that are
/// equal without their traces.
pub open spec fn boards_agree(a: BoardState, b: BoardState) -> bool {
    &&& a.cpu == b.cpu
    &&& a.scheduler == b.scheduler
    &&& bare(a.bus) == bare(b.bus)
}

/// The instruction stream is the same.
proof fn lemma_code_word(a: BusState, b: BusState, addr: u32)
    requires
        bare(a) == bare(b),
    ensures
        code_word(a, addr) == code_word(b, addr),
{
    lemma_reads(a, b, addr);
    lemma_reads(a, b, addr.wrapping_add(1));
}

/// An instruction takes the same cycles and leaves mainboards that agree.
proof fn lemma_instruction_run(a: BoardState, b: BoardState)
    requires
        boards_agree(a, b),
    ensures
        instruction_run(a).0 == instruction_run(b).0,
        boards_agree(instruction_run(a).1, instruction_run(b).1),
{
    reveal(instruction_run);
    lemma_code_word(a.bus, b.bus, a.cpu.pc);
    let cpu = a.cpu.with_pc(a.cpu.pc.wrapping_add(2));
    law_traces_are_not_seen();
    law_execute_keeps_relation::<CoreBus>(
        bare_equal(),
        Machine { cpu, bus: a.bus },
        Machine { cpu, bus: b.bus },
        code_word(a.bus, a.cpu.pc),
    );
}

/// An interrupt takes the same cycles and leaves mainboards that agree.
proof fn lemma_interrupt_run(a: BoardState, b: BoardState, level: u8)
    requires
        boards_agree(a, b),
    ensures
        interrupt_run(a, level).0 == interrupt_run(b, level).0,
        boards_agree(interrupt_run(a, level).1, interrupt_run(b, level).1),
{
    reveal(interrupt_run);
    law_traces_are_not_seen();
    law_interrupt_keeps_relation::<CoreBus>(
        bare_equal(),
        Machine { cpu: a.cpu, bus: a.bus },
        Machine { cpu: b.cpu, bus: b.bus },
        level,
    );
}

/// Cycles that go by leave mainboards that agree.
proof fn lemma_elapsed(a: BoardState, b: BoardState, n: u32)
    requires
        boards_agree(a, b),
    ensures
        boards_agree(elapsed(a, n), elapsed(b, n)),
{
    reveal(elapsed);
    reveal(bare);
    assert(bare(bus_elapsed(a.bus, n)) == bare(bus_elapsed(b.bus, n)));
}

/// The time stamps do not matter.
proof fn lemma_stamped(a: BoardState, b: BoardState, s: Stamp, t: Stamp)
    requires
        boards_agree(a, b),
    ensures
        boards_agree(stamped(a, s), stamped(b, t)),
{
    reveal(bare);
}

/// Mainboards that agree have the same VDP.
proof fn lemma_same_vdp(a: BusState, b: BusState)
    requires
        bare(a) == bare(b),
    ensures
        a.vdp.core == b.vdp.core,
{
    reveal(bare);
}

/// A taken V-interrupt takes the same cycles and leaves mainboards that agree.
proof fn lemma_vint_taken(a: BoardState, b: BoardState)
    requires
        boards_agree(a, b),
    ensures
        vint_taken(a).0 == vint_taken(b).0,
        boards_agree(vint_taken(a).1, vint_taken(b).1),
{
    lemma_interrupt_run(a, b, 6);
    let s = interrupt_run(a, 6).1;
    let t = interrupt_run(b, 6).1;
    reveal(bare);
    assert(bare(vint_cleared(s).bus) == bare(vint_cleared(t).bus));
}

/// What the CPU does next takes the same cycles and leaves mainboards that agree.
proof fn lemma_slot_run(a: BoardState, b: BoardState, budget: u32)
    requires
        boards_agree(a, b),
    ensures
        slot_run(a, budget).0 == slot_run(b, budget).0,
        boards_agree(slot_run(a, budget).1, slot_run(b, budget).1),
{
    reveal(slot_run);
    lemma_same_vdp(a.bus, b.bus);
    let busy = a.bus.vdp.core.dma_busy_cpu_cycles;
    lemma_elapsed(
        a,
        b,
        if busy < budget {
            busy
        } else {
            budget
        },
    );
    lemma_vint_taken(a, b);
    lemma_elapsed(vint_taken(a).1, vint_taken(b).1, vint_taken(a).0);
    lemma_instruction_run(a, b);
    lemma_elapsed(instruction_run(a).1, instruction_run(b).1, instruction_run(a).0);
}

/// A DMA moves the same words.
proof fn lemma_dma_run(a: BusState, b: BusState)
    requires
        bare(a) == bare(b),
    ensures
        bare(dma_run(a)) == bare(dma_run(b)),
{
    reveal(dma_run);
    reveal(bare);
    assert(dma_words(a) =~= dma_words(b));
}

/// A step of a scanline, by any two clocks.
proof fn lemma_line_step(a: BoardState, b: BoardState, s: Clock, t: Clock, consumed: u64)
    requires
        boards_agree(a, b),
    ensures
        line_step(a, s, consumed).0 == line_step(b, t, consumed).0,
        boards_agree(line_step(a, s, consumed).1, line_step(b, t, consumed).1),
{
    reveal(line_step);
    let c = clocked(a, s, consumed);
    let d = clocked(b, t, consumed);
    lemma_stamped(a, b, c.bus.stamp, d.bus.stamp);
    assert(c == stamped(a, c.bus.stamp));
    assert(d == stamped(b, d.bus.stamp));
    let budget = (488 - consumed) as u32;
    lemma_slot_run(c, d, budget);
    lemma_dma_run(slot_run(c, budget).1.bus, slot_run(d, budget).1.bus);
}

/// A scanline of the CPU, by any two clocks: the same cycles are consumed, and
/// the mainboards agree.
pub proof fn law_line_replays(a: BoardState, b: BoardState, s: Clock, t: Clock, consumed: u64)
    requires
        boards_agree(a, b),
    ensures
        line_run(a, s, consumed).0 == line_run(b, t, consumed).0,
        boards_agree(line_run(a, s, consumed).1, line_run(b, t, consumed).1),
    decreases
            if consumed < 488 {
                488 - consumed
            } else {
                0
            },
{
    if consumed < 488 {
        lemma_line_step(a, b, s, t, consumed);
        let (n, c) = line_step(a, s, consumed);
        let (m, d) = line_step(b, t, consumed);
        if !(c.asleep() || n == 0) {
            law_line_replays(c, d, s, t, (consumed + n) as u64);
        }
    }
}

/// The H-interrupt of a scanline, served at any two moments.
proof fn lemma_hint_served(a: BoardState, b: BoardState, s: Stamp, t: Stamp)
    requires
        boards_agree(a, b),
    ensures
        boards_agree(hint_served(a, s), hint_served(b, t)),
{
    lemma_same_vdp(a.bus, b.bus);
    if a.bus.vdp.core.h_interrupt_pending {
        let v = a.bus.vdp.with_core(VdpCore { h_interrupt_pending: false, ..a.bus.vdp.core });
        let w = b.bus.vdp.with_core(VdpCore { h_interrupt_pending: false, ..b.bus.vdp.core });
        lemma_with_vdp(a, b, v, w);
        lemma_stamped(with_vdp(a, v), with_vdp(b, w), s, t);
        lemma_interrupt_elapsed(stamped(with_vdp(a, v), s), stamped(with_vdp(b, w), t), 4);
    }
}

/// An interrupt request and its cycles.
proof fn lemma_interrupt_elapsed(a: BoardState, b: BoardState, level: u8)
    requires
        boards_agree(a, b),
    ensures
        boards_agree(interrupt_elapsed(a, level), interrupt_elapsed(b, level)),
{
    reveal(interrupt_elapsed);
    lemma_interrupt_run(a, b, level);
    lemma_elapsed(interrupt_run(a, level).1, interrupt_run(b, level).1, interrupt_run(a, level).0);
}

/// The picture does not matter.
proof fn lemma_with_vdp(a: BoardState, b: BoardState, v: VdpState, w: VdpState)
    requires
        boards_agree(a, b),
        v.core == w.core,
    ensures
        boards_agree(with_vdp(a, v), with_vdp(b, w)),
{
    reveal(bare);
}

/// The start of V-blank, at any two moments.
proof fn lemma_vblank_entered(a: BoardState, b: BoardState, s: Stamp, t: Stamp)
    requires
        boards_agree(a, b),
    ensures
        boards_agree(vblank_entered(a, s), vblank_entered(b, t)),
{
    lemma_same_vdp(a.bus, b.bus);
    let core = VdpCore { in_vblank: true, ..a.bus.vdp.core };
    let v = vint_latched(a.bus.vdp.with_core(core));
    let w = vint_latched(b.bus.vdp.with_core(core));
    lemma_with_vdp(a, b, v, w);
    let c = with_vdp(a, v);
    let d = with_vdp(b, w);
    lemma_stamped(c, d, s, t);
    lemma_vint_taken(stamped(c, s), stamped(d, t));
    let (n, e) = vint_taken(stamped(c, s));
    let (m, f) = vint_taken(stamped(d, t));
    lemma_elapsed(e, f, n);
    assert(vint_ready(c) == vint_ready(d));
}

/// The interrupts and the picture of a scanline, at any two moments of it.
proof fn lemma_line_shown(a: BoardState, b: BoardState, s: Stamp, t: Stamp)
    requires
        boards_agree(a, b),
        s.scanline == t.scanline,
    ensures
        boards_agree(line_shown(a, s), line_shown(b, t)),
{
    lemma_hint_served(a, b, s, t);
    let h = hint_served(a, s);
    let k = hint_served(b, t);
    lemma_same_vdp(h.bus, k.bus);
    lemma_with_vdp(
        h,
        k,
        scanline_rendered(h.bus.vdp, s.scanline),
        scanline_rendered(k.bus.vdp, s.scanline),
    );
    lemma_vblank_entered(h, k, s, t);
}

/// The start of a scanline.
proof fn lemma_line_begun(a: BoardState, b: BoardState, line: u16)
    requires
        boards_agree(a, b),
    ensures
        boards_agree(line_begun(a, line), line_begun(b, line)),
{
    reveal(bare);
}

/// The end of a frame.
proof fn lemma_frame_counted(a: BoardState, b: BoardState)
    requires
        boards_agree(a, b),
    ensures
        boards_agree(frame_counted(a), frame_counted(b)),
{
    reveal(bare);
}

// ── The core ─────────────────────────────────────────────────────────────

/// Two frames have come equally far. When their scanlines started does not
/// matter.
pub open spec fn progress_agrees(p: FrameProgress, q: FrameProgress) -> bool {
    match (p, q) {
        (FrameProgress::Idle, FrameProgress::Idle) => true,
        (
            FrameProgress::Z80 { line: l1, consumed: c1, spent: s1, request: r1, .. },
            FrameProgress::Z80 { line: l2, consumed: c2, spent: s2, request: r2, .. },
        ) => l1 == l2 && c1 == c2 && s1 == s2 && r1 == r2,
        _ => false,
    }
}

/// Two cores agree in all that their course depends on. They may differ in their
/// traces, their audio timelines, their rewind histories and their pictures.
pub open spec fn cores_agree(c: CoreState, d: CoreState) -> bool {
    &&& boards_agree(c.board, d.board)
    &&& c.z80 == d.z80
    &&& c.frame_count == d.frame_count
    &&& c.speed_permille == d.speed_permille
    &&& c.paused == d.paused
    &&& c.region == d.region
    &&& c.overseas == d.overseas
    &&& c.region_override == d.region_override
    &&& c.sram == d.sram
    &&& c.mapper == d.mapper
    &&& progress_agrees(c.progress, d.progress)
}

/// Cores that agree have the same snapshot.
pub proof fn law_agreement_shows_in_snapshot(c: CoreState, d: CoreState)
    requires
        cores_agree(c, d),
    ensures
        snapshot_of(c) == snapshot_of(d),
{
    reveal(bare);
}

/// A save state resumes the machine it was taken of: restored into any core with
/// the same ROM, it gives a core that agrees with the one it was taken of. (No
/// frame is under way.)
pub proof fn law_save_state_resumes(c: CoreState, d: CoreState)
    requires
        c.board.cpu.d.len() == 8,
        c.board.cpu.a.len() == 7,
        c.progress is Idle,
        c.board.bus.rom == d.board.bus.rom,
    ensures
        cores_agree(restored(d, snapshot_of(c)), c),
{
    law_snapshot_roundtrip(c, d);
    reveal(restored);
    reveal(bare);
    let r = restored(d, snapshot_of(c));
    assert(bare(r.board.bus) == bare(c.board.bus));
}

/// The 68000's part of a scanline.
proof fn lemma_line_entered(c: CoreState, d: CoreState, line: u16)
    requires
        cores_agree(c, d),
    ensures
        cores_agree(line_entered(c, line), line_entered(d, line)),
        z80_granted(line_entered(c, line)) == z80_granted(line_entered(d, line)),
{
    reveal(line_entered);
    lemma_line_begun(c.board, d.board, line);
    let s = Clock::Line { frame: c.frame_count, line, start: c.audio.master_tick };
    let t = Clock::Line { frame: d.frame_count, line, start: d.audio.master_tick };
    law_line_replays(line_begun(c.board, line), line_begun(d.board, line), s, t, 0);
    let a = line_run(line_begun(c.board, line), s, 0).1;
    let b = line_run(line_begun(d.board, line), t, 0).1;
    let p = stamp_of(c, line, c.audio.master_tick);
    let q = stamp_of(d, line, d.audio.master_tick);
    lemma_stamped(a, b, p, q);
    let e = CoreState { board: stamped(a, p), ..c };
    let f = CoreState { board: stamped(b, q), ..d };
    reveal(bare);
    assert(boards_agree(z80_restarted(e).board, z80_restarted(f).board));
}

/// The rest of a scanline.
proof fn lemma_line_left(c: CoreState, d: CoreState)
    requires
        cores_agree(c, d),
    ensures
        cores_agree(line_left(c), line_left(d)),
{
    reveal(line_left);
    match (c.progress, d.progress) {
        (
            FrameProgress::Z80 { line, start: s1, consumed, .. },
            FrameProgress::Z80 { start: s2, .. },
        ) => {
            lemma_line_shown(
                c.board,
                d.board,
                stamp_of(c, line, (s1 + consumed * 7) as u64),
                stamp_of(d, line, (s2 + consumed * 7) as u64),
            );
        },
        _ => {},
    }
}

/// The rest of a frame.
proof fn lemma_frame_run(c: CoreState, d: CoreState, line: u16)
    requires
        cores_agree(c, d),
    ensures
        cores_agree(frame_run(c, line), frame_run(d, line)),
    decreases 262 - line,
{
    if line >= 262 {
        reveal(frame_closed);
        lemma_frame_counted(c.board, d.board);
    } else {
        lemma_line_entered(c, d, line);
        let e = line_entered(c, line);
        let f = line_entered(d, line);
        if !z80_granted(e) {
            lemma_line_left(e, f);
            lemma_frame_run(line_left(e), line_left(f), (line + 1) as u16);
        }
    }
}

/// A frame replays: cores that agree still agree after a frame is asked for, and
/// have come equally far in it.
pub proof fn law_frame_replays(c: CoreState, d: CoreState)
    requires
        cores_agree(c, d),
    ensures
        cores_agree(frame_stepped(c), frame_stepped(d)),
{
    if !c.paused && c.progress is Idle {
        let e = frame_opened(c);
        let f = frame_opened(d);
        lemma_same_vdp(c.board.bus, d.board.bus);
        lemma_with_vdp(c.board, d.board, e.board.bus.vdp, f.board.bus.vdp);
        lemma_frame_run(e, f, 0);
    }
}

/// The Z80's part replays: cores that agree still agree after the Z80 has
/// reported the same to both.
pub proof fn law_report_replays(c: CoreState, d: CoreState, r: Z80Report)
    requires
        cores_agree(c, d),
    ensures
        cores_agree(z80_answered(c, r), z80_answered(d, r)),
{
    match (c.progress, d.progress) {
        (
            FrameProgress::Z80 { line, start: s1, spent, request, .. },
            FrameProgress::Z80 { start: s2, .. },
        ) => {
            let e = report_noted(c, request, r);
            let f = report_noted(d, request, r);
            match z80_turn(spent, request, r) {
                Z80Turn::Ask { spent: now, request: next } => {
                    lemma_stamped(
                        e.board,
                        f.board,
                        stamp_of(e, line, (s1 + now * 15) as u64),
                        stamp_of(f, line, (s2 + now * 15) as u64),
                    );
                },
                Z80Turn::Over { idle } => {
                    reveal(z80_done);
                    let g = with_z80(e, z80_idled(e.z80, idle));
                    let h = with_z80(f, z80_idled(f.z80, idle));
                    lemma_line_left(g, h);
                    lemma_frame_run(line_left(g), line_left(h), (line + 1) as u16);
                },
            }
        },
        _ => {},
    }
}

/// The Z80 sees the same machine in cores that agree: it reads the same bytes,
/// and its writes leave them agreeing.
pub proof fn law_z80_accesses_replay(a: BusState, b: BusState, addr: u16, val: u8)
    requires
        bare(a) == bare(b),
    ensures
        z80_byte_at(a, addr) == z80_byte_at(b, addr),
        bare(z80_byte_written(a, addr, val)) == bare(z80_byte_written(b, addr, val)),
{
    reveal(bare);
}

/// A CPU step, at any two frame counts.
proof fn lemma_cpu_stepped(a: BoardState, b: BoardState, frame: u64)
    requires
        boards_agree(a, b),
    ensures
        boards_agree(cpu_stepped(a, frame), cpu_stepped(b, frame)),
{
    reveal(cpu_stepped);
    lemma_same_vdp(a.bus, b.bus);
    let s = stamped(a, live_stamp(a, frame));
    let t = stamped(b, live_stamp(b, frame));
    lemma_stamped(a, b, live_stamp(a, frame), live_stamp(b, frame));
    let busy = a.bus.vdp.core.dma_busy_cpu_cycles;
    lemma_elapsed(s, t, busy);
    lemma_slot_run(s, t, 1);
    lemma_slot_run(elapsed(s, busy), elapsed(t, busy), 1);
}

/// The reset button.
proof fn lemma_soft_reset(a: BoardState, b: BoardState)
    requires
        boards_agree(a, b),
    ensures
        boards_agree(soft_reset(a), soft_reset(b)),
{
    reveal(bare);
    lemma_code_word(a.bus, b.bus, 0);
    lemma_code_word(a.bus, b.bus, 2);
    lemma_code_word(a.bus, b.bus, 4);
    lemma_code_word(a.bus, b.bus, 6);
}

/// A port replaced on both.
proof fn lemma_with_port(c: CoreState, d: CoreState, port: u8, value: ControllerPort)
    requires
        cores_agree(c, d),
    ensures
        cores_agree(with_port(c, port, value), with_port(d, port, value)),
        port_of(c, port) == port_of(d, port),
{
    reveal(bare);
}

/// Power switched off and on.
proof fn lemma_power_cycled(c: CoreState, d: CoreState)
    requires
        cores_agree(c, d),
    ensures
        cores_agree(power_cycled(c), power_cycled(d)),
{
    assert(c.board.bus.rom == d.board.bus.rom && c.board.bus.port1 == d.board.bus.port1
        && c.board.bus.port2 == d.board.bus.port2) by {
        reveal(bare);
    }
    law_power_cycle_forgets(c, d);
    reveal(power_cycled);
}

/// The command runs the machine on: it neither loads a ROM nor rewinds, which
/// depends on the history.
pub open spec fn runs_on(cmd: Command) -> bool {
    !(cmd is LoadRom) && !(cmd is Rewind) && !(cmd is StepBack)
}

/// Commands replay: cores that agree still agree after the same command.
#[verifier::rlimit(60)]
pub proof fn law_command_replays(c: CoreState, d: CoreState, cmd: Command)
    requires
        cores_agree(c, d),
        runs_on(cmd),
    ensures
        cores_agree(commanded(c, cmd), commanded(d, cmd)),
{
    match cmd {
        Command::PowerCycle => {
            lemma_power_cycled(c, d);
        },
        Command::Reset => {
            lemma_soft_reset(c.board, d.board);
        },
        Command::StepCpu => {
            lemma_cpu_stepped(c.board, d.board, c.frame_count);
        },
        Command::StepScanline => {
            let clock = Clock::Live { frame: c.frame_count };
            law_line_replays(c.board, d.board, clock, clock, 0);
        },
        Command::StepFrame => {
            law_frame_replays(c, d);
        },
        Command::SetControllerState { port, buttons } => {
            lemma_with_port(c, d, port, ControllerPort { buttons, ..port_of(c, port) });
        },
        Command::PressButton { port, button } => {
            let held = port_of(c, port);
            let buttons = with_pressed(held.buttons, button);
            lemma_with_port(c, d, port, ControllerPort { buttons, ..held });
        },
        Command::ReleaseButton { port, button } => {
            let held = port_of(c, port);
            let buttons = with_released(held.buttons, button);
            lemma_with_port(c, d, port, ControllerPort { buttons, ..held });
        },
        _ => {},
    }
}

// ── Sessions ─────────────────────────────────────────────────────────────

/// What the Z80 does replays: cores that agree still agree after the same event.
proof fn lemma_event_replays(c: CoreState, d: CoreState, e: Z80Event)
    requires
        cores_agree(c, d),
    ensures
        cores_agree(z80_acted(c, e), z80_acted(d, e)),
{
    match e {
        Z80Event::Write { addr, val } => {
            law_z80_accesses_replay(c.board.bus, d.board.bus, addr, val);
        },
        Z80Event::Report(r) => {
            law_report_replays(c, d, r);
        },
    }
}

/// A frame replays with all that the Z80 does in it.
pub proof fn law_played_frame_replays(c: CoreState, d: CoreState, events: Seq<Z80Event>)
    requires
        cores_agree(c, d),
    ensures
        cores_agree(played(c, events), played(d, events)),
    decreases events.len(),
{
    if events.len() == 0 {
        law_frame_replays(c, d);
    } else {
        law_played_frame_replays(c, d, events.drop_last());
        lemma_event_replays(
            played(c, events.drop_last()),
            played(d, events.drop_last()),
            events.last(),
        );
    }
}

/// One step of a session: a command of the host, or an event of the Z80.
pub ghost enum SessionStep {
    Command(Command),
    Z80(Z80Event),
}

/// The core after a session.
pub open spec fn session_run(c: CoreState, steps: Seq<SessionStep>) -> CoreState
    decreases steps.len(),
{
    if steps.len() == 0 {
        c
    } else {
        step_taken(session_run(c, steps.drop_last()), steps.last())
    }
}

/// The core after a step of a session.
#[verifier::opaque]
pub open spec fn step_taken(c: CoreState, step: SessionStep) -> CoreState {
    match step {
        SessionStep::Command(cmd) => commanded(c, cmd),
        SessionStep::Z80(e) => z80_acted(c, e),
    }
}

/// The step runs the machine on.
pub open spec fn step_runs_on(step: SessionStep) -> bool {
    match step {
        SessionStep::Command(cmd) => runs_on(cmd),
        SessionStep::Z80(_) => true,
    }
}

/// One step replays.
proof fn lemma_step_replays(c: CoreState, d: CoreState, step: SessionStep)
    requires
        cores_agree(c, d),
        step_runs_on(step),
    ensures
        cores_agree(step_taken(c, step), step_taken(d, step)),
{
    reveal(step_taken);
    match step {
        SessionStep::Command(cmd) => {
            law_command_replays(c, d, cmd);
        },
        SessionStep::Z80(e) => {
            lemma_event_replays(c, d, e);
        },
    }
}

/// A session replays: cores that agree still agree after the same commands and
/// the same events.
pub proof fn law_session_replays(c: CoreState, d: CoreState, steps: Seq<SessionStep>)
    requires
        cores_agree(c, d),
        forall|i: int| 0 <= i < steps.len() ==> step_runs_on(#[trigger] steps[i]),
    ensures
        cores_agree(session_run(c, steps), session_run(d, steps)),
    decreases steps.len(),
{
    if steps.len() > 0 {
        law_session_replays(c, d, steps.drop_last());
        assert(steps[steps.len() - 1] == steps.last());
        lemma_step_replays(
            session_run(c, steps.drop_last()),
            session_run(d, steps.drop_last()),
            steps.last(),
        );
    }
}

/// Stepping back and playing the frame again gives the same frame: the core that
/// a step back leaves agrees with the one before the frame.
pub proof fn law_step_back_resumes(c: CoreState, events: Seq<Z80Event>)
    requires
        c.wf(),
        c.board.cpu.d.len() == 8,
        c.board.cpu.a.len() == 7,
        c.frame_fits(),
        c.rewind.config.enabled,
        !c.paused,
        c.progress is Idle,
        reconstructed(c.rewind.timeline, c.frame_count) == Some(snapshot_of(c)),
        waits_for(c, events),
        played(c, events).progress is Idle,
        oldest_of(played(c, events).rewind.timeline) matches Some(o) && o <= c.frame_count,
    ensures
        cores_agree(rewound(played(c, events), 1), c),
{
    let d = played(c, events);
    law_step_back_reconstructs(c, events);
    law_save_state_resumes(c, d);
    reveal(rewound);
}

} // verus!
