//! What the machine leaves alone: the ROM, the held buttons, the traces already
//! written, and a latched V-interrupt.
use vstd::prelude::*;

use crate::api::board::{
    clocked, code_word, cpu_stepped, dma_run, dma_words, elapsed, instruction_run,
    interrupt_elapsed, interrupt_run, line_run, line_step, live_stamp, slot_run, stamped,
    vint_ready, vint_taken, BoardState, Clock,
};
use crate::api::bus::{
    byte_written, word_read, word_written, z80_byte_written, BusState, CoreBus, Stamp,
};
use crate::api::console::{
    commanded, frame_closed, frame_opened, frame_run, frame_stepped, line_entered, line_left,
    power_cycled, report_noted, restored, rewound, stamp_of, with_z80, z80_answered, z80_done,
    z80_granted, z80_idled, z80_turn, CoreState, FrameProgress, Z80Report, Z80Turn,
};
use crate::api::frame::{
    hint_served, line_begun, line_shown, vblank_entered, vint_latched, with_vdp,
};
use crate::api::state::Command;
use crate::cpu::operand::{Bus, Machine};
use crate::cpu::simulation::{
    law_execute_keeps_relation, law_interrupt_keeps_relation, respected,
};
use crate::vdp::laws::{law_ports_keep_beam, same_beam};
use crate::vdp::VdpCore;

verus! {

/// A trace has grown: what was in it still is, in its place.
pub open spec fn grown<T>(earlier: Seq<T>, later: Seq<T>) -> bool {
    &&& earlier.len() <= later.len()
    &&& forall|i: int| 0 <= i < earlier.len() ==> #[trigger] later[i] == earlier[i]
}

/// The memories have their sizes.
pub open spec fn memories_sized(b: BusState) -> bool {
    &&& b.work_ram.len() == 0x1_0000
    &&& b.z80_ram.len() == 0x2000
    &&& b.vdp.core.vram.len() == 0x1_0000
}

/// The bus `n` has the ROM, the held buttons, the picture and the memory sizes of
/// `m`, and its traces have grown from those of `m`.
pub open spec fn kept(m: BusState, n: BusState) -> bool {
    &&& n.rom == m.rom
    &&& n.port1.buttons == m.port1.buttons
    &&& n.port2.buttons == m.port2.buttons
    &&& n.vdp.framebuffer == m.vdp.framebuffer
    &&& n.vdp.frame_width == m.vdp.frame_width
    &&& memories_sized(m) ==> memories_sized(n)
    &&& grown(m.ym2612_timed_write_trace, n.ym2612_timed_write_trace)
    &&& grown(m.psg_timed_write_trace, n.psg_timed_write_trace)
    &&& grown(m.z80_cmd_trace, n.z80_cmd_trace)
}

/// A byte write leaves these alone, and the beam.
proof fn lemma_byte_written_keeps(m: BusState, addr: u32, val: u8)
    ensures
        kept(m, byte_written(m, addr, val)),
        same_beam(m.vdp.core, byte_written(m, addr, val).vdp.core),
{
    reveal(byte_written);
}

/// A word write leaves these alone, and the beam.
proof fn lemma_word_written_keeps(m: BusState, addr: u32, val: u16)
    ensures
        kept(m, word_written(m, addr, val)),
        same_beam(m.vdp.core, word_written(m, addr, val).vdp.core),
{
    reveal(word_written);
    law_ports_keep_beam(m.vdp.core, val, Seq::empty());
}

/// A word read leaves these alone, and the beam.
proof fn lemma_word_read_keeps(m: BusState, addr: u32)
    ensures
        kept(m, word_read(m, addr)),
        same_beam(m.vdp.core, word_read(m, addr).vdp.core),
{
    reveal(word_read);
    law_ports_keep_beam(m.vdp.core, 0, Seq::empty());
}

/// A bus, and what it has left alone since another.
pub open spec fn kept_since(m: BusState) -> spec_fn(BusState, BusState) -> bool {
    |a: BusState, b: BusState| a == b && kept(m, a) && same_beam(m.vdp.core, a.vdp.core)
}

/// The bus operations leave these alone.
proof fn lemma_operations_keep(m: BusState)
    ensures
        respected::<CoreBus>(kept_since(m)),
{
    reveal(respected);
    let rel = kept_since(m);
    assert forall|a: BusState, b: BusState, addr: u32| rel(a, b) implies {
        let x = #[trigger] CoreBus::read_word_model(a, addr);
        let y = #[trigger] CoreBus::read_word_model(b, addr);
        x.0 == y.0 && rel(x.1, y.1)
    } by {
        lemma_word_read_keeps(a, addr);
    }
    assert forall|a: BusState, b: BusState, addr: u32, val: u8| rel(a, b) implies rel(
        #[trigger] CoreBus::write_byte_model(a, addr, val),
        #[trigger] CoreBus::write_byte_model(b, addr, val),
    ) by {
        lemma_byte_written_keeps(a, addr, val);
    }
    assert forall|a: BusState, b: BusState, addr: u32, val: u16| rel(a, b) implies rel(
        #[trigger] CoreBus::write_word_model(a, addr, val),
        #[trigger] CoreBus::write_word_model(b, addr, val),
    ) by {
        lemma_word_written_keeps(a, addr, val);
    }
}

/// No instruction changes the ROM, the held buttons, the picture, what has been
/// traced, the beam or the interrupt requests.
pub proof fn law_instruction_keeps(s: BoardState)
    ensures
        kept(s.bus, instruction_run(s).1.bus),
        same_beam(s.bus.vdp.core, instruction_run(s).1.bus.vdp.core),
        instruction_run(s).1.scheduler == s.scheduler,
{
    reveal(instruction_run);
    lemma_operations_keep(s.bus);
    let m = Machine { cpu: s.cpu.with_pc(s.cpu.pc.wrapping_add(2)), bus: s.bus };
    let rel = kept_since(s.bus);
    assert(rel(s.bus, s.bus));
    law_execute_keeps_relation::<CoreBus>(rel, m, m, code_word(s.bus, s.cpu.pc));
}

/// Neither does an interrupt.
pub proof fn law_interrupt_keeps(s: BoardState, level: u8)
    ensures
        kept(s.bus, interrupt_run(s, level).1.bus),
        same_beam(s.bus.vdp.core, interrupt_run(s, level).1.bus.vdp.core),
        interrupt_run(s, level).1.scheduler == s.scheduler,
{
    reveal(interrupt_run);
    lemma_operations_keep(s.bus);
    let m = Machine { cpu: s.cpu, bus: s.bus };
    let rel = kept_since(s.bus);
    assert(rel(s.bus, s.bus));
    law_interrupt_keeps_relation::<CoreBus>(rel, m, m, level);
}

/// Cycles that go by leave these alone.
proof fn lemma_elapsed_keeps(s: BoardState, n: u32)
    ensures
        kept(s.bus, elapsed(s, n).bus),
        same_beam(s.bus.vdp.core, elapsed(s, n).bus.vdp.core),
{
    reveal(elapsed);
}

/// What the CPU does next leaves these alone. A latched V-interrupt stays
/// latched until it is taken.
pub proof fn law_slot_keeps(s: BoardState, budget: u32)
    ensures
        ({
            let t = slot_run(s, budget).1;
            let taken = s.bus.vdp.core.dma_busy_cpu_cycles == 0 && vint_ready(s);
            &&& kept(s.bus, t.bus)
            &&& t.bus.vdp.core.vint_pending == (s.bus.vdp.core.vint_pending && !taken)
            &&& t.bus.vdp.core.in_vblank == s.bus.vdp.core.in_vblank
            &&& t.bus.vdp.core.scanline == s.bus.vdp.core.scanline
        }),
{
    reveal(slot_run);
    let busy = s.bus.vdp.core.dma_busy_cpu_cycles;
    if busy > 0 {
        lemma_elapsed_keeps(
            s,
            if busy < budget {
                busy
            } else {
                budget
            },
        );
    } else if vint_ready(s) {
        law_interrupt_keeps(s, 6);
        let (n, t) = vint_taken(s);
        lemma_elapsed_keeps(t, n);
    } else if !s.asleep() {
        law_instruction_keeps(s);
        let (n, t) = instruction_run(s);
        lemma_elapsed_keeps(t, n);
    }
}

/// A DMA leaves these alone, and the beam.
proof fn lemma_dma_keeps(b: BusState)
    ensures
        kept(b, dma_run(b)),
        same_beam(b.vdp.core, dma_run(b).vdp.core),
{
    reveal(dma_run);
    law_ports_keep_beam(b.vdp.core, 0, dma_words(b));
}

/// A scanline of the CPU leaves these alone.
pub proof fn law_line_keeps(s: BoardState, clock: Clock, consumed: u64)
    ensures
        kept(s.bus, line_run(s, clock, consumed).1.bus),
    decreases
            if consumed < 488 {
                488 - consumed
            } else {
                0
            },
{
    if consumed < 488 {
        let (n, t) = line_step(s, clock, consumed);
        assert(kept(s.bus, t.bus)) by {
            reveal(line_step);
            let u = clocked(s, clock, consumed);
            let budget = (488 - consumed) as u32;
            law_slot_keeps(u, budget);
            lemma_dma_keeps(slot_run(u, budget).1.bus);
        }
        if !(t.asleep() || n == 0) {
            law_line_keeps(t, clock, (consumed + n) as u64);
        }
    }
}

// ── The core ─────────────────────────────────────────────────────────────

/// The bus `n` has the ROM, the held buttons and the memory sizes of `m`.
pub open spec fn settled_by(m: BusState, n: BusState) -> bool {
    &&& n.rom == m.rom
    &&& n.port1.buttons == m.port1.buttons
    &&& n.port2.buttons == m.port2.buttons
    &&& memories_sized(m) ==> memories_sized(n)
}

/// The interrupts and the picture of a scanline.
proof fn lemma_line_shown_settled(s: BoardState, stamp: Stamp)
    ensures
        settled_by(s.bus, line_shown(s, stamp).bus),
{
    lemma_hint_settled(s, stamp);
    lemma_vblank_settled(hint_served(s, stamp), stamp);
}

/// The H-interrupt of a scanline.
proof fn lemma_hint_settled(s: BoardState, stamp: Stamp)
    ensures
        settled_by(s.bus, hint_served(s, stamp).bus),
{
    reveal(interrupt_elapsed);
    let v = s.bus.vdp;
    let q = stamped(
        with_vdp(s, v.with_core(VdpCore { h_interrupt_pending: false, ..v.core })),
        stamp,
    );
    law_interrupt_keeps(q, 4);
    let (n, t) = interrupt_run(q, 4);
    lemma_elapsed_keeps(t, n);
}

/// The start of V-blank.
proof fn lemma_vblank_settled(s: BoardState, stamp: Stamp)
    ensures
        settled_by(s.bus, vblank_entered(s, stamp).bus),
{
    let v = s.bus.vdp;
    let q = stamped(
        with_vdp(s, vint_latched(v.with_core(VdpCore { in_vblank: true, ..v.core }))),
        stamp,
    );
    law_interrupt_keeps(q, 6);
    let (n, t) = vint_taken(q);
    lemma_elapsed_keeps(t, n);
}

/// The 68000's part of a scanline.
proof fn lemma_line_entered_settled(c: CoreState, line: u16)
    ensures
        settled_by(c.board.bus, line_entered(c, line).board.bus),
        line_entered(c, line).sram == c.sram,
{
    reveal(line_entered);
    law_line_keeps(
        line_begun(c.board, line),
        Clock::Line { frame: c.frame_count, line, start: c.audio.master_tick },
        0,
    );
}

/// The rest of a scanline.
proof fn lemma_line_left_settled(c: CoreState)
    ensures
        settled_by(c.board.bus, line_left(c).board.bus),
        line_left(c).sram == c.sram,
{
    reveal(line_left);
    match c.progress {
        FrameProgress::Z80 { line, start, consumed, .. } => {
            lemma_line_shown_settled(
                c.board,
                stamp_of(c, line, (start + consumed * 7) as u64),
            );
        },
        FrameProgress::Idle => {},
    }
}

/// The rest of a frame leaves the ROM, the held buttons and the memory sizes.
pub proof fn law_frame_run_keeps(c: CoreState, line: u16)
    ensures
        settled_by(c.board.bus, frame_run(c, line).board.bus),
        frame_run(c, line).sram == c.sram,
    decreases 262 - line,
{
    if line >= 262 {
        reveal(frame_closed);
    } else {
        lemma_line_entered_settled(c, line);
        let d = line_entered(c, line);
        if !z80_granted(d) {
            lemma_line_left_settled(d);
            law_frame_run_keeps(line_left(d), (line + 1) as u16);
        }
    }
}

/// A frame leaves the ROM, the held buttons and the memory sizes.
pub proof fn law_frame_keeps(c: CoreState)
    ensures
        settled_by(c.board.bus, frame_stepped(c).board.bus),
        frame_stepped(c).sram == c.sram,
{
    law_frame_run_keeps(frame_opened(c), 0);
}

/// A report of the Z80 leaves the ROM, the held buttons and the memory sizes.
pub proof fn law_report_keeps(c: CoreState, r: Z80Report)
    ensures
        settled_by(c.board.bus, z80_answered(c, r).board.bus),
        z80_answered(c, r).sram == c.sram,
{
    match c.progress {
        FrameProgress::Z80 { line, spent, request, .. } => {
            let n = report_noted(c, request, r);
            match z80_turn(spent, request, r) {
                Z80Turn::Over { idle } => {
                    reveal(z80_done);
                    let g = with_z80(n, z80_idled(n.z80, idle));
                    lemma_line_left_settled(g);
                    law_frame_run_keeps(line_left(g), (line + 1) as u16);
                },
                _ => {},
            }
        },
        FrameProgress::Idle => {},
    }
}

/// A write of the Z80 leaves the ROM, the held buttons and the memory sizes.
pub proof fn law_z80_write_keeps(b: BusState, addr: u16, val: u8)
    ensures
        settled_by(b, z80_byte_written(b, addr, val)),
{
}

/// No command but the loading of another changes the ROM.
pub proof fn law_rom_is_kept(c: CoreState, cmd: Command)
    requires
        !(cmd is LoadRom),
    ensures
        commanded(c, cmd).board.bus.rom == c.board.bus.rom,
{
    match cmd {
        Command::PowerCycle => {
            reveal(power_cycled);
        },
        Command::StepCpu => {
            reveal(cpu_stepped);
            let t = stamped(c.board, live_stamp(c.board, c.frame_count));
            let busy = c.board.bus.vdp.core.dma_busy_cpu_cycles;
            lemma_elapsed_keeps(t, busy);
            law_slot_keeps(t, 1);
            law_slot_keeps(elapsed(t, busy), 1);
        },
        Command::StepScanline => {
            law_line_keeps(c.board, Clock::Live { frame: c.frame_count }, 0);
        },
        Command::StepFrame => {
            law_frame_keeps(c);
        },
        Command::Rewind { frames } => {
            lemma_rewound_keeps_rom(c, frames);
        },
        Command::StepBack => {
            lemma_rewound_keeps_rom(c, 1);
        },
        _ => {},
    }
}

/// Rewinding does not change the ROM.
proof fn lemma_rewound_keeps_rom(c: CoreState, frames: u32)
    ensures
        rewound(c, frames).board.bus.rom == c.board.bus.rom,
{
    reveal(rewound);
    reveal(restored);
}

} // verus!
