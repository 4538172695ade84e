//! How the parts of a scanline and of a frame fit together.
use vstd::prelude::*;

use crate::api::board::{line_run, Clock};
use crate::api::bus::Stamp;
use crate::api::console::{
    at_sample_rate, frame_back, frame_closed, frame_opened, line_entered, line_left, port_of,
    traced_from, with_port, z80_asked, z80_granted, z80_reported, z80_turn, CoreState, Z80Report,
    Z80Request, Z80Turn,
};
use crate::api::frame::{line_begun, line_shown};
use crate::io::ControllerPort;
use crate::rewind::{slot_budget, RewindConfig};
use crate::scheduler::{H40_LINE_MASTER_TICKS, MASTER_PER_Z80};
use crate::z80::Z80;

verus! {

/// The larger of two numbers.
pub open spec fn most(a: int, b: int) -> int {
    if a > b {
        a
    } else {
        b
    }
}

/// The Z80 has a fifteenth of the master ticks of a line. Every cycle that it reports
/// counts, except those of a reset; a halted one idles away what is left.
pub proof fn law_z80_share(spent: u64, request: Z80Request, r: Z80Report)
    requires
        spent < 228,
        spent + r.cycles <= u64::MAX,
    ensures
        228 * MASTER_PER_Z80 == H40_LINE_MASTER_TICKS,
        match z80_turn(spent, request, r) {
            Z80Turn::Ask { spent: now, request: next } => {
                &&& now == if request is Reset {
                    spent as int
                } else {
                    spent + r.cycles
                }
                &&& next is Instruction <==> request is Interrupt && r.cycles == 0
                &&& !(next is Reset)
            },
            Z80Turn::Over { idle } => {
                &&& spent + r.cycles + idle == most(228, spent + r.cycles)
                &&& idle > 0 ==> r.halted
            },
        },
{
}

/// What the Z80 reports becomes its state, and its cycles count on; a reset is done
/// once it is reported.
pub proof fn law_z80_reports(z: Z80, request: Z80Request, r: Z80Report)
    ensures
        ({
            let t = z80_reported(z, request, r);
            &&& t.pc == r.pc
            &&& t.halted == r.halted
            &&& t.int_line == r.int_line
            &&& t.registers == r.registers
            &&& request is Reset ==> !t.reset_due && t.cycles == z.cycles
            &&& !(request is Reset) ==> t.reset_due == z.reset_due && t.cycles as int == (z.cycles
                + r.cycles) % 0x1_0000_0000_0000_0000
        }),
{
}

/// Sound writes of the Z80 are stamped with the start of the line and 15 ticks for
/// each of its cycles.
pub proof fn law_z80_writes_are_stamped(c: CoreState, now: u64, next: Z80Request)
    requires
        c.progress is Z80,
        c.progress->Z80_start + 15 * now <= u64::MAX,
    ensures
        ({
            let t = z80_asked(c, now, next);
            &&& t.board.bus.stamp.master_tick == c.progress->Z80_start + 15 * now
            &&& t.board.bus.stamp.scanline == c.progress->Z80_line
            &&& t.board.bus.stamp.frame == c.frame_count
            &&& t.progress is Z80
            &&& t.progress->Z80_spent == now
            &&& t.progress->Z80_request == next
            &&& t.progress->Z80_line == c.progress->Z80_line
            &&& t.z80 == c.z80
            &&& t.audio == c.audio
        }),
{
}

/// The Z80 runs on a line where it is out of reset and its bus is its own, if only
/// for a moment.
pub proof fn law_z80_runs(c: CoreState)
    ensures
        c.board.bus.z80_reset ==> !z80_granted(c),
        !c.board.bus.z80_reset && !c.board.bus.z80_bus_requested ==> z80_granted(c),
        !c.board.bus.z80_reset && c.board.bus.z80_bus_requested ==> z80_granted(c)
            == c.board.bus.z80_bus_released_this_scanline,
{
}

/// At the start of a line the 68000 runs on from where it was, by the line's tick; a
/// Z80 whose reset line was let go starts at address 0, and is asked to reset first.
pub proof fn law_line_start(c: CoreState, line: u16)
    ensures
        ({
            let d = line_entered(c, line);
            let start = c.audio.master_tick;
            let ran = line_run(
                line_begun(c.board, line),
                Clock::Line { frame: c.frame_count, line, start },
                0,
            );
            &&& d.board.cpu == ran.1.cpu
            &&& d.board.bus.work_ram == ran.1.bus.work_ram
            &&& d.board.scheduler == ran.1.scheduler
            &&& d.progress is Z80
            &&& d.progress->Z80_line == line
            &&& d.progress->Z80_start == start
            &&& d.progress->Z80_consumed == ran.0
            &&& d.progress->Z80_spent == 0
            &&& d.progress->Z80_request is Reset <==> d.z80.reset_due
            &&& !(d.progress->Z80_request is Instruction)
            &&& ran.1.bus.z80_reset_pending ==> d.z80.pc == 0 && d.z80.reset_due
            &&& !ran.1.bus.z80_reset_pending ==> d.z80 == c.z80
            &&& !d.board.bus.z80_reset_pending
            &&& d.audio == c.audio
        }),
{
    reveal(line_entered);
}

/// At the end of a line its interrupts and its picture are due, by the tick that the
/// 68000 has reached; sound moves on by the line, and at line 224 the Z80's interrupt
/// line goes up.
pub proof fn law_line_end(c: CoreState)
    requires
        c.progress is Z80,
        c.progress->Z80_start + 7 * c.progress->Z80_consumed <= u64::MAX,
        c.audio.master_tick + 3420 <= u64::MAX,
    ensures
        ({
            let d = line_left(c);
            let line = c.progress->Z80_line;
            let tick = c.progress->Z80_start + 7 * c.progress->Z80_consumed;
            &&& d.board == line_shown(
                c.board,
                Stamp { frame: c.frame_count, scanline: line, master_tick: tick as u64 },
            )
            &&& d.z80.int_line == (c.z80.int_line || line == 224)
            &&& d.z80 == (Z80 { int_line: d.z80.int_line, ..c.z80 })
            &&& d.audio.master_tick == c.audio.master_tick + 3420
            &&& d.progress is Idle
            &&& d.frame_count == c.frame_count
        }),
{
    reveal(line_left);
    reveal(crate::api::audio::synthesized);
}

/// A frame starts outside V-blank with no events and the Z80's interrupt line down;
/// it ends with the next frame of the other field, and both pads in their first
/// phase.
pub proof fn law_frame_bounds(c: CoreState)
    requires
        c.frame_count < u64::MAX,
    ensures
        ({
            let a = frame_opened(c);
            let z = frame_closed(c);
            &&& !a.board.bus.vdp.core.in_vblank
            &&& !a.z80.int_line
            &&& a.audio.events.len() == 0
            &&& a.board.cpu == c.board.cpu
            &&& z.frame_count == c.frame_count + 1
            &&& z.board.bus.vdp.core.odd_frame != c.board.bus.vdp.core.odd_frame
            &&& z.board.bus.port1.th_count == 0
            &&& z.board.bus.port2.th_count == 0
            &&& z.board.bus.port1.buttons == c.board.bus.port1.buttons
            &&& z.board.bus.port2.buttons == c.board.bus.port2.buttons
            &&& z.board.bus.work_ram == c.board.bus.work_ram
            &&& z.board.cpu == c.board.cpu
        }),
{
    reveal(frame_closed);
}

/// Port 0 is the first pad, and every other number the second; setting one leaves
/// the other.
pub proof fn law_ports_are_apart(c: CoreState, port: u8, value: ControllerPort)
    ensures
        ({
            let d = with_port(c, port, value);
            &&& port_of(d, port) == value
            &&& port == 0 ==> d.board.bus.port1 == value && d.board.bus.port2
                == c.board.bus.port2
            &&& port != 0 ==> d.board.bus.port2 == value && d.board.bus.port1
                == c.board.bus.port1
            &&& d.board.cpu == c.board.cpu
            &&& d.board.bus.work_ram == c.board.bus.work_ram
        }),
{
}

/// Rewinding goes back by a number of frames, to the first at most; the history has
/// 60 frames for every second, and one at least.
pub proof fn law_rewind_distance(now: u64, frames: u32, config: RewindConfig)
    ensures
        frame_back(now, frames) == most(0, now - frames),
        slot_budget(config) == most(1, 60 * config.max_history_seconds),
{
}

/// What is traced from a position on is what comes after it.
pub proof fn law_traced_from<T>(trace: Seq<T>, more: Seq<T>)
    requires
        trace.len() <= usize::MAX,
    ensures
        traced_from(trace + more, trace.len() as usize) == more,
{
    assert((trace + more).subrange(trace.len() as int, (trace + more).len() as int) =~= more);
}

/// A new sample rate, at least 1, starts the sound over with the chips as the
/// programs have set them.
pub proof fn law_sample_rate(c: CoreState, rate: u32)
    ensures
        ({
            let d = at_sample_rate(c, rate);
            &&& d.audio.sample_rate == most(1, rate as int)
            &&& d.audio.master_tick == 0
            &&& d.audio.output_sample_count == 0
            &&& d.audio.ym2612 == c.board.bus.ym2612
            &&& d.audio.psg == c.board.bus.psg
            &&& d.audio.pending_key_writes.len() == 0
            &&& d.audio.key_delay_ticks == c.audio.key_delay_ticks
            &&& d.board == c.board
        }),
{
}

} // verus!
