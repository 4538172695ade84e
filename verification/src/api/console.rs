//! The emulator core.
//!
//! [`GenesisCore`] is the entry point for frontends: they drive it by
//! [`Command`]s and read its state. The core does not execute Z80 instructions
//! itself. Where the Z80 gets to run, the frame waits: the frontend does what
//! [`GenesisCore::z80_request`] asks for and reports back.
use vstd::prelude::*;

use crate::api::audio::{
    fresh_audio, not_ahead, synthesized, timeline_restarted, AudioState, AudioTimeline,
    MAX_AUDIO_TICK,
};
use crate::api::board::{
    cpu_stepped, line_run, soft_reset, stamped, vectors_loaded, BoardState, Clock, Mainboard,
};
use crate::api::bus::{z80_byte_at, z80_byte_written, BusState, Stamp};
use crate::api::frame::{frame_counted, line_begun, line_shown, with_vdp};
use crate::api::power::{power_on_board, power_on_bus, restored_bus};
use crate::api::state::{
    power_on_sram, CartSram, Command, GenesisCoreSnapshot, Mapper, SnapshotState, SramState,
    TimedPsgWrite, TimedYm2612Write,
};
use crate::cpu::engine::{cpu_snapshot_of, snapshot_state};
use crate::io::{idle_port, with_pressed, with_released, Button, ControllerPort};
use crate::psg::power_on_psg;
use crate::rewind::laws::{
    all_restorable, history_ok, law_empty_history, law_record_reconstruct, law_record_restorable,
    law_reconfigure_restorable, law_truncate_restorable, law_truncated, lemma_sized_joins,
    restorable,
};
use crate::rewind::timeline::{reconstructed, truncated};
use crate::rewind::{
    buffer_configured, buffer_recorded, config_policy, default_rewind_config, empty_buffer,
    slot_budget, BufferState, FrameInput, RewindBuffer, RewindConfig,
};
use crate::rom::{contains_sega, header_of, parse_header, text_field, RomHeader};
use crate::scheduler::{restored_scheduler, scheduler_snapshot, Region};
use crate::vdp::VdpCore;
use crate::ym2612::power_on_ym;
use crate::z80::{power_on_z80, reset_z80, z80_of_snapshot, z80_snapshot_of, Z80, Z80Registers};

verus! {

/// Master-clock ticks of a scanline.
pub const MASTER_TICKS_PER_SCANLINE: u64 = 3420;

/// What the Z80 is asked for next.
#[derive(Debug, Clone, Copy, PartialEq, Eq, Structural)]
pub enum Z80Request {
    /// Restart at address 0.
    Reset,
    /// Accept a pending interrupt, if there is one.
    Interrupt,
    /// Execute one instruction.
    Instruction,
}

/// What the Z80 has done: the cycles it took and the registers that the core
/// keeps track of.
#[derive(Debug, Clone, Copy, PartialEq, Eq, Structural)]
pub struct Z80Report {
    /// Cycles that went by (0 where no interrupt was accepted).
    pub cycles: u32,
    /// Program counter.
    pub pc: u16,
    /// The Z80 has executed HALT.
    pub halted: bool,
    /// The interrupt line is asserted.
    pub int_line: bool,
    /// The other registers.
    pub registers: Z80Registers,
}

/// How far the current frame has come.
#[derive(Debug, Clone, Copy, PartialEq, Eq, Structural)]
pub enum FrameProgress {
    /// No frame is under way.
    Idle,
    /// The frame waits for the Z80.
    Z80 {
        /// The scanline.
        line: u16,
        /// Master tick at which the scanline started.
        start: u64,
        /// 68000 cycles consumed in the scanline.
        consumed: u64,
        /// YM2612 writes traced before the scanline.
        ym_from: usize,
        /// PSG writes traced before the scanline.
        psg_from: usize,
        /// Z80 cycles spent in the scanline.
        spent: u64,
        /// What the Z80 is asked for.
        request: Z80Request,
    },
}

/// The emulator core.
pub struct GenesisCore {
    /// The 68000, the bus and the cycle counters.
    pub board: Mainboard,
    /// The Z80 as far as the core tracks it.
    pub z80: Z80,
    /// The audio timeline.
    pub audio: AudioTimeline,
    /// Time-travel rewind buffer.
    pub rewind: RewindBuffer,
    /// Parsed ROM header (if loaded).
    pub rom_header: Option<RomHeader>,
    /// Frame counter.
    pub frame_count: u64,
    /// Emulation speed in permille.
    pub speed_permille: u16,
    /// Whether emulation is paused.
    pub paused: bool,
    /// Television standard.
    pub region: Region,
    /// Overseas (not Japanese) console.
    pub overseas: bool,
    /// Television standard chosen by the user.
    pub region_override: Option<Region>,
    /// Cartridge backup RAM.
    pub sram: CartSram,
    /// Cartridge address mapper.
    pub mapper: Mapper,
    /// How far the current frame has come.
    pub progress: FrameProgress,
}

/// Mathematical model of the core.
pub ghost struct CoreState {
    pub board: BoardState,
    pub z80: Z80,
    pub audio: AudioState,
    pub rewind: BufferState,
    pub rom_header: Option<RomHeader>,
    pub frame_count: u64,
    pub speed_permille: u16,
    pub paused: bool,
    pub region: Region,
    pub overseas: bool,
    pub region_override: Option<Region>,
    pub sram: SramState,
    pub mapper: Mapper,
    pub progress: FrameProgress,
}

impl View for GenesisCore {
    type V = CoreState;

    open spec fn view(&self) -> CoreState {
        CoreState {
            board: self.board@,
            z80: self.z80,
            audio: self.audio@,
            rewind: self.rewind@,
            rom_header: self.rom_header,
            frame_count: self.frame_count,
            speed_permille: self.speed_permille,
            paused: self.paused,
            region: self.region,
            overseas: self.overseas,
            region_override: self.region_override,
            sram: self.sram@,
            mapper: self.mapper,
            progress: self.progress,
        }
    }
}

/// The rewind history can be replayed, and every state in it restored.
#[verifier::opaque]
pub open spec fn rewind_ok(b: BufferState) -> bool {
    &&& b.timeline.policy.wf()
    &&& history_ok(b.timeline)
    &&& all_restorable(b.timeline)
}

/// There is room for the rest of the frame from a line on: master ticks up to
/// the limit of the audio timeline, and one more frame in the counter.
pub open spec fn room_from(c: CoreState, line: u16) -> bool {
    &&& line <= 262
    &&& c.audio.master_tick + (262 - line) * 3420 <= MAX_AUDIO_TICK
    &&& c.frame_count < u64::MAX
}

/// A frame under way is within its bounds.
pub open spec fn progress_ok(c: CoreState) -> bool {
    match c.progress {
        FrameProgress::Idle => true,
        FrameProgress::Z80 { line, start, consumed, ym_from, psg_from, spent, request } => {
            &&& line < 262
            &&& room_from(c, line)
            &&& start <= MAX_AUDIO_TICK
            &&& consumed <= 1000
            &&& spent < 228
        },
    }
}

impl CoreState {
    /// The chips are well formed, the rewind history is intact, and a frame under
    /// way is within its bounds.
    #[verifier::opaque]
    pub open spec fn wf(self) -> bool {
        &&& self.board.wf()
        &&& self.audio.wf()
        &&& not_ahead(self.audio)
        &&& rewind_ok(self.rewind)
        &&& self.sram.data.len() <= u32::MAX
        &&& progress_ok(self)
    }

    /// There is room for a whole frame: the master tick and the frame counter are
    /// far from their limits.
    pub open spec fn frame_fits(self) -> bool {
        room_from(self, 0)
    }
}

// ── Power and reset ──────────────────────────────────────────────────────

/// The core after a power cycle: memories cleared, chips at power-on, sound and
/// rewind history started over, the vectors read. ROM, ports, speed and pause
/// state stay.
#[verifier::opaque]
pub open spec fn power_cycled(c: CoreState) -> CoreState {
    let bus = power_on_bus(c.board.bus.rom, c.board.bus.port1, c.board.bus.port2);
    CoreState {
        board: vectors_loaded(power_on_board(bus)),
        z80: power_on_z80(),
        audio: timeline_restarted(c.audio, power_on_ym(), power_on_psg()),
        rewind: empty_buffer(c.rewind.config),
        frame_count: 0,
        progress: FrameProgress::Idle,
        ..c
    }
}

/// The header of a ROM: present where the ROM has one.
pub open spec fn header_read(data: Seq<u8>, header: Option<RomHeader>) -> bool {
    match header {
        Some(h) => data.len() >= 512 && contains_sega(text_field(data, 0x100, 16)) && header_of(
            data,
            h,
        ),
        None => data.len() < 512 || !contains_sega(text_field(data, 0x100, 16)),
    }
}

/// The core with another ROM in the slot.
pub open spec fn with_rom(c: CoreState, rom: Seq<u8>, header: Option<RomHeader>) -> CoreState {
    CoreState {
        board: BoardState { bus: BusState { rom, ..c.board.bus }, ..c.board },
        rom_header: header,
        ..c
    }
}

/// The core after a ROM is loaded: its header read, then a power cycle.
pub open spec fn rom_loaded(c: CoreState, rom: Seq<u8>, d: CoreState) -> bool {
    &&& header_read(rom, d.rom_header)
    &&& d == power_cycled(with_rom(c, rom, d.rom_header))
}

// ── Snapshots ────────────────────────────────────────────────────────────

/// The snapshot of a core.
pub open spec fn snapshot_of(c: CoreState) -> SnapshotState {
    let b = c.board.bus;
    SnapshotState {
        cpu: cpu_snapshot_of(c.board.cpu),
        vdp: b.vdp.core,
        scheduler: scheduler_snapshot(c.board.scheduler),
        z80: z80_snapshot_of(c.z80),
        work_ram: b.work_ram,
        z80_ram: b.z80_ram,
        z80_bank: b.z80_bank,
        z80_bus_requested: b.z80_bus_requested,
        z80_reset: b.z80_reset,
        z80_reset_pending: b.z80_reset_pending,
        z80_bus_released_this_scanline: b.z80_bus_released_this_scanline,
        psg: b.psg,
        ym2612: b.ym2612,
        port1: b.port1,
        port2: b.port2,
        frame_count: c.frame_count,
        speed_permille: c.speed_permille,
        paused: c.paused,
        region: c.region,
        overseas: c.overseas,
        region_override: c.region_override,
        sram: c.sram,
        mapper: c.mapper,
    }
}

/// The core with the state of a snapshot. The audio timeline starts over; a
/// frame under way is abandoned.
#[verifier::opaque]
pub open spec fn restored(c: CoreState, s: SnapshotState) -> CoreState {
    CoreState {
        board: BoardState {
            cpu: snapshot_state(s.cpu),
            bus: restored_bus(c.board.bus, s),
            scheduler: restored_scheduler(s.scheduler),
        },
        z80: z80_of_snapshot(s.z80),
        audio: timeline_restarted(c.audio, s.ym2612, s.psg),
        frame_count: s.frame_count,
        speed_permille: s.speed_permille,
        paused: s.paused,
        region: s.region,
        overseas: s.overseas,
        region_override: s.region_override,
        sram: s.sram,
        mapper: s.mapper,
        progress: FrameProgress::Idle,
        ..c
    }
}

/// The frame that lies a number of frames back; the first one at the earliest.
pub open spec fn frame_back(now: u64, frames: u32) -> u64 {
    if now >= frames {
        (now - frames) as u64
    } else {
        0
    }
}

/// The core after rewinding: the older state restored and the history after it
/// dropped. Nothing happens where that frame is not retained.
#[verifier::opaque]
pub open spec fn rewound(c: CoreState, frames: u32) -> CoreState {
    let target = frame_back(c.frame_count, frames);
    match reconstructed(c.rewind.timeline, target) {
        Some(s) => history_truncated(restored(c, s), target),
        None => c,
    }
}

/// The core without the rewind history after a frame.
pub open spec fn history_truncated(c: CoreState, target: u64) -> CoreState {
    CoreState {
        rewind: BufferState { timeline: truncated(c.rewind.timeline, target), ..c.rewind },
        ..c
    }
}

// ── Frames ───────────────────────────────────────────────────────────────

/// The core at the start of a frame: out of V-blank, no audio events yet.
pub open spec fn frame_opened(c: CoreState) -> CoreState {
    let v = c.board.bus.vdp;
    CoreState {
        board: with_vdp(c.board, v.with_core(VdpCore { in_vblank: false, ..v.core })),
        z80: Z80 { int_line: false, ..c.z80 },
        audio: AudioState { events: Seq::empty(), ..c.audio },
        ..c
    }
}

/// The Z80 restarted, where its reset line has been released.
pub open spec fn z80_restarted(c: CoreState) -> CoreState {
    if c.board.bus.z80_reset_pending {
        CoreState {
            z80: reset_z80(c.z80),
                board: BoardState {
                bus: BusState { z80_reset_pending: false, ..c.board.bus },
                ..c.board
            },
            ..c
        }
    } else {
        c
    }
}

/// A moment of the current frame.
pub open spec fn stamp_of(c: CoreState, line: u16, tick: u64) -> Stamp {
    Stamp { frame: c.frame_count, scanline: line, master_tick: tick }
}

/// The core after the 68000 has run its part of a scanline. The frame now waits
/// for the Z80.
#[verifier::opaque]
pub open spec fn line_entered(c: CoreState, line: u16) -> CoreState {
    let start = c.audio.master_tick;
    let (consumed, board) = line_run(
        line_begun(c.board, line),
        Clock::Line { frame: c.frame_count, line, start },
        0,
    );
    let d = z80_restarted(CoreState { board: stamped(board, stamp_of(c, line, start)), ..c });
    CoreState {
        progress: FrameProgress::Z80 {
            line,
            start,
            consumed,
            ym_from: c.board.bus.ym2612_timed_write_trace.len() as usize,
            psg_from: c.board.bus.psg_timed_write_trace.len() as usize,
            spent: 0,
            request: first_request(d.z80.reset_due),
        },
        ..d
    }
}

/// What the Z80 is asked for first in its part of a scanline.
pub open spec fn first_request(reset_due: bool) -> Z80Request {
    if reset_due {
        Z80Request::Reset
    } else {
        Z80Request::Interrupt
    }
}

/// The Z80 runs in this scanline: it is out of reset, and the 68000 does not
/// hold its bus or has let it go at some point.
pub open spec fn z80_granted(c: CoreState) -> bool {
    let b = c.board.bus;
    !b.z80_reset && (!b.z80_bus_requested || b.z80_bus_released_this_scanline)
}

/// What has been traced from a position on.
pub open spec fn traced_from<T>(trace: Seq<T>, from: usize) -> Seq<T> {
    if from <= trace.len() {
        trace.subrange(from as int, trace.len() as int)
    } else {
        Seq::empty()
    }
}

/// The audio of a scanline.
pub open spec fn line_sounded(c: CoreState, ym_from: usize, psg_from: usize) -> CoreState {
    CoreState {
        audio: synthesized(
            c.audio,
            traced_from(c.board.bus.ym2612_timed_write_trace, ym_from),
            traced_from(c.board.bus.psg_timed_write_trace, psg_from),
            (c.audio.master_tick + 3420) as u64,
        ),
        ..c
    }
}

/// The core after the rest of a scanline: interrupts, picture, sound. At line
/// 224 the Z80 interrupt line goes up.
#[verifier::opaque]
pub open spec fn line_left(c: CoreState) -> CoreState {
    match c.progress {
        FrameProgress::Z80 { line, start, consumed, ym_from, psg_from, spent, request } => {
            let shown = CoreState {
                board: line_shown(c.board, stamp_of(c, line, (start + consumed * 7) as u64)),
                z80: Z80 { int_line: c.z80.int_line || line == 224, ..c.z80 },
                progress: FrameProgress::Idle,
                ..c
            };
            line_sounded(shown, ym_from, psg_from)
        },
        FrameProgress::Idle => c,
    }
}

/// The buttons held on both ports.
pub open spec fn held_input(b: BusState) -> FrameInput {
    FrameInput { port1_buttons: b.port1.buttons, port2_buttons: b.port2.buttons }
}

/// The core at the end of a frame: counters moved on, the frame recorded for
/// rewinding.
#[verifier::opaque]
pub open spec fn frame_closed(c: CoreState) -> CoreState {
    let d = CoreState {
        board: frame_counted(c.board),
        frame_count: (c.frame_count + 1) as u64,
        progress: FrameProgress::Idle,
        ..c
    };
    CoreState {
        rewind: buffer_recorded(
            d.rewind,
            d.frame_count,
            snapshot_of(d),
            held_input(d.board.bus),
        ),
        ..d
    }
}

/// The core after the rest of a frame from a line on, as far as it comes: to the
/// end of the frame, or to a scanline in which the Z80 runs.
pub open spec fn frame_run(c: CoreState, line: u16) -> CoreState
    decreases 262 - line,
{
    if line >= 262 {
        frame_closed(c)
    } else {
        let d = line_entered(c, line);
        if z80_granted(d) {
            d
        } else {
            frame_run(line_left(d), (line + 1) as u16)
        }
    }
}

/// The core after a frame is asked for. Paused, or while a frame is under way,
/// nothing happens.
pub open spec fn frame_stepped(c: CoreState) -> CoreState {
    if c.paused || !(c.progress is Idle) {
        c
    } else {
        frame_run(frame_opened(c), 0)
    }
}

// ── The Z80's part ───────────────────────────────────────────────────────

/// The Z80 with what it reports. A reset takes no time.
pub open spec fn z80_reported(z: Z80, request: Z80Request, r: Z80Report) -> Z80 {
    Z80 {
        pc: r.pc,
        halted: r.halted,
        int_line: r.int_line,
        reset_due: z.reset_due && !(request is Reset),
        registers: r.registers,
        cycles: if request is Reset {
            z.cycles
        } else {
            z.cycles.wrapping_add(r.cycles as u64)
        },
    }
}

/// The core with what the Z80 reports.
pub open spec fn report_noted(c: CoreState, request: Z80Request, r: Z80Report) -> CoreState {
    CoreState { z80: z80_reported(c.z80, request, r), ..c }
}

/// The Z80 after idle cycles.
pub open spec fn z80_idled(z: Z80, idle: u64) -> Z80 {
    Z80 { cycles: z.cycles.wrapping_add(idle), ..z }
}

/// The core with another Z80.
pub open spec fn with_z80(c: CoreState, z80: Z80) -> CoreState {
    CoreState { z80, ..c }
}

/// What happens after a report in the Z80's part of a scanline.
#[derive(Debug, Clone, Copy, PartialEq, Eq, Structural)]
pub enum Z80Turn {
    /// The Z80 is asked for something else.
    Ask { spent: u64, request: Z80Request },
    /// The scanline's part is over; so many cycles pass idle.
    Over { idle: u64 },
}

/// The turn that a report brings. A reset takes no time. An accepted interrupt or an executed
/// instruction spends cycles; without an interrupt the Z80 executes, or sleeps
/// away the rest of the scanline if it is halted.
pub open spec fn z80_turn(spent: u64, request: Z80Request, r: Z80Report) -> Z80Turn {
    let total = (spent + r.cycles) as u64;
    if request is Reset {
        Z80Turn::Ask { spent, request: Z80Request::Interrupt }
    } else if request is Interrupt && r.cycles == 0 {
        if r.halted {
            Z80Turn::Over { idle: (228 - spent) as u64 }
        } else {
            Z80Turn::Ask { spent, request: Z80Request::Instruction }
        }
    } else if total >= 228 {
        Z80Turn::Over { idle: 0 }
    } else {
        Z80Turn::Ask { spent: total, request: Z80Request::Interrupt }
    }
}

/// The core with the Z80 asked for the next thing, after so many cycles of its
/// part of the scanline.
pub open spec fn z80_asked(c: CoreState, now: u64, next: Z80Request) -> CoreState {
    match c.progress {
        FrameProgress::Z80 { line, start, consumed, ym_from, psg_from, spent, request } => {
            CoreState {
                board: stamped(c.board, stamp_of(c, line, (start + now * 15) as u64)),
                progress: FrameProgress::Z80 {
                    line,
                    start,
                    consumed,
                    ym_from,
                    psg_from,
                    spent: now,
                    request: next,
                },
                ..c
            }
        },
        FrameProgress::Idle => c,
    }
}

/// The core after the Z80's part of a scanline: idle cycles pass, and the frame
/// goes on.
#[verifier::opaque]
pub open spec fn z80_done(c: CoreState, line: u16, idle: u64) -> CoreState {
    frame_run(line_left(with_z80(c, z80_idled(c.z80, idle))), (line + 1) as u16)
}

/// The core after the Z80 has reported. Without a frame under way nothing
/// happens.
pub open spec fn z80_answered(c: CoreState, r: Z80Report) -> CoreState {
    match c.progress {
        FrameProgress::Z80 { line, start, consumed, ym_from, psg_from, spent, request } => {
            let d = report_noted(c, request, r);
            match z80_turn(spent, request, r) {
                Z80Turn::Ask { spent: now, request: next } => z80_asked(d, now, next),
                Z80Turn::Over { idle } => z80_done(d, line, idle),
            }
        },
        FrameProgress::Idle => c,
    }
}

// ── Commands ─────────────────────────────────────────────────────────────

/// The core with one port replaced: port 1 for 0, port 2 for all else.
pub open spec fn with_port(c: CoreState, port: u8, value: ControllerPort) -> CoreState {
    let bus = if port == 0 {
        BusState { port1: value, ..c.board.bus }
    } else {
        BusState { port2: value, ..c.board.bus }
    };
    CoreState { board: BoardState { bus, ..c.board }, ..c }
}

/// A port: port 1 for 0, port 2 for all else.
pub open spec fn port_of(c: CoreState, port: u8) -> ControllerPort {
    if port == 0 {
        c.board.bus.port1
    } else {
        c.board.bus.port2
    }
}

/// The core with its audio timeline started over at a sample rate.
pub open spec fn at_sample_rate(c: CoreState, rate: u32) -> CoreState {
    let a = AudioState {
        sample_rate: if rate == 0 {
            1
        } else {
            rate
        },
        ..c.audio
    };
    CoreState {
        audio: timeline_restarted(a, c.board.bus.ym2612, c.board.bus.psg),
        ..c
    }
}

/// The core with its audio timeline started over with key delays.
pub open spec fn with_key_delays(c: CoreState, delays: Seq<u64>) -> CoreState {
    let a = AudioState { key_delay_ticks: delays, ..c.audio };
    CoreState {
        audio: timeline_restarted(a, c.board.bus.ym2612, c.board.bus.psg),
        ..c
    }
}

/// The core after a command, loading a ROM apart.
pub open spec fn commanded(c: CoreState, cmd: Command) -> CoreState {
    match cmd {
        Command::LoadRom(_) => c,
        Command::PowerCycle => power_cycled(c),
        Command::Reset => CoreState { board: soft_reset(c.board), ..c },
        Command::StepCpu => CoreState { board: cpu_stepped(c.board, c.frame_count), ..c },
        Command::StepScanline => CoreState {
            board: line_run(c.board, Clock::Live { frame: c.frame_count }, 0).1,
            ..c
        },
        Command::StepFrame => frame_stepped(c),
        Command::SetControllerState { port, buttons } => with_port(
            c,
            port,
            ControllerPort { buttons, ..port_of(c, port) },
        ),
        Command::PressButton { port, button } => with_port(
            c,
            port,
            ControllerPort {
                buttons: with_pressed(port_of(c, port).buttons, button),
                ..port_of(c, port)
            },
        ),
        Command::ReleaseButton { port, button } => with_port(
            c,
            port,
            ControllerPort {
                buttons: with_released(port_of(c, port).buttons, button),
                ..port_of(c, port)
            },
        ),
        Command::SetSpeed(speed) => CoreState { speed_permille: speed, ..c },
        Command::SetAudioSampleRate(rate) => at_sample_rate(c, rate),
        Command::SetKeyDelays(delays) => with_key_delays(c, delays@),
        Command::Pause => CoreState { paused: true, ..c },
        Command::Resume => CoreState { paused: false, ..c },
        Command::Rewind { frames } => rewound(c, frames),
        Command::StepBack => rewound(c, 1),
        Command::SetRewindConfig(config) => CoreState {
            rewind: buffer_configured(c.rewind, config),
            ..c
        },
    }
}

/// The core of a new console: no ROM, power on.
pub open spec fn fresh_core() -> CoreState {
    CoreState {
        board: power_on_board(power_on_bus(Seq::empty(), idle_port(), idle_port())),
        z80: power_on_z80(),
        audio: fresh_audio(44100),
        rewind: empty_buffer(default_rewind_config()),
        rom_header: None,
        frame_count: 0,
        speed_permille: 1000,
        paused: false,
        region: Region::Ntsc,
        overseas: true,
        region_override: None,
        sram: power_on_sram(),
        mapper: Mapper::Flat,
        progress: FrameProgress::Idle,
    }
}

// ── Executable core ──────────────────────────────────────────────────────

/// An empty rewind buffer is intact.
proof fn lemma_empty_buffer_ok(config: RewindConfig)
    ensures
        rewind_ok(empty_buffer(config)),
{
    reveal(rewind_ok);
    let t = empty_buffer(config).timeline;
    law_empty_history(t.max_frames, t.policy);
    assert forall|f: u64| #[trigger] reconstructed(t, f) is None by {}
}

/// A frame under way is within its bounds.
proof fn lemma_progress_ok(c: CoreState)
    requires
        c.wf(),
    ensures
        progress_ok(c),
{
    reveal(CoreState::wf);
}

/// Recording a frame keeps the rewind buffer intact.
proof fn lemma_record_ok(b: BufferState, s: SnapshotState, input: FrameInput)
    requires
        rewind_ok(b),
        restorable(s),
        s.frame_count > 0,
        buffer_recorded(b, s.frame_count, s, input).timeline.policy.wf(),
    ensures
        rewind_ok(buffer_recorded(b, s.frame_count, s, input)),
{
    reveal(rewind_ok);
    if b.config.enabled {
        lemma_sized_joins(b.timeline, s.frame_count, s);
        law_record_reconstruct(b.timeline, s.frame_count, s, input);
        law_record_restorable(b.timeline, s.frame_count, s, input);
    }
}

/// A configured rewind buffer stays intact.
proof fn lemma_configured_ok(b: BufferState, config: RewindConfig)
    requires
        rewind_ok(b),
        buffer_configured(b, config).timeline.policy.wf(),
    ensures
        rewind_ok(buffer_configured(b, config)),
{
    reveal(rewind_ok);
    if config.enabled {
        law_reconfigure_restorable(b.timeline, slot_budget(config), config_policy(config));
    } else {
        lemma_empty_buffer_ok(config);
    }
}

/// A truncated rewind buffer stays intact.
proof fn lemma_truncated_ok(b: BufferState, target: u64)
    requires
        rewind_ok(b),
    ensures
        rewind_ok(BufferState { timeline: truncated(b.timeline, target), ..b }),
{
    reveal(rewind_ok);
    reveal(truncated);
    law_truncated(b.timeline, target);
    law_truncate_restorable(b.timeline, target);
}

/// The timeline of an intact rewind buffer can be recorded on.
proof fn lemma_rewind_ok(b: BufferState)
    requires
        rewind_ok(b),
    ensures
        b.timeline.policy.wf(),
        b.timeline.max_frames >= 1,
{
    reveal(rewind_ok);
}

/// A state in an intact rewind buffer can be restored.
proof fn lemma_restorable(b: BufferState, target: u64)
    requires
        rewind_ok(b),
        reconstructed(b.timeline, target) is Some,
    ensures
        restorable(reconstructed(b.timeline, target)->0),
{
    reveal(rewind_ok);
}

/// The traced writes from a position on.
fn traced_ym(trace: &Vec<TimedYm2612Write>, from: usize) -> (r: Vec<TimedYm2612Write>)
    ensures
        r@ == traced_from(trace@, from),
{
    let mut r: Vec<TimedYm2612Write> = Vec::new();
    let mut i: usize = from;
    while i < trace.len()
        invariant
            from <= i,
            from <= trace@.len() ==> i <= trace@.len(),
            from <= trace@.len() ==> r@ == trace@.subrange(from as int, i as int),
            from > trace@.len() ==> r@.len() == 0,
        decreases trace@.len() - i,
    {
        r.push(trace[i]);
        i = i + 1;
        assert(r@ =~= trace@.subrange(from as int, i as int));
    }
    assert(r@ =~= traced_from(trace@, from));
    r
}

/// The traced writes from a position on.
fn traced_psg(trace: &Vec<TimedPsgWrite>, from: usize) -> (r: Vec<TimedPsgWrite>)
    ensures
        r@ == traced_from(trace@, from),
{
    let mut r: Vec<TimedPsgWrite> = Vec::new();
    let mut i: usize = from;
    while i < trace.len()
        invariant
            from <= i,
            from <= trace@.len() ==> i <= trace@.len(),
            from <= trace@.len() ==> r@ == trace@.subrange(from as int, i as int),
            from > trace@.len() ==> r@.len() == 0,
        decreases trace@.len() - i,
    {
        r.push(trace[i]);
        i = i + 1;
        assert(r@ =~= trace@.subrange(from as int, i as int));
    }
    assert(r@ =~= traced_from(trace@, from));
    r
}

impl GenesisCore {
    /// Creates a new Genesis core with no ROM loaded.
    #[must_use]
    pub fn new() -> (r: Self)
        ensures
            r@ == fresh_core(),
            r@.wf(),
    {
        reveal(CoreState::wf);
        let config = RewindConfig::default();
        proof {
            lemma_empty_buffer_ok(config);
        }
        GenesisCore {
            board: Mainboard::power_on(Vec::new(), ControllerPort::new(), ControllerPort::new()),
            z80: Z80::new(),
                audio: AudioTimeline::new(44100),
            rewind: RewindBuffer::new(config),
            rom_header: None,
            frame_count: 0,
            speed_permille: 1000,
            paused: false,
            region: Region::Ntsc,
            overseas: true,
            region_override: None,
            sram: CartSram::new(),
            mapper: Mapper::Flat,
            progress: FrameProgress::Idle,
        }
    }

    /// Executes a command.
    pub fn execute(&mut self, cmd: Command)
        requires
            old(self)@.wf(),
            cmd is StepFrame && !old(self)@.paused && old(self)@.progress is Idle ==> old(
                self,
            )@.frame_fits(),
        ensures
            cmd matches Command::LoadRom(data) ==> rom_loaded(old(self)@, data@, final(self)@),
            !(cmd is LoadRom) ==> final(self)@ == commanded(old(self)@, cmd),
            final(self)@.wf(),
    {
        match cmd {
            Command::LoadRom(data) => self.load_rom(data),
            Command::PowerCycle => self.power_cycle(),
            Command::Reset => self.reset(),
            Command::StepCpu => self.step_cpu(),
            Command::StepScanline => self.step_scanline(),
            Command::StepFrame => self.step_frame(),
            Command::SetControllerState { port, buttons } => self.set_controller(port, buttons),
            Command::PressButton { port, button } => self.press_button(port, button),
            Command::ReleaseButton { port, button } => self.release_button(port, button),
            Command::SetSpeed(speed) => self.set_speed(speed),
            Command::SetAudioSampleRate(rate) => self.set_audio_sample_rate(rate),
            Command::SetKeyDelays(delays) => self.set_key_delays(delays),
            Command::Pause => self.set_paused(true),
            Command::Resume => self.set_paused(false),
            Command::Rewind { frames } => self.rewind_frames(frames),
            Command::StepBack => self.rewind_frames(1),
            Command::SetRewindConfig(config) => self.set_rewind_config(config),
        }
    }

    /// Loads a ROM: reads its header and cycles the power.
    fn load_rom(&mut self, data: Vec<u8>)
        requires
            old(self)@.wf(),
        ensures
            rom_loaded(old(self)@, data@, final(self)@),
            final(self)@.wf(),
    {
        let header: Option<RomHeader> = match parse_header(data.as_slice()) {
            Ok(h) => Some(h),
            Err(_) => None,
        };
        self.insert_rom(data, header);
        self.power_cycle();
    }

    /// Sets the emulation speed.
    fn set_speed(&mut self, speed: u16)
        requires
            old(self)@.wf(),
        ensures
            final(self)@ == (CoreState { speed_permille: speed, ..old(self)@ }),
            final(self)@.wf(),
    {
        reveal(CoreState::wf);
        self.speed_permille = speed;
    }

    /// Pauses or resumes emulation.
    fn set_paused(&mut self, paused: bool)
        requires
            old(self)@.wf(),
        ensures
            final(self)@ == (CoreState { paused, ..old(self)@ }),
            final(self)@.wf(),
    {
        reveal(CoreState::wf);
        self.paused = paused;
    }

    /// Puts a ROM in the slot.
    fn insert_rom(&mut self, data: Vec<u8>, header: Option<RomHeader>)
        requires
            old(self)@.wf(),
        ensures
            final(self)@ == with_rom(old(self)@, data@, header),
            final(self)@.wf(),
    {
        reveal(CoreState::wf);
        self.rom_header = header;
        self.board.bus.rom = data;
    }

    /// Cycles the power.
    fn power_cycle(&mut self)
        requires
            old(self)@.wf(),
        ensures
            final(self)@ == power_cycled(old(self)@),
            final(self)@.wf(),
            final(self)@.rom_header == old(self)@.rom_header,
    {
        reveal(CoreState::wf);
        reveal(power_cycled);
        let mut rom: Vec<u8> = Vec::new();
        std::mem::swap(&mut rom, &mut self.board.bus.rom);
        let port1 = self.board.bus.port1;
        let port2 = self.board.bus.port2;
        self.board = Mainboard::power_on(rom, port1, port2);
        self.z80 = Z80::new();
        self.audio.restart(&self.board.bus.ym2612, &self.board.bus.psg);
        self.frame_count = 0;
        self.progress = FrameProgress::Idle;
        let config = self.rewind.config;
        proof {
            lemma_empty_buffer_ok(config);
        }
        self.rewind = RewindBuffer::new(config);
        self.board.load_vectors();
    }

    /// The reset button.
    fn reset(&mut self)
        requires
            old(self)@.wf(),
        ensures
            final(self)@ == (CoreState { board: soft_reset(old(self)@.board), ..old(self)@ }),
            final(self)@.wf(),
    {
        reveal(CoreState::wf);
        self.board.reset();
    }

    /// Executes one CPU instruction.
    fn step_cpu(&mut self)
        requires
            old(self)@.wf(),
        ensures
            final(self)@ == (CoreState {
                board: cpu_stepped(old(self)@.board, old(self)@.frame_count),
                ..old(self)@
            }),
            final(self)@.wf(),
    {
        reveal(CoreState::wf);
        self.board.step_cpu(self.frame_count);
    }

    /// Executes until the end of a scanline.
    fn step_scanline(&mut self)
        requires
            old(self)@.wf(),
        ensures
            final(self)@ == (CoreState {
                board: line_run(
                    old(self)@.board,
                    Clock::Live { frame: old(self)@.frame_count },
                    0,
                ).1,
                ..old(self)@
            }),
            final(self)@.wf(),
    {
        reveal(CoreState::wf);
        let _ = self.board.run_line(Clock::Live { frame: self.frame_count });
    }

    /// Sets the buttons of a port.
    fn set_controller(&mut self, port: u8, buttons: u16)
        requires
            old(self)@.wf(),
        ensures
            final(self)@ == with_port(
                old(self)@,
                port,
                (ControllerPort { buttons, ..port_of(old(self)@, port) }),
            ),
            final(self)@.wf(),
    {
        reveal(CoreState::wf);
        if port == 0 {
            self.board.bus.port1.set_buttons(buttons);
        } else {
            self.board.bus.port2.set_buttons(buttons);
        }
    }

    /// Presses a button.
    fn press_button(&mut self, port: u8, button: Button)
        requires
            old(self)@.wf(),
        ensures
            final(self)@ == with_port(
                old(self)@,
                port,
                (ControllerPort {
                    buttons: with_pressed(port_of(old(self)@, port).buttons, button),
                    ..port_of(old(self)@, port)
                }),
            ),
            final(self)@.wf(),
    {
        reveal(CoreState::wf);
        if port == 0 {
            self.board.bus.port1.press(button);
        } else {
            self.board.bus.port2.press(button);
        }
    }

    /// Releases a button.
    fn release_button(&mut self, port: u8, button: Button)
        requires
            old(self)@.wf(),
        ensures
            final(self)@ == with_port(
                old(self)@,
                port,
                (ControllerPort {
                    buttons: with_released(port_of(old(self)@, port).buttons, button),
                    ..port_of(old(self)@, port)
                }),
            ),
            final(self)@.wf(),
    {
        reveal(CoreState::wf);
        if port == 0 {
            self.board.bus.port1.release(button);
        } else {
            self.board.bus.port2.release(button);
        }
    }

    /// Sets the audio sample rate.
    fn set_audio_sample_rate(&mut self, rate: u32)
        requires
            old(self)@.wf(),
        ensures
            final(self)@ == at_sample_rate(old(self)@, rate),
            final(self)@.wf(),
    {
        reveal(CoreState::wf);
        self.audio.set_sample_rate(rate, &self.board.bus.ym2612, &self.board.bus.psg);
    }

    /// Sets the delays of key writes.
    fn set_key_delays(&mut self, delays: [u64; 6])
        requires
            old(self)@.wf(),
        ensures
            final(self)@ == with_key_delays(old(self)@, delays@),
            final(self)@.wf(),
    {
        reveal(CoreState::wf);
        self.audio.set_key_delays(delays, &self.board.bus.ym2612, &self.board.bus.psg);
    }

    /// Applies a rewind configuration.
    fn set_rewind_config(&mut self, config: RewindConfig)
        requires
            old(self)@.wf(),
        ensures
            final(self)@ == (CoreState {
                rewind: buffer_configured(old(self)@.rewind, config),
                ..old(self)@
            }),
            final(self)@.wf(),
    {
        reveal(CoreState::wf);
        self.rewind.set_config(config);
        proof {
            lemma_configured_ok(old(self)@.rewind, config);
        }
    }

    /// Rewinds by `frames`: restores the older state and drops the history after
    /// it, so that stepping records over it.
    fn rewind_frames(&mut self, frames: u32)
        requires
            old(self)@.wf(),
        ensures
            final(self)@ == rewound(old(self)@, frames),
            final(self)@.wf(),
    {
        reveal(CoreState::wf);
        reveal(rewound);
        let target: u64 = if self.frame_count >= frames as u64 {
            self.frame_count - frames as u64
        } else {
            0
        };
        match self.rewind.reconstruct(target) {
            Some(snap) => {
                proof {
                    lemma_restorable(self.rewind@, target);
                }
                self.restore(&snap);
                self.truncate_history(target);
            },
            None => {},
        }
    }

    /// Drops the rewind history after a frame.
    fn truncate_history(&mut self, target: u64)
        requires
            old(self)@.wf(),
        ensures
            final(self)@ == history_truncated(old(self)@, target),
            final(self)@.wf(),
    {
        reveal(CoreState::wf);
        proof {
            lemma_truncated_ok(self.rewind@, target);
        }
        self.rewind.truncate_after(target);
    }

    /// Captures a complete snapshot of the deterministic emulation state.
    #[must_use]
    pub fn snapshot(&self) -> (r: GenesisCoreSnapshot)
        ensures
            r@ == snapshot_of(self@),
            self@.wf() ==> restorable(r@),
    {
        reveal(CoreState::wf);
        GenesisCoreSnapshot {
            cpu: self.board.cpu.snapshot(),
            vdp: self.board.bus.vdp.snapshot(),
            scheduler: self.board.scheduler.snapshot(),
            z80: self.z80.snapshot(),
            work_ram: vstd::slice::slice_to_vec(self.board.bus.work_ram.as_slice()),
            z80_ram: vstd::slice::slice_to_vec(self.board.bus.z80_ram.as_slice()),
            z80_bank: self.board.bus.z80_bank,
            z80_bus_requested: self.board.bus.z80_bus_requested,
            z80_reset: self.board.bus.z80_reset,
            z80_reset_pending: self.board.bus.z80_reset_pending,
            z80_bus_released_this_scanline: self.board.bus.z80_bus_released_this_scanline,
            psg: self.board.bus.psg,
            ym2612: self.board.bus.ym2612.clone(),
            port1: self.board.bus.port1,
            port2: self.board.bus.port2,
            frame_count: self.frame_count,
            speed_permille: self.speed_permille,
            paused: self.paused,
            region: self.region,
            overseas: self.overseas,
            region_override: self.region_override,
            sram: self.sram.clone(),
            mapper: self.mapper,
        }
    }

    /// Restores the deterministic emulation state from a snapshot.
    ///
    /// ROM and header are left untouched. Rendering derives the framebuffer
    /// again. The audio timeline starts over.
    pub fn restore(&mut self, snap: &GenesisCoreSnapshot)
        requires
            old(self)@.wf(),
            snap@.wf(),
        ensures
            final(self)@ == restored(old(self)@, snap@),
            final(self)@.wf(),
            final(self)@.rewind == old(self)@.rewind,
    {
        reveal(CoreState::wf);
        reveal(restored);
        self.board.cpu.restore(&snap.cpu);
        self.board.bus.restore(snap);
        self.board.scheduler.restore(&snap.scheduler);
        self.z80.restore(&snap.z80);
        self.audio.restart(&self.board.bus.ym2612, &self.board.bus.psg);
        self.frame_count = snap.frame_count;
        self.speed_permille = snap.speed_permille;
        self.paused = snap.paused;
        self.region = snap.region;
        self.overseas = snap.overseas;
        self.region_override = snap.region_override;
        self.sram = snap.sram.clone();
        self.mapper = snap.mapper;
        self.progress = FrameProgress::Idle;
    }

    /// Executes one full frame, or as much of it as goes without the Z80.
    fn step_frame(&mut self)
        requires
            old(self)@.wf(),
            !old(self)@.paused && old(self)@.progress is Idle ==> old(self)@.frame_fits(),
        ensures
            final(self)@ == frame_stepped(old(self)@),
            final(self)@.wf(),
    {
        let idle = match self.progress {
            FrameProgress::Idle => true,
            _ => false,
        };
        if self.paused || !idle {
            return;
        }
        self.open_frame();
        self.run_frame(0);
    }

    /// Opens a frame.
    fn open_frame(&mut self)
        requires
            old(self)@.wf(),
            old(self)@.progress is Idle,
            old(self)@.frame_fits(),
        ensures
            final(self)@ == frame_opened(old(self)@),
            final(self)@.wf(),
            final(self)@.progress is Idle,
            final(self)@.frame_fits(),
    {
        reveal(CoreState::wf);
        self.audio.clear_events();
        self.board.set_vblank(false);
        self.z80.int_line = false;
    }

    /// Restarts the Z80 where its reset line has been released.
    fn restart_z80(&mut self)
        requires
            old(self)@.board.wf(),
        ensures
            final(self)@ == z80_restarted(old(self)@),
            final(self)@.board.wf(),
    {
        reveal(CoreState::wf);
        if self.board.bus.z80_reset_pending {
            self.z80.reset();
            self.board.bus.z80_reset_pending = false;
        }
    }

    /// Runs the 68000's part of a scanline.
    fn enter_line(&mut self, line: u16)
        requires
            old(self)@.wf(),
            old(self)@.progress is Idle,
            line < 262,
            room_from(old(self)@, line),
        ensures
            final(self)@ == line_entered(old(self)@, line),
            final(self)@.wf(),
            final(self)@.progress is Z80,
            final(self)@.progress->line == line,
    {
        reveal(CoreState::wf);
        reveal(line_entered);
        let start: u64 = self.audio.master_tick;
        let ym_from: usize = self.board.bus.ym2612_timed_write_trace.len();
        let psg_from: usize = self.board.bus.psg_timed_write_trace.len();
        self.board.begin_line(line);
        let consumed: u64 = self.board.run_line(
            Clock::Line { frame: self.frame_count, line, start },
        );
        self.board.stamp(Stamp { frame: self.frame_count, scanline: line, master_tick: start });
        self.restart_z80();
        let request = if self.z80.reset_due {
            Z80Request::Reset
        } else {
            Z80Request::Interrupt
        };
        self.progress =
        FrameProgress::Z80 { line, start, consumed, ym_from, psg_from, spent: 0, request };
    }

    /// Whether the Z80 runs in this scanline.
    fn z80_is_granted(&self) -> (r: bool)
        ensures
            r == z80_granted(self@),
    {
        !self.board.bus.z80_reset && (!self.board.bus.z80_bus_requested
            || self.board.bus.z80_bus_released_this_scanline)
    }

    /// Synthesizes the audio of a scanline.
    fn sound_line(&mut self, ym_from: usize, psg_from: usize)
        requires
            old(self)@.audio.wf(),
            not_ahead(old(self)@.audio),
            old(self)@.audio.master_tick + 3420 <= MAX_AUDIO_TICK,
        ensures
            final(self)@ == line_sounded(old(self)@, ym_from, psg_from),
            final(self)@.audio.wf(),
            not_ahead(final(self)@.audio),
            final(self)@.audio.master_tick == old(self)@.audio.master_tick + 3420,
    {
        reveal(CoreState::wf);
        let ym_writes = traced_ym(&self.board.bus.ym2612_timed_write_trace, ym_from);
        let psg_writes = traced_psg(&self.board.bus.psg_timed_write_trace, psg_from);
        let end: u64 = self.audio.master_tick + MASTER_TICKS_PER_SCANLINE;
        self.audio.synthesize_audio_interval(ym_writes.as_slice(), psg_writes.as_slice(), end);
    }

    /// Finishes a scanline: interrupts, picture, sound.
    fn leave_line(&mut self)
        requires
            old(self)@.wf(),
            old(self)@.progress is Z80,
        ensures
            final(self)@ == line_left(old(self)@),
            final(self)@.wf(),
            final(self)@.progress is Idle,
            room_from(final(self)@, (old(self)@.progress->line + 1) as u16),
    {
        reveal(CoreState::wf);
        reveal(line_left);
        match self.progress {
            FrameProgress::Z80 { line, start, consumed, ym_from, psg_from, spent, request } => {
                let stamp = Stamp {
                    frame: self.frame_count,
                    scanline: line,
                    master_tick: start + consumed * 7,
                };
                self.board.show_line(stamp);
                if line == 224 {
                    self.z80.int_line = true;
                }
                self.progress = FrameProgress::Idle;
                self.sound_line(ym_from, psg_from);
            },
            FrameProgress::Idle => {},
        }
    }

    /// Closes a frame: counts it and records it for rewinding.
    fn close_frame(&mut self)
        requires
            old(self)@.wf(),
            old(self)@.progress is Idle,
            old(self)@.frame_count < u64::MAX,
        ensures
            final(self)@ == frame_closed(old(self)@),
            final(self)@.wf(),
            final(self)@.progress is Idle,
    {
        reveal(CoreState::wf);
        reveal(frame_closed);
        self.board.count_frame();
        self.frame_count = self.frame_count + 1;
        if self.rewind.config.enabled {
            let snapshot = self.snapshot();
            let input = FrameInput {
                port1_buttons: self.board.bus.port1.buttons(),
                port2_buttons: self.board.bus.port2.buttons(),
            };
            proof {
                lemma_rewind_ok(self.rewind@);
            }
            let ghost before = self.rewind@;
            let ghost recorded_state = snapshot@;
            self.rewind.record(self.frame_count, snapshot, input);
            proof {
                lemma_record_ok(before, recorded_state, input);
            }
        }
    }

    /// Runs the rest of a frame from a line on.
    fn run_frame(&mut self, from: u16)
        requires
            old(self)@.wf(),
            old(self)@.progress is Idle,
            from <= 262,
            room_from(old(self)@, from),
        ensures
            final(self)@ == frame_run(old(self)@, from),
            final(self)@.wf(),
    {
        let mut line: u16 = from;
        let mut waiting = false;
        while !waiting && line < 262
            invariant
                self@.wf(),
                line <= 262,
                waiting ==> self@ == frame_run(old(self)@, from),
                !waiting ==> self@.progress is Idle && room_from(self@, line) && frame_run(
                    self@,
                    line,
                ) == frame_run(old(self)@, from),
            decreases
                    if waiting {
                        0
                    } else {
                        263 - line
                    },
        {
            self.enter_line(line);
            if self.z80_is_granted() {
                waiting = true;
            } else {
                self.leave_line();
                line = line + 1;
            }
        }
        if !waiting {
            self.close_frame();
        }
    }

    /// What the Z80 is asked for, while a frame waits for it.
    #[must_use]
    pub fn z80_request(&self) -> (r: Option<Z80Request>)
        ensures
            r == match self@.progress {
                FrameProgress::Z80 { request, .. } => Some(request),
                FrameProgress::Idle => None,
            },
    {
        match self.progress {
            FrameProgress::Z80 { line, start, consumed, ym_from, psg_from, spent, request } => {
                Some(request)
            },
            FrameProgress::Idle => None,
        }
    }

    /// Takes the Z80's report and carries on with the frame.
    pub fn z80_report(&mut self, report: Z80Report)
        requires
            old(self)@.wf(),
        ensures
            final(self)@ == z80_answered(old(self)@, report),
            final(self)@.wf(),
    {
        match self.progress {
            FrameProgress::Z80 { line, start, consumed, ym_from, psg_from, spent, request } => {
                proof {
                    lemma_progress_ok(self@);
                }
                self.note_report(request, report);
                match next_turn(spent, request, report) {
                    Z80Turn::Ask { spent: now, request: next } => {
                        self.ask_z80(now, next);
                    },
                    Z80Turn::Over { idle } => {
                        self.end_z80_part(line, idle);
                    },
                }
            },
            FrameProgress::Idle => {},
        }
    }

    /// Notes what the Z80 reports.
    fn note_report(&mut self, request: Z80Request, report: Z80Report)
        requires
            old(self)@.wf(),
        ensures
            final(self)@ == report_noted(old(self)@, request, report),
            final(self)@.wf(),
    {
        reveal(CoreState::wf);
        let mut cycles: u64 = self.z80.cycles.wrapping_add(report.cycles as u64);
        let mut reset_due: bool = self.z80.reset_due;
        match request {
            Z80Request::Reset => {
                cycles = self.z80.cycles;
                reset_due = false;
            },
            _ => {},
        }
        self.z80 =
        Z80 {
            pc: report.pc,
            halted: report.halted,
            int_line: report.int_line,
            reset_due,
            registers: report.registers,
            cycles,
        };
    }

    /// Lets the Z80 sleep through cycles.
    fn idle_z80(&mut self, idle: u64)
        requires
            old(self)@.wf(),
        ensures
            final(self)@ == with_z80(old(self)@, z80_idled(old(self)@.z80, idle)),
            final(self)@.wf(),
    {
        reveal(CoreState::wf);
        self.z80.cycles = self.z80.cycles.wrapping_add(idle);
    }

    /// Ends the Z80's part of a scanline and carries on with the frame.
    fn end_z80_part(&mut self, line: u16, idle: u64)
        requires
            old(self)@.wf(),
            old(self)@.progress is Z80,
            old(self)@.progress->line == line,
        ensures
            final(self)@ == z80_done(old(self)@, line, idle),
            final(self)@.wf(),
    {
        reveal(z80_done);
        proof {
            lemma_progress_ok(self@);
        }
        self.idle_z80(idle);
        self.leave_line();
        self.run_frame(line + 1);
    }

    /// Asks the Z80 for the next thing in its part of the scanline.
    fn ask_z80(&mut self, now: u64, next: Z80Request)
        requires
            old(self)@.wf(),
            old(self)@.progress is Z80,
            now < 228,
        ensures
            final(self)@ == z80_asked(old(self)@, now, next),
            final(self)@.wf(),
    {
        reveal(CoreState::wf);
        match self.progress {
            FrameProgress::Z80 { line, start, consumed, ym_from, psg_from, spent, request } => {
                self.board.stamp(
                    Stamp {
                        frame: self.frame_count,
                        scanline: line,
                        master_tick: start + now * 15,
                    },
                );
                self.progress =
                FrameProgress::Z80 {
                    line,
                    start,
                    consumed,
                    ym_from,
                    psg_from,
                    spent: now,
                    request: next,
                };
            },
            FrameProgress::Idle => {},
        }
    }

    /// Reads a byte for the Z80.
    #[must_use]
    pub fn z80_read(&self, addr: u16) -> (r: u8)
        ensures
            r == z80_byte_at(self@.board.bus, addr),
    {
        self.board.bus.z80_read_byte(addr)
    }

    /// Writes a byte for the Z80.
    pub fn z80_write(&mut self, addr: u16, val: u8)
        requires
            old(self)@.wf(),
        ensures
            final(self)@ == (CoreState {
                board: BoardState {
                    bus: z80_byte_written(old(self)@.board.bus, addr, val),
                    ..old(self)@.board
                },
                ..old(self)@
            }),
            final(self)@.wf(),
    {
        reveal(CoreState::wf);
        self.board.bus.z80_write_byte(addr, val);
    }
}

/// The turn that a report brings.
fn next_turn(spent: u64, request: Z80Request, r: Z80Report) -> (t: Z80Turn)
    requires
        spent < 228,
    ensures
        t == z80_turn(spent, request, r),
        t matches Z80Turn::Ask { spent: now, request: next } ==> now < 228,
{
    let total: u64 = spent + r.cycles as u64;
    match request {
        Z80Request::Reset => {
            return Z80Turn::Ask { spent, request: Z80Request::Interrupt };
        },
        Z80Request::Interrupt => {
            if r.cycles == 0 {
                return if r.halted {
                    Z80Turn::Over { idle: 228 - spent }
                } else {
                    Z80Turn::Ask { spent, request: Z80Request::Instruction }
                };
            }
        },
        Z80Request::Instruction => {},
    }
    if total >= 228 {
        Z80Turn::Over { idle: 0 }
    } else {
        Z80Turn::Ask { spent: total, request: Z80Request::Interrupt }
    }
}

impl Default for GenesisCore {
    fn default() -> (r: Self)
        ensures
            r@ == fresh_core(),
            r@.wf(),
    {
        reveal(CoreState::wf);
        GenesisCore::new()
    }
}

} // verus!
