//! Reading the state of the core.
use vstd::prelude::*;

use crate::api::audio::{events_of, AudioEvent, AudioState};
use crate::api::board::{code_byte, code_long, code_word, BoardState};
use crate::api::bus::{host_byte_written, host_word_written, BusState};
use crate::api::console::{CoreState, GenesisCore};
use crate::api::state::{TimedPsgWrite, TimedYm2612Write};
use crate::bus::region_of;
use crate::cpu::interrupt_level;
use crate::rewind::frame::saturated;
use crate::rewind::timeline::{newest_of, oldest_of, timeline_bytes};
use crate::rewind::{slots_available, RewindStatus};
use crate::rom::RomHeader;
use crate::vdp::VdpSnapshot;
use crate::ym2612::{shows_channel, Ym2612Diag};
use crate::z80::{z80_snapshot_of, Z80Snapshot};

verus! {

/// The core with another bus.
pub open spec fn with_bus(c: CoreState, bus: BusState) -> CoreState {
    CoreState { board: BoardState { bus, ..c.board }, ..c }
}

impl GenesisCore {
    /// Returns a reference to the RGBA framebuffer.
    #[must_use]
    pub fn framebuffer_rgba(&self) -> (r: &[u8])
        requires
            self@.wf(),
        ensures
            r@ == self@.board.bus.vdp.framebuffer.subrange(
                0,
                self@.board.bus.vdp.frame_width * 224 * 4,
            ),
    {
        reveal(CoreState::wf);
        self.board.bus.vdp.framebuffer()
    }

    /// Returns the frame counter.
    #[must_use]
    pub fn frame_count(&self) -> (r: u64)
        ensures
            r == self@.frame_count,
    {
        self.frame_count
    }

    /// Returns the current NTSC master-clock tick count.
    #[must_use]
    pub fn master_ticks(&self) -> (r: u64)
        ensures
            r == self@.board.scheduler.master_ticks,
    {
        self.board.scheduler.master_ticks()
    }

    /// Returns the tick that audio has been synthesized through.
    #[must_use]
    pub fn audio_master_ticks(&self) -> (r: u64)
        ensures
            r == self@.audio.master_tick,
    {
        self.audio.master_tick
    }

    /// Returns the total number of output samples emitted on the audio timeline.
    #[must_use]
    pub fn audio_output_sample_count(&self) -> (r: u64)
        ensures
            r == self@.audio.output_sample_count,
    {
        self.audio.output_sample_count
    }

    /// Returns what has happened on the audio timeline since it was cleared.
    #[must_use]
    pub fn audio_events(&self) -> (r: &[AudioEvent])
        ensures
            events_of(r@) == self@.audio.events,
    {
        self.audio.events.as_slice()
    }

    /// Forgets what has happened on the audio timeline.
    pub fn clear_audio_buffer(&mut self)
        requires
            old(self)@.wf(),
        ensures
            final(self)@ == (CoreState {
                audio: AudioState { events: Seq::empty(), ..old(self)@.audio },
                ..old(self)@
            }),
            final(self)@.wf(),
    {
        reveal(CoreState::wf);
        self.audio.clear_events();
    }

    /// Returns the parsed ROM header, if a ROM is loaded.
    #[must_use]
    pub fn rom_header(&self) -> (r: Option<&RomHeader>)
        ensures
            match r {
                Some(h) => self@.rom_header == Some(*h),
                None => self@.rom_header is None,
            },
    {
        match &self.rom_header {
            Some(h) => Some(h),
            None => None,
        }
    }

    /// Returns whether emulation is paused.
    #[must_use]
    pub fn paused(&self) -> (r: bool)
        ensures
            r == self@.paused,
    {
        self.paused
    }

    /// Returns the CPU program counter (debug).
    #[must_use]
    pub fn cpu_pc(&self) -> (r: u32)
        ensures
            r == self@.board.cpu.pc,
    {
        self.board.cpu.pc
    }

    /// Returns the CPU supervisor stack pointer (debug).
    #[must_use]
    pub fn cpu_ssp(&self) -> (r: u32)
        ensures
            r == self@.board.cpu.ssp,
    {
        self.board.cpu.ssp
    }

    /// Returns true if the 68K CPU is stopped (STOP instruction).
    #[must_use]
    pub fn cpu_stopped(&self) -> (r: bool)
        ensures
            r == self@.board.cpu.stopped,
    {
        self.board.cpu.stopped
    }

    /// Returns true if the 68K CPU is halted (double bus fault).
    #[must_use]
    pub fn cpu_halted(&self) -> (r: bool)
        ensures
            r == self@.board.cpu.halted,
    {
        self.board.cpu.halted
    }

    /// Returns the 68K status register value (debug).
    #[must_use]
    pub fn cpu_sr(&self) -> (r: u16)
        ensures
            r == self@.board.cpu.sr,
    {
        self.board.cpu.sr.0
    }

    /// Returns the 68K interrupt priority mask (0-7).
    #[must_use]
    pub fn cpu_interrupt_mask(&self) -> (r: u8)
        ensures
            r == interrupt_level(self@.board.cpu.sr),
    {
        self.board.cpu.sr.interrupt_mask()
    }

    /// Returns a VDP register value (debug); 0 beyond the last register.
    #[must_use]
    pub fn vdp_register(&self, reg: u8) -> (r: u8)
        ensures
            r == if reg < 24 {
                self@.board.bus.vdp.core.registers[reg as int]
            } else {
                0
            },
    {
        self.board.bus.vdp.read_register(reg as usize)
    }

    /// Returns the Z80 program counter (debug).
    #[must_use]
    pub fn z80_pc(&self) -> (r: u16)
        ensures
            r == self@.z80.pc,
    {
        self.z80.pc
    }

    /// Returns the Z80 cycles elapsed (debug).
    #[must_use]
    pub fn z80_cycles(&self) -> (r: u64)
        ensures
            r == self@.z80.cycles,
    {
        self.z80.cycles
    }

    /// Returns true if the 68K has requested the Z80 bus.
    #[must_use]
    pub fn z80_bus_requested(&self) -> (r: bool)
        ensures
            r == self@.board.bus.z80_bus_requested,
    {
        self.board.bus.z80_bus_requested
    }

    /// Returns true if the Z80 is held in reset.
    #[must_use]
    pub fn z80_in_reset(&self) -> (r: bool)
        ensures
            r == self@.board.bus.z80_reset,
    {
        self.board.bus.z80_reset
    }

    /// Returns a YM2612 diagnostic snapshot for debugging.
    #[must_use]
    pub fn ym2612_diagnostic(&self) -> (r: Ym2612Diag)
        ensures
            forall|i: int|
                0 <= i < 6 ==> shows_channel(
                    #[trigger] r.channels@[i],
                    self@.board.bus.ym2612.channels[i],
                ),
            r.dac_enabled == self@.board.bus.ym2612.dac_enabled,
            r.lfo_enabled == self@.board.bus.ym2612.lfo_enabled,
            r.lfo_frequency == self@.board.bus.ym2612.lfo_frequency,
            r.timer_control == self@.board.bus.ym2612.timer_control,
    {
        self.board.bus.ym2612.diagnostic()
    }

    /// Returns the total number of YM2612 register writes.
    pub fn ym2612_write_count(&self) -> (r: u32)
        ensures
            r == self@.board.bus.ym2612.write_count,
    {
        self.board.bus.ym2612.write_count()
    }

    /// Returns the first captured YM2612 register writes.
    pub fn ym2612_write_trace(&self) -> (r: &[(u8, u8, u8)])
        ensures
            r@ == self@.board.bus.ym2612.write_trace,
    {
        self.board.bus.ym2612.write_trace()
    }

    /// Returns timed YM2612 writes captured from the live bus.
    pub fn ym2612_timed_write_trace(&self) -> (r: &[TimedYm2612Write])
        ensures
            r@ == self@.board.bus.ym2612_timed_write_trace,
    {
        self.board.bus.ym2612_timed_write_trace.as_slice()
    }

    /// Clears the timed YM2612 write trace.
    pub fn clear_ym2612_timed_write_trace(&mut self)
        requires
            old(self)@.wf(),
        ensures
            final(self)@ == with_bus(
                old(self)@,
                (BusState {
                    ym2612_timed_write_trace: Seq::empty(),
                    ..old(self)@.board.bus
                }),
            ),
            final(self)@.wf(),
    {
        reveal(CoreState::wf);
        self.board.bus.ym2612_timed_write_trace = Vec::new();
    }

    /// Returns timed PSG writes captured from the live bus.
    pub fn psg_timed_write_trace(&self) -> (r: &[TimedPsgWrite])
        ensures
            r@ == self@.board.bus.psg_timed_write_trace,
    {
        self.board.bus.psg_timed_write_trace.as_slice()
    }

    /// Clears the timed PSG write trace.
    pub fn clear_psg_timed_write_trace(&mut self)
        requires
            old(self)@.wf(),
        ensures
            final(self)@ == with_bus(
                old(self)@,
                (BusState { psg_timed_write_trace: Seq::empty(), ..old(self)@.board.bus }),
            ),
            final(self)@.wf(),
    {
        reveal(CoreState::wf);
        self.board.bus.psg_timed_write_trace = Vec::new();
    }

    /// Returns a VDP snapshot for debugging.
    #[must_use]
    pub fn vdp_snapshot(&self) -> (r: VdpSnapshot)
        ensures
            r@ == self@.board.bus.vdp.core,
    {
        self.board.bus.vdp.snapshot()
    }

    /// Returns a Z80 snapshot for save states and debugging.
    #[must_use]
    pub fn z80_snapshot(&self) -> (r: Z80Snapshot)
        ensures
            r == z80_snapshot_of(self@.z80),
    {
        self.z80.snapshot()
    }

    /// Returns the current rewind buffer status.
    #[must_use]
    pub fn rewind_status(&self) -> (r: RewindStatus)
        ensures
            r == (RewindStatus {
                enabled: self@.rewind.config.enabled,
                frames_available: slots_available(self@.rewind.timeline),
                memory_used_bytes: saturated(timeline_bytes(self@.rewind.timeline)),
                oldest_frame: oldest_of(self@.rewind.timeline),
                newest_frame: newest_of(
                    self@.rewind.timeline.keyframes,
                    self@.rewind.timeline.deltas,
                ),
            }),
    {
        self.rewind.status()
    }

    /// Returns the number of frames currently available to rewind through.
    #[must_use]
    pub fn rewind_frames_available(&self) -> (r: u64)
        ensures
            r == slots_available(self@.rewind.timeline),
    {
        self.rewind.frames_available()
    }

    /// Returns the estimated memory (bytes) used by the rewind timeline.
    #[must_use]
    pub fn rewind_memory_used(&self) -> (r: usize)
        ensures
            r == saturated(timeline_bytes(self@.rewind.timeline)),
    {
        self.rewind.memory_used()
    }

    /// Returns the Z80 RAM (8KB) for debugging.
    #[must_use]
    pub fn z80_ram(&self) -> (r: &[u8])
        ensures
            r@ == self@.board.bus.z80_ram,
    {
        self.board.bus.z80_ram.as_slice()
    }

    /// Returns the Z80 bank register value (bits 15-23 of the banked ROM offset).
    pub fn z80_bank(&self) -> (r: u32)
        ensures
            r == self@.board.bus.z80_bank,
    {
        self.board.bus.z80_bank
    }

    /// Reads a byte from the ROM at an absolute offset (for debugging); 0xFF
    /// beyond its end.
    pub fn rom_byte(&self, offset: usize) -> (r: u8)
        ensures
            r == if offset < self@.board.bus.rom.len() {
                self@.board.bus.rom[offset as int]
            } else {
                0xFF
            },
    {
        if offset < self.board.bus.rom.len() {
            self.board.bus.rom[offset]
        } else {
            0xFF
        }
    }

    /// Returns 68K writes to the Z80 sound command byte: frame and value.
    pub fn z80_cmd_trace(&self) -> (r: &[(u64, u8)])
        ensures
            r@ == self@.board.bus.z80_cmd_trace,
    {
        self.board.bus.z80_cmd_trace.as_slice()
    }

    /// Returns the number of bytes that the 68K wrote to the Z80 driver area, and
    /// the last frame in which it did.
    pub fn z80_driver_write_info(&self) -> (r: (u32, u64))
        ensures
            r == (
                self@.board.bus.z80_driver_write_count,
                self@.board.bus.z80_driver_last_write_frame,
            ),
    {
        (self.board.bus.z80_driver_write_count, self.board.bus.z80_driver_last_write_frame)
    }

    /// Reads a byte as the instruction stream sees it. Every control register, and
    /// the whole Z80 area, reads 0.
    #[must_use]
    pub fn read_byte(&self, addr: u32) -> (r: u8)
        ensures
            r == code_byte(self@.board.bus, addr),
            region_of(addr) is ControlRegisters || region_of(addr) is Z80Area ==> r == 0,
    {
        self.board.bus.code_byte(addr)
    }

    /// Reads a big-endian word as the instruction stream sees it.
    #[must_use]
    pub fn read_word(&self, addr: u32) -> (r: u16)
        ensures
            r == code_word(self@.board.bus, addr),
    {
        self.board.bus.code_word(addr)
    }

    /// Reads a big-endian long word as the instruction stream sees it.
    #[must_use]
    pub fn read_long(&self, addr: u32) -> (r: u32)
        ensures
            r == code_long(self@.board.bus, addr),
    {
        self.board.bus.code_long(addr)
    }

    /// Writes a byte for the host: to work RAM or an I/O register.
    pub fn write_byte_bus(&mut self, addr: u32, val: u8)
        requires
            old(self)@.wf(),
        ensures
            final(self)@ == with_bus(
                old(self)@,
                host_byte_written(old(self)@.board.bus, addr, val),
            ),
            final(self)@.wf(),
    {
        reveal(CoreState::wf);
        self.board.bus.host_write_byte(addr, val);
    }

    /// Writes a big-endian word for the host: to work RAM, an I/O register or the
    /// VDP data and control ports.
    pub fn write_word_bus(&mut self, addr: u32, val: u16)
        requires
            old(self)@.wf(),
        ensures
            final(self)@ == with_bus(
                old(self)@,
                host_word_written(old(self)@.board.bus, addr, val),
            ),
            final(self)@.wf(),
    {
        reveal(CoreState::wf);
        self.board.bus.host_write_word(addr, val);
    }
}

} // verus!
