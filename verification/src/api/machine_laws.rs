//! What interrupts and DMA do to the machine as a program sees it.
use vstd::prelude::*;

use crate::api::board::{
    dma_run, dma_words, elapsed, interrupt_elapsed, interrupt_run, source_word, stamped,
    vint_ready, BoardState,
};
use crate::api::bus::{word_at, word_read, word_written, BusState, CoreBus, Stamp};
use crate::api::frame::{hint_served, line_shown, vblank_entered, vint_latched, with_vdp};
use crate::api::laws::law_rom_is_read_only;
use crate::bus::region_of;
use crate::cpu::exception::interrupt_accepted;
use crate::cpu::operand::{bus_addr, read_long_sem};
use crate::cpu::{has_flag, interrupt_level, with_flag, with_interrupt_level, StatusRegister};
use crate::vdp::laws::law_dma_copies_source;
use crate::vdp::render::scanline_rendered;
use crate::vdp::{dma_length, dma_source, AccessType, VdpCore};

verus! {

// ── Interrupts ───────────────────────────────────────────────────────────

/// The big-endian long at an offset of the ROM.
pub open spec fn rom_long(rom: Seq<u8>, at: int) -> int {
    rom[at] * 0x100_0000 + rom[at + 1] * 0x1_0000 + rom[at + 2] * 0x100 + rom[at + 3]
}

/// A long of the ROM as the CPU reads it.
proof fn lemma_rom_vector(b: BusState, at: u32)
    requires
        at < 0x1000,
        at + 4 <= b.rom.len(),
    ensures
        read_long_sem::<CoreBus>(b, at).0 == rom_long(b.rom, at as int),
        read_long_sem::<CoreBus>(b, at).1 == b,
{
    reveal(word_at);
    reveal(word_read);
    assert(bus_addr(at) == at);
    assert(bus_addr(at.wrapping_add(2)) == at + 2);
}

/// The status word on entry to an interrupt.
proof fn lemma_entered_status(sr: u16, level: u8)
    requires
        level <= 7,
    ensures
        ({
            let e = with_flag(
                with_interrupt_level(with_flag(sr, StatusRegister::S, true), level),
                StatusRegister::T,
                false,
            );
            &&& interrupt_level(e) == level
            &&& has_flag(e, StatusRegister::S)
            &&& !has_flag(e, StatusRegister::T)
            &&& e % 0x100 == sr % 0x100
        }),
{
    assert({
        let e = ((((sr | 0x2000u16) & !0x0700u16) | (((level & 7) as u16) << 8)) & !0x8000u16);
        &&& (e & 0x0700) >> 8 == level
        &&& e & 0x2000 != 0
        &&& e & 0x8000 == 0
        &&& e % 0x100 == sr % 0x100
    }) by (bit_vector)
        requires
            level <= 7,
    ;
}

/// An interrupt above the mask enters supervisor mode at its level and continues
/// at the address in its vector, `0x60 + 4 * level` in the ROM. The return address
/// and the status go below the supervisor stack pointer; the other registers and
/// the condition codes stay, and a stopped CPU wakes. One at or below the mask
/// changes nothing.
pub proof fn law_interrupt_enters_handler(s: BoardState, level: u8)
    requires
        1 <= level <= 6,
        s.bus.rom.len() >= 0x80,
    ensures
        ({
            let (n, t) = interrupt_run(s, level);
            if interrupt_level(s.cpu.sr) < level {
                &&& n == 44
                &&& t.cpu.pc == rom_long(s.bus.rom, 0x60 + 4 * level)
                &&& interrupt_level(t.cpu.sr) == level
                &&& has_flag(t.cpu.sr, StatusRegister::S)
                &&& !has_flag(t.cpu.sr, StatusRegister::T)
                &&& t.cpu.sr % 0x100 == s.cpu.sr % 0x100
                &&& t.cpu.d == s.cpu.d
                &&& t.cpu.a == s.cpu.a
                &&& t.cpu.usp == s.cpu.usp
                &&& t.cpu.ssp == s.cpu.ssp.wrapping_sub(6)
                &&& !t.cpu.stopped
                &&& t.cpu.halted == s.cpu.halted
                &&& t.cpu.cycles == s.cpu.cycles
                &&& t.bus == word_written(
                    word_written(
                        word_written(
                            s.bus,
                            s.cpu.ssp.wrapping_sub(4) % 0x100_0000,
                            (s.cpu.pc / 0x1_0000) as u16,
                        ),
                        s.cpu.ssp.wrapping_sub(2) % 0x100_0000,
                        (s.cpu.pc % 0x1_0000) as u16,
                    ),
                    s.cpu.ssp.wrapping_sub(6) % 0x100_0000,
                    s.cpu.sr,
                )
                &&& t.scheduler == s.scheduler
            } else {
                n == 0 && t == s
            }
        }),
{
    reveal(interrupt_run);
    if interrupt_accepted(s.cpu.sr, level) {
        let sr = s.cpu.sr;
        let sp = s.cpu.ssp;
        lemma_entered_status(sr, level);
        let a4 = bus_addr(sp.wrapping_sub(4));
        assert(bus_addr(a4) == a4);
        assert(bus_addr(a4.wrapping_add(2)) == bus_addr(sp.wrapping_sub(2)));
        assert(sp.wrapping_sub(4).wrapping_sub(2) == sp.wrapping_sub(6));
        let hi = (s.cpu.pc / 0x1_0000) as u16;
        let lo = (s.cpu.pc % 0x1_0000) as u16;
        let m1 = word_written(s.bus, a4, hi);
        let m2 = word_written(m1, bus_addr(sp.wrapping_sub(2)), lo);
        let m3 = word_written(m2, bus_addr(sp.wrapping_sub(6)), sr);
        law_rom_is_read_only(s.bus, a4, 0, hi);
        law_rom_is_read_only(m1, bus_addr(sp.wrapping_sub(2)), 0, lo);
        law_rom_is_read_only(m2, bus_addr(sp.wrapping_sub(6)), 0, sr);
        lemma_rom_vector(m3, (0x60 + level * 4) as u32);
    }
}

/// On a line where the VDP requests the H-interrupt, a CPU whose mask is below 4
/// continues at the long in 0x70 with mask 4, and one whose mask is 4 or more is
/// left alone. The request is gone either way; without one nothing happens.
pub proof fn law_hint_is_level_4(s: BoardState, stamp: Stamp)
    requires
        s.bus.rom.len() >= 0x80,
    ensures
        ({
            let t = hint_served(s, stamp);
            if !s.bus.vdp.core.h_interrupt_pending {
                t == s
            } else {
                &&& !t.bus.vdp.core.h_interrupt_pending
                &&& interrupt_level(s.cpu.sr) < 4 ==> {
                    &&& t.cpu.pc == rom_long(s.bus.rom, 0x70)
                    &&& interrupt_level(t.cpu.sr) == 4
                    &&& has_flag(t.cpu.sr, StatusRegister::S)
                    &&& t.cpu.d == s.cpu.d
                    &&& t.cpu.a == s.cpu.a
                    &&& t.cpu.ssp == s.cpu.ssp.wrapping_sub(6)
                    &&& t.cpu.cycles == s.cpu.cycles.wrapping_add(44)
                    &&& !t.cpu.stopped
                }
                &&& interrupt_level(s.cpu.sr) >= 4 ==> t.cpu == s.cpu
            }
        }),
{
    let v = s.bus.vdp;
    if v.core.h_interrupt_pending {
        let u = stamped(
            with_vdp(s, v.with_core(VdpCore { h_interrupt_pending: false, ..v.core })),
            stamp,
        );
        reveal(interrupt_elapsed);
        reveal(elapsed);
        law_interrupt_enters_handler(u, 4);
        lemma_interrupt_keeps_request(u, 4);
        let (n, w) = interrupt_run(u, 4);
        let t = hint_served(s, stamp);
        assert(t == elapsed(w, n));
        if interrupt_level(s.cpu.sr) >= 4 {
            assert(t.cpu.cycles == s.cpu.cycles);
            assert(t.cpu =~= s.cpu);
        } else {
            assert(t.cpu.pc == w.cpu.pc);
        }
    }
}

/// An interrupt does not raise an H-interrupt request.
proof fn lemma_interrupt_keeps_request(s: BoardState, level: u8)
    requires
        1 <= level <= 6,
        s.bus.rom.len() >= 0x80,
    ensures
        interrupt_run(s, level).1.bus.vdp.core.h_interrupt_pending
            == s.bus.vdp.core.h_interrupt_pending,
        interrupt_run(s, level).1.bus.vdp.core.in_vblank == s.bus.vdp.core.in_vblank,
{
    law_interrupt_enters_handler(s, level);
    reveal(word_written);
    assert forall|b: BusState, addr: u32, val: u16|
        {
            &&& (#[trigger] word_written(b, addr, val)).vdp.core.h_interrupt_pending
                == b.vdp.core.h_interrupt_pending
            &&& word_written(b, addr, val).vdp.core.in_vblank == b.vdp.core.in_vblank
        } by {
        lemma_write_keeps_beam(b, addr, val);
    }
}

/// A bus write does not move the beam.
proof fn lemma_write_keeps_beam(b: BusState, addr: u32, val: u16)
    ensures
        crate::vdp::laws::same_beam(b.vdp.core, word_written(b, addr, val).vdp.core),
{
    reveal(word_written);
    crate::vdp::laws::law_ports_keep_beam(b.vdp.core, val, Seq::empty());
}

/// At the start of V-blank the flag is set. Where register 1 enables the
/// V-interrupt, a CPU whose mask is below 6 continues at the long in 0x78 with mask
/// 6 and the interrupt is no longer latched; one whose mask is 6 or more goes on
/// and finds it latched. So does one whose bus is held by a DMA.
pub proof fn law_vint_is_level_6(s: BoardState, stamp: Stamp)
    requires
        s.bus.rom.len() >= 0x80,
    ensures
        ({
            let t = vblank_entered(s, stamp);
            let enabled = (s.bus.vdp.core.registers[1] / 0x20) % 2 == 1;
            let latched = enabled || s.bus.vdp.core.vint_pending;
            let free = s.bus.vdp.core.dma_busy_cpu_cycles == 0;
            &&& t.bus.vdp.core.in_vblank
            &&& latched && free && interrupt_level(s.cpu.sr) < 6 ==> {
                &&& t.cpu.pc == rom_long(s.bus.rom, 0x78)
                &&& interrupt_level(t.cpu.sr) == 6
                &&& has_flag(t.cpu.sr, StatusRegister::S)
                &&& t.cpu.d == s.cpu.d
                &&& t.cpu.a == s.cpu.a
                &&& t.cpu.ssp == s.cpu.ssp.wrapping_sub(6)
                &&& !t.cpu.stopped
                &&& !t.bus.vdp.core.vint_pending
            }
            &&& !latched || !free || interrupt_level(s.cpu.sr) >= 6 ==> {
                &&& t.cpu == s.cpu
                &&& t.bus.vdp.core.vint_pending == latched
            }
        }),
{
    let v = s.bus.vdp;
    let t = with_vdp(s, vint_latched(v.with_core(VdpCore { in_vblank: true, ..v.core })));
    if t.bus.vdp.core.dma_busy_cpu_cycles == 0 && vint_ready(t) {
        let u = stamped(t, stamp);
        reveal(elapsed);
        law_interrupt_enters_handler(u, 6);
        lemma_interrupt_keeps_request(u, 6);
    }
}

/// The picture of a scanline leaves the CPU alone: between the two interrupts
/// only the VDP works.
pub proof fn law_shown_line_interrupts(s: BoardState, stamp: Stamp)
    ensures
        stamp.scanline != 224 ==> line_shown(s, stamp).cpu == hint_served(s, stamp).cpu,
        stamp.scanline == 224 ==> line_shown(s, stamp) == vblank_entered(
            hint_served(s, stamp),
            stamp,
        ),
        stamp.scanline < 224 ==> line_shown(s, stamp).bus.vdp == scanline_rendered(
            hint_served(s, stamp).bus.vdp,
            stamp.scanline,
        ),
        stamp.scanline > 224 ==> line_shown(s, stamp) == hint_served(s, stamp),
{
}

// ── DMA ──────────────────────────────────────────────────────────────────

/// A DMA reads what the 68000 reads over the bus, from ROM and from work RAM.
pub proof fn law_dma_reads_the_bus(b: BusState, addr: u32)
    requires
        region_of(addr) is CartridgeRom || region_of(addr) is WorkRam,
    ensures
        source_word(b.rom, b.work_ram, addr) == word_at(b, addr),
{
    reveal(word_at);
}

/// After a DMA into VRAM with auto-increment 2, word `i` at the destination is the
/// word that the 68000 reads at `source + 2 * i`, where the source is in ROM or work
/// RAM. The rest of VRAM stays, and so do the sources.
pub proof fn law_dma_carries_memory_to_vram(b: BusState, i: int)
    requires
        b.wf(),
        b.vdp.core.dma_pending,
        b.vdp.core.access_type == Some(AccessType::VramWrite),
        b.vdp.core.auto_increment == 2,
        b.vdp.core.address % 2 == 0,
        0 <= i < dma_length(b.vdp.core),
        b.vdp.core.address + 2 * dma_length(b.vdp.core) <= 0x10000,
        ({
            let addr = (dma_source(b.vdp.core) + 2 * i) as u32;
            region_of(addr) is CartridgeRom || region_of(addr) is WorkRam
        }),
    ensures
        ({
            let c = b.vdp.core;
            let t = dma_run(b);
            let v = t.vdp.core.vram;
            let at = c.address + 2 * i;
            &&& v[at] * 0x100 + v[at + 1] == word_at(b, (dma_source(c) + 2 * i) as u32)
            &&& forall|a: int|
                0 <= a < 0x10000 && !(c.address <= a < c.address + 2 * dma_length(c))
                    ==> v[a] == c.vram[a]
            &&& !t.vdp.core.dma_pending
            &&& t.rom == b.rom
            &&& t.work_ram == b.work_ram
        }),
{
    reveal(dma_run);
    let c = b.vdp.core;
    let words = dma_words(b);
    law_dma_copies_source(c, words);
    law_dma_reads_the_bus(b, (dma_source(c) + 2 * i) as u32);
    assert(words[i] == word_at(b, (dma_source(c) + 2 * i) as u32));
}

/// The source of a DMA is the word address in registers 0x15 to 0x17, low byte
/// first; a finished one has moved on by its length.
pub proof fn law_dma_source_registers(c: VdpCore)
    requires
        c.wf(),
    ensures
        dma_source(c) as int == 2 * (c.registers[0x15] + 0x100 * c.registers[0x16] + 0x1_0000 * (
        c.registers[0x17] % 0x80)),
        dma_length(c) as int == c.registers[0x13] + 0x100 * c.registers[0x14],
{
}

} // verus!
