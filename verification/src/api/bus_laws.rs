//! Where the 68000 and the Z80 find memory and devices.
use vstd::prelude::*;

use crate::api::board::{soft_reset, BoardState};
use crate::api::bus::{
    byte_at, byte_written, word_at, word_read, word_written, z80_byte_at, z80_byte_written,
    BusState,
};
use crate::api::machine_laws::rom_long;
use crate::bus::region_of;
use crate::io::{after_data_write, data_byte, ControllerPort};
use crate::psg::psg_write;
use crate::vdp::{control_written, data_read, data_word, data_written, hv_word, status_word};
use crate::ym2612::address_written;

verus! {

/// The memory map: each region is one range of the 24-bit address.
pub proof fn law_memory_map(addr: u32)
    ensures
        ({
            let a = addr as int % 0x100_0000;
            &&& region_of(addr) is CartridgeRom <==> a < 0x40_0000
            &&& region_of(addr) is CartridgeExtended <==> 0x40_0000 <= a < 0x80_0000
            &&& region_of(addr) is Z80Area <==> 0xA0_0000 <= a < 0xA1_0000
            &&& region_of(addr) is IoRegisters <==> 0xA1_0000 <= a < 0xA1_0020
            &&& region_of(addr) is ControlRegisters <==> 0xA1_1100 <= a < 0xA1_1202
            &&& region_of(addr) is Vdp <==> 0xC0_0000 <= a < 0xC0_0020
            &&& region_of(addr) is WorkRam <==> 0xFF_0000 <= a
        }),
{
}

/// The cartridge starts at address 0: byte `i` of it is read there, and 0 behind its
/// end. Work RAM is the last 64 KB.
pub proof fn law_memory_bytes(b: BusState, i: int)
    requires
        b.work_ram.len() == 0x1_0000,
    ensures
        0 <= i < 0x40_0000 && i < b.rom.len() ==> byte_at(b, i as u32) == b.rom[i],
        b.rom.len() <= i < 0x40_0000 ==> byte_at(b, i as u32) == 0,
        0 <= i < 0x1_0000 ==> byte_at(b, (0xFF_0000 + i) as u32) == b.work_ram[i],
{
    reveal(byte_at);
}

/// Words are big-endian: the byte at the even address is the high one. So they are
/// in the Z80 RAM as the 68000 sees it.
pub proof fn law_big_endian(b: BusState, addr: u32)
    requires
        b.work_ram.len() == 0x1_0000,
        b.z80_ram.len() == 0x2000,
        addr % 2 == 0,
        addr < 0x100_0000,
        region_of(addr) is CartridgeRom || region_of(addr) is WorkRam || 0xA0_0000 <= addr
            < 0xA0_4000,
    ensures
        word_at(b, addr) == byte_at(b, addr) * 0x100 + byte_at(b, (addr + 1) as u32),
        word_read(b, addr) == b,
{
    reveal(byte_at);
    reveal(word_at);
    reveal(word_read);
    if region_of(addr) is CartridgeRom {
        assert(region_of((addr + 1) as u32) is CartridgeRom);
    } else if region_of(addr) is WorkRam {
        assert(region_of((addr + 1) as u32) is WorkRam);
    } else {
        assert(region_of((addr + 1) as u32) is Z80Area);
        assert(addr % 0x1_0000 == addr - 0xA0_0000);
        assert(((addr + 1) as u32) % 0x1_0000 == addr - 0xA0_0000 + 1);
    }
}

/// The version register names an overseas NTSC console; the data and control
/// registers of the two ports lie behind it, and a write to one port leaves the
/// other alone.
pub proof fn law_port_registers(b: BusState, val: u8)
    ensures
        byte_at(b, 0xA1_0001) == 0xA0,
        byte_at(b, 0xA1_0003) == data_byte(b.port1),
        byte_at(b, 0xA1_0005) == data_byte(b.port2),
        byte_at(b, 0xA1_0009) == b.port1.ctrl,
        byte_at(b, 0xA1_000B) == b.port2.ctrl,
        byte_written(b, 0xA1_0003, val) == (BusState {
            port1: after_data_write(b.port1, val),
            ..b
        }),
        byte_written(b, 0xA1_0005, val) == (BusState {
            port2: after_data_write(b.port2, val),
            ..b
        }),
        byte_written(b, 0xA1_0009, val) == (BusState {
            port1: (ControllerPort { ctrl: val, ..b.port1 }),
            ..b
        }),
        byte_written(b, 0xA1_000B, val) == (BusState {
            port2: (ControllerPort { ctrl: val, ..b.port2 }),
            ..b
        }),
{
    reveal(byte_at);
    reveal(byte_written);
}

/// The VDP data port is at 0 and 2; reading it moves on in the video memory.
#[verifier::rlimit(60)]
#[verifier::spinoff_prover]
pub proof fn law_vdp_data_port(b: BusState, mirror: bool, val: u16)
    ensures
        ({
            let a: u32 = if mirror {
                0xC0_0002
            } else {
                0xC0_0000
            };
            let c = b.vdp.core;
            &&& word_at(b, a) == data_word(c)
            &&& word_read(b, a) == (BusState { vdp: b.vdp.with_core(data_read(c)), ..b })
            &&& word_written(b, a, val) == (BusState {
                vdp: b.vdp.with_core(data_written(c, val)),
                ..b
            })
        }),
{
    reveal(word_at);
    reveal(word_read);
    reveal(word_written);
}

/// The VDP control port is at 4 and 6: written it takes commands, read it gives the
/// status, in a byte its high half.
#[verifier::rlimit(60)]
#[verifier::spinoff_prover]
pub proof fn law_vdp_control_port(b: BusState, mirror: bool, val: u16)
    ensures
        ({
            let a: u32 = if mirror {
                0xC0_0006
            } else {
                0xC0_0004
            };
            let c = b.vdp.core;
            &&& word_at(b, a) == status_word(c)
            &&& byte_at(b, a) == status_word(c) / 0x100
            &&& word_read(b, a) == b
            &&& word_written(b, a, val) == (BusState {
                vdp: b.vdp.with_core(control_written(c, val)),
                ..b
            })
        }),
{
    reveal(byte_at);
    reveal(word_at);
    reveal(word_read);
    reveal(word_written);
}

/// The beam position is at 8 to 0xE; writing there does nothing.
#[verifier::rlimit(60)]
#[verifier::spinoff_prover]
pub proof fn law_beam_port(b: BusState, port: u32, val: u16)
    requires
        8 <= port < 0x10,
        port % 2 == 0,
    ensures
        ({
            let a = (0xC0_0000 + port) as u32;
            &&& word_at(b, a) == hv_word(b.vdp.core)
            &&& word_read(b, a) == b
            &&& word_written(b, a, val) == b
        }),
{
    reveal(word_at);
    reveal(word_read);
    reveal(word_written);
    let a = (0xC0_0000 + port) as u32;
    assert(a % 0x20 == port);
}

/// Both processors reach the sound chips: the YM2612 at 0x4000 to 0x4003 of the Z80
/// area, the PSG at 0xC00011 and at 0x7F11. The chip gets the byte, and the write is
/// kept with the time.
pub proof fn law_sound_writes(b: BusState, part: u16, val: u8)
    requires
        part < 2,
    ensures
        ({
            let at = (0x4000 + 2 * part) as u16;
            let a = (0xA0_0000 + at) as u32;
            let p = part as u8;
            let d = z80_byte_written(b, (at + 1) as u16, val);
            let s = z80_byte_written(b, 0x7F11, val);
            let n = b.ym2612_timed_write_trace.len();
            let k = b.psg_timed_write_trace.len();
            &&& byte_written(b, a, val) == z80_byte_written(b, at, val)
            &&& byte_written(b, (a + 1) as u32, val) == d
            &&& z80_byte_written(b, at, val) == (BusState {
                ym2612: address_written(b.ym2612, p, val),
                ..b
            })
            &&& d.ym2612 == crate::ym2612::data_written(b.ym2612, p, val)
            &&& d.ym2612_timed_write_trace.len() == n + 1
            &&& d.ym2612_timed_write_trace[n as int].master_tick == b.stamp.master_tick
            &&& d.ym2612_timed_write_trace[n as int].value == val
            &&& d.ym2612_timed_write_trace[n as int].port == p
            &&& d.ym2612_timed_write_trace[n as int].addr
                == b.ym2612.address_latch[part as int]
            &&& byte_written(b, 0xC0_0011, val) == s
            &&& s.psg == psg_write(b.psg, val)
            &&& s.psg_timed_write_trace.len() == k + 1
            &&& s.psg_timed_write_trace[k as int].master_tick == b.stamp.master_tick
            &&& s.psg_timed_write_trace[k as int].value == val
        }),
{
    reveal(byte_written);
    let a = (0xA0_4000 + 2 * part) as u32;
    assert(a % 0x1_0000 == 0x4000 + 2 * part);
    assert(((a + 1) as u32) % 0x1_0000 == 0x4001 + 2 * part);
}

/// Through its window the Z80 sees 32 KB of the cartridge from the bank on; its own
/// RAM appears twice below the sound chip.
pub proof fn law_z80_window(b: BusState, i: u16)
    requires
        b.z80_ram.len() == 0x2000,
    ensures
        i < 0x8000 && b.z80_bank + i < b.rom.len() ==> z80_byte_at(b, (0x8000 + i) as u16)
            == b.rom[b.z80_bank + i],
        i < 0x2000 ==> z80_byte_at(b, i) == b.z80_ram[i as int] && z80_byte_at(
            b,
            (0x2000 + i) as u16,
        ) == b.z80_ram[i as int],
{
}

/// The 68000 holds the Z80 by its bus request (bit 8 of a word at 0xA11100) and its
/// reset line, which is low while bit 8 of a word at 0xA11200 is clear. Letting go
/// of the bus lets the Z80 run on this line, letting go of reset restarts it.
pub proof fn law_z80_lines(b: BusState, val: u16)
    ensures
        ({
            let on = (val / 0x100) % 2 == 1;
            let p = word_written(b, 0xA1_1100, val);
            let q = word_written(b, 0xA1_1200, val);
            &&& p.z80_bus_requested == on
            &&& p.z80_bus_released_this_scanline == (b.z80_bus_released_this_scanline || (
            b.z80_bus_requested && !on))
            &&& p.z80_reset == b.z80_reset
            &&& q.z80_reset == !on
            &&& q.z80_reset_pending == (b.z80_reset_pending || (b.z80_reset && on))
            &&& q.z80_bus_requested == b.z80_bus_requested
            &&& p.z80_ram == b.z80_ram && q.z80_ram == b.z80_ram
            &&& byte_at(b, 0xA1_1100) == 0
        }),
{
    reveal(word_written);
    reveal(byte_at);
}

/// A reset takes the stack pointer from the first long of the cartridge and the
/// program counter from the second, in supervisor mode; the memories stay.
pub proof fn law_reset_vectors(s: BoardState)
    requires
        s.bus.rom.len() >= 8,
    ensures
        ({
            let t = soft_reset(s);
            &&& t.cpu.ssp == rom_long(s.bus.rom, 0)
            &&& t.cpu.pc == rom_long(s.bus.rom, 4)
            &&& t.cpu.supervisor()
            &&& !t.cpu.stopped
            &&& !t.cpu.halted
            &&& t.cpu.d == s.cpu.d
            &&& t.cpu.a == s.cpu.a
            &&& t.bus == s.bus
        }),
{
    reveal(byte_at);
    assert(0x2000u16 & 0x2000 != 0) by (bit_vector);
}

} // verus!
