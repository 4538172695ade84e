//! What the two CPUs reach: memories, video, sound, controllers and the Z80
//! control lines.
use vstd::prelude::*;

use crate::api::state::{TimedPsgWrite, TimedYm2612Write};
use crate::bus::{map_region, region_of, BusRegion};
use crate::cpu::operand::Bus;
use crate::io::{after_data_write, data_byte, ControllerPort};
use crate::psg::{psg_write, Psg, PsgState};
use crate::vdp::{
    control_written, data_read, data_word, data_written, hv_word, status_word, Vdp, VdpState,
};
use crate::ym2612::{address_written, Ym2612, YmState};

verus! {

/// A moment on the machine timeline.
#[derive(Debug, Clone, Copy, PartialEq, Eq, Structural)]
pub struct Stamp {
    /// Frame counter.
    pub frame: u64,
    /// Scanline within the frame.
    pub scanline: u16,
    /// Absolute master-clock tick.
    pub master_tick: u64,
}

/// The bus of the console: everything but the CPUs, the scheduler and the audio
/// timeline.
pub struct CoreBus {
    /// Cartridge ROM data.
    pub rom: Vec<u8>,
    /// 64KB work RAM.
    pub work_ram: Box<[u8; 0x1_0000]>,
    /// Video Display Processor.
    pub vdp: Vdp,
    /// Controller port 1.
    pub port1: ControllerPort,
    /// Controller port 2.
    pub port2: ControllerPort,
    /// 8KB Z80 RAM.
    pub z80_ram: Box<[u8; 0x2000]>,
    /// 68K ROM bank register (9 bits, shifted left 15).
    pub z80_bank: u32,
    /// 68K has requested the Z80 bus.
    pub z80_bus_requested: bool,
    /// Z80 in reset state.
    pub z80_reset: bool,
    /// The reset line went up and the Z80 has not been restarted yet.
    pub z80_reset_pending: bool,
    /// The 68K released the Z80 bus at some point during this scanline.
    pub z80_bus_released_this_scanline: bool,
    /// YM2612 FM synthesis chip.
    pub ym2612: Ym2612,
    /// SN76489 PSG sound chip.
    pub psg: Psg,
    /// 68K writes to the Z80 sound command byte: frame and value.
    pub z80_cmd_trace: Vec<(u64, u8)>,
    /// Number of 68K bytes written to the Z80 driver area (wraps).
    pub z80_driver_write_count: u32,
    /// Last frame in which the 68K wrote to the Z80 driver area.
    pub z80_driver_last_write_frame: u64,
    /// YM2612 writes with their master-clock ticks.
    pub ym2612_timed_write_trace: Vec<TimedYm2612Write>,
    /// PSG writes with their master-clock ticks.
    pub psg_timed_write_trace: Vec<TimedPsgWrite>,
    /// The time with which sound writes are stamped.
    pub stamp: Stamp,
}

/// Mathematical model of the bus.
#[verifier::ext_equal]
pub ghost struct BusState {
    pub rom: Seq<u8>,
    pub work_ram: Seq<u8>,
    pub vdp: VdpState,
    pub port1: ControllerPort,
    pub port2: ControllerPort,
    pub z80_ram: Seq<u8>,
    pub z80_bank: u32,
    pub z80_bus_requested: bool,
    pub z80_reset: bool,
    pub z80_reset_pending: bool,
    pub z80_bus_released_this_scanline: bool,
    pub ym2612: YmState,
    pub psg: PsgState,
    pub z80_cmd_trace: Seq<(u64, u8)>,
    pub z80_driver_write_count: u32,
    pub z80_driver_last_write_frame: u64,
    pub ym2612_timed_write_trace: Seq<TimedYm2612Write>,
    pub psg_timed_write_trace: Seq<TimedPsgWrite>,
    pub stamp: Stamp,
}

impl View for CoreBus {
    type V = BusState;

    open spec fn view(&self) -> BusState {
        BusState {
            rom: self.rom@,
            work_ram: self.work_ram@,
            vdp: self.vdp@,
            port1: self.port1,
            port2: self.port2,
            z80_ram: self.z80_ram@,
            z80_bank: self.z80_bank,
            z80_bus_requested: self.z80_bus_requested,
            z80_reset: self.z80_reset,
            z80_reset_pending: self.z80_reset_pending,
            z80_bus_released_this_scanline: self.z80_bus_released_this_scanline,
            ym2612: self.ym2612@,
            psg: self.psg@,
            z80_cmd_trace: self.z80_cmd_trace@,
            z80_driver_write_count: self.z80_driver_write_count,
            z80_driver_last_write_frame: self.z80_driver_last_write_frame,
            ym2612_timed_write_trace: self.ym2612_timed_write_trace@,
            psg_timed_write_trace: self.psg_timed_write_trace@,
            stamp: self.stamp,
        }
    }
}

impl BusState {
    /// The memories have their sizes and the chips are well formed.
    pub open spec fn wf(self) -> bool {
        &&& self.work_ram.len() == 0x1_0000
        &&& self.z80_ram.len() == 0x2000
        &&& self.vdp.wf()
        &&& self.psg.wf()
        &&& self.ym2612.wf()
    }
}

// ── Reads ────────────────────────────────────────────────────────────────

/// A ROM byte; 0 beyond the end.
pub open spec fn rom_at(b: BusState, offset: int) -> u8 {
    if 0 <= offset < b.rom.len() {
        b.rom[offset]
    } else {
        0
    }
}

/// A big-endian word of two bytes.
pub open spec fn word_of(hi: u8, lo: u8) -> u16 {
    (hi * 0x100 + lo) as u16
}

/// The ROM byte at an address.
pub open spec fn rom_byte_at(b: BusState, addr: u32) -> u8 {
    rom_at(b, (addr % 0x40_0000) as int)
}

/// The ROM word at an address.
pub open spec fn rom_word_at(b: BusState, addr: u32) -> u16 {
    word_of(rom_at(b, (addr % 0x40_0000) as int), rom_at(b, addr % 0x40_0000 + 1))
}

/// The work RAM byte at an address.
pub open spec fn ram_byte_at(b: BusState, addr: u32) -> u8 {
    b.work_ram[(addr % 0x1_0000) as int]
}

/// The odd byte of the word that an offset lies in.
pub open spec fn odd_of(offset: int) -> int {
    offset - offset % 2 + 1
}

/// The work RAM word at an address.
pub open spec fn ram_word_at(b: BusState, addr: u32) -> u16 {
    word_of(
        b.work_ram[(addr % 0x1_0000) as int],
        b.work_ram[odd_of((addr % 0x1_0000) as int)],
    )
}

/// An I/O register: the version (an overseas NTSC console), the data and the
/// control registers of the two ports.
pub open spec fn io_byte(b: BusState, addr: u32) -> u8 {
    let reg = addr % 0x20;
    if reg <= 1 {
        0xA0
    } else if reg <= 3 {
        data_byte(b.port1)
    } else if reg <= 5 {
        data_byte(b.port2)
    } else if reg == 8 || reg == 9 {
        b.port1.ctrl
    } else if reg == 0x0A || reg == 0x0B {
        b.port2.ctrl
    } else {
        0
    }
}

/// A byte of the Z80 area as the 68000 sees it.
pub open spec fn z80_area_byte(b: BusState, addr: u32) -> u8 {
    let a = addr % 0x1_0000;
    if a <= 0x3FFF {
        b.z80_ram[(a % 0x2000) as int]
    } else if a <= 0x4003 {
        b.ym2612.status
    } else {
        0xFF
    }
}

/// A word of the Z80 area as the 68000 sees it.
pub open spec fn z80_area_word(b: BusState, addr: u32) -> u16 {
    let a = addr % 0x1_0000;
    if a <= 0x3FFF {
        word_of(b.z80_ram[(a % 0x2000) as int], b.z80_ram[((a + 1) % 0x2000) as int])
    } else if a <= 0x4003 {
        b.ym2612.status as u16
    } else {
        0xFFFF
    }
}

/// A control register: 0xA11200 and 0xA11201 read 1 until the Z80 bus is
/// requested. All else reads 0; at 0xA11100 that says the bus is granted.
pub open spec fn control_byte(b: BusState, addr: u32) -> u8 {
    if addr % 0x200 > 1 || b.z80_bus_requested {
        0
    } else {
        1
    }
}

/// What a byte read returns. Byte reads change nothing.
#[verifier::opaque]
pub open spec fn byte_at(b: BusState, addr: u32) -> u8 {
    match region_of(addr) {
        BusRegion::CartridgeRom => rom_byte_at(b, addr),
        BusRegion::WorkRam => ram_byte_at(b, addr),
        BusRegion::IoRegisters => io_byte(b, addr),
        BusRegion::Z80Area => z80_area_byte(b, addr),
        BusRegion::ControlRegisters => control_byte(b, addr),
        BusRegion::Vdp => if addr % 0x20 == 4 || addr % 0x20 == 6 {
            (status_word(b.vdp.core) / 0x100) as u8
        } else {
            0
        },
        _ => 0,
    }
}

/// A word read from the VDP ports: data, status, HV counter.
pub open spec fn vdp_word(b: BusState, addr: u32) -> u16 {
    let port = addr % 0x20;
    if port == 0 || port == 2 {
        data_word(b.vdp.core)
    } else if port == 4 || port == 6 {
        status_word(b.vdp.core)
    } else if port == 8 || port == 0x0A || port == 0x0C || port == 0x0E {
        hv_word(b.vdp.core)
    } else {
        0
    }
}

/// What a word read returns.
#[verifier::opaque]
pub open spec fn word_at(b: BusState, addr: u32) -> u16 {
    match region_of(addr) {
        BusRegion::CartridgeRom => rom_word_at(b, addr),
        BusRegion::WorkRam => ram_word_at(b, addr),
        BusRegion::IoRegisters => io_byte(b, addr) as u16,
        BusRegion::Z80Area => z80_area_word(b, addr),
        BusRegion::ControlRegisters => (control_byte(b, addr) * 0x100) as u16,
        BusRegion::Vdp => vdp_word(b, addr),
        _ => 0,
    }
}

/// What a word read leaves behind: reading the VDP data port moves its address
/// on.
#[verifier::opaque]
pub open spec fn word_read(b: BusState, addr: u32) -> BusState {
    if region_of(addr) is Vdp && (addr % 0x20 == 0 || addr % 0x20 == 2) {
        BusState { vdp: b.vdp.with_core(data_read(b.vdp.core)), ..b }
    } else {
        b
    }
}

// ── Writes ───────────────────────────────────────────────────────────────

/// A YM2612 data write: traced with its time, then handed to the chip.
pub open spec fn ym_data_put(b: BusState, port: u8, value: u8) -> BusState {
    BusState {
        ym2612_timed_write_trace: b.ym2612_timed_write_trace.push(
            TimedYm2612Write {
                master_tick: b.stamp.master_tick,
                frame: b.stamp.frame,
                scanline: b.stamp.scanline,
                port,
                addr: b.ym2612.address_latch[(port % 2) as int],
                value,
            },
        ),
        ym2612: crate::ym2612::data_written(b.ym2612, port, value),
        ..b
    }
}

/// A YM2612 address write.
pub open spec fn ym_address_put(b: BusState, port: u8, value: u8) -> BusState {
    BusState { ym2612: address_written(b.ym2612, port, value), ..b }
}

/// A PSG write: traced with its time, then handed to the chip.
pub open spec fn psg_put(b: BusState, value: u8) -> BusState {
    BusState {
        psg_timed_write_trace: b.psg_timed_write_trace.push(
            TimedPsgWrite {
                master_tick: b.stamp.master_tick,
                frame: b.stamp.frame,
                scanline: b.stamp.scanline,
                value,
            },
        ),
        psg: psg_write(b.psg, value),
        ..b
    }
}

/// A write to an I/O register.
pub open spec fn io_written(b: BusState, addr: u32, val: u8) -> BusState {
    let reg = addr % 0x20;
    if reg == 2 || reg == 3 {
        BusState { port1: after_data_write(b.port1, val), ..b }
    } else if reg == 4 || reg == 5 {
        BusState { port2: after_data_write(b.port2, val), ..b }
    } else if reg == 8 || reg == 9 {
        BusState { port1: (ControllerPort { ctrl: val, ..b.port1 }), ..b }
    } else if reg == 0x0A || reg == 0x0B {
        BusState { port2: (ControllerPort { ctrl: val, ..b.port2 }), ..b }
    } else {
        b
    }
}

/// The Z80 bus request line set or cleared. Clearing it lets the Z80 run this
/// scanline.
pub open spec fn bus_request(b: BusState, requested: bool) -> BusState {
    BusState {
        z80_bus_requested: requested,
        z80_bus_released_this_scanline: b.z80_bus_released_this_scanline || (b.z80_bus_requested
            && !requested),
        ..b
    }
}

/// The Z80 reset line asserted or released. Releasing it restarts the Z80.
pub open spec fn reset_line(b: BusState, reset: bool) -> BusState {
    BusState {
        z80_reset: reset,
        z80_reset_pending: b.z80_reset_pending || (b.z80_reset && !reset),
        ..b
    }
}

/// A write to the control registers; `data` is the byte that counts.
pub open spec fn control_written_byte(b: BusState, addr: u32, data: u8) -> BusState {
    let reg = addr % 0x1_0000;
    if reg == 0x1100 || reg == 0x1101 {
        bus_request(b, data % 2 == 1)
    } else if reg == 0x1200 || reg == 0x1201 {
        reset_line(b, data % 2 == 0)
    } else {
        b
    }
}

/// The trace of sound commands: the first hundred writes to the last byte of the
/// Z80 RAM.
pub open spec fn command_traced(b: BusState, a: u32, val: u8) -> BusState {
    if a == 0x1FFF && b.z80_cmd_trace.len() < 100 {
        BusState { z80_cmd_trace: b.z80_cmd_trace.push((b.stamp.frame, val)), ..b }
    } else {
        b
    }
}

/// The count of writes to the driver area, the first page of the Z80 RAM.
pub open spec fn driver_counted(b: BusState, a: u32, bytes: u32) -> BusState {
    if a <= 0xFF {
        BusState {
            z80_driver_write_count: b.z80_driver_write_count.wrapping_add(bytes),
            z80_driver_last_write_frame: b.stamp.frame,
            ..b
        }
    } else {
        b
    }
}

/// A byte write of the 68000 to the Z80 area.
pub open spec fn z80_area_written(b: BusState, addr: u32, val: u8) -> BusState {
    let a = addr % 0x1_0000;
    if a <= 0x1FFF {
        let t = driver_counted(command_traced(b, a, val), a, 1);
        BusState { z80_ram: t.z80_ram.update(a as int, val), ..t }
    } else if a <= 0x3FFF {
        BusState { z80_ram: b.z80_ram.update((a % 0x2000) as int, val), ..b }
    } else if a == 0x4000 {
        ym_address_put(b, 0, val)
    } else if a == 0x4001 {
        ym_data_put(b, 0, val)
    } else if a == 0x4002 {
        ym_address_put(b, 1, val)
    } else if a == 0x4003 {
        ym_data_put(b, 1, val)
    } else {
        b
    }
}

/// A word write of the 68000 to the Z80 area.
pub open spec fn z80_area_word_written(b: BusState, addr: u32, hi: u8, lo: u8) -> BusState {
    let a = addr % 0x1_0000;
    if a <= 0x3FFF {
        let t = driver_counted(b, a, 2);
        BusState {
            z80_ram: t.z80_ram.update((a % 0x2000) as int, hi).update(
                ((a + 1) % 0x2000) as int,
                lo,
            ),
            ..t
        }
    } else if a == 0x4000 {
        ym_data_put(ym_address_put(b, 0, hi), 0, lo)
    } else if a == 0x4002 {
        ym_data_put(ym_address_put(b, 1, hi), 1, lo)
    } else {
        b
    }
}

/// What a byte write leaves behind.
#[verifier::opaque]
pub open spec fn byte_written(b: BusState, addr: u32, val: u8) -> BusState {
    match region_of(addr) {
        BusRegion::WorkRam => BusState {
            work_ram: b.work_ram.update((addr % 0x1_0000) as int, val),
            ..b
        },
        BusRegion::IoRegisters => io_written(b, addr, val),
        BusRegion::Z80Area => z80_area_written(b, addr, val),
        BusRegion::ControlRegisters => control_written_byte(b, addr, val),
        BusRegion::Vdp => {
            let port = addr % 0x20;
            if port == 0x11 || port == 0x13 || port == 0x15 || port == 0x17 {
                psg_put(b, val)
            } else {
                b
            }
        },
        _ => b,
    }
}

/// A word write to the VDP ports: data, control, and the PSG on the low byte.
pub open spec fn vdp_word_written(b: BusState, addr: u32, val: u16) -> BusState {
    let port = addr % 0x20;
    if port == 0 || port == 2 {
        BusState { vdp: b.vdp.with_core(data_written(b.vdp.core, val)), ..b }
    } else if port == 4 || port == 6 {
        BusState { vdp: b.vdp.with_core(control_written(b.vdp.core, val)), ..b }
    } else if port == 0x10 || port == 0x12 || port == 0x14 || port == 0x16 {
        BusState { psg: psg_write(b.psg, (val % 0x100) as u8), ..b }
    } else {
        b
    }
}

/// What a word write leaves behind.
#[verifier::opaque]
pub open spec fn word_written(b: BusState, addr: u32, val: u16) -> BusState {
    let hi = (val / 0x100) as u8;
    let lo = (val % 0x100) as u8;
    match region_of(addr) {
        BusRegion::WorkRam => {
            let a = (addr % 0x1_0000) as int;
            BusState { work_ram: b.work_ram.update(a, hi).update(odd_of(a), lo), ..b }
        },
        BusRegion::Vdp => vdp_word_written(b, addr, val),
        BusRegion::IoRegisters => io_written(b, addr, lo),
        BusRegion::Z80Area => z80_area_word_written(b, addr, hi, lo),
        BusRegion::ControlRegisters => control_written_byte(b, addr, hi),
        _ => b,
    }
}

/// What a byte that the host writes leaves behind: it reaches work RAM and the
/// I/O registers only.
pub open spec fn host_byte_written(b: BusState, addr: u32, val: u8) -> BusState {
    match region_of(addr) {
        BusRegion::WorkRam => byte_written(b, addr, val),
        BusRegion::IoRegisters => byte_written(b, addr, val),
        _ => b,
    }
}

/// What a word that the host writes leaves behind: it reaches work RAM, the I/O
/// registers and the VDP data and control ports only.
pub open spec fn host_word_written(b: BusState, addr: u32, val: u16) -> BusState {
    match region_of(addr) {
        BusRegion::WorkRam => word_written(b, addr, val),
        BusRegion::IoRegisters => word_written(b, addr, val),
        BusRegion::Vdp => if addr % 0x20 <= 6 {
            word_written(b, addr, val)
        } else {
            b
        },
        _ => b,
    }
}

// ── The Z80 side ─────────────────────────────────────────────────────────

/// What the Z80 reads: its RAM, the YM2612 status, the banked ROM window.
pub open spec fn z80_byte_at(b: BusState, addr: u16) -> u8 {
    if addr <= 0x3FFF {
        b.z80_ram[(addr % 0x2000) as int]
    } else if addr <= 0x4003 {
        b.ym2612.status
    } else if addr >= 0x8000 {
        rom_at(b, b.z80_bank + addr % 0x8000)
    } else {
        0xFF
    }
}

/// The bank register with one more bit shifted in at the top (bit 23). Bits 15
/// to 23 are kept.
pub open spec fn bank_shifted(bank: u32, bit: u8) -> u32 {
    let low = ((bank / 2) % 0x80_0000) / 0x8000 * 0x8000;
    if bit % 2 == 1 || (bank / 0x100_0000) % 2 == 1 {
        (low + 0x80_0000) as u32
    } else {
        low as u32
    }
}

/// What a Z80 write leaves behind.
pub open spec fn z80_byte_written(b: BusState, addr: u16, val: u8) -> BusState {
    if addr <= 0x3FFF {
        BusState { z80_ram: b.z80_ram.update((addr % 0x2000) as int, val), ..b }
    } else if addr == 0x4000 {
        ym_address_put(b, 0, val)
    } else if addr == 0x4001 {
        ym_data_put(b, 0, val)
    } else if addr == 0x4002 {
        ym_address_put(b, 1, val)
    } else if addr == 0x4003 {
        ym_data_put(b, 1, val)
    } else if 0x6000 <= addr <= 0x60FF {
        BusState { z80_bank: bank_shifted(b.z80_bank, val), ..b }
    } else if 0x7F00 <= addr <= 0x7FFF {
        psg_put(b, val)
    } else {
        b
    }
}

// ── Executable bus ───────────────────────────────────────────────────────

/// A word from its bytes.
fn join(hi: u8, lo: u8) -> (r: u16)
    ensures
        r == word_of(hi, lo),
{
    hi as u16 * 0x100 + lo as u16
}

impl CoreBus {
    /// A ROM byte; 0 beyond the end.
    fn rom_byte_or_zero(&self, offset: usize) -> (r: u8)
        ensures
            r == rom_at(self@, offset as int),
    {
        if offset < self.rom.len() {
            self.rom[offset]
        } else {
            0
        }
    }

    /// A ROM word at an address.
    fn rom_word(&self, addr: u32) -> (r: u16)
        ensures
            r == rom_word_at(self@, addr),
    {
        let offset: usize = (addr % 0x40_0000) as usize;
        join(self.rom_byte_or_zero(offset), self.rom_byte_or_zero(offset + 1))
    }

    /// A work RAM word at an address.
    fn ram_word(&self, addr: u32) -> (r: u16)
        ensures
            r == ram_word_at(self@, addr),
    {
        let offset: usize = (addr % 0x1_0000) as usize;
        join(self.work_ram[offset], self.work_ram[offset - offset % 2 + 1])
    }

    /// An I/O register.
    fn read_io(&self, addr: u32) -> (r: u8)
        ensures
            r == io_byte(self@, addr),
    {
        let reg: u32 = addr % 0x20;
        if reg <= 1 {
            0xA0
        } else if reg <= 3 {
            self.port1.read_data()
        } else if reg <= 5 {
            self.port2.read_data()
        } else if reg == 8 || reg == 9 {
            self.port1.read_ctrl()
        } else if reg == 0x0A || reg == 0x0B {
            self.port2.read_ctrl()
        } else {
            0
        }
    }

    /// A byte of the Z80 area.
    fn read_z80_area(&self, addr: u32) -> (r: u8)
        ensures
            r == z80_area_byte(self@, addr),
    {
        let a: u32 = addr % 0x1_0000;
        if a <= 0x3FFF {
            self.z80_ram[(a % 0x2000) as usize]
        } else if a <= 0x4003 {
            self.ym2612.read_status()
        } else {
            0xFF
        }
    }

    /// A word of the Z80 area.
    fn read_z80_area_word(&self, addr: u32) -> (r: u16)
        ensures
            r == z80_area_word(self@, addr),
    {
        let a: u32 = addr % 0x1_0000;
        if a <= 0x3FFF {
            join(
                self.z80_ram[(a % 0x2000) as usize],
                self.z80_ram[((a + 1) % 0x2000) as usize],
            )
        } else if a <= 0x4003 {
            self.ym2612.read_status() as u16
        } else {
            0xFFFF
        }
    }

    /// A control register.
    fn read_control(&self, addr: u32) -> (r: u8)
        ensures
            r == control_byte(self@, addr),
            r <= 1,
    {
        if addr % 0x200 > 1 || self.z80_bus_requested {
            0
        } else {
            1
        }
    }

    /// Reads a byte as the data access of an instruction does. Byte reads change
    /// nothing. The instruction stream and the host read through `code_byte`.
    pub(crate) fn peek_byte(&self, addr: u32) -> (r: u8)
        ensures
            r == byte_at(self@, addr),
    {
        reveal(byte_at);
        match map_region(addr) {
            BusRegion::CartridgeRom => self.rom_byte_or_zero((addr % 0x40_0000) as usize),
            BusRegion::WorkRam => self.work_ram[(addr % 0x1_0000) as usize],
            BusRegion::IoRegisters => self.read_io(addr),
            BusRegion::Z80Area => self.read_z80_area(addr),
            BusRegion::ControlRegisters => self.read_control(addr),
            BusRegion::Vdp => {
                if addr % 0x20 == 4 || addr % 0x20 == 6 {
                    (self.vdp.read_status() / 0x100) as u8
                } else {
                    0
                }
            },
            _ => 0,
        }
    }

    /// A word read from the VDP ports.
    fn read_vdp_word(&mut self, addr: u32) -> (r: u16)
        requires
            region_of(addr) is Vdp,
        ensures
            r == vdp_word(old(self)@, addr),
            final(self)@ == word_read(old(self)@, addr),
            old(self)@.wf() ==> final(self)@.wf(),
    {
        reveal(word_read);
        let port: u32 = addr % 0x20;
        if port == 0 || port == 2 {
            self.vdp.read_data()
        } else if port == 4 || port == 6 {
            self.vdp.read_status()
        } else if port == 8 || port == 0x0A || port == 0x0C || port == 0x0E {
            self.vdp.read_hv_counter()
        } else {
            0
        }
    }

    /// Traces a YM2612 data write and hands it to the chip.
    pub fn write_ym2612_data(&mut self, port: u8, value: u8)
        requires
            old(self)@.wf(),
        ensures
            final(self)@ == ym_data_put(old(self)@, port, value),
            final(self)@.wf(),
    {
        let addr: u8 = self.ym2612.latched_address(port);
        self.ym2612_timed_write_trace.push(
            TimedYm2612Write {
                master_tick: self.stamp.master_tick,
                frame: self.stamp.frame,
                scanline: self.stamp.scanline,
                port,
                addr,
                value,
            },
        );
        self.ym2612.write_data(port, value);
    }

    /// Traces a PSG write and hands it to the chip.
    pub fn write_psg(&mut self, value: u8)
        requires
            old(self)@.wf(),
        ensures
            final(self)@ == psg_put(old(self)@, value),
            final(self)@.wf(),
    {
        self.psg_timed_write_trace.push(
            TimedPsgWrite {
                master_tick: self.stamp.master_tick,
                frame: self.stamp.frame,
                scanline: self.stamp.scanline,
                value,
            },
        );
        self.psg.write(value);
    }

    /// Writes an I/O register.
    fn write_io(&mut self, addr: u32, val: u8)
        ensures
            final(self)@ == io_written(old(self)@, addr, val),
    {
        let reg: u32 = addr % 0x20;
        if reg == 2 || reg == 3 {
            self.port1.write_data(val);
        } else if reg == 4 || reg == 5 {
            self.port2.write_data(val);
        } else if reg == 8 || reg == 9 {
            self.port1.write_ctrl(val);
        } else if reg == 0x0A || reg == 0x0B {
            self.port2.write_ctrl(val);
        }
    }

    /// Writes a control register.
    fn write_control_line(&mut self, addr: u32, data: u8)
        ensures
            final(self)@ == control_written_byte(old(self)@, addr, data),
    {
        let reg: u32 = addr % 0x1_0000;
        if reg == 0x1100 || reg == 0x1101 {
            let requested = data % 2 == 1;
            if self.z80_bus_requested && !requested {
                self.z80_bus_released_this_scanline = true;
            }
            self.z80_bus_requested = requested;
        } else if reg == 0x1200 || reg == 0x1201 {
            let reset = data % 2 == 0;
            if self.z80_reset && !reset {
                self.z80_reset_pending = true;
            }
            self.z80_reset = reset;
        }
    }

    /// Counts a write to the driver area.
    fn count_driver_write(&mut self, a: u32, bytes: u32)
        ensures
            final(self)@ == driver_counted(old(self)@, a, bytes),
    {
        if a <= 0xFF {
            self.z80_driver_write_count = self.z80_driver_write_count.wrapping_add(bytes);
            self.z80_driver_last_write_frame = self.stamp.frame;
        }
    }

    /// Traces a sound command.
    fn trace_command(&mut self, a: u32, val: u8)
        ensures
            final(self)@ == command_traced(old(self)@, a, val),
    {
        if a == 0x1FFF && self.z80_cmd_trace.len() < 100 {
            self.z80_cmd_trace.push((self.stamp.frame, val));
        }
    }

    /// Stores a byte in the Z80 RAM.
    fn set_z80_ram(&mut self, index: usize, val: u8)
        requires
            index < 0x2000,
        ensures
            final(self)@ == (BusState {
                z80_ram: old(self)@.z80_ram.update(index as int, val),
                ..old(self)@
            }),
    {
        self.z80_ram[index] = val;
    }

    /// Stores a byte in the work RAM.
    fn set_work_ram(&mut self, index: usize, val: u8)
        requires
            index < 0x1_0000,
        ensures
            final(self)@ == (BusState {
                work_ram: old(self)@.work_ram.update(index as int, val),
                ..old(self)@
            }),
    {
        self.work_ram[index] = val;
    }

    /// Writes a byte to the Z80 area.
    fn write_z80_area(&mut self, addr: u32, val: u8)
        requires
            old(self)@.wf(),
        ensures
            final(self)@ == z80_area_written(old(self)@, addr, val),
            final(self)@.wf(),
    {
        let a: u32 = addr % 0x1_0000;
        if a <= 0x1FFF {
            self.trace_command(a, val);
            self.count_driver_write(a, 1);
            self.set_z80_ram(a as usize, val);
        } else if a <= 0x3FFF {
            self.set_z80_ram((a % 0x2000) as usize, val);
        } else if a == 0x4000 {
            self.write_ym2612_address(0, val);
        } else if a == 0x4001 {
            self.write_ym2612_data(0, val);
        } else if a == 0x4002 {
            self.write_ym2612_address(1, val);
        } else if a == 0x4003 {
            self.write_ym2612_data(1, val);
        }
    }

    /// Writes a word to the Z80 area.
    fn write_z80_area_word(&mut self, addr: u32, hi: u8, lo: u8)
        requires
            old(self)@.wf(),
        ensures
            final(self)@ == z80_area_word_written(old(self)@, addr, hi, lo),
            final(self)@.wf(),
    {
        let a: u32 = addr % 0x1_0000;
        if a <= 0x3FFF {
            self.count_driver_write(a, 2);
            self.set_z80_ram((a % 0x2000) as usize, hi);
            self.set_z80_ram(((a + 1) % 0x2000) as usize, lo);
        } else if a == 0x4000 {
            self.write_ym2612_pair(0, hi, lo);
        } else if a == 0x4002 {
            self.write_ym2612_pair(1, hi, lo);
        }
    }

    /// Writes an address and its data to the YM2612.
    fn write_ym2612_pair(&mut self, port: u8, addr: u8, value: u8)
        requires
            old(self)@.wf(),
        ensures
            final(self)@ == ym_data_put(ym_address_put(old(self)@, port, addr), port, value),
            final(self)@.wf(),
    {
        self.write_ym2612_address(port, addr);
        self.write_ym2612_data(port, value);
    }

    /// Latches a YM2612 address.
    fn write_ym2612_address(&mut self, port: u8, value: u8)
        requires
            old(self)@.wf(),
        ensures
            final(self)@ == ym_address_put(old(self)@, port, value),
            final(self)@.wf(),
    {
        self.ym2612.write_address(port, value);
    }

    /// Writes the VDP data port.
    fn write_vdp_data(&mut self, val: u16)
        requires
            old(self)@.wf(),
        ensures
            final(self)@ == (BusState {
                vdp: old(self)@.vdp.with_core(data_written(old(self)@.vdp.core, val)),
                ..old(self)@
            }),
            final(self)@.wf(),
    {
        self.vdp.write_data(val);
    }

    /// Writes the VDP control port.
    fn write_vdp_control(&mut self, val: u16)
        requires
            old(self)@.wf(),
        ensures
            final(self)@ == (BusState {
                vdp: old(self)@.vdp.with_core(control_written(old(self)@.vdp.core, val)),
                ..old(self)@
            }),
            final(self)@.wf(),
    {
        self.vdp.write_control(val);
    }

    /// Writes the PSG without tracing the write.
    fn write_psg_untraced(&mut self, value: u8)
        requires
            old(self)@.wf(),
        ensures
            final(self)@ == (BusState { psg: psg_write(old(self)@.psg, value), ..old(self)@ }),
            final(self)@.wf(),
    {
        self.psg.write(value);
    }

    /// Writes a word to the VDP ports.
    fn write_vdp_word(&mut self, addr: u32, val: u16)
        requires
            old(self)@.wf(),
        ensures
            final(self)@ == vdp_word_written(old(self)@, addr, val),
            final(self)@.wf(),
    {
        let port: u32 = addr % 0x20;
        if port == 0 || port == 2 {
            self.write_vdp_data(val);
        } else if port == 4 || port == 6 {
            self.write_vdp_control(val);
        } else if port == 0x10 || port == 0x12 || port == 0x14 || port == 0x16 {
            self.write_psg_untraced((val % 0x100) as u8);
        }
    }

    /// Shifts a bit into the bank register.
    fn shift_bank(&mut self, val: u8)
        ensures
            final(self)@ == (BusState {
                z80_bank: bank_shifted(old(self)@.z80_bank, val),
                ..old(self)@
            }),
    {
        let bank: u32 = self.z80_bank;
        let low: u32 = ((bank / 2) % 0x80_0000) / 0x8000 * 0x8000;
        self.z80_bank = if val % 2 == 1 || (bank / 0x100_0000) % 2 == 1 {
            low + 0x80_0000
        } else {
            low
        };
    }

    /// A byte of the banked ROM window.
    fn banked_byte(&self, addr: u16) -> (r: u8)
        ensures
            r == rom_at(self@, self@.z80_bank + addr % 0x8000),
    {
        let offset: u64 = self.z80_bank as u64 + (addr % 0x8000) as u64;
        if offset < self.rom.len() as u64 {
            self.rom[offset as usize]
        } else {
            0
        }
    }

    /// Reads a byte for the Z80.
    pub fn z80_read_byte(&self, addr: u16) -> (r: u8)
        ensures
            r == z80_byte_at(self@, addr),
    {
        if addr <= 0x3FFF {
            self.z80_ram[(addr % 0x2000) as usize]
        } else if addr <= 0x4003 {
            self.ym2612.read_status()
        } else if addr >= 0x8000 {
            self.banked_byte(addr)
        } else {
            0xFF
        }
    }

    /// Writes a byte for the Z80.
    pub fn z80_write_byte(&mut self, addr: u16, val: u8)
        requires
            old(self)@.wf(),
        ensures
            final(self)@ == z80_byte_written(old(self)@, addr, val),
            final(self)@.wf(),
    {
        if addr <= 0x3FFF {
            self.set_z80_ram((addr % 0x2000) as usize, val);
        } else if addr == 0x4000 {
            self.write_ym2612_address(0, val);
        } else if addr == 0x4001 {
            self.write_ym2612_data(0, val);
        } else if addr == 0x4002 {
            self.write_ym2612_address(1, val);
        } else if addr == 0x4003 {
            self.write_ym2612_data(1, val);
        } else if 0x6000 <= addr && addr <= 0x60FF {
            self.shift_bank(val);
        } else if 0x7F00 <= addr && addr <= 0x7FFF {
            self.write_psg(val);
        }
    }
}

impl CoreBus {
    /// Writes a byte for the host.
    pub fn host_write_byte(&mut self, addr: u32, val: u8)
        requires
            old(self)@.wf(),
        ensures
            final(self)@ == host_byte_written(old(self)@, addr, val),
            final(self)@.wf(),
    {
        reveal(byte_written);
        match map_region(addr) {
            BusRegion::WorkRam => self.write_byte(addr, val),
            BusRegion::IoRegisters => self.write_byte(addr, val),
            _ => {},
        }
    }

    /// Writes a word for the host.
    pub fn host_write_word(&mut self, addr: u32, val: u16)
        requires
            old(self)@.wf(),
        ensures
            final(self)@ == host_word_written(old(self)@, addr, val),
            final(self)@.wf(),
    {
        reveal(word_written);
        match map_region(addr) {
            BusRegion::WorkRam => self.write_word(addr, val),
            BusRegion::IoRegisters => self.write_word(addr, val),
            BusRegion::Vdp => {
                if addr % 0x20 <= 6 {
                    self.write_word(addr, val);
                }
            },
            _ => {},
        }
    }
}

impl Bus for CoreBus {
    type Model = BusState;

    open spec fn model(&self) -> BusState {
        self@
    }

    open spec fn valid(&self) -> bool {
        self@.wf()
    }

    open spec fn read_byte_model(m: BusState, addr: u32) -> (u8, BusState) {
        (byte_at(m, addr), m)
    }

    open spec fn read_word_model(m: BusState, addr: u32) -> (u16, BusState) {
        (word_at(m, addr), word_read(m, addr))
    }

    open spec fn write_byte_model(m: BusState, addr: u32, val: u8) -> BusState {
        byte_written(m, addr, val)
    }

    open spec fn write_word_model(m: BusState, addr: u32, val: u16) -> BusState {
        word_written(m, addr, val)
    }

    fn read_byte(&mut self, addr: u32) -> (r: u8) {
        self.peek_byte(addr)
    }

    fn read_word(&mut self, addr: u32) -> (r: u16) {
        reveal(word_at);
        reveal(word_read);
        match map_region(addr) {
            BusRegion::CartridgeRom => self.rom_word(addr),
            BusRegion::WorkRam => self.ram_word(addr),
            BusRegion::IoRegisters => self.read_io(addr) as u16,
            BusRegion::Z80Area => self.read_z80_area_word(addr),
            BusRegion::ControlRegisters => self.read_control(addr) as u16 * 0x100,
            BusRegion::Vdp => self.read_vdp_word(addr),
            _ => 0,
        }
    }

    fn write_byte(&mut self, addr: u32, val: u8) {
        reveal(byte_written);
        match map_region(addr) {
            BusRegion::WorkRam => {
                self.set_work_ram((addr % 0x1_0000) as usize, val);
            },
            BusRegion::IoRegisters => {
                self.write_io(addr, val);
            },
            BusRegion::Z80Area => {
                self.write_z80_area(addr, val);
            },
            BusRegion::ControlRegisters => {
                self.write_control_line(addr, val);
            },
            BusRegion::Vdp => {
                let port: u32 = addr % 0x20;
                if port == 0x11 || port == 0x13 || port == 0x15 || port == 0x17 {
                    self.write_psg(val);
                }
            },
            _ => {},
        }
    }

    fn write_word(&mut self, addr: u32, val: u16) {
        reveal(word_written);
        let hi: u8 = (val / 0x100) as u8;
        let lo: u8 = (val % 0x100) as u8;
        match map_region(addr) {
            BusRegion::WorkRam => {
                let offset: usize = (addr % 0x1_0000) as usize;
                self.set_work_ram(offset, hi);
                self.set_work_ram(offset - offset % 2 + 1, lo);
            },
            BusRegion::Vdp => {
                self.write_vdp_word(addr, val);
            },
            BusRegion::IoRegisters => {
                self.write_io(addr, lo);
            },
            BusRegion::Z80Area => {
                self.write_z80_area_word(addr, hi, lo);
            },
            BusRegion::ControlRegisters => {
                self.write_control_line(addr, hi);
            },
            _ => {},
        }
    }
}

} // verus!
