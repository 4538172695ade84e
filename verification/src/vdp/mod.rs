//! Sega Genesis VDP (Video Display Processor), Yamaha YM7101: memories, ports,
//! DMA and line timing.
//!
//! The 68000 talks to the VDP through two 16-bit ports: the data port moves
//! words in and out of VRAM, CRAM and VSRAM, the control port takes register
//! writes and two-word commands that set the address and the access type.
//! [`render`] turns the memories into pixels.
use vstd::prelude::*;

use crate::scheduler::Region;

pub mod laws;
pub mod render;
pub mod render_laws;

verus! {

/// VRAM size in bytes.
pub const VRAM_SIZE: usize = 0x10000;

/// Number of CRAM entries (9-bit RGB color values stored as u16).
pub const CRAM_ENTRIES: usize = 64;

/// Number of VSRAM entries (vertical scroll values).
pub const VSRAM_ENTRIES: usize = 40;

/// Number of VDP registers.
pub const VDP_REGISTER_COUNT: usize = 24;

/// VDP access type set by the control port command words.
#[derive(Debug, Clone, Copy, PartialEq, Eq, Structural)]
pub enum AccessType {
    VramRead,
    VramWrite,
    CramRead,
    CramWrite,
    VsramRead,
    VsramWrite,
}

/// State of the control port command word parser.
#[derive(Debug, Clone, Copy, PartialEq, Eq, Structural)]
pub enum ControlState {
    /// Waiting for the first command word.
    Idle,
    /// Received first word, waiting for second.
    PendingSecond(u16),
}

/// DMA mode.
#[derive(Debug, Clone, Copy, PartialEq, Eq, Structural)]
pub enum DmaMode {
    /// 68K to VRAM/CRAM/VSRAM transfer.
    MemoryToVram,
    /// VRAM fill.
    Fill,
    /// VRAM to VRAM copy.
    Copy,
}

/// The DMA mode selected by the top two bits of register 0x17.
pub open spec fn dma_mode_of(reg: u8) -> DmaMode {
    if reg < 0x80 {
        DmaMode::MemoryToVram
    } else if reg < 0xC0 {
        DmaMode::Fill
    } else {
        DmaMode::Copy
    }
}

/// VDP snapshot for save states and rewind: everything but the framebuffer,
/// which rendering derives again.
#[derive(Debug, PartialEq, Eq)]
pub struct VdpSnapshot {
    pub vram: Vec<u8>,
    pub cram: Vec<u16>,
    pub vsram: Vec<u16>,
    pub registers: Vec<u8>,
    pub control_state: ControlState,
    pub address: u16,
    pub scanline: u16,
    pub dot: u16,
    pub auto_increment: u16,
    pub access_type: Option<AccessType>,
    pub in_vblank: bool,
    pub in_hblank: bool,
    pub dma_pending: bool,
    pub dma_fill_pending: bool,
    pub h_interrupt_counter: i16,
    pub h_interrupt_pending: bool,
    pub control_code: u8,
    pub odd_frame: bool,
    pub vint_pending: bool,
    pub dma_busy_cpu_cycles: u32,
    pub region: Region,
}

/// Mathematical model of the VDP without what rendering derives.
#[verifier::ext_equal]
pub ghost struct VdpCore {
    pub vram: Seq<u8>,
    pub cram: Seq<u16>,
    pub vsram: Seq<u16>,
    pub registers: Seq<u8>,
    pub control_state: ControlState,
    pub address: u16,
    pub scanline: u16,
    pub dot: u16,
    pub auto_increment: u16,
    pub access_type: Option<AccessType>,
    pub in_vblank: bool,
    pub in_hblank: bool,
    pub dma_pending: bool,
    pub dma_fill_pending: bool,
    pub h_interrupt_counter: i16,
    pub h_interrupt_pending: bool,
    pub control_code: u8,
    pub odd_frame: bool,
    pub vint_pending: bool,
    pub dma_busy_cpu_cycles: u32,
    pub region: Region,
}

/// Mathematical model of the VDP.
#[verifier::ext_equal]
pub ghost struct VdpState {
    pub core: VdpCore,
    pub framebuffer: Seq<u8>,
    pub frame_width: u16,
}

impl VdpCore {
    /// The memories have their sizes.
    pub open spec fn wf(self) -> bool {
        &&& self.vram.len() == 0x10000
        &&& self.cram.len() == 64
        &&& self.vsram.len() == 40
        &&& self.registers.len() == 24
    }

    /// H40 (320 pixels) is selected by both resolution bits of register 0x0C.
    pub open spec fn h40(self) -> bool {
        self.registers[0x0C] % 2 == 1 && self.registers[0x0C] >= 0x80
    }

    /// Horizontal resolution of the current mode.
    pub open spec fn width(self) -> u16 {
        if self.h40() {
            320
        } else {
            256
        }
    }

    /// The display is enabled (register 1, bit 6).
    pub open spec fn display(self) -> bool {
        (self.registers[1] / 0x40) % 2 == 1
    }
}

impl VdpState {
    /// The core is well formed, and the frame is 256 or 320 pixels wide.
    pub open spec fn wf(self) -> bool {
        &&& self.core.wf()
        &&& self.framebuffer.len() == 286_720
        &&& (self.frame_width == 320 || self.frame_width == 256)
    }

    /// The VDP with another core.
    pub open spec fn with_core(self, core: VdpCore) -> VdpState {
        VdpState { core, ..self }
    }
}

impl View for VdpSnapshot {
    type V = VdpCore;

    open spec fn view(&self) -> VdpCore {
        VdpCore {
            vram: self.vram@,
            cram: self.cram@,
            vsram: self.vsram@,
            registers: self.registers@,
            control_state: self.control_state,
            address: self.address,
            scanline: self.scanline,
            dot: self.dot,
            auto_increment: self.auto_increment,
            access_type: self.access_type,
            in_vblank: self.in_vblank,
            in_hblank: self.in_hblank,
            dma_pending: self.dma_pending,
            dma_fill_pending: self.dma_fill_pending,
            h_interrupt_counter: self.h_interrupt_counter,
            h_interrupt_pending: self.h_interrupt_pending,
            control_code: self.control_code,
            odd_frame: self.odd_frame,
            vint_pending: self.vint_pending,
            dma_busy_cpu_cycles: self.dma_busy_cpu_cycles,
            region: self.region,
        }
    }
}

impl VdpSnapshot {
    /// Whether the memories have their sizes.
    #[must_use]
    pub fn is_well_formed(&self) -> (r: bool)
        ensures
            r == self@.wf(),
    {
        self.vram.len() == 0x10000 && self.cram.len() == 64 && self.vsram.len() == 40
            && self.registers.len() == 24
    }
}

impl Clone for VdpSnapshot {
    fn clone(&self) -> (r: Self)
        ensures
            r@ == self@,
    {
        let r = VdpSnapshot {
            vram: self.vram.clone(),
            cram: self.cram.clone(),
            vsram: self.vsram.clone(),
            registers: self.registers.clone(),
            control_state: self.control_state,
            address: self.address,
            scanline: self.scanline,
            dot: self.dot,
            auto_increment: self.auto_increment,
            access_type: self.access_type,
            in_vblank: self.in_vblank,
            in_hblank: self.in_hblank,
            dma_pending: self.dma_pending,
            dma_fill_pending: self.dma_fill_pending,
            h_interrupt_counter: self.h_interrupt_counter,
            h_interrupt_pending: self.h_interrupt_pending,
            control_code: self.control_code,
            odd_frame: self.odd_frame,
            vint_pending: self.vint_pending,
            dma_busy_cpu_cycles: self.dma_busy_cpu_cycles,
            region: self.region,
        };
        assert(r@ =~= self@);
        r
    }
}

/// The VDP.
pub struct Vdp {
    /// 64KB Video RAM.
    pub vram: Box<[u8; 0x10000]>,
    /// Color RAM: 64 entries of 9-bit RGB.
    pub cram: [u16; 64],
    /// Vertical scroll RAM: per-column vertical scroll offsets.
    pub vsram: [u16; 40],
    /// VDP registers.
    pub registers: [u8; 24],
    /// Control port state machine.
    pub control_state: ControlState,
    /// Current VRAM/CRAM/VSRAM address for data port access.
    pub address: u16,
    /// Auto-increment value (register 0x0F).
    pub auto_increment: u16,
    /// Current access type.
    pub access_type: Option<AccessType>,
    /// Current scanline (0-261 NTSC).
    pub scanline: u16,
    /// Current dot within scanline.
    pub dot: u16,
    /// RGBA framebuffer, sized for 320x224; a 256-wide frame uses a packed
    /// prefix.
    pub framebuffer: Box<[u8; 286_720]>,
    /// Display width (in pixels) latched for the current frame. A mode change
    /// takes effect at the next frame, so that a frame has one stride.
    pub frame_width: u16,
    /// V-blank flag.
    pub in_vblank: bool,
    /// H-blank flag.
    pub in_hblank: bool,
    /// A control port write has triggered a transfer from 68K memory.
    pub dma_pending: bool,
    /// The next data port write supplies the value of a VRAM fill.
    pub dma_fill_pending: bool,
    /// H-interrupt counter (reloaded from register 0x0A).
    pub h_interrupt_counter: i16,
    /// The counter has expired with the H-interrupt enabled.
    pub h_interrupt_pending: bool,
    /// Combined control code (CD5-CD0) from two-word command sequence.
    pub control_code: u8,
    /// Toggles each frame.
    pub odd_frame: bool,
    /// Latched V-interrupt: raised at V-blank, held until the interrupt is
    /// taken.
    pub vint_pending: bool,
    /// Remaining CPU cycles for which a DMA holds the bus.
    pub dma_busy_cpu_cycles: u32,
    /// Television standard.
    pub region: Region,
}

impl View for Vdp {
    type V = VdpState;

    open spec fn view(&self) -> VdpState {
        VdpState {
            core: VdpCore {
                vram: self.vram@,
                cram: self.cram@,
                vsram: self.vsram@,
                registers: self.registers@,
                control_state: self.control_state,
                address: self.address,
                scanline: self.scanline,
                dot: self.dot,
                auto_increment: self.auto_increment,
                access_type: self.access_type,
                in_vblank: self.in_vblank,
                in_hblank: self.in_hblank,
                dma_pending: self.dma_pending,
                dma_fill_pending: self.dma_fill_pending,
                h_interrupt_counter: self.h_interrupt_counter,
                h_interrupt_pending: self.h_interrupt_pending,
                control_code: self.control_code,
                odd_frame: self.odd_frame,
                vint_pending: self.vint_pending,
                dma_busy_cpu_cycles: self.dma_busy_cpu_cycles,
                region: self.region,
            },
            framebuffer: self.framebuffer@,
            frame_width: self.frame_width,
        }
    }
}

// ── Behaviour ────────────────────────────────────────────────────────────

/// The power-on core: everything zero.
pub open spec fn power_on_vdp_core() -> VdpCore {
    VdpCore {
        vram: Seq::new(0x10000, |i: int| 0u8),
        cram: Seq::new(64, |i: int| 0u16),
        vsram: Seq::new(40, |i: int| 0u16),
        registers: Seq::new(24, |i: int| 0u8),
        control_state: ControlState::Idle,
        address: 0,
        scanline: 0,
        dot: 0,
        auto_increment: 0,
        access_type: None,
        in_vblank: false,
        in_hblank: false,
        dma_pending: false,
        dma_fill_pending: false,
        h_interrupt_counter: 0,
        h_interrupt_pending: false,
        control_code: 0,
        odd_frame: false,
        vint_pending: false,
        dma_busy_cpu_cycles: 0,
        region: Region::Ntsc,
    }
}

/// The power-on VDP.
pub open spec fn power_on_vdp() -> VdpState {
    VdpState {
        core: power_on_vdp_core(),
        framebuffer: Seq::new(286_720, |i: int| 0u8),
        frame_width: 320,
    }
}

/// The access type of a control code (its low four bits).
pub open spec fn access_of(code: int) -> Option<AccessType> {
    let k = code % 16;
    if k == 0 {
        Some(AccessType::VramRead)
    } else if k == 1 {
        Some(AccessType::VramWrite)
    } else if k == 8 {
        Some(AccessType::CramRead)
    } else if k == 3 {
        Some(AccessType::CramWrite)
    } else if k == 4 {
        Some(AccessType::VsramRead)
    } else if k == 5 {
        Some(AccessType::VsramWrite)
    } else {
        None
    }
}

/// The core after a register is written. Registers beyond the last are ignored;
/// register 0x0F is the auto-increment.
pub open spec fn with_register(c: VdpCore, reg: int, data: u8) -> VdpCore {
    if reg < 24 {
        VdpCore {
            registers: c.registers.update(reg, data),
            auto_increment: if reg == 0x0F {
                data as u16
            } else {
                c.auto_increment
            },
            ..c
        }
    } else {
        c
    }
}

/// The core after the second word of a command. The address has its low 14 bits
/// from the first word and its high two from the second; the control code has
/// its low two bits from the first and the other four from the second. Code bit
/// 5 starts a DMA where register 1 enables it.
pub open spec fn with_command(c: VdpCore, first: u16, second: u16) -> VdpCore {
    let code = first / 0x4000 + ((second / 16) % 16) * 4;
    let dma = code >= 32 && (c.registers[1] / 0x10) % 2 == 1;
    let mode = dma_mode_of(c.registers[0x17]);
    VdpCore {
        address: (first % 0x4000 + (second % 4) * 0x4000) as u16,
        control_code: code as u8,
        access_type: access_of(code),
        dma_pending: c.dma_pending || (dma && mode == DmaMode::MemoryToVram),
        dma_fill_pending: c.dma_fill_pending || (dma && mode == DmaMode::Fill),
        control_state: ControlState::Idle,
        ..c
    }
}

/// The core after a control port write: a register write (top bits 10), the
/// first word of a command, or the second.
pub open spec fn control_written(c: VdpCore, value: u16) -> VdpCore {
    match c.control_state {
        ControlState::Idle => if value / 0x4000 == 2 {
            with_register(c, ((value / 0x100) % 32) as int, (value % 0x100) as u8)
        } else {
            VdpCore { control_state: ControlState::PendingSecond(value), ..c }
        },
        ControlState::PendingSecond(first) => with_command(c, first, value),
    }
}

/// A color word cut to its nine bits: 0000 BBB0 GGG0 RRR0.
pub open spec fn color_bits(v: u16) -> u16 {
    (((v / 0x200) % 8) * 0x200 + ((v / 0x20) % 8) * 0x20 + ((v / 2) % 8) * 2) as u16
}

/// The core after a word is stored at its address, by access type. VRAM takes
/// two bytes and ignores the last address; CRAM and VSRAM are indexed by words
/// and cut to nine and eleven bits.
pub open spec fn word_stored(c: VdpCore, value: u16) -> VdpCore {
    let index = (c.address / 2) as int;
    match c.access_type {
        Some(AccessType::VramWrite) => if c.address < 0xFFFF {
            VdpCore {
                vram: c.vram.update(c.address as int, (value / 0x100) as u8).update(
                    c.address + 1,
                    (value % 0x100) as u8,
                ),
                ..c
            }
        } else {
            c
        },
        Some(AccessType::CramWrite) => if index < 64 {
            VdpCore { cram: c.cram.update(index, color_bits(value)), ..c }
        } else {
            c
        },
        Some(AccessType::VsramWrite) => if index < 40 {
            VdpCore { vsram: c.vsram.update(index, value % 0x800), ..c }
        } else {
            c
        },
        _ => c,
    }
}

/// The core after the address moves on by the auto-increment.
pub open spec fn address_stepped(c: VdpCore) -> VdpCore {
    VdpCore { address: c.address.wrapping_add(c.auto_increment), ..c }
}

/// The word that the data port reads, by access type; 0 outside the memories.
pub open spec fn data_word(c: VdpCore) -> u16 {
    let index = (c.address / 2) as int;
    match c.access_type {
        Some(AccessType::VramRead) => if c.address < 0xFFFF {
            (c.vram[c.address as int] * 0x100 + c.vram[c.address + 1]) as u16
        } else {
            0
        },
        Some(AccessType::CramRead) => if index < 64 {
            c.cram[index]
        } else {
            0
        },
        Some(AccessType::VsramRead) => if index < 40 {
            c.vsram[index]
        } else {
            0
        },
        _ => 0,
    }
}

/// The core after the data port is read.
pub open spec fn data_read(c: VdpCore) -> VdpCore {
    address_stepped(VdpCore { control_state: ControlState::Idle, ..c })
}

/// The DMA length in words (registers 0x13 and 0x14).
pub open spec fn dma_length(c: VdpCore) -> u32 {
    (c.registers[0x13] + c.registers[0x14] * 0x100) as u32
}

/// The first byte address of a DMA from 68K memory (registers 0x15 to 0x17).
pub open spec fn dma_source(c: VdpCore) -> u32 {
    ((c.registers[0x15] + c.registers[0x16] * 0x100 + (c.registers[0x17] % 0x80) * 0x1_0000) * 2)
        as u32
}

/// Words that DMA moves in one scanline: fewer in active display and in H32,
/// half for copies.
pub open spec fn dma_words_per_line(c: VdpCore, copy: bool) -> u32 {
    let blanking = c.in_vblank || !c.display();
    let words: u32 = if c.h40() {
        if blanking {
            102
        } else {
            9
        }
    } else if blanking {
        83
    } else {
        8
    };
    if copy {
        words / 2
    } else {
        words
    }
}

/// CPU cycles for which a DMA of `length` words holds the bus: whole scanlines,
/// rounded up.
pub open spec fn dma_cost(c: VdpCore, length: u32, copy: bool) -> u32 {
    let w = dma_words_per_line(c, copy);
    let lines = (length + w - 1) / w as int;
    if lines * 488 > u32::MAX {
        u32::MAX
    } else {
        (lines * 488) as u32
    }
}

/// The core after the first `n` of the given words are stored one by one.
pub open spec fn words_stored(c: VdpCore, words: Seq<u16>, n: nat) -> VdpCore
    decreases n,
{
    if n == 0 {
        c
    } else {
        address_stepped(word_stored(words_stored(c, words, (n - 1) as nat), words[n - 1]))
    }
}

/// The core after the DMA registers report a finished transfer of `length`
/// words: the source has moved on and the length is zero.
pub open spec fn dma_registers_done(c: VdpCore, length: u32) -> VdpCore {
    let source = dma_source(c) / 2 + length;
    let reg17 = (c.registers[0x17] / 0x80) * 0x80 + (source / 0x1_0000) % 0x80;
    VdpCore {
        registers: c.registers.update(0x15, (source % 0x100) as u8).update(
            0x16,
            ((source / 0x100) % 0x100) as u8,
        ).update(0x17, reg17 as u8).update(0x13, 0).update(0x14, 0),
        ..c
    }
}

/// The core after a transfer of the given words from 68K memory. A transfer of
/// length zero only clears the request.
pub open spec fn dma_transferred(c: VdpCore, words: Seq<u16>) -> VdpCore {
    let length = dma_length(c);
    let started = VdpCore { dma_pending: false, ..c };
    if length == 0 {
        started
    } else {
        let charged = VdpCore { dma_busy_cpu_cycles: dma_cost(c, length, false), ..started };
        dma_registers_done(words_stored(charged, words, length as nat), length)
    }
}

/// The core after the first `n` bytes of a VRAM fill.
pub open spec fn bytes_filled(c: VdpCore, byte: u8, n: nat) -> VdpCore
    decreases n,
{
    if n == 0 {
        c
    } else {
        let c1 = bytes_filled(c, byte, (n - 1) as nat);
        address_stepped(VdpCore { vram: c1.vram.update(c1.address as int, byte), ..c1 })
    }
}

/// The core after a VRAM fill: the word goes to the current address whatever
/// the access type, its high byte to the following `length - 1` addresses.
pub open spec fn dma_filled(c: VdpCore, value: u16) -> VdpCore {
    let length = dma_length(c);
    let charged = VdpCore {
        dma_busy_cpu_cycles: dma_cost(
            c,
            if length == 0 {
                1
            } else {
                length
            },
            false,
        ),
        ..c
    };
    let first = VdpCore {
        vram: if c.address < 0xFFFF {
            c.vram.update(c.address as int, (value / 0x100) as u8).update(
                c.address + 1,
                (value % 0x100) as u8,
            )
        } else {
            c.vram
        },
        ..charged
    };
    let rest: nat = if length == 0 {
        0
    } else {
        (length - 1) as nat
    };
    let filled = bytes_filled(address_stepped(first), (value / 0x100) as u8, rest);
    VdpCore { registers: filled.registers.update(0x13, 0).update(0x14, 0), ..filled }
}

/// The core after a data port write: a pending VRAM fill runs with the value,
/// else the word is stored.
pub open spec fn data_written(c: VdpCore, value: u16) -> VdpCore {
    let idle = VdpCore { control_state: ControlState::Idle, ..c };
    if c.dma_fill_pending {
        dma_filled(VdpCore { dma_fill_pending: false, ..idle }, value)
    } else {
        address_stepped(word_stored(idle, value))
    }
}

/// One status flag.
pub open spec fn status_bit(flag: bool, weight: int) -> int {
    if flag {
        weight
    } else {
        0
    }
}

/// The status register.
pub open spec fn status_word(c: VdpCore) -> u16 {
    (0x3600 + status_bit(c.dma_busy_cpu_cycles > 0, 0x02) + status_bit(c.in_hblank, 0x04)
        + status_bit(c.in_vblank, 0x08) + status_bit(c.odd_frame, 0x10) + status_bit(
        c.vint_pending,
        0x80,
    )) as u16
}

/// The HV counter: the line in the high byte (NTSC: after 0xEA it jumps back by
/// six), a coarse horizontal position in the low byte.
pub open spec fn hv_word(c: VdpCore) -> u16 {
    let v = if c.scanline <= 0xEA {
        c.scanline as int
    } else {
        (c.scanline - 6) % 0x100
    };
    let h = if c.in_hblank {
        0xE4int
    } else {
        0x08
    };
    (v * 0x100 + h) as u16
}

/// The core at the start of a scanline. The H-interrupt counter reloads at line
/// 0 and counts down on the active lines; below zero it reloads and, where
/// register 0 enables it, requests an interrupt.
pub open spec fn scanline_begun(c: VdpCore, line: u16) -> VdpCore {
    let c1 = VdpCore { scanline: line, in_hblank: true, ..c };
    let reload = c.registers[0x0A] as i16;
    if line == 0 {
        VdpCore { h_interrupt_counter: reload, ..c1 }
    } else if line < 224 {
        if c.h_interrupt_counter < 1 {
            VdpCore {
                h_interrupt_counter: reload,
                h_interrupt_pending: c.h_interrupt_pending || (c.registers[0] / 0x10) % 2 == 1,
                ..c1
            }
        } else {
            VdpCore { h_interrupt_counter: (c.h_interrupt_counter - 1) as i16, ..c1 }
        }
    } else {
        c1
    }
}

/// The core at the end of a frame.
pub open spec fn frame_ended(c: VdpCore) -> VdpCore {
    VdpCore { scanline: 0, in_hblank: false, odd_frame: !c.odd_frame, ..c }
}

// ── Executable VDP ───────────────────────────────────────────────────────

/// A color word cut to its nine bits.
fn cut_color(v: u16) -> (r: u16)
    ensures
        r == color_bits(v),
{
    ((v / 0x200) % 8) * 0x200 + ((v / 0x20) % 8) * 0x20 + ((v / 2) % 8) * 2
}

impl Vdp {
    /// Creates a new VDP in its power-on state.
    #[must_use]
    pub fn new() -> (r: Self)
        ensures
            r@ == power_on_vdp(),
            r@.wf(),
    {
        let r = Vdp {
            vram: Box::new([0u8; 0x10000]),
            cram: [0u16; 64],
            vsram: [0u16; 40],
            registers: [0u8; 24],
            control_state: ControlState::Idle,
            address: 0,
            auto_increment: 0,
            access_type: None,
            scanline: 0,
            dot: 0,
            framebuffer: Box::new([0u8; 286_720]),
            frame_width: 320,
            in_vblank: false,
            in_hblank: false,
            dma_pending: false,
            dma_fill_pending: false,
            h_interrupt_counter: 0,
            h_interrupt_pending: false,
            control_code: 0,
            odd_frame: false,
            vint_pending: false,
            dma_busy_cpu_cycles: 0,
            region: Region::Ntsc,
        };
        assert(r@ =~= power_on_vdp());
        r
    }

    /// Returns a reference to the RGBA framebuffer for the current frame, packed
    /// with a row stride equal to the active width.
    #[must_use]
    pub fn framebuffer(&self) -> (r: &[u8])
        requires
            self@.wf(),
        ensures
            r@ == self@.framebuffer.subrange(0, self@.frame_width * 224 * 4),
    {
        let len: usize = self.frame_width as usize * 224 * 4;
        vstd::slice::slice_subrange(self.framebuffer.as_slice(), 0, len)
    }

    /// Returns the width in pixels of the framebuffer for the current frame.
    #[must_use]
    pub fn display_width(&self) -> (r: u16)
        ensures
            r == self@.frame_width,
    {
        self.frame_width
    }

    /// Returns the current scanline.
    #[must_use]
    pub fn scanline(&self) -> (r: u16)
        ensures
            r == self@.core.scanline,
    {
        self.scanline
    }

    /// Returns true if in vertical blanking interval.
    #[must_use]
    pub fn in_vblank(&self) -> (r: bool)
        ensures
            r == self@.core.in_vblank,
    {
        self.in_vblank
    }

    /// Returns true if an H-interrupt is pending delivery to the CPU.
    #[must_use]
    pub fn h_interrupt_pending(&self) -> (r: bool)
        ensures
            r == self@.core.h_interrupt_pending,
    {
        self.h_interrupt_pending
    }

    /// Clears the pending H-interrupt flag after the CPU acknowledges it.
    pub fn clear_h_interrupt(&mut self)
        ensures
            final(self)@ == old(self)@.with_core(
                (VdpCore { h_interrupt_pending: false, ..old(self)@.core }),
            ),
    {
        self.h_interrupt_pending = false;
    }

    /// Writes to the VDP control port: register writes and the two-word command
    /// sequence.
    pub fn write_control(&mut self, value: u16)
        ensures
            final(self)@ == old(self)@.with_core(control_written(old(self)@.core, value)),
            old(self)@.wf() ==> final(self)@.wf(),
    {
        match self.control_state {
            ControlState::Idle => {
                if value / 0x4000 == 2 {
                    let reg: usize = ((value / 0x100) % 32) as usize;
                    let data: u8 = (value % 0x100) as u8;
                    if reg < 24 {
                        self.registers[reg] = data;
                        if reg == 0x0F {
                            self.auto_increment = data as u16;
                        }
                    }
                } else {
                    self.control_state = ControlState::PendingSecond(value);
                }
            },
            ControlState::PendingSecond(first) => {
                let code: u16 = first / 0x4000 + ((value / 16) % 16) * 4;
                self.address = first % 0x4000 + (value % 4) * 0x4000;
                self.control_code = code as u8;
                let kind: u16 = code % 16;
                self.access_type = if kind == 0 {
                    Some(AccessType::VramRead)
                } else if kind == 1 {
                    Some(AccessType::VramWrite)
                } else if kind == 8 {
                    Some(AccessType::CramRead)
                } else if kind == 3 {
                    Some(AccessType::CramWrite)
                } else if kind == 4 {
                    Some(AccessType::VsramRead)
                } else if kind == 5 {
                    Some(AccessType::VsramWrite)
                } else {
                    None
                };
                if code >= 32 && (self.registers[1] / 0x10) % 2 == 1 {
                    if self.registers[0x17] < 0x80 {
                        self.dma_pending = true;
                    } else if self.registers[0x17] < 0xC0 {
                        self.dma_fill_pending = true;
                    }
                }
                self.control_state = ControlState::Idle;
            },
        }
        assert(self@ =~= old(self)@.with_core(control_written(old(self)@.core, value)));
    }

    /// Stores a word at the current address, by access type.
    fn store_word(&mut self, value: u16)
        ensures
            final(self)@ == old(self)@.with_core(word_stored(old(self)@.core, value)),
    {
        match self.access_type {
            Some(AccessType::VramWrite) => {
                let addr: usize = self.address as usize;
                if addr < 0xFFFF {
                    self.vram[addr] = (value / 0x100) as u8;
                    self.vram[addr + 1] = (value % 0x100) as u8;
                }
            },
            Some(AccessType::CramWrite) => {
                let index: usize = (self.address / 2) as usize;
                if index < 64 {
                    self.cram[index] = cut_color(value);
                }
            },
            Some(AccessType::VsramWrite) => {
                let index: usize = (self.address / 2) as usize;
                if index < 40 {
                    self.vsram[index] = value % 0x800;
                }
            },
            _ => {},
        }
        assert(self@ =~= old(self)@.with_core(word_stored(old(self)@.core, value)));
    }

    /// Moves the address on by the auto-increment.
    fn step_address(&mut self)
        ensures
            final(self)@ == old(self)@.with_core(address_stepped(old(self)@.core)),
    {
        self.address = self.address.wrapping_add(self.auto_increment);
    }

    /// Writes to the VDP data port.
    pub fn write_data(&mut self, value: u16)
        ensures
            final(self)@ == old(self)@.with_core(data_written(old(self)@.core, value)),
            old(self)@.wf() ==> final(self)@.wf(),
    {
        self.control_state = ControlState::Idle;
        if self.dma_fill_pending {
            self.dma_fill_pending = false;
            self.execute_dma_fill(value);
            return;
        }
        self.store_word(value);
        self.step_address();
    }

    /// Reads from the VDP data port.
    #[must_use]
    pub fn read_data(&mut self) -> (r: u16)
        ensures
            r == data_word(old(self)@.core),
            final(self)@ == old(self)@.with_core(data_read(old(self)@.core)),
            old(self)@.wf() ==> final(self)@.wf(),
    {
        self.control_state = ControlState::Idle;
        let index: usize = (self.address / 2) as usize;
        let result: u16 = match self.access_type {
            Some(AccessType::VramRead) => {
                let addr: usize = self.address as usize;
                if addr < 0xFFFF {
                    self.vram[addr] as u16 * 0x100 + self.vram[addr + 1] as u16
                } else {
                    0
                }
            },
            Some(AccessType::CramRead) => {
                if index < 64 {
                    self.cram[index]
                } else {
                    0
                }
            },
            Some(AccessType::VsramRead) => {
                if index < 40 {
                    self.vsram[index]
                } else {
                    0
                }
            },
            _ => 0,
        };
        self.step_address();
        result
    }

    /// Reads a VDP register value; 0 beyond the last register.
    #[must_use]
    pub fn read_register(&self, reg: usize) -> (r: u8)
        ensures
            r == if reg < 24 {
                self@.core.registers[reg as int]
            } else {
                0
            },
    {
        if reg < 24 {
            self.registers[reg]
        } else {
            0
        }
    }

    /// Reads the VDP status register.
    #[must_use]
    pub fn read_status(&self) -> (r: u16)
        ensures
            r == status_word(self@.core),
    {
        let mut status: u16 = 0x3600;
        if self.in_vblank {
            status = status + 0x0008;
        }
        if self.odd_frame {
            status = status + 0x0010;
        }
        if self.in_hblank {
            status = status + 0x0004;
        }
        if self.dma_busy_cpu_cycles > 0 {
            status = status + 0x0002;
        }
        if self.vint_pending {
            status = status + 0x0080;
        }
        status
    }

    /// Returns the current HV counter value.
    #[must_use]
    pub fn read_hv_counter(&self) -> (r: u16)
        ensures
            r == hv_word(self@.core),
    {
        let v: u16 = if self.scanline <= 0xEA {
            self.scanline
        } else {
            (self.scanline - 6) % 0x100
        };
        let h: u16 = if self.in_hblank {
            0xE4
        } else {
            0x08
        };
        v * 0x100 + h
    }

    /// Returns true if a 68K-to-VRAM DMA is pending.
    #[must_use]
    pub fn dma_pending(&self) -> (r: bool)
        ensures
            r == self@.core.dma_pending,
    {
        self.dma_pending
    }

    /// Sets the V-blank flag.
    pub fn set_vblank(&mut self, val: bool)
        ensures
            final(self)@ == old(self)@.with_core(
                (VdpCore { in_vblank: val, ..old(self)@.core }),
            ),
    {
        self.in_vblank = val;
    }

    /// Returns true while a DMA holds the bus.
    #[must_use]
    pub fn dma_busy(&self) -> (r: bool)
        ensures
            r == (self@.core.dma_busy_cpu_cycles > 0),
    {
        self.dma_busy_cpu_cycles > 0
    }

    /// Returns the number of CPU cycles for which the current DMA still holds
    /// the bus.
    #[must_use]
    pub fn dma_busy_cpu_cycles(&self) -> (r: u32)
        ensures
            r == self@.core.dma_busy_cpu_cycles,
    {
        self.dma_busy_cpu_cycles
    }

    /// Advances DMA-busy accounting by `cycles` CPU cycles.
    pub fn advance_dma_busy(&mut self, cycles: u32)
        ensures
            final(self)@ == old(self)@.with_core(
                (VdpCore {
                    dma_busy_cpu_cycles: if cycles >= old(self)@.core.dma_busy_cpu_cycles {
                        0
                    } else {
                        (old(self)@.core.dma_busy_cpu_cycles - cycles) as u32
                    },
                    ..old(self)@.core
                }),
            ),
    {
        self.dma_busy_cpu_cycles = if cycles >= self.dma_busy_cpu_cycles {
            0
        } else {
            self.dma_busy_cpu_cycles - cycles
        };
    }

    /// Returns true if a V-interrupt is latched and awaiting delivery.
    #[must_use]
    pub fn vint_pending(&self) -> (r: bool)
        ensures
            r == self@.core.vint_pending,
    {
        self.vint_pending
    }

    /// Latches the V-interrupt-pending flag.
    pub fn set_vint_pending(&mut self)
        ensures
            final(self)@ == old(self)@.with_core(
                (VdpCore { vint_pending: true, ..old(self)@.core }),
            ),
    {
        self.vint_pending = true;
    }

    /// Clears the latched V-interrupt-pending flag.
    pub fn clear_vint_pending(&mut self)
        ensures
            final(self)@ == old(self)@.with_core(
                (VdpCore { vint_pending: false, ..old(self)@.core }),
            ),
    {
        self.vint_pending = false;
    }

    /// Returns true in H40 (40-cell, 320-pixel) mode. H40 requires both RS0
    /// (register 0x0C bit 0) and RS1 (bit 7).
    #[must_use]
    pub fn is_h40(&self) -> (r: bool)
        ensures
            r == self@.core.h40(),
    {
        self.registers[0x0C] % 2 == 1 && self.registers[0x0C] >= 0x80
    }

    /// Returns the horizontal screen width of the current mode.
    #[must_use]
    pub fn screen_width(&self) -> (r: u16)
        ensures
            r == self@.core.width(),
    {
        if self.is_h40() {
            320
        } else {
            256
        }
    }

    /// Returns true if the display is enabled (register 1, bit 6).
    #[must_use]
    pub fn display_enabled(&self) -> (r: bool)
        ensures
            r == self@.core.display(),
    {
        (self.registers[1] / 0x40) % 2 == 1
    }

    /// Computes the CPU-cycle cost of a DMA transfer of `length` words.
    #[must_use]
    pub fn dma_cost_cycles(&self, length: u32, copy: bool) -> (r: u32)
        ensures
            r == dma_cost(self@.core, length, copy),
    {
        let blanking = self.in_vblank || !self.display_enabled();
        let words: u32 = if self.is_h40() {
            if blanking {
                102
            } else {
                9
            }
        } else if blanking {
            83
        } else {
            8
        };
        let words_per_line: u32 = if copy {
            words / 2
        } else {
            words
        };
        let lines: u64 = (length as u64 + words_per_line as u64 - 1) / words_per_line as u64;
        assert(lines <= 0x1_0000_0000 + 101) by (nonlinear_arith)
            requires
                lines == (length as int + words_per_line as int - 1) / words_per_line as int,
                1 <= words_per_line <= 102,
        ;
        let cycles: u64 = lines * 488;
        if cycles > 0xFFFF_FFFF {
            0xFFFF_FFFF
        } else {
            cycles as u32
        }
    }

    /// Executes a pending 68K-to-VRAM/CRAM/VSRAM DMA transfer. `read_word` reads
    /// a word of the 68K address space; it is called at the source address and
    /// each second address after it.
    pub fn run_dma<F: Fn(u32) -> u16>(&mut self, read_word: F)
        requires
            forall|addr: u32| call_requires(read_word, (addr,)),
        ensures
            !old(self)@.core.dma_pending ==> final(self)@ == old(self)@,
            old(self)@.core.dma_pending ==> exists|words: Seq<u16>|
                {
                    &&& words.len() == dma_length(old(self)@.core)
                    &&& forall|i: int|
                        0 <= i < words.len() ==> call_ensures(
                            read_word,
                            ((dma_source(old(self)@.core) + 2 * i) as u32,),
                            #[trigger] words[i],
                        )
                    &&& final(self)@ == old(self)@.with_core(
                        #[trigger] dma_transferred(old(self)@.core, words),
                    )
                },
            old(self)@.wf() ==> final(self)@.wf(),
    {
        if !self.dma_pending {
            return;
        }
        let ghost before = self@;
        let ghost mut words: Seq<u16> = Seq::empty();
        self.dma_pending = false;
        let length: u32 = self.dma_length_words();
        if length == 0 {
            assert(self@ == before.with_core(dma_transferred(before.core, words)));
            return;
        }
        self.dma_busy_cpu_cycles = self.dma_cost_cycles(length, false);
        let ghost charged = self@.core;
        let source: u32 = self.dma_source_address();
        let mut n: u32 = 0;
        while n < length
            invariant
                n <= length,
                length <= 0xFFFF,
                source <= 0xFF_FFFF,
                source == dma_source(before.core),
                words.len() == n,
                forall|addr: u32| call_requires(read_word, (addr,)),
                forall|i: int|
                    0 <= i < words.len() ==> call_ensures(
                        read_word,
                        ((dma_source(before.core) + 2 * i) as u32,),
                        #[trigger] words[i],
                    ),
                self@ == before.with_core(words_stored(charged, words, n as nat)),
            decreases length - n,
        {
            let word: u16 = read_word(source + 2 * n);
            let ghost prev = words;
            proof {
                words = words.push(word);
                lemma_words_stored_prefix(charged, prev, words, n as nat);
            }
            self.store_word(word);
            self.step_address();
            n = n + 1;
        }
        proof {
            lemma_words_stored_frame(charged, words, length as nat);
        }
        self.finish_dma(length);
        assert(self@ == before.with_core(dma_transferred(before.core, words)));
    }

    /// The DMA length in words.
    fn dma_length_words(&self) -> (r: u32)
        ensures
            r == dma_length(self@.core),
            r <= 0xFFFF,
    {
        self.registers[0x13] as u32 + self.registers[0x14] as u32 * 0x100
    }

    /// The first byte address of a DMA from 68K memory.
    fn dma_source_address(&self) -> (r: u32)
        ensures
            r == dma_source(self@.core),
            r <= 0xFF_FFFF,
    {
        (self.registers[0x15] as u32 + self.registers[0x16] as u32 * 0x100 + (self.registers[0x17]
            % 0x80) as u32 * 0x1_0000) * 2
    }

    /// Lets the DMA registers report a finished transfer.
    fn finish_dma(&mut self, length: u32)
        requires
            length <= 0xFFFF,
        ensures
            final(self)@ == old(self)@.with_core(dma_registers_done(old(self)@.core, length)),
            old(self)@.wf() ==> final(self)@.wf(),
    {
        let source: u32 = self.dma_source_address() / 2 + length;
        let high: u8 = self.registers[0x17] / 0x80;
        self.registers[0x15] = (source % 0x100) as u8;
        self.registers[0x16] = ((source / 0x100) % 0x100) as u8;
        self.registers[0x17] = high * 0x80 + ((source / 0x1_0000) % 0x80) as u8;
        self.registers[0x13] = 0;
        self.registers[0x14] = 0;
    }

    /// Executes a VRAM fill DMA: the word at the current address, then its high
    /// byte at successive addresses.
    pub fn execute_dma_fill(&mut self, value: u16)
        ensures
            final(self)@ == old(self)@.with_core(dma_filled(old(self)@.core, value)),
            old(self)@.wf() ==> final(self)@.wf(),
    {
        let ghost before = self@;
        let length: u32 = self.dma_length_words();
        let charged: u32 = if length == 0 {
            1
        } else {
            length
        };
        self.dma_busy_cpu_cycles = self.dma_cost_cycles(charged, false);
        self.store_fill_word(value);
        self.step_address();
        let fill_byte: u8 = (value / 0x100) as u8;
        let ghost first = self@.core;
        let rest: u32 = if length == 0 {
            0
        } else {
            length - 1
        };
        let mut n: u32 = 0;
        while n < rest
            invariant
                n <= rest,
                self@ == before.with_core(bytes_filled(first, fill_byte, n as nat)),
            decreases rest - n,
        {
            self.store_fill_byte(fill_byte);
            self.step_address();
            n = n + 1;
        }
        proof {
            lemma_bytes_filled_frame(first, fill_byte, rest as nat);
        }
        self.registers[0x13] = 0;
        self.registers[0x14] = 0;
    }

    /// Stores the first word of a fill at the current VRAM address.
    fn store_fill_word(&mut self, value: u16)
        ensures
            final(self)@ == old(self)@.with_core(
                (VdpCore {
                    vram: if old(self)@.core.address < 0xFFFF {
                        old(self)@.core.vram.update(
                            old(self)@.core.address as int,
                            (value / 0x100) as u8,
                        ).update(old(self)@.core.address + 1, (value % 0x100) as u8)
                    } else {
                        old(self)@.core.vram
                    },
                    ..old(self)@.core
                }),
            ),
    {
        let addr: usize = self.address as usize;
        if addr < 0xFFFF {
            self.vram[addr] = (value / 0x100) as u8;
            self.vram[addr + 1] = (value % 0x100) as u8;
        }
    }

    /// Stores one byte of a fill at the current VRAM address.
    fn store_fill_byte(&mut self, byte: u8)
        ensures
            final(self)@ == old(self)@.with_core(
                (VdpCore {
                    vram: old(self)@.core.vram.update(old(self)@.core.address as int, byte),
                    ..old(self)@.core
                }),
            ),
    {
        self.vram[self.address as usize] = byte;
    }

    /// Called at the start of each scanline. Sets the H-blank flag and manages
    /// the H-interrupt counter.
    pub fn begin_scanline(&mut self, line: u16)
        requires
            old(self)@.wf(),
        ensures
            final(self)@ == old(self)@.with_core(scanline_begun(old(self)@.core, line)),
            final(self)@.wf(),
    {
        self.scanline = line;
        self.in_hblank = true;
        if line == 0 {
            self.h_interrupt_counter = self.registers[0x0A] as i16;
        } else if line < 224 {
            if self.h_interrupt_counter < 1 {
                self.h_interrupt_counter = self.registers[0x0A] as i16;
                if (self.registers[0] / 0x10) % 2 == 1 {
                    self.h_interrupt_pending = true;
                }
            } else {
                self.h_interrupt_counter = self.h_interrupt_counter - 1;
            }
        }
    }

    /// Called at the end of a visible frame. Resets the scanline counter.
    pub fn end_frame(&mut self)
        ensures
            final(self)@ == old(self)@.with_core(frame_ended(old(self)@.core)),
    {
        self.scanline = 0;
        self.in_hblank = false;
        self.odd_frame = !self.odd_frame;
    }

    /// Snapshot for save states.
    #[must_use]
    pub fn snapshot(&self) -> (r: VdpSnapshot)
        ensures
            r@ == self@.core,
    {
        let r = VdpSnapshot {
            vram: vstd::slice::slice_to_vec(self.vram.as_slice()),
            cram: vstd::slice::slice_to_vec(self.cram.as_slice()),
            vsram: vstd::slice::slice_to_vec(self.vsram.as_slice()),
            registers: vstd::slice::slice_to_vec(self.registers.as_slice()),
            control_state: self.control_state,
            address: self.address,
            scanline: self.scanline,
            dot: self.dot,
            auto_increment: self.auto_increment,
            access_type: self.access_type,
            in_vblank: self.in_vblank,
            in_hblank: self.in_hblank,
            dma_pending: self.dma_pending,
            dma_fill_pending: self.dma_fill_pending,
            h_interrupt_counter: self.h_interrupt_counter,
            h_interrupt_pending: self.h_interrupt_pending,
            control_code: self.control_code,
            odd_frame: self.odd_frame,
            vint_pending: self.vint_pending,
            dma_busy_cpu_cycles: self.dma_busy_cpu_cycles,
            region: self.region,
        };
        assert(r@ =~= self@.core);
        r
    }

    /// Restores VDP state from a snapshot. The framebuffer is left untouched;
    /// the frame width follows the restored registers.
    pub fn restore(&mut self, snap: &VdpSnapshot)
        requires
            snap@.wf(),
        ensures
            final(self)@.core == snap@,
            final(self)@.framebuffer == old(self)@.framebuffer,
            final(self)@.frame_width == snap@.width(),
            old(self)@.wf() ==> final(self)@.wf(),
    {
        let mut i: usize = 0;
        while i < 0x10000
            invariant
                i <= 0x10000,
                snap@.wf(),
                self.framebuffer@ == old(self).framebuffer@,
                forall|j: int| 0 <= j < i ==> self.vram@[j] == snap.vram@[j],
            decreases 0x10000 - i,
        {
            self.vram[i] = snap.vram[i];
            i = i + 1;
        }
        let mut i: usize = 0;
        while i < 64
            invariant
                i <= 64,
                snap@.wf(),
                self.framebuffer@ == old(self).framebuffer@,
                self.vram@ == snap.vram@,
                forall|j: int| 0 <= j < i ==> self.cram@[j] == snap.cram@[j],
            decreases 64 - i,
        {
            self.cram[i] = snap.cram[i];
            i = i + 1;
        }
        let mut i: usize = 0;
        while i < 40
            invariant
                i <= 40,
                snap@.wf(),
                self.framebuffer@ == old(self).framebuffer@,
                self.vram@ == snap.vram@,
                self.cram@ == snap.cram@,
                forall|j: int| 0 <= j < i ==> self.vsram@[j] == snap.vsram@[j],
            decreases 40 - i,
        {
            self.vsram[i] = snap.vsram[i];
            i = i + 1;
        }
        let mut i: usize = 0;
        while i < 24
            invariant
                i <= 24,
                snap@.wf(),
                self.framebuffer@ == old(self).framebuffer@,
                self.vram@ == snap.vram@,
                self.cram@ == snap.cram@,
                self.vsram@ == snap.vsram@,
                forall|j: int| 0 <= j < i ==> self.registers@[j] == snap.registers@[j],
            decreases 24 - i,
        {
            self.registers[i] = snap.registers[i];
            i = i + 1;
        }
        self.control_state = snap.control_state;
        self.address = snap.address;
        self.scanline = snap.scanline;
        self.dot = snap.dot;
        self.auto_increment = snap.auto_increment;
        self.access_type = snap.access_type;
        self.in_vblank = snap.in_vblank;
        self.in_hblank = snap.in_hblank;
        self.dma_pending = snap.dma_pending;
        self.dma_fill_pending = snap.dma_fill_pending;
        self.h_interrupt_counter = snap.h_interrupt_counter;
        self.h_interrupt_pending = snap.h_interrupt_pending;
        self.control_code = snap.control_code;
        self.odd_frame = snap.odd_frame;
        self.vint_pending = snap.vint_pending;
        self.dma_busy_cpu_cycles = snap.dma_busy_cpu_cycles;
        self.region = snap.region;
        self.frame_width = self.screen_width();
        assert(self@.core =~= snap@);
    }
}

impl Default for Vdp {
    fn default() -> (r: Self)
        ensures
            r@ == power_on_vdp(),
            r@.wf(),
    {
        Vdp::new()
    }
}

// ── Lemmas ───────────────────────────────────────────────────────────────

/// Storing a prefix depends on the prefix only.
proof fn lemma_words_stored_prefix(c: VdpCore, a: Seq<u16>, b: Seq<u16>, n: nat)
    requires
        n <= a.len(),
        n <= b.len(),
        forall|i: int| 0 <= i < n ==> a[i] == b[i],
    ensures
        words_stored(c, a, n) == words_stored(c, b, n),
    decreases n,
{
    if n > 0 {
        lemma_words_stored_prefix(c, a, b, (n - 1) as nat);
    }
}

/// Stored words change the memories and the address, nothing else.
pub proof fn lemma_words_stored_frame(c: VdpCore, words: Seq<u16>, n: nat)
    requires
        c.vram.len() == 0x10000,
        c.cram.len() == 64,
        c.vsram.len() == 40,
    ensures
        ({
            let d = words_stored(c, words, n);
            &&& d == VdpCore {
                vram: d.vram,
                cram: d.cram,
                vsram: d.vsram,
                address: d.address,
                ..c
            }
            &&& d.vram.len() == c.vram.len()
            &&& d.cram.len() == c.cram.len()
            &&& d.vsram.len() == c.vsram.len()
        }),
    decreases n,
{
    if n > 0 {
        lemma_words_stored_frame(c, words, (n - 1) as nat);
    }
}

/// A fill changes VRAM and the address, nothing else.
pub proof fn lemma_bytes_filled_frame(c: VdpCore, byte: u8, n: nat)
    requires
        c.vram.len() == 0x10000,
    ensures
        ({
            let d = bytes_filled(c, byte, n);
            &&& d == VdpCore { vram: d.vram, address: d.address, ..c }
            &&& d.vram.len() == c.vram.len()
        }),
    decreases n,
{
    if n > 0 {
        lemma_bytes_filled_frame(c, byte, (n - 1) as nat);
    }
}

} // verus!
