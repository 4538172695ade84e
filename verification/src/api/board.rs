//! The mainboard: the 68000 with its bus and the cycle counters.
use vstd::prelude::*;

use crate::api::bus::{byte_at, odd_of, word_of, BusState, CoreBus, Stamp};
use crate::bus::{map_region, region_of, BusRegion};
use crate::cpu::engine::{Cpu, CpuState};
use crate::cpu::exception::{interrupt_accepted, interrupt_sem};
use crate::cpu::execute::{execute_sem, law_instruction_cycles};
use crate::cpu::operand::Machine;
use crate::cpu::{deliver_interrupt, execute_instruction, StatusRegister};
use crate::io::after_idle;
use crate::scheduler::{after_cpu_cycles, Scheduler};
use crate::vdp::{dma_length, dma_source, dma_transferred, VdpCore};

verus! {

/// The 68000, what it reaches, and the cycle counters.
pub struct Mainboard {
    /// Motorola 68000 CPU.
    pub cpu: Cpu,
    /// Everything on the bus.
    pub bus: CoreBus,
    /// Cycle scheduler.
    pub scheduler: Scheduler,
}

/// Mathematical model of the mainboard.
pub ghost struct BoardState {
    pub cpu: CpuState,
    pub bus: BusState,
    pub scheduler: Scheduler,
}

impl View for Mainboard {
    type V = BoardState;

    open spec fn view(&self) -> BoardState {
        BoardState { cpu: self.cpu@, bus: self.bus@, scheduler: self.scheduler }
    }
}

impl BoardState {
    /// The bus is well formed.
    pub open spec fn wf(self) -> bool {
        self.bus.wf()
    }

    /// The CPU executes nothing: halted, or stopped until an interrupt.
    pub open spec fn asleep(self) -> bool {
        self.cpu.halted || self.cpu.stopped
    }
}

// ── Instruction stream ───────────────────────────────────────────────────

/// A byte of the instruction stream. The Z80 area and the control registers hold
/// no instructions: they read as 0.
pub open spec fn code_byte(b: BusState, addr: u32) -> u8 {
    match region_of(addr) {
        BusRegion::Z80Area => 0,
        BusRegion::ControlRegisters => 0,
        _ => byte_at(b, addr),
    }
}

/// A word of the instruction stream.
pub open spec fn code_word(b: BusState, addr: u32) -> u16 {
    word_of(code_byte(b, addr), code_byte(b, addr.wrapping_add(1)))
}

/// A long word of the instruction stream.
pub open spec fn code_long(b: BusState, addr: u32) -> u32 {
    (code_word(b, addr) * 0x1_0000 + code_word(b, addr.wrapping_add(2))) as u32
}

/// The registers after the reset vectors are read: the stack pointer from
/// address 0, the program counter from address 4. A ROM without them leaves the
/// registers alone.
pub open spec fn vectors_loaded(s: BoardState) -> BoardState {
    if s.bus.rom.len() >= 8 {
        BoardState {
            cpu: CpuState { ssp: code_long(s.bus, 0), pc: code_long(s.bus, 4), ..s.cpu },
            ..s
        }
    } else {
        s
    }
}

/// The mainboard after the reset button: vectors read again, supervisor mode,
/// memories kept.
pub open spec fn soft_reset(s: BoardState) -> BoardState {
    let v = vectors_loaded(s);
    BoardState {
        cpu: CpuState { sr: StatusRegister::S, halted: false, stopped: false, ..v.cpu },
        ..v
    }
}

// ── Cycles ───────────────────────────────────────────────────────────────

/// The VDP core after CPU cycles: a DMA that holds the bus comes nearer to its
/// end.
pub open spec fn dma_drained(c: VdpCore, n: u32) -> VdpCore {
    VdpCore {
        dma_busy_cpu_cycles: if n >= c.dma_busy_cpu_cycles {
            0
        } else {
            (c.dma_busy_cpu_cycles - n) as u32
        },
        ..c
    }
}

/// The bus after CPU cycles: DMA accounting and the idle time of the ports.
pub open spec fn bus_elapsed(b: BusState, n: u32) -> BusState {
    BusState {
        vdp: b.vdp.with_core(dma_drained(b.vdp.core, n)),
        port1: after_idle(b.port1, n),
        port2: after_idle(b.port2, n),
        ..b
    }
}

/// The mainboard after CPU cycles have gone by.
#[verifier::opaque]
pub open spec fn elapsed(s: BoardState, n: u32) -> BoardState {
    BoardState {
        cpu: CpuState { cycles: s.cpu.cycles.wrapping_add(n as u64), ..s.cpu },
        bus: bus_elapsed(s.bus, n),
        scheduler: after_cpu_cycles(s.scheduler, n as u64),
    }
}

/// The mainboard with the time that sound writes are stamped with.
pub open spec fn stamped(s: BoardState, stamp: Stamp) -> BoardState {
    BoardState { bus: BusState { stamp, ..s.bus }, ..s }
}

/// The time by the VDP scanline and the scheduler.
pub open spec fn live_stamp(s: BoardState, frame: u64) -> Stamp {
    Stamp {
        frame,
        scanline: s.bus.vdp.core.scanline,
        master_tick: s.scheduler.master_ticks,
    }
}

// ── What the CPU does next ───────────────────────────────────────────────

/// One instruction: fetched at the program counter and executed.
#[verifier::opaque]
pub open spec fn instruction_run(s: BoardState) -> (u32, BoardState) {
    let m = Machine {
        cpu: s.cpu.with_pc(s.cpu.pc.wrapping_add(2)),
        bus: s.bus,
    };
    let (cycles, t) = execute_sem::<CoreBus>(m, code_word(s.bus, s.cpu.pc));
    (cycles, BoardState { cpu: t.cpu, bus: t.bus, ..s })
}

/// An interrupt request, taken where the level exceeds the mask.
#[verifier::opaque]
pub open spec fn interrupt_run(s: BoardState, level: u8) -> (u32, BoardState) {
    let (cycles, t) = interrupt_sem::<CoreBus>(Machine { cpu: s.cpu, bus: s.bus }, level);
    (cycles, BoardState { cpu: t.cpu, bus: t.bus, ..s })
}

/// The mainboard with the latched V-interrupt cleared.
pub open spec fn vint_cleared(s: BoardState) -> BoardState {
    BoardState {
        bus: BusState {
            vdp: s.bus.vdp.with_core(VdpCore { vint_pending: false, ..s.bus.vdp.core }),
            ..s.bus
        },
        ..s
    }
}

/// The latched V-interrupt, taken.
pub open spec fn vint_taken(s: BoardState) -> (u32, BoardState) {
    let (cycles, t) = interrupt_run(s, 6);
    (cycles, vint_cleared(t))
}

/// The V-interrupt is latched and the mask lets it through.
pub open spec fn vint_ready(s: BoardState) -> bool {
    s.bus.vdp.core.vint_pending && interrupt_accepted(s.cpu.sr, 6)
}

/// What the CPU does next, and the cycles it takes: it waits for a DMA that
/// holds the bus (at most `budget` cycles), takes the latched V-interrupt, or
/// executes an instruction. Asleep it does nothing.
#[verifier::opaque]
pub open spec fn slot_run(s: BoardState, budget: u32) -> (u32, BoardState) {
    let busy = s.bus.vdp.core.dma_busy_cpu_cycles;
    if busy > 0 {
        let n = if busy < budget {
            busy
        } else {
            budget
        };
        (n, elapsed(s, n))
    } else if vint_ready(s) {
        let (n, t) = vint_taken(s);
        (n, elapsed(t, n))
    } else if s.asleep() {
        (0, s)
    } else {
        let (n, t) = instruction_run(s);
        (n, elapsed(t, n))
    }
}

/// The mainboard after one CPU step: a DMA that holds the bus runs out first.
#[verifier::opaque]
pub open spec fn cpu_stepped(s: BoardState, frame: u64) -> BoardState {
    let t = stamped(s, live_stamp(s, frame));
    let busy = s.bus.vdp.core.dma_busy_cpu_cycles;
    let u = if busy > 0 {
        elapsed(t, busy)
    } else {
        t
    };
    slot_run(u, 1).1
}

/// The mainboard after an interrupt request and its cycles.
#[verifier::opaque]
pub open spec fn interrupt_elapsed(s: BoardState, level: u8) -> BoardState {
    let (n, t) = interrupt_run(s, level);
    elapsed(t, n)
}

// ── DMA ──────────────────────────────────────────────────────────────────

/// What a DMA reads: a word of ROM or work RAM, 0 elsewhere.
pub open spec fn source_word(rom: Seq<u8>, work_ram: Seq<u8>, addr: u32) -> u16 {
    let offset = (addr % 0x40_0000) as int;
    let hi = if offset < rom.len() {
        rom[offset]
    } else {
        0u8
    };
    let lo = if offset + 1 < rom.len() {
        rom[offset + 1]
    } else {
        0u8
    };
    let at = (addr % 0x1_0000) as int;
    match region_of(addr) {
        BusRegion::CartridgeRom => word_of(hi, lo),
        BusRegion::WorkRam => word_of(work_ram[at], work_ram[odd_of(at)]),
        _ => 0,
    }
}

/// The words of a pending DMA.
pub open spec fn dma_words(b: BusState) -> Seq<u16> {
    let c = b.vdp.core;
    Seq::new(
        dma_length(c) as nat,
        |i: int| source_word(b.rom, b.work_ram, (dma_source(c) + 2 * i) as u32),
    )
}

/// The bus after a pending DMA.
#[verifier::opaque]
pub open spec fn dma_run(b: BusState) -> BusState {
    if b.vdp.core.dma_pending {
        BusState { vdp: b.vdp.with_core(dma_transferred(b.vdp.core, dma_words(b))), ..b }
    } else {
        b
    }
}

// ── A scanline of the CPU ────────────────────────────────────────────────

/// How sound writes are stamped while the CPU runs.
#[derive(Debug, Clone, Copy, PartialEq, Eq, Structural)]
pub enum Clock {
    /// By the VDP scanline and the scheduler.
    Live { frame: u64 },
    /// By a scanline and the tick at which it started.
    Line { frame: u64, line: u16, start: u64 },
}

/// The mainboard stamped after `consumed` cycles of a scanline.
pub open spec fn clocked(s: BoardState, clock: Clock, consumed: u64) -> BoardState {
    match clock {
        Clock::Live { frame } => stamped(s, live_stamp(s, frame)),
        Clock::Line { frame, line, start } => stamped(
            s,
            Stamp { frame, scanline: line, master_tick: (start + consumed * 7) as u64 },
        ),
    }
}

/// One step of a scanline: what the CPU does next, then a pending DMA.
#[verifier::opaque]
pub open spec fn line_step(s: BoardState, clock: Clock, consumed: u64) -> (u32, BoardState) {
    let (n, t) = slot_run(clocked(s, clock, consumed), (488 - consumed) as u32);
    (n, BoardState { bus: dma_run(t.bus), ..t })
}

/// The mainboard after the CPU has run to the end of a scanline, and the cycles
/// consumed. The CPU stops early when it falls asleep.
pub open spec fn line_run(s: BoardState, clock: Clock, consumed: u64) -> (u64, BoardState)
    decreases
            if consumed < 488 {
                488 - consumed
            } else {
                0
            },
{
    if consumed >= 488 {
        (consumed, s)
    } else {
        let (n, t) = line_step(s, clock, consumed);
        if t.asleep() || n == 0 {
            ((consumed + n) as u64, t)
        } else {
            line_run(t, clock, (consumed + n) as u64)
        }
    }
}

// ── Executable mainboard ─────────────────────────────────────────────────

/// A word that a DMA reads from ROM or work RAM.
fn read_dma_word(rom: &Vec<u8>, work_ram: &[u8; 0x1_0000], addr: u32) -> (r: u16)
    ensures
        r == source_word(rom@, work_ram@, addr),
{
    match map_region(addr) {
        BusRegion::CartridgeRom => {
            let offset: usize = (addr % 0x40_0000) as usize;
            let hi: u8 = if offset < rom.len() {
                rom[offset]
            } else {
                0
            };
            let lo: u8 = if offset + 1 < rom.len() {
                rom[offset + 1]
            } else {
                0
            };
            hi as u16 * 0x100 + lo as u16
        },
        BusRegion::WorkRam => {
            let offset: usize = (addr % 0x1_0000) as usize;
            work_ram[offset] as u16 * 0x100 + work_ram[offset - offset % 2 + 1] as u16
        },
        _ => 0,
    }
}

impl CoreBus {
    /// Executes a pending VDP DMA.
    pub fn execute_vdp_dma(&mut self)
        requires
            old(self)@.wf(),
        ensures
            final(self)@ == dma_run(old(self)@),
            final(self)@.wf(),
    {
        reveal(dma_run);
        let ghost b = self@;
        let rom = &self.rom;
        let work_ram = &self.work_ram;
        let read_word = |addr: u32| -> (r: u16)
            ensures
                r == source_word(rom@, work_ram@, addr),
            { read_dma_word(rom, work_ram, addr) };
        self.vdp.run_dma(read_word);
        proof {
            if b.vdp.core.dma_pending {
                let c = b.vdp.core;
                let words = choose|words: Seq<u16>|
                    {
                        &&& words.len() == dma_length(c)
                        &&& forall|i: int|
                            0 <= i < words.len() ==> call_ensures(
                                read_word,
                                ((dma_source(c) + 2 * i) as u32,),
                                #[trigger] words[i],
                            )
                        &&& self.vdp@ == b.vdp.with_core(#[trigger] dma_transferred(c, words))
                    };
                assert(words =~= dma_words(b));
            }
        }
    }

    /// Lets CPU cycles go by for the VDP and the ports.
    fn elapse(&mut self, n: u32)
        requires
            old(self)@.wf(),
        ensures
            final(self)@ == bus_elapsed(old(self)@, n),
            final(self)@.wf(),
    {
        self.vdp.advance_dma_busy(n);
        self.port1.advance_cycles(n);
        self.port2.advance_cycles(n);
    }

    /// A byte of the instruction stream.
    pub fn code_byte(&self, addr: u32) -> (r: u8)
        ensures
            r == code_byte(self@, addr),
    {
        match map_region(addr) {
            BusRegion::Z80Area => 0,
            BusRegion::ControlRegisters => 0,
            _ => self.peek_byte(addr),
        }
    }

    /// A word of the instruction stream.
    pub fn code_word(&self, addr: u32) -> (r: u16)
        ensures
            r == code_word(self@, addr),
    {
        let hi: u8 = self.code_byte(addr);
        let lo: u8 = self.code_byte(addr.wrapping_add(1));
        hi as u16 * 0x100 + lo as u16
    }

    /// A long word of the instruction stream.
    pub fn code_long(&self, addr: u32) -> (r: u32)
        ensures
            r == code_long(self@, addr),
    {
        let hi: u16 = self.code_word(addr);
        let lo: u16 = self.code_word(addr.wrapping_add(2));
        hi as u32 * 0x1_0000 + lo as u32
    }
}

impl Mainboard {
    /// Reads the reset vectors.
    pub fn load_vectors(&mut self)
        requires
            old(self)@.wf(),
        ensures
            final(self)@ == vectors_loaded(old(self)@),
            final(self)@.wf(),
    {
        if self.bus.rom.len() >= 8 {
            self.cpu.ssp = self.bus.code_long(0);
            self.cpu.pc = self.bus.code_long(4);
        }
    }

    /// The reset button: vectors are read again, memories are kept.
    pub fn reset(&mut self)
        requires
            old(self)@.wf(),
        ensures
            final(self)@ == soft_reset(old(self)@),
            final(self)@.wf(),
    {
        self.load_vectors();
        self.cpu.sr = StatusRegister::new(StatusRegister::S);
        self.cpu.halted = false;
        self.cpu.stopped = false;
    }

    /// Lets CPU cycles go by.
    fn elapse(&mut self, n: u32)
        requires
            old(self)@.wf(),
        ensures
            final(self)@ == elapsed(old(self)@, n),
            final(self)@.wf(),
    {
        reveal(elapsed);
        self.cpu.cycles = self.cpu.cycles.wrapping_add(n as u64);
        self.bus.elapse(n);
        self.scheduler.advance_cpu(n as u64);
    }

    /// Sets the time that sound writes are stamped with.
    pub fn stamp(&mut self, stamp: Stamp)
        ensures
            final(self)@ == stamped(old(self)@, stamp),
            old(self)@.wf() ==> final(self)@.wf(),
    {
        self.bus.stamp = stamp;
    }

    /// The time by the VDP scanline and the scheduler.
    fn live(&self, frame: u64) -> (r: Stamp)
        ensures
            r == live_stamp(self@, frame),
    {
        Stamp {
            frame,
            scanline: self.bus.vdp.scanline(),
            master_tick: self.scheduler.master_ticks(),
        }
    }

    /// Fetches and executes one instruction.
    fn run_instruction(&mut self) -> (r: u32)
        requires
            old(self)@.wf(),
        ensures
            (r, final(self)@) == instruction_run(old(self)@),
            4 <= r <= 158,
            final(self)@.wf(),
    {
        reveal(instruction_run);
        let opcode: u16 = self.bus.code_word(self.cpu.pc);
        self.cpu.pc = self.cpu.pc.wrapping_add(2);
        proof {
            law_instruction_cycles::<CoreBus>(
                Machine { cpu: self.cpu@, bus: self.bus@ },
                opcode,
            );
        }
        execute_instruction(&mut self.cpu, opcode, &mut self.bus)
    }

    /// Requests an interrupt. Returns the cycles it took, 0 where it is masked.
    fn run_interrupt(&mut self, level: u8) -> (r: u32)
        requires
            old(self)@.wf(),
        ensures
            (r, final(self)@) == interrupt_run(old(self)@, level),
            r == if interrupt_accepted(old(self)@.cpu.sr, level) {
                44u32
            } else {
                0
            },
            final(self)@.wf(),
    {
        reveal(interrupt_run);
        deliver_interrupt(&mut self.cpu, &mut self.bus, level)
    }

    /// Requests an interrupt and lets its cycles go by.
    pub fn interrupt(&mut self, level: u8)
        requires
            old(self)@.wf(),
        ensures
            final(self)@ == interrupt_elapsed(old(self)@, level),
            final(self)@.wf(),
    {
        reveal(interrupt_elapsed);
        let n: u32 = self.run_interrupt(level);
        self.elapse(n);
    }

    /// Takes the latched V-interrupt.
    fn take_vint(&mut self) -> (r: u32)
        requires
            old(self)@.wf(),
            vint_ready(old(self)@),
        ensures
            (r, final(self)@) == vint_taken(old(self)@),
            r == 44,
            final(self)@.wf(),
    {
        let n: u32 = self.run_interrupt(6);
        self.bus.vdp.clear_vint_pending();
        n
    }

    /// Takes the latched V-interrupt and lets its cycles go by.
    pub fn vint(&mut self)
        requires
            old(self)@.wf(),
            vint_ready(old(self)@),
        ensures
            final(self)@ == elapsed(vint_taken(old(self)@).1, vint_taken(old(self)@).0),
            final(self)@.wf(),
    {
        let n: u32 = self.take_vint();
        self.elapse(n);
    }

    /// Whether the V-interrupt is latched and the mask lets it through.
    pub fn vint_is_ready(&self) -> (r: bool)
        ensures
            r == vint_ready(self@),
    {
        self.bus.vdp.vint_pending() && 6 > self.cpu.sr.interrupt_mask()
    }

    /// Whether the CPU executes nothing.
    pub fn is_asleep(&self) -> (r: bool)
        ensures
            r == self@.asleep(),
    {
        self.cpu.halted || self.cpu.stopped
    }

    /// Lets the CPU do what it does next: wait for a DMA, take the latched
    /// V-interrupt or execute an instruction. Returns the cycles it took.
    fn run_slot(&mut self, budget: u32) -> (r: u32)
        requires
            old(self)@.wf(),
            budget >= 1,
        ensures
            (r, final(self)@) == slot_run(old(self)@, budget),
            r <= budget || r <= 158,
            !old(self)@.asleep() ==> r >= 1,
            final(self)@.wf(),
    {
        reveal(slot_run);
        let busy: u32 = self.bus.vdp.dma_busy_cpu_cycles();
        if busy > 0 {
            let n: u32 = if busy < budget {
                busy
            } else {
                budget
            };
            self.elapse(n);
            n
        } else if self.vint_is_ready() {
            let n: u32 = self.take_vint();
            self.elapse(n);
            n
        } else if self.is_asleep() {
            0
        } else {
            let n: u32 = self.run_instruction();
            self.elapse(n);
            n
        }
    }

    /// Executes one CPU instruction, once a DMA that holds the bus is over; or
    /// takes the latched V-interrupt. Nothing happens while the CPU is asleep.
    pub fn step_cpu(&mut self, frame: u64)
        requires
            old(self)@.wf(),
        ensures
            final(self)@ == cpu_stepped(old(self)@, frame),
            final(self)@.wf(),
    {
        reveal(cpu_stepped);
        let stamp = self.live(frame);
        self.stamp(stamp);
        let busy: u32 = self.bus.vdp.dma_busy_cpu_cycles();
        if busy > 0 {
            self.elapse(busy);
        }
        let _ = self.run_slot(1);
    }

    /// Stamps the time after `consumed` cycles of a scanline.
    fn set_clock(&mut self, clock: Clock, consumed: u64)
        requires
            clock matches Clock::Line { frame, line, start } ==> start + consumed * 7 <= u64::MAX,
        ensures
            final(self)@ == clocked(old(self)@, clock, consumed),
            old(self)@.wf() ==> final(self)@.wf(),
    {
        match clock {
            Clock::Live { frame } => {
                let stamp = self.live(frame);
                self.stamp(stamp);
            },
            Clock::Line { frame, line, start } => {
                self.stamp(
                    Stamp { frame, scanline: line, master_tick: start + consumed * 7 },
                );
            },
        }
    }

    /// One step of a scanline.
    fn step_line(&mut self, clock: Clock, consumed: u64) -> (r: u32)
        requires
            old(self)@.wf(),
            consumed < 488,
            clock matches Clock::Line { frame, line, start } ==> start <= u64::MAX - 0x1_0000,
        ensures
            (r, final(self)@) == line_step(old(self)@, clock, consumed),
            r <= 488,
            final(self)@.wf(),
    {
        reveal(line_step);
        self.set_clock(clock, consumed);
        let n: u32 = self.run_slot((488 - consumed) as u32);
        self.bus.execute_vdp_dma();
        n
    }

    /// Runs the CPU to the end of a scanline, about 488 cycles. Returns the
    /// cycles consumed.
    pub fn run_line(&mut self, clock: Clock) -> (r: u64)
        requires
            old(self)@.wf(),
            clock matches Clock::Line { frame, line, start } ==> start <= u64::MAX - 0x1_0000,
        ensures
            (r, final(self)@) == line_run(old(self)@, clock, 0),
            r <= 1000,
            final(self)@.wf(),
    {
        let mut consumed: u64 = 0;
        let mut done = false;
        while !done && consumed < 488
            invariant
                self@.wf(),
                consumed <= 976,
                clock matches Clock::Line { frame, line, start } ==> start <= u64::MAX - 0x1_0000,
                done ==> (consumed, self@) == line_run(old(self)@, clock, 0),
                !done ==> line_run(self@, clock, consumed) == line_run(old(self)@, clock, 0),
            decreases
                    if done || consumed >= 488 {
                        0
                    } else {
                        489 - consumed
                    },
        {
            let n: u32 = self.step_line(clock, consumed);
            consumed = consumed + n as u64;
            done = n == 0 || self.is_asleep();
        }
        consumed
    }
}

} // verus!
