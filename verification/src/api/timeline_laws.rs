//! How time passes on the mainboard and on the audio timeline.
use vstd::prelude::*;

use crate::api::audio::{
    chip_written, first_later, next_step, output_tick, psg_clocked, queued, writes_ordered,
    ym_clocked, ym_replayed, Agenda, AudioState, AudioStep, EventState,
};
use crate::api::board::{
    clocked, elapsed, instruction_run, line_run, line_step, BoardState, Clock,
};
use crate::api::bus::{word_at, CoreBus};
use crate::api::bus_laws::law_big_endian;
use crate::api::state::TimedYm2612Write;
use crate::bus::region_of;
use crate::cpu::engine::CpuState;
use crate::cpu::execute::execute_sem;
use crate::cpu::operand::Machine;
use crate::psg::{channel_level, psg_ticked, psg_write};
use crate::ym2612::{chip_sampled, chip_samples};

verus! {

// ── The mainboard ────────────────────────────────────────────────────────

/// Each CPU cycle is seven master ticks and brings a DMA that holds the bus one
/// cycle nearer to its end. Registers and memories stay.
pub proof fn law_time_passes(s: BoardState, n: u32)
    ensures
        ({
            let t = elapsed(s, n);
            let busy = s.bus.vdp.core.dma_busy_cpu_cycles;
            &&& t.cpu == (CpuState { cycles: t.cpu.cycles, ..s.cpu })
            &&& t.cpu.cycles as int == (s.cpu.cycles + n) % 0x1_0000_0000_0000_0000
            &&& t.scheduler.cpu_cycles as int == (s.scheduler.cpu_cycles + n)
                % 0x1_0000_0000_0000_0000
            &&& t.scheduler.master_ticks as int == (s.scheduler.master_ticks + 7 * n)
                % 0x1_0000_0000_0000_0000
            &&& t.bus.vdp.core.dma_busy_cpu_cycles == if busy > n {
                busy - n
            } else {
                0
            }
            &&& t.bus.rom == s.bus.rom
            &&& t.bus.work_ram == s.bus.work_ram
            &&& t.bus.vdp.core.vram == s.bus.vdp.core.vram
            &&& t.bus.z80_ram == s.bus.z80_ram
            &&& t.bus.ym2612 == s.bus.ym2612
            &&& t.bus.psg == s.bus.psg
        }),
{
    reveal(elapsed);
}

/// An instruction is the word at the program counter, with the program counter
/// behind it.
pub proof fn law_instruction_at_pc(s: BoardState)
    requires
        s.bus.work_ram.len() == 0x1_0000,
        s.bus.z80_ram.len() == 0x2000,
        s.cpu.pc % 2 == 0,
        s.cpu.pc < 0x100_0000,
        region_of(s.cpu.pc) is CartridgeRom || region_of(s.cpu.pc) is WorkRam,
    ensures
        ({
            let m = Machine {
                cpu: CpuState { pc: (s.cpu.pc + 2) as u32, ..s.cpu },
                bus: s.bus,
            };
            let (n, t) = execute_sem::<CoreBus>(m, word_at(s.bus, s.cpu.pc));
            &&& instruction_run(s).0 == n
            &&& instruction_run(s).1 == (BoardState { cpu: t.cpu, bus: t.bus, ..s })
        }),
{
    reveal(instruction_run);
    law_big_endian(s.bus, s.cpu.pc);
    let next = (s.cpu.pc + 1) as u32;
    if region_of(s.cpu.pc) is CartridgeRom {
        assert(region_of(next) is CartridgeRom);
    } else {
        assert(region_of(next) is WorkRam);
    }
}

/// On a line the CPU runs until 488 cycles are gone, or until it sleeps or can do
/// nothing.
pub proof fn law_line_fills_its_cycles(s: BoardState, clock: Clock, consumed: u64)
    ensures
        ({
            let (n, t) = line_run(s, clock, consumed);
            &&& n >= consumed
            &&& n >= 488 || t.asleep() || exists|u: BoardState, c: u64|
                {
                    &&& (#[trigger] line_step(u, clock, c)).0 == 0
                    &&& line_step(u, clock, c).1 == t
                    &&& c == n
                }
        }),
    decreases
            if consumed < 488 {
                488 - consumed
            } else {
                0
            },
{
    if consumed < 488 {
        let (n, t) = line_step(s, clock, consumed);
        if !t.asleep() && n > 0 {
            law_line_fills_its_cycles(t, clock, (consumed + n) as u64);
        }
    }
}

/// Sound writes on a line are stamped with the tick of the line and seven for every
/// cycle since.
pub proof fn law_writes_are_stamped(
    s: BoardState,
    frame: u64,
    line: u16,
    start: u64,
    consumed: u64,
)
    requires
        start + 7 * consumed <= u64::MAX,
    ensures
        ({
            let t = clocked(s, Clock::Line { frame, line, start }, consumed);
            &&& t.bus.stamp.master_tick == start + 7 * consumed
            &&& t.bus.stamp.scanline == line
            &&& t.bus.stamp.frame == frame
            &&& t.cpu == s.cpu
            &&& t.bus.work_ram == s.bus.work_ram
        }),
{
}

// ── The audio timeline ───────────────────────────────────────────────────

/// Output samples are spread evenly over the master clock: the `k`-th second ends
/// with sample `k * rate`, and each sample is at the tick nearest to its place.
pub proof fn law_output_ticks(rate: u32, k: int, index: int)
    requires
        rate >= 1,
        k >= 0,
        index >= 0,
    ensures
        output_tick(rate, k * rate) == k * 53_693_175,
        -(rate as int) <= 2 * (output_tick(rate, index) * rate - index * 53_693_175) <= rate,
{
    let r = rate as int;
    let half = (rate / 2) as int;
    let c = 53_693_175int;
    let x = k * c;
    assert((k * r) * c + half == r * x + half) by (nonlinear_arith)
        requires
            x == k * c,
    ;
    vstd::arithmetic::div_mod::lemma_fundamental_div_mod_converse(r * x + half, r, x, half);
    let n = index * c + half;
    vstd::arithmetic::div_mod::lemma_fundamental_div_mod(n, r);
    vstd::arithmetic::div_mod::lemma_mod_bound(n, r);
    let q = n / r;
    assert(q * r == r * q) by (nonlinear_arith);
}

/// The YM2612 gives a sample every 144 of its clocks (a seventh of the master
/// clock), the PSG every 16 of its own (a fifteenth); the event of each holds what
/// the chip puts out.
pub proof fn law_native_samples(a: AudioState)
    requires
        a.next_ym_tick + 2000 <= u64::MAX,
        a.next_psg_tick + 2000 <= u64::MAX,
    ensures
        ({
            let y = ym_clocked(a);
            let p = psg_clocked(a);
            let n = a.events.len() as int;
            &&& y.next_ym_tick == a.next_ym_tick + 7 * 144
            &&& y.ym2612 == chip_sampled(a.ym2612)
            &&& y.events.len() == n + 1
            &&& y.events[n] == EventState::Ym(chip_samples(a.ym2612))
            &&& y.psg == a.psg
            &&& p.next_psg_tick == a.next_psg_tick + 15 * 16
            &&& p.psg == psg_ticked(a.psg)
            &&& p.events.len() == n + 1
            &&& p.events[n] == (EventState::Psg {
                tone1: channel_level(p.psg, 0) as i32,
                tone2: channel_level(p.psg, 1) as i32,
                tone3: channel_level(p.psg, 2) as i32,
                noise: channel_level(p.psg, 3) as i32,
            })
            &&& p.ym2612 == a.ym2612
        }),
{
}

/// Where a step stands on the timeline.
pub open spec fn tick_of(g: Agenda, step: AudioStep) -> int {
    match step {
        AudioStep::Output => g.output as int,
        AudioStep::Key => g.key_write->0 as int,
        AudioStep::YmWrite => g.ym_write->0 as int,
        AudioStep::PsgWrite => g.psg_write->0 as int,
        AudioStep::YmSample => g.ym_sample as int,
        AudioStep::PsgSample => g.psg_sample as int,
        AudioStep::Rest => g.end as int,
    }
}

/// The next step is never after another that waits, and at one tick the order is:
/// output, delayed keys, writes of the YM2612, writes of the PSG, samples of the
/// YM2612, samples of the PSG.
pub proof fn law_steps_in_order(g: Agenda)
    ensures
        ({
            let step = next_step(g);
            let t = tick_of(g, step);
            step !is Rest ==> {
                &&& t <= g.output && (t == g.output ==> step is Output)
                &&& g.key_write is Some ==> t <= g.key_write->0 && (t == g.key_write->0 ==> step
                    is Output || step is Key)
                &&& g.ym_write is Some ==> t <= g.ym_write->0 && (t == g.ym_write->0 ==> step
                    is Output || step is Key || step is YmWrite)
                &&& g.psg_write is Some ==> t <= g.psg_write->0 && (t == g.psg_write->0 ==> !(step
                    is YmSample || step is PsgSample))
                &&& t <= g.ym_sample && (t == g.ym_sample ==> !(step is PsgSample))
                &&& t <= g.psg_sample
                &&& t <= g.end
            }
        }),
{
}

/// A delayed write goes behind those that are due no later and before the rest, so
/// the queue stays in order.
pub proof fn law_queue_keeps_order(writes: Seq<TimedYm2612Write>, write: TimedYm2612Write)
    requires
        writes_ordered(writes),
    ensures
        ({
            let k = first_later(writes, write.master_tick, 0);
            let q = queued(writes, write);
            &&& 0 <= k <= writes.len()
            &&& q.len() == writes.len() + 1
            &&& q[k] == write
            &&& forall|i: int| 0 <= i < k ==> q[i] == writes[i] && writes[i].master_tick
                <= write.master_tick
            &&& forall|i: int|
                k <= i < writes.len() ==> #[trigger] writes[i] == q[i + 1]
                    && writes[i].master_tick > write.master_tick
            &&& writes_ordered(q)
        }),
{
    lemma_first_later(writes, write.master_tick, 0);
}

/// What the search for a later write finds.
proof fn lemma_first_later(writes: Seq<TimedYm2612Write>, tick: u64, i: int)
    requires
        0 <= i <= writes.len(),
    ensures
        ({
            let k = first_later(writes, tick, i);
            &&& i <= k <= writes.len()
            &&& forall|j: int| i <= j < k ==> (#[trigger] writes[j]).master_tick <= tick
            &&& k < writes.len() ==> writes[k].master_tick > tick
        }),
    decreases writes.len() - i,
{
    if i < writes.len() && writes[i].master_tick <= tick {
        lemma_first_later(writes, tick, i + 1);
    }
}

/// Register 0x28 keys channel `c` by the code `c`, or `c + 1` from channel 3 on. With a
/// delay the write waits in the queue for that many ticks; without one, and like
/// every other register, it reaches the chip at once.
pub proof fn law_key_writes_wait(a: AudioState, write: TimedYm2612Write, c: int)
    requires
        a.key_delay_ticks.len() == 6,
        0 <= c < 6,
        write.port == 0,
        write.addr == 0x28,
        write.value % 8 == if c < 3 {
            c
        } else {
            c + 1
        },
        write.master_tick + a.key_delay_ticks[c] <= u64::MAX,
    ensures
        ({
            let d = a.key_delay_ticks[c];
            let t = ym_replayed(a, write);
            let late = TimedYm2612Write { master_tick: (write.master_tick + d) as u64, ..write };
            &&& d > 0 ==> t == (AudioState {
                pending_key_writes: queued(a.pending_key_writes, late),
                ..a
            })
            &&& d == 0 ==> t == (AudioState { ym2612: chip_written(a.ym2612, write), ..a })
        }),
{
}

/// Registers 0xB4 to 0xB6 pan channels 0 to 2, those of the second part 3 to 5; the
/// two highest bits count. Only one-sided or silent panning is an event.
pub proof fn law_pan_writes(a: AudioState, write: TimedYm2612Write, c: int)
    requires
        a.pan_masks.len() == 6,
        0 <= c < 6,
        write.port == c / 3,
        write.addr == 0xB4 + c % 3,
    ensures
        ({
            let t = ym_replayed(a, write);
            let mask = (write.value - write.value % 0x40) as u8;
            &&& t.pan_masks == a.pan_masks.update(c, mask)
            &&& t.ym2612 == chip_written(a.ym2612, write)
            &&& write.value < 0xC0 ==> t.events == a.events.push(
                EventState::Pan { channel: c as u8, mask },
            )
            &&& write.value >= 0xC0 ==> t.events == a.events
        }),
{
}

} // verus!
