//! What holds of the core as a whole.
use vstd::prelude::*;

use crate::api::audio::synthesized;
use crate::api::board::{
    elapsed, interrupt_run, slot_run, vint_cleared, vint_ready, BoardState,
};
use crate::api::bus::{
    bank_shifted, byte_at, byte_written, odd_of, word_at, word_of, word_read, word_written,
    z80_byte_at, z80_byte_written, BusState, CoreBus,
};
use crate::api::console::{
    frame_back, frame_closed, frame_opened, frame_run, frame_stepped, held_input, line_entered, line_left,
    power_cycled, report_noted, restored, rewind_ok, rewound, room_from, snapshot_of, with_z80,
    z80_answered, z80_done, z80_granted, z80_idled, z80_turn, CoreState, FrameProgress, Z80Report, Z80Request, Z80Turn,
};
use crate::api::keeps::{
    law_frame_keeps, law_report_keeps, law_z80_write_keeps, settled_by,
};
use crate::api::state::SnapshotState;
use crate::bus::region_of;
use crate::cpu::engine::{
    lemma_cpu_has_snapshot, lemma_cpu_snapshot_unique, snapshot_state, CpuState,
};
use crate::cpu::exception::{interrupt_accepted, interrupt_sem};
use crate::cpu::exec_flow::rte_sem;
use crate::cpu::flags::SR_MASK;
use crate::cpu::operand::{bus_addr, long_of, read_long_sem, write_long_sem, Machine};
use crate::cpu::{has_flag, with_flag, with_interrupt_level, StatusRegister};
use crate::rewind::buffer_recorded;
use crate::rewind::laws::{
    history_ok, joins, law_record_keeps, law_record_reconstruct, law_truncated,
    lemma_sized_joins, restorable,
};
use crate::rewind::timeline::{continued, oldest_of, reconstructed, truncated};

verus! {

// ── Memory ───────────────────────────────────────────────────────────────

/// A byte written to work RAM reads back, at its address and at every mirror of
/// it; the other bytes of work RAM keep their values.
pub proof fn law_work_ram_byte(b: BusState, addr: u32, val: u8, other: u32)
    requires
        b.wf(),
        region_of(addr) is WorkRam,
        region_of(other) is WorkRam,
    ensures
        byte_at(byte_written(b, addr, val), other) == if other % 0x1_0000 == addr % 0x1_0000 {
            val
        } else {
            byte_at(b, other)
        },
{
    reveal(byte_at);
    reveal(byte_written);
}

/// A word written to an even address of work RAM reads back.
pub proof fn law_work_ram_word(b: BusState, addr: u32, val: u16)
    requires
        b.wf(),
        region_of(addr) is WorkRam,
        addr % 2 == 0,
    ensures
        word_at(word_written(b, addr, val), addr) == val,
        byte_at(word_written(b, addr, val), addr) == val / 0x100,
        byte_at(word_written(b, addr, val), addr.wrapping_add(1)) == val % 0x100,
{
    reveal(byte_at);
    reveal(word_at);
    reveal(word_written);
    lemma_odd_neighbour(addr);
    let a = (addr % 0x1_0000) as int;
    let w = word_written(b, addr, val);
    let hi = (val / 0x100) as u8;
    let lo = (val % 0x100) as u8;
    assert(w.work_ram == b.work_ram.update(a, hi).update(a + 1, lo));
    assert(w.work_ram[a] == hi);
    assert(w.work_ram[a + 1] == lo);
    assert(word_of(hi, lo) == val);
}

/// The remainder of the number after an even one, by an even divisor.
proof fn lemma_next_remainder(a: int, n: int)
    requires
        a >= 0,
        a % 2 == 0,
        n == 0x1_0000 || n == 0x100_0000,
    ensures
        a % n < n - 1,
        (a + 1) % n == a % n + 1,
{
    if n == 0x1_0000 {
        assert((a % 0x1_0000) % 2 == 0);
    } else {
        assert((a % 0x100_0000) % 2 == 0);
    }
}

/// The odd neighbour of an even work RAM address.
#[verifier::spinoff_prover]
proof fn lemma_odd_neighbour(addr: u32)
    requires
        region_of(addr) is WorkRam,
        addr % 2 == 0,
    ensures
        addr.wrapping_add(1) == addr + 1,
        region_of((addr + 1) as u32) is WorkRam,
        ((addr + 1) as u32) % 0x1_0000 == addr % 0x1_0000 + 1,
        addr % 0x1_0000 < 0xFFFF,
        odd_of((addr % 0x1_0000) as int) == addr % 0x1_0000 + 1,
{
    lemma_next_remainder(addr as int, 0x1_0000);
    lemma_next_remainder(addr as int, 0x100_0000);
    assert(addr < u32::MAX);
    assert((addr + 1) as u32 == addr + 1);
}

/// No write changes the ROM.
pub proof fn law_rom_is_read_only(b: BusState, addr: u32, val: u8, word: u16)
    ensures
        byte_written(b, addr, val).rom == b.rom,
        word_written(b, addr, word).rom == b.rom,
        z80_byte_written(b, (addr % 0x1_0000) as u16, val).rom == b.rom,
{
    reveal(byte_written);
    reveal(word_written);
}

/// The Z80 reads back what it writes to its RAM, through either mirror, and the
/// 68000 sees the same byte.
pub proof fn law_z80_ram_shared(b: BusState, addr: u16, val: u8)
    requires
        b.wf(),
        addr <= 0x3FFF,
    ensures
        z80_byte_at(z80_byte_written(b, addr, val), addr) == val,
        byte_at(z80_byte_written(b, addr, val), (0xA0_0000 + addr) as u32) == val,
{
    reveal(byte_at);
    let a = (0xA0_0000 + addr) as u32;
    assert(region_of(a) is Z80Area);
    assert(a % 0x1_0000 == addr);
}

/// The bank register after the first `n` of some bits are shifted in.
pub open spec fn bank_after(bank: u32, bits: Seq<u8>, n: nat) -> u32
    decreases n,
{
    if n == 0 {
        bank
    } else {
        bank_shifted(bank_after(bank, bits, (n - 1) as nat), bits[n - 1])
    }
}

/// The number that nine bits make, lowest first.
pub open spec fn nine_bits(bits: Seq<u8>) -> int {
    bits[0] % 2 + (bits[1] % 2) * 2 + (bits[2] % 2) * 4 + (bits[3] % 2) * 8 + (bits[4] % 2) * 16
        + (bits[5] % 2) * 32 + (bits[6] % 2) * 64 + (bits[7] % 2) * 128 + (bits[8] % 2) * 256
}

/// Nine writes to the bank register select the 32KB bank that their bits number,
/// whatever it held before.
pub proof fn law_bank_register(bank: u32, bits: Seq<u8>)
    requires
        bank < 0x100_0000,
        bits.len() == 9,
    ensures
        bank_after(bank, bits, 9) == nine_bits(bits) * 0x8000,
{
    reveal_with_fuel(bank_after, 10);
    lemma_bank_step(bank, bits[0]);
    lemma_bank_step(bank_after(bank, bits, 1), bits[1]);
    lemma_bank_step(bank_after(bank, bits, 2), bits[2]);
    lemma_bank_step(bank_after(bank, bits, 3), bits[3]);
    lemma_bank_step(bank_after(bank, bits, 4), bits[4]);
    lemma_bank_step(bank_after(bank, bits, 5), bits[5]);
    lemma_bank_step(bank_after(bank, bits, 6), bits[6]);
    lemma_bank_step(bank_after(bank, bits, 7), bits[7]);
    lemma_bank_step(bank_after(bank, bits, 8), bits[8]);
    lemma_nine_halvings(
        (bank / 0x8000) as int,
        (bits[0] % 2) as int,
        (bits[1] % 2) as int,
        (bits[2] % 2) as int,
        (bits[3] % 2) as int,
        (bits[4] % 2) as int,
        (bits[5] % 2) as int,
        (bits[6] % 2) as int,
        (bits[7] % 2) as int,
        (bits[8] % 2) as int,
    );
}

/// Nine bits that come in on top of a nine-bit number, halving it each time,
/// replace it.
proof fn lemma_nine_halvings(
    n0: int,
    t0: int,
    t1: int,
    t2: int,
    t3: int,
    t4: int,
    t5: int,
    t6: int,
    t7: int,
    t8: int,
)
    requires
        0 <= n0 < 512,
        0 <= t0 <= 1,
        0 <= t1 <= 1,
        0 <= t2 <= 1,
        0 <= t3 <= 1,
        0 <= t4 <= 1,
        0 <= t5 <= 1,
        0 <= t6 <= 1,
        0 <= t7 <= 1,
        0 <= t8 <= 1,
    ensures
        ({
            let n1 = n0 / 2 + t0 * 256;
            let n2 = n1 / 2 + t1 * 256;
            let n3 = n2 / 2 + t2 * 256;
            let n4 = n3 / 2 + t3 * 256;
            let n5 = n4 / 2 + t4 * 256;
            let n6 = n5 / 2 + t5 * 256;
            let n7 = n6 / 2 + t6 * 256;
            let n8 = n7 / 2 + t7 * 256;
            n8 / 2 + t8 * 256 == t0 + t1 * 2 + t2 * 4 + t3 * 8 + t4 * 16 + t5 * 32 + t6 * 64 + t7
                * 128 + t8 * 256
        }),
{
    let n1 = n0 / 2 + t0 * 256;
    let n2 = n1 / 2 + t1 * 256;
    assert(n2 == n0 / 4 + t0 * 128 + t1 * 256);
    let n3 = n2 / 2 + t2 * 256;
    assert(n3 == n0 / 8 + t0 * 64 + t1 * 128 + t2 * 256);
    let n4 = n3 / 2 + t3 * 256;
    assert(n4 == n0 / 16 + t0 * 32 + t1 * 64 + t2 * 128 + t3 * 256);
    let n5 = n4 / 2 + t4 * 256;
    assert(n5 == n0 / 32 + t0 * 16 + t1 * 32 + t2 * 64 + t3 * 128 + t4 * 256);
    let n6 = n5 / 2 + t5 * 256;
    assert(n6 == n0 / 64 + t0 * 8 + t1 * 16 + t2 * 32 + t3 * 64 + t4 * 128 + t5 * 256);
    let n7 = n6 / 2 + t6 * 256;
    assert(n7 == n0 / 128 + t0 * 4 + t1 * 8 + t2 * 16 + t3 * 32 + t4 * 64 + t5 * 128 + t6 * 256);
    let n8 = n7 / 2 + t7 * 256;
    assert(n8 == n0 / 256 + t0 * 2 + t1 * 4 + t2 * 8 + t3 * 16 + t4 * 32 + t5 * 64 + t6 * 128 + t7
        * 256);
}

/// One bit shifted in: the number of the bank halves, the bit comes in on top.
proof fn lemma_bank_step(bank: u32, bit: u8)
    requires
        bank < 0x100_0000,
    ensures
        bank_shifted(bank, bit) < 0x100_0000,
        bank_shifted(bank, bit) % 0x8000 == 0,
        bank_shifted(bank, bit) / 0x8000 == (bank / 0x8000) / 2 + (bit % 2) * 256,
{
    let half = bank / 2;
    assert(half % 0x80_0000 == half);
    assert(half / 0x8000 == (bank / 0x8000) / 2);
}

// ── CPU and interrupts ───────────────────────────────────────────────────

/// While a DMA holds the bus the CPU executes nothing: its registers stay, only
/// cycles go by, as many as the DMA still takes or as the budget has.
pub proof fn law_dma_stalls_cpu(s: BoardState, budget: u32)
    requires
        s.bus.vdp.core.dma_busy_cpu_cycles > 0,
    ensures
        ({
            let busy = s.bus.vdp.core.dma_busy_cpu_cycles;
            let n = if busy < budget {
                busy
            } else {
                budget
            };
            let (cycles, t) = slot_run(s, budget);
            &&& cycles == n
            &&& t.cpu.d == s.cpu.d
            &&& t.cpu.a == s.cpu.a
            &&& t.cpu.pc == s.cpu.pc
            &&& t.cpu.sr == s.cpu.sr
            &&& t.bus.work_ram == s.bus.work_ram
            &&& t.bus.vdp.core.dma_busy_cpu_cycles == busy - n
        }),
{
    reveal(slot_run);
    reveal(elapsed);
}

/// A latched V-interrupt is taken before the next instruction as soon as the
/// mask is below its level, and stays latched no longer.
pub proof fn law_latched_vint_goes_first(s: BoardState, budget: u32)
    requires
        s.bus.vdp.core.dma_busy_cpu_cycles == 0,
        vint_ready(s),
    ensures
        ({
            let (n, t) = interrupt_run(s, 6);
            &&& slot_run(s, budget) == (n, elapsed(vint_cleared(t), n))
            &&& n == 44
            &&& !slot_run(s, budget).1.bus.vdp.core.vint_pending
        }),
{
    reveal(slot_run);
    reveal(elapsed);
    reveal(interrupt_run);
}

/// A word written to an even address of work RAM: its two bytes, and no others.
proof fn lemma_work_ram_put(b: BusState, addr: u32, val: u16)
    requires
        b.work_ram.len() == 0x1_0000,
        region_of(addr) is WorkRam,
        addr % 2 == 0,
    ensures
        ({
            let at = (addr % 0x1_0000) as int;
            let ram = word_written(b, addr, val).work_ram;
            &&& ram.len() == 0x1_0000
            &&& word_of(ram[at], ram[at + 1]) == val
            &&& forall|i: int|
                0 <= i < 0x1_0000 && i != at && i != at + 1 ==> #[trigger] ram[i] == b.work_ram[i]
        }),
{
    reveal(word_written);
    lemma_odd_neighbour(addr);
    let at = (addr % 0x1_0000) as int;
    let hi = (val / 0x100) as u8;
    let lo = (val % 0x100) as u8;
    let w = word_written(b, addr, val);
    assert(w.work_ram == b.work_ram.update(at, hi).update(at + 1, lo));
    assert(word_of(hi, lo) == val);
}

/// A work RAM word that is read is a word of the memory.
proof fn lemma_work_ram_get(b: BusState, addr: u32)
    requires
        region_of(addr) is WorkRam,
        addr % 2 == 0,
    ensures
        word_at(b, addr) == word_of(
            b.work_ram[(addr % 0x1_0000) as int],
            b.work_ram[addr % 0x1_0000 + 1],
        ),
        word_read(b, addr) == b,
{
    reveal(word_at);
    reveal(word_read);
    assert(odd_of((addr % 0x1_0000) as int) == addr % 0x1_0000 + 1);
}

/// Even addresses at the top of the stack are in work RAM.
proof fn lemma_stack_addresses(sp: u32)
    requires
        sp % 2 == 0,
        region_of(sp.wrapping_sub(6)) is WorkRam,
        region_of(sp.wrapping_sub(2)) is WorkRam,
    ensures
        ({
            let a6 = bus_addr(sp.wrapping_sub(6));
            let a4 = bus_addr(sp.wrapping_sub(4));
            let a2 = bus_addr(sp.wrapping_sub(2));
            &&& region_of(a6) is WorkRam && region_of(a4) is WorkRam && region_of(a2) is WorkRam
            &&& a4 == a6 + 2
            &&& a2 == a6 + 4
            &&& a6 % 2 == 0
            &&& 0xFF_0000 <= a6 <= 0xFF_FFFA
            &&& bus_addr(a4) == a4
            &&& bus_addr(a4.wrapping_add(2)) == a2
        }),
{
}

/// Reads of work RAM and of the vectors in the ROM leave the bus alone.
proof fn lemma_frame_reads(w: BusState, a6: u32, vector: u32)
    requires
        0xFF_0000 <= a6 <= 0xFF_FFFA,
        a6 % 2 == 0,
        vector < 0x1000,
    ensures
        ({
            let at = (a6 % 0x1_0000) as int;
            let long = read_long_sem::<CoreBus>(w, (a6 + 2) as u32);
            &&& read_long_sem::<CoreBus>(w, vector).1 == w
            &&& word_at(w, a6) == word_of(w.work_ram[at], w.work_ram[at + 1])
            &&& word_read(w, a6) == w
            &&& long.0 == long_of(
                word_of(w.work_ram[at + 2], w.work_ram[at + 3]),
                word_of(w.work_ram[at + 4], w.work_ram[at + 5]),
            )
            &&& long.1 == w
        }),
{
    reveal(word_read);
    lemma_work_ram_get(w, a6);
    lemma_work_ram_get(w, (a6 + 2) as u32);
    lemma_work_ram_get(w, (a6 + 4) as u32);
    assert(bus_addr((a6 + 2) as u32) == a6 + 2);
    assert(bus_addr(((a6 + 2) as u32).wrapping_add(2)) == a6 + 4);
}

/// The stack of an interrupt, in work RAM, holds what was pushed.
proof fn lemma_interrupt_frame(b: BusState, sp: u32, pc: u32, sr: u16, vector: u32)
    requires
        b.work_ram.len() == 0x1_0000,
        sp % 2 == 0,
        region_of(sp.wrapping_sub(6)) is WorkRam,
        region_of(sp.wrapping_sub(2)) is WorkRam,
        vector < 0x1000,
    ensures
        ({
            let w = word_written(
                write_long_sem::<CoreBus>(b, bus_addr(sp.wrapping_sub(4)), pc),
                bus_addr(sp.wrapping_sub(6)),
                sr,
            );
            &&& read_long_sem::<CoreBus>(w, vector).1 == w
            &&& word_at(w, bus_addr(sp.wrapping_sub(6))) == sr
            &&& word_read(w, bus_addr(sp.wrapping_sub(6))) == w
            &&& read_long_sem::<CoreBus>(w, bus_addr(sp.wrapping_sub(4))).0 == pc
            &&& read_long_sem::<CoreBus>(w, bus_addr(sp.wrapping_sub(4))).1 == w
        }),
{
    lemma_stack_addresses(sp);
    let a4 = bus_addr(sp.wrapping_sub(4));
    let a2 = bus_addr(sp.wrapping_sub(2));
    let a6 = bus_addr(sp.wrapping_sub(6));
    let at = (a6 % 0x1_0000) as int;
    let hi = (pc / 0x1_0000) as u16;
    let lo = (pc % 0x1_0000) as u16;
    let m1 = word_written(b, a4, hi);
    let m2 = word_written(m1, a2, lo);
    let w = word_written(m2, a6, sr);
    lemma_work_ram_put(b, a4, hi);
    lemma_work_ram_put(m1, a2, lo);
    lemma_work_ram_put(m2, a6, sr);
    lemma_frame_reads(w, a6, vector);
    assert(w.work_ram[at + 2] == m1.work_ram[at + 2] && w.work_ram[at + 3] == m1.work_ram[at + 3]);
    assert(w.work_ram[at + 4] == m2.work_ram[at + 4] && w.work_ram[at + 5] == m2.work_ram[at + 5]);
    assert(long_of(hi, lo) == pc);
}

/// RTE undoes an interrupt: with the supervisor stack in work RAM the program
/// goes on where it was, with its registers, its status and its stack. A CPU
/// that was stopped has been woken.
pub proof fn law_interrupt_returns(s: Machine<BusState>, level: u8)
    requires
        s.bus.wf(),
        1 <= level <= 7,
        interrupt_accepted(s.cpu.sr, level),
        s.cpu.sr & SR_MASK == s.cpu.sr,
        s.cpu.ssp % 2 == 0,
        region_of(s.cpu.ssp.wrapping_sub(6)) is WorkRam,
        region_of(s.cpu.ssp.wrapping_sub(2)) is WorkRam,
    ensures
        rte_sem::<CoreBus>(interrupt_sem::<CoreBus>(s, level).1).1.cpu == (CpuState {
            stopped: false,
            ..s.cpu
        }),
{
    let sr = s.cpu.sr;
    let sp = s.cpu.ssp;
    let entered = with_flag(
        with_interrupt_level(with_flag(sr, StatusRegister::S, true), level),
        StatusRegister::T,
        false,
    );
    assert(has_flag(entered, StatusRegister::S)) by {
        assert(((((sr | 0x2000u16) & !0x0700u16) | (((level & 7) as u16) << 8)) & !0x8000u16)
            & 0x2000u16 != 0) by (bit_vector);
    }
    lemma_interrupt_frame(s.bus, sp, s.cpu.pc, sr, (0x60 + level * 4) as u32);
    assert(sp.wrapping_sub(4).wrapping_sub(2) == sp.wrapping_sub(6));
    assert(sp.wrapping_sub(6).wrapping_add(2) == sp.wrapping_sub(4));
    assert(sp.wrapping_sub(4).wrapping_add(4) == sp);
}

// ── Frames ───────────────────────────────────────────────────────────────

/// A paused core does not step.
pub proof fn law_paused_core_stays(c: CoreState)
    requires
        c.paused,
    ensures
        frame_stepped(c) == c,
{
}

/// A frame that comes to its end counts one frame and moves the audio timeline
/// on by its 262 scanlines. One that waits for the Z80 has not been counted.
pub proof fn law_frame_counts(c: CoreState, line: u16)
    requires
        line <= 262,
        room_from(c, line),
    ensures
        ({
            let d = frame_run(c, line);
            match d.progress {
                FrameProgress::Idle => {
                    &&& d.frame_count == c.frame_count + 1
                    &&& d.audio.master_tick == c.audio.master_tick + (262 - line) * 3420
                },
                FrameProgress::Z80 { line: at, .. } => {
                    &&& line <= at < 262
                    &&& z80_granted(d)
                    &&& d.frame_count == c.frame_count
                    &&& d.audio.master_tick == c.audio.master_tick + (at - line) * 3420
                },
            }
        }),
    decreases 262 - line,
{
    if line >= 262 {
        reveal(frame_closed);
    } else {
        let d = line_entered(c, line);
        lemma_line_entered_time(c, line);
        if !z80_granted(d) {
            lemma_line_left_time(d);
            law_frame_counts(line_left(d), (line + 1) as u16);
        }
    }
}

/// The 68000's part of a scanline moves neither the frame counter nor the audio
/// timeline.
proof fn lemma_line_entered_time(c: CoreState, line: u16)
    ensures
        line_entered(c, line).frame_count == c.frame_count,
        line_entered(c, line).audio == c.audio,
        line_entered(c, line).progress is Z80,
        line_entered(c, line).progress->line == line,
{
    reveal(line_entered);
}

/// The rest of a scanline moves the audio timeline on by its ticks.
proof fn lemma_line_left_time(c: CoreState)
    requires
        c.progress is Z80,
        c.audio.master_tick <= 0x0200_0000_0000_0000,
    ensures
        line_left(c).frame_count == c.frame_count,
        line_left(c).audio.master_tick == c.audio.master_tick + 3420,
        line_left(c).progress is Idle,
{
    reveal(line_left);
    reveal(synthesized);
}

/// Every report in the Z80's part of a scanline brings it nearer to its end: it
/// spends cycles, or turns from the reset to the interrupt and from there to an
/// instruction. An instruction takes at least a cycle.
pub proof fn law_z80_part_ends(spent: u64, request: Z80Request, r: Z80Report)
    requires
        spent < 228,
        request is Instruction ==> r.cycles > 0,
    ensures
        match z80_turn(spent, request, r) {
            Z80Turn::Ask { spent: now, request: next } => now < 228 && (now > spent || (now == spent
                && (request is Reset && next is Interrupt || request is Interrupt
                && next is Instruction))),
            Z80Turn::Over { idle } => spent + r.cycles + idle >= 228,
        },
{
}

// ── Power ────────────────────────────────────────────────────────────────

/// A power cycle forgets everything but the ROM and the ports: consoles that
/// agree in those come up alike.
pub proof fn law_power_cycle_forgets(c: CoreState, d: CoreState)
    requires
        c.board.bus.rom == d.board.bus.rom,
        c.board.bus.port1 == d.board.bus.port1,
        c.board.bus.port2 == d.board.bus.port2,
    ensures
        power_cycled(c).board == power_cycled(d).board,
        power_cycled(c).z80 == power_cycled(d).z80,
        power_cycled(c).frame_count == 0,
        power_cycled(c).board.bus.rom == c.board.bus.rom,
{
    reveal(power_cycled);
}

// ── Snapshots and rewinding ──────────────────────────────────────────────

/// Restoring the snapshot of a core into any core gives a core with the same
/// snapshot.
pub proof fn law_snapshot_roundtrip(c: CoreState, d: CoreState)
    requires
        c.board.cpu.d.len() == 8,
        c.board.cpu.a.len() == 7,
    ensures
        snapshot_of(restored(d, snapshot_of(c))) == snapshot_of(c),
        restored(d, snapshot_of(c)).board.cpu == c.board.cpu,
        restored(d, snapshot_of(c)).board.scheduler == c.board.scheduler,
        restored(d, snapshot_of(c)).z80 == c.z80,
{
    reveal(restored);
    lemma_cpu_has_snapshot(c.board.cpu);
    let s = snapshot_of(c);
    let r = restored(d, s);
    assert(r.board.cpu == c.board.cpu);
    assert(snapshot_of(r).vdp == s.vdp);
}

/// A finished frame can be rewound to: the rewind buffer reconstructs exactly
/// the snapshot of the core.
pub proof fn law_frame_is_recorded(c: CoreState)
    requires
        c.wf(),
        c.frame_count < u64::MAX,
        c.rewind.config.enabled,
    ensures
        reconstructed(
            frame_closed(c).rewind.timeline,
            frame_closed(c).frame_count,
        ) == Some(snapshot_of(frame_closed(c))),
{
    reveal(CoreState::wf);
    reveal(rewind_ok);
    reveal(frame_closed);
    let d = frame_closed(c);
    lemma_sized_joins(c.rewind.timeline, d.frame_count, snapshot_of(d));
    law_record_reconstruct(
        c.rewind.timeline,
        d.frame_count,
        snapshot_of(d),
        held_input(d.board.bus),
    );
}

/// Rewinding lands on the recorded state: the core has its snapshot, and the
/// history holds nothing after it. Where the frame is not retained, nothing
/// changes.
pub proof fn law_rewind_lands(c: CoreState, frames: u32)
    requires
        c.wf(),
    ensures
        ({
            let target = frame_back(c.frame_count, frames);
            match reconstructed(c.rewind.timeline, target) {
                Some(s) => {
                    let d = rewound(c, frames);
                    &&& d.frame_count == s.frame_count
                    &&& snapshot_of(d) == s
                    &&& forall|f: u64|
                        f > target ==> #[trigger] reconstructed(d.rewind.timeline, f) is None
                },
                None => rewound(c, frames) == c,
            }
        }),
{
    reveal(CoreState::wf);
    reveal(rewind_ok);
    reveal(rewound);
    reveal(restored);
    let target = frame_back(c.frame_count, frames);
    match reconstructed(c.rewind.timeline, target) {
        Some(s) => {
            law_truncated(c.rewind.timeline, target);
            lemma_cpu_snapshot_unique(s.cpu, snapshot_state(s.cpu));
            let d = rewound(c, frames);
            assert(d.rewind.timeline == truncated(
                c.rewind.timeline,
                target,
            ));
        },
        None => {},
    }
}

/// What the rest of a frame records: nothing until it is finished.
proof fn lemma_frame_run_records(c: CoreState, line: u16)
    requires
        line <= 262,
    ensures
        ({
            let d = frame_run(c, line);
            match d.progress {
                FrameProgress::Idle => d.rewind == buffer_recorded(
                    c.rewind,
                    d.frame_count,
                    snapshot_of(d),
                    held_input(d.board.bus),
                ),
                _ => d.rewind == c.rewind,
            }
        }),
    decreases 262 - line,
{
    if line >= 262 {
        reveal(frame_closed);
    } else {
        let d = line_entered(c, line);
        assert(d.rewind == c.rewind && d.progress is Z80) by {
            reveal(line_entered);
        }
        assert(line_left(d).rewind == d.rewind) by {
            reveal(line_left);
        }
        if !z80_granted(d) {
            lemma_frame_run_records(line_left(d), (line + 1) as u16);
        }
    }
}

/// What the Z80 does while a frame waits for it: it writes, or reports.
pub ghost enum Z80Event {
    Write { addr: u16, val: u8 },
    Report(Z80Report),
}

/// The core after the Z80 has done something.
pub open spec fn z80_acted(c: CoreState, e: Z80Event) -> CoreState {
    match e {
        Z80Event::Write { addr, val } => CoreState {
            board: BoardState { bus: z80_byte_written(c.board.bus, addr, val), ..c.board },
            ..c
        },
        Z80Event::Report(r) => z80_answered(c, r),
    }
}

/// The core after a frame is asked for and the Z80 has done its part.
pub open spec fn played(c: CoreState, events: Seq<Z80Event>) -> CoreState
    decreases events.len(),
{
    if events.len() == 0 {
        frame_stepped(c)
    } else {
        z80_acted(played(c, events.drop_last()), events.last())
    }
}

/// The frame waits for the Z80 before each of the events.
pub open spec fn waits_for(c: CoreState, events: Seq<Z80Event>) -> bool
    decreases events.len(),
{
    events.len() == 0 || (waits_for(c, events.drop_last()) && played(
        c,
        events.drop_last(),
    ).progress is Z80)
}

/// A frame that is played: under way it has recorded nothing and counted
/// nothing; finished it has recorded itself and counted one.
proof fn lemma_played(c: CoreState, events: Seq<Z80Event>)
    requires
        c.frame_fits(),
        !c.paused,
        c.progress is Idle,
        waits_for(c, events),
    ensures
        ({
            let d = played(c, events);
            match d.progress {
                FrameProgress::Idle => {
                    &&& d.frame_count == c.frame_count + 1
                    &&& d.rewind == buffer_recorded(
                        c.rewind,
                        d.frame_count,
                        snapshot_of(d),
                        held_input(d.board.bus),
                    )
                },
                FrameProgress::Z80 { line, .. } => {
                    &&& line < 262
                    &&& room_from(d, line)
                    &&& d.frame_count == c.frame_count
                    &&& d.rewind == c.rewind
                },
            }
        }),
    decreases events.len(),
{
    if events.len() == 0 {
        law_frame_counts(frame_opened(c), 0);
        lemma_frame_run_records(frame_opened(c), 0);
    } else {
        lemma_played(c, events.drop_last());
        lemma_acted(played(c, events.drop_last()), events.last());
    }
}

/// One event of a frame that waits for the Z80.
proof fn lemma_acted(c: CoreState, e: Z80Event)
    requires
        c.progress is Z80,
        c.progress->line < 262,
        room_from(c, c.progress->line),
    ensures
        ({
            let d = z80_acted(c, e);
            match d.progress {
                FrameProgress::Idle => {
                    &&& d.frame_count == c.frame_count + 1
                    &&& d.rewind == buffer_recorded(
                        c.rewind,
                        d.frame_count,
                        snapshot_of(d),
                        held_input(d.board.bus),
                    )
                },
                FrameProgress::Z80 { line, .. } => {
                    &&& line < 262
                    &&& room_from(d, line)
                    &&& d.frame_count == c.frame_count
                    &&& d.rewind == c.rewind
                },
            }
        }),
{
    let at = c.progress->line;
    match e {
        Z80Event::Report(r) => {
            let n = report_noted(c, c.progress->request, r);
            match z80_turn(c.progress->spent, c.progress->request, r) {
                Z80Turn::Over { idle } => {
                    reveal(z80_done);
                    let g = with_z80(n, z80_idled(n.z80, idle));
                    lemma_line_left_time(g);
                    assert(line_left(g).rewind == c.rewind) by {
                        reveal(line_left);
                    }
                    law_frame_counts(line_left(g), (at + 1) as u16);
                    lemma_frame_run_records(line_left(g), (at + 1) as u16);
                },
                _ => {},
            }
        },
        _ => {},
    }
}

/// A frame that is played leaves the ROM, the held buttons and the memory sizes.
proof fn lemma_played_settled(c: CoreState, events: Seq<Z80Event>)
    ensures
        settled_by(c.board.bus, played(c, events).board.bus),
        played(c, events).sram == c.sram,
    decreases events.len(),
{
    if events.len() == 0 {
        law_frame_keeps(c);
    } else {
        let d = played(c, events.drop_last());
        lemma_played_settled(c, events.drop_last());
        match events.last() {
            Z80Event::Write { addr, val } => {
                law_z80_write_keeps(d.board.bus, addr, val);
            },
            Z80Event::Report(r) => {
                law_report_keeps(d, r);
            },
        }
    }
}

/// A frame counts one, whatever the Z80 does in it. Its state is recorded, with
/// the buttons that were held when it was asked for.
pub proof fn law_played_frame_is_recorded(c: CoreState, events: Seq<Z80Event>)
    requires
        c.frame_fits(),
        !c.paused,
        c.progress is Idle,
        waits_for(c, events),
        played(c, events).progress is Idle,
    ensures
        played(c, events).frame_count == c.frame_count + 1,
        played(c, events).rewind == buffer_recorded(
            c.rewind,
            (c.frame_count + 1) as u64,
            snapshot_of(played(c, events)),
            held_input(c.board.bus),
        ),
{
    lemma_played(c, events);
    lemma_played_settled(c, events);
}

/// After a frame, whatever the Z80 did in it, the state from before it can be
/// reconstructed, as long as the history still holds that frame.
pub proof fn law_step_back_reconstructs(c: CoreState, events: Seq<Z80Event>)
    requires
        c.wf(),
        c.frame_fits(),
        c.rewind.config.enabled,
        !c.paused,
        c.progress is Idle,
        reconstructed(c.rewind.timeline, c.frame_count) == Some(snapshot_of(c)),
        waits_for(c, events),
        played(c, events).progress is Idle,
        oldest_of(played(c, events).rewind.timeline) matches Some(o) && o <= c.frame_count,
    ensures
        frame_back(played(c, events).frame_count, 1) == c.frame_count,
        reconstructed(played(c, events).rewind.timeline, c.frame_count) == Some(snapshot_of(c)),
        played(c, events).board.bus.rom == c.board.bus.rom,
{
    let d = played(c, events);
    lemma_played(c, events);
    lemma_played_settled(c, events);
    assert(history_ok(c.rewind.timeline) && joins(
        continued(c.rewind.timeline, d.frame_count),
        snapshot_of(d),
    )) by {
        reveal(CoreState::wf);
        reveal(rewind_ok);
        lemma_sized_joins(c.rewind.timeline, d.frame_count, snapshot_of(d));
    }
    law_record_keeps(
        c.rewind.timeline,
        d.frame_count,
        snapshot_of(d),
        held_input(d.board.bus),
        c.frame_count,
    );
}

/// Stepping back undoes a frame, whatever the Z80 did in it: the core has the
/// snapshot from before it, as long as the history still holds that frame.
pub proof fn law_step_back_undoes_frame(c: CoreState, events: Seq<Z80Event>)
    requires
        c.wf(),
        c.frame_fits(),
        c.rewind.config.enabled,
        !c.paused,
        c.progress is Idle,
        reconstructed(c.rewind.timeline, c.frame_count) == Some(snapshot_of(c)),
        waits_for(c, events),
        played(c, events).progress is Idle,
        oldest_of(played(c, events).rewind.timeline) matches Some(o) && o <= c.frame_count,
    ensures
        snapshot_of(rewound(played(c, events), 1)) == snapshot_of(c),
{
    law_step_back_reconstructs(c, events);
    assert(restorable(snapshot_of(c))) by {
        reveal(CoreState::wf);
        reveal(rewind_ok);
    }
    lemma_rewound_to(played(c, events), 1, snapshot_of(c));
}

/// The core that rewinding to a retained state gives.
proof fn lemma_rewound_to(c: CoreState, frames: u32, s: SnapshotState)
    requires
        reconstructed(c.rewind.timeline, frame_back(c.frame_count, frames)) == Some(s),
        restorable(s),
    ensures
        snapshot_of(rewound(c, frames)) == s,
        rewound(c, frames).frame_count == s.frame_count,
{
    reveal(rewound);
    reveal(restored);
    lemma_cpu_snapshot_unique(s.cpu, snapshot_state(s.cpu));
    let d = rewound(c, frames);
    assert(snapshot_of(d).vdp == s.vdp);
}

} // verus!
