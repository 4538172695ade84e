//! How the parts that all channels share run: LFO, timers, special mode and panning.
use vstd::prelude::*;

use crate::ym2612::channel::{
    channel_keyed, channel_output, channel_sampled, operators_sampled, ChannelState,
};
use crate::ym2612::{
    bit_set, channel_sample, eg_stepped, lfo_am, lfo_period, lfo_pm, lfo_stepped, register_written,
    sample_begun, slot_blocks, slot_fnums, timer_a_stepped, YmState,
};

verus! {

// ── LFO ──────────────────────────────────────────────────────────────────

/// The chip after `n` LFO ticks.
pub open spec fn lfo_ticked(s: YmState, n: nat) -> YmState
    decreases n,
{
    if n == 0 {
        s
    } else {
        lfo_stepped(lfo_ticked(s, (n - 1) as nat))
    }
}

/// The LFO moves on by one of its 128 steps every 108, 77, 71, 67, 62, 44, 8 or 5
/// samples, by its frequency, and stands while it is off.
pub proof fn law_lfo_rate(s: YmState, n: nat)
    requires
        s.lfo_frequency < 8,
        s.lfo_phase < 128,
        s.lfo_counter == 0,
        n <= lfo_period(s.lfo_frequency),
    ensures
        ({
            let periods = seq![108u32, 77, 71, 67, 62, 44, 8, 5];
            let p = periods[s.lfo_frequency as int];
            let t = lfo_ticked(s, n);
            &&& lfo_period(s.lfo_frequency) == p
            &&& s.lfo_enabled && n < p ==> t.lfo_phase == s.lfo_phase && t.lfo_counter == n
            &&& s.lfo_enabled && n == p ==> t.lfo_phase == (s.lfo_phase + 1) % 128
                && t.lfo_counter == 0
            &&& !s.lfo_enabled ==> t == s
            &&& t.lfo_enabled == s.lfo_enabled && t.lfo_frequency == s.lfo_frequency
        }),
    decreases n,
{
    if n > 0 {
        law_lfo_rate(s, (n - 1) as nat);
    }
}

/// Register 0x22 sets the LFO: bit 3 turns it on, from its start where it was off, and
/// the low three bits are its frequency.
pub proof fn law_lfo_register(s: YmState, val: u8)
    ensures
        ({
            let t = register_written(s, 0, 0x22, val);
            let on = val % 16 >= 8;
            &&& t.lfo_enabled == on
            &&& t.lfo_frequency == val % 8
            &&& on && !s.lfo_enabled ==> t.lfo_phase == 0 && t.lfo_counter == 0
            &&& !on || s.lfo_enabled ==> t.lfo_phase == s.lfo_phase && t.lfo_counter
                == s.lfo_counter
            &&& t.channels == s.channels
            &&& t.status == s.status
        }),
{
}

// ── Timers ───────────────────────────────────────────────────────────────

/// The ten bits of timer A come from two registers, in either order; timer B has one.
pub proof fn law_timer_registers(s: YmState, hi: u8, lo: u8, b: u8)
    ensures
        register_written(register_written(s, 0, 0x24, hi), 0, 0x25, lo).timer_a_period == 4 * hi
            + lo % 4,
        register_written(register_written(s, 0, 0x25, lo), 0, 0x24, hi).timer_a_period == 4 * hi
            + lo % 4,
        register_written(s, 0, 0x26, b).timer_b_period == b,
        register_written(s, 0, 0x26, b).timer_a_period == s.timer_a_period,
        register_written(s, 0, 0x24, hi).timer_b_period == s.timer_b_period,
        register_written(s, 0, 0x24, hi).channels == s.channels,
{
}

/// Register 0x27: bit 4 takes back the flag of timer A, bit 5 that of timer B, and
/// nothing else of the status changes.
#[verifier::rlimit(60)]
#[verifier::spinoff_prover]
pub proof fn law_timer_flags(s: YmState, val: u8)
    ensures
        ({
            let t = register_written(s, 0, 0x27, val);
            &&& t.timer_control == val
            &&& val % 0x20 >= 0x10 ==> t.status % 2 == 0
            &&& val % 0x20 < 0x10 ==> t.status % 2 == s.status % 2
            &&& val % 0x40 >= 0x20 ==> t.status / 2 % 2 == 0
            &&& val % 0x40 < 0x20 ==> t.status / 2 % 2 == s.status / 2 % 2
            &&& t.status / 4 == s.status / 4
            &&& t.channels == s.channels
        }),
{
    lemma_flags(s.status);
    assert((val / 0x10) % 2 == 1 <==> val % 0x20 >= 0x10);
    assert((val / 0x20) % 2 == 1 <==> val % 0x40 >= 0x20);
}

/// The two flags of the status taken back.
proof fn lemma_flags(status: u8)
    ensures
        ({
            let a = (status - status % 2) as u8;
            &&& a % 2 == 0
            &&& a / 2 == status / 2
            &&& bit_set(status, 2) ==> ({
                let b = (status - 2) as u8;
                b % 2 == status % 2 && b / 2 % 2 == 0 && b / 4 == status / 4
            })
            &&& bit_set(a, 2) ==> ({
                let b = (a - 2) as u8;
                b % 2 == 0 && b / 2 % 2 == 0 && b / 4 == status / 4
            })
            &&& a / 4 == status / 4
        }),
{
}

/// Where timer A runs out in CSM mode (bits 7 and 6 of register 0x27 are 1 and 0) all
/// four operators of channel 3 are keyed on, and the next sample keys them off.
pub proof fn law_csm_mode(s: YmState, i: int)
    requires
        s.wf(),
        s.timer_control % 2 == 1,
        s.timer_a_counter + 1 >= 1024 - s.timer_a_period,
        0 <= i < 6,
        i != 2,
    ensures
        ({
            let t = timer_a_stepped(s);
            let csm = 0x80 <= s.timer_control < 0xC0;
            &&& t.timer_a_counter == 0
            &&& csm ==> t.channels[2] == channel_keyed(s.channels[2], 15) && t.csm_key_on
            &&& !csm ==> t.channels == s.channels && t.csm_key_on == s.csm_key_on
            &&& t.channels[i] == s.channels[i]
        }),
        s.csm_key_on ==> sample_begun(s).channels[2] == channel_keyed(s.channels[2], 0)
            && !sample_begun(s).csm_key_on,
        !s.csm_key_on ==> sample_begun(s).channels == s.channels,
{
    reveal(timer_a_stepped);
    reveal(sample_begun);
}

/// The envelope counter moves with every third sample, and returns to 1 after 4095.
pub proof fn law_envelope_divider(s: YmState)
    requires
        s.wf(),
    ensures
        ({
            let t = eg_stepped(eg_stepped(eg_stepped(s)));
            &&& t.eg_timer == s.eg_timer
            &&& s.eg_counter < 4095 ==> t.eg_counter == s.eg_counter + 1
            &&& s.eg_counter == 4095 ==> t.eg_counter == 1
            &&& eg_stepped(s).eg_timer == (s.eg_timer + 1) % 3
            &&& eg_stepped(s).eg_counter != s.eg_counter <==> s.eg_timer == 2
        }),
{
}

// ── Special mode ─────────────────────────────────────────────────────────

/// In special mode the first three operators of channel 3 have frequencies of their
/// own: registers 0xA9, 0xAA and 0xA8, with 0xAD, 0xAE and 0xAC for the high bits. The
/// fourth, and every other channel, go by the channel's.
pub proof fn law_special_frequencies(
    s: YmState,
    op: int,
    other: int,
    hi: u8,
    lo: u8,
    ch: int,
)
    requires
        s.wf(),
        0 <= op < 3,
        0 <= other < 3,
        op != other,
        0 <= ch < 6,
    ensures
        ({
            let offset = if op == 2 {
                0
            } else {
                op + 1
            };
            let a = register_written(s, 0, (0xAC + offset) as u8, hi);
            let t = register_written(a, 0, (0xA8 + offset) as u8, lo);
            let f = slot_fnums(t, ch);
            let b = slot_blocks(t, ch);
            let special = s.timer_control >= 0x40 && ch == 2;
            &&& a.ch3_fnum == s.ch3_fnum
            &&& special ==> f[op] == (hi % 8) * 0x100 + lo && b[op] == hi / 8 % 8
            &&& special ==> f[other] == s.ch3_fnum[other] && b[other] == s.ch3_block[other]
            &&& !special ==> f[op] == s.channels[ch].fnum && b[op] == s.channels[ch].block
            &&& f[3] == s.channels[ch].fnum && b[3] == s.channels[ch].block
            &&& t.channels == s.channels
        }),
{
    if op == 0 {
    } else if op == 1 {
    } else {
    }
}

// ── Panning ──────────────────────────────────────────────────────────────

/// A side that is switched on has the whole sample of the channel, whatever the other
/// side has.
pub proof fn law_sides_are_equal(s: YmState, ch: int)
    requires
        s.wf(),
        0 <= ch < 6,
        s.channels[ch].panning_left && s.channels[ch].panning_right,
    ensures
        ({
            let c = s.channels[ch];
            let left = YmState {
                channels: s.channels.update(ch, ChannelState { panning_right: false, ..c }),
                ..s
            };
            let right = YmState {
                channels: s.channels.update(ch, ChannelState { panning_left: false, ..c }),
                ..s
            };
            let both = channel_sample(s, ch);
            &&& both.0 == both.1
            &&& channel_sample(left, ch) == (both.0, 0i32)
            &&& channel_sample(right, ch) == (0i32, both.1)
        }),
{
    reveal(channel_sample);
    let c = s.channels[ch];
    let l = ChannelState { panning_right: false, ..c };
    let r = ChannelState { panning_left: false, ..c };
    let left = YmState { channels: s.channels.update(ch, l), ..s };
    let right = YmState { channels: s.channels.update(ch, r), ..s };
    lemma_panning_apart(c, l, slot_fnums(s, ch), slot_blocks(s, ch), lfo_am(s), lfo_pm(s));
    lemma_panning_apart(c, r, slot_fnums(s, ch), slot_blocks(s, ch), lfo_am(s), lfo_pm(s));
    assert(slot_fnums(left, ch) =~= slot_fnums(s, ch));
    assert(slot_blocks(left, ch) =~= slot_blocks(s, ch));
    assert(slot_fnums(right, ch) =~= slot_fnums(s, ch));
    assert(slot_blocks(right, ch) =~= slot_blocks(s, ch));
}

/// Operators do not hear the panning.
proof fn lemma_panning_apart(
    c: ChannelState,
    d: ChannelState,
    fnums: Seq<u16>,
    blocks: Seq<u8>,
    am: u8,
    pm: u8,
)
    requires
        d == (ChannelState {
            panning_left: d.panning_left,
            panning_right: d.panning_right,
            ..c
        }),
    ensures
        channel_output(channel_sampled(c, fnums, blocks, am, pm)) == channel_output(
            channel_sampled(d, fnums, blocks, am, pm),
        ),
{
    assert(operators_sampled(c, fnums, blocks, am, pm) =~= operators_sampled(
        d,
        fnums,
        blocks,
        am,
        pm,
    ));
}

} // verus!
