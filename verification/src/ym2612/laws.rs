//! Laws of the YM2612: keys, envelopes, registers, timers and output.
use vstd::prelude::*;

use crate::ym2612::channel::silent_channel;
use crate::ym2612::operator::{
    attacked, attenuation_at, computed, eg_increment, envelope_stepped, keyed_off, keyed_on,
    power_of_two, scaled_rate, silent_operator, EnvState, Operator,
};
use crate::ym2612::tables::EXP_TABLE;
use crate::ym2612::{
    channel_played, channel_sample, chip_samples, eg_stepped, power_on_ym, register_written,
    sample_begun, slot_blocks, slot_fnums, timer_a_stepped, YmState,
};

verus! {

// ── Keys and envelopes ───────────────────────────────────────────────────

/// Keying on an operator that is on changes nothing, nor does keying off one that
/// is off.
pub proof fn law_key_idempotent(op: Operator, fnum: u16, block: u8)
    ensures
        keyed_on(keyed_on(op, fnum, block), fnum, block) == keyed_on(op, fnum, block),
        keyed_off(keyed_off(op)) == keyed_off(op),
{
}

/// Key-on restarts the phase and starts the attack from the current attenuation,
/// or skips it at the fastest rates.
pub proof fn law_key_on_starts_attack(op: Operator, fnum: u16, block: u8)
    requires
        !op.key_on,
    ensures
        ({
            let on = keyed_on(op, fnum, block);
            &&& on.key_on
            &&& on.phase == 0
            &&& scaled_rate(op.key_scale, op.attack_rate, fnum, block) < 62 ==> on.env_state
                == EnvState::Attack && on.envelope == op.envelope
            &&& scaled_rate(op.key_scale, op.attack_rate, fnum, block) >= 62 ==> on.env_state
                == EnvState::Decay && on.envelope == 0
        }),
{
}

/// Key-off of a sounding operator always enters the release.
pub proof fn law_key_off_releases(op: Operator)
    requires
        op.key_on,
    ensures
        keyed_off(op).env_state == EnvState::Release,
        !keyed_off(op).key_on,
{
}

/// Without SSG-EG, an attack tick never raises the attenuation and any other tick
/// never lowers it.
pub proof fn law_envelope_monotone(op: Operator, fnum: u16, block: u8, counter: u32)
    requires
        op.wf(),
        op.ssg_eg < 8,
    ensures
        op.env_state == EnvState::Attack ==> envelope_stepped(op, fnum, block, counter).envelope
            <= op.envelope,
        op.env_state != EnvState::Attack ==> envelope_stepped(op, fnum, block, counter).envelope
            >= op.envelope,
{
    reveal(envelope_stepped);
    let inc = eg_increment(scaled_rate(op.key_scale, op.attack_rate, fnum, block), counter);
    assert(attacked(op.envelope, inc) <= op.envelope) by {
        let drop = ((op.envelope + 1) * inc + 15) / 16;
        assert(drop >= 0) by (nonlinear_arith)
            requires
                drop == ((op.envelope + 1) * inc + 15) / 16,
        ;
    }
}

/// An envelope tick of an operator in release leaves it in release.
pub proof fn law_release_lasts(op: Operator, fnum: u16, block: u8, counter: u32)
    requires
        op.env_state == EnvState::Release,
    ensures
        envelope_stepped(op, fnum, block, counter).env_state == EnvState::Release,
{
    reveal(envelope_stepped);
}

// ── Registers ────────────────────────────────────────────────────────────

/// Writing the high frequency byte changes no channel; writing the low byte then
/// commits both at once.
pub proof fn law_frequency_commit(s: YmState, bank: int, ch: u8, hi: u8, lo: u8)
    requires
        s.wf(),
        0 <= bank <= 1,
        ch < 3,
    ensures
        ({
            let a = register_written(s, bank, (0xA4 + ch) as u8, hi);
            let b = register_written(a, bank, (0xA0 + ch) as u8, lo);
            &&& a.channels == s.channels
            &&& b.channels[ch + bank * 3].fnum == (hi % 8) * 0x100 + lo
            &&& b.channels[ch + bank * 3].block == (hi / 8) % 8
            &&& b.channels[ch + bank * 3].operators == s.channels[ch + bank * 3].operators
        }),
{
}

/// A register write of one bank leaves the channels of the other bank alone,
/// except for a key write.
pub proof fn law_banks_are_separate(s: YmState, bank: int, addr: u8, val: u8, ch: int)
    requires
        s.wf(),
        0 <= bank <= 1,
        0 <= ch < 6,
        ch / 3 != bank,
        addr != 0x28,
    ensures
        register_written(s, bank, addr, val).channels[ch] == s.channels[ch],
{
}

/// The timer flags are cleared by writes to register 0x27 with the reset bits
/// set, and by no other register write.
pub proof fn law_flags_cleared_by_reset_bits(s: YmState, bank: int, addr: u8, val: u8)
    requires
        s.wf(),
        0 <= bank <= 1,
    ensures
        addr != 0x27 ==> register_written(s, bank, addr, val).status == s.status,
        val < 0x10 ==> register_written(s, bank, addr, val).status == s.status,
        addr == 0x27 && bank == 0 && (val / 0x10) % 2 == 1 ==> register_written(
            s,
            bank,
            addr,
            val,
        ).status % 2 == 0,
        addr == 0x27 && bank == 0 && (val / 0x20) % 2 == 1 ==> (register_written(
            s,
            bank,
            addr,
            val,
        ).status / 2) % 2 == 0,
{
}

// ── Timers ───────────────────────────────────────────────────────────────

/// The chip after `n` ticks of timer A.
pub open spec fn timer_a_ticked(s: YmState, n: nat) -> YmState
    decreases n,
{
    if n == 0 {
        s
    } else {
        timer_a_stepped(timer_a_ticked(s, (n - 1) as nat))
    }
}

/// From zero, timer A counts up until its period is over.
proof fn lemma_timer_a_counts(s: YmState, n: nat)
    requires
        s.timer_a_period <= 1023,
        s.timer_a_counter == 0,
        s.timer_control % 2 == 1,
        n < 1024 - s.timer_a_period,
    ensures
        timer_a_ticked(s, n) == (YmState { timer_a_counter: n as u16, ..s }),
    decreases n,
{
    reveal(timer_a_stepped);
    if n > 0 {
        lemma_timer_a_counts(s, (n - 1) as nat);
    }
}

/// A running timer A with its flag enabled raises the flag after exactly 1024
/// minus its period ticks.
pub proof fn law_timer_a_period(s: YmState, n: nat)
    requires
        s.timer_a_period <= 1023,
        s.timer_a_counter == 0,
        s.timer_control % 8 == 5,
        s.status % 2 == 0,
        n <= 1024 - s.timer_a_period,
    ensures
        timer_a_ticked(s, n).status % 2 == 1 <==> n == 1024 - s.timer_a_period,
{
    reveal(timer_a_stepped);
    if n < 1024 - s.timer_a_period {
        lemma_timer_a_counts(s, n);
    } else {
        lemma_timer_a_counts(s, (n - 1) as nat);
    }
}

/// Past the first envelope tick the envelope counter is never zero again.
pub proof fn law_envelope_counter_skips_zero(s: YmState)
    requires
        s.wf(),
        s.eg_counter > 0 || s.eg_timer == 2,
    ensures
        0 < eg_stepped(s).eg_counter <= 4095,
{
}

// ── Output ───────────────────────────────────────────────────────────────

/// A side that is panned off is silent.
pub proof fn law_panning(s: YmState, ch: int)
    ensures
        !s.channels[ch].panning_left ==> channel_sample(s, ch).0 == 0,
        !s.channels[ch].panning_right ==> channel_sample(s, ch).1 == 0,
{
    reveal(channel_sample);
}

/// With the DAC on, channel 6 plays twice the DAC value.
pub proof fn law_dac_replaces_channel_6(s: YmState)
    requires
        s.dac_enabled,
        s.channels[5].panning_left,
        s.channels[5].panning_right,
    ensures
        channel_sample(s, 5) == ((s.dac_value * 2) as i32, (s.dac_value * 2) as i32),
{
    reveal(channel_sample);
}

/// Every channel sample stays within nine bits.
pub proof fn law_channel_sample_bounded(s: YmState, ch: int)
    requires
        -128 <= s.dac_value <= 127,
    ensures
        -256 <= channel_sample(s, ch).0 <= 256,
        -256 <= channel_sample(s, ch).1 <= 256,
{
    reveal(channel_sample);
}

/// The largest entry of the exponential table is its first.
pub proof fn lemma_exp_table_bound(i: int)
    requires
        0 <= i < 256,
    ensures
        EXP_TABLE@[i] <= 2042,
{
}

/// An operator attenuated by 78 dB or more, by its envelope and its total level
/// together, is silent at every phase. A fully released one is, whatever its
/// total level; so is one at the highest total level, whatever its envelope.
pub proof fn law_silent_operator(op: Operator, step: u32, modulation: i32, am: u32)
    requires
        !op.inverted(),
        op.envelope * 4 + op.total_level * 32 >= 3328,
    ensures
        computed(op, step, modulation, am).output == 0,
{
    reveal(computed);
    let position = (op.phase.wrapping_add(step) / 1024 + modulation) % 1024;
    let atten = attenuation_at(op, position, am);
    assert(atten >= 3328);
    if atten < 4096 {
        lemma_exp_table_bound(atten % 256);
        assert(atten / 256 >= 13);
        assert(power_of_two(atten / 256) >= 8192);
        let full = EXP_TABLE@[atten % 256] * 4;
        let divisor = power_of_two(atten / 256) as int;
        assert(full / divisor == 0) by (nonlinear_arith)
            requires
                0 <= full < divisor,
        ;
    }
}

/// The chip is silent at power-on.
pub proof fn law_power_on_silent(i: int)
    requires
        0 <= i < 6,
    ensures
        chip_samples(power_on_ym())[i] == (0i32, 0i32),
{
    let s = power_on_ym();
    reveal(sample_begun);
    reveal(channel_sample);
    let a = sample_begun(s);
    let c = a.channels[i];
    assert(c == silent_channel());
    let op = silent_operator();
    let fnums = slot_fnums(a, i);
    let blocks = slot_blocks(a, i);
    assert forall|step: u32, m: i32, am: u32| #[trigger]
        computed(op, step, m, am).output == 0 by {
        law_silent_operator(op, step, m, am);
    }
    let played = channel_played(a, i);
    assert(played.operators[0].output == 0);
    assert(played.operators[1].output == 0);
    assert(played.operators[2].output == 0);
    assert(played.operators[3].output == 0);
}

} // verus!
