//! What a listener hears: pitch, waves, levels, algorithms and modulation.
use vstd::arithmetic::power2::pow2;
use vstd::prelude::*;

use crate::ym2612::channel::{
    carrier_sum, channel_keyed, clipped, feedback_modulation,
    modulated_fnum, modulation_2, modulation_3, modulation_4, operators_sampled, tremolo,
    vibrato, ChannelState,
};
use crate::ym2612::operator::{
    attenuation_at, computed, eg_increment, increment_row, key_code_of, multiplier, phase_step,
    power_of_two, rate_shift, sample_at, Operator,
};
use crate::ym2612::tables::{DETUNE_TABLE, EG_INC, EXP_TABLE};
use crate::ym2612::{channel_sample, lfo_am, lfo_pm, register_written, timer_b_stepped, YmState};

verus! {

// ── Pitch ────────────────────────────────────────────────────────────────

/// The powers of two that the chip shifts by.
pub proof fn law_powers_of_two(n: nat)
    requires
        n <= 15,
    ensures
        power_of_two(n as int) == pow2(n),
{
    vstd::arithmetic::power2::lemma2_to64();
}

/// Detune magnitude 0 is no detune.
proof fn lemma_no_detune(code: int)
    requires
        0 <= code < 32,
    ensures
        DETUNE_TABLE@[code] == 0,
{
}

/// Without detune the phase increment is the frequency number, doubled with every
/// octave block and halved once, times the multiplier.
proof fn lemma_plain_step(op: Operator, fnum: u16, block: u8, dt_fnum: u16, dt_block: u8)
    requires
        op.detune % 4 == 0,
        fnum <= 2047,
        block <= 7,
        dt_block <= 7,
        op.multiply <= 15,
    ensures
        ({
            let base = (fnum * power_of_two(block as int)) / 2;
            let step = phase_step(op, fnum, block, dt_fnum, dt_block) as int;
            &&& 0 <= base <= 131_008
            &&& op.multiply >= 1 ==> step == base * op.multiply
            &&& op.multiply == 0 ==> step == base / 2
        }),
{
    reveal(phase_step);
    let p = power_of_two(block as int) as int;
    assert(0 <= fnum * p <= 2047 * 128) by (nonlinear_arith)
        requires
            0 <= fnum <= 2047,
            1 <= p <= 128,
    ;
    let base = (fnum * power_of_two(block as int)) / 2;
    lemma_no_detune(key_code_of(dt_fnum, dt_block) as int);
    let m = op.multiply as int;
    if m >= 1 {
        assert(base * (m * 2) == 2 * (base * m)) by (nonlinear_arith);
        assert(0 <= base * m <= 131_008 * 15) by (nonlinear_arith)
            requires
                0 <= base <= 131_008,
                1 <= m <= 15,
        ;
    } else {
        assert(base * 1 == base);
    }
}

/// Without detune an operator with multiplier `m` sounds at `m` times the note's
/// frequency, and one with multiplier 0 at half of it.
pub proof fn law_multiplier_gives_harmonics(
    op: Operator,
    fnum: u16,
    block: u8,
    dt_fnum: u16,
    dt_block: u8,
)
    requires
        op.detune == 0,
        fnum <= 2047,
        block <= 7,
        dt_block <= 7,
        op.multiply <= 15,
    ensures
        ({
            let note = phase_step(
                (Operator { multiply: 1, ..op }),
                fnum,
                block,
                dt_fnum,
                dt_block,
            );
            let own = phase_step(op, fnum, block, dt_fnum, dt_block);
            &&& op.multiply >= 1 ==> own == op.multiply * note
            &&& op.multiply == 0 ==> own == note / 2
        }),
{
    lemma_plain_step(op, fnum, block, dt_fnum, dt_block);
    let one = Operator { multiply: 1, ..op };
    lemma_plain_step(one, fnum, block, dt_fnum, dt_block);
    let base = (fnum * power_of_two(block as int)) / 2;
    assert(base * op.multiply == op.multiply * base) by (nonlinear_arith);
}

/// The note of multiplier 1 in octave 1 advances by the frequency number each
/// sample, and each octave above doubles that.
pub proof fn law_octaves_double(op: Operator, fnum: u16, block: u8, dt_fnum: u16, dt_block: u8)
    requires
        op.detune == 0,
        op.multiply == 1,
        fnum <= 2047,
        1 <= block <= 7,
        dt_block <= 7,
    ensures
        phase_step(op, fnum, block, dt_fnum, dt_block) == fnum * pow2((block - 1) as nat),
        phase_step(op, fnum, 0, dt_fnum, dt_block) == fnum / 2,
{
    lemma_plain_step(op, fnum, block, dt_fnum, dt_block);
    lemma_plain_step(op, fnum, 0, dt_fnum, dt_block);
    law_powers_of_two(block as nat);
    vstd::arithmetic::power2::lemma_pow2_unfold(block as nat);
    let h = pow2((block - 1) as nat) as int;
    assert(fnum * (2 * h) == 2 * (fnum * h)) by (nonlinear_arith);
    assert(fnum * 1 == fnum) by (nonlinear_arith);
}

/// Detune raises the pitch (1 to 3) as far as it lowers it (5 to 7), never below
/// zero; 0 and 4 leave it. How far goes by the octave and note alone.
pub proof fn law_detune_is_symmetric(op: Operator, fnum: u16, block: u8, dt_fnum: u16, dt_block: u8)
    requires
        op.detune <= 3,
        fnum <= 2047,
        block <= 7,
        dt_block <= 7,
        op.multiply <= 15,
    ensures
        ({
            let plain = phase_step(
                (Operator { detune: 0, ..op }),
                fnum,
                block,
                dt_fnum,
                dt_block,
            ) as int;
            let up = phase_step(op, fnum, block, dt_fnum, dt_block) as int;
            let down = phase_step(
                (Operator { detune: (op.detune + 4) as u8, ..op }),
                fnum,
                block,
                dt_fnum,
                dt_block,
            ) as int;
            let offset = DETUNE_TABLE@[op.detune * 32 + key_code_of(dt_fnum, dt_block)];
            &&& up == plain + offset
            &&& plain >= offset ==> down == plain - offset
            &&& plain < offset ==> down == 0
            &&& op.detune == 0 ==> up == plain && down == plain
        }),
{
    let code = key_code_of(dt_fnum, dt_block) as int;
    lemma_no_detune(code);
    reveal(phase_step);
    let p = power_of_two(block as int) as int;
    assert(0 <= fnum * p <= 2047 * 128) by (nonlinear_arith)
        requires
            0 <= fnum <= 2047,
            1 <= p <= 128,
    ;
    let base = (fnum * power_of_two(block as int)) / 2;
    let m = multiplier(op.multiply);
    assert(0 <= base * m <= 131_008 * 30) by (nonlinear_arith)
        requires
            0 <= base <= 131_008,
            0 <= m <= 30,
    ;
    let low = (op.detune + 4) as u8;
    assert(low % 4 == op.detune && op.detune % 4 == op.detune);
    assert(0 <= op.detune * 32 + code < 128);
}

// ── Waves and levels ─────────────────────────────────────────────────────

/// The wave of an operator is a sine in its symmetry: the second half of the
/// period is the first turned over, and each half is its own mirror image.
pub proof fn law_wave_is_symmetric(op: Operator, position: int, am: u32)
    requires
        0 <= position < 512,
    ensures
        sample_at(op, position + 512, am) == -sample_at(op, position, am),
        sample_at(op, 511 - position, am) == sample_at(op, position, am),
        sample_at(op, position, am) >= 0,
{
    lemma_attenuation_mirrors(op, position, am);
    let a = attenuation_at(op, position, am);
    lemma_linear(a);
}

/// Positions that a sine repeats at have one attenuation.
proof fn lemma_attenuation_mirrors(op: Operator, position: int, am: u32)
    requires
        0 <= position < 512,
    ensures
        attenuation_at(op, position + 512, am) == attenuation_at(op, position, am),
        attenuation_at(op, 511 - position, am) == attenuation_at(op, position, am),
        attenuation_at(op, position, am) >= 0,
{
    assert((position + 512) % 256 == position % 256);
    assert(((position + 512) / 256) % 2 == (position / 256) % 2);
}

/// The linear level of an attenuation.
proof fn lemma_linear(a: int)
    requires
        a >= 0,
    ensures
        a < 4096 ==> 0 <= (EXP_TABLE@[a % 256] * 4) / power_of_two(a / 256) as int <= 8168,
{
    if a < 4096 {
        crate::ym2612::laws::lemma_exp_table_bound(a % 256);
        let full = EXP_TABLE@[a % 256] * 4;
        let p = power_of_two(a / 256) as int;
        assert(0 <= full / p <= full) by (nonlinear_arith)
            requires
                full >= 0,
                p >= 1,
        ;
    }
}

/// Six decibels: 64 steps of the envelope, or 8 of the total level, halve the
/// output, rounding toward zero.
pub proof fn law_six_decibels_halve(op: Operator, quieter: Operator, position: int, am: u32)
    requires
        0 <= position < 1024,
        !op.inverted(),
        quieter == (Operator { envelope: quieter.envelope, ..op }) && quieter.envelope
            == op.envelope + 64 || quieter == (Operator { total_level: quieter.total_level, ..op })
            && quieter.total_level == op.total_level + 8,
        attenuation_at(op, position, am) + 256 < 4096,
    ensures
        position < 512 ==> sample_at(quieter, position, am) == sample_at(op, position, am) as int
            / 2,
        position >= 512 ==> sample_at(quieter, position, am) == -((-sample_at(
            op,
            position,
            am,
        )) / 2),
{
    let a = attenuation_at(op, position, am);
    assert(attenuation_at(quieter, position, am) == a + 256);
    assert((a + 256) % 256 == a % 256);
    assert((a + 256) / 256 == a / 256 + 1);
    let full = EXP_TABLE@[a % 256] * 4;
    lemma_linear(a);
    lemma_linear(a + 256);
    law_powers_of_two((a / 256) as nat);
    law_powers_of_two((a / 256 + 1) as nat);
    vstd::arithmetic::power2::lemma_pow2_unfold((a / 256 + 1) as nat);
    vstd::arithmetic::power2::lemma_pow2_pos((a / 256) as nat);
    vstd::arithmetic::div_mod::lemma_div_denominator(full, power_of_two(a / 256) as int, 2);
    assert(power_of_two(a / 256) * 2 == power_of_two(a / 256 + 1));
}

/// The LFO's tremolo attenuates an operator like its envelope does, and only where
/// the operator lets it.
pub proof fn law_tremolo_attenuates(op: Operator, position: int, am: u32)
    ensures
        attenuation_at((Operator { am_enable: true, ..op }), position, am) == attenuation_at(
            (Operator { am_enable: false, ..op }),
            position,
            am,
        ) + am,
        attenuation_at((Operator { am_enable: false, ..op }), position, am) == attenuation_at(
            (Operator { am_enable: true, ..op }),
            position,
            0,
        ),
{
}

/// An operator's next sample is its wave at the phase after the increment, moved
/// by the modulation: a modulation of 1024 is a whole period.
pub proof fn law_phase_advances(op: Operator, step: u32, modulation: i32, am: u32)
    requires
        modulation + 1024 <= i32::MAX,
    ensures
        ({
            let n = computed(op, step, modulation, am);
            &&& n.phase == op.phase.wrapping_add(step)
            &&& n.output == sample_at(op, (n.phase / 1024 + modulation) % 1024, am)
            &&& n.prev_output == op.output
            &&& computed(op, step, (modulation + 1024) as i32, am) == n
            &&& n.envelope == op.envelope
            &&& n.env_state == op.env_state
        }),
{
    reveal(computed);
    let x = op.phase.wrapping_add(step) / 1024 + modulation;
    vstd::arithmetic::div_mod::lemma_mod_add_multiples_vanish(x, 1024);
    assert(op.phase.wrapping_add(step) / 1024 + (modulation + 1024) as i32 == 1024 + x);
}

// ── Algorithms ───────────────────────────────────────────────────────────

/// Operator `from` modulates operator `to` in an algorithm. The chains are
///
/// 0: 1 to 2 to 3 to 4; 1: 1 and 2 to 3 to 4; 2: 1 to 3, with 2 to 4;
/// 3: 1 to 2, with 3 to 4; 4: 1 to 2, 3 to 4; 5: 1 to 2, 3 and 4; 6: 1 to 2;
/// 7: none.
pub open spec fn modulates(algorithm: u8, from: int, to: int) -> bool {
    let a = algorithm as int;
    if from == 1 && to == 2 {
        a == 0 || 3 <= a <= 6
    } else if from == 1 && to == 3 {
        a == 1 || a == 2 || a == 5
    } else if from == 1 && to == 4 {
        a == 5
    } else if from == 2 && to == 3 {
        a == 0 || a == 1
    } else if from == 2 && to == 4 {
        a == 2 || a == 3
    } else {
        from == 3 && to == 4 && a <= 4
    }
}

/// Operator `k` is heard in an algorithm: it modulates no other.
pub open spec fn heard(algorithm: u8, k: int) -> bool {
    !modulates(algorithm, k, 2) && !modulates(algorithm, k, 3) && !modulates(algorithm, k, 4)
}

/// A number where something holds, else 0.
pub open spec fn counted(yes: bool, x: int) -> int {
    if yes {
        x
    } else {
        0
    }
}

/// Every operator after the first is moved by half the outputs of those that
/// modulate it, and the channel plays the sum of those that modulate none.
pub proof fn law_algorithm_chains(algorithm: u8, o1: i32, o2: i32, o3: i32, o4: i32)
    requires
        algorithm <= 7,
        -262_140 <= o1 <= 262_140,
        -262_140 <= o2 <= 262_140,
        -262_140 <= o3 <= 262_140,
        -262_140 <= o4 <= 262_140,
    ensures
        modulation_2(algorithm, o1) == counted(modulates(algorithm, 1, 2), o1 as int / 2),
        modulation_3(algorithm, o1, o2) == counted(modulates(algorithm, 1, 3), o1 as int / 2)
            + counted(modulates(algorithm, 2, 3), o2 as int / 2),
        modulation_4(algorithm, o1, o2, o3) == counted(modulates(algorithm, 1, 4), o1 as int / 2)
            + counted(modulates(algorithm, 2, 4), o2 as int / 2) + counted(
            modulates(algorithm, 3, 4),
            o3 as int / 2,
        ),
        carrier_sum(algorithm, o1, o2, o3, o4) == counted(heard(algorithm, 1), o1 as int) + counted(
            heard(algorithm, 2),
            o2 as int,
        ) + counted(heard(algorithm, 3), o3 as int) + counted(heard(algorithm, 4), o4 as int),
        heard(algorithm, 4),
{
}

/// In a sample each operator runs at its own frequency, with the vibrato of the
/// channel, and is moved by the outputs that the ones before it have just given;
/// the first is moved by its own past.
pub proof fn law_operators_run_in_order(
    c: ChannelState,
    fnums: Seq<u16>,
    blocks: Seq<u8>,
    am_level: u8,
    pm_raw: u8,
)
    requires
        c.wf(),
    ensures
        ({
            let n = operators_sampled(c, fnums, blocks, am_level, pm_raw);
            let am = tremolo(c.ams, am_level);
            let f = |i: int| modulated_fnum(fnums[i], vibrato(c, pm_raw));
            let step = |i: int| phase_step(c.operators[i], f(i), blocks[i], fnums[i], blocks[i]);
            &&& n.len() == 4
            &&& n[0] == computed(
                c.operators[0],
                step(0),
                feedback_modulation(c.operators[0], c.feedback),
                am,
            )
            &&& n[1] == computed(c.operators[1], step(1), modulation_2(c.algorithm, n[0].output), am)
            &&& n[2] == computed(
                c.operators[2],
                step(2),
                modulation_3(c.algorithm, n[0].output, n[1].output),
                am,
            )
            &&& n[3] == computed(
                c.operators[3],
                step(3),
                modulation_4(c.algorithm, n[0].output, n[1].output, n[2].output),
                am,
            )
        }),
{
}

/// The channel's output is the sum of the heard operators over 32, rounded down
/// and held within 256 either way.
pub proof fn law_output_is_clipped_sum(sum: int)
    ensures
        -256 <= clipped(sum) <= 256,
        -8192 <= sum < 8224 ==> clipped(sum) == sum / 32,
        sum >= 8192 ==> clipped(sum) == 256,
        sum < -8192 ==> clipped(sum) == -256,
{
}

/// Feedback: level 0 is none, and each level doubles the share of the last two
/// outputs, up to an eighth of their sum at level 7.
pub proof fn law_feedback_doubles(op: Operator, feedback: u8)
    requires
        feedback < 7,
        -262_140 <= op.output <= 262_140,
        -262_140 <= op.prev_output <= 262_140,
    ensures
        feedback_modulation(op, 0) == 0,
        feedback_modulation(op, 7) == (op.prev_output + op.output) / 8,
        feedback >= 1 ==> feedback_modulation(op, feedback) == feedback_modulation(
            op,
            (feedback + 1) as u8,
        ) as int / 2,
{
    let sum = op.prev_output + op.output;
    if feedback >= 1 {
        let p = power_of_two(9 - feedback) as int;
        assert(power_of_two(10 - feedback) == 2 * p);
        assert((sum / p) / 2 == sum / (2 * p)) by {
            lemma_floor_halves(sum, p);
        }
        lemma_floor_bound(sum, p);
        lemma_floor_bound(sum, 2 * p);
    }
    lemma_floor_bound(sum, 8);
}

/// Halving a floor division.
proof fn lemma_floor_halves(a: int, p: int)
    requires
        p > 0,
    ensures
        (a / p) / 2 == a / (2 * p),
{
    let q = a / p;
    let r = a % p;
    let h = q / 2;
    let b = q % 2;
    vstd::arithmetic::div_mod::lemma_fundamental_div_mod(a, p);
    vstd::arithmetic::div_mod::lemma_mod_bound(a, p);
    assert(a == (2 * p) * h + (p * b + r) && 0 <= p * b + r < 2 * p) by (nonlinear_arith)
        requires
            a == p * q + r,
            q == 2 * h + b,
            b == 0 || b == 1,
            0 <= r < p,
    ;
    assert((2 * p) * h == h * (2 * p)) by (nonlinear_arith);
    vstd::arithmetic::div_mod::lemma_fundamental_div_mod_converse(a, 2 * p, h, p * b + r);
}

/// A quotient is no farther from zero than its dividend.
proof fn lemma_floor_bound(a: int, p: int)
    requires
        -600_000 <= a <= 600_000,
        p >= 1,
    ensures
        -600_000 <= a / p <= 600_000,
{
    assert(-600_000 <= a / p <= 600_000) by (nonlinear_arith)
        requires
            -600_000 <= a <= 600_000,
            p >= 1,
    ;
}

// ── Modulation by the LFO ────────────────────────────────────────────────

/// Vibrato swings as far down as up, over one period of 32, and each swing rises
/// as it falls. Without sensitivity there is none.
pub proof fn law_vibrato_is_symmetric(c: ChannelState, k: u8)
    requires
        k < 16,
        c.pms <= 7,
    ensures
        vibrato(c, (k + 16) as u8) == -vibrato(c, k),
        vibrato(c, (15 - k) as u8) == vibrato(c, k),
        c.pms == 0 ==> vibrato(c, k) == 0,
        vibrato(c, k) >= 0,
{
    assert((k + 16) % 16 == k);
    if c.pms > 0 {
        let level = if k >= 8 {
            15 - k
        } else {
            k as int
        };
        lemma_depth_nonnegative(c, level);
    }
}

/// The depth of the vibrato is not negative.
proof fn lemma_depth_nonnegative(c: ChannelState, level: int)
    requires
        0 <= level < 8,
        0 < c.pms <= 7,
    ensures
        ({
            let high = c.fnum / 16;
            let i = c.pms * 8 + level;
            let fm = high / (power_of_two(crate::ym2612::tables::PM_SHIFT_1@[i] as int) as u16)
                + high / (power_of_two(crate::ym2612::tables::PM_SHIFT_2@[i] as int) as u16);
            (fm * (if c.pms > 5 {
                power_of_two(c.pms - 5)
            } else {
                1
            })) / 4 >= 0
        }),
{
    let high = c.fnum / 16;
    let i = c.pms * 8 + level;
    let fm = high / (power_of_two(crate::ym2612::tables::PM_SHIFT_1@[i] as int) as u16) + high / (
    power_of_two(crate::ym2612::tables::PM_SHIFT_2@[i] as int) as u16);
    let g: int = if c.pms > 5 {
        power_of_two(c.pms - 5) as int
    } else {
        1
    };
    assert(fm * g >= 0) by (nonlinear_arith)
        requires
            fm >= 0,
            g >= 1,
    ;
}

/// A modulated frequency number is the note moved by the vibrato, held within
/// eleven bits.
pub proof fn law_modulated_frequency(fnum: u16, offset: int)
    requires
        fnum <= 2047,
    ensures
        modulated_fnum(fnum, 0) == fnum,
        0 <= fnum + offset <= 2047 ==> modulated_fnum(fnum, offset) == fnum + offset,
        modulated_fnum(fnum, offset) <= 2047,
        offset >= 0 ==> modulated_fnum(fnum, offset) >= fnum,
        offset <= 0 ==> modulated_fnum(fnum, offset) <= fnum,
{
}

/// Tremolo follows the LFO: full depth at sensitivity 3, half at 2, an eighth at
/// 1, none at 0. Four units are one envelope step.
pub proof fn law_tremolo_depths(am_level: u8)
    requires
        am_level <= 127,
    ensures
        tremolo(0, am_level) == 0,
        tremolo(1, am_level) == 4 * (am_level / 8),
        tremolo(2, am_level) == 4 * (am_level / 2),
        tremolo(3, am_level) == 4 * am_level,
{
}

/// The LFO is a triangle for the tremolo: it falls as it rose, two at a step. Off
/// it is still.
pub proof fn law_lfo_triangle(s: YmState, k: u8)
    requires
        k < 63,
    ensures
        ({
            let at = |p: u8| lfo_am(YmState { lfo_enabled: true, lfo_phase: p, ..s });
            &&& at(0) == 0
            &&& at((k + 1) as u8) == at(k) + 2
            &&& at((127 - k) as u8) == at(k)
        }),
        lfo_am(YmState { lfo_enabled: false, ..s }) == 0,
        lfo_pm(YmState { lfo_enabled: false, ..s }) == 0,
        lfo_pm(YmState { lfo_enabled: true, lfo_phase: k, ..s }) == k / 4,
{
}

// ── Envelope rates ───────────────────────────────────────────────────────

/// Four rates up the envelope moves twice as fast: below rate 48 it moves at twice
/// as many ticks, from there on twice as far.
pub proof fn law_rates_double(rate: u8, counter: u32)
    requires
        rate > 0,
        counter < 0x8000_0000,
    ensures
        rate < 44 ==> eg_increment(rate, (2 * counter) as u32) == eg_increment(
            (rate + 4) as u8,
            counter,
        ),
        rate < 44 ==> eg_increment(rate, (2 * counter + 1) as u32) == 0,
        48 <= rate < 56 ==> eg_increment((rate + 4) as u8, counter) == 2 * eg_increment(
            rate,
            counter,
        ),
{
    if rate < 44 {
        let p = power_of_two(rate_shift((rate + 4) as u8)) as int;
        let q = power_of_two(rate_shift(rate)) as int;
        assert(rate_shift(rate) == rate_shift((rate + 4) as u8) + 1);
        assert(q == 2 * p);
        let c = counter as int;
        vstd::arithmetic::div_mod::lemma_fundamental_div_mod(c, p);
        vstd::arithmetic::div_mod::lemma_mod_bound(c, p);
        let k = c / p;
        let r = c % p;
        assert(2 * c == k * q + 2 * r) by (nonlinear_arith)
            requires
                c == p * k + r,
                q == 2 * p,
        ;
        vstd::arithmetic::div_mod::lemma_fundamental_div_mod_converse(2 * c, q, k, 2 * r);
        vstd::arithmetic::div_mod::lemma_fundamental_div_mod_converse(2 * c + 1, q, k, 2 * r + 1);
        assert((rate + 4) % 4 == rate % 4);
    } else if 48 <= rate < 56 {
        let row = increment_row(rate);
        assert(increment_row((rate + 4) as u8) == row + 4);
        lemma_rows_double(row * 8 + counter % 8);
        assert(rate_shift(rate) == 0 && rate_shift((rate + 4) as u8) == 0);
        assert(counter % 1 == 0 && counter / 1 == counter);
    }
}

/// Four rows down the increments are doubled.
proof fn lemma_rows_double(i: int)
    requires
        32 <= i < 96,
    ensures
        EG_INC@[i + 32] == 2 * EG_INC@[i],
{
}

// ── Registers and timers ─────────────────────────────────────────────────

/// A key write sets the keys of one channel: selectors 0 to 2 name the channels 1
/// to 3, selectors 4 to 6 the channels 4 to 6, and 3 and 7 none. Bit 4 is the key
/// of operator 1, bit 7 that of operator 4.
pub proof fn law_key_write(s: YmState, val: u8, ch: int, op: int)
    requires
        s.wf(),
        0 <= ch < 6,
        0 <= op < 4,
    ensures
        ({
            let t = register_written(s, 0, 0x28, val);
            let selected = val % 8 == if ch < 3 {
                ch
            } else {
                ch + 1
            };
            let bit = if op == 0 {
                val / 16
            } else if op == 1 {
                val / 32
            } else if op == 2 {
                val / 64
            } else {
                val / 128
            };
            &&& !selected ==> t.channels[ch] == s.channels[ch]
            &&& selected ==> t.channels[ch].operators[op].key_on == (bit % 2 == 1)
            &&& t.channels[ch].fnum == s.channels[ch].fnum
        }),
{
    let m = val / 16;
    assert(m / 2 == val / 32 && m / 4 == val / 64 && m / 8 == val / 128);
    let c = s.channels[ch];
    lemma_keys_follow_mask(c, m);
}

/// Each operator's key follows its bit of the mask.
proof fn lemma_keys_follow_mask(c: ChannelState, mask: u8)
    ensures
        ({
            let k = channel_keyed(c, mask);
            &&& k.operators[0].key_on == (mask % 2 == 1)
            &&& k.operators[1].key_on == ((mask / 2) % 2 == 1)
            &&& k.operators[2].key_on == ((mask / 4) % 2 == 1)
            &&& k.operators[3].key_on == ((mask / 8) % 2 == 1)
        }),
{
}

/// The chip after `n` ticks of timer B.
pub open spec fn timer_b_ticked(s: YmState, n: nat) -> YmState
    decreases n,
{
    if n == 0 {
        s
    } else {
        timer_b_stepped(timer_b_ticked(s, (n - 1) as nat))
    }
}

/// From zero, timer B counts up until its period is over.
proof fn lemma_timer_b_counts(s: YmState, n: nat)
    requires
        s.timer_b_counter == 0,
        (s.timer_control / 2) % 2 == 1,
        n < (256 - s.timer_b_period) * 16,
    ensures
        timer_b_ticked(s, n) == (YmState { timer_b_counter: n as u16, ..s }),
    decreases n,
{
    reveal(timer_b_stepped);
    if n > 0 {
        lemma_timer_b_counts(s, (n - 1) as nat);
    }
}

/// A running timer B with its flag enabled raises the flag after exactly sixteen
/// times 256 minus its period ticks.
pub proof fn law_timer_b_period(s: YmState, n: nat)
    requires
        s.timer_b_counter == 0,
        (s.timer_control / 2) % 2 == 1,
        (s.timer_control / 8) % 2 == 1,
        (s.status / 2) % 2 == 0,
        s.status <= 253,
        n <= (256 - s.timer_b_period) * 16,
    ensures
        (timer_b_ticked(s, n).status / 2) % 2 == 1 <==> n == (256 - s.timer_b_period) * 16,
{
    reveal(timer_b_stepped);
    if n < (256 - s.timer_b_period) * 16 {
        lemma_timer_b_counts(s, n);
    } else {
        lemma_timer_b_counts(s, (n - 1) as nat);
    }
}

/// The registers of an operator: each write sets the fields of that register on
/// that operator and leaves everything else. In a bank the address names channel
/// and operator, whose middle two stand in swapped order.
pub proof fn law_operator_registers(s: YmState, bank: int, ch: u8, op: int, reg: u8, val: u8)
    requires
        s.wf(),
        0 <= bank <= 1,
        ch < 3,
        0 <= op < 4,
        3 <= reg <= 9,
    ensures
        ({
            let slot = if op == 1 {
                2int
            } else if op == 2 {
                1
            } else {
                op
            };
            let t = register_written(s, bank, (reg * 16 + slot * 4 + ch) as u8, val);
            let old_op = s.channels[ch + 3 * bank].operators[op];
            let o = t.channels[ch + 3 * bank].operators[op];
            &&& reg == 3 ==> o.multiply == val % 16 && o.detune == (val / 16) % 8
            &&& reg == 4 ==> o.total_level == val % 128
            &&& reg == 5 ==> o.attack_rate == val % 32 && o.key_scale == val / 64
            &&& reg == 6 ==> o.decay_rate == val % 32 && o.am_enable == (val >= 0x80)
            &&& reg == 7 ==> o.sustain_rate == val % 32
            &&& reg == 8 ==> o.release_rate == val % 16 && o.sustain_level == val / 16
            &&& reg == 9 ==> o.ssg_eg == val % 16
            &&& reg != 4 ==> o.total_level == old_op.total_level
            &&& reg != 3 ==> o.multiply == old_op.multiply && o.detune == old_op.detune
            &&& reg != 5 ==> o.attack_rate == old_op.attack_rate
            &&& reg != 6 ==> o.decay_rate == old_op.decay_rate
            &&& reg != 8 ==> o.release_rate == old_op.release_rate
            &&& o.key_on == old_op.key_on
            &&& t.channels[ch + 3 * bank].operators == s.channels[ch + 3 * bank].operators.update(
                op,
                o,
            )
        }),
{
}

/// The registers of a channel: algorithm and feedback, sides and sensitivities.
pub proof fn law_channel_registers(s: YmState, bank: int, ch: u8, val: u8)
    requires
        s.wf(),
        0 <= bank <= 1,
        ch < 3,
    ensures
        ({
            let a = register_written(s, bank, (0xB0 + ch) as u8, val).channels[ch + 3 * bank];
            let b = register_written(s, bank, (0xB4 + ch) as u8, val).channels[ch + 3 * bank];
            let c = s.channels[ch + 3 * bank];
            &&& a == (ChannelState { algorithm: val % 8, feedback: (val / 8) % 8, ..c })
            &&& b == (ChannelState {
                panning_left: val / 128 == 1,
                panning_right: (val / 64) % 2 == 1,
                ams: (val / 16) % 4,
                pms: val % 8,
                ..c
            })
        }),
{
}

/// The DAC: register 0x2A holds an unsigned sample around 128, register 0x2B turns
/// it on, and channel 6 then plays twice its distance from 128 on its sides.
pub proof fn law_dac_plays_samples(s: YmState, val: u8, on: u8)
    requires
        s.wf(),
    ensures
        ({
            let t = register_written(register_written(s, 0, 0x2B, on), 0, 0x2A, val);
            &&& t.dac_enabled == (on >= 0x80)
            &&& t.dac_value == val - 128
            &&& on >= 0x80 && s.channels[5].panning_left ==> channel_sample(t, 5).0 == 2 * val
                - 256
            &&& on >= 0x80 && s.channels[5].panning_right ==> channel_sample(t, 5).1 == 2 * val
                - 256
        }),
{
    reveal(channel_sample);
}

} // verus!
