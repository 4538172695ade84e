//! How the envelope of an operator moves.
use vstd::arithmetic::power2::pow2;
use vstd::prelude::*;

use crate::ym2612::channel::{vibrato, ChannelState};
use crate::ym2612::operator::{
    attack_started, attenuation_at, eg_increment, envelope_stepped, increment_row, key_code_of,
    keyed_off, power_of_two, rate_shift, scaled_rate, ssg_stepped, EnvState, Operator,
};
use crate::ym2612::sound_laws::law_powers_of_two;
use crate::ym2612::tables::{EG_INC, EXP_TABLE, PM_SHIFT_1, PM_SHIFT_2, SIN_TABLE};

verus! {

/// The smaller of two numbers.
pub open spec fn least(a: int, b: int) -> int {
    if a < b {
        a
    } else {
        b
    }
}

/// How far an envelope moves at a tick with one of its rates.
pub open spec fn moved(op: Operator, base: u8, fnum: u16, block: u8, counter: u32) -> int {
    eg_increment(scaled_rate(op.key_scale, base, fnum, block), counter) as int
}

/// The key code has the octave block and, in its two low bits, where in the octave
/// the note is; the two bits follow bit 10 of the frequency number and those below.
pub proof fn law_key_code(fnum: u16, block: u8)
    requires
        fnum < 2048,
        block < 8,
    ensures
        key_code_of(fnum, block) / 4 == block,
        fnum < 0x380 ==> key_code_of(fnum, block) % 4 == 0,
        0x380 <= fnum < 0x400 ==> key_code_of(fnum, block) % 4 == 1,
        0x400 <= fnum < 0x480 ==> key_code_of(fnum, block) % 4 == 2,
        0x480 <= fnum ==> key_code_of(fnum, block) % 4 == 3,
{
}

/// Key scaling adds to twice a rate the key code, divided by 8, 4, 2 or 1; a rate is
/// at most 63, and rate 0 is never scaled.
pub proof fn law_key_scaling(key_scale: u8, base: u8, fnum: u16, block: u8)
    requires
        key_scale < 4,
        base <= 31,
        fnum < 2048,
        block < 8,
    ensures
        ({
            let r = scaled_rate(key_scale, base, fnum, block) as int;
            let share = key_code_of(fnum, block) as int / pow2((3 - key_scale) as nat) as int;
            &&& base == 0 ==> r == 0
            &&& base > 0 ==> r == least(63, 2 * base + share)
        }),
{
    law_powers_of_two((3 - key_scale) as nat);
    vstd::arithmetic::power2::lemma2_to64();
    if key_scale == 0 {
    } else if key_scale == 1 {
    } else if key_scale == 2 {
    } else {
    }
}

/// In eight of its steps a rate below 48 moves by 4 to 7, by its two low bits, and
/// faster ones by twice, four times and eight times as much; the fastest move by 64.
pub proof fn law_average_increment(rate: u8, k: u32)
    requires
        0 < rate < 64,
        k < 0x1_0000,
    ensures
        ({
            let p = power_of_two(rate_shift(rate));
            let base = 8 * k * p;
            let sum = eg_increment(rate, base as u32) + eg_increment(rate, (base + p) as u32)
                + eg_increment(rate, (base + 2 * p) as u32) + eg_increment(
                rate,
                (base + 3 * p) as u32,
            ) + eg_increment(rate, (base + 4 * p) as u32) + eg_increment(
                rate,
                (base + 5 * p) as u32,
            ) + eg_increment(rate, (base + 6 * p) as u32) + eg_increment(
                rate,
                (base + 7 * p) as u32,
            );
            &&& rate < 48 ==> sum == 4 + rate % 4
            &&& 48 <= rate < 52 ==> sum == 2 * (4 + rate % 4)
            &&& 52 <= rate < 56 ==> sum == 4 * (4 + rate % 4)
            &&& 56 <= rate < 60 ==> sum == 8 * (4 + rate % 4)
            &&& 60 <= rate ==> sum == 64
            &&& p == pow2(rate_shift(rate) as nat)
            &&& rate_shift(rate) == if rate < 48 {
                11 - rate / 4
            } else {
                0
            }
        }),
{
    law_powers_of_two(rate_shift(rate) as nat);
    let p = power_of_two(rate_shift(rate)) as int;
    assert(1 <= p <= 2048);
    lemma_increment(rate, k, 0);
    lemma_increment(rate, k, 1);
    lemma_increment(rate, k, 2);
    lemma_increment(rate, k, 3);
    lemma_increment(rate, k, 4);
    lemma_increment(rate, k, 5);
    lemma_increment(rate, k, 6);
    lemma_increment(rate, k, 7);
    lemma_rows(increment_row(rate));
}

/// The increment at step `j` of eight.
proof fn lemma_increment(rate: u8, k: u32, j: int)
    requires
        0 < rate < 64,
        k < 0x1_0000,
        0 <= j < 8,
    ensures
        ({
            let p = power_of_two(rate_shift(rate));
            eg_increment(rate, (8 * k * p + j * p) as u32) == EG_INC@[increment_row(rate) * 8 + j]
        }),
{
    let p = power_of_two(rate_shift(rate)) as int;
    let n = 8 * k + j;
    assert(8 * k * p + j * p == p * n) by (nonlinear_arith)
        requires
            n == 8 * k + j,
    ;
    assert(0 <= p * n <= 0xFFFF_FFFF) by (nonlinear_arith)
        requires
            1 <= p <= 2048,
            0 <= n <= 0x8_0000,
    ;
    vstd::arithmetic::div_mod::lemma_fundamental_div_mod_converse(p * n, p, n, 0);
    assert(n % 8 == j);
}

/// The sums of the increment rows.
proof fn lemma_rows(row: int)
    requires
        0 <= row <= 16,
    ensures
        ({
            let t = EG_INC@;
            let b = row * 8;
            let sum = t[b] + t[b + 1] + t[b + 2] + t[b + 3] + t[b + 4] + t[b + 5] + t[b + 6] + t[b
                + 7];
            &&& row < 4 ==> sum == 4 + row
            &&& 4 <= row < 8 ==> sum == 2 * row
            &&& 8 <= row < 12 ==> sum == 4 * (row - 4)
            &&& 12 <= row < 16 ==> sum == 8 * (row - 8)
            &&& row == 16 ==> sum == 64
        }),
{
}

/// Without SSG-EG the attenuation rises by what its rate moves, up to 1023: with the
/// decay rate until the sustain level is reached, then with the sustain rate, and
/// after key-off with the release rate. Levels are 32 apart, and level 15 is 992.
pub proof fn law_falling_envelope(op: Operator, fnum: u16, block: u8, counter: u32)
    requires
        op.wf(),
        op.ssg_eg < 8,
        op.env_state != EnvState::Attack,
    ensures
        ({
            let t = envelope_stepped(op, fnum, block, counter);
            let target: int = if op.sustain_level < 15 {
                32 * op.sustain_level
            } else {
                992
            };
            let base: int = match op.env_state {
                EnvState::Decay => op.decay_rate as int,
                EnvState::Sustain => op.sustain_rate as int,
                _ => 2 * op.release_rate + 1,
            };
            &&& t.envelope == least(1023, op.envelope + moved(op, base as u8, fnum, block, counter))
            &&& op.env_state == EnvState::Decay && t.envelope >= target ==> t.env_state
                == EnvState::Sustain
            &&& op.env_state == EnvState::Decay && t.envelope < target ==> t.env_state
                == EnvState::Decay
            &&& op.env_state != EnvState::Decay ==> t.env_state == op.env_state
            &&& t == (Operator { envelope: t.envelope, env_state: t.env_state, ..op })
        }),
{
    reveal(envelope_stepped);
}

/// An attack takes a sixteenth of the distance from -1, times its increment and
/// rounded up, off the attenuation; at zero the decay begins. Rates from 62 on are
/// there at once.
pub proof fn law_attack(op: Operator, fnum: u16, block: u8, counter: u32)
    requires
        op.wf(),
        op.ssg_eg < 8,
        op.env_state == EnvState::Attack,
    ensures
        ({
            let t = envelope_stepped(op, fnum, block, counter);
            let inc = moved(op, op.attack_rate, fnum, block, counter);
            let e = op.envelope as int;
            let drop = e - t.envelope;
            let fast = scaled_rate(op.key_scale, op.attack_rate, fnum, block) >= 62;
            &&& fast ==> t.envelope == 0
            &&& !fast && inc == 0 ==> t.envelope == e
            &&& !fast && inc > 0 && t.envelope > 0 ==> (e + 1) * inc <= 16 * drop <= (e + 1) * inc
                + 15
            &&& !fast && inc > 0 && t.envelope == 0 ==> 16 * e <= (e + 1) * inc + 15
            &&& t.env_state == if t.envelope == 0 {
                EnvState::Decay
            } else {
                EnvState::Attack
            }
            &&& t == (Operator { envelope: t.envelope, env_state: t.env_state, ..op })
        }),
{
    reveal(envelope_stepped);
    let inc = moved(op, op.attack_rate, fnum, block, counter);
    let e = op.envelope as int;
    assert((e + 1) * inc >= 0) by (nonlinear_arith)
        requires
            e >= 0,
            inc >= 0,
    ;
}

/// With SSG-EG an attenuation below 0x200 falls four times as fast in decay and
/// sustain.
pub proof fn law_ssg_falls_faster(op: Operator, fnum: u16, block: u8, counter: u32)
    requires
        op.wf(),
        op.ssg_eg >= 8,
        op.envelope < 0x200,
        op.env_state == EnvState::Decay || op.env_state == EnvState::Sustain,
    ensures
        ({
            let t = envelope_stepped(op, fnum, block, counter);
            let base = if op.env_state == EnvState::Decay {
                op.decay_rate
            } else {
                op.sustain_rate
            };
            t.envelope == op.envelope + 4 * moved(op, base, fnum, block, counter)
        }),
{
    reveal(envelope_stepped);
    let rate = if op.env_state == EnvState::Decay {
        op.decay_rate
    } else {
        op.sustain_rate
    };
    lemma_increment_bound(scaled_rate(op.key_scale, rate, fnum, block), counter);
}

/// Increments are at most 8.
proof fn lemma_increment_bound(rate: u8, counter: u32)
    requires
        rate < 64,
    ensures
        eg_increment(rate, counter) <= 8,
{
    let period = power_of_two(rate_shift(rate)) as int;
    let i = increment_row(rate) * 8 + (counter as int / period) % 8;
    assert(0 <= i < 136);
    lemma_small_increments(i);
}

/// The table holds nothing above 8.
proof fn lemma_small_increments(i: int)
    requires
        0 <= i < 136,
    ensures
        EG_INC@[i] <= 8,
{
}

/// At 0x200 an SSG-EG envelope that does not hold starts over with an attack, and
/// alternating ones turn upside down; one that holds stays, or falls silent where it
/// is not shown inverted.
pub proof fn law_ssg_shapes(op: Operator, fnum: u16, block: u8)
    requires
        op.envelope >= 0x200,
        op.env_state == EnvState::Decay || op.env_state == EnvState::Sustain,
    ensures
        ({
            let hold = op.ssg_eg % 2 == 1;
            let alternate = op.ssg_eg / 2 % 2 == 1;
            let rising = op.ssg_eg / 4 % 2 == 1;
            let t = ssg_stepped(op, fnum, block);
            let turned = if alternate {
                hold || !op.ssg_output_invert
            } else {
                op.ssg_output_invert
            };
            &&& t.ssg_output_invert == turned
            &&& !hold ==> t.env_state == attack_started(op, fnum, block).env_state && t.envelope
                == attack_started(op, fnum, block).envelope
            &&& t.phase == if !hold && !alternate {
                0
            } else {
                op.phase
            }
            &&& hold ==> t.env_state == op.env_state
            &&& hold && turned == rising ==> t.envelope == 0x3FF
            &&& hold && turned != rising ==> t.envelope == op.envelope
        }),
{
}

/// An inverted envelope sounds as its distance from 0x200, and key-off keeps what
/// sounds.
pub proof fn law_inverted_envelope(op: Operator, position: int, am: u32)
    requires
        op.wf(),
        op.envelope <= 0x200,
        op.ssg_eg >= 8,
        op.env_state != EnvState::Release,
        op.ssg_output_invert != (op.ssg_eg / 4 % 2 == 1),
        0 <= position < 1024,
    ensures
        ({
            let plain = Operator { ssg_eg: 0, envelope: (0x200 - op.envelope) as u16, ..op };
            &&& attenuation_at(op, position, am) == attenuation_at(plain, position, am)
            &&& op.key_on ==> keyed_off(op).envelope == 0x200 - op.envelope
        }),
{
}

// ── Waves ────────────────────────────────────────────────────────────────

/// The wave table holds sines as logarithms, 256 for every halving: they fall to zero
/// at the top of the wave, and twice an angle has the product of its sine and cosine,
/// doubled. The doubled angle lies between two entries.
pub proof fn law_sine_table(i: int)
    requires
        0 <= i < 128,
    ensures
        ({
            let t = SIN_TABLE@;
            &&& t[2 * i + 1] - 1 <= t[i] + t[255 - i] - 256 <= t[2 * i] + 1
            &&& t[2 * i] >= t[2 * i + 1]
            &&& t[255] == 0
        }),
{
}

/// The level table is an exponential: it falls in proportion to itself, from nearly
/// twice its last entry.
pub proof fn law_level_table(i: int)
    requires
        0 <= i < 255,
    ensures
        ({
            let t = EXP_TABLE@;
            &&& -9_000 <= 10_000 * (t[i] - t[i + 1]) - 27 * t[i] <= 9_000
            &&& t[i] > t[i + 1]
            &&& t[0] == 2042
            &&& t[255] == 1024
        }),
{
}

/// At its peak the vibrato moves the frequency number by a share of its seven high
/// bits: a sixteenth, an eighth, three sixteenths, a quarter, three eighths, three
/// quarters, and the whole and a half, by sensitivity.
pub proof fn law_vibrato_depth(c: ChannelState, k: u8)
    requires
        k == 7 || k == 8,
        1 <= c.pms <= 7,
        c.fnum <= 2047,
    ensures
        ({
            let high = c.fnum as int / 16;
            let d = vibrato(c, k);
            &&& c.pms == 1 ==> d == high / 4 / 4
            &&& c.pms == 2 ==> d == high / 2 / 4
            &&& c.pms == 3 ==> d == (high / 2 + high / 4) / 4
            &&& c.pms == 4 ==> d == high / 4
            &&& c.pms == 5 ==> d == (high + high / 2) / 4
            &&& c.pms == 6 ==> d == (high + high / 2) / 2
            &&& c.pms == 7 ==> d == high + high / 2
        }),
{
    assert(PM_SHIFT_1@[15] == 7 && PM_SHIFT_1@[23] == 1 && PM_SHIFT_1@[31] == 1 && PM_SHIFT_1@[39]
        == 0 && PM_SHIFT_1@[47] == 0 && PM_SHIFT_1@[55] == 0 && PM_SHIFT_1@[63] == 0);
    assert(PM_SHIFT_2@[15] == 2 && PM_SHIFT_2@[23] == 7 && PM_SHIFT_2@[31] == 2 && PM_SHIFT_2@[39]
        == 7 && PM_SHIFT_2@[47] == 1 && PM_SHIFT_2@[55] == 1 && PM_SHIFT_2@[63] == 1);
    let high = c.fnum / 16;
    assert(high < 128);
    assert(high / 128 == 0);
    assert(power_of_two(0) == 1 && power_of_two(1) == 2 && power_of_two(2) == 4 && power_of_two(7)
        == 128);
    assert(high / 1 == high);
    if c.pms <= 5 {
        let a = PM_SHIFT_1@[c.pms * 8 + 7] as int;
        let b = PM_SHIFT_2@[c.pms * 8 + 7] as int;
        let fm = high / (power_of_two(a) as u16) + high / (power_of_two(b) as u16);
        assert(fm * 1 == fm);
        assert(vibrato(c, k) == fm / 4);
        if c.pms == 1 {
            assert(fm == high / 4);
        } else if c.pms == 2 {
            assert(fm == high / 2);
        } else if c.pms == 3 {
            assert(fm == high / 2 + high / 4);
        } else if c.pms == 4 {
            assert(fm == high);
        } else {
            assert(fm == high + high / 2);
        }
    } else {
        let fm = high + high / 2;
        if c.pms == 6 {
            assert(power_of_two(c.pms - 5) == 2);
            assert(vibrato(c, k) == (fm * 2) / 4);
        } else {
            assert(power_of_two(c.pms - 5) == 4);
            assert(vibrato(c, k) == (fm * 4) / 4);
        }
    }
}

} // verus!
