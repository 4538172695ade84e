//! One FM operator: phase generator, envelope generator and SSG-EG.
use vstd::prelude::*;

use crate::ym2612::tables::{DETUNE_TABLE, EG_INC, EXP_TABLE, SIN_TABLE};

verus! {

/// ADSR envelope state machine. Each operator transitions through these states
/// based on key-on/off events and the current attenuation level.
#[derive(Debug, Clone, Copy, PartialEq, Eq, Structural)]
pub enum EnvState {
    /// Attenuation decreasing from 1023 toward 0.
    Attack,
    /// Attenuation increasing toward the sustain level.
    Decay,
    /// Attenuation increasing at the sustain rate until key-off.
    Sustain,
    /// Attenuation increasing toward maximum (1023) after key-off.
    Release,
}

/// A single FM operator with phase generator and envelope generator.
#[derive(Debug, Clone, Copy, PartialEq, Eq, Structural)]
pub struct Operator {
    /// Phase accumulator; bits 10 to 19 index the wave.
    pub phase: u32,
    /// Current envelope attenuation (0 = maximum volume, 1023 = silent).
    pub envelope: u16,
    /// Current ADSR state.
    pub env_state: EnvState,
    /// Total level (0-127). Higher values = quieter.
    pub total_level: u8,
    /// Sustain level (0-15).
    pub sustain_level: u8,
    /// Attack rate (0-31).
    pub attack_rate: u8,
    /// Decay rate (0-31).
    pub decay_rate: u8,
    /// Sustain rate (secondary decay rate, 0-31).
    pub sustain_rate: u8,
    /// Release rate (0-15).
    pub release_rate: u8,
    /// Frequency multiplier (0-15). 0 = 0.5x.
    pub multiply: u8,
    /// Detune (0-7): a magnitude of two bits and a sign.
    pub detune: u8,
    /// Key scale (0-3). Scales envelope rates by note pitch.
    pub key_scale: u8,
    /// Whether this operator's key is currently on.
    pub key_on: bool,
    /// Whether amplitude modulation is enabled for this operator.
    pub am_enable: bool,
    /// SSG-EG mode (0-15): enable, attack, alternate, hold.
    pub ssg_eg: u8,
    /// SSG-EG runtime inversion state.
    pub ssg_output_invert: bool,
    /// Last computed output sample.
    pub output: i32,
    /// Output sample before that.
    pub prev_output: i32,
}

impl Operator {
    /// Every field is within the width of its register.
    pub open spec fn wf(self) -> bool {
        &&& self.envelope <= 1023
        &&& self.total_level <= 127
        &&& self.sustain_level <= 15
        &&& self.attack_rate <= 31
        &&& self.decay_rate <= 31
        &&& self.sustain_rate <= 31
        &&& self.release_rate <= 15
        &&& self.multiply <= 15
        &&& self.detune <= 7
        &&& self.key_scale <= 3
        &&& self.ssg_eg <= 15
        &&& -262_140 <= self.output <= 262_140
        &&& -262_140 <= self.prev_output <= 262_140
    }

    /// Whether every field is within the width of its register.
    #[must_use]
    pub fn is_well_formed(&self) -> (r: bool)
        ensures
            r == self.wf(),
    {
        self.envelope <= 1023 && self.total_level <= 127 && self.sustain_level <= 15
            && self.attack_rate <= 31 && self.decay_rate <= 31 && self.sustain_rate <= 31
            && self.release_rate <= 15 && self.multiply <= 15 && self.detune <= 7
            && self.key_scale <= 3 && self.ssg_eg <= 15 && -262_140 <= self.output && self.output
            <= 262_140 && -262_140 <= self.prev_output && self.prev_output <= 262_140
    }

    /// SSG-EG is enabled.
    pub open spec fn ssg(self) -> bool {
        self.ssg_eg / 8 == 1
    }

    /// SSG-EG starts in the attack direction.
    pub open spec fn ssg_attack_bit(self) -> bool {
        (self.ssg_eg / 4) % 2 == 1
    }

    /// SSG-EG alternates.
    pub open spec fn ssg_alternate_bit(self) -> bool {
        (self.ssg_eg / 2) % 2 == 1
    }

    /// SSG-EG holds.
    pub open spec fn ssg_hold_bit(self) -> bool {
        self.ssg_eg % 2 == 1
    }

    /// The attenuation is shown mirrored.
    pub open spec fn inverted(self) -> bool {
        self.ssg() && self.env_state != EnvState::Release && self.ssg_output_invert
            != self.ssg_attack_bit()
    }
}

/// A power of two up to the fifteenth.
pub open spec fn power_of_two(n: int) -> u32 {
    if n <= 0 {
        1
    } else if n == 1 {
        2
    } else if n == 2 {
        4
    } else if n == 3 {
        8
    } else if n == 4 {
        16
    } else if n == 5 {
        32
    } else if n == 6 {
        64
    } else if n == 7 {
        128
    } else if n == 8 {
        256
    } else if n == 9 {
        512
    } else if n == 10 {
        1024
    } else if n == 11 {
        2048
    } else if n == 12 {
        4096
    } else if n == 13 {
        8192
    } else if n == 14 {
        16384
    } else {
        32768
    }
}

/// A silent operator.
pub open spec fn silent_operator() -> Operator {
    Operator {
        phase: 0,
        envelope: 1023,
        env_state: EnvState::Release,
        total_level: 127,
        sustain_level: 0,
        attack_rate: 0,
        decay_rate: 0,
        sustain_rate: 0,
        release_rate: 0,
        multiply: 0,
        detune: 0,
        key_scale: 0,
        key_on: false,
        am_enable: false,
        ssg_eg: 0,
        ssg_output_invert: false,
        output: 0,
        prev_output: 0,
    }
}

/// The note within an octave, from the top four bits of the frequency number.
pub open spec fn note_of(fnum: u16) -> u8 {
    let k = (fnum / 128) % 16;
    if k < 7 {
        0
    } else if k == 7 {
        1
    } else if k == 8 {
        2
    } else {
        3
    }
}

/// The 5-bit key code: octave block and note.
pub open spec fn key_code_of(fnum: u16, block: u8) -> u8 {
    (block * 4 + note_of(fnum)) as u8
}

/// A rate scaled by the key code; rate 0 stays 0.
pub open spec fn scaled_rate(key_scale: u8, base: u8, fnum: u16, block: u8) -> u8 {
    if base == 0 {
        0
    } else {
        let rate = base * 2 + key_code_of(fnum, block) / (power_of_two(3 - key_scale) as u8);
        if rate > 63 {
            63
        } else {
            rate as u8
        }
    }
}

/// How many low bits of the envelope counter must be zero for an update.
pub open spec fn rate_shift(rate: u8) -> int {
    if rate / 4 <= 11 {
        11 - rate / 4
    } else {
        0
    }
}

/// The increment pattern of a rate.
pub open spec fn increment_row(rate: u8) -> int {
    if rate / 4 <= 11 {
        (rate % 4) as int
    } else if rate / 4 < 15 {
        (rate / 4 - 11) * 4 + rate % 4
    } else {
        16
    }
}

/// The envelope increment of a rate at a counter value.
pub open spec fn eg_increment(rate: u8, counter: u32) -> u8 {
    let period = power_of_two(rate_shift(rate));
    if rate == 0 || counter % period != 0 {
        0
    } else {
        EG_INC@[increment_row(rate) * 8 + (counter / period) % 8]
    }
}

/// An attenuation mirrored around 0x200.
pub open spec fn mirrored(envelope: u16) -> u16 {
    ((0x200 - envelope) % 0x400) as u16
}

/// An operator that starts its attack: rates from 62 on skip it.
pub open spec fn attack_started(op: Operator, fnum: u16, block: u8) -> Operator {
    if scaled_rate(op.key_scale, op.attack_rate, fnum, block) >= 62 {
        Operator { envelope: 0, env_state: EnvState::Decay, ..op }
    } else {
        Operator { env_state: EnvState::Attack, ..op }
    }
}

/// The operator after key-on. The phase restarts, the attenuation does not; a
/// key that is on stays as it is.
pub open spec fn keyed_on(op: Operator, fnum: u16, block: u8) -> Operator {
    if op.key_on {
        op
    } else {
        attack_started(
            Operator { key_on: true, phase: 0, ssg_output_invert: false, ..op },
            fnum,
            block,
        )
    }
}

/// The operator after key-off. A mirrored attenuation is stored as it sounds
/// before the release; a key that is off stays as it is.
pub open spec fn keyed_off(op: Operator) -> Operator {
    if !op.key_on {
        op
    } else {
        Operator {
            key_on: false,
            env_state: EnvState::Release,
            envelope: if op.inverted() {
                mirrored(op.envelope)
            } else {
                op.envelope
            },
            ..op
        }
    }
}

/// The operator after the SSG-EG step: once the attenuation has reached 0x200 it
/// alternates, loops, holds or falls silent.
pub open spec fn ssg_stepped(op: Operator, fnum: u16, block: u8) -> Operator {
    if op.envelope < 0x200 {
        op
    } else {
        let a = Operator {
            ssg_output_invert: if op.ssg_alternate_bit() {
                op.ssg_hold_bit() || !op.ssg_output_invert
            } else {
                op.ssg_output_invert
            },
            phase: if !op.ssg_alternate_bit() && !op.ssg_hold_bit() {
                0
            } else {
                op.phase
            },
            ..op
        };
        if (a.env_state == EnvState::Decay || a.env_state == EnvState::Sustain)
            && !a.ssg_hold_bit() {
            attack_started(a, fnum, block)
        } else if a.env_state == EnvState::Release || (a.env_state != EnvState::Attack
            && a.ssg_output_invert == a.ssg_attack_bit()) {
            Operator { envelope: 0x3FF, ..a }
        } else {
            a
        }
    }
}

/// The attenuation raised by an increment, at most 1023. SSG-EG quadruples the
/// increment below 0x200 where `fast` says so.
pub open spec fn attenuated(op: Operator, inc: u8, fast: bool) -> u16 {
    let step = if fast && op.ssg() && op.envelope < 0x200 {
        inc * 4
    } else {
        inc as int
    };
    if op.envelope + step > 1023 {
        1023
    } else {
        (op.envelope + step) as u16
    }
}

/// The attenuation at which decay becomes sustain; level 15 stands for 31.
pub open spec fn sustain_target(op: Operator) -> int {
    (if op.sustain_level == 15 {
        31int
    } else {
        op.sustain_level as int
    }) * 32
}

/// The attenuation after an attack step: it falls by a share of its distance
/// from -1, fast at first and slowly toward zero.
pub open spec fn attacked(envelope: u16, inc: u8) -> u16 {
    let drop = ((envelope + 1) * inc + 15) / 16;
    if inc == 0 || envelope == 0 {
        envelope
    } else if drop >= envelope {
        0
    } else {
        (envelope - drop) as u16
    }
}

/// The operator after one envelope tick.
#[verifier::opaque]
pub open spec fn envelope_stepped(op: Operator, fnum: u16, block: u8, counter: u32) -> Operator {
    let a = if op.ssg() {
        ssg_stepped(op, fnum, block)
    } else {
        op
    };
    match a.env_state {
        EnvState::Attack => {
            let rate = scaled_rate(a.key_scale, a.attack_rate, fnum, block);
            let inc = eg_increment(rate, counter);
            let level = if rate >= 62 {
                0
            } else {
                attacked(a.envelope, inc)
            };
            Operator {
                envelope: level,
                env_state: if level == 0 {
                    EnvState::Decay
                } else {
                    EnvState::Attack
                },
                ..a
            }
        },
        EnvState::Decay => {
            let inc = eg_increment(scaled_rate(a.key_scale, a.decay_rate, fnum, block), counter);
            let level = attenuated(a, inc, true);
            Operator {
                envelope: level,
                env_state: if level >= sustain_target(a) {
                    EnvState::Sustain
                } else {
                    EnvState::Decay
                },
                ..a
            }
        },
        EnvState::Sustain => {
            let inc = eg_increment(scaled_rate(a.key_scale, a.sustain_rate, fnum, block), counter);
            Operator { envelope: attenuated(a, inc, true), ..a }
        },
        EnvState::Release => {
            let inc = eg_increment(
                scaled_rate(a.key_scale, (a.release_rate * 2 + 1) as u8, fnum, block),
                counter,
            );
            Operator { envelope: attenuated(a, inc, false), ..a }
        },
    }
}

/// The frequency multiplier, doubled: 1 stands for one half.
pub open spec fn multiplier(multiply: u8) -> int {
    if multiply == 0 {
        1
    } else {
        multiply * 2
    }
}

/// The phase increment at a frequency; the detune offset goes by the unmodulated
/// frequency.
#[verifier::opaque]
pub open spec fn phase_step(
    op: Operator,
    fnum: u16,
    block: u8,
    dt_fnum: u16,
    dt_block: u8,
) -> u32 {
    let base = (fnum * power_of_two(block as int)) / 2;
    let step = (base * multiplier(op.multiply)) / 2;
    let offset = DETUNE_TABLE@[(op.detune % 4) * 32 + key_code_of(dt_fnum, dt_block)];
    if op.detune >= 4 {
        if step < offset {
            0
        } else {
            (step - offset) as u32
        }
    } else {
        (step + offset) as u32
    }
}

/// The logarithmic attenuation of the operator at a wave position: sine,
/// envelope, total level and tremolo.
pub open spec fn attenuation_at(op: Operator, position: int, am: u32) -> int {
    let quarter = position % 256;
    let index = if (position / 256) % 2 == 1 {
        255 - quarter
    } else {
        quarter
    };
    let envelope = if op.inverted() {
        mirrored(op.envelope)
    } else {
        op.envelope
    };
    SIN_TABLE@[index] + envelope * 4 + op.total_level * 32 + (if op.am_enable {
        am as int
    } else {
        0
    })
}

/// The linear sample of the operator at a wave position (0 to 1023); the second
/// half of the wave is negative, and attenuations from 4096 on are silence.
pub open spec fn sample_at(op: Operator, position: int, am: u32) -> i32 {
    let atten = attenuation_at(op, position, am);
    if atten >= 4096 {
        0
    } else {
        let linear = (EXP_TABLE@[atten % 256] * 4) / power_of_two(atten / 256) as int;
        if position >= 512 {
            (-linear) as i32
        } else {
            linear as i32
        }
    }
}

/// The operator after one sample: the phase moves on, and the output is that of
/// the modulated phase.
#[verifier::opaque]
pub open spec fn computed(op: Operator, step: u32, modulation: i32, am: u32) -> Operator {
    let phase = op.phase.wrapping_add(step);
    let position = (phase / 1024 + modulation) % 1024;
    Operator { phase, prev_output: op.output, output: sample_at(op, position, am), ..op }
}

// ── Executable operator ──────────────────────────────────────────────────

/// A power of two up to the fifteenth.
pub fn pow2(n: u32) -> (r: u32)
    ensures
        r == power_of_two(n as int),
        1 <= r <= 32768,
        n <= 11 ==> r <= 2048,
{
    if n == 0 {
        1
    } else if n == 1 {
        2
    } else if n == 2 {
        4
    } else if n == 3 {
        8
    } else if n == 4 {
        16
    } else if n == 5 {
        32
    } else if n == 6 {
        64
    } else if n == 7 {
        128
    } else if n == 8 {
        256
    } else if n == 9 {
        512
    } else if n == 10 {
        1024
    } else if n == 11 {
        2048
    } else if n == 12 {
        4096
    } else if n == 13 {
        8192
    } else if n == 14 {
        16384
    } else {
        32768
    }
}

/// Division that rounds down.
pub fn floor_div(x: i32, d: u32) -> (r: i32)
    requires
        1 <= d <= 2048,
        -0x4000_0000 <= x <= 0x4000_0000,
    ensures
        r == (x as int) / (d as int),
        x >= 0 ==> 0 <= r <= x,
        x < 0 ==> x <= r < 0,
{
    if x >= 0 {
        proof {
            assert(0 <= (x as int) / (d as int) <= x) by (nonlinear_arith)
                requires
                    x >= 0,
                    d >= 1,
            ;
        }
        (x as u32 / d) as i32
    } else {
        let n: u32 = (-x) as u32;
        let up: u32 = (n + (d - 1)) / d;
        proof {
            assert(up as int == -((x as int) / (d as int)) && up <= n && up >= 1)
                by (nonlinear_arith)
                requires
                    up as int == (n as int + (d - 1)) / (d as int),
                    n == -x,
                    n >= 1,
                    d >= 1,
            ;
        }
        -(up as i32)
    }
}

/// The attenuation after an attack step.
fn attack_step(envelope: u16, inc: u8) -> (r: u16)
    requires
        envelope <= 1023,
    ensures
        r == attacked(envelope, inc),
        r <= envelope,
{
    if inc == 0 || envelope == 0 {
        return envelope;
    }
    assert((envelope + 1) * inc <= 1024 * 255) by (nonlinear_arith)
        requires
            envelope <= 1023,
            inc <= 255,
    ;
    let drop: u32 = ((envelope as u32 + 1) * inc as u32 + 15) / 16;
    if drop >= envelope as u32 {
        0
    } else {
        envelope - drop as u16
    }
}

impl Operator {
    /// Creates a silent operator.
    #[must_use]
    pub fn new() -> (r: Self)
        ensures
            r == silent_operator(),
            r.wf(),
    {
        Operator {
            phase: 0,
            envelope: 1023,
            env_state: EnvState::Release,
            total_level: 127,
            sustain_level: 0,
            attack_rate: 0,
            decay_rate: 0,
            sustain_rate: 0,
            release_rate: 0,
            multiply: 0,
            detune: 0,
            key_scale: 0,
            key_on: false,
            am_enable: false,
            ssg_eg: 0,
            ssg_output_invert: false,
            output: 0,
            prev_output: 0,
        }
    }

    /// The attenuation is shown mirrored.
    fn is_inverted(&self) -> (r: bool)
        ensures
            r == self.inverted(),
    {
        let release = match self.env_state {
            EnvState::Release => true,
            _ => false,
        };
        self.ssg_eg / 8 == 1 && !release && self.ssg_output_invert != ((self.ssg_eg / 4) % 2 == 1)
    }

    /// The attenuation as it sounds.
    fn shown_envelope(&self) -> (r: u16)
        requires
            self.wf(),
        ensures
            r == if self.inverted() {
                mirrored(self.envelope)
            } else {
                self.envelope
            },
            r <= 1023,
    {
        if self.is_inverted() {
            (0x600 - self.envelope) % 0x400
        } else {
            self.envelope
        }
    }

    /// Computes the key code from a frequency number and block.
    #[must_use]
    pub fn key_code(fnum: u16, block: u8) -> (r: u8)
        requires
            block <= 7,
        ensures
            r == key_code_of(fnum, block),
            r <= 31,
    {
        let k: u16 = (fnum / 128) % 16;
        let note: u8 = if k < 7 {
            0
        } else if k == 7 {
            1
        } else if k == 8 {
            2
        } else {
            3
        };
        block * 4 + note
    }

    /// Calculates the effective envelope rate with key scaling applied.
    #[must_use]
    pub fn effective_rate(&self, base_rate: u8, fnum: u16, block: u8) -> (r: u8)
        requires
            self.key_scale <= 3,
            base_rate <= 31,
            block <= 7,
        ensures
            r == scaled_rate(self.key_scale, base_rate, fnum, block),
            r <= 63,
    {
        if base_rate == 0 {
            return 0;
        }
        let kc: u8 = Operator::key_code(fnum, block);
        let divisor: u8 = pow2((3 - self.key_scale) as u32) as u8;
        let scaled: u8 = base_rate * 2 + kc / divisor;
        if scaled > 63 {
            63
        } else {
            scaled
        }
    }

    /// Calculates the envelope increment for a rate and envelope counter.
    #[must_use]
    pub fn eg_calc_increment(rate: u8, eg_counter: u32) -> (r: u8)
        requires
            rate <= 63,
        ensures
            r == eg_increment(rate, eg_counter),
    {
        if rate == 0 {
            return 0;
        }
        let high: u8 = rate / 4;
        let shift: u8 = if high <= 11 {
            11 - high
        } else {
            0
        };
        let period: u32 = pow2(shift as u32);
        if eg_counter % period != 0 {
            return 0;
        }
        let row: usize = if high <= 11 {
            (rate % 4) as usize
        } else if high < 15 {
            (high - 11) as usize * 4 + (rate % 4) as usize
        } else {
            16
        };
        let column: usize = ((eg_counter / period) % 8) as usize;
        EG_INC[row * 8 + column]
    }

    /// Starts the attack phase.
    fn start_attack(&mut self, fnum: u16, block: u8)
        requires
            old(self).wf(),
            block <= 7,
        ensures
            *final(self) == attack_started(*old(self), fnum, block),
            final(self).wf(),
    {
        let rate: u8 = self.effective_rate(self.attack_rate, fnum, block);
        if rate >= 62 {
            self.envelope = 0;
            self.env_state = EnvState::Decay;
        } else {
            self.env_state = EnvState::Attack;
        }
    }

    /// Triggers key-on: resets the phase, starts the attack phase.
    pub fn key_on(&mut self, fnum: u16, block: u8)
        requires
            old(self).wf(),
            block <= 7,
        ensures
            *final(self) == keyed_on(*old(self), fnum, block),
            final(self).wf(),
    {
        if self.key_on {
            return;
        }
        self.key_on = true;
        self.phase = 0;
        self.ssg_output_invert = false;
        self.start_attack(fnum, block);
    }

    /// Triggers key-off: enters the release phase.
    pub fn key_off(&mut self)
        requires
            old(self).wf(),
        ensures
            *final(self) == keyed_off(*old(self)),
            final(self).wf(),
    {
        if !self.key_on {
            return;
        }
        self.envelope = self.shown_envelope();
        self.key_on = false;
        self.env_state = EnvState::Release;
    }

    /// Runs the SSG-EG state machine.
    fn ssg_clock(&mut self, fnum: u16, block: u8)
        requires
            old(self).wf(),
            block <= 7,
        ensures
            *final(self) == ssg_stepped(*old(self), fnum, block),
            final(self).wf(),
    {
        if self.envelope < 0x200 {
            return;
        }
        let alternate = (self.ssg_eg / 2) % 2 == 1;
        let hold = self.ssg_eg % 2 == 1;
        let attack = (self.ssg_eg / 4) % 2 == 1;
        if alternate {
            self.ssg_output_invert = hold || !self.ssg_output_invert;
        }
        if !alternate && !hold {
            self.phase = 0;
        }
        match self.env_state {
            EnvState::Decay | EnvState::Sustain => {
                if !hold {
                    self.start_attack(fnum, block);
                } else if self.ssg_output_invert == attack {
                    self.envelope = 0x3FF;
                }
            },
            EnvState::Release => {
                self.envelope = 0x3FF;
            },
            EnvState::Attack => {},
        }
    }

    /// Raises the attenuation by an increment.
    fn attenuate(&mut self, inc: u8, fast: bool)
        requires
            old(self).wf(),
        ensures
            *final(self) == (Operator { envelope: attenuated(*old(self), inc, fast), ..*old(self) }),
            final(self).wf(),
    {
        let step: u16 = if fast && self.ssg_eg / 8 == 1 && self.envelope < 0x200 {
            inc as u16 * 4
        } else {
            inc as u16
        };
        self.envelope = if self.envelope + step > 1023 {
            1023
        } else {
            self.envelope + step
        };
    }

    /// Advances the envelope generator by one tick.
    pub fn update_envelope(&mut self, fnum: u16, block: u8, eg_counter: u32)
        requires
            old(self).wf(),
            block <= 7,
        ensures
            *final(self) == envelope_stepped(*old(self), fnum, block, eg_counter),
            final(self).wf(),
    {
        proof {
            reveal(envelope_stepped);
        }
        if self.ssg_eg / 8 == 1 {
            self.ssg_clock(fnum, block);
        }
        match self.env_state {
            EnvState::Attack => {
                let rate: u8 = self.effective_rate(self.attack_rate, fnum, block);
                if rate >= 62 {
                    self.envelope = 0;
                } else {
                    let inc: u8 = Operator::eg_calc_increment(rate, eg_counter);
                    self.envelope = attack_step(self.envelope, inc);
                }
                if self.envelope == 0 {
                    self.env_state = EnvState::Decay;
                }
            },
            EnvState::Decay => {
                let rate: u8 = self.effective_rate(self.decay_rate, fnum, block);
                let inc: u8 = Operator::eg_calc_increment(rate, eg_counter);
                self.attenuate(inc, true);
                let level: u16 = if self.sustain_level == 15 {
                    31
                } else {
                    self.sustain_level as u16
                };
                if self.envelope >= level * 32 {
                    self.env_state = EnvState::Sustain;
                }
            },
            EnvState::Sustain => {
                let rate: u8 = self.effective_rate(self.sustain_rate, fnum, block);
                let inc: u8 = Operator::eg_calc_increment(rate, eg_counter);
                self.attenuate(inc, true);
            },
            EnvState::Release => {
                let rate: u8 = self.effective_rate(self.release_rate * 2 + 1, fnum, block);
                let inc: u8 = Operator::eg_calc_increment(rate, eg_counter);
                self.attenuate(inc, false);
            },
        }
    }

    /// Computes the phase increment at a frequency. The detune offset goes by
    /// `dt_fnum` and `dt_block`, the unmodulated frequency.
    #[must_use]
    pub fn phase_increment(&self, fnum: u16, block: u8, dt_fnum: u16, dt_block: u8) -> (r: u32)
        requires
            self.wf(),
            fnum <= 2047,
            block <= 7,
            dt_block <= 7,
        ensures
            r == phase_step(*self, fnum, block, dt_fnum, dt_block),
    {
        proof {
            reveal(phase_step);
        }
        let scale: u32 = pow2(block as u32);
        assert(fnum * scale <= 2047 * 2048) by (nonlinear_arith)
            requires
                fnum <= 2047,
                scale <= 2048,
        ;
        let base: u32 = (fnum as u32 * scale) / 2;
        let mult: u32 = if self.multiply == 0 {
            1
        } else {
            self.multiply as u32 * 2
        };
        assert(base * mult <= 2_096_128 * 30) by (nonlinear_arith)
            requires
                base <= 2_096_128,
                mult <= 30,
        ;
        let step: u32 = (base * mult) / 2;
        let kc: u8 = Operator::key_code(dt_fnum, dt_block);
        let offset: u32 = DETUNE_TABLE[(self.detune % 4) as usize * 32 + kc as usize] as u32;
        if self.detune >= 4 {
            if step < offset {
                0
            } else {
                step - offset
            }
        } else {
            step + offset
        }
    }

    /// The linear sample at a wave position.
    fn wave_sample(&self, position: u32, am_atten: u32) -> (r: i32)
        requires
            self.wf(),
            position < 1024,
            am_atten <= 1024,
        ensures
            r == sample_at(*self, position as int, am_atten),
            -262_140 <= r <= 262_140,
    {
        let quarter: usize = (position % 256) as usize;
        let index: usize = if (position / 256) % 2 == 1 {
            255 - quarter
        } else {
            quarter
        };
        let am: u32 = if self.am_enable {
            am_atten
        } else {
            0
        };
        let atten: u32 = SIN_TABLE[index] as u32 + self.shown_envelope() as u32 * 4
            + self.total_level as u32 * 32 + am;
        if atten >= 4096 {
            return 0;
        }
        let full: u32 = EXP_TABLE[(atten % 256) as usize] as u32 * 4;
        let divisor: u32 = pow2(atten / 256);
        let linear: u32 = full / divisor;
        assert(linear <= full) by (nonlinear_arith)
            requires
                linear == full / divisor,
                divisor >= 1,
        ;
        if position >= 512 {
            -(linear as i32)
        } else {
            linear as i32
        }
    }

    /// Produces the next output sample, given a modulation input in the phase
    /// domain and an LFO attenuation.
    pub fn compute(&mut self, phase_inc: u32, modulation: i32, am_atten: u32) -> (r: i32)
        requires
            old(self).wf(),
            -0x10_0000 <= modulation <= 0x10_0000,
            am_atten <= 1024,
        ensures
            *final(self) == computed(*old(self), phase_inc, modulation, am_atten),
            r == final(self).output,
            final(self).wf(),
    {
        proof {
            reveal(computed);
        }
        let phase: u32 = self.phase.wrapping_add(phase_inc);
        let position: u32 = ((phase / 1024) as i32 + modulation + 0x10_0000) as u32 % 1024;
        assert(position == (phase / 1024 + modulation) % 1024);
        let sample: i32 = self.wave_sample(position, am_atten);
        self.phase = phase;
        self.prev_output = self.output;
        self.output = sample;
        sample
    }
}

} // verus!
