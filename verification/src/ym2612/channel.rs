//! One FM channel: four operators connected by an algorithm.
use vstd::prelude::*;

use crate::ym2612::operator::{
    computed, envelope_stepped, floor_div, keyed_off, keyed_on, phase_step, pow2, power_of_two,
    silent_operator, Operator,
};
use crate::ym2612::tables::{PM_SHIFT_1, PM_SHIFT_2};

verus! {

/// One of six FM channels, containing four operators connected by an algorithm.
#[derive(Debug, Clone, Copy, PartialEq, Eq)]
pub struct Channel {
    /// The four FM operators.
    pub operators: [Operator; 4],
    /// 11-bit frequency number.
    pub fnum: u16,
    /// 3-bit octave block.
    pub block: u8,
    /// Algorithm topology (0-7).
    pub algorithm: u8,
    /// Feedback level for operator 1 (0-7, where 0 = no feedback).
    pub feedback: u8,
    /// Left speaker enabled.
    pub panning_left: bool,
    /// Right speaker enabled.
    pub panning_right: bool,
    /// Phase modulation sensitivity (0-7). Controls vibrato depth.
    pub pms: u8,
    /// Amplitude modulation sensitivity (0-3). Controls tremolo depth.
    pub ams: u8,
}

/// Mathematical model of a channel.
#[verifier::ext_equal]
pub ghost struct ChannelState {
    pub operators: Seq<Operator>,
    pub fnum: u16,
    pub block: u8,
    pub algorithm: u8,
    pub feedback: u8,
    pub panning_left: bool,
    pub panning_right: bool,
    pub pms: u8,
    pub ams: u8,
}

impl View for Channel {
    type V = ChannelState;

    open spec fn view(&self) -> ChannelState {
        ChannelState {
            operators: self.operators@,
            fnum: self.fnum,
            block: self.block,
            algorithm: self.algorithm,
            feedback: self.feedback,
            panning_left: self.panning_left,
            panning_right: self.panning_right,
            pms: self.pms,
            ams: self.ams,
        }
    }
}

/// All operators are within their registers' widths.
pub open spec fn operators_wf(ops: Seq<Operator>) -> bool {
    ops.len() == 4 && ops[0].wf() && ops[1].wf() && ops[2].wf() && ops[3].wf()
}

impl ChannelState {
    /// Every field is within the width of its register.
    pub open spec fn wf(self) -> bool {
        &&& operators_wf(self.operators)
        &&& self.fnum <= 2047
        &&& self.block <= 7
        &&& self.algorithm <= 7
        &&& self.feedback <= 7
        &&& self.pms <= 7
        &&& self.ams <= 3
    }
}

/// A silent channel, heard on both sides.
pub open spec fn silent_channel() -> ChannelState {
    ChannelState {
        operators: seq![
            silent_operator(),
            silent_operator(),
            silent_operator(),
            silent_operator(),
        ],
        fnum: 0,
        block: 0,
        algorithm: 0,
        feedback: 0,
        panning_left: true,
        panning_right: true,
        pms: 0,
        ams: 0,
    }
}

/// Frequencies of four operators: one pair of frequency number and block each.
pub open spec fn frequencies_wf(fnums: Seq<u16>, blocks: Seq<u8>) -> bool {
    &&& fnums.len() == 4
    &&& blocks.len() == 4
    &&& fnums[0] <= 2047 && fnums[1] <= 2047 && fnums[2] <= 2047 && fnums[3] <= 2047
    &&& blocks[0] <= 7 && blocks[1] <= 7 && blocks[2] <= 7 && blocks[3] <= 7
}

// ── Behaviour ────────────────────────────────────────────────────────────

/// The vibrato offset of the frequency number at an LFO value (0 to 31): bits 0
/// to 3 fold into a triangle of magnitude 0 to 7, bit 4 is the sign.
pub open spec fn vibrato(c: ChannelState, pm_raw: u8) -> int {
    if c.pms == 0 {
        0
    } else {
        let k = pm_raw % 16;
        let level = if k >= 8 {
            15 - k
        } else {
            k as int
        };
        let high = c.fnum / 16;
        let i = c.pms * 8 + level;
        let fm = high / (power_of_two(PM_SHIFT_1@[i] as int) as u16) + high / (power_of_two(
            PM_SHIFT_2@[i] as int,
        ) as u16);
        let depth = (fm * (if c.pms > 5 {
            power_of_two(c.pms - 5)
        } else {
            1
        })) / 4;
        if (pm_raw / 16) % 2 == 1 {
            -depth
        } else {
            depth
        }
    }
}

/// A frequency number with its vibrato, kept within eleven bits.
pub open spec fn modulated_fnum(fnum: u16, offset: int) -> u16 {
    if fnum + offset < 0 {
        0
    } else if fnum + offset > 2047 {
        2047
    } else {
        (fnum + offset) as u16
    }
}

/// The tremolo attenuation at an LFO level.
pub open spec fn tremolo(ams: u8, am_level: u8) -> u32 {
    if ams == 0 {
        0
    } else if ams == 1 {
        ((am_level / 8) * 4) as u32
    } else if ams == 2 {
        ((am_level / 2) * 4) as u32
    } else {
        (am_level * 4) as u32
    }
}

/// The feedback modulation of operator 1: the sum of its last two outputs,
/// scaled by the feedback level.
pub open spec fn feedback_modulation(op: Operator, feedback: u8) -> i32 {
    if feedback == 0 {
        0
    } else {
        ((op.prev_output + op.output) / (power_of_two(10 - feedback) as int)) as i32
    }
}

/// Half an output, rounded down: what one operator adds to another's phase.
pub open spec fn half(x: i32) -> int {
    (x as int) / 2
}

/// Modulation of operator 2.
pub open spec fn modulation_2(algorithm: u8, o1: i32) -> i32 {
    (if algorithm == 1 || algorithm == 2 || algorithm == 7 {
        0
    } else {
        half(o1)
    }) as i32
}

/// Modulation of operator 3.
pub open spec fn modulation_3(algorithm: u8, o1: i32, o2: i32) -> i32 {
    (if algorithm == 0 {
        half(o2)
    } else if algorithm == 1 {
        half(o1) + half(o2)
    } else if algorithm == 2 || algorithm == 5 {
        half(o1)
    } else {
        0
    }) as i32
}

/// Modulation of operator 4.
pub open spec fn modulation_4(algorithm: u8, o1: i32, o2: i32, o3: i32) -> i32 {
    (if algorithm == 0 || algorithm == 1 || algorithm == 4 {
        half(o3)
    } else if algorithm == 2 || algorithm == 3 {
        half(o2) + half(o3)
    } else if algorithm == 5 {
        half(o1)
    } else {
        0
    }) as i32
}

/// The sum of the carriers: operator 4 always, 2 from algorithm 4 on, 3 from 5
/// on, 1 in algorithm 7.
pub open spec fn carrier_sum(algorithm: u8, o1: i32, o2: i32, o3: i32, o4: i32) -> int {
    if algorithm < 4 {
        o4 as int
    } else if algorithm == 4 {
        o2 + o4
    } else if algorithm < 7 {
        o2 + o3 + o4
    } else {
        o1 + o2 + o3 + o4
    }
}

/// The 9-bit output of a carrier sum: divided by 32 and clipped to 256 either
/// way.
pub open spec fn clipped(sum: int) -> i32 {
    if sum / 32 > 256 {
        256
    } else if sum / 32 < -256 {
        -256i32
    } else {
        (sum / 32) as i32
    }
}

/// The operators after one sample, each driven by the ones before it.
pub open spec fn operators_sampled(
    c: ChannelState,
    fnums: Seq<u16>,
    blocks: Seq<u8>,
    am_level: u8,
    pm_raw: u8,
) -> Seq<Operator> {
    let am = tremolo(c.ams, am_level);
    let offset = vibrato(c, pm_raw);
    let ops = c.operators;
    let a = computed(
        ops[0],
        phase_step(ops[0], modulated_fnum(fnums[0], offset), blocks[0], fnums[0], blocks[0]),
        feedback_modulation(ops[0], c.feedback),
        am,
    );
    let b = computed(
        ops[1],
        phase_step(ops[1], modulated_fnum(fnums[1], offset), blocks[1], fnums[1], blocks[1]),
        modulation_2(c.algorithm, a.output),
        am,
    );
    let d = computed(
        ops[2],
        phase_step(ops[2], modulated_fnum(fnums[2], offset), blocks[2], fnums[2], blocks[2]),
        modulation_3(c.algorithm, a.output, b.output),
        am,
    );
    let e = computed(
        ops[3],
        phase_step(ops[3], modulated_fnum(fnums[3], offset), blocks[3], fnums[3], blocks[3]),
        modulation_4(c.algorithm, a.output, b.output, d.output),
        am,
    );
    seq![a, b, d, e]
}

/// The output of a channel whose operators have just produced a sample.
pub open spec fn channel_output(c: ChannelState) -> i32 {
    clipped(
        carrier_sum(
            c.algorithm,
            c.operators[0].output,
            c.operators[1].output,
            c.operators[2].output,
            c.operators[3].output,
        ),
    )
}

/// A sample on the two sides of a channel.
pub open spec fn panned(c: ChannelState, out: i32) -> (i32, i32) {
    (
        if c.panning_left {
            out
        } else {
            0
        },
        if c.panning_right {
            out
        } else {
            0
        },
    )
}

/// The channel after one sample.
pub open spec fn channel_sampled(
    c: ChannelState,
    fnums: Seq<u16>,
    blocks: Seq<u8>,
    am_level: u8,
    pm_raw: u8,
) -> ChannelState {
    ChannelState { operators: operators_sampled(c, fnums, blocks, am_level, pm_raw), ..c }
}

/// The channel after one envelope tick.
pub open spec fn channel_enveloped(
    c: ChannelState,
    fnums: Seq<u16>,
    blocks: Seq<u8>,
    counter: u32,
) -> ChannelState {
    ChannelState {
        operators: seq![
            envelope_stepped(c.operators[0], fnums[0], blocks[0], counter),
            envelope_stepped(c.operators[1], fnums[1], blocks[1], counter),
            envelope_stepped(c.operators[2], fnums[2], blocks[2], counter),
            envelope_stepped(c.operators[3], fnums[3], blocks[3], counter),
        ],
        ..c
    }
}

/// An operator keyed on or off.
pub open spec fn keyed(op: Operator, on: bool, fnum: u16, block: u8) -> Operator {
    if on {
        keyed_on(op, fnum, block)
    } else {
        keyed_off(op)
    }
}

/// The channel after a key write: bit `i` of `mask` keys operator `i + 1` on,
/// else off.
pub open spec fn channel_keyed(c: ChannelState, mask: u8) -> ChannelState {
    ChannelState {
        operators: seq![
            keyed(c.operators[0], mask % 2 == 1, c.fnum, c.block),
            keyed(c.operators[1], (mask / 2) % 2 == 1, c.fnum, c.block),
            keyed(c.operators[2], (mask / 4) % 2 == 1, c.fnum, c.block),
            keyed(c.operators[3], (mask / 8) % 2 == 1, c.fnum, c.block),
        ],
        ..c
    }
}

// ── Executable channel ───────────────────────────────────────────────────

/// Half an output, rounded down.
fn half_of(x: i32) -> (r: i32)
    requires
        -262_140 <= x <= 262_140,
    ensures
        r == half(x),
        -262_140 <= r <= 262_140,
{
    floor_div(x, 2)
}

/// The 9-bit output of a carrier sum.
fn clip(sum: i32) -> (r: i32)
    requires
        -1_048_560 <= sum <= 1_048_560,
    ensures
        r == clipped(sum as int),
        -256 <= r <= 256,
{
    let q: i32 = floor_div(sum, 32);
    if q > 256 {
        256
    } else if q < -256 {
        -256
    } else {
        q
    }
}

impl Channel {
    /// Creates a silent channel.
    #[must_use]
    pub fn new() -> (r: Self)
        ensures
            r@ == silent_channel(),
            r@.wf(),
    {
        let r = Channel {
            operators: [Operator::new(), Operator::new(), Operator::new(), Operator::new()],
            fnum: 0,
            block: 0,
            algorithm: 0,
            feedback: 0,
            panning_left: true,
            panning_right: true,
            pms: 0,
            ams: 0,
        };
        assert(r@ =~= silent_channel());
        r
    }

    /// Whether every field is within the width of its register.
    #[must_use]
    pub fn is_well_formed(&self) -> (r: bool)
        ensures
            r == self@.wf(),
    {
        self.operators[0].is_well_formed() && self.operators[1].is_well_formed()
            && self.operators[2].is_well_formed() && self.operators[3].is_well_formed()
            && self.fnum <= 2047 && self.block <= 7 && self.algorithm <= 7 && self.feedback <= 7
            && self.pms <= 7 && self.ams <= 3
    }

    /// Whether two channels are in the same state.
    #[must_use]
    pub fn same(&self, other: &Channel) -> (r: bool)
        ensures
            r == (self@ == other@),
    {
        let r = self.operators[0] == other.operators[0] && self.operators[1] == other.operators[1]
            && self.operators[2] == other.operators[2] && self.operators[3] == other.operators[3]
            && self.fnum == other.fnum && self.block == other.block && self.algorithm
            == other.algorithm && self.feedback == other.feedback && self.panning_left
            == other.panning_left && self.panning_right == other.panning_right && self.pms
            == other.pms && self.ams == other.ams;
        assert(r ==> self@ =~= other@);
        r
    }

    /// Computes the vibrato offset of the frequency number.
    #[must_use]
    pub fn lfo_pm_offset(&self, pm_raw: u8) -> (r: i32)
        requires
            self@.wf(),
        ensures
            r == vibrato(self@, pm_raw),
            -0x10_0000 <= r <= 0x10_0000,
    {
        if self.pms == 0 {
            return 0;
        }
        let k: u8 = pm_raw % 16;
        let level: u8 = if k >= 8 {
            15 - k
        } else {
            k
        };
        let high: u16 = self.fnum / 16;
        let i: usize = self.pms as usize * 8 + level as usize;
        let d1: u16 = pow2(PM_SHIFT_1[i] as u32) as u16;
        let d2: u16 = pow2(PM_SHIFT_2[i] as u32) as u16;
        let q1: u16 = high / d1;
        let q2: u16 = high / d2;
        assert(q1 <= high && q2 <= high) by (nonlinear_arith)
            requires
                q1 == high / d1,
                q2 == high / d2,
                d1 >= 1,
                d2 >= 1,
        ;
        let fm: u32 = q1 as u32 + q2 as u32;
        let scale: u32 = if self.pms > 5 {
            pow2((self.pms - 5) as u32)
        } else {
            1
        };
        assert(fm * scale <= 254 * 2048) by (nonlinear_arith)
            requires
                fm <= 254,
                scale <= 2048,
        ;
        let depth: u32 = (fm * scale) / 4;
        if (pm_raw / 16) % 2 == 1 {
            -(depth as i32)
        } else {
            depth as i32
        }
    }

    /// The frequency number with its vibrato.
    fn modulate(fnum: u16, offset: i32) -> (r: u16)
        requires
            -0x10_0000 <= offset <= 0x10_0000,
        ensures
            r == modulated_fnum(fnum, offset as int),
            r <= 2047,
    {
        let sum: i32 = fnum as i32 + offset;
        if sum < 0 {
            0
        } else if sum > 2047 {
            2047
        } else {
            sum as u16
        }
    }

    /// The tremolo attenuation.
    fn tremolo_attenuation(&self, am_level: u8) -> (r: u32)
        requires
            self@.wf(),
        ensures
            r == tremolo(self.ams, am_level),
            r <= 1020,
    {
        if self.ams == 0 {
            0
        } else if self.ams == 1 {
            (am_level / 8) as u32 * 4
        } else if self.ams == 2 {
            (am_level / 2) as u32 * 4
        } else {
            am_level as u32 * 4
        }
    }

    /// The feedback modulation of operator 1.
    fn feedback_of(&self) -> (r: i32)
        requires
            self@.wf(),
        ensures
            r == feedback_modulation(self@.operators[0], self.feedback),
            -0x10_0000 <= r <= 0x10_0000,
    {
        if self.feedback == 0 {
            0
        } else {
            let sum: i32 = self.operators[0].prev_output + self.operators[0].output;
            floor_div(sum, pow2((10 - self.feedback) as u32))
        }
    }

    /// Runs one operator for one sample.
    fn run_operator(
        &mut self,
        index: usize,
        fnum: u16,
        block: u8,
        offset: i32,
        modulation: i32,
        am: u32,
    ) -> (r: i32)
        requires
            old(self)@.wf(),
            index < 4,
            fnum <= 2047,
            block <= 7,
            -0x10_0000 <= offset <= 0x10_0000,
            -0x10_0000 <= modulation <= 0x10_0000,
            am <= 1020,
        ensures
            ({
                let op = old(self)@.operators[index as int];
                final(self)@ == ChannelState {
                    operators: old(self)@.operators.update(
                        index as int,
                        computed(
                            op,
                            phase_step(
                                op,
                                modulated_fnum(fnum, offset as int),
                                block,
                                fnum,
                                block,
                            ),
                            modulation,
                            am,
                        ),
                    ),
                    ..old(self)@
                }
            }),
            r == final(self)@.operators[index as int].output,
            -262_140 <= r <= 262_140,
            final(self)@.wf(),
    {
        let mut op: Operator = self.operators[index];
        let step: u32 = op.phase_increment(Channel::modulate(fnum, offset), block, fnum, block);
        let r: i32 = op.compute(step, modulation, am);
        self.operators[index] = op;
        r
    }

    /// Synthesizes one sample using the configured algorithm, with a frequency
    /// for each operator. Returns (left, right).
    pub fn output_sample(
        &mut self,
        fnums: &[u16; 4],
        blocks: &[u8; 4],
        am_level: u8,
        pm_raw: u8,
    ) -> (r: (i32, i32))
        requires
            old(self)@.wf(),
            frequencies_wf(fnums@, blocks@),
        ensures
            final(self)@ == channel_sampled(old(self)@, fnums@, blocks@, am_level, pm_raw),
            r == panned(final(self)@, channel_output(final(self)@)),
            -256 <= r.0 <= 256,
            -256 <= r.1 <= 256,
            final(self)@.wf(),
    {
        let am: u32 = self.tremolo_attenuation(am_level);
        let offset: i32 = self.lfo_pm_offset(pm_raw);
        let fb: i32 = self.feedback_of();
        let alg: u8 = self.algorithm;
        let o1: i32 = self.run_operator(0, fnums[0], blocks[0], offset, fb, am);
        let m2: i32 = if alg == 1 || alg == 2 || alg == 7 {
            0
        } else {
            half_of(o1)
        };
        let o2: i32 = self.run_operator(1, fnums[1], blocks[1], offset, m2, am);
        let m3: i32 = if alg == 0 {
            half_of(o2)
        } else if alg == 1 {
            half_of(o1) + half_of(o2)
        } else if alg == 2 || alg == 5 {
            half_of(o1)
        } else {
            0
        };
        let o3: i32 = self.run_operator(2, fnums[2], blocks[2], offset, m3, am);
        let m4: i32 = if alg == 0 || alg == 1 || alg == 4 {
            half_of(o3)
        } else if alg == 2 || alg == 3 {
            half_of(o2) + half_of(o3)
        } else if alg == 5 {
            half_of(o1)
        } else {
            0
        };
        let o4: i32 = self.run_operator(3, fnums[3], blocks[3], offset, m4, am);
        let sum: i32 = if alg < 4 {
            o4
        } else if alg == 4 {
            o2 + o4
        } else if alg < 7 {
            o2 + o3 + o4
        } else {
            o1 + o2 + o3 + o4
        };
        let out: i32 = clip(sum);
        assert(self@ =~= channel_sampled(old(self)@, fnums@, blocks@, am_level, pm_raw));
        (
            if self.panning_left {
                out
            } else {
                0
            },
            if self.panning_right {
                out
            } else {
                0
            },
        )
    }

    /// Advances the envelopes of the four operators by one tick.
    pub fn update_envelopes(&mut self, fnums: &[u16; 4], blocks: &[u8; 4], eg_counter: u32)
        requires
            old(self)@.wf(),
            frequencies_wf(fnums@, blocks@),
        ensures
            final(self)@ == channel_enveloped(old(self)@, fnums@, blocks@, eg_counter),
            final(self)@.wf(),
    {
        let mut a: Operator = self.operators[0];
        let mut b: Operator = self.operators[1];
        let mut c: Operator = self.operators[2];
        let mut d: Operator = self.operators[3];
        a.update_envelope(fnums[0], blocks[0], eg_counter);
        b.update_envelope(fnums[1], blocks[1], eg_counter);
        c.update_envelope(fnums[2], blocks[2], eg_counter);
        d.update_envelope(fnums[3], blocks[3], eg_counter);
        self.operators = [a, b, c, d];
        assert(self@ =~= channel_enveloped(old(self)@, fnums@, blocks@, eg_counter));
    }

    /// Keys one operator on or off.
    fn key_operator(&self, index: usize, on: bool) -> (r: Operator)
        requires
            self@.wf(),
            index < 4,
        ensures
            r == keyed(self@.operators[index as int], on, self.fnum, self.block),
            r.wf(),
    {
        let mut op: Operator = self.operators[index];
        if on {
            op.key_on(self.fnum, self.block);
        } else {
            op.key_off();
        }
        op
    }

    /// Keys the operators on or off: bit `i` of `mask` is for operator `i + 1`.
    pub fn key_operators(&mut self, mask: u8)
        requires
            old(self)@.wf(),
        ensures
            final(self)@ == channel_keyed(old(self)@, mask),
            final(self)@.wf(),
    {
        let a = self.key_operator(0, mask % 2 == 1);
        let b = self.key_operator(1, (mask / 2) % 2 == 1);
        let c = self.key_operator(2, (mask / 4) % 2 == 1);
        let d = self.key_operator(3, (mask / 8) % 2 == 1);
        self.operators = [a, b, c, d];
        assert(self@ =~= channel_keyed(old(self)@, mask));
    }
}

} // verus!
