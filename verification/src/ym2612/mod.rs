//! YM2612 (OPN2) FM synthesis.
//!
//! A 6-channel FM synthesizer with four operators per channel, eight algorithm
//! topologies, per-operator ADSR envelopes, an LFO, two timers, and a DAC mode
//! on channel 6. Register writes use a two-step address/data protocol; banks 0
//! and 1 control channels 1-3 and 4-6.
use vstd::prelude::*;

pub mod channel;
pub mod chip_laws;
pub mod envelope_laws;
pub mod laws;
pub mod operator;
pub mod sound_laws;
pub mod tables;

pub use channel::Channel;
pub use operator::{EnvState, Operator};

use crate::ym2612::channel::{
    channel_enveloped, channel_keyed, channel_output, channel_sampled, frequencies_wf, panned,
    silent_channel, ChannelState,
};

verus! {

/// Yamaha YM2612 (OPN2) FM synthesizer.
#[derive(Debug, PartialEq)]
pub struct Ym2612 {
    /// The six FM channels.
    pub channels: [Channel; 6],
    /// Whether DAC mode is enabled (replaces channel 6 FM output).
    pub dac_enabled: bool,
    /// DAC output value (signed, from the 8-bit register).
    pub dac_value: i16,
    /// Latched address register for each bank.
    pub address_latch: [u8; 2],
    /// Timer overflow status flags (bits 0-1).
    pub status: u8,
    /// 10-bit Timer A period register.
    pub timer_a_period: u16,
    /// Timer A internal counter.
    pub timer_a_counter: u16,
    /// 8-bit Timer B period register.
    pub timer_b_period: u8,
    /// Timer B internal counter.
    pub timer_b_counter: u16,
    /// Timer control register (0x27).
    pub timer_control: u8,
    /// LFO enabled flag.
    pub lfo_enabled: bool,
    /// LFO frequency selector (0-7).
    pub lfo_frequency: u8,
    /// LFO divider counter.
    pub lfo_counter: u32,
    /// LFO phase (0-127).
    pub lfo_phase: u8,
    /// Envelope sample divider (0, 1, 2).
    pub eg_timer: u32,
    /// Global envelope counter (12-bit, skips 0 on overflow).
    pub eg_counter: u32,
    /// Frequency high-byte latch per channel, committed with the low byte.
    pub fn_h_latch: [u8; 6],
    /// Channel 3 special mode: frequency numbers of operators 1, 2, 3.
    pub ch3_fnum: [u16; 3],
    /// Channel 3 special mode: blocks of operators 1, 2, 3.
    pub ch3_block: [u8; 3],
    /// Channel 3 special mode: high-byte latches.
    pub ch3_fn_h_latch: [u8; 3],
    /// Timer A has keyed channel 3 on; the next sample keys it off.
    pub csm_key_on: bool,
    /// Number of register writes (wraps).
    pub write_count: u32,
    /// The first register writes but DAC data, as (bank, address, value).
    pub write_trace: Vec<(u8, u8, u8)>,
}

/// Mathematical model of the chip.
#[verifier::ext_equal]
pub ghost struct YmState {
    pub channels: Seq<ChannelState>,
    pub dac_enabled: bool,
    pub dac_value: i16,
    pub address_latch: Seq<u8>,
    pub status: u8,
    pub timer_a_period: u16,
    pub timer_a_counter: u16,
    pub timer_b_period: u8,
    pub timer_b_counter: u16,
    pub timer_control: u8,
    pub lfo_enabled: bool,
    pub lfo_frequency: u8,
    pub lfo_counter: u32,
    pub lfo_phase: u8,
    pub eg_timer: u32,
    pub eg_counter: u32,
    pub fn_h_latch: Seq<u8>,
    pub ch3_fnum: Seq<u16>,
    pub ch3_block: Seq<u8>,
    pub ch3_fn_h_latch: Seq<u8>,
    pub csm_key_on: bool,
    pub write_count: u32,
    pub write_trace: Seq<(u8, u8, u8)>,
}

/// The models of an array of channels.
pub open spec fn channel_views(channels: Seq<Channel>) -> Seq<ChannelState> {
    Seq::new(channels.len(), |i: int| channels[i]@)
}

impl View for Ym2612 {
    type V = YmState;

    open spec fn view(&self) -> YmState {
        YmState {
            channels: channel_views(self.channels@),
            dac_enabled: self.dac_enabled,
            dac_value: self.dac_value,
            address_latch: self.address_latch@,
            status: self.status,
            timer_a_period: self.timer_a_period,
            timer_a_counter: self.timer_a_counter,
            timer_b_period: self.timer_b_period,
            timer_b_counter: self.timer_b_counter,
            timer_control: self.timer_control,
            lfo_enabled: self.lfo_enabled,
            lfo_frequency: self.lfo_frequency,
            lfo_counter: self.lfo_counter,
            lfo_phase: self.lfo_phase,
            eg_timer: self.eg_timer,
            eg_counter: self.eg_counter,
            fn_h_latch: self.fn_h_latch@,
            ch3_fnum: self.ch3_fnum@,
            ch3_block: self.ch3_block@,
            ch3_fn_h_latch: self.ch3_fn_h_latch@,
            csm_key_on: self.csm_key_on,
            write_count: self.write_count,
            write_trace: self.write_trace@,
        }
    }
}

impl YmState {
    /// Every register and counter is within its width.
    pub open spec fn wf(self) -> bool {
        &&& self.channels.len() == 6
        &&& forall|i: int| 0 <= i < 6 ==> (#[trigger] self.channels[i]).wf()
        &&& self.address_latch.len() == 2
        &&& self.fn_h_latch.len() == 6
        &&& self.ch3_fnum.len() == 3
        &&& self.ch3_block.len() == 3
        &&& self.ch3_fn_h_latch.len() == 3
        &&& self.ch3_fnum[0] <= 2047 && self.ch3_fnum[1] <= 2047 && self.ch3_fnum[2] <= 2047
        &&& self.ch3_block[0] <= 7 && self.ch3_block[1] <= 7 && self.ch3_block[2] <= 7
        &&& -128 <= self.dac_value <= 127
        &&& self.timer_a_period <= 1023
        &&& self.timer_a_counter <= 1023
        &&& self.timer_b_counter <= 4095
        &&& self.lfo_frequency <= 7
        &&& self.lfo_counter <= 127
        &&& self.lfo_phase <= 127
        &&& self.eg_timer <= 2
        &&& self.eg_counter <= 4095
        &&& self.write_trace.len() <= 500
    }
}

// ── Behaviour ────────────────────────────────────────────────────────────

/// The power-on chip: silent, timers stopped, DAC off.
pub open spec fn power_on_ym() -> YmState {
    YmState {
        channels: Seq::new(6, |i: int| silent_channel()),
        dac_enabled: false,
        dac_value: 0,
        address_latch: seq![0u8, 0u8],
        status: 0,
        timer_a_period: 0,
        timer_a_counter: 0,
        timer_b_period: 0,
        timer_b_counter: 0,
        timer_control: 0,
        lfo_enabled: false,
        lfo_frequency: 0,
        lfo_counter: 0,
        lfo_phase: 0,
        eg_timer: 0,
        eg_counter: 0,
        fn_h_latch: Seq::new(6, |i: int| 0u8),
        ch3_fnum: seq![0u16, 0u16, 0u16],
        ch3_block: seq![0u8, 0u8, 0u8],
        ch3_fn_h_latch: seq![0u8, 0u8, 0u8],
        csm_key_on: false,
        write_count: 0,
        write_trace: Seq::empty(),
    }
}

/// One bit of a byte.
pub open spec fn bit_set(v: u8, weight: u8) -> bool {
    (v / weight) % 2 == 1
}

/// The chip after a write is counted and, unless it is DAC data, traced.
pub open spec fn write_logged(s: YmState, bank: int, addr: u8, val: u8) -> YmState {
    YmState {
        write_count: s.write_count.wrapping_add(1),
        write_trace: if addr != 0x2A && s.write_trace.len() < 500 {
            s.write_trace.push((bank as u8, addr, val))
        } else {
            s.write_trace
        },
        ..s
    }
}

/// The channel of a key write, if it names one.
pub open spec fn key_channel(val: u8) -> Option<int> {
    let sel = (val % 8) as int;
    if sel < 3 {
        Some(sel)
    } else if sel != 3 && sel != 7 {
        Some(sel - 1)
    } else {
        None
    }
}

/// The chip after a write to a global register (below 0x30, bank 0).
pub open spec fn global_written(s: YmState, addr: u8, val: u8) -> YmState {
    if addr == 0x22 {
        let on = bit_set(val, 8);
        YmState {
            lfo_enabled: on,
            lfo_phase: if on && !s.lfo_enabled {
                0
            } else {
                s.lfo_phase
            },
            lfo_counter: if on && !s.lfo_enabled {
                0
            } else {
                s.lfo_counter
            },
            lfo_frequency: val % 8,
            ..s
        }
    } else if addr == 0x24 {
        YmState { timer_a_period: (s.timer_a_period % 4 + val * 4) as u16, ..s }
    } else if addr == 0x25 {
        YmState { timer_a_period: ((s.timer_a_period / 4) * 4 + val % 4) as u16, ..s }
    } else if addr == 0x26 {
        YmState { timer_b_period: val, ..s }
    } else if addr == 0x27 {
        let a = if bit_set(val, 0x10) {
            (s.status - s.status % 2) as u8
        } else {
            s.status
        };
        YmState {
            timer_control: val,
            status: if bit_set(val, 0x20) && bit_set(a, 2) {
                (a - 2) as u8
            } else {
                a
            },
            ..s
        }
    } else if addr == 0x28 {
        match key_channel(val) {
            Some(ch) => YmState {
                channels: s.channels.update(ch, channel_keyed(s.channels[ch], val / 16)),
                ..s
            },
            None => s,
        }
    } else if addr == 0x2A {
        YmState { dac_value: (val - 128) as i16, ..s }
    } else if addr == 0x2B {
        YmState { dac_enabled: val >= 0x80, ..s }
    } else {
        s
    }
}

/// The operator of a register slot: slots 1 and 2 are operators 3 and 2.
pub open spec fn slot_operator(slot: int) -> int {
    if slot == 1 {
        2
    } else if slot == 2 {
        1
    } else {
        slot
    }
}

/// An operator after a write to one of its registers (0x30 to 0x90).
pub open spec fn operator_set(op: Operator, reg: u8, val: u8) -> Operator {
    if reg == 3 {
        Operator { multiply: val % 16, detune: (val / 16) % 8, ..op }
    } else if reg == 4 {
        Operator { total_level: val % 128, ..op }
    } else if reg == 5 {
        Operator { attack_rate: val % 32, key_scale: val / 64, ..op }
    } else if reg == 6 {
        Operator { am_enable: val >= 0x80, decay_rate: val % 32, ..op }
    } else if reg == 7 {
        Operator { sustain_rate: val % 32, ..op }
    } else if reg == 8 {
        Operator { release_rate: val % 16, sustain_level: val / 16, ..op }
    } else {
        Operator { ssg_eg: val % 16, ..op }
    }
}

/// The chip after a write to an operator register (0x30 to 0x9F).
pub open spec fn operator_written(s: YmState, bank: int, addr: u8, val: u8) -> YmState {
    if addr % 4 == 3 {
        s
    } else {
        let ch = addr % 4 + bank * 3;
        let op = slot_operator(((addr / 4) % 4) as int);
        let c = s.channels[ch];
        YmState {
            channels: s.channels.update(
                ch,
                ChannelState {
                    operators: c.operators.update(
                        op,
                        operator_set(c.operators[op], addr / 16, val),
                    ),
                    ..c
                },
            ),
            ..s
        }
    }
}

/// The special-mode operator of a frequency register offset: 0 is operator 3, 1
/// is operator 1, 2 is operator 2.
pub open spec fn special_operator(offset: int) -> int {
    if offset == 0 {
        2
    } else {
        offset - 1
    }
}

/// The frequency number of a latched high byte and a low byte.
pub open spec fn fnum_of(hi: u8, lo: u8) -> u16 {
    ((hi % 8) * 0x100 + lo) as u16
}

/// The chip after a write to a channel register (from 0xA0 on).
pub open spec fn channel_written(s: YmState, bank: int, addr: u8, val: u8) -> YmState {
    let offset = (addr % 4) as int;
    let ch = offset + bank * 3;
    let c = s.channels[ch];
    if offset == 3 {
        s
    } else if addr / 4 == 0x28 {
        let hi = s.fn_h_latch[ch];
        YmState {
            channels: s.channels.update(
                ch,
                ChannelState { fnum: fnum_of(hi, val), block: (hi / 8) % 8, ..c },
            ),
            ..s
        }
    } else if addr / 4 == 0x29 {
        YmState { fn_h_latch: s.fn_h_latch.update(ch, val), ..s }
    } else if addr / 4 == 0x2A && bank == 0 {
        let k = special_operator(offset);
        let hi = s.ch3_fn_h_latch[k];
        YmState {
            ch3_fnum: s.ch3_fnum.update(k, fnum_of(hi, val)),
            ch3_block: s.ch3_block.update(k, (hi / 8) % 8),
            ..s
        }
    } else if addr / 4 == 0x2B && bank == 0 {
        YmState { ch3_fn_h_latch: s.ch3_fn_h_latch.update(special_operator(offset), val), ..s }
    } else if addr / 4 == 0x2C {
        YmState {
            channels: s.channels.update(
                ch,
                ChannelState { algorithm: val % 8, feedback: (val / 8) % 8, ..c },
            ),
            ..s
        }
    } else if addr / 4 == 0x2D {
        YmState {
            channels: s.channels.update(
                ch,
                ChannelState {
                    panning_left: val >= 0x80,
                    panning_right: bit_set(val, 0x40),
                    ams: (val / 16) % 4,
                    pms: val % 8,
                    ..c
                },
            ),
            ..s
        }
    } else {
        s
    }
}

/// The chip after a register write. Global registers exist in bank 0 only.
pub open spec fn register_written(s: YmState, bank: int, addr: u8, val: u8) -> YmState {
    let t = write_logged(s, bank, addr, val);
    if addr < 0x30 {
        if bank == 0 {
            global_written(t, addr, val)
        } else {
            t
        }
    } else if addr < 0xA0 {
        operator_written(t, bank, addr, val)
    } else {
        channel_written(t, bank, addr, val)
    }
}

/// The chip after an address write.
pub open spec fn address_written(s: YmState, port: u8, val: u8) -> YmState {
    YmState { address_latch: s.address_latch.update((port % 2) as int, val), ..s }
}

/// The chip after a data write to the latched address.
pub open spec fn data_written(s: YmState, port: u8, val: u8) -> YmState {
    let bank = (port % 2) as int;
    register_written(s, bank, s.address_latch[bank], val)
}

/// Channel 3 uses a frequency per operator (timer control bits 6 and 7).
pub open spec fn special_mode(s: YmState) -> bool {
    s.timer_control >= 0x40
}

/// Samples per LFO step.
pub open spec fn lfo_period(frequency: u8) -> u32 {
    if frequency == 0 {
        108
    } else if frequency == 1 {
        77
    } else if frequency == 2 {
        71
    } else if frequency == 3 {
        67
    } else if frequency == 4 {
        62
    } else if frequency == 5 {
        44
    } else if frequency == 6 {
        8
    } else {
        5
    }
}

/// The chip after one LFO tick.
pub open spec fn lfo_stepped(s: YmState) -> YmState {
    if !s.lfo_enabled {
        s
    } else if s.lfo_counter + 1 >= lfo_period(s.lfo_frequency) {
        YmState {
            lfo_counter: 0,
            lfo_phase: if s.lfo_phase >= 127 {
                0
            } else {
                (s.lfo_phase + 1) as u8
            },
            ..s
        }
    } else {
        YmState { lfo_counter: (s.lfo_counter + 1) as u32, ..s }
    }
}

/// The tremolo level: a triangle over the LFO phase, 0 while the LFO is off.
pub open spec fn lfo_am(s: YmState) -> u8 {
    if !s.lfo_enabled {
        0
    } else if s.lfo_phase < 64 {
        (s.lfo_phase * 2) as u8
    } else {
        ((127 - s.lfo_phase) * 2) as u8
    }
}

/// The vibrato value: the LFO phase in quarters, 0 while the LFO is off.
pub open spec fn lfo_pm(s: YmState) -> u8 {
    if !s.lfo_enabled {
        0
    } else {
        s.lfo_phase / 4
    }
}

/// The chip after one tick of the envelope divider: every third sample moves the
/// envelope counter, which runs from 1 to 4095.
pub open spec fn eg_stepped(s: YmState) -> YmState {
    if s.eg_timer < 2 {
        YmState { eg_timer: (s.eg_timer + 1) as u32, ..s }
    } else {
        YmState {
            eg_timer: 0,
            eg_counter: if s.eg_counter >= 4095 {
                1
            } else {
                (s.eg_counter + 1) as u32
            },
            ..s
        }
    }
}

/// The frequency numbers of a channel's operators.
pub open spec fn slot_fnums(s: YmState, ch: int) -> Seq<u16> {
    let f = s.channels[ch].fnum;
    if ch == 2 && special_mode(s) {
        seq![s.ch3_fnum[0], s.ch3_fnum[1], s.ch3_fnum[2], f]
    } else {
        seq![f, f, f, f]
    }
}

/// The blocks of a channel's operators.
pub open spec fn slot_blocks(s: YmState, ch: int) -> Seq<u8> {
    let b = s.channels[ch].block;
    if ch == 2 && special_mode(s) {
        seq![s.ch3_block[0], s.ch3_block[1], s.ch3_block[2], b]
    } else {
        seq![b, b, b, b]
    }
}

/// The DAC plays in place of the channel.
pub open spec fn dac_plays(s: YmState, ch: int) -> bool {
    ch == 5 && s.dac_enabled
}

/// A channel after its operators have produced a sample, before the envelopes
/// move. The DAC leaves the operators of its channel alone.
pub open spec fn channel_played(s: YmState, ch: int) -> ChannelState {
    if dac_plays(s, ch) {
        s.channels[ch]
    } else {
        channel_sampled(s.channels[ch], slot_fnums(s, ch), slot_blocks(s, ch), lfo_am(s), lfo_pm(s))
    }
}

/// The sample of a channel on both sides.
#[verifier::opaque]
pub open spec fn channel_sample(s: YmState, ch: int) -> (i32, i32) {
    panned(
        s.channels[ch],
        if dac_plays(s, ch) {
            (s.dac_value * 2) as i32
        } else {
            channel_output(channel_played(s, ch))
        },
    )
}

/// A channel after a sample; `eg` says that the envelopes move.
#[verifier::opaque]
pub open spec fn channel_advanced(s: YmState, ch: int, eg: bool) -> ChannelState {
    if eg {
        channel_enveloped(
            channel_played(s, ch),
            slot_fnums(s, ch),
            slot_blocks(s, ch),
            s.eg_counter,
        )
    } else {
        channel_played(s, ch)
    }
}

/// The chip with all keys of channel 3 set by `mask`.
pub open spec fn channel_3_keyed(s: YmState, mask: u8) -> YmState {
    YmState { channels: s.channels.update(2, channel_keyed(s.channels[2], mask)), ..s }
}

/// The chip after one tick of timer A. Overflow raises its flag where enabled,
/// and in CSM mode keys channel 3 on.
#[verifier::opaque]
pub open spec fn timer_a_stepped(s: YmState) -> YmState {
    if s.timer_control % 2 == 0 {
        s
    } else if s.timer_a_counter + 1 < 1024 - s.timer_a_period {
        YmState { timer_a_counter: (s.timer_a_counter + 1) as u16, ..s }
    } else {
        let t = YmState {
            timer_a_counter: 0,
            status: if bit_set(s.timer_control, 4) && s.status % 2 == 0 {
                (s.status + 1) as u8
            } else {
                s.status
            },
            ..s
        };
        if s.timer_control / 0x40 == 2 {
            YmState { csm_key_on: true, ..channel_3_keyed(t, 15) }
        } else {
            t
        }
    }
}

/// The chip after one tick of timer B, whose period counts sixteen ticks a step.
#[verifier::opaque]
pub open spec fn timer_b_stepped(s: YmState) -> YmState {
    if !bit_set(s.timer_control, 2) {
        s
    } else if s.timer_b_counter + 1 < (256 - s.timer_b_period) * 16 {
        YmState { timer_b_counter: (s.timer_b_counter + 1) as u16, ..s }
    } else {
        YmState {
            timer_b_counter: 0,
            status: if bit_set(s.timer_control, 8) && !bit_set(s.status, 2) {
                (s.status + 2) as u8
            } else {
                s.status
            },
            ..s
        }
    }
}

/// The chip as a sample begins: a CSM key-on of the last sample ends, the LFO and
/// the envelope divider tick.
#[verifier::opaque]
pub open spec fn sample_begun(s: YmState) -> YmState {
    let a = if s.csm_key_on {
        YmState { csm_key_on: false, ..channel_3_keyed(s, 0) }
    } else {
        s
    };
    eg_stepped(lfo_stepped(a))
}

/// The samples of the six channels.
pub open spec fn chip_samples(s: YmState) -> Seq<(i32, i32)> {
    let a = sample_begun(s);
    Seq::new(6, |i: int| channel_sample(a, i))
}

/// The chip after one sample.
pub open spec fn chip_sampled(s: YmState) -> YmState {
    let a = sample_begun(s);
    let b = YmState {
        channels: Seq::new(6, |i: int| channel_advanced(a, i, a.eg_timer == 0)),
        ..a
    };
    timer_b_stepped(timer_a_stepped(b))
}

// ── Executable chip ──────────────────────────────────────────────────────

impl Clone for Ym2612 {
    fn clone(&self) -> (r: Self)
        ensures
            r@ == self@,
    {
        Ym2612 {
            channels: self.channels,
            dac_enabled: self.dac_enabled,
            dac_value: self.dac_value,
            address_latch: self.address_latch,
            status: self.status,
            timer_a_period: self.timer_a_period,
            timer_a_counter: self.timer_a_counter,
            timer_b_period: self.timer_b_period,
            timer_b_counter: self.timer_b_counter,
            timer_control: self.timer_control,
            lfo_enabled: self.lfo_enabled,
            lfo_frequency: self.lfo_frequency,
            lfo_counter: self.lfo_counter,
            lfo_phase: self.lfo_phase,
            eg_timer: self.eg_timer,
            eg_counter: self.eg_counter,
            fn_h_latch: self.fn_h_latch,
            ch3_fnum: self.ch3_fnum,
            ch3_block: self.ch3_block,
            ch3_fn_h_latch: self.ch3_fn_h_latch,
            csm_key_on: self.csm_key_on,
            write_count: self.write_count,
            write_trace: vstd::slice::slice_to_vec(self.write_trace.as_slice()),
        }
    }
}

/// Whether two byte slices are equal.
pub fn same_bytes(a: &[u8], b: &[u8]) -> (r: bool)
    ensures
        r == (a@ == b@),
{
    if a.len() != b.len() {
        return false;
    }
    let mut i: usize = 0;
    while i < a.len()
        invariant
            i <= a@.len(),
            a@.len() == b@.len(),
            forall|j: int| 0 <= j < i ==> a@[j] == b@[j],
        decreases a@.len() - i,
    {
        if a[i] != b[i] {
            return false;
        }
        i = i + 1;
    }
    assert(a@ =~= b@);
    true
}

/// Sets an operator register.
fn set_operator_register(old_op: Operator, reg: u8, val: u8) -> (r: Operator)
    requires
        old_op.wf(),
        3 <= reg <= 9,
    ensures
        r == operator_set(old_op, reg, val),
        r.wf(),
{
    let mut op = old_op;
    if reg == 3 {
        op.multiply = val % 16;
        op.detune = (val / 16) % 8;
    } else if reg == 4 {
        op.total_level = val % 128;
    } else if reg == 5 {
        op.attack_rate = val % 32;
        op.key_scale = val / 64;
    } else if reg == 6 {
        op.am_enable = val >= 0x80;
        op.decay_rate = val % 32;
    } else if reg == 7 {
        op.sustain_rate = val % 32;
    } else if reg == 8 {
        op.release_rate = val % 16;
        op.sustain_level = val / 16;
    } else {
        op.ssg_eg = val % 16;
    }
    op
}

impl Ym2612 {
    /// Creates a new YM2612 in its power-on state.
    #[must_use]
    pub fn new() -> (r: Self)
        ensures
            r@ == power_on_ym(),
            r@.wf(),
    {
        let c = Channel::new();
        let r = Ym2612 {
            channels: [c, c, c, c, c, c],
            dac_enabled: false,
            dac_value: 0,
            address_latch: [0u8; 2],
            status: 0,
            timer_a_period: 0,
            timer_a_counter: 0,
            timer_b_period: 0,
            timer_b_counter: 0,
            timer_control: 0,
            lfo_enabled: false,
            lfo_frequency: 0,
            lfo_counter: 0,
            lfo_phase: 0,
            eg_timer: 0,
            eg_counter: 0,
            fn_h_latch: [0u8; 6],
            ch3_fnum: [0u16; 3],
            ch3_block: [0u8; 3],
            ch3_fn_h_latch: [0u8; 3],
            csm_key_on: false,
            write_count: 0,
            write_trace: Vec::new(),
        };
        assert(r@ =~= power_on_ym());
        r
    }

    /// Latches the register address for a subsequent data write. `port` selects
    /// the bank: even for channels 1-3, odd for channels 4-6.
    pub fn write_address(&mut self, port: u8, val: u8)
        ensures
            final(self)@ == address_written(old(self)@, port, val),
            old(self)@.wf() ==> final(self)@.wf(),
    {
        self.address_latch[(port % 2) as usize] = val;
        assert(self@ =~= address_written(old(self)@, port, val));
    }

    /// Returns the currently latched address for the given port.
    #[must_use]
    pub fn latched_address(&self, port: u8) -> (r: u8)
        ensures
            r == self@.address_latch[(port % 2) as int],
    {
        self.address_latch[(port % 2) as usize]
    }

    /// Whether every register and counter is within its width.
    #[must_use]
    pub fn is_well_formed(&self) -> (r: bool)
        ensures
            r == self@.wf(),
    {
        let mut i: usize = 0;
        while i < 6
            invariant
                i <= 6,
                forall|j: int| 0 <= j < i ==> (#[trigger] self@.channels[j]).wf(),
            decreases 6 - i,
        {
            assert(self@.channels[i as int] == self.channels[i as int]@);
            if !self.channels[i].is_well_formed() {
                return false;
            }
            i = i + 1;
        }
        self.ch3_fnum[0] <= 2047 && self.ch3_fnum[1] <= 2047 && self.ch3_fnum[2] <= 2047
            && self.ch3_block[0] <= 7 && self.ch3_block[1] <= 7 && self.ch3_block[2] <= 7 && -128
            <= self.dac_value && self.dac_value <= 127 && self.timer_a_period <= 1023
            && self.timer_a_counter <= 1023 && self.timer_b_counter <= 4095 && self.lfo_frequency
            <= 7 && self.lfo_counter <= 127 && self.lfo_phase <= 127 && self.eg_timer <= 2
            && self.eg_counter <= 4095 && self.write_trace.len() <= 500
    }

    /// Writes data to the previously latched register address.
    pub fn write_data(&mut self, port: u8, val: u8)
        requires
            old(self)@.wf(),
        ensures
            final(self)@ == data_written(old(self)@, port, val),
            final(self)@.wf(),
    {
        let bank: u8 = port % 2;
        let addr: u8 = self.address_latch[bank as usize];
        self.write_register(bank, addr, val);
    }

    /// Reads the status register: the timer overflow flags. Reading does not
    /// clear them.
    #[must_use]
    pub fn read_status(&self) -> (r: u8)
        ensures
            r == self@.status,
    {
        self.status
    }

    /// Replaces one channel.
    fn set_channel(&mut self, ch: usize, c: Channel)
        requires
            ch < 6,
        ensures
            final(self)@ == (YmState {
                channels: old(self)@.channels.update(ch as int, c@),
                ..old(self)@
            }),
    {
        self.channels[ch] = c;
        assert(self@ =~= (YmState {
            channels: old(self)@.channels.update(ch as int, c@),
            ..old(self)@
        }));
    }

    /// Writes a register.
    fn write_register(&mut self, bank: u8, addr: u8, val: u8)
        requires
            old(self)@.wf(),
            bank <= 1,
        ensures
            final(self)@ == register_written(old(self)@, bank as int, addr, val),
            final(self)@.wf(),
    {
        self.write_count = self.write_count.wrapping_add(1);
        if addr != 0x2A && self.write_trace.len() < 500 {
            self.write_trace.push((bank, addr, val));
        }
        if addr < 0x30 {
            if bank == 0 {
                self.write_global(addr, val);
            }
        } else if addr < 0xA0 {
            self.write_operator(bank, addr, val);
        } else {
            self.write_channel(bank, addr, val);
        }
    }

    /// Writes a global register.
    fn write_global(&mut self, addr: u8, val: u8)
        requires
            old(self)@.wf(),
        ensures
            final(self)@ == global_written(old(self)@, addr, val),
            final(self)@.wf(),
    {
        if addr == 0x22 {
            let on = (val / 8) % 2 == 1;
            if on && !self.lfo_enabled {
                self.lfo_phase = 0;
                self.lfo_counter = 0;
            }
            self.lfo_enabled = on;
            self.lfo_frequency = val % 8;
        } else if addr == 0x24 {
            self.timer_a_period = self.timer_a_period % 4 + val as u16 * 4;
        } else if addr == 0x25 {
            self.timer_a_period = (self.timer_a_period / 4) * 4 + (val % 4) as u16;
        } else if addr == 0x26 {
            self.timer_b_period = val;
        } else if addr == 0x27 {
            self.timer_control = val;
            if (val / 0x10) % 2 == 1 {
                self.status = self.status - self.status % 2;
            }
            if (val / 0x20) % 2 == 1 && (self.status / 2) % 2 == 1 {
                self.status = self.status - 2;
            }
        } else if addr == 0x28 {
            let sel: u8 = val % 8;
            if sel != 3 && sel != 7 {
                let ch: usize = if sel < 3 {
                    sel as usize
                } else {
                    (sel - 1) as usize
                };
                let mut c = self.channels[ch];
                assert(self@.channels[ch as int] == c@);
                c.key_operators(val / 16);
                self.set_channel(ch, c);
            }
        } else if addr == 0x2A {
            self.dac_value = val as i16 - 128;
        } else if addr == 0x2B {
            self.dac_enabled = val >= 0x80;
        }
    }

    /// Writes an operator register.
    fn write_operator(&mut self, bank: u8, addr: u8, val: u8)
        requires
            old(self)@.wf(),
            bank <= 1,
            0x30 <= addr < 0xA0,
        ensures
            final(self)@ == operator_written(old(self)@, bank as int, addr, val),
            final(self)@.wf(),
    {
        if addr % 4 == 3 {
            return;
        }
        let ch: usize = (addr % 4) as usize + bank as usize * 3;
        let slot: usize = ((addr / 4) % 4) as usize;
        let k: usize = if slot == 1 {
            2
        } else if slot == 2 {
            1
        } else {
            slot
        };
        let mut c = self.channels[ch];
        assert(self@.channels[ch as int] == c@);
        let op: Operator = set_operator_register(c.operators[k], addr / 16, val);
        c.operators[k] = op;
        self.set_channel(ch, c);
    }

    /// Writes a channel register.
    #[verifier::spinoff_prover]
    #[verifier::rlimit(60)]
    fn write_channel(&mut self, bank: u8, addr: u8, val: u8)
        requires
            old(self)@.wf(),
            bank <= 1,
            0xA0 <= addr,
        ensures
            final(self)@ == channel_written(old(self)@, bank as int, addr, val),
            final(self)@.wf(),
    {
        let offset: usize = (addr % 4) as usize;
        if offset == 3 {
            return;
        }
        let ch: usize = offset + bank as usize * 3;
        let mut c = self.channels[ch];
        assert(self@.channels[ch as int] == c@);
        let special: usize = if offset == 0 {
            2
        } else {
            offset - 1
        };
        if addr / 4 == 0x28 {
            let hi: u8 = self.fn_h_latch[ch];
            c.fnum = (hi % 8) as u16 * 0x100 + val as u16;
            c.block = (hi / 8) % 8;
            self.set_channel(ch, c);
        } else if addr / 4 == 0x29 {
            self.fn_h_latch[ch] = val;
        } else if addr / 4 == 0x2A && bank == 0 {
            let hi: u8 = self.ch3_fn_h_latch[special];
            self.ch3_fnum[special] = (hi % 8) as u16 * 0x100 + val as u16;
            self.ch3_block[special] = (hi / 8) % 8;
        } else if addr / 4 == 0x2B && bank == 0 {
            self.ch3_fn_h_latch[special] = val;
        } else if addr / 4 == 0x2C {
            c.algorithm = val % 8;
            c.feedback = (val / 8) % 8;
            self.set_channel(ch, c);
        } else if addr / 4 == 0x2D {
            c.panning_left = val >= 0x80;
            c.panning_right = (val / 0x40) % 2 == 1;
            c.ams = (val / 16) % 4;
            c.pms = val % 8;
            self.set_channel(ch, c);
        }
        assert(self@ =~= channel_written(old(self)@, bank as int, addr, val));
    }

    /// Sets all keys of channel 3.
    fn key_channel_3(&mut self, mask: u8)
        requires
            old(self)@.wf(),
        ensures
            final(self)@ == channel_3_keyed(old(self)@, mask),
            final(self)@.wf(),
    {
        let mut c = self.channels[2];
        assert(self@.channels[2] == c@);
        c.key_operators(mask);
        self.set_channel(2, c);
    }

    /// Advances timer A by one sample tick.
    fn advance_timer_a(&mut self)
        requires
            old(self)@.wf(),
        ensures
            final(self)@ == timer_a_stepped(old(self)@),
            final(self)@.wf(),
    {
        proof {
            reveal(timer_a_stepped);
        }
        if self.timer_control % 2 == 0 {
            return;
        }
        if self.timer_a_counter + 1 < 1024 - self.timer_a_period {
            self.timer_a_counter = self.timer_a_counter + 1;
        } else {
            self.timer_a_counter = 0;
            if (self.timer_control / 4) % 2 == 1 && self.status % 2 == 0 {
                self.status = self.status + 1;
            }
            if self.timer_control / 0x40 == 2 {
                self.key_channel_3(15);
                self.csm_key_on = true;
            }
        }
    }

    /// Advances timer B by one sample tick.
    fn advance_timer_b(&mut self)
        requires
            old(self)@.wf(),
        ensures
            final(self)@ == timer_b_stepped(old(self)@),
            final(self)@.wf(),
    {
        proof {
            reveal(timer_b_stepped);
        }
        if (self.timer_control / 2) % 2 == 0 {
            return;
        }
        let period: u16 = (256 - self.timer_b_period as u16) * 16;
        if self.timer_b_counter + 1 < period {
            self.timer_b_counter = self.timer_b_counter + 1;
        } else {
            self.timer_b_counter = 0;
            if (self.timer_control / 8) % 2 == 1 && (self.status / 2) % 2 == 0 {
                assert(self.status <= 253);
                self.status = self.status + 2;
            }
        }
    }

    /// Advances the LFO by one sample tick.
    fn advance_lfo(&mut self)
        requires
            old(self)@.wf(),
        ensures
            final(self)@ == lfo_stepped(old(self)@),
            final(self)@.wf(),
    {
        if !self.lfo_enabled {
            return;
        }
        let f: u8 = self.lfo_frequency;
        let period: u32 = if f == 0 {
            108
        } else if f == 1 {
            77
        } else if f == 2 {
            71
        } else if f == 3 {
            67
        } else if f == 4 {
            62
        } else if f == 5 {
            44
        } else if f == 6 {
            8
        } else {
            5
        };
        if self.lfo_counter + 1 >= period {
            self.lfo_counter = 0;
            self.lfo_phase = if self.lfo_phase >= 127 {
                0
            } else {
                self.lfo_phase + 1
            };
        } else {
            self.lfo_counter = self.lfo_counter + 1;
        }
    }

    /// Begins a sample: ends a CSM key-on, ticks the LFO and the envelope
    /// divider.
    fn begin_sample(&mut self)
        requires
            old(self)@.wf(),
        ensures
            final(self)@ == sample_begun(old(self)@),
            final(self)@.wf(),
    {
        proof {
            reveal(sample_begun);
        }
        if self.csm_key_on {
            self.csm_key_on = false;
            self.key_channel_3(0);
        }
        self.advance_lfo();
        if self.eg_timer < 2 {
            self.eg_timer = self.eg_timer + 1;
        } else {
            self.eg_timer = 0;
            self.eg_counter = if self.eg_counter >= 4095 {
                1
            } else {
                self.eg_counter + 1
            };
        }
    }

    /// The frequencies of a channel's operators.
    fn slot_frequencies(&self, ch: usize) -> (r: ([u16; 4], [u8; 4]))
        requires
            self@.wf(),
            ch < 6,
        ensures
            r.0@ == slot_fnums(self@, ch as int),
            r.1@ == slot_blocks(self@, ch as int),
            frequencies_wf(r.0@, r.1@),
    {
        let c = self.channels[ch];
        assert(self@.channels[ch as int] == c@);
        if ch == 2 && self.timer_control >= 0x40 {
            (
                [self.ch3_fnum[0], self.ch3_fnum[1], self.ch3_fnum[2], c.fnum],
                [self.ch3_block[0], self.ch3_block[1], self.ch3_block[2], c.block],
            )
        } else {
            ([c.fnum, c.fnum, c.fnum, c.fnum], [c.block, c.block, c.block, c.block])
        }
    }

    /// One sample of a channel: the channel afterwards, and the sample.
    fn play_channel(&self, ch: usize) -> (r: (Channel, (i32, i32)))
        requires
            self@.wf(),
            ch < 6,
        ensures
            r.0@ == channel_advanced(self@, ch as int, self@.eg_timer == 0),
            r.0@.wf(),
            r.1 == channel_sample(self@, ch as int),
            -256 <= r.1.0 <= 256,
            -256 <= r.1.1 <= 256,
    {
        proof {
            reveal(channel_advanced);
            reveal(channel_sample);
        }
        let (fnums, blocks) = self.slot_frequencies(ch);
        let mut c = self.channels[ch];
        assert(self@.channels[ch as int] == c@);
        let sample: (i32, i32) = if ch == 5 && self.dac_enabled {
            let out: i32 = self.dac_value as i32 * 2;
            (
                if c.panning_left {
                    out
                } else {
                    0
                },
                if c.panning_right {
                    out
                } else {
                    0
                },
            )
        } else {
            let am: u8 = if !self.lfo_enabled {
                0
            } else if self.lfo_phase < 64 {
                self.lfo_phase * 2
            } else {
                (127 - self.lfo_phase) * 2
            };
            let pm: u8 = if !self.lfo_enabled {
                0
            } else {
                self.lfo_phase / 4
            };
            c.output_sample(&fnums, &blocks, am, pm)
        };
        if self.eg_timer == 0 {
            c.update_envelopes(&fnums, &blocks, self.eg_counter);
        }
        (c, sample)
    }

    /// Produces one raw stereo sample per FM channel, each within 256 either
    /// way. Called at the native sample rate (about 53.267 kHz).
    pub fn output_sample_raw_per_channel(&mut self) -> (r: [(i32, i32); 6])
        requires
            old(self)@.wf(),
        ensures
            r@ == chip_samples(old(self)@),
            final(self)@ == chip_sampled(old(self)@),
            final(self)@.wf(),
            forall|i: int|
                0 <= i < 6 ==> -256 <= (#[trigger] r@[i]).0 <= 256 && -256 <= r@[i].1 <= 256,
    {
        self.begin_sample();
        let ghost a = self@;
        let (c0, s0) = self.play_channel(0);
        let (c1, s1) = self.play_channel(1);
        let (c2, s2) = self.play_channel(2);
        let (c3, s3) = self.play_channel(3);
        let (c4, s4) = self.play_channel(4);
        let (c5, s5) = self.play_channel(5);
        self.channels = [c0, c1, c2, c3, c4, c5];
        assert(self@ =~= (YmState {
            channels: Seq::new(6, |i: int| channel_advanced(a, i, a.eg_timer == 0)),
            ..a
        }));
        self.advance_timer_a();
        self.advance_timer_b();
        let r = [s0, s1, s2, s3, s4, s5];
        assert(r@ =~= chip_samples(old(self)@));
        r
    }

    /// Produces one raw stereo sample: the sum over the channels, within 1536
    /// either way.
    pub fn output_sample_raw(&mut self) -> (r: (i32, i32))
        requires
            old(self)@.wf(),
        ensures
            r.0 == chip_samples(old(self)@)[0].0 + chip_samples(old(self)@)[1].0 + chip_samples(
                old(self)@,
            )[2].0 + chip_samples(old(self)@)[3].0 + chip_samples(old(self)@)[4].0 + chip_samples(
                old(self)@,
            )[5].0,
            r.1 == chip_samples(old(self)@)[0].1 + chip_samples(old(self)@)[1].1 + chip_samples(
                old(self)@,
            )[2].1 + chip_samples(old(self)@)[3].1 + chip_samples(old(self)@)[4].1 + chip_samples(
                old(self)@,
            )[5].1,
            -1536 <= r.0 <= 1536,
            -1536 <= r.1 <= 1536,
            final(self)@ == chip_sampled(old(self)@),
            final(self)@.wf(),
    {
        let s: [(i32, i32); 6] = self.output_sample_raw_per_channel();
        assert(s@[0] == s[0] && s@[1] == s[1] && s@[2] == s[2] && s@[3] == s[3] && s@[4] == s[4]
            && s@[5] == s[5]);
        (
            s[0].0 + s[1].0 + s[2].0 + s[3].0 + s[4].0 + s[5].0,
            s[0].1 + s[1].1 + s[2].1 + s[3].1 + s[4].1 + s[5].1,
        )
    }

    /// Whether two chips are in the same state.
    #[must_use]
    pub fn same(&self, other: &Ym2612) -> (r: bool)
        ensures
            r == (self@ == other@),
    {
        let mut i: usize = 0;
        while i < 6
            invariant
                i <= 6,
                forall|j: int| 0 <= j < i ==> self.channels@[j]@ == other.channels@[j]@,
            decreases 6 - i,
        {
            if !self.channels[i].same(&other.channels[i]) {
                assert(self@.channels[i as int] != other@.channels[i as int]);
                return false;
            }
            i = i + 1;
        }
        assert(self@.channels =~= other@.channels);
        same_bytes(self.address_latch.as_slice(), other.address_latch.as_slice()) && same_bytes(
            self.fn_h_latch.as_slice(),
            other.fn_h_latch.as_slice(),
        ) && same_bytes(self.ch3_block.as_slice(), other.ch3_block.as_slice()) && same_bytes(
            self.ch3_fn_h_latch.as_slice(),
            other.ch3_fn_h_latch.as_slice(),
        ) && self.same_special(other) && self.same_trace(other) && self.dac_enabled
            == other.dac_enabled && self.dac_value == other.dac_value && self.status == other.status
            && self.timer_a_period == other.timer_a_period && self.timer_a_counter
            == other.timer_a_counter && self.timer_b_period == other.timer_b_period
            && self.timer_b_counter == other.timer_b_counter && self.timer_control
            == other.timer_control && self.lfo_enabled == other.lfo_enabled && self.lfo_frequency
            == other.lfo_frequency && self.lfo_counter == other.lfo_counter && self.lfo_phase
            == other.lfo_phase && self.eg_timer == other.eg_timer && self.eg_counter
            == other.eg_counter && self.csm_key_on == other.csm_key_on && self.write_count
            == other.write_count
    }

    /// Whether the special-mode frequency numbers are the same.
    fn same_special(&self, other: &Ym2612) -> (r: bool)
        ensures
            r == (self@.ch3_fnum == other@.ch3_fnum),
    {
        let r = self.ch3_fnum[0] == other.ch3_fnum[0] && self.ch3_fnum[1] == other.ch3_fnum[1]
            && self.ch3_fnum[2] == other.ch3_fnum[2];
        assert(r ==> self@.ch3_fnum =~= other@.ch3_fnum);
        r
    }

    /// Whether the write traces are the same.
    fn same_trace(&self, other: &Ym2612) -> (r: bool)
        ensures
            r == (self@.write_trace == other@.write_trace),
    {
        if self.write_trace.len() != other.write_trace.len() {
            return false;
        }
        let mut i: usize = 0;
        while i < self.write_trace.len()
            invariant
                i <= self.write_trace@.len(),
                self.write_trace@.len() == other.write_trace@.len(),
                forall|j: int| 0 <= j < i ==> self.write_trace@[j] == other.write_trace@[j],
            decreases self.write_trace@.len() - i,
        {
            let a = self.write_trace[i];
            let b = other.write_trace[i];
            if a.0 != b.0 || a.1 != b.1 || a.2 != b.2 {
                assert(self.write_trace@[i as int] != other.write_trace@[i as int]);
                return false;
            }
            i = i + 1;
        }
        assert(self.write_trace@ =~= other.write_trace@);
        true
    }

    /// Returns the number of register data writes.
    #[must_use]
    pub fn write_count(&self) -> (r: u32)
        ensures
            r == self@.write_count,
    {
        self.write_count
    }

    /// Returns the first register writes captured, as (bank, address, value).
    #[must_use]
    pub fn write_trace(&self) -> (r: &[(u8, u8, u8)])
        ensures
            r@ == self@.write_trace,
    {
        self.write_trace.as_slice()
    }
}

impl Default for Ym2612 {
    fn default() -> (r: Self)
        ensures
            r@ == power_on_ym(),
            r@.wf(),
    {
        Ym2612::new()
    }
}

// ── Diagnostics ──────────────────────────────────────────────────────────

/// Diagnostic snapshot of one operator's state.
#[derive(Debug, Clone, Copy, PartialEq, Eq, Structural)]
pub struct OpDiag {
    pub multiply: u8,
    pub detune: u8,
    pub total_level: u8,
    pub attack_rate: u8,
    pub decay_rate: u8,
    pub sustain_rate: u8,
    pub sustain_level: u8,
    pub release_rate: u8,
    pub key_scale: u8,
    pub am_enable: bool,
    pub ssg_eg: u8,
    pub key_on: bool,
    pub envelope: u16,
    pub env_state: EnvState,
}

/// Diagnostic snapshot of one channel's state.
#[derive(Debug, Clone, Copy)]
pub struct ChannelDiag {
    pub fnum: u16,
    pub block: u8,
    pub algorithm: u8,
    pub feedback: u8,
    pub panning_left: bool,
    pub panning_right: bool,
    pub pms: u8,
    pub ams: u8,
    pub operators: [OpDiag; 4],
}

/// Diagnostic snapshot of the entire YM2612 state.
#[derive(Debug, Clone, Copy)]
pub struct Ym2612Diag {
    pub channels: [ChannelDiag; 6],
    pub dac_enabled: bool,
    pub lfo_enabled: bool,
    pub lfo_frequency: u8,
    pub timer_control: u8,
}

/// What a diagnostic shows of an operator.
pub open spec fn op_diag(op: Operator) -> OpDiag {
    OpDiag {
        multiply: op.multiply,
        detune: op.detune,
        total_level: op.total_level,
        attack_rate: op.attack_rate,
        decay_rate: op.decay_rate,
        sustain_rate: op.sustain_rate,
        sustain_level: op.sustain_level,
        release_rate: op.release_rate,
        key_scale: op.key_scale,
        am_enable: op.am_enable,
        ssg_eg: op.ssg_eg,
        key_on: op.key_on,
        envelope: op.envelope,
        env_state: op.env_state,
    }
}

/// A diagnostic shows the channel.
pub open spec fn shows_channel(d: ChannelDiag, c: ChannelState) -> bool {
    &&& d.fnum == c.fnum
    &&& d.block == c.block
    &&& d.algorithm == c.algorithm
    &&& d.feedback == c.feedback
    &&& d.panning_left == c.panning_left
    &&& d.panning_right == c.panning_right
    &&& d.pms == c.pms
    &&& d.ams == c.ams
    &&& forall|j: int| 0 <= j < 4 ==> #[trigger] d.operators@[j] == op_diag(c.operators[j])
}

/// The diagnostic of an operator.
fn diagnose_operator(op: &Operator) -> (r: OpDiag)
    ensures
        r == op_diag(*op),
{
    OpDiag {
        multiply: op.multiply,
        detune: op.detune,
        total_level: op.total_level,
        attack_rate: op.attack_rate,
        decay_rate: op.decay_rate,
        sustain_rate: op.sustain_rate,
        sustain_level: op.sustain_level,
        release_rate: op.release_rate,
        key_scale: op.key_scale,
        am_enable: op.am_enable,
        ssg_eg: op.ssg_eg,
        key_on: op.key_on,
        envelope: op.envelope,
        env_state: op.env_state,
    }
}

/// The diagnostic of a channel.
fn diagnose_channel(c: &Channel) -> (r: ChannelDiag)
    ensures
        shows_channel(r, c@),
{
    ChannelDiag {
        fnum: c.fnum,
        block: c.block,
        algorithm: c.algorithm,
        feedback: c.feedback,
        panning_left: c.panning_left,
        panning_right: c.panning_right,
        pms: c.pms,
        ams: c.ams,
        operators: [
            diagnose_operator(&c.operators[0]),
            diagnose_operator(&c.operators[1]),
            diagnose_operator(&c.operators[2]),
            diagnose_operator(&c.operators[3]),
        ],
    }
}

impl Ym2612 {
    /// Captures a diagnostic snapshot of the entire chip state.
    #[must_use]
    pub fn diagnostic(&self) -> (r: Ym2612Diag)
        ensures
            forall|i: int| 0 <= i < 6 ==> shows_channel(#[trigger] r.channels@[i], self@.channels[i]),
            r.dac_enabled == self@.dac_enabled,
            r.lfo_enabled == self@.lfo_enabled,
            r.lfo_frequency == self@.lfo_frequency,
            r.timer_control == self@.timer_control,
    {
        Ym2612Diag {
            channels: [
                diagnose_channel(&self.channels[0]),
                diagnose_channel(&self.channels[1]),
                diagnose_channel(&self.channels[2]),
                diagnose_channel(&self.channels[3]),
                diagnose_channel(&self.channels[4]),
                diagnose_channel(&self.channels[5]),
            ],
            dac_enabled: self.dac_enabled,
            lfo_enabled: self.lfo_enabled,
            lfo_frequency: self.lfo_frequency,
            timer_control: self.timer_control,
        }
    }
}

} // verus!
