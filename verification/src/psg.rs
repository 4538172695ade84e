//! SN76489 PSG (Programmable Sound Generator).
//!
//! Three square-wave tone channels with 10-bit period dividers and one noise
//! channel driven by a 16-bit linear-feedback shift register, each with a
//! 4-bit attenuation (0 = loudest, 15 = silent).
use vstd::prelude::*;

verus! {

/// Amplitude of each attenuation step (2 dB apart) in thousandths of full
/// scale. Index 0 is maximum volume, index 15 is silent.
pub const VOLUME_TABLE: [u16; 16] = [
    1000,
    794,
    631,
    501,
    398,
    316,
    251,
    200,
    158,
    126,
    100,
    79,
    63,
    50,
    40,
    0,
];

/// SN76489 Programmable Sound Generator.
///
/// [`Psg::write`] takes a register byte, [`Psg::clock_tick`] advances one PSG
/// clock, and [`Psg::level`] gives what each channel puts out.
#[derive(Debug, Clone, Copy, PartialEq)]
pub struct Psg {
    /// 10-bit period registers for tone channels 0-2.
    pub tone_period: [u16; 3],
    /// Current countdown counters for tone channels.
    pub tone_counter: [u16; 3],
    /// Current output polarity for tone channels (true = +1, false = -1).
    pub tone_polarity: [bool; 3],
    /// 4-bit attenuation per channel. Index 3 is noise.
    pub volume: [u8; 4],
    /// 16-bit noise shift register.
    pub noise_shift: u16,
    /// Noise mode: `false` = periodic, `true` = white noise.
    pub noise_mode: bool,
    /// Noise rate selector (0-3). Rate 3 uses tone channel 2's period.
    pub noise_rate: u8,
    /// Current countdown counter for the noise channel.
    pub noise_counter: u16,
    /// Toggles with every reload of the noise counter.
    pub noise_polarity: bool,
    /// Last latched channel (0-3, where 3 = noise).
    pub latch_channel: u8,
    /// Whether the latched register is volume (`true`) or tone/noise (`false`).
    pub latch_is_volume: bool,
    /// Input clock divider.
    pub clock_divider: u8,
}

/// Mathematical model of the PSG.
#[verifier::ext_equal]
pub ghost struct PsgState {
    pub tone_period: Seq<u16>,
    pub tone_counter: Seq<u16>,
    pub tone_polarity: Seq<bool>,
    pub volume: Seq<u8>,
    pub noise_shift: u16,
    pub noise_mode: bool,
    pub noise_rate: u8,
    pub noise_counter: u16,
    pub noise_polarity: bool,
    pub latch_channel: u8,
    pub latch_is_volume: bool,
    pub clock_divider: u8,
}

impl View for Psg {
    type V = PsgState;

    open spec fn view(&self) -> PsgState {
        PsgState {
            tone_period: self.tone_period@,
            tone_counter: self.tone_counter@,
            tone_polarity: self.tone_polarity@,
            volume: self.volume@,
            noise_shift: self.noise_shift,
            noise_mode: self.noise_mode,
            noise_rate: self.noise_rate,
            noise_counter: self.noise_counter,
            noise_polarity: self.noise_polarity,
            latch_channel: self.latch_channel,
            latch_is_volume: self.latch_is_volume,
            clock_divider: self.clock_divider,
        }
    }
}

impl PsgState {
    /// The latched channel is one of the four, and volumes are table indices.
    pub open spec fn wf(self) -> bool {
        &&& self.latch_channel < 4
        &&& self.volume.len() == 4
        &&& forall|i: int| 0 <= i < 4 ==> self.volume[i] < 16
    }
}

/// The power-on PSG: silent, everything else zero but the noise seed.
pub open spec fn power_on_psg() -> PsgState {
    PsgState {
        tone_period: Seq::new(3, |i: int| 0u16),
        tone_counter: Seq::new(3, |i: int| 0u16),
        tone_polarity: Seq::new(3, |i: int| false),
        volume: Seq::new(4, |i: int| 15u8),
        noise_shift: 0x8000,
        noise_mode: false,
        noise_rate: 0,
        noise_counter: 0,
        noise_polarity: false,
        latch_channel: 0,
        latch_is_volume: false,
        clock_divider: 0,
    }
}

/// The PSG after the noise control register is written: rate in bits 1-0, mode
/// in bit 2; the shift register is seeded again.
pub open spec fn with_noise_control(s: PsgState, data: u8) -> PsgState {
    PsgState {
        noise_rate: data % 4,
        noise_mode: (data / 4) % 2 == 1,
        noise_shift: 0x8000,
        ..s
    }
}

/// The PSG after a register byte. A byte with bit 7 set latches a channel (bits
/// 6-5) and register (bit 4: volume) and writes its low four bits; other bytes
/// write six bits to the latched register. A tone period gets its low four bits
/// from latch bytes and its high six from data bytes.
pub open spec fn psg_write(s: PsgState, val: u8) -> PsgState {
    if val >= 0x80 {
        let ch = (val / 32) % 4;
        let data = val % 16;
        let s1 = PsgState { latch_channel: ch, latch_is_volume: (val / 16) % 2 == 1, ..s };
        if s1.latch_is_volume {
            PsgState { volume: s1.volume.update(ch as int, data), ..s1 }
        } else if ch == 3 {
            with_noise_control(s1, data)
        } else {
            let high = (s1.tone_period[ch as int] / 16) % 64;
            PsgState {
                tone_period: s1.tone_period.update(ch as int, (high * 16 + data) as u16),
                ..s1
            }
        }
    } else {
        let ch = s.latch_channel;
        let data = val % 64;
        if s.latch_is_volume {
            PsgState { volume: s.volume.update(ch as int, data % 16), ..s }
        } else if ch == 3 {
            with_noise_control(s, data)
        } else {
            let low = s.tone_period[ch as int] % 16;
            PsgState {
                tone_period: s.tone_period.update(ch as int, (data * 16 + low) as u16),
                ..s
            }
        }
    }
}

/// The PSG after one clock of tone channel `ch`: the counter runs down and, at
/// zero, reloads and inverts the output. Period 0 holds the output high.
pub open spec fn tone_ticked(s: PsgState, ch: int) -> PsgState {
    if s.tone_period[ch] == 0 {
        PsgState { tone_polarity: s.tone_polarity.update(ch, true), ..s }
    } else if s.tone_counter[ch] == 0 {
        PsgState {
            tone_counter: s.tone_counter.update(ch, s.tone_period[ch]),
            tone_polarity: s.tone_polarity.update(ch, !s.tone_polarity[ch]),
            ..s
        }
    } else {
        PsgState {
            tone_counter: s.tone_counter.update(ch, (s.tone_counter[ch] - 1) as u16),
            ..s
        }
    }
}

/// Reload value of the noise counter: 16, 32, 64, or the period of tone channel
/// 2 (at least 1).
pub open spec fn noise_period(s: PsgState) -> u16 {
    if s.noise_rate == 0 {
        0x10
    } else if s.noise_rate == 1 {
        0x20
    } else if s.noise_rate == 2 {
        0x40
    } else if s.tone_period[2] == 0 {
        1
    } else {
        s.tone_period[2]
    }
}

/// The shift register one step on: the bit that enters at the top is bit 0, or
/// bit 0 exclusive-or bit 3 for white noise.
pub open spec fn shifted(shift: u16, white: bool) -> u16 {
    let bit0 = shift % 2 == 1;
    let bit3 = (shift / 8) % 2 == 1;
    let feedback = if white {
        bit0 != bit3
    } else {
        bit0
    };
    if feedback {
        (shift / 2 + 0x8000) as u16
    } else {
        shift / 2
    }
}

/// The PSG after one clock of the noise channel: the shift register advances on
/// every reload of the counter.
pub open spec fn noise_ticked(s: PsgState) -> PsgState {
    if s.noise_counter == 0 {
        PsgState {
            noise_counter: noise_period(s),
            noise_polarity: !s.noise_polarity,
            noise_shift: shifted(s.noise_shift, s.noise_mode),
            ..s
        }
    } else {
        PsgState { noise_counter: (s.noise_counter - 1) as u16, ..s }
    }
}

/// The PSG after one clock.
pub open spec fn psg_ticked(s: PsgState) -> PsgState {
    noise_ticked(tone_ticked(tone_ticked(tone_ticked(s, 0), 1), 2))
}

/// What channel `ch` puts out, in thousandths: its amplitude with the sign of
/// its polarity (of bit 0 of the shift register, for noise).
pub open spec fn channel_level(s: PsgState, ch: int) -> int {
    let amplitude = VOLUME_TABLE@[s.volume[ch] as int] as int;
    let high = if ch == 3 {
        s.noise_shift % 2 == 1
    } else {
        s.tone_polarity[ch]
    };
    if high {
        amplitude
    } else {
        -amplitude
    }
}

impl Psg {
    /// Whether the latched channel is one of the four and the volumes are table
    /// indices.
    #[must_use]
    pub fn is_well_formed(&self) -> (r: bool)
        ensures
            r == self@.wf(),
    {
        self.latch_channel < 4 && self.volume[0] < 16 && self.volume[1] < 16 && self.volume[2] < 16
            && self.volume[3] < 16
    }

    /// Creates a PSG in its power-on state.
    pub fn new() -> (r: Self)
        ensures
            r@ == power_on_psg(),
            r@.wf(),
    {
        let r = Psg {
            tone_period: [0u16;3],
            tone_counter: [0u16;3],
            tone_polarity: [false;3],
            volume: [15u8;4],
            noise_shift: 0x8000,
            noise_mode: false,
            noise_rate: 0,
            noise_counter: 0,
            noise_polarity: false,
            latch_channel: 0,
            latch_is_volume: false,
            clock_divider: 0,
        };
        assert(r@ =~= power_on_psg());
        r
    }

    /// Writes the noise control register.
    fn write_noise_control(&mut self, data: u8)
        ensures
            final(self)@ == with_noise_control(old(self)@, data),
    {
        self.noise_rate = data % 4;
        self.noise_mode = (data / 4) % 2 == 1;
        self.noise_shift = 0x8000;
    }

    /// Writes a register byte to the PSG: a latch byte (bit 7 set) selects a
    /// channel and register, a data byte goes to the latched register.
    pub fn write(&mut self, val: u8)
        requires
            old(self)@.wf(),
        ensures
            final(self)@ == psg_write(old(self)@, val),
            final(self)@.wf(),
    {
        if val >= 0x80 {
            self.latch_channel = (val / 32) % 4;
            self.latch_is_volume = (val / 16) % 2 == 1;
            let data: u8 = val % 16;
            let ch: usize = self.latch_channel as usize;
            if self.latch_is_volume {
                self.volume[ch] = data;
            } else if ch == 3 {
                self.write_noise_control(data);
            } else {
                let high: u16 = (self.tone_period[ch] / 16) % 64;
                self.tone_period[ch] = high * 16 + data as u16;
            }
        } else {
            let data: u8 = val % 64;
            let ch: usize = self.latch_channel as usize;
            if self.latch_is_volume {
                self.volume[ch] = data % 16;
            } else if ch == 3 {
                self.write_noise_control(data);
            } else {
                let low: u16 = self.tone_period[ch] % 16;
                self.tone_period[ch] = data as u16 * 16 + low;
            }
        }
    }

    /// Advances one tone channel by one clock.
    fn tick_tone(&mut self, ch: usize)
        requires
            ch < 3,
        ensures
            final(self)@ == tone_ticked(old(self)@, ch as int),
    {
        if self.tone_period[ch] == 0 {
            self.tone_polarity[ch] = true;
        } else if self.tone_counter[ch] == 0 {
            self.tone_counter[ch] = self.tone_period[ch];
            self.tone_polarity[ch] = !self.tone_polarity[ch];
        } else {
            self.tone_counter[ch] = self.tone_counter[ch] - 1;
        }
    }

    /// Advances the noise channel by one clock.
    fn tick_noise(&mut self)
        ensures
            final(self)@ == noise_ticked(old(self)@),
    {
        if self.noise_counter == 0 {
            self.noise_counter =
            if self.noise_rate == 0 {
                0x10
            } else if self.noise_rate == 1 {
                0x20
            } else if self.noise_rate == 2 {
                0x40
            } else if self.tone_period[2] == 0 {
                1
            } else {
                self.tone_period[2]
            };
            self.noise_polarity = !self.noise_polarity;
            let shift: u16 = self.noise_shift;
            let bit0: bool = shift % 2 == 1;
            let bit3: bool = (shift / 8) % 2 == 1;
            let feedback: bool = if self.noise_mode {
                bit0 != bit3
            } else {
                bit0
            };
            self.noise_shift =
            if feedback {
                shift / 2 + 0x8000
            } else {
                shift / 2
            };
        } else {
            self.noise_counter = self.noise_counter - 1;
        }
    }

    /// Advances the PSG by one clock cycle.
    pub fn clock_tick(&mut self)
        ensures
            final(self)@ == psg_ticked(old(self)@),
            old(self)@.wf() ==> final(self)@.wf(),
    {
        self.tick_tone(0);
        self.tick_tone(1);
        self.tick_tone(2);
        self.tick_noise();
    }

    /// Returns what channel `ch` (3 = noise) puts out, in signed thousandths of
    /// full scale.
    pub fn level(&self, ch: usize) -> (r: i32)
        requires
            ch < 4,
            self@.wf(),
        ensures
            r == channel_level(self@, ch as int),
            -1000 <= r <= 1000,
    {
        let table: [u16; 16] = VOLUME_TABLE;
        let amplitude: i32 = table[self.volume[ch] as usize] as i32;
        proof {
            lemma_volume_bounded(self.volume[ch as int]);
        }
        let high: bool = if ch == 3 {
            self.noise_shift % 2 == 1
        } else {
            self.tone_polarity[ch]
        };
        if high {
            amplitude
        } else {
            0 - amplitude
        }
    }

    /// Whether two chips are in the same state.
    pub fn same(&self, other: &Psg) -> (r: bool)
        ensures
            r == (self@ == other@),
    {
        let mut i: usize = 0;
        while i < 3
            invariant
                i <= 3,
                forall|j: int|
                    0 <= j < i ==> self.tone_period@[j] == other.tone_period@[j]
                        && self.tone_counter@[j] == other.tone_counter@[j]
                        && self.tone_polarity@[j] == other.tone_polarity@[j],
            decreases 3 - i,
        {
            if self.tone_period[i] != other.tone_period[i] || self.tone_counter[i]
                != other.tone_counter[i] || self.tone_polarity[i] != other.tone_polarity[i] {
                return false;
            }
            i += 1;
        }
        let mut k: usize = 0;
        while k < 4
            invariant
                k <= 4,
                forall|j: int| 0 <= j < k ==> self.volume@[j] == other.volume@[j],
            decreases 4 - k,
        {
            if self.volume[k] != other.volume[k] {
                return false;
            }
            k += 1;
        }
        assert(self.tone_period@ =~= other.tone_period@);
        assert(self.tone_counter@ =~= other.tone_counter@);
        assert(self.tone_polarity@ =~= other.tone_polarity@);
        assert(self.volume@ =~= other.volume@);
        self.noise_shift == other.noise_shift && self.noise_mode == other.noise_mode
            && self.noise_rate == other.noise_rate && self.noise_counter == other.noise_counter
            && self.noise_polarity == other.noise_polarity && self.latch_channel
            == other.latch_channel && self.latch_is_volume == other.latch_is_volume
            && self.clock_divider == other.clock_divider
    }
}

impl Default for Psg {
    fn default() -> (r: Self)
        ensures
            r@ == power_on_psg(),
    {
        Self::new()
    }
}

/// Amplitudes do not exceed full scale.
proof fn lemma_volume_bounded(v: u8)
    requires
        v < 16,
    ensures
        VOLUME_TABLE@[v as int] <= 1000,
{
}

/// The noise register never runs empty, so noise never dies out.
pub proof fn law_noise_register_never_empties(shift: u16, white: bool)
    requires
        shift != 0,
    ensures
        shifted(shift, white) != 0,
{
}

/// The fields of a latch byte for a tone period.
proof fn lemma_latch_fields(ch: u8, low: u8)
    requires
        ch < 3,
        low < 16,
    ensures
        0x80 + ch * 32 + low < 256,
        ((0x80 + ch * 32 + low) / 32) % 4 == ch,
        ((0x80 + ch * 32 + low) / 16) % 2 == 0,
        (0x80 + ch * 32 + low) % 16 == low,
{
    if ch == 0 {
    } else if ch == 1 {
    } else {
    }
}

/// Sixteen times a number leaves room for a nibble.
proof fn lemma_sixteenths(high: int, low: int)
    requires
        0 <= low < 16,
        0 <= high,
    ensures
        (high * 16 + low) % 16 == low,
        (high * 16 + low) / 16 == high,
{
}

/// A latch byte and a data byte together write all ten bits of a tone period.
pub proof fn law_tone_period_write(s: PsgState, ch: u8, period: u16)
    requires
        s.tone_period.len() == 3,
        ch < 3,
        period < 1024,
    ensures
        psg_write(
            psg_write(s, (0x80 + ch * 32 + period % 16) as u8),
            (period / 16) as u8,
        ).tone_period == s.tone_period.update(ch as int, period),
{
    lemma_latch_fields(ch, (period % 16) as u8);
    let latched = psg_write(s, (0x80 + ch * 32 + period % 16) as u8);
    let high = (s.tone_period[ch as int] / 16) % 64;
    let low = (period % 16) as u8;
    assert(latched.tone_period[ch as int] == high * 16 + low);
    lemma_sixteenths(high as int, low as int);
    let done = psg_write(latched, (period / 16) as u8);
    assert(latched.latch_channel == ch);
    assert(!latched.latch_is_volume);
    assert(done.tone_period =~= s.tone_period.update(ch as int, period));
}

/// A tone channel toggles once in every `period + 1` clocks: from a fresh reload
/// it counts down without changing its output, then reloads.
pub proof fn law_tone_counts_down(s: PsgState, ch: int)
    requires
        0 <= ch < 3,
        s.tone_period.len() == 3,
        s.tone_counter.len() == 3,
        s.tone_polarity.len() == 3,
        s.tone_period[ch] != 0,
    ensures
        s.tone_counter[ch] > 0 ==> tone_ticked(s, ch).tone_polarity[ch] == s.tone_polarity[ch]
            && tone_ticked(s, ch).tone_counter[ch] == s.tone_counter[ch] - 1,
        s.tone_counter[ch] == 0 ==> tone_ticked(s, ch).tone_polarity[ch] != s.tone_polarity[ch]
            && tone_ticked(s, ch).tone_counter[ch] == s.tone_period[ch],
{
}

/// A byte with bit 7 set names a channel and one of its registers, and its low four
/// bits go there: to the volume, to the noise control, or to the low bits of a tone
/// period. All else stays.
pub proof fn law_latch_byte(s: PsgState, ch: u8, volume: bool, data: u8)
    requires
        s.wf(),
        s.tone_period.len() == 3,
        ch < 4,
        data < 16,
    ensures
        ({
            let kind: int = if volume {
                16
            } else {
                0
            };
            let t = psg_write(s, (0x80 + 32 * ch + kind + data) as u8);
            let latched = PsgState { latch_channel: ch, latch_is_volume: volume, ..s };
            &&& volume ==> t == (PsgState { volume: s.volume.update(ch as int, data), ..latched })
            &&& !volume && ch == 3 ==> t == (PsgState {
                noise_rate: data % 4,
                noise_mode: data % 8 >= 4,
                noise_shift: 0x8000,
                ..latched
            })
            &&& !volume && ch < 3 ==> {
                &&& t.tone_period[ch as int] % 16 == data
                &&& t.tone_period[ch as int] / 16 == s.tone_period[ch as int] / 16 % 64
                &&& t == (PsgState {
                    tone_period: s.tone_period.update(ch as int, t.tone_period[ch as int]),
                    ..latched
                })
            }
        }),
{
    if ch == 0 {
    } else if ch == 1 {
    } else if ch == 2 {
    } else {
    }
}

/// A byte with bit 7 clear goes to the register named last: its low four bits to a
/// volume, its low three to the noise control, six bits to the top of a tone period.
pub proof fn law_data_byte(s: PsgState, data: u8)
    requires
        s.wf(),
        s.tone_period.len() == 3,
        data < 0x80,
    ensures
        ({
            let t = psg_write(s, data);
            let ch = s.latch_channel as int;
            &&& s.latch_is_volume ==> t == (PsgState {
                volume: s.volume.update(ch, data % 16),
                ..s
            })
            &&& !s.latch_is_volume && ch == 3 ==> t == (PsgState {
                noise_rate: data % 4,
                noise_mode: data % 8 >= 4,
                noise_shift: 0x8000,
                ..s
            })
            &&& !s.latch_is_volume && ch < 3 ==> {
                &&& t.tone_period[ch] / 16 == data % 64
                &&& t.tone_period[ch] % 16 == s.tone_period[ch] % 16
                &&& t == (PsgState {
                    tone_period: s.tone_period.update(ch, t.tone_period[ch]),
                    ..s
                })
            }
        }),
{
}

/// The PSG after `n` clocks.
pub open spec fn psg_run(s: PsgState, n: nat) -> PsgState
    decreases n,
{
    if n == 0 {
        s
    } else {
        psg_ticked(psg_run(s, (n - 1) as nat))
    }
}

/// One clock advances each tone channel by itself and leaves the registers alone.
pub proof fn law_channels_run_apart(s: PsgState, ch: int)
    requires
        0 <= ch < 3,
        s.tone_period.len() == 3,
        s.tone_counter.len() == 3,
        s.tone_polarity.len() == 3,
    ensures
        ({
            let t = psg_ticked(s);
            &&& t.tone_counter[ch] == tone_ticked(s, ch).tone_counter[ch]
            &&& t.tone_polarity[ch] == tone_ticked(s, ch).tone_polarity[ch]
            &&& t.noise_counter == noise_ticked(s).noise_counter
            &&& t.noise_shift == noise_ticked(s).noise_shift
            &&& t.noise_polarity == noise_ticked(s).noise_polarity
            &&& t.tone_period == s.tone_period
            &&& t.volume == s.volume
            &&& t.noise_rate == s.noise_rate
            &&& t.noise_mode == s.noise_mode
            &&& t.latch_channel == s.latch_channel
            &&& t.latch_is_volume == s.latch_is_volume
            &&& t.tone_counter.len() == 3
            &&& t.tone_polarity.len() == 3
        }),
{
}

/// A tone is a square wave: the output stands for as many clocks as the counter
/// holds, and turns over with the next, when the counter takes the period again. So
/// a half-wave lasts one clock more than the period.
pub proof fn law_square_wave(s: PsgState, ch: int, n: nat)
    requires
        0 <= ch < 3,
        s.tone_period.len() == 3,
        s.tone_counter.len() == 3,
        s.tone_polarity.len() == 3,
        s.tone_period[ch] != 0,
        n <= s.tone_counter[ch] + 1,
    ensures
        ({
            let t = psg_run(s, n);
            &&& n <= s.tone_counter[ch] ==> t.tone_polarity[ch] == s.tone_polarity[ch]
                && t.tone_counter[ch] == s.tone_counter[ch] - n
            &&& n == s.tone_counter[ch] + 1 ==> t.tone_polarity[ch] != s.tone_polarity[ch]
                && t.tone_counter[ch] == s.tone_period[ch]
            &&& t.tone_period == s.tone_period
            &&& t.tone_counter.len() == 3
            &&& t.tone_polarity.len() == 3
        }),
    decreases n,
{
    if n > 0 {
        let m = (n - 1) as nat;
        law_square_wave(s, ch, m);
        law_channels_run_apart(psg_run(s, m), ch);
    }
}

/// A tone of period 0 stands high.
pub proof fn law_zero_period_is_high(s: PsgState, ch: int)
    requires
        0 <= ch < 3,
        s.tone_period.len() == 3,
        s.tone_counter.len() == 3,
        s.tone_polarity.len() == 3,
        s.tone_period[ch] == 0,
    ensures
        psg_ticked(s).tone_polarity[ch],
{
}

/// The noise register after `n` steps.
pub open spec fn noise_steps(shift: u16, white: bool, n: nat) -> u16
    decreases n,
{
    if n == 0 {
        shift
    } else {
        shifted(noise_steps(shift, white, (n - 1) as nat), white)
    }
}

/// The noise register moves down by one bit, and the bit that comes in at the top is
/// the lowest one, for white noise combined with bit 3.
pub proof fn law_noise_shifts_down(shift: u16, white: bool)
    ensures
        shifted(shift, white) as int % 0x8000 == shift as int / 2,
        (shifted(shift, white) >= 0x8000) == ((shift as int + if white {
            shift as int / 8
        } else {
            0
        }) % 2 == 1),
{
}

/// Periodic noise repeats every 16 steps: bit `n` of the register is put out after
/// `n` of them.
pub proof fn law_periodic_noise_repeats(shift: u16, n: nat)
    requires
        n <= 16,
    ensures
        ({
            let p = vstd::arithmetic::power2::pow2(n) as int;
            let q = vstd::arithmetic::power2::pow2((16 - n) as nat) as int;
            noise_steps(shift, false, n) as int == shift as int / p + (shift as int % p) * q
        }),
        noise_steps(shift, false, 16) == shift,
    decreases n,
{
    vstd::arithmetic::power2::lemma2_to64();
    lemma_periodic_noise(shift, n);
    lemma_periodic_noise(shift, 16);
    assert(vstd::arithmetic::power2::pow2(0) == 1);
    let one = vstd::arithmetic::power2::pow2((16 - 16) as nat) as int;
    assert(one == 1);
    assert(shift as int / 0x1_0000 == 0 && shift as int % 0x1_0000 == shift);
    assert((shift as int % 0x1_0000) * one == shift) by (nonlinear_arith)
        requires
            one == 1,
            shift as int % 0x1_0000 == shift,
    ;
}

/// The register after some steps of periodic noise: it is rotated.
proof fn lemma_periodic_noise(shift: u16, n: nat)
    requires
        n <= 16,
    ensures
        ({
            let p = vstd::arithmetic::power2::pow2(n) as int;
            let q = vstd::arithmetic::power2::pow2((16 - n) as nat) as int;
            noise_steps(shift, false, n) as int == shift as int / p + (shift as int % p) * q
        }),
    decreases n,
{
    vstd::arithmetic::power2::lemma2_to64();
    if n > 0 {
        let m = (n - 1) as nat;
        lemma_periodic_noise(shift, m);
        let p = vstd::arithmetic::power2::pow2(m) as int;
        let q = vstd::arithmetic::power2::pow2((16 - n) as nat) as int;
        vstd::arithmetic::power2::lemma_pow2_unfold(n);
        vstd::arithmetic::power2::lemma_pow2_unfold((16 - m) as nat);
        vstd::arithmetic::power2::lemma_pow2_adds(m, (16 - n) as nat);
        vstd::arithmetic::power2::lemma_pow2_pos(m);
        vstd::arithmetic::power2::lemma_pow2_pos((16 - n) as nat);
        lemma_rotated(shift as int, p, q);
        let x = noise_steps(shift, false, m);
        assert(shifted(x, false) as int == x as int / 2 + (x as int % 2) * 0x8000);
        assert(noise_steps(shift, false, n) == shifted(x, false));
        assert(x as int == shift as int / p + (shift as int % p) * (2 * q));
        assert(vstd::arithmetic::power2::pow2(n) as int == 2 * p);
    } else {
        let q = vstd::arithmetic::power2::pow2(16) as int;
        assert(shift as int / 1 == shift && shift as int % 1 == 0);
        assert((shift as int % 1) * q == 0);
    }
}

/// One more bit of a number wraps round.
proof fn lemma_rotated(v: int, p: int, q: int)
    requires
        v >= 0,
        p > 0,
        q > 0,
        p * q == 0x8000,
    ensures
        ({
            let x = v / p + (v % p) * (2 * q);
            x / 2 + (x % 2) * 0x8000 == v / (2 * p) + (v % (2 * p)) * q
        }),
{
    let a = v / p;
    let r = v % p;
    vstd::arithmetic::div_mod::lemma_fundamental_div_mod(v, p);
    vstd::arithmetic::div_mod::lemma_mod_bound(v, p);
    let x = a + r * (2 * q);
    assert(r * (2 * q) == 2 * (r * q)) by (nonlinear_arith);
    assert(x % 2 == a % 2);
    assert(x / 2 == a / 2 + r * q);
    let bit = a % 2;
    assert(v == (2 * p) * (a / 2) + (r + p * bit)) by (nonlinear_arith)
        requires
            v == p * a + r,
            a == 2 * (a / 2) + bit,
    ;
    assert(0 <= r + p * bit < 2 * p) by (nonlinear_arith)
        requires
            0 <= r < p,
            0 <= bit < 2,
    ;
    vstd::arithmetic::div_mod::lemma_fundamental_div_mod_converse(v, 2 * p, a / 2, r + p * bit);
    assert((r + p * bit) * q == r * q + bit * 0x8000) by (nonlinear_arith)
        requires
            p * q == 0x8000,
    ;
}

/// The noise counter takes 16, 32 or 64, or follows the third tone; the register
/// moves with each of its reloads.
pub proof fn law_noise_rates(s: PsgState)
    requires
        s.noise_rate < 4,
        s.tone_period.len() == 3,
    ensures
        ({
            let t = noise_ticked(s);
            &&& s.noise_counter > 0 ==> t.noise_counter == s.noise_counter - 1 && t.noise_shift
                == s.noise_shift
            &&& s.noise_counter == 0 ==> t.noise_shift == shifted(s.noise_shift, s.noise_mode)
            &&& s.noise_counter == 0 && s.noise_rate < 3 ==> t.noise_counter as int == 16
                * vstd::arithmetic::power2::pow2(s.noise_rate as nat) as int
            &&& s.noise_counter == 0 && s.noise_rate == 3 && s.tone_period[2] > 0
                ==> t.noise_counter == s.tone_period[2]
        }),
{
    vstd::arithmetic::power2::lemma2_to64();
}

/// What a channel puts out is its amplitude, up or down by its output bit. One step
/// of attenuation takes a fifth off (2 dB), three steps halve it, and step 15 is
/// silent.
pub proof fn law_attenuation(s: PsgState, ch: int)
    requires
        s.wf(),
        0 <= ch < 4,
        s.tone_polarity.len() == 3,
    ensures
        ({
            let l = channel_level(s, ch);
            let v = s.volume[ch];
            let high = if ch == 3 {
                s.noise_shift % 2 == 1
            } else {
                s.tone_polarity[ch]
            };
            &&& high ==> l >= 0
            &&& !high ==> l <= 0
            &&& v == 0 ==> l == 1000 || l == -1000
            &&& v == 15 ==> l == 0
            &&& v < 14 ==> ({
                let quieter = channel_level(
                    PsgState { volume: s.volume.update(ch, (v + 1) as u8), ..s },
                    ch,
                );
                -1000 <= 1000 * quieter - 794 * l <= 1000
            })
            &&& v < 12 ==> ({
                let half = channel_level(
                    PsgState { volume: s.volume.update(ch, (v + 3) as u8), ..s },
                    ch,
                );
                -2 <= 2 * half - l <= 2
            })
        }),
{
    let v = s.volume[ch];
    assert(VOLUME_TABLE@[0] == 1000 && VOLUME_TABLE@[1] == 794 && VOLUME_TABLE@[2] == 631
        && VOLUME_TABLE@[3] == 501 && VOLUME_TABLE@[4] == 398 && VOLUME_TABLE@[5] == 316
        && VOLUME_TABLE@[6] == 251 && VOLUME_TABLE@[7] == 200 && VOLUME_TABLE@[8] == 158
        && VOLUME_TABLE@[9] == 126 && VOLUME_TABLE@[10] == 100 && VOLUME_TABLE@[11] == 79
        && VOLUME_TABLE@[12] == 63 && VOLUME_TABLE@[13] == 50 && VOLUME_TABLE@[14] == 40
        && VOLUME_TABLE@[15] == 0);
}

} // verus!
