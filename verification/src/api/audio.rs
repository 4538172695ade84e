//! The audio timeline: sound chips clocked at their native rates on the master
//! clock, with the traced register writes replayed at their ticks.
//!
//! The timeline is exact: it is made of integers only. It turns an interval of
//! master ticks into a list of events, from which a mixer renders the output.
use vstd::prelude::*;

use crate::api::state::{TimedPsgWrite, TimedYm2612Write};
use crate::psg::{channel_level, power_on_psg, psg_ticked, psg_write, Psg, PsgState};
use crate::ym2612::{
    address_written, chip_sampled, chip_samples, data_written, power_on_ym, Ym2612, YmState,
};

verus! {

/// YM2612 audio clock period in master-clock ticks.
pub const YM_AUDIO_TICKS: u64 = 1008;

/// PSG audio clock period in master-clock ticks.
pub const PSG_AUDIO_TICKS: u64 = 240;

/// Last tick up to which the timeline can run: beyond it the sample counter
/// could overflow at the highest sample rates.
pub const MAX_AUDIO_TICK: u64 = 0x0200_0000_0000_0000;

/// What happens on the audio timeline.
#[derive(Debug, Clone, Copy, PartialEq)]
pub enum AudioEvent {
    /// The timeline starts over: filters and windows are cleared.
    Restart,
    /// A native YM2612 sample: left and right of each channel.
    Ym([(i32, i32); 6]),
    /// A native PSG sample: the level of each channel in thousandths.
    Psg { tone1: i32, tone2: i32, tone3: i32, noise: i32 },
    /// A write has panned a YM2612 channel hard: to one side, or off.
    Pan { channel: u8, mask: u8 },
    /// An output sample is due.
    Output,
}

/// Mathematical model of an audio event.
#[verifier::ext_equal]
pub ghost enum EventState {
    Restart,
    Ym(Seq<(i32, i32)>),
    Psg { tone1: i32, tone2: i32, tone3: i32, noise: i32 },
    Pan { channel: u8, mask: u8 },
    Output,
}

impl View for AudioEvent {
    type V = EventState;

    open spec fn view(&self) -> EventState {
        match self {
            AudioEvent::Restart => EventState::Restart,
            AudioEvent::Ym(samples) => EventState::Ym(samples@),
            AudioEvent::Psg { tone1, tone2, tone3, noise } => EventState::Psg {
                tone1: *tone1,
                tone2: *tone2,
                tone3: *tone3,
                noise: *noise,
            },
            AudioEvent::Pan { channel, mask } => EventState::Pan {
                channel: *channel,
                mask: *mask,
            },
            AudioEvent::Output => EventState::Output,
        }
    }
}

/// The audio timeline.
#[derive(Debug)]
pub struct AudioTimeline {
    /// PSG state of the audio path.
    pub psg: Psg,
    /// YM2612 state of the audio path.
    pub ym2612: Ym2612,
    /// Tick that audio has been synthesized through.
    pub master_tick: u64,
    /// Output samples since the timeline started over.
    pub output_sample_count: u64,
    /// Tick of the next output sample.
    pub next_output_tick: u64,
    /// Tick of the next native YM2612 sample.
    pub next_ym_tick: u64,
    /// Tick of the next native PSG sample.
    pub next_psg_tick: u64,
    /// Delayed key writes, in the order of their ticks.
    pub pending_key_writes: Vec<TimedYm2612Write>,
    /// Delay of key writes per YM2612 channel, in ticks.
    pub key_delay_ticks: [u64; 6],
    /// Panning bits per YM2612 channel.
    pub pan_masks: [u8; 6],
    /// Output sample rate in Hz (at least 1).
    pub sample_rate: u32,
    /// What has happened since the events were last cleared.
    pub events: Vec<AudioEvent>,
}

/// Mathematical model of the audio timeline.
#[verifier::ext_equal]
pub ghost struct AudioState {
    pub psg: PsgState,
    pub ym2612: YmState,
    pub master_tick: u64,
    pub output_sample_count: u64,
    pub next_output_tick: u64,
    pub next_ym_tick: u64,
    pub next_psg_tick: u64,
    pub pending_key_writes: Seq<TimedYm2612Write>,
    pub key_delay_ticks: Seq<u64>,
    pub pan_masks: Seq<u8>,
    pub sample_rate: u32,
    pub events: Seq<EventState>,
}

/// The models of events.
pub open spec fn events_of(s: Seq<AudioEvent>) -> Seq<EventState> {
    Seq::new(s.len(), |i: int| s[i]@)
}

impl View for AudioTimeline {
    type V = AudioState;

    open spec fn view(&self) -> AudioState {
        AudioState {
            psg: self.psg@,
            ym2612: self.ym2612@,
            master_tick: self.master_tick,
            output_sample_count: self.output_sample_count,
            next_output_tick: self.next_output_tick,
            next_ym_tick: self.next_ym_tick,
            next_psg_tick: self.next_psg_tick,
            pending_key_writes: self.pending_key_writes@,
            key_delay_ticks: self.key_delay_ticks@,
            pan_masks: self.pan_masks@,
            sample_rate: self.sample_rate,
            events: events_of(self.events@),
        }
    }
}

/// Delayed writes come in the order of their ticks.
pub open spec fn writes_ordered(writes: Seq<TimedYm2612Write>) -> bool {
    forall|i: int, j: int|
        #![trigger writes[i], writes[j]]
        0 <= i < j < writes.len() ==> writes[i].master_tick <= writes[j].master_tick
}

/// The master tick of an output sample, rounded to the nearest.
pub open spec fn output_tick(rate: u32, index: int) -> int {
    (index * 53_693_175 + (rate / 2) as int) / (rate as int)
}

impl AudioState {
    /// The chips are well formed, the delayed writes are in order, and the next
    /// output sample is due at its tick.
    pub open spec fn wf(self) -> bool {
        &&& self.psg.wf()
        &&& self.ym2612.wf()
        &&& self.sample_rate >= 1
        &&& self.key_delay_ticks.len() == 6
        &&& self.pan_masks.len() == 6
        &&& writes_ordered(self.pending_key_writes)
        &&& self.next_output_tick == output_tick(self.sample_rate, self.output_sample_count + 1)
    }
}

/// No output sample has been emitted before it is due.
pub open spec fn not_ahead(a: AudioState) -> bool {
    output_tick(a.sample_rate, a.output_sample_count as int) <= a.master_tick
}

/// As many output samples have been emitted as are due: the last one not after
/// the tick reached, the next one after it.
pub open spec fn in_step(a: AudioState) -> bool {
    not_ahead(a) && a.master_tick < a.next_output_tick
}

/// The timeline at tick 0, with the chips as they are.
pub open spec fn timeline_restarted(a: AudioState, ym: YmState, psg: PsgState) -> AudioState {
    AudioState {
        psg,
        ym2612: ym,
        master_tick: 0,
        output_sample_count: 0,
        next_output_tick: output_tick(a.sample_rate, 1) as u64,
        next_ym_tick: 1008,
        next_psg_tick: 240,
        pending_key_writes: Seq::empty(),
        pan_masks: Seq::new(6, |i: int| 0xC0u8),
        events: seq![EventState::Restart],
        ..a
    }
}

/// The timeline of power-on chips.
pub open spec fn fresh_audio(rate: u32) -> AudioState {
    AudioState {
        psg: power_on_psg(),
        ym2612: power_on_ym(),
        master_tick: 0,
        output_sample_count: 0,
        next_output_tick: output_tick(rate, 1) as u64,
        next_ym_tick: 1008,
        next_psg_tick: 240,
        pending_key_writes: Seq::empty(),
        key_delay_ticks: Seq::new(6, |i: int| 0u64),
        pan_masks: Seq::new(6, |i: int| 0xC0u8),
        sample_rate: rate,
        events: seq![EventState::Restart],
    }
}

// ── Register writes ──────────────────────────────────────────────────────

/// The channel whose panning a register holds.
pub open spec fn pan_channel(port: u8, addr: u8) -> Option<int> {
    if 0xB4 <= addr <= 0xB6 && port <= 1 {
        Some(addr - 0xB4 + port * 3)
    } else {
        None
    }
}

/// The channel that a key register write is for.
pub open spec fn keyed_channel(port: u8, addr: u8, value: u8) -> Option<int> {
    let n = (value % 8) as int;
    if port != 0 || addr != 0x28 || n == 3 || n == 7 {
        None
    } else if n < 3 {
        Some(n)
    } else {
        Some(n - 1)
    }
}

/// The position of the first write from `i` on that is later than a tick.
pub open spec fn first_later(writes: Seq<TimedYm2612Write>, tick: u64, i: int) -> int
    decreases writes.len() - i,
{
    if 0 <= i < writes.len() && writes[i].master_tick <= tick {
        first_later(writes, tick, i + 1)
    } else {
        i
    }
}

/// The queue with a write added behind those that are not later.
pub open spec fn queued(
    writes: Seq<TimedYm2612Write>,
    write: TimedYm2612Write,
) -> Seq<TimedYm2612Write> {
    writes.insert(first_later(writes, write.master_tick, 0), write)
}

/// The delay of a write: that of its channel, for key writes.
pub open spec fn write_delay(delays: Seq<u64>, write: TimedYm2612Write) -> u64 {
    match keyed_channel(write.port, write.addr, write.value) {
        Some(channel) => delays[channel],
        None => 0,
    }
}

/// A write with its delay added to its tick. Saturates.
pub open spec fn delayed(write: TimedYm2612Write, delay: u64) -> TimedYm2612Write {
    TimedYm2612Write {
        master_tick: if write.master_tick + delay > u64::MAX {
            u64::MAX
        } else {
            (write.master_tick + delay) as u64
        },
        ..write
    }
}

/// A write handed to the chip of the audio path.
pub open spec fn chip_written(ym: YmState, write: TimedYm2612Write) -> YmState {
    data_written(address_written(ym, write.port, write.addr), write.port, write.value)
}

/// The timeline with the panning that a write sets. Centered panning is no event.
pub open spec fn panned(a: AudioState, write: TimedYm2612Write) -> AudioState {
    match pan_channel(write.port, write.addr) {
        Some(channel) => {
            let mask = (write.value / 0x40 * 0x40) as u8;
            AudioState {
                pan_masks: a.pan_masks.update(channel, mask),
                events: if mask != 0xC0 {
                    a.events.push(EventState::Pan { channel: channel as u8, mask })
                } else {
                    a.events
                },
                ..a
            }
        },
        None => a,
    }
}

/// The timeline after a traced YM2612 write: delayed, or applied at once.
pub open spec fn ym_replayed(a: AudioState, write: TimedYm2612Write) -> AudioState {
    let delay = write_delay(a.key_delay_ticks, write);
    if delay > 0 {
        AudioState {
            pending_key_writes: queued(a.pending_key_writes, delayed(write, delay)),
            ..a
        }
    } else {
        let p = panned(a, write);
        AudioState { ym2612: chip_written(p.ym2612, write), ..p }
    }
}

// ── Steps ────────────────────────────────────────────────────────────────

/// An interval in the making: the timeline, the traced writes of the interval
/// and how many of them have been replayed.
#[verifier::ext_equal]
pub ghost struct Interval {
    pub audio: AudioState,
    pub ym_writes: Seq<TimedYm2612Write>,
    pub psg_writes: Seq<TimedPsgWrite>,
    pub ym_done: int,
    pub psg_done: int,
    pub end: u64,
}

/// What comes next on the timeline.
#[derive(Debug, Clone, Copy, PartialEq, Eq, Structural)]
pub enum AudioStep {
    /// An output sample.
    Output,
    /// A delayed key write.
    Key,
    /// A traced YM2612 write.
    YmWrite,
    /// A traced PSG write.
    PsgWrite,
    /// A native YM2612 sample.
    YmSample,
    /// A native PSG sample.
    PsgSample,
    /// Nothing more in the interval.
    Rest,
}

/// A tick is not after another, where there is one.
pub open spec fn not_after(tick: u64, other: Option<u64>) -> bool {
    match other {
        Some(t) => tick <= t,
        None => true,
    }
}

/// A tick is before another, where there is one.
pub open spec fn before(tick: u64, other: Option<u64>) -> bool {
    match other {
        Some(t) => tick < t,
        None => true,
    }
}

/// The tick of the next write from a position on.
pub open spec fn next_ym_write(s: Interval) -> Option<u64> {
    if 0 <= s.ym_done < s.ym_writes.len() {
        Some(s.ym_writes[s.ym_done].master_tick)
    } else {
        None
    }
}

/// The tick of the next PSG write.
pub open spec fn next_psg_write(s: Interval) -> Option<u64> {
    if 0 <= s.psg_done < s.psg_writes.len() {
        Some(s.psg_writes[s.psg_done].master_tick)
    } else {
        None
    }
}

/// The tick of the first delayed key write.
pub open spec fn next_key_write(s: Interval) -> Option<u64> {
    if s.audio.pending_key_writes.len() > 0 {
        Some(s.audio.pending_key_writes[0].master_tick)
    } else {
        None
    }
}

/// The next traced write is one of the YM2612. It goes first where the ticks are
/// the same.
pub open spec fn ym_write_first(ym: Option<u64>, psg: Option<u64>) -> bool {
    match (ym, psg) {
        (Some(a), Some(b)) => a <= b,
        (None, Some(_)) => false,
        _ => true,
    }
}

/// The ticks among which the next step is chosen.
#[derive(Debug, Clone, Copy, PartialEq, Eq, Structural)]
pub struct Agenda {
    /// Next traced YM2612 write.
    pub ym_write: Option<u64>,
    /// Next traced PSG write.
    pub psg_write: Option<u64>,
    /// First delayed key write.
    pub key_write: Option<u64>,
    /// Next output sample.
    pub output: u64,
    /// Next native YM2612 sample.
    pub ym_sample: u64,
    /// Next native PSG sample.
    pub psg_sample: u64,
    /// End of the interval.
    pub end: u64,
}

/// The agenda of an interval.
pub open spec fn agenda_of(s: Interval) -> Agenda {
    Agenda {
        ym_write: next_ym_write(s),
        psg_write: next_psg_write(s),
        key_write: next_key_write(s),
        output: s.audio.next_output_tick,
        ym_sample: s.audio.next_ym_tick,
        psg_sample: s.audio.next_psg_tick,
        end: s.end,
    }
}

/// The tick of the next traced write.
pub open spec fn next_write(g: Agenda) -> Option<u64> {
    if ym_write_first(g.ym_write, g.psg_write) {
        g.ym_write
    } else {
        g.psg_write
    }
}

/// A write at a tick is due: before the end and the next output sample, and not
/// after the next native samples.
pub open spec fn write_due(g: Agenda, tick: u64) -> bool {
    tick < g.end && tick < g.output && tick <= g.ym_sample && tick <= g.psg_sample
}

/// What comes next: output samples before everything at the same tick, then
/// delayed key writes, traced writes, and native YM2612 and PSG samples. Output
/// samples may fall on the end of the interval, all else comes before it.
pub open spec fn next_step(g: Agenda) -> AudioStep {
    let write = next_write(g);
    if g.output <= g.end && not_after(g.output, write) && not_after(g.output, g.key_write)
        && g.output <= g.ym_sample && g.output <= g.psg_sample {
        AudioStep::Output
    } else if g.key_write is Some && write_due(g, g.key_write->0) && not_after(
        g.key_write->0,
        write,
    ) {
        AudioStep::Key
    } else if write is Some && write_due(g, write->0) {
        if ym_write_first(g.ym_write, g.psg_write) {
            AudioStep::YmWrite
        } else {
            AudioStep::PsgWrite
        }
    } else if g.ym_sample < g.end && g.ym_sample < g.output && before(g.ym_sample, write) && before(
        g.ym_sample,
        g.key_write,
    ) && g.ym_sample <= g.psg_sample {
        AudioStep::YmSample
    } else if g.psg_sample < g.end && g.psg_sample < g.output && before(g.psg_sample, write)
        && before(g.psg_sample, g.key_write) {
        AudioStep::PsgSample
    } else {
        AudioStep::Rest
    }
}

/// The timeline after an output sample.
pub open spec fn output_pushed(a: AudioState) -> AudioState {
    AudioState {
        output_sample_count: (a.output_sample_count + 1) as u64,
        next_output_tick: output_tick(a.sample_rate, a.output_sample_count + 2) as u64,
        events: a.events.push(EventState::Output),
        ..a
    }
}

/// The timeline after the first delayed key write.
pub open spec fn key_released(a: AudioState) -> AudioState {
    AudioState {
        ym2612: chip_written(a.ym2612, a.pending_key_writes[0]),
        pending_key_writes: a.pending_key_writes.remove(0),
        ..a
    }
}

/// The timeline after a native YM2612 sample.
pub open spec fn ym_clocked(a: AudioState) -> AudioState {
    AudioState {
        ym2612: chip_sampled(a.ym2612),
        next_ym_tick: (a.next_ym_tick + 1008) as u64,
        events: a.events.push(EventState::Ym(chip_samples(a.ym2612))),
        ..a
    }
}

/// The event of a PSG sample.
pub open spec fn psg_event(p: PsgState) -> EventState {
    EventState::Psg {
        tone1: channel_level(p, 0) as i32,
        tone2: channel_level(p, 1) as i32,
        tone3: channel_level(p, 2) as i32,
        noise: channel_level(p, 3) as i32,
    }
}

/// The timeline after a native PSG sample.
pub open spec fn psg_clocked(a: AudioState) -> AudioState {
    AudioState {
        psg: psg_ticked(a.psg),
        next_psg_tick: (a.next_psg_tick + 240) as u64,
        events: a.events.push(psg_event(psg_ticked(a.psg))),
        ..a
    }
}

/// An interval after its next step. At rest it stays as it is.
#[verifier::opaque]
pub open spec fn interval_stepped(s: Interval) -> Interval {
    match next_step(agenda_of(s)) {
        AudioStep::Output => Interval { audio: output_pushed(s.audio), ..s },
        AudioStep::Key => Interval { audio: key_released(s.audio), ..s },
        AudioStep::YmWrite => Interval {
            audio: ym_replayed(s.audio, s.ym_writes[s.ym_done]),
            ym_done: s.ym_done + 1,
            ..s
        },
        AudioStep::PsgWrite => Interval {
            audio: AudioState {
                psg: psg_write(s.audio.psg, s.psg_writes[s.psg_done].value),
                ..s.audio
            },
            psg_done: s.psg_done + 1,
            ..s
        },
        AudioStep::YmSample => Interval { audio: ym_clocked(s.audio), ..s },
        AudioStep::PsgSample => Interval { audio: psg_clocked(s.audio), ..s },
        AudioStep::Rest => s,
    }
}

/// An interval after `n` steps.
pub open spec fn interval_run(s: Interval, n: nat) -> Interval
    decreases n,
{
    if n == 0 {
        s
    } else {
        interval_stepped(interval_run(s, (n - 1) as nat))
    }
}

/// Nothing is left to do in an interval.
pub open spec fn at_rest(s: Interval) -> bool {
    next_step(agenda_of(s)) is Rest
}

/// The start of an interval.
pub open spec fn interval_begun(
    a: AudioState,
    ym_writes: Seq<TimedYm2612Write>,
    psg_writes: Seq<TimedPsgWrite>,
    end: u64,
) -> Interval {
    Interval { audio: a, ym_writes, psg_writes, ym_done: 0, psg_done: 0, end }
}

/// An interval brought to rest.
pub open spec fn settled(s: Interval) -> Interval {
    interval_run(s, choose|n: nat| at_rest(#[trigger] interval_run(s, n)))
}

/// The timeline after an interval: its steps until it comes to rest.
#[verifier::opaque]
pub open spec fn synthesized(
    a: AudioState,
    ym_writes: Seq<TimedYm2612Write>,
    psg_writes: Seq<TimedPsgWrite>,
    end: u64,
) -> AudioState {
    AudioState {
        master_tick: end,
        ..settled(interval_begun(a, ym_writes, psg_writes, end)).audio
    }
}

// ── Executable timeline ──────────────────────────────────────────────────

/// The channel whose panning a register holds.
pub fn ym_pan_channel_from_addr(port: u8, addr: u8) -> (r: Option<usize>)
    ensures
        match r {
            Some(channel) => channel < 6 && pan_channel(port, addr) == Some(channel as int),
            None => pan_channel(port, addr) is None,
        },
{
    if 0xB4 <= addr && addr <= 0xB6 && port <= 1 {
        Some((addr - 0xB4) as usize + port as usize * 3)
    } else {
        None
    }
}

/// The channel that a key register write is for.
pub fn ym_key_channel_from_write(port: u8, addr: u8, value: u8) -> (r: Option<usize>)
    ensures
        match r {
            Some(channel) => channel < 6 && keyed_channel(port, addr, value) == Some(
                channel as int,
            ),
            None => keyed_channel(port, addr, value) is None,
        },
{
    let n: usize = (value % 8) as usize;
    if port != 0 || addr != 0x28 || n == 3 || n == 7 {
        None
    } else if n < 3 {
        Some(n)
    } else {
        Some(n - 1)
    }
}

/// Adds a write to a queue, behind those that are not later.
pub fn insert_timed_write_sorted(queue: &mut Vec<TimedYm2612Write>, write: TimedYm2612Write)
    ensures
        final(queue)@ == queued(old(queue)@, write),
        writes_ordered(old(queue)@) ==> writes_ordered(final(queue)@),
{
    let mut at: usize = 0;
    while at < queue.len() && queue[at].master_tick <= write.master_tick
        invariant
            at <= queue@.len(),
            queue@ == old(queue)@,
            first_later(queue@, write.master_tick, at as int) == first_later(
                queue@,
                write.master_tick,
                0,
            ),
            forall|i: int| 0 <= i < at ==> queue@[i].master_tick <= write.master_tick,
        decreases queue@.len() - at,
    {
        at = at + 1;
    }
    queue.insert(at, write);
}

/// Puts a key write off, where its channel has a delay. Returns whether it did.
pub fn maybe_delay_ym_key_write(
    queue: &mut Vec<TimedYm2612Write>,
    key_delay_ticks: [u64; 6],
    write: TimedYm2612Write,
) -> (r: bool)
    ensures
        r == (write_delay(key_delay_ticks@, write) > 0),
        final(queue)@ == if r {
            queued(old(queue)@, delayed(write, write_delay(key_delay_ticks@, write)))
        } else {
            old(queue)@
        },
        writes_ordered(old(queue)@) ==> writes_ordered(final(queue)@),
{
    match ym_key_channel_from_write(write.port, write.addr, write.value) {
        Some(channel) => {
            let delay: u64 = key_delay_ticks[channel];
            if delay == 0 {
                return false;
            }
            let tick: u64 = if write.master_tick > u64::MAX - delay {
                u64::MAX
            } else {
                write.master_tick + delay
            };
            insert_timed_write_sorted(
                queue,
                TimedYm2612Write {
                    master_tick: tick,
                    frame: write.frame,
                    scanline: write.scanline,
                    port: write.port,
                    addr: write.addr,
                    value: write.value,
                },
            );
            true
        },
        None => false,
    }
}

/// Whether a tick is not after another, where there is one.
fn tick_not_after(tick: u64, other: Option<u64>) -> (r: bool)
    ensures
        r == not_after(tick, other),
{
    match other {
        Some(t) => tick <= t,
        None => true,
    }
}

/// Whether a tick is before another, where there is one.
fn tick_before(tick: u64, other: Option<u64>) -> (r: bool)
    ensures
        r == before(tick, other),
{
    match other {
        Some(t) => tick < t,
        None => true,
    }
}

impl Agenda {
    /// Whether the next traced write is one of the YM2612.
    fn ym_first(&self) -> (r: bool)
        ensures
            r == ym_write_first(self.ym_write, self.psg_write),
    {
        match (self.ym_write, self.psg_write) {
            (Some(a), Some(b)) => a <= b,
            (None, Some(_)) => false,
            _ => true,
        }
    }

    /// Whether a write at an optional tick is due.
    fn due(&self, tick: Option<u64>) -> (r: bool)
        ensures
            r == (tick is Some && write_due(*self, tick->0)),
    {
        match tick {
            Some(t) => t < self.end && t < self.output && t <= self.ym_sample && t
                <= self.psg_sample,
            None => false,
        }
    }

    /// Whether one optional tick is there and not after another.
    fn leads(&self, tick: Option<u64>, other: Option<u64>) -> (r: bool)
        ensures
            r == (tick is Some && not_after(tick->0, other)),
    {
        match tick {
            Some(t) => tick_not_after(t, other),
            None => false,
        }
    }

    /// Chooses what comes next.
    pub fn next(&self) -> (r: AudioStep)
        ensures
            r == next_step(*self),
    {
        let ym_first = self.ym_first();
        let write = if ym_first {
            self.ym_write
        } else {
            self.psg_write
        };
        if self.output <= self.end && tick_not_after(self.output, write) && tick_not_after(
            self.output,
            self.key_write,
        ) && self.output <= self.ym_sample && self.output <= self.psg_sample {
            AudioStep::Output
        } else if self.due(self.key_write) && self.leads(self.key_write, write) {
            AudioStep::Key
        } else if self.due(write) {
            if ym_first {
                AudioStep::YmWrite
            } else {
                AudioStep::PsgWrite
            }
        } else if self.ym_sample < self.end && self.ym_sample < self.output && tick_before(
            self.ym_sample,
            write,
        ) && tick_before(self.ym_sample, self.key_write) && self.ym_sample <= self.psg_sample {
            AudioStep::YmSample
        } else if self.psg_sample < self.end && self.psg_sample < self.output && tick_before(
            self.psg_sample,
            write,
        ) && tick_before(self.psg_sample, self.key_write) {
            AudioStep::PsgSample
        } else {
            AudioStep::Rest
        }
    }
}

/// The first output sample is due within the first second.
proof fn lemma_first_output_tick(rate: u32)
    requires
        rate >= 1,
    ensures
        output_tick(rate, 0) == 0,
        0 <= output_tick(rate, 1) <= 53_693_175 + 1,
{
    let r = rate as int;
    let h = (rate / 2) as int;
    assert(h / r == 0) by (nonlinear_arith)
        requires
            r >= 1,
            0 <= h < r,
    ;
    assert(0 <= (53_693_175 + h) / r <= 53_693_175 + 1) by (nonlinear_arith)
        requires
            r >= 1,
            0 <= h <= r,
    ;
}

/// An output sample at or before a tick has a bounded index, and the next one
/// follows within a second.
proof fn lemma_output_tick(rate: u32, index: int, end: u64)
    requires
        rate >= 1,
        index >= 0,
        output_tick(rate, index) <= end,
        end <= MAX_AUDIO_TICK,
    ensures
        index + 2 <= u64::MAX,
        index <= (end + 1) * rate,
        0 <= output_tick(rate, index + 1) <= end + 53_693_175 + 1,
{
    let r = rate as int;
    let h = (rate / 2) as int;
    let e = end as int;
    let n = index * 53_693_175 + h;
    assert(n < (e + 1) * r) by (nonlinear_arith)
        requires
            r >= 1,
            n / r <= e,
    ;
    assert((e + 1) * r <= 0x0200_0000_0000_0001 * 0x1_0000_0000) by (nonlinear_arith)
        requires
            0 <= e <= 0x0200_0000_0000_0000,
            0 <= r <= 0x1_0000_0000,
    ;
    assert(0 <= (n + 53_693_175) / r <= e + 53_693_175 + 1) by (nonlinear_arith)
        requires
            r >= 1,
            0 <= n < (e + 1) * r,
    ;
    assert((index + 1) * 53_693_175 + h == n + 53_693_175);
}

/// An interval comes to rest only when nothing in it is due: no output sample up
/// to its end, and no write and no native sample before.
pub proof fn law_rest_is_complete(g: Agenda)
    ensures
        next_step(g) is Rest <==> g.output > g.end && g.ym_sample >= g.end && g.psg_sample >= g.end
            && (g.key_write matches Some(t) ==> t >= g.end) && (next_write(g) matches Some(t) ==> t
            >= g.end),
{
}

/// The number of output samples emitted up to a tick is settled: it is the index
/// of the last sample that is due.
pub proof fn law_output_sample_count(a: AudioState, b: AudioState)
    requires
        a.wf(),
        b.wf(),
        in_step(a),
        in_step(b),
        a.sample_rate == b.sample_rate,
        a.master_tick == b.master_tick,
    ensures
        a.output_sample_count == b.output_sample_count,
{
    if a.output_sample_count < b.output_sample_count {
        lemma_output_ticks_ordered(
            a.sample_rate,
            a.output_sample_count + 1,
            b.output_sample_count as int,
        );
    }
    if b.output_sample_count < a.output_sample_count {
        lemma_output_ticks_ordered(
            a.sample_rate,
            b.output_sample_count + 1,
            a.output_sample_count as int,
        );
    }
}

/// Later output samples are due no earlier.
proof fn lemma_output_ticks_ordered(rate: u32, i: int, j: int)
    requires
        rate >= 1,
        i <= j,
    ensures
        output_tick(rate, i) <= output_tick(rate, j),
{
    let r = rate as int;
    let h = (rate / 2) as int;
    let a = i * 53_693_175 + h;
    let b = j * 53_693_175 + h;
    assert(a / r <= b / r) by (nonlinear_arith)
        requires
            a <= b,
            r >= 1,
    ;
}

/// Two runs that both come to rest end alike.
proof fn lemma_rest_is_unique(s: Interval, m: nat, n: nat)
    requires
        m <= n,
        at_rest(interval_run(s, m)),
    ensures
        interval_run(s, n) == interval_run(s, m),
    decreases n,
{
    if n > m {
        lemma_rest_is_unique(s, m, (n - 1) as nat);
        reveal(interval_stepped);
    }
}

/// A run that has come to rest is the settled interval.
proof fn lemma_settled(s: Interval, n: nat)
    requires
        at_rest(interval_run(s, n)),
    ensures
        settled(s) == interval_run(s, n),
        at_rest(settled(s)),
{
    let m = choose|m: nat| at_rest(#[trigger] interval_run(s, m));
    if m <= n {
        lemma_rest_is_unique(s, m, n);
    } else {
        lemma_rest_is_unique(s, n, m);
    }
}

/// What is still to do in an interval.
spec fn work_left(s: Interval) -> int {
    let most = (s.end + 1) * s.audio.sample_rate;
    let outputs = if most > s.audio.output_sample_count {
        most - s.audio.output_sample_count
    } else {
        0
    };
    let ym = if s.end > s.audio.next_ym_tick {
        s.end - s.audio.next_ym_tick
    } else {
        0
    };
    let psg = if s.end > s.audio.next_psg_tick {
        s.end - s.audio.next_psg_tick
    } else {
        0
    };
    outputs + ym + psg + 2 * (s.ym_writes.len() - s.ym_done) + (s.psg_writes.len() - s.psg_done)
        + s.audio.pending_key_writes.len()
}

impl AudioTimeline {
    /// Creates a timeline of power-on chips at the given sample rate.
    #[must_use]
    pub fn new(sample_rate: u32) -> (r: Self)
        ensures
            r@ == fresh_audio(
                if sample_rate == 0 {
                    1
                } else {
                    sample_rate
                },
            ),
            r@.wf(),
            not_ahead(r@),
    {
        let ym2612 = Ym2612::new();
        let psg = Psg::new();
        let rate: u32 = if sample_rate == 0 {
            1
        } else {
            sample_rate
        };
        let mut r = AudioTimeline {
            psg,
            ym2612: ym2612.clone(),
            master_tick: 0,
            output_sample_count: 0,
            next_output_tick: 0,
            next_ym_tick: YM_AUDIO_TICKS,
            next_psg_tick: PSG_AUDIO_TICKS,
            pending_key_writes: Vec::new(),
            key_delay_ticks: [0u64; 6],
            pan_masks: [0xC0u8; 6],
            sample_rate: rate,
            events: Vec::new(),
        };
        assert(r@.key_delay_ticks =~= Seq::new(6, |i: int| 0u64));
        r.restart(&ym2612, &psg);
        r
    }

    /// The master tick of an output sample.
    fn output_tick_for_sample(&self, index: u64) -> (r: u64)
        requires
            self@.sample_rate >= 1,
            output_tick(self@.sample_rate, index as int) <= u64::MAX,
        ensures
            r == output_tick(self@.sample_rate, index as int),
    {
        let rate: u128 = self.sample_rate as u128;
        let n: u128 = index as u128 * 53_693_175 + (self.sample_rate / 2) as u128;
        (n / rate) as u64
    }

    /// Starts the timeline over at tick 0 with the chips as they are.
    pub fn restart(&mut self, ym2612: &Ym2612, psg: &Psg)
        requires
            old(self)@.sample_rate >= 1,
            ym2612@.wf(),
            psg@.wf(),
        ensures
            final(self)@ == timeline_restarted(old(self)@, ym2612@, psg@),
            final(self)@.wf(),
            not_ahead(final(self)@),
    {
        proof {
            lemma_first_output_tick(self.sample_rate);
        }
        self.psg = *psg;
        self.ym2612 = ym2612.clone();
        self.master_tick = 0;
        self.output_sample_count = 0;
        self.next_output_tick = self.output_tick_for_sample(1);
        self.next_ym_tick = YM_AUDIO_TICKS;
        self.next_psg_tick = PSG_AUDIO_TICKS;
        self.pending_key_writes = Vec::new();
        self.pan_masks = [0xC0u8; 6];
        self.events = Vec::new();
        self.events.push(AudioEvent::Restart);
        assert(self@ =~= timeline_restarted(old(self)@, ym2612@, psg@));
    }

    /// Sets the output sample rate (at least 1 Hz) and starts over.
    pub fn set_sample_rate(&mut self, rate: u32, ym2612: &Ym2612, psg: &Psg)
        requires
            ym2612@.wf(),
            psg@.wf(),
        ensures
            final(self)@ == timeline_restarted(
                (AudioState {
                    sample_rate: if rate == 0 {
                        1
                    } else {
                        rate
                    },
                    ..old(self)@
                }),
                ym2612@,
                psg@,
            ),
            final(self)@.wf(),
            not_ahead(final(self)@),
    {
        self.sample_rate = if rate == 0 {
            1
        } else {
            rate
        };
        self.restart(ym2612, psg);
    }

    /// Sets the delays of key writes and starts over.
    pub fn set_key_delays(&mut self, delays: [u64; 6], ym2612: &Ym2612, psg: &Psg)
        requires
            old(self)@.sample_rate >= 1,
            ym2612@.wf(),
            psg@.wf(),
        ensures
            final(self)@ == timeline_restarted(
                (AudioState { key_delay_ticks: delays@, ..old(self)@ }),
                ym2612@,
                psg@,
            ),
            final(self)@.wf(),
            not_ahead(final(self)@),
    {
        self.key_delay_ticks = delays;
        self.restart(ym2612, psg);
    }

    /// Forgets the events so far.
    pub fn clear_events(&mut self)
        ensures
            final(self)@ == (AudioState { events: Seq::empty(), ..old(self)@ }),
            old(self)@.wf() ==> final(self)@.wf(),
    {
        self.events = Vec::new();
        assert(events_of(self.events@) =~= Seq::empty());
    }

    /// Adds an event.
    fn push_event(&mut self, event: AudioEvent)
        ensures
            final(self)@ == (AudioState {
                events: old(self)@.events.push(event@),
                ..old(self)@
            }),
    {
        self.events.push(event);
        assert(events_of(self.events@) =~= old(self)@.events.push(event@));
    }

    /// Emits an output sample.
    fn push_output(&mut self, end: u64)
        requires
            old(self)@.wf(),
            old(self)@.next_output_tick <= end,
            end <= MAX_AUDIO_TICK,
        ensures
            final(self)@ == output_pushed(old(self)@),
            final(self)@.wf(),
            final(self)@.output_sample_count == old(self)@.output_sample_count + 1,
            final(self)@.output_sample_count <= (end + 1) * old(self)@.sample_rate,
    {
        proof {
            lemma_output_tick(self.sample_rate, self.output_sample_count + 1, end);
        }
        self.push_event(AudioEvent::Output);
        self.output_sample_count = self.output_sample_count + 1;
        self.next_output_tick = self.output_tick_for_sample(self.output_sample_count + 1);
    }

    /// Clocks a native YM2612 sample.
    fn clock_ym_audio_sample(&mut self)
        requires
            old(self)@.wf(),
            old(self)@.next_ym_tick <= u64::MAX - 1008,
        ensures
            final(self)@ == ym_clocked(old(self)@),
            final(self)@.wf(),
    {
        let samples = self.ym2612.output_sample_raw_per_channel();
        self.push_event(AudioEvent::Ym(samples));
        self.next_ym_tick = self.next_ym_tick + YM_AUDIO_TICKS;
    }

    /// Clocks a native PSG sample.
    fn clock_psg_audio_sample(&mut self)
        requires
            old(self)@.wf(),
            old(self)@.next_psg_tick <= u64::MAX - 240,
        ensures
            final(self)@ == psg_clocked(old(self)@),
            final(self)@.wf(),
    {
        self.psg.clock_tick();
        let event = AudioEvent::Psg {
            tone1: self.psg.level(0),
            tone2: self.psg.level(1),
            tone3: self.psg.level(2),
            noise: self.psg.level(3),
        };
        self.push_event(event);
        self.next_psg_tick = self.next_psg_tick + PSG_AUDIO_TICKS;
    }

    /// Hands a write to the chip.
    fn write_chip(&mut self, write: TimedYm2612Write)
        requires
            old(self)@.wf(),
        ensures
            final(self)@ == (AudioState {
                ym2612: chip_written(old(self)@.ym2612, write),
                ..old(self)@
            }),
            final(self)@.wf(),
    {
        self.ym2612.write_address(write.port, write.addr);
        self.ym2612.write_data(write.port, write.value);
    }

    /// Notes the panning that a write sets.
    fn note_panning(&mut self, write: TimedYm2612Write)
        requires
            old(self)@.wf(),
        ensures
            final(self)@ == panned(old(self)@, write),
            final(self)@.wf(),
    {
        match ym_pan_channel_from_addr(write.port, write.addr) {
            Some(channel) => {
                let mask: u8 = write.value / 0x40 * 0x40;
                self.pan_masks[channel] = mask;
                if mask != 0xC0 {
                    self.push_event(AudioEvent::Pan { channel: channel as u8, mask });
                }
            },
            None => {},
        }
    }

    /// Releases the first delayed key write.
    fn release_key(&mut self)
        requires
            old(self)@.wf(),
            old(self)@.pending_key_writes.len() > 0,
        ensures
            final(self)@ == key_released(old(self)@),
            final(self)@.wf(),
    {
        let write = self.pending_key_writes.remove(0);
        assert(writes_ordered(self@.pending_key_writes)) by {
            assert forall|i: int, j: int|
                #![trigger self@.pending_key_writes[i], self@.pending_key_writes[j]]
                0 <= i < j < self@.pending_key_writes.len()
                implies self@.pending_key_writes[i].master_tick
                <= self@.pending_key_writes[j].master_tick by {
                assert(self@.pending_key_writes[i] == old(self)@.pending_key_writes[i + 1]);
                assert(self@.pending_key_writes[j] == old(self)@.pending_key_writes[j + 1]);
            }
        }
        self.write_chip(write);
    }

    /// Replays a traced YM2612 write.
    fn replay_ym(&mut self, write: TimedYm2612Write)
        requires
            old(self)@.wf(),
        ensures
            final(self)@ == ym_replayed(old(self)@, write),
            final(self)@.wf(),
            final(self)@.pending_key_writes.len() <= old(self)@.pending_key_writes.len() + 1,
    {
        if !maybe_delay_ym_key_write(
            &mut self.pending_key_writes,
            self.key_delay_ticks,
            write,
        ) {
            self.note_panning(write);
            self.write_chip(write);
        }
        proof {
            lemma_first_later(
                old(self)@.pending_key_writes,
                delayed(write, write_delay(old(self)@.key_delay_ticks, write)).master_tick,
                0,
            );
        }
    }

    /// Replays a traced PSG write.
    fn replay_psg(&mut self, value: u8)
        requires
            old(self)@.wf(),
        ensures
            final(self)@ == (AudioState {
                psg: psg_write(old(self)@.psg, value),
                ..old(self)@
            }),
            final(self)@.wf(),
    {
        self.psg.write(value);
    }

    /// The agenda at a position in the traced writes.
    fn agenda(
        &self,
        ym_writes: &[TimedYm2612Write],
        psg_writes: &[TimedPsgWrite],
        ym_done: usize,
        psg_done: usize,
        end: u64,
    ) -> (r: Agenda)
        ensures
            r == agenda_of(
                (Interval {
                    audio: self@,
                    ym_writes: ym_writes@,
                    psg_writes: psg_writes@,
                    ym_done: ym_done as int,
                    psg_done: psg_done as int,
                    end,
                }),
            ),
    {
        Agenda {
            ym_write: if ym_done < ym_writes.len() {
                Some(ym_writes[ym_done].master_tick)
            } else {
                None
            },
            psg_write: if psg_done < psg_writes.len() {
                Some(psg_writes[psg_done].master_tick)
            } else {
                None
            },
            key_write: if self.pending_key_writes.len() > 0 {
                Some(self.pending_key_writes[0].master_tick)
            } else {
                None
            },
            output: self.next_output_tick,
            ym_sample: self.next_ym_tick,
            psg_sample: self.next_psg_tick,
            end,
        }
    }

    /// Runs the timeline to `end_tick`, replaying the traced writes of the
    /// interval at their ticks.
    pub fn synthesize_audio_interval(
        &mut self,
        ym_writes: &[TimedYm2612Write],
        psg_writes: &[TimedPsgWrite],
        end_tick: u64,
    )
        requires
            old(self)@.wf(),
            end_tick <= MAX_AUDIO_TICK,
        ensures
            final(self)@ == synthesized(old(self)@, ym_writes@, psg_writes@, end_tick),
            final(self)@.wf(),
            final(self)@.master_tick == end_tick,
            final(self)@.next_output_tick > end_tick,
            final(self)@.next_ym_tick >= end_tick,
            final(self)@.next_psg_tick >= end_tick,
            old(self)@.master_tick <= end_tick && not_ahead(old(self)@) ==> in_step(final(self)@),
    {
        let ghost due = old(self)@.master_tick <= end_tick && not_ahead(old(self)@);
        let ym_len: usize = ym_writes.len();
        let psg_len: usize = psg_writes.len();
        let mut ym_done: usize = 0;
        let mut psg_done: usize = 0;
        let mut resting = false;
        let ghost start = interval_begun(self@, ym_writes@, psg_writes@, end_tick);
        let ghost mut n: nat = 0;
        let ghost mut cur = start;
        while !resting
            invariant
                self@.wf(),
                end_tick <= MAX_AUDIO_TICK,
                ym_len == ym_writes@.len(),
                psg_len == psg_writes@.len(),
                ym_done <= ym_len,
                psg_done <= psg_len,
                cur == interval_run(start, n),
                cur.audio == self@,
                cur.ym_writes == ym_writes@,
                cur.psg_writes == psg_writes@,
                cur.ym_done == ym_done,
                cur.psg_done == psg_done,
                cur.end == end_tick,
                start == interval_begun(old(self)@, ym_writes@, psg_writes@, end_tick),
                resting ==> at_rest(cur),
                due ==> output_tick(self@.sample_rate, self@.output_sample_count as int)
                    <= end_tick,
            decreases
                    if resting {
                        0
                    } else {
                        work_left(cur) + 1
                    },
        {
            let ghost before = cur;
            let step: AudioStep = self.agenda(
                ym_writes,
                psg_writes,
                ym_done,
                psg_done,
                end_tick,
            ).next();
            match step {
                AudioStep::Output => {
                    self.push_output(end_tick);
                },
                AudioStep::Key => {
                    self.release_key();
                },
                AudioStep::YmWrite => {
                    self.replay_ym(ym_writes[ym_done]);
                    ym_done = ym_done + 1;
                },
                AudioStep::PsgWrite => {
                    self.replay_psg(psg_writes[psg_done].value);
                    psg_done = psg_done + 1;
                },
                AudioStep::YmSample => {
                    self.clock_ym_audio_sample();
                },
                AudioStep::PsgSample => {
                    self.clock_psg_audio_sample();
                },
                AudioStep::Rest => {
                    resting = true;
                },
            }
            proof {
                reveal(interval_stepped);
                cur = interval_stepped(before);
                n = n + 1;
            }
        }
        proof {
            lemma_settled(start, n);
            reveal(synthesized);
            law_rest_is_complete(agenda_of(cur));
        }
        self.master_tick = end_tick;
    }
}

/// The position behind the writes that are not later lies within the queue.
proof fn lemma_first_later(writes: Seq<TimedYm2612Write>, tick: u64, i: int)
    requires
        0 <= i <= writes.len(),
    ensures
        i <= first_later(writes, tick, i) <= writes.len(),
    decreases writes.len() - i,
{
    if i < writes.len() && writes[i].master_tick <= tick {
        lemma_first_later(writes, tick, i + 1);
    }
}

} // verus!
