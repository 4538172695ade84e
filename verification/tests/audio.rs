//! The audio timeline.
use genesoxide::api::audio::{
    insert_timed_write_sorted, maybe_delay_ym_key_write, ym_key_channel_from_write,
    ym_pan_channel_from_addr, Agenda, AudioStep, AudioTimeline,
};
use genesoxide::api::{AudioEvent, TimedPsgWrite, TimedYm2612Write};

/// A YM2612 write at a tick.
fn ym_write(master_tick: u64, port: u8, addr: u8, value: u8) -> TimedYm2612Write {
    TimedYm2612Write { master_tick, frame: 0, scanline: 0, port, addr, value }
}

#[test]
fn pan_registers_belong_to_channels() {
    assert_eq!(ym_pan_channel_from_addr(0, 0xB4), Some(0));
    assert_eq!(ym_pan_channel_from_addr(0, 0xB6), Some(2));
    assert_eq!(ym_pan_channel_from_addr(1, 0xB5), Some(4));
    assert_eq!(ym_pan_channel_from_addr(0, 0xB7), None);
    assert_eq!(ym_pan_channel_from_addr(2, 0xB4), None);
}

#[test]
fn key_writes_belong_to_channels() {
    assert_eq!(ym_key_channel_from_write(0, 0x28, 0xF0), Some(0));
    assert_eq!(ym_key_channel_from_write(0, 0x28, 0xF2), Some(2));
    assert_eq!(ym_key_channel_from_write(0, 0x28, 0xF3), None);
    assert_eq!(ym_key_channel_from_write(0, 0x28, 0xF4), Some(3));
    assert_eq!(ym_key_channel_from_write(0, 0x28, 0xF6), Some(5));
    assert_eq!(ym_key_channel_from_write(0, 0x28, 0xF7), None);
    assert_eq!(ym_key_channel_from_write(1, 0x28, 0xF0), None);
    assert_eq!(ym_key_channel_from_write(0, 0x2A, 0xF0), None);
}

#[test]
fn queue_keeps_the_order_of_ticks() {
    let mut queue = Vec::new();
    for (tick, value) in [(30, 1), (10, 2), (20, 3), (20, 4)] {
        insert_timed_write_sorted(&mut queue, ym_write(tick, 0, 0x28, value));
    }
    let order: Vec<(u64, u8)> = queue.iter().map(|w| (w.master_tick, w.value)).collect();
    assert_eq!(order, vec![(10, 2), (20, 3), (20, 4), (30, 1)]);
}

#[test]
fn key_writes_are_delayed_by_channel() {
    let mut queue = Vec::new();
    let delays = [0, 100, 0, 0, 0, u64::MAX];
    assert!(!maybe_delay_ym_key_write(&mut queue, delays, ym_write(5, 0, 0x28, 0xF0)));
    assert!(!maybe_delay_ym_key_write(&mut queue, delays, ym_write(5, 0, 0x30, 0xF1)));
    assert!(maybe_delay_ym_key_write(&mut queue, delays, ym_write(5, 0, 0x28, 0xF6)));
    assert!(maybe_delay_ym_key_write(&mut queue, delays, ym_write(5, 0, 0x28, 0xF1)));
    let ticks: Vec<u64> = queue.iter().map(|w| w.master_tick).collect();
    assert_eq!(ticks, vec![105, u64::MAX]);
}

/// An agenda with nothing but samples.
fn samples(output: u64, ym_sample: u64, psg_sample: u64, end: u64) -> Agenda {
    Agenda {
        ym_write: None,
        psg_write: None,
        key_write: None,
        output,
        ym_sample,
        psg_sample,
        end,
    }
}

#[test]
fn output_samples_go_first() {
    assert_eq!(samples(10, 10, 10, 10).next(), AudioStep::Output);
    assert_eq!(samples(11, 10, 10, 20).next(), AudioStep::YmSample);
    assert_eq!(samples(11, 10, 9, 20).next(), AudioStep::PsgSample);
    assert_eq!(samples(11, 10, 10, 10).next(), AudioStep::Rest);
}

#[test]
fn writes_go_before_native_samples() {
    let base = samples(50, 20, 30, 100);
    assert_eq!(Agenda { ym_write: Some(20), ..base }.next(), AudioStep::YmWrite);
    assert_eq!(Agenda { psg_write: Some(15), ..base }.next(), AudioStep::PsgWrite);
    let both = Agenda { ym_write: Some(15), psg_write: Some(15), ..base };
    assert_eq!(both.next(), AudioStep::YmWrite);
    assert_eq!(Agenda { key_write: Some(15), ..both }.next(), AudioStep::Key);
    assert_eq!(Agenda { ym_write: Some(25), ..base }.next(), AudioStep::YmSample);
}

#[test]
fn interval_emits_what_is_due() {
    let mut audio = AudioTimeline::new(44_100);
    audio.clear_events();
    audio.synthesize_audio_interval(&[], &[], 3420);
    let count = |f: fn(&AudioEvent) -> bool| audio.events.iter().filter(|e| f(e)).count();
    assert_eq!(count(|e| matches!(e, AudioEvent::Output)), 2);
    assert_eq!(count(|e| matches!(e, AudioEvent::Ym(_))), 3);
    assert_eq!(count(|e| matches!(e, AudioEvent::Psg { .. })), 14);
    assert_eq!(audio.master_tick, 3420);
    // Sample 3 is due at round(3 * 53693175 / 44100).
    assert_eq!(audio.next_output_tick, 3653);
}

#[test]
fn writes_are_replayed_at_their_ticks() {
    let mut audio = AudioTimeline::new(44_100);
    audio.clear_events();
    let ym = [ym_write(500, 1, 0xB4, 0x80)];
    let psg = [TimedPsgWrite { master_tick: 300, frame: 0, scanline: 0, value: 0x90 }];
    audio.synthesize_audio_interval(&ym, &psg, 3420);
    assert_eq!(audio.pan_masks, [0xC0, 0xC0, 0xC0, 0x80, 0xC0, 0xC0]);
    let pan = audio
        .events
        .iter()
        .position(|e| matches!(e, AudioEvent::Pan { channel: 3, mask: 0x80 }))
        .unwrap();
    let first_ym = audio
        .events
        .iter()
        .position(|e| matches!(e, AudioEvent::Ym(_)))
        .unwrap();
    assert!(pan < first_ym);
    // The PSG is silent at tick 240 and loud from tick 480 on.
    let levels: Vec<i32> = audio
        .events
        .iter()
        .filter_map(|e| match e {
            AudioEvent::Psg { tone1, .. } => Some(*tone1),
            _ => None,
        })
        .collect();
    assert_eq!(levels[0], 0);
    assert_eq!(levels[1].abs(), 1000);
}

#[test]
fn delayed_keys_are_released_later() {
    let mut audio = AudioTimeline::new(44_100);
    let ym = audio.ym2612.clone();
    let psg = audio.psg;
    audio.set_key_delays([5_000, 0, 0, 0, 0, 0], &ym, &psg);
    let key = [ym_write(100, 0, 0x28, 0xF0)];
    audio.synthesize_audio_interval(&key, &[], 3420);
    assert_eq!(audio.pending_key_writes.len(), 1);
    assert_eq!(audio.ym2612.write_count(), 0);
    audio.synthesize_audio_interval(&[], &[], 6840);
    assert!(audio.pending_key_writes.is_empty());
    assert_eq!(audio.ym2612.write_count(), 1);
}

#[test]
fn sample_count_follows_the_rate() {
    for (rate, expected) in [(44_100, 735), (48_000, 801), (22_050, 367), (1, 0)] {
        let mut audio = AudioTimeline::new(rate);
        for line in 1..=262u64 {
            audio.synthesize_audio_interval(&[], &[], line * 3420);
        }
        assert_eq!(audio.output_sample_count, expected);
    }
}
