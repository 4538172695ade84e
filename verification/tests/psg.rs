//! The programmable sound generator.
use genesoxide::psg::{Psg, VOLUME_TABLE};

/// The amplitude of an attenuation step, as a fraction of full scale.
fn amplitude(step: usize) -> f32 {
    VOLUME_TABLE[step] as f32 / 1000.0
}

/// The sum of the channel levels, as a fraction of full scale.
fn sample(psg: &Psg) -> f32 {
    (0..4).map(|ch| psg.level(ch) as f32 / 1000.0).sum::<f32>() / 4.0
}

#[test]
fn volume_table_endpoints() {
    assert!((amplitude(0) - 1.0).abs() < f32::EPSILON);
    assert!((amplitude(15) - 0.0).abs() < f32::EPSILON);
}

#[test]
fn latch_byte_selects_channel() {
    let mut psg = Psg::new();

    // 0x80 = latch ch0 tone (channel bits = 00, type bit = 0)
    psg.write(0x80);
    assert_eq!(psg.latch_channel, 0);
    assert!(!psg.latch_is_volume);

    // 0xA0 = latch ch1 tone (channel bits = 01, type bit = 0)
    psg.write(0xA0);
    assert_eq!(psg.latch_channel, 1);
    assert!(!psg.latch_is_volume);

    // 0xC0 = latch ch2 tone
    psg.write(0xC0);
    assert_eq!(psg.latch_channel, 2);

    // 0xE0 = latch noise channel tone/noise register
    psg.write(0xE0);
    assert_eq!(psg.latch_channel, 3);
}

#[test]
fn tone_period_write() {
    let mut psg = Psg::new();

    // Latch ch0 tone with low nibble = 0x05 -> bits 3-0 = 5
    psg.write(0x85); // 1_00_0_0101
    assert_eq!(psg.tone_period[0] & 0x00F, 5);

    // Data byte with high bits = 0x1A (binary 011010) -> bits 9-4
    psg.write(0x1A); // 0_011010
    // Period = (0x1A << 4) | 5 = (26 << 4) | 5 = 416 | 5 = 421
    assert_eq!(psg.tone_period[0], (0x1A << 4) | 5);
    assert_eq!(psg.tone_period[0], 421);
}

#[test]
fn volume_write() {
    let mut psg = Psg::new();

    // Latch ch0 volume with value 7: 1_00_1_0111 = 0x97
    psg.write(0x97);
    assert_eq!(psg.volume[0], 7);

    // Latch ch1 volume with value 0 (max): 1_01_1_0000 = 0xB0
    psg.write(0xB0);
    assert_eq!(psg.volume[1], 0);
}

#[test]
fn noise_lfsr_white() {
    let mut psg = Psg::new();

    // Set white noise, rate 0 (period = 0x10).
    // 0xE4 = 1_11_0_0100 => ch3, type=tone/noise, data = 0b0100 => rate=0, mode=white
    psg.write(0xE4);
    assert!(psg.noise_mode);
    assert_eq!(psg.noise_rate, 0);
    assert_eq!(psg.noise_shift, 0x8000);

    // Set noise volume to 0 (audible) so we can verify
    psg.write(0xF0); // 1_11_1_0000 => ch3 volume = 0

    // Collect LFSR state snapshots after falling edges.
    // We need to clock until counter expires and we get a falling edge.
    // Rate 0 -> period 0x10 = 16 ticks per half-cycle.
    // Clock enough to capture several LFSR shifts.
    // Each shift happens on a falling edge (polarity: true -> false),
    // which means we need 2 full half-cycles = 2 * 16 = 32 ticks for
    // the first falling edge, then 32 more for the second, etc.
    for _ in 0..256 {
        psg.clock_tick();
    }

    // The LFSR should have shifted from its initial 0x8000 state.
    assert_ne!(psg.noise_shift, 0x8000, "LFSR should have shifted");

    // White noise uses feedback = bit0 XOR bit3, so the sequence is
    // deterministic. Verify the LFSR didn't degenerate to 0.
    assert_ne!(psg.noise_shift, 0, "LFSR should not be zero");
}

#[test]
fn noise_lfsr_shifts_every_counter_reload() {
    // The LFSR must advance on EVERY noise-counter expiry, not only on the high->low toggle transition.
    //
    // Rate 0 -> reload period 0x10 (16). One expiry occurs every 17 ticks
    // (1 reload tick + 16 decrement ticks), so 4352 ticks yields exactly
    // 256 counter expiries -> 256 LFSR shifts.
    //
    // Use periodic mode seeded at 0x8000: the single set bit walks the
    // register and the value strictly changes on every shift, so counting
    // register transitions counts shifts.
    let mut psg = Psg::new();

    // 0xE0 = ch3 tone/noise, data 0b0000 => rate 0, periodic mode.
    psg.write(0xE0);
    assert!(!psg.noise_mode);
    assert_eq!(psg.noise_rate, 0);
    assert_eq!(psg.noise_shift, 0x8000);

    let mut shifts = 0u32;
    let mut prev = psg.noise_shift;
    for _ in 0..4352 {
        psg.clock_tick();
        if psg.noise_shift != prev {
            shifts += 1;
            prev = psg.noise_shift;
        }
    }

    assert_eq!(
        shifts, 256,
        "LFSR must shift once per counter reload (256), not the half-rate 128"
    );
}

#[test]
fn psg_silent_on_init() {
    let psg = Psg::new();
    assert!(
        sample(&psg).abs() < f32::EPSILON,
        "new PSG should output silence, got {}",
        sample(&psg)
    );
}
