//! FM synthesis.
use genesoxide::ym2612::{EnvState, Operator, Ym2612};

/// One stereo sample per channel, normalized to full scale.
fn output_sample_per_channel(ym: &mut Ym2612) -> [(f32, f32); 6] {
    const SCALE: f32 = 1.0 / 1536.0;
    ym.output_sample_raw_per_channel()
        .map(|(left, right)| (left as f32 * SCALE, right as f32 * SCALE))
}

/// One stereo sample, normalized to full scale.
fn output_sample(ym: &mut Ym2612) -> (f32, f32) {
    const SCALE: f32 = 1.0 / 1536.0;
    let (left, right) = ym.output_sample_raw();
    (left as f32 * SCALE, right as f32 * SCALE)
}

/// Helper: write a register via bank 0 address/data protocol.
fn write_reg(ym: &mut Ym2612, addr: u8, val: u8) {
    ym.write_address(0, addr);
    ym.write_data(0, val);
}

/// Helper: write a register via bank 1 address/data protocol.
fn write_reg_bank1(ym: &mut Ym2612, addr: u8, val: u8) {
    ym.write_address(1, addr);
    ym.write_data(1, val);
}

#[test]
fn register_write_and_read() {
    let mut ym = Ym2612::new();

    // Set algorithm 4 + feedback 3 on channel 0 (register 0xB0)
    write_reg(&mut ym, 0xB0, (3 << 3) | 4);
    assert_eq!(ym.channels[0].algorithm, 4);
    assert_eq!(ym.channels[0].feedback, 3);

    // Set frequency on channel 0: fnum=0x1A0, block=4
    // High byte first: block=4 (bits 5-3), fnum high 3 bits = 1 (bit A8)
    write_reg(&mut ym, 0xA4, (4 << 3) | 0x01); // block=4, fnum_hi=1
    write_reg(&mut ym, 0xA0, 0xA0); // fnum_lo=0xA0
    assert_eq!(ym.channels[0].fnum, 0x1A0);
    assert_eq!(ym.channels[0].block, 4);

    // Set TL=50 for ch0 op1 (slot 0 in register space, op index 0)
    // Register 0x40 = TL for slot 0, ch0
    write_reg(&mut ym, 0x40, 50);
    assert_eq!(ym.channels[0].operators[0].total_level, 50);

    // Set DT1=3/MUL=5 for ch0 op1
    write_reg(&mut ym, 0x30, (3 << 4) | 5);
    assert_eq!(ym.channels[0].operators[0].multiply, 5);
    assert_eq!(ym.channels[0].operators[0].detune, 3);

    // Bank 1: set algorithm 7 on channel 3 (first channel of bank 1)
    write_reg_bank1(&mut ym, 0xB0, 7);
    assert_eq!(ym.channels[3].algorithm, 7);
    assert_eq!(ym.channels[3].feedback, 0);

    // Verify DAC enable
    write_reg(&mut ym, 0x2B, 0x80);
    assert!(ym.dac_enabled);
    write_reg(&mut ym, 0x2B, 0x00);
    assert!(!ym.dac_enabled);
}

#[test]
fn key_on_starts_attack() {
    let mut ym = Ym2612::new();

    // Configure channel 0 op1 with a moderate attack rate.
    // AR=15, fnum/block=0, KS=0 → effective rate = 2*15 + 0 = 30 (normal attack).
    write_reg(&mut ym, 0x50, 15); // AR=15 for slot 0 ch0 (op1)
    write_reg(&mut ym, 0x40, 0); // TL=0 so it's audible

    // Verify initial state is Release
    assert_eq!(ym.channels[0].operators[0].env_state, EnvState::Release);

    // Key-on channel 0, op1 (bit 4 = op1)
    write_reg(&mut ym, 0x28, 0x10); // Key-on op1 for ch0
    assert_eq!(ym.channels[0].operators[0].env_state, EnvState::Attack);
    assert!(ym.channels[0].operators[0].key_on);

    // Phase should have been reset
    assert_eq!(ym.channels[0].operators[0].phase, 0);
    // Envelope is NOT reset on key-on (hardware behavior) — it starts
    // attack from whatever the current attenuation is.
}

#[test]
fn key_on_instant_attack() {
    let mut ym = Ym2612::new();

    // AR=31, fnum/block=0, KS=0 → effective rate = 2*31 + 0 = 62 (instant attack).
    // Hardware skips the Attack phase entirely and goes straight to Decay
    // with attenuation=0.
    write_reg(&mut ym, 0x50, 31); // AR=31 for slot 0 ch0
    write_reg(&mut ym, 0x40, 0);

    write_reg(&mut ym, 0x28, 0x10); // Key-on op1 for ch0
    assert_eq!(ym.channels[0].operators[0].env_state, EnvState::Decay);
    assert_eq!(ym.channels[0].operators[0].envelope, 0);
    assert!(ym.channels[0].operators[0].key_on);
}

#[test]
fn key_on_register_uses_operator_order_not_slot_order() {
    let mut ym = Ym2612::new();

    // Give op2 and op3 distinct AR values so we can tell which one was keyed.
    write_reg(&mut ym, 0x58, 31); // slot 2 -> op2
    write_reg(&mut ym, 0x54, 15); // slot 1 -> op3

    // bit 5 of $28 is operator 2, not slot 1/op3.
    write_reg(&mut ym, 0x28, 0x20);
    assert!(
        ym.channels[0].operators[1].key_on,
        "op2 should be keyed by bit 5"
    );
    assert!(!ym.channels[0].operators[2].key_on, "op3 should remain off");

    write_reg(&mut ym, 0x28, 0x00);

    // bit 6 of $28 is operator 3, not slot 2/op2.
    write_reg(&mut ym, 0x28, 0x40);
    assert!(
        ym.channels[0].operators[2].key_on,
        "op3 should be keyed by bit 6"
    );
    assert!(!ym.channels[0].operators[1].key_on, "op2 should remain off");
}

#[test]
fn key_off_starts_release() {
    let mut ym = Ym2612::new();

    // Set up and key-on with instant attack (AR=31 → rate 62)
    write_reg(&mut ym, 0x50, 31); // AR=31
    write_reg(&mut ym, 0x28, 0xF0); // Key-on all ops for ch0

    // Instant attack skips to Decay
    assert_eq!(ym.channels[0].operators[0].env_state, EnvState::Decay);

    // Advance a few samples so envelope progresses
    for _ in 0..100 {
        output_sample(&mut ym);
    }

    // Key-off (write 0 to key-on bits for ch0)
    write_reg(&mut ym, 0x28, 0x00);

    // All operators should now be in Release
    for op_idx in 0..4 {
        assert_eq!(
            ym.channels[0].operators[op_idx].env_state,
            EnvState::Release,
            "operator {op_idx} should be in Release after key-off"
        );
        assert!(!ym.channels[0].operators[op_idx].key_on);
    }
}

#[test]
fn dac_mode_replaces_channel_6() {
    let mut ym = Ym2612::new();

    // Enable DAC
    write_reg(&mut ym, 0x2B, 0x80);
    assert!(ym.dac_enabled);

    // Write DAC value (0x80 = center/zero after offset, 0xFF = max positive)
    write_reg(&mut ym, 0x2A, 0xFF);
    assert_eq!(ym.dac_value, 127); // 0xFF - 128 = 127

    // Ensure channel 6 panning is on
    write_reg_bank1(&mut ym, 0xB6, 0xC0); // Both L+R

    // Generate a sample — channel 6 should use DAC output
    let (left, right) = output_sample(&mut ym);

    // DAC output: 127 << 1 = 254, scaled by 1/1536 ≈ 0.1654
    let expected = 127.0 * 2.0 / 1536.0;
    assert!(
        (left - expected).abs() < 0.01,
        "DAC left output {left} should be near {expected}"
    );
    assert!(
        (right - expected).abs() < 0.01,
        "DAC right output {right} should be near {expected}"
    );

    // Write a different DAC value
    write_reg(&mut ym, 0x2A, 0x00);
    assert_eq!(ym.dac_value, -128); // 0 - 128 = -128

    let (left2, _) = output_sample(&mut ym);
    let expected2 = -128.0 * 2.0 / 1536.0;
    assert!(
        (left2 - expected2).abs() < 0.01,
        "DAC left output {left2} should be near {expected2}"
    );
}

#[test]
fn algorithm_routing() {
    let mut ym = Ym2612::new();

    // Set channel 0 to algorithm 7 (all 4 ops output independently)
    write_reg(&mut ym, 0xB0, 0x07); // algo=7, feedback=0
    write_reg(&mut ym, 0xB4, 0xC0); // Both L+R panning

    // Set a frequency so operators produce non-zero phase increments
    write_reg(&mut ym, 0xA4, (3 << 3) | 0x03); // block=3, fnum_hi=3
    write_reg(&mut ym, 0xA0, 0x00); // fnum_lo=0 -> fnum=0x300

    // Set all 4 operators: TL=0, AR=31, MUL=1
    // Operator slot mapping: slot 0=op1(0x30), slot 1=op3(0x34), slot 2=op2(0x38), slot 3=op4(0x3C)
    for slot_offset in [0x00u8, 0x04, 0x08, 0x0C] {
        write_reg(&mut ym, 0x30 + slot_offset, 0x01); // MUL=1
        write_reg(&mut ym, 0x40 + slot_offset, 0); // TL=0
        write_reg(&mut ym, 0x50 + slot_offset, 31); // AR=31
        write_reg(&mut ym, 0x80 + slot_offset, 0x0F); // SL=0, RR=15
    }

    // Key-on all 4 operators for channel 0
    write_reg(&mut ym, 0x28, 0xF0);

    // Advance enough for attack to complete (envelope → 0)
    for _ in 0..500 {
        output_sample(&mut ym);
    }

    // At this point all 4 operators should have envelopes near 0 (loud).
    // With algorithm 7, all 4 contribute to output.
    // Generate a sample and verify it's non-zero.
    let (left, right) = output_sample(&mut ym);
    assert!(
        left.abs() > 0.001 || right.abs() > 0.001,
        "algorithm 7 should produce audible output, got L={left}, R={right}"
    );

    // Now test algorithm 0 (serial chain): only op4 goes to output.
    // Disable all ops first.
    write_reg(&mut ym, 0x28, 0x00);
    let mut ym2 = Ym2612::new();

    write_reg(&mut ym2, 0xB0, 0x00); // algo=0, feedback=0
    write_reg(&mut ym2, 0xB4, 0xC0);
    write_reg(&mut ym2, 0xA4, (3 << 3) | 0x03);
    write_reg(&mut ym2, 0xA0, 0x00);

    // Only set TL=0 for op4 (slot 3 = register offset 0x0C), others silent
    for slot_offset in [0x00u8, 0x04, 0x08, 0x0C] {
        write_reg(&mut ym2, 0x30 + slot_offset, 0x01);
        write_reg(&mut ym2, 0x50 + slot_offset, 31);
        write_reg(&mut ym2, 0x80 + slot_offset, 0x0F);
        // TL: ops 1-3 at max attenuation, op4 audible
        if slot_offset == 0x0C {
            write_reg(&mut ym2, 0x40 + slot_offset, 0); // op4 loud
        } else {
            write_reg(&mut ym2, 0x40 + slot_offset, 127); // ops 1-3 silent
        }
    }

    write_reg(&mut ym2, 0x28, 0xF0);

    // Advance for envelope to progress
    for _ in 0..500 {
        output_sample(&mut ym2);
    }

    // Even with algo 0, op4 receives modulation from the chain.
    // Since modulators are silent (TL=127), op4 is essentially unmodulated
    // and should still produce some output.
    let (l, r) = output_sample(&mut ym2);
    // The carrier (op4) should produce sound
    assert!(
        l.abs() > 0.0001 || r.abs() > 0.0001,
        "algorithm 0 carrier (op4) should produce output, got L={l}, R={r}"
    );
}

#[test]
fn ym2612_silent_on_init() {
    let mut ym = Ym2612::new();

    // All operators at max attenuation (TL=127, envelope=1023)
    let (left, right) = output_sample(&mut ym);
    assert!(
        left.abs() < f32::EPSILON && right.abs() < f32::EPSILON,
        "new YM2612 should output silence, got L={left}, R={right}"
    );
}

#[test]
fn timer_a_overflow() {
    let mut ym = Ym2612::new();

    // Set a very short Timer A period: period = 1023, so counter overflows at
    // 1024 - 1023 = 1 tick
    write_reg(&mut ym, 0x24, 0xFF); // High 8 bits = 0xFF -> period bits 9-2
    write_reg(&mut ym, 0x25, 0x03); // Low 2 bits = 3 -> total period = 0x3FF = 1023

    assert_eq!(ym.timer_a_period, 1023);

    // Enable Timer A run + Timer A overflow flag
    // Bit 0 = Timer A run, Bit 2 = Timer A enable (flag generation)
    write_reg(&mut ym, 0x27, 0x05);

    // Status should start clean
    assert_eq!(
        ym.status & 0x01,
        0,
        "timer A flag should be clear initially"
    );

    // Advance samples until the timer overflows (period 1023 means
    // overflow at 1024 - 1023 = 1 tick)
    output_sample(&mut ym);

    // Timer A flag should now be set
    assert_ne!(
        ym.status & 0x01,
        0,
        "timer A overflow flag should be set after {} ticks",
        1
    );

    // Reading status should return the flag but NOT clear it
    let status = ym.read_status();
    assert_ne!(
        status & 0x01,
        0,
        "read_status should return the overflow flag"
    );
    assert_ne!(
        ym.status & 0x01,
        0,
        "timer A flag should persist after reading (only cleared by reg 0x27)"
    );

    // Writing register 0x27 with bit 4 set should clear Timer A flag
    write_reg(&mut ym, 0x27, 0x15); // bit4=reset A, bit2=enable A flag, bit0=run A
    assert_eq!(
        ym.status & 0x01,
        0,
        "timer A flag should be cleared after writing 0x27 with bit 4"
    );
}

/// Diagnostic: measure the actual output pitch of a pure sine tone.
///
/// Sets up a single operator on algorithm 7, frequency A4 (440 Hz),
/// counts zero-crossings to determine the output frequency, and
/// verifies it matches the expected pitch.
#[test]
fn pitch_accuracy_a440() {
    let mut ym = Ym2612::new();

    // Algorithm 7 (all ops independent), only use op1
    write_reg(&mut ym, 0xB0, 0x07); // algo=7, fb=0
    write_reg(&mut ym, 0xB4, 0xC0); // L+R panning

    // Set op1: TL=0, AR=31 (instant attack), MUL=1, no detune
    write_reg(&mut ym, 0x30, 0x01); // DT=0, MUL=1
    write_reg(&mut ym, 0x40, 0x00); // TL=0
    write_reg(&mut ym, 0x50, 0x1F); // AR=31
    write_reg(&mut ym, 0x60, 0x00); // DR=0
    write_reg(&mut ym, 0x70, 0x00); // SR=0
    write_reg(&mut ym, 0x80, 0x0F); // SL=0, RR=15

    // Silence op2, op3, op4 (set TL=127)
    for slot_offset in [0x04u8, 0x08, 0x0C] {
        write_reg(&mut ym, 0x40 + slot_offset, 127);
    }

    // A4 = 440 Hz at YM2612 native rate 53267 Hz.
    // YMFM/Nuked OPN2 phase step for MUL=1 is effectively:
    //   phase_inc = fnum * 2^(block - 1)
    // For 440 Hz: phase_inc = 440 * 2^20 / 53267 ≈ 8665
    // Solve: fnum * 2^(block - 1) = 8665
    // block=4: fnum = 8665/8 = 1083 = 0x43B
    let fnum: u16 = 0x43B; // 1083
    let block: u8 = 4;
    write_reg(&mut ym, 0xA4, (block << 3) | ((fnum >> 8) as u8 & 0x07));
    write_reg(&mut ym, 0xA0, (fnum & 0xFF) as u8);

    // Key-on op1 only
    write_reg(&mut ym, 0x28, 0x10);

    // Let envelope settle (attack + initial transient)
    for _ in 0..1000 {
        output_sample(&mut ym);
    }

    // Collect samples at YM2612 native rate (53267 Hz) and count
    // positive-to-negative zero crossings
    let native_rate = 53267.0_f64;
    let num_samples = 10000;
    let mut samples = Vec::with_capacity(num_samples);
    for _ in 0..num_samples {
        let (l, _) = output_sample(&mut ym);
        samples.push(l);
    }

    // Count zero crossings (positive → negative)
    let mut crossings = 0u32;
    for i in 1..samples.len() {
        if samples[i - 1] >= 0.0 && samples[i] < 0.0 {
            crossings += 1;
        }
    }

    // Each zero crossing (pos→neg) = one full cycle
    let measured_freq = crossings as f64 * native_rate / num_samples as f64;
    let expected_freq = 440.0;

    // Allow 10% tolerance (we're counting discrete zero crossings)
    let ratio = measured_freq / expected_freq;
    assert!(
        (0.80..=1.20).contains(&ratio),
        "Pitch should be within 20% of expected. Got {measured_freq:.1} Hz, \
         expected {expected_freq:.1} Hz (ratio {ratio:.3})"
    );
}

/// Diagnostic: check FM modulated instrument waveform for distortion artifacts.
///
/// Programs algorithm 0 (serial chain, op1→op2→op3→op4) with moderate
/// modulation depth and checks that it sounds.
#[test]
fn fm_modulated_waveform_diagnostic() {
    let mut ym = Ym2612::new();

    // Algorithm 0 (serial: op1→op2→op3→op4), feedback=3 on op1
    write_reg(&mut ym, 0xB0, (3 << 3) | 0); // fb=3, algo=0
    write_reg(&mut ym, 0xB4, 0xC0); // L+R panning

    // Op1 (modulator): MUL=2, TL=40, fast envelope
    write_reg(&mut ym, 0x30, 0x02); // DT=0, MUL=2
    write_reg(&mut ym, 0x40, 40); // TL=40
    write_reg(&mut ym, 0x50, 0x1F); // AR=31
    write_reg(&mut ym, 0x60, 0x00); // DR=0
    write_reg(&mut ym, 0x70, 0x00); // SR=0
    write_reg(&mut ym, 0x80, 0x0F); // SL=0, RR=15

    // Op2 (modulator): MUL=1, TL=50 — slot 2 → op2
    write_reg(&mut ym, 0x38, 0x01); // DT=0, MUL=1
    write_reg(&mut ym, 0x48, 50);
    write_reg(&mut ym, 0x58, 0x1F);
    write_reg(&mut ym, 0x68, 0x00);
    write_reg(&mut ym, 0x78, 0x00);
    write_reg(&mut ym, 0x88, 0x0F);

    // Op3 (modulator): MUL=1, TL=60 — slot 1 → op3
    write_reg(&mut ym, 0x34, 0x01); // DT=0, MUL=1
    write_reg(&mut ym, 0x44, 60);
    write_reg(&mut ym, 0x54, 0x1F);
    write_reg(&mut ym, 0x64, 0x00);
    write_reg(&mut ym, 0x74, 0x00);
    write_reg(&mut ym, 0x84, 0x0F);

    // Op4 (carrier): MUL=1, TL=0 — slot 3 → op4
    write_reg(&mut ym, 0x3C, 0x01); // DT=0, MUL=1
    write_reg(&mut ym, 0x4C, 0); // TL=0 (loudest)
    write_reg(&mut ym, 0x5C, 0x1F);
    write_reg(&mut ym, 0x6C, 0x00);
    write_reg(&mut ym, 0x7C, 0x00);
    write_reg(&mut ym, 0x8C, 0x0F);

    // Frequency: A3 (220 Hz), block=3, fnum=541
    write_reg(&mut ym, 0xA4, (3 << 3) | ((541 >> 8) as u8 & 0x07));
    write_reg(&mut ym, 0xA0, (541 & 0xFF) as u8);

    // Key-on all operators
    write_reg(&mut ym, 0x28, 0xF0);

    // Let attack settle
    for _ in 0..500 {
        output_sample(&mut ym);
    }

    // Collect 5000 samples (~94ms at 53kHz, ~20 cycles of 220Hz)
    let n = 5000;
    let mut samples = Vec::with_capacity(n);
    for _ in 0..n {
        let (l, _) = output_sample(&mut ym);
        samples.push(l);
    }

    // 1. Non-silent
    let peak = samples.iter().map(|s| s.abs()).fold(0.0f32, f32::max);
    assert!(peak > 0.001, "Output should be non-silent, peak={peak}");
}

#[test]
fn per_channel_output_sums_to_legacy_stereo_output() {
    fn configure(ym: &mut Ym2612) {
        write_reg(ym, 0xB0, 0x07);
        write_reg(ym, 0xB4, 0x80); // channel 0 hard left
        write_reg_bank1(ym, 0xB5, 0x40); // channel 4 hard right

        write_reg(ym, 0xA4, (4 << 3) | 0x02);
        write_reg(ym, 0xA0, 0x8D);
        write_reg_bank1(ym, 0xA5, (4 << 3) | 0x02);
        write_reg_bank1(ym, 0xA1, 0xC5);

        for slot_offset in [0x00u8, 0x04, 0x08, 0x0C] {
            write_reg(ym, 0x30 + slot_offset, 0x01);
            write_reg(ym, 0x40 + slot_offset, 0);
            write_reg(ym, 0x50 + slot_offset, 31);
            write_reg(ym, 0x80 + slot_offset, 0x0F);

            write_reg_bank1(ym, 0x31 + slot_offset, 0x01);
            write_reg_bank1(ym, 0x41 + slot_offset, 0);
            write_reg_bank1(ym, 0x51 + slot_offset, 31);
            write_reg_bank1(ym, 0x81 + slot_offset, 0x0F);
        }

        write_reg(ym, 0x28, 0xF0);
        write_reg(ym, 0x28, 0xF4);

        for _ in 0..512 {
            output_sample(ym);
        }
    }

    let mut ym_channels = Ym2612::new();
    configure(&mut ym_channels);
    let channel_samples = output_sample_per_channel(&mut ym_channels);
    let summed_left: f32 = channel_samples.iter().map(|&(l, _)| l).sum();
    let summed_right: f32 = channel_samples.iter().map(|&(_, r)| r).sum();

    let mut ym_sum = Ym2612::new();
    configure(&mut ym_sum);
    let (left, right) = output_sample(&mut ym_sum);

    assert!(
        (summed_left - left).abs() < 1e-6,
        "per-channel left sum {summed_left:.6} should match stereo output {left:.6}"
    );
    assert!(
        (summed_right - right).abs() < 1e-6,
        "per-channel right sum {summed_right:.6} should match stereo output {right:.6}"
    );
}

/// A key that has been released long ago is not heard, though its total level
/// attenuates nothing.
#[test]
fn released_channel_falls_silent() {
    let mut ym = Ym2612::new();
    write_reg(&mut ym, 0xB0, 0x07); // all operators are carriers
    write_reg(&mut ym, 0xB4, 0xC0);
    for slot in [0x0, 0x4, 0x8, 0xC] {
        write_reg(&mut ym, 0x30 + slot, 0x01);
        write_reg(&mut ym, 0x40 + slot, 0x00);
        write_reg(&mut ym, 0x50 + slot, 0x1F);
        write_reg(&mut ym, 0x80 + slot, 0x0F);
    }
    write_reg(&mut ym, 0xA4, 0x22);
    write_reg(&mut ym, 0xA0, 0x69);
    write_reg(&mut ym, 0x28, 0xF0);
    let mut loud = false;
    for _ in 0..200 {
        loud |= ym.output_sample_raw_per_channel()[0] != (0, 0);
    }
    assert!(loud);
    write_reg(&mut ym, 0x28, 0x00);
    for _ in 0..20_000 {
        ym.output_sample_raw();
    }
    for _ in 0..2_000 {
        ym.output_sample_raw();
        for op in ym.channels[0].operators {
            assert_eq!(op.envelope, 1023);
            assert_eq!(op.output, 0);
        }
    }
}

/// The peak of the wave over attenuations of eight, twelve and thirteen octaves,
/// and over the highest total level.
#[test]
fn attenuation_halves_with_each_octave() {
    let peak = |envelope: u16, total_level: u8| {
        let mut op = Operator::new();
        op.phase = 256 * 1024;
        op.envelope = envelope;
        op.total_level = total_level;
        op.compute(0, 0, 0)
    };
    assert_eq!(peak(0, 0), 8168);
    assert_eq!(peak(512, 0), 31);
    assert_eq!(peak(704, 0), 3);
    assert_eq!(peak(768, 0), 1);
    assert_eq!(peak(832, 0), 0);
    assert_eq!(peak(1023, 0), 0);
    assert_eq!(peak(0, 127), 0);
}
