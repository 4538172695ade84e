//! Histories and delay lines.
use genesoxide::delay::{History, SampleDelay, MAX_POST_DELAY_SAMPLES};

#[test]
fn sample_delay_outputs_prior_samples() {
    let mut delay = SampleDelay::new(2, 0.0f32);
    let input = [1.0, 0.5, -0.25, 0.75];
    let output: Vec<f32> = input.iter().map(|&sample| delay.filter(sample)).collect();

    assert!(output[0].abs() < 1e-6);
    assert!(output[1].abs() < 1e-6);
    assert!((output[2] - 1.0).abs() < 1e-6);
    assert!((output[3] - 0.5).abs() < 1e-6);
}

#[test]
fn delay_of_zero_passes_through_and_long_delays_are_cut() {
    let mut none = SampleDelay::new(0, 0u8);
    assert_eq!(none.filter(7), 7);
    assert_eq!(none.filter(8), 8);
    let mut long = SampleDelay::new(200, 0u8);
    assert_eq!(long.delay_samples, MAX_POST_DELAY_SAMPLES);
    let outputs: Vec<u8> = (1..=6).map(|s| long.filter(s)).collect();
    assert_eq!(outputs, vec![0, 0, 0, 0, 1, 2]);
    long.reset(9);
    assert_eq!(long.filter(1), 9);
}

#[test]
fn history_holds_the_latest_first() {
    let mut history = History { samples: [0u8; 3] };
    for sample in [1, 2, 3, 4] {
        history.push(sample);
    }
    assert_eq!(history.samples, [4, 3, 2]);
}
