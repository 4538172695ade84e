//! Frame timing constants.
use genesoxide::timing::{
    LINES_PER_FRAME_NTSC, MASTER_CLOCK_NTSC, MASTER_TICKS_PER_FRAME_NTSC, MASTER_TICKS_PER_LINE_H40,
};

#[test]
fn frame_length_is_exact_hardware_value() {
    assert_eq!(MASTER_TICKS_PER_FRAME_NTSC, 896_040);
    assert_eq!(
        MASTER_TICKS_PER_FRAME_NTSC,
        MASTER_TICKS_PER_LINE_H40 * LINES_PER_FRAME_NTSC
    );
}

#[test]
fn refresh_rate_is_about_59_92_hz() {
    let hz = MASTER_CLOCK_NTSC as f64 / MASTER_TICKS_PER_FRAME_NTSC as f64;
    assert!(
        (hz - 59.92).abs() < 0.01,
        "NTSC refresh should be ~59.92 Hz, got {hz}"
    );
}
