//! Controller ports.
use genesoxide::io::{Button, ControllerPort, PadType, SIX_BUTTON_TIMEOUT_CYCLES};

#[test]
fn no_buttons_pressed_reads_all_high() {
    let port = ControllerPort::new();
    // TH=1: all direction/button bits should be 1 (not pressed = active low)
    let data = port.read_data();
    assert_eq!(data & 0x3F, 0x3F);
}

#[test]
fn pressing_b_clears_bit() {
    let mut port = ControllerPort::new();
    port.press(Button::B);
    let data = port.read_data(); // TH=1
    // B is bit 4 when TH=1 — should be 0 when pressed
    assert_eq!(data & 0x10, 0);
}

#[test]
fn th_toggle_reads_different_buttons() {
    let mut port = ControllerPort::new();
    port.press(Button::A);
    port.press(Button::C);

    // TH=1: should see C (bit 5) pressed, A not visible
    let data_th1 = port.read_data();
    assert_eq!(data_th1 & 0x20, 0); // C pressed

    // TH=0: should see A (bit 4) pressed
    port.write_data(0x00); // TH=0
    let data_th0 = port.read_data();
    assert_eq!(data_th0 & 0x10, 0); // A pressed
}

/// Drives the exact TH toggle sequence a game uses to poll a 6-button pad
/// and asserts the precise byte returned at each phase.
#[test]
fn six_button_phase_sequence_exact_bytes() {
    let mut port = ControllerPort::new();
    assert_eq!(port.pad_type(), PadType::SixButton); // default

    // Press a distinct mix: A, Right, X, Mode.
    port.press(Button::A);
    port.press(Button::Right);
    port.press(Button::X);
    port.press(Button::Mode);

    // three_button_high = 0x77 (Right pressed clears bit3),
    // three_button_low  = 0x23 (A pressed clears bit4).

    // Phase 0, TH=1 (initial state).
    assert_eq!(port.read_data(), 0x77);

    port.write_data(0x00); // TH=0, phase 0
    assert_eq!(port.read_data(), 0x23);

    port.write_data(0x40); // TH=1 rising -> phase 1
    assert_eq!(port.read_data(), 0x77);
    port.write_data(0x00); // TH=0, phase 1
    assert_eq!(port.read_data(), 0x23);

    port.write_data(0x40); // TH=1 rising -> phase 2
    assert_eq!(port.read_data(), 0x77);
    port.write_data(0x00); // TH=0, phase 2: 6-button-present signature
    // Low nibble forced to 0; A/Start (bits4-5) normal => 0x20.
    assert_eq!(port.read_data(), 0x20);

    port.write_data(0x40); // TH=1 rising -> phase 3: 1111 acknowledge
    // (0x77 & 0x70) | 0x0F = 0x7F.
    assert_eq!(port.read_data(), 0x7F);
    port.write_data(0x00); // TH=0, phase 3: extra buttons
    // A/Start bits => 0x20; Mode(bit3)/X(bit2) pressed clear,
    // Y(bit1)/Z(bit0) not pressed set => 0x20 | 0x02 | 0x01 = 0x23.
    assert_eq!(port.read_data(), 0x23);

    // Phase 4+ reverts to plain 3-button reads.
    port.write_data(0x40); // TH=1 rising -> phase 4
    assert_eq!(port.read_data(), 0x77);
    port.write_data(0x00); // TH=0, phase 4
    assert_eq!(port.read_data(), 0x23);
}

/// The 3rd TH=0 read exposes all-zero directions and the 4th TH=0 read the
/// X/Y/Z/Mode extras — verified independently of the directional buttons.
#[test]
fn six_button_signature_and_extras_with_no_directions() {
    let mut port = ControllerPort::new();
    port.press(Button::X);
    port.press(Button::Y);
    port.press(Button::Z);
    port.press(Button::Mode);

    // Advance to phase 2 TH=0 (signature).
    port.write_data(0x00);
    port.write_data(0x40); // phase 1
    port.write_data(0x00);
    port.write_data(0x40); // phase 2
    port.write_data(0x00);
    // No directions and nothing on the low nibble => low nibble 0.
    assert_eq!(port.read_data() & 0x0F, 0x00);

    // Phase 3 TH=1 acknowledge = 1111.
    port.write_data(0x40);
    assert_eq!(port.read_data() & 0x0F, 0x0F);

    // Phase 3 TH=0: all four extras pressed => low nibble all 0.
    port.write_data(0x00);
    assert_eq!(port.read_data() & 0x0F, 0x00);
}

/// After the idle timeout elapses the 6-button phase counter resets, so the
/// next read reverts to first-phase 3-button behavior.
#[test]
fn idle_timeout_resets_phase_counter() {
    let mut port = ControllerPort::new();
    port.press(Button::Mode); // would show in extras phase

    // Drive to phase 3 TH=0 (extras visible).
    port.write_data(0x00);
    port.write_data(0x40); // phase 1
    port.write_data(0x00);
    port.write_data(0x40); // phase 2
    port.write_data(0x00);
    port.write_data(0x40); // phase 3
    port.write_data(0x00);
    // Mode pressed => bit3 clear in the extras nibble.
    assert_eq!(port.read_data() & 0x08, 0x00);

    // Simulate elapsed cycles beyond the timeout.
    port.advance_cycles(SIX_BUTTON_TIMEOUT_CYCLES);

    // Before the reset the extras nibble was 0x37 (X/Y/Z high, Mode low);
    // after the reset TH=0 reads plain 3-button low = 0x33, since Mode (a
    // 6-button extra) never appears in a 3-button read.
    assert_eq!(port.read_data(), 0x33);

    // And the next full poll behaves like the first phase again.
    port.write_data(0x40); // TH=1, phase 1 after reset
    assert_eq!(port.read_data(), 0x7F);
}

/// A 3-button pad never emits the 6-button phases regardless of how many
/// TH toggles occur.
#[test]
fn three_button_pad_never_emits_extended_phases() {
    let mut port = ControllerPort::new();
    port.set_pad_type(PadType::ThreeButton);
    port.press(Button::X); // must never appear
    port.press(Button::Mode);

    // Drive many full TH cycles.
    for _ in 0..8 {
        port.write_data(0x40); // TH=1
        let hi = port.read_data();
        // Always the plain 3-button-high byte (0x40 readback set, low
        // nibble = directions all high since none pressed).
        assert_eq!(hi, 0x7F);
        port.write_data(0x00); // TH=0
        let lo = port.read_data();
        // Plain 3-button-low: no A/Start/dir pressed => 0x33; never the
        // 1111 or extras signatures.
        assert_eq!(lo, 0x33);
    }
}
