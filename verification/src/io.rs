//! Genesis controller I/O.
//!
//! The pads multiplex their buttons over a few lines: the 68000 toggles the TH
//! select line and reads one group of buttons for each level. A 6-button pad
//! shows its extra buttons after several toggles.
use vstd::prelude::*;

verus! {

/// Controller port (1 or 2).
#[derive(Debug, Clone, Copy, PartialEq, Eq, Structural)]
pub enum Port {
    Player1,
    Player2,
}

/// Genesis controller buttons.
#[derive(Debug, Clone, Copy, PartialEq, Eq, Hash, Structural)]
pub enum Button {
    Up,
    Down,
    Left,
    Right,
    A,
    B,
    C,
    Start,
    X,
    Y,
    Z,
    Mode,
}

/// Physical pad type plugged into a controller port.
#[derive(Debug, Clone, Copy, PartialEq, Eq, Structural)]
pub enum PadType {
    /// Classic 3-button pad (Up/Down/Left/Right/A/B/C/Start).
    ThreeButton,
    /// 6-button pad (adds X/Y/Z/Mode).
    SixButton,
}

impl Default for PadType {
    fn default() -> (r: Self)
        ensures
            r == PadType::SixButton,
    {
        PadType::SixButton
    }
}

/// Idle timeout, in 68000 cycles (about 1.5 ms), after which the toggle counter
/// of a 6-button pad resets.
pub const SIX_BUTTON_TIMEOUT_CYCLES: u32 = 11_500;

/// Weight of a button in the button word.
pub open spec fn weight(button: Button) -> u16 {
    match button {
        Button::Up => 0x001,
        Button::Down => 0x002,
        Button::Left => 0x004,
        Button::Right => 0x008,
        Button::A => 0x010,
        Button::B => 0x020,
        Button::C => 0x040,
        Button::Start => 0x080,
        Button::X => 0x100,
        Button::Y => 0x200,
        Button::Z => 0x400,
        Button::Mode => 0x800,
    }
}

/// A button is pressed in a button word.
pub open spec fn is_pressed(buttons: u16, button: Button) -> bool {
    (buttons / weight(button)) % 2 == 1
}

/// The button word after a button is pressed.
pub open spec fn with_pressed(buttons: u16, button: Button) -> u16 {
    if is_pressed(buttons, button) {
        buttons
    } else {
        (buttons + weight(button)) as u16
    }
}

/// The button word after a button is released.
pub open spec fn with_released(buttons: u16, button: Button) -> u16 {
    if is_pressed(buttons, button) {
        (buttons - weight(button)) as u16
    } else {
        buttons
    }
}

/// Returns the weight of a button in the button word.
pub fn button_mask(button: Button) -> (r: u16)
    ensures
        r == weight(button),
        r > 0,
{
    match button {
        Button::Up => 0x001,
        Button::Down => 0x002,
        Button::Left => 0x004,
        Button::Right => 0x008,
        Button::A => 0x010,
        Button::B => 0x020,
        Button::C => 0x040,
        Button::Start => 0x080,
        Button::X => 0x100,
        Button::Y => 0x200,
        Button::Z => 0x400,
        Button::Mode => 0x800,
    }
}

/// Checks if a button is pressed in the button word.
pub fn pressed(buttons: u16, button: Button) -> (r: bool)
    ensures
        r == is_pressed(buttons, button),
{
    (buttons / button_mask(button)) % 2 == 1
}

/// The line of a button: low (0) while it is pressed, else `level`.
pub open spec fn line(buttons: u16, button: Button, level: u8) -> u8 {
    if is_pressed(buttons, button) {
        0
    } else {
        level
    }
}

/// Returns the line of a button: 0 while it is pressed, else `level`.
fn line_level(buttons: u16, button: Button, level: u8) -> (r: u8)
    ensures
        r == line(buttons, button, level),
{
    if pressed(buttons, button) {
        0
    } else {
        level
    }
}

/// B and C on bits 4-5, as read while TH is high.
pub open spec fn high_actions(b: u16) -> int {
    line(b, Button::B, 0x10) + line(b, Button::C, 0x20)
}

/// A and Start on bits 4-5, as read while TH is low.
pub open spec fn low_actions(b: u16) -> int {
    line(b, Button::A, 0x10) + line(b, Button::Start, 0x20)
}

/// The byte read while TH is high: directions, B, C and the TH readback.
pub open spec fn high_byte(b: u16) -> u8 {
    (line(b, Button::Up, 1) + line(b, Button::Down, 2) + line(b, Button::Left, 4) + line(
        b,
        Button::Right,
        8,
    ) + high_actions(b) + 0x40) as u8
}

/// The byte read while TH is low: Up, Down, A, Start; bits 2-3 are grounded.
pub open spec fn low_byte(b: u16) -> u8 {
    (line(b, Button::Up, 1) + line(b, Button::Down, 2) + low_actions(b)) as u8
}

/// The extra buttons of a 6-button pad on the low four bits, with A and Start.
pub open spec fn extra_byte(b: u16) -> u8 {
    (line(b, Button::Z, 1) + line(b, Button::Y, 2) + line(b, Button::X, 4) + line(
        b,
        Button::Mode,
        8,
    ) + low_actions(b)) as u8
}

/// State of a single controller port.
#[derive(Debug, Clone, Copy, PartialEq, Eq, Structural)]
pub struct ControllerPort {
    /// Raw button state; a set bit is a pressed button.
    pub buttons: u16,
    /// TH line state (output from 68000).
    pub th_state: bool,
    /// TH toggle count for 6-button detection.
    pub th_count: u8,
    /// Control register value.
    pub ctrl: u8,
    /// Which physical pad is plugged in.
    pub pad_type: PadType,
    /// 68000 cycles elapsed since the last TH edge.
    pub cycles_since_th_write: u32,
}

/// A port with no buttons pressed.
pub open spec fn idle_port() -> ControllerPort {
    ControllerPort {
        buttons: 0,
        th_state: true,
        th_count: 0,
        ctrl: 0,
        pad_type: PadType::SixButton,
        cycles_since_th_write: 0,
    }
}

/// The byte that a port shows. A 3-button pad has one byte for each level of
/// TH. A 6-button pad differs in three phases, counted in rising TH edges:
///
/// | phase | TH | low nibble                      |
/// |-------|----|---------------------------------|
/// | 2     | 0  | all zero: "six buttons present" |
/// | 3     | 1  | all one: acknowledge            |
/// | 3     | 0  | Mode X Y Z                      |
pub open spec fn data_byte(p: ControllerPort) -> u8 {
    if p.pad_type == PadType::SixButton && p.th_count == 2 && !p.th_state {
        low_actions(p.buttons) as u8
    } else if p.pad_type == PadType::SixButton && p.th_count == 3 && p.th_state {
        (0x4F + high_actions(p.buttons)) as u8
    } else if p.pad_type == PadType::SixButton && p.th_count == 3 {
        extra_byte(p.buttons)
    } else if p.th_state {
        high_byte(p.buttons)
    } else {
        low_byte(p.buttons)
    }
}

/// The port after a write to its data register: bit 6 drives TH. An edge
/// restarts the idle timeout and a rising edge advances the phase.
pub open spec fn after_data_write(p: ControllerPort, value: u8) -> ControllerPort {
    let th = (value / 0x40) % 2 == 1;
    ControllerPort {
        th_state: th,
        cycles_since_th_write: if th != p.th_state {
            0
        } else {
            p.cycles_since_th_write
        },
        th_count: if !p.th_state && th {
            p.th_count.wrapping_add(1)
        } else {
            p.th_count
        },
        ..p
    }
}

/// The port after `cycles` 68000 cycles without a TH edge.
pub open spec fn after_idle(p: ControllerPort, cycles: u32) -> ControllerPort {
    let idle = p.cycles_since_th_write + cycles;
    ControllerPort {
        cycles_since_th_write: if idle > u32::MAX {
            u32::MAX
        } else {
            idle as u32
        },
        th_count: if idle >= SIX_BUTTON_TIMEOUT_CYCLES {
            0
        } else {
            p.th_count
        },
        ..p
    }
}

impl ControllerPort {
    /// Creates a controller port with no buttons pressed.
    pub fn new() -> (r: Self)
        ensures
            r == idle_port(),
    {
        ControllerPort {
            buttons: 0,
            th_state: true,
            th_count: 0,
            ctrl: 0,
            pad_type: PadType::SixButton,
            cycles_since_th_write: 0,
        }
    }

    /// Sets the physical pad type plugged into this port.
    pub fn set_pad_type(&mut self, pad_type: PadType)
        ensures
            *final(self) == (ControllerPort { pad_type, ..*old(self) }),
    {
        self.pad_type = pad_type;
    }

    /// Returns the physical pad type plugged into this port.
    pub fn pad_type(&self) -> (r: PadType)
        ensures
            r == self.pad_type,
    {
        self.pad_type
    }

    /// Presses a button.
    pub fn press(&mut self, button: Button)
        ensures
            *final(self) == (ControllerPort {
                buttons: with_pressed(old(self).buttons, button),
                ..*old(self)
            }),
    {
        if !pressed(self.buttons, button) {
            proof {
                lemma_weight_fits(self.buttons, button);
            }
            self.buttons = self.buttons + button_mask(button);
        }
    }

    /// Releases a button.
    pub fn release(&mut self, button: Button)
        ensures
            *final(self) == (ControllerPort {
                buttons: with_released(old(self).buttons, button),
                ..*old(self)
            }),
    {
        if pressed(self.buttons, button) {
            proof {
                lemma_weight_fits(self.buttons, button);
            }
            self.buttons = self.buttons - button_mask(button);
        }
    }

    /// Sets the full button state from a bitmask.
    pub fn set_buttons(&mut self, mask: u16)
        ensures
            *final(self) == (ControllerPort { buttons: mask, ..*old(self) }),
    {
        self.buttons = mask;
    }

    /// Returns the current raw button state bitmask.
    pub fn buttons(&self) -> (r: u16)
        ensures
            r == self.buttons,
    {
        self.buttons
    }

    /// TH=1 3-button read byte.
    fn three_button_high(b: u16) -> (r: u8)
        ensures
            r == high_byte(b),
    {
        line_level(b, Button::Up, 1) + line_level(b, Button::Down, 2) + line_level(
            b,
            Button::Left,
            4,
        ) + line_level(b, Button::Right, 8) + line_level(b, Button::B, 0x10) + line_level(
            b,
            Button::C,
            0x20,
        ) + 0x40
    }

    /// TH=0 3-button read byte.
    fn three_button_low(b: u16) -> (r: u8)
        ensures
            r == low_byte(b),
    {
        line_level(b, Button::Up, 1) + line_level(b, Button::Down, 2) + line_level(
            b,
            Button::A,
            0x10,
        ) + line_level(b, Button::Start, 0x20)
    }

    /// Reads the data port: the byte that the 68000 sees for the current TH
    /// level and, for a 6-button pad, phase.
    pub fn read_data(&self) -> (r: u8)
        ensures
            r == data_byte(*self),
    {
        let b: u16 = self.buttons;
        let six: bool = self.pad_type == PadType::SixButton;
        if six && self.th_count == 2 && !self.th_state {
            line_level(b, Button::A, 0x10) + line_level(b, Button::Start, 0x20)
        } else if six && self.th_count == 3 && self.th_state {
            0x4F + line_level(b, Button::B, 0x10) + line_level(b, Button::C, 0x20)
        } else if six && self.th_count == 3 {
            line_level(b, Button::Z, 1) + line_level(b, Button::Y, 2) + line_level(b, Button::X, 4)
                + line_level(b, Button::Mode, 8) + line_level(b, Button::A, 0x10) + line_level(
                b,
                Button::Start,
                0x20,
            )
        } else if self.th_state {
            Self::three_button_high(b)
        } else {
            Self::three_button_low(b)
        }
    }

    /// Writes to the data port (sets the TH line).
    pub fn write_data(&mut self, value: u8)
        ensures
            *final(self) == after_data_write(*old(self), value),
    {
        let new_th: bool = (value / 0x40) % 2 == 1;
        if new_th != self.th_state {
            self.cycles_since_th_write = 0;
        }
        if !self.th_state && new_th {
            self.th_count = self.th_count.wrapping_add(1);
        }
        self.th_state = new_th;
    }

    /// Advances the idle timeout by `cycles` 68000 cycles. When TH has been
    /// static for [`SIX_BUTTON_TIMEOUT_CYCLES`], the phase counter resets.
    pub fn advance_cycles(&mut self, cycles: u32)
        ensures
            *final(self) == after_idle(*old(self), cycles),
    {
        self.cycles_since_th_write = self.cycles_since_th_write.saturating_add(cycles);
        if self.cycles_since_th_write >= SIX_BUTTON_TIMEOUT_CYCLES {
            self.th_count = 0;
        }
    }

    /// Writes to the control register.
    pub fn write_ctrl(&mut self, value: u8)
        ensures
            *final(self) == (ControllerPort { ctrl: value, ..*old(self) }),
    {
        self.ctrl = value;
    }

    /// Reads the control register.
    pub fn read_ctrl(&self) -> (r: u8)
        ensures
            r == self.ctrl,
    {
        self.ctrl
    }

    /// Resets the TH toggle counter (called once per frame).
    pub fn reset_th_counter(&mut self)
        ensures
            *final(self) == (ControllerPort { th_count: 0, ..*old(self) }),
    {
        self.th_count = 0;
    }
}

impl Default for ControllerPort {
    fn default() -> (r: Self)
        ensures
            r == idle_port(),
    {
        Self::new()
    }
}

/// Position of a button in the button word.
#[verifier::opaque]
spec fn position(button: Button) -> u16 {
    match button {
        Button::Up => 0,
        Button::Down => 1,
        Button::Left => 2,
        Button::Right => 3,
        Button::A => 4,
        Button::B => 5,
        Button::C => 6,
        Button::Start => 7,
        Button::X => 8,
        Button::Y => 9,
        Button::Z => 10,
        Button::Mode => 11,
    }
}

/// Division by each weight, in shifts.
proof fn lemma_weights_as_shifts(b: u16)
    by (bit_vector)
    ensures
        (b / 0x1) % 2 == (b >> 0u16) & 1,
        1u16 << 0u16 == 0x1,
        (b / 0x2) % 2 == (b >> 1u16) & 1,
        1u16 << 1u16 == 0x2,
        (b / 0x4) % 2 == (b >> 2u16) & 1,
        1u16 << 2u16 == 0x4,
        (b / 0x8) % 2 == (b >> 3u16) & 1,
        1u16 << 3u16 == 0x8,
        (b / 0x10) % 2 == (b >> 4u16) & 1,
        1u16 << 4u16 == 0x10,
        (b / 0x20) % 2 == (b >> 5u16) & 1,
        1u16 << 5u16 == 0x20,
        (b / 0x40) % 2 == (b >> 6u16) & 1,
        1u16 << 6u16 == 0x40,
        (b / 0x80) % 2 == (b >> 7u16) & 1,
        1u16 << 7u16 == 0x80,
        (b / 0x100) % 2 == (b >> 8u16) & 1,
        1u16 << 8u16 == 0x100,
        (b / 0x200) % 2 == (b >> 9u16) & 1,
        1u16 << 9u16 == 0x200,
        (b / 0x400) % 2 == (b >> 10u16) & 1,
        1u16 << 10u16 == 0x400,
        (b / 0x800) % 2 == (b >> 11u16) & 1,
        1u16 << 11u16 == 0x800,
{
}

/// Adding or removing one power of two toggles its bit and no other.
proof fn lemma_toggle_bit(b: u16, k: u16, j: u16)
    by (bit_vector)
    requires
        k < 12,
        j < 12,
    ensures
        (b >> k) & 1 == 0 || (b >> k) & 1 == 1,
        (b >> k) & 1 == 0 ==> b + (1u16 << k) <= 0xFFFF,
        (b >> k) & 1 == 1 ==> b >= 1u16 << k,
        (b >> k) & 1 == 0 ==> ((b + (1u16 << k)) as u16 >> k) & 1 == 1,
        (b >> k) & 1 == 1 ==> ((b - (1u16 << k)) as u16 >> k) & 1 == 0,
        j != k && (b >> k) & 1 == 0 ==> ((b + (1u16 << k)) as u16 >> j) & 1 == (b >> j) & 1,
        j != k && (b >> k) & 1 == 1 ==> ((b - (1u16 << k)) as u16 >> j) & 1 == (b >> j) & 1,
{
}

/// A button is pressed where the bit at its position is set.
proof fn lemma_pressed_is_bit(b: u16, button: Button)
    ensures
        is_pressed(b, button) == ((b >> position(button)) & 1 == 1),
        weight(button) == 1u16 << position(button),
        position(button) < 12,
{
    reveal(position);
    lemma_weights_as_shifts(b);
}

/// The weight of a button fits above a word without it, and below one with it.
proof fn lemma_weight_fits(buttons: u16, button: Button)
    ensures
        !is_pressed(buttons, button) ==> buttons + weight(button) <= 0xFFFF,
        is_pressed(buttons, button) ==> buttons >= weight(button),
{
    lemma_pressed_is_bit(buttons, button);
    lemma_toggle_bit(buttons, position(button), 0);
}

/// Different buttons have different positions.
proof fn lemma_positions_differ(button: Button, other: Button)
    requires
        button != other,
    ensures
        position(button) != position(other),
{
    reveal(position);
}

/// A pressed button reads as pressed, a released one as released, and neither
/// changes any other button.
pub proof fn law_press_and_release(buttons: u16, button: Button, other: Button)
    requires
        button != other,
    ensures
        is_pressed(with_pressed(buttons, button), button),
        !is_pressed(with_released(buttons, button), button),
        is_pressed(with_pressed(buttons, button), other) == is_pressed(buttons, other),
        is_pressed(with_released(buttons, button), other) == is_pressed(buttons, other),
{
    lemma_pressed_is_bit(buttons, button);
    lemma_pressed_is_bit(buttons, other);
    lemma_pressed_is_bit(with_pressed(buttons, button), button);
    lemma_pressed_is_bit(with_pressed(buttons, button), other);
    lemma_pressed_is_bit(with_released(buttons, button), button);
    lemma_pressed_is_bit(with_released(buttons, button), other);
    lemma_positions_differ(button, other);
    lemma_toggle_bit(buttons, position(button), position(other));
}

/// The polling sequence of a 6-button pad: starting with TH high in phase 0,
/// six writes that toggle TH bring it to the phase where its low nibble is all
/// ones, and one more shows the extra buttons.
pub proof fn law_six_button_sequence(p: ControllerPort)
    requires
        p.pad_type == PadType::SixButton,
        p.th_state,
        p.th_count == 0,
    ensures
        ({
            let p1 = after_data_write(p, 0x00);
            let p2 = after_data_write(p1, 0x40);
            let p3 = after_data_write(p2, 0x00);
            let p4 = after_data_write(p3, 0x40);
            let p5 = after_data_write(p4, 0x00);
            let p6 = after_data_write(p5, 0x40);
            let p7 = after_data_write(p6, 0x00);
            &&& data_byte(p) == high_byte(p.buttons)
            &&& data_byte(p1) == low_byte(p.buttons)
            &&& data_byte(p2) == high_byte(p.buttons)
            &&& data_byte(p3) == low_byte(p.buttons)
            &&& data_byte(p4) == high_byte(p.buttons)
            &&& data_byte(p5) % 16 == 0
            &&& data_byte(p6) % 16 == 15
            &&& data_byte(p7) == extra_byte(p.buttons)
        }),
{
}

/// A 3-button pad shows the same byte in every phase.
pub proof fn law_three_button_pad_has_no_phases(p: ControllerPort, phase: u8)
    requires
        p.pad_type == PadType::ThreeButton,
    ensures
        data_byte(ControllerPort { th_count: phase, ..p }) == data_byte(p),
{
}

/// After the idle timeout the pad is back in phase 0.
pub proof fn law_idle_timeout_resets_phase(p: ControllerPort, cycles: u32)
    requires
        cycles >= SIX_BUTTON_TIMEOUT_CYCLES,
    ensures
        after_idle(p, cycles).th_count == 0,
{
}

/// While TH is high a pad shows Up, Down, Left, Right, B and C on bits 0 to 5, each
/// low while its button is held, and TH itself on bit 6.
pub proof fn law_high_lines(p: ControllerPort)
    requires
        p.th_state,
        p.pad_type == PadType::ThreeButton || p.th_count != 3,
    ensures
        ({
            let r = data_byte(p) as int;
            let b = p.buttons;
            &&& (r % 2 == 0) == is_pressed(b, Button::Up)
            &&& (r / 2 % 2 == 0) == is_pressed(b, Button::Down)
            &&& (r / 4 % 2 == 0) == is_pressed(b, Button::Left)
            &&& (r / 8 % 2 == 0) == is_pressed(b, Button::Right)
            &&& (r / 16 % 2 == 0) == is_pressed(b, Button::B)
            &&& (r / 32 % 2 == 0) == is_pressed(b, Button::C)
            &&& r / 64 == 1
        }),
{
    lemma_lines(
        is_pressed(p.buttons, Button::Up),
        is_pressed(p.buttons, Button::Down),
        is_pressed(p.buttons, Button::Left),
        is_pressed(p.buttons, Button::Right),
        is_pressed(p.buttons, Button::B),
        is_pressed(p.buttons, Button::C),
    );
}

/// While TH is low a pad shows Up, Down, two lines tied low, A and Start.
pub proof fn law_low_lines(p: ControllerPort)
    requires
        !p.th_state,
        p.pad_type == PadType::ThreeButton || (p.th_count != 2 && p.th_count != 3),
    ensures
        ({
            let r = data_byte(p) as int;
            let b = p.buttons;
            &&& (r % 2 == 0) == is_pressed(b, Button::Up)
            &&& (r / 2 % 2 == 0) == is_pressed(b, Button::Down)
            &&& r / 4 % 4 == 0
            &&& (r / 16 % 2 == 0) == is_pressed(b, Button::A)
            &&& (r / 32 % 2 == 0) == is_pressed(b, Button::Start)
            &&& r / 64 == 0
        }),
{
    lemma_lines(
        is_pressed(p.buttons, Button::Up),
        is_pressed(p.buttons, Button::Down),
        true,
        true,
        is_pressed(p.buttons, Button::A),
        is_pressed(p.buttons, Button::Start),
    );
}

/// In its last phase a 6-button pad shows Z, Y, X and Mode in place of the
/// directions, beside A and Start.
pub proof fn law_extra_lines(p: ControllerPort)
    requires
        !p.th_state,
        p.pad_type == PadType::SixButton,
        p.th_count == 3,
    ensures
        ({
            let r = data_byte(p) as int;
            let b = p.buttons;
            &&& (r % 2 == 0) == is_pressed(b, Button::Z)
            &&& (r / 2 % 2 == 0) == is_pressed(b, Button::Y)
            &&& (r / 4 % 2 == 0) == is_pressed(b, Button::X)
            &&& (r / 8 % 2 == 0) == is_pressed(b, Button::Mode)
            &&& (r / 16 % 2 == 0) == is_pressed(b, Button::A)
            &&& (r / 32 % 2 == 0) == is_pressed(b, Button::Start)
            &&& r / 64 == 0
        }),
{
    lemma_lines(
        is_pressed(p.buttons, Button::Z),
        is_pressed(p.buttons, Button::Y),
        is_pressed(p.buttons, Button::X),
        is_pressed(p.buttons, Button::Mode),
        is_pressed(p.buttons, Button::A),
        is_pressed(p.buttons, Button::Start),
    );
}

/// Six lines make a byte that shows each of them.
proof fn lemma_lines(l0: bool, l1: bool, l2: bool, l3: bool, l4: bool, l5: bool)
    ensures
        ({
            let b0: int = if l0 { 0 } else { 1 };
            let b1: int = if l1 { 0 } else { 2 };
            let b2: int = if l2 { 0 } else { 4 };
            let b3: int = if l3 { 0 } else { 8 };
            let b4: int = if l4 { 0 } else { 16 };
            let b5: int = if l5 { 0 } else { 32 };
            let r = b0 + b1 + b2 + b3 + b4 + b5;
            &&& 0 <= r < 64
            &&& (r % 2 == 0) == l0
            &&& (r / 2 % 2 == 0) == l1
            &&& (r / 4 % 2 == 0) == l2
            &&& (r / 8 % 2 == 0) == l3
            &&& (r / 16 % 2 == 0) == l4
            &&& (r / 32 % 2 == 0) == l5
            &&& ((r + 64) % 2 == 0) == l0
            &&& ((r + 64) / 2 % 2 == 0) == l1
            &&& ((r + 64) / 4 % 2 == 0) == l2
            &&& ((r + 64) / 8 % 2 == 0) == l3
            &&& ((r + 64) / 16 % 2 == 0) == l4
            &&& ((r + 64) / 32 % 2 == 0) == l5
        }),
{
}

/// The button word has one bit for each button, in this order from bit 0: Up, Down,
/// Left, Right, A, B, C, Start, X, Y, Z, Mode.
pub proof fn law_button_order(buttons: u16)
    ensures
        ({
            let order = seq![
                Button::Up,
                Button::Down,
                Button::Left,
                Button::Right,
                Button::A,
                Button::B,
                Button::C,
                Button::Start,
                Button::X,
                Button::Y,
                Button::Z,
                Button::Mode,
            ];
            forall|i: int|
                0 <= i < 12 ==> is_pressed(buttons, #[trigger] order[i]) == ((buttons as int
                    / vstd::arithmetic::power2::pow2(i as nat) as int) % 2 == 1)
        }),
{
    vstd::arithmetic::power2::lemma2_to64();
}

/// A write to the data register drives TH with bit 6; only a rising edge advances
/// the phase, and any edge restarts the timeout, which is about 1.5 ms of CPU time.
pub proof fn law_phase_advances(p: ControllerPort, value: u8, cycles: u32)
    ensures
        ({
            let t = after_data_write(p, value);
            let th = value as int / 64 % 2 == 1;
            let u = after_idle(p, cycles);
            &&& t.th_state == th
            &&& t.th_count as int == if th && !p.th_state {
                (p.th_count + 1) % 256
            } else {
                p.th_count as int
            }
            &&& t.cycles_since_th_write == if th != p.th_state {
                0
            } else {
                p.cycles_since_th_write
            }
            &&& t.buttons == p.buttons && t.ctrl == p.ctrl && t.pad_type == p.pad_type
            &&& p.cycles_since_th_write + cycles < 11_500 ==> u.th_count == p.th_count
            &&& p.cycles_since_th_write + cycles >= 11_500 ==> u.th_count == 0
            &&& u.th_state == p.th_state && u.buttons == p.buttons
        }),
{
}

} // verus!
