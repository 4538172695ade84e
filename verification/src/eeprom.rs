//! Serial EEPROM (I2C 24Cxx) cartridges: chip sizes and line wiring.
//!
//! A number of cartridges back their saves with a small serial EEPROM wired to
//! 68000 address and data lines (SDA = serial data, SCL = serial clock). These
//! are the hardware facts of the chips and of the boards that carry them.
use vstd::prelude::*;

verus! {

/// A supported serial EEPROM chip.
#[derive(Debug, Clone, Copy, PartialEq, Eq, Structural)]
pub enum EepromType {
    /// 128 bytes, 7-bit word address, 4-byte page.
    X24C01,
    /// 256 bytes, 8-bit word address, 4-byte page.
    X24C02,
    /// 512 bytes, 8-bit word address + 1 block bit, 16-byte page.
    X24C04,
    /// 1024 bytes, 8-bit word address + 2 block bits, 16-byte page.
    X24C08,
    /// 2048 bytes, 8-bit word address + 3 block bits, 16-byte page.
    X24C16,
    /// 8192 bytes, 16-bit word address, 32-byte page.
    X24C64,
}

/// Size of a chip in bytes.
pub open spec fn chip_size(t: EepromType) -> int {
    match t {
        EepromType::X24C01 => 128,
        EepromType::X24C02 => 256,
        EepromType::X24C04 => 512,
        EepromType::X24C08 => 1024,
        EepromType::X24C16 => 2048,
        EepromType::X24C64 => 8192,
    }
}

impl EepromType {
    /// Total addressable size in bytes.
    pub fn size(self) -> (r: usize)
        ensures
            r == chip_size(self),
    {
        match self {
            EepromType::X24C01 => 128,
            EepromType::X24C02 => 256,
            EepromType::X24C04 => 512,
            EepromType::X24C08 => 1024,
            EepromType::X24C16 => 2048,
            EepromType::X24C64 => 8192,
        }
    }

    /// Address-latch width: 7 for the single address phase of the X24C01, 8
    /// for a device and a word address byte, 16 for a two-byte word address.
    pub fn address_bits(self) -> (r: u8)
        ensures
            r == match self {
                EepromType::X24C01 => 7u8,
                EepromType::X24C64 => 16,
                _ => 8,
            },
    {
        match self {
            EepromType::X24C01 => 7,
            EepromType::X24C02 => 8,
            EepromType::X24C04 => 8,
            EepromType::X24C08 => 8,
            EepromType::X24C16 => 8,
            EepromType::X24C64 => 16,
        }
    }

    /// Mask of in-array address bits; the word address wraps to this on
    /// sequential reads.
    pub fn size_mask(self) -> (r: u16)
        ensures
            r == chip_size(self) - 1,
    {
        self.size() as u16 - 1
    }

    /// Page-write wrap mask: only these low word-address bits increment during
    /// a write burst, so a page write wraps within a page.
    pub fn pagewrite_mask(self) -> (r: u16)
        ensures
            r == match self {
                EepromType::X24C01 => 0x03u16,
                EepromType::X24C02 => 0x03,
                EepromType::X24C64 => 0x1F,
                _ => 0x0F,
            },
    {
        match self {
            EepromType::X24C01 => 0x03,
            EepromType::X24C02 => 0x03,
            EepromType::X24C04 => 0x0F,
            EepromType::X24C08 => 0x0F,
            EepromType::X24C16 => 0x0F,
            EepromType::X24C64 => 0x1F,
        }
    }
}

/// The size mask of a chip has only ones, so masking an address is taking it
/// modulo the chip size.
pub proof fn law_size_mask_wraps(t: EepromType, addr: u16)
    ensures
        addr & (chip_size(t) - 1) as u16 == addr as int % chip_size(t),
{
    assert(addr & 127 == addr % 128 && addr & 255 == addr % 256 && addr & 511 == addr % 512 && addr
        & 1023 == addr % 1024 && addr & 2047 == addr % 2048 && addr & 8191 == addr % 8192)
        by (bit_vector);
}

/// Cartridge board that wires the EEPROM to the 68000 bus.
#[derive(Debug, Clone, Copy, PartialEq, Eq, Structural)]
pub enum EepromMapper {
    /// SEGA boards. SCL=D1, SDA(in/out)=D0 at odd $200000-$3FFFFF.
    Sega,
    /// EA boards. SCL=D6, SDA(in/out)=D7 at odd $200000-$3FFFFF.
    Ea,
    /// Acclaim 16Mbit board. SDA-in=D0/SCL=D1 (any lane), SDA-out=D1 (odd).
    AcclaimOld,
    /// Acclaim 32Mbit board. SDA=D0 on odd, SCL=D0 on even, SDA-out=D0 odd,
    /// window $200000-$2FFFFF.
    AcclaimNew,
    /// Codemasters J-CART boards. Write window $300000-$37FFFF (SDA=D0,
    /// SCL=D1), read window $380000-$3FFFFF (SDA-out=D7, odd).
    Codemasters,
}

/// Which 68000 byte lane a line responds on within its address window.
#[derive(Debug, Clone, Copy, PartialEq, Eq, Structural)]
pub enum Lane {
    /// Any address in the window.
    Any,
    /// Odd addresses only (low byte lane).
    Odd,
    /// Even addresses only (high byte lane).
    Even,
}

/// An address is on a lane.
pub open spec fn on_lane(lane: Lane, addr: u32) -> bool {
    match lane {
        Lane::Any => true,
        Lane::Odd => addr % 2 == 1,
        Lane::Even => addr % 2 == 0,
    }
}

impl Lane {
    /// Whether `addr` is on this lane.
    pub fn matches(self, addr: u32) -> (r: bool)
        ensures
            r == on_lane(self, addr),
    {
        match self {
            Lane::Any => true,
            Lane::Odd => addr % 2 == 1,
            Lane::Even => addr % 2 == 0,
        }
    }
}

/// Wiring of a single I2C line.
#[derive(Debug, Clone, Copy, PartialEq, Eq, Structural)]
pub struct LinePin {
    /// Inclusive window start (68000 address space).
    pub start: u32,
    /// Inclusive window end.
    pub end: u32,
    /// Byte lane the line responds on.
    pub lane: Lane,
    /// Data bit (0-7) carrying the signal.
    pub bit: u8,
}

impl LinePin {
    /// True if `addr` decodes to this pin.
    pub fn matches(self, addr: u32) -> (r: bool)
        ensures
            r == (self.start <= addr <= self.end && on_lane(self.lane, addr)),
    {
        addr >= self.start && addr <= self.end && self.lane.matches(addr)
    }
}

/// The three I2C lines of a board.
#[derive(Debug, Clone, Copy, PartialEq, Eq, Structural)]
pub struct LineConfig {
    /// SDA as driven by the CPU (write path).
    pub sda_in: LinePin,
    /// SDA as read back from the chip (read path).
    pub sda_out: LinePin,
    /// SCL clock (write path).
    pub scl: LinePin,
}

/// A pin by window, lane and bit.
pub open spec fn pin(start: u32, end: u32, lane: Lane, bit: u8) -> LinePin {
    LinePin { start, end, lane, bit }
}

/// The line wiring of each board.
pub open spec fn wiring(m: EepromMapper) -> LineConfig {
    match m {
        EepromMapper::Sega => LineConfig {
            sda_in: pin(0x20_0000, 0x3F_FFFF, Lane::Odd, 0),
            sda_out: pin(0x20_0000, 0x3F_FFFF, Lane::Odd, 0),
            scl: pin(0x20_0000, 0x3F_FFFF, Lane::Odd, 1),
        },
        EepromMapper::Ea => LineConfig {
            sda_in: pin(0x20_0000, 0x3F_FFFF, Lane::Odd, 7),
            sda_out: pin(0x20_0000, 0x3F_FFFF, Lane::Odd, 7),
            scl: pin(0x20_0000, 0x3F_FFFF, Lane::Odd, 6),
        },
        EepromMapper::AcclaimOld => LineConfig {
            sda_in: pin(0x20_0000, 0x3F_FFFF, Lane::Any, 0),
            sda_out: pin(0x20_0000, 0x3F_FFFF, Lane::Odd, 1),
            scl: pin(0x20_0000, 0x3F_FFFF, Lane::Any, 1),
        },
        EepromMapper::AcclaimNew => LineConfig {
            sda_in: pin(0x20_0000, 0x2F_FFFF, Lane::Odd, 0),
            sda_out: pin(0x20_0000, 0x2F_FFFF, Lane::Odd, 0),
            scl: pin(0x20_0000, 0x2F_FFFF, Lane::Even, 0),
        },
        EepromMapper::Codemasters => LineConfig {
            sda_in: pin(0x30_0000, 0x37_FFFF, Lane::Any, 0),
            sda_out: pin(0x38_0000, 0x3F_FFFF, Lane::Odd, 7),
            scl: pin(0x30_0000, 0x37_FFFF, Lane::Any, 1),
        },
    }
}

impl EepromMapper {
    /// The I2C line wiring of this board.
    pub fn line_config(self) -> (r: LineConfig)
        ensures
            r == wiring(self),
    {
        let (in_lo, in_hi): (u32, u32) = match self {
            EepromMapper::AcclaimNew => (0x20_0000, 0x2F_FFFF),
            EepromMapper::Codemasters => (0x30_0000, 0x37_FFFF),
            _ => (0x20_0000, 0x3F_FFFF),
        };
        let (out_lo, out_hi): (u32, u32) = match self {
            EepromMapper::AcclaimNew => (0x20_0000, 0x2F_FFFF),
            EepromMapper::Codemasters => (0x38_0000, 0x3F_FFFF),
            _ => (0x20_0000, 0x3F_FFFF),
        };
        let (in_lane, clock_lane) = match self {
            EepromMapper::Sega => (Lane::Odd, Lane::Odd),
            EepromMapper::Ea => (Lane::Odd, Lane::Odd),
            EepromMapper::AcclaimOld => (Lane::Any, Lane::Any),
            EepromMapper::AcclaimNew => (Lane::Odd, Lane::Even),
            EepromMapper::Codemasters => (Lane::Any, Lane::Any),
        };
        let (in_bit, out_bit, clock_bit): (u8, u8, u8) = match self {
            EepromMapper::Sega => (0, 0, 1),
            EepromMapper::Ea => (7, 7, 6),
            EepromMapper::AcclaimOld => (0, 1, 1),
            EepromMapper::AcclaimNew => (0, 0, 0),
            EepromMapper::Codemasters => (0, 7, 1),
        };
        LineConfig {
            sda_in: LinePin { start: in_lo, end: in_hi, lane: in_lane, bit: in_bit },
            sda_out: LinePin { start: out_lo, end: out_hi, lane: Lane::Odd, bit: out_bit },
            scl: LinePin { start: in_lo, end: in_hi, lane: clock_lane, bit: clock_bit },
        }
    }
}

} // verus!
