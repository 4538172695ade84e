//! Memory bus routing for the 68000's 24-bit address space.
use vstd::prelude::*;

verus! {

/// Distinct regions of the Genesis 68000 memory map.
#[derive(Debug, Clone, Copy, PartialEq, Eq, Structural)]
pub enum BusRegion {
    /// Cartridge ROM (0x000000..=0x3FFFFF). Up to 4MB.
    CartridgeRom,
    /// Extended cartridge space (0x400000..=0x7FFFFF). Used by some mappers.
    CartridgeExtended,
    /// Z80 address space window (0xA00000..=0xA0FFFF). 64KB banked.
    Z80Area,
    /// I/O registers (0xA10000..=0xA1001F). Controllers, region.
    IoRegisters,
    /// Control registers (0xA11100..=0xA11201). Z80 bus request/reset.
    ControlRegisters,
    /// VDP ports (0xC00000..=0xC0001F). Data, control, HV counter.
    Vdp,
    /// 68K work RAM (0xFF0000..=0xFFFFFF). 64KB.
    WorkRam,
    /// Unmapped address.
    Unmapped,
}

/// The region of a 24-bit address; higher address bits are ignored.
pub open spec fn region_of(addr: u32) -> BusRegion {
    let a = addr % 0x0100_0000;
    if a <= 0x3FFFFF {
        BusRegion::CartridgeRom
    } else if a <= 0x7FFFFF {
        BusRegion::CartridgeExtended
    } else if 0xA00000 <= a <= 0xA0FFFF {
        BusRegion::Z80Area
    } else if 0xA10000 <= a <= 0xA1001F {
        BusRegion::IoRegisters
    } else if 0xA11100 <= a <= 0xA11201 {
        BusRegion::ControlRegisters
    } else if 0xC00000 <= a <= 0xC0001F {
        BusRegion::Vdp
    } else if a >= 0xFF0000 {
        BusRegion::WorkRam
    } else {
        BusRegion::Unmapped
    }
}

/// Maps a 68000 address to its [`BusRegion`].
pub fn map_region(addr: u32) -> (r: BusRegion)
    ensures
        r == region_of(addr),
{
    let a: u32 = addr % 0x0100_0000;
    if a <= 0x3FFFFF {
        BusRegion::CartridgeRom
    } else if a <= 0x7FFFFF {
        BusRegion::CartridgeExtended
    } else if 0xA00000 <= a && a <= 0xA0FFFF {
        BusRegion::Z80Area
    } else if 0xA10000 <= a && a <= 0xA1001F {
        BusRegion::IoRegisters
    } else if 0xA11100 <= a && a <= 0xA11201 {
        BusRegion::ControlRegisters
    } else if 0xC00000 <= a && a <= 0xC0001F {
        BusRegion::Vdp
    } else if a >= 0xFF0000 {
        BusRegion::WorkRam
    } else {
        BusRegion::Unmapped
    }
}

/// Addresses that agree in their low 24 bits are in the same region.
pub proof fn law_region_ignores_high_byte(a: u32, b: u32)
    requires
        a % 0x0100_0000 == b % 0x0100_0000,
    ensures
        region_of(a) == region_of(b),
{
}

} // verus!
