//! The 68000 address map.
use genesoxide::bus::{map_region, BusRegion};

#[test]
fn cartridge_rom_region() {
    assert_eq!(map_region(0x000000), BusRegion::CartridgeRom);
    assert_eq!(map_region(0x000100), BusRegion::CartridgeRom);
    assert_eq!(map_region(0x3FFFFF), BusRegion::CartridgeRom);
}

#[test]
fn work_ram_region() {
    assert_eq!(map_region(0xFF0000), BusRegion::WorkRam);
    assert_eq!(map_region(0xFFFFFF), BusRegion::WorkRam);
}

#[test]
fn vdp_region() {
    assert_eq!(map_region(0xC00000), BusRegion::Vdp);
    assert_eq!(map_region(0xC00004), BusRegion::Vdp);
    assert_eq!(map_region(0xC00008), BusRegion::Vdp);
}

#[test]
fn io_region() {
    assert_eq!(map_region(0xA10000), BusRegion::IoRegisters);
    assert_eq!(map_region(0xA1001F), BusRegion::IoRegisters);
}

#[test]
fn unmapped_returns_unmapped() {
    assert_eq!(map_region(0x800000), BusRegion::Unmapped);
    assert_eq!(map_region(0xE00000), BusRegion::Unmapped);
}

#[test]
fn address_masked_to_24_bits() {
    // Bit 24+ should be ignored
    assert_eq!(map_region(0xFF_FF0000), BusRegion::WorkRam);
}
