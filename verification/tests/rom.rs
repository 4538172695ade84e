//! ROM headers and checksums.
use genesoxide::rom::{compute_checksum, parse_header, verify_checksum, RomError, SramLayout};

fn make_minimal_rom() -> Vec<u8> {
    let mut rom = vec![0u8; 1024];
    // Write "SEGA GENESIS    " at 0x100
    let sys = b"SEGA GENESIS    ";
    rom[0x100..0x110].copy_from_slice(sys);
    // ROM end address
    let end = (rom.len() as u32 - 1).to_be_bytes();
    rom[0x1A4..0x1A8].copy_from_slice(&end);
    // Region "JUE"
    rom[0x1F0..0x1F3].copy_from_slice(b"JUE");
    rom
}

#[test]
fn parse_valid_header() {
    let rom = make_minimal_rom();
    let header = parse_header(&rom).unwrap();
    assert_eq!(header.system_type, "SEGA GENESIS");
    assert_eq!(header.region, "JUE");
}

#[test]
fn reject_too_small() {
    let rom = vec![0u8; 100];
    assert!(matches!(parse_header(&rom), Err(RomError::TooSmall { .. })));
}

#[test]
fn reject_invalid_system_type() {
    let mut rom = vec![0u8; 512];
    rom[0x100..0x110].copy_from_slice(b"NOT A GENESIS   ");
    assert!(matches!(
        parse_header(&rom),
        Err(RomError::InvalidSystemType(_))
    ));
}

#[test]
fn checksum_roundtrip() {
    let mut rom = make_minimal_rom();
    let checksum = compute_checksum(&rom);
    rom[0x18E..0x190].copy_from_slice(&checksum.to_be_bytes());
    assert!(verify_checksum(&rom));
}

/// Writes an SRAM descriptor into a ROM buffer at 0x1B0-0x1BB.
fn write_sram_descriptor(rom: &mut [u8], type_byte: u8, start: u32, end: u32) {
    rom[0x1B0..0x1B2].copy_from_slice(&0x5241u16.to_be_bytes()); // 'RA'
    rom[0x1B2] = type_byte;
    rom[0x1B3] = 0x20;
    rom[0x1B4..0x1B8].copy_from_slice(&start.to_be_bytes());
    rom[0x1B8..0x1BC].copy_from_slice(&end.to_be_bytes());
}

#[test]
fn no_sram_marker_means_no_sram() {
    let rom = make_minimal_rom();
    let header = parse_header(&rom).unwrap();
    assert!(!header.has_sram);
}

#[test]
fn sram_layout_both() {
    let mut rom = make_minimal_rom();
    // 0xA0 = bits 6,5 == 0b10, no odd/even bit => Both.
    write_sram_descriptor(&mut rom, 0xA0, 0x200000, 0x20FFFF);
    let header = parse_header(&rom).unwrap();
    assert!(header.has_sram);
    assert_eq!(header.sram_layout, SramLayout::Both);
    assert_eq!(header.sram_start, 0x200000);
    assert_eq!(header.sram_end, 0x20FFFF);
}

#[test]
fn sram_layout_even_only() {
    let mut rom = make_minimal_rom();
    // 0xA8 = 0xA0 | bit3 (even-only).
    write_sram_descriptor(&mut rom, 0xA8, 0x200000, 0x20FFFF);
    let header = parse_header(&rom).unwrap();
    assert!(header.has_sram);
    assert_eq!(header.sram_layout, SramLayout::EvenOnly);
}

#[test]
fn sram_layout_odd_only() {
    let mut rom = make_minimal_rom();
    // 0xB0 = 0xA0 | bit4 (odd-only).
    write_sram_descriptor(&mut rom, 0xB0, 0x200001, 0x20FFFF);
    let header = parse_header(&rom).unwrap();
    assert!(header.has_sram);
    assert_eq!(header.sram_layout, SramLayout::OddOnly);
    assert_eq!(header.sram_start, 0x200001);
}

#[test]
fn sram_marker_without_backup_pattern_ignored() {
    let mut rom = make_minimal_rom();
    // 'RA' present but type bits 6,5 not 0b10 (0x00) => not backup RAM.
    write_sram_descriptor(&mut rom, 0x00, 0x200000, 0x20FFFF);
    let header = parse_header(&rom).unwrap();
    assert!(!header.has_sram);
}

/// Every field of the header comes from its place.
#[test]
fn header_fields_come_from_their_offsets() {
    let mut rom = make_minimal_rom();
    rom[0x110..0x120].copy_from_slice(b"(C)SEGA 1991.APR");
    rom[0x120..0x12A].copy_from_slice(b"SONIC THE ");
    rom[0x150..0x158].copy_from_slice(b"HEDGEHOG");
    rom[0x180..0x18E].copy_from_slice(b"GM 00001009-00");
    rom[0x18E..0x190].copy_from_slice(&0x264Au16.to_be_bytes());
    rom[0x1A0..0x1A4].copy_from_slice(&0x0000_0010u32.to_be_bytes());
    rom[0x1A8..0x1AC].copy_from_slice(&0x00FF_0000u32.to_be_bytes());
    rom[0x1AC..0x1B0].copy_from_slice(&0x00FF_FFFFu32.to_be_bytes());
    let header = parse_header(&rom).unwrap();
    assert_eq!(header.copyright, "(C)SEGA 1991.APR");
    assert_eq!(header.title_domestic, "SONIC THE");
    assert_eq!(header.title_overseas, "HEDGEHOG");
    assert_eq!(header.serial, "GM 00001009-00");
    assert_eq!(header.checksum, 0x264A);
    assert_eq!(header.rom_start, 0x10);
    assert_eq!(header.rom_end, 1023);
    assert_eq!(header.ram_start, 0x00FF_0000);
    assert_eq!(header.ram_end, 0x00FF_FFFF);
}

/// The checksum adds up the words from 0x200 on, modulo 65536.
#[test]
fn checksum_sums_words_after_the_header() {
    let mut rom = vec![0u8; 0x206];
    rom[0x100] = 0xFF;
    rom[0x200..0x206].copy_from_slice(&[0xFF, 0xFF, 0x00, 0x03, 0x12, 0x34]);
    assert_eq!(compute_checksum(&rom), 0x1236);
}

/// The error messages name what was wrong; the system type is quoted.
#[test]
fn error_messages() {
    let small = parse_header(&[0u8; 100]).unwrap_err();
    assert_eq!(small.message(), "ROM too small (100 bytes, need at least 512)");
    let mut rom = vec![0u8; 512];
    rom[0x100..0x110].copy_from_slice(b"NOT A \"GENESIS\" ");
    let wrong = parse_header(&rom).unwrap_err();
    assert_eq!(wrong.message(), "invalid system type: \"NOT A \\\"GENESIS\\\"\"");
    assert_eq!(
        RomError::system_type_message("\"X\""),
        "invalid system type: \"X\""
    );
}
