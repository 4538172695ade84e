//! VDP ports, DMA, timing and rendering.
use genesoxide::vdp::{AccessType, Vdp, VRAM_SIZE};

#[test]
fn register_write() {
    let mut vdp = Vdp::new();
    // Write 0x42 to register 5: command = 0x8542
    vdp.write_control(0x8542);
    assert_eq!(vdp.registers[5], 0x42);
}

#[test]
fn auto_increment_register() {
    let mut vdp = Vdp::new();
    // Set auto-increment (reg 0x0F) to 2
    vdp.write_control(0x8F02);
    assert_eq!(vdp.auto_increment, 2);
}

#[test]
fn vram_write_and_read() {
    let mut vdp = Vdp::new();
    // Set auto-increment to 2
    vdp.write_control(0x8F02);
    // Set up VRAM write to address 0x0000
    // First word:  CD1-0=01 (VRAM write), A13-0=0x0000 -> 0x4000
    // Second word: CD5-2=0000, A15-14=00 -> 0x0000
    vdp.write_control(0x4000);
    vdp.write_control(0x0000);
    // Write data
    vdp.write_data(0xABCD);

    // Set up VRAM read from address 0x0000
    vdp.write_control(0x0000);
    vdp.write_control(0x0000);
    let val = vdp.read_data();
    assert_eq!(val, 0xABCD);
}

#[test]
fn cram_write_masks_to_9bit() {
    let mut vdp = Vdp::new();
    vdp.write_control(0x8F02);
    // CRAM write: CD=0011 -> first word has CD1-0=11, addr=0
    vdp.write_control(0xC000);
    vdp.write_control(0x0000);
    vdp.write_data(0xFFFF);
    // Should be masked to 0x0EEE
    vdp.write_control(0x0000); // CRAM read setup
    vdp.write_control(0x0020); // CD5-2=1000
    // Direct check via snapshot
    let snap = vdp.snapshot();
    assert_eq!(snap.cram[0], 0x0EEE);
}

#[test]
fn color_conversion() {
    // Full white: 0x0EEE -> (7,7,7) -> (255,255,255) approximately
    let rgba = Vdp::color_to_rgba(0x0EEE);
    assert_eq!(rgba[0], 255); // R
    assert_eq!(rgba[1], 255); // G
    assert_eq!(rgba[2], 255); // B

    // Pure red: 0x000E
    let rgba = Vdp::color_to_rgba(0x000E);
    assert_eq!(rgba[0], 255);
    assert_eq!(rgba[1], 0);
    assert_eq!(rgba[2], 0);

    // Black: 0x0000
    let rgba = Vdp::color_to_rgba(0x0000);
    assert_eq!(rgba[0], 0);
    assert_eq!(rgba[1], 0);
    assert_eq!(rgba[2], 0);
}

#[test]
fn status_register_vblank_flag() {
    let mut vdp = Vdp::new();
    assert_eq!(vdp.read_status() & 0x0008, 0);
    vdp.in_vblank = true;
    assert_ne!(vdp.read_status() & 0x0008, 0);
}

// ---- Rendering tests ----

/// Helper: set up VDP for basic rendering (display enabled, H40 mode,
/// 32x32 scroll size, auto-increment 2).
fn setup_vdp_for_rendering() -> Vdp {
    let mut vdp = Vdp::new();
    // Register 1: display enable (bit 6) + DMA enable (bit 4)
    vdp.registers[1] = 0x74; // 0b0111_0100
    // Register 0x0C: H40 mode (bit 7)
    vdp.registers[0x0C] = 0x81;
    // Register 0x10: scroll size 32x32 (0x00)
    vdp.registers[0x10] = 0x00;
    // Register 0x0F: auto-increment = 2
    vdp.registers[0x0F] = 0x02;
    vdp.auto_increment = 2;
    // Scroll A nametable at 0xC000 (reg 2 = 0x30 -> bits 5-3 = 0b110 -> 6 * 0x2000 = 0xC000)
    vdp.registers[0x02] = 0x30;
    // Scroll B nametable at 0xE000 (reg 4 = 0x07 -> 7 * 0x2000 = 0xE000)
    vdp.registers[0x04] = 0x07;
    // Sprite table at 0xD800 (reg 5 = 0x6C -> 0x6C * 0x200 = 0xD800)
    vdp.registers[0x05] = 0x6C;
    // H-scroll table at 0xDC00 (reg 0x0D = 0x37 -> 0x37 * 0x400 = 0xDC00)
    vdp.registers[0x0D] = 0x37;
    // Background color: palette 0, color 0 (black by default)
    vdp.registers[0x07] = 0x00;
    // H-scroll mode: full screen
    vdp.registers[0x0B] = 0x00;
    vdp
}

/// Helper: write a 16-bit word to VRAM at a given address (big-endian).
fn vram_write_word(vdp: &mut Vdp, addr: usize, value: u16) {
    let a = addr & (VRAM_SIZE - 1);
    let a1 = (a + 1) & (VRAM_SIZE - 1);
    vdp.vram[a] = (value >> 8) as u8;
    vdp.vram[a1] = value as u8;
}

/// Helper: write a tile pattern (8x8, 4bpp = 32 bytes) to VRAM.
/// `rows` contains 8 rows of 8 pixel indices (4-bit each).
fn write_tile_pattern(vdp: &mut Vdp, tile_index: u16, rows: &[[u8; 8]; 8]) {
    let base = usize::from(tile_index) * 32;
    for (row_idx, row) in rows.iter().enumerate() {
        let row_addr = base + row_idx * 4;
        for col_pair in 0..4 {
            let left = row[col_pair * 2] & 0x0F;
            let right = row[col_pair * 2 + 1] & 0x0F;
            vdp.vram[(row_addr + col_pair) & (VRAM_SIZE - 1)] = (left << 4) | right;
        }
    }
}

#[test]
fn background_color_fills_framebuffer() {
    let mut vdp = setup_vdp_for_rendering();
    // Set background to palette 1, color 2 -> CRAM index 18
    vdp.registers[0x07] = 0x12; // palette 1, color 2
    // Set CRAM[18] to bright green: 0x00E0
    vdp.cram[18] = 0x00E0;

    // All nametable tiles are 0 (tile 0, palette 0, no priority) and
    // tile 0's pattern is all zeros (transparent), so background shows through.
    vdp.render_scanline(0);

    // Check pixel (0, 0) is the background color (green)
    let expected = Vdp::color_to_rgba(0x00E0);
    assert_eq!(vdp.framebuffer[0], expected[0]); // R
    assert_eq!(vdp.framebuffer[1], expected[1]); // G
    assert_eq!(vdp.framebuffer[2], expected[2]); // B
    assert_eq!(vdp.framebuffer[3], 0xFF); // A

    // Check another pixel mid-screen
    let offset = 160 * 4;
    assert_eq!(vdp.framebuffer[offset], expected[0]);
    assert_eq!(vdp.framebuffer[offset + 1], expected[1]);
}

#[test]
fn simple_tile_renders_correctly() {
    let mut vdp = setup_vdp_for_rendering();

    // Put a solid color in palette 0, color 1
    // Red: 0x000E
    vdp.cram[1] = 0x000E;

    // Write a tile pattern at tile index 1: all pixels = color 1
    let solid_tile = [[1u8; 8]; 8];
    write_tile_pattern(&mut vdp, 1, &solid_tile);

    // Write nametable entry at position (0,0) in Scroll A to point to tile 1
    // No priority, palette 0, no flip, tile index 1
    let nt_a_base = vdp.scroll_a_nametable_addr();
    vram_write_word(&mut vdp, nt_a_base, 0x0001); // tile index 1

    // Render scanline 0
    vdp.render_scanline(0);

    // Pixels 0-7 on line 0 should be red (tile 1, palette 0, color 1)
    let expected = Vdp::color_to_rgba(0x000E);
    for x in 0..8usize {
        let offset = x * 4;
        assert_eq!(
            &vdp.framebuffer[offset..offset + 4],
            &expected,
            "pixel at x={x} should be red"
        );
    }

    // Pixel 8 should be background (tile 0 is transparent -> BG)
    let bg = vdp.background_color();
    let offset = 8 * 4;
    assert_eq!(
        &vdp.framebuffer[offset..offset + 4],
        &bg,
        "pixel at x=8 should be background"
    );
}

#[test]
fn tile_horizontal_flip() {
    let mut vdp = setup_vdp_for_rendering();

    // Palette 0, color 1 = red, color 2 = blue
    vdp.cram[1] = 0x000E; // red
    vdp.cram[2] = 0x0E00; // blue

    // Tile 1: left half red, right half blue
    let mut pattern = [[0u8; 8]; 8];
    for row in &mut pattern {
        row[..4].fill(1); // red
        row[4..8].fill(2); // blue
    }
    write_tile_pattern(&mut vdp, 1, &pattern);

    // Nametable entry: tile 1, hflip set (bit 11)
    let nt_a_base = vdp.scroll_a_nametable_addr();
    vram_write_word(&mut vdp, nt_a_base, 0x0801); // hflip + tile 1

    vdp.render_scanline(0);

    // With hflip, left half should be blue, right half should be red
    let blue = Vdp::color_to_rgba(0x0E00);
    let red = Vdp::color_to_rgba(0x000E);
    for x in 0..4usize {
        let offset = x * 4;
        assert_eq!(
            &vdp.framebuffer[offset..offset + 4],
            &blue,
            "pixel at x={x} should be blue (flipped)"
        );
    }
    for x in 4..8usize {
        let offset = x * 4;
        assert_eq!(
            &vdp.framebuffer[offset..offset + 4],
            &red,
            "pixel at x={x} should be red (flipped)"
        );
    }
}

#[test]
fn priority_high_overwrites_low() {
    let mut vdp = setup_vdp_for_rendering();

    vdp.cram[1] = 0x000E; // red (palette 0, color 1)
    vdp.cram[2] = 0x0E00; // blue (palette 0, color 2)

    // Tile 1: solid color 1 (red) - for Scroll B
    let solid_red = [[1u8; 8]; 8];
    write_tile_pattern(&mut vdp, 1, &solid_red);

    // Tile 2: solid color 2 (blue) - for Scroll A
    let solid_blue = [[2u8; 8]; 8];
    write_tile_pattern(&mut vdp, 2, &solid_blue);

    // Scroll B nametable: tile 1, HIGH priority (bit 15)
    let nt_b_base = vdp.scroll_b_nametable_addr();
    vram_write_word(&mut vdp, nt_b_base, 0x8001); // priority + tile 1

    // Scroll A nametable: tile 2, LOW priority
    let nt_a_base = vdp.scroll_a_nametable_addr();
    vram_write_word(&mut vdp, nt_a_base, 0x0002); // no priority + tile 2

    vdp.render_scanline(0);

    // Scroll B has high priority, Scroll A has low priority.
    // Scroll A at low priority (level 1) should overwrite Scroll B at
    // high priority (level 2)? No: Scroll B is processed first, sets
    // priority level 2. Scroll A at level 1 cannot overwrite level 2.
    // So the pixel should be RED (Scroll B wins with high priority).
    let expected = Vdp::color_to_rgba(0x000E);
    assert_eq!(&vdp.framebuffer[0..4], &expected);
}

#[test]
fn vblank_flag_set_at_correct_scanline() {
    let mut vdp = Vdp::new();

    // Before any scanlines, not in vblank
    assert!(!vdp.in_vblank());

    // Simulate scanlines 0..223 (active)
    for line in 0..224 {
        vdp.begin_scanline(line);
    }
    // Still not in vblank (set externally by core)
    assert!(!vdp.in_vblank());

    // Core sets vblank at scanline 224
    vdp.set_vblank(true);
    assert!(vdp.in_vblank());
    assert_ne!(vdp.read_status() & 0x0008, 0);

    // End frame clears it (actually core does via set_vblank(false))
    vdp.set_vblank(false);
    assert!(!vdp.in_vblank());
}

#[test]
fn begin_scanline_sets_hblank_and_scanline() {
    let mut vdp = Vdp::new();
    vdp.registers[0x0A] = 0x0A; // H-interrupt counter reload value

    vdp.begin_scanline(0);
    assert_eq!(vdp.scanline(), 0);
    assert!(vdp.in_hblank);
    assert_eq!(vdp.h_interrupt_counter, 10); // Reloaded at line 0

    vdp.begin_scanline(42);
    assert_eq!(vdp.scanline(), 42);
    assert!(vdp.in_hblank);
}

#[test]
fn end_frame_resets_scanline() {
    let mut vdp = Vdp::new();
    vdp.scanline = 200;
    vdp.in_hblank = true;
    vdp.end_frame();
    assert_eq!(vdp.scanline(), 0);
    assert!(!vdp.in_hblank);
}

#[test]
fn display_disabled_renders_background() {
    let mut vdp = Vdp::new();
    // Display disabled (reg 1 bit 6 clear)
    vdp.registers[1] = 0x04;
    // Set background color
    vdp.registers[0x07] = 0x00;
    vdp.cram[0] = 0x0EEE; // white

    vdp.render_scanline(0);

    let expected = Vdp::color_to_rgba(0x0EEE);
    assert_eq!(&vdp.framebuffer[0..4], &expected);
}

// ---- DMA tests ----

#[test]
fn dma_68k_to_vram() {
    let mut vdp = setup_vdp_for_rendering();

    // Set up DMA source registers: address 0x000100 (word address = 0x80)
    // Source byte address = word_addr << 1 = 0x000100
    vdp.registers[0x15] = 0x80; // low byte of word address
    vdp.registers[0x16] = 0x00; // mid byte
    vdp.registers[0x17] = 0x00; // high byte (bits 6-7 = 00 = 68K to VRAM)

    // DMA length: 4 words
    vdp.registers[0x13] = 0x04;
    vdp.registers[0x14] = 0x00;

    // Set destination to VRAM address 0x0000
    vdp.address = 0x0000;
    vdp.access_type = Some(AccessType::VramWrite);
    vdp.dma_pending = true;

    // Provide a source data callback (simulated ROM)
    let mut source_data: Vec<u8> = vec![0; 0x200];
    source_data[0x100] = 0xAB;
    source_data[0x101] = 0xCD;
    source_data[0x102] = 0x12;
    source_data[0x103] = 0x34;
    source_data[0x104] = 0x56;
    source_data[0x105] = 0x78;
    source_data[0x106] = 0x9A;
    source_data[0x107] = 0xBC;

    let source = source_data.clone();
    let read_word = |addr: u32| -> u16 {
        let offset = addr as usize;
        if offset + 1 < source.len() {
            u16::from(source[offset]) << 8 | u16::from(source[offset + 1])
        } else {
            0
        }
    };

    vdp.run_dma(read_word);

    // Verify VRAM contents
    assert!(!vdp.dma_pending());
    assert_eq!(vdp.vram[0], 0xAB);
    assert_eq!(vdp.vram[1], 0xCD);
    assert_eq!(vdp.vram[2], 0x12);
    assert_eq!(vdp.vram[3], 0x34);
    assert_eq!(vdp.vram[4], 0x56);
    assert_eq!(vdp.vram[5], 0x78);
    assert_eq!(vdp.vram[6], 0x9A);
    assert_eq!(vdp.vram[7], 0xBC);

    // Length registers should be zeroed
    assert_eq!(vdp.registers[0x13], 0);
    assert_eq!(vdp.registers[0x14], 0);
}

#[test]
fn dma_vram_fill() {
    let mut vdp = setup_vdp_for_rendering();

    // Set DMA length to 8 words
    vdp.registers[0x13] = 0x08;
    vdp.registers[0x14] = 0x00;
    // DMA mode: VRAM fill (reg 0x17 bits 7-6 = 10)
    vdp.registers[0x17] = 0x80;

    // Set destination address and access type
    vdp.address = 0x0000;
    vdp.access_type = Some(AccessType::VramWrite);
    vdp.dma_fill_pending = true;

    // The fill value comes from data port write
    // High byte (0xFF) gets written to each address
    vdp.write_data(0xFF00);

    // First word should be the full write value
    assert_eq!(vdp.vram[0], 0xFF);
    assert_eq!(vdp.vram[1], 0x00);
    // Remaining 7 addresses should have the high byte (0xFF)
    for i in 1..8 {
        let addr = i * 2; // auto-increment is 2
        assert_eq!(vdp.vram[addr], 0xFF, "VRAM fill at addr {addr}");
    }

    // DMA fill pending should be cleared
    assert!(!vdp.dma_fill_pending);
    // Length registers should be zeroed
    assert_eq!(vdp.registers[0x13], 0);
    assert_eq!(vdp.registers[0x14], 0);
}

#[test]
fn dma_trigger_via_control_port() {
    let mut vdp = setup_vdp_for_rendering();

    // Set up DMA registers for 68K-to-VRAM
    vdp.registers[0x13] = 0x10; // length = 16 words
    vdp.registers[0x14] = 0x00;
    vdp.registers[0x15] = 0x00; // source word address 0
    vdp.registers[0x16] = 0x00;
    vdp.registers[0x17] = 0x00; // mode = 00 (68K to VRAM)

    // DMA requires reg 1 bit 4 set (already done in setup_vdp_for_rendering)
    assert!(vdp.registers[1] & 0x10 != 0);

    // Two-word control port command with CD5 set:
    // First word: CD1-0=01 (VRAM write), address low bits
    // Second word: CD5=1 (DMA), remaining address/CD bits
    // CD = 0b10_0001 = 0x21 (VRAM write + DMA)
    // First word: bits 15-14 = CD1-0 = 01, bits 13-0 = addr low = 0
    // -> first = 0x4000
    // Second word: bits 7-2 = CD5-2 = 1000_00, bits 1-0 = addr high = 00
    // -> second = 0x0080
    vdp.write_control(0x4000);
    vdp.write_control(0x0080);

    // DMA should now be pending
    assert!(vdp.dma_pending());
}

#[test]
fn scroll_b_renders_behind_scroll_a() {
    let mut vdp = setup_vdp_for_rendering();

    vdp.cram[1] = 0x000E; // red
    vdp.cram[2] = 0x00E0; // green

    // Tile 1: solid red
    write_tile_pattern(&mut vdp, 1, &[[1u8; 8]; 8]);
    // Tile 2: solid green
    write_tile_pattern(&mut vdp, 2, &[[2u8; 8]; 8]);

    // Scroll B: tile 1 (red), no priority
    let nt_b = vdp.scroll_b_nametable_addr();
    vram_write_word(&mut vdp, nt_b, 0x0001);

    // Scroll A: tile 2 (green), no priority
    let nt_a = vdp.scroll_a_nametable_addr();
    vram_write_word(&mut vdp, nt_a, 0x0002);

    vdp.render_scanline(0);

    // Scroll A should overwrite Scroll B (both low priority, A drawn after B)
    let expected = Vdp::color_to_rgba(0x00E0); // green
    assert_eq!(&vdp.framebuffer[0..4], &expected);
}

#[test]
fn transparent_tile_shows_layer_below() {
    let mut vdp = setup_vdp_for_rendering();

    vdp.cram[1] = 0x000E; // red

    // Tile 1: solid red
    write_tile_pattern(&mut vdp, 1, &[[1u8; 8]; 8]);

    // Scroll B: tile 1 (red)
    let nt_b = vdp.scroll_b_nametable_addr();
    vram_write_word(&mut vdp, nt_b, 0x0001);

    // Scroll A: tile 0 (all transparent — default)
    // Already 0 by default

    vdp.render_scanline(0);

    // Scroll A is transparent, so Scroll B (red) shows through
    let expected = Vdp::color_to_rgba(0x000E);
    assert_eq!(&vdp.framebuffer[0..4], &expected);
}

#[test]
fn tile_pixel_extracts_nibbles_correctly() {
    let mut vdp = Vdp::new();

    // Write tile 0 with a specific pattern
    // Row 0: pixels [0xA, 0xB, 0xC, 0xD, 0x1, 0x2, 0x3, 0x4]
    let row0 = [0xA, 0xB, 0xC, 0xD, 0x1, 0x2, 0x3, 0x4];
    let mut pattern = [[0u8; 8]; 8];
    pattern[0] = row0;
    write_tile_pattern(&mut vdp, 0, &pattern);

    for (col, &expected) in row0.iter().enumerate() {
        let got = vdp.tile_pixel(0, 0, col as u8, false, false);
        assert_eq!(got, expected, "tile_pixel at col {col}");
    }
}

#[test]
fn scroll_size_decoding() {
    let mut vdp = Vdp::new();

    vdp.registers[0x10] = 0x00; // 32x32
    assert_eq!(vdp.scroll_size(), (32, 32));

    vdp.registers[0x10] = 0x01; // 64x32
    assert_eq!(vdp.scroll_size(), (64, 32));

    vdp.registers[0x10] = 0x11; // 64x64
    assert_eq!(vdp.scroll_size(), (64, 64));

    vdp.registers[0x10] = 0x33; // 128x128
    assert_eq!(vdp.scroll_size(), (128, 128));

    // Invalid (0b10) treated as 32
    vdp.registers[0x10] = 0x22;
    assert_eq!(vdp.scroll_size(), (32, 32));
}

// ---- Window plane tests ----

#[test]
fn window_plane_renders_over_scroll_a() {
    let mut vdp = setup_vdp_for_rendering();

    // Set up colors: palette 0 color 1 = red, palette 0 color 2 = green
    vdp.cram[1] = 0x000E; // red
    vdp.cram[2] = 0x00E0; // green

    // Tile 1: solid red (for Scroll A)
    write_tile_pattern(&mut vdp, 1, &[[1u8; 8]; 8]);
    // Tile 2: solid green (for window)
    write_tile_pattern(&mut vdp, 2, &[[2u8; 8]; 8]);

    // Fill Scroll A nametable with tile 1 (red) across the full row
    let nt_a = vdp.scroll_a_nametable_addr();
    let (h_cells, _) = vdp.scroll_size();
    for col in 0..h_cells {
        vram_write_word(&mut vdp, nt_a + col as usize * 2, 0x0001);
    }

    // Window nametable at 0xA000 (reg 0x03 = 0x28 -> 0x28 & 0x3E = 0x28, 0x28 << 10 = 0xA000)
    vdp.registers[0x03] = 0x28;
    let nt_win = vdp.window_nametable_addr();
    assert_eq!(nt_win, 0xA000);

    // Fill window nametable with tile 2 (green) across the full row
    // Window nametable width in H40 mode = 64 cells
    let win_nt_width: u16 = 64;
    for col in 0..win_nt_width {
        vram_write_word(&mut vdp, nt_win + col as usize * 2, 0x0002);
    }

    // Configure window: left boundary at 160 px (10 cells * 16 px/unit = 160 px),
    // full vertical.
    // Register 0x11: left side (bit 7 = 0), count = 10 (0x0A)
    vdp.registers[0x11] = 0x0A;
    // Register 0x12: full vertical (bit 7 = 0), cell count = 31 (0x1F) -> 248 lines, covers 224
    vdp.registers[0x12] = 0x1F;

    vdp.render_scanline(0);

    // Pixel 0 should be green (window plane)
    let green = Vdp::color_to_rgba(0x00E0);
    assert_eq!(
        &vdp.framebuffer[0..4],
        &green,
        "pixel 0 should be green (window)"
    );

    // Pixel 160 should be red (Scroll A, outside window)
    let red = Vdp::color_to_rgba(0x000E);
    let offset = 160 * 4;
    assert_eq!(
        &vdp.framebuffer[offset..offset + 4],
        &red,
        "pixel 160 should be red (scroll A outside window)"
    );
}

#[test]
fn window_plane_disabled_shows_scroll_a() {
    let mut vdp = setup_vdp_for_rendering();

    // Set up color: palette 0 color 1 = red
    vdp.cram[1] = 0x000E; // red

    // Tile 1: solid red
    write_tile_pattern(&mut vdp, 1, &[[1u8; 8]; 8]);

    // Scroll A nametable: tile 1 at position (0,0)
    let nt_a = vdp.scroll_a_nametable_addr();
    vram_write_word(&mut vdp, nt_a, 0x0001);

    // Window registers at 0 — no coverage
    // Register 0x11 = 0x00: left side, 0 cells -> (0, 0) range = empty
    vdp.registers[0x11] = 0x00;
    // Register 0x12 = 0x00: top side, 0 cells -> (0, 0) range = empty
    vdp.registers[0x12] = 0x00;

    vdp.render_scanline(0);

    // Pixel 0 should be red (Scroll A, no window active)
    let red = Vdp::color_to_rgba(0x000E);
    assert_eq!(
        &vdp.framebuffer[0..4],
        &red,
        "pixel 0 should be red (scroll A, no window)"
    );
}

#[test]
fn window_plane_right_side() {
    let mut vdp = setup_vdp_for_rendering();

    // Set up colors: palette 0 color 1 = red, palette 0 color 2 = green
    vdp.cram[1] = 0x000E; // red
    vdp.cram[2] = 0x00E0; // green

    // Tile 1: solid red (for Scroll A)
    write_tile_pattern(&mut vdp, 1, &[[1u8; 8]; 8]);
    // Tile 2: solid green (for window)
    write_tile_pattern(&mut vdp, 2, &[[2u8; 8]; 8]);

    // Fill Scroll A nametable with tile 1 (red) across full row
    let nt_a = vdp.scroll_a_nametable_addr();
    let (h_cells, _) = vdp.scroll_size();
    for col in 0..h_cells {
        vram_write_word(&mut vdp, nt_a + col as usize * 2, 0x0001);
    }

    // Window nametable at 0xA000
    vdp.registers[0x03] = 0x28;
    let nt_win = vdp.window_nametable_addr();

    // Fill window nametable with tile 2 (green) across full row
    let win_nt_width: u16 = 64;
    for col in 0..win_nt_width {
        vram_write_word(&mut vdp, nt_win + col as usize * 2, 0x0002);
    }

    // Configure window on right side from x=160 rightward, full vertical
    // (10 cells * 16 px/unit = 160 px boundary).
    // Register 0x11: right side (bit 7 = 1), count = 10 -> 0x80 | 0x0A = 0x8A
    vdp.registers[0x11] = 0x8A;
    // Register 0x12: full vertical coverage
    vdp.registers[0x12] = 0x1F;

    vdp.render_scanline(0);

    // Pixel 0 should be red (Scroll A, left of window)
    let red = Vdp::color_to_rgba(0x000E);
    assert_eq!(
        &vdp.framebuffer[0..4],
        &red,
        "pixel 0 should be red (scroll A, left of window)"
    );

    // Pixel 160 should be green (window, right side)
    let green = Vdp::color_to_rgba(0x00E0);
    let offset = 160 * 4;
    assert_eq!(
        &vdp.framebuffer[offset..offset + 4],
        &green,
        "pixel 160 should be green (window, right side)"
    );
}

#[test]
fn h_interrupt_counter_fires_at_zero() {
    let mut vdp = Vdp::new();
    vdp.registers[0x0A] = 0x03; // fire every 4 scanlines
    vdp.registers[0] = 0x10; // enable H-interrupt

    vdp.begin_scanline(0); // counter loaded with 3
    assert!(!vdp.h_interrupt_pending());

    vdp.begin_scanline(1); // counter = 2
    assert!(!vdp.h_interrupt_pending());

    vdp.begin_scanline(2); // counter = 1
    assert!(!vdp.h_interrupt_pending());

    vdp.begin_scanline(3); // counter = 0
    assert!(!vdp.h_interrupt_pending());

    vdp.begin_scanline(4); // counter was 0, now -1 < 0, fire!
    assert!(vdp.h_interrupt_pending());
    vdp.clear_h_interrupt();

    vdp.begin_scanline(5); // counter reloaded to 3, decremented to 2
    assert!(!vdp.h_interrupt_pending());
}

#[test]
fn h_interrupt_disabled_does_not_fire() {
    let mut vdp = Vdp::new();
    vdp.registers[0x0A] = 0x00; // fire every scanline
    vdp.registers[0] = 0x00; // H-interrupt DISABLED

    vdp.begin_scanline(0);
    vdp.begin_scanline(1); // would fire if enabled
    assert!(!vdp.h_interrupt_pending());
}

// ---- HV counter tests ----

#[test]
fn hv_counter_reflects_scanline() {
    let mut vdp = Vdp::new();
    vdp.begin_scanline(42);
    let hv = vdp.read_hv_counter();
    assert_eq!((hv >> 8) as u8, 42, "V counter should be scanline number");
}

#[test]
fn hv_counter_v_wrap_ntsc() {
    let mut vdp = Vdp::new();
    // Scanline 0xEB (235) should wrap: 235 - 6 = 229 = 0xE5
    vdp.scanline = 0xEB;
    let hv = vdp.read_hv_counter();
    assert_eq!((hv >> 8) as u8, 0xE5);
}

// ---- Status register completeness tests ----

#[test]
fn status_register_fifo_empty_set() {
    let vdp = Vdp::new();
    assert_ne!(
        vdp.read_status() & 0x0200,
        0,
        "FIFO empty bit should be set"
    );
}

#[test]
fn status_register_odd_frame_toggles() {
    let mut vdp = Vdp::new();
    let status1 = vdp.read_status();
    vdp.end_frame();
    let status2 = vdp.read_status();
    assert_ne!(
        status1 & 0x0010,
        status2 & 0x0010,
        "odd frame bit should toggle"
    );
}

// ---- Shadow / highlight tests ----

/// A distinctive mid-gray (all three 3-bit components = 4).
/// Normal = [146,146,146,255], Shadow = [73,73,73,255], Highlight = [201,201,201,255].
const SH_GRAY: u16 = 0x0888;

/// Enable shadow/highlight mode (reg 0x0C bit 3) while keeping H40.
fn enable_shadow_highlight(vdp: &mut Vdp) {
    vdp.registers[0x0C] |= 0x08;
}

/// Write a 1x1 sprite as the sole entry of the sprite attribute table,
/// positioned at screen (0,0). The sprite tile is filled with `color_index`.
fn write_single_sprite(vdp: &mut Vdp, tile: u16, palette: u8, priority: bool, color_index: u8) {
    write_tile_pattern(vdp, tile, &[[color_index; 8]; 8]);
    let sat = vdp.sprite_table_addr();
    // word0: Y raw 128 -> screen Y 0
    vram_write_word(vdp, sat, 0x0080);
    // word1: v_size=1, h_size=1, link=0 (end of list)
    vram_write_word(vdp, sat + 2, 0x0000);
    // word2: priority | palette | tile
    let pri_bit = if priority { 0x8000 } else { 0x0000 };
    let pal_bits = (u16::from(palette) & 0x03) << 13;
    vram_write_word(vdp, sat + 4, pri_bit | pal_bits | (tile & 0x07FF));
    // word3: X raw 128 -> screen X 0
    vram_write_word(vdp, sat + 6, 0x0080);
}

#[test]
fn shadow_highlight_disabled_is_unchanged() {
    let mut vdp = setup_vdp_for_rendering();
    // reg 0x0C bit 3 stays 0 (S/H disabled).
    vdp.cram[1] = SH_GRAY;
    write_tile_pattern(&mut vdp, 1, &[[1u8; 8]; 8]);
    // Scroll A: low-priority tile 1.
    let nt_a = vdp.scroll_a_nametable_addr();
    vram_write_word(&mut vdp, nt_a, 0x0001);

    vdp.render_scanline(0);

    let normal = Vdp::color_to_rgba(SH_GRAY);
    assert_eq!(
        &vdp.framebuffer[0..4],
        &normal,
        "S/H disabled: low-priority plane must render at full normal color"
    );
}

#[test]
fn shadow_highlight_low_priority_plane_is_shadowed() {
    let mut vdp = setup_vdp_for_rendering();
    enable_shadow_highlight(&mut vdp);
    vdp.cram[1] = SH_GRAY;
    write_tile_pattern(&mut vdp, 1, &[[1u8; 8]; 8]);
    let nt_a = vdp.scroll_a_nametable_addr();
    vram_write_word(&mut vdp, nt_a, 0x0001); // low priority

    vdp.render_scanline(0);

    let normal = Vdp::color_to_rgba(SH_GRAY);
    let shadow = Vdp::apply_intensity(normal, 0);
    assert_eq!(shadow[0], normal[0] >> 1, "shadow halves the component");
    assert_eq!(
        &vdp.framebuffer[0..4],
        &shadow,
        "S/H on: low-priority plane pixel must be shadowed (halved)"
    );
}

#[test]
fn shadow_highlight_high_priority_plane_is_normal() {
    let mut vdp = setup_vdp_for_rendering();
    enable_shadow_highlight(&mut vdp);
    vdp.cram[1] = SH_GRAY;
    write_tile_pattern(&mut vdp, 1, &[[1u8; 8]; 8]);
    let nt_a = vdp.scroll_a_nametable_addr();
    vram_write_word(&mut vdp, nt_a, 0x8001); // HIGH priority

    vdp.render_scanline(0);

    let normal = Vdp::color_to_rgba(SH_GRAY);
    assert_eq!(
        &vdp.framebuffer[0..4],
        &normal,
        "S/H on: high-priority plane pixel stays at full normal color"
    );
}

#[test]
fn shadow_highlight_backdrop_is_shadowed() {
    let mut vdp = setup_vdp_for_rendering();
    enable_shadow_highlight(&mut vdp);
    // Backdrop = palette 0 color 0; give it a visible value.
    vdp.cram[0] = SH_GRAY;
    vdp.registers[0x07] = 0x00; // background = CRAM index 0

    // No tiles anywhere -> whole scanline is backdrop (priority 0).
    vdp.render_scanline(0);

    let normal = Vdp::color_to_rgba(SH_GRAY);
    let shadow = Vdp::apply_intensity(normal, 0);
    assert_eq!(
        &vdp.framebuffer[0..4],
        &shadow,
        "S/H on: backdrop (priority 0) must be shadowed"
    );
}

#[test]
fn shadow_operator_sprite_darkens() {
    let mut vdp = setup_vdp_for_rendering();
    enable_shadow_highlight(&mut vdp);
    // High-priority (Normal) plane pixel behind the operator.
    vdp.cram[1] = SH_GRAY;
    write_tile_pattern(&mut vdp, 1, &[[1u8; 8]; 8]);
    let nt_a = vdp.scroll_a_nametable_addr();
    vram_write_word(&mut vdp, nt_a, 0x8001); // high priority -> Normal base

    // Sentinel: if the operator wrongly drew its own color it would show red.
    vdp.cram[63] = 0x000E; // palette 3 color 15 -> red
    // Operator sprite: palette 3, color index 15 (shadow operator).
    write_single_sprite(&mut vdp, 3, 3, false, 15);

    vdp.render_scanline(0);

    let normal = Vdp::color_to_rgba(SH_GRAY);
    let shadow = Vdp::apply_intensity(normal, 0);
    assert_eq!(
        &vdp.framebuffer[0..4],
        &shadow,
        "shadow operator over a Normal pixel yields Shadow"
    );
    // Prove the operator did NOT draw its own (red) color.
    let sentinel = Vdp::color_to_rgba(0x000E);
    assert_ne!(
        &vdp.framebuffer[0..4],
        &sentinel,
        "operator sprite must not draw its own color"
    );
}

#[test]
fn highlight_operator_sprite_brightens() {
    let normal = Vdp::color_to_rgba(SH_GRAY);

    // Case (a): highlight operator over a SHADOWED (low-priority) pixel -> Normal.
    {
        let mut vdp = setup_vdp_for_rendering();
        enable_shadow_highlight(&mut vdp);
        vdp.cram[1] = SH_GRAY;
        write_tile_pattern(&mut vdp, 1, &[[1u8; 8]; 8]);
        let nt_a = vdp.scroll_a_nametable_addr();
        vram_write_word(&mut vdp, nt_a, 0x0001); // low priority -> Shadow base
        // Operator sprite: palette 3, color index 14 (highlight operator).
        write_single_sprite(&mut vdp, 3, 3, false, 14);

        vdp.render_scanline(0);
        assert_eq!(
            &vdp.framebuffer[0..4],
            &normal,
            "highlight operator over a Shadow pixel yields Normal"
        );
    }

    // Case (b): highlight operator over a NORMAL (high-priority) pixel -> Highlight.
    {
        let mut vdp = setup_vdp_for_rendering();
        enable_shadow_highlight(&mut vdp);
        vdp.cram[1] = SH_GRAY;
        write_tile_pattern(&mut vdp, 1, &[[1u8; 8]; 8]);
        let nt_a = vdp.scroll_a_nametable_addr();
        vram_write_word(&mut vdp, nt_a, 0x8001); // high priority -> Normal base
        write_single_sprite(&mut vdp, 3, 3, false, 14);

        vdp.render_scanline(0);
        let highlight = Vdp::apply_intensity(normal, 2);
        assert_eq!(
            &vdp.framebuffer[0..4],
            &highlight,
            "highlight operator over a Normal pixel yields Highlight"
        );
        assert!(
            vdp.framebuffer[0] > normal[0],
            "highlight must increase brightness"
        );
    }
}

#[test]
fn operator_sprite_draws_as_color_when_sh_disabled() {
    let mut vdp = setup_vdp_for_rendering();
    // S/H DISABLED (bit 3 left at 0).
    // palette 3 color 15 = a distinct color.
    vdp.cram[63] = 0x000E; // red
    write_single_sprite(&mut vdp, 3, 3, false, 15);

    vdp.render_scanline(0);

    let red = Vdp::color_to_rgba(0x000E);
    assert_eq!(
        &vdp.framebuffer[0..4],
        &red,
        "with S/H disabled, a palette-3 index-15 sprite draws its actual color"
    );
}

#[test]
fn normal_low_priority_sprite_over_low_bg_is_shadowed() {
    let mut vdp = setup_vdp_for_rendering();
    enable_shadow_highlight(&mut vdp);
    // Low-priority plane behind (red), distinct from sprite color.
    vdp.cram[1] = 0x000E; // red
    write_tile_pattern(&mut vdp, 1, &[[1u8; 8]; 8]);
    let nt_a = vdp.scroll_a_nametable_addr();
    vram_write_word(&mut vdp, nt_a, 0x0001); // low priority

    // Normal (non-operator) low-priority sprite, palette 0 color 2 = gray.
    vdp.cram[2] = SH_GRAY;
    write_single_sprite(&mut vdp, 3, 0, false, 2);

    vdp.render_scanline(0);

    let normal = Vdp::color_to_rgba(SH_GRAY);
    let shadow = Vdp::apply_intensity(normal, 0);
    assert_eq!(
        &vdp.framebuffer[0..4],
        &shadow,
        "low-priority sprite over low-priority bg: winning pixel is shadowed"
    );
}

#[test]
fn high_priority_sprite_is_normal() {
    let mut vdp = setup_vdp_for_rendering();
    enable_shadow_highlight(&mut vdp);
    vdp.cram[2] = SH_GRAY;
    // High-priority, non-operator sprite (palette 0 color 2).
    write_single_sprite(&mut vdp, 3, 0, true, 2);

    vdp.render_scanline(0);

    let normal = Vdp::color_to_rgba(SH_GRAY);
    assert_eq!(
        &vdp.framebuffer[0..4],
        &normal,
        "high-priority sprite renders at full normal color"
    );
}

// ---- DMA-busy / VInt-latch / status bits ----

/// The DMA-busy status bit (bit 1) is not set at reset and does not appear
/// in `read_status` until a transfer charges its cycle countdown.
#[test]
fn dma_busy_defaults_clear() {
    let vdp = Vdp::new();
    assert_eq!(vdp.dma_busy_cpu_cycles(), 0);
    assert!(!vdp.dma_busy());
    assert_eq!(vdp.read_status() & 0x0002, 0);
}

/// `dma_cost_cycles` charges more cycles in H40 than in H32, and more
/// during active display than during blanking (rates from the Sega
/// Software Manual DMA timing table).
#[test]
fn dma_cost_reflects_mode_and_blanking() {
    let mut vdp = Vdp::new();
    // H40 mode, display enabled → active-display rates.
    vdp.registers[0x0C] = 0x81;
    vdp.registers[1] = 0x40;
    vdp.in_vblank = false;
    let h40_active = vdp.dma_cost_cycles(1000, false);
    // H40, blanking (display off).
    vdp.registers[1] = 0x00;
    let h40_blank = vdp.dma_cost_cycles(1000, false);
    // H32 blanking runs slower per line than H40 blanking.
    vdp.registers[0x0C] = 0x00;
    let h32_blank = vdp.dma_cost_cycles(1000, false);

    assert!(
        h40_active > h40_blank,
        "active-display DMA stalls the CPU for more cycles than blanking (h40_active={h40_active}, h40_blank={h40_blank})"
    );
    assert!(
        h32_blank > h40_blank,
        "H32 blanking DMA is slower per line than H40 blanking (h32_blank={h32_blank}, h40_blank={h40_blank})"
    );

    // Zero-length transfers cost nothing.
    assert_eq!(vdp.dma_cost_cycles(0, false), 0);
    // Copy DMA runs at half the rate → costs more than a normal move of
    // the same length.
    let move_cost = vdp.dma_cost_cycles(1000, false);
    let copy_cost = vdp.dma_cost_cycles(1000, true);
    assert!(copy_cost >= move_cost);
}

/// A pending 68K→VRAM DMA charges DMA-busy for the transfer's cycle cost;
/// the status register reflects it; `advance_dma_busy` drains the countdown
/// and clears the bit.
#[test]
fn dma_busy_asserted_by_run_dma_and_drains_to_zero() {
    let mut vdp = setup_vdp_for_rendering();
    // 8-word transfer from address 0 into VRAM at 0xE000.
    vdp.registers[0x13] = 0x08;
    vdp.registers[0x14] = 0x00;
    vdp.registers[0x15] = 0x00;
    vdp.registers[0x16] = 0x00;
    vdp.registers[0x17] = 0x00;
    vdp.address = 0xE000;
    vdp.access_type = Some(AccessType::VramWrite);
    vdp.dma_pending = true;

    vdp.run_dma(|_addr| 0xBEEF);

    let cost = vdp.dma_busy_cpu_cycles();
    assert!(cost > 0, "run_dma must charge DMA-busy cycles");
    assert!(vdp.dma_busy());
    assert_ne!(
        vdp.read_status() & 0x0002,
        0,
        "status register bit 1 (DMA busy) is set while the transfer holds the bus"
    );

    // Drain part-way: still busy.
    vdp.advance_dma_busy(cost / 2);
    assert!(vdp.dma_busy());

    // Drain the rest: DMA-busy clears.
    vdp.advance_dma_busy(cost);
    assert!(!vdp.dma_busy());
    assert_eq!(vdp.read_status() & 0x0002, 0);
}

/// A VRAM fill also charges DMA-busy and stalls the bus.
#[test]
fn dma_fill_asserts_dma_busy() {
    let mut vdp = setup_vdp_for_rendering();
    vdp.registers[0x13] = 0x40;
    vdp.registers[0x14] = 0x00;
    vdp.registers[0x17] = 0x80; // fill
    vdp.address = 0x0000;
    vdp.access_type = Some(AccessType::VramWrite);

    vdp.execute_dma_fill(0xABCD);

    assert!(vdp.dma_busy_cpu_cycles() > 0);
    assert_ne!(vdp.read_status() & 0x0002, 0);
}

/// The V-interrupt-pending (VIP) latch: setting it exposes status bit 7;
/// clearing it hides it again.
#[test]
fn vint_pending_latch_shows_in_status_bit_7() {
    let mut vdp = Vdp::new();
    assert!(!vdp.vint_pending());
    assert_eq!(vdp.read_status() & 0x0080, 0);

    vdp.set_vint_pending();
    assert!(vdp.vint_pending());
    assert_ne!(
        vdp.read_status() & 0x0080,
        0,
        "status bit 7 (V-interrupt pending) tracks the latched flag"
    );

    vdp.clear_vint_pending();
    assert!(!vdp.vint_pending());
    assert_eq!(vdp.read_status() & 0x0080, 0);
}

/// Snapshot round-trip preserves the new fields — mirrors the coverage the
/// rewind determinism test in `genesoxide-test-harness` relies on.
#[test]
fn snapshot_roundtrip_covers_vint_and_dma_busy() {
    let mut vdp = Vdp::new();
    vdp.set_vint_pending();
    vdp.dma_busy_cpu_cycles = 1234;

    let snap = vdp.snapshot();
    assert!(snap.vint_pending);
    assert_eq!(snap.dma_busy_cpu_cycles, 1234);

    let mut restored = Vdp::new();
    restored.restore(&snap);
    assert!(restored.vint_pending());
    assert_eq!(restored.dma_busy_cpu_cycles(), 1234);
}

/// A counter below zero is spent: the next line reloads it and raises the interrupt.
#[test]
fn spent_h_interrupt_counter_reloads() {
    let mut vdp = Vdp::new();
    vdp.write_control(0x8010);
    vdp.write_control(0x8A05);
    let mut snap = vdp.snapshot();
    snap.h_interrupt_counter = -7;
    vdp.restore(&snap);
    vdp.begin_scanline(10);
    assert_eq!(vdp.snapshot().h_interrupt_counter, 5);
    assert!(vdp.snapshot().h_interrupt_pending);
    vdp.begin_scanline(11);
    assert_eq!(vdp.snapshot().h_interrupt_counter, 4);
}
