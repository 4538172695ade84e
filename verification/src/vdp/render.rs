//! VDP rendering: planes, window, sprites, priorities and shadow/highlight.
//!
//! A pixel is composed back to front: the background color, Scroll B, then the
//! window where it is active and Scroll A elsewhere, then the sprites of the
//! line in the order of the sprite link list.
use vstd::prelude::*;

use crate::vdp::{Vdp, VdpCore, VdpState};

verus! {

// ── Colors ───────────────────────────────────────────────────────────────

/// A 3-bit color level scaled to eight bits.
pub open spec fn level8(v: int) -> u8 {
    (v * 36 + v / 2) as u8
}

/// A 9-bit color (0000 BBB0 GGG0 RRR0) as RGBA bytes.
pub open spec fn rgba_of(color: u16) -> Seq<u8> {
    seq![
        level8(((color / 2) % 8) as int),
        level8(((color / 0x20) % 8) as int),
        level8(((color / 0x200) % 8) as int),
        0xFFu8,
    ]
}

/// One channel at an intensity: 0 = shadow, 2 = highlight, else normal.
pub open spec fn channel_at(v: u8, intensity: u8) -> u8 {
    if intensity == 0 {
        v / 2
    } else if intensity == 2 {
        (128 + v / 2) as u8
    } else {
        v
    }
}

/// RGBA bytes at an intensity; alpha stays.
pub open spec fn intensified(rgba: Seq<u8>, intensity: u8) -> Seq<u8> {
    seq![
        channel_at(rgba[0], intensity),
        channel_at(rgba[1], intensity),
        channel_at(rgba[2], intensity),
        rgba[3],
    ]
}

/// The CRAM word of the background (register 7).
pub open spec fn background_word(c: VdpCore) -> u16 {
    c.cram[(c.registers[7] % 64) as int]
}

// ── Tables ───────────────────────────────────────────────────────────────

/// The big-endian VRAM word at a byte address, which wraps.
pub open spec fn vram_word(c: VdpCore, addr: int) -> u16 {
    (c.vram[addr % 0x10000] * 0x100 + c.vram[(addr + 1) % 0x10000]) as u16
}

/// A plane dimension in cells from its two register bits.
pub open spec fn cells_of(bits: int) -> u16 {
    if bits == 1 {
        64
    } else if bits == 3 {
        128
    } else {
        32
    }
}

/// Horizontal plane size in cells.
pub open spec fn plane_h_cells(c: VdpCore) -> u16 {
    cells_of((c.registers[0x10] % 4) as int)
}

/// Vertical plane size in cells.
pub open spec fn plane_v_cells(c: VdpCore) -> u16 {
    cells_of(((c.registers[0x10] / 16) % 4) as int)
}

/// Nametable of Scroll A: bits 3-5 of register 2 are address bits 13-15.
pub open spec fn nametable_a(c: VdpCore) -> int {
    ((c.registers[2] / 8) % 8) * 0x2000
}

/// Nametable of Scroll B: bits 0-2 of register 4 are address bits 13-15.
pub open spec fn nametable_b(c: VdpCore) -> int {
    (c.registers[4] % 8) * 0x2000
}

/// Nametable of the window: bits 1-5 of register 3 are address bits 11-15.
pub open spec fn nametable_window(c: VdpCore) -> int {
    ((c.registers[3] / 2) % 32) * 0x800
}

/// The H-scroll table.
pub open spec fn hscroll_table(c: VdpCore) -> int {
    (c.registers[0x0D] % 64) * 0x400
}

/// The sprite attribute table.
pub open spec fn sprite_table(c: VdpCore) -> int {
    (c.registers[5] % 128) * 0x200
}

/// The H-scroll word of plane `plane` (0 = A, 1 = B) on a line: one entry for
/// the screen, per eight lines, or per line.
pub open spec fn hscroll_word(c: VdpCore, line: u16, plane: int) -> u16 {
    let mode = c.registers[0x0B] % 4;
    let offset: int = if mode == 2 {
        (line / 8) * 4
    } else if mode == 3 {
        line * 4
    } else {
        0
    };
    vram_word(c, hscroll_table(c) + offset + 2 * plane)
}

/// The V-scroll of plane `plane` at a cell column: one for the screen, or one
/// per two cells.
pub open spec fn vscroll_word(c: VdpCore, col: int, plane: int) -> u16 {
    if (c.registers[0x0B] / 4) % 2 == 1 {
        let index = (col / 2) * 2 + plane;
        if index < 40 {
            c.vsram[index]
        } else {
            0
        }
    } else {
        c.vsram[plane]
    }
}

// ── Tiles and planes ─────────────────────────────────────────────────────

/// The 4-bit color index of a tile pixel (0 = transparent). A tile is 32 bytes,
/// a row four, a byte two pixels with the left one in the high nibble.
pub open spec fn tile_index_at(
    c: VdpCore,
    tile: int,
    row: int,
    col: int,
    hflip: bool,
    vflip: bool,
) -> u8 {
    let r = if vflip {
        7 - row
    } else {
        row
    };
    let k = if hflip {
        7 - col
    } else {
        col
    };
    let byte = c.vram[(tile * 32 + r * 4 + k / 2) % 0x10000];
    if k % 2 == 0 {
        byte / 16
    } else {
        byte % 16
    }
}

/// The CRAM word of a palette entry.
pub open spec fn palette_word(c: VdpCore, palette: int, index: int) -> u16 {
    c.cram[(palette * 16 + index) % 64]
}

/// The pixel of a nametable entry at a row and column of its tile: its color and
/// its priority, or nothing where it is transparent.
pub open spec fn entry_pixel(c: VdpCore, entry: u16, row: int, col: int) -> Option<(u16, bool)> {
    let hflip = (entry / 0x800) % 2 == 1;
    let vflip = (entry / 0x1000) % 2 == 1;
    let index = tile_index_at(c, (entry % 0x800) as int, row, col, hflip, vflip);
    if index == 0 {
        None
    } else {
        Some((palette_word(c, ((entry / 0x2000) % 4) as int, index as int), entry >= 0x8000))
    }
}

/// The pixel of a scroll plane at plane coordinates.
pub open spec fn plane_pixel(c: VdpCore, base: int, x: int, y: int) -> Option<(u16, bool)> {
    let tile_col = (x / 8) % plane_h_cells(c) as int;
    let tile_row = (y / 8) % plane_v_cells(c) as int;
    let entry = vram_word(c, base + (tile_row * plane_h_cells(c) + tile_col) * 2);
    entry_pixel(c, entry, y % 8, x % 8)
}

/// The pixel of a scroll plane at screen coordinates: scrolled up by the
/// V-scroll and right by the H-scroll.
pub open spec fn scrolled_pixel(
    c: VdpCore,
    base: int,
    plane: int,
    line: u16,
    x: u16,
) -> Option<(u16, bool)> {
    let y = line.wrapping_add(vscroll_word(c, (x / 8) as int, plane)) % ((plane_v_cells(c) * 8)
        as u16);
    let px = x.wrapping_sub(hscroll_word(c, line, plane)) % ((plane_h_cells(c) * 8) as u16);
    plane_pixel(c, base, px as int, y as int)
}

/// The window covers a screen position: both its horizontal split (register
/// 0x11, units of 16 pixels) and its vertical split (register 0x12, units of 8
/// lines) must.
pub open spec fn in_window(c: VdpCore, line: u16, x: u16) -> bool {
    let split_x = (c.registers[0x11] % 32) * 16;
    let split_y = (c.registers[0x12] % 32) * 8;
    &&& if c.registers[0x11] >= 0x80 {
        x >= split_x
    } else {
        x < split_x
    }
    &&& if c.registers[0x12] >= 0x80 {
        line >= split_y
    } else {
        line < split_y
    }
}

/// The pixel of the window, which does not scroll.
pub open spec fn window_pixel(c: VdpCore, line: u16, x: u16) -> Option<(u16, bool)> {
    let width: int = if c.h40() {
        64
    } else {
        32
    };
    let entry = vram_word(c, nametable_window(c) + ((line / 8) * width + x / 8) * 2);
    entry_pixel(c, entry, (line % 8) as int, (x % 8) as int)
}

/// A pixel under composition: its color, the priority level of its source (0 =
/// background, 1 = low, 2 = high), the shadow (1) or highlight (2) operator over
/// it, and whether a sprite has drawn it.
#[derive(Clone, Copy, PartialEq, Eq, Debug, Structural)]
pub struct Pixel {
    pub color: u16,
    pub priority: u8,
    pub operator: u8,
    pub sprite: bool,
}

/// The priority level of a source.
pub open spec fn priority_level(high: bool) -> u8 {
    if high {
        2
    } else {
        1
    }
}

/// A plane drawn over a pixel: it wins at the same or a higher priority.
pub open spec fn over_plane(p: Pixel, layer: Option<(u16, bool)>) -> Pixel {
    match layer {
        Some((color, high)) => if priority_level(high) >= p.priority {
            Pixel { color, priority: priority_level(high), ..p }
        } else {
            p
        },
        None => p,
    }
}

/// The pixel of background, Scroll B and Scroll A or window.
pub open spec fn planes_pixel(c: VdpCore, line: u16, x: u16) -> Pixel {
    let bg = Pixel { color: background_word(c), priority: 0, operator: 0, sprite: false };
    let with_b = over_plane(bg, scrolled_pixel(c, nametable_b(c), 1, line, x));
    over_plane(
        with_b,
        if in_window(c, line, x) {
            window_pixel(c, line, x)
        } else {
            scrolled_pixel(c, nametable_a(c), 0, line, x)
        },
    )
}

// ── Sprites ──────────────────────────────────────────────────────────────

/// A sprite as it meets a line: horizontal position as stored (128 is the left
/// edge), size in cells, attributes, and the sprite row on the line after
/// vertical flip.
#[derive(Clone, Copy, PartialEq, Eq, Debug, Structural)]
pub struct SpriteLine {
    pub x: u16,
    pub h_size: u16,
    pub v_size: u16,
    pub attributes: u16,
    pub row: u16,
}

/// Words of a sprite attribute entry.
pub open spec fn sprite_entry_word(c: VdpCore, index: int, k: int) -> u16 {
    vram_word(c, sprite_table(c) + index * 8 + 2 * k)
}

/// Height of a sprite in cells.
pub open spec fn sprite_v_size(c: VdpCore, index: int) -> int {
    (sprite_entry_word(c, index, 1) / 0x100) % 4 + 1
}

/// The sprite intersects the line. Vertical position 128 is the top edge; a
/// sprite above it is not shown.
pub open spec fn sprite_on_line(c: VdpCore, index: int, line: u16) -> bool {
    let y = sprite_entry_word(c, index, 0) % 0x400;
    128 <= y && y - 128 <= line < y - 128 + sprite_v_size(c, index) * 8
}

/// The sprite as it meets the line.
pub open spec fn sprite_line(c: VdpCore, index: int, line: u16) -> SpriteLine {
    let v_size = sprite_v_size(c, index);
    let row = line - (sprite_entry_word(c, index, 0) % 0x400 - 128);
    let attributes = sprite_entry_word(c, index, 2);
    SpriteLine {
        x: sprite_entry_word(c, index, 3) % 0x200,
        h_size: ((sprite_entry_word(c, index, 1) / 0x400) % 4 + 1) as u16,
        v_size: v_size as u16,
        attributes,
        row: (if (attributes / 0x1000) % 2 == 1 {
            v_size * 8 - 1 - row
        } else {
            row
        }) as u16,
    }
}

/// Sprites evaluated per frame.
pub open spec fn max_sprites(c: VdpCore) -> int {
    if c.h40() {
        80
    } else {
        64
    }
}

/// Sprites shown per line.
pub open spec fn max_sprites_per_line(c: VdpCore) -> int {
    if c.h40() {
        20
    } else {
        16
    }
}

/// Walks the sprite link list from an entry, adding the sprites on the line. The
/// walk ends at link 0, when the frame limit is reached, or at a sprite beyond
/// the line limit.
pub open spec fn sprite_walk(
    c: VdpCore,
    line: u16,
    index: int,
    visited: int,
    found: Seq<SpriteLine>,
) -> Seq<SpriteLine>
    decreases max_sprites(c) - visited,
{
    if visited >= max_sprites(c) {
        found
    } else {
        let hit = sprite_on_line(c, index, line);
        if hit && found.len() >= max_sprites_per_line(c) {
            found
        } else {
            let found2 = if hit {
                found.push(sprite_line(c, index, line))
            } else {
                found
            };
            let link = (sprite_entry_word(c, index, 1) % 128) as int;
            if link == 0 {
                found2
            } else {
                sprite_walk(c, line, link, visited + 1, found2)
            }
        }
    }
}

/// The sprites on a line, in link order.
pub open spec fn line_sprites(c: VdpCore, line: u16) -> Seq<SpriteLine> {
    sprite_walk(c, line, 0, 0, Seq::empty())
}

/// The color index of a sprite at a screen column (0 = transparent or outside).
/// Tiles of a sprite are stored column by column.
pub open spec fn sprite_index_at(c: VdpCore, s: SpriteLine, x: u16) -> u8 {
    let offset = x + 128 - s.x;
    if 0 <= offset < s.h_size * 8 {
        let k = if (s.attributes / 0x800) % 2 == 1 {
            s.h_size * 8 - 1 - offset
        } else {
            offset
        };
        tile_index_at(
            c,
            s.attributes % 0x800 + (k / 8) * s.v_size + s.row / 8,
            (s.row % 8) as int,
            k % 8,
            false,
            false,
        )
    } else {
        0
    }
}

/// A sprite drawn over a pixel. In shadow/highlight mode colors 14 and 15 of
/// palette 3 are operators: the first one not behind a sprite counts. Otherwise
/// a sprite wins over planes at the same or a higher priority, and over an
/// earlier sprite only at a higher one.
pub open spec fn over_sprite(c: VdpCore, p: Pixel, s: SpriteLine, x: u16) -> Pixel {
    let index = sprite_index_at(c, s, x);
    let palette = (s.attributes / 0x2000) % 4;
    let level = priority_level(s.attributes >= 0x8000);
    if index == 0 {
        p
    } else if shadow_highlight(c) && palette == 3 && index >= 14 {
        if !p.sprite && p.operator == 0 {
            Pixel {
                operator: if index == 15 {
                    1
                } else {
                    2
                },
                ..p
            }
        } else {
            p
        }
    } else if level > p.priority || (!p.sprite && level == p.priority) {
        Pixel {
            color: palette_word(c, palette as int, index as int),
            priority: level,
            sprite: true,
            ..p
        }
    } else {
        p
    }
}

/// Shadow/highlight mode (register 0x0C, bit 3).
pub open spec fn shadow_highlight(c: VdpCore) -> bool {
    (c.registers[0x0C] / 8) % 2 == 1
}

/// The first `n` sprites drawn over a pixel in order.
pub open spec fn over_sprites(
    c: VdpCore,
    p: Pixel,
    sprites: Seq<SpriteLine>,
    x: u16,
    n: nat,
) -> Pixel
    decreases n,
{
    if n == 0 {
        p
    } else {
        over_sprite(c, over_sprites(c, p, sprites, x, (n - 1) as nat), sprites[n - 1], x)
    }
}

/// The intensity of a composed pixel: normal where a high-priority source won,
/// else shadow; a highlight operator raises it by one, a shadow operator makes
/// it shadow.
pub open spec fn intensity_of(p: Pixel) -> u8 {
    let base: u8 = if p.priority == 2 {
        1
    } else {
        0
    };
    if p.operator == 2 {
        (base + 1) as u8
    } else if p.operator == 1 {
        0
    } else {
        base
    }
}

/// The composed pixel at a screen position.
pub open spec fn composed(c: VdpCore, line: u16, x: u16) -> Pixel {
    let sprites = line_sprites(c, line);
    over_sprites(c, planes_pixel(c, line, x), sprites, x, sprites.len())
}

/// The RGBA bytes shown at a screen position. The left column blank (register 0,
/// bit 5) shows the background color in the first eight columns.
pub open spec fn shown_rgba(c: VdpCore, line: u16, x: u16) -> Seq<u8> {
    let p = composed(c, line, x);
    let color = if (c.registers[0] / 0x20) % 2 == 1 && x < 8 {
        background_word(c)
    } else {
        p.color
    };
    if shadow_highlight(c) {
        intensified(rgba_of(color), intensity_of(p))
    } else {
        rgba_of(color)
    }
}

/// The framebuffer with `colors` painted from pixel `start` on.
pub open spec fn painted(fb: Seq<u8>, start: int, colors: Seq<Seq<u8>>) -> Seq<u8> {
    Seq::new(
        fb.len(),
        |i: int|
            if start * 4 <= i < (start + colors.len()) * 4 {
                colors[i / 4 - start][i % 4]
            } else {
                fb[i]
            },
    )
}

/// The colors of a rendered line: the composed pixels, or the background where
/// the display is off.
pub open spec fn line_colors(c: VdpCore, line: u16, width: u16) -> Seq<Seq<u8>> {
    Seq::new(
        width as nat,
        |x: int|
            if c.display() {
                shown_rgba(c, line, x as u16)
            } else {
                rgba_of(background_word(c))
            },
    )
}

/// The VDP after a scanline is rendered. Line 0 latches the width of the frame;
/// lines from 224 on paint nothing; a shown line ends H-blank.
pub open spec fn scanline_rendered(s: VdpState, line: u16) -> VdpState {
    let width = if line == 0 {
        s.core.width()
    } else {
        s.frame_width
    };
    VdpState {
        core: VdpCore {
            in_hblank: if line < 224 && s.core.display() {
                false
            } else {
                s.core.in_hblank
            },
            ..s.core
        },
        frame_width: width,
        framebuffer: if line < 224 {
            painted(s.framebuffer, line * width, line_colors(s.core, line, width))
        } else {
            s.framebuffer
        },
    }
}

// ── Executable rendering ─────────────────────────────────────────────────

/// A 3-bit color level scaled to eight bits.
fn scale_level(v: u16) -> (r: u8)
    requires
        v < 8,
    ensures
        r == level8(v as int),
{
    (v * 36 + v / 2) as u8
}

impl Vdp {
    /// Converts a 9-bit color (0000 BBB0 GGG0 RRR0) to RGBA.
    #[must_use]
    pub fn color_to_rgba(color: u16) -> (r: [u8; 4])
        ensures
            r@ == rgba_of(color),
    {
        [
            scale_level((color / 2) % 8),
            scale_level((color / 0x20) % 8),
            scale_level((color / 0x200) % 8),
            0xFF,
        ]
    }

    /// Applies a shadow/highlight intensity (0 = shadow, 2 = highlight) to RGBA
    /// bytes.
    #[must_use]
    pub fn apply_intensity(rgba: [u8; 4], intensity: u8) -> (r: [u8; 4])
        ensures
            r@ == intensified(rgba@, intensity),
    {
        if intensity == 0 {
            [rgba[0] / 2, rgba[1] / 2, rgba[2] / 2, rgba[3]]
        } else if intensity == 2 {
            [128 + rgba[0] / 2, 128 + rgba[1] / 2, 128 + rgba[2] / 2, rgba[3]]
        } else {
            assert(rgba@ =~= intensified(rgba@, intensity));
            rgba
        }
    }

    /// Returns the background color.
    #[must_use]
    pub fn background_color(&self) -> (r: [u8; 4])
        ensures
            r@ == rgba_of(background_word(self@.core)),
    {
        Vdp::color_to_rgba(self.cram[(self.registers[7] % 64) as usize])
    }

    /// Reads a big-endian word from VRAM at the given byte address.
    #[must_use]
    pub fn vram_read_word(&self, addr: usize) -> (r: u16)
        requires
            addr < 0x8000_0000,
        ensures
            r == vram_word(self@.core, addr as int),
    {
        self.vram[addr % 0x10000] as u16 * 0x100 + self.vram[(addr + 1) % 0x10000] as u16
    }

    /// Scroll plane size from register 0x10, as (h_cells, v_cells).
    #[must_use]
    pub fn scroll_size(&self) -> (r: (u16, u16))
        ensures
            r.0 == plane_h_cells(self@.core),
            r.1 == plane_v_cells(self@.core),
    {
        let reg: u8 = self.registers[0x10];
        let h: u8 = reg % 4;
        let v: u8 = (reg / 16) % 4;
        (
            if h == 1 {
                64
            } else if h == 3 {
                128
            } else {
                32
            },
            if v == 1 {
                64
            } else if v == 3 {
                128
            } else {
                32
            },
        )
    }

    /// Nametable base address of Scroll A.
    #[must_use]
    pub fn scroll_a_nametable_addr(&self) -> (r: usize)
        ensures
            r == nametable_a(self@.core),
    {
        ((self.registers[2] / 8) % 8) as usize * 0x2000
    }

    /// Nametable base address of Scroll B.
    #[must_use]
    pub fn scroll_b_nametable_addr(&self) -> (r: usize)
        ensures
            r == nametable_b(self@.core),
    {
        (self.registers[4] % 8) as usize * 0x2000
    }

    /// Nametable base address of the window plane.
    #[must_use]
    pub fn window_nametable_addr(&self) -> (r: usize)
        ensures
            r == nametable_window(self@.core),
    {
        ((self.registers[3] / 2) % 32) as usize * 0x800
    }

    /// Base address of the H-scroll table.
    #[must_use]
    pub fn hscroll_table_addr(&self) -> (r: usize)
        ensures
            r == hscroll_table(self@.core),
    {
        (self.registers[0x0D] % 64) as usize * 0x400
    }

    /// Base address of the sprite attribute table.
    #[must_use]
    pub fn sprite_table_addr(&self) -> (r: usize)
        ensures
            r == sprite_table(self@.core),
    {
        (self.registers[5] % 128) as usize * 0x200
    }

    /// H-scroll values of a scanline, as the words (scroll A, scroll B).
    #[must_use]
    pub fn hscroll_for_line(&self, line: u16) -> (r: (u16, u16))
        ensures
            r.0 == hscroll_word(self@.core, line, 0),
            r.1 == hscroll_word(self@.core, line, 1),
    {
        let mode: u8 = self.registers[0x0B] % 4;
        let offset: usize = if mode == 2 {
            (line / 8) as usize * 4
        } else if mode == 3 {
            line as usize * 4
        } else {
            0
        };
        let addr: usize = self.hscroll_table_addr() + offset;
        (self.vram_read_word(addr), self.vram_read_word(addr + 2))
    }

    /// V-scroll value of a cell column and plane (0 = Scroll A, 1 = Scroll B).
    #[must_use]
    pub fn vscroll_for_column(&self, col: u16, plane: u8) -> (r: u16)
        requires
            plane <= 1,
        ensures
            r == vscroll_word(self@.core, col as int, plane as int),
    {
        if (self.registers[0x0B] / 4) % 2 == 1 {
            let index: usize = (col / 2) as usize * 2 + plane as usize;
            if index < 40 {
                self.vsram[index]
            } else {
                0
            }
        } else {
            self.vsram[plane as usize]
        }
    }

    /// Fetches a single pixel from a tile pattern in VRAM: its 4-bit palette
    /// index (0 = transparent).
    #[must_use]
    pub fn tile_pixel(&self, tile_index: u16, row: u8, col: u8, hflip: bool, vflip: bool) -> (r: u8)
        requires
            row < 8,
            col < 8,
        ensures
            r == tile_index_at(self@.core, tile_index as int, row as int, col as int, hflip, vflip),
            r < 16,
    {
        let actual_row: u8 = if vflip {
            7 - row
        } else {
            row
        };
        let actual_col: u8 = if hflip {
            7 - col
        } else {
            col
        };
        let addr: usize = tile_index as usize * 32 + actual_row as usize * 4 + (actual_col / 2)
            as usize;
        let byte: u8 = self.vram[addr % 0x10000];
        if actual_col % 2 == 0 {
            byte / 16
        } else {
            byte % 16
        }
    }

    /// The CRAM word of a palette entry.
    #[must_use]
    pub fn resolve_color(&self, palette: u8, color_index: u8) -> (r: u16)
        ensures
            r == palette_word(self@.core, palette as int, color_index as int),
    {
        self.cram[(palette as usize * 16 + color_index as usize) % 64]
    }

    /// The pixel of a nametable entry.
    fn render_entry_pixel(&self, entry: u16, row: u8, col: u8) -> (r: Option<(u16, bool)>)
        requires
            row < 8,
            col < 8,
        ensures
            r == entry_pixel(self@.core, entry, row as int, col as int),
    {
        let hflip = (entry / 0x800) % 2 == 1;
        let vflip = (entry / 0x1000) % 2 == 1;
        let index: u8 = self.tile_pixel(entry % 0x800, row, col, hflip, vflip);
        if index == 0 {
            None
        } else {
            Some((self.resolve_color(((entry / 0x2000) % 4) as u8, index), entry >= 0x8000))
        }
    }

    /// Renders one pixel of a scroll plane at plane coordinates: its color and
    /// priority, or nothing where it is transparent.
    #[must_use]
    pub fn render_plane_pixel(&self, nametable_base: usize, pixel_x: u16, pixel_y: u16) -> (r:
        Option<(u16, bool)>)
        requires
            nametable_base < 0x1_0000,
        ensures
            r == plane_pixel(self@.core, nametable_base as int, pixel_x as int, pixel_y as int),
    {
        let (h_cells, v_cells) = self.scroll_size();
        let tile_col: usize = ((pixel_x / 8) % h_cells) as usize;
        let tile_row: usize = ((pixel_y / 8) % v_cells) as usize;
        assert(tile_row * h_cells <= 127 * 128) by (nonlinear_arith)
            requires
                tile_row <= 127,
                h_cells <= 128,
        ;
        let entry: u16 = self.vram_read_word(
            nametable_base + (tile_row * h_cells as usize + tile_col) * 2,
        );
        self.render_entry_pixel(entry, (pixel_y % 8) as u8, (pixel_x % 8) as u8)
    }

    /// Renders one pixel of a scroll plane at screen coordinates.
    fn render_scrolled_pixel(
        &self,
        nametable_base: usize,
        plane: u8,
        hscroll: u16,
        line: u16,
        x: u16,
    ) -> (r: Option<(u16, bool)>)
        requires
            nametable_base < 0x1_0000,
            plane <= 1,
            hscroll == hscroll_word(self@.core, line, plane as int),
        ensures
            r == scrolled_pixel(self@.core, nametable_base as int, plane as int, line, x),
    {
        let (h_cells, v_cells) = self.scroll_size();
        let vscroll: u16 = self.vscroll_for_column(x / 8, plane);
        let y: u16 = line.wrapping_add(vscroll) % (v_cells * 8);
        let px: u16 = x.wrapping_sub(hscroll) % (h_cells * 8);
        self.render_plane_pixel(nametable_base, px, y)
    }

    /// The window covers a screen position.
    fn window_covers(&self, line: u16, x: u16) -> (r: bool)
        ensures
            r == in_window(self@.core, line, x),
    {
        let split_x: u16 = (self.registers[0x11] % 32) as u16 * 16;
        let split_y: u16 = (self.registers[0x12] % 32) as u16 * 8;
        let across = if self.registers[0x11] >= 0x80 {
            x >= split_x
        } else {
            x < split_x
        };
        let down = if self.registers[0x12] >= 0x80 {
            line >= split_y
        } else {
            line < split_y
        };
        across && down
    }

    /// Renders one pixel of the window.
    fn render_window_pixel(&self, line: u16, x: u16) -> (r: Option<(u16, bool)>)
        ensures
            r == window_pixel(self@.core, line, x),
    {
        let width: usize = if self.is_h40() {
            64
        } else {
            32
        };
        let offset: usize = (line / 8) as usize * width + (x / 8) as usize;
        let entry: u16 = self.vram_read_word(self.window_nametable_addr() + offset * 2);
        self.render_entry_pixel(entry, (line % 8) as u8, (x % 8) as u8)
    }

    /// Draws a plane over a pixel.
    fn draw_plane(p: Pixel, layer: Option<(u16, bool)>) -> (r: Pixel)
        ensures
            r == over_plane(p, layer),
    {
        match layer {
            Some((color, high)) => {
                let level: u8 = if high {
                    2
                } else {
                    1
                };
                if level >= p.priority {
                    Pixel { color, priority: level, operator: p.operator, sprite: p.sprite }
                } else {
                    p
                }
            },
            None => p,
        }
    }

    /// Composes background, Scroll B and Scroll A or window.
    fn compose_planes(&self, line: u16, x: u16) -> (r: Pixel)
        ensures
            r == planes_pixel(self@.core, line, x),
    {
        let (scroll_a, scroll_b) = self.hscroll_for_line(line);
        let bg = Pixel {
            color: self.cram[(self.registers[7] % 64) as usize],
            priority: 0,
            operator: 0,
            sprite: false,
        };
        let layer_b = self.render_scrolled_pixel(
            self.scroll_b_nametable_addr(),
            1,
            scroll_b,
            line,
            x,
        );
        let with_b = Vdp::draw_plane(bg, layer_b);
        let layer_a = if self.window_covers(line, x) {
            self.render_window_pixel(line, x)
        } else {
            self.render_scrolled_pixel(self.scroll_a_nametable_addr(), 0, scroll_a, line, x)
        };
        Vdp::draw_plane(with_b, layer_a)
    }

    /// Collects the sprites that intersect the given scanline.
    #[must_use]
    pub fn sprites_on_line(&self, line: u16) -> (r: Vec<SpriteLine>)
        ensures
            r@ == line_sprites(self@.core, line),
    {
        let table: usize = self.sprite_table_addr();
        let (max_total, max_per_line): (usize, usize) = if self.is_h40() {
            (80, 20)
        } else {
            (64, 16)
        };
        let mut found: Vec<SpriteLine> = Vec::new();
        let mut index: usize = 0;
        let mut visited: usize = 0;
        let mut done = false;
        while !done && visited < max_total
            invariant
                table == sprite_table(self@.core),
                index < 128,
                visited <= max_total,
                max_total == max_sprites(self@.core),
                max_per_line == max_sprites_per_line(self@.core),
                done ==> found@ == line_sprites(self@.core, line),
                !done ==> sprite_walk(self@.core, line, index as int, visited as int, found@)
                    == line_sprites(self@.core, line),
            decreases max_total - visited,
        {
            let entry: usize = table + index * 8;
            let word0: u16 = self.vram_read_word(entry);
            let word1: u16 = self.vram_read_word(entry + 2);
            let y: u16 = word0 % 0x400;
            let v_size: u16 = (word1 / 0x100) % 4 + 1;
            let hit = 128 <= y && y - 128 <= line && (line as u32) < (y - 128 + v_size * 8) as u32;
            assert(hit == sprite_on_line(self@.core, index as int, line));
            visited = visited + 1;
            if hit && found.len() >= max_per_line {
                done = true;
            } else {
                if hit {
                    let attributes: u16 = self.vram_read_word(entry + 4);
                    let row: u16 = line - (y - 128);
                    found.push(
                        SpriteLine {
                            x: self.vram_read_word(entry + 6) % 0x200,
                            h_size: (word1 / 0x400) % 4 + 1,
                            v_size,
                            attributes,
                            row: if (attributes / 0x1000) % 2 == 1 {
                                v_size * 8 - 1 - row
                            } else {
                                row
                            },
                        },
                    );
                }
                let link: usize = (word1 % 128) as usize;
                if link == 0 {
                    done = true;
                } else {
                    index = link;
                }
            }
        }
        found
    }

    /// The color index of a sprite at a screen column.
    fn sprite_pixel(&self, s: SpriteLine, x: u16) -> (r: u8)
        requires
            s.x < 0x200,
            1 <= s.h_size <= 4,
            1 <= s.v_size <= 4,
            s.row < s.v_size * 8,
            x < 320,
        ensures
            r == sprite_index_at(self@.core, s, x),
            r < 16,
    {
        if x + 128 < s.x || x + 128 - s.x >= s.h_size * 8 {
            return 0;
        }
        let offset: u16 = x + 128 - s.x;
        let k: u16 = if (s.attributes / 0x800) % 2 == 1 {
            s.h_size * 8 - 1 - offset
        } else {
            offset
        };
        assert((k / 8) * s.v_size <= 16) by (nonlinear_arith)
            requires
                k / 8 <= 4,
                s.v_size <= 4,
        ;
        let tile: u16 = s.attributes % 0x800 + (k / 8) * s.v_size + s.row / 8;
        self.tile_pixel(tile, (s.row % 8) as u8, (k % 8) as u8, false, false)
    }

    /// Draws a sprite over a pixel.
    fn draw_sprite(&self, p: Pixel, s: SpriteLine, x: u16) -> (r: Pixel)
        requires
            s.x < 0x200,
            1 <= s.h_size <= 4,
            1 <= s.v_size <= 4,
            s.row < s.v_size * 8,
            x < 320,
        ensures
            r == over_sprite(self@.core, p, s, x),
    {
        let index: u8 = self.sprite_pixel(s, x);
        let palette: u8 = ((s.attributes / 0x2000) % 4) as u8;
        let level: u8 = if s.attributes >= 0x8000 {
            2
        } else {
            1
        };
        let mut q = p;
        if index == 0 {
        } else if (self.registers[0x0C] / 8) % 2 == 1 && palette == 3 && index >= 14 {
            if !p.sprite && p.operator == 0 {
                q.operator = if index == 15 {
                    1
                } else {
                    2
                };
            }
        } else if level > p.priority || (!p.sprite && level == p.priority) {
            q.color = self.resolve_color(palette, index);
            q.priority = level;
            q.sprite = true;
        }
        q
    }

    /// The RGBA bytes shown at a screen position, given the sprites of the line.
    fn shown_pixel(&self, line: u16, x: u16, sprites: &Vec<SpriteLine>) -> (r: [u8; 4])
        requires
            x < 320,
            sprites@ == line_sprites(self@.core, line),
        ensures
            r@ == shown_rgba(self@.core, line, x),
    {
        let planes = self.compose_planes(line, x);
        let mut p = planes;
        let mut n: usize = 0;
        proof {
            assert(all_in_bounds(Seq::<SpriteLine>::empty())) by {
                reveal(all_in_bounds);
            }
            lemma_sprite_walk_bounds(self@.core, line, 0, 0, Seq::empty());
        }
        while n < sprites.len()
            invariant
                n <= sprites.len(),
                x < 320,
                sprites@ == line_sprites(self@.core, line),
                p == over_sprites(self@.core, planes, sprites@, x, n as nat),
                all_in_bounds(sprites@),
            decreases sprites.len() - n,
        {
            assert(sprite_bounds(sprites@[n as int])) by {
                reveal(all_in_bounds);
            }
            p = self.draw_sprite(p, sprites[n], x);
            n = n + 1;
        }
        let color: u16 = if (self.registers[0] / 0x20) % 2 == 1 && x < 8 {
            self.cram[(self.registers[7] % 64) as usize]
        } else {
            p.color
        };
        let rgba: [u8; 4] = Vdp::color_to_rgba(color);
        if (self.registers[0x0C] / 8) % 2 == 1 {
            let base: u8 = if p.priority == 2 {
                1
            } else {
                0
            };
            let intensity: u8 = if p.operator == 2 {
                base + 1
            } else if p.operator == 1 {
                0
            } else {
                base
            };
            Vdp::apply_intensity(rgba, intensity)
        } else {
            rgba
        }
    }

    /// Renders one scanline into the framebuffer.
    pub fn render_scanline(&mut self, line: u16)
        requires
            old(self)@.wf(),
        ensures
            final(self)@ == scanline_rendered(old(self)@, line),
            final(self)@.wf(),
    {
        if line == 0 {
            self.frame_width = self.screen_width();
        }
        if line >= 224 {
            return;
        }
        let width: u16 = self.frame_width;
        let shown = self.display_enabled();
        let sprites = self.sprites_on_line(line);
        let bg: [u8; 4] = self.background_color();
        assert(line * width + width <= 71_680) by (nonlinear_arith)
            requires
                line < 224,
                width <= 320,
        ;
        let start: usize = line as usize * width as usize;
        let ghost before = self@;
        let ghost colors = line_colors(before.core, line, width);
        let mut x: u16 = 0;
        while x < width
            invariant
                x <= width,
                width <= 320,
                start + width <= 71_680,
                before.framebuffer.len() == 286_720,
                shown == before.core.display(),
                colors == line_colors(before.core, line, width),
                sprites@ == line_sprites(before.core, line),
                bg@ == rgba_of(background_word(before.core)),
                self@.core == before.core,
                self@.frame_width == before.frame_width,
                self@.framebuffer == painted(
                    before.framebuffer,
                    start as int,
                    colors.subrange(0, x as int),
                ),
            decreases width - x,
        {
            let rgba: [u8; 4] = if shown {
                self.shown_pixel(line, x, &sprites)
            } else {
                bg
            };
            assert(rgba@ == colors[x as int]);
            let offset: usize = (start + x as usize) * 4;
            self.framebuffer[offset] = rgba[0];
            self.framebuffer[offset + 1] = rgba[1];
            self.framebuffer[offset + 2] = rgba[2];
            self.framebuffer[offset + 3] = rgba[3];
            x = x + 1;
            assert(self@.framebuffer =~= painted(
                before.framebuffer,
                start as int,
                colors.subrange(0, x as int),
            ));
        }
        assert(colors.subrange(0, width as int) =~= colors);
        if shown {
            self.in_hblank = false;
        }
    }
}

/// The fields of a sprite on a line are in range.
pub open spec fn sprite_bounds(s: SpriteLine) -> bool {
    s.x < 0x200 && 1 <= s.h_size <= 4 && 1 <= s.v_size <= 4 && s.row < s.v_size * 8
}

/// All sprites have fields in range.
#[verifier::opaque]
pub open spec fn all_in_bounds(s: Seq<SpriteLine>) -> bool {
    forall|i: int| 0 <= i < s.len() ==> sprite_bounds(#[trigger] s[i])
}

/// A sprite on the line has fields in range.
proof fn lemma_sprite_line_bounds(c: VdpCore, index: int, line: u16)
    requires
        sprite_on_line(c, index, line),
    ensures
        sprite_bounds(sprite_line(c, index, line)),
{
}

/// Adding a sprite with fields in range keeps all in range.
proof fn lemma_push_bounds(s: Seq<SpriteLine>, x: SpriteLine)
    requires
        all_in_bounds(s),
        sprite_bounds(x),
    ensures
        all_in_bounds(s.push(x)),
{
    reveal(all_in_bounds);
}

/// The sprite walk only adds sprites with fields in range.
proof fn lemma_sprite_walk_bounds(
    c: VdpCore,
    line: u16,
    index: int,
    visited: int,
    found: Seq<SpriteLine>,
)
    requires
        all_in_bounds(found),
    ensures
        all_in_bounds(sprite_walk(c, line, index, visited, found)),
    decreases max_sprites(c) - visited,
{
    if visited < max_sprites(c) {
        if sprite_on_line(c, index, line) {
            lemma_sprite_line_bounds(c, index, line);
            lemma_push_bounds(found, sprite_line(c, index, line));
            lemma_sprite_walk_bounds(
                c,
                line,
                (sprite_entry_word(c, index, 1) % 128) as int,
                visited + 1,
                found.push(sprite_line(c, index, line)),
            );
        } else {
            lemma_sprite_walk_bounds(
                c,
                line,
                (sprite_entry_word(c, index, 1) % 128) as int,
                visited + 1,
                found,
            );
        }
    }
}

} // verus!
