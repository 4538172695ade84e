//! What stands on the screen: tiles, planes, window, sprites and colors.
use vstd::prelude::*;

use crate::vdp::render::{
    channel_at, composed, entry_pixel, hscroll_table, hscroll_word, in_window, intensified,
    intensity_of, level8, line_colors, line_sprites, max_sprites, nametable_a, nametable_b,
    nametable_window, over_sprite, over_sprites, palette_word, plane_h_cells, plane_pixel,
    plane_v_cells, planes_pixel, priority_level, rgba_of, scanline_rendered, scrolled_pixel,
    shadow_highlight, shown_rgba, sprite_entry_word, sprite_index_at, sprite_line, sprite_on_line,
    sprite_table, sprite_walk, tile_index_at, vram_word, vscroll_word, window_pixel, Pixel,
    SpriteLine,
};
use crate::vdp::{VdpCore, VdpState};

verus! {

// ── Tiles ────────────────────────────────────────────────────────────────

/// The color index that VRAM holds for a pixel of a tile: 32 bytes a tile, four a
/// row, the left pixel of a byte in its high half.
pub open spec fn pattern_pixel(vram: Seq<u8>, tile: int, row: int, col: int) -> int {
    let byte = vram[(tile * 32 + row * 4 + col / 2) % 0x10000] as int;
    if col % 2 == 0 {
        byte / 16
    } else {
        byte % 16
    }
}

/// Flipping a tile shows its mirror image: pixel `col` from the left is the one
/// that stood as far from the right, and so for rows.
pub proof fn law_flips_mirror(c: VdpCore, tile: int, row: int, col: int, h: bool, v: bool)
    requires
        0 <= row < 8,
        0 <= col < 8,
    ensures
        tile_index_at(c, tile, row, col, h, v) == pattern_pixel(
            c.vram,
            tile,
            if v {
                7 - row
            } else {
                row
            },
            if h {
                7 - col
            } else {
                col
            },
        ),
        tile_index_at(c, tile, row, 7 - col, !h, v) == tile_index_at(c, tile, row, col, h, v),
        tile_index_at(c, tile, 7 - row, col, h, !v) == tile_index_at(c, tile, row, col, h, v),
        tile_index_at(c, tile, row, col, h, v) < 16,
{
}

/// A nametable entry: eleven bits of tile number, a horizontal and a vertical flip,
/// two bits of palette and a priority bit. Color 0 is transparent.
pub proof fn law_nametable_entry(
    c: VdpCore,
    tile: int,
    h: bool,
    v: bool,
    palette: int,
    high: bool,
    row: int,
    col: int,
)
    requires
        0 <= tile < 0x800,
        0 <= palette < 4,
        0 <= row < 8,
        0 <= col < 8,
    ensures
        ({
            let entry = (tile + flag(h, 0x800) + flag(v, 0x1000) + palette * 0x2000 + flag(
                high,
                0x8000,
            )) as u16;
            let index = tile_index_at(c, tile, row, col, h, v) as int;
            &&& index == 0 ==> entry_pixel(c, entry, row, col) is None
            &&& index != 0 ==> entry_pixel(c, entry, row, col) == Some(
                (c.cram[palette * 16 + index], high),
            )
        }),
{
    lemma_entry_fields(tile, h, v, palette, high);
    law_flips_mirror(c, tile, row, col, h, v);
    let index = tile_index_at(c, tile, row, col, h, v) as int;
    assert((palette * 16 + index) % 64 == palette * 16 + index);
}

/// The fields of a nametable entry read back.
proof fn lemma_entry_fields(tile: int, h: bool, v: bool, palette: int, high: bool)
    requires
        0 <= tile < 0x800,
        0 <= palette < 4,
    ensures
        ({
            let entry = (tile + flag(h, 0x800) + flag(v, 0x1000) + palette * 0x2000 + flag(
                high,
                0x8000,
            )) as u16;
            &&& entry % 0x800 == tile
            &&& ((entry / 0x800) % 2 == 1) == h
            &&& ((entry / 0x1000) % 2 == 1) == v
            &&& (entry / 0x2000) % 4 == palette
            &&& (entry >= 0x8000) == high
        }),
{
    let e = tile + flag(h, 0x800) + flag(v, 0x1000) + palette * 0x2000 + flag(high, 0x8000);
    assert(0 <= e < 0x1_0000);
    let q = flag(h, 1) + 2 * flag(v, 1) + 4 * palette + 16 * flag(high, 1);
    assert(e == 0x800 * q + tile);
    assert(e / 0x800 == q && e % 0x800 == tile);
    assert(e / 0x1000 == q / 2);
    assert(e / 0x2000 == q / 4);
}

/// The weight of a bit that is set.
pub open spec fn flag(set: bool, weight: int) -> int {
    if set {
        weight
    } else {
        0
    }
}

// ── Planes ───────────────────────────────────────────────────────────────

/// A plane is a grid of cells of eight by eight pixels, row by row, one nametable
/// word each.
pub proof fn law_plane_cells(c: VdpCore, base: int, col: int, row: int, i: int, j: int)
    requires
        0 <= col < plane_h_cells(c),
        0 <= row < plane_v_cells(c),
        0 <= i < 8,
        0 <= j < 8,
    ensures
        plane_pixel(c, base, col * 8 + i, row * 8 + j) == entry_pixel(
            c,
            vram_word(c, base + 2 * (row * plane_h_cells(c) + col)),
            j,
            i,
        ),
{
    let x = col * 8 + i;
    let y = row * 8 + j;
    assert(x / 8 == col && x % 8 == i && y / 8 == row && y % 8 == j);
    assert(col % plane_h_cells(c) as int == col);
    assert(row % plane_v_cells(c) as int == row);
}

/// The screen shows the plane moved right by the H-scroll and up by the V-scroll,
/// around its edges.
pub proof fn law_scroll_moves_plane(c: VdpCore, base: int, plane: int, line: u16, x: u16)
    requires
        line < 0x400,
        x < 0x400,
    ensures
        scrolled_pixel(c, base, plane, line, x) == plane_pixel(
            c,
            base,
            (x - hscroll_word(c, line, plane)) % (plane_h_cells(c) * 8),
            (line + vscroll_word(c, x as int / 8, plane)) % (plane_v_cells(c) * 8),
        ),
{
    let h = hscroll_word(c, line, plane);
    let v = vscroll_word(c, x as int / 8, plane);
    lemma_wrapped_position(x - h, x.wrapping_sub(h) as int, plane_h_cells(c) as int);
    lemma_wrapped_position(line + v, line.wrapping_add(v) as int, plane_v_cells(c) as int);
}

/// Wrapping at 65536 does not show in a plane.
proof fn lemma_wrapped_position(a: int, b: int, cells: int)
    requires
        a == b || a == b + 0x1_0000 || a == b - 0x1_0000,
        cells == 32 || cells == 64 || cells == 128,
    ensures
        a % (cells * 8) == b % (cells * 8),
{
    if cells == 32 {
        assert(a % 256 == b % 256);
    } else if cells == 64 {
        assert(a % 512 == b % 512);
    } else {
        assert(a % 1024 == b % 1024);
    }
}

/// H-scroll by screen, by cell row or by line: the table holds a word for plane A
/// and one for plane B in turn.
pub proof fn law_hscroll_modes(c: VdpCore, line: u16, other: u16, plane: int)
    requires
        0 <= plane <= 1,
        c.wf(),
    ensures
        c.registers[0x0B] % 4 == 0 ==> hscroll_word(c, line, plane) == hscroll_word(
            c,
            other,
            plane,
        ),
        c.registers[0x0B] % 4 == 2 && line / 8 == other / 8 ==> hscroll_word(c, line, plane)
            == hscroll_word(c, other, plane),
        c.registers[0x0B] % 4 == 2 ==> hscroll_word(c, line, plane) == vram_word(
            c,
            (c.registers[0x0D] % 64) * 0x400 + 4 * (line / 8) + 2 * plane,
        ),
        c.registers[0x0B] % 4 == 3 ==> hscroll_word(c, line, plane) == vram_word(
            c,
            (c.registers[0x0D] % 64) * 0x400 + 4 * line + 2 * plane,
        ),
        c.registers[0x0B] % 4 == 0 ==> hscroll_word(c, line, plane) == vram_word(
            c,
            (c.registers[0x0D] % 64) * 0x400 + 2 * plane,
        ),
{
}

/// V-scroll by screen or by columns of two cells.
pub proof fn law_vscroll_modes(c: VdpCore, col: int, plane: int)
    requires
        0 <= plane <= 1,
        0 <= col < 40,
    ensures
        (c.registers[0x0B] / 4) % 2 == 0 ==> vscroll_word(c, col, plane) == c.vsram[plane],
        (c.registers[0x0B] / 4) % 2 == 1 ==> vscroll_word(c, col, plane) == c.vsram[2 * (col / 2)
            + plane],
{
}

/// The tables lie where their registers say, in steps of their own.
pub proof fn law_table_addresses(c: VdpCore)
    requires
        c.wf(),
    ensures
        nametable_a(c) == ((c.registers[2] / 8) % 8) * 8192,
        nametable_b(c) == (c.registers[4] % 8) * 8192,
        nametable_window(c) == ((c.registers[3] / 2) % 32) * 2048,
        sprite_table(c) == (c.registers[5] % 128) * 512,
        hscroll_table(c) == (c.registers[0x0D] % 64) * 1024,
        c.registers[0x10] % 4 == 0 ==> plane_h_cells(c) == 32,
        c.registers[0x10] % 4 == 1 ==> plane_h_cells(c) == 64,
        c.registers[0x10] % 4 == 3 ==> plane_h_cells(c) == 128,
        (c.registers[0x10] / 16) % 4 == 0 ==> plane_v_cells(c) == 32,
        (c.registers[0x10] / 16) % 4 == 1 ==> plane_v_cells(c) == 64,
        (c.registers[0x10] / 16) % 4 == 3 ==> plane_v_cells(c) == 128,
{
}

/// The window stands still: cell (col, row) of the screen shows its own nametable
/// word, 64 words a row in H40 and 32 in H32.
pub proof fn law_window_stands_still(c: VdpCore, col: int, row: int, i: int, j: int)
    requires
        0 <= col < 40,
        0 <= row < 30,
        0 <= i < 8,
        0 <= j < 8,
    ensures
        window_pixel(c, (row * 8 + j) as u16, (col * 8 + i) as u16) == entry_pixel(
            c,
            vram_word(
                c,
                nametable_window(c) + 2 * (row * (if c.h40() {
                    64int
                } else {
                    32
                }) + col),
            ),
            j,
            i,
        ),
{
    let x = (col * 8 + i) as u16;
    let line = (row * 8 + j) as u16;
    assert(x / 8 == col && x % 8 == i && line / 8 == row && line % 8 == j);
}

/// The window lies to the right of its split (bit 7 of register 0x11) or to the
/// left of it, and below its split (bit 7 of register 0x12) or above it; it covers
/// what both say.
pub proof fn law_window_area(c: VdpCore, line: u16, x: u16)
    requires
        c.wf(),
    ensures
        ({
            let right = c.registers[0x11] / 128 == 1;
            let below = c.registers[0x12] / 128 == 1;
            let split_x = 16 * (c.registers[0x11] % 32);
            let split_y = 8 * (c.registers[0x12] % 32);
            in_window(c, line, x) <==> (right <==> x >= split_x) && (below <==> line >= split_y)
        }),
{
}

/// Of the two planes, the window counting as the first where it lies, the first
/// covers the second unless only the second has priority; where neither is opaque
/// the background shows.
pub proof fn law_planes_cover(c: VdpCore, line: u16, x: u16)
    ensures
        ({
            let a = if in_window(c, line, x) {
                window_pixel(c, line, x)
            } else {
                scrolled_pixel(c, nametable_a(c), 0, line, x)
            };
            let b = scrolled_pixel(c, nametable_b(c), 1, line, x);
            let p = planes_pixel(c, line, x);
            &&& a is None && b is None ==> p.color == c.cram[(c.registers[7] % 64) as int]
                && p.priority == 0
            &&& a is Some && (b is None || (a->0).1 || !(b->0).1) ==> p.color == (a->0).0 && p.priority
                == priority_level((a->0).1)
            &&& b is Some && (a is None || ((b->0).1 && !(a->0).1)) ==> p.color == (b->0).0 && p.priority
                == priority_level((b->0).1)
            &&& !p.sprite
            &&& p.operator == 0
        }),
{
}

// ── Sprites ──────────────────────────────────────────────────────────────

/// A sprite is made of cells numbered down its columns: cell (col, row) of one that
/// is `h` cells wide and `v` high shows tile `base + col * v + row`. It stands 128
/// pixels up and left of its stored position, and flips as a whole.
pub proof fn law_sprite_cells(
    c: VdpCore,
    index: int,
    col: int,
    row: int,
    i: int,
    j: int,
    x: u16,
    line: u16,
)
    requires
        0 <= i < 8,
        0 <= j < 8,
        x < 320,
        line < 240,
        ({
            let size = sprite_entry_word(c, index, 1) / 0x100;
            let attributes = sprite_entry_word(c, index, 2);
            let h = (size / 4) % 4 + 1;
            let v = size % 4 + 1;
            let left = sprite_entry_word(c, index, 3) % 0x200 - 128;
            let top = sprite_entry_word(c, index, 0) % 0x400 - 128;
            &&& 0 <= col < h
            &&& 0 <= row < v
            &&& top >= 0
            &&& x == left + if (attributes / 0x800) % 2 == 1 {
                h * 8 - 1 - (col * 8 + i)
            } else {
                col * 8 + i
            }
            &&& line == top + if (attributes / 0x1000) % 2 == 1 {
                v * 8 - 1 - (row * 8 + j)
            } else {
                row * 8 + j
            }
        }),
    ensures
        sprite_on_line(c, index, line),
        sprite_index_at(c, sprite_line(c, index, line), x) == pattern_pixel(
            c.vram,
            sprite_entry_word(c, index, 2) % 0x800 + col * ((sprite_entry_word(c, index, 1) / 0x100)
                % 4 + 1) + row,
            j,
            i,
        ),
{
    let s = sprite_line(c, index, line);
    lemma_sprite_row(c, index, row, j, line);
    lemma_sprite_column(c, s, col, i, x);
}

/// A sprite meets each of its lines with the row that its flip puts there.
#[verifier::spinoff_prover]
proof fn lemma_sprite_row(c: VdpCore, index: int, row: int, j: int, line: u16)
    requires
        0 <= j < 8,
        ({
            let v = (sprite_entry_word(c, index, 1) / 0x100) % 4 + 1;
            let top = sprite_entry_word(c, index, 0) % 0x400 - 128;
            &&& 0 <= row < v
            &&& top >= 0
            &&& line == top + if (sprite_entry_word(c, index, 2) / 0x1000) % 2 == 1 {
                v * 8 - 1 - (row * 8 + j)
            } else {
                row * 8 + j
            }
        }),
    ensures
        sprite_on_line(c, index, line),
        ({
            let s = sprite_line(c, index, line);
            let size = sprite_entry_word(c, index, 1) / 0x100;
            &&& s.x == sprite_entry_word(c, index, 3) % 0x200
            &&& s.h_size == (size / 4) % 4 + 1
            &&& s.v_size == size % 4 + 1
            &&& s.attributes == sprite_entry_word(c, index, 2)
            &&& s.row == row * 8 + j
        }),
{
    let word = sprite_entry_word(c, index, 1);
    assert((word / 0x400) % 4 == ((word / 0x100) / 4) % 4);
}

/// A column of a sprite shows the tiles of that column, from the left or, flipped,
/// from the right.
#[verifier::spinoff_prover]
proof fn lemma_sprite_column(c: VdpCore, s: SpriteLine, col: int, i: int, x: u16)
    requires
        0 <= i < 8,
        0 <= col < s.h_size <= 4,
        x + 128 - s.x == if (s.attributes / 0x800) % 2 == 1 {
            s.h_size * 8 - 1 - (col * 8 + i)
        } else {
            col * 8 + i
        },
    ensures
        sprite_index_at(c, s, x) == pattern_pixel(
            c.vram,
            s.attributes % 0x800 + col * s.v_size + s.row / 8,
            s.row as int % 8,
            i,
        ),
{
    let k = col * 8 + i;
    assert(k / 8 == col && k % 8 == i);
    let tile = s.attributes % 0x800 + col * s.v_size + s.row / 8;
    law_flips_mirror(c, tile, s.row as int % 8, i, false, false);
}

/// A sprite shows nothing left of its first cell, right of its last, above or
/// below it.
pub proof fn law_sprite_bounds(c: VdpCore, index: int, x: u16, line: u16)
    ensures
        ({
            let size = sprite_entry_word(c, index, 1) / 0x100;
            let left = sprite_entry_word(c, index, 3) % 0x200 - 128;
            let top = sprite_entry_word(c, index, 0) % 0x400 - 128;
            &&& x < left || x >= left + 8 * ((size / 4) % 4 + 1) ==> sprite_index_at(
                c,
                sprite_line(c, index, line),
                x,
            ) == 0
            &&& line < top || line >= top + 8 * (size % 4 + 1) || top < 0 ==> !sprite_on_line(
                c,
                index,
                line,
            )
        }),
{
    let word = sprite_entry_word(c, index, 1);
    assert((word / 0x400) % 4 == ((word / 0x100) / 4) % 4);
}

/// An opaque sprite pixel takes the place of the planes at the same or a higher
/// priority, and stands behind those of a higher one. A transparent one leaves
/// everything. Its color is that of its palette.
pub proof fn law_sprite_over_planes(c: VdpCore, p: Pixel, s: SpriteLine, x: u16)
    requires
        !p.sprite,
        p.priority <= 2,
        !shadow_highlight(c),
    ensures
        ({
            let index = sprite_index_at(c, s, x);
            let q = over_sprite(c, p, s, x);
            let high = s.attributes / 0x8000 == 1;
            &&& index == 0 ==> q == p
            &&& index != 0 && (high || p.priority < 2) ==> {
                &&& q.sprite
                &&& q.color == palette_word(
                    c,
                    ((s.attributes / 0x2000) % 4) as int,
                    index as int,
                )
                &&& q.priority == if high {
                    2u8
                } else {
                    1
                }
            }
            &&& index != 0 && !high && p.priority == 2 ==> q == p
        }),
{
}

/// The first sprite of the link list comes first on its lines, and the list goes
/// on at the link, unless that is 0.
pub proof fn law_sprites_follow_links(
    c: VdpCore,
    line: u16,
    index: int,
    visited: int,
    found: Seq<SpriteLine>,
)
    requires
        0 <= visited < max_sprites(c),
        found.len() < 16,
    ensures
        ({
            let next = (sprite_entry_word(c, index, 1) % 0x80) as int;
            let more = if sprite_on_line(c, index, line) {
                found.push(sprite_line(c, index, line))
            } else {
                found
            };
            &&& next == 0 ==> sprite_walk(c, line, index, visited, found) == more
            &&& next != 0 ==> sprite_walk(c, line, index, visited, found) == sprite_walk(
                c,
                line,
                next,
                visited + 1,
                more,
            )
        }),
        line_sprites(c, line) == sprite_walk(c, line, 0, 0, Seq::empty()),
{
}

/// Where no sprite meets the line, the planes alone show.
pub proof fn law_no_sprite_shows_planes(c: VdpCore, line: u16, x: u16)
    requires
        line_sprites(c, line).len() == 0,
    ensures
        composed(c, line, x) == planes_pixel(c, line, x),
{
}

/// A lone sprite is drawn over the planes.
pub proof fn law_lone_sprite(c: VdpCore, line: u16, x: u16)
    requires
        line_sprites(c, line).len() == 1,
    ensures
        composed(c, line, x) == over_sprite(
            c,
            planes_pixel(c, line, x),
            line_sprites(c, line)[0],
            x,
        ),
{
    reveal_with_fuel(over_sprites, 2);
}

// ── Colors ───────────────────────────────────────────────────────────────

/// Color levels go from black to full in even steps, red in bits 1 to 3, green in
/// bits 5 to 7, blue in bits 9 to 11, and every pixel is opaque.
pub proof fn law_color_channels(r: int, g: int, b: int)
    requires
        0 <= r < 8,
        0 <= g < 8,
        0 <= b < 8,
    ensures
        ({
            let rgba = rgba_of((r * 2 + g * 32 + b * 512) as u16);
            &&& rgba.len() == 4
            &&& rgba[0] == level8(r)
            &&& rgba[1] == level8(g)
            &&& rgba[2] == level8(b)
            &&& rgba[3] == 255
        }),
        level8(0) == 0,
        level8(7) == 255,
        r < 7 ==> 36 <= level8(r + 1) - level8(r) <= 37,
{
    let color = (r * 2 + g * 32 + b * 512) as u16;
    assert((color / 2) % 8 == r);
    assert((color / 0x20) % 8 == g);
    assert((color / 0x200) % 8 == b);
}

/// Shadow halves a channel, highlight moves it half way up, and normal leaves it;
/// so shadow never brightens and highlight never darkens.
pub proof fn law_intensities(v: u8)
    ensures
        channel_at(v, 0) == v / 2,
        channel_at(v, 1) == v,
        channel_at(v, 2) == 128 + v / 2,
        channel_at(v, 0) <= v <= channel_at(v, 2),
{
}

/// In shadow/highlight mode a pixel whose source has priority shows as it is and
/// any other in shadow; the highlight operator raises either by a step and the
/// shadow operator puts either in shadow.
pub proof fn law_shadow_and_highlight(p: Pixel)
    requires
        p.priority <= 2,
        p.operator <= 2,
    ensures
        p.operator == 0 ==> intensity_of(p) == flag(p.priority == 2, 1),
        p.operator == 1 ==> intensity_of(p) == 0,
        p.operator == 2 ==> intensity_of(p) == 1 + flag(p.priority == 2, 1),
{
}

/// The operators are the last two colors of palette 3: 15 shades, 14 highlights
/// what lies under them, and neither is drawn.
pub proof fn law_operator_sprites(c: VdpCore, p: Pixel, s: SpriteLine, x: u16)
    requires
        shadow_highlight(c),
        (s.attributes / 0x2000) % 4 == 3,
        sprite_index_at(c, s, x) >= 14,
        sprite_index_at(c, s, x) <= 15,
    ensures
        ({
            let q = over_sprite(c, p, s, x);
            &&& q.color == p.color && q.priority == p.priority && q.sprite == p.sprite
            &&& !p.sprite && p.operator == 0 ==> q.operator == 16 - sprite_index_at(c, s, x)
        }),
{
}

// ── The framebuffer ──────────────────────────────────────────────────────

/// A rendered line stands in its row of the framebuffer, four bytes a pixel: the
/// composed pixel while the display is on, the background while it is off.
pub proof fn law_line_in_framebuffer(s: VdpState, line: u16, x: int, k: int)
    requires
        s.wf(),
        line < 224,
        0 <= k < 4,
        ({
            let width = scanline_rendered(s, line).frame_width;
            0 <= x < width
        }),
    ensures
        ({
            let t = scanline_rendered(s, line);
            let shown = if (s.core.registers[1] / 0x40) % 2 == 1 {
                shown_rgba(s.core, line, x as u16)
            } else {
                rgba_of(s.core.cram[(s.core.registers[7] % 64) as int])
            };
            &&& t.framebuffer[(line * t.frame_width + x) * 4 + k] == shown[k]
            &&& line == 0 ==> t.frame_width == if s.core.h40() {
                320u16
            } else {
                256
            }
            &&& line > 0 ==> t.frame_width == s.frame_width
        }),
{
    let t = scanline_rendered(s, line);
    let width = t.frame_width;
    let colors = line_colors(s.core, line, width);
    let start = line * width;
    let i = (start + x) * 4 + k;
    assert(0 <= start + width <= 71_680) by (nonlinear_arith)
        requires
            start == line * width,
            0 <= line < 224,
            0 <= width <= 320,
    ;
    assert(colors.len() == width);
    assert(start * 4 <= i < (start + colors.len()) * 4);
    assert(i / 4 - start == x && i % 4 == k);
}

/// Without shadow/highlight a shown pixel has the plain color of its composition;
/// the left column blank hides the first eight behind the background.
pub proof fn law_shown_color(c: VdpCore, line: u16, x: u16)
    ensures
        ({
            let p = composed(c, line, x);
            let blank = (c.registers[0] / 0x20) % 2 == 1 && x < 8;
            let color = if blank {
                c.cram[(c.registers[7] % 64) as int]
            } else {
                p.color
            };
            &&& (c.registers[0x0C] / 8) % 2 == 0 ==> shown_rgba(c, line, x) == rgba_of(color)
            &&& (c.registers[0x0C] / 8) % 2 == 1 ==> shown_rgba(c, line, x) == intensified(
                rgba_of(color),
                intensity_of(p),
            )
        }),
{
}

} // verus!
