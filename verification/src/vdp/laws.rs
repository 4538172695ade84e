//! Laws of the VDP: what its ports, DMA, timing and rendering promise together.
use vstd::prelude::*;

use crate::vdp::render::{
    line_colors, line_sprites, max_sprites, max_sprites_per_line, over_plane, over_sprite,
    priority_level, scanline_rendered, sprite_entry_word, sprite_line, sprite_on_line, sprite_walk,
    Pixel, SpriteLine,
};
use crate::vdp::{
    access_of, address_stepped, bytes_filled, color_bits, control_written, data_read, data_word,
    data_written, dma_cost, dma_filled, dma_length, dma_registers_done, dma_source,
    dma_transferred, dma_words_per_line, hv_word, scanline_begun, status_word, word_stored,
    words_stored, AccessType, ControlState, VdpCore, VdpState,
};

verus! {

// ── Ports ────────────────────────────────────────────────────────────────

/// The first word of the command that selects `address` with control code
/// `code`.
pub open spec fn command_first(code: int, address: u16) -> u16 {
    ((code % 4) * 0x4000 + address % 0x4000) as u16
}

/// The second word of that command.
pub open spec fn command_second(code: int, address: u16) -> u16 {
    ((code / 4) * 16 + address / 0x4000) as u16
}

/// The core after both words of that command.
pub open spec fn commanded(c: VdpCore, code: int, address: u16) -> VdpCore {
    control_written(control_written(c, command_first(code, address)), command_second(code, address))
}

/// A register write changes that register and no other, and starts no command.
pub proof fn law_register_write(c: VdpCore, reg: u16, data: u8)
    requires
        c.wf(),
        c.control_state == ControlState::Idle,
        reg < 24,
    ensures
        ({
            let d = control_written(c, (0x8000 + reg * 0x100 + data) as u16);
            &&& d.registers[reg as int] == data
            &&& forall|i: int| 0 <= i < 24 && i != reg ==> d.registers[i] == c.registers[i]
            &&& d.control_state == ControlState::Idle
            &&& d.vram == c.vram
            &&& d.cram == c.cram
            &&& d.vsram == c.vsram
        }),
{
}

/// A command without the DMA bit selects exactly its address and access type.
pub proof fn law_command_selects(c: VdpCore, code: int, address: u16)
    requires
        c.control_state == ControlState::Idle,
        0 <= code < 32,
        code % 4 != 2,
    ensures
        commanded(c, code, address) == (VdpCore {
            address,
            control_code: code as u8,
            access_type: access_of(code),
            ..c
        }),
{
    let first = command_first(code, address);
    let second = command_second(code, address);
    assert(first / 0x4000 == code % 4);
    assert(first % 0x4000 == address % 0x4000);
    assert((second / 16) % 16 == code / 4);
    assert(second % 4 == address / 0x4000);
    assert(address % 0x4000 + (address / 0x4000) * 0x4000 == address);
    assert(code % 4 + (code / 4) * 4 == code);
}

/// A word written to VRAM is read back from its address.
pub proof fn law_vram_write_read(c: VdpCore, address: u16, value: u16)
    requires
        c.wf(),
        c.control_state == ControlState::Idle,
        !c.dma_fill_pending,
        address < 0xFFFF,
    ensures
        data_word(commanded(data_written(commanded(c, 1, address), value), 0, address)) == value,
{
    law_command_selects(c, 1, address);
    law_command_selects(data_written(commanded(c, 1, address), value), 0, address);
    assert((value / 0x100) * 0x100 + value % 0x100 == value);
}

/// A word written to CRAM is read back cut to its nine color bits.
pub proof fn law_cram_write_read(c: VdpCore, address: u16, value: u16)
    requires
        c.wf(),
        c.control_state == ControlState::Idle,
        !c.dma_fill_pending,
        address < 128,
    ensures
        data_word(commanded(data_written(commanded(c, 3, address), value), 8, address))
            == color_bits(value),
{
    law_command_selects(c, 3, address);
    law_command_selects(data_written(commanded(c, 3, address), value), 8, address);
}

/// A word written to VSRAM is read back cut to eleven bits.
pub proof fn law_vsram_write_read(c: VdpCore, address: u16, value: u16)
    requires
        c.wf(),
        c.control_state == ControlState::Idle,
        !c.dma_fill_pending,
        address < 80,
    ensures
        data_word(commanded(data_written(commanded(c, 5, address), value), 4, address)) == value
            % 0x800,
{
    law_command_selects(c, 5, address);
    law_command_selects(data_written(commanded(c, 5, address), value), 4, address);
}

/// Cutting a color word to its nine bits twice is cutting it once.
pub proof fn law_color_bits_idempotent(value: u16)
    ensures
        color_bits(color_bits(value)) == color_bits(value),
{
    assert(color_bits(color_bits(value)) == color_bits(value)) by (bit_vector);
}

/// A data port access moves the address on by the auto-increment and ends a
/// half-received command.
pub proof fn law_data_access_steps_address(c: VdpCore, value: u16)
    ensures
        data_read(c).address == c.address.wrapping_add(c.auto_increment),
        data_read(c).control_state == ControlState::Idle,
        !c.dma_fill_pending ==> data_written(c, value).address == c.address.wrapping_add(
            c.auto_increment,
        ),
        !c.dma_fill_pending ==> data_written(c, value).control_state == ControlState::Idle,
{
}

/// The status register shows each flag in its own bit.
pub proof fn law_status_bits(c: VdpCore)
    ensures
        (status_word(c) / 0x02) % 2 == 1 <==> c.dma_busy_cpu_cycles > 0,
        (status_word(c) / 0x04) % 2 == 1 <==> c.in_hblank,
        (status_word(c) / 0x08) % 2 == 1 <==> c.in_vblank,
        (status_word(c) / 0x10) % 2 == 1 <==> c.odd_frame,
        (status_word(c) / 0x80) % 2 == 1 <==> c.vint_pending,
        (status_word(c) / 0x200) % 2 == 1,
{
}

// ── DMA ──────────────────────────────────────────────────────────────────

/// VRAM after one word of a transfer with auto-increment 2.
proof fn lemma_word_lands(d: VdpCore, w: u16)
    requires
        d.vram.len() == 0x10000,
        d.access_type == Some(AccessType::VramWrite),
        d.auto_increment == 2,
        d.address < 0xFFFF,
    ensures
        ({
            let e = address_stepped(word_stored(d, w));
            &&& e.vram.len() == 0x10000
            &&& e.access_type == d.access_type
            &&& e.auto_increment == 2
            &&& e.address == (d.address + 2) % 0x10000
            &&& w == e.vram[d.address as int] * 0x100 + e.vram[d.address + 1]
            &&& forall|a: int|
                0 <= a < 0x10000 && a != d.address && a != d.address + 1 ==> e.vram[a] == d.vram[a]
        }),
{
    assert((w / 0x100) * 0x100 + w % 0x100 == w);
}

/// The first `n` words stand in `v` from `start` on, and elsewhere `v` is `u`.
#[verifier::opaque]
pub open spec fn words_landed(
    u: Seq<u8>,
    v: Seq<u8>,
    start: int,
    words: Seq<u16>,
    n: int,
) -> bool {
    &&& forall|i: int|
        0 <= i < n ==> #[trigger] words[i] == v[start + 2 * i] * 0x100 + v[start + 2 * i + 1]
    &&& forall|a: int|
        0 <= a < 0x10000 && !(start <= a < start + 2 * n) ==> #[trigger] v[a] == u[a]
}

/// One more word landed.
proof fn lemma_one_more_landed(
    u: Seq<u8>,
    v: Seq<u8>,
    w: Seq<u8>,
    start: int,
    words: Seq<u16>,
    n: int,
)
    requires
        words_landed(u, v, start, words, n),
        0 <= start,
        0 <= n < words.len(),
        start + 2 * words.len() <= 0x10000,
        words[n] == w[start + 2 * n] * 0x100 + w[start + 2 * n + 1],
        forall|a: int|
            0 <= a < 0x10000 && a != start + 2 * n && a != start + 2 * n + 1 ==> w[a] == v[a],
    ensures
        words_landed(u, w, start, words, n + 1),
{
    reveal(words_landed);
    assert forall|i: int| 0 <= i < n + 1 implies #[trigger] words[i] == w[start + 2 * i] * 0x100
        + w[start + 2 * i + 1] by {
        if i < n {
            assert(w[start + 2 * i] == v[start + 2 * i]);
            assert(w[start + 2 * i + 1] == v[start + 2 * i + 1]);
        }
    }
    assert forall|a: int| 0 <= a < 0x10000 && !(start <= a < start + 2 * (n + 1)) implies
        #[trigger] w[a] == u[a] by {
        assert(w[a] == v[a]);
    }
}

/// VRAM after the first `n` words of a transfer with auto-increment 2.
#[verifier::rlimit(60)]
#[verifier::spinoff_prover]
proof fn lemma_words_land(c: VdpCore, words: Seq<u16>, n: nat)
    requires
        c.wf(),
        c.access_type == Some(AccessType::VramWrite),
        c.auto_increment == 2,
        n <= words.len(),
        c.address % 2 == 0,
        c.address + 2 * words.len() <= 0x10000,
    ensures
        ({
            let d = words_stored(c, words, n);
            &&& d.vram.len() == 0x10000
            &&& d.access_type == c.access_type
            &&& d.auto_increment == 2
            &&& d.address == (c.address + 2 * n) % 0x10000
            &&& words_landed(c.vram, d.vram, c.address as int, words, n as int)
        }),
    decreases n,
{
    if n == 0 {
        assert(words_landed(c.vram, c.vram, c.address as int, words, 0)) by {
            reveal(words_landed);
        }
    } else {
        let m = (n - 1) as nat;
        lemma_words_land(c, words, m);
        let d = words_stored(c, words, m);
        let e = words_stored(c, words, n);
        lemma_word_lands(d, words[m as int]);
        lemma_one_more_landed(c.vram, d.vram, e.vram, c.address as int, words, m as int);
    }
}

/// A transfer into VRAM with auto-increment 2 leaves the source words at the
/// destination in order and nothing else changed in VRAM, clears the request and
/// the length, and holds the bus.
pub proof fn law_dma_copies_source(c: VdpCore, words: Seq<u16>)
    requires
        c.wf(),
        c.access_type == Some(AccessType::VramWrite),
        c.auto_increment == 2,
        c.address % 2 == 0,
        words.len() == dma_length(c),
        0 < words.len(),
        c.address + 2 * words.len() <= 0x10000,
    ensures
        ({
            let d = dma_transferred(c, words);
            &&& forall|i: int|
                0 <= i < words.len() ==> #[trigger] words[i] == d.vram[c.address + 2 * i] * 0x100
                    + d.vram[c.address + 2 * i + 1]
            &&& forall|a: int|
                0 <= a < 0x10000 && !(c.address <= a < c.address + 2 * words.len())
                    ==> d.vram[a] == c.vram[a]
            &&& !d.dma_pending
            &&& d.dma_busy_cpu_cycles > 0
            &&& dma_length(d) == 0
        }),
{
    let length = dma_length(c);
    let charged = VdpCore {
        dma_pending: false,
        dma_busy_cpu_cycles: dma_cost(c, length, false),
        ..c
    };
    lemma_words_land(charged, words, length as nat);
    reveal(words_landed);
    crate::vdp::lemma_words_stored_frame(charged, words, length as nat);
    law_dma_cost_positive(c, length, false);
}

/// VRAM after the first `n` bytes of a fill with auto-increment 1.
proof fn lemma_bytes_land(c: VdpCore, byte: u8, n: nat)
    requires
        c.vram.len() == 0x10000,
        c.auto_increment == 1,
        c.address + n <= 0x10000,
    ensures
        ({
            let d = bytes_filled(c, byte, n);
            &&& d.vram.len() == 0x10000
            &&& d.auto_increment == 1
            &&& d.address == (c.address + n) % 0x10000
            &&& forall|a: int|
                0 <= a < 0x10000 ==> d.vram[a] == if c.address <= a < c.address + n {
                    byte
                } else {
                    c.vram[a]
                }
        }),
    decreases n,
{
    if n > 0 {
        lemma_bytes_land(c, byte, (n - 1) as nat);
    }
}

/// A fill of two or more bytes with auto-increment 1 leaves the high byte of the
/// value at every filled address and the rest of VRAM as it was.
pub proof fn law_fill_writes_high_byte(c: VdpCore, value: u16)
    requires
        c.wf(),
        c.auto_increment == 1,
        2 <= dma_length(c),
        c.address + dma_length(c) <= 0x10000,
    ensures
        ({
            let d = dma_filled(c, value);
            &&& forall|a: int|
                0 <= a < 0x10000 ==> d.vram[a] == if c.address <= a < c.address + dma_length(c) {
                    (value / 0x100) as u8
                } else {
                    c.vram[a]
                }
            &&& d.dma_busy_cpu_cycles > 0
            &&& dma_length(d) == 0
        }),
{
    let length = dma_length(c);
    let charged = VdpCore { dma_busy_cpu_cycles: dma_cost(c, length, false), ..c };
    let first = VdpCore {
        vram: c.vram.update(c.address as int, (value / 0x100) as u8).update(
            c.address + 1,
            (value % 0x100) as u8,
        ),
        ..charged
    };
    let start = address_stepped(first);
    lemma_bytes_land(start, (value / 0x100) as u8, (length - 1) as nat);
    crate::vdp::lemma_bytes_filled_frame(start, (value / 0x100) as u8, (length - 1) as nat);
    law_dma_cost_positive(c, length, false);
}

/// Two cores stand at the same point of the frame, with the same interrupts
/// requested; the VRAM of the second has its size if that of the first has.
pub open spec fn same_beam(c: VdpCore, d: VdpCore) -> bool {
    &&& c.scanline == d.scanline
    &&& c.in_vblank == d.in_vblank
    &&& c.in_hblank == d.in_hblank
    &&& c.odd_frame == d.odd_frame
    &&& c.vint_pending == d.vint_pending
    &&& c.h_interrupt_pending == d.h_interrupt_pending
    &&& c.h_interrupt_counter == d.h_interrupt_counter
    &&& c.region == d.region
    &&& c.vram.len() == 0x1_0000 ==> d.vram.len() == 0x1_0000
}

/// Stored words do not move the beam.
proof fn lemma_words_keep_beam(c: VdpCore, words: Seq<u16>, n: nat)
    ensures
        same_beam(c, words_stored(c, words, n)),
    decreases n,
{
    if n > 0 {
        lemma_words_keep_beam(c, words, (n - 1) as nat);
    }
}

/// A fill does not move the beam.
proof fn lemma_fill_keeps_beam(c: VdpCore, byte: u8, n: nat)
    ensures
        same_beam(c, bytes_filled(c, byte, n)),
    decreases n,
{
    if n > 0 {
        lemma_fill_keeps_beam(c, byte, (n - 1) as nat);
    }
}

/// The ports and DMA neither move the beam nor touch the interrupt requests: a
/// latched V-interrupt stays latched.
pub proof fn law_ports_keep_beam(c: VdpCore, value: u16, words: Seq<u16>)
    ensures
        same_beam(c, control_written(c, value)),
        same_beam(c, data_written(c, value)),
        same_beam(c, data_read(c)),
        same_beam(c, dma_transferred(c, words)),
{
    lemma_transfer_keeps_beam(c, words);
    lemma_data_keeps_beam(c, value);
}

/// A transfer does not move the beam.
proof fn lemma_transfer_keeps_beam(c: VdpCore, words: Seq<u16>)
    ensures
        same_beam(c, dma_transferred(c, words)),
{
    let length = dma_length(c);
    let charged = VdpCore {
        dma_busy_cpu_cycles: dma_cost(c, length, false),
        dma_pending: false,
        ..c
    };
    lemma_words_keep_beam(charged, words, length as nat);
}

/// A data write does not move the beam.
proof fn lemma_data_keeps_beam(c: VdpCore, value: u16)
    ensures
        same_beam(c, data_written(c, value)),
{
    assert forall|d: VdpCore, byte: u8, n: nat|
        same_beam(d, #[trigger] bytes_filled(d, byte, n)) by {
        lemma_fill_keeps_beam(d, byte, n);
    }
}

/// A transfer of at least one word costs at least one scanline.
pub proof fn law_dma_cost_positive(c: VdpCore, length: u32, copy: bool)
    requires
        length > 0,
    ensures
        dma_cost(c, length, copy) >= 488,
{
    let w = dma_words_per_line(c, copy);
    assert((length + w - 1) / w as int >= 1) by (nonlinear_arith)
        requires
            length >= 1,
            w >= 1,
    ;
}

/// DMA is no slower in blanking than in active display, and a copy no faster
/// than a transfer.
pub proof fn law_dma_rates(c: VdpCore, length: u32, copy: bool)
    ensures
        dma_cost((VdpCore { in_vblank: true, ..c }), length, copy) <= dma_cost(c, length, copy),
        dma_cost(c, length, false) <= dma_cost(c, length, true),
{
    let fast = dma_words_per_line((VdpCore { in_vblank: true, ..c }), copy);
    let slow = dma_words_per_line(c, copy);
    assert((VdpCore { in_vblank: true, ..c }).h40() == c.h40());
    lemma_fewer_lines(length as int, slow as int, fast as int);
    lemma_fewer_lines(
        length as int,
        dma_words_per_line(c, true) as int,
        dma_words_per_line(c, false) as int,
    );
}

/// More words per line need no more lines.
proof fn lemma_fewer_lines(length: int, slow: int, fast: int)
    requires
        length >= 0,
        1 <= slow <= fast,
    ensures
        (length + fast - 1) / fast <= (length + slow - 1) / slow,
{
    let a = (length + slow - 1) / slow;
    let b = (length + fast - 1) / fast;
    assert(a * slow >= length) by (nonlinear_arith)
        requires
            a == (length + slow - 1) / slow,
            slow >= 1,
    ;
    assert(a * fast >= a * slow) by (nonlinear_arith)
        requires
            a >= 0,
            fast >= slow,
            a == (length + slow - 1) / slow,
    ;
    assert(b <= a) by (nonlinear_arith)
        requires
            a * fast >= length,
            b == (length + fast - 1) / fast,
            fast >= 1,
    ;
}

// ── Line timing ──────────────────────────────────────────────────────────

/// The core after the starts of lines 0 to `n`.
pub open spec fn lines_begun(c: VdpCore, n: nat) -> VdpCore
    decreases n,
{
    if n == 0 {
        scanline_begun(c, 0)
    } else {
        scanline_begun(lines_begun(c, (n - 1) as nat), n as u16)
    }
}

/// Until line `n`, no H-interrupt has come, and the counter stands at the rest.
proof fn lemma_counter_runs(c: VdpCore, n: nat)
    requires
        c.wf(),
        !c.h_interrupt_pending,
        n <= c.registers[0x0A],
        n < 224,
    ensures
        lines_begun(c, n).h_interrupt_counter == c.registers[0x0A] - n,
        !lines_begun(c, n).h_interrupt_pending,
        lines_begun(c, n).registers == c.registers,
    decreases n,
{
    if n > 0 {
        lemma_counter_runs(c, (n - 1) as nat);
    }
}

/// With the H-interrupt enabled and `k` in register 0x0A, the first H-interrupt
/// of a frame comes at the start of line `k + 1` and not before.
pub proof fn law_h_interrupt_line(c: VdpCore, n: nat)
    requires
        c.wf(),
        !c.h_interrupt_pending,
        (c.registers[0] / 0x10) % 2 == 1,
        n <= c.registers[0x0A] + 1,
        n < 224,
    ensures
        lines_begun(c, n).h_interrupt_pending <==> n == c.registers[0x0A] + 1,
{
    if n <= c.registers[0x0A] {
        lemma_counter_runs(c, n);
    } else {
        lemma_counter_runs(c, (n - 1) as nat);
    }
}

// ── Rendering ────────────────────────────────────────────────────────────

/// Rendering a line changes its own pixels, the latched width and the H-blank
/// flag, and nothing else.
pub proof fn law_render_stays_on_line(s: VdpState, line: u16, i: int)
    requires
        s.wf(),
        0 <= i < s.framebuffer.len(),
    ensures
        ({
            let t = scanline_rendered(s, line);
            let width = t.frame_width;
            &&& t.core == VdpCore { in_hblank: t.core.in_hblank, ..s.core }
            &&& !(line < 224 && line * width * 4 <= i < (line + 1) * width * 4)
                ==> t.framebuffer[i] == s.framebuffer[i]
        }),
{
    let width = scanline_rendered(s, line).frame_width;
    assert((line + 1) * width * 4 == (line * width + width) * 4) by (nonlinear_arith);
    assert(line_colors(s.core, line, width).len() == width);
}

/// A low-priority plane never hides a high-priority pixel; a high-priority plane
/// pixel always shows over planes.
pub proof fn law_plane_priority(p: Pixel, color: u16)
    requires
        p.priority <= 2,
    ensures
        p.priority == 2 ==> over_plane(p, Some((color, false))) == p,
        over_plane(p, Some((color, true))).color == color,
        over_plane(p, None) == p,
{
}

/// An earlier sprite in the link list keeps its pixel against a later sprite of
/// the same or a lower priority.
pub proof fn law_earlier_sprite_wins(c: VdpCore, p: Pixel, s: SpriteLine, x: u16)
    requires
        p.sprite,
        priority_level(s.attributes >= 0x8000) <= p.priority,
    ensures
        over_sprite(c, p, s, x) == p,
{
}

/// No line shows more sprites than the limit of its mode: 20 in H40, 16 in H32.
pub proof fn law_sprite_limit(c: VdpCore, line: u16)
    ensures
        line_sprites(c, line).len() <= max_sprites_per_line(c),
{
    lemma_walk_limit(c, line, 0, 0, Seq::empty());
}

proof fn lemma_walk_limit(
    c: VdpCore,
    line: u16,
    index: int,
    visited: int,
    found: Seq<SpriteLine>,
)
    requires
        found.len() <= max_sprites_per_line(c),
    ensures
        sprite_walk(c, line, index, visited, found).len() <= max_sprites_per_line(c),
    decreases max_sprites(c) - visited,
{
    if visited < max_sprites(c) {
        let hit = sprite_on_line(c, index, line);
        if !(hit && found.len() >= max_sprites_per_line(c)) {
            let link = (sprite_entry_word(c, index, 1) % 128) as int;
            lemma_walk_limit(
                c,
                line,
                link,
                visited + 1,
                if hit {
                    found.push(sprite_line(c, index, line))
                } else {
                    found
                },
            );
        }
    }
}

// ── Bandwidth and beam ───────────────────────────────────────────────────

/// A DMA holds the bus for whole lines: as many as its words need and no more. In
/// blanking a line moves 102 words of a wide picture and 83 of a narrow one, while
/// the picture is shown 9 and 8; copies move half.
pub proof fn law_dma_bandwidth(c: VdpCore, length: u32)
    requires
        0 < length <= 0xFFFF,
    ensures
        ({
            let w = dma_words_per_line(c, false) as int;
            let wide = c.h40();
            let blank = c.in_vblank || !c.display();
            let lines = dma_cost(c, length, false) as int / 488;
            &&& dma_cost(c, length, false) as int == 488 * lines
            &&& w * (lines - 1) < length <= w * lines
            &&& wide && blank ==> w == 102
            &&& wide && !blank ==> w == 9
            &&& !wide && blank ==> w == 83
            &&& !wide && !blank ==> w == 8
            &&& dma_words_per_line(c, true) as int == w / 2
        }),
{
    let w = dma_words_per_line(c, false) as int;
    let lines = (length + w - 1) / w;
    vstd::arithmetic::div_mod::lemma_fundamental_div_mod(length + w - 1, w);
    vstd::arithmetic::div_mod::lemma_mod_bound(length + w - 1, w);
    assert(w * (lines - 1) == w * lines - w) by (nonlinear_arith);
    assert(0 <= lines <= length) by (nonlinear_arith)
        requires
            w * lines <= length + w - 1,
            w * lines >= length,
            w >= 1,
            length >= 1,
    ;
    assert(lines * 488 / 488 == lines);
}

/// After a transfer the source registers point behind the last word and the length
/// is zero; the highest bit of register 0x17 stays.
pub proof fn law_dma_source_moves_on(c: VdpCore, length: u32)
    requires
        c.wf(),
        length <= 0xFFFF,
    ensures
        ({
            let d = dma_registers_done(c, length);
            &&& dma_source(d) as int == (dma_source(c) + 2 * length) % 0x100_0000
            &&& dma_length(d) == 0
            &&& d.registers[0x17] as int / 0x80 == c.registers[0x17] as int / 0x80
            &&& d == (VdpCore { registers: d.registers, ..c })
        }),
{
    let source = dma_source(c) / 2 + length;
    let low = source % 0x80_0000;
    assert(low == source % 0x100 + 0x100 * ((source / 0x100) % 0x100) + 0x1_0000 * ((source
        / 0x1_0000) % 0x80));
    assert(dma_source(c) % 2 == 0);
    let d = dma_registers_done(c, length);
    assert(d.registers[0x17] % 0x80 == (source / 0x1_0000) % 0x80);
    assert(dma_source(d) as int == 2 * low);
}

/// The high byte of the beam position is the line, which jumps back by six after
/// line 0xEA; the low byte tells H-blank.
pub proof fn law_beam_position(c: VdpCore)
    requires
        c.scanline < 262,
    ensures
        ({
            let v = hv_word(c) as int / 0x100;
            let h = hv_word(c) as int % 0x100;
            &&& c.scanline <= 0xEA ==> v == c.scanline
            &&& c.scanline > 0xEA ==> v == c.scanline - 6
            &&& c.in_hblank ==> h == 0xE4
            &&& !c.in_hblank ==> h == 0x08
        }),
{
}

/// The line counter: at line 0 it takes register 0x0A, on the lines of the picture
/// it counts down, and where it has run out it takes the register again and, with
/// bit 4 of register 0 set, requests the H-interrupt. Blanking lines leave it.
pub proof fn law_line_counter(c: VdpCore, line: u16)
    requires
        c.wf(),
    ensures
        ({
            let d = scanline_begun(c, line);
            let reload = c.registers[0x0A] as int;
            let enabled = c.registers[0] as int / 0x10 % 2 == 1;
            let ran_out = 0 < line < 224 && c.h_interrupt_counter <= 0;
            &&& d.scanline == line
            &&& d.in_hblank
            &&& line == 0 || ran_out ==> d.h_interrupt_counter == reload
            &&& 0 < line < 224 && !ran_out ==> d.h_interrupt_counter == c.h_interrupt_counter - 1
            &&& line >= 224 ==> d.h_interrupt_counter == c.h_interrupt_counter
            &&& d.h_interrupt_pending == (c.h_interrupt_pending || (ran_out && enabled))
            &&& d.vram == c.vram && d.registers == c.registers && d.in_vblank == c.in_vblank
        }),
{
}

} // verus!
