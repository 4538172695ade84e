//! Genesis ROM header parsing.
//!
//! Genesis cartridge ROMs have a header at offset 0x100-0x1FF containing
//! metadata: system type, copyright, game title, ROM/RAM addresses, region.
use vstd::prelude::*;
use vstd::string::StringExecFns;

verus! {

/// `String::push` of the standard library: it adds one character at the end.
pub assume_specification[ String::push ](s: &mut String, c: char)
    ensures
        final(s)@ == old(s)@.push(c),
;

/// Byte-lane layout of cartridge backup RAM (SRAM).
///
/// 8-bit backup RAM is wired to only one half of the 16-bit data bus.
#[derive(Debug, Clone, Copy, PartialEq, Eq, Structural)]
pub enum SramLayout {
    /// SRAM backs every byte address in the window (word-wide).
    Both,
    /// SRAM only responds on even addresses (high byte of each word).
    EvenOnly,
    /// SRAM only responds on odd addresses (low byte of each word).
    OddOnly,
}

/// Parsed Genesis ROM header.
#[derive(Debug)]
pub struct RomHeader {
    /// System type (e.g., "SEGA GENESIS" or "SEGA MEGA DRIVE").
    pub system_type: String,
    /// Copyright / release date.
    pub copyright: String,
    /// Domestic (Japanese) game title.
    pub title_domestic: String,
    /// Overseas game title.
    pub title_overseas: String,
    /// Serial number.
    pub serial: String,
    /// ROM start address.
    pub rom_start: u32,
    /// ROM end address.
    pub rom_end: u32,
    /// RAM start address.
    pub ram_start: u32,
    /// RAM end address.
    pub ram_end: u32,
    /// Checksum from header.
    pub checksum: u16,
    /// Region codes string (e.g., "JUE").
    pub region: String,
    /// True if the header declares battery-backed cartridge SRAM.
    pub has_sram: bool,
    /// SRAM window start address.
    pub sram_start: u32,
    /// SRAM window end address.
    pub sram_end: u32,
    /// Raw SRAM type/flags byte.
    pub sram_type: u8,
    /// Decoded byte-lane layout of the backup RAM.
    pub sram_layout: SramLayout,
}

impl Clone for RomHeader {
    fn clone(&self) -> (r: Self)
        ensures
            r == *self,
    {
        RomHeader {
            system_type: self.system_type.clone(),
            copyright: self.copyright.clone(),
            title_domestic: self.title_domestic.clone(),
            title_overseas: self.title_overseas.clone(),
            serial: self.serial.clone(),
            rom_start: self.rom_start,
            rom_end: self.rom_end,
            ram_start: self.ram_start,
            ram_end: self.ram_end,
            checksum: self.checksum,
            region: self.region.clone(),
            has_sram: self.has_sram,
            sram_start: self.sram_start,
            sram_end: self.sram_end,
            sram_type: self.sram_type,
            sram_layout: self.sram_layout,
        }
    }
}

/// Errors that can occur when parsing a ROM.
#[derive(Debug)]
pub enum RomError {
    /// ROM is too small to contain a valid header.
    TooSmall { size: usize },
    /// ROM header has an invalid system type.
    InvalidSystemType(String),
}

// ── Header fields ────────────────────────────────────────────────────────

/// A header byte as a character: printable ASCII stands for itself, anything
/// else for a space.
pub open spec fn header_char(b: u8) -> char {
    if 0x20 <= b <= 0x7E {
        b as char
    } else {
        ' '
    }
}

/// The characters of a header field.
pub open spec fn raw_field(data: Seq<u8>, start: int, len: nat) -> Seq<char> {
    Seq::new(len, |i: int| header_char(data[start + i]))
}

/// A text without the spaces at its ends.
#[verifier::opaque]
pub open spec fn trimmed(s: Seq<char>) -> Seq<char>
    decreases s.len(),
{
    if s.len() == 0 {
        s
    } else if s.first() == ' ' {
        trimmed(s.subrange(1, s.len() as int))
    } else if s.last() == ' ' {
        trimmed(s.subrange(0, s.len() - 1))
    } else {
        s
    }
}

/// A header field as text.
pub open spec fn text_field(data: Seq<u8>, start: int, len: nat) -> Seq<char> {
    trimmed(raw_field(data, start, len))
}

/// `SEGA` stands at position `i` of a text.
pub open spec fn sega_at(s: Seq<char>, i: int) -> bool {
    0 <= i && i + 4 <= s.len() && s[i] == 'S' && s[i + 1] == 'E' && s[i + 2] == 'G' && s[i + 3]
        == 'A'
}

/// The text contains `SEGA`.
pub open spec fn contains_sega(s: Seq<char>) -> bool {
    exists|i: int| sega_at(s, i)
}

/// A big-endian 16-bit word.
pub open spec fn word_at(data: Seq<u8>, offset: int) -> u16 {
    (data[offset] * 0x100 + data[offset + 1]) as u16
}

/// A big-endian 32-bit word.
pub open spec fn long_at(data: Seq<u8>, offset: int) -> u32 {
    (data[offset] * 0x100_0000 + data[offset + 1] * 0x1_0000 + data[offset + 2] * 0x100
        + data[offset + 3]) as u32
}

/// The header declares backup RAM: the marker `RA`, and bits 7 and 5 of the type
/// byte.
pub open spec fn declares_sram(data: Seq<u8>) -> bool {
    word_at(data, 0x1B0) == 0x5241 && data[0x1B2] >= 0x80 && (data[0x1B2] / 0x20) % 2 == 1
}

/// The byte lanes of a type byte: bit 3 is even only, bit 4 odd only.
pub open spec fn sram_layout_of(kind: u8) -> SramLayout {
    if (kind / 8) % 2 == 1 {
        SramLayout::EvenOnly
    } else if (kind / 16) % 2 == 1 {
        SramLayout::OddOnly
    } else {
        SramLayout::Both
    }
}

/// The header of a ROM says what a parsed header holds.
pub open spec fn header_of(data: Seq<u8>, h: RomHeader) -> bool {
    &&& h.system_type@ == text_field(data, 0x100, 16)
    &&& h.copyright@ == text_field(data, 0x110, 16)
    &&& h.title_domestic@ == text_field(data, 0x120, 48)
    &&& h.title_overseas@ == text_field(data, 0x150, 48)
    &&& h.serial@ == text_field(data, 0x180, 14)
    &&& h.checksum == word_at(data, 0x18E)
    &&& h.rom_start == long_at(data, 0x1A0)
    &&& h.rom_end == long_at(data, 0x1A4)
    &&& h.ram_start == long_at(data, 0x1A8)
    &&& h.ram_end == long_at(data, 0x1AC)
    &&& h.region@ == text_field(data, 0x1F0, 3)
    &&& h.has_sram == declares_sram(data)
    &&& h.sram_start == long_at(data, 0x1B4)
    &&& h.sram_end == long_at(data, 0x1B8)
    &&& h.sram_type == data[0x1B2]
    &&& h.sram_layout == sram_layout_of(data[0x1B2])
}

/// The sum of the first `n` words from 0x200 on, in 16 bits.
pub open spec fn word_sum(data: Seq<u8>, n: nat) -> u16
    decreases n,
{
    if n == 0 {
        0
    } else {
        word_sum(data, (n - 1) as nat).wrapping_add(word_at(data, 0x200 + 2 * (n - 1)))
    }
}

/// The number of whole words from 0x200 on.
pub open spec fn body_words(data: Seq<u8>) -> nat {
    if data.len() < 0x200 {
        0
    } else {
        ((data.len() - 0x200) / 2) as nat
    }
}

/// The checksum of a ROM.
pub open spec fn checksum_of(data: Seq<u8>) -> u16 {
    word_sum(data, body_words(data))
}

// ── Error messages ───────────────────────────────────────────────────────

/// The decimal digit of a value below ten.
pub open spec fn digit(d: int) -> char {
    (d + 48) as char
}

/// A number in decimal.
pub open spec fn decimal(n: nat) -> Seq<char>
    decreases n,
{
    if n < 10 {
        seq![digit(n as int)]
    } else {
        decimal(n / 10).push(digit((n % 10) as int))
    }
}

/// What `{:?}` of the standard library shows of a text: quoted and escaped.
pub uninterp spec fn debug_text(s: Seq<char>) -> Seq<char>;

/// `format!("{:?}")` of the standard library on a string slice. What it shows of
/// a text is named, not spelled out.
#[verifier::external_body]
fn debug_string(s: &String) -> (r: String)
    ensures
        r@ == debug_text(s@),
{
    format!("{:?}", s)
}

/// A number in decimal.
fn decimal_string(n: usize) -> (r: String)
    ensures
        r@ == decimal(n as nat),
    decreases n,
{
    let d: u8 = (n % 10) as u8;
    let mut r: String = if n < 10 {
        String::new()
    } else {
        decimal_string(n / 10)
    };
    r.push((d + 48) as char);
    assert(r@ =~= decimal(n as nat));
    r
}

impl RomError {
    /// The text of the error.
    pub open spec fn text(self) -> Seq<char> {
        match self {
            RomError::TooSmall { size } => "ROM too small ("@ + decimal(size as nat)
                + " bytes, need at least 512)"@,
            RomError::InvalidSystemType(s) => "invalid system type: "@ + debug_text(s@),
        }
    }

    /// Describes the error.
    #[must_use]
    pub fn message(&self) -> (r: String)
        ensures
            r@ == self.text(),
    {
        match self {
            RomError::TooSmall { size } => {
                let n: String = decimal_string(*size);
                let mut r: String = "ROM too small (".to_owned();
                r.append(n.as_str());
                r.append(" bytes, need at least 512)");
                r
            },
            RomError::InvalidSystemType(s) => RomError::system_type_message(
                debug_string(s).as_str(),
            ),
        }
    }

    /// The message of an invalid system type, given its quoted text.
    #[must_use]
    pub fn system_type_message(quoted: &str) -> (r: String)
        ensures
            r@ == "invalid system type: "@ + quoted@,
    {
        let mut r: String = "invalid system type: ".to_owned();
        r.append(quoted);
        r
    }
}

// ── Parsing ──────────────────────────────────────────────────────────────

/// Trimming a text that starts with a space.
proof fn lemma_trim_front(s: Seq<char>, a: int, b: int)
    requires
        0 <= a < b <= s.len(),
        s[a] == ' ',
    ensures
        trimmed(s.subrange(a, b)) == trimmed(s.subrange(a + 1, b)),
{
    reveal(trimmed);
    assert(s.subrange(a, b).subrange(1, b - a) =~= s.subrange(a + 1, b));
}

/// Trimming a text that ends with a space and does not start with one.
proof fn lemma_trim_back(s: Seq<char>, a: int, b: int)
    requires
        0 <= a < b <= s.len(),
        s[a] != ' ',
        s[b - 1] == ' ',
    ensures
        trimmed(s.subrange(a, b)) == trimmed(s.subrange(a, b - 1)),
{
    reveal(trimmed);
    assert(s.subrange(a, b).subrange(0, b - a - 1) =~= s.subrange(a, b - 1));
}

/// Trimming a text without spaces at its ends.
proof fn lemma_trim_none(s: Seq<char>)
    requires
        s.len() > 0 ==> s.first() != ' ' && s.last() != ' ',
    ensures
        trimmed(s) == s,
{
    reveal(trimmed);
}

/// A header byte as a character.
fn to_header_char(b: u8) -> (r: char)
    ensures
        r == header_char(b),
{
    if 0x20 <= b && b <= 0x7E {
        b as char
    } else {
        ' '
    }
}

/// Reads a trimmed ASCII field from a byte slice.
fn read_ascii(data: &[u8], start: usize, len: usize) -> (r: String)
    requires
        start + len <= data@.len(),
    ensures
        r@ == text_field(data@, start as int, len as nat),
{
    let ghost raw = raw_field(data@, start as int, len as nat);
    let size: usize = data.len();
    let mut a: usize = 0;
    assert(raw.subrange(0, len as int) =~= raw);
    while a < len && to_header_char(data[start + a]) == ' '
        invariant
            a <= len,
            start + len <= size == data@.len(),
            raw == raw_field(data@, start as int, len as nat),
            trimmed(raw.subrange(a as int, len as int)) == trimmed(raw),
        decreases len - a,
    {
        proof {
            lemma_trim_front(raw, a as int, len as int);
        }
        a = a + 1;
    }
    let mut b: usize = len;
    while a < b && to_header_char(data[start + b - 1]) == ' '
        invariant
            a <= b <= len,
            a < len ==> raw[a as int] != ' ',
            start + len <= size == data@.len(),
            raw == raw_field(data@, start as int, len as nat),
            trimmed(raw.subrange(a as int, b as int)) == trimmed(raw),
        decreases b,
    {
        proof {
            lemma_trim_back(raw, a as int, b as int);
        }
        b = b - 1;
    }
    let mut r: String = String::new();
    let mut i: usize = a;
    while i < b
        invariant
            a <= i <= b <= len,
            start + len <= size == data@.len(),
            raw == raw_field(data@, start as int, len as nat),
            r@ == raw.subrange(a as int, i as int),
        decreases b - i,
    {
        r.push(to_header_char(data[start + i]));
        i = i + 1;
        assert(r@ =~= raw.subrange(a as int, i as int));
    }
    proof {
        lemma_trim_none(raw.subrange(a as int, b as int));
    }
    r
}

/// Reads a big-endian u16 from a byte slice.
fn read_u16_be(data: &[u8], offset: usize) -> (r: u16)
    requires
        offset + 1 < data@.len(),
    ensures
        r == word_at(data@, offset as int),
{
    data[offset] as u16 * 0x100 + data[offset + 1] as u16
}

/// Reads a big-endian u32 from a byte slice.
fn read_u32_be(data: &[u8], offset: usize) -> (r: u32)
    requires
        offset + 3 < data@.len(),
    ensures
        r == long_at(data@, offset as int),
{
    data[offset] as u32 * 0x100_0000 + data[offset + 1] as u32 * 0x1_0000 + data[offset + 2] as u32
        * 0x100 + data[offset + 3] as u32
}

/// Whether a text contains `SEGA`.
fn has_sega(s: &String) -> (r: bool)
    ensures
        r == contains_sega(s@),
{
    let text = s.as_str();
    let n: usize = text.unicode_len();
    let mut i: usize = 0;
    while n >= 4 && i <= n - 4
        invariant
            n == s@.len(),
            text@ == s@,
            i <= n,
            forall|j: int| 0 <= j < i ==> !sega_at(s@, j),
        decreases n - i,
    {
        if text.get_char(i) == 'S' && text.get_char(i + 1) == 'E' && text.get_char(i + 2) == 'G'
            && text.get_char(i + 3) == 'A' {
            assert(sega_at(s@, i as int));
            return true;
        }
        i = i + 1;
    }
    false
}

/// Parses a Genesis ROM header from raw bytes.
///
/// # Errors
///
/// Returns [`RomError::TooSmall`] if the data is less than 512 bytes, and
/// [`RomError::InvalidSystemType`] if the system type does not contain `SEGA`.
pub fn parse_header(data: &[u8]) -> (r: Result<RomHeader, RomError>)
    ensures
        data@.len() < 512 ==> r == Err::<RomHeader, RomError>(
            RomError::TooSmall { size: data@.len() as usize },
        ),
        data@.len() >= 512 ==> match r {
            Ok(h) => contains_sega(text_field(data@, 0x100, 16)) && header_of(data@, h),
            Err(RomError::InvalidSystemType(s)) => !contains_sega(text_field(data@, 0x100, 16))
                && s@ == text_field(data@, 0x100, 16),
            Err(RomError::TooSmall { size }) => false,
        },
{
    if data.len() < 512 {
        return Err(RomError::TooSmall { size: data.len() });
    }
    let system_type: String = read_ascii(data, 0x100, 16);
    if !has_sega(&system_type) {
        return Err(RomError::InvalidSystemType(system_type));
    }
    let sram_type: u8 = data[0x1B2];
    let has_sram = read_u16_be(data, 0x1B0) == 0x5241 && sram_type >= 0x80 && (sram_type / 0x20) % 2
        == 1;
    let sram_layout = if (sram_type / 8) % 2 == 1 {
        SramLayout::EvenOnly
    } else if (sram_type / 16) % 2 == 1 {
        SramLayout::OddOnly
    } else {
        SramLayout::Both
    };
    Ok(
        RomHeader {
            system_type,
            copyright: read_ascii(data, 0x110, 16),
            title_domestic: read_ascii(data, 0x120, 48),
            title_overseas: read_ascii(data, 0x150, 48),
            serial: read_ascii(data, 0x180, 14),
            checksum: read_u16_be(data, 0x18E),
            rom_start: read_u32_be(data, 0x1A0),
            rom_end: read_u32_be(data, 0x1A4),
            ram_start: read_u32_be(data, 0x1A8),
            ram_end: read_u32_be(data, 0x1AC),
            region: read_ascii(data, 0x1F0, 3),
            has_sram,
            sram_start: read_u32_be(data, 0x1B4),
            sram_end: read_u32_be(data, 0x1B8),
            sram_type,
            sram_layout,
        },
    )
}

/// Computes the ROM checksum (sum of all u16 words from 0x200 onward).
#[must_use]
pub fn compute_checksum(data: &[u8]) -> (r: u16)
    ensures
        r == checksum_of(data@),
{
    let mut sum: u16 = 0;
    if data.len() < 0x200 {
        return sum;
    }
    let size: usize = data.len();
    let words: usize = (size - 0x200) / 2;
    let mut n: usize = 0;
    while n < words
        invariant
            n <= words,
            0x200 <= size == data@.len(),
            words == (size - 0x200) / 2,
            sum == word_sum(data@, n as nat),
        decreases words - n,
    {
        sum = sum.wrapping_add(read_u16_be(data, 0x200 + 2 * n));
        n = n + 1;
    }
    sum
}

/// Verifies the ROM checksum matches the header value. A ROM without a whole
/// header does not.
#[must_use]
pub fn verify_checksum(data: &[u8]) -> (r: bool)
    ensures
        r == (data@.len() >= 512 && word_at(data@, 0x18E) == checksum_of(data@)),
{
    if data.len() < 512 {
        return false;
    }
    read_u16_be(data, 0x18E) == compute_checksum(data)
}

// ── Laws ─────────────────────────────────────────────────────────────────

/// The checksum depends on the bytes from 0x200 on only.
proof fn lemma_sum_ignores_header(a: Seq<u8>, b: Seq<u8>, n: nat)
    requires
        a.len() == b.len(),
        0x200 + 2 * n <= a.len(),
        forall|i: int| 0x200 <= i < a.len() ==> a[i] == b[i],
    ensures
        word_sum(a, n) == word_sum(b, n),
    decreases n,
{
    if n > 0 {
        lemma_sum_ignores_header(a, b, (n - 1) as nat);
    }
}

/// A ROM whose computed checksum is stored in its header verifies.
pub proof fn law_stored_checksum_verifies(data: Seq<u8>)
    requires
        data.len() >= 512,
    ensures
        ({
            let sum = checksum_of(data);
            let stored = data.update(0x18E, (sum / 0x100) as u8).update(
                0x18F,
                (sum % 0x100) as u8,
            );
            word_at(stored, 0x18E) == checksum_of(stored)
        }),
{
    let sum = checksum_of(data);
    let stored = data.update(0x18E, (sum / 0x100) as u8).update(0x18F, (sum % 0x100) as u8);
    lemma_sum_ignores_header(data, stored, body_words(data));
    assert((sum / 0x100) * 0x100 + sum % 0x100 == sum);
}

/// A trimmed text neither starts nor ends with a space, and trimming it again
/// changes nothing.
pub proof fn law_trimmed(s: Seq<char>)
    ensures
        trimmed(s).len() > 0 ==> trimmed(s).first() != ' ' && trimmed(s).last() != ' ',
        trimmed(trimmed(s)) == trimmed(s),
        trimmed(s).len() <= s.len(),
    decreases s.len(),
{
    reveal(trimmed);
    if s.len() > 0 {
        if s.first() == ' ' {
            law_trimmed(s.subrange(1, s.len() as int));
        } else if s.last() == ' ' {
            law_trimmed(s.subrange(0, s.len() - 1));
        }
    }
}

/// The header is at fixed places of the ROM: names and codes are the printable
/// characters there without the spaces round them, numbers are big-endian.
pub proof fn law_header_layout(data: Seq<u8>, h: RomHeader)
    requires
        data.len() >= 512,
        header_of(data, h),
    ensures
        h.system_type@ == trimmed(data.subrange(0x100, 0x110).map_values(|b: u8| header_char(b))),
        h.copyright@ == trimmed(data.subrange(0x110, 0x120).map_values(|b: u8| header_char(b))),
        h.title_domestic@ == trimmed(
            data.subrange(0x120, 0x150).map_values(|b: u8| header_char(b)),
        ),
        h.title_overseas@ == trimmed(
            data.subrange(0x150, 0x180).map_values(|b: u8| header_char(b)),
        ),
        h.serial@ == trimmed(data.subrange(0x180, 0x18E).map_values(|b: u8| header_char(b))),
        h.region@ == trimmed(data.subrange(0x1F0, 0x1F3).map_values(|b: u8| header_char(b))),
        h.checksum == data[0x18E] * 0x100 + data[0x18F],
        h.rom_start == 0x1_0000 * word_at(data, 0x1A0) + word_at(data, 0x1A2),
        h.rom_end == 0x1_0000 * word_at(data, 0x1A4) + word_at(data, 0x1A6),
        h.ram_start == 0x1_0000 * word_at(data, 0x1A8) + word_at(data, 0x1AA),
        h.ram_end == 0x1_0000 * word_at(data, 0x1AC) + word_at(data, 0x1AE),
        h.sram_start == 0x1_0000 * word_at(data, 0x1B4) + word_at(data, 0x1B6),
        h.sram_end == 0x1_0000 * word_at(data, 0x1B8) + word_at(data, 0x1BA),
        h.has_sram == (data[0x1B0] == 0x52 && data[0x1B1] == 0x41 && data[0x1B2] >= 0x80
            && data[0x1B2] % 0x40 >= 0x20),
        h.sram_layout is EvenOnly <==> data[0x1B2] % 0x10 >= 8,
        h.sram_layout is OddOnly <==> data[0x1B2] % 0x10 < 8 && data[0x1B2] % 0x20 >= 0x10,
{
    assert(raw_field(data, 0x100, 16) =~= data.subrange(0x100, 0x110).map_values(
        |b: u8| header_char(b),
    ));
    assert(raw_field(data, 0x110, 16) =~= data.subrange(0x110, 0x120).map_values(
        |b: u8| header_char(b),
    ));
    assert(raw_field(data, 0x120, 48) =~= data.subrange(0x120, 0x150).map_values(
        |b: u8| header_char(b),
    ));
    assert(raw_field(data, 0x150, 48) =~= data.subrange(0x150, 0x180).map_values(
        |b: u8| header_char(b),
    ));
    assert(raw_field(data, 0x180, 14) =~= data.subrange(0x180, 0x18E).map_values(
        |b: u8| header_char(b),
    ));
    assert(raw_field(data, 0x1F0, 3) =~= data.subrange(0x1F0, 0x1F3).map_values(
        |b: u8| header_char(b),
    ));
}

/// Every word behind the header counts in the checksum: replacing one changes the
/// checksum by the difference.
pub proof fn law_checksum_counts_words(data: Seq<u8>, k: int, hi: u8, lo: u8)
    requires
        data.len() >= 512,
        0 <= k,
        0x200 + 2 * k + 2 <= data.len(),
    ensures
        ({
            let at = 0x200 + 2 * k;
            let other = data.update(at, hi).update(at + 1, lo);
            let change = (hi * 0x100 + lo) - (data[at] * 0x100 + data[at + 1]);
            checksum_of(other) as int == (checksum_of(data) + change) % 0x1_0000
        }),
{
    lemma_word_counts(data, k, hi, lo, body_words(data));
}

/// How a sum of words changes with one of them.
proof fn lemma_word_counts(data: Seq<u8>, k: int, hi: u8, lo: u8, n: nat)
    requires
        0 <= k,
        0x200 + 2 * k + 2 <= data.len(),
        0x200 + 2 * n <= data.len(),
    ensures
        ({
            let at = 0x200 + 2 * k;
            let other = data.update(at, hi).update(at + 1, lo);
            let change = (hi * 0x100 + lo) - (data[at] * 0x100 + data[at + 1]);
            word_sum(other, n) as int == (word_sum(data, n) + if k < n {
                change
            } else {
                0
            }) % 0x1_0000
        }),
    decreases n,
{
    if n > 0 {
        let m = (n - 1) as nat;
        lemma_word_counts(data, k, hi, lo, m);
        let at = 0x200 + 2 * k;
        let other = data.update(at, hi).update(at + 1, lo);
        let o: int = 0x200 + 2 * (n - 1);
        let w = word_at(data, o);
        let v = word_at(other, o);
        let e = if k < m {
            (hi * 0x100 + lo) - (data[at] * 0x100 + data[at + 1])
        } else {
            0
        };
        if k == m {
            assert(v == hi * 0x100 + lo);
        } else {
            assert(v == w);
        }
        lemma_sum_step(word_sum(data, m), word_sum(other, m), e, w, v);
    }
}

/// One more word in two sums.
proof fn lemma_sum_step(s: u16, t: u16, e: int, w: u16, v: u16)
    requires
        t == (s + e) % 0x1_0000,
    ensures
        t.wrapping_add(v) == (s.wrapping_add(w) + e + (v - w)) % 0x1_0000,
{
    assert(t.wrapping_add(v) == (t + v) % 0x1_0000);
    assert(s.wrapping_add(w) == (s + w) % 0x1_0000);
    vstd::arithmetic::div_mod::lemma_add_mod_noop(s + e, v as int, 0x1_0000);
    vstd::arithmetic::div_mod::lemma_add_mod_noop(s + w, e + (v - w), 0x1_0000);
    vstd::arithmetic::div_mod::lemma_small_mod(v as nat, 0x1_0000);
}

/// A ROM whose words behind the header are all zero has checksum zero.
pub proof fn law_empty_checksum(data: Seq<u8>)
    requires
        forall|i: int| 0x200 <= i < data.len() ==> data[i] == 0,
    ensures
        checksum_of(data) == 0,
{
    lemma_zero_words(data, body_words(data));
}

/// A sum of zero words.
proof fn lemma_zero_words(data: Seq<u8>, n: nat)
    requires
        forall|i: int| 0x200 <= i < data.len() ==> data[i] == 0,
        n == 0 || 0x200 + 2 * n <= data.len(),
    ensures
        word_sum(data, n) == 0,
    decreases n,
{
    if n > 0 {
        lemma_zero_words(data, (n - 1) as nat);
    }
}

} // verus!
