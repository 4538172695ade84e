//! Binary-coded decimal arithmetic of the 68000.
use vstd::prelude::*;

verus! {

/// Outcome of a decimal operation on one byte.
#[derive(Debug, Clone, Copy, PartialEq, Eq, Structural)]
pub struct BcdResult {
    /// The corrected byte.
    pub value: u8,
    /// Decimal carry or borrow.
    pub carry: bool,
    /// Bit 7 changed through the decimal correction.
    pub overflow: bool,
}

/// The decimal sum `dst + src + extend`. The binary sum gets 6 added where the
/// low digits exceed 9 and 0x60 where it exceeds 0x99; V tells that bit 7 went
/// from 0 to 1 through these corrections.
pub open spec fn bcd_add_sem(src: u8, dst: u8, extend: u16) -> BcdResult {
    let binary = dst + src + extend;
    let low_fix = if dst % 16 + src % 16 + extend > 9 {
        6int
    } else {
        0
    };
    let high_fix = if binary > 0x99 {
        0x60int
    } else {
        0
    };
    let corrected = binary + low_fix + high_fix;
    BcdResult {
        value: (corrected % 0x100) as u8,
        carry: binary > 0x99,
        overflow: binary % 0x100 < 0x80 && corrected % 0x100 >= 0x80,
    }
}

/// The decimal difference `dst - src - extend`. The binary difference gets 6
/// taken off where the low digits borrow and 0x60 where it is negative; V tells
/// that bit 7 went from 1 to 0 through these corrections.
pub open spec fn bcd_sub_sem(src: u8, dst: u8, extend: u16) -> BcdResult {
    let binary = dst - src - extend;
    let low_fix = if dst % 16 < src % 16 + extend {
        6int
    } else {
        0
    };
    let high_fix = if binary < 0 {
        0x60int
    } else {
        0
    };
    let corrected = binary - low_fix - high_fix;
    BcdResult {
        value: (corrected % 0x100) as u8,
        carry: corrected < 0,
        overflow: binary % 0x100 >= 0x80 && corrected % 0x100 < 0x80,
    }
}

/// BCD addition: dst + src + extend, with decimal correction.
pub fn bcd_add(src: u8, dst: u8, extend: u16) -> (r: BcdResult)
    requires
        extend <= 1,
    ensures
        r == bcd_add_sem(src, dst, extend),
{
    let low: u16 = (dst % 16) as u16 + (src % 16) as u16 + extend;
    let binary: u16 = dst as u16 + src as u16 + extend;
    let mut result: u16 = binary;
    if low > 0x09 {
        result = result + 0x06;
    }
    if binary > 0x99 {
        result = result + 0x60;
    }
    BcdResult {
        value: (result % 0x100) as u8,
        carry: binary > 0x99,
        overflow: binary % 0x100 < 0x80 && result % 0x100 >= 0x80,
    }
}

/// Four pages below, the low byte is the same.
proof fn lemma_offset_keeps_byte(x: int)
    ensures
        (x - 0x400) % 0x100 == x % 0x100,
{
}

/// BCD subtraction: dst - src - extend, with decimal correction.
pub fn bcd_sub(src: u8, dst: u8, extend: u16) -> (r: BcdResult)
    requires
        extend <= 1,
    ensures
        r == bcd_sub_sem(src, dst, extend),
{
    // Offset by a multiple of 0x100, so that the bytes stay the same.
    let binary: u16 = 0x400 + dst as u16 - src as u16 - extend;
    let mut result: u16 = binary;
    if ((dst % 16) as u16) < (src % 16) as u16 + extend {
        result = result - 0x06;
    }
    if binary < 0x400 {
        result = result - 0x60;
    }
    proof {
        lemma_offset_keeps_byte(binary as int);
        lemma_offset_keeps_byte(result as int);
        let fixed = bcd_sub_sem(src, dst, extend);
        assert(fixed.value == result % 0x100);
    }
    BcdResult {
        value: (result % 0x100) as u8,
        carry: result < 0x400,
        overflow: binary % 0x100 >= 0x80 && result % 0x100 < 0x80,
    }
}

/// The byte holds two decimal digits.
pub open spec fn is_bcd(b: u8) -> bool {
    b % 16 <= 9 && b / 16 <= 9
}

/// The number that two decimal digits denote.
pub open spec fn bcd_value(b: u8) -> int {
    (b / 16) * 10 + b % 16
}

/// The decimal sum in machine words.
proof fn lemma_bcd_add_digits(src: u8, dst: u8, extend: u16)
    by (bit_vector)
    requires
        src % 16 <= 9,
        src / 16 <= 9,
        dst % 16 <= 9,
        dst / 16 <= 9,
        extend <= 1,
    ensures
        ({
            let binary = dst + src + extend;
            let f1 = if dst % 16 + src % 16 + extend > 9 { binary + 6 } else { binary + 0 };
            let f2 = if binary > 0x99 { f1 + 0x60 } else { f1 + 0 };
            let total = (dst / 16) * 10 + dst % 16 + (src / 16) * 10 + src % 16 + extend;
            &&& (f2 % 0x100) % 16 <= 9
            &&& (f2 % 0x100) / 16 <= 9
            &&& ((f2 % 0x100) / 16) * 10 + (f2 % 0x100) % 16 == total % 100
            &&& (binary > 0x99) == (total >= 100)
        }),
{
}

/// The digits of a byte.
proof fn lemma_digits_of_byte(b: u8, hi: int, lo: int)
    requires
        b == 16 * hi + lo,
        0 <= hi < 16,
        0 <= lo < 16,
    ensures
        b % 16 == lo,
        b / 16 == hi,
{
}

/// The decimal difference of two numbers given by their digits, computed as
/// [`bcd_sub_sem`] does.
proof fn lemma_bcd_sub_digits(s1: int, s0: int, d1: int, d0: int, x: int)
    requires
        0 <= s1 <= 9,
        0 <= s0 <= 9,
        0 <= d1 <= 9,
        0 <= d0 <= 9,
        0 <= x <= 1,
    ensures
        ({
            let binary = (16 * d1 + d0) - (16 * s1 + s0) - x;
            let f1 = if d0 < s0 + x { binary - 6 } else { binary };
            let f2 = if binary < 0 { f1 - 0x60 } else { f1 };
            let total = 10 * d1 + d0 - (10 * s1 + s0) - x;
            let lo = if d0 < s0 + x { d0 - s0 - x + 10 } else { d0 - s0 - x };
            let raw = if d0 < s0 + x { d1 - s1 - 1 } else { d1 - s1 };
            let hi = if raw < 0 { raw + 10 } else { raw };
            &&& 0 <= lo <= 9
            &&& 0 <= hi <= 9
            &&& f2 % 0x100 == 16 * hi + lo
            &&& 10 * hi + lo == total % 100
            &&& (f2 < 0) == (total < 0)
        }),
{
}

/// On decimal digits the sum is the decimal sum: the digits of the sum modulo
/// 100, with the carry telling that it reached 100.
pub proof fn law_bcd_add_is_decimal(src: u8, dst: u8, extend: u16)
    requires
        is_bcd(src),
        is_bcd(dst),
        extend <= 1,
    ensures
        ({
            let r = bcd_add_sem(src, dst, extend);
            let total = bcd_value(dst) + bcd_value(src) + extend;
            &&& is_bcd(r.value)
            &&& bcd_value(r.value) == total % 100
            &&& r.carry == (total >= 100)
        }),
{
    lemma_bcd_add_digits(src, dst, extend);
}

/// On decimal digits the difference is the decimal difference modulo 100, with
/// the carry telling that it went below zero.
pub proof fn law_bcd_sub_is_decimal(src: u8, dst: u8, extend: u16)
    requires
        is_bcd(src),
        is_bcd(dst),
        extend <= 1,
    ensures
        ({
            let r = bcd_sub_sem(src, dst, extend);
            let total = bcd_value(dst) - bcd_value(src) - extend;
            &&& is_bcd(r.value)
            &&& bcd_value(r.value) == total % 100
            &&& r.carry == (total < 0)
        }),
{
    let s1 = (src / 16) as int;
    let s0 = (src % 16) as int;
    let d1 = (dst / 16) as int;
    let d0 = (dst % 16) as int;
    lemma_bcd_sub_digits(s1, s0, d1, d0, extend as int);
    let lo = if d0 < s0 + extend {
        d0 - s0 - extend + 10
    } else {
        d0 - s0 - extend
    };
    let raw = if d0 < s0 + extend {
        d1 - s1 - 1
    } else {
        d1 - s1
    };
    let hi = if raw < 0 {
        raw + 10
    } else {
        raw
    };
    assert(src == 16 * s1 + s0 && dst == 16 * d1 + d0);
    lemma_digits_of_byte(bcd_sub_sem(src, dst, extend).value, hi, lo);
}

} // verus!
