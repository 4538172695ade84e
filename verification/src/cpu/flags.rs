//! Condition codes of the 68000.
use vstd::prelude::*;

use super::decode::InstructionSize;
use super::operand::{
    is_negative, low, mask_value, modulus, msb_mask, negative, sign_weight, signed,
};
use super::{has_flag, with_flag, StatusRegister};

verus! {

/// Status bits that exist: T(15), S(13), IPM(10-8), X(4), N(3), Z(2), V(1),
/// C(0). The others always read as 0.
pub const SR_MASK: u16 = 0xA71F;

// ── Setting condition codes ──────────────────────────────────────────────

/// A status word with N, Z, V and C replaced.
pub open spec fn nzvc(sr: u16, n: bool, z: bool, v: bool, c: bool) -> u16 {
    with_flag(
        with_flag(
            with_flag(with_flag(sr, StatusRegister::N, n), StatusRegister::Z, z),
            StatusRegister::V,
            v,
        ),
        StatusRegister::C,
        c,
    )
}

/// A status word with X, N, Z, V and C replaced.
pub open spec fn xnzvc(sr: u16, x: bool, n: bool, z: bool, v: bool, c: bool) -> u16 {
    with_flag(nzvc(sr, n, z, v, c), StatusRegister::X, x)
}

/// Replaces N, Z, V and C.
pub fn set_nzvc(sr: &mut StatusRegister, n: bool, z: bool, v: bool, c: bool)
    ensures
        final(sr).0 == nzvc(old(sr).0, n, z, v, c),
{
    sr.set_flag(StatusRegister::N, n);
    sr.set_flag(StatusRegister::Z, z);
    sr.set_flag(StatusRegister::V, v);
    sr.set_flag(StatusRegister::C, c);
}

/// Replaces X, N, Z, V and C.
pub fn set_xnzvc(sr: &mut StatusRegister, x: bool, n: bool, z: bool, v: bool, c: bool)
    ensures
        final(sr).0 == xnzvc(old(sr).0, x, n, z, v, c),
{
    set_nzvc(sr, n, z, v, c);
    sr.set_flag(StatusRegister::X, x);
}

/// Bit-level content of [`law_condition_codes_read_back`].
proof fn lemma_nzvc_bits(sr: u16, n: bool, z: bool, v: bool, c: bool)
    by (bit_vector)
    ensures
        ({
            let s1 = if n { sr | 8u16 } else { sr & !8u16 };
            let s2 = if z { s1 | 4u16 } else { s1 & !4u16 };
            let s3 = if v { s2 | 2u16 } else { s2 & !2u16 };
            let s4 = if c { s3 | 1u16 } else { s3 & !1u16 };
            &&& (s4 & 8 != 0) == n
            &&& (s4 & 4 != 0) == z
            &&& (s4 & 2 != 0) == v
            &&& (s4 & 1 != 0) == c
            &&& s4 & 0xFFF0 == sr & 0xFFF0
        }),
{
}

/// After the four condition codes are replaced they read back as written, and
/// every other status bit is unchanged.
pub proof fn law_condition_codes_read_back(sr: u16, n: bool, z: bool, v: bool, c: bool)
    ensures
        has_flag(nzvc(sr, n, z, v, c), StatusRegister::N) == n,
        has_flag(nzvc(sr, n, z, v, c), StatusRegister::Z) == z,
        has_flag(nzvc(sr, n, z, v, c), StatusRegister::V) == v,
        has_flag(nzvc(sr, n, z, v, c), StatusRegister::C) == c,
        nzvc(sr, n, z, v, c) & 0xFFF0 == sr & 0xFFF0,
{
    lemma_nzvc_bits(sr, n, z, v, c);
}

// ── Results ──────────────────────────────────────────────────────────────

/// Status after a result without arithmetic: N and Z describe it, V and C are
/// clear.
pub open spec fn nz_flags(sr: u16, result: u32, size: InstructionSize) -> u16 {
    nzvc(sr, negative(result, size), low(result, size) == 0, false, false)
}

/// The unsigned sum of two operands and a carry, before it is cut to size.
pub open spec fn full_sum(src: u32, dst: u32, x: u32, size: InstructionSize) -> int {
    low(dst, size) + low(src, size) + x
}

/// The unsigned difference of two operands and a borrow.
pub open spec fn full_difference(src: u32, dst: u32, x: u32, size: InstructionSize) -> int {
    low(dst, size) - low(src, size) - x
}

/// A signed number does not fit an operand of the given size.
pub open spec fn signed_overflow(value: int, size: InstructionSize) -> bool {
    value < -sign_weight(size) || value >= sign_weight(size)
}

/// A number cut to an operand of the given size.
pub open spec fn wrap(value: int, size: InstructionSize) -> int {
    value % modulus(size)
}

/// Status after `dst + src`: C and X are the unsigned carry, V the signed
/// overflow.
pub open spec fn add_flags(sr: u16, src: u32, dst: u32, size: InstructionSize) -> u16 {
    let sum = full_sum(src, dst, 0, size);
    let carry = sum >= modulus(size);
    xnzvc(
        sr,
        carry,
        wrap(sum, size) >= sign_weight(size),
        wrap(sum, size) == 0,
        signed_overflow(signed(dst, size) + signed(src, size), size),
        carry,
    )
}

/// Status after `dst - src`: C and X are the unsigned borrow, V the signed
/// overflow.
pub open spec fn sub_flags(sr: u16, src: u32, dst: u32, size: InstructionSize) -> u16 {
    let diff = full_difference(src, dst, 0, size);
    xnzvc(
        sr,
        diff < 0,
        wrap(diff, size) >= sign_weight(size),
        wrap(diff, size) == 0,
        signed_overflow(signed(dst, size) - signed(src, size), size),
        diff < 0,
    )
}

/// Status after comparing `dst` with `src`: as `dst - src`, with X untouched.
pub open spec fn compare_flags(sr: u16, src: u32, dst: u32, size: InstructionSize) -> u16 {
    let diff = full_difference(src, dst, 0, size);
    nzvc(
        sr,
        wrap(diff, size) >= sign_weight(size),
        wrap(diff, size) == 0,
        signed_overflow(signed(dst, size) - signed(src, size), size),
        diff < 0,
    )
}

/// Status after the multi-precision addition `dst + src + x`. Z stays set only
/// if it was set and the result is zero.
pub open spec fn addx_flags(sr: u16, src: u32, dst: u32, x: u32, size: InstructionSize) -> u16 {
    let sum = full_sum(src, dst, x, size);
    let carry = sum >= modulus(size);
    xnzvc(
        sr,
        carry,
        wrap(sum, size) >= sign_weight(size),
        wrap(sum, size) == 0 && has_flag(sr, StatusRegister::Z),
        signed_overflow(signed(dst, size) + signed(src, size) + x, size),
        carry,
    )
}

/// Status after the multi-precision subtraction `dst - src - x`. Z stays set
/// only if it was set and the result is zero.
pub open spec fn subx_flags(sr: u16, src: u32, dst: u32, x: u32, size: InstructionSize) -> u16 {
    let diff = full_difference(src, dst, x, size);
    xnzvc(
        sr,
        diff < 0,
        wrap(diff, size) >= sign_weight(size),
        wrap(diff, size) == 0 && has_flag(sr, StatusRegister::Z),
        signed_overflow(signed(dst, size) - signed(src, size) - x, size),
        diff < 0,
    )
}

/// Sets N and Z from a result and clears V and C.
pub fn set_flags_nz(sr: &mut StatusRegister, result: u32, size: InstructionSize)
    ensures
        final(sr).0 == nz_flags(old(sr).0, result, size),
{
    set_nzvc(sr, is_negative(result, size), mask_value(result, size) == 0, false, false);
}

/// Overflow, carry and result of an addition of operands cut to size.
fn addition(src: u32, dst: u32, x: u32, size: InstructionSize) -> (r: (u32, bool, bool))
    requires
        x <= 1,
    ensures
        r.0 == wrap(full_sum(src, dst, x, size), size),
        r.1 == signed_overflow(signed(dst, size) + signed(src, size) + x, size),
        r.2 == (full_sum(src, dst, x, size) >= modulus(size)),
        r.0 == low(r.0, size),
{
    let s: u32 = mask_value(src, size);
    let d: u32 = mask_value(dst, size);
    let sum: u64 = d as u64 + s as u64 + x as u64;
    let limit: u64 = match size {
        InstructionSize::Byte => 0x100,
        InstructionSize::Word => 0x1_0000,
        InstructionSize::Long => 0x1_0000_0000,
    };
    let carry: bool = sum >= limit;
    let result: u32 = if carry {
        (sum - limit) as u32
    } else {
        sum as u32
    };
    assert(result == wrap(full_sum(src, dst, x, size), size)) by {
        match size {
            InstructionSize::Byte => {},
            InstructionSize::Word => {},
            InstructionSize::Long => {},
        }
    }
    let msb: u32 = msb_mask(size);
    let overflow: bool = (s >= msb) == (d >= msb) && (result >= msb) != (s >= msb);
    (result, overflow, carry)
}

/// Result, overflow and borrow of a subtraction of operands cut to size.
fn subtraction(src: u32, dst: u32, x: u32, size: InstructionSize) -> (r: (u32, bool, bool))
    requires
        x <= 1,
    ensures
        r.0 == wrap(full_difference(src, dst, x, size), size),
        r.1 == signed_overflow(signed(dst, size) - signed(src, size) - x, size),
        r.2 == (full_difference(src, dst, x, size) < 0),
        r.0 == low(r.0, size),
{
    let s: u32 = mask_value(src, size);
    let d: u32 = mask_value(dst, size);
    let limit: u64 = match size {
        InstructionSize::Byte => 0x100,
        InstructionSize::Word => 0x1_0000,
        InstructionSize::Long => 0x1_0000_0000,
    };
    let subtrahend: u64 = s as u64 + x as u64;
    let borrow: bool = subtrahend > d as u64;
    let result: u32 = if borrow {
        (d as u64 + limit - subtrahend) as u32
    } else {
        (d as u64 - subtrahend) as u32
    };
    assert(result == wrap(full_difference(src, dst, x, size), size)) by {
        match size {
            InstructionSize::Byte => {},
            InstructionSize::Word => {},
            InstructionSize::Long => {},
        }
    }
    let msb: u32 = msb_mask(size);
    let overflow: bool = (s >= msb) != (d >= msb) && (result >= msb) != (d >= msb);
    (result, overflow, borrow)
}

/// Sets all condition codes for `dst + src`.
pub fn set_flags_add(sr: &mut StatusRegister, src: u32, dst: u32, size: InstructionSize)
    ensures
        final(sr).0 == add_flags(old(sr).0, src, dst, size),
{
    let (r, v, c) = addition(src, dst, 0, size);
    set_xnzvc(sr, c, r >= msb_mask(size), r == 0, v, c);
}

/// Sets all condition codes for `dst - src`.
pub fn set_flags_sub(sr: &mut StatusRegister, src: u32, dst: u32, size: InstructionSize)
    ensures
        final(sr).0 == sub_flags(old(sr).0, src, dst, size),
{
    let (r, v, c) = subtraction(src, dst, 0, size);
    set_xnzvc(sr, c, r >= msb_mask(size), r == 0, v, c);
}

/// Sets N, Z, V and C for the comparison of `dst` with `src`.
pub fn set_flags_compare(sr: &mut StatusRegister, src: u32, dst: u32, size: InstructionSize)
    ensures
        final(sr).0 == compare_flags(old(sr).0, src, dst, size),
{
    let (r, v, c) = subtraction(src, dst, 0, size);
    set_nzvc(sr, r >= msb_mask(size), r == 0, v, c);
}

/// Sets all condition codes for `dst + src + x`; Z is only ever cleared.
pub fn set_flags_addx(sr: &mut StatusRegister, src: u32, dst: u32, x: u32, size: InstructionSize)
    requires
        x <= 1,
    ensures
        final(sr).0 == addx_flags(old(sr).0, src, dst, x, size),
{
    let old_z: bool = sr.flag(StatusRegister::Z);
    let (r, v, c) = addition(src, dst, x, size);
    set_xnzvc(sr, c, r >= msb_mask(size), r == 0 && old_z, v, c);
}

/// Sets all condition codes for `dst - src - x`; Z is only ever cleared.
pub fn set_flags_subx(sr: &mut StatusRegister, src: u32, dst: u32, x: u32, size: InstructionSize)
    requires
        x <= 1,
    ensures
        final(sr).0 == subx_flags(old(sr).0, src, dst, x, size),
{
    let old_z: bool = sr.flag(StatusRegister::Z);
    let (r, v, c) = subtraction(src, dst, x, size);
    set_xnzvc(sr, c, r >= msb_mask(size), r == 0 && old_z, v, c);
}

/// The extend flag as a number.
pub open spec fn extend_bit(sr: u16) -> u32 {
    if has_flag(sr, StatusRegister::X) {
        1
    } else {
        0
    }
}

/// Returns the extend flag as a number.
pub fn extend_value(sr: StatusRegister) -> (r: u32)
    ensures
        r == extend_bit(sr.0),
        r <= 1,
{
    if sr.flag(StatusRegister::X) {
        1
    } else {
        0
    }
}

// ── Conditions ───────────────────────────────────────────────────────────

/// The 68000 condition `condition` (low four bits) holds in a status word.
pub open spec fn condition_holds(sr: u16, condition: u8) -> bool {
    let c = has_flag(sr, StatusRegister::C);
    let v = has_flag(sr, StatusRegister::V);
    let z = has_flag(sr, StatusRegister::Z);
    let n = has_flag(sr, StatusRegister::N);
    let k = condition % 16;
    if k == 0x0 {
        true
    } else if k == 0x1 {
        false
    } else if k == 0x2 {
        !c && !z
    } else if k == 0x3 {
        c || z
    } else if k == 0x4 {
        !c
    } else if k == 0x5 {
        c
    } else if k == 0x6 {
        !z
    } else if k == 0x7 {
        z
    } else if k == 0x8 {
        !v
    } else if k == 0x9 {
        v
    } else if k == 0xA {
        !n
    } else if k == 0xB {
        n
    } else if k == 0xC {
        n == v
    } else if k == 0xD {
        n != v
    } else if k == 0xE {
        !z && n == v
    } else {
        z || n != v
    }
}

/// Evaluates a 68000 condition code (4-bit field of Bcc/DBcc/Scc).
pub fn evaluate_condition(sr: &StatusRegister, condition: u8) -> (r: bool)
    ensures
        r == condition_holds(sr.0, condition),
{
    let c: bool = sr.flag(StatusRegister::C);
    let v: bool = sr.flag(StatusRegister::V);
    let z: bool = sr.flag(StatusRegister::Z);
    let n: bool = sr.flag(StatusRegister::N);
    match condition % 16 {
        0x0 => true,
        0x1 => false,
        0x2 => !c && !z,
        0x3 => c || z,
        0x4 => !c,
        0x5 => c,
        0x6 => !z,
        0x7 => z,
        0x8 => !v,
        0x9 => v,
        0xA => !n,
        0xB => n,
        0xC => n == v,
        0xD => n != v,
        0xE => !z && n == v,
        _ => z || n != v,
    }
}

/// Each condition with an odd code is the negation of the one before it.
pub proof fn law_conditions_come_in_pairs(sr: u16, condition: u8)
    requires
        condition % 2 == 0,
    ensures
        condition_holds(sr, (condition + 1) as u8) == !condition_holds(sr, condition),
{
}

/// After a comparison the conditions order the two operands: as signed numbers
/// (LT, GE, GT, LE), as unsigned numbers (CS, CC, HI, LS) and by equality.
pub proof fn law_compare_orders_operands(sr: u16, src: u32, dst: u32, size: InstructionSize)
    ensures
        ({
            let after = compare_flags(sr, src, dst, size);
            &&& condition_holds(after, 0x7) == (low(dst, size) == low(src, size))
            &&& condition_holds(after, 0x5) == (low(dst, size) < low(src, size))
            &&& condition_holds(after, 0x2) == (low(dst, size) > low(src, size))
            &&& condition_holds(after, 0xD) == (signed(dst, size) < signed(src, size))
            &&& condition_holds(after, 0xE) == (signed(dst, size) > signed(src, size))
        }),
{
    let diff = full_difference(src, dst, 0, size);
    law_condition_codes_read_back(
        sr,
        wrap(diff, size) >= sign_weight(size),
        wrap(diff, size) == 0,
        signed_overflow(signed(dst, size) - signed(src, size), size),
        diff < 0,
    );
    match size {
        InstructionSize::Byte => {},
        InstructionSize::Word => {},
        InstructionSize::Long => {},
    }
}

} // verus!
