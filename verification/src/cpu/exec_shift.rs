//! Shift and rotate instructions of the 68000.
use vstd::prelude::*;

use super::decode::{
    bit, bit_of, reg_high, reg_high_of, reg_low, reg_low_of, AddressingMode, InstructionSize,
};
use super::engine::{Cpu, CpuState};
use super::flags::{nz_flags, nzvc, set_flags_nz, set_nzvc};
use super::operand::{
    low, machine, mask_value, merge, merge_value, modulus, msb_mask, read_ea_with_addr,
    read_ea_with_addr_sem, sign_weight, signed, src_ea, src_ea_of, write_addr_sem, write_to_addr, Bus,
    Machine,
};
use super::{has_flag, with_flag, StatusRegister};

verus! {

/// The kinds of shifts and rotates.
#[derive(Debug, Clone, Copy, PartialEq, Eq, Structural)]
pub enum ShiftKind {
    /// ASL / ASR
    Arithmetic,
    /// LSL / LSR
    Logical,
    /// ROL / ROR
    Rotate,
    /// ROXL / ROXR
    RotateExtend,
}

/// One shift by a single bit: the shifted operand and the bit that left it.
/// The vacated bit gets the sign (arithmetic right), the bit that left
/// (rotate), the extend flag `x` (rotate through extend) or zero.
#[verifier::opaque]
pub open spec fn shift_step(
    kind: ShiftKind,
    left: bool,
    size: InstructionSize,
    v: u32,
    x: bool,
) -> (u32, bool) {
    let msb = sign_weight(size);
    if left {
        let out = v >= msb;
        let fill = match kind {
            ShiftKind::Rotate => out,
            ShiftKind::RotateExtend => x,
            _ => false,
        };
        (
            if fill {
                ((2 * v) % modulus(size) + 1) as u32
            } else {
                ((2 * v) % modulus(size)) as u32
            },
            out,
        )
    } else {
        let out = v % 2 == 1;
        let fill = match kind {
            ShiftKind::Arithmetic => v >= msb,
            ShiftKind::Logical => false,
            ShiftKind::Rotate => out,
            ShiftKind::RotateExtend => x,
        };
        (
            if fill {
                (v / 2 + msb) as u32
            } else {
                v / 2
            },
            out,
        )
    }
}

/// Shifts an operand by a single bit.
fn step(kind: ShiftKind, left: bool, size: InstructionSize, v: u32, x: bool) -> (r: (u32, bool))
    requires
        v < modulus(size),
    ensures
        r == shift_step(kind, left, size, v, x),
        r.0 < modulus(size),
{
    proof {
        reveal(shift_step);
        lemma_doubled(size, v);
    }
    let msb: u32 = msb_mask(size);
    if left {
        let out: bool = v >= msb;
        let doubled: u32 = if out {
            (v - msb) * 2
        } else {
            v * 2
        };
        let fill: bool = match kind {
            ShiftKind::Rotate => out,
            ShiftKind::RotateExtend => x,
            _ => false,
        };
        if fill {
            (doubled + 1, out)
        } else {
            (doubled, out)
        }
    } else {
        let out: bool = v % 2 == 1;
        let fill: bool = match kind {
            ShiftKind::Arithmetic => v >= msb,
            ShiftKind::Logical => false,
            ShiftKind::Rotate => out,
            ShiftKind::RotateExtend => x,
        };
        if fill {
            (v / 2 + msb, out)
        } else {
            (v / 2, out)
        }
    }
}

/// `n` shifts in a row: the operand, the last bit that left it (`x` where
/// there was none), and whether the sign changed at any step.
pub open spec fn shift_steps(
    kind: ShiftKind,
    left: bool,
    size: InstructionSize,
    v: u32,
    x: bool,
    n: nat,
) -> (u32, bool, bool)
    decreases n,
{
    if n == 0 {
        (v, x, false)
    } else {
        let (v1, x1, changed) = shift_steps(kind, left, size, v, x, (n - 1) as nat);
        let (v2, out) = shift_step(kind, left, size, v1, x1);
        (v2, out, changed || (v2 >= sign_weight(size)) != (v1 >= sign_weight(size)))
    }
}

/// Shifts an operand by `count` bits.
fn shift(kind: ShiftKind, left: bool, size: InstructionSize, v: u32, x: bool, count: u32) -> (r: (
    u32,
    bool,
    bool,
))
    requires
        v < modulus(size),
    ensures
        r == shift_steps(kind, left, size, v, x, count as nat),
        r.0 < modulus(size),
{
    let msb: u32 = msb_mask(size);
    let mut value: u32 = v;
    let mut out: bool = x;
    let mut changed: bool = false;
    let mut i: u32 = 0;
    while i < count
        invariant
            i <= count,
            msb == sign_weight(size),
            value < modulus(size),
            (value, out, changed) == shift_steps(kind, left, size, v, x, i as nat),
        decreases count - i,
    {
        let before: u32 = value;
        let (next, bit_out) = step(kind, left, size, value, out);
        value = next;
        out = bit_out;
        if (value >= msb) != (before >= msb) {
            changed = true;
        }
        i = i + 1;
    }
    (value, out, changed)
}

/// The shift count of a register shift: a number from 1 to 8, or a data
/// register modulo 64.
pub open spec fn shift_count(c: CpuState, opcode: u16) -> u32 {
    let field = reg_high_of(opcode);
    if !bit_of(opcode, 0x20) {
        if field == 0 {
            8
        } else {
            field as u32
        }
    } else {
        c.d[field as int] % 64
    }
}

/// The status word after a shift that moved at least one bit. C is the last
/// bit out; X follows it except for plain rotates; V tells that an arithmetic
/// left shift changed the sign.
pub open spec fn shift_flags(
    sr: u16,
    kind: ShiftKind,
    left: bool,
    size: InstructionSize,
    r: (u32, bool, bool),
) -> u16 {
    let overflow = kind == ShiftKind::Arithmetic && left && r.2;
    let after = nzvc(sr, r.0 >= sign_weight(size), r.0 == 0, overflow, r.1);
    if kind == ShiftKind::Rotate {
        after
    } else {
        with_flag(after, StatusRegister::X, r.1)
    }
}

/// Sets the condition codes of a shift.
fn set_flags_shift(
    sr: &mut StatusRegister,
    kind: ShiftKind,
    left: bool,
    size: InstructionSize,
    r: (u32, bool, bool),
)
    ensures
        final(sr).0 == shift_flags(old(sr).0, kind, left, size, r),
{
    let overflow: bool = kind == ShiftKind::Arithmetic && left && r.2;
    set_nzvc(sr, r.0 >= msb_mask(size), r.0 == 0, overflow, r.1);
    if kind != ShiftKind::Rotate {
        sr.set_flag(StatusRegister::X, r.1);
    }
}

/// A shift of a data register. A count of zero only sets the flags: C is
/// clear, or the extend flag where the rotate goes through it.
pub open spec fn shift_register_sem(
    c: CpuState,
    kind: ShiftKind,
    opcode: u16,
    size: InstructionSize,
) -> (u32, CpuState) {
    let reg = reg_low_of(opcode) as int;
    let left = bit_of(opcode, 0x100);
    let count = shift_count(c, opcode);
    let val = low(c.d[reg], size);
    let x = has_flag(c.sr, StatusRegister::X);
    if count == 0 {
        let sr1 = nz_flags(c.sr, val, size);
        if kind == ShiftKind::RotateExtend {
            (6, c.with_sr(with_flag(sr1, StatusRegister::C, x)))
        } else {
            (6, c.with_sr(sr1))
        }
    } else {
        let r = shift_steps(kind, left, size, val, x, count as nat);
        let c1 = c.with_sr(shift_flags(c.sr, kind, left, size, r));
        ((6 + 2 * count) as u32, c1.write_d(reg, merge(c1.d[reg], r.0, size)))
    }
}

/// Executes a shift or rotate of a data register.
pub fn exec_shift_register(
    cpu: &mut Cpu,
    kind: ShiftKind,
    opcode: u16,
    size: InstructionSize,
) -> (r: u32)
    ensures
        (r, final(cpu)@) == shift_register_sem(old(cpu)@, kind, opcode, size),
{
    let reg: u8 = reg_low(opcode);
    let left: bool = bit(opcode, 0x100);
    let field: u8 = reg_high(opcode);
    let count: u32 = if !bit(opcode, 0x20) {
        if field == 0 {
            8
        } else {
            field as u32
        }
    } else {
        cpu.read_d(field) % 64
    };
    let val: u32 = mask_value(cpu.read_d(reg), size);
    let x: bool = cpu.sr.flag(StatusRegister::X);
    if count == 0 {
        set_flags_nz(&mut cpu.sr, val, size);
        if kind == ShiftKind::RotateExtend {
            cpu.sr.set_flag(StatusRegister::C, x);
        }
        return 6;
    }
    let r: (u32, bool, bool) = shift(kind, left, size, val, x, count);
    set_flags_shift(&mut cpu.sr, kind, left, size, r);
    let merged: u32 = merge_value(cpu.read_d(reg), r.0, size);
    cpu.write_d(reg, merged);
    6 + 2 * count
}

/// The kind of a memory shift, from bits 10-9 of the opcode.
pub open spec fn memory_shift_kind(opcode: u16) -> ShiftKind {
    let field = (opcode / 0x200) % 4;
    if field == 0 {
        ShiftKind::Arithmetic
    } else if field == 1 {
        ShiftKind::Logical
    } else if field == 2 {
        ShiftKind::RotateExtend
    } else {
        ShiftKind::Rotate
    }
}

/// A shift or rotate of a memory word by one bit. Nothing is written where the operand is a data register.
pub open spec fn shift_mem_sem<B: Bus>(s: Machine<B::Model>, opcode: u16) -> (u32, Machine<B::Model>) {
    let ea = src_ea_of(opcode);
    let kind = memory_shift_kind(opcode);
    let left = bit_of(opcode, 0x100);
    let (val, addr, s1) = read_ea_with_addr_sem::<B>(s, ea, InstructionSize::Word);
    let x = has_flag(s1.cpu.sr, StatusRegister::X);
    let r = shift_steps(
        kind,
        left,
        InstructionSize::Word,
        low(val, InstructionSize::Word),
        x,
        1,
    );
    let s2 = s1.with_sr(shift_flags(s1.cpu.sr, kind, left, InstructionSize::Word, r));
    match ea {
        AddressingMode::DataDirect(_) => (8, s2),
        _ => (8, s2.with_bus(write_addr_sem::<B>(s2.bus, addr, InstructionSize::Word, r.0))),
    }
}

/// A shift or rotate of a memory word by one bit. Nothing is written where the operand is a data register.
pub fn exec_shift_mem<B: Bus>(cpu: &mut Cpu, opcode: u16, bus: &mut B) -> (r: u32)
    requires
        old(bus).valid(),
    ensures
        final(bus).valid(),
        (r, machine(*final(cpu), *final(bus))) == shift_mem_sem::<B>(
            machine(*old(cpu), *old(bus)),
            opcode,
        ),
{
    let ea = src_ea(opcode);
    let field: u16 = (opcode / 0x200) % 4;
    let kind: ShiftKind = if field == 0 {
        ShiftKind::Arithmetic
    } else if field == 1 {
        ShiftKind::Logical
    } else if field == 2 {
        ShiftKind::RotateExtend
    } else {
        ShiftKind::Rotate
    };
    let left: bool = bit(opcode, 0x100);
    let (val, addr) = read_ea_with_addr(cpu, ea, InstructionSize::Word, bus);
    let x: bool = cpu.sr.flag(StatusRegister::X);
    let word: u32 = mask_value(val, InstructionSize::Word);
    let r: (u32, bool, bool) = shift(kind, left, InstructionSize::Word, word, x, 1);
    set_flags_shift(&mut cpu.sr, kind, left, InstructionSize::Word, r);
    match ea {
        AddressingMode::DataDirect(_) => {},
        _ => write_to_addr(bus, addr, InstructionSize::Word, r.0),
    }
    8
}

/// A logical left shift multiplies by a power of two within the operand, and a
/// logical right shift divides by it.
pub proof fn law_logical_shift_scales(size: InstructionSize, v: u32, x: bool, n: nat)
    requires
        v < modulus(size),
    ensures
        shift_steps(ShiftKind::Logical, true, size, v, x, n).0 == (v
            * vstd::arithmetic::power2::pow2(n)) % modulus(size),
        shift_steps(ShiftKind::Logical, false, size, v, x, n).0 == v as nat
            / vstd::arithmetic::power2::pow2(n),
    decreases n,
{
    reveal(shift_step);
    use_pow2(n);
    if n == 0 {
        assert(v * 1 == v) by (nonlinear_arith);
    } else {
        let m = (n - 1) as nat;
        law_logical_shift_scales(size, v, x, m);
        use_pow2(m);
        let p = vstd::arithmetic::power2::pow2(m) as int;
        let w = modulus(size);
        vstd::arithmetic::power2::lemma_pow2_unfold(n);
        assert(v * (2 * p) == 2 * (v * p)) by (nonlinear_arith);
        vstd::arithmetic::div_mod::lemma_mul_mod_noop_right(2, v * p, w);
        vstd::arithmetic::div_mod::lemma_div_denominator(v as int, p, 2);
        assert(p * 2 == 2 * p);
        let left = shift_steps(ShiftKind::Logical, true, size, v, x, m).0;
        assert((2 * left) % w == (2 * (v * p)) % w);
        assert(0 <= (2 * left) % w < 0x1_0000_0000);
    }
}

/// Powers of two are positive and the zeroth is one.
proof fn use_pow2(n: nat)
    ensures
        vstd::arithmetic::power2::pow2(n) > 0,
        vstd::arithmetic::power2::pow2(0) == 1,
{
    vstd::arithmetic::power2::lemma_pow2_pos(n);
    vstd::arithmetic::power2::lemma2_to64();
}

/// Doubling an operand and cutting it drops the sign bit.
proof fn lemma_doubled(size: InstructionSize, v: u32)
    requires
        v < modulus(size),
    ensures
        (2 * v) % modulus(size) == if v >= sign_weight(size) {
            2 * v - modulus(size)
        } else {
            2 * v
        },
{
    let q = if v >= sign_weight(size) {
        1int
    } else {
        0int
    };
    vstd::arithmetic::div_mod::lemma_fundamental_div_mod_converse(
        2 * v,
        modulus(size),
        q,
        2 * v - q * modulus(size),
    );
}

/// A rotate by one bit undoes a rotate by one bit the other way.
pub proof fn law_rotates_undo_each_other(size: InstructionSize, v: u32, left: bool)
    requires
        v < modulus(size),
    ensures
        shift_step(
            ShiftKind::Rotate,
            !left,
            size,
            shift_step(ShiftKind::Rotate, left, size, v, false).0,
            false,
        ).0 == v,
{
    reveal(shift_step);
    lemma_doubled(size, v);
    if !left {
        let h = sign_weight(size);
        lemma_doubled(size, (v / 2) as u32);
        assert(v / 2 < h);
        if v % 2 == 1 {
            lemma_doubled(size, (v / 2 + h) as u32);
        }
    }
}

/// A rotate through the extend flag is undone, flag included, by the rotate
/// the other way.
pub proof fn law_extended_rotates_undo_each_other(
    size: InstructionSize,
    v: u32,
    x: bool,
    left: bool,
)
    requires
        v < modulus(size),
    ensures
        ({
            let (v1, x1) = shift_step(ShiftKind::RotateExtend, left, size, v, x);
            shift_step(ShiftKind::RotateExtend, !left, size, v1, x1) == (v, x)
        }),
{
    reveal(shift_step);
    lemma_doubled(size, v);
    if !left {
        let h = sign_weight(size);
        assert(v / 2 < h);
        lemma_doubled(size, (v / 2) as u32);
        if x {
            lemma_doubled(size, (v / 2 + h) as u32);
        }
    }
}

/// Halving a number that was divided by a power of two, rounding down each time,
/// divides by the next power.
proof fn lemma_halved_quotient(a: int, p: int)
    requires
        p > 0,
    ensures
        (a / p) / 2 == a / (2 * p),
{
    let q = a / p;
    let r = a % p;
    let h = q / 2;
    let b = q % 2;
    vstd::arithmetic::div_mod::lemma_fundamental_div_mod(a, p);
    vstd::arithmetic::div_mod::lemma_mod_bound(a, p);
    assert(a == (2 * p) * h + (p * b + r) && 0 <= p * b + r < 2 * p) by (nonlinear_arith)
        requires
            a == p * q + r,
            q == 2 * h + b,
            b == 0 || b == 1,
            0 <= r < p,
    ;
    assert((2 * p) * h == h * (2 * p)) by (nonlinear_arith);
    vstd::arithmetic::div_mod::lemma_fundamental_div_mod_converse(a, 2 * p, h, p * b + r);
}

/// One step of a left shift or rotate.
proof fn lemma_left_step(kind: ShiftKind, size: InstructionSize, v: u32, x: bool)
    requires
        v < modulus(size),
    ensures
        ({
            let (r, out) = shift_step(kind, true, size, v, x);
            let fill: int = match kind {
                ShiftKind::Rotate => if out {
                    1
                } else {
                    0
                },
                ShiftKind::RotateExtend => if x {
                    1
                } else {
                    0
                },
                _ => 0,
            };
            &&& out == (v >= sign_weight(size))
            &&& out ==> r == 2 * v - modulus(size) + fill
            &&& !out ==> r == 2 * v + fill
            &&& r < modulus(size)
            &&& r % 2 == fill
        }),
{
    reveal(shift_step);
    lemma_doubled(size, v);
    match size {
        InstructionSize::Byte => {},
        InstructionSize::Word => {},
        InstructionSize::Long => {},
    }
}

/// One step of a right shift or rotate.
proof fn lemma_right_step(kind: ShiftKind, size: InstructionSize, v: u32, x: bool)
    requires
        v < modulus(size),
    ensures
        ({
            let (r, out) = shift_step(kind, false, size, v, x);
            let fill = match kind {
                ShiftKind::Arithmetic => v >= sign_weight(size),
                ShiftKind::Logical => false,
                ShiftKind::Rotate => out,
                ShiftKind::RotateExtend => x,
            };
            &&& out == (v % 2 == 1)
            &&& fill ==> r == v / 2 + sign_weight(size)
            &&& !fill ==> r == v / 2
            &&& r < modulus(size)
            &&& (r >= sign_weight(size)) == fill
        }),
{
    reveal(shift_step);
    match size {
        InstructionSize::Byte => {},
        InstructionSize::Word => {},
        InstructionSize::Long => {},
    }
}

/// An operand taken as it stands in its register.
proof fn lemma_whole_operand(size: InstructionSize, v: u32)
    requires
        v < modulus(size),
    ensures
        low(v, size) == v,
        modulus(size) == 2 * sign_weight(size),
{
}

/// An arithmetic right shift by `n` bits divides the two's complement operand by
/// 2 to the power `n`, rounding down. So the sign stays, and the last bit out is
/// the parity of the quotient one step before.
#[verifier::spinoff_prover]
#[verifier::rlimit(60)]
pub proof fn law_arithmetic_right_shift_divides(size: InstructionSize, v: u32, x: bool, n: nat)
    requires
        v < modulus(size),
    ensures
        ({
            let r = shift_steps(ShiftKind::Arithmetic, false, size, v, x, n);
            &&& r.0 < modulus(size)
            &&& signed(r.0, size) == signed(v, size) / vstd::arithmetic::power2::pow2(n) as int
            &&& (r.0 >= sign_weight(size)) == (v >= sign_weight(size))
            &&& !r.2
            &&& n > 0 ==> r.1 == ((signed(v, size) / vstd::arithmetic::power2::pow2(
                (n - 1) as nat,
            ) as int) % 2 == 1)
        }),
    decreases n,
{
    use_pow2(n);
    lemma_whole_operand(size, v);
    if n > 0 {
        let m = (n - 1) as nat;
        law_arithmetic_right_shift_divides(size, v, x, m);
        use_pow2(m);
        vstd::arithmetic::power2::lemma_pow2_unfold(n);
        let before = shift_steps(ShiftKind::Arithmetic, false, size, v, x, m).0;
        let after = shift_steps(ShiftKind::Arithmetic, false, size, v, x, n).0;
        lemma_right_step(
            ShiftKind::Arithmetic,
            size,
            before,
            shift_steps(ShiftKind::Arithmetic, false, size, v, x, m).1,
        );
        lemma_whole_operand(size, before);
        lemma_whole_operand(size, after);
        lemma_halved_quotient(signed(v, size), vstd::arithmetic::power2::pow2(m) as int);
        assert(signed(after, size) == signed(before, size) / 2);
    } else {
        assert(signed(v, size) / 1 == signed(v, size));
    }
}

/// An arithmetic left shift by `n` bits multiplies by 2 to the power `n` within
/// the operand. It reports overflow exactly where the signed product leaves the
/// range of the operand, and the last bit out is the top bit one step before.
#[verifier::spinoff_prover]
#[verifier::rlimit(60)]
pub proof fn law_arithmetic_left_shift_multiplies(size: InstructionSize, v: u32, x: bool, n: nat)
    requires
        v < modulus(size),
    ensures
        ({
            let r = shift_steps(ShiftKind::Arithmetic, true, size, v, x, n);
            let p = vstd::arithmetic::power2::pow2(n) as int;
            &&& r.0 == (v * p) % modulus(size)
            &&& r.2 == !(-sign_weight(size) <= signed(v, size) * p < sign_weight(size))
            &&& !r.2 ==> signed(r.0, size) == signed(v, size) * p
            &&& n > 0 ==> r.1 == ((v * vstd::arithmetic::power2::pow2((n - 1) as nat)) % modulus(
                size,
            ) >= sign_weight(size))
        }),
    decreases n,
{
    use_pow2(n);
    lemma_whole_operand(size, v);
    let s = signed(v, size);
    let w = modulus(size);
    if n == 0 {
        assert(v * 1 == v) by (nonlinear_arith);
        assert(s * 1 == s) by (nonlinear_arith);
    } else {
        let m = (n - 1) as nat;
        law_arithmetic_left_shift_multiplies(size, v, x, m);
        use_pow2(m);
        vstd::arithmetic::power2::lemma_pow2_unfold(n);
        let p = vstd::arithmetic::power2::pow2(m) as int;
        assert(v * (2 * p) == 2 * (v * p)) by (nonlinear_arith);
        assert(s * (2 * p) == 2 * (s * p)) by (nonlinear_arith);
        vstd::arithmetic::div_mod::lemma_mul_mod_noop_right(2, v * p, w);
        let before = shift_steps(ShiftKind::Arithmetic, true, size, v, x, m).0;
        let after = shift_steps(ShiftKind::Arithmetic, true, size, v, x, n).0;
        assert(before < w) by {
            vstd::arithmetic::div_mod::lemma_mod_bound(v * p, w);
        }
        lemma_doubled(size, before);
        lemma_left_step(
            ShiftKind::Arithmetic,
            size,
            before,
            shift_steps(ShiftKind::Arithmetic, true, size, v, x, m).1,
        );
        assert(after == (2 * before) % w);
        lemma_whole_operand(size, before);
        lemma_whole_operand(size, after);
    }
}

/// A rotate left by `n` bits multiplies by 2 to the power `n` modulo the largest
/// operand, where nothing is lost: only 0 gives 0. A rotate right by `n` bits
/// takes it back.
#[verifier::spinoff_prover]
#[verifier::rlimit(60)]
pub proof fn law_rotate_multiplies(size: InstructionSize, v: u32, x: bool, n: nat)
    requires
        v < modulus(size),
    ensures
        ({
            let r = shift_steps(ShiftKind::Rotate, true, size, v, x, n).0;
            let k = modulus(size) - 1;
            &&& r < modulus(size)
            &&& r as int % k == (v * vstd::arithmetic::power2::pow2(n)) % k
            &&& (r == 0) == (v == 0)
            &&& n > 0 ==> shift_steps(ShiftKind::Rotate, true, size, v, x, n).1 == (r % 2 == 1)
        }),
        ({
            let r = shift_steps(ShiftKind::Rotate, false, size, v, x, n).0;
            let k = modulus(size) - 1;
            &&& r < modulus(size)
            &&& (r * vstd::arithmetic::power2::pow2(n)) % k == v as int % k
            &&& (r == 0) == (v == 0)
            &&& n > 0 ==> shift_steps(ShiftKind::Rotate, false, size, v, x, n).1 == (r
                >= sign_weight(size))
        }),
    decreases n,
{
    use_pow2(n);
    if n == 0 {
        assert(v * 1 == v) by (nonlinear_arith);
    } else {
        let m = (n - 1) as nat;
        law_rotate_multiplies(size, v, x, m);
        use_pow2(m);
        vstd::arithmetic::power2::lemma_pow2_unfold(n);
        let p = vstd::arithmetic::power2::pow2(m) as int;
        let k = modulus(size) - 1;
        let a = shift_steps(ShiftKind::Rotate, true, size, v, x, m);
        let b = shift_steps(ShiftKind::Rotate, true, size, v, x, n);
        lemma_left_step(ShiftKind::Rotate, size, a.0, a.1);
        let out: int = if a.0 >= sign_weight(size) {
            1
        } else {
            0
        };
        assert(b.0 == 2 * a.0 - out * k);
        lemma_same_remainder(2 * a.0, b.0 as int, out, k);
        assert(v * (2 * p) == 2 * (v * p)) by (nonlinear_arith);
        vstd::arithmetic::div_mod::lemma_mul_mod_noop_right(2, v * p, k);
        vstd::arithmetic::div_mod::lemma_mul_mod_noop_right(2, a.0 as int, k);
        let c = shift_steps(ShiftKind::Rotate, false, size, v, x, m);
        let d = shift_steps(ShiftKind::Rotate, false, size, v, x, n);
        let bit: int = if c.0 % 2 == 1 {
            1
        } else {
            0
        };
        lemma_right_step(ShiftKind::Rotate, size, c.0, c.1);
        assert(2 * d.0 == c.0 + bit * k);
        assert(d.0 * (2 * p) == (2 * d.0) * p) by (nonlinear_arith);
        assert((2 * d.0) * p == c.0 * p + (bit * p) * k) by (nonlinear_arith)
            requires
                2 * d.0 == c.0 + bit * k,
        ;
        lemma_same_remainder((2 * d.0) * p, c.0 * p, bit * p, k);
    }
}

/// Numbers that differ by a multiple of the divisor leave one remainder.
proof fn lemma_same_remainder(a: int, b: int, q: int, k: int)
    requires
        k > 0,
        a == b + q * k,
    ensures
        a % k == b % k,
{
    vstd::arithmetic::div_mod::lemma_mod_multiples_vanish(q, b, k);
    assert(k * q == q * k) by (nonlinear_arith);
}

/// A rotate through the extend flag by `n` bits does the same with the operand and
/// the flag above it taken as one number.
#[verifier::spinoff_prover]
#[verifier::rlimit(60)]
pub proof fn law_extended_rotate_multiplies(size: InstructionSize, v: u32, x: bool, n: nat)
    requires
        v < modulus(size),
    ensures
        ({
            let (r, y, _) = shift_steps(ShiftKind::RotateExtend, true, size, v, x, n);
            let k = 2 * modulus(size) - 1;
            &&& r < modulus(size)
            &&& with_extend(r, y, size) % k == (with_extend(v, x, size)
                * vstd::arithmetic::power2::pow2(n)) % k
            &&& (r == 0 && !y) == (v == 0 && !x)
        }),
        ({
            let (r, y, _) = shift_steps(ShiftKind::RotateExtend, false, size, v, x, n);
            let k = 2 * modulus(size) - 1;
            &&& r < modulus(size)
            &&& (with_extend(r, y, size) * vstd::arithmetic::power2::pow2(n)) % k == with_extend(
                v,
                x,
                size,
            ) % k
            &&& (r == 0 && !y) == (v == 0 && !x)
        }),
    decreases n,
{
    use_pow2(n);
    let u = with_extend(v, x, size);
    if n == 0 {
        assert(u * 1 == u) by (nonlinear_arith);
    } else {
        let m = (n - 1) as nat;
        law_extended_rotate_multiplies(size, v, x, m);
        use_pow2(m);
        vstd::arithmetic::power2::lemma_pow2_unfold(n);
        let p = vstd::arithmetic::power2::pow2(m) as int;
        let k = 2 * modulus(size) - 1;
        let a = shift_steps(ShiftKind::RotateExtend, true, size, v, x, m);
        let b = shift_steps(ShiftKind::RotateExtend, true, size, v, x, n);
        lemma_left_step(ShiftKind::RotateExtend, size, a.0, a.1);
        let ua = with_extend(a.0, a.1, size);
        let ub = with_extend(b.0, b.1, size);
        let out: int = if a.1 {
            1
        } else {
            0
        };
        assert(ub == 2 * ua - out * k);
        lemma_same_remainder(2 * ua, ub, out, k);
        assert(u * (2 * p) == 2 * (u * p)) by (nonlinear_arith);
        vstd::arithmetic::div_mod::lemma_mul_mod_noop_right(2, u * p, k);
        vstd::arithmetic::div_mod::lemma_mul_mod_noop_right(2, ua, k);
        let c = shift_steps(ShiftKind::RotateExtend, false, size, v, x, m);
        let d = shift_steps(ShiftKind::RotateExtend, false, size, v, x, n);
        let uc = with_extend(c.0, c.1, size);
        let ud = with_extend(d.0, d.1, size);
        let bit: int = if c.0 % 2 == 1 {
            1
        } else {
            0
        };
        lemma_right_step(ShiftKind::RotateExtend, size, c.0, c.1);
        assert(2 * ud == uc + bit * k);
        assert(ud * (2 * p) == (2 * ud) * p) by (nonlinear_arith);
        assert((2 * ud) * p == uc * p + (bit * p) * k) by (nonlinear_arith)
            requires
                2 * ud == uc + bit * k,
        ;
        lemma_same_remainder((2 * ud) * p, uc * p, bit * p, k);
    }
}

/// A shifted operand stays an operand.
pub proof fn lemma_shifted_range(
    kind: ShiftKind,
    left: bool,
    size: InstructionSize,
    v: u32,
    x: bool,
    n: nat,
)
    requires
        v < modulus(size),
    ensures
        shift_steps(kind, left, size, v, x, n).0 < modulus(size),
    decreases n,
{
    if n > 0 {
        let m = (n - 1) as nat;
        lemma_shifted_range(kind, left, size, v, x, m);
        let r = shift_steps(kind, left, size, v, x, m);
        if left {
            lemma_left_step(kind, size, r.0, r.1);
        } else {
            lemma_right_step(kind, size, r.0, r.1);
        }
    }
}

/// The last bit that leaves is the top bit of the operand one step before, going
/// left, and its lowest bit, going right.
pub proof fn law_last_bit_out(
    kind: ShiftKind,
    left: bool,
    size: InstructionSize,
    v: u32,
    x: bool,
    n: nat,
)
    requires
        n > 0,
    ensures
        ({
            let before = shift_steps(kind, left, size, v, x, (n - 1) as nat).0;
            shift_steps(kind, left, size, v, x, n).1 == if left {
                before >= sign_weight(size)
            } else {
                before % 2 == 1
            }
        }),
{
    reveal(shift_step);
}

/// An operand with the extend flag above its top bit.
pub open spec fn with_extend(v: u32, x: bool, size: InstructionSize) -> int {
    v + if x {
        modulus(size)
    } else {
        0
    }
}

} // verus!
