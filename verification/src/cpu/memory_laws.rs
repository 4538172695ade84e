//! What the comparisons, decimal operations and bit operations do, in registers and
//! in memory.
use vstd::arithmetic::power2::pow2;
use vstd::prelude::*;

use super::bcd::{
    bcd_add_sem, bcd_sub_sem, bcd_value, is_bcd, law_bcd_add_is_decimal, law_bcd_sub_is_decimal,
    BcdResult,
};
use super::decode::{bit_of, decode_ea_spec, decode_spec, AddressingMode, Instruction, InstructionSize};
use super::engine::CpuState;
use super::exec_alu::bcd_flags;
use super::exec_bits::BitOp;
use super::execute::{additive_sem, execute_sem, flow_sem, logic_sem, multiplicative_sem};
use super::laws::{
    as_signed, codes, fields_ok, fits, in_memory, lemma_codes, lemma_compare_codes, lemma_fields,
    lemma_operand, lemma_wrapping, lemma_written_bits, opcode, operand, replaced, size_code,
    values,
};
use super::operand::{
    extend, fetch_immediate_sem, low, merge, read_ea_sem, read_ea_with_addr_sem, write_addr_sem,
    Bus, Machine,
};
use super::program_laws::{
    lemma_bit_arithmetic, lemma_extended_codes, lemma_extended_results, lemma_zero_flag,
};
use super::{has_flag, StatusRegister};

verus! {

// ── Comparisons ──────────────────────────────────────────────────────────

/// The codes of a comparison: N, V and C of the difference, Z where the operands are
/// equal, and X as before.
pub open spec fn compared(sr: u16, before: u16, src: int, dst: int, size: InstructionSize) -> bool {
    codes(
        sr,
        before,
        has_flag(before, 0x10),
        as_signed((dst - src) % values(size), size) < 0,
        dst == src,
        !fits(as_signed(dst, size) - as_signed(src, size), size),
        dst < src,
    )
}

/// CMPI compares an operand with the immediate behind the opcode and changes only
/// the codes.
#[verifier::rlimit(60)]
#[verifier::spinoff_prover]
pub proof fn law_compare_immediate<B: Bus>(
    s: Machine<B::Model>,
    size: InstructionSize,
    mode: int,
    y: int,
)
    requires
        fields_ok(0, 0, 0, mode, y),
        mode != 1,
        mode == 7 ==> y < 4,
    ensures
        ({
            let t = execute_sem::<B>(s, opcode(0, 6, size_code(size), mode, y)).1;
            let (imm, u) = fetch_immediate_sem::<B>(s, size);
            let (val, v) = read_ea_sem::<B>(u, decode_ea_spec(mode as u8, y as u8), size);
            &&& compared(t.cpu.sr, v.cpu.sr, operand(imm, size), operand(val, size), size)
            &&& t == v.with_sr(t.cpu.sr)
        }),
{
    lemma_fields(0, 6, size_code(size), mode, y);
    reveal(flow_sem);
    let w = opcode(0, 6, size_code(size), mode, y);
    assert(decode_spec(w) == Instruction::CmpI(size));
    let (imm, u) = fetch_immediate_sem::<B>(s, size);
    let (val, v) = read_ea_sem::<B>(u, decode_ea_spec(mode as u8, y as u8), size);
    lemma_compare_codes(v.cpu.sr, imm, val, size);
}

/// CMPM compares what two address registers point at, the source first, and moves
/// both on.
#[verifier::rlimit(60)]
#[verifier::spinoff_prover]
pub proof fn law_compare_memory<B: Bus>(s: Machine<B::Model>, x: int, size: InstructionSize, y: int)
    requires
        fields_ok(0, x, 0, 1, y),
    ensures
        ({
            let t = execute_sem::<B>(s, opcode(0xB, x, 4 + size_code(size), 1, y)).1;
            let (src, u) = read_ea_sem::<B>(s, AddressingMode::AddrPostInc(y as u8), size);
            let (dst, v) = read_ea_sem::<B>(u, AddressingMode::AddrPostInc(x as u8), size);
            &&& compared(t.cpu.sr, v.cpu.sr, operand(src, size), operand(dst, size), size)
            &&& t == v.with_sr(t.cpu.sr)
        }),
{
    lemma_fields(0xB, x, 4 + size_code(size), 1, y);
    reveal(flow_sem);
    let w = opcode(0xB, x, 4 + size_code(size), 1, y);
    assert(decode_spec(w) == Instruction::CmpM(size));
    let (src, u) = read_ea_sem::<B>(s, AddressingMode::AddrPostInc(y as u8), size);
    let (dst, v) = read_ea_sem::<B>(u, AddressingMode::AddrPostInc(x as u8), size);
    lemma_compare_codes(v.cpu.sr, src, dst, size);
}

/// CMPA compares the whole of an address register with an operand; a word is
/// sign-extended.
#[verifier::rlimit(60)]
#[verifier::spinoff_prover]
pub proof fn law_compare_address<B: Bus>(s: Machine<B::Model>, long: bool, x: int, mode: int, y: int)
    requires
        fields_ok(0, x, 0, mode, y),
    ensures
        ({
            let size = if long {
                InstructionSize::Long
            } else {
                InstructionSize::Word
            };
            let op: int = if long {
                7
            } else {
                3
            };
            let t = execute_sem::<B>(s, opcode(0xB, x, op, mode, y)).1;
            let (val, u) = read_ea_sem::<B>(s, decode_ea_spec(mode as u8, y as u8), size);
            let src = as_signed(operand(val, size), size) % 0x1_0000_0000;
            &&& compared(
                t.cpu.sr,
                u.cpu.sr,
                src,
                u.cpu.read_a(x) as int,
                InstructionSize::Long,
            )
            &&& t == u.with_sr(t.cpu.sr)
        }),
{
    let size = if long {
        InstructionSize::Long
    } else {
        InstructionSize::Word
    };
    let op: int = if long {
        7
    } else {
        3
    };
    lemma_fields(0xB, x, op, mode, y);
    reveal(flow_sem);
    let w = opcode(0xB, x, op, mode, y);
    assert(decode_spec(w) == Instruction::CmpA(size));
    let (val, u) = read_ea_sem::<B>(s, decode_ea_spec(mode as u8, y as u8), size);
    lemma_compare_codes(u.cpu.sr, extend(val, size), u.cpu.read_a(x), InstructionSize::Long);
    lemma_extended_number(val, size);
}

/// A sign-extended operand as a number.
proof fn lemma_extended_number(val: u32, size: InstructionSize)
    requires
        size != InstructionSize::Byte,
    ensures
        extend(val, size) as int == as_signed(operand(val, size), size) % 0x1_0000_0000,
{
    match size {
        InstructionSize::Byte => {},
        InstructionSize::Word => {},
        InstructionSize::Long => {},
    }
}

// ── Operands in place ────────────────────────────────────────────────────

/// NEGX of a data register takes it and the extend flag from zero; Z can only be
/// cleared.
#[verifier::rlimit(60)]
#[verifier::spinoff_prover]
pub proof fn law_negate_extended<B: Bus>(s: Machine<B::Model>, size: InstructionSize, y: int)
    requires
        0 <= y < 8,
        s.cpu.d.len() == 8,
    ensures
        ({
            let m = values(size);
            let a = operand(s.cpu.d[y], size);
            let carry: int = if has_flag(s.cpu.sr, 0x10) {
                1
            } else {
                0
            };
            let t = execute_sem::<B>(s, opcode(4, 0, size_code(size), 0, y)).1;
            let r = (-a - carry) % m;
            &&& replaced(s.cpu.d[y], t.cpu.d[y], r, size)
            &&& codes(
                t.cpu.sr,
                s.cpu.sr,
                a + carry > 0,
                as_signed(r, size) < 0,
                r == 0 && has_flag(s.cpu.sr, 0x04),
                !fits(-as_signed(a, size) - carry, size),
                a + carry > 0,
            )
            &&& t == s.with_cpu(s.cpu.write_d(y, t.cpu.d[y]).with_sr(t.cpu.sr))
        }),
{
    lemma_fields(4, 0, size_code(size), 0, y);
    reveal(additive_sem);
    let w = opcode(4, 0, size_code(size), 0, y);
    assert(decode_spec(w) == Instruction::NegX(size));
    let d = s.cpu.d[y];
    let v = low(d, size);
    let c = super::flags::extend_bit(s.cpu.sr);
    lemma_operand(size, d, 0);
    lemma_operand(size, d, 0u32.wrapping_sub(v).wrapping_sub(c));
    lemma_extended_results(v, 0, c, size);
    lemma_extended_codes(s.cpu.sr, v, 0, c, size);
}

/// TAS tests a byte and sets its highest bit, in a data register or in memory.
#[verifier::rlimit(60)]
#[verifier::spinoff_prover]
pub proof fn law_test_and_set<B: Bus>(s: Machine<B::Model>, x: int, mode: int, y: int)
    requires
        0 <= x < 8,
        fields_ok(0, 0, 0, mode, y),
        in_memory(mode, y),
        s.cpu.d.len() == 8,
    ensures
        ({
            let byte = InstructionSize::Byte;
            let p = execute_sem::<B>(s, opcode(4, 5, 3, 0, x)).1;
            let v = operand(s.cpu.d[x], byte);
            let q = execute_sem::<B>(s, opcode(4, 5, 3, mode, y)).1;
            let (val, addr, u) = read_ea_with_addr_sem::<B>(
                s,
                decode_ea_spec(mode as u8, y as u8),
                byte,
            );
            let w = operand(val, byte);
            &&& replaced(s.cpu.d[x], p.cpu.d[x], v % 128 + 128, byte)
            &&& super::laws::result_codes(p.cpu.sr, s.cpu.sr, v, byte)
            &&& p == s.with_cpu(s.cpu.write_d(x, p.cpu.d[x]).with_sr(p.cpu.sr))
            &&& q.bus == B::write_byte_model(u.bus, addr % 0x100_0000, (w % 128 + 128) as u8)
            &&& super::laws::result_codes(q.cpu.sr, u.cpu.sr, w, byte)
            &&& q.cpu == u.cpu.with_sr(q.cpu.sr)
        }),
{
    lemma_fields(4, 5, 3, 0, x);
    lemma_fields(4, 5, 3, mode, y);
    reveal(multiplicative_sem);
    let byte = InstructionSize::Byte;
    assert(decode_spec(opcode(4, 5, 3, 0, x)) == Instruction::Tas);
    assert(decode_spec(opcode(4, 5, 3, mode, y)) == Instruction::Tas);
    let (val, addr, u) = read_ea_with_addr_sem::<B>(s, decode_ea_spec(mode as u8, y as u8), byte);
    let v = (s.cpu.d[x] % 0x100) as u8;
    let w = (val % 0x100) as u8;
    assert((v | 0x80) == v % 128 + 128 && (w | 0x80) == w % 128 + 128) by (bit_vector);
    lemma_operand(byte, s.cpu.d[x], (v | 0x80) as u32);
    lemma_codes(s.cpu.sr, false, v >= 0x80, v == 0, false, false);
    lemma_codes(u.cpu.sr, false, w >= 0x80, w == 0, false, false);
    assert(low(s.cpu.d[x], byte) == v);
}

/// BTST, BCHG, BCLR and BSET of a byte in memory: the bit number counts modulo 8, Z
/// tells that the bit was clear, and the byte goes back with that bit changed.
#[verifier::rlimit(60)]
#[verifier::spinoff_prover]
pub proof fn law_memory_bits<B: Bus>(s: Machine<B::Model>, op: BitOp, x: int, mode: int, y: int)
    requires
        fields_ok(0, x, 0, mode, y),
        in_memory(mode, y),
        s.cpu.d.len() == 8,
    ensures
        ({
            let k: int = match op {
                BitOp::TestBit => 0,
                BitOp::ChangeBit => 1,
                BitOp::ClearBit => 2,
                BitOp::SetBit => 3,
            };
            let t = execute_sem::<B>(s, opcode(0, x, 4 + k, mode, y)).1;
            let (val, addr, u) = read_ea_with_addr_sem::<B>(
                s,
                decode_ea_spec(mode as u8, y as u8),
                InstructionSize::Byte,
            );
            let p = pow2((s.cpu.d[x] as int % 8) as nat) as int;
            let clear = (val as int / p) % 2 == 0;
            let r = match op {
                BitOp::TestBit => val as int,
                BitOp::SetBit => if clear {
                    val + p
                } else {
                    val as int
                },
                BitOp::ClearBit => if clear {
                    val as int
                } else {
                    val - p
                },
                BitOp::ChangeBit => if clear {
                    val + p
                } else {
                    val - p
                },
            };
            &&& has_flag(t.cpu.sr, 0x04) == clear
            &&& t.cpu.sr & 0xFFFB == u.cpu.sr & 0xFFFB
            &&& t.cpu == u.cpu.with_sr(t.cpu.sr)
            &&& op == BitOp::TestBit ==> t.bus == u.bus
            &&& op != BitOp::TestBit ==> t.bus == write_addr_sem::<B>(
                u.bus,
                addr,
                InstructionSize::Byte,
                r as u32,
            )
        }),
{
    let k: int = match op {
        BitOp::TestBit => 0,
        BitOp::ChangeBit => 1,
        BitOp::ClearBit => 2,
        BitOp::SetBit => 3,
    };
    lemma_fields(0, x, 4 + k, mode, y);
    reveal(logic_sem);
    let ea = decode_ea_spec(mode as u8, y as u8);
    let (val, addr, u) = read_ea_with_addr_sem::<B>(s, ea, InstructionSize::Byte);
    let n = s.cpu.d[x] % 8;
    lemma_bit_arithmetic(val, n);
    lemma_zero_flag(u.cpu.sr, val & (1u32 << n) == 0);
}

// ── Decimal ──────────────────────────────────────────────────────────────

/// The extend flag as a number.
pub open spec fn carried(sr: u16) -> int {
    if has_flag(sr, 0x10) {
        1
    } else {
        0
    }
}

/// ABCD and SBCD of data registers add and subtract two decimal digits and the
/// extend flag; X and C carry on, and Z can only be cleared.
#[verifier::rlimit(60)]
#[verifier::spinoff_prover]
pub proof fn law_decimal_registers<B: Bus>(s: Machine<B::Model>, x: int, y: int)
    requires
        fields_ok(0, x, 0, 0, y),
        s.cpu.d.len() == 8,
        is_bcd((s.cpu.d[x] % 0x100) as u8),
        is_bcd((s.cpu.d[y] % 0x100) as u8),
    ensures
        ({
            let a = bcd_value((s.cpu.d[x] % 0x100) as u8);
            let b = bcd_value((s.cpu.d[y] % 0x100) as u8);
            let c = carried(s.cpu.sr);
            let z = has_flag(s.cpu.sr, 0x04);
            let p = execute_sem::<B>(s, opcode(0xC, x, 4, 0, y)).1;
            let q = execute_sem::<B>(s, opcode(0x8, x, 4, 0, y)).1;
            &&& bcd_value((p.cpu.d[x] % 0x100) as u8) == (a + b + c) % 100
            &&& p.cpu.d[x] as int / 0x100 == s.cpu.d[x] as int / 0x100
            &&& has_flag(p.cpu.sr, 0x10) == (a + b + c >= 100)
            &&& has_flag(p.cpu.sr, 0x01) == (a + b + c >= 100)
            &&& has_flag(p.cpu.sr, 0x04) == (p.cpu.d[x] % 0x100 == 0 && z)
            &&& p == s.with_cpu(s.cpu.write_d(x, p.cpu.d[x]).with_sr(p.cpu.sr))
            &&& bcd_value((q.cpu.d[x] % 0x100) as u8) == (a - b - c) % 100
            &&& q.cpu.d[x] as int / 0x100 == s.cpu.d[x] as int / 0x100
            &&& has_flag(q.cpu.sr, 0x10) == (a - b - c < 0)
            &&& has_flag(q.cpu.sr, 0x01) == (a - b - c < 0)
            &&& has_flag(q.cpu.sr, 0x04) == (q.cpu.d[x] % 0x100 == 0 && z)
            &&& q == s.with_cpu(s.cpu.write_d(x, q.cpu.d[x]).with_sr(q.cpu.sr))
        }),
{
    lemma_decimal_runs::<B>(s, x, y);
    let src = (s.cpu.d[y] % 0x100) as u8;
    let dst = (s.cpu.d[x] % 0x100) as u8;
    let c = super::flags::extend_bit(s.cpu.sr) as u16;
    law_bcd_add_is_decimal(src, dst, c);
    law_bcd_sub_is_decimal(src, dst, c);
    lemma_decimal_stored(s.cpu.sr, s.cpu.d[x], bcd_add_sem(src, dst, c));
    lemma_decimal_stored(s.cpu.sr, s.cpu.d[x], bcd_sub_sem(src, dst, c));
}

/// The registers after a decimal result is stored.
pub open spec fn decimal_stored(c: CpuState, x: int, r: BcdResult) -> CpuState {
    c.with_sr(bcd_flags(c.sr, r)).write_d(x, merge(c.d[x], r.value as u32, InstructionSize::Byte))
}

/// A stored decimal result and its codes.
proof fn lemma_decimal_stored(sr: u16, d: u32, r: BcdResult)
    ensures
        ({
            let v = merge(d, r.value as u32, InstructionSize::Byte);
            let f = bcd_flags(sr, r);
            &&& v % 0x100 == r.value
            &&& v as int / 0x100 == d as int / 0x100
            &&& has_flag(f, 0x10) == r.carry
            &&& has_flag(f, 0x01) == r.carry
            &&& has_flag(f, 0x04) == (r.value == 0 && has_flag(sr, 0x04))
        }),
{
    lemma_operand(InstructionSize::Byte, d, r.value as u32);
    let z = has_flag(sr, StatusRegister::Z);
    lemma_codes(sr, r.carry, r.value >= 0x80, r.value == 0 && z, r.overflow, r.carry);
}

/// The machine after ABCD and SBCD of registers.
#[verifier::rlimit(60)]
#[verifier::spinoff_prover]
proof fn lemma_decimal_runs<B: Bus>(s: Machine<B::Model>, x: int, y: int)
    requires
        fields_ok(0, x, 0, 0, y),
        s.cpu.d.len() == 8,
    ensures
        ({
            let src = (s.cpu.d[y] % 0x100) as u8;
            let dst = (s.cpu.d[x] % 0x100) as u8;
            let c = super::flags::extend_bit(s.cpu.sr) as u16;
            &&& execute_sem::<B>(s, opcode(0xC, x, 4, 0, y)).1 == s.with_cpu(
                decimal_stored(s.cpu, x, bcd_add_sem(src, dst, c)),
            )
            &&& execute_sem::<B>(s, opcode(0x8, x, 4, 0, y)).1 == s.with_cpu(
                decimal_stored(s.cpu, x, bcd_sub_sem(src, dst, c)),
            )
        }),
{
    lemma_fields(0xC, x, 4, 0, y);
    lemma_fields(0x8, x, 4, 0, y);
    reveal(multiplicative_sem);
    let u = opcode(0xC, x, 4, 0, y);
    let w = opcode(0x8, x, 4, 0, y);
    assert(!bit_of(u, 8) && !bit_of(w, 8));
    assert(decode_spec(u) == Instruction::Abcd);
    assert(decode_spec(w) == Instruction::Sbcd);
}

/// NBCD of a data register takes two decimal digits and the extend flag from 100.
#[verifier::rlimit(60)]
#[verifier::spinoff_prover]
pub proof fn law_negate_decimal<B: Bus>(s: Machine<B::Model>, y: int)
    requires
        0 <= y < 8,
        s.cpu.d.len() == 8,
        is_bcd((s.cpu.d[y] % 0x100) as u8),
    ensures
        ({
            let b = bcd_value((s.cpu.d[y] % 0x100) as u8);
            let c = carried(s.cpu.sr);
            let t = execute_sem::<B>(s, opcode(4, 4, 0, 0, y)).1;
            &&& bcd_value((t.cpu.d[y] % 0x100) as u8) == (100 - b - c) % 100
            &&& t.cpu.d[y] as int / 0x100 == s.cpu.d[y] as int / 0x100
            &&& has_flag(t.cpu.sr, 0x10) == (b + c > 0)
            &&& has_flag(t.cpu.sr, 0x01) == (b + c > 0)
            &&& t == s.with_cpu(s.cpu.write_d(y, t.cpu.d[y]).with_sr(t.cpu.sr))
        }),
{
    lemma_negation_runs::<B>(s, y);
    let src = (s.cpu.d[y] % 0x100) as u8;
    let c = super::flags::extend_bit(s.cpu.sr) as u16;
    law_bcd_sub_is_decimal(src, 0, c);
    assert(bcd_value(0) == 0);
    lemma_decimal_stored(s.cpu.sr, s.cpu.d[y], bcd_sub_sem(src, 0, c));
}

/// The machine after NBCD of a register.
#[verifier::rlimit(60)]
#[verifier::spinoff_prover]
proof fn lemma_negation_runs<B: Bus>(s: Machine<B::Model>, y: int)
    requires
        0 <= y < 8,
        s.cpu.d.len() == 8,
    ensures
        ({
            let src = (s.cpu.d[y] % 0x100) as u8;
            let c = super::flags::extend_bit(s.cpu.sr) as u16;
            execute_sem::<B>(s, opcode(4, 4, 0, 0, y)).1 == s.with_cpu(
                decimal_stored(s.cpu, y, bcd_sub_sem(src, 0, c)),
            )
        }),
{
    lemma_fields(4, 4, 0, 0, y);
    reveal(multiplicative_sem);
    let w = opcode(4, 4, 0, 0, y);
    assert(decode_spec(w) == Instruction::Nbcd);
    assert(low(s.cpu.d[y], InstructionSize::Byte) % 0x100 == s.cpu.d[y] % 0x100);
}

// ── Multi-precision in memory ────────────────────────────────────────────

/// ADDX and SUBX in memory work downwards: the source below one address register is
/// read first, then the destination below the other, which takes the result.
#[verifier::rlimit(60)]
#[verifier::spinoff_prover]
pub proof fn law_extended_memory<B: Bus>(s: Machine<B::Model>, x: int, size: InstructionSize, y: int)
    requires
        fields_ok(0, x, 0, 1, y),
    ensures
        ({
            let m = values(size);
            let c = carried(s.cpu.sr);
            let (src, u) = read_ea_sem::<B>(s, AddressingMode::AddrPreDec(y as u8), size);
            let (dst, addr, v) = read_ea_with_addr_sem::<B>(
                u,
                AddressingMode::AddrPreDec(x as u8),
                size,
            );
            let a = operand(dst, size);
            let b = operand(src, size);
            let p = execute_sem::<B>(s, opcode(0xD, x, 4 + size_code(size), 1, y)).1;
            let q = execute_sem::<B>(s, opcode(0x9, x, 4 + size_code(size), 1, y)).1;
            &&& p.bus == write_addr_sem::<B>(v.bus, addr, size, ((a + b + c) % m) as u32)
            &&& q.bus == write_addr_sem::<B>(v.bus, addr, size, ((a - b - c) % m) as u32)
            &&& p.cpu == v.cpu.with_sr(p.cpu.sr)
            &&& q.cpu == v.cpu.with_sr(q.cpu.sr)
        }),
{
    let (src, u) = read_ea_sem::<B>(s, AddressingMode::AddrPreDec(y as u8), size);
    let (dst, addr, v) = read_ea_with_addr_sem::<B>(u, AddressingMode::AddrPreDec(x as u8), size);
    let c = super::flags::extend_bit(s.cpu.sr);
    lemma_extended_memory_runs::<B>(s, x, size, y);
    lemma_wrapped_sums(src, dst, c, size);
    lemma_written_bits::<B>(v.bus, addr, size, dst.wrapping_add(src).wrapping_add(c));
    lemma_written_bits::<B>(v.bus, addr, size, dst.wrapping_sub(src).wrapping_sub(c));
}

/// Sums and differences with a carry, as operands.
proof fn lemma_wrapped_sums(src: u32, dst: u32, c: u32, size: InstructionSize)
    requires
        c <= 1,
    ensures
        ({
            let m = values(size);
            let a = operand(dst, size);
            let b = operand(src, size);
            &&& operand(dst.wrapping_add(src).wrapping_add(c), size) == (a + b + c) % m
            &&& operand(dst.wrapping_sub(src).wrapping_sub(c), size) == (a - b - c) % m
        }),
{
    let m = values(size);
    let a = operand(dst, size);
    let b = operand(src, size);
    lemma_wrapping(size, dst, src);
    lemma_wrapping(size, dst.wrapping_add(src), c);
    lemma_wrapping(size, dst.wrapping_sub(src), c);
    vstd::arithmetic::div_mod::lemma_small_mod(c as nat, m as nat);
    vstd::arithmetic::div_mod::lemma_add_mod_noop(a + b, c as int, m);
    vstd::arithmetic::div_mod::lemma_sub_mod_noop(a - b, c as int, m);
}

/// The machine after ADDX and SUBX in memory.
#[verifier::rlimit(60)]
#[verifier::spinoff_prover]
proof fn lemma_extended_memory_runs<B: Bus>(
    s: Machine<B::Model>,
    x: int,
    size: InstructionSize,
    y: int,
)
    requires
        fields_ok(0, x, 0, 1, y),
    ensures
        ({
            let c = super::flags::extend_bit(s.cpu.sr);
            let (src, u) = read_ea_sem::<B>(s, AddressingMode::AddrPreDec(y as u8), size);
            let (dst, addr, v) = read_ea_with_addr_sem::<B>(
                u,
                AddressingMode::AddrPreDec(x as u8),
                size,
            );
            let p = execute_sem::<B>(s, opcode(0xD, x, 4 + size_code(size), 1, y)).1;
            let q = execute_sem::<B>(s, opcode(0x9, x, 4 + size_code(size), 1, y)).1;
            &&& p.bus == write_addr_sem::<B>(
                v.bus,
                addr,
                size,
                dst.wrapping_add(src).wrapping_add(c),
            )
            &&& q.bus == write_addr_sem::<B>(
                v.bus,
                addr,
                size,
                dst.wrapping_sub(src).wrapping_sub(c),
            )
            &&& p.cpu == v.cpu.with_sr(p.cpu.sr)
            &&& q.cpu == v.cpu.with_sr(q.cpu.sr)
        }),
{
    lemma_fields(0xD, x, 4 + size_code(size), 1, y);
    lemma_fields(0x9, x, 4 + size_code(size), 1, y);
    let a = opcode(0xD, x, 4 + size_code(size), 1, y);
    let b = opcode(0x9, x, 4 + size_code(size), 1, y);
    assert(bit_of(a, 8) && bit_of(b, 8));
    assert(decode_spec(a) == Instruction::AddX(size));
    assert(decode_spec(b) == Instruction::SubX(size));
    reveal(additive_sem);
}

/// ABCD and SBCD in memory work downwards byte by byte: the result goes where the
/// destination was.
#[verifier::rlimit(60)]
#[verifier::spinoff_prover]
pub proof fn law_decimal_memory<B: Bus>(s: Machine<B::Model>, x: int, y: int)
    requires
        0 <= x < 7,
        0 <= y < 7,
        x != y,
        s.cpu.a.len() >= 7,
    ensures
        ({
            let from = s.cpu.a[y].wrapping_sub(1);
            let to = s.cpu.a[x].wrapping_sub(1);
            let (src, m1) = B::read_byte_model(s.bus, from % 0x100_0000);
            let (dst, m2) = B::read_byte_model(m1, to % 0x100_0000);
            let c = super::flags::extend_bit(s.cpu.sr) as u16;
            let p = execute_sem::<B>(s, opcode(0xC, x, 4, 1, y)).1;
            let q = execute_sem::<B>(s, opcode(0x8, x, 4, 1, y)).1;
            &&& p.bus == B::write_byte_model(
                m2,
                to % 0x100_0000,
                bcd_add_sem(src, dst, c).value,
            )
            &&& q.bus == B::write_byte_model(
                m2,
                to % 0x100_0000,
                bcd_sub_sem(src, dst, c).value,
            )
            &&& p.cpu.a[x] == to && p.cpu.a[y] == from
            &&& q.cpu.a[x] == to && q.cpu.a[y] == from
            &&& p.cpu.d == s.cpu.d && q.cpu.d == s.cpu.d
        }),
{
    lemma_fields(0xC, x, 4, 1, y);
    lemma_fields(0x8, x, 4, 1, y);
    reveal(multiplicative_sem);
    let u = opcode(0xC, x, 4, 1, y);
    let w = opcode(0x8, x, 4, 1, y);
    assert(bit_of(u, 8) && bit_of(w, 8));
    assert(decode_spec(u) == Instruction::Abcd);
    assert(decode_spec(w) == Instruction::Sbcd);
}

} // verus!
