//! What the instructions of the 68000 compute, from the opcode to the registers,
//! the memory and the condition codes.
use vstd::arithmetic::power2::pow2;
use vstd::prelude::*;

use super::decode::{
    bit_of, condition_field_of, decode_ea_spec, decode_spec, mode_high_of, mode_low_of, reg_high_of,
    reg_low_of, size_field_of, Instruction, InstructionSize,
};
use super::engine::CpuState;
use super::exec_alu::{alu_flags, alu_result, AluOp};
use super::execute::{additive_sem, execute_sem, flow_sem, logic_sem};
use super::flags::{compare_flags, full_difference, full_sum, nzvc, wrap, xnzvc};
use super::operand::{
    extend, low, merge, modulus, read_ea_sem, read_ea_with_addr_sem, sign_weight, signed,
    write_addr_sem, Bus, Machine,
};
use super::has_flag;

verus! {

// ── Opcodes, sizes and flags ─────────────────────────────────────────────

/// An opcode made of its fields: four bits of line, a register, three bits of
/// operation, and the mode and register of an operand.
pub open spec fn opcode(line: int, x: int, op: int, mode: int, y: int) -> u16 {
    (line * 4096 + x * 512 + op * 64 + mode * 8 + y) as u16
}

/// The fields are in range.
pub open spec fn fields_ok(line: int, x: int, op: int, mode: int, y: int) -> bool {
    0 <= line < 16 && 0 <= x < 8 && 0 <= op < 8 && 0 <= mode < 8 && 0 <= y < 8
}

/// The fields of an opcode read back.
pub proof fn lemma_fields(line: int, x: int, op: int, mode: int, y: int)
    requires
        fields_ok(line, x, op, mode, y),
    ensures
        ({
            let w = opcode(line, x, op, mode, y);
            &&& w == line * 4096 + x * 512 + op * 64 + mode * 8 + y
            &&& w / 4096 == line
            &&& w / 512 == line * 8 + x
            &&& w / 256 == line * 16 + x * 2 + op / 4
            &&& w / 64 == line * 64 + x * 8 + op
            &&& w / 8 == line * 512 + x * 64 + op * 8 + mode
            &&& w % 0x100 == (op % 4) * 64 + mode * 8 + y
            &&& reg_high_of(w) == x
            &&& mode_high_of(w) == op
            &&& mode_low_of(w) == mode
            &&& reg_low_of(w) == y
            &&& size_field_of(w) == op % 4
            &&& bit_of(w, 0x100) == (op >= 4)
            &&& condition_field_of(w) == x * 2 + op / 4
        }),
{
    let v = line * 4096 + x * 512 + op * 64 + mode * 8 + y;
    assert(0 <= v < 0x1_0000);
    let a = line * 512 + x * 64 + op * 8 + mode;
    assert(v == 8 * a + y);
    assert(v / 8 == a && v % 8 == y);
    let b = line * 64 + x * 8 + op;
    assert(a == 8 * b + mode);
    assert(a / 8 == b && a % 8 == mode);
    assert(v / 64 == b);
    let c = line * 8 + x;
    assert(b == 8 * c + op);
    assert(b / 8 == c && b % 8 == op);
    assert(v / 512 == c);
    assert(c / 8 == line && c % 8 == x);
    assert(v / 4096 == line);
    let d = line * 16 + x * 2 + op / 4;
    assert(b == 4 * d + op % 4);
    assert(b / 4 == d && b % 4 == op % 4);
    assert(v / 256 == d);
    assert(d % 16 == x * 2 + op / 4);
    assert(d % 2 == op / 4);
}

/// The size field: 0 byte, 1 word, 2 long.
pub open spec fn size_code(size: InstructionSize) -> int {
    match size {
        InstructionSize::Byte => 0,
        InstructionSize::Word => 1,
        InstructionSize::Long => 2,
    }
}

/// How many values an operand has: 2 to the power of its bits.
pub open spec fn values(size: InstructionSize) -> int {
    match size {
        InstructionSize::Byte => 256,
        InstructionSize::Word => 65_536,
        InstructionSize::Long => 4_294_967_296,
    }
}

/// The operand in the low bits of a register.
pub open spec fn operand(v: u32, size: InstructionSize) -> int {
    v as int % values(size)
}

/// A number of the operand's range as two's complement.
pub open spec fn as_signed(v: int, size: InstructionSize) -> int {
    if 2 * v >= values(size) {
        v - values(size)
    } else {
        v
    }
}

/// A signed number fits the operand.
pub open spec fn fits(v: int, size: InstructionSize) -> bool {
    -values(size) <= 2 * v < values(size)
}

/// A register after its low bits have become `v`: the bits above stay.
pub open spec fn replaced(before: u32, after: u32, v: int, size: InstructionSize) -> bool {
    &&& after as int % values(size) == v
    &&& after as int / values(size) == before as int / values(size)
}

/// The condition codes are as given; the rest of the status word is as before.
pub open spec fn codes(sr: u16, before: u16, x: bool, n: bool, z: bool, v: bool, c: bool) -> bool {
    &&& has_flag(sr, 0x10) == x
    &&& has_flag(sr, 0x08) == n
    &&& has_flag(sr, 0x04) == z
    &&& has_flag(sr, 0x02) == v
    &&& has_flag(sr, 0x01) == c
    &&& sr & 0xFFE0 == before & 0xFFE0
}

/// The codes of a result without arithmetic: N and Z describe it, V and C are
/// clear, X stays.
pub open spec fn result_codes(sr: u16, before: u16, v: int, size: InstructionSize) -> bool {
    codes(sr, before, has_flag(before, 0x10), as_signed(v, size) < 0, v == 0, false, false)
}

/// Bits of replaced condition codes.
proof fn lemma_code_bits(sr: u16, x: bool, n: bool, z: bool, v: bool, c: bool)
    by (bit_vector)
    ensures
        ({
            let s1 = if n { sr | 8u16 } else { sr & !8u16 };
            let s2 = if z { s1 | 4u16 } else { s1 & !4u16 };
            let s3 = if v { s2 | 2u16 } else { s2 & !2u16 };
            let s4 = if c { s3 | 1u16 } else { s3 & !1u16 };
            let s5 = if x { s4 | 16u16 } else { s4 & !16u16 };
            &&& (s4 & 8 != 0) == n && (s4 & 4 != 0) == z && (s4 & 2 != 0) == v && (s4 & 1 != 0) == c
            &&& (s4 & 16 != 0) == (sr & 16 != 0)
            &&& s4 & 0xFFE0 == sr & 0xFFE0
            &&& (s5 & 8 != 0) == n && (s5 & 4 != 0) == z && (s5 & 2 != 0) == v && (s5 & 1 != 0) == c
            &&& (s5 & 16 != 0) == x
            &&& s5 & 0xFFE0 == sr & 0xFFE0
        }),
{
}

/// Replaced condition codes read back.
pub proof fn lemma_codes(sr: u16, x: bool, n: bool, z: bool, v: bool, c: bool)
    ensures
        codes(nzvc(sr, n, z, v, c), sr, has_flag(sr, 0x10), n, z, v, c),
        codes(xnzvc(sr, x, n, z, v, c), sr, x, n, z, v, c),
{
    lemma_code_bits(sr, x, n, z, v, c);
}

/// The operand of a register, its sign and its replacement.
pub proof fn lemma_operand(size: InstructionSize, v: u32, w: u32)
    ensures
        low(v, size) == operand(v, size),
        signed(v, size) == as_signed(operand(v, size), size),
        modulus(size) == values(size),
        2 * sign_weight(size) == values(size),
        replaced(v, merge(v, w, size), operand(w, size), size),
{
    match size {
        InstructionSize::Byte => {},
        InstructionSize::Word => {},
        InstructionSize::Long => {},
    }
}

/// Operands are as wide as their name says.
pub proof fn law_operand_widths()
    ensures
        values(InstructionSize::Byte) == pow2(8),
        values(InstructionSize::Word) == pow2(16),
        values(InstructionSize::Long) == pow2(32),
{
    vstd::arithmetic::power2::lemma2_to64();
}

/// A sum or difference cut to 32 bits keeps the operand of it.
pub proof fn lemma_wrapping(size: InstructionSize, a: u32, b: u32)
    ensures
        operand(a.wrapping_add(b), size) == (operand(a, size) + operand(b, size)) % values(size),
        operand(a.wrapping_sub(b), size) == (operand(a, size) - operand(b, size)) % values(size),
{
    let m = values(size);
    let q: int = match size {
        InstructionSize::Byte => 0x100_0000,
        InstructionSize::Word => 0x1_0000,
        InstructionSize::Long => 1,
    };
    assert(m * q == 0x1_0000_0000);
    let sum = a.wrapping_add(b) as int;
    let diff = a.wrapping_sub(b) as int;
    vstd::arithmetic::div_mod::lemma_mod_multiples_vanish(q, sum, m);
    vstd::arithmetic::div_mod::lemma_mod_multiples_vanish(q, a - b, m);
    vstd::arithmetic::div_mod::lemma_add_mod_noop(a as int, b as int, m);
    vstd::arithmetic::div_mod::lemma_sub_mod_noop(a as int, b as int, m);
}

// ── Addition, subtraction and comparison ─────────────────────────────────

/// The value that an operation leaves in its destination.
pub open spec fn outcome(op: AluOp, src: int, dst: int, size: InstructionSize) -> int {
    match op {
        AluOp::Add => (dst + src) % values(size),
        AluOp::Sub => (dst - src) % values(size),
        AluOp::And => (dst as u32 & src as u32) as int,
        AluOp::Or => (dst as u32 | src as u32) as int,
        AluOp::Eor => (dst as u32 ^ src as u32) as int,
    }
}

/// What it does to the condition codes: the carry is the unsigned one, the overflow
/// the signed one; logic clears both.
pub open spec fn signals(
    op: AluOp,
    before: u16,
    sr: u16,
    src: int,
    dst: int,
    r: int,
    size: InstructionSize,
) -> bool {
    let n = as_signed(r, size) < 0;
    match op {
        AluOp::Add => {
            let carry = dst + src >= values(size);
            let overflow = !fits(as_signed(dst, size) + as_signed(src, size), size);
            codes(sr, before, carry, n, r == 0, overflow, carry)
        },
        AluOp::Sub => {
            let borrow = dst < src;
            let overflow = !fits(as_signed(dst, size) - as_signed(src, size), size);
            codes(sr, before, borrow, n, r == 0, overflow, borrow)
        },
        _ => result_codes(sr, before, r, size),
    }
}

/// The operand of a bit operation is that of its operands.
proof fn lemma_logic_operand(size: InstructionSize, a: u32, b: u32)
    ensures
        low(a & b, size) == low(a, size) & low(b, size),
        low(a | b, size) == low(a, size) | low(b, size),
        low(a ^ b, size) == low(a, size) ^ low(b, size),
{
    assert((a & b) % 0x100 == (a % 0x100) & (b % 0x100) && (a | b) % 0x100 == (a % 0x100) | (b
        % 0x100) && (a ^ b) % 0x100 == (a % 0x100) ^ (b % 0x100) && (a & b) % 0x1_0000 == (a
        % 0x1_0000) & (b % 0x1_0000) && (a | b) % 0x1_0000 == (a % 0x1_0000) | (b % 0x1_0000) && (a
        ^ b) % 0x1_0000 == (a % 0x1_0000) ^ (b % 0x1_0000)) by (bit_vector);
}

/// Two-operand arithmetic and logic as numbers.
pub proof fn law_alu_computes(op: AluOp, sr: u16, src: u32, dst: u32, size: InstructionSize)
    ensures
        operand(alu_result(op, src, dst), size) == outcome(
            op,
            operand(src, size),
            operand(dst, size),
            size,
        ),
        signals(
            op,
            sr,
            alu_flags(op, sr, src, dst, size),
            operand(src, size),
            operand(dst, size),
            operand(alu_result(op, src, dst), size),
            size,
        ),
{
    lemma_operand(size, src, 0);
    lemma_operand(size, dst, 0);
    let r = alu_result(op, src, dst);
    lemma_operand(size, r, 0);
    lemma_wrapping(size, dst, src);
    lemma_logic_operand(size, dst, src);
    let n = as_signed(operand(r, size), size) < 0;
    let z = operand(r, size) == 0;
    match op {
        AluOp::Add => {
            let sum = full_sum(src, dst, 0, size);
            let carry = operand(dst, size) + operand(src, size) >= values(size);
            let v = !fits(signed(dst, size) + signed(src, size), size);
            lemma_codes(sr, carry, n, z, v, carry);
            assert(wrap(sum, size) == operand(r, size));
        },
        AluOp::Sub => {
            let diff = full_difference(src, dst, 0, size);
            let borrow = operand(dst, size) < operand(src, size);
            let v = !fits(signed(dst, size) - signed(src, size), size);
            lemma_codes(sr, borrow, n, z, v, borrow);
            assert(wrap(diff, size) == operand(r, size));
        },
        _ => {
            lemma_codes(sr, false, n, z, false, false);
        },
    }
}

/// The line of ADD, SUB, AND and OR.
pub open spec fn alu_line(op: AluOp) -> int {
    match op {
        AluOp::Add => 0xD,
        AluOp::Sub => 0x9,
        AluOp::And => 0xC,
        AluOp::Or => 0x8,
        AluOp::Eor => 0xB,
    }
}

/// ADD, SUB, AND and OR of any operand to a data register: the low bits of the
/// register become the result, the bits above and all other registers stay, and
/// the condition codes describe it.
#[verifier::rlimit(60)]
#[verifier::spinoff_prover]
pub proof fn law_operand_to_register<B: Bus>(
    s: Machine<B::Model>,
    op: AluOp,
    x: int,
    size: InstructionSize,
    mode: int,
    y: int,
)
    requires
        op != AluOp::Eor,
        fields_ok(0, x, 0, mode, y),
        s.cpu.d.len() == 8,
    ensures
        ({
            let t = execute_sem::<B>(s, opcode(alu_line(op), x, size_code(size), mode, y)).1;
            let (val, u) = read_ea_sem::<B>(s, decode_ea_spec(mode as u8, y as u8), size);
            let src = operand(val, size);
            let dst = operand(s.cpu.d[x], size);
            let r = outcome(op, src, dst, size);
            &&& replaced(s.cpu.d[x], t.cpu.d[x], r, size)
            &&& signals(op, s.cpu.sr, t.cpu.sr, src, dst, r, size)
            &&& t.cpu == (CpuState { d: s.cpu.d.update(x, t.cpu.d[x]), sr: t.cpu.sr, ..u.cpu })
            &&& t.bus == u.bus
        }),
{
    lemma_fields(alu_line(op), x, size_code(size), mode, y);
    let w = opcode(alu_line(op), x, size_code(size), mode, y);
    reveal(additive_sem);
    reveal(logic_sem);
    let ea = decode_ea_spec(mode as u8, y as u8);
    lemma_read_keeps::<B>(s, ea, size);
    let (val, u) = read_ea_sem::<B>(s, ea, size);
    let dst = low(s.cpu.d[x], size);
    lemma_operand(size, s.cpu.d[x], alu_result(op, val, dst));
    lemma_operand(size, dst, 0);
    law_alu_computes(op, s.cpu.sr, val, dst, size);
    match op {
        AluOp::Add => {
            assert(decode_spec(w) == Instruction::Add(size));
        },
        AluOp::Sub => {
            assert(decode_spec(w) == Instruction::Sub(size));
        },
        AluOp::And => {
            assert(decode_spec(w) == Instruction::And(size));
        },
        _ => {
            assert(decode_spec(w) == Instruction::Or(size));
        },
    }
    assert(operand(dst, size) == operand(s.cpu.d[x], size));
}

/// Reading an operand changes no data register and no status bit.
#[verifier::rlimit(60)]
#[verifier::spinoff_prover]
pub proof fn lemma_read_keeps<B: Bus>(
    s: Machine<B::Model>,
    ea: super::decode::AddressingMode,
    size: InstructionSize,
)
    ensures
        read_ea_sem::<B>(s, ea, size).1.cpu.d == s.cpu.d,
        read_ea_sem::<B>(s, ea, size).1.cpu.sr == s.cpu.sr,
        read_ea_with_addr_sem::<B>(s, ea, size).2.cpu.d == s.cpu.d,
        read_ea_with_addr_sem::<B>(s, ea, size).2.cpu.sr == s.cpu.sr,
{
}

/// A memory operand: indirect in any form, or absolute.
pub open spec fn in_memory(mode: int, y: int) -> bool {
    2 <= mode <= 6 || (mode == 7 && y < 2)
}

/// Only the operand's bits are written to memory.
#[verifier::rlimit(60)]
#[verifier::spinoff_prover]
pub proof fn lemma_written_bits<B: Bus>(m: B::Model, addr: u32, size: InstructionSize, v: u32)
    ensures
        0 <= operand(v, size) < values(size),
        write_addr_sem::<B>(m, addr, size, v) == write_addr_sem::<B>(
            m,
            addr,
            size,
            operand(v, size) as u32,
        ),
{
    match size {
        InstructionSize::Byte => {},
        InstructionSize::Word => {},
        InstructionSize::Long => {},
    }
}

/// ADD, SUB, AND, OR and EOR of a data register to an operand in memory: the result
/// is written where the operand was read; no data register changes.
#[verifier::rlimit(60)]
#[verifier::spinoff_prover]
pub proof fn law_register_to_memory<B: Bus>(
    s: Machine<B::Model>,
    op: AluOp,
    x: int,
    size: InstructionSize,
    mode: int,
    y: int,
)
    requires
        fields_ok(0, x, 0, mode, y),
        in_memory(mode, y),
        s.cpu.d.len() == 8,
    ensures
        ({
            let t = execute_sem::<B>(s, opcode(alu_line(op), x, 4 + size_code(size), mode, y)).1;
            let (val, addr, u) = read_ea_with_addr_sem::<B>(
                s,
                decode_ea_spec(mode as u8, y as u8),
                size,
            );
            let src = operand(s.cpu.d[x], size);
            let dst = operand(val, size);
            let r = outcome(op, src, dst, size);
            &&& t.bus == write_addr_sem::<B>(u.bus, addr, size, r as u32)
            &&& signals(op, s.cpu.sr, t.cpu.sr, src, dst, r, size)
            &&& t.cpu == (CpuState { sr: t.cpu.sr, ..u.cpu })
        }),
{
    lemma_fields(alu_line(op), x, 4 + size_code(size), mode, y);
    let w = opcode(alu_line(op), x, 4 + size_code(size), mode, y);
    reveal(additive_sem);
    reveal(logic_sem);
    let ea = decode_ea_spec(mode as u8, y as u8);
    lemma_read_keeps::<B>(s, ea, size);
    let (val, addr, u) = read_ea_with_addr_sem::<B>(s, ea, size);
    let src = low(s.cpu.d[x], size);
    lemma_operand(size, s.cpu.d[x], 0);
    lemma_operand(size, src, 0);
    law_alu_computes(op, s.cpu.sr, src, val, size);
    lemma_written_bits::<B>(u.bus, addr, size, alu_result(op, src, val));
    match op {
        AluOp::Add => {
            assert(decode_spec(w) == Instruction::Add(size));
        },
        AluOp::Sub => {
            assert(decode_spec(w) == Instruction::Sub(size));
        },
        AluOp::And => {
            assert(decode_spec(w) == Instruction::And(size));
        },
        AluOp::Or => {
            assert(decode_spec(w) == Instruction::Or(size));
        },
        AluOp::Eor => {
            assert(decode_spec(w) == Instruction::Eor(size));
        },
    }
    assert(operand(src, size) == operand(s.cpu.d[x], size));
}

/// EOR of one data register to another.
#[verifier::rlimit(60)]
#[verifier::spinoff_prover]
pub proof fn law_eor_registers<B: Bus>(s: Machine<B::Model>, x: int, size: InstructionSize, y: int)
    requires
        fields_ok(0, x, 0, 0, y),
        s.cpu.d.len() == 8,
    ensures
        ({
            let t = execute_sem::<B>(s, opcode(0xB, x, 4 + size_code(size), 0, y)).1;
            let src = operand(s.cpu.d[x], size);
            let dst = operand(s.cpu.d[y], size);
            let r = (dst as u32 ^ src as u32) as int;
            &&& replaced(s.cpu.d[y], t.cpu.d[y], r, size)
            &&& result_codes(t.cpu.sr, s.cpu.sr, r, size)
            &&& t.cpu == (CpuState { d: s.cpu.d.update(y, t.cpu.d[y]), sr: t.cpu.sr, ..s.cpu })
            &&& t.bus == s.bus
        }),
{
    lemma_fields(0xB, x, 4 + size_code(size), 0, y);
    reveal(logic_sem);
    let src = low(s.cpu.d[x], size);
    let dst = low(s.cpu.d[y], size);
    lemma_operand(size, s.cpu.d[x], 0);
    lemma_operand(size, s.cpu.d[y], alu_result(AluOp::Eor, src, dst));
    lemma_operand(size, src, 0);
    lemma_operand(size, dst, 0);
    law_alu_computes(AluOp::Eor, s.cpu.sr, src, dst, size);
    assert(operand(src, size) == operand(s.cpu.d[x], size));
    assert(operand(dst, size) == operand(s.cpu.d[y], size));
}

/// The register field of ORI, ANDI, SUBI, ADDI and EORI.
pub open spec fn immediate_field(op: AluOp) -> int {
    match op {
        AluOp::Or => 0,
        AluOp::And => 1,
        AluOp::Sub => 2,
        AluOp::Add => 3,
        AluOp::Eor => 5,
    }
}

/// ORI, ANDI, SUBI, ADDI and EORI to a data register: the operand is in the words
/// after the opcode.
#[verifier::rlimit(60)]
#[verifier::spinoff_prover]
pub proof fn law_immediate_to_register<B: Bus>(
    s: Machine<B::Model>,
    op: AluOp,
    size: InstructionSize,
    y: int,
)
    requires
        0 <= y < 8,
        s.cpu.d.len() == 8,
    ensures
        ({
            let t = execute_sem::<B>(s, opcode(0, immediate_field(op), size_code(size), 0, y)).1;
            let (val, u) = super::operand::fetch_immediate_sem::<B>(s, size);
            let src = operand(val, size);
            let dst = operand(s.cpu.d[y], size);
            let r = outcome(op, src, dst, size);
            &&& replaced(s.cpu.d[y], t.cpu.d[y], r, size)
            &&& signals(op, s.cpu.sr, t.cpu.sr, src, dst, r, size)
            &&& t.cpu == (CpuState { d: s.cpu.d.update(y, t.cpu.d[y]), sr: t.cpu.sr, ..u.cpu })
            &&& t.bus == u.bus
        }),
{
    lemma_fields(0, immediate_field(op), size_code(size), 0, y);
    let w = opcode(0, immediate_field(op), size_code(size), 0, y);
    reveal(additive_sem);
    reveal(logic_sem);
    let (val, u) = super::operand::fetch_immediate_sem::<B>(s, size);
    let dst = low(s.cpu.d[y], size);
    lemma_operand(size, s.cpu.d[y], alu_result(op, val, dst));
    lemma_operand(size, dst, 0);
    law_alu_computes(op, s.cpu.sr, val, dst, size);
    match op {
        AluOp::Add => {
            assert(decode_spec(w) == Instruction::AddI(size));
        },
        AluOp::Sub => {
            assert(decode_spec(w) == Instruction::SubI(size));
        },
        AluOp::And => {
            assert(decode_spec(w) == Instruction::AndI(size));
        },
        AluOp::Or => {
            assert(decode_spec(w) == Instruction::OrI(size));
        },
        AluOp::Eor => {
            assert(decode_spec(w) == Instruction::EorI(size));
        },
    }
    assert(operand(dst, size) == operand(s.cpu.d[y], size));
}

/// ADDQ and SUBQ: 1 to 8 added to or taken from a data register, where 0 stands for
/// 8; an address register changes as a whole and leaves the codes alone.
#[verifier::rlimit(60)]
#[verifier::spinoff_prover]
pub proof fn law_quick<B: Bus>(
    s: Machine<B::Model>,
    subtract: bool,
    n: int,
    size: InstructionSize,
    y: int,
)
    requires
        1 <= n <= 8,
        0 <= y < 8,
        s.cpu.d.len() == 8,
    ensures
        ({
            let code = size_code(size) + if subtract {
                4int
            } else {
                0
            };
            let op = if subtract {
                AluOp::Sub
            } else {
                AluOp::Add
            };
            let t = execute_sem::<B>(s, opcode(5, n % 8, code, 0, y)).1;
            let dst = operand(s.cpu.d[y], size);
            let r = outcome(op, n, dst, size);
            &&& replaced(s.cpu.d[y], t.cpu.d[y], r, size)
            &&& signals(op, s.cpu.sr, t.cpu.sr, n, dst, r, size)
            &&& t.cpu == (CpuState { d: s.cpu.d.update(y, t.cpu.d[y]), sr: t.cpu.sr, ..s.cpu })
            &&& t.bus == s.bus
            &&& execute_sem::<B>(s, opcode(5, n % 8, code, 1, y)).1 == s.with_cpu(
                s.cpu.write_a(
                    y,
                    if subtract {
                        s.cpu.read_a(y).wrapping_sub(n as u32)
                    } else {
                        s.cpu.read_a(y).wrapping_add(n as u32)
                    },
                ),
            )
        }),
{
    let code = size_code(size) + if subtract {
        4int
    } else {
        0
    };
    let op = if subtract {
        AluOp::Sub
    } else {
        AluOp::Add
    };
    lemma_fields(5, n % 8, code, 0, y);
    lemma_fields(5, n % 8, code, 1, y);
    reveal(additive_sem);
    let dst = low(s.cpu.d[y], size);
    lemma_operand(size, s.cpu.d[y], alu_result(op, n as u32, dst));
    lemma_operand(size, dst, 0);
    law_alu_computes(op, s.cpu.sr, n as u32, dst, size);
    assert(operand(dst, size) == operand(s.cpu.d[y], size));
    assert(operand(n as u32, size) == n);
}

/// CMP of any operand with a data register: the codes of the difference, X as
/// before, and nothing else.
#[verifier::rlimit(60)]
#[verifier::spinoff_prover]
pub proof fn law_compare<B: Bus>(
    s: Machine<B::Model>,
    x: int,
    size: InstructionSize,
    mode: int,
    y: int,
)
    requires
        fields_ok(0, x, 0, mode, y),
        s.cpu.d.len() == 8,
    ensures
        ({
            let t = execute_sem::<B>(s, opcode(0xB, x, size_code(size), mode, y)).1;
            let (val, u) = read_ea_sem::<B>(s, decode_ea_spec(mode as u8, y as u8), size);
            let src = operand(val, size);
            let dst = operand(s.cpu.d[x], size);
            &&& codes(
                t.cpu.sr,
                s.cpu.sr,
                has_flag(s.cpu.sr, 0x10),
                as_signed((dst - src) % values(size), size) < 0,
                dst == src,
                !fits(as_signed(dst, size) - as_signed(src, size), size),
                dst < src,
            )
            &&& t == u.with_sr(t.cpu.sr)
        }),
{
    lemma_fields(0xB, x, size_code(size), mode, y);
    reveal(flow_sem);
    let ea = decode_ea_spec(mode as u8, y as u8);
    lemma_read_keeps::<B>(s, ea, size);
    let (val, u) = read_ea_sem::<B>(s, ea, size);
    let dst = low(s.cpu.d[x], size);
    lemma_operand(size, s.cpu.d[x], 0);
    lemma_operand(size, dst, 0);
    lemma_operand(size, val, 0);
    lemma_compare_codes(s.cpu.sr, val, dst, size);
    assert(operand(dst, size) == operand(s.cpu.d[x], size));
}

/// The codes of a comparison as numbers.
pub proof fn lemma_compare_codes(sr: u16, src: u32, dst: u32, size: InstructionSize)
    ensures
        codes(
            compare_flags(sr, src, dst, size),
            sr,
            has_flag(sr, 0x10),
            as_signed((operand(dst, size) - operand(src, size)) % values(size), size) < 0,
            operand(dst, size) == operand(src, size),
            !fits(
                as_signed(operand(dst, size), size) - as_signed(operand(src, size), size),
                size,
            ),
            operand(dst, size) < operand(src, size),
        ),
{
    lemma_operand(size, src, 0);
    lemma_operand(size, dst, 0);
    let a = operand(dst, size);
    let b = operand(src, size);
    let d = (a - b) % values(size);
    assert((d == 0) == (a == b)) by {
        match size {
            InstructionSize::Byte => {},
            InstructionSize::Word => {},
            InstructionSize::Long => {},
        }
    }
    lemma_codes(
        sr,
        false,
        as_signed(d, size) < 0,
        a == b,
        !fits(as_signed(a, size) - as_signed(b, size), size),
        a < b,
    );
}

/// ADDA and SUBA: the sign-extended operand added to or taken from all 32 bits of
/// an address register; the codes stay.
#[verifier::rlimit(60)]
#[verifier::spinoff_prover]
pub proof fn law_address_arithmetic<B: Bus>(
    s: Machine<B::Model>,
    subtract: bool,
    long: bool,
    x: int,
    mode: int,
    y: int,
)
    requires
        fields_ok(0, x, 0, mode, y),
    ensures
        ({
            let size = if long {
                InstructionSize::Long
            } else {
                InstructionSize::Word
            };
            let line: int = if subtract {
                0x9
            } else {
                0xD
            };
            let w = opcode(
                line,
                x,
                if long {
                    7
                } else {
                    3
                },
                mode,
                y,
            );
            let (val, u) = read_ea_sem::<B>(s, decode_ea_spec(mode as u8, y as u8), size);
            let t = execute_sem::<B>(s, w).1;
            let delta = as_signed(operand(val, size), size);
            let r = if subtract {
                u.cpu.read_a(x) - delta
            } else {
                u.cpu.read_a(x) + delta
            };
            t == u.with_cpu(u.cpu.write_a(x, (r % 0x1_0000_0000) as u32))
        }),
{
    let size = if long {
        InstructionSize::Long
    } else {
        InstructionSize::Word
    };
    let line: int = if subtract {
        0x9
    } else {
        0xD
    };
    let op: int = if long {
        7
    } else {
        3
    };
    lemma_fields(line, x, op, mode, y);
    reveal(additive_sem);
    let (val, u) = read_ea_sem::<B>(s, decode_ea_spec(mode as u8, y as u8), size);
    law_sign_extension(val, size);
    let e = extend(val, size) as int;
    let a = u.cpu.read_a(x);
    let d = as_signed(operand(val, size), size);
    assert(e == d || e == d + 0x1_0000_0000);
    assert(a.wrapping_add(extend(val, size)) == (a + d) % 0x1_0000_0000);
    assert(a.wrapping_sub(extend(val, size)) == (a - d) % 0x1_0000_0000);
}

/// Sign extension keeps the signed value.
pub proof fn law_sign_extension(v: u32, size: InstructionSize)
    ensures
        as_signed(extend(v, size) as int, InstructionSize::Long) == as_signed(
            operand(v, size),
            size,
        ),
{
    match size {
        InstructionSize::Byte => {},
        InstructionSize::Word => {},
        InstructionSize::Long => {},
    }
}

} // verus!
