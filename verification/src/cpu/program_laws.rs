//! What the instructions of a program do: moves, products and quotients, shifts,
//! bits, branches and addresses.
use vstd::arithmetic::power2::pow2;
use vstd::prelude::*;

use super::decode::{
    bit_of, decode_ea_spec, decode_spec, AddressingMode, Instruction, InstructionSize,
};
use super::engine::CpuState;
use super::exec_alu::{
    abs, law_truncated_division, long_bits, quotient, remainder, signed_long, signed_word,
};
use super::exec_bits::BitOp;
use super::exec_shift::{
    law_arithmetic_left_shift_multiplies, law_arithmetic_right_shift_divides,
    law_logical_shift_scales, shift_flags, shift_steps, ShiftKind,
};
use super::execute::{
    additive_sem, execute_sem, flow_sem, logic_sem, movement_sem, multiplicative_sem,
};
use super::flags::{addx_flags, condition_holds, full_difference, full_sum, nz_flags, subx_flags};
use super::laws::{
    as_signed, codes, fields_ok, fits, in_memory, law_sign_extension, lemma_codes, lemma_fields,
    lemma_operand, lemma_read_keeps, lemma_wrapping, lemma_written_bits, opcode, operand, replaced,
    result_codes, size_code, values,
};
use super::operand::{
    extend_byte, extend_word, fetch_long_sem, fetch_word_sem, index_address, low, merge,
    read_ea_sem, read_ea_with_addr_sem, resolve_ea_sem, write_addr_sem, Bus, Machine,
};
use super::{has_flag, with_flag, StatusRegister};

verus! {

// ── Moves ────────────────────────────────────────────────────────────────

/// The line of MOVE: 1 byte, 3 word, 2 long.
pub open spec fn move_line(size: InstructionSize) -> int {
    match size {
        InstructionSize::Byte => 1,
        InstructionSize::Word => 3,
        InstructionSize::Long => 2,
    }
}

/// MOVE of any operand to a data register: its low bits become the operand, which
/// N and Z describe.
#[verifier::rlimit(60)]
#[verifier::spinoff_prover]
pub proof fn law_move_to_register<B: Bus>(
    s: Machine<B::Model>,
    x: int,
    size: InstructionSize,
    mode: int,
    y: int,
)
    requires
        fields_ok(0, x, 0, mode, y),
        s.cpu.d.len() == 8,
    ensures
        ({
            let t = execute_sem::<B>(s, opcode(move_line(size), x, 0, mode, y)).1;
            let (val, u) = read_ea_sem::<B>(s, decode_ea_spec(mode as u8, y as u8), size);
            let v = operand(val, size);
            &&& replaced(s.cpu.d[x], t.cpu.d[x], v, size)
            &&& result_codes(t.cpu.sr, s.cpu.sr, v, size)
            &&& t.cpu == (CpuState { d: s.cpu.d.update(x, t.cpu.d[x]), sr: t.cpu.sr, ..u.cpu })
            &&& t.bus == u.bus
        }),
{
    lemma_fields(move_line(size), x, 0, mode, y);
    reveal(movement_sem);
    let ea = decode_ea_spec(mode as u8, y as u8);
    lemma_read_keeps::<B>(s, ea, size);
    let (val, u) = read_ea_sem::<B>(s, ea, size);
    lemma_operand(size, s.cpu.d[x], val);
    lemma_operand(size, val, 0);
    let v = operand(val, size);
    lemma_codes(s.cpu.sr, false, as_signed(v, size) < 0, v == 0, false, false);
}

/// MOVE of any operand to memory: the operand is written at the destination, whose
/// address is computed after the source is read.
#[verifier::rlimit(60)]
#[verifier::spinoff_prover]
pub proof fn law_move_to_memory<B: Bus>(
    s: Machine<B::Model>,
    x: int,
    to: int,
    size: InstructionSize,
    mode: int,
    y: int,
)
    requires
        fields_ok(0, x, to, mode, y),
        in_memory(to, x),
    ensures
        ({
            let t = execute_sem::<B>(s, opcode(move_line(size), x, to, mode, y)).1;
            let (val, u) = read_ea_sem::<B>(s, decode_ea_spec(mode as u8, y as u8), size);
            let v = operand(val, size);
            let moved = u.with_sr(t.cpu.sr);
            let (addr, w) = resolve_ea_sem::<B>(moved, decode_ea_spec(to as u8, x as u8), size);
            &&& t == w.with_bus(write_addr_sem::<B>(w.bus, addr, size, v as u32))
            &&& result_codes(t.cpu.sr, s.cpu.sr, v, size)
        }),
{
    lemma_fields(move_line(size), x, to, mode, y);
    reveal(movement_sem);
    let ea = decode_ea_spec(mode as u8, y as u8);
    lemma_read_keeps::<B>(s, ea, size);
    let (val, u) = read_ea_sem::<B>(s, ea, size);
    lemma_operand(size, val, 0);
    let v = operand(val, size);
    lemma_codes(s.cpu.sr, false, as_signed(v, size) < 0, v == 0, false, false);
    let moved = u.with_sr(nz_flags(s.cpu.sr, val, size));
    let dst = decode_ea_spec(to as u8, x as u8);
    lemma_resolve_keeps::<B>(moved, dst, size);
    let (addr, w) = resolve_ea_sem::<B>(moved, dst, size);
    lemma_written_bits::<B>(w.bus, addr, size, val);
}

/// Computing an address changes no data register and no status bit.
#[verifier::rlimit(60)]
#[verifier::spinoff_prover]
proof fn lemma_resolve_keeps<B: Bus>(s: Machine<B::Model>, ea: AddressingMode, size: InstructionSize)
    ensures
        resolve_ea_sem::<B>(s, ea, size).1.cpu.d == s.cpu.d,
        resolve_ea_sem::<B>(s, ea, size).1.cpu.sr == s.cpu.sr,
{
}

/// MOVEA: the sign-extended operand becomes the whole address register; the codes
/// stay.
#[verifier::rlimit(60)]
#[verifier::spinoff_prover]
pub proof fn law_movea<B: Bus>(
    s: Machine<B::Model>,
    x: int,
    size: InstructionSize,
    mode: int,
    y: int,
)
    requires
        fields_ok(0, x, 1, mode, y),
        size != InstructionSize::Byte,
    ensures
        ({
            let t = execute_sem::<B>(s, opcode(move_line(size), x, 1, mode, y)).1;
            let (val, u) = read_ea_sem::<B>(s, decode_ea_spec(mode as u8, y as u8), size);
            let v = as_signed(operand(val, size), size);
            t == u.with_cpu(u.cpu.write_a(x, (v % 0x1_0000_0000) as u32))
        }),
{
    lemma_fields(move_line(size), x, 1, mode, y);
    reveal(movement_sem);
    let (val, u) = read_ea_sem::<B>(s, decode_ea_spec(mode as u8, y as u8), size);
    law_sign_extension(val, size);
}

/// MOVEQ: a signed byte becomes the whole data register.
#[verifier::rlimit(60)]
#[verifier::spinoff_prover]
pub proof fn law_moveq<B: Bus>(s: Machine<B::Model>, x: int, data: u8)
    requires
        0 <= x < 8,
        s.cpu.d.len() == 8,
    ensures
        ({
            let t = execute_sem::<B>(s, (0x7000 + x * 512 + data) as u16).1;
            let v = as_signed(data as int, InstructionSize::Byte);
            &&& as_signed(t.cpu.d[x] as int, InstructionSize::Long) == v
            &&& codes(t.cpu.sr, s.cpu.sr, has_flag(s.cpu.sr, 0x10), v < 0, v == 0, false, false)
            &&& t.cpu == (CpuState { d: s.cpu.d.update(x, t.cpu.d[x]), sr: t.cpu.sr, ..s.cpu })
            &&& t.bus == s.bus
        }),
{
    let op = (data / 64) as int;
    let mode = ((data / 8) % 8) as int;
    let y = (data % 8) as int;
    assert(data == op * 64 + mode * 8 + y);
    lemma_fields(7, x, op, mode, y);
    assert(opcode(7, x, op, mode, y) == 0x7000 + x * 512 + data);
    reveal(movement_sem);
    let v = as_signed(data as int, InstructionSize::Byte);
    lemma_codes(s.cpu.sr, false, v < 0, v == 0, false, false);
}

// ── Addresses ────────────────────────────────────────────────────────────

/// A number cut to 32 bits.
pub open spec fn cut(v: int) -> u32 {
    (v % 0x1_0000_0000) as u32
}

/// A word as a signed number.
pub open spec fn signed16(w: u16) -> int {
    if w >= 0x8000 {
        w - 0x1_0000
    } else {
        w as int
    }
}

/// The bytes that an operand steps an address register by: its size, but two for a
/// byte on the stack.
pub open spec fn stride(reg: u8, size: InstructionSize) -> int {
    match size {
        InstructionSize::Byte => if reg == 7 {
            2
        } else {
            1
        },
        InstructionSize::Word => 2,
        InstructionSize::Long => 4,
    }
}

/// Where the operands of the addressing modes lie: at the register, before it is
/// stepped up or after it is stepped down; at a signed distance from the register or
/// from the extension word; or at an absolute address, signed where it is short.
#[verifier::rlimit(60)]
#[verifier::spinoff_prover]
pub proof fn law_addresses<B: Bus>(s: Machine<B::Model>, reg: u8, size: InstructionSize)
    requires
        reg < 8,
    ensures
        ({
            let a = s.cpu.read_a(reg as int);
            let (w, next) = fetch_word_sem::<B>(s);
            let (l, after) = fetch_long_sem::<B>(s);
            &&& resolve_ea_sem::<B>(s, AddressingMode::AddrIndirect(reg), size) == (a, s)
            &&& resolve_ea_sem::<B>(s, AddressingMode::AddrPostInc(reg), size) == (
                a,
                s.with_cpu(s.cpu.write_a(reg as int, cut(a + stride(reg, size)))),
            )
            &&& resolve_ea_sem::<B>(s, AddressingMode::AddrPreDec(reg), size) == (
                cut(a - stride(reg, size)),
                s.with_cpu(s.cpu.write_a(reg as int, cut(a - stride(reg, size)))),
            )
            &&& resolve_ea_sem::<B>(s, AddressingMode::AddrDisp(reg), size) == (
                cut(a + signed16(w)),
                next,
            )
            &&& resolve_ea_sem::<B>(s, AddressingMode::PcDisp, size) == (
                cut(s.cpu.pc + signed16(w)),
                next,
            )
            &&& resolve_ea_sem::<B>(s, AddressingMode::AbsShort, size) == (cut(signed16(w)), next)
            &&& resolve_ea_sem::<B>(s, AddressingMode::AbsLong, size) == (l, after)
            &&& next.cpu == s.cpu.with_pc(cut(s.cpu.pc + 2))
            &&& after.cpu.pc == cut(s.cpu.pc + 4)
        }),
{
    let (w, next) = fetch_word_sem::<B>(s);
    let a = s.cpu.read_a(reg as int);
    lemma_signed_sum(a, w);
    lemma_signed_sum(s.cpu.pc, w);
}

/// Adding a sign-extended word.
proof fn lemma_signed_sum(a: u32, w: u16)
    ensures
        a.wrapping_add(extend_word(w)) == cut(a + signed16(w)),
        extend_word(w) == cut(signed16(w)),
{
}

/// An index adds a register, whole or as a signed word, and a signed byte. The
/// extension word names a data or an address register.
pub proof fn law_index_addresses(c: CpuState, base: u32, ext: u16)
    requires
        c.d.len() == 8,
    ensures
        ({
            let number = (ext as int / 0x1000) % 8;
            let register = if ext as int / 0x8000 == 1 {
                c.read_a(number)
            } else {
                c.d[number]
            };
            let index = if (ext as int / 0x800) % 2 == 1 {
                register as int
            } else {
                as_signed(register as int % 0x1_0000, InstructionSize::Word)
            };
            index_address(c, base, ext) == cut(
                base + as_signed(ext as int % 0x100, InstructionSize::Byte) + index,
            )
        }),
{
    let number = ((ext / 0x1000) % 8) as int;
    let register = if ext >= 0x8000 {
        c.read_a(number)
    } else {
        c.d[number]
    };
    let b = (ext % 0x100) as u8;
    let byte = as_signed(b as int, InstructionSize::Byte);
    assert(base.wrapping_add(extend_byte(b)) == cut(base + byte));
    let mid = base.wrapping_add(extend_byte(b));
    let w = (register % 0x1_0000) as u16;
    lemma_signed_sum(mid, w);
    lemma_cut_sum(base + byte, register as int);
    lemma_cut_sum(base + byte, signed16(w));
    assert(mid.wrapping_add(register) == cut(mid + register));
}

/// Cutting before adding makes no difference.
proof fn lemma_cut_sum(a: int, b: int)
    ensures
        cut(cut(a) + b) == cut(a + b),
{
    vstd::arithmetic::div_mod::lemma_add_mod_noop(a % 0x1_0000_0000, b, 0x1_0000_0000);
    vstd::arithmetic::div_mod::lemma_add_mod_noop(a, b, 0x1_0000_0000);
    vstd::arithmetic::div_mod::lemma_mod_twice(a, 0x1_0000_0000);
}

/// A register operand is its low bits, an address register gives all 32.
#[verifier::rlimit(60)]
#[verifier::spinoff_prover]
pub proof fn law_register_operands<B: Bus>(s: Machine<B::Model>, reg: u8, size: InstructionSize)
    requires
        reg < 8,
    ensures
        read_ea_sem::<B>(s, AddressingMode::DataDirect(reg), size).0 == operand(
            s.cpu.d[reg as int],
            size,
        ),
        read_ea_sem::<B>(s, AddressingMode::DataDirect(reg), size).1 == s,
        read_ea_sem::<B>(s, AddressingMode::AddrDirect(reg), size) == (
            s.cpu.read_a(reg as int),
            s,
        ),
{
    lemma_operand(size, s.cpu.d[reg as int], 0);
}

/// LEA loads the address of its operand, JMP continues there, and neither touches a
/// data register or the codes.
#[verifier::rlimit(60)]
#[verifier::spinoff_prover]
pub proof fn law_address_instructions<B: Bus>(s: Machine<B::Model>, x: int, mode: int, y: int)
    requires
        fields_ok(0, x, 0, mode, y),
        in_memory(mode, y),
    ensures
        ({
            let (addr, u) = resolve_ea_sem::<B>(
                s,
                decode_ea_spec(mode as u8, y as u8),
                InstructionSize::Long,
            );
            &&& execute_sem::<B>(s, opcode(4, x, 7, mode, y)).1 == u.with_cpu(
                u.cpu.write_a(x, addr),
            )
            &&& execute_sem::<B>(s, opcode(4, 7, 3, mode, y)).1 == u.with_pc(addr)
            &&& u.cpu.d == s.cpu.d
            &&& u.cpu.sr == s.cpu.sr
        }),
{
    lemma_fields(4, x, 7, mode, y);
    lemma_fields(4, 7, 3, mode, y);
    reveal(movement_sem);
    reveal(flow_sem);
    let ea = decode_ea_spec(mode as u8, y as u8);
    lemma_resolve_keeps::<B>(s, ea, InstructionSize::Long);
    assert(decode_spec(opcode(4, 7, 3, mode, y)) == Instruction::Jmp);
}

// ── Products and quotients ───────────────────────────────────────────────

/// MULU and MULS: the unsigned and the signed product of two words, in all 32 bits.
#[verifier::rlimit(60)]
#[verifier::spinoff_prover]
pub proof fn law_products<B: Bus>(s: Machine<B::Model>, x: int, mode: int, y: int)
    requires
        fields_ok(0, x, 0, mode, y),
        s.cpu.d.len() == 8,
    ensures
        ({
            let word = InstructionSize::Word;
            let (val, u) = read_ea_sem::<B>(s, decode_ea_spec(mode as u8, y as u8), word);
            let a = operand(s.cpu.d[x], word);
            let b = operand(val, word);
            let p = execute_sem::<B>(s, opcode(0xC, x, 3, mode, y)).1;
            let q = execute_sem::<B>(s, opcode(0xC, x, 7, mode, y)).1;
            &&& p.cpu.d[x] == a * b
            &&& as_signed(q.cpu.d[x] as int, InstructionSize::Long) == as_signed(a, word)
                * as_signed(b, word)
            &&& result_codes(p.cpu.sr, s.cpu.sr, p.cpu.d[x] as int, InstructionSize::Long)
            &&& result_codes(q.cpu.sr, s.cpu.sr, q.cpu.d[x] as int, InstructionSize::Long)
            &&& p.cpu == (CpuState { d: s.cpu.d.update(x, p.cpu.d[x]), sr: p.cpu.sr, ..u.cpu })
            &&& q.cpu == (CpuState { d: s.cpu.d.update(x, q.cpu.d[x]), sr: q.cpu.sr, ..u.cpu })
        }),
{
    lemma_fields(0xC, x, 3, mode, y);
    lemma_fields(0xC, x, 7, mode, y);
    reveal(multiplicative_sem);
    let word = InstructionSize::Word;
    let ea = decode_ea_spec(mode as u8, y as u8);
    lemma_read_keeps::<B>(s, ea, word);
    let (val, u) = read_ea_sem::<B>(s, ea, word);
    let a = operand(s.cpu.d[x], word);
    let b = operand(val, word);
    assert(0 <= b * a <= 0xFFFF * 0xFFFF) by (nonlinear_arith)
        requires
            0 <= a <= 0xFFFF,
            0 <= b <= 0xFFFF,
    ;
    assert(a * b == b * a) by (nonlinear_arith);
    let sa = as_signed(a, word);
    let sb = as_signed(b, word);
    assert(sa == signed_word(s.cpu.d[x]) && sb == signed_word(val));
    assert(-0x4000_0000 <= sb * sa <= 0x4000_0000) by (nonlinear_arith)
        requires
            -0x8000 <= sa < 0x8000,
            -0x8000 <= sb < 0x8000,
    ;
    assert(sa * sb == sb * sa) by (nonlinear_arith);
    let p = (b * a) as u32;
    let q = long_bits(sb * sa);
    lemma_long_codes(s.cpu.sr, p);
    lemma_long_codes(s.cpu.sr, q);
}

/// The codes of a long result.
proof fn lemma_long_codes(sr: u16, v: u32)
    ensures
        result_codes(
            nz_flags(sr, v, InstructionSize::Long),
            sr,
            v as int,
            InstructionSize::Long,
        ),
{
    lemma_codes(sr, false, as_signed(v as int, InstructionSize::Long) < 0, v == 0, false, false);
}

/// DIVU of a long by a word that is not zero: quotient in the low word, remainder in
/// the high word, rebuilding the dividend. A quotient beyond 16 bits leaves the
/// register and sets V.
#[verifier::rlimit(60)]
#[verifier::spinoff_prover]
pub proof fn law_unsigned_division<B: Bus>(s: Machine<B::Model>, x: int, mode: int, y: int)
    requires
        fields_ok(0, x, 0, mode, y),
        s.cpu.d.len() == 8,
        ({
            let (val, u) = read_ea_sem::<B>(
                s,
                decode_ea_spec(mode as u8, y as u8),
                InstructionSize::Word,
            );
            operand(val, InstructionSize::Word) != 0
        }),
    ensures
        ({
            let word = InstructionSize::Word;
            let (val, u) = read_ea_sem::<B>(s, decode_ea_spec(mode as u8, y as u8), word);
            let b = operand(val, word);
            let a = s.cpu.d[x] as int;
            let t = execute_sem::<B>(s, opcode(0x8, x, 3, mode, y)).1;
            let q = t.cpu.d[x] as int % 0x1_0000;
            let r = t.cpu.d[x] as int / 0x1_0000;
            let xf = has_flag(s.cpu.sr, 0x10);
            &&& a < b * 0x1_0000 ==> {
                &&& q * b + r == a
                &&& r < b
                &&& codes(t.cpu.sr, s.cpu.sr, xf, q >= 0x8000, q == 0, false, false)
            }
            &&& a >= b * 0x1_0000 ==> {
                &&& t.cpu.d == s.cpu.d
                &&& has_flag(t.cpu.sr, 0x02)
            }
            &&& t.cpu == (CpuState { d: s.cpu.d.update(x, t.cpu.d[x]), sr: t.cpu.sr, ..u.cpu })
        }),
{
    lemma_fields(0x8, x, 3, mode, y);
    reveal(multiplicative_sem);
    let word = InstructionSize::Word;
    let ea = decode_ea_spec(mode as u8, y as u8);
    lemma_read_keeps::<B>(s, ea, word);
    let (val, u) = read_ea_sem::<B>(s, ea, word);
    let b = operand(val, word);
    let a = s.cpu.d[x] as int;
    let q = a / b;
    let r = a % b;
    vstd::arithmetic::div_mod::lemma_fundamental_div_mod(a, b);
    vstd::arithmetic::div_mod::lemma_mod_bound(a, b);
    assert(b * q == q * b) by (nonlinear_arith);
    assert((a < b * 0x1_0000) == (q <= 0xFFFF)) by (nonlinear_arith)
        requires
            a == b * q + r,
            0 <= r < b,
    ;
    assert(q >= 0) by (nonlinear_arith)
        requires
            a == b * q + r,
            0 <= r < b,
            a >= 0,
    ;
    lemma_codes(s.cpu.sr, false, true, false, true, false);
    lemma_codes(s.cpu.sr, false, q >= 0x8000, q == 0, false, false);
    assert(s.cpu.d.update(x, s.cpu.d[x]) =~= s.cpu.d);
    if q <= 0xFFFF {
        let v = r * 0x1_0000 + q;
        assert(0 <= v < 0x1_0000_0000);
        assert(v % 0x1_0000 == q && v / 0x1_0000 == r);
    }
}

/// DIVS of a long by a word that is not zero: the signed quotient rounds towards
/// zero, the remainder has the sign of the dividend, and they rebuild it. A quotient
/// that does not fit leaves the register and sets V.
#[verifier::rlimit(60)]
#[verifier::spinoff_prover]
pub proof fn law_signed_division<B: Bus>(s: Machine<B::Model>, x: int, mode: int, y: int)
    requires
        fields_ok(0, x, 0, mode, y),
        s.cpu.d.len() == 8,
        ({
            let (val, u) = read_ea_sem::<B>(
                s,
                decode_ea_spec(mode as u8, y as u8),
                InstructionSize::Word,
            );
            operand(val, InstructionSize::Word) != 0
        }),
    ensures
        ({
            let word = InstructionSize::Word;
            let (val, u) = read_ea_sem::<B>(s, decode_ea_spec(mode as u8, y as u8), word);
            let b = as_signed(operand(val, word), word);
            let a = as_signed(s.cpu.d[x] as int, InstructionSize::Long);
            let t = execute_sem::<B>(s, opcode(0x8, x, 7, mode, y)).1;
            let q = as_signed(t.cpu.d[x] as int % 0x1_0000, word);
            let r = as_signed(t.cpu.d[x] as int / 0x1_0000, word);
            let xf = has_flag(s.cpu.sr, 0x10);
            &&& -0x8000 <= quotient(a, b) < 0x8000 ==> {
                &&& q * b + r == a
                &&& abs(r) < abs(b)
                &&& r == 0 || (r < 0) == (a < 0)
                &&& codes(t.cpu.sr, s.cpu.sr, xf, q < 0, q == 0, false, false)
            }
            &&& !(-0x8000 <= quotient(a, b) < 0x8000) ==> {
                &&& t.cpu.d == s.cpu.d
                &&& has_flag(t.cpu.sr, 0x02)
            }
            &&& t.cpu == (CpuState { d: s.cpu.d.update(x, t.cpu.d[x]), sr: t.cpu.sr, ..u.cpu })
        }),
{
    lemma_fields(0x8, x, 7, mode, y);
    reveal(multiplicative_sem);
    let word = InstructionSize::Word;
    let ea = decode_ea_spec(mode as u8, y as u8);
    lemma_read_keeps::<B>(s, ea, word);
    let (val, u) = read_ea_sem::<B>(s, ea, word);
    let b = as_signed(operand(val, word), word);
    let a = as_signed(s.cpu.d[x] as int, InstructionSize::Long);
    assert(b == signed_word(val) && a == signed_long(s.cpu.d[x]) && b != 0);
    law_truncated_division(a, b);
    let q = quotient(a, b);
    let r = remainder(a, b);
    lemma_codes(s.cpu.sr, false, true, false, true, false);
    lemma_codes(s.cpu.sr, false, q < 0, q == 0, false, false);
    assert(s.cpu.d.update(x, s.cpu.d[x]) =~= s.cpu.d);
    assert(-0x8000 < r < 0x8000);
    let hi = r % 0x1_0000;
    let lo = q % 0x1_0000;
    let v = hi * 0x1_0000 + lo;
    assert(v / 0x1_0000 == hi && v % 0x1_0000 == lo);
    assert(0 <= v < 0x1_0000_0000);
    assert(as_signed(hi, word) == r);
    if -0x8000 <= q < 0x8000 {
        assert(as_signed(lo, word) == q);
    }
}

// ── One operand ──────────────────────────────────────────────────────────

/// NEG, NOT and CLR of a data register: the difference from zero, the complement,
/// and zero.
#[verifier::rlimit(60)]
#[verifier::spinoff_prover]
pub proof fn law_unary<B: Bus>(s: Machine<B::Model>, size: InstructionSize, y: int)
    requires
        0 <= y < 8,
        s.cpu.d.len() == 8,
    ensures
        ({
            let m = values(size);
            let v = operand(s.cpu.d[y], size);
            let xf = has_flag(s.cpu.sr, 0x10);
            let neg = execute_sem::<B>(s, opcode(4, 2, size_code(size), 0, y)).1;
            let not = execute_sem::<B>(s, opcode(4, 3, size_code(size), 0, y)).1;
            let clr = execute_sem::<B>(s, opcode(4, 1, size_code(size), 0, y)).1;
            let n = (-v) % m;
            &&& replaced(s.cpu.d[y], neg.cpu.d[y], n, size)
            &&& codes(
                neg.cpu.sr,
                s.cpu.sr,
                v != 0,
                as_signed(n, size) < 0,
                v == 0,
                2 * v == m,
                v != 0,
            )
            &&& replaced(s.cpu.d[y], not.cpu.d[y], m - 1 - v, size)
            &&& result_codes(not.cpu.sr, s.cpu.sr, m - 1 - v, size)
            &&& replaced(s.cpu.d[y], clr.cpu.d[y], 0, size)
            &&& codes(clr.cpu.sr, s.cpu.sr, xf, false, true, false, false)
            &&& neg.cpu == (CpuState { d: s.cpu.d.update(y, neg.cpu.d[y]), sr: neg.cpu.sr, ..s.cpu })
            &&& not.cpu == (CpuState { d: s.cpu.d.update(y, not.cpu.d[y]), sr: not.cpu.sr, ..s.cpu })
            &&& clr.cpu == (CpuState { d: s.cpu.d.update(y, clr.cpu.d[y]), sr: clr.cpu.sr, ..s.cpu })
        }),
{
    lemma_fields(4, 2, size_code(size), 0, y);
    lemma_fields(4, 3, size_code(size), 0, y);
    lemma_fields(4, 1, size_code(size), 0, y);
    reveal(additive_sem);
    reveal(logic_sem);
    let d = s.cpu.d[y];
    let v = low(d, size);
    lemma_operand(size, d, 0);
    lemma_operand(size, d, 0u32.wrapping_sub(v));
    lemma_operand(size, d, !v);
    lemma_operand(size, v, 0);
    lemma_operand(size, 0, 0);
    lemma_operand(size, !v, 0);
    lemma_wrapping(size, 0, v);
    lemma_complement(size, v);
    super::laws::law_alu_computes(super::exec_alu::AluOp::Sub, s.cpu.sr, v, 0, size);
    lemma_negation(operand(d, size), size);
    let c = values(size) - 1 - v;
    lemma_codes(s.cpu.sr, false, as_signed(c, size) < 0, c == 0, false, false);
    lemma_codes(s.cpu.sr, false, false, true, false, false);
    assert(operand(v, size) == operand(d, size));
}

/// The complement of an operand.
proof fn lemma_complement(size: InstructionSize, v: u32)
    requires
        v < values(size),
    ensures
        operand(!v, size) == values(size) - 1 - v,
{
    assert(!v == 0xFFFF_FFFFu32 - v) by (bit_vector);
    match size {
        InstructionSize::Byte => {},
        InstructionSize::Word => {},
        InstructionSize::Long => {},
    }
}

/// The negative of an operand: zero for zero, and out of range for the least.
proof fn lemma_negation(v: int, size: InstructionSize)
    requires
        0 <= v < values(size),
    ensures
        ((-v) % values(size) == 0) == (v == 0),
        !fits(as_signed(0, size) - as_signed(v, size), size) == (2 * v == values(size)),
{
    match size {
        InstructionSize::Byte => {},
        InstructionSize::Word => {},
        InstructionSize::Long => {},
    }
}

/// EXT widens the signed byte of a register to a word, or its signed word to a long;
/// SWAP exchanges its words.
#[verifier::rlimit(60)]
#[verifier::spinoff_prover]
pub proof fn law_widen_and_swap<B: Bus>(s: Machine<B::Model>, y: int)
    requires
        0 <= y < 8,
        s.cpu.d.len() == 8,
    ensures
        ({
            let d = s.cpu.d[y];
            let w = execute_sem::<B>(s, opcode(4, 4, 2, 0, y)).1;
            let l = execute_sem::<B>(s, opcode(4, 4, 3, 0, y)).1;
            let x = execute_sem::<B>(s, opcode(4, 4, 1, 0, y)).1;
            let word = InstructionSize::Word;
            let long = InstructionSize::Long;
            &&& as_signed(operand(w.cpu.d[y], word), word) == as_signed(
                operand(d, InstructionSize::Byte),
                InstructionSize::Byte,
            )
            &&& w.cpu.d[y] / 0x1_0000 == d / 0x1_0000
            &&& result_codes(w.cpu.sr, s.cpu.sr, operand(w.cpu.d[y], word), word)
            &&& as_signed(l.cpu.d[y] as int, long) == as_signed(operand(d, word), word)
            &&& result_codes(l.cpu.sr, s.cpu.sr, l.cpu.d[y] as int, long)
            &&& x.cpu.d[y] % 0x1_0000 == d / 0x1_0000
            &&& x.cpu.d[y] / 0x1_0000 == d % 0x1_0000
            &&& result_codes(x.cpu.sr, s.cpu.sr, x.cpu.d[y] as int, long)
            &&& w.cpu == (CpuState { d: s.cpu.d.update(y, w.cpu.d[y]), sr: w.cpu.sr, ..s.cpu })
            &&& l.cpu == (CpuState { d: s.cpu.d.update(y, l.cpu.d[y]), sr: l.cpu.sr, ..s.cpu })
            &&& x.cpu == (CpuState { d: s.cpu.d.update(y, x.cpu.d[y]), sr: x.cpu.sr, ..s.cpu })
        }),
{
    lemma_fields(4, 4, 2, 0, y);
    lemma_fields(4, 4, 3, 0, y);
    lemma_fields(4, 4, 1, 0, y);
    reveal(additive_sem);
    reveal(movement_sem);
    let a = opcode(4, 4, 2, 0, y);
    let b = opcode(4, 4, 3, 0, y);
    assert(bit_of(a, 0x40) == false);
    assert(bit_of(b, 0x40) == true);
    assert(decode_spec(a) == Instruction::Ext(InstructionSize::Word));
    assert(decode_spec(b) == Instruction::Ext(InstructionSize::Long));
    let d = s.cpu.d[y];
    let byte = extend_byte((d % 0x100) as u8);
    let word = extend_word((d % 0x1_0000) as u16);
    lemma_operand(InstructionSize::Word, d, byte);
    lemma_operand(InstructionSize::Word, byte, 0);
    let v = operand(byte, InstructionSize::Word);
    lemma_codes(s.cpu.sr, false, as_signed(v, InstructionSize::Word) < 0, v == 0, false, false);
    lemma_long_codes(s.cpu.sr, word);
    lemma_long_codes(s.cpu.sr, super::exec_flow::swap_words(d));
}

/// TST: N and Z of an operand, and nothing else.
#[verifier::rlimit(60)]
#[verifier::spinoff_prover]
pub proof fn law_test<B: Bus>(s: Machine<B::Model>, size: InstructionSize, mode: int, y: int)
    requires
        fields_ok(0, 0, 0, mode, y),
    ensures
        ({
            let t = execute_sem::<B>(s, opcode(4, 5, size_code(size), mode, y)).1;
            let (val, u) = read_ea_sem::<B>(s, decode_ea_spec(mode as u8, y as u8), size);
            &&& result_codes(t.cpu.sr, s.cpu.sr, operand(val, size), size)
            &&& t == u.with_sr(t.cpu.sr)
        }),
{
    lemma_fields(4, 5, size_code(size), mode, y);
    reveal(flow_sem);
    let ea = decode_ea_spec(mode as u8, y as u8);
    lemma_read_keeps::<B>(s, ea, size);
    let (val, u) = read_ea_sem::<B>(s, ea, size);
    lemma_operand(size, val, 0);
    let v = operand(val, size);
    lemma_codes(s.cpu.sr, false, as_signed(v, size) < 0, v == 0, false, false);
}

// ── Multi-precision ──────────────────────────────────────────────────────

/// ADDX and SUBX of data registers carry the extend flag on: so a sum or difference
/// of several operands is built from the lowest up. Z can only be cleared.
#[verifier::spinoff_prover]
pub proof fn law_extended_arithmetic<B: Bus>(
    s: Machine<B::Model>,
    x: int,
    size: InstructionSize,
    y: int,
)
    requires
        fields_ok(0, x, 0, 0, y),
        s.cpu.d.len() == 8,
    ensures
        ({
            let m = values(size);
            let a = operand(s.cpu.d[x], size);
            let b = operand(s.cpu.d[y], size);
            let carry: int = if has_flag(s.cpu.sr, 0x10) {
                1
            } else {
                0
            };
            let z = has_flag(s.cpu.sr, 0x04);
            let p = execute_sem::<B>(s, opcode(0xD, x, 4 + size_code(size), 0, y)).1;
            let q = execute_sem::<B>(s, opcode(0x9, x, 4 + size_code(size), 0, y)).1;
            let sum = (a + b + carry) % m;
            let diff = (a - b - carry) % m;
            &&& replaced(s.cpu.d[x], p.cpu.d[x], sum, size)
            &&& codes(
                p.cpu.sr,
                s.cpu.sr,
                a + b + carry >= m,
                as_signed(sum, size) < 0,
                sum == 0 && z,
                !fits(as_signed(a, size) + as_signed(b, size) + carry, size),
                a + b + carry >= m,
            )
            &&& replaced(s.cpu.d[x], q.cpu.d[x], diff, size)
            &&& codes(
                q.cpu.sr,
                s.cpu.sr,
                a - b - carry < 0,
                as_signed(diff, size) < 0,
                diff == 0 && z,
                !fits(as_signed(a, size) - as_signed(b, size) - carry, size),
                a - b - carry < 0,
            )
            &&& p.cpu == (CpuState { d: s.cpu.d.update(x, p.cpu.d[x]), sr: p.cpu.sr, ..s.cpu })
            &&& q.cpu == (CpuState { d: s.cpu.d.update(x, q.cpu.d[x]), sr: q.cpu.sr, ..s.cpu })
        }),
{
    lemma_extended_runs::<B>(s, x, size, y);
    let src = low(s.cpu.d[y], size);
    let dst = low(s.cpu.d[x], size);
    let c = super::flags::extend_bit(s.cpu.sr);
    lemma_operand(size, s.cpu.d[y], 0);
    lemma_operand(size, s.cpu.d[x], dst.wrapping_add(src).wrapping_add(c));
    lemma_operand(size, s.cpu.d[x], dst.wrapping_sub(src).wrapping_sub(c));
    lemma_extended_results(src, dst, c, size);
    lemma_extended_codes(s.cpu.sr, src, dst, c, size);
}

/// The machine after ADDX and SUBX of registers.
#[verifier::spinoff_prover]
proof fn lemma_extended_runs<B: Bus>(s: Machine<B::Model>, x: int, size: InstructionSize, y: int)
    requires
        fields_ok(0, x, 0, 0, y),
        s.cpu.d.len() == 8,
    ensures
        ({
            let src = low(s.cpu.d[y], size);
            let dst = low(s.cpu.d[x], size);
            let c = super::flags::extend_bit(s.cpu.sr);
            let p = dst.wrapping_add(src).wrapping_add(c);
            let q = dst.wrapping_sub(src).wrapping_sub(c);
            &&& execute_sem::<B>(s, opcode(0xD, x, 4 + size_code(size), 0, y)).1 == s.with_cpu(
                s.cpu.with_sr(addx_flags(s.cpu.sr, src, dst, c, size)).write_d(
                    x,
                    merge(s.cpu.d[x], p, size),
                ),
            )
            &&& execute_sem::<B>(s, opcode(0x9, x, 4 + size_code(size), 0, y)).1 == s.with_cpu(
                s.cpu.with_sr(subx_flags(s.cpu.sr, src, dst, c, size)).write_d(
                    x,
                    merge(s.cpu.d[x], q, size),
                ),
            )
        }),
{
    lemma_fields(0xD, x, 4 + size_code(size), 0, y);
    lemma_fields(0x9, x, 4 + size_code(size), 0, y);
    let a = opcode(0xD, x, 4 + size_code(size), 0, y);
    let b = opcode(0x9, x, 4 + size_code(size), 0, y);
    assert(bit_of(a, 8) == false);
    assert(bit_of(b, 8) == false);
    assert(decode_spec(a) == Instruction::AddX(size));
    assert(decode_spec(b) == Instruction::SubX(size));
    reveal(additive_sem);
}

/// Sums and differences with a carry.
pub proof fn lemma_extended_results(src: u32, dst: u32, c: u32, size: InstructionSize)
    requires
        src < values(size),
        dst < values(size),
        c <= 1,
    ensures
        operand(dst.wrapping_add(src).wrapping_add(c), size) == (dst + src + c) % values(size),
        operand(dst.wrapping_sub(src).wrapping_sub(c), size) == (dst - src - c) % values(size),
{
    let m = values(size);
    lemma_wrapping(size, dst, src);
    lemma_wrapping(size, dst.wrapping_add(src), c);
    lemma_wrapping(size, dst.wrapping_sub(src), c);
    vstd::arithmetic::div_mod::lemma_small_mod(src as nat, m as nat);
    vstd::arithmetic::div_mod::lemma_small_mod(dst as nat, m as nat);
    vstd::arithmetic::div_mod::lemma_small_mod(c as nat, m as nat);
    vstd::arithmetic::div_mod::lemma_add_mod_noop(dst + src, c as int, m);
    vstd::arithmetic::div_mod::lemma_sub_mod_noop(dst - src, c as int, m);
}

/// Their condition codes.
pub proof fn lemma_extended_codes(sr: u16, src: u32, dst: u32, c: u32, size: InstructionSize)
    requires
        src < values(size),
        dst < values(size),
        c <= 1,
    ensures
        ({
            let m = values(size);
            let z = has_flag(sr, 0x04);
            let sum = (dst + src + c) % m;
            let diff = (dst - src - c) % m;
            let a = as_signed(dst as int, size);
            let b = as_signed(src as int, size);
            &&& codes(
                addx_flags(sr, src, dst, c, size),
                sr,
                dst + src + c >= m,
                as_signed(sum, size) < 0,
                sum == 0 && z,
                !fits(a + b + c, size),
                dst + src + c >= m,
            )
            &&& codes(
                subx_flags(sr, src, dst, c, size),
                sr,
                dst - src - c < 0,
                as_signed(diff, size) < 0,
                diff == 0 && z,
                !fits(a - b - c, size),
                dst - src - c < 0,
            )
        }),
{
    let m = values(size);
    let z = has_flag(sr, 0x04);
    let sum = (dst + src + c) % m;
    let diff = (dst - src - c) % m;
    lemma_operand(size, src, 0);
    lemma_operand(size, dst, 0);
    vstd::arithmetic::div_mod::lemma_small_mod(src as nat, m as nat);
    vstd::arithmetic::div_mod::lemma_small_mod(dst as nat, m as nat);
    let a = as_signed(dst as int, size);
    let b = as_signed(src as int, size);
    let over = dst + src + c >= m;
    let under = dst - src - c < 0;
    lemma_codes(sr, over, as_signed(sum, size) < 0, sum == 0 && z, !fits(a + b + c, size), over);
    lemma_codes(
        sr,
        under,
        as_signed(diff, size) < 0,
        diff == 0 && z,
        !fits(a - b - c, size),
        under,
    );
    assert(full_sum(src, dst, c, size) == dst + src + c);
    assert(full_difference(src, dst, c, size) == dst - src - c);
}

// ── Shifts ───────────────────────────────────────────────────────────────

/// The code of a shift kind: 0 arithmetic, 1 logical, 2 through X, 3 plain rotate.
pub open spec fn shift_code(kind: ShiftKind) -> int {
    match kind {
        ShiftKind::Arithmetic => 0,
        ShiftKind::Logical => 1,
        ShiftKind::RotateExtend => 2,
        ShiftKind::Rotate => 3,
    }
}

/// The operation field of a shift: size and direction.
pub open spec fn shift_field(left: bool, size: InstructionSize) -> int {
    size_code(size) + if left {
        4int
    } else {
        0
    }
}

/// The instruction of a shift of a register.
proof fn lemma_shift_decodes(kind: ShiftKind, left: bool, x: int, by: bool, size: InstructionSize, y: int)
    requires
        0 <= x < 8,
        0 <= y < 8,
    ensures
        ({
            let mode = shift_code(kind) + if by {
                4int
            } else {
                0
            };
            let w = opcode(0xE, x, shift_field(left, size), mode, y);
            &&& bit_of(w, 0x20) == by
            &&& bit_of(w, 0x100) == left
            &&& super::decode::reg_high_of(w) == x
            &&& super::decode::reg_low_of(w) == y
            &&& decode_spec(w) == match kind {
                ShiftKind::Arithmetic => Instruction::Asd(size),
                ShiftKind::Logical => Instruction::Lsd(size),
                ShiftKind::RotateExtend => Instruction::Roxd(size),
                ShiftKind::Rotate => Instruction::Rod(size),
            }
        }),
{
    let mode = shift_code(kind) + if by {
        4int
    } else {
        0
    };
    lemma_fields(0xE, x, shift_field(left, size), mode, y);
    let w = opcode(0xE, x, shift_field(left, size), mode, y);
    let a = w as int / 8;
    assert(a == 0xE * 512 + x * 64 + shift_field(left, size) * 8 + mode);
    assert(a % 4 == shift_code(kind));
    assert(w as int / 32 == a / 4);
    assert(a / 4 == 0xE * 128 + x * 16 + shift_field(left, size) * 2 + mode / 4);
    assert((a / 4) % 2 == mode / 4);
}

/// A shift of a data register by `n` bits, from 1 to 63, given in the opcode (1 to 8)
/// or in another register (modulo 64): the operand is shifted `n` times, N and Z
/// describe it, C is the last bit out, X follows C but for plain rotates, and V is
/// clear but for an arithmetic left shift.
#[verifier::rlimit(60)]
#[verifier::spinoff_prover]
pub proof fn law_shift_instruction<B: Bus>(
    s: Machine<B::Model>,
    kind: ShiftKind,
    left: bool,
    x: int,
    by: bool,
    n: int,
    size: InstructionSize,
    y: int,
)
    requires
        0 <= x < 8,
        0 <= y < 8,
        s.cpu.d.len() == 8,
        n == if by {
            s.cpu.d[x] as int % 64
        } else if x == 0 {
            8
        } else {
            x
        },
        n > 0,
    ensures
        ({
            let mode = shift_code(kind) + if by {
                4int
            } else {
                0
            };
            let t = execute_sem::<B>(s, opcode(0xE, x, shift_field(left, size), mode, y)).1;
            let v = operand(s.cpu.d[y], size) as u32;
            let xf = has_flag(s.cpu.sr, 0x10);
            let r = shift_steps(kind, left, size, v, xf, n as nat);
            &&& replaced(s.cpu.d[y], t.cpu.d[y], r.0 as int, size)
            &&& codes(
                t.cpu.sr,
                s.cpu.sr,
                if kind == ShiftKind::Rotate {
                    xf
                } else {
                    r.1
                },
                as_signed(r.0 as int, size) < 0,
                r.0 == 0,
                kind == ShiftKind::Arithmetic && left && r.2,
                r.1,
            )
            &&& t.cpu == (CpuState { d: s.cpu.d.update(y, t.cpu.d[y]), sr: t.cpu.sr, ..s.cpu })
            &&& t.bus == s.bus
        }),
{
    lemma_shift_runs::<B>(s, kind, left, x, by, size, y);
    let d = s.cpu.d[y];
    let v = low(d, size);
    let xf = has_flag(s.cpu.sr, 0x10);
    lemma_operand(size, d, 0);
    super::exec_shift::lemma_shifted_range(kind, left, size, v, xf, n as nat);
    let r = shift_steps(kind, left, size, v, xf, n as nat);
    lemma_operand(size, d, r.0);
    lemma_shift_codes(s.cpu.sr, kind, left, size, r);
    vstd::arithmetic::div_mod::lemma_small_mod(r.0 as nat, values(size) as nat);
}

/// The machine after a shift of a register.
#[verifier::rlimit(60)]
#[verifier::spinoff_prover]
proof fn lemma_shift_runs<B: Bus>(
    s: Machine<B::Model>,
    kind: ShiftKind,
    left: bool,
    x: int,
    by: bool,
    size: InstructionSize,
    y: int,
)
    requires
        0 <= x < 8,
        0 <= y < 8,
        s.cpu.d.len() == 8,
        by ==> s.cpu.d[x] % 64 > 0,
    ensures
        ({
            let mode = shift_code(kind) + if by {
                4int
            } else {
                0
            };
            let t = execute_sem::<B>(s, opcode(0xE, x, shift_field(left, size), mode, y)).1;
            let n = if by {
                s.cpu.d[x] as int % 64
            } else if x == 0 {
                8
            } else {
                x
            };
            let r = shift_steps(
                kind,
                left,
                size,
                low(s.cpu.d[y], size),
                has_flag(s.cpu.sr, 0x10),
                n as nat,
            );
            t == s.with_cpu(
                s.cpu.with_sr(shift_flags(s.cpu.sr, kind, left, size, r)).write_d(
                    y,
                    merge(s.cpu.d[y], r.0, size),
                ),
            )
        }),
{
    lemma_shift_decodes(kind, left, x, by, size, y);
    reveal(logic_sem);
}

/// The condition codes of a shift.
proof fn lemma_shift_codes(
    sr: u16,
    kind: ShiftKind,
    left: bool,
    size: InstructionSize,
    r: (u32, bool, bool),
)
    requires
        r.0 < values(size),
    ensures
        codes(
            shift_flags(sr, kind, left, size, r),
            sr,
            if kind == ShiftKind::Rotate {
                has_flag(sr, 0x10)
            } else {
                r.1
            },
            as_signed(r.0 as int, size) < 0,
            r.0 == 0,
            kind == ShiftKind::Arithmetic && left && r.2,
            r.1,
        ),
{
    let overflow = kind == ShiftKind::Arithmetic && left && r.2;
    lemma_operand(size, r.0, 0);
    lemma_codes(sr, r.1, as_signed(r.0 as int, size) < 0, r.0 == 0, overflow, r.1);
}

/// ASR divides a signed register by a power of two, rounding down: the sign stays. C
/// and X take the last bit out.
#[verifier::rlimit(60)]
#[verifier::spinoff_prover]
pub proof fn law_asr_divides<B: Bus>(
    s: Machine<B::Model>,
    x: int,
    by: bool,
    n: int,
    size: InstructionSize,
    y: int,
)
    requires
        0 <= x < 8,
        0 <= y < 8,
        s.cpu.d.len() == 8,
        n == if by {
            s.cpu.d[x] as int % 64
        } else if x == 0 {
            8
        } else {
            x
        },
        n > 0,
    ensures
        ({
            let m = values(size);
            let p = pow2(n as nat) as int;
            let h = pow2((n - 1) as nat) as int;
            let v = operand(s.cpu.d[y], size);
            let mode: int = if by {
                4
            } else {
                0
            };
            let t = execute_sem::<B>(s, opcode(0xE, x, shift_field(false, size), mode, y)).1;
            let sv = as_signed(v, size);
            let q = as_signed(operand(t.cpu.d[y], size), size);
            &&& q == sv / p
            &&& t.cpu.d[y] as int / m == s.cpu.d[y] as int / m
            &&& codes(
                t.cpu.sr,
                s.cpu.sr,
                (sv / h) % 2 == 1,
                sv < 0,
                q == 0,
                false,
                (sv / h) % 2 == 1,
            )
        }),
{
    let k = n as nat;
    let v = operand(s.cpu.d[y], size) as u32;
    let xf = has_flag(s.cpu.sr, 0x10);
    lemma_operand(size, s.cpu.d[y], 0);
    lemma_operand(size, v, 0);
    vstd::arithmetic::div_mod::lemma_small_mod(v as nat, values(size) as nat);
    law_shift_instruction::<B>(s, ShiftKind::Arithmetic, false, x, by, n, size, y);
    law_arithmetic_right_shift_divides(size, v, xf, k);
    let a = shift_steps(ShiftKind::Arithmetic, false, size, v, xf, k).0;
    lemma_operand(size, a, 0);
    vstd::arithmetic::div_mod::lemma_small_mod(a as nat, values(size) as nat);
}

/// ASL multiplies a register by a power of two within its size and tells by V whether
/// the signed product fits. C and X take the last bit out.
#[verifier::rlimit(60)]
#[verifier::spinoff_prover]
pub proof fn law_asl_multiplies<B: Bus>(
    s: Machine<B::Model>,
    x: int,
    by: bool,
    n: int,
    size: InstructionSize,
    y: int,
)
    requires
        0 <= x < 8,
        0 <= y < 8,
        s.cpu.d.len() == 8,
        n == if by {
            s.cpu.d[x] as int % 64
        } else if x == 0 {
            8
        } else {
            x
        },
        n > 0,
    ensures
        ({
            let m = values(size);
            let p = pow2(n as nat) as int;
            let h = pow2((n - 1) as nat) as int;
            let v = operand(s.cpu.d[y], size);
            let mode: int = if by {
                4
            } else {
                0
            };
            let t = execute_sem::<B>(s, opcode(0xE, x, shift_field(true, size), mode, y)).1;
            let top = (v * h) % m >= m / 2;
            &&& replaced(s.cpu.d[y], t.cpu.d[y], (v * p) % m, size)
            &&& codes(
                t.cpu.sr,
                s.cpu.sr,
                top,
                as_signed((v * p) % m, size) < 0,
                (v * p) % m == 0,
                !fits(as_signed(v, size) * p, size),
                top,
            )
        }),
{
    let k = n as nat;
    let v = operand(s.cpu.d[y], size) as u32;
    let xf = has_flag(s.cpu.sr, 0x10);
    lemma_operand(size, s.cpu.d[y], 0);
    lemma_operand(size, v, 0);
    vstd::arithmetic::div_mod::lemma_small_mod(v as nat, values(size) as nat);
    law_shift_instruction::<B>(s, ShiftKind::Arithmetic, true, x, by, n, size, y);
    law_arithmetic_left_shift_multiplies(size, v, xf, k);
}

/// LSL multiplies an unsigned register by a power of two within its size, with V
/// clear.
#[verifier::rlimit(60)]
#[verifier::spinoff_prover]
pub proof fn law_lsl_multiplies<B: Bus>(
    s: Machine<B::Model>,
    x: int,
    by: bool,
    n: int,
    size: InstructionSize,
    y: int,
)
    requires
        0 <= x < 8,
        0 <= y < 8,
        s.cpu.d.len() == 8,
        n == if by {
            s.cpu.d[x] as int % 64
        } else if x == 0 {
            8
        } else {
            x
        },
        n > 0,
    ensures
        ({
            let m = values(size);
            let p = pow2(n as nat) as int;
            let h = pow2((n - 1) as nat) as int;
            let v = operand(s.cpu.d[y], size);
            let mode: int = if by {
                5
            } else {
                1
            };
            let t = execute_sem::<B>(s, opcode(0xE, x, shift_field(true, size), mode, y)).1;
            let top = (v * h) % m >= m / 2;
            &&& replaced(s.cpu.d[y], t.cpu.d[y], (v * p) % m, size)
            &&& codes(
                t.cpu.sr,
                s.cpu.sr,
                top,
                as_signed((v * p) % m, size) < 0,
                (v * p) % m == 0,
                false,
                top,
            )
        }),
{
    let k = n as nat;
    let v = operand(s.cpu.d[y], size) as u32;
    let xf = has_flag(s.cpu.sr, 0x10);
    lemma_operand(size, s.cpu.d[y], 0);
    lemma_operand(size, v, 0);
    vstd::arithmetic::div_mod::lemma_small_mod(v as nat, values(size) as nat);
    law_shift_instruction::<B>(s, ShiftKind::Logical, true, x, by, n, size, y);
    law_logical_shift_scales(size, v, xf, k);
    law_logical_shift_scales(size, v, xf, (n - 1) as nat);
    super::exec_shift::law_last_bit_out(ShiftKind::Logical, true, size, v, xf, k);
}

/// LSR divides an unsigned register by a power of two: N is clear.
#[verifier::rlimit(60)]
#[verifier::spinoff_prover]
pub proof fn law_lsr_divides<B: Bus>(
    s: Machine<B::Model>,
    x: int,
    by: bool,
    n: int,
    size: InstructionSize,
    y: int,
)
    requires
        0 <= x < 8,
        0 <= y < 8,
        s.cpu.d.len() == 8,
        n == if by {
            s.cpu.d[x] as int % 64
        } else if x == 0 {
            8
        } else {
            x
        },
        n > 0,
    ensures
        ({
            let m = values(size);
            let p = pow2(n as nat) as int;
            let h = pow2((n - 1) as nat) as int;
            let v = operand(s.cpu.d[y], size);
            let mode: int = if by {
                5
            } else {
                1
            };
            let t = execute_sem::<B>(s, opcode(0xE, x, shift_field(false, size), mode, y)).1;
            &&& replaced(s.cpu.d[y], t.cpu.d[y], v / p, size)
            &&& codes(
                t.cpu.sr,
                s.cpu.sr,
                (v / h) % 2 == 1,
                false,
                v / p == 0,
                false,
                (v / h) % 2 == 1,
            )
        }),
{
    let k = n as nat;
    let v = operand(s.cpu.d[y], size) as u32;
    let xf = has_flag(s.cpu.sr, 0x10);
    lemma_operand(size, s.cpu.d[y], 0);
    lemma_operand(size, v, 0);
    vstd::arithmetic::div_mod::lemma_small_mod(v as nat, values(size) as nat);
    law_shift_instruction::<B>(s, ShiftKind::Logical, false, x, by, n, size, y);
    law_logical_shift_scales(size, v, xf, k);
    law_logical_shift_scales(size, v, xf, (n - 1) as nat);
    super::exec_shift::law_last_bit_out(ShiftKind::Logical, false, size, v, xf, k);
    let p = pow2(k) as int;
    vstd::arithmetic::power2::lemma_pow2_unfold(k);
    vstd::arithmetic::power2::lemma_pow2_pos((n - 1) as nat);
    assert(2 * (v as int / p) < values(size)) by (nonlinear_arith)
        requires
            p >= 2,
            0 <= v < values(size),
    ;
}

/// A shift of a memory word moves it by one bit: the operand at the address is what
/// the shift of a register by one would leave.
#[verifier::rlimit(60)]
#[verifier::spinoff_prover]
pub proof fn law_memory_shift<B: Bus>(
    s: Machine<B::Model>,
    kind: ShiftKind,
    left: bool,
    mode: int,
    y: int,
)
    requires
        fields_ok(0, 0, 0, mode, y),
        in_memory(mode, y),
    ensures
        ({
            let word = InstructionSize::Word;
            let w = opcode(
                0xE,
                shift_code(kind),
                if left {
                    7
                } else {
                    3
                },
                mode,
                y,
            );
            let t = execute_sem::<B>(s, w).1;
            let (val, addr, u) = read_ea_with_addr_sem::<B>(
                s,
                decode_ea_spec(mode as u8, y as u8),
                word,
            );
            let xf = has_flag(s.cpu.sr, 0x10);
            let r = shift_steps(kind, left, word, operand(val, word) as u32, xf, 1);
            &&& t.bus == write_addr_sem::<B>(u.bus, addr, word, r.0)
            &&& codes(
                t.cpu.sr,
                s.cpu.sr,
                if kind == ShiftKind::Rotate {
                    xf
                } else {
                    r.1
                },
                r.0 >= 0x8000,
                r.0 == 0,
                kind == ShiftKind::Arithmetic && left && r.2,
                r.1,
            )
            &&& t.cpu == (CpuState { sr: t.cpu.sr, ..u.cpu })
        }),
{
    let word = InstructionSize::Word;
    let op: int = if left {
        7
    } else {
        3
    };
    lemma_fields(0xE, shift_code(kind), op, mode, y);
    let w = opcode(0xE, shift_code(kind), op, mode, y);
    reveal(logic_sem);
    let ea = decode_ea_spec(mode as u8, y as u8);
    lemma_read_keeps::<B>(s, ea, word);
    let (val, addr, u) = read_ea_with_addr_sem::<B>(s, ea, word);
    let xf = has_flag(s.cpu.sr, 0x10);
    let r = shift_steps(kind, left, word, low(val, word), xf, 1);
    let overflow = kind == ShiftKind::Arithmetic && left && r.2;
    lemma_codes(s.cpu.sr, r.1, r.0 >= 0x8000, r.0 == 0, overflow, r.1);
    assert((w / 0x200) % 4 == shift_code(kind));
    assert(w as int / 0x800 == (w as int / 512) / 4);
    assert(bit_of(w, 0x800) == false);
}

// ── Bits ─────────────────────────────────────────────────────────────────

/// A bit of a number, and the number without, with and with the other.
pub proof fn lemma_bit_arithmetic(v: u32, b: u32)
    requires
        b < 32,
    ensures
        ({
            let p = pow2(b as nat) as int;
            let clear = (v as int / p) % 2 == 0;
            let mask = 1u32 << b;
            &&& (v & mask == 0) == clear
            &&& (v | mask) == if clear {
                v + p
            } else {
                v as int
            }
            &&& (v & !mask) == if clear {
                v as int
            } else {
                v - p
            }
            &&& (v ^ mask) == if clear {
                v + p
            } else {
                v - p
            }
        }),
{
    vstd::arithmetic::power2::lemma2_to64();
    vstd::bits::lemma_u32_shr_is_div(v, b);
    assert((v & (1u32 << b) == 0) == ((v >> b) % 2 == 0)) by (bit_vector)
        requires
            b < 32,
    ;
    lemma_one_shifted(b);
    let m = 1u32 << b;
    assert(v & m == 0 ==> (v | m) == v + m && (v & !m) == v && (v ^ m) == v + m) by (bit_vector);
    assert(v & (1u32 << b) != 0 ==> (v | (1u32 << b)) == v && (v & !(1u32 << b)) == v - (1u32 << b)
        && (v ^ (1u32 << b)) == v - (1u32 << b)) by (bit_vector)
        requires
            b < 32,
    ;
}

/// One shifted left is a power of two.
proof fn lemma_one_shifted(b: u32)
    requires
        b < 32,
    ensures
        (1u32 << b) == pow2(b as nat),
{
    assert(pow2(b as nat) <= u32::MAX) by {
        vstd::arithmetic::power2::lemma2_to64();
        vstd::arithmetic::power2::lemma_pow2_strictly_increases(b as nat, 32);
    }
    assert(1 * pow2(b as nat) <= u32::MAX);
    vstd::bits::lemma_u32_shl_is_mul(1, b);
}

/// BTST, BCHG, BCLR and BSET of a data register, with the bit number in another or in
/// the next word, modulo 32: Z tells that the bit was clear, and it is left, turned
/// over, cleared or set; no other code changes.
#[verifier::rlimit(60)]
#[verifier::spinoff_prover]
pub proof fn law_register_bits<B: Bus>(s: Machine<B::Model>, op: BitOp, x: int, y: int)
    requires
        0 <= x < 8,
        0 <= y < 8,
        s.cpu.d.len() == 8,
    ensures
        ({
            let k: int = match op {
                BitOp::TestBit => 0,
                BitOp::ChangeBit => 1,
                BitOp::ClearBit => 2,
                BitOp::SetBit => 3,
            };
            let (w, next) = fetch_word_sem::<B>(s);
            let a = execute_sem::<B>(s, opcode(0, x, 4 + k, 0, y)).1;
            let b = execute_sem::<B>(s, opcode(0, 4, k, 0, y)).1;
            &&& bit_done(op, s.cpu.d[y], s.cpu.d[x] as int % 32, s.cpu, a.cpu, y)
            &&& bit_done(op, s.cpu.d[y], w as int % 32, next.cpu, b.cpu, y)
            &&& a.bus == s.bus
            &&& b.bus == next.bus
        }),
{
    let k: int = match op {
        BitOp::TestBit => 0,
        BitOp::ChangeBit => 1,
        BitOp::ClearBit => 2,
        BitOp::SetBit => 3,
    };
    lemma_fields(0, x, 4 + k, 0, y);
    lemma_fields(0, 4, k, 0, y);
    reveal(logic_sem);
    let (w, next) = fetch_word_sem::<B>(s);
    let v = s.cpu.d[y];
    let m = s.cpu.d[x] % 32;
    let n = (w as u32) % 32;
    lemma_bit_arithmetic(v, m);
    lemma_bit_arithmetic(v, n);
    lemma_zero_flag(s.cpu.sr, v & (1u32 << m) == 0);
    lemma_zero_flag(s.cpu.sr, v & (1u32 << n) == 0);
    assert(s.cpu.d.update(y, v) =~= s.cpu.d);
}

/// The Z flag alone.
pub proof fn lemma_zero_flag(sr: u16, z: bool)
    ensures
        has_flag(with_flag(sr, StatusRegister::Z, z), 0x04) == z,
        with_flag(sr, StatusRegister::Z, z) & 0xFFFB == sr & 0xFFFB,
{
    assert((sr | 4) & 4 != 0 && (sr & !4u16) & 4 == 0 && (sr | 4) & 0xFFFB == sr & 0xFFFB && (sr
        & !4u16) & 0xFFFB == sr & 0xFFFB) by (bit_vector);
}

/// A bit of register `y` has been tested and changed as its operation says.
pub open spec fn bit_done(op: BitOp, v: u32, b: int, c: CpuState, t: CpuState, y: int) -> bool {
    let p = pow2(b as nat) as int;
    let clear = (v as int / p) % 2 == 0;
    let r = match op {
        BitOp::TestBit => v as int,
        BitOp::SetBit => if clear {
            v + p
        } else {
            v as int
        },
        BitOp::ClearBit => if clear {
            v as int
        } else {
            v - p
        },
        BitOp::ChangeBit => if clear {
            v + p
        } else {
            v - p
        },
    };
    &&& t.d[y] == r
    &&& has_flag(t.sr, 0x04) == clear
    &&& t.sr & 0xFFFB == c.sr & 0xFFFB
    &&& t == (CpuState { d: c.d.update(y, t.d[y]), sr: t.sr, ..c })
}

// ── Branches ─────────────────────────────────────────────────────────────

/// The opcode of a conditional branch.
pub open spec fn branch_opcode(condition: int, disp: int) -> u16 {
    (0x6000 + condition * 256 + disp) as u16
}

/// The fields of a branch.
proof fn lemma_branch(condition: int, disp: int)
    requires
        0 <= condition < 16,
        0 <= disp < 256,
    ensures
        ({
            let w = branch_opcode(condition, disp);
            &&& w / 4096 == 6
            &&& super::decode::condition_field_of(w) == condition
            &&& w % 0x100 == disp
        }),
{
    let w = 0x6000 + condition * 256 + disp;
    assert(w / 256 == 0x60 + condition && w % 256 == disp);
    assert(w / 4096 == (w / 256) / 16);
    assert((0x60 + condition) % 16 == condition);
}

/// Bcc continues at a signed distance from the word after the opcode where its
/// condition holds, and after the instruction where not; the distance is in the
/// opcode, or in the next word where that is zero. Nothing else changes. BSR (condition
/// 1) always goes, with the return address below the stack pointer.
#[verifier::rlimit(60)]
#[verifier::spinoff_prover]
pub proof fn law_branches<B: Bus>(s: Machine<B::Model>, condition: int, disp: int)
    requires
        0 <= condition < 16,
        0 <= disp < 256,
    ensures
        ({
            let t = execute_sem::<B>(s, branch_opcode(condition, disp)).1;
            let (w, next) = fetch_word_sem::<B>(s);
            let u = if disp == 0 {
                next
            } else {
                s
            };
            let d = if disp == 0 {
                signed16(w)
            } else {
                as_signed(disp, InstructionSize::Byte)
            };
            &&& condition != 1 ==> t == if condition_holds(s.cpu.sr, condition as u8) {
                u.with_pc(cut(s.cpu.pc + d))
            } else {
                u
            }
            &&& condition == 1 ==> t == super::operand::push_long_sem::<B>(u, u.cpu.pc).with_pc(
                cut(s.cpu.pc + d),
            )
        }),
{
    lemma_branch(condition, disp);
    reveal(flow_sem);
    let (w, next) = fetch_word_sem::<B>(s);
    lemma_signed_sum(s.cpu.pc, w);
    let b = disp as u8;
    assert(s.cpu.pc.wrapping_add(extend_byte(b)) == cut(
        s.cpu.pc + as_signed(disp, InstructionSize::Byte),
    ));
}

/// DBcc: where its condition does not hold, the counter in the low word goes down by
/// one, and the loop goes on until it has passed zero; where it holds, nothing
/// happens.
#[verifier::rlimit(60)]
#[verifier::spinoff_prover]
pub proof fn law_loop<B: Bus>(s: Machine<B::Model>, condition: int, y: int)
    requires
        0 <= condition < 16,
        0 <= y < 8,
        s.cpu.d.len() == 8,
    ensures
        ({
            let t = execute_sem::<B>(
                s,
                opcode(5, condition / 2, 3 + 4 * (condition % 2), 1, y),
            ).1;
            let (w, next) = fetch_word_sem::<B>(s);
            let n = s.cpu.d[y] as int % 0x1_0000;
            if condition_holds(s.cpu.sr, condition as u8) {
                t == next
            } else {
                &&& replaced(s.cpu.d[y], t.cpu.d[y], (n - 1) % 0x1_0000, InstructionSize::Word)
                &&& t.cpu.pc == if n == 0 {
                    next.cpu.pc
                } else {
                    cut(s.cpu.pc + signed16(w))
                }
                &&& t.cpu == (CpuState {
                    d: s.cpu.d.update(y, t.cpu.d[y]),
                    pc: t.cpu.pc,
                    ..next.cpu
                })
                &&& t.bus == next.bus
            }
        }),
{
    lemma_fields(5, condition / 2, 3 + 4 * (condition % 2), 1, y);
    reveal(flow_sem);
    let (w, next) = fetch_word_sem::<B>(s);
    lemma_signed_sum(s.cpu.pc, w);
    let n = s.cpu.d[y] % 0x1_0000;
    let down = if n == 0 {
        0xFFFFu32
    } else {
        (n - 1) as u32
    };
    lemma_operand(InstructionSize::Word, s.cpu.d[y], down);
    assert((condition / 2) * 2 + condition % 2 == condition);
}

/// Scc of a data register: its low byte is 255 where the condition holds, else 0.
#[verifier::rlimit(60)]
#[verifier::spinoff_prover]
pub proof fn law_set_by_condition<B: Bus>(s: Machine<B::Model>, condition: int, y: int)
    requires
        0 <= condition < 16,
        0 <= y < 8,
        s.cpu.d.len() == 8,
    ensures
        ({
            let t = execute_sem::<B>(
                s,
                opcode(5, condition / 2, 3 + 4 * (condition % 2), 0, y),
            ).1;
            &&& replaced(
                s.cpu.d[y],
                t.cpu.d[y],
                if condition_holds(s.cpu.sr, condition as u8) {
                    255
                } else {
                    0
                },
                InstructionSize::Byte,
            )
            &&& t.cpu == (CpuState { d: s.cpu.d.update(y, t.cpu.d[y]), ..s.cpu })
            &&& t.bus == s.bus
        }),
{
    lemma_fields(5, condition / 2, 3 + 4 * (condition % 2), 0, y);
    reveal(flow_sem);
    assert((condition / 2) * 2 + condition % 2 == condition);
    lemma_operand(InstructionSize::Byte, s.cpu.d[y], 255);
    lemma_operand(InstructionSize::Byte, s.cpu.d[y], 0);
}

/// The conditions that read one flag: true, overflow clear and plus.
pub proof fn law_flag_conditions(sr: u16)
    ensures
        condition_holds(sr, 0),
        condition_holds(sr, 4) == !has_flag(sr, 0x01),
        condition_holds(sr, 6) == !has_flag(sr, 0x04),
        condition_holds(sr, 8) == !has_flag(sr, 0x02),
        condition_holds(sr, 10) == !has_flag(sr, 0x08),
{
}

} // verus!
