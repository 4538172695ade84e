//! Arithmetic and logic instructions of the 68000.
use vstd::prelude::*;

use super::bcd::{bcd_add, bcd_add_sem, bcd_sub, bcd_sub_sem, BcdResult};
use super::decode::{
    bit, bit_of, mode_high, mode_high_of, reg_high, reg_high_of, reg_low, reg_low_of,
    AddressingMode, InstructionSize,
};
use super::engine::{Cpu, CpuState};
use super::exception::{exception_sem, exec_exception};
use super::flags::{
    add_flags, addx_flags, extend_bit, extend_value, nz_flags, nzvc, set_flags_add, set_flags_addx,
    set_flags_nz, set_flags_sub, set_flags_subx, set_nzvc, set_xnzvc, sub_flags, subx_flags, xnzvc,
};
use super::operand::{
    bus_addr, extend, extend_word, fetch_immediate, fetch_immediate_sem, low, machine, mask_value,
    merge, merge_value, read_ea, read_ea_sem, read_ea_with_addr, read_ea_with_addr_sem, sign_extend,
    sign_extend_byte, sign_extend_word, extend_byte, src_ea, src_ea_of, write_addr_sem, write_back,
    write_back_sem, write_ea, write_ea_sem, write_to_addr, Bus, Machine,
};
use super::{has_flag, StatusRegister};

verus! {

// ── Two-operand arithmetic and logic ─────────────────────────────────────

/// The operations that take two operands.
#[derive(Debug, Clone, Copy, PartialEq, Eq, Structural)]
pub enum AluOp {
    /// `dst + src`
    Add,
    /// `dst - src`
    Sub,
    /// `dst & src`
    And,
    /// `dst | src`
    Or,
    /// `dst ^ src`
    Eor,
}

/// The 32-bit result of an operation; operands use its low bits.
pub open spec fn alu_result(op: AluOp, src: u32, dst: u32) -> u32 {
    match op {
        AluOp::Add => dst.wrapping_add(src),
        AluOp::Sub => dst.wrapping_sub(src),
        AluOp::And => dst & src,
        AluOp::Or => dst | src,
        AluOp::Eor => dst ^ src,
    }
}

/// The status word after an operation.
pub open spec fn alu_flags(op: AluOp, sr: u16, src: u32, dst: u32, size: InstructionSize) -> u16 {
    match op {
        AluOp::Add => add_flags(sr, src, dst, size),
        AluOp::Sub => sub_flags(sr, src, dst, size),
        _ => nz_flags(sr, alu_result(op, src, dst), size),
    }
}

/// Performs an operation and sets the condition codes.
pub fn alu(sr: &mut StatusRegister, op: AluOp, src: u32, dst: u32, size: InstructionSize) -> (r: u32)
    ensures
        r == alu_result(op, src, dst),
        final(sr).0 == alu_flags(op, old(sr).0, src, dst, size),
{
    match op {
        AluOp::Add => {
            set_flags_add(sr, src, dst, size);
            dst.wrapping_add(src)
        },
        AluOp::Sub => {
            set_flags_sub(sr, src, dst, size);
            dst.wrapping_sub(src)
        },
        AluOp::And => {
            let result: u32 = dst & src;
            set_flags_nz(sr, result, size);
            result
        },
        AluOp::Or => {
            let result: u32 = dst | src;
            set_flags_nz(sr, result, size);
            result
        },
        AluOp::Eor => {
            let result: u32 = dst ^ src;
            set_flags_nz(sr, result, size);
            result
        },
    }
}

/// Cycles of an operation by size.
pub open spec fn cycles_by_size(size: InstructionSize, long: u32, short: u32) -> u32 {
    if size == InstructionSize::Long {
        long
    } else {
        short
    }
}

/// Returns the cycles of an operation by size.
pub fn size_cycles(size: InstructionSize, long: u32, short: u32) -> (r: u32)
    ensures
        r == cycles_by_size(size, long, short),
{
    if size == InstructionSize::Long {
        long
    } else {
        short
    }
}

/// An operation of `src` on the operand `ea`, written back in place.
pub open spec fn modify_sem<B: Bus>(
    s: Machine<B::Model>,
    op: AluOp,
    src: u32,
    ea: AddressingMode,
    size: InstructionSize,
) -> Machine<B::Model> {
    let (dst, addr, s1) = read_ea_with_addr_sem::<B>(s, ea, size);
    write_back_sem::<B>(
        s1.with_sr(alu_flags(op, s1.cpu.sr, src, dst, size)),
        ea,
        addr,
        size,
        alu_result(op, src, dst),
    )
}

/// Applies an operation of `src` on the operand `ea` in place.
fn modify<B: Bus>(
    cpu: &mut Cpu,
    op: AluOp,
    src: u32,
    ea: AddressingMode,
    size: InstructionSize,
    bus: &mut B,
)
    requires
        old(bus).valid(),
        super::decode::ea_valid(ea),
    ensures
        final(bus).valid(),
        machine(*final(cpu), *final(bus)) == modify_sem::<B>(
            machine(*old(cpu), *old(bus)),
            op,
            src,
            ea,
            size,
        ),
{
    let (dst, addr) = read_ea_with_addr(cpu, ea, size, bus);
    let result: u32 = alu(&mut cpu.sr, op, src, dst, size);
    write_back(cpu, ea, addr, size, bus, result);
}

/// ADD, SUB, AND, OR between a data register and an operand. Bit 8 of the
/// opcode selects the operand as the destination; EOR always has it so.
pub open spec fn alu_sem<B: Bus>(
    s: Machine<B::Model>,
    op: AluOp,
    opcode: u16,
    size: InstructionSize,
) -> (u32, Machine<B::Model>) {
    let reg = reg_high_of(opcode) as int;
    let ea = src_ea_of(opcode);
    let s2 = if op != AluOp::Eor && mode_high_of(opcode) < 3 {
        let (src, s1) = read_ea_sem::<B>(s, ea, size);
        let dst = low(s1.cpu.d[reg], size);
        let c1 = s1.cpu.with_sr(alu_flags(op, s1.cpu.sr, src, dst, size));
        s1.with_cpu(c1.write_d(reg, merge(c1.d[reg], alu_result(op, src, dst), size)))
    } else {
        let (dst, addr, s1) = read_ea_with_addr_sem::<B>(s, ea, size);
        let src = low(s1.cpu.d[reg], size);
        write_back_sem::<B>(
            s1.with_sr(alu_flags(op, s1.cpu.sr, src, dst, size)),
            ea,
            addr,
            size,
            alu_result(op, src, dst),
        )
    };
    (cycles_by_size(size, 8, 4), s2)
}

/// Executes ADD, SUB, AND, OR or EOR.
pub fn exec_alu<B: Bus>(
    cpu: &mut Cpu,
    op: AluOp,
    opcode: u16,
    size: InstructionSize,
    bus: &mut B,
) -> (r: u32)
    requires
        old(bus).valid(),
    ensures
        final(bus).valid(),
        (r, machine(*final(cpu), *final(bus))) == alu_sem::<B>(
            machine(*old(cpu), *old(bus)),
            op,
            opcode,
            size,
        ),
{
    let reg: u8 = reg_high(opcode);
    let ea = src_ea(opcode);
    if op != AluOp::Eor && mode_high(opcode) < 3 {
        let src: u32 = read_ea(cpu, ea, size, bus);
        let dst: u32 = mask_value(cpu.read_d(reg), size);
        let result: u32 = alu(&mut cpu.sr, op, src, dst, size);
        let merged: u32 = merge_value(cpu.read_d(reg), result, size);
        cpu.write_d(reg, merged);
    } else {
        let (dst, addr) = read_ea_with_addr(cpu, ea, size, bus);
        let src: u32 = mask_value(cpu.read_d(reg), size);
        let result: u32 = alu(&mut cpu.sr, op, src, dst, size);
        write_back(cpu, ea, addr, size, bus, result);
    }
    size_cycles(size, 8, 4)
}

/// ADDI, SUBI, ANDI, ORI, EORI: an immediate applied to an operand.
pub open spec fn alu_immediate_sem<B: Bus>(
    s: Machine<B::Model>,
    op: AluOp,
    opcode: u16,
    size: InstructionSize,
) -> (u32, Machine<B::Model>) {
    let (imm, s1) = fetch_immediate_sem::<B>(s, size);
    (cycles_by_size(size, 16, 8), modify_sem::<B>(s1, op, imm, src_ea_of(opcode), size))
}

/// Executes ADDI, SUBI, ANDI, ORI or EORI.
pub fn exec_alu_immediate<B: Bus>(
    cpu: &mut Cpu,
    op: AluOp,
    opcode: u16,
    size: InstructionSize,
    bus: &mut B,
) -> (r: u32)
    requires
        old(bus).valid(),
    ensures
        final(bus).valid(),
        (r, machine(*final(cpu), *final(bus))) == alu_immediate_sem::<B>(
            machine(*old(cpu), *old(bus)),
            op,
            opcode,
            size,
        ),
{
    let imm: u32 = fetch_immediate(cpu, size, bus);
    modify(cpu, op, imm, src_ea(opcode), size, bus);
    size_cycles(size, 16, 8)
}

/// ADDQ and SUBQ: a number from 1 to 8 applied to an operand. Address
/// registers change as a whole and leave the flags alone.
pub open spec fn alu_quick_sem<B: Bus>(
    s: Machine<B::Model>,
    op: AluOp,
    opcode: u16,
    size: InstructionSize,
) -> (u32, Machine<B::Model>) {
    let field = reg_high_of(opcode);
    let imm = if field == 0 {
        8u32
    } else {
        field as u32
    };
    let ea = src_ea_of(opcode);
    let s1 = match ea {
        AddressingMode::AddrDirect(reg) => s.with_cpu(
            s.cpu.write_a(reg as int, alu_result(op, imm, s.cpu.read_a(reg as int))),
        ),
        _ => modify_sem::<B>(s, op, imm, ea, size),
    };
    (cycles_by_size(size, 8, 4), s1)
}

/// Executes ADDQ or SUBQ.
pub fn exec_alu_quick<B: Bus>(
    cpu: &mut Cpu,
    op: AluOp,
    opcode: u16,
    size: InstructionSize,
    bus: &mut B,
) -> (r: u32)
    requires
        old(bus).valid(),
        op == AluOp::Add || op == AluOp::Sub,
    ensures
        final(bus).valid(),
        (r, machine(*final(cpu), *final(bus))) == alu_quick_sem::<B>(
            machine(*old(cpu), *old(bus)),
            op,
            opcode,
            size,
        ),
{
    let field: u8 = reg_high(opcode);
    let imm: u32 = if field == 0 {
        8
    } else {
        field as u32
    };
    let ea = src_ea(opcode);
    match ea {
        AddressingMode::AddrDirect(reg) => {
            let val: u32 = cpu.read_a(reg);
            if op == AluOp::Add {
                cpu.write_a(reg, val.wrapping_add(imm));
            } else {
                cpu.write_a(reg, val.wrapping_sub(imm));
            }
        },
        _ => modify(cpu, op, imm, ea, size, bus),
    }
    size_cycles(size, 8, 4)
}

/// ADDA and SUBA: a sign-extended operand applied to an address register; no
/// flags change.
pub open spec fn alu_address_sem<B: Bus>(
    s: Machine<B::Model>,
    op: AluOp,
    opcode: u16,
    size: InstructionSize,
) -> (u32, Machine<B::Model>) {
    let reg = reg_high_of(opcode) as int;
    let (val, s1) = read_ea_sem::<B>(s, src_ea_of(opcode), size);
    (
        8,
        s1.with_cpu(
            s1.cpu.write_a(reg, alu_result(op, extend(val, size), s1.cpu.read_a(reg))),
        ),
    )
}

/// Executes ADDA or SUBA.
pub fn exec_alu_address<B: Bus>(
    cpu: &mut Cpu,
    op: AluOp,
    opcode: u16,
    size: InstructionSize,
    bus: &mut B,
) -> (r: u32)
    requires
        old(bus).valid(),
        op == AluOp::Add || op == AluOp::Sub,
    ensures
        final(bus).valid(),
        (r, machine(*final(cpu), *final(bus))) == alu_address_sem::<B>(
            machine(*old(cpu), *old(bus)),
            op,
            opcode,
            size,
        ),
{
    let reg: u8 = reg_high(opcode);
    let val: u32 = read_ea(cpu, src_ea(opcode), size, bus);
    let src: u32 = sign_extend(val, size);
    let dst: u32 = cpu.read_a(reg);
    if op == AluOp::Add {
        cpu.write_a(reg, dst.wrapping_add(src));
    } else {
        cpu.write_a(reg, dst.wrapping_sub(src));
    }
    8
}

// ── Multi-precision arithmetic ───────────────────────────────────────────

/// ADDX: multi-precision addition between data registers or between pre-decremented memory operands.
pub open spec fn addx_sem<B: Bus>(s: Machine<B::Model>, opcode: u16, size: InstructionSize) -> (u32, Machine<B::Model>) {
    let rx = reg_high_of(opcode);
    let ry = reg_low_of(opcode);
    let x = extend_bit(s.cpu.sr);
    let s4 = if !bit_of(opcode, 8) {
        let src = low(s.cpu.d[ry as int], size);
        let dst = low(s.cpu.d[rx as int], size);
        let c1 = s.cpu.with_sr(addx_flags(s.cpu.sr, src, dst, x, size));
        s.with_cpu(
            c1.write_d(
                rx as int,
                merge(c1.d[rx as int], dst.wrapping_add(src).wrapping_add(x), size),
            ),
        )
    } else {
        let (src, s1) = read_ea_sem::<B>(s, AddressingMode::AddrPreDec(ry), size);
        let (dst, addr, s2) = read_ea_with_addr_sem::<B>(
            s1,
            AddressingMode::AddrPreDec(rx),
            size,
        );
        let s3 = s2.with_sr(addx_flags(s2.cpu.sr, src, dst, x, size));
        s3.with_bus(
            write_addr_sem::<B>(s3.bus, addr, size, dst.wrapping_add(src).wrapping_add(x)),
        )
    };
    (cycles_by_size(size, 8, 4), s4)
}

/// ADDX: multi-precision addition between data registers or between pre-decremented memory operands.
pub fn exec_addx<B: Bus>(cpu: &mut Cpu, opcode: u16, size: InstructionSize, bus: &mut B) -> (r: u32)
    requires
        old(bus).valid(),
    ensures
        final(bus).valid(),
        (r, machine(*final(cpu), *final(bus))) == addx_sem::<B>(
            machine(*old(cpu), *old(bus)),
            opcode,
            size,
        ),
{
    let rx: u8 = reg_high(opcode);
    let ry: u8 = reg_low(opcode);
    let x: u32 = extend_value(cpu.sr);
    if !bit(opcode, 8) {
        let src: u32 = mask_value(cpu.read_d(ry), size);
        let dst: u32 = mask_value(cpu.read_d(rx), size);
        set_flags_addx(&mut cpu.sr, src, dst, x, size);
        let merged: u32 = merge_value(cpu.read_d(rx), dst.wrapping_add(src).wrapping_add(x), size);
        cpu.write_d(rx, merged);
    } else {
        let src: u32 = read_ea(cpu, AddressingMode::AddrPreDec(ry), size, bus);
        let (dst, addr) = read_ea_with_addr(cpu, AddressingMode::AddrPreDec(rx), size, bus);
        set_flags_addx(&mut cpu.sr, src, dst, x, size);
        write_to_addr(bus, addr, size, dst.wrapping_add(src).wrapping_add(x));
    }
    size_cycles(size, 8, 4)
}

/// SUBX: multi-precision subtraction between data registers or between pre-decremented memory operands.
pub open spec fn subx_sem<B: Bus>(s: Machine<B::Model>, opcode: u16, size: InstructionSize) -> (u32, Machine<B::Model>) {
    let rx = reg_high_of(opcode);
    let ry = reg_low_of(opcode);
    let x = extend_bit(s.cpu.sr);
    let s4 = if !bit_of(opcode, 8) {
        let src = low(s.cpu.d[ry as int], size);
        let dst = low(s.cpu.d[rx as int], size);
        let c1 = s.cpu.with_sr(subx_flags(s.cpu.sr, src, dst, x, size));
        s.with_cpu(
            c1.write_d(
                rx as int,
                merge(c1.d[rx as int], dst.wrapping_sub(src).wrapping_sub(x), size),
            ),
        )
    } else {
        let (src, s1) = read_ea_sem::<B>(s, AddressingMode::AddrPreDec(ry), size);
        let (dst, addr, s2) = read_ea_with_addr_sem::<B>(
            s1,
            AddressingMode::AddrPreDec(rx),
            size,
        );
        let s3 = s2.with_sr(subx_flags(s2.cpu.sr, src, dst, x, size));
        s3.with_bus(
            write_addr_sem::<B>(s3.bus, addr, size, dst.wrapping_sub(src).wrapping_sub(x)),
        )
    };
    (cycles_by_size(size, 8, 4), s4)
}

/// SUBX: multi-precision subtraction between data registers or between pre-decremented memory operands.
pub fn exec_subx<B: Bus>(cpu: &mut Cpu, opcode: u16, size: InstructionSize, bus: &mut B) -> (r: u32)
    requires
        old(bus).valid(),
    ensures
        final(bus).valid(),
        (r, machine(*final(cpu), *final(bus))) == subx_sem::<B>(
            machine(*old(cpu), *old(bus)),
            opcode,
            size,
        ),
{
    let rx: u8 = reg_high(opcode);
    let ry: u8 = reg_low(opcode);
    let x: u32 = extend_value(cpu.sr);
    if !bit(opcode, 8) {
        let src: u32 = mask_value(cpu.read_d(ry), size);
        let dst: u32 = mask_value(cpu.read_d(rx), size);
        set_flags_subx(&mut cpu.sr, src, dst, x, size);
        let merged: u32 = merge_value(cpu.read_d(rx), dst.wrapping_sub(src).wrapping_sub(x), size);
        cpu.write_d(rx, merged);
    } else {
        let src: u32 = read_ea(cpu, AddressingMode::AddrPreDec(ry), size, bus);
        let (dst, addr) = read_ea_with_addr(cpu, AddressingMode::AddrPreDec(rx), size, bus);
        set_flags_subx(&mut cpu.sr, src, dst, x, size);
        write_to_addr(bus, addr, size, dst.wrapping_sub(src).wrapping_sub(x));
    }
    size_cycles(size, 8, 4)
}

// ── Multiplication and division ──────────────────────────────────────────

/// A word read as a two's complement number.
pub open spec fn signed_word(w: u32) -> int {
    if w % 0x1_0000 >= 0x8000 {
        w % 0x1_0000 - 0x1_0000
    } else {
        (w % 0x1_0000) as int
    }
}

/// Returns a word read as a two's complement number.
fn word_value(w: u32) -> (r: i64)
    ensures
        r == signed_word(w),
        -0x8000 <= r < 0x8000,
{
    let l: i64 = (w % 0x1_0000) as i64;
    if l >= 0x8000 {
        l - 0x1_0000
    } else {
        l
    }
}

/// A long read as a two's complement number.
pub open spec fn signed_long(v: u32) -> int {
    if v >= 0x8000_0000 {
        v - 0x1_0000_0000
    } else {
        v as int
    }
}

/// The two's complement representation of a number in 32 bits.
pub open spec fn long_bits(v: int) -> u32 {
    (v % 0x1_0000_0000) as u32
}

/// The quotient of two numbers rounded towards zero.
pub open spec fn quotient(a: int, b: int) -> int {
    let q = abs(a) / abs(b);
    if (a < 0) == (b < 0) {
        q
    } else {
        -q
    }
}

/// The remainder that belongs to [`quotient`]; it has the sign of the dividend.
pub open spec fn remainder(a: int, b: int) -> int {
    let r = abs(a) % abs(b);
    if a < 0 {
        -r
    } else {
        r
    }
}

/// The absolute value.
pub open spec fn abs(a: int) -> int {
    if a < 0 {
        -a
    } else {
        a
    }
}

/// Quotient and remainder rebuild the dividend, the remainder is smaller than
/// the divisor and has the sign of the dividend.
pub proof fn law_truncated_division(a: int, b: int)
    requires
        b != 0,
    ensures
        quotient(a, b) * b + remainder(a, b) == a,
        abs(remainder(a, b)) < abs(b),
        remainder(a, b) == 0 || (remainder(a, b) < 0) == (a < 0),
{
    let x = abs(a);
    let y = abs(b);
    let q = x / y;
    vstd::arithmetic::div_mod::lemma_fundamental_div_mod(x, y);
    vstd::arithmetic::div_mod::lemma_mod_bound(x, y);
    assert(y * q == q * y) by (nonlinear_arith);
    if b < 0 {
        assert(q * (-b) == -(q * b)) by (nonlinear_arith);
        assert((-q) * b == -(q * b)) by (nonlinear_arith);
    } else {
        assert((-q) * b == -(q * b)) by (nonlinear_arith);
    }
}

/// Divides two numbers, rounding towards zero.
fn divide(a: i64, b: i64) -> (r: (i64, i64))
    requires
        b != 0,
        -0x8000_0000 <= a < 0x8000_0000,
        -0x8000 <= b < 0x8000,
    ensures
        r.0 == quotient(a as int, b as int),
        r.1 == remainder(a as int, b as int),
        -0x8000 < r.1 < 0x8000,
{
    let x: u64 = if a < 0 {
        (0 - a) as u64
    } else {
        a as u64
    };
    let y: u64 = if b < 0 {
        (0 - b) as u64
    } else {
        b as u64
    };
    let q: i64 = (x / y) as i64;
    let rem: i64 = (x % y) as i64;
    proof {
        vstd::arithmetic::div_mod::lemma_div_is_ordered_by_denominator(x as int, 1, y as int);
        vstd::arithmetic::div_mod::lemma_mod_bound(x as int, y as int);
        assert(x / 1 == x);
    }
    let quot: i64 = if (a < 0) == (b < 0) {
        q
    } else {
        0 - q
    };
    let remd: i64 = if a < 0 {
        0 - rem
    } else {
        rem
    };
    (quot, remd)
}

/// The two's complement representation of a number in 16 bits.
fn word_bits(v: i64) -> (r: u32)
    requires
        -0x8000 <= v < 0x8000,
    ensures
        r == v as int % 0x1_0000,
        r < 0x1_0000,
{
    if v < 0 {
        (v + 0x1_0000) as u32
    } else {
        v as u32
    }
}

/// MULU: the unsigned product of two words.
pub open spec fn mulu_sem<B: Bus>(s: Machine<B::Model>, opcode: u16) -> (u32, Machine<B::Model>) {
    let reg = reg_high_of(opcode) as int;
    let (val, s1) = read_ea_sem::<B>(s, src_ea_of(opcode), InstructionSize::Word);
    let product = ((val % 0x1_0000) * (s1.cpu.d[reg] % 0x1_0000)) as u32;
    let c1 = s1.cpu.write_d(reg, product);
    (70, s1.with_cpu(c1.with_sr(nz_flags(c1.sr, product, InstructionSize::Long))))
}

/// MULU: the unsigned product of two words.
pub fn exec_mulu<B: Bus>(cpu: &mut Cpu, opcode: u16, bus: &mut B) -> (r: u32)
    requires
        old(bus).valid(),
    ensures
        final(bus).valid(),
        (r, machine(*final(cpu), *final(bus))) == mulu_sem::<B>(
            machine(*old(cpu), *old(bus)),
            opcode,
        ),
{
    let reg: u8 = reg_high(opcode);
    let val: u32 = read_ea(cpu, src_ea(opcode), InstructionSize::Word, bus) % 0x1_0000;
    let dst: u32 = cpu.read_d(reg) % 0x1_0000;
    assert(val * dst <= 0xFFFF * 0xFFFF) by (nonlinear_arith)
        requires
            0 <= val <= 0xFFFF,
            0 <= dst <= 0xFFFF,
    ;
    let product: u32 = val * dst;
    cpu.write_d(reg, product);
    set_flags_nz(&mut cpu.sr, product, InstructionSize::Long);
    70
}

/// MULS: the signed product of two words.
pub open spec fn muls_sem<B: Bus>(s: Machine<B::Model>, opcode: u16) -> (u32, Machine<B::Model>) {
    let reg = reg_high_of(opcode) as int;
    let (val, s1) = read_ea_sem::<B>(s, src_ea_of(opcode), InstructionSize::Word);
    let product = long_bits(signed_word(val) * signed_word(s1.cpu.d[reg]));
    let c1 = s1.cpu.write_d(reg, product);
    (70, s1.with_cpu(c1.with_sr(nz_flags(c1.sr, product, InstructionSize::Long))))
}

/// MULS: the signed product of two words.
pub fn exec_muls<B: Bus>(cpu: &mut Cpu, opcode: u16, bus: &mut B) -> (r: u32)
    requires
        old(bus).valid(),
    ensures
        final(bus).valid(),
        (r, machine(*final(cpu), *final(bus))) == muls_sem::<B>(
            machine(*old(cpu), *old(bus)),
            opcode,
        ),
{
    let reg: u8 = reg_high(opcode);
    let src: i64 = word_value(read_ea(cpu, src_ea(opcode), InstructionSize::Word, bus));
    let dst: i64 = word_value(cpu.read_d(reg));
    assert(-0x4000_0000 <= src * dst <= 0x4000_0000) by (nonlinear_arith)
        requires
            -0x8000 <= src < 0x8000,
            -0x8000 <= dst < 0x8000,
    ;
    let p: i64 = src * dst;
    let product: u32 = if p < 0 {
        (p + 0x1_0000_0000) as u32
    } else {
        p as u32
    };
    cpu.write_d(reg, product);
    set_flags_nz(&mut cpu.sr, product, InstructionSize::Long);
    70
}

/// DIVU: quotient (low word) and remainder (high word) of a long by a word. A zero divisor traps; a quotient that needs more than 16 bits leaves the register alone and sets N and V.
pub open spec fn divu_sem<B: Bus>(s: Machine<B::Model>, opcode: u16) -> (u32, Machine<B::Model>) {
    let reg = reg_high_of(opcode) as int;
    let (val, s1) = read_ea_sem::<B>(s, src_ea_of(opcode), InstructionSize::Word);
    let divisor = val % 0x1_0000;
    let dividend = s1.cpu.d[reg];
    if divisor == 0 {
        (38, exception_sem::<B>(s1, 5))
    } else {
        let q = dividend / divisor;
        let c1 = if q > 0xFFFF {
            s1.cpu.with_sr(nzvc(s1.cpu.sr, true, false, true, false))
        } else {
            let c = s1.cpu.write_d(reg, ((dividend % divisor) * 0x1_0000 + q) as u32);
            c.with_sr(nzvc(c.sr, q >= 0x8000, q == 0, false, false))
        };
        (140, s1.with_cpu(c1))
    }
}

/// DIVU: quotient (low word) and remainder (high word) of a long by a word. A zero divisor traps; a quotient that needs more than 16 bits leaves the register alone and sets N and V.
pub fn exec_divu<B: Bus>(cpu: &mut Cpu, opcode: u16, bus: &mut B) -> (r: u32)
    requires
        old(bus).valid(),
    ensures
        final(bus).valid(),
        (r, machine(*final(cpu), *final(bus))) == divu_sem::<B>(
            machine(*old(cpu), *old(bus)),
            opcode,
        ),
{
    let reg: u8 = reg_high(opcode);
    let divisor: u32 = read_ea(cpu, src_ea(opcode), InstructionSize::Word, bus) % 0x1_0000;
    let dividend: u32 = cpu.read_d(reg);
    if divisor == 0 {
        exec_exception(cpu, bus, 5);
        return 38;
    }
    let q: u32 = dividend / divisor;
    let rem: u32 = dividend % divisor;
    if q > 0xFFFF {
        set_nzvc(&mut cpu.sr, true, false, true, false);
    } else {
        cpu.write_d(reg, rem * 0x1_0000 + q);
        set_nzvc(&mut cpu.sr, q >= 0x8000, q == 0, false, false);
    }
    140
}

/// DIVS: signed quotient (low word) and remainder (high word) of a long by a word, rounded towards zero. A zero divisor traps; a quotient that does not fit 16 bits leaves the register alone and sets N and V.
pub open spec fn divs_sem<B: Bus>(s: Machine<B::Model>, opcode: u16) -> (u32, Machine<B::Model>) {
    let reg = reg_high_of(opcode) as int;
    let (val, s1) = read_ea_sem::<B>(s, src_ea_of(opcode), InstructionSize::Word);
    let divisor = signed_word(val);
    let dividend = signed_long(s1.cpu.d[reg]);
    if divisor == 0 {
        (38, exception_sem::<B>(s1, 5))
    } else {
        let q = quotient(dividend, divisor);
        let c1 = if q < -0x8000 || q > 0x7FFF {
            s1.cpu.with_sr(nzvc(s1.cpu.sr, true, false, true, false))
        } else {
            let c = s1.cpu.write_d(
                reg,
                ((remainder(dividend, divisor) % 0x1_0000) * 0x1_0000 + q % 0x1_0000) as u32,
            );
            c.with_sr(nzvc(c.sr, q < 0, q == 0, false, false))
        };
        (158, s1.with_cpu(c1))
    }
}

/// DIVS: signed quotient (low word) and remainder (high word) of a long by a word, rounded towards zero. A zero divisor traps; a quotient that does not fit 16 bits leaves the register alone and sets N and V.
pub fn exec_divs<B: Bus>(cpu: &mut Cpu, opcode: u16, bus: &mut B) -> (r: u32)
    requires
        old(bus).valid(),
    ensures
        final(bus).valid(),
        (r, machine(*final(cpu), *final(bus))) == divs_sem::<B>(
            machine(*old(cpu), *old(bus)),
            opcode,
        ),
{
    let reg: u8 = reg_high(opcode);
    let divisor: i64 = word_value(read_ea(cpu, src_ea(opcode), InstructionSize::Word, bus));
    let raw: i64 = cpu.read_d(reg) as i64;
    let dividend: i64 = if raw >= 0x8000_0000 {
        raw - 0x1_0000_0000
    } else {
        raw
    };
    if divisor == 0 {
        exec_exception(cpu, bus, 5);
        return 38;
    }
    let (q, rem) = divide(dividend, divisor);
    if q < -0x8000 || q > 0x7FFF {
        set_nzvc(&mut cpu.sr, true, false, true, false);
    } else {
        cpu.write_d(reg, word_bits(rem) * 0x1_0000 + word_bits(q));
        set_nzvc(&mut cpu.sr, q < 0, q == 0, false, false);
    }
    158
}

// ── One-operand arithmetic and logic ─────────────────────────────────────

/// Cycles of a one-operand instruction: faster on a data register.
pub open spec fn unary_cycles(ea: AddressingMode, size: InstructionSize) -> u32 {
    match ea {
        AddressingMode::DataDirect(_) => cycles_by_size(size, 6, 4),
        _ => cycles_by_size(size, 12, 8),
    }
}

/// Returns the cycles of a one-operand instruction.
fn cycles_of_unary(ea: AddressingMode, size: InstructionSize) -> (r: u32)
    ensures
        r == unary_cycles(ea, size),
{
    match ea {
        AddressingMode::DataDirect(_) => size_cycles(size, 6, 4),
        _ => size_cycles(size, 12, 8),
    }
}

/// CLR: writes zero to an operand and sets Z alone.
pub open spec fn clr_sem<B: Bus>(s: Machine<B::Model>, opcode: u16, size: InstructionSize) -> (u32, Machine<B::Model>) {
    let ea = src_ea_of(opcode);
    let s1 = write_ea_sem::<B>(s, ea, size, 0);
    let cycles = match ea {
        AddressingMode::DataDirect(_) => 4u32,
        _ => cycles_by_size(size, 12, 8),
    };
    (cycles, s1.with_sr(nzvc(s1.cpu.sr, false, true, false, false)))
}

/// CLR: writes zero to an operand and sets Z alone.
pub fn exec_clr<B: Bus>(cpu: &mut Cpu, opcode: u16, size: InstructionSize, bus: &mut B) -> (r: u32)
    requires
        old(bus).valid(),
    ensures
        final(bus).valid(),
        (r, machine(*final(cpu), *final(bus))) == clr_sem::<B>(
            machine(*old(cpu), *old(bus)),
            opcode,
            size,
        ),
{
    let ea = src_ea(opcode);
    write_ea(cpu, ea, size, bus, 0);
    set_nzvc(&mut cpu.sr, false, true, false, false);
    match ea {
        AddressingMode::DataDirect(_) => 4,
        _ => size_cycles(size, 12, 8),
    }
}

/// NEG: subtracts an operand from zero in place.
pub open spec fn neg_sem<B: Bus>(s: Machine<B::Model>, opcode: u16, size: InstructionSize) -> (u32, Machine<B::Model>) {
    let ea = src_ea_of(opcode);
    let (val, addr, s1) = read_ea_with_addr_sem::<B>(s, ea, size);
    let s2 = s1.with_sr(sub_flags(s1.cpu.sr, val, 0, size));
    (unary_cycles(ea, size), write_back_sem::<B>(s2, ea, addr, size, 0u32.wrapping_sub(val)))
}

/// NEG: subtracts an operand from zero in place.
pub fn exec_neg<B: Bus>(cpu: &mut Cpu, opcode: u16, size: InstructionSize, bus: &mut B) -> (r: u32)
    requires
        old(bus).valid(),
    ensures
        final(bus).valid(),
        (r, machine(*final(cpu), *final(bus))) == neg_sem::<B>(
            machine(*old(cpu), *old(bus)),
            opcode,
            size,
        ),
{
    let ea = src_ea(opcode);
    let (val, addr) = read_ea_with_addr(cpu, ea, size, bus);
    set_flags_sub(&mut cpu.sr, val, 0, size);
    write_back(cpu, ea, addr, size, bus, 0u32.wrapping_sub(val));
    cycles_of_unary(ea, size)
}

/// NEGX: subtracts an operand and the extend flag from zero in place.
pub open spec fn negx_sem<B: Bus>(s: Machine<B::Model>, opcode: u16, size: InstructionSize) -> (u32, Machine<B::Model>) {
    let ea = src_ea_of(opcode);
    let (val, addr, s1) = read_ea_with_addr_sem::<B>(s, ea, size);
    let x = extend_bit(s1.cpu.sr);
    let s2 = s1.with_sr(subx_flags(s1.cpu.sr, val, 0, x, size));
    (
        unary_cycles(ea, size),
        write_back_sem::<B>(s2, ea, addr, size, 0u32.wrapping_sub(val).wrapping_sub(x)),
    )
}

/// NEGX: subtracts an operand and the extend flag from zero in place.
pub fn exec_negx<B: Bus>(cpu: &mut Cpu, opcode: u16, size: InstructionSize, bus: &mut B) -> (r: u32)
    requires
        old(bus).valid(),
    ensures
        final(bus).valid(),
        (r, machine(*final(cpu), *final(bus))) == negx_sem::<B>(
            machine(*old(cpu), *old(bus)),
            opcode,
            size,
        ),
{
    let ea = src_ea(opcode);
    let (val, addr) = read_ea_with_addr(cpu, ea, size, bus);
    let x: u32 = extend_value(cpu.sr);
    set_flags_subx(&mut cpu.sr, val, 0, x, size);
    write_back(cpu, ea, addr, size, bus, 0u32.wrapping_sub(val).wrapping_sub(x));
    cycles_of_unary(ea, size)
}

/// NOT: complements an operand in place.
pub open spec fn not_sem<B: Bus>(s: Machine<B::Model>, opcode: u16, size: InstructionSize) -> (u32, Machine<B::Model>) {
    let ea = src_ea_of(opcode);
    let (val, addr, s1) = read_ea_with_addr_sem::<B>(s, ea, size);
    let s2 = s1.with_sr(nz_flags(s1.cpu.sr, !val, size));
    (unary_cycles(ea, size), write_back_sem::<B>(s2, ea, addr, size, !val))
}

/// NOT: complements an operand in place.
pub fn exec_not<B: Bus>(cpu: &mut Cpu, opcode: u16, size: InstructionSize, bus: &mut B) -> (r: u32)
    requires
        old(bus).valid(),
    ensures
        final(bus).valid(),
        (r, machine(*final(cpu), *final(bus))) == not_sem::<B>(
            machine(*old(cpu), *old(bus)),
            opcode,
            size,
        ),
{
    let ea = src_ea(opcode);
    let (val, addr) = read_ea_with_addr(cpu, ea, size, bus);
    set_flags_nz(&mut cpu.sr, !val, size);
    write_back(cpu, ea, addr, size, bus, !val);
    cycles_of_unary(ea, size)
}

/// EXT: sign-extends the byte of a data register to a word, or its word to a long.
pub open spec fn ext_sem(c: CpuState, opcode: u16, size: InstructionSize) -> (u32, CpuState) {
    let reg = reg_low_of(opcode) as int;
    let c1 = match size {
        InstructionSize::Word => {
            let val = extend_byte((c.d[reg] % 0x100) as u8);
            c.write_d(reg, merge(c.d[reg], val, size)).with_sr(nz_flags(c.sr, val, size))
        },
        InstructionSize::Long => {
            let val = extend_word((c.d[reg] % 0x1_0000) as u16);
            c.write_d(reg, val).with_sr(nz_flags(c.sr, val, size))
        },
        InstructionSize::Byte => c,
    };
    (4, c1)
}

/// EXT: sign-extends the byte of a data register to a word, or its word to a long.
pub fn exec_ext(cpu: &mut Cpu, opcode: u16, size: InstructionSize) -> (r: u32)
    ensures
        (r, final(cpu)@) == ext_sem(old(cpu)@, opcode, size),
{
    let reg: u8 = reg_low(opcode);
    let old_value: u32 = cpu.read_d(reg);
    match size {
        InstructionSize::Word => {
            let val: u32 = sign_extend_byte((old_value % 0x100) as u8);
            cpu.write_d(reg, merge_value(old_value, val, size));
            set_flags_nz(&mut cpu.sr, val, size);
        },
        InstructionSize::Long => {
            let val: u32 = sign_extend_word((old_value % 0x1_0000) as u16);
            cpu.write_d(reg, val);
            set_flags_nz(&mut cpu.sr, val, size);
        },
        InstructionSize::Byte => {},
    }
    4
}

// ── Decimal arithmetic ───────────────────────────────────────────────────

/// The status word after a decimal operation: Z is only ever cleared.
pub open spec fn bcd_flags(sr: u16, r: BcdResult) -> u16 {
    xnzvc(
        sr,
        r.carry,
        r.value >= 0x80,
        r.value == 0 && has_flag(sr, StatusRegister::Z),
        r.overflow,
        r.carry,
    )
}

/// Sets the condition codes of a decimal operation.
fn set_flags_bcd(sr: &mut StatusRegister, r: BcdResult)
    ensures
        final(sr).0 == bcd_flags(old(sr).0, r),
{
    let old_z: bool = sr.flag(StatusRegister::Z);
    set_xnzvc(sr, r.carry, r.value >= 0x80, r.value == 0 && old_z, r.overflow, r.carry);
}

/// The step of a decimal operand in memory: the stack pointer moves by two.
pub open spec fn bcd_step(reg: u8) -> u32 {
    if reg == 7 {
        2
    } else {
        1
    }
}

/// The operands of ABCD and SBCD: two data registers, or two pre-decremented
/// memory bytes.
pub open spec fn bcd_operands_sem<B: Bus>(s: Machine<B::Model>, opcode: u16) -> (
    u8,
    u8,
    Machine<B::Model>,
) {
    let rx = reg_high_of(opcode);
    let ry = reg_low_of(opcode);
    if !bit_of(opcode, 8) {
        ((s.cpu.d[ry as int] % 0x100) as u8, (s.cpu.d[rx as int] % 0x100) as u8, s)
    } else {
        let src_addr = s.cpu.read_a(ry as int).wrapping_sub(bcd_step(ry));
        let c1 = s.cpu.write_a(ry as int, src_addr);
        let dst_addr = c1.read_a(rx as int).wrapping_sub(bcd_step(rx));
        let c2 = c1.write_a(rx as int, dst_addr);
        let (src, m1) = B::read_byte_model(s.bus, bus_addr(src_addr));
        let (dst, m2) = B::read_byte_model(m1, bus_addr(dst_addr));
        (src, dst, Machine { cpu: c2, bus: m2 })
    }
}

/// Reads the operands of ABCD and SBCD.
fn bcd_operands<B: Bus>(cpu: &mut Cpu, opcode: u16, bus: &mut B) -> (r: (u8, u8))
    requires
        old(bus).valid(),
    ensures
        final(bus).valid(),
        (r.0, r.1, machine(*final(cpu), *final(bus))) == bcd_operands_sem::<B>(
            machine(*old(cpu), *old(bus)),
            opcode,
        ),
{
    let rx: u8 = reg_high(opcode);
    let ry: u8 = reg_low(opcode);
    if !bit(opcode, 8) {
        ((cpu.read_d(ry) % 0x100) as u8, (cpu.read_d(rx) % 0x100) as u8)
    } else {
        let dec_y: u32 = if ry == 7 {
            2
        } else {
            1
        };
        let dec_x: u32 = if rx == 7 {
            2
        } else {
            1
        };
        let src_addr: u32 = cpu.read_a(ry).wrapping_sub(dec_y);
        cpu.write_a(ry, src_addr);
        let dst_addr: u32 = cpu.read_a(rx).wrapping_sub(dec_x);
        cpu.write_a(rx, dst_addr);
        let src: u8 = bus.read_byte(src_addr % 0x0100_0000);
        let dst: u8 = bus.read_byte(dst_addr % 0x0100_0000);
        (src, dst)
    }
}

/// The machine after the result of ABCD or SBCD is stored.
pub open spec fn bcd_store_sem<B: Bus>(s: Machine<B::Model>, opcode: u16, r: BcdResult) -> (
    u32,
    Machine<B::Model>,
) {
    let rx = reg_high_of(opcode) as int;
    let c1 = s.cpu.with_sr(bcd_flags(s.cpu.sr, r));
    if !bit_of(opcode, 8) {
        (
            6,
            s.with_cpu(
                c1.write_d(rx, merge(c1.d[rx], r.value as u32, InstructionSize::Byte)),
            ),
        )
    } else {
        (
            18,
            Machine {
                cpu: c1,
                bus: B::write_byte_model(s.bus, bus_addr(c1.read_a(rx)), r.value),
            },
        )
    }
}

/// Stores the result of ABCD or SBCD.
fn bcd_store<B: Bus>(cpu: &mut Cpu, opcode: u16, r: BcdResult, bus: &mut B) -> (cycles: u32)
    requires
        old(bus).valid(),
    ensures
        final(bus).valid(),
        (cycles, machine(*final(cpu), *final(bus))) == bcd_store_sem::<B>(
            machine(*old(cpu), *old(bus)),
            opcode,
            r,
        ),
{
    let rx: u8 = reg_high(opcode);
    set_flags_bcd(&mut cpu.sr, r);
    if !bit(opcode, 8) {
        let merged: u32 = merge_value(cpu.read_d(rx), r.value as u32, InstructionSize::Byte);
        cpu.write_d(rx, merged);
        6
    } else {
        let dst_addr: u32 = cpu.read_a(rx);
        bus.write_byte(dst_addr % 0x0100_0000, r.value);
        18
    }
}

/// ABCD: decimal sum with the extend flag.
pub open spec fn abcd_sem<B: Bus>(s: Machine<B::Model>, opcode: u16) -> (u32, Machine<B::Model>) {
    let (src, dst, s1) = bcd_operands_sem::<B>(s, opcode);
    bcd_store_sem::<B>(s1, opcode, bcd_add_sem(src, dst, extend_bit(s1.cpu.sr) as u16))
}

/// ABCD: decimal sum with the extend flag.
pub fn exec_abcd<B: Bus>(cpu: &mut Cpu, opcode: u16, bus: &mut B) -> (r: u32)
    requires
        old(bus).valid(),
    ensures
        final(bus).valid(),
        (r, machine(*final(cpu), *final(bus))) == abcd_sem::<B>(
            machine(*old(cpu), *old(bus)),
            opcode,
        ),
{
    let (src, dst) = bcd_operands(cpu, opcode, bus);
    let r: BcdResult = bcd_add(src, dst, extend_value(cpu.sr) as u16);
    bcd_store(cpu, opcode, r, bus)
}

/// SBCD: decimal difference with the extend flag.
pub open spec fn sbcd_sem<B: Bus>(s: Machine<B::Model>, opcode: u16) -> (u32, Machine<B::Model>) {
    let (src, dst, s1) = bcd_operands_sem::<B>(s, opcode);
    bcd_store_sem::<B>(s1, opcode, bcd_sub_sem(src, dst, extend_bit(s1.cpu.sr) as u16))
}

/// SBCD: decimal difference with the extend flag.
pub fn exec_sbcd<B: Bus>(cpu: &mut Cpu, opcode: u16, bus: &mut B) -> (r: u32)
    requires
        old(bus).valid(),
    ensures
        final(bus).valid(),
        (r, machine(*final(cpu), *final(bus))) == sbcd_sem::<B>(
            machine(*old(cpu), *old(bus)),
            opcode,
        ),
{
    let (src, dst) = bcd_operands(cpu, opcode, bus);
    let r: BcdResult = bcd_sub(src, dst, extend_value(cpu.sr) as u16);
    bcd_store(cpu, opcode, r, bus)
}

/// NBCD: subtracts a decimal operand and the extend flag from zero in place.
pub open spec fn nbcd_sem<B: Bus>(s: Machine<B::Model>, opcode: u16) -> (u32, Machine<B::Model>) {
    let ea = src_ea_of(opcode);
    let (val, addr, s1) = read_ea_with_addr_sem::<B>(s, ea, InstructionSize::Byte);
    let r = bcd_sub_sem((val % 0x100) as u8, 0, extend_bit(s1.cpu.sr) as u16);
    let c1 = s1.cpu.with_sr(bcd_flags(s1.cpu.sr, r));
    match ea {
        AddressingMode::DataDirect(reg) => (
            6,
            s1.with_cpu(
                c1.write_d(
                    reg as int,
                    merge(c1.d[reg as int], r.value as u32, InstructionSize::Byte),
                ),
            ),
        ),
        _ => (
            8,
            Machine { cpu: c1, bus: B::write_byte_model(s1.bus, bus_addr(addr), r.value) },
        ),
    }
}

/// NBCD: subtracts a decimal operand and the extend flag from zero in place.
pub fn exec_nbcd<B: Bus>(cpu: &mut Cpu, opcode: u16, bus: &mut B) -> (r: u32)
    requires
        old(bus).valid(),
    ensures
        final(bus).valid(),
        (r, machine(*final(cpu), *final(bus))) == nbcd_sem::<B>(
            machine(*old(cpu), *old(bus)),
            opcode,
        ),
{
    let ea = src_ea(opcode);
    let (val, addr) = read_ea_with_addr(cpu, ea, InstructionSize::Byte, bus);
    let r: BcdResult = bcd_sub((val % 0x100) as u8, 0, extend_value(cpu.sr) as u16);
    set_flags_bcd(&mut cpu.sr, r);
    match ea {
        AddressingMode::DataDirect(reg) => {
            let merged: u32 = merge_value(cpu.read_d(reg), r.value as u32, InstructionSize::Byte);
            cpu.write_d(reg, merged);
            6
        },
        _ => {
            bus.write_byte(addr % 0x0100_0000, r.value);
            8
        },
    }
}

// ── Bounds check and test-and-set ────────────────────────────────────────

/// CHK: traps unless the word of a data register lies between zero and a bound. N tells that it was negative.
pub open spec fn chk_sem<B: Bus>(s: Machine<B::Model>, opcode: u16) -> (u32, Machine<B::Model>) {
    let reg = reg_high_of(opcode) as int;
    let (val, s1) = read_ea_sem::<B>(s, src_ea_of(opcode), InstructionSize::Word);
    let upper = val % 0x1_0000;
    let checked = s1.cpu.d[reg] % 0x1_0000;
    if checked >= 0x8000 {
        (40, exception_sem::<B>(s1.with_sr(nzvc(s1.cpu.sr, true, false, false, false)), 6))
    } else if checked > upper {
        (40, exception_sem::<B>(s1.with_sr(nzvc(s1.cpu.sr, false, false, false, false)), 6))
    } else {
        (10, s1.with_sr(nzvc(s1.cpu.sr, false, checked == 0, false, false)))
    }
}

/// CHK: traps unless the word of a data register lies between zero and a bound. N tells that it was negative.
pub fn exec_chk<B: Bus>(cpu: &mut Cpu, opcode: u16, bus: &mut B) -> (r: u32)
    requires
        old(bus).valid(),
    ensures
        final(bus).valid(),
        (r, machine(*final(cpu), *final(bus))) == chk_sem::<B>(
            machine(*old(cpu), *old(bus)),
            opcode,
        ),
{
    let reg: u8 = reg_high(opcode);
    let upper: u32 = read_ea(cpu, src_ea(opcode), InstructionSize::Word, bus) % 0x1_0000;
    let checked: u32 = cpu.read_d(reg) % 0x1_0000;
    if checked >= 0x8000 {
        set_nzvc(&mut cpu.sr, true, false, false, false);
        exec_exception(cpu, bus, 6);
        40
    } else if checked > upper {
        set_nzvc(&mut cpu.sr, false, false, false, false);
        exec_exception(cpu, bus, 6);
        40
    } else {
        set_nzvc(&mut cpu.sr, false, checked == 0, false, false);
        10
    }
}

/// TAS: sets N and Z from a byte, then sets its bit 7.
pub open spec fn tas_sem<B: Bus>(s: Machine<B::Model>, opcode: u16) -> (u32, Machine<B::Model>) {
    let ea = src_ea_of(opcode);
    let (val, addr, s1) = read_ea_with_addr_sem::<B>(s, ea, InstructionSize::Byte);
    let byte = (val % 0x100) as u8;
    let result = byte | 0x80;
    let c1 = s1.cpu.with_sr(nzvc(s1.cpu.sr, byte >= 0x80, byte == 0, false, false));
    match ea {
        AddressingMode::DataDirect(reg) => (
            4,
            s1.with_cpu(
                c1.write_d(
                    reg as int,
                    merge(c1.d[reg as int], result as u32, InstructionSize::Byte),
                ),
            ),
        ),
        _ => (
            14,
            Machine { cpu: c1, bus: B::write_byte_model(s1.bus, bus_addr(addr), result) },
        ),
    }
}

/// TAS: sets N and Z from a byte, then sets its bit 7.
pub fn exec_tas<B: Bus>(cpu: &mut Cpu, opcode: u16, bus: &mut B) -> (r: u32)
    requires
        old(bus).valid(),
    ensures
        final(bus).valid(),
        (r, machine(*final(cpu), *final(bus))) == tas_sem::<B>(
            machine(*old(cpu), *old(bus)),
            opcode,
        ),
{
    let ea = src_ea(opcode);
    let (val, addr) = read_ea_with_addr(cpu, ea, InstructionSize::Byte, bus);
    let byte: u8 = (val % 0x100) as u8;
    let result: u8 = byte | 0x80;
    set_nzvc(&mut cpu.sr, byte >= 0x80, byte == 0, false, false);
    match ea {
        AddressingMode::DataDirect(reg) => {
            let merged: u32 = merge_value(cpu.read_d(reg), result as u32, InstructionSize::Byte);
            cpu.write_d(reg, merged);
            4
        },
        _ => {
            bus.write_byte(addr % 0x0100_0000, result);
            14
        },
    }
}

} // verus!
