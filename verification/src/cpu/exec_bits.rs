//! Bit manipulation and comparison instructions of the 68000.
use vstd::prelude::*;

use super::decode::{
    bit, bit_of, reg_high, reg_high_of, reg_low, reg_low_of, AddressingMode, InstructionSize,
};
use super::engine::Cpu;
use super::exec_alu::{cycles_by_size, size_cycles};
use super::flags::{compare_flags, nz_flags, set_flags_compare, set_flags_nz};
use super::operand::{
    extend, fetch_immediate, fetch_immediate_sem, fetch_word, fetch_word_sem, low, machine,
    mask_value, read_ea, read_ea_sem, read_ea_with_addr, read_ea_with_addr_sem, sign_extend, src_ea,
    src_ea_of, write_addr_sem, write_to_addr, Bus, Machine,
};
use super::{with_flag, StatusRegister};

verus! {

// ── Bit manipulation ─────────────────────────────────────────────────────

/// What a bit instruction does to the tested bit.
#[derive(Debug, Clone, Copy, PartialEq, Eq, Structural)]
pub enum BitOp {
    /// BTST: leaves it.
    TestBit,
    /// BSET: sets it.
    SetBit,
    /// BCLR: clears it.
    ClearBit,
    /// BCHG: inverts it.
    ChangeBit,
}

/// The operand after a bit instruction on the bits of `mask`.
pub open spec fn bit_result(op: BitOp, val: u32, mask: u32) -> u32 {
    match op {
        BitOp::TestBit => val,
        BitOp::SetBit => val | mask,
        BitOp::ClearBit => val & !mask,
        BitOp::ChangeBit => val ^ mask,
    }
}

/// Applies a bit instruction on the bits of `mask`.
fn apply_bit(op: BitOp, val: u32, mask: u32) -> (r: u32)
    ensures
        r == bit_result(op, val, mask),
{
    match op {
        BitOp::TestBit => val,
        BitOp::SetBit => val | mask,
        BitOp::ClearBit => val & !mask,
        BitOp::ChangeBit => val ^ mask,
    }
}

/// Cycles of a bit instruction on a data register.
pub open spec fn bit_register_cycles(op: BitOp) -> u32 {
    match op {
        BitOp::TestBit => 4,
        BitOp::SetBit => 8,
        BitOp::ClearBit => 10,
        BitOp::ChangeBit => 8,
    }
}

/// The bit number of a bit instruction: a data register, or the next word.
pub open spec fn bit_number_sem<B: Bus>(s: Machine<B::Model>, opcode: u16) -> (
    u32,
    Machine<B::Model>,
) {
    if bit_of(opcode, 0x100) {
        (s.cpu.d[reg_high_of(opcode) as int], s)
    } else {
        let (w, s1) = fetch_word_sem::<B>(s);
        (w as u32, s1)
    }
}

/// Gets the bit number of a bit instruction.
fn get_bit_number<B: Bus>(cpu: &mut Cpu, opcode: u16, bus: &mut B) -> (r: u32)
    requires
        old(bus).valid(),
    ensures
        final(bus).valid(),
        (r, machine(*final(cpu), *final(bus))) == bit_number_sem::<B>(
            machine(*old(cpu), *old(bus)),
            opcode,
        ),
{
    if bit(opcode, 0x100) {
        cpu.read_d(reg_high(opcode))
    } else {
        fetch_word(cpu, bus) as u32
    }
}

/// BTST, BSET, BCLR, BCHG: Z tells that the bit was clear. Registers have 32
/// bits to number, memory operands are bytes.
pub open spec fn bit_op_sem<B: Bus>(s: Machine<B::Model>, op: BitOp, opcode: u16) -> (
    u32,
    Machine<B::Model>,
) {
    let ea = src_ea_of(opcode);
    let (number, s1) = bit_number_sem::<B>(s, opcode);
    match ea {
        AddressingMode::DataDirect(reg) => {
            let mask = 1u32 << (number % 32);
            let val = s1.cpu.d[reg as int];
            let c1 = s1.cpu.with_sr(with_flag(s1.cpu.sr, StatusRegister::Z, val & mask == 0));
            (
                bit_register_cycles(op),
                if op == BitOp::TestBit {
                    s1.with_cpu(c1)
                } else {
                    s1.with_cpu(c1.write_d(reg as int, bit_result(op, val, mask)))
                },
            )
        },
        _ => {
            let mask = 1u32 << (number % 8);
            let (val, addr, s2) = read_ea_with_addr_sem::<B>(s1, ea, InstructionSize::Byte);
            let s3 = s2.with_sr(with_flag(s2.cpu.sr, StatusRegister::Z, val & mask == 0));
            if op == BitOp::TestBit {
                (8, s3)
            } else {
                (
                    12,
                    s3.with_bus(
                        write_addr_sem::<B>(
                            s3.bus,
                            addr,
                            InstructionSize::Byte,
                            bit_result(op, val, mask),
                        ),
                    ),
                )
            }
        },
    }
}

/// Executes BTST, BSET, BCLR or BCHG.
pub fn exec_bit_op<B: Bus>(cpu: &mut Cpu, op: BitOp, opcode: u16, bus: &mut B) -> (r: u32)
    requires
        old(bus).valid(),
    ensures
        final(bus).valid(),
        (r, machine(*final(cpu), *final(bus))) == bit_op_sem::<B>(
            machine(*old(cpu), *old(bus)),
            op,
            opcode,
        ),
{
    let number: u32 = get_bit_number(cpu, opcode, bus);
    let ea = src_ea(opcode);
    match ea {
        AddressingMode::DataDirect(reg) => {
            let mask: u32 = 1u32 << (number % 32);
            let val: u32 = cpu.read_d(reg);
            cpu.sr.set_flag(StatusRegister::Z, val & mask == 0);
            if op != BitOp::TestBit {
                cpu.write_d(reg, apply_bit(op, val, mask));
            }
            match op {
                BitOp::TestBit => 4,
                BitOp::SetBit => 8,
                BitOp::ClearBit => 10,
                BitOp::ChangeBit => 8,
            }
        },
        _ => {
            let mask: u32 = 1u32 << (number % 8);
            let (val, addr) = read_ea_with_addr(cpu, ea, InstructionSize::Byte, bus);
            cpu.sr.set_flag(StatusRegister::Z, val & mask == 0);
            if op == BitOp::TestBit {
                8
            } else {
                write_to_addr(bus, addr, InstructionSize::Byte, apply_bit(op, val, mask));
                12
            }
        },
    }
}

/// After BSET the bit tests as set and after BCLR as clear, and BCHG twice
/// gives the operand back. No other bit changes.
pub proof fn law_bit_operations(val: u32, bit: u32, other: u32)
    requires
        bit < 32,
        other < 32,
        bit != other,
    ensures
        ({
            let mask = 1u32 << bit;
            let keep = 1u32 << other;
            &&& bit_result(BitOp::SetBit, val, mask) & mask != 0
            &&& bit_result(BitOp::ClearBit, val, mask) & mask == 0
            &&& bit_result(BitOp::ChangeBit, bit_result(BitOp::ChangeBit, val, mask), mask) == val
            &&& bit_result(BitOp::SetBit, val, mask) & keep == val & keep
            &&& bit_result(BitOp::ClearBit, val, mask) & keep == val & keep
            &&& bit_result(BitOp::ChangeBit, val, mask) & keep == val & keep
        }),
{
    lemma_bit_operations(val, bit, other);
}

proof fn lemma_bit_operations(val: u32, bit: u32, other: u32)
    by (bit_vector)
    requires
        bit < 32,
        other < 32,
        bit != other,
    ensures
        (val | (1u32 << bit)) & (1u32 << bit) != 0,
        (val & !(1u32 << bit)) & (1u32 << bit) == 0,
        (val ^ (1u32 << bit)) ^ (1u32 << bit) == val,
        (val | (1u32 << bit)) & (1u32 << other) == val & (1u32 << other),
        (val & !(1u32 << bit)) & (1u32 << other) == val & (1u32 << other),
        (val ^ (1u32 << bit)) & (1u32 << other) == val & (1u32 << other),
{
}

// ── Comparison ───────────────────────────────────────────────────────────

/// CMP: compares a data register with an operand.
pub open spec fn compare_sem<B: Bus>(s: Machine<B::Model>, opcode: u16, size: InstructionSize) -> (u32, Machine<B::Model>) {
    let reg = reg_high_of(opcode) as int;
    let (src, s1) = read_ea_sem::<B>(s, src_ea_of(opcode), size);
    let dst = low(s1.cpu.d[reg], size);
    (cycles_by_size(size, 6, 4), s1.with_sr(compare_flags(s1.cpu.sr, src, dst, size)))
}

/// CMP: compares a data register with an operand.
pub fn exec_compare<B: Bus>(cpu: &mut Cpu, opcode: u16, size: InstructionSize, bus: &mut B) -> (r: u32)
    requires
        old(bus).valid(),
    ensures
        final(bus).valid(),
        (r, machine(*final(cpu), *final(bus))) == compare_sem::<B>(
            machine(*old(cpu), *old(bus)),
            opcode,
            size,
        ),
{
    let reg: u8 = reg_high(opcode);
    let src: u32 = read_ea(cpu, src_ea(opcode), size, bus);
    let dst: u32 = mask_value(cpu.read_d(reg), size);
    set_flags_compare(&mut cpu.sr, src, dst, size);
    size_cycles(size, 6, 4)
}

/// CMPA: compares an address register with a sign-extended operand.
pub open spec fn compare_address_sem<B: Bus>(s: Machine<B::Model>, opcode: u16, size: InstructionSize) -> (u32, Machine<B::Model>) {
    let reg = reg_high_of(opcode) as int;
    let (val, s1) = read_ea_sem::<B>(s, src_ea_of(opcode), size);
    let flags = compare_flags(
        s1.cpu.sr,
        extend(val, size),
        s1.cpu.read_a(reg),
        InstructionSize::Long,
    );
    (6, s1.with_sr(flags))
}

/// CMPA: compares an address register with a sign-extended operand.
pub fn exec_compare_address<B: Bus>(cpu: &mut Cpu, opcode: u16, size: InstructionSize, bus: &mut B) -> (r: u32)
    requires
        old(bus).valid(),
    ensures
        final(bus).valid(),
        (r, machine(*final(cpu), *final(bus))) == compare_address_sem::<B>(
            machine(*old(cpu), *old(bus)),
            opcode,
            size,
        ),
{
    let reg: u8 = reg_high(opcode);
    let val: u32 = read_ea(cpu, src_ea(opcode), size, bus);
    let src: u32 = sign_extend(val, size);
    let dst: u32 = cpu.read_a(reg);
    set_flags_compare(&mut cpu.sr, src, dst, InstructionSize::Long);
    6
}

/// CMPI: compares an operand with an immediate.
pub open spec fn compare_immediate_sem<B: Bus>(s: Machine<B::Model>, opcode: u16, size: InstructionSize) -> (u32, Machine<B::Model>) {
    let (imm, s1) = fetch_immediate_sem::<B>(s, size);
    let (dst, s2) = read_ea_sem::<B>(s1, src_ea_of(opcode), size);
    (cycles_by_size(size, 12, 8), s2.with_sr(compare_flags(s2.cpu.sr, imm, dst, size)))
}

/// CMPI: compares an operand with an immediate.
pub fn exec_compare_immediate<B: Bus>(cpu: &mut Cpu, opcode: u16, size: InstructionSize, bus: &mut B) -> (r: u32)
    requires
        old(bus).valid(),
    ensures
        final(bus).valid(),
        (r, machine(*final(cpu), *final(bus))) == compare_immediate_sem::<B>(
            machine(*old(cpu), *old(bus)),
            opcode,
            size,
        ),
{
    let imm: u32 = fetch_immediate(cpu, size, bus);
    let dst: u32 = read_ea(cpu, src_ea(opcode), size, bus);
    set_flags_compare(&mut cpu.sr, imm, dst, size);
    size_cycles(size, 12, 8)
}

/// CMPM: compares two post-incremented memory operands.
pub open spec fn compare_memory_sem<B: Bus>(s: Machine<B::Model>, opcode: u16, size: InstructionSize) -> (u32, Machine<B::Model>) {
    let (src, s1) = read_ea_sem::<B>(s, AddressingMode::AddrPostInc(reg_low_of(opcode)), size);
    let (dst, s2) = read_ea_sem::<B>(s1, AddressingMode::AddrPostInc(reg_high_of(opcode)), size);
    (cycles_by_size(size, 20, 12), s2.with_sr(compare_flags(s2.cpu.sr, src, dst, size)))
}

/// CMPM: compares two post-incremented memory operands.
pub fn exec_compare_memory<B: Bus>(cpu: &mut Cpu, opcode: u16, size: InstructionSize, bus: &mut B) -> (r: u32)
    requires
        old(bus).valid(),
    ensures
        final(bus).valid(),
        (r, machine(*final(cpu), *final(bus))) == compare_memory_sem::<B>(
            machine(*old(cpu), *old(bus)),
            opcode,
            size,
        ),
{
    let ay: u8 = reg_low(opcode);
    let ax: u8 = reg_high(opcode);
    let src: u32 = read_ea(cpu, AddressingMode::AddrPostInc(ay), size, bus);
    let dst: u32 = read_ea(cpu, AddressingMode::AddrPostInc(ax), size, bus);
    set_flags_compare(&mut cpu.sr, src, dst, size);
    size_cycles(size, 20, 12)
}

/// TST: sets N and Z from an operand.
pub open spec fn tst_sem<B: Bus>(s: Machine<B::Model>, opcode: u16, size: InstructionSize) -> (u32, Machine<B::Model>) {
    let (val, s1) = read_ea_sem::<B>(s, src_ea_of(opcode), size);
    (4, s1.with_sr(nz_flags(s1.cpu.sr, val, size)))
}

/// TST: sets N and Z from an operand.
pub fn exec_tst<B: Bus>(cpu: &mut Cpu, opcode: u16, size: InstructionSize, bus: &mut B) -> (r: u32)
    requires
        old(bus).valid(),
    ensures
        final(bus).valid(),
        (r, machine(*final(cpu), *final(bus))) == tst_sem::<B>(
            machine(*old(cpu), *old(bus)),
            opcode,
            size,
        ),
{
    let val: u32 = read_ea(cpu, src_ea(opcode), size, bus);
    set_flags_nz(&mut cpu.sr, val, size);
    4
}

} // verus!
