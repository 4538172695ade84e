//! Operands of the 68000: sizes, the memory bus, effective addresses and the
//! stack.
//!
//! The behaviour of every function here is a function of the machine it is
//! applied to: the registers and the model of the bus ([`Machine`]).
use vstd::prelude::*;

use super::decode::{
    decode_ea, decode_ea_spec, ea_valid, mode_high, mode_high_of, mode_low, mode_low_of, reg_high,
    reg_high_of, reg_low, reg_low_of, AddressingMode, InstructionSize,
};
use super::engine::{Cpu, CpuState};

verus! {

// ── Bus ──────────────────────────────────────────────────────────────────

/// Memory bus interface for the 68000.
///
/// Implementors provide byte and word access; long accesses are made of two
/// word accesses. Reads may have side effects, so each access is described by
/// a function from the bus model before it to the value and the model after.
pub trait Bus {
    /// Mathematical model of everything that the bus reaches.
    type Model;

    /// The model of this bus.
    spec fn model(&self) -> Self::Model;

    /// The invariant of the implementation.
    spec fn valid(&self) -> bool;

    /// What a byte read returns and leaves behind.
    spec fn read_byte_model(m: Self::Model, addr: u32) -> (u8, Self::Model);

    /// What a word read returns and leaves behind.
    spec fn read_word_model(m: Self::Model, addr: u32) -> (u16, Self::Model);

    /// What a byte write leaves behind.
    spec fn write_byte_model(m: Self::Model, addr: u32, val: u8) -> Self::Model;

    /// What a word write leaves behind.
    spec fn write_word_model(m: Self::Model, addr: u32, val: u16) -> Self::Model;

    /// Reads a byte from the given address.
    fn read_byte(&mut self, addr: u32) -> (r: u8)
        requires
            old(self).valid(),
        ensures
            final(self).valid(),
            (r, final(self).model()) == Self::read_byte_model(old(self).model(), addr),
    ;

    /// Reads a big-endian 16-bit word from the given address.
    fn read_word(&mut self, addr: u32) -> (r: u16)
        requires
            old(self).valid(),
        ensures
            final(self).valid(),
            (r, final(self).model()) == Self::read_word_model(old(self).model(), addr),
    ;

    /// Writes a byte to the given address.
    fn write_byte(&mut self, addr: u32, val: u8)
        requires
            old(self).valid(),
        ensures
            final(self).valid(),
            final(self).model() == Self::write_byte_model(old(self).model(), addr, val),
    ;

    /// Writes a big-endian 16-bit word to the given address.
    fn write_word(&mut self, addr: u32, val: u16)
        requires
            old(self).valid(),
        ensures
            final(self).valid(),
            final(self).model() == Self::write_word_model(old(self).model(), addr, val),
    ;
}

/// The registers together with the model of the bus.
#[verifier::ext_equal]
pub ghost struct Machine<M> {
    pub cpu: CpuState,
    pub bus: M,
}

impl<M> Machine<M> {
    /// The machine with other registers.
    pub open spec fn with_cpu(self, cpu: CpuState) -> Machine<M> {
        Machine { cpu, ..self }
    }

    /// The machine with another bus.
    pub open spec fn with_bus(self, bus: M) -> Machine<M> {
        Machine { bus, ..self }
    }

    /// The machine with another status word.
    pub open spec fn with_sr(self, sr: u16) -> Machine<M> {
        self.with_cpu(self.cpu.with_sr(sr))
    }

    /// The machine with another program counter.
    pub open spec fn with_pc(self, pc: u32) -> Machine<M> {
        self.with_cpu(self.cpu.with_pc(pc))
    }
}

/// The machine made of a CPU and a bus.
pub open spec fn machine<B: Bus>(cpu: Cpu, bus: B) -> Machine<B::Model> {
    Machine { cpu: cpu@, bus: bus.model() }
}

// ── Sizes ────────────────────────────────────────────────────────────────

/// Bytes of an operand: 1, 2 or 4.
pub open spec fn bytes_of(size: InstructionSize) -> u32 {
    match size {
        InstructionSize::Byte => 1,
        InstructionSize::Word => 2,
        InstructionSize::Long => 4,
    }
}

/// Returns the byte count of an operand (1, 2, or 4).
pub fn size_bytes(size: InstructionSize) -> (r: u32)
    ensures
        r == bytes_of(size),
{
    match size {
        InstructionSize::Byte => 1,
        InstructionSize::Word => 2,
        InstructionSize::Long => 4,
    }
}

/// Number of values of an operand: two to the power of its width in bits.
pub open spec fn modulus(size: InstructionSize) -> int {
    match size {
        InstructionSize::Byte => 0x100,
        InstructionSize::Word => 0x1_0000,
        InstructionSize::Long => 0x1_0000_0000,
    }
}

/// Weight of the sign bit of an operand.
pub open spec fn sign_weight(size: InstructionSize) -> u32 {
    match size {
        InstructionSize::Byte => 0x80,
        InstructionSize::Word => 0x8000,
        InstructionSize::Long => 0x8000_0000,
    }
}

/// Returns the mask of the sign bit of an operand.
pub fn msb_mask(size: InstructionSize) -> (r: u32)
    ensures
        r == sign_weight(size),
{
    match size {
        InstructionSize::Byte => 0x80,
        InstructionSize::Word => 0x8000,
        InstructionSize::Long => 0x8000_0000,
    }
}

/// The low bits of `val` that make an operand of the given size.
pub open spec fn low(val: u32, size: InstructionSize) -> u32 {
    match size {
        InstructionSize::Byte => val % 0x100,
        InstructionSize::Word => val % 0x1_0000,
        InstructionSize::Long => val,
    }
}

/// Masks a value to the given size.
pub fn mask_value(val: u32, size: InstructionSize) -> (r: u32)
    ensures
        r == low(val, size),
        r < modulus(size),
        r == val as int % modulus(size),
{
    match size {
        InstructionSize::Byte => val % 0x100,
        InstructionSize::Word => val % 0x1_0000,
        InstructionSize::Long => val,
    }
}

/// The operand in the low bits of `val` is negative.
pub open spec fn negative(val: u32, size: InstructionSize) -> bool {
    low(val, size) >= sign_weight(size)
}

/// Returns whether the operand in the low bits of `val` is negative.
pub fn is_negative(val: u32, size: InstructionSize) -> (r: bool)
    ensures
        r == negative(val, size),
{
    mask_value(val, size) >= msb_mask(size)
}

/// The operand in the low bits of `val`, read as a two's complement number.
pub open spec fn signed(val: u32, size: InstructionSize) -> int {
    if negative(val, size) {
        low(val, size) - modulus(size)
    } else {
        low(val, size) as int
    }
}

/// A 16-bit word sign-extended to 32 bits.
pub open spec fn extend_word(w: u16) -> u32 {
    if w < 0x8000 {
        w as u32
    } else {
        (w + 0xFFFF_0000) as u32
    }
}

/// Sign-extends a 16-bit word to 32 bits.
pub fn sign_extend_word(w: u16) -> (r: u32)
    ensures
        r == extend_word(w),
{
    if w < 0x8000 {
        w as u32
    } else {
        w as u32 + 0xFFFF_0000
    }
}

/// A byte sign-extended to 32 bits.
pub open spec fn extend_byte(b: u8) -> u32 {
    if b < 0x80 {
        b as u32
    } else {
        (b + 0xFFFF_FF00) as u32
    }
}

/// Sign-extends a byte to 32 bits.
pub fn sign_extend_byte(b: u8) -> (r: u32)
    ensures
        r == extend_byte(b),
{
    if b < 0x80 {
        b as u32
    } else {
        b as u32 + 0xFFFF_FF00
    }
}

/// The operand in the low bits of `val`, sign-extended to 32 bits.
pub open spec fn extend(val: u32, size: InstructionSize) -> u32 {
    match size {
        InstructionSize::Byte => extend_byte((val % 0x100) as u8),
        InstructionSize::Word => extend_word((val % 0x1_0000) as u16),
        InstructionSize::Long => val,
    }
}

/// Sign-extends a value of the given size to 32 bits.
pub fn sign_extend(val: u32, size: InstructionSize) -> (r: u32)
    ensures
        r == extend(val, size),
{
    match size {
        InstructionSize::Byte => sign_extend_byte((val % 0x100) as u8),
        InstructionSize::Word => sign_extend_word((val % 0x1_0000) as u16),
        InstructionSize::Long => val,
    }
}

/// The register value `old_value` with its low bits replaced by an operand.
pub open spec fn merge(old_value: u32, val: u32, size: InstructionSize) -> u32 {
    (old_value - low(old_value, size) + low(val, size)) as u32
}

/// Replaces the low bits of a register value by an operand.
pub fn merge_value(old_value: u32, val: u32, size: InstructionSize) -> (r: u32)
    ensures
        r == merge(old_value, val, size),
{
    let kept: u32 = old_value - mask_value(old_value, size);
    let new: u32 = mask_value(val, size);
    assert(kept + new <= 0xFFFF_FFFF) by {
        match size {
            InstructionSize::Byte => {
                assert(kept <= 0xFFFF_FF00);
            },
            InstructionSize::Word => {
                assert(kept <= 0xFFFF_0000);
            },
            InstructionSize::Long => {
                assert(kept == 0);
            },
        }
    }
    kept + new
}

// ── Memory ───────────────────────────────────────────────────────────────

/// The 24 address lines that reach the bus.
pub open spec fn bus_addr(addr: u32) -> u32 {
    addr % 0x0100_0000
}

/// The even address of a word access.
pub open spec fn even_addr(addr: u32) -> u32 {
    (addr - addr % 2) as u32
}

/// A long made of its two words.
pub open spec fn long_of(hi: u16, lo: u16) -> u32 {
    (hi * 0x1_0000 + lo) as u32
}

/// Returns the long made of its two words.
pub fn make_long(hi: u16, lo: u16) -> (r: u32)
    ensures
        r == long_of(hi, lo),
{
    hi as u32 * 0x1_0000 + lo as u32
}

/// A long read: two word reads, the high word first.
pub open spec fn read_long_sem<B: Bus>(m: B::Model, addr: u32) -> (u32, B::Model) {
    let (hi, m1) = B::read_word_model(m, bus_addr(addr));
    let (lo, m2) = B::read_word_model(m1, bus_addr(addr.wrapping_add(2)));
    (long_of(hi, lo), m2)
}

/// A long write: two word writes, the high word first.
pub open spec fn write_long_sem<B: Bus>(m: B::Model, addr: u32, val: u32) -> B::Model {
    let m1 = B::write_word_model(m, bus_addr(addr), (val / 0x1_0000) as u16);
    B::write_word_model(m1, bus_addr(addr.wrapping_add(2)), (val % 0x1_0000) as u16)
}

/// Reads a big-endian u32 from the bus at the given address.
pub fn read_long<B: Bus>(bus: &mut B, addr: u32) -> (r: u32)
    requires
        old(bus).valid(),
    ensures
        final(bus).valid(),
        (r, final(bus).model()) == read_long_sem::<B>(old(bus).model(), addr),
{
    let hi: u16 = bus.read_word(addr % 0x0100_0000);
    let lo: u16 = bus.read_word(addr.wrapping_add(2) % 0x0100_0000);
    make_long(hi, lo)
}

/// Writes a big-endian u32 to the bus at the given address.
pub fn write_long<B: Bus>(bus: &mut B, addr: u32, val: u32)
    requires
        old(bus).valid(),
    ensures
        final(bus).valid(),
        final(bus).model() == write_long_sem::<B>(old(bus).model(), addr, val),
{
    bus.write_word(addr % 0x0100_0000, (val / 0x1_0000) as u16);
    bus.write_word(addr.wrapping_add(2) % 0x0100_0000, (val % 0x1_0000) as u16);
}

/// A read of an operand from memory. Word and long accesses ignore the lowest
/// address bit.
pub open spec fn read_addr_sem<B: Bus>(m: B::Model, addr: u32, size: InstructionSize) -> (
    u32,
    B::Model,
) {
    match size {
        InstructionSize::Byte => {
            let (v, m1) = B::read_byte_model(m, bus_addr(addr));
            (v as u32, m1)
        },
        InstructionSize::Word => {
            let (v, m1) = B::read_word_model(m, even_addr(bus_addr(addr)));
            (v as u32, m1)
        },
        InstructionSize::Long => read_long_sem::<B>(m, even_addr(bus_addr(addr))),
    }
}

/// A write of an operand to memory. Word and long accesses ignore the lowest
/// address bit.
pub open spec fn write_addr_sem<B: Bus>(
    m: B::Model,
    addr: u32,
    size: InstructionSize,
    val: u32,
) -> B::Model {
    match size {
        InstructionSize::Byte => B::write_byte_model(m, bus_addr(addr), (val % 0x100) as u8),
        InstructionSize::Word => B::write_word_model(
            m,
            even_addr(bus_addr(addr)),
            (val % 0x1_0000) as u16,
        ),
        InstructionSize::Long => write_long_sem::<B>(m, even_addr(bus_addr(addr)), val),
    }
}

/// Reads a value from a memory address with the given size.
pub fn read_from_addr<B: Bus>(bus: &mut B, addr: u32, size: InstructionSize) -> (r: u32)
    requires
        old(bus).valid(),
    ensures
        final(bus).valid(),
        (r, final(bus).model()) == read_addr_sem::<B>(old(bus).model(), addr, size),
{
    let addr: u32 = addr % 0x0100_0000;
    let even: u32 = addr - addr % 2;
    match size {
        InstructionSize::Byte => bus.read_byte(addr) as u32,
        InstructionSize::Word => bus.read_word(even) as u32,
        InstructionSize::Long => read_long(bus, even),
    }
}

/// Writes a value to a memory address with the given size.
pub fn write_to_addr<B: Bus>(bus: &mut B, addr: u32, size: InstructionSize, val: u32)
    requires
        old(bus).valid(),
    ensures
        final(bus).valid(),
        final(bus).model() == write_addr_sem::<B>(old(bus).model(), addr, size, val),
{
    let addr: u32 = addr % 0x0100_0000;
    let even: u32 = addr - addr % 2;
    match size {
        InstructionSize::Byte => bus.write_byte(addr, (val % 0x100) as u8),
        InstructionSize::Word => bus.write_word(even, (val % 0x1_0000) as u16),
        InstructionSize::Long => write_long(bus, even, val),
    }
}

// ── Instruction stream ───────────────────────────────────────────────────

/// The next word of the instruction stream; the program counter moves past it.
pub open spec fn fetch_word_sem<B: Bus>(s: Machine<B::Model>) -> (u16, Machine<B::Model>) {
    let (w, m) = B::read_word_model(s.bus, bus_addr(s.cpu.pc));
    (w, Machine { cpu: s.cpu.with_pc(s.cpu.pc.wrapping_add(2)), bus: m })
}

/// The next long of the instruction stream.
pub open spec fn fetch_long_sem<B: Bus>(s: Machine<B::Model>) -> (u32, Machine<B::Model>) {
    let (hi, s1) = fetch_word_sem::<B>(s);
    let (lo, s2) = fetch_word_sem::<B>(s1);
    (long_of(hi, lo), s2)
}

/// The immediate operand that follows: a byte takes the low half of a word.
pub open spec fn fetch_immediate_sem<B: Bus>(s: Machine<B::Model>, size: InstructionSize) -> (
    u32,
    Machine<B::Model>,
) {
    match size {
        InstructionSize::Byte => {
            let (w, s1) = fetch_word_sem::<B>(s);
            ((w % 0x100) as u32, s1)
        },
        InstructionSize::Word => {
            let (w, s1) = fetch_word_sem::<B>(s);
            (w as u32, s1)
        },
        InstructionSize::Long => fetch_long_sem::<B>(s),
    }
}

/// Fetches the next word from the instruction stream and advances PC by 2.
pub fn fetch_word<B: Bus>(cpu: &mut Cpu, bus: &mut B) -> (r: u16)
    requires
        old(bus).valid(),
    ensures
        final(bus).valid(),
        (r, machine(*final(cpu), *final(bus))) == fetch_word_sem::<B>(
            machine(*old(cpu), *old(bus)),
        ),
{
    let val: u16 = bus.read_word(cpu.pc % 0x0100_0000);
    cpu.pc = cpu.pc.wrapping_add(2);
    val
}

/// Fetches a 32-bit long from the instruction stream (two words, big-endian).
pub fn fetch_long<B: Bus>(cpu: &mut Cpu, bus: &mut B) -> (r: u32)
    requires
        old(bus).valid(),
    ensures
        final(bus).valid(),
        (r, machine(*final(cpu), *final(bus))) == fetch_long_sem::<B>(
            machine(*old(cpu), *old(bus)),
        ),
{
    let hi: u16 = fetch_word(cpu, bus);
    let lo: u16 = fetch_word(cpu, bus);
    make_long(hi, lo)
}

/// Fetches an immediate operand of the given size.
pub fn fetch_immediate<B: Bus>(cpu: &mut Cpu, size: InstructionSize, bus: &mut B) -> (r: u32)
    requires
        old(bus).valid(),
    ensures
        final(bus).valid(),
        (r, machine(*final(cpu), *final(bus))) == fetch_immediate_sem::<B>(
            machine(*old(cpu), *old(bus)),
            size,
        ),
{
    match size {
        InstructionSize::Byte => (fetch_word(cpu, bus) % 0x100) as u32,
        InstructionSize::Word => fetch_word(cpu, bus) as u32,
        InstructionSize::Long => fetch_long(cpu, bus),
    }
}

// ── Effective addresses ──────────────────────────────────────────────────

/// The source operand field of an opcode (mode in bits 5-3, register in 2-0).
pub open spec fn src_ea_of(opcode: u16) -> AddressingMode {
    decode_ea_spec(mode_low_of(opcode), reg_low_of(opcode))
}

/// The destination operand field of MOVE (register in bits 11-9, mode in 8-6).
pub open spec fn dst_ea_of(opcode: u16) -> AddressingMode {
    decode_ea_spec(mode_high_of(opcode), reg_high_of(opcode))
}

/// Decodes the source operand field of an opcode.
pub fn src_ea(opcode: u16) -> (r: AddressingMode)
    ensures
        r == src_ea_of(opcode),
        ea_valid(r),
{
    decode_ea(mode_low(opcode), reg_low(opcode))
}

/// Decodes the destination operand field of MOVE.
pub fn dst_ea_move(opcode: u16) -> (r: AddressingMode)
    ensures
        r == dst_ea_of(opcode),
        ea_valid(r),
{
    decode_ea(mode_high(opcode), reg_high(opcode))
}

/// The step of a post-increment or pre-decrement. The stack pointer moves by
/// two for bytes, to stay word-aligned.
pub open spec fn address_step(reg: u8, size: InstructionSize) -> u32 {
    if reg == 7 && size == InstructionSize::Byte {
        2
    } else {
        bytes_of(size)
    }
}

/// Returns the step of a post-increment or pre-decrement.
pub fn increment_of(reg: u8, size: InstructionSize) -> (r: u32)
    ensures
        r == address_step(reg, size),
{
    if reg == 7 && size == InstructionSize::Byte {
        2
    } else {
        size_bytes(size)
    }
}

/// The address of an index operand. The extension word holds the index
/// register (bit 15: address register; bits 14-12: number), its size (bit 11:
/// long) and a signed 8-bit displacement.
pub open spec fn index_address(c: CpuState, base: u32, ext: u16) -> u32 {
    let reg = ((ext / 0x1000) % 8) as int;
    let register = if ext >= 0x8000 {
        c.read_a(reg)
    } else {
        c.d[reg]
    };
    let index = if (ext / 0x800) % 2 == 1 {
        register
    } else {
        extend_word((register % 0x1_0000) as u16)
    };
    base.wrapping_add(extend_byte((ext % 0x100) as u8)).wrapping_add(index)
}

/// Computes a brief extension word index address.
pub fn compute_index_ea(cpu: &Cpu, base: u32, ext: u16) -> (r: u32)
    ensures
        r == index_address(cpu@, base, ext),
{
    let reg: u8 = ((ext / 0x1000) % 8) as u8;
    let register: u32 = if ext >= 0x8000 {
        cpu.read_a(reg)
    } else {
        cpu.read_d(reg)
    };
    let index: u32 = if (ext / 0x800) % 2 == 1 {
        register
    } else {
        sign_extend_word((register % 0x1_0000) as u16)
    };
    base.wrapping_add(sign_extend_byte((ext % 0x100) as u8)).wrapping_add(index)
}

/// The full 32-bit address of an operand, and the machine after it has been
/// computed (extension words fetched, address register stepped). Operands that
/// are not in memory have address 0.
pub open spec fn resolve_ea_sem<B: Bus>(
    s: Machine<B::Model>,
    ea: AddressingMode,
    size: InstructionSize,
) -> (u32, Machine<B::Model>) {
    match ea {
        AddressingMode::DataDirect(_) => (0, s),
        AddressingMode::AddrDirect(_) => (0, s),
        AddressingMode::AddrIndirect(reg) => (s.cpu.read_a(reg as int), s),
        AddressingMode::AddrPostInc(reg) => {
            let addr = s.cpu.read_a(reg as int);
            (
                addr,
                s.with_cpu(s.cpu.write_a(reg as int, addr.wrapping_add(address_step(reg, size)))),
            )
        },
        AddressingMode::AddrPreDec(reg) => {
            let addr = s.cpu.read_a(reg as int).wrapping_sub(address_step(reg, size));
            (addr, s.with_cpu(s.cpu.write_a(reg as int, addr)))
        },
        AddressingMode::AddrDisp(reg) => {
            let (disp, s1) = fetch_word_sem::<B>(s);
            (s1.cpu.read_a(reg as int).wrapping_add(extend_word(disp)), s1)
        },
        AddressingMode::AddrIndex(reg) => {
            let (ext, s1) = fetch_word_sem::<B>(s);
            (index_address(s1.cpu, s1.cpu.read_a(reg as int), ext), s1)
        },
        AddressingMode::AbsShort => {
            let (w, s1) = fetch_word_sem::<B>(s);
            (extend_word(w), s1)
        },
        AddressingMode::AbsLong => fetch_long_sem::<B>(s),
        AddressingMode::PcDisp => {
            let (disp, s1) = fetch_word_sem::<B>(s);
            (s.cpu.pc.wrapping_add(extend_word(disp)), s1)
        },
        AddressingMode::PcIndex => {
            let (ext, s1) = fetch_word_sem::<B>(s);
            (index_address(s1.cpu, s.cpu.pc, ext), s1)
        },
        AddressingMode::Immediate => (0, s),
    }
}

/// Computes the effective address for modes that have a memory address.
/// Returns the full 32-bit address; for the other modes, 0.
pub fn resolve_ea<B: Bus>(
    cpu: &mut Cpu,
    ea: AddressingMode,
    size: InstructionSize,
    bus: &mut B,
) -> (r: u32)
    requires
        old(bus).valid(),
        ea_valid(ea),
    ensures
        final(bus).valid(),
        (r, machine(*final(cpu), *final(bus))) == resolve_ea_sem::<B>(
            machine(*old(cpu), *old(bus)),
            ea,
            size,
        ),
{
    match ea {
        AddressingMode::DataDirect(_) => 0,
        AddressingMode::AddrDirect(_) => 0,
        AddressingMode::AddrIndirect(reg) => cpu.read_a(reg),
        AddressingMode::AddrPostInc(reg) => {
            let addr: u32 = cpu.read_a(reg);
            cpu.write_a(reg, addr.wrapping_add(increment_of(reg, size)));
            addr
        },
        AddressingMode::AddrPreDec(reg) => {
            let addr: u32 = cpu.read_a(reg).wrapping_sub(increment_of(reg, size));
            cpu.write_a(reg, addr);
            addr
        },
        AddressingMode::AddrDisp(reg) => {
            let disp: u16 = fetch_word(cpu, bus);
            cpu.read_a(reg).wrapping_add(sign_extend_word(disp))
        },
        AddressingMode::AddrIndex(reg) => {
            let ext: u16 = fetch_word(cpu, bus);
            let base: u32 = cpu.read_a(reg);
            compute_index_ea(cpu, base, ext)
        },
        AddressingMode::AbsShort => {
            let w: u16 = fetch_word(cpu, bus);
            sign_extend_word(w)
        },
        AddressingMode::AbsLong => fetch_long(cpu, bus),
        AddressingMode::PcDisp => {
            let pc: u32 = cpu.pc;
            let disp: u16 = fetch_word(cpu, bus);
            pc.wrapping_add(sign_extend_word(disp))
        },
        AddressingMode::PcIndex => {
            let pc: u32 = cpu.pc;
            let ext: u16 = fetch_word(cpu, bus);
            compute_index_ea(cpu, pc, ext)
        },
        AddressingMode::Immediate => 0,
    }
}

/// The operand at an effective address, its address (0 where it is not in
/// memory) and the machine after the read. Address registers always give all
/// 32 bits.
pub open spec fn read_ea_with_addr_sem<B: Bus>(
    s: Machine<B::Model>,
    ea: AddressingMode,
    size: InstructionSize,
) -> (u32, u32, Machine<B::Model>) {
    match ea {
        AddressingMode::DataDirect(reg) => (low(s.cpu.d[reg as int], size), 0, s),
        AddressingMode::AddrDirect(reg) => (s.cpu.read_a(reg as int), 0, s),
        AddressingMode::Immediate => {
            let (v, s1) = fetch_immediate_sem::<B>(s, size);
            (v, 0, s1)
        },
        _ => {
            let (addr, s1) = resolve_ea_sem::<B>(s, ea, size);
            let (v, m) = read_addr_sem::<B>(s1.bus, addr, size);
            (v, addr, s1.with_bus(m))
        },
    }
}

/// The operand at an effective address, and the machine after the read.
pub open spec fn read_ea_sem<B: Bus>(
    s: Machine<B::Model>,
    ea: AddressingMode,
    size: InstructionSize,
) -> (u32, Machine<B::Model>) {
    let (v, _, s1) = read_ea_with_addr_sem::<B>(s, ea, size);
    (v, s1)
}

/// The machine after a write to an effective address. Data registers keep the
/// bits above the operand, address registers take all 32 bits, and immediates
/// are not written.
pub open spec fn write_ea_sem<B: Bus>(
    s: Machine<B::Model>,
    ea: AddressingMode,
    size: InstructionSize,
    val: u32,
) -> Machine<B::Model> {
    match ea {
        AddressingMode::DataDirect(reg) => s.with_cpu(
            s.cpu.write_d(reg as int, merge(s.cpu.d[reg as int], val, size)),
        ),
        AddressingMode::AddrDirect(reg) => s.with_cpu(s.cpu.write_a(reg as int, val)),
        AddressingMode::Immediate => s,
        _ => {
            let (addr, s1) = resolve_ea_sem::<B>(s, ea, size);
            s1.with_bus(write_addr_sem::<B>(s1.bus, addr, size, val))
        },
    }
}

/// The machine after a read-modify-write operand is written back: into the data
/// register, or at the address that the read resolved.
pub open spec fn write_back_sem<B: Bus>(
    s: Machine<B::Model>,
    ea: AddressingMode,
    addr: u32,
    size: InstructionSize,
    val: u32,
) -> Machine<B::Model> {
    match ea {
        AddressingMode::DataDirect(reg) => s.with_cpu(
            s.cpu.write_d(reg as int, merge(s.cpu.d[reg as int], val, size)),
        ),
        _ => s.with_bus(write_addr_sem::<B>(s.bus, addr, size, val)),
    }
}

/// Reads an operand and returns both the value and the resolved address, for
/// read-modify-write instructions.
pub fn read_ea_with_addr<B: Bus>(
    cpu: &mut Cpu,
    ea: AddressingMode,
    size: InstructionSize,
    bus: &mut B,
) -> (r: (u32, u32))
    requires
        old(bus).valid(),
        ea_valid(ea),
    ensures
        final(bus).valid(),
        (r.0, r.1, machine(*final(cpu), *final(bus))) == read_ea_with_addr_sem::<B>(
            machine(*old(cpu), *old(bus)),
            ea,
            size,
        ),
{
    match ea {
        AddressingMode::DataDirect(reg) => (mask_value(cpu.read_d(reg), size), 0),
        AddressingMode::AddrDirect(reg) => (cpu.read_a(reg), 0),
        AddressingMode::Immediate => {
            let val: u32 = fetch_immediate(cpu, size, bus);
            (val, 0)
        },
        _ => {
            let addr: u32 = resolve_ea(cpu, ea, size, bus);
            let val: u32 = read_from_addr(bus, addr, size);
            (val, addr)
        },
    }
}

/// Reads a value from an effective address.
pub fn read_ea<B: Bus>(
    cpu: &mut Cpu,
    ea: AddressingMode,
    size: InstructionSize,
    bus: &mut B,
) -> (r: u32)
    requires
        old(bus).valid(),
        ea_valid(ea),
    ensures
        final(bus).valid(),
        (r, machine(*final(cpu), *final(bus))) == read_ea_sem::<B>(
            machine(*old(cpu), *old(bus)),
            ea,
            size,
        ),
{
    let (val, _) = read_ea_with_addr(cpu, ea, size, bus);
    val
}

/// Writes a value to an effective address.
pub fn write_ea<B: Bus>(
    cpu: &mut Cpu,
    ea: AddressingMode,
    size: InstructionSize,
    bus: &mut B,
    val: u32,
)
    requires
        old(bus).valid(),
        ea_valid(ea),
    ensures
        final(bus).valid(),
        machine(*final(cpu), *final(bus)) == write_ea_sem::<B>(
            machine(*old(cpu), *old(bus)),
            ea,
            size,
            val,
        ),
{
    match ea {
        AddressingMode::DataDirect(reg) => {
            let merged: u32 = merge_value(cpu.read_d(reg), val, size);
            cpu.write_d(reg, merged);
        },
        AddressingMode::AddrDirect(reg) => {
            cpu.write_a(reg, val);
        },
        AddressingMode::Immediate => {},
        _ => {
            let addr: u32 = resolve_ea(cpu, ea, size, bus);
            write_to_addr(bus, addr, size, val);
        },
    }
}

/// Writes back a read-modify-write operand.
pub fn write_back<B: Bus>(
    cpu: &mut Cpu,
    ea: AddressingMode,
    addr: u32,
    size: InstructionSize,
    bus: &mut B,
    val: u32,
)
    requires
        old(bus).valid(),
        ea_valid(ea),
    ensures
        final(bus).valid(),
        machine(*final(cpu), *final(bus)) == write_back_sem::<B>(
            machine(*old(cpu), *old(bus)),
            ea,
            addr,
            size,
            val,
        ),
{
    match ea {
        AddressingMode::DataDirect(reg) => {
            let merged: u32 = merge_value(cpu.read_d(reg), val, size);
            cpu.write_d(reg, merged);
        },
        _ => write_to_addr(bus, addr, size, val),
    }
}

// ── Stack ────────────────────────────────────────────────────────────────

/// The machine after a long is pushed.
pub open spec fn push_long_sem<B: Bus>(s: Machine<B::Model>, val: u32) -> Machine<B::Model> {
    let sp = s.cpu.sp().wrapping_sub(4);
    Machine { cpu: s.cpu.with_sp(sp), bus: write_long_sem::<B>(s.bus, bus_addr(sp), val) }
}

/// The machine after a word is pushed.
pub open spec fn push_word_sem<B: Bus>(s: Machine<B::Model>, val: u16) -> Machine<B::Model> {
    let sp = s.cpu.sp().wrapping_sub(2);
    Machine { cpu: s.cpu.with_sp(sp), bus: B::write_word_model(s.bus, bus_addr(sp), val) }
}

/// The long popped, and the machine after it.
pub open spec fn pop_long_sem<B: Bus>(s: Machine<B::Model>) -> (u32, Machine<B::Model>) {
    let sp = s.cpu.sp();
    let (v, m) = read_long_sem::<B>(s.bus, bus_addr(sp));
    (v, Machine { cpu: s.cpu.with_sp(sp.wrapping_add(4)), bus: m })
}

/// The word popped, and the machine after it.
pub open spec fn pop_word_sem<B: Bus>(s: Machine<B::Model>) -> (u16, Machine<B::Model>) {
    let sp = s.cpu.sp();
    let (v, m) = B::read_word_model(s.bus, bus_addr(sp));
    (v, Machine { cpu: s.cpu.with_sp(sp.wrapping_add(2)), bus: m })
}

/// Pushes a 32-bit long onto the stack (pre-decrement A7 by 4).
pub fn push_long<B: Bus>(cpu: &mut Cpu, bus: &mut B, val: u32)
    requires
        old(bus).valid(),
    ensures
        final(bus).valid(),
        machine(*final(cpu), *final(bus)) == push_long_sem::<B>(
            machine(*old(cpu), *old(bus)),
            val,
        ),
{
    let sp: u32 = cpu.sp().wrapping_sub(4);
    cpu.set_sp(sp);
    write_long(bus, sp % 0x0100_0000, val);
}

/// Pops a 32-bit long from the stack (post-increment A7 by 4).
pub fn pop_long<B: Bus>(cpu: &mut Cpu, bus: &mut B) -> (r: u32)
    requires
        old(bus).valid(),
    ensures
        final(bus).valid(),
        (r, machine(*final(cpu), *final(bus))) == pop_long_sem::<B>(
            machine(*old(cpu), *old(bus)),
        ),
{
    let sp: u32 = cpu.sp();
    cpu.set_sp(sp.wrapping_add(4));
    read_long(bus, sp % 0x0100_0000)
}

/// Pushes a 16-bit word onto the stack (pre-decrement A7 by 2).
pub fn push_word<B: Bus>(cpu: &mut Cpu, bus: &mut B, val: u16)
    requires
        old(bus).valid(),
    ensures
        final(bus).valid(),
        machine(*final(cpu), *final(bus)) == push_word_sem::<B>(
            machine(*old(cpu), *old(bus)),
            val,
        ),
{
    let sp: u32 = cpu.sp().wrapping_sub(2);
    cpu.set_sp(sp);
    bus.write_word(sp % 0x0100_0000, val);
}

/// Pops a 16-bit word from the stack (post-increment A7 by 2).
pub fn pop_word<B: Bus>(cpu: &mut Cpu, bus: &mut B) -> (r: u16)
    requires
        old(bus).valid(),
    ensures
        final(bus).valid(),
        (r, machine(*final(cpu), *final(bus))) == pop_word_sem::<B>(
            machine(*old(cpu), *old(bus)),
        ),
{
    let sp: u32 = cpu.sp();
    cpu.set_sp(sp.wrapping_add(2));
    bus.read_word(sp % 0x0100_0000)
}

} // verus!
