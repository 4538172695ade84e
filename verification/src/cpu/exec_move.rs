//! Data movement instructions of the 68000.
use vstd::prelude::*;

use super::decode::{
    bit, bit_of, reg_high, reg_high_of, reg_low, reg_low_of, AddressingMode, InstructionSize,
};
use super::engine::{Cpu, CpuState};
use super::flags::{nz_flags, set_flags_nz};
use super::operand::{
    bus_addr, dst_ea_move, dst_ea_of, extend, extend_byte, extend_word, fetch_word, fetch_word_sem,
    machine, merge, merge_value, push_long, push_long_sem, read_ea, read_ea_sem, read_long,
    read_long_sem, resolve_ea, resolve_ea_sem, sign_extend, sign_extend_byte, sign_extend_word,
    src_ea, src_ea_of, write_ea, write_ea_sem, write_long, write_long_sem, Bus, Machine,
};

verus! {

/// MOVE: copies an operand and sets N and Z from it.
pub open spec fn move_sem<B: Bus>(s: Machine<B::Model>, opcode: u16, size: InstructionSize) -> (u32, Machine<B::Model>) {
    let (val, s1) = read_ea_sem::<B>(s, src_ea_of(opcode), size);
    let s2 = s1.with_sr(nz_flags(s1.cpu.sr, val, size));
    (4, write_ea_sem::<B>(s2, dst_ea_of(opcode), size, val))
}

/// MOVE: copies an operand and sets N and Z from it.
pub fn exec_move<B: Bus>(cpu: &mut Cpu, opcode: u16, size: InstructionSize, bus: &mut B) -> (r: u32)
    requires
        old(bus).valid(),
    ensures
        final(bus).valid(),
        (r, machine(*final(cpu), *final(bus))) == move_sem::<B>(
            machine(*old(cpu), *old(bus)),
            opcode,
            size,
        ),
{
    let src = src_ea(opcode);
    let dst = dst_ea_move(opcode);
    let val: u32 = read_ea(cpu, src, size, bus);
    set_flags_nz(&mut cpu.sr, val, size);
    write_ea(cpu, dst, size, bus, val);
    4
}

/// MOVEA: copies a sign-extended operand to an address register; no flags change.
pub open spec fn movea_sem<B: Bus>(s: Machine<B::Model>, opcode: u16, size: InstructionSize) -> (u32, Machine<B::Model>) {
    let (val, s1) = read_ea_sem::<B>(s, src_ea_of(opcode), size);
    (4, s1.with_cpu(s1.cpu.write_a(reg_high_of(opcode) as int, extend(val, size))))
}

/// MOVEA: copies a sign-extended operand to an address register; no flags change.
pub fn exec_movea<B: Bus>(cpu: &mut Cpu, opcode: u16, size: InstructionSize, bus: &mut B) -> (r: u32)
    requires
        old(bus).valid(),
    ensures
        final(bus).valid(),
        (r, machine(*final(cpu), *final(bus))) == movea_sem::<B>(
            machine(*old(cpu), *old(bus)),
            opcode,
            size,
        ),
{
    let val: u32 = read_ea(cpu, src_ea(opcode), size, bus);
    cpu.write_a(reg_high(opcode), sign_extend(val, size));
    4
}

/// MOVEQ: loads a sign-extended byte of the opcode into a data register.
pub open spec fn moveq_sem(c: CpuState, opcode: u16) -> (u32, CpuState) {
    let data = extend_byte((opcode % 0x100) as u8);
    let c1 = c.write_d(reg_high_of(opcode) as int, data);
    (4, c1.with_sr(nz_flags(c1.sr, data, InstructionSize::Long)))
}

/// MOVEQ: loads a sign-extended byte of the opcode into a data register.
pub fn exec_moveq(cpu: &mut Cpu, opcode: u16) -> (r: u32)
    ensures
        (r, final(cpu)@) == moveq_sem(old(cpu)@, opcode),
{
    let data: u32 = sign_extend_byte((opcode % 0x100) as u8);
    cpu.write_d(reg_high(opcode), data);
    set_flags_nz(&mut cpu.sr, data, InstructionSize::Long);
    4
}

/// LEA: loads an effective address into an address register.
pub open spec fn lea_sem<B: Bus>(s: Machine<B::Model>, opcode: u16) -> (u32, Machine<B::Model>) {
    let (addr, s1) = resolve_ea_sem::<B>(s, src_ea_of(opcode), InstructionSize::Long);
    (4, s1.with_cpu(s1.cpu.write_a(reg_high_of(opcode) as int, addr)))
}

/// LEA: loads an effective address into an address register.
pub fn exec_lea<B: Bus>(cpu: &mut Cpu, opcode: u16, bus: &mut B) -> (r: u32)
    requires
        old(bus).valid(),
    ensures
        final(bus).valid(),
        (r, machine(*final(cpu), *final(bus))) == lea_sem::<B>(
            machine(*old(cpu), *old(bus)),
            opcode,
        ),
{
    let addr: u32 = resolve_ea(cpu, src_ea(opcode), InstructionSize::Long, bus);
    cpu.write_a(reg_high(opcode), addr);
    4
}

/// PEA: pushes an effective address.
pub open spec fn pea_sem<B: Bus>(s: Machine<B::Model>, opcode: u16) -> (u32, Machine<B::Model>) {
    let (addr, s1) = resolve_ea_sem::<B>(s, src_ea_of(opcode), InstructionSize::Long);
    (12, push_long_sem::<B>(s1, addr))
}

/// PEA: pushes an effective address.
pub fn exec_pea<B: Bus>(cpu: &mut Cpu, opcode: u16, bus: &mut B) -> (r: u32)
    requires
        old(bus).valid(),
    ensures
        final(bus).valid(),
        (r, machine(*final(cpu), *final(bus))) == pea_sem::<B>(
            machine(*old(cpu), *old(bus)),
            opcode,
        ),
{
    let addr: u32 = resolve_ea(cpu, src_ea(opcode), InstructionSize::Long, bus);
    push_long(cpu, bus, addr);
    12
}

// ── MOVEM ────────────────────────────────────────────────────────────────

/// Bytes that one register takes in a MOVEM list: four for long, two otherwise.
pub open spec fn movem_step(size: InstructionSize) -> u32 {
    if size == InstructionSize::Long {
        4
    } else {
        2
    }
}

/// A register mask with its `n` lowest bits shifted out.
pub open spec fn mask_after(mask: u16, n: nat) -> u16
    decreases n,
{
    if n == 0 {
        mask
    } else {
        mask_after(mask, (n - 1) as nat) / 2
    }
}

/// Register `i` of a MOVEM list: D0 to D7, then A0 to A7.
pub open spec fn movem_register(c: CpuState, i: int) -> u32 {
    if i < 8 {
        c.d[i]
    } else {
        c.read_a(i - 8)
    }
}

/// The registers after register `i` of a MOVEM list is loaded.
pub open spec fn movem_load_register(c: CpuState, i: int, val: u32) -> CpuState {
    if i < 8 {
        c.write_d(i, val)
    } else {
        c.write_a(i - 8, val)
    }
}

/// One register stored by MOVEM.
pub open spec fn movem_store_sem<B: Bus>(
    m: B::Model,
    addr: u32,
    size: InstructionSize,
    val: u32,
) -> B::Model {
    if size == InstructionSize::Long {
        write_long_sem::<B>(m, bus_addr(addr), val)
    } else {
        B::write_word_model(m, bus_addr(addr), (val % 0x1_0000) as u16)
    }
}

/// One register value loaded by MOVEM; words are sign-extended.
pub open spec fn movem_fetch_sem<B: Bus>(m: B::Model, addr: u32, size: InstructionSize) -> (
    u32,
    B::Model,
) {
    if size == InstructionSize::Long {
        read_long_sem::<B>(m, bus_addr(addr))
    } else {
        let (w, m1) = B::read_word_model(m, bus_addr(addr));
        (extend_word(w), m1)
    }
}

/// Bus, address and cycles after the first `n` mask bits of a MOVEM to memory
/// below a pre-decremented register. The mask is reversed: bit 0 names A7.
pub open spec fn movem_down_sem<B: Bus>(
    c: CpuState,
    m: B::Model,
    start: u32,
    mask: u16,
    size: InstructionSize,
    n: nat,
) -> (B::Model, u32, u32)
    decreases n,
{
    if n == 0 {
        (m, start, 8)
    } else {
        let i = (n - 1) as nat;
        let (m1, addr, cycles) = movem_down_sem::<B>(c, m, start, mask, size, i);
        if mask_after(mask, i) % 2 == 1 {
            let next = addr.wrapping_sub(movem_step(size));
            (
                movem_store_sem::<B>(m1, next, size, movem_register(c, 15 - i)),
                next,
                (cycles + movem_step(size)) as u32,
            )
        } else {
            (m1, addr, cycles)
        }
    }
}

/// Bus, address and cycles after the first `n` mask bits of a MOVEM to
/// ascending memory.
pub open spec fn movem_up_sem<B: Bus>(
    c: CpuState,
    m: B::Model,
    start: u32,
    mask: u16,
    size: InstructionSize,
    n: nat,
) -> (B::Model, u32, u32)
    decreases n,
{
    if n == 0 {
        (m, start, 8)
    } else {
        let i = (n - 1) as nat;
        let (m1, addr, cycles) = movem_up_sem::<B>(c, m, start, mask, size, i);
        if mask_after(mask, i) % 2 == 1 {
            (
                movem_store_sem::<B>(m1, addr, size, movem_register(c, i as int)),
                addr.wrapping_add(movem_step(size)),
                (cycles + movem_step(size)) as u32,
            )
        } else {
            (m1, addr, cycles)
        }
    }
}

/// Machine, address and cycles after the first `n` mask bits of a MOVEM from
/// memory.
pub open spec fn movem_load_sem<B: Bus>(
    s: Machine<B::Model>,
    start: u32,
    mask: u16,
    size: InstructionSize,
    n: nat,
) -> (Machine<B::Model>, u32, u32)
    decreases n,
{
    if n == 0 {
        (s, start, 8)
    } else {
        let i = (n - 1) as nat;
        let (s1, addr, cycles) = movem_load_sem::<B>(s, start, mask, size, i);
        if mask_after(mask, i) % 2 == 1 {
            let (val, m1) = movem_fetch_sem::<B>(s1.bus, addr, size);
            (
                Machine { cpu: movem_load_register(s1.cpu, i as int, val), bus: m1 },
                addr.wrapping_add(movem_step(size)),
                (cycles + movem_step(size)) as u32,
            )
        } else {
            (s1, addr, cycles)
        }
    }
}

/// Stores one register of a MOVEM list.
fn movem_store<B: Bus>(bus: &mut B, addr: u32, size: InstructionSize, val: u32)
    requires
        old(bus).valid(),
    ensures
        final(bus).valid(),
        final(bus).model() == movem_store_sem::<B>(old(bus).model(), addr, size, val),
{
    if size == InstructionSize::Long {
        write_long(bus, addr % 0x0100_0000, val);
    } else {
        bus.write_word(addr % 0x0100_0000, (val % 0x1_0000) as u16);
    }
}

/// Fetches one register value of a MOVEM list.
fn movem_fetch<B: Bus>(bus: &mut B, addr: u32, size: InstructionSize) -> (r: u32)
    requires
        old(bus).valid(),
    ensures
        final(bus).valid(),
        (r, final(bus).model()) == movem_fetch_sem::<B>(old(bus).model(), addr, size),
{
    if size == InstructionSize::Long {
        read_long(bus, addr % 0x0100_0000)
    } else {
        let w: u16 = bus.read_word(addr % 0x0100_0000);
        sign_extend_word(w)
    }
}

/// Stores the registers of a reversed mask downwards from `start`; returns the
/// final address and the cycles.
fn movem_store_down<B: Bus>(
    cpu: &Cpu,
    start: u32,
    mask: u16,
    size: InstructionSize,
    bus: &mut B,
) -> (r: (u32, u32))
    requires
        old(bus).valid(),
    ensures
        final(bus).valid(),
        (final(bus).model(), r.0, r.1) == movem_down_sem::<B>(
            cpu@,
            old(bus).model(),
            start,
            mask,
            size,
            16,
        ),
{
    let step: u32 = if size == InstructionSize::Long {
        4
    } else {
        2
    };
    let ghost m0 = bus.model();
    let mut addr: u32 = start;
    let mut cycles: u32 = 8;
    let mut bits: u16 = mask;
    let mut i: u8 = 0;
    while i < 16
        invariant
            i <= 16,
            step == movem_step(size),
            cycles <= 8 + 4 * i,
            bits == mask_after(mask, i as nat),
            bus.valid(),
            (bus.model(), addr, cycles) == movem_down_sem::<B>(
                cpu@,
                m0,
                start,
                mask,
                size,
                i as nat,
            ),
        decreases 16 - i,
    {
        if bits % 2 == 1 {
            addr = addr.wrapping_sub(step);
            let val: u32 = if i < 8 {
                cpu.read_a(7 - i)
            } else {
                cpu.read_d(15 - i)
            };
            movem_store(bus, addr, size, val);
            cycles = cycles + step;
        }
        bits = bits / 2;
        i = i + 1;
    }
    (addr, cycles)
}

/// Stores the registers of a mask upwards from `start`; returns the cycles.
fn movem_store_up<B: Bus>(
    cpu: &Cpu,
    start: u32,
    mask: u16,
    size: InstructionSize,
    bus: &mut B,
) -> (r: (u32, u32))
    requires
        old(bus).valid(),
    ensures
        final(bus).valid(),
        (final(bus).model(), r.0, r.1) == movem_up_sem::<B>(
            cpu@,
            old(bus).model(),
            start,
            mask,
            size,
            16,
        ),
{
    let step: u32 = if size == InstructionSize::Long {
        4
    } else {
        2
    };
    let ghost m0 = bus.model();
    let mut addr: u32 = start;
    let mut cycles: u32 = 8;
    let mut bits: u16 = mask;
    let mut i: u8 = 0;
    while i < 16
        invariant
            i <= 16,
            step == movem_step(size),
            cycles <= 8 + 4 * i,
            bits == mask_after(mask, i as nat),
            bus.valid(),
            (bus.model(), addr, cycles) == movem_up_sem::<B>(
                cpu@,
                m0,
                start,
                mask,
                size,
                i as nat,
            ),
        decreases 16 - i,
    {
        if bits % 2 == 1 {
            let val: u32 = if i < 8 {
                cpu.read_d(i)
            } else {
                cpu.read_a(i - 8)
            };
            movem_store(bus, addr, size, val);
            addr = addr.wrapping_add(step);
            cycles = cycles + step;
        }
        bits = bits / 2;
        i = i + 1;
    }
    (addr, cycles)
}

/// Loads the registers of a mask upwards from `start`; returns the final
/// address and the cycles.
fn movem_load<B: Bus>(
    cpu: &mut Cpu,
    start: u32,
    mask: u16,
    size: InstructionSize,
    bus: &mut B,
) -> (r: (u32, u32))
    requires
        old(bus).valid(),
    ensures
        final(bus).valid(),
        (machine(*final(cpu), *final(bus)), r.0, r.1) == movem_load_sem::<B>(
            machine(*old(cpu), *old(bus)),
            start,
            mask,
            size,
            16,
        ),
{
    let step: u32 = if size == InstructionSize::Long {
        4
    } else {
        2
    };
    let ghost s0 = machine(*cpu, *bus);
    let mut addr: u32 = start;
    let mut cycles: u32 = 8;
    let mut bits: u16 = mask;
    let mut i: u8 = 0;
    while i < 16
        invariant
            i <= 16,
            step == movem_step(size),
            cycles <= 8 + 4 * i,
            bits == mask_after(mask, i as nat),
            bus.valid(),
            (machine(*cpu, *bus), addr, cycles) == movem_load_sem::<B>(
                s0,
                start,
                mask,
                size,
                i as nat,
            ),
        decreases 16 - i,
    {
        if bits % 2 == 1 {
            let val: u32 = movem_fetch(bus, addr, size);
            if i < 8 {
                cpu.write_d(i, val);
            } else {
                cpu.write_a(i - 8, val);
            }
            addr = addr.wrapping_add(step);
            cycles = cycles + step;
        }
        bits = bits / 2;
        i = i + 1;
    }
    (addr, cycles)
}

/// MOVEM: moves the registers of a mask to or from memory. Pre-decrement and post-increment leave the final address in the register.
pub open spec fn movem_sem<B: Bus>(s: Machine<B::Model>, opcode: u16, size: InstructionSize) -> (u32, Machine<B::Model>) {
    let ea = src_ea_of(opcode);
    let (mask, s1) = fetch_word_sem::<B>(s);
    if !bit_of(opcode, 0x400) {
        match ea {
            AddressingMode::AddrPreDec(reg) => {
                let start = s1.cpu.read_a(reg as int);
                let (m, addr, cycles) = movem_down_sem::<B>(s1.cpu, s1.bus, start, mask, size, 16);
                (cycles, Machine { cpu: s1.cpu.write_a(reg as int, addr), bus: m })
            },
            _ => {
                let (start, s2) = resolve_ea_sem::<B>(s1, ea, size);
                let (m, _, cycles) = movem_up_sem::<B>(s2.cpu, s2.bus, start, mask, size, 16);
                (cycles, s2.with_bus(m))
            },
        }
    } else {
        match ea {
            AddressingMode::AddrPostInc(reg) => {
                let start = s1.cpu.read_a(reg as int);
                let (s2, addr, cycles) = movem_load_sem::<B>(s1, start, mask, size, 16);
                (cycles, s2.with_cpu(s2.cpu.write_a(reg as int, addr)))
            },
            _ => {
                let (start, s2) = resolve_ea_sem::<B>(s1, ea, size);
                let (s3, _, cycles) = movem_load_sem::<B>(s2, start, mask, size, 16);
                (cycles, s3)
            },
        }
    }
}

/// MOVEM: moves the registers of a mask to or from memory. Pre-decrement and post-increment leave the final address in the register.
pub fn exec_movem<B: Bus>(cpu: &mut Cpu, opcode: u16, size: InstructionSize, bus: &mut B) -> (r: u32)
    requires
        old(bus).valid(),
    ensures
        final(bus).valid(),
        (r, machine(*final(cpu), *final(bus))) == movem_sem::<B>(
            machine(*old(cpu), *old(bus)),
            opcode,
            size,
        ),
{
    let mask: u16 = fetch_word(cpu, bus);
    let ea = src_ea(opcode);
    if !bit(opcode, 0x400) {
        match ea {
            AddressingMode::AddrPreDec(reg) => {
                let start: u32 = cpu.read_a(reg);
                let (addr, cycles) = movem_store_down(cpu, start, mask, size, bus);
                cpu.write_a(reg, addr);
                cycles
            },
            _ => {
                let start: u32 = resolve_ea(cpu, ea, size, bus);
                let (_, cycles) = movem_store_up(cpu, start, mask, size, bus);
                cycles
            },
        }
    } else {
        match ea {
            AddressingMode::AddrPostInc(reg) => {
                let start: u32 = cpu.read_a(reg);
                let (addr, cycles) = movem_load(cpu, start, mask, size, bus);
                cpu.write_a(reg, addr);
                cycles
            },
            _ => {
                let start: u32 = resolve_ea(cpu, ea, size, bus);
                let (_, cycles) = movem_load(cpu, start, mask, size, bus);
                cycles
            },
        }
    }
}

/// A MOVEM list of `n` mask bits takes 8 cycles and at most 4 more for each.
proof fn lemma_movem_list_cycles<B: Bus>(
    s: Machine<B::Model>,
    start: u32,
    mask: u16,
    size: InstructionSize,
    n: nat,
)
    requires
        n <= 16,
    ensures
        8 <= movem_down_sem::<B>(s.cpu, s.bus, start, mask, size, n).2 <= 8 + 4 * n,
        8 <= movem_up_sem::<B>(s.cpu, s.bus, start, mask, size, n).2 <= 8 + 4 * n,
        8 <= movem_load_sem::<B>(s, start, mask, size, n).2 <= 8 + 4 * n,
    decreases n,
{
    if n > 0 {
        lemma_movem_list_cycles::<B>(s, start, mask, size, (n - 1) as nat);
    }
}

/// MOVEM takes 8 to 72 cycles.
pub proof fn lemma_movem_cycles<B: Bus>(s: Machine<B::Model>, opcode: u16, size: InstructionSize)
    ensures
        8 <= movem_sem::<B>(s, opcode, size).0 <= 72,
{
    let ea = src_ea_of(opcode);
    let (mask, s1) = fetch_word_sem::<B>(s);
    let (start, s2) = resolve_ea_sem::<B>(s1, ea, size);
    lemma_movem_list_cycles::<B>(s2, start, mask, size, 16);
    match ea {
        AddressingMode::AddrPreDec(reg) => {
            lemma_movem_list_cycles::<B>(s1, s1.cpu.read_a(reg as int), mask, size, 16);
        },
        AddressingMode::AddrPostInc(reg) => {
            lemma_movem_list_cycles::<B>(s1, s1.cpu.read_a(reg as int), mask, size, 16);
        },
        _ => {},
    }
}

/// MOVEP from memory: the bytes at every other address, high byte first.
pub open spec fn movep_load_sem<B: Bus>(
    s: Machine<B::Model>,
    reg: int,
    base: u32,
    size: InstructionSize,
) -> Machine<B::Model> {
    let (b3, m1) = B::read_byte_model(s.bus, base);
    let (b2, m2) = B::read_byte_model(m1, base.wrapping_add(2));
    if size == InstructionSize::Long {
        let (b1, m3) = B::read_byte_model(m2, base.wrapping_add(4));
        let (b0, m4) = B::read_byte_model(m3, base.wrapping_add(6));
        Machine {
            cpu: s.cpu.write_d(
                reg,
                (b3 * 0x100_0000 + b2 * 0x1_0000 + b1 * 0x100 + b0) as u32,
            ),
            bus: m4,
        }
    } else {
        Machine {
            cpu: s.cpu.write_d(
                reg,
                merge(s.cpu.d[reg], (b3 * 0x100 + b2) as u32, InstructionSize::Word),
            ),
            bus: m2,
        }
    }
}

/// MOVEP to memory: the bytes to every other address, high byte first.
pub open spec fn movep_store_sem<B: Bus>(
    m: B::Model,
    val: u32,
    base: u32,
    size: InstructionSize,
) -> B::Model {
    if size == InstructionSize::Long {
        let m1 = B::write_byte_model(m, base, (val / 0x100_0000) as u8);
        let m2 = B::write_byte_model(m1, base.wrapping_add(2), ((val / 0x1_0000) % 0x100) as u8);
        let m3 = B::write_byte_model(m2, base.wrapping_add(4), ((val / 0x100) % 0x100) as u8);
        B::write_byte_model(m3, base.wrapping_add(6), (val % 0x100) as u8)
    } else {
        let m1 = B::write_byte_model(m, base, ((val / 0x100) % 0x100) as u8);
        B::write_byte_model(m1, base.wrapping_add(2), (val % 0x100) as u8)
    }
}

/// MOVEP: moves a data register to or from alternate memory bytes.
pub open spec fn movep_sem<B: Bus>(s: Machine<B::Model>, opcode: u16, size: InstructionSize) -> (u32, Machine<B::Model>) {
    let (disp, s1) = fetch_word_sem::<B>(s);
    let reg = reg_high_of(opcode) as int;
    let base = bus_addr(s1.cpu.read_a(reg_low_of(opcode) as int).wrapping_add(extend_word(disp)));
    let s2 = if !bit_of(opcode, 0x80) {
        movep_load_sem::<B>(s1, reg, base, size)
    } else {
        s1.with_bus(movep_store_sem::<B>(s1.bus, s1.cpu.d[reg], base, size))
    };
    (
        if size == InstructionSize::Long {
            24
        } else {
            16
        },
        s2,
    )
}

/// MOVEP: moves a data register to or from alternate memory bytes.
pub fn exec_movep<B: Bus>(cpu: &mut Cpu, opcode: u16, size: InstructionSize, bus: &mut B) -> (r: u32)
    requires
        old(bus).valid(),
    ensures
        final(bus).valid(),
        (r, machine(*final(cpu), *final(bus))) == movep_sem::<B>(
            machine(*old(cpu), *old(bus)),
            opcode,
            size,
        ),
{
    let reg: u8 = reg_high(opcode);
    let disp: u16 = fetch_word(cpu, bus);
    let base: u32 = cpu.read_a(reg_low(opcode)).wrapping_add(sign_extend_word(disp)) % 0x0100_0000;
    if !bit(opcode, 0x80) {
        let b3: u32 = bus.read_byte(base) as u32;
        let b2: u32 = bus.read_byte(base.wrapping_add(2)) as u32;
        if size == InstructionSize::Long {
            let b1: u32 = bus.read_byte(base.wrapping_add(4)) as u32;
            let b0: u32 = bus.read_byte(base.wrapping_add(6)) as u32;
            cpu.write_d(reg, b3 * 0x100_0000 + b2 * 0x1_0000 + b1 * 0x100 + b0);
        } else {
            let merged: u32 = merge_value(cpu.read_d(reg), b3 * 0x100 + b2, InstructionSize::Word);
            cpu.write_d(reg, merged);
        }
    } else {
        let val: u32 = cpu.read_d(reg);
        if size == InstructionSize::Long {
            bus.write_byte(base, (val / 0x100_0000) as u8);
            bus.write_byte(base.wrapping_add(2), ((val / 0x1_0000) % 0x100) as u8);
            bus.write_byte(base.wrapping_add(4), ((val / 0x100) % 0x100) as u8);
            bus.write_byte(base.wrapping_add(6), (val % 0x100) as u8);
        } else {
            bus.write_byte(base, ((val / 0x100) % 0x100) as u8);
            bus.write_byte(base.wrapping_add(2), (val % 0x100) as u8);
        }
    }
    if size == InstructionSize::Long {
        24
    } else {
        16
    }
}

} // verus!
