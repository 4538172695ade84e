//! Branch, jump, stack frame and system instructions of the 68000.
use vstd::prelude::*;

use super::decode::{
    condition_field, condition_field_of, reg_high, reg_high_of, reg_low, reg_low_of,
    AddressingMode, InstructionSize,
};
use super::engine::{Cpu, CpuState};
use super::exception::{exception_sem, exec_exception, update_sr, update_sr_sem};
use super::flags::{condition_holds, evaluate_condition, nz_flags, set_flags_nz};
use super::operand::{
    extend_byte, extend_word, fetch_word, fetch_word_sem, machine, merge, merge_value, pop_long,
    pop_long_sem, pop_word, pop_word_sem, push_long, push_long_sem, read_ea, read_ea_sem,
    resolve_ea, resolve_ea_sem, sign_extend_byte, sign_extend_word, src_ea, src_ea_of, write_ea,
    write_ea_sem, Bus, Machine,
};
use super::{has_flag, StatusRegister};

verus! {

// ── Branches ─────────────────────────────────────────────────────────────

/// The displacement of a branch: the low byte of the opcode, or the next word
/// where that byte is zero.
pub open spec fn branch_displacement_sem<B: Bus>(s: Machine<B::Model>, opcode: u16) -> (
    u32,
    Machine<B::Model>,
) {
    if opcode % 0x100 == 0 {
        let (w, s1) = fetch_word_sem::<B>(s);
        (extend_word(w), s1)
    } else {
        (extend_byte((opcode % 0x100) as u8), s)
    }
}

/// Reads the displacement of a branch.
fn branch_displacement<B: Bus>(cpu: &mut Cpu, opcode: u16, bus: &mut B) -> (r: u32)
    requires
        old(bus).valid(),
    ensures
        final(bus).valid(),
        (r, machine(*final(cpu), *final(bus))) == branch_displacement_sem::<B>(
            machine(*old(cpu), *old(bus)),
            opcode,
        ),
{
    if opcode % 0x100 == 0 {
        let w: u16 = fetch_word(cpu, bus);
        sign_extend_word(w)
    } else {
        sign_extend_byte((opcode % 0x100) as u8)
    }
}

/// Bcc: branches relative to the word after the opcode if a condition holds.
pub open spec fn bcc_sem<B: Bus>(s: Machine<B::Model>, opcode: u16) -> (u32, Machine<B::Model>) {
    let (disp, s1) = branch_displacement_sem::<B>(s, opcode);
    if condition_holds(s1.cpu.sr, condition_field_of(opcode)) {
        (10, s1.with_pc(s.cpu.pc.wrapping_add(disp)))
    } else {
        (8, s1)
    }
}

/// Bcc: branches relative to the word after the opcode if a condition holds.
pub fn exec_bcc<B: Bus>(cpu: &mut Cpu, opcode: u16, bus: &mut B) -> (r: u32)
    requires
        old(bus).valid(),
    ensures
        final(bus).valid(),
        (r, machine(*final(cpu), *final(bus))) == bcc_sem::<B>(
            machine(*old(cpu), *old(bus)),
            opcode,
        ),
{
    let base: u32 = cpu.pc;
    let disp: u32 = branch_displacement(cpu, opcode, bus);
    if evaluate_condition(&cpu.sr, condition_field(opcode)) {
        cpu.pc = base.wrapping_add(disp);
        10
    } else {
        8
    }
}

/// BSR: pushes the address after the instruction and branches.
pub open spec fn bsr_sem<B: Bus>(s: Machine<B::Model>, opcode: u16) -> (u32, Machine<B::Model>) {
    let (disp, s1) = branch_displacement_sem::<B>(s, opcode);
    let s2 = push_long_sem::<B>(s1, s1.cpu.pc);
    (18, s2.with_pc(s.cpu.pc.wrapping_add(disp)))
}

/// BSR: pushes the address after the instruction and branches.
pub fn exec_bsr<B: Bus>(cpu: &mut Cpu, opcode: u16, bus: &mut B) -> (r: u32)
    requires
        old(bus).valid(),
    ensures
        final(bus).valid(),
        (r, machine(*final(cpu), *final(bus))) == bsr_sem::<B>(
            machine(*old(cpu), *old(bus)),
            opcode,
        ),
{
    let base: u32 = cpu.pc;
    let disp: u32 = branch_displacement(cpu, opcode, bus);
    let return_address: u32 = cpu.pc;
    push_long(cpu, bus, return_address);
    cpu.pc = base.wrapping_add(disp);
    18
}

/// DBcc: unless a condition holds, decrements the word of a data register and branches while it does not pass zero.
pub open spec fn dbcc_sem<B: Bus>(s: Machine<B::Model>, opcode: u16) -> (u32, Machine<B::Model>) {
    let reg = reg_low_of(opcode) as int;
    let (disp, s1) = fetch_word_sem::<B>(s);
    if condition_holds(s1.cpu.sr, condition_field_of(opcode)) {
        (12, s1)
    } else {
        let counter = s1.cpu.d[reg] % 0x1_0000;
        let next = if counter == 0 {
            0xFFFFu32
        } else {
            (counter - 1) as u32
        };
        let s2 = s1.with_cpu(
            s1.cpu.write_d(reg, merge(s1.cpu.d[reg], next, InstructionSize::Word)),
        );
        if counter == 0 {
            (14, s2)
        } else {
            (10, s2.with_pc(s.cpu.pc.wrapping_add(extend_word(disp))))
        }
    }
}

/// DBcc: unless a condition holds, decrements the word of a data register and branches while it does not pass zero.
pub fn exec_dbcc<B: Bus>(cpu: &mut Cpu, opcode: u16, bus: &mut B) -> (r: u32)
    requires
        old(bus).valid(),
    ensures
        final(bus).valid(),
        (r, machine(*final(cpu), *final(bus))) == dbcc_sem::<B>(
            machine(*old(cpu), *old(bus)),
            opcode,
        ),
{
    let reg: u8 = reg_low(opcode);
    let base: u32 = cpu.pc;
    let disp: u16 = fetch_word(cpu, bus);
    if evaluate_condition(&cpu.sr, condition_field(opcode)) {
        return 12;
    }
    let value: u32 = cpu.read_d(reg);
    let counter: u32 = value % 0x1_0000;
    let next: u32 = if counter == 0 {
        0xFFFF
    } else {
        counter - 1
    };
    cpu.write_d(reg, merge_value(value, next, InstructionSize::Word));
    if counter == 0 {
        14
    } else {
        cpu.pc = base.wrapping_add(sign_extend_word(disp));
        10
    }
}

/// Scc: writes 0xFF to a byte operand if a condition holds, else 0.
pub open spec fn scc_sem<B: Bus>(s: Machine<B::Model>, opcode: u16) -> (u32, Machine<B::Model>) {
    let ea = src_ea_of(opcode);
    let holds = condition_holds(s.cpu.sr, condition_field_of(opcode));
    let val = if holds {
        0xFFu32
    } else {
        0
    };
    let cycles = match ea {
        AddressingMode::DataDirect(_) => if holds {
            6u32
        } else {
            4
        },
        _ => 8,
    };
    (cycles, write_ea_sem::<B>(s, ea, InstructionSize::Byte, val))
}

/// Scc: writes 0xFF to a byte operand if a condition holds, else 0.
pub fn exec_scc<B: Bus>(cpu: &mut Cpu, opcode: u16, bus: &mut B) -> (r: u32)
    requires
        old(bus).valid(),
    ensures
        final(bus).valid(),
        (r, machine(*final(cpu), *final(bus))) == scc_sem::<B>(
            machine(*old(cpu), *old(bus)),
            opcode,
        ),
{
    let ea = src_ea(opcode);
    let holds: bool = evaluate_condition(&cpu.sr, condition_field(opcode));
    let val: u32 = if holds {
        0xFF
    } else {
        0
    };
    write_ea(cpu, ea, InstructionSize::Byte, bus, val);
    match ea {
        AddressingMode::DataDirect(_) => {
            if holds {
                6
            } else {
                4
            }
        },
        _ => 8,
    }
}

// ── Jumps and subroutines ────────────────────────────────────────────────

/// Cycles of JMP by addressing mode; JSR takes eight more.
pub open spec fn jump_cycles(ea: AddressingMode) -> u32 {
    match ea {
        AddressingMode::AddrDisp(_) => 10,
        AddressingMode::AddrIndex(_) => 14,
        AddressingMode::AbsShort => 10,
        AddressingMode::AbsLong => 12,
        AddressingMode::PcDisp => 10,
        AddressingMode::PcIndex => 14,
        _ => 8,
    }
}

/// Returns the cycles of JMP by addressing mode.
fn cycles_of_jump(ea: AddressingMode) -> (r: u32)
    ensures
        r == jump_cycles(ea),
        r <= 14,
{
    match ea {
        AddressingMode::AddrDisp(_) => 10,
        AddressingMode::AddrIndex(_) => 14,
        AddressingMode::AbsShort => 10,
        AddressingMode::AbsLong => 12,
        AddressingMode::PcDisp => 10,
        AddressingMode::PcIndex => 14,
        _ => 8,
    }
}

/// JMP: continues at an effective address.
pub open spec fn jmp_sem<B: Bus>(s: Machine<B::Model>, opcode: u16) -> (u32, Machine<B::Model>) {
    let ea = src_ea_of(opcode);
    let (addr, s1) = resolve_ea_sem::<B>(s, ea, InstructionSize::Long);
    (jump_cycles(ea), s1.with_pc(addr))
}

/// JMP: continues at an effective address.
pub fn exec_jmp<B: Bus>(cpu: &mut Cpu, opcode: u16, bus: &mut B) -> (r: u32)
    requires
        old(bus).valid(),
    ensures
        final(bus).valid(),
        (r, machine(*final(cpu), *final(bus))) == jmp_sem::<B>(
            machine(*old(cpu), *old(bus)),
            opcode,
        ),
{
    let ea = src_ea(opcode);
    let addr: u32 = resolve_ea(cpu, ea, InstructionSize::Long, bus);
    cpu.pc = addr;
    cycles_of_jump(ea)
}

/// JSR: pushes the address after the instruction and continues at an effective address.
pub open spec fn jsr_sem<B: Bus>(s: Machine<B::Model>, opcode: u16) -> (u32, Machine<B::Model>) {
    let ea = src_ea_of(opcode);
    let (addr, s1) = resolve_ea_sem::<B>(s, ea, InstructionSize::Long);
    ((jump_cycles(ea) + 8) as u32, push_long_sem::<B>(s1, s1.cpu.pc).with_pc(addr))
}

/// JSR: pushes the address after the instruction and continues at an effective address.
pub fn exec_jsr<B: Bus>(cpu: &mut Cpu, opcode: u16, bus: &mut B) -> (r: u32)
    requires
        old(bus).valid(),
    ensures
        final(bus).valid(),
        (r, machine(*final(cpu), *final(bus))) == jsr_sem::<B>(
            machine(*old(cpu), *old(bus)),
            opcode,
        ),
{
    let ea = src_ea(opcode);
    let addr: u32 = resolve_ea(cpu, ea, InstructionSize::Long, bus);
    let return_address: u32 = cpu.pc;
    push_long(cpu, bus, return_address);
    cpu.pc = addr;
    cycles_of_jump(ea) + 8
}

/// RTS: continues at the popped address.
pub open spec fn rts_sem<B: Bus>(s: Machine<B::Model>) -> (u32, Machine<B::Model>) {
    let (pc, s1) = pop_long_sem::<B>(s);
    (16, s1.with_pc(pc))
}

/// RTS: continues at the popped address.
pub fn exec_rts<B: Bus>(cpu: &mut Cpu, bus: &mut B) -> (r: u32)
    requires
        old(bus).valid(),
    ensures
        final(bus).valid(),
        (r, machine(*final(cpu), *final(bus))) == rts_sem::<B>(
            machine(*old(cpu), *old(bus)),
        ),
{
    let pc: u32 = pop_long(cpu, bus);
    cpu.pc = pc;
    16
}

/// RTE: pops the status word and the program counter.
pub open spec fn rte_sem<B: Bus>(s: Machine<B::Model>) -> (u32, Machine<B::Model>) {
    let (sr, s1) = pop_word_sem::<B>(s);
    let (pc, s2) = pop_long_sem::<B>(s1);
    (20, s2.with_cpu(update_sr_sem(s2.cpu, sr).with_pc(pc)))
}

/// RTE: pops the status word and the program counter.
pub fn exec_rte<B: Bus>(cpu: &mut Cpu, bus: &mut B) -> (r: u32)
    requires
        old(bus).valid(),
    ensures
        final(bus).valid(),
        (r, machine(*final(cpu), *final(bus))) == rte_sem::<B>(
            machine(*old(cpu), *old(bus)),
        ),
{
    let sr: u16 = pop_word(cpu, bus);
    let pc: u32 = pop_long(cpu, bus);
    update_sr(cpu, sr);
    cpu.pc = pc;
    20
}

/// A status word with its low byte replaced by five condition codes.
pub open spec fn with_ccr(sr: u16, ccr: u16) -> u16 {
    (sr & 0xFF00) | (ccr & 0x001F)
}

/// RTR: pops the condition codes and the program counter.
pub open spec fn rtr_sem<B: Bus>(s: Machine<B::Model>) -> (u32, Machine<B::Model>) {
    let (ccr, s1) = pop_word_sem::<B>(s);
    let (pc, s2) = pop_long_sem::<B>(s1);
    (20, s2.with_sr(with_ccr(s2.cpu.sr, ccr)).with_pc(pc))
}

/// RTR: pops the condition codes and the program counter.
pub fn exec_rtr<B: Bus>(cpu: &mut Cpu, bus: &mut B) -> (r: u32)
    requires
        old(bus).valid(),
    ensures
        final(bus).valid(),
        (r, machine(*final(cpu), *final(bus))) == rtr_sem::<B>(
            machine(*old(cpu), *old(bus)),
        ),
{
    let ccr: u16 = pop_word(cpu, bus);
    let pc: u32 = pop_long(cpu, bus);
    cpu.sr.0 = (cpu.sr.0 & 0xFF00) | (ccr & 0x001F);
    cpu.pc = pc;
    20
}

// ── Stack frames ─────────────────────────────────────────────────────────

/// LINK: pushes an address register, points it at the saved value and moves the stack pointer by a displacement.
pub open spec fn link_sem<B: Bus>(s: Machine<B::Model>, opcode: u16) -> (u32, Machine<B::Model>) {
    let reg = reg_low_of(opcode) as int;
    let (disp, s1) = fetch_word_sem::<B>(s);
    let s2 = push_long_sem::<B>(s1, s1.cpu.read_a(reg));
    let c1 = s2.cpu.write_a(reg, s2.cpu.sp());
    (16, s2.with_cpu(c1.with_sp(c1.sp().wrapping_add(extend_word(disp)))))
}

/// LINK: pushes an address register, points it at the saved value and moves the stack pointer by a displacement.
pub fn exec_link<B: Bus>(cpu: &mut Cpu, opcode: u16, bus: &mut B) -> (r: u32)
    requires
        old(bus).valid(),
    ensures
        final(bus).valid(),
        (r, machine(*final(cpu), *final(bus))) == link_sem::<B>(
            machine(*old(cpu), *old(bus)),
            opcode,
        ),
{
    let reg: u8 = reg_low(opcode);
    let disp: u16 = fetch_word(cpu, bus);
    let saved: u32 = cpu.read_a(reg);
    push_long(cpu, bus, saved);
    let frame: u32 = cpu.sp();
    cpu.write_a(reg, frame);
    let sp: u32 = cpu.sp().wrapping_add(sign_extend_word(disp));
    cpu.set_sp(sp);
    16
}

/// UNLK: takes the stack pointer back from an address register and pops that register.
pub open spec fn unlk_sem<B: Bus>(s: Machine<B::Model>, opcode: u16) -> (u32, Machine<B::Model>) {
    let reg = reg_low_of(opcode) as int;
    let s1 = s.with_cpu(s.cpu.with_sp(s.cpu.read_a(reg)));
    let (val, s2) = pop_long_sem::<B>(s1);
    (12, s2.with_cpu(s2.cpu.write_a(reg, val)))
}

/// UNLK: takes the stack pointer back from an address register and pops that register.
pub fn exec_unlk<B: Bus>(cpu: &mut Cpu, opcode: u16, bus: &mut B) -> (r: u32)
    requires
        old(bus).valid(),
    ensures
        final(bus).valid(),
        (r, machine(*final(cpu), *final(bus))) == unlk_sem::<B>(
            machine(*old(cpu), *old(bus)),
            opcode,
        ),
{
    let reg: u8 = reg_low(opcode);
    let frame: u32 = cpu.read_a(reg);
    cpu.set_sp(frame);
    let val: u32 = pop_long(cpu, bus);
    cpu.write_a(reg, val);
    12
}

// ── System ───────────────────────────────────────────────────────────────

/// STOP: loads the status word and stops until an interrupt; in user mode it traps.
pub open spec fn stop_sem<B: Bus>(s: Machine<B::Model>) -> (u32, Machine<B::Model>) {
    let (imm, s1) = fetch_word_sem::<B>(s);
    if !s1.cpu.supervisor() {
        (34, exception_sem::<B>(s1, 8))
    } else {
        (4, s1.with_cpu(CpuState { stopped: true, ..update_sr_sem(s1.cpu, imm) }))
    }
}

/// STOP: loads the status word and stops until an interrupt; in user mode it traps.
pub fn exec_stop<B: Bus>(cpu: &mut Cpu, bus: &mut B) -> (r: u32)
    requires
        old(bus).valid(),
    ensures
        final(bus).valid(),
        (r, machine(*final(cpu), *final(bus))) == stop_sem::<B>(
            machine(*old(cpu), *old(bus)),
        ),
{
    let imm: u16 = fetch_word(cpu, bus);
    if !cpu.sr.supervisor() {
        exec_exception(cpu, bus, 8);
        return 34;
    }
    update_sr(cpu, imm);
    cpu.stopped = true;
    4
}

/// TRAP: takes one of the sixteen exceptions 32 to 47.
pub open spec fn trap_sem<B: Bus>(s: Machine<B::Model>, opcode: u16) -> (u32, Machine<B::Model>) {
    (34, exception_sem::<B>(s, (opcode % 16 + 32) as u8))
}

/// TRAP: takes one of the sixteen exceptions 32 to 47.
pub fn exec_trap<B: Bus>(cpu: &mut Cpu, opcode: u16, bus: &mut B) -> (r: u32)
    requires
        old(bus).valid(),
    ensures
        final(bus).valid(),
        (r, machine(*final(cpu), *final(bus))) == trap_sem::<B>(
            machine(*old(cpu), *old(bus)),
            opcode,
        ),
{
    exec_exception(cpu, bus, (opcode % 16) as u8 + 32);
    34
}

/// TRAPV: traps if the overflow flag is set.
pub open spec fn trapv_sem<B: Bus>(s: Machine<B::Model>) -> (u32, Machine<B::Model>) {
    if has_flag(s.cpu.sr, StatusRegister::V) {
        (34, exception_sem::<B>(s, 7))
    } else {
        (4, s)
    }
}

/// TRAPV: traps if the overflow flag is set.
pub fn exec_trapv<B: Bus>(cpu: &mut Cpu, bus: &mut B) -> (r: u32)
    requires
        old(bus).valid(),
    ensures
        final(bus).valid(),
        (r, machine(*final(cpu), *final(bus))) == trapv_sem::<B>(
            machine(*old(cpu), *old(bus)),
        ),
{
    if cpu.sr.flag(StatusRegister::V) {
        exec_exception(cpu, bus, 7);
        34
    } else {
        4
    }
}

/// A long with its two words exchanged.
pub open spec fn swap_words(v: u32) -> u32 {
    ((v % 0x1_0000) * 0x1_0000 + v / 0x1_0000) as u32
}

/// SWAP: exchanges the two words of a data register.
pub open spec fn swap_sem(c: CpuState, opcode: u16) -> (u32, CpuState) {
    let reg = reg_low_of(opcode) as int;
    let val = swap_words(c.d[reg]);
    (4, c.write_d(reg, val).with_sr(nz_flags(c.sr, val, InstructionSize::Long)))
}

/// SWAP: exchanges the two words of a data register.
pub fn exec_swap(cpu: &mut Cpu, opcode: u16) -> (r: u32)
    ensures
        (r, final(cpu)@) == swap_sem(old(cpu)@, opcode),
{
    let reg: u8 = reg_low(opcode);
    let old_value: u32 = cpu.read_d(reg);
    let val: u32 = (old_value % 0x1_0000) * 0x1_0000 + old_value / 0x1_0000;
    cpu.write_d(reg, val);
    set_flags_nz(&mut cpu.sr, val, InstructionSize::Long);
    4
}

/// EXG: exchanges two data registers, two address registers, or one of each.
pub open spec fn exg_sem(c: CpuState, opcode: u16) -> (u32, CpuState) {
    let rx = reg_high_of(opcode) as int;
    let ry = reg_low_of(opcode) as int;
    let opmode = (opcode / 8) % 32;
    let c1 = if opmode == 0x08 {
        c.write_d(rx, c.d[ry]).write_d(ry, c.d[rx])
    } else if opmode == 0x09 {
        c.write_a(rx, c.read_a(ry)).write_a(ry, c.read_a(rx))
    } else if opmode == 0x11 {
        c.write_d(rx, c.read_a(ry)).write_a(ry, c.d[rx])
    } else {
        c
    };
    (6, c1)
}

/// EXG: exchanges two data registers, two address registers, or one of each.
pub fn exec_exg(cpu: &mut Cpu, opcode: u16) -> (r: u32)
    ensures
        (r, final(cpu)@) == exg_sem(old(cpu)@, opcode),
{
    let rx: u8 = reg_high(opcode);
    let ry: u8 = reg_low(opcode);
    let opmode: u16 = (opcode / 8) % 32;
    if opmode == 0x08 {
        let x: u32 = cpu.read_d(rx);
        let y: u32 = cpu.read_d(ry);
        cpu.write_d(rx, y);
        cpu.write_d(ry, x);
    } else if opmode == 0x09 {
        let x: u32 = cpu.read_a(rx);
        let y: u32 = cpu.read_a(ry);
        cpu.write_a(rx, y);
        cpu.write_a(ry, x);
    } else if opmode == 0x11 {
        let x: u32 = cpu.read_d(rx);
        let y: u32 = cpu.read_a(ry);
        cpu.write_d(rx, y);
        cpu.write_a(ry, x);
    }
    6
}

/// ANDI to CCR: clears condition codes.
pub open spec fn andi_ccr_sem<B: Bus>(s: Machine<B::Model>) -> (u32, Machine<B::Model>) {
    let (imm, s1) = fetch_word_sem::<B>(s);
    (20, s1.with_sr((s1.cpu.sr & 0xFF00) | (s1.cpu.sr & imm & 0x001F)))
}

/// ANDI to CCR: clears condition codes.
pub fn exec_andi_ccr<B: Bus>(cpu: &mut Cpu, bus: &mut B) -> (r: u32)
    requires
        old(bus).valid(),
    ensures
        final(bus).valid(),
        (r, machine(*final(cpu), *final(bus))) == andi_ccr_sem::<B>(
            machine(*old(cpu), *old(bus)),
        ),
{
    let imm: u16 = fetch_word(cpu, bus);
    cpu.sr.0 = (cpu.sr.0 & 0xFF00) | (cpu.sr.0 & imm & 0x001F);
    20
}

/// ORI to CCR: sets condition codes.
pub open spec fn ori_ccr_sem<B: Bus>(s: Machine<B::Model>) -> (u32, Machine<B::Model>) {
    let (imm, s1) = fetch_word_sem::<B>(s);
    (20, s1.with_sr(s1.cpu.sr | (imm & 0x001F)))
}

/// ORI to CCR: sets condition codes.
pub fn exec_ori_ccr<B: Bus>(cpu: &mut Cpu, bus: &mut B) -> (r: u32)
    requires
        old(bus).valid(),
    ensures
        final(bus).valid(),
        (r, machine(*final(cpu), *final(bus))) == ori_ccr_sem::<B>(
            machine(*old(cpu), *old(bus)),
        ),
{
    let imm: u16 = fetch_word(cpu, bus);
    cpu.sr.0 = cpu.sr.0 | (imm & 0x001F);
    20
}

/// EORI to CCR: inverts condition codes.
pub open spec fn eori_ccr_sem<B: Bus>(s: Machine<B::Model>) -> (u32, Machine<B::Model>) {
    let (imm, s1) = fetch_word_sem::<B>(s);
    (20, s1.with_sr(s1.cpu.sr ^ (imm & 0x001F)))
}

/// EORI to CCR: inverts condition codes.
pub fn exec_eori_ccr<B: Bus>(cpu: &mut Cpu, bus: &mut B) -> (r: u32)
    requires
        old(bus).valid(),
    ensures
        final(bus).valid(),
        (r, machine(*final(cpu), *final(bus))) == eori_ccr_sem::<B>(
            machine(*old(cpu), *old(bus)),
        ),
{
    let imm: u16 = fetch_word(cpu, bus);
    cpu.sr.0 = cpu.sr.0 ^ (imm & 0x001F);
    20
}

/// ANDI to SR: clears status bits.
pub open spec fn andi_sr_sem<B: Bus>(s: Machine<B::Model>) -> (u32, Machine<B::Model>) {
    let (imm, s1) = fetch_word_sem::<B>(s);
    (20, s1.with_cpu(update_sr_sem(s1.cpu, s1.cpu.sr & imm)))
}

/// ANDI to SR: clears status bits.
pub fn exec_andi_sr<B: Bus>(cpu: &mut Cpu, bus: &mut B) -> (r: u32)
    requires
        old(bus).valid(),
    ensures
        final(bus).valid(),
        (r, machine(*final(cpu), *final(bus))) == andi_sr_sem::<B>(
            machine(*old(cpu), *old(bus)),
        ),
{
    let imm: u16 = fetch_word(cpu, bus);
    let sr: u16 = cpu.sr.0 & imm;
    update_sr(cpu, sr);
    20
}

/// ORI to SR: sets status bits.
pub open spec fn ori_sr_sem<B: Bus>(s: Machine<B::Model>) -> (u32, Machine<B::Model>) {
    let (imm, s1) = fetch_word_sem::<B>(s);
    (20, s1.with_cpu(update_sr_sem(s1.cpu, s1.cpu.sr | imm)))
}

/// ORI to SR: sets status bits.
pub fn exec_ori_sr<B: Bus>(cpu: &mut Cpu, bus: &mut B) -> (r: u32)
    requires
        old(bus).valid(),
    ensures
        final(bus).valid(),
        (r, machine(*final(cpu), *final(bus))) == ori_sr_sem::<B>(
            machine(*old(cpu), *old(bus)),
        ),
{
    let imm: u16 = fetch_word(cpu, bus);
    let sr: u16 = cpu.sr.0 | imm;
    update_sr(cpu, sr);
    20
}

/// EORI to SR: inverts status bits.
pub open spec fn eori_sr_sem<B: Bus>(s: Machine<B::Model>) -> (u32, Machine<B::Model>) {
    let (imm, s1) = fetch_word_sem::<B>(s);
    (20, s1.with_cpu(update_sr_sem(s1.cpu, s1.cpu.sr ^ imm)))
}

/// EORI to SR: inverts status bits.
pub fn exec_eori_sr<B: Bus>(cpu: &mut Cpu, bus: &mut B) -> (r: u32)
    requires
        old(bus).valid(),
    ensures
        final(bus).valid(),
        (r, machine(*final(cpu), *final(bus))) == eori_sr_sem::<B>(
            machine(*old(cpu), *old(bus)),
        ),
{
    let imm: u16 = fetch_word(cpu, bus);
    let sr: u16 = cpu.sr.0 ^ imm;
    update_sr(cpu, sr);
    20
}

/// MOVE to SR: loads the status word.
pub open spec fn move_to_sr_sem<B: Bus>(s: Machine<B::Model>, opcode: u16) -> (u32, Machine<B::Model>) {
    let (val, s1) = read_ea_sem::<B>(s, src_ea_of(opcode), InstructionSize::Word);
    (12, s1.with_cpu(update_sr_sem(s1.cpu, (val % 0x1_0000) as u16)))
}

/// MOVE to SR: loads the status word.
pub fn exec_move_to_sr<B: Bus>(cpu: &mut Cpu, opcode: u16, bus: &mut B) -> (r: u32)
    requires
        old(bus).valid(),
    ensures
        final(bus).valid(),
        (r, machine(*final(cpu), *final(bus))) == move_to_sr_sem::<B>(
            machine(*old(cpu), *old(bus)),
            opcode,
        ),
{
    let val: u32 = read_ea(cpu, src_ea(opcode), InstructionSize::Word, bus);
    update_sr(cpu, (val % 0x1_0000) as u16);
    12
}

/// MOVE from SR: stores the status word.
pub open spec fn move_from_sr_sem<B: Bus>(s: Machine<B::Model>, opcode: u16) -> (u32, Machine<B::Model>) {
    let ea = src_ea_of(opcode);
    let cycles = match ea {
        AddressingMode::DataDirect(_) => 6u32,
        _ => 8,
    };
    (cycles, write_ea_sem::<B>(s, ea, InstructionSize::Word, s.cpu.sr as u32))
}

/// MOVE from SR: stores the status word.
pub fn exec_move_from_sr<B: Bus>(cpu: &mut Cpu, opcode: u16, bus: &mut B) -> (r: u32)
    requires
        old(bus).valid(),
    ensures
        final(bus).valid(),
        (r, machine(*final(cpu), *final(bus))) == move_from_sr_sem::<B>(
            machine(*old(cpu), *old(bus)),
            opcode,
        ),
{
    let ea = src_ea(opcode);
    let val: u32 = cpu.sr.0 as u32;
    write_ea(cpu, ea, InstructionSize::Word, bus, val);
    match ea {
        AddressingMode::DataDirect(_) => 6,
        _ => 8,
    }
}

/// MOVE to CCR: loads the condition codes.
pub open spec fn move_to_ccr_sem<B: Bus>(s: Machine<B::Model>, opcode: u16) -> (u32, Machine<B::Model>) {
    let (val, s1) = read_ea_sem::<B>(s, src_ea_of(opcode), InstructionSize::Word);
    (12, s1.with_sr(with_ccr(s1.cpu.sr, (val % 0x1_0000) as u16)))
}

/// MOVE to CCR: loads the condition codes.
pub fn exec_move_to_ccr<B: Bus>(cpu: &mut Cpu, opcode: u16, bus: &mut B) -> (r: u32)
    requires
        old(bus).valid(),
    ensures
        final(bus).valid(),
        (r, machine(*final(cpu), *final(bus))) == move_to_ccr_sem::<B>(
            machine(*old(cpu), *old(bus)),
            opcode,
        ),
{
    let val: u32 = read_ea(cpu, src_ea(opcode), InstructionSize::Word, bus);
    let word: u16 = (val % 0x1_0000) as u16;
    cpu.sr.0 = (cpu.sr.0 & 0xFF00) | (word & 0x001F);
    12
}

/// MOVE USP: copies an address register to the user stack pointer or back.
pub open spec fn move_usp_sem(c: CpuState, opcode: u16) -> (u32, CpuState) {
    let reg = reg_low_of(opcode) as int;
    if (opcode / 8) % 2 == 0 {
        (4, CpuState { usp: c.read_a(reg), ..c })
    } else {
        (4, c.write_a(reg, c.usp))
    }
}

/// MOVE USP: copies an address register to the user stack pointer or back.
pub fn exec_move_usp(cpu: &mut Cpu, opcode: u16) -> (r: u32)
    ensures
        (r, final(cpu)@) == move_usp_sem(old(cpu)@, opcode),
{
    let reg: u8 = reg_low(opcode);
    if (opcode / 8) % 2 == 0 {
        cpu.usp = cpu.read_a(reg);
    } else {
        let usp: u32 = cpu.usp;
        cpu.write_a(reg, usp);
    }
    4
}

// ── Laws ─────────────────────────────────────────────────────────────────

/// SWAP twice gives the register back.
pub proof fn law_swap_is_an_involution(v: u32)
    ensures
        swap_words(swap_words(v)) == v,
{
}

/// EXG twice gives the registers back.
pub proof fn law_exg_is_an_involution(c: CpuState, opcode: u16)
    requires
        c.d.len() == 8,
        c.a.len() == 7,
    ensures
        exg_sem(exg_sem(c, opcode).1, opcode).1 == c,
{
    assert(exg_sem(exg_sem(c, opcode).1, opcode).1 =~= c);
}

/// A bus hands back, as a long, what was last written as a long at `addr`.
pub open spec fn long_write_reads_back<B: Bus>(m: B::Model, addr: u32, val: u32) -> bool {
    super::operand::read_long_sem::<B>(
        super::operand::write_long_sem::<B>(m, addr, val),
        addr,
    ).0 == val
}

/// Where the stack is ordinary memory, a pushed long pops back and the stack
/// pointer returns to where it was.
pub proof fn law_push_pop_long<B: Bus>(s: Machine<B::Model>, val: u32)
    requires
        long_write_reads_back::<B>(
            s.bus,
            super::operand::bus_addr(s.cpu.sp().wrapping_sub(4)),
            val,
        ),
    ensures
        pop_long_sem::<B>(push_long_sem::<B>(s, val)).0 == val,
        pop_long_sem::<B>(push_long_sem::<B>(s, val)).1.cpu == s.cpu,
{
}

/// Where the stack is ordinary memory, RTS comes back to the instruction after
/// JSR with the registers as they were when JSR had resolved its target.
pub proof fn law_jsr_rts_roundtrip<B: Bus>(s: Machine<B::Model>, opcode: u16)
    requires
        ({
            let s1 = resolve_ea_sem::<B>(s, src_ea_of(opcode), InstructionSize::Long).1;
            long_write_reads_back::<B>(
                s1.bus,
                super::operand::bus_addr(s1.cpu.sp().wrapping_sub(4)),
                s1.cpu.pc,
            )
        }),
    ensures
        ({
            let s1 = resolve_ea_sem::<B>(s, src_ea_of(opcode), InstructionSize::Long).1;
            rts_sem::<B>(jsr_sem::<B>(s, opcode).1).1.cpu == s1.cpu
        }),
{
}

/// Where the stack is ordinary memory, UNLK undoes LINK: the registers are
/// those after the displacement word was fetched. (LINK on A7 itself is left
/// out: there the stack pointer is both frame and saved register.)
pub proof fn law_link_unlk_roundtrip<B: Bus>(s: Machine<B::Model>, link: u16, unlk: u16)
    requires
        s.cpu.a.len() == 7,
        reg_low_of(link) == reg_low_of(unlk),
        reg_low_of(link) != 7,
        ({
            let s1 = fetch_word_sem::<B>(s).1;
            long_write_reads_back::<B>(
                s1.bus,
                super::operand::bus_addr(s1.cpu.sp().wrapping_sub(4)),
                s1.cpu.read_a(reg_low_of(link) as int),
            )
        }),
    ensures
        unlk_sem::<B>(link_sem::<B>(s, link).1, unlk).1.cpu == fetch_word_sem::<B>(s).1.cpu,
{
    assert(unlk_sem::<B>(link_sem::<B>(s, link).1, unlk).1.cpu =~= fetch_word_sem::<B>(s).1.cpu);
}

} // verus!
