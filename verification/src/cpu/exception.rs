//! Exceptions and interrupts of the 68000.
use vstd::prelude::*;

use super::engine::{Cpu, CpuState};
use super::flags::SR_MASK;
use super::operand::{
    machine, push_long, push_long_sem, push_word, push_word_sem, read_long, read_long_sem, Bus,
    Machine,
};
use super::{has_flag, interrupt_level, with_flag, with_interrupt_level, StatusRegister};

verus! {

/// The status word on entry to an exception: supervisor mode, no trace.
pub open spec fn exception_status(sr: u16) -> u16 {
    let sr1 = if has_flag(sr, StatusRegister::S) {
        sr
    } else {
        with_flag(sr, StatusRegister::S, true)
    };
    with_flag(sr1, StatusRegister::T, false)
}

/// An exception: the program counter and the old status go on the supervisor
/// stack, and execution continues at the vector.
pub open spec fn exception_sem<B: Bus>(s: Machine<B::Model>, vector: u8) -> Machine<B::Model> {
    let s1 = push_long_sem::<B>(s.with_sr(exception_status(s.cpu.sr)), s.cpu.pc);
    let s2 = push_word_sem::<B>(s1, s.cpu.sr);
    let (handler, m) = read_long_sem::<B>(s2.bus, (vector * 4) as u32);
    Machine { cpu: s2.cpu.with_pc(handler), bus: m }
}

/// Processes a 68000 exception: pushes PC and SR, reads the vector, jumps.
pub fn exec_exception<B: Bus>(cpu: &mut Cpu, bus: &mut B, vector: u8)
    requires
        old(bus).valid(),
    ensures
        final(bus).valid(),
        machine(*final(cpu), *final(bus)) == exception_sem::<B>(
            machine(*old(cpu), *old(bus)),
            vector,
        ),
{
    let sr_save: u16 = cpu.sr.0;
    if !cpu.sr.supervisor() {
        cpu.sr.set_flag(StatusRegister::S, true);
    }
    cpu.sr.set_flag(StatusRegister::T, false);
    let pc: u32 = cpu.pc;
    push_long(cpu, bus, pc);
    push_word(cpu, bus, sr_save);
    cpu.pc = read_long(bus, vector as u32 * 4);
}

/// The registers after the whole status word is replaced. Both stack pointers
/// keep their values; which of them is A7 follows the supervisor bit.
pub open spec fn update_sr_sem(c: CpuState, new_sr: u16) -> CpuState {
    c.with_sr(new_sr & SR_MASK)
}

/// Updates the full status register; bits that do not exist become 0.
pub fn update_sr(cpu: &mut Cpu, new_sr: u16)
    ensures
        final(cpu)@ == update_sr_sem(old(cpu)@, new_sr),
{
    cpu.sr = StatusRegister::new(new_sr & SR_MASK);
}

/// An interrupt of the given level is taken: it exceeds the priority mask, or
/// is the non-maskable level 7.
pub open spec fn interrupt_accepted(sr: u16, level: u8) -> bool {
    level >= 7 || level > interrupt_level(sr)
}

/// The machine after an interrupt request, and the cycles it took (0 where it
/// is masked). Auto-vector `level` is at address `0x60 + 4 * level`.
pub open spec fn interrupt_sem<B: Bus>(s: Machine<B::Model>, level: u8) -> (
    u32,
    Machine<B::Model>,
) {
    if !interrupt_accepted(s.cpu.sr, level) {
        (0, s)
    } else {
        let entered = with_flag(
            with_interrupt_level(with_flag(s.cpu.sr, StatusRegister::S, true), level),
            StatusRegister::T,
            false,
        );
        let woken = CpuState { stopped: false, sr: entered, ..s.cpu };
        let s1 = push_long_sem::<B>(s.with_cpu(woken), s.cpu.pc);
        let s2 = push_word_sem::<B>(s1, s.cpu.sr);
        let (handler, m) = read_long_sem::<B>(s2.bus, (0x60 + level * 4) as u32);
        (44, Machine { cpu: s2.cpu.with_pc(handler), bus: m })
    }
}

/// Delivers an interrupt to the CPU at the given level (1-7).
///
/// The sequence pushes PC and SR, enters supervisor mode, raises the priority
/// mask to the accepted level, clears the trace flag and jumps through the
/// auto-vector (level 6, V-blank, at 0x78; level 4, H-blank, at 0x70). A CPU
/// stopped by STOP wakes up. Returns the cycles consumed: 44, or 0 where the
/// level does not exceed the mask.
pub fn deliver_interrupt<B: Bus>(cpu: &mut Cpu, bus: &mut B, level: u8) -> (r: u32)
    requires
        old(bus).valid(),
    ensures
        final(bus).valid(),
        (r, machine(*final(cpu), *final(bus))) == interrupt_sem::<B>(
            machine(*old(cpu), *old(bus)),
            level,
        ),
{
    let mask: u8 = cpu.sr.interrupt_mask();
    if level < 7 && level <= mask {
        return 0;
    }
    cpu.stopped = false;
    let old_sr: u16 = cpu.sr.0;
    let old_pc: u32 = cpu.pc;
    cpu.sr.set_flag(StatusRegister::S, true);
    cpu.sr.set_interrupt_mask(level);
    cpu.sr.set_flag(StatusRegister::T, false);
    push_long(cpu, bus, old_pc);
    push_word(cpu, bus, old_sr);
    cpu.pc = read_long(bus, 0x60 + level as u32 * 4);
    44
}

} // verus!
