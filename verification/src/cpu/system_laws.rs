//! What exceptions, returns, subroutine calls and register lists do to the stack,
//! the status word and the memory.
use vstd::prelude::*;

use super::decode::{decode_ea_spec, decode_spec, Instruction, InstructionSize};
use super::engine::CpuState;
use super::exception::{exception_sem, exception_status};
use super::exec_move::{mask_after, movem_down_sem, movem_load_sem, movem_up_sem};
use super::execute::{execute_sem, flow_sem, movement_sem, multiplicative_sem, system_sem};
use super::laws::{fields_ok, in_memory, lemma_codes, lemma_fields, opcode, operand};
use super::operand::{
    bus_addr, extend_word, fetch_word_sem, read_ea_sem, read_long_sem, resolve_ea_sem,
    write_long_sem, Bus, Machine,
};
use super::{has_flag, StatusRegister};

verus! {

// ── Exceptions ───────────────────────────────────────────────────────────

/// The status word on entry to an exception: only S and T change.
proof fn lemma_exception_status(sr: u16)
    ensures
        ({
            let e = exception_status(sr);
            &&& e & 0x2000 == 0x2000
            &&& e & 0x8000 == 0
            &&& e & 0x5FFF == sr & 0x5FFF
            &&& has_flag(e, StatusRegister::S)
        }),
{
    assert({
        let a = (sr | 0x2000u16) & !0x8000u16;
        let b = sr & !0x8000u16;
        &&& a & 0x2000 == 0x2000
        &&& a & 0x8000 == 0
        &&& a & 0x5FFF == sr & 0x5FFF
        &&& sr & 0x2000 != 0 ==> b & 0x2000 == 0x2000
        &&& b & 0x8000 == 0
        &&& b & 0x5FFF == sr & 0x5FFF
    }) by (bit_vector);
}

/// An exception stores the program counter and, below it, the status on the
/// supervisor stack, enters supervisor mode without trace, and continues at the
/// address in long `vector` of the memory. All else stays.
pub proof fn law_exception_frame<B: Bus>(s: Machine<B::Model>, vector: u8)
    ensures
        ({
            let t = exception_sem::<B>(s, vector);
            let sp = s.cpu.ssp;
            let pc = s.cpu.pc;
            let m1 = B::write_word_model(
                s.bus,
                sp.wrapping_sub(4) % 0x100_0000,
                (pc / 0x1_0000) as u16,
            );
            let m2 = B::write_word_model(
                m1,
                sp.wrapping_sub(2) % 0x100_0000,
                (pc % 0x1_0000) as u16,
            );
            let m3 = B::write_word_model(m2, sp.wrapping_sub(6) % 0x100_0000, s.cpu.sr);
            let (hi, m4) = B::read_word_model(m3, (4 * vector) as u32);
            let (lo, m5) = B::read_word_model(m4, (4 * vector + 2) as u32);
            &&& t.cpu.pc == hi * 0x1_0000 + lo
            &&& t.bus == m5
            &&& t.cpu.sr & 0x2000 == 0x2000
            &&& t.cpu.sr & 0x8000 == 0
            &&& t.cpu.sr & 0x5FFF == s.cpu.sr & 0x5FFF
            &&& t.cpu == (CpuState {
                pc: t.cpu.pc,
                sr: t.cpu.sr,
                ssp: sp.wrapping_sub(6),
                ..s.cpu
            })
        }),
{
    lemma_exception_status(s.cpu.sr);
    let sp = s.cpu.ssp;
    let a4 = bus_addr(sp.wrapping_sub(4));
    assert(bus_addr(a4) == a4);
    assert(bus_addr(a4.wrapping_add(2)) == bus_addr(sp.wrapping_sub(2)));
    assert(sp.wrapping_sub(4).wrapping_sub(2) == sp.wrapping_sub(6));
    let v = (vector * 4) as u32;
    assert(bus_addr(v) == v);
    assert(bus_addr(v.wrapping_add(2)) == v + 2);
}

/// TRAP `n` takes vector 32 + `n`; opcodes that mean nothing, and those of lines A
/// and F, take vector 4; TRAPV takes vector 7 where V is set and else does nothing.
/// NOP does nothing.
#[verifier::spinoff_prover]
pub proof fn law_traps<B: Bus>(s: Machine<B::Model>, n: int, w: u16)
    requires
        0 <= n < 16,
        w == 0x4AFC || w / 4096 == 0xA || w / 4096 == 0xF,
    ensures
        execute_sem::<B>(s, (0x4E40 + n) as u16).1 == exception_sem::<B>(s, (32 + n) as u8),
        execute_sem::<B>(s, w).1 == exception_sem::<B>(s, 4),
        has_flag(s.cpu.sr, 0x02) ==> execute_sem::<B>(s, 0x4E76).1 == exception_sem::<B>(s, 7),
        !has_flag(s.cpu.sr, 0x02) ==> execute_sem::<B>(s, 0x4E76).1 == s,
        execute_sem::<B>(s, 0x4E71).1 == s,
{
    reveal(system_sem);
    let t = (0x4E40 + n) as u16;
    assert(t / 4096 == 4 && t / 256 == 0x4E && t / 16 == 0x4E4 && t % 16 == n);
    assert((t / 64) % 8 == 1);
    assert(decode_spec(t) == Instruction::Trap);
    assert(decode_spec(0x4E76) == Instruction::TrapV);
    assert(decode_spec(0x4E71) == Instruction::Nop);
}

/// CHK compares the word of a data register with a bound: below zero or above the
/// bound it takes vector 6, with N telling which; else it goes on.
#[verifier::rlimit(60)]
#[verifier::spinoff_prover]
pub proof fn law_check<B: Bus>(s: Machine<B::Model>, x: int, mode: int, y: int)
    requires
        fields_ok(0, x, 0, mode, y),
        s.cpu.d.len() == 8,
    ensures
        ({
            let t = execute_sem::<B>(s, opcode(4, x, 6, mode, y)).1;
            let (val, u) = read_ea_sem::<B>(
                s,
                decode_ea_spec(mode as u8, y as u8),
                InstructionSize::Word,
            );
            let bound = operand(val, InstructionSize::Word);
            let v = operand(u.cpu.d[x], InstructionSize::Word);
            &&& v < 0x8000 && v <= bound ==> {
                &&& t == u.with_sr(t.cpu.sr)
                &&& !has_flag(t.cpu.sr, 0x08)
            }
            &&& v >= 0x8000 || v > bound ==> exists|sr: u16|
                {
                    &&& t == #[trigger] exception_sem::<B>(u.with_sr(sr), 6)
                    &&& has_flag(sr, 0x08) == (v >= 0x8000)
                    &&& sr & 0xFFE0 == u.cpu.sr & 0xFFE0
                }
        }),
{
    lemma_fields(4, x, 6, mode, y);
    reveal(multiplicative_sem);
    let (val, u) = read_ea_sem::<B>(
        s,
        decode_ea_spec(mode as u8, y as u8),
        InstructionSize::Word,
    );
    let c = operand(u.cpu.d[x], InstructionSize::Word);
    lemma_codes(u.cpu.sr, false, true, false, false, false);
    lemma_codes(u.cpu.sr, false, false, false, false, false);
    lemma_codes(u.cpu.sr, false, false, c == 0, false, false);
    if c >= 0x8000 {
        let sr = super::flags::nzvc(u.cpu.sr, true, false, false, false);
        assert(execute_sem::<B>(s, opcode(4, x, 6, mode, y)).1 == exception_sem::<B>(
            u.with_sr(sr),
            6,
        ));
    } else if c > operand(val, InstructionSize::Word) {
        let sr = super::flags::nzvc(u.cpu.sr, false, false, false, false);
        assert(execute_sem::<B>(s, opcode(4, x, 6, mode, y)).1 == exception_sem::<B>(
            u.with_sr(sr),
            6,
        ));
    }
}

// ── Status word ──────────────────────────────────────────────────────────

/// STOP in supervisor mode loads the status word and stops; in user mode it takes
/// vector 8 behind its operand.
#[verifier::spinoff_prover]
pub proof fn law_stop<B: Bus>(s: Machine<B::Model>)
    ensures
        ({
            let t = execute_sem::<B>(s, 0x4E72).1;
            let (w, u) = fetch_word_sem::<B>(s);
            &&& has_flag(s.cpu.sr, 0x2000) ==> {
                &&& t.cpu == (CpuState { sr: w & 0xA71F, stopped: true, ..u.cpu })
                &&& t.bus == u.bus
            }
            &&& !has_flag(s.cpu.sr, 0x2000) ==> t == exception_sem::<B>(u, 8)
        }),
{
    reveal(system_sem);
    assert(decode_spec(0x4E72) == Instruction::Stop);
}

/// The status word or its low byte combined with an immediate: ORI, ANDI and EORI to
/// CCR work on five bits, those to SR on the bits that exist.
#[verifier::rlimit(60)]
#[verifier::spinoff_prover]
pub proof fn law_status_immediates<B: Bus>(s: Machine<B::Model>)
    ensures
        ({
            let (w, u) = fetch_word_sem::<B>(s);
            let sr = s.cpu.sr;
            let or = execute_sem::<B>(s, 0x003C).1;
            let and = execute_sem::<B>(s, 0x023C).1;
            let eor = execute_sem::<B>(s, 0x0A3C).1;
            &&& or == u.with_sr(or.cpu.sr)
            &&& or.cpu.sr & 0x1F == (sr | w) & 0x1F
            &&& or.cpu.sr & 0xFF00 == sr & 0xFF00
            &&& and == u.with_sr(and.cpu.sr)
            &&& and.cpu.sr & 0x1F == (sr & w) & 0x1F
            &&& and.cpu.sr & 0xFF00 == sr & 0xFF00
            &&& eor == u.with_sr(eor.cpu.sr)
            &&& eor.cpu.sr & 0x1F == (sr ^ w) & 0x1F
            &&& eor.cpu.sr & 0xFF00 == sr & 0xFF00
            &&& execute_sem::<B>(s, 0x007C).1 == u.with_sr((sr | w) & 0xA71F)
            &&& execute_sem::<B>(s, 0x027C).1 == u.with_sr((sr & w) & 0xA71F)
            &&& execute_sem::<B>(s, 0x0A7C).1 == u.with_sr((sr ^ w) & 0xA71F)
        }),
{
    reveal(system_sem);
    let sr = s.cpu.sr;
    let (w, _) = fetch_word_sem::<B>(s);
    assert({
        &&& (sr | (w & 0x1F)) & 0x1F == (sr | w) & 0x1F
        &&& (sr | (w & 0x1F)) & 0xFF00 == sr & 0xFF00
        &&& ((sr & 0xFF00) | (sr & w & 0x1F)) & 0x1F == (sr & w) & 0x1F
        &&& ((sr & 0xFF00) | (sr & w & 0x1F)) & 0xFF00 == sr & 0xFF00
        &&& (sr ^ (w & 0x1F)) & 0x1F == (sr ^ w) & 0x1F
        &&& (sr ^ (w & 0x1F)) & 0xFF00 == sr & 0xFF00
    }) by (bit_vector);
    assert(decode_spec(0x003C) == Instruction::OriCcr);
    assert(decode_spec(0x023C) == Instruction::AndiCcr);
    assert(decode_spec(0x0A3C) == Instruction::EoriCcr);
    assert(decode_spec(0x007C) == Instruction::OriSr);
    assert(decode_spec(0x027C) == Instruction::AndiSr);
    assert(decode_spec(0x0A7C) == Instruction::EoriSr);
}

/// MOVE to SR and MOVE to CCR load the status word or five bits of it; MOVE from SR
/// to a data register stores it in the low word.
#[verifier::rlimit(60)]
#[verifier::spinoff_prover]
pub proof fn law_status_moves<B: Bus>(s: Machine<B::Model>, mode: int, y: int)
    requires
        fields_ok(0, 0, 0, mode, y),
        s.cpu.d.len() == 8,
    ensures
        ({
            let (val, u) = read_ea_sem::<B>(
                s,
                decode_ea_spec(mode as u8, y as u8),
                InstructionSize::Word,
            );
            let w = operand(val, InstructionSize::Word) as u16;
            let t = execute_sem::<B>(s, opcode(4, 0, 3, 0, y)).1;
            &&& execute_sem::<B>(s, opcode(4, 3, 3, mode, y)).1 == u.with_sr(w & 0xA71F)
            &&& execute_sem::<B>(s, opcode(4, 2, 3, mode, y)).1 == u.with_sr(
                (u.cpu.sr & 0xFF00) | (w & 0x1F),
            )
            &&& t.cpu.d[y] as int % 0x1_0000 == s.cpu.sr
            &&& t.cpu.d[y] as int / 0x1_0000 == s.cpu.d[y] as int / 0x1_0000
            &&& t == s.with_cpu(s.cpu.write_d(y, t.cpu.d[y]))
        }),
{
    lemma_fields(4, 3, 3, mode, y);
    lemma_fields(4, 2, 3, mode, y);
    lemma_fields(4, 0, 3, 0, y);
    reveal(system_sem);
    assert(decode_spec(opcode(4, 3, 3, mode, y)) == Instruction::MoveToSr);
    assert(decode_spec(opcode(4, 2, 3, mode, y)) == Instruction::MoveToCcr);
    assert(decode_spec(opcode(4, 0, 3, 0, y)) == Instruction::MoveFromSr);
}

/// MOVE USP copies an address register to the user stack pointer, and back.
#[verifier::spinoff_prover]
pub proof fn law_user_stack_pointer<B: Bus>(s: Machine<B::Model>, y: int)
    requires
        0 <= y < 8,
        has_flag(s.cpu.sr, 0x2000),
    ensures
        execute_sem::<B>(s, (0x4E60 + y) as u16).1 == s.with_cpu(
            CpuState { usp: s.cpu.read_a(y), ..s.cpu },
        ),
        execute_sem::<B>(s, (0x4E68 + y) as u16).1 == s.with_cpu(s.cpu.write_a(y, s.cpu.usp)),
{
    reveal(system_sem);
    let p = (0x4E60 + y) as u16;
    let q = (0x4E68 + y) as u16;
    assert(p / 4096 == 4 && p / 256 == 0x4E && p / 16 == 0x4E6 && p % 8 == y && (p / 8) % 2 == 0
        && p / 8 == 0x9CC && (p / 64) % 8 == 1);
    assert(q / 4096 == 4 && q / 256 == 0x4E && q / 16 == 0x4E6 && q % 8 == y && (q / 8) % 2 == 1
        && q / 8 == 0x9CD && (q / 64) % 8 == 1);
    assert(decode_spec(p) == Instruction::MoveUsp);
    assert(decode_spec(q) == Instruction::MoveUsp);
}

// ── Calls and returns ────────────────────────────────────────────────────

/// RTS continues at the long on the stack; RTE takes the status word from below it
/// first, RTR only the condition codes.
#[verifier::rlimit(60)]
#[verifier::spinoff_prover]
pub proof fn law_returns<B: Bus>(s: Machine<B::Model>)
    ensures
        ({
            let sp = s.cpu.sp();
            let (pc, m) = read_long_sem::<B>(s.bus, sp % 0x100_0000);
            let (w, m1) = B::read_word_model(s.bus, sp % 0x100_0000);
            let (pc2, m2) = read_long_sem::<B>(m1, sp.wrapping_add(2) % 0x100_0000);
            let moved = s.cpu.with_sp(sp.wrapping_add(6));
            &&& execute_sem::<B>(s, 0x4E75).1 == (Machine {
                cpu: s.cpu.with_sp(sp.wrapping_add(4)).with_pc(pc),
                bus: m,
            })
            &&& execute_sem::<B>(s, 0x4E73).1 == (Machine {
                cpu: moved.with_sr(w & 0xA71F).with_pc(pc2),
                bus: m2,
            })
            &&& execute_sem::<B>(s, 0x4E77).1 == (Machine {
                cpu: moved.with_sr((s.cpu.sr & 0xFF00) | (w & 0x1F)).with_pc(pc2),
                bus: m2,
            })
        }),
{
    reveal(flow_sem);
    assert(decode_spec(0x4E75) == Instruction::Rts);
    assert(decode_spec(0x4E73) == Instruction::Rte);
    assert(decode_spec(0x4E77) == Instruction::Rtr);
    let sp = s.cpu.sp();
    assert(sp.wrapping_add(2).wrapping_add(4) == sp.wrapping_add(6));
}

/// JSR pushes the address after the instruction and continues at its operand's
/// address; PEA pushes that address.
#[verifier::rlimit(60)]
#[verifier::spinoff_prover]
pub proof fn law_calls<B: Bus>(s: Machine<B::Model>, mode: int, y: int)
    requires
        fields_ok(0, 0, 0, mode, y),
        in_memory(mode, y) || (mode == 7 && y < 4),
    ensures
        ({
            let (addr, u) = resolve_ea_sem::<B>(
                s,
                decode_ea_spec(mode as u8, y as u8),
                InstructionSize::Long,
            );
            let sp = u.cpu.sp().wrapping_sub(4);
            &&& execute_sem::<B>(s, opcode(4, 7, 2, mode, y)).1 == (Machine {
                cpu: u.cpu.with_sp(sp).with_pc(addr),
                bus: write_long_sem::<B>(u.bus, sp % 0x100_0000, u.cpu.pc),
            })
            &&& execute_sem::<B>(s, opcode(4, 4, 1, mode, y)).1 == (Machine {
                cpu: u.cpu.with_sp(sp),
                bus: write_long_sem::<B>(u.bus, sp % 0x100_0000, addr),
            })
        }),
{
    lemma_fields(4, 7, 2, mode, y);
    lemma_fields(4, 4, 1, mode, y);
    reveal(flow_sem);
    reveal(movement_sem);
    assert(decode_spec(opcode(4, 7, 2, mode, y)) == Instruction::Jsr);
    assert(decode_spec(opcode(4, 4, 1, mode, y)) == Instruction::Pea);
}

/// BSR pushes the address after the instruction and branches by a signed byte, or
/// by the signed word behind the opcode where the byte is 0.
#[verifier::rlimit(60)]
#[verifier::spinoff_prover]
pub proof fn law_branch_to_subroutine<B: Bus>(s: Machine<B::Model>, d: int)
    requires
        0 <= d < 256,
    ensures
        ({
            let t = execute_sem::<B>(s, (0x6100 + d) as u16).1;
            let (w, u) = fetch_word_sem::<B>(s);
            let sp = s.cpu.sp().wrapping_sub(4);
            let signed: int = if d == 0 {
                if w < 0x8000 {
                    w as int
                } else {
                    w - 0x1_0000
                }
            } else if d < 0x80 {
                d
            } else {
                d - 0x100
            };
            let from = if d == 0 {
                u
            } else {
                s
            };
            &&& t.cpu == s.cpu.with_sp(sp).with_pc(((s.cpu.pc + signed) % 0x1_0000_0000) as u32)
            &&& t.bus == write_long_sem::<B>(from.bus, sp % 0x100_0000, from.cpu.pc)
        }),
{
    reveal(flow_sem);
    let w = (0x6100 + d) as u16;
    assert(w / 4096 == 6 && w / 256 == 0x61 && w % 0x100 == d);
    assert(decode_spec(w) == Instruction::Bsr);
    let (disp, u) = fetch_word_sem::<B>(s);
    let e = if d == 0 {
        extend_word(disp)
    } else {
        super::operand::extend_byte(d as u8)
    };
    assert(s.cpu.pc.wrapping_add(e) as int == (s.cpu.pc + e) % 0x1_0000_0000);
}

/// LINK pushes an address register, keeps the stack pointer in it and moves the
/// stack pointer by a signed word. UNLK takes the stack pointer back and pops the
/// register.
#[verifier::rlimit(60)]
#[verifier::spinoff_prover]
pub proof fn law_frames<B: Bus>(s: Machine<B::Model>, y: int)
    requires
        0 <= y < 7,
        s.cpu.a.len() >= 7,
    ensures
        ({
            let p = execute_sem::<B>(s, (0x4E50 + y) as u16).1;
            let q = execute_sem::<B>(s, (0x4E58 + y) as u16).1;
            let (w, u) = fetch_word_sem::<B>(s);
            let sp = s.cpu.sp().wrapping_sub(4);
            let old_sp = s.cpu.a[y];
            let (val, m) = read_long_sem::<B>(s.bus, old_sp % 0x100_0000);
            &&& p.bus == write_long_sem::<B>(u.bus, sp % 0x100_0000, s.cpu.a[y])
            &&& p.cpu == u.cpu.write_a(y, sp).with_sp(sp.wrapping_add(extend_word(w)))
            &&& q.bus == m
            &&& q.cpu == s.cpu.write_a(y, val).with_sp(old_sp.wrapping_add(4))
        }),
{
    reveal(flow_sem);
    let p = (0x4E50 + y) as u16;
    let q = (0x4E58 + y) as u16;
    assert(p / 4096 == 4 && p / 256 == 0x4E && p / 16 == 0x4E5 && p % 8 == y && p / 8 == 0x9CA && (
    p / 64) % 8 == 1);
    assert(q / 4096 == 4 && q / 256 == 0x4E && q / 16 == 0x4E5 && q % 8 == y && q / 8 == 0x9CB && (
    q / 64) % 8 == 1);
    assert(decode_spec(p) == Instruction::Link);
    assert(decode_spec(q) == Instruction::Unlk);
}

/// EXG: each of two registers gets what the other held.
#[verifier::rlimit(60)]
#[verifier::spinoff_prover]
pub proof fn law_exchange<B: Bus>(s: Machine<B::Model>, x: int, y: int)
    requires
        fields_ok(0, x, 0, 0, y),
        s.cpu.d.len() == 8,
        s.cpu.a.len() >= 7,
    ensures
        ({
            let p = execute_sem::<B>(s, opcode(0xC, x, 5, 0, y)).1.cpu;
            let q = execute_sem::<B>(s, opcode(0xC, x, 5, 1, y)).1.cpu;
            let r = execute_sem::<B>(s, opcode(0xC, x, 6, 1, y)).1.cpu;
            &&& p.d[x] == s.cpu.d[y] && p.d[y] == s.cpu.d[x]
            &&& forall|i: int| 0 <= i < 8 && i != x && i != y ==> p.d[i] == s.cpu.d[i]
            &&& p == (CpuState { d: p.d, ..s.cpu })
            &&& q.read_a(x) == s.cpu.read_a(y) && q.read_a(y) == s.cpu.read_a(x)
            &&& forall|i: int| 0 <= i < 7 && i != x && i != y ==> q.a[i] == s.cpu.a[i]
            &&& q.d == s.cpu.d && q.sr == s.cpu.sr && q.pc == s.cpu.pc
            &&& r.d[x] == s.cpu.read_a(y) && r.read_a(y) == s.cpu.d[x]
            &&& forall|i: int| 0 <= i < 8 && i != x ==> r.d[i] == s.cpu.d[i]
            &&& r.sr == s.cpu.sr && r.pc == s.cpu.pc
        }),
{
    lemma_fields(0xC, x, 5, 0, y);
    lemma_fields(0xC, x, 5, 1, y);
    lemma_fields(0xC, x, 6, 1, y);
    reveal(movement_sem);
    let p = opcode(0xC, x, 5, 0, y);
    let q = opcode(0xC, x, 5, 1, y);
    let r = opcode(0xC, x, 6, 1, y);
    assert((p / 8) % 32 == 8 && (q / 8) % 32 == 9 && (r / 8) % 32 == 0x11);
    assert(decode_spec(p) == Instruction::Exg);
    assert(decode_spec(q) == Instruction::Exg);
    assert(decode_spec(r) == Instruction::Exg);
}

// ── Register lists ───────────────────────────────────────────────────────


/// Bit `i` of a mask.
pub open spec fn listed(mask: u16, i: nat) -> bool {
    mask_after(mask, i) % 2 == 1
}

/// The bits of a mask in powers of two.
pub proof fn law_listed(mask: u16, i: nat)
    ensures
        listed(mask, i) == ((mask as int / vstd::arithmetic::power2::pow2(i) as int) % 2 == 1),
        mask_after(mask, i) as int == mask as int / vstd::arithmetic::power2::pow2(i) as int,
    decreases i,
{
    vstd::arithmetic::power2::lemma_pow2_pos(i);
    if i == 0 {
        vstd::arithmetic::power2::lemma2_to64();
    } else {
        let j = (i - 1) as nat;
        law_listed(mask, j);
        vstd::arithmetic::power2::lemma_pow2_pos(j);
        vstd::arithmetic::power2::lemma_pow2_unfold(i);
        vstd::arithmetic::div_mod::lemma_div_denominator(
            mask as int,
            vstd::arithmetic::power2::pow2(j) as int,
            2,
        );
        assert(vstd::arithmetic::power2::pow2(i) == vstd::arithmetic::power2::pow2(j) * 2);
    }
}

/// Where the list of a mask has got to after `n` bits.
pub open spec fn counted(mask: u16, n: nat) -> int
    decreases n,
{
    if n == 0 {
        0
    } else if listed(mask, (n - 1) as nat) {
        counted(mask, (n - 1) as nat) + 1
    } else {
        counted(mask, (n - 1) as nat)
    }
}

/// The bytes that a list entry takes.
pub open spec fn entry(size: InstructionSize) -> int {
    if size == InstructionSize::Long {
        4
    } else {
        2
    }
}

/// A counter stays within its steps.
proof fn lemma_counted(mask: u16, n: nat)
    ensures
        0 <= counted(mask, n) <= n,
    decreases n,
{
    if n > 0 {
        lemma_counted(mask, (n - 1) as nat);
    }
}

/// MOVEM to ascending memory: register `i` of the list goes to the start plus one
/// entry for each listed register before it.
#[verifier::rlimit(60)]
#[verifier::spinoff_prover]
pub proof fn law_list_stored_up<B: Bus>(
    c: CpuState,
    m: B::Model,
    start: u32,
    mask: u16,
    size: InstructionSize,
    i: nat,
)
    requires
        i < 16,
    ensures
        ({
            let before = movem_up_sem::<B>(c, m, start, mask, size, i);
            let after = movem_up_sem::<B>(c, m, start, mask, size, i + 1);
            let at = ((start + entry(size) * counted(mask, i)) % 0x1_0000_0000) as u32;
            let register = if i < 8 {
                c.d[i as int]
            } else {
                c.read_a(i - 8)
            };
            &&& before.1 == at
            &&& listed(mask, i) && size == InstructionSize::Long ==> after.0 == write_long_sem::<B>(
                before.0,
                at % 0x100_0000,
                register,
            )
            &&& listed(mask, i) && size != InstructionSize::Long ==> after.0
                == B::write_word_model(before.0, at % 0x100_0000, (register % 0x1_0000) as u16)
            &&& !listed(mask, i) ==> after.0 == before.0
            &&& movem_up_sem::<B>(c, m, start, mask, size, 0).0 == m
        }),
    decreases i,
{
    lemma_counted(mask, i);
    if i > 0 {
        let j = (i - 1) as nat;
        law_list_stored_up::<B>(c, m, start, mask, size, j);
        let n = counted(mask, j);
        let before = movem_up_sem::<B>(c, m, start, mask, size, j);
        assert(entry(size) * (n + 1) == entry(size) * n + entry(size)) by (nonlinear_arith);
        lemma_entry_up(start + entry(size) * n, before.1, entry(size) as u32);
    } else {
        assert(entry(size) * 0 == 0);
    }
}

/// One entry further up, round the end of the address space.
proof fn lemma_entry_up(at: int, addr: u32, step: u32)
    requires
        addr == at % 0x1_0000_0000,
        step <= 4,
    ensures
        addr.wrapping_add(step) == (at + step) % 0x1_0000_0000,
{
}

/// MOVEM below a pre-decremented register: bit `i` names register 15 - `i`, which
/// goes one entry below those of the lower bits.
#[verifier::rlimit(60)]
#[verifier::spinoff_prover]
pub proof fn law_list_stored_down<B: Bus>(
    c: CpuState,
    m: B::Model,
    start: u32,
    mask: u16,
    size: InstructionSize,
    i: nat,
)
    requires
        i < 16,
    ensures
        ({
            let before = movem_down_sem::<B>(c, m, start, mask, size, i);
            let after = movem_down_sem::<B>(c, m, start, mask, size, i + 1);
            let at = ((start - entry(size) * (counted(mask, i) + 1)) % 0x1_0000_0000) as u32;
            let register = if i < 8 {
                c.read_a(7 - i)
            } else {
                c.d[15 - i]
            };
            &&& before.1 == (start - entry(size) * counted(mask, i)) % 0x1_0000_0000
            &&& after.1 == (start - entry(size) * counted(mask, i + 1)) % 0x1_0000_0000
            &&& listed(mask, i) && size == InstructionSize::Long ==> after.0 == write_long_sem::<B>(
                before.0,
                at % 0x100_0000,
                register,
            )
            &&& listed(mask, i) && size != InstructionSize::Long ==> after.0
                == B::write_word_model(before.0, at % 0x100_0000, (register % 0x1_0000) as u16)
            &&& !listed(mask, i) ==> after.0 == before.0
            &&& movem_down_sem::<B>(c, m, start, mask, size, 0).0 == m
        }),
    decreases i,
{
    lemma_counted(mask, i);
    lemma_counted(mask, i + 1);
    if i > 0 {
        law_list_stored_down::<B>(c, m, start, mask, size, (i - 1) as nat);
    }
    let n = counted(mask, i);
    let before = movem_down_sem::<B>(c, m, start, mask, size, i);
    assert(entry(size) * (n + 1) == entry(size) * n + entry(size)) by (nonlinear_arith);
    lemma_entry_down(start - entry(size) * n, before.1, entry(size) as u32);
}

/// One entry further down, round the end of the address space.
proof fn lemma_entry_down(at: int, addr: u32, step: u32)
    requires
        addr == at % 0x1_0000_0000,
        step <= 4,
    ensures
        addr.wrapping_sub(step) == (at - step) % 0x1_0000_0000,
{
}

/// MOVEM from memory: register `i` of the list gets what is at the start plus one
/// entry for each listed register before it; words are sign-extended.
#[verifier::rlimit(60)]
#[verifier::spinoff_prover]
pub proof fn law_list_loaded<B: Bus>(
    s: Machine<B::Model>,
    start: u32,
    mask: u16,
    size: InstructionSize,
    i: nat,
)
    requires
        i < 16,
    ensures
        ({
            let before = movem_load_sem::<B>(s, start, mask, size, i);
            let after = movem_load_sem::<B>(s, start, mask, size, i + 1);
            let at = ((start + entry(size) * counted(mask, i)) % 0x1_0000_0000) as u32;
            let (long, ml) = read_long_sem::<B>(before.0.bus, at % 0x100_0000);
            let (word, mw) = B::read_word_model(before.0.bus, at % 0x100_0000);
            let val = if size == InstructionSize::Long {
                long
            } else if word < 0x8000 {
                word as u32
            } else {
                (0xFFFF_0000 + word) as u32
            };
            let m = if size == InstructionSize::Long {
                ml
            } else {
                mw
            };
            let c = before.0.cpu;
            &&& before.1 == at
            &&& after.1 == (start + entry(size) * counted(mask, i + 1)) % 0x1_0000_0000
            &&& listed(mask, i) ==> after.0 == (Machine {
                cpu: if i < 8 {
                    c.write_d(i as int, val)
                } else {
                    c.write_a(i - 8, val)
                },
                bus: m,
            })
            &&& !listed(mask, i) ==> after.0 == before.0
            &&& movem_load_sem::<B>(s, start, mask, size, 0).0 == s
        }),
    decreases i,
{
    lemma_counted(mask, i);
    lemma_counted(mask, i + 1);
    if i > 0 {
        law_list_loaded::<B>(s, start, mask, size, (i - 1) as nat);
    }
    let n = counted(mask, i);
    let before = movem_load_sem::<B>(s, start, mask, size, i);
    assert(entry(size) * (n + 1) == entry(size) * n + entry(size)) by (nonlinear_arith);
    lemma_entry_up(start + entry(size) * n, before.1, entry(size) as u32);
}

/// MOVEM as a whole: the mask is the word behind the opcode. Storing below a
/// pre-decremented register and loading with post-increment leave the final address
/// in it; other addresses are computed once and no register moves.
#[verifier::rlimit(60)]
#[verifier::spinoff_prover]
pub proof fn law_register_lists<B: Bus>(s: Machine<B::Model>, long: bool, mode: int, y: int)
    requires
        fields_ok(0, 0, 0, mode, y),
        mode == 2 || mode == 5 || mode == 6 || (mode == 7 && y < 2),
    ensures
        ({
            let size = if long {
                InstructionSize::Long
            } else {
                InstructionSize::Word
            };
            let op = if long {
                3int
            } else {
                2
            };
            let (mask, u) = fetch_word_sem::<B>(s);
            let start = u.cpu.read_a(y);
            let down = movem_down_sem::<B>(u.cpu, u.bus, start, mask, size, 16);
            let load = movem_load_sem::<B>(u, start, mask, size, 16);
            let (addr, v) = resolve_ea_sem::<B>(u, decode_ea_spec(mode as u8, y as u8), size);
            &&& execute_sem::<B>(s, opcode(4, 4, op, 4, y)).1 == (Machine {
                cpu: u.cpu.write_a(y, down.1),
                bus: down.0,
            })
            &&& execute_sem::<B>(s, opcode(4, 6, op, 3, y)).1 == load.0.with_cpu(
                load.0.cpu.write_a(y, load.1),
            )
            &&& execute_sem::<B>(s, opcode(4, 4, op, mode, y)).1 == v.with_bus(
                movem_up_sem::<B>(v.cpu, v.bus, addr, mask, size, 16).0,
            )
            &&& execute_sem::<B>(s, opcode(4, 6, op, mode, y)).1 == movem_load_sem::<B>(
                v,
                addr,
                mask,
                size,
                16,
            ).0
        }),
{
    let op = if long {
        3int
    } else {
        2
    };
    lemma_fields(4, 4, op, 4, y);
    lemma_fields(4, 6, op, 3, y);
    lemma_fields(4, 4, op, mode, y);
    lemma_fields(4, 6, op, mode, y);
    reveal(movement_sem);
    lemma_list_opcode(4, op, 4, y);
    lemma_list_opcode(6, op, 3, y);
    lemma_list_opcode(4, op, mode, y);
    lemma_list_opcode(6, op, mode, y);
}

/// The direction and size bits of MOVEM.
proof fn lemma_list_opcode(x: int, op: int, mode: int, y: int)
    requires
        x == 4 || x == 6,
        op == 2 || op == 3,
        2 <= mode < 8,
        0 <= y < 8,
    ensures
        ({
            let w = opcode(4, x, op, mode, y);
            &&& super::decode::bit_of(w, 0x400) == (x == 6)
            &&& decode_spec(w) == Instruction::Movem(
                if op == 3 {
                    InstructionSize::Long
                } else {
                    InstructionSize::Word
                },
            )
        }),
{
    lemma_fields(4, x, op, mode, y);
}

/// MOVEP stores the bytes of a data register, high byte first, at every other
/// address, and loads them from there.
#[verifier::rlimit(60)]
#[verifier::spinoff_prover]
pub proof fn law_peripheral_moves<B: Bus>(s: Machine<B::Model>, x: int, y: int)
    requires
        fields_ok(0, x, 0, 1, y),
        s.cpu.d.len() == 8,
    ensures
        ({
            let (w, u) = fetch_word_sem::<B>(s);
            let base = u.cpu.read_a(y).wrapping_add(extend_word(w)) % 0x100_0000;
            let v = s.cpu.d[x];
            let b3 = (v / 0x100_0000) as u8;
            let b2 = (v / 0x1_0000 % 0x100) as u8;
            let b1 = (v / 0x100 % 0x100) as u8;
            let b0 = (v % 0x100) as u8;
            let store_word = execute_sem::<B>(s, opcode(0, x, 6, 1, y)).1;
            let store_long = execute_sem::<B>(s, opcode(0, x, 7, 1, y)).1;
            let load_word = execute_sem::<B>(s, opcode(0, x, 4, 1, y)).1;
            let load_long = execute_sem::<B>(s, opcode(0, x, 5, 1, y)).1;
            let (r3, m1) = B::read_byte_model(u.bus, base);
            let (r2, m2) = B::read_byte_model(m1, (base + 2) as u32);
            let (r1, m3) = B::read_byte_model(m2, (base + 4) as u32);
            let (r0, m4) = B::read_byte_model(m3, (base + 6) as u32);
            let w1 = B::write_byte_model(u.bus, base, b1);
            let l1 = B::write_byte_model(u.bus, base, b3);
            let l2 = B::write_byte_model(l1, (base + 2) as u32, b2);
            let l3 = B::write_byte_model(l2, (base + 4) as u32, b1);
            &&& store_word == u.with_bus(B::write_byte_model(w1, (base + 2) as u32, b0))
            &&& store_long == u.with_bus(B::write_byte_model(l3, (base + 6) as u32, b0))
            &&& load_word.cpu.d[x] as int % 0x1_0000 == r3 * 0x100 + r2
            &&& load_word.cpu.d[x] as int / 0x1_0000 == v as int / 0x1_0000
            &&& load_word == (Machine {
                cpu: u.cpu.write_d(x, load_word.cpu.d[x]),
                bus: m2,
            })
            &&& load_long == (Machine {
                cpu: u.cpu.write_d(
                    x,
                    (r3 * 0x100_0000 + r2 * 0x1_0000 + r1 * 0x100 + r0) as u32,
                ),
                bus: m4,
            })
        }),
{
    lemma_fields(0, x, 6, 1, y);
    lemma_fields(0, x, 7, 1, y);
    lemma_fields(0, x, 4, 1, y);
    lemma_fields(0, x, 5, 1, y);
    reveal(movement_sem);
    assert(decode_spec(opcode(0, x, 6, 1, y)) == Instruction::MoveP(InstructionSize::Word));
    assert(decode_spec(opcode(0, x, 7, 1, y)) == Instruction::MoveP(InstructionSize::Long));
    assert(decode_spec(opcode(0, x, 4, 1, y)) == Instruction::MoveP(InstructionSize::Word));
    assert(decode_spec(opcode(0, x, 5, 1, y)) == Instruction::MoveP(InstructionSize::Long));
}

} // verus!
