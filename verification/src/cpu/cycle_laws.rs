//! How many cycles the instructions of the 68000 take.
use vstd::prelude::*;

use super::decode::{decode_spec, AddressingMode, Instruction, InstructionSize};
use super::exec_move::{movem_down_sem, movem_load_sem, movem_up_sem};
use super::execute::{
    additive_sem, execute_sem, flow_sem, logic_sem, movement_sem, multiplicative_sem, system_sem,
};
use super::flags::condition_holds;
use super::operand::{fetch_word_sem, read_ea_sem, src_ea_of, Bus, Machine};
use super::system_laws::{counted, entry};
use super::has_flag;

verus! {

/// One of two numbers by the size of the operand.
pub open spec fn by_size(size: InstructionSize, short: int, long: int) -> int {
    if size == InstructionSize::Long {
        long
    } else {
        short
    }
}

/// The operand is a data register.
pub open spec fn in_register(w: u16) -> bool {
    w / 8 % 8 == 0
}

/// Moves take 4 cycles, exchanges of two registers 6, pushed addresses 12, and
/// peripheral moves 8 and another 4 for every byte.
#[verifier::rlimit(60)]
#[verifier::spinoff_prover]
pub proof fn law_move_cycles<B: Bus>(s: Machine<B::Model>, w: u16)
    ensures
        ({
            let n = execute_sem::<B>(s, w).0;
            match decode_spec(w) {
                Instruction::Move(_) => n == 4,
                Instruction::MoveA(_) => n == 4,
                Instruction::MoveQ => n == 4,
                Instruction::Lea => n == 4,
                Instruction::Swap => n == 4,
                Instruction::Exg => n == 6,
                Instruction::Pea => n == 12,
                Instruction::MoveP(size) => n == by_size(size, 16, 24),
                _ => true,
            }
        }),
{
    reveal(movement_sem);
}

/// A register list takes 8 cycles and, for each register, as many as it has bytes.
pub proof fn law_list_cycles<B: Bus>(
    s: Machine<B::Model>,
    start: u32,
    mask: u16,
    size: InstructionSize,
    n: nat,
)
    requires
        n <= 16,
    ensures
        movem_down_sem::<B>(s.cpu, s.bus, start, mask, size, n).2 == 8 + entry(size) * counted(
            mask,
            n,
        ),
        movem_up_sem::<B>(s.cpu, s.bus, start, mask, size, n).2 == 8 + entry(size) * counted(
            mask,
            n,
        ),
        movem_load_sem::<B>(s, start, mask, size, n).2 == 8 + entry(size) * counted(mask, n),
        0 <= counted(mask, n) <= n,
    decreases n,
{
    if n > 0 {
        let m = (n - 1) as nat;
        law_list_cycles::<B>(s, start, mask, size, m);
        let k = counted(mask, m);
        assert(entry(size) * (k + 1) == entry(size) * k + entry(size)) by (nonlinear_arith);
        assert(0 <= entry(size) * k <= 64) by (nonlinear_arith)
            requires
                0 <= k <= 16,
                0 <= entry(size) <= 4,
        ;
    }
}

/// Sums, differences and logic take 4 cycles, longs 8; immediates twice that, and
/// address registers 8.
#[verifier::rlimit(60)]
#[verifier::spinoff_prover]
pub proof fn law_arithmetic_cycles<B: Bus>(s: Machine<B::Model>, w: u16)
    ensures
        ({
            let n = execute_sem::<B>(s, w).0;
            match decode_spec(w) {
                Instruction::Add(size) => n == by_size(size, 4, 8),
                Instruction::Sub(size) => n == by_size(size, 4, 8),
                Instruction::AddQ(size) => n == by_size(size, 4, 8),
                Instruction::SubQ(size) => n == by_size(size, 4, 8),
                Instruction::AddI(size) => n == by_size(size, 8, 16),
                Instruction::SubI(size) => n == by_size(size, 8, 16),
                Instruction::AddA(_) => n == 8,
                Instruction::SubA(_) => n == 8,
                Instruction::Neg(size) => n == if in_register(w) {
                    by_size(size, 4, 6)
                } else {
                    by_size(size, 8, 12)
                },
                Instruction::NegX(size) => n == if in_register(w) {
                    by_size(size, 4, 6)
                } else {
                    by_size(size, 8, 12)
                },
                Instruction::Clr(size) => n == if in_register(w) {
                    4
                } else {
                    by_size(size, 8, 12)
                },
                _ => true,
            }
        }),
{
    reveal(additive_sem);
}

/// The logic operations take what the sums take; bit operations 4 to 10 in registers
/// and 8 or 12 in memory; shifts 6 and another 2 for every bit, and 8 in memory.
#[verifier::rlimit(60)]
#[verifier::spinoff_prover]
pub proof fn law_logic_cycles<B: Bus>(s: Machine<B::Model>, w: u16)
    requires
        s.cpu.d.len() == 8,
    ensures
        ({
            let n = execute_sem::<B>(s, w).0;
            let field = w / 512 % 8;
            let bits = if w / 32 % 2 == 1 {
                s.cpu.d[field as int] as int % 64
            } else if field == 0 {
                8
            } else {
                field as int
            };
            match decode_spec(w) {
                Instruction::And(size) => n == by_size(size, 4, 8),
                Instruction::Or(size) => n == by_size(size, 4, 8),
                Instruction::Eor(size) => n == by_size(size, 4, 8),
                Instruction::AndI(size) => n == by_size(size, 8, 16),
                Instruction::OrI(size) => n == by_size(size, 8, 16),
                Instruction::EorI(size) => n == by_size(size, 8, 16),
                Instruction::Not(size) => n == if in_register(w) {
                    by_size(size, 4, 6)
                } else {
                    by_size(size, 8, 12)
                },
                Instruction::BTst => n == if in_register(w) {
                    4int
                } else {
                    8
                },
                Instruction::BSet => n == if in_register(w) {
                    8int
                } else {
                    12
                },
                Instruction::BChg => n == if in_register(w) {
                    8int
                } else {
                    12
                },
                Instruction::BClr => n == if in_register(w) {
                    10int
                } else {
                    12
                },
                Instruction::Asd(_) => n == 6 + 2 * bits,
                Instruction::Lsd(_) => n == 6 + 2 * bits,
                Instruction::Rod(_) => n == 6 + 2 * bits,
                Instruction::Roxd(_) => n == 6 + 2 * bits,
                Instruction::ShiftMem => n == 8,
                _ => true,
            }
        }),
{
    reveal(logic_sem);
}

/// Products take 70 cycles; quotients 140, signed ones 158, and division by zero 38.
/// Decimal operations take 6, in memory 18.
#[verifier::rlimit(60)]
#[verifier::spinoff_prover]
pub proof fn law_product_cycles<B: Bus>(s: Machine<B::Model>, w: u16)
    ensures
        ({
            let n = execute_sem::<B>(s, w).0;
            let (val, _) = read_ea_sem::<B>(s, src_ea_of(w), InstructionSize::Word);
            let divisor = val as int % 0x1_0000;
            match decode_spec(w) {
                Instruction::MulU => n == 70,
                Instruction::MulS => n == 70,
                Instruction::DivU => n == if divisor == 0 {
                    38int
                } else {
                    140
                },
                Instruction::DivS => n == if divisor == 0 {
                    38int
                } else {
                    158
                },
                Instruction::Abcd => n == if w / 8 % 2 == 0 {
                    6int
                } else {
                    18
                },
                Instruction::Sbcd => n == if w / 8 % 2 == 0 {
                    6int
                } else {
                    18
                },
                Instruction::Nbcd => n == if in_register(w) {
                    6int
                } else {
                    8
                },
                Instruction::Tas => n == if in_register(w) {
                    4int
                } else {
                    14
                },
                _ => true,
            }
        }),
{
    reveal(multiplicative_sem);
}

/// A branch that is taken has 10 cycles, one that is not 8. A loop has 10 where it goes
/// on, 12 where its condition ends it, 14 where its counter does. Calls take 8 more
/// than jumps.
#[verifier::rlimit(60)]
#[verifier::spinoff_prover]
pub proof fn law_flow_cycles<B: Bus>(s: Machine<B::Model>, w: u16)
    requires
        s.cpu.d.len() == 8,
    ensures
        ({
            let n = execute_sem::<B>(s, w).0;
            let (_, u) = fetch_word_sem::<B>(s);
            let holds = condition_holds(s.cpu.sr, (w / 256 % 16) as u8);
            let jump = match src_ea_of(w) {
                AddressingMode::AddrDisp(_) => 10int,
                AddressingMode::AddrIndex(_) => 14,
                AddressingMode::AbsShort => 10,
                AddressingMode::AbsLong => 12,
                AddressingMode::PcDisp => 10,
                AddressingMode::PcIndex => 14,
                _ => 8,
            };
            match decode_spec(w) {
                Instruction::Cmp(size) => n == by_size(size, 4, 6),
                Instruction::CmpA(_) => n == 6,
                Instruction::CmpI(size) => n == by_size(size, 8, 12),
                Instruction::CmpM(size) => n == by_size(size, 12, 20),
                Instruction::Tst(_) => n == 4,
                Instruction::Bcc => n == if holds {
                    10int
                } else {
                    8
                },
                Instruction::Bsr => n == 18,
                Instruction::DBcc => n == if holds {
                    12int
                } else if s.cpu.d[(w % 8) as int] as int % 0x1_0000 == 0 {
                    14
                } else {
                    10
                },
                Instruction::Scc => n == if !in_register(w) {
                    8int
                } else if holds {
                    6
                } else {
                    4
                },
                Instruction::Jmp => n == jump,
                Instruction::Jsr => n == jump + 8,
                Instruction::Rts => n == 16,
                Instruction::Rte => n == 20,
                Instruction::Rtr => n == 20,
                Instruction::Link => n == 16,
                Instruction::Unlk => n == 12,
                _ => true,
            }
        }),
{
    reveal(flow_sem);
}

/// Exceptions take 34 cycles, and so do privileged and undefined instructions that
/// raise one; operations on the status word 20 with an immediate, 12 with an operand.
#[verifier::rlimit(60)]
#[verifier::spinoff_prover]
pub proof fn law_system_cycles<B: Bus>(s: Machine<B::Model>, w: u16)
    ensures
        ({
            let n = execute_sem::<B>(s, w).0;
            match decode_spec(w) {
                Instruction::Nop => n == 4,
                Instruction::Stop => n == if has_flag(s.cpu.sr, 0x2000) {
                    4int
                } else {
                    34
                },
                Instruction::ResetInstr => n == 132,
                Instruction::Trap => n == 34,
                Instruction::TrapV => n == if has_flag(s.cpu.sr, 0x02) {
                    34int
                } else {
                    4
                },
                Instruction::AndiCcr => n == 20,
                Instruction::AndiSr => n == 20,
                Instruction::OriCcr => n == 20,
                Instruction::OriSr => n == 20,
                Instruction::EoriCcr => n == 20,
                Instruction::EoriSr => n == 20,
                Instruction::MoveToSr => n == 12,
                Instruction::MoveToCcr => n == 12,
                Instruction::MoveFromSr => n == if in_register(w) {
                    6int
                } else {
                    8
                },
                Instruction::MoveUsp => n == 4,
                Instruction::LineA => n == 34,
                Instruction::LineF => n == 34,
                Instruction::Illegal => n == 34,
                _ => true,
            }
        }),
{
    reveal(system_sem);
}

} // verus!
