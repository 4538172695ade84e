//! Simulation: what an instruction does depends on the bus through its four
//! operations only.
//!
//! A relation between bus models that the operations respect is kept by every
//! instruction: on related machines it reads the same values, takes the same
//! cycles and leaves the machines related.
use vstd::prelude::*;

pub mod instructions;

use crate::cpu::decode::{decode_spec, AddressingMode, Instruction, InstructionSize};
use crate::cpu::engine::CpuState;
use crate::cpu::exception::{exception_sem, interrupt_sem};
use crate::cpu::exec_alu::{ext_sem, AluOp};
use crate::cpu::exec_bits::BitOp;
use crate::cpu::exec_flow::{exg_sem, move_usp_sem, swap_sem};
use crate::cpu::exec_move::moveq_sem;
use crate::cpu::exec_shift::{shift_register_sem, ShiftKind};
use crate::cpu::execute::{
    additive_sem, execute_sem, flow_sem, logic_sem, movement_sem, multiplicative_sem, on_registers,
    system_sem,
};
use crate::cpu::operand::{
    fetch_immediate_sem, fetch_long_sem, fetch_word_sem, pop_long_sem, pop_word_sem, push_long_sem,
    push_word_sem, read_addr_sem, read_ea_sem, read_ea_with_addr_sem, read_long_sem,
    resolve_ea_sem, write_addr_sem, write_back_sem, write_ea_sem, write_long_sem, Bus, Machine,
};
use instructions::{
    lemma_abcd, lemma_addx, lemma_alu, lemma_alu_address, lemma_alu_immediate, lemma_alu_quick,
    lemma_andi_ccr, lemma_andi_sr, lemma_bcc, lemma_bit_op, lemma_bsr, lemma_chk, lemma_clr,
    lemma_compare, lemma_compare_address, lemma_compare_immediate, lemma_compare_memory,
    lemma_dbcc, lemma_divs, lemma_divu, lemma_eori_ccr, lemma_eori_sr, lemma_jmp, lemma_jsr,
    lemma_lea, lemma_link, lemma_move, lemma_move_from_sr, lemma_move_to_ccr, lemma_move_to_sr,
    lemma_movea, lemma_movem, lemma_movep, lemma_muls, lemma_mulu, lemma_nbcd, lemma_neg,
    lemma_negx, lemma_not, lemma_ori_ccr, lemma_ori_sr, lemma_pea, lemma_rte, lemma_rtr, lemma_rts,
    lemma_sbcd, lemma_scc, lemma_shift_mem, lemma_stop, lemma_subx, lemma_tas, lemma_trap,
    lemma_trapv, lemma_tst, lemma_unlk,
};

verus! {

/// The bus operations respect a relation: on related models they read the same,
/// and leave models that are related.
#[verifier::opaque]
pub open spec fn respected<B: Bus>(rel: spec_fn(B::Model, B::Model) -> bool) -> bool {
    &&& forall|a: B::Model, b: B::Model, addr: u32|
        rel(a, b) ==> {
            let x = #[trigger] B::read_byte_model(a, addr);
            let y = #[trigger] B::read_byte_model(b, addr);
            x.0 == y.0 && rel(x.1, y.1)
        }
    &&& forall|a: B::Model, b: B::Model, addr: u32|
        rel(a, b) ==> {
            let x = #[trigger] B::read_word_model(a, addr);
            let y = #[trigger] B::read_word_model(b, addr);
            x.0 == y.0 && rel(x.1, y.1)
        }
    &&& forall|a: B::Model, b: B::Model, addr: u32, val: u8|
        rel(a, b) ==> rel(
            #[trigger] B::write_byte_model(a, addr, val),
            #[trigger] B::write_byte_model(b, addr, val),
        )
    &&& forall|a: B::Model, b: B::Model, addr: u32, val: u16|
        rel(a, b) ==> rel(
            #[trigger] B::write_word_model(a, addr, val),
            #[trigger] B::write_word_model(b, addr, val),
        )
}

/// Two machines are related: equal registers and related buses.
pub open spec fn related<B: Bus>(
    rel: spec_fn(B::Model, B::Model) -> bool,
    a: Machine<B::Model>,
    b: Machine<B::Model>,
) -> bool {
    a.cpu == b.cpu && rel(a.bus, b.bus)
}

// ── Operands ─────────────────────────────────────────────────────────────

/// `read_long_sem` keeps a relation.
pub broadcast proof fn lemma_read_long<B: Bus>(
    rel: spec_fn(B::Model, B::Model) -> bool,
    a: B::Model,
    b: B::Model,
    addr: u32,
)
    requires
        #[trigger] respected::<B>(rel),
        rel(a, b),
    ensures
        (#[trigger] read_long_sem::<B>(a, addr)).0 == (#[trigger] read_long_sem::<B>(b, addr)).0,
        rel(read_long_sem::<B>(a, addr).1, read_long_sem::<B>(b, addr).1),
{
    reveal(respected);
}

/// `write_long_sem` keeps a relation.
pub broadcast proof fn lemma_write_long<B: Bus>(
    rel: spec_fn(B::Model, B::Model) -> bool,
    a: B::Model,
    b: B::Model,
    addr: u32,
    val: u32,
)
    requires
        #[trigger] respected::<B>(rel),
        rel(a, b),
    ensures
        rel(#[trigger] write_long_sem::<B>(a, addr, val), #[trigger] write_long_sem::<B>(b, addr, val)),
{
    reveal(respected);
}

/// `fetch_word_sem` keeps a relation.
pub broadcast proof fn lemma_fetch_word<B: Bus>(
    rel: spec_fn(B::Model, B::Model) -> bool,
    a: Machine<B::Model>,
    b: Machine<B::Model>,
)
    requires
        #[trigger] respected::<B>(rel),
        related::<B>(rel, a, b),
    ensures
        (#[trigger] fetch_word_sem::<B>(a)).0 == (#[trigger] fetch_word_sem::<B>(b)).0,
        related::<B>(rel, fetch_word_sem::<B>(a).1, fetch_word_sem::<B>(b).1),
{
    reveal(respected);
}

/// `read_addr_sem` keeps a relation.
pub broadcast proof fn lemma_read_addr<B: Bus>(
    rel: spec_fn(B::Model, B::Model) -> bool,
    a: B::Model,
    b: B::Model,
    addr: u32,
    size: InstructionSize,
)
    requires
        #[trigger] respected::<B>(rel),
        rel(a, b),
    ensures
        (#[trigger] read_addr_sem::<B>(a, addr, size)).0 == (#[trigger] read_addr_sem::<B>(b, addr, size)).0,
        rel(read_addr_sem::<B>(a, addr, size).1, read_addr_sem::<B>(b, addr, size).1),
{
    reveal(respected);
}

/// `write_addr_sem` keeps a relation.
pub broadcast proof fn lemma_write_addr<B: Bus>(
    rel: spec_fn(B::Model, B::Model) -> bool,
    a: B::Model,
    b: B::Model,
    addr: u32,
    size: InstructionSize,
    val: u32,
)
    requires
        #[trigger] respected::<B>(rel),
        rel(a, b),
    ensures
        rel(#[trigger] write_addr_sem::<B>(a, addr, size, val), #[trigger] write_addr_sem::<B>(b, addr, size, val)),
{
    reveal(respected);
}

/// `push_word_sem` keeps a relation.
pub broadcast proof fn lemma_push_word<B: Bus>(
    rel: spec_fn(B::Model, B::Model) -> bool,
    a: Machine<B::Model>,
    b: Machine<B::Model>,
    val: u16,
)
    requires
        #[trigger] respected::<B>(rel),
        related::<B>(rel, a, b),
    ensures
        related::<B>(rel, #[trigger] push_word_sem::<B>(a, val), #[trigger] push_word_sem::<B>(b, val)),
{
    reveal(respected);
}

/// `pop_word_sem` keeps a relation.
pub broadcast proof fn lemma_pop_word<B: Bus>(
    rel: spec_fn(B::Model, B::Model) -> bool,
    a: Machine<B::Model>,
    b: Machine<B::Model>,
)
    requires
        #[trigger] respected::<B>(rel),
        related::<B>(rel, a, b),
    ensures
        (#[trigger] pop_word_sem::<B>(a)).0 == (#[trigger] pop_word_sem::<B>(b)).0,
        related::<B>(rel, pop_word_sem::<B>(a).1, pop_word_sem::<B>(b).1),
{
    reveal(respected);
}

pub broadcast group group_words {
    lemma_read_long,
    lemma_write_long,
    lemma_fetch_word,
    lemma_read_addr,
    lemma_write_addr,
    lemma_push_word,
    lemma_pop_word,
}

/// `fetch_long_sem` keeps a relation.
pub broadcast proof fn lemma_fetch_long<B: Bus>(
    rel: spec_fn(B::Model, B::Model) -> bool,
    a: Machine<B::Model>,
    b: Machine<B::Model>,
)
    requires
        #[trigger] respected::<B>(rel),
        related::<B>(rel, a, b),
    ensures
        (#[trigger] fetch_long_sem::<B>(a)).0 == (#[trigger] fetch_long_sem::<B>(b)).0,
        related::<B>(rel, fetch_long_sem::<B>(a).1, fetch_long_sem::<B>(b).1),
{
    broadcast use group_words;

    reveal(respected);
}

/// `push_long_sem` keeps a relation.
pub broadcast proof fn lemma_push_long<B: Bus>(
    rel: spec_fn(B::Model, B::Model) -> bool,
    a: Machine<B::Model>,
    b: Machine<B::Model>,
    val: u32,
)
    requires
        #[trigger] respected::<B>(rel),
        related::<B>(rel, a, b),
    ensures
        related::<B>(rel, #[trigger] push_long_sem::<B>(a, val), #[trigger] push_long_sem::<B>(b, val)),
{
    broadcast use group_words;

    reveal(respected);
}

/// `pop_long_sem` keeps a relation.
pub broadcast proof fn lemma_pop_long<B: Bus>(
    rel: spec_fn(B::Model, B::Model) -> bool,
    a: Machine<B::Model>,
    b: Machine<B::Model>,
)
    requires
        #[trigger] respected::<B>(rel),
        related::<B>(rel, a, b),
    ensures
        (#[trigger] pop_long_sem::<B>(a)).0 == (#[trigger] pop_long_sem::<B>(b)).0,
        related::<B>(rel, pop_long_sem::<B>(a).1, pop_long_sem::<B>(b).1),
{
    broadcast use group_words;

    reveal(respected);
}

pub broadcast group group_longs {
    lemma_fetch_long,
    lemma_push_long,
    lemma_pop_long,
}

/// `fetch_immediate_sem` keeps a relation.
pub broadcast proof fn lemma_fetch_immediate<B: Bus>(
    rel: spec_fn(B::Model, B::Model) -> bool,
    a: Machine<B::Model>,
    b: Machine<B::Model>,
    size: InstructionSize,
)
    requires
        #[trigger] respected::<B>(rel),
        related::<B>(rel, a, b),
    ensures
        (#[trigger] fetch_immediate_sem::<B>(a, size)).0 == (#[trigger] fetch_immediate_sem::<B>(b, size)).0,
        related::<B>(rel, fetch_immediate_sem::<B>(a, size).1, fetch_immediate_sem::<B>(b, size).1),
{
    broadcast use {group_words, group_longs};

    reveal(respected);
}

/// `resolve_ea_sem` keeps a relation.
pub broadcast proof fn lemma_resolve_ea<B: Bus>(
    rel: spec_fn(B::Model, B::Model) -> bool,
    a: Machine<B::Model>,
    b: Machine<B::Model>,
    ea: AddressingMode,
    size: InstructionSize,
)
    requires
        #[trigger] respected::<B>(rel),
        related::<B>(rel, a, b),
    ensures
        (#[trigger] resolve_ea_sem::<B>(a, ea, size)).0 == (#[trigger] resolve_ea_sem::<B>(b, ea, size)).0,
        related::<B>(rel, resolve_ea_sem::<B>(a, ea, size).1, resolve_ea_sem::<B>(b, ea, size).1),
{
    broadcast use {group_words, group_longs};

    reveal(respected);
}

pub broadcast group group_address {
    lemma_fetch_immediate,
    lemma_resolve_ea,
}

/// `read_ea_with_addr_sem` keeps a relation.
pub broadcast proof fn lemma_read_ea_with_addr<B: Bus>(
    rel: spec_fn(B::Model, B::Model) -> bool,
    a: Machine<B::Model>,
    b: Machine<B::Model>,
    ea: AddressingMode,
    size: InstructionSize,
)
    requires
        #[trigger] respected::<B>(rel),
        related::<B>(rel, a, b),
    ensures
        (#[trigger] read_ea_with_addr_sem::<B>(a, ea, size)).0 == (#[trigger] read_ea_with_addr_sem::<B>(b, ea, size)).0,
        read_ea_with_addr_sem::<B>(a, ea, size).1 == read_ea_with_addr_sem::<B>(b, ea, size).1,
        related::<B>(rel, read_ea_with_addr_sem::<B>(a, ea, size).2, read_ea_with_addr_sem::<B>(b, ea, size).2),
{
    broadcast use {group_words, group_longs, group_address};

    reveal(respected);
}

/// `read_ea_sem` keeps a relation.
pub broadcast proof fn lemma_read_ea<B: Bus>(
    rel: spec_fn(B::Model, B::Model) -> bool,
    a: Machine<B::Model>,
    b: Machine<B::Model>,
    ea: AddressingMode,
    size: InstructionSize,
)
    requires
        #[trigger] respected::<B>(rel),
        related::<B>(rel, a, b),
    ensures
        (#[trigger] read_ea_sem::<B>(a, ea, size)).0 == (#[trigger] read_ea_sem::<B>(b, ea, size)).0,
        related::<B>(rel, read_ea_sem::<B>(a, ea, size).1, read_ea_sem::<B>(b, ea, size).1),
{
    broadcast use {group_words, group_longs, group_address};

    reveal(respected);
}

/// `write_ea_sem` keeps a relation.
pub broadcast proof fn lemma_write_ea<B: Bus>(
    rel: spec_fn(B::Model, B::Model) -> bool,
    a: Machine<B::Model>,
    b: Machine<B::Model>,
    ea: AddressingMode,
    size: InstructionSize,
    val: u32,
)
    requires
        #[trigger] respected::<B>(rel),
        related::<B>(rel, a, b),
    ensures
        related::<B>(rel, #[trigger] write_ea_sem::<B>(a, ea, size, val), #[trigger] write_ea_sem::<B>(b, ea, size, val)),
{
    broadcast use {group_words, group_longs, group_address};

    reveal(respected);
}

/// `write_back_sem` keeps a relation.
pub broadcast proof fn lemma_write_back<B: Bus>(
    rel: spec_fn(B::Model, B::Model) -> bool,
    a: Machine<B::Model>,
    b: Machine<B::Model>,
    ea: AddressingMode,
    addr: u32,
    size: InstructionSize,
    val: u32,
)
    requires
        #[trigger] respected::<B>(rel),
        related::<B>(rel, a, b),
    ensures
        related::<B>(rel, #[trigger] write_back_sem::<B>(a, ea, addr, size, val), #[trigger] write_back_sem::<B>(b, ea, addr, size, val)),
{
    broadcast use {group_words, group_longs, group_address};

    reveal(respected);
}

pub broadcast group group_operands {
    lemma_read_ea_with_addr,
    lemma_read_ea,
    lemma_write_ea,
    lemma_write_back,
}

// ── Exceptions ───────────────────────────────────────────────────────────

/// An exception keeps a relation that the bus operations respect.
pub proof fn lemma_exception<B: Bus>(
    rel: spec_fn(B::Model, B::Model) -> bool,
    a: Machine<B::Model>,
    b: Machine<B::Model>,
    vector: u8,
)
    requires
        respected::<B>(rel),
        related::<B>(rel, a, b),
    ensures
        related::<B>(rel, exception_sem::<B>(a, vector), exception_sem::<B>(b, vector)),
{
    broadcast use {group_words, group_longs};

    reveal(respected);
}

/// An interrupt keeps a relation that the bus operations respect.
pub proof fn law_interrupt_keeps_relation<B: Bus>(
    rel: spec_fn(B::Model, B::Model) -> bool,
    a: Machine<B::Model>,
    b: Machine<B::Model>,
    level: u8,
)
    requires
        respected::<B>(rel),
        related::<B>(rel, a, b),
    ensures
        interrupt_sem::<B>(a, level).0 == interrupt_sem::<B>(b, level).0,
        related::<B>(rel, interrupt_sem::<B>(a, level).1, interrupt_sem::<B>(b, level).1),
{
    broadcast use {group_words, group_longs};

    reveal(respected);
}

// ── Instructions ─────────────────────────────────────────────────────────

/// An instruction on registers keeps a relation.
proof fn lemma_on_registers<B: Bus>(
    rel: spec_fn(B::Model, B::Model) -> bool,
    a: Machine<B::Model>,
    b: Machine<B::Model>,
    r: (u32, CpuState),
)
    requires
        related::<B>(rel, a, b),
    ensures
        on_registers(a, r).0 == on_registers(b, r).0,
        related::<B>(rel, on_registers(a, r).1, on_registers(b, r).1),
{
}

/// `movement_sem` keeps a relation.
proof fn lemma_movement<B: Bus>(
    rel: spec_fn(B::Model, B::Model) -> bool,
    a: Machine<B::Model>,
    b: Machine<B::Model>,
    instruction: Instruction,
    opcode: u16,
)
    requires
        respected::<B>(rel),
        related::<B>(rel, a, b),
    ensures
        movement_sem::<B>(a, instruction, opcode).0 == movement_sem::<B>(b, instruction, opcode).0,
        related::<B>(rel, movement_sem::<B>(a, instruction, opcode).1, movement_sem::<B>(b, instruction, opcode).1),
{
    reveal(movement_sem);
    match instruction {
        Instruction::Move(size) => {
            lemma_move::<B>(rel, a, b, opcode, size);
        },
        Instruction::MoveA(size) => {
            lemma_movea::<B>(rel, a, b, opcode, size);
        },
        Instruction::MoveQ => {
            lemma_on_registers::<B>(rel, a, b, moveq_sem(a.cpu, opcode));
        },
        Instruction::Lea => {
            lemma_lea::<B>(rel, a, b, opcode);
        },
        Instruction::Pea => {
            lemma_pea::<B>(rel, a, b, opcode);
        },
        Instruction::Movem(size) => {
            lemma_movem::<B>(rel, a, b, opcode, size);
        },
        Instruction::MoveP(size) => {
            lemma_movep::<B>(rel, a, b, opcode, size);
        },
        Instruction::Swap => {
            lemma_on_registers::<B>(rel, a, b, swap_sem(a.cpu, opcode));
        },
        Instruction::Exg => {
            lemma_on_registers::<B>(rel, a, b, exg_sem(a.cpu, opcode));
        },
        _ => {},
    }
}

/// `additive_sem` keeps a relation.
proof fn lemma_additive<B: Bus>(
    rel: spec_fn(B::Model, B::Model) -> bool,
    a: Machine<B::Model>,
    b: Machine<B::Model>,
    instruction: Instruction,
    opcode: u16,
)
    requires
        respected::<B>(rel),
        related::<B>(rel, a, b),
    ensures
        additive_sem::<B>(a, instruction, opcode).0 == additive_sem::<B>(b, instruction, opcode).0,
        related::<B>(rel, additive_sem::<B>(a, instruction, opcode).1, additive_sem::<B>(b, instruction, opcode).1),
{
    reveal(additive_sem);
    match instruction {
        Instruction::Add(size) => {
            lemma_alu::<B>(rel, a, b, AluOp::Add, opcode, size);
        },
        Instruction::AddA(size) => {
            lemma_alu_address::<B>(rel, a, b, AluOp::Add, opcode, size);
        },
        Instruction::AddI(size) => {
            lemma_alu_immediate::<B>(rel, a, b, AluOp::Add, opcode, size);
        },
        Instruction::AddQ(size) => {
            lemma_alu_quick::<B>(rel, a, b, AluOp::Add, opcode, size);
        },
        Instruction::AddX(size) => {
            lemma_addx::<B>(rel, a, b, opcode, size);
        },
        Instruction::Sub(size) => {
            lemma_alu::<B>(rel, a, b, AluOp::Sub, opcode, size);
        },
        Instruction::SubA(size) => {
            lemma_alu_address::<B>(rel, a, b, AluOp::Sub, opcode, size);
        },
        Instruction::SubI(size) => {
            lemma_alu_immediate::<B>(rel, a, b, AluOp::Sub, opcode, size);
        },
        Instruction::SubQ(size) => {
            lemma_alu_quick::<B>(rel, a, b, AluOp::Sub, opcode, size);
        },
        Instruction::SubX(size) => {
            lemma_subx::<B>(rel, a, b, opcode, size);
        },
        Instruction::Clr(size) => {
            lemma_clr::<B>(rel, a, b, opcode, size);
        },
        Instruction::Neg(size) => {
            lemma_neg::<B>(rel, a, b, opcode, size);
        },
        Instruction::NegX(size) => {
            lemma_negx::<B>(rel, a, b, opcode, size);
        },
        Instruction::Ext(size) => {
            lemma_on_registers::<B>(rel, a, b, ext_sem(a.cpu, opcode, size));
        },
        _ => {},
    }
}

/// `multiplicative_sem` keeps a relation.
proof fn lemma_multiplicative<B: Bus>(
    rel: spec_fn(B::Model, B::Model) -> bool,
    a: Machine<B::Model>,
    b: Machine<B::Model>,
    instruction: Instruction,
    opcode: u16,
)
    requires
        respected::<B>(rel),
        related::<B>(rel, a, b),
    ensures
        multiplicative_sem::<B>(a, instruction, opcode).0 == multiplicative_sem::<B>(b, instruction, opcode).0,
        related::<B>(rel, multiplicative_sem::<B>(a, instruction, opcode).1, multiplicative_sem::<B>(b, instruction, opcode).1),
{
    reveal(multiplicative_sem);
    match instruction {
        Instruction::MulU => {
            lemma_mulu::<B>(rel, a, b, opcode);
        },
        Instruction::MulS => {
            lemma_muls::<B>(rel, a, b, opcode);
        },
        Instruction::DivU => {
            lemma_divu::<B>(rel, a, b, opcode);
        },
        Instruction::DivS => {
            lemma_divs::<B>(rel, a, b, opcode);
        },
        Instruction::Abcd => {
            lemma_abcd::<B>(rel, a, b, opcode);
        },
        Instruction::Sbcd => {
            lemma_sbcd::<B>(rel, a, b, opcode);
        },
        Instruction::Nbcd => {
            lemma_nbcd::<B>(rel, a, b, opcode);
        },
        Instruction::Chk => {
            lemma_chk::<B>(rel, a, b, opcode);
        },
        Instruction::Tas => {
            lemma_tas::<B>(rel, a, b, opcode);
        },
        _ => {},
    }
}

/// `logic_sem` keeps a relation.
#[verifier::rlimit(60)]
proof fn lemma_logic<B: Bus>(
    rel: spec_fn(B::Model, B::Model) -> bool,
    a: Machine<B::Model>,
    b: Machine<B::Model>,
    instruction: Instruction,
    opcode: u16,
)
    requires
        respected::<B>(rel),
        related::<B>(rel, a, b),
    ensures
        logic_sem::<B>(a, instruction, opcode).0 == logic_sem::<B>(b, instruction, opcode).0,
        related::<B>(rel, logic_sem::<B>(a, instruction, opcode).1, logic_sem::<B>(b, instruction, opcode).1),
{
    reveal(logic_sem);
    match instruction {
        Instruction::And(size) => {
            lemma_alu::<B>(rel, a, b, AluOp::And, opcode, size);
        },
        Instruction::AndI(size) => {
            lemma_alu_immediate::<B>(rel, a, b, AluOp::And, opcode, size);
        },
        Instruction::Or(size) => {
            lemma_alu::<B>(rel, a, b, AluOp::Or, opcode, size);
        },
        Instruction::OrI(size) => {
            lemma_alu_immediate::<B>(rel, a, b, AluOp::Or, opcode, size);
        },
        Instruction::Eor(size) => {
            lemma_alu::<B>(rel, a, b, AluOp::Eor, opcode, size);
        },
        Instruction::EorI(size) => {
            lemma_alu_immediate::<B>(rel, a, b, AluOp::Eor, opcode, size);
        },
        Instruction::Not(size) => {
            lemma_not::<B>(rel, a, b, opcode, size);
        },
        Instruction::Asd(size) => {
            lemma_on_registers::<B>(
                rel,
                a,
                b,
                shift_register_sem(a.cpu, ShiftKind::Arithmetic, opcode, size),
            );
        },
        Instruction::Lsd(size) => {
            lemma_on_registers::<B>(
                rel,
                a,
                b,
                shift_register_sem(a.cpu, ShiftKind::Logical, opcode, size),
            );
        },
        Instruction::Rod(size) => {
            lemma_on_registers::<B>(
                rel,
                a,
                b,
                shift_register_sem(a.cpu, ShiftKind::Rotate, opcode, size),
            );
        },
        Instruction::Roxd(size) => {
            lemma_on_registers::<B>(
                rel,
                a,
                b,
                shift_register_sem(a.cpu, ShiftKind::RotateExtend, opcode, size),
            );
        },
        Instruction::ShiftMem => {
            lemma_shift_mem::<B>(rel, a, b, opcode);
        },
        Instruction::BTst => {
            lemma_bit_op::<B>(rel, a, b, BitOp::TestBit, opcode);
        },
        Instruction::BSet => {
            lemma_bit_op::<B>(rel, a, b, BitOp::SetBit, opcode);
        },
        Instruction::BClr => {
            lemma_bit_op::<B>(rel, a, b, BitOp::ClearBit, opcode);
        },
        Instruction::BChg => {
            lemma_bit_op::<B>(rel, a, b, BitOp::ChangeBit, opcode);
        },
        _ => {},
    }
}

/// `flow_sem` keeps a relation.
proof fn lemma_flow<B: Bus>(
    rel: spec_fn(B::Model, B::Model) -> bool,
    a: Machine<B::Model>,
    b: Machine<B::Model>,
    instruction: Instruction,
    opcode: u16,
)
    requires
        respected::<B>(rel),
        related::<B>(rel, a, b),
    ensures
        flow_sem::<B>(a, instruction, opcode).0 == flow_sem::<B>(b, instruction, opcode).0,
        related::<B>(rel, flow_sem::<B>(a, instruction, opcode).1, flow_sem::<B>(b, instruction, opcode).1),
{
    reveal(flow_sem);
    match instruction {
        Instruction::Cmp(size) => {
            lemma_compare::<B>(rel, a, b, opcode, size);
        },
        Instruction::CmpA(size) => {
            lemma_compare_address::<B>(rel, a, b, opcode, size);
        },
        Instruction::CmpI(size) => {
            lemma_compare_immediate::<B>(rel, a, b, opcode, size);
        },
        Instruction::CmpM(size) => {
            lemma_compare_memory::<B>(rel, a, b, opcode, size);
        },
        Instruction::Tst(size) => {
            lemma_tst::<B>(rel, a, b, opcode, size);
        },
        Instruction::Bcc => {
            lemma_bcc::<B>(rel, a, b, opcode);
        },
        Instruction::Bsr => {
            lemma_bsr::<B>(rel, a, b, opcode);
        },
        Instruction::DBcc => {
            lemma_dbcc::<B>(rel, a, b, opcode);
        },
        Instruction::Scc => {
            lemma_scc::<B>(rel, a, b, opcode);
        },
        Instruction::Jmp => {
            lemma_jmp::<B>(rel, a, b, opcode);
        },
        Instruction::Jsr => {
            lemma_jsr::<B>(rel, a, b, opcode);
        },
        Instruction::Rts => {
            lemma_rts::<B>(rel, a, b);
        },
        Instruction::Rte => {
            lemma_rte::<B>(rel, a, b);
        },
        Instruction::Rtr => {
            lemma_rtr::<B>(rel, a, b);
        },
        Instruction::Link => {
            lemma_link::<B>(rel, a, b, opcode);
        },
        Instruction::Unlk => {
            lemma_unlk::<B>(rel, a, b, opcode);
        },
        _ => {},
    }
}

/// `system_sem` keeps a relation.
#[verifier::rlimit(60)]
proof fn lemma_system<B: Bus>(
    rel: spec_fn(B::Model, B::Model) -> bool,
    a: Machine<B::Model>,
    b: Machine<B::Model>,
    instruction: Instruction,
    opcode: u16,
)
    requires
        respected::<B>(rel),
        related::<B>(rel, a, b),
    ensures
        system_sem::<B>(a, instruction, opcode).0 == system_sem::<B>(b, instruction, opcode).0,
        related::<B>(rel, system_sem::<B>(a, instruction, opcode).1, system_sem::<B>(b, instruction, opcode).1),
{
    reveal(system_sem);
    match instruction {
        Instruction::Stop => {
            lemma_stop::<B>(rel, a, b);
        },
        Instruction::Trap => {
            lemma_trap::<B>(rel, a, b, opcode);
        },
        Instruction::TrapV => {
            lemma_trapv::<B>(rel, a, b);
        },
        Instruction::AndiCcr => {
            lemma_andi_ccr::<B>(rel, a, b);
        },
        Instruction::AndiSr => {
            lemma_andi_sr::<B>(rel, a, b);
        },
        Instruction::OriCcr => {
            lemma_ori_ccr::<B>(rel, a, b);
        },
        Instruction::OriSr => {
            lemma_ori_sr::<B>(rel, a, b);
        },
        Instruction::EoriCcr => {
            lemma_eori_ccr::<B>(rel, a, b);
        },
        Instruction::EoriSr => {
            lemma_eori_sr::<B>(rel, a, b);
        },
        Instruction::MoveToSr => {
            lemma_move_to_sr::<B>(rel, a, b, opcode);
        },
        Instruction::MoveFromSr => {
            lemma_move_from_sr::<B>(rel, a, b, opcode);
        },
        Instruction::MoveToCcr => {
            lemma_move_to_ccr::<B>(rel, a, b, opcode);
        },
        Instruction::MoveUsp => {
            lemma_on_registers::<B>(rel, a, b, move_usp_sem(a.cpu, opcode));
        },
        Instruction::LineA => {
            lemma_exception::<B>(rel, a, b, 4);
        },
        Instruction::LineF => {
            lemma_exception::<B>(rel, a, b, 4);
        },
        Instruction::Illegal => {
            lemma_exception::<B>(rel, a, b, 4);
        },
        _ => {},
    }
}

/// Every instruction keeps a relation that the bus operations respect: on related
/// machines it takes the same cycles and leaves the machines related.
pub proof fn law_execute_keeps_relation<B: Bus>(
    rel: spec_fn(B::Model, B::Model) -> bool,
    a: Machine<B::Model>,
    b: Machine<B::Model>,
    opcode: u16,
)
    requires
        respected::<B>(rel),
        related::<B>(rel, a, b),
    ensures
        execute_sem::<B>(a, opcode).0 == execute_sem::<B>(b, opcode).0,
        related::<B>(rel, execute_sem::<B>(a, opcode).1, execute_sem::<B>(b, opcode).1),
{
    let instruction = decode_spec(opcode);
    lemma_movement::<B>(rel, a, b, instruction, opcode);
    lemma_additive::<B>(rel, a, b, instruction, opcode);
    lemma_multiplicative::<B>(rel, a, b, instruction, opcode);
    lemma_logic::<B>(rel, a, b, instruction, opcode);
    lemma_flow::<B>(rel, a, b, instruction, opcode);
    lemma_system::<B>(rel, a, b, instruction, opcode);
}

} // verus!
