//! Each kind of instruction keeps a relation that the bus operations respect.
use vstd::prelude::*;

use crate::cpu::decode::InstructionSize;
use crate::cpu::engine::CpuState;
use crate::cpu::exec_alu::{
    abcd_sem, addx_sem, alu_address_sem, alu_immediate_sem, alu_quick_sem, alu_sem, chk_sem,
    clr_sem, divs_sem, divu_sem, muls_sem, mulu_sem, nbcd_sem, neg_sem, negx_sem, not_sem,
    sbcd_sem, subx_sem, tas_sem, AluOp,
};
use crate::cpu::exec_bits::{
    bit_op_sem, compare_address_sem, compare_immediate_sem, compare_memory_sem, compare_sem,
    tst_sem, BitOp,
};
use crate::cpu::exec_flow::{
    andi_ccr_sem, andi_sr_sem, bcc_sem, bsr_sem, dbcc_sem, eori_ccr_sem, eori_sr_sem, jmp_sem,
    jsr_sem, link_sem, move_from_sr_sem, move_to_ccr_sem, move_to_sr_sem, ori_ccr_sem, ori_sr_sem,
    rte_sem, rtr_sem, rts_sem, scc_sem, stop_sem, trap_sem, trapv_sem, unlk_sem,
};
use crate::cpu::exec_move::{
    lea_sem, move_sem, movea_sem, movem_down_sem, movem_load_sem, movem_sem, movem_up_sem,
    movep_sem, pea_sem,
};
use crate::cpu::exec_shift::shift_mem_sem;
use crate::cpu::operand::{Bus, Machine};
use crate::cpu::simulation::{
    group_address, group_longs, group_operands, group_words, related, respected,
};

verus! {

// ── Register lists ───────────────────────────────────────────────────────

/// A register list stored downwards keeps a relation.
pub broadcast proof fn lemma_movem_down<B: Bus>(
    rel: spec_fn(B::Model, B::Model) -> bool,
    c: CpuState,
    a: B::Model,
    b: B::Model,
    start: u32,
    mask: u16,
    size: InstructionSize,
    n: nat,
)
    requires
        #[trigger] respected::<B>(rel),
        rel(a, b),
    ensures
        rel(
            (#[trigger] movem_down_sem::<B>(c, a, start, mask, size, n)).0,
            (#[trigger] movem_down_sem::<B>(c, b, start, mask, size, n)).0,
        ),
        movem_down_sem::<B>(c, a, start, mask, size, n).1 == movem_down_sem::<B>(
            c,
            b,
            start,
            mask,
            size,
            n,
        ).1,
        movem_down_sem::<B>(c, a, start, mask, size, n).2 == movem_down_sem::<B>(
            c,
            b,
            start,
            mask,
            size,
            n,
        ).2,
    decreases n,
{
    broadcast use group_words;

    reveal(respected);
    if n > 0 {
        lemma_movem_down::<B>(rel, c, a, b, start, mask, size, (n - 1) as nat);
    }
}

/// A register list stored upwards keeps a relation.
pub broadcast proof fn lemma_movem_up<B: Bus>(
    rel: spec_fn(B::Model, B::Model) -> bool,
    c: CpuState,
    a: B::Model,
    b: B::Model,
    start: u32,
    mask: u16,
    size: InstructionSize,
    n: nat,
)
    requires
        #[trigger] respected::<B>(rel),
        rel(a, b),
    ensures
        rel(
            (#[trigger] movem_up_sem::<B>(c, a, start, mask, size, n)).0,
            (#[trigger] movem_up_sem::<B>(c, b, start, mask, size, n)).0,
        ),
        movem_up_sem::<B>(c, a, start, mask, size, n).1 == movem_up_sem::<B>(
            c,
            b,
            start,
            mask,
            size,
            n,
        ).1,
        movem_up_sem::<B>(c, a, start, mask, size, n).2 == movem_up_sem::<B>(
            c,
            b,
            start,
            mask,
            size,
            n,
        ).2,
    decreases n,
{
    broadcast use group_words;

    reveal(respected);
    if n > 0 {
        lemma_movem_up::<B>(rel, c, a, b, start, mask, size, (n - 1) as nat);
    }
}

/// A register list loaded keeps a relation.
pub broadcast proof fn lemma_movem_load<B: Bus>(
    rel: spec_fn(B::Model, B::Model) -> bool,
    a: Machine<B::Model>,
    b: Machine<B::Model>,
    start: u32,
    mask: u16,
    size: InstructionSize,
    n: nat,
)
    requires
        #[trigger] respected::<B>(rel),
        related::<B>(rel, a, b),
    ensures
        related::<B>(
            rel,
            (#[trigger] movem_load_sem::<B>(a, start, mask, size, n)).0,
            (#[trigger] movem_load_sem::<B>(b, start, mask, size, n)).0,
        ),
        movem_load_sem::<B>(a, start, mask, size, n).1 == movem_load_sem::<B>(
            b,
            start,
            mask,
            size,
            n,
        ).1,
        movem_load_sem::<B>(a, start, mask, size, n).2 == movem_load_sem::<B>(
            b,
            start,
            mask,
            size,
            n,
        ).2,
    decreases n,
{
    broadcast use group_words;

    reveal(respected);
    if n > 0 {
        lemma_movem_load::<B>(rel, a, b, start, mask, size, (n - 1) as nat);
    }
}

pub broadcast group group_lists {
    lemma_movem_down,
    lemma_movem_up,
    lemma_movem_load,
}

// ── Data movement ────────────────────────────────────────────────────────

/// `move_sem` keeps a relation.
pub proof fn lemma_move<B: Bus>(
    rel: spec_fn(B::Model, B::Model) -> bool,
    a: Machine<B::Model>,
    b: Machine<B::Model>,
    opcode: u16,
    size: InstructionSize,
)
    requires
        respected::<B>(rel),
        related::<B>(rel, a, b),
    ensures
        move_sem::<B>(a, opcode, size).0 == move_sem::<B>(b, opcode, size).0,
        related::<B>(rel, move_sem::<B>(a, opcode, size).1, move_sem::<B>(b, opcode, size).1),
{
    broadcast use {group_words, group_longs, group_address, group_operands};

    reveal(respected);
}

/// `movea_sem` keeps a relation.
pub proof fn lemma_movea<B: Bus>(
    rel: spec_fn(B::Model, B::Model) -> bool,
    a: Machine<B::Model>,
    b: Machine<B::Model>,
    opcode: u16,
    size: InstructionSize,
)
    requires
        respected::<B>(rel),
        related::<B>(rel, a, b),
    ensures
        movea_sem::<B>(a, opcode, size).0 == movea_sem::<B>(b, opcode, size).0,
        related::<B>(rel, movea_sem::<B>(a, opcode, size).1, movea_sem::<B>(b, opcode, size).1),
{
    broadcast use {group_words, group_longs, group_address, group_operands};

    reveal(respected);
}

/// `lea_sem` keeps a relation.
pub proof fn lemma_lea<B: Bus>(
    rel: spec_fn(B::Model, B::Model) -> bool,
    a: Machine<B::Model>,
    b: Machine<B::Model>,
    opcode: u16,
)
    requires
        respected::<B>(rel),
        related::<B>(rel, a, b),
    ensures
        lea_sem::<B>(a, opcode).0 == lea_sem::<B>(b, opcode).0,
        related::<B>(rel, lea_sem::<B>(a, opcode).1, lea_sem::<B>(b, opcode).1),
{
    broadcast use {group_words, group_longs, group_address, group_operands};

    reveal(respected);
}

/// `pea_sem` keeps a relation.
pub proof fn lemma_pea<B: Bus>(
    rel: spec_fn(B::Model, B::Model) -> bool,
    a: Machine<B::Model>,
    b: Machine<B::Model>,
    opcode: u16,
)
    requires
        respected::<B>(rel),
        related::<B>(rel, a, b),
    ensures
        pea_sem::<B>(a, opcode).0 == pea_sem::<B>(b, opcode).0,
        related::<B>(rel, pea_sem::<B>(a, opcode).1, pea_sem::<B>(b, opcode).1),
{
    broadcast use {group_words, group_longs, group_address, group_operands};

    reveal(respected);
}

/// `movem_sem` keeps a relation.
pub proof fn lemma_movem<B: Bus>(
    rel: spec_fn(B::Model, B::Model) -> bool,
    a: Machine<B::Model>,
    b: Machine<B::Model>,
    opcode: u16,
    size: InstructionSize,
)
    requires
        respected::<B>(rel),
        related::<B>(rel, a, b),
    ensures
        movem_sem::<B>(a, opcode, size).0 == movem_sem::<B>(b, opcode, size).0,
        related::<B>(rel, movem_sem::<B>(a, opcode, size).1, movem_sem::<B>(b, opcode, size).1),
{
    broadcast use {group_words, group_longs, group_address, group_operands, group_lists};

    reveal(respected);
}

/// `movep_sem` keeps a relation.
pub proof fn lemma_movep<B: Bus>(
    rel: spec_fn(B::Model, B::Model) -> bool,
    a: Machine<B::Model>,
    b: Machine<B::Model>,
    opcode: u16,
    size: InstructionSize,
)
    requires
        respected::<B>(rel),
        related::<B>(rel, a, b),
    ensures
        movep_sem::<B>(a, opcode, size).0 == movep_sem::<B>(b, opcode, size).0,
        related::<B>(rel, movep_sem::<B>(a, opcode, size).1, movep_sem::<B>(b, opcode, size).1),
{
    broadcast use {group_words, group_longs, group_address, group_operands};

    reveal(respected);
}

// ── Arithmetic and logic ─────────────────────────────────────────────────

/// `alu_sem` keeps a relation.
pub proof fn lemma_alu<B: Bus>(
    rel: spec_fn(B::Model, B::Model) -> bool,
    a: Machine<B::Model>,
    b: Machine<B::Model>,
    op: AluOp,
    opcode: u16,
    size: InstructionSize,
)
    requires
        respected::<B>(rel),
        related::<B>(rel, a, b),
    ensures
        alu_sem::<B>(a, op, opcode, size).0 == alu_sem::<B>(b, op, opcode, size).0,
        related::<B>(rel, alu_sem::<B>(a, op, opcode, size).1, alu_sem::<B>(b, op, opcode, size).1),
{
    broadcast use {group_words, group_longs, group_address, group_operands};

    reveal(respected);
}

/// `alu_immediate_sem` keeps a relation.
pub proof fn lemma_alu_immediate<B: Bus>(
    rel: spec_fn(B::Model, B::Model) -> bool,
    a: Machine<B::Model>,
    b: Machine<B::Model>,
    op: AluOp,
    opcode: u16,
    size: InstructionSize,
)
    requires
        respected::<B>(rel),
        related::<B>(rel, a, b),
    ensures
        alu_immediate_sem::<B>(a, op, opcode, size).0 == alu_immediate_sem::<B>(b, op, opcode, size).0,
        related::<B>(rel, alu_immediate_sem::<B>(a, op, opcode, size).1, alu_immediate_sem::<B>(b, op, opcode, size).1),
{
    broadcast use {group_words, group_longs, group_address, group_operands};

    reveal(respected);
}

/// `alu_quick_sem` keeps a relation.
pub proof fn lemma_alu_quick<B: Bus>(
    rel: spec_fn(B::Model, B::Model) -> bool,
    a: Machine<B::Model>,
    b: Machine<B::Model>,
    op: AluOp,
    opcode: u16,
    size: InstructionSize,
)
    requires
        respected::<B>(rel),
        related::<B>(rel, a, b),
    ensures
        alu_quick_sem::<B>(a, op, opcode, size).0 == alu_quick_sem::<B>(b, op, opcode, size).0,
        related::<B>(rel, alu_quick_sem::<B>(a, op, opcode, size).1, alu_quick_sem::<B>(b, op, opcode, size).1),
{
    broadcast use {group_words, group_longs, group_address, group_operands};

    reveal(respected);
}

/// `alu_address_sem` keeps a relation.
pub proof fn lemma_alu_address<B: Bus>(
    rel: spec_fn(B::Model, B::Model) -> bool,
    a: Machine<B::Model>,
    b: Machine<B::Model>,
    op: AluOp,
    opcode: u16,
    size: InstructionSize,
)
    requires
        respected::<B>(rel),
        related::<B>(rel, a, b),
    ensures
        alu_address_sem::<B>(a, op, opcode, size).0 == alu_address_sem::<B>(b, op, opcode, size).0,
        related::<B>(rel, alu_address_sem::<B>(a, op, opcode, size).1, alu_address_sem::<B>(b, op, opcode, size).1),
{
    broadcast use {group_words, group_longs, group_address, group_operands};

    reveal(respected);
}

/// `addx_sem` keeps a relation.
pub proof fn lemma_addx<B: Bus>(
    rel: spec_fn(B::Model, B::Model) -> bool,
    a: Machine<B::Model>,
    b: Machine<B::Model>,
    opcode: u16,
    size: InstructionSize,
)
    requires
        respected::<B>(rel),
        related::<B>(rel, a, b),
    ensures
        addx_sem::<B>(a, opcode, size).0 == addx_sem::<B>(b, opcode, size).0,
        related::<B>(rel, addx_sem::<B>(a, opcode, size).1, addx_sem::<B>(b, opcode, size).1),
{
    broadcast use {group_words, group_longs, group_address, group_operands};

    reveal(respected);
}

/// `subx_sem` keeps a relation.
pub proof fn lemma_subx<B: Bus>(
    rel: spec_fn(B::Model, B::Model) -> bool,
    a: Machine<B::Model>,
    b: Machine<B::Model>,
    opcode: u16,
    size: InstructionSize,
)
    requires
        respected::<B>(rel),
        related::<B>(rel, a, b),
    ensures
        subx_sem::<B>(a, opcode, size).0 == subx_sem::<B>(b, opcode, size).0,
        related::<B>(rel, subx_sem::<B>(a, opcode, size).1, subx_sem::<B>(b, opcode, size).1),
{
    broadcast use {group_words, group_longs, group_address, group_operands};

    reveal(respected);
}

/// `mulu_sem` keeps a relation.
pub proof fn lemma_mulu<B: Bus>(
    rel: spec_fn(B::Model, B::Model) -> bool,
    a: Machine<B::Model>,
    b: Machine<B::Model>,
    opcode: u16,
)
    requires
        respected::<B>(rel),
        related::<B>(rel, a, b),
    ensures
        mulu_sem::<B>(a, opcode).0 == mulu_sem::<B>(b, opcode).0,
        related::<B>(rel, mulu_sem::<B>(a, opcode).1, mulu_sem::<B>(b, opcode).1),
{
    broadcast use {group_words, group_longs, group_address, group_operands};

    reveal(respected);
}

/// `muls_sem` keeps a relation.
pub proof fn lemma_muls<B: Bus>(
    rel: spec_fn(B::Model, B::Model) -> bool,
    a: Machine<B::Model>,
    b: Machine<B::Model>,
    opcode: u16,
)
    requires
        respected::<B>(rel),
        related::<B>(rel, a, b),
    ensures
        muls_sem::<B>(a, opcode).0 == muls_sem::<B>(b, opcode).0,
        related::<B>(rel, muls_sem::<B>(a, opcode).1, muls_sem::<B>(b, opcode).1),
{
    broadcast use {group_words, group_longs, group_address, group_operands};

    reveal(respected);
}

/// `divu_sem` keeps a relation.
pub proof fn lemma_divu<B: Bus>(
    rel: spec_fn(B::Model, B::Model) -> bool,
    a: Machine<B::Model>,
    b: Machine<B::Model>,
    opcode: u16,
)
    requires
        respected::<B>(rel),
        related::<B>(rel, a, b),
    ensures
        divu_sem::<B>(a, opcode).0 == divu_sem::<B>(b, opcode).0,
        related::<B>(rel, divu_sem::<B>(a, opcode).1, divu_sem::<B>(b, opcode).1),
{
    broadcast use {group_words, group_longs, group_address, group_operands};

    reveal(respected);
}

/// `divs_sem` keeps a relation.
pub proof fn lemma_divs<B: Bus>(
    rel: spec_fn(B::Model, B::Model) -> bool,
    a: Machine<B::Model>,
    b: Machine<B::Model>,
    opcode: u16,
)
    requires
        respected::<B>(rel),
        related::<B>(rel, a, b),
    ensures
        divs_sem::<B>(a, opcode).0 == divs_sem::<B>(b, opcode).0,
        related::<B>(rel, divs_sem::<B>(a, opcode).1, divs_sem::<B>(b, opcode).1),
{
    broadcast use {group_words, group_longs, group_address, group_operands};

    reveal(respected);
}

/// `clr_sem` keeps a relation.
pub proof fn lemma_clr<B: Bus>(
    rel: spec_fn(B::Model, B::Model) -> bool,
    a: Machine<B::Model>,
    b: Machine<B::Model>,
    opcode: u16,
    size: InstructionSize,
)
    requires
        respected::<B>(rel),
        related::<B>(rel, a, b),
    ensures
        clr_sem::<B>(a, opcode, size).0 == clr_sem::<B>(b, opcode, size).0,
        related::<B>(rel, clr_sem::<B>(a, opcode, size).1, clr_sem::<B>(b, opcode, size).1),
{
    broadcast use {group_words, group_longs, group_address, group_operands};

    reveal(respected);
}

/// `neg_sem` keeps a relation.
pub proof fn lemma_neg<B: Bus>(
    rel: spec_fn(B::Model, B::Model) -> bool,
    a: Machine<B::Model>,
    b: Machine<B::Model>,
    opcode: u16,
    size: InstructionSize,
)
    requires
        respected::<B>(rel),
        related::<B>(rel, a, b),
    ensures
        neg_sem::<B>(a, opcode, size).0 == neg_sem::<B>(b, opcode, size).0,
        related::<B>(rel, neg_sem::<B>(a, opcode, size).1, neg_sem::<B>(b, opcode, size).1),
{
    broadcast use {group_words, group_longs, group_address, group_operands};

    reveal(respected);
}

/// `negx_sem` keeps a relation.
pub proof fn lemma_negx<B: Bus>(
    rel: spec_fn(B::Model, B::Model) -> bool,
    a: Machine<B::Model>,
    b: Machine<B::Model>,
    opcode: u16,
    size: InstructionSize,
)
    requires
        respected::<B>(rel),
        related::<B>(rel, a, b),
    ensures
        negx_sem::<B>(a, opcode, size).0 == negx_sem::<B>(b, opcode, size).0,
        related::<B>(rel, negx_sem::<B>(a, opcode, size).1, negx_sem::<B>(b, opcode, size).1),
{
    broadcast use {group_words, group_longs, group_address, group_operands};

    reveal(respected);
}

/// `not_sem` keeps a relation.
pub proof fn lemma_not<B: Bus>(
    rel: spec_fn(B::Model, B::Model) -> bool,
    a: Machine<B::Model>,
    b: Machine<B::Model>,
    opcode: u16,
    size: InstructionSize,
)
    requires
        respected::<B>(rel),
        related::<B>(rel, a, b),
    ensures
        not_sem::<B>(a, opcode, size).0 == not_sem::<B>(b, opcode, size).0,
        related::<B>(rel, not_sem::<B>(a, opcode, size).1, not_sem::<B>(b, opcode, size).1),
{
    broadcast use {group_words, group_longs, group_address, group_operands};

    reveal(respected);
}

/// `abcd_sem` keeps a relation.
pub proof fn lemma_abcd<B: Bus>(
    rel: spec_fn(B::Model, B::Model) -> bool,
    a: Machine<B::Model>,
    b: Machine<B::Model>,
    opcode: u16,
)
    requires
        respected::<B>(rel),
        related::<B>(rel, a, b),
    ensures
        abcd_sem::<B>(a, opcode).0 == abcd_sem::<B>(b, opcode).0,
        related::<B>(rel, abcd_sem::<B>(a, opcode).1, abcd_sem::<B>(b, opcode).1),
{
    broadcast use {group_words, group_longs, group_address, group_operands};

    reveal(respected);
}

/// `sbcd_sem` keeps a relation.
pub proof fn lemma_sbcd<B: Bus>(
    rel: spec_fn(B::Model, B::Model) -> bool,
    a: Machine<B::Model>,
    b: Machine<B::Model>,
    opcode: u16,
)
    requires
        respected::<B>(rel),
        related::<B>(rel, a, b),
    ensures
        sbcd_sem::<B>(a, opcode).0 == sbcd_sem::<B>(b, opcode).0,
        related::<B>(rel, sbcd_sem::<B>(a, opcode).1, sbcd_sem::<B>(b, opcode).1),
{
    broadcast use {group_words, group_longs, group_address, group_operands};

    reveal(respected);
}

/// `nbcd_sem` keeps a relation.
pub proof fn lemma_nbcd<B: Bus>(
    rel: spec_fn(B::Model, B::Model) -> bool,
    a: Machine<B::Model>,
    b: Machine<B::Model>,
    opcode: u16,
)
    requires
        respected::<B>(rel),
        related::<B>(rel, a, b),
    ensures
        nbcd_sem::<B>(a, opcode).0 == nbcd_sem::<B>(b, opcode).0,
        related::<B>(rel, nbcd_sem::<B>(a, opcode).1, nbcd_sem::<B>(b, opcode).1),
{
    broadcast use {group_words, group_longs, group_address, group_operands};

    reveal(respected);
}

/// `chk_sem` keeps a relation.
pub proof fn lemma_chk<B: Bus>(
    rel: spec_fn(B::Model, B::Model) -> bool,
    a: Machine<B::Model>,
    b: Machine<B::Model>,
    opcode: u16,
)
    requires
        respected::<B>(rel),
        related::<B>(rel, a, b),
    ensures
        chk_sem::<B>(a, opcode).0 == chk_sem::<B>(b, opcode).0,
        related::<B>(rel, chk_sem::<B>(a, opcode).1, chk_sem::<B>(b, opcode).1),
{
    broadcast use {group_words, group_longs, group_address, group_operands};

    reveal(respected);
}

/// `tas_sem` keeps a relation.
pub proof fn lemma_tas<B: Bus>(
    rel: spec_fn(B::Model, B::Model) -> bool,
    a: Machine<B::Model>,
    b: Machine<B::Model>,
    opcode: u16,
)
    requires
        respected::<B>(rel),
        related::<B>(rel, a, b),
    ensures
        tas_sem::<B>(a, opcode).0 == tas_sem::<B>(b, opcode).0,
        related::<B>(rel, tas_sem::<B>(a, opcode).1, tas_sem::<B>(b, opcode).1),
{
    broadcast use {group_words, group_longs, group_address, group_operands};

    reveal(respected);
}

// ── Shifts ───────────────────────────────────────────────────────────────

/// `shift_mem_sem` keeps a relation.
pub proof fn lemma_shift_mem<B: Bus>(
    rel: spec_fn(B::Model, B::Model) -> bool,
    a: Machine<B::Model>,
    b: Machine<B::Model>,
    opcode: u16,
)
    requires
        respected::<B>(rel),
        related::<B>(rel, a, b),
    ensures
        shift_mem_sem::<B>(a, opcode).0 == shift_mem_sem::<B>(b, opcode).0,
        related::<B>(rel, shift_mem_sem::<B>(a, opcode).1, shift_mem_sem::<B>(b, opcode).1),
{
    broadcast use {group_words, group_longs, group_address, group_operands};

    reveal(respected);
}

// ── Bits and comparisons ─────────────────────────────────────────────────

/// `bit_op_sem` keeps a relation.
pub proof fn lemma_bit_op<B: Bus>(
    rel: spec_fn(B::Model, B::Model) -> bool,
    a: Machine<B::Model>,
    b: Machine<B::Model>,
    op: BitOp,
    opcode: u16,
)
    requires
        respected::<B>(rel),
        related::<B>(rel, a, b),
    ensures
        bit_op_sem::<B>(a, op, opcode).0 == bit_op_sem::<B>(b, op, opcode).0,
        related::<B>(rel, bit_op_sem::<B>(a, op, opcode).1, bit_op_sem::<B>(b, op, opcode).1),
{
    broadcast use {group_words, group_longs, group_address, group_operands};

    reveal(respected);
}

/// `compare_sem` keeps a relation.
pub proof fn lemma_compare<B: Bus>(
    rel: spec_fn(B::Model, B::Model) -> bool,
    a: Machine<B::Model>,
    b: Machine<B::Model>,
    opcode: u16,
    size: InstructionSize,
)
    requires
        respected::<B>(rel),
        related::<B>(rel, a, b),
    ensures
        compare_sem::<B>(a, opcode, size).0 == compare_sem::<B>(b, opcode, size).0,
        related::<B>(rel, compare_sem::<B>(a, opcode, size).1, compare_sem::<B>(b, opcode, size).1),
{
    broadcast use {group_words, group_longs, group_address, group_operands};

    reveal(respected);
}

/// `compare_address_sem` keeps a relation.
pub proof fn lemma_compare_address<B: Bus>(
    rel: spec_fn(B::Model, B::Model) -> bool,
    a: Machine<B::Model>,
    b: Machine<B::Model>,
    opcode: u16,
    size: InstructionSize,
)
    requires
        respected::<B>(rel),
        related::<B>(rel, a, b),
    ensures
        compare_address_sem::<B>(a, opcode, size).0 == compare_address_sem::<B>(b, opcode, size).0,
        related::<B>(rel, compare_address_sem::<B>(a, opcode, size).1, compare_address_sem::<B>(b, opcode, size).1),
{
    broadcast use {group_words, group_longs, group_address, group_operands};

    reveal(respected);
}

/// `compare_immediate_sem` keeps a relation.
pub proof fn lemma_compare_immediate<B: Bus>(
    rel: spec_fn(B::Model, B::Model) -> bool,
    a: Machine<B::Model>,
    b: Machine<B::Model>,
    opcode: u16,
    size: InstructionSize,
)
    requires
        respected::<B>(rel),
        related::<B>(rel, a, b),
    ensures
        compare_immediate_sem::<B>(a, opcode, size).0 == compare_immediate_sem::<B>(b, opcode, size).0,
        related::<B>(rel, compare_immediate_sem::<B>(a, opcode, size).1, compare_immediate_sem::<B>(b, opcode, size).1),
{
    broadcast use {group_words, group_longs, group_address, group_operands};

    reveal(respected);
}

/// `compare_memory_sem` keeps a relation.
pub proof fn lemma_compare_memory<B: Bus>(
    rel: spec_fn(B::Model, B::Model) -> bool,
    a: Machine<B::Model>,
    b: Machine<B::Model>,
    opcode: u16,
    size: InstructionSize,
)
    requires
        respected::<B>(rel),
        related::<B>(rel, a, b),
    ensures
        compare_memory_sem::<B>(a, opcode, size).0 == compare_memory_sem::<B>(b, opcode, size).0,
        related::<B>(rel, compare_memory_sem::<B>(a, opcode, size).1, compare_memory_sem::<B>(b, opcode, size).1),
{
    broadcast use {group_words, group_longs, group_address, group_operands};

    reveal(respected);
}

/// `tst_sem` keeps a relation.
pub proof fn lemma_tst<B: Bus>(
    rel: spec_fn(B::Model, B::Model) -> bool,
    a: Machine<B::Model>,
    b: Machine<B::Model>,
    opcode: u16,
    size: InstructionSize,
)
    requires
        respected::<B>(rel),
        related::<B>(rel, a, b),
    ensures
        tst_sem::<B>(a, opcode, size).0 == tst_sem::<B>(b, opcode, size).0,
        related::<B>(rel, tst_sem::<B>(a, opcode, size).1, tst_sem::<B>(b, opcode, size).1),
{
    broadcast use {group_words, group_longs, group_address, group_operands};

    reveal(respected);
}

// ── Program flow and status ──────────────────────────────────────────────

/// `bcc_sem` keeps a relation.
pub proof fn lemma_bcc<B: Bus>(
    rel: spec_fn(B::Model, B::Model) -> bool,
    a: Machine<B::Model>,
    b: Machine<B::Model>,
    opcode: u16,
)
    requires
        respected::<B>(rel),
        related::<B>(rel, a, b),
    ensures
        bcc_sem::<B>(a, opcode).0 == bcc_sem::<B>(b, opcode).0,
        related::<B>(rel, bcc_sem::<B>(a, opcode).1, bcc_sem::<B>(b, opcode).1),
{
    broadcast use {group_words, group_longs, group_address, group_operands};

    reveal(respected);
}

/// `bsr_sem` keeps a relation.
pub proof fn lemma_bsr<B: Bus>(
    rel: spec_fn(B::Model, B::Model) -> bool,
    a: Machine<B::Model>,
    b: Machine<B::Model>,
    opcode: u16,
)
    requires
        respected::<B>(rel),
        related::<B>(rel, a, b),
    ensures
        bsr_sem::<B>(a, opcode).0 == bsr_sem::<B>(b, opcode).0,
        related::<B>(rel, bsr_sem::<B>(a, opcode).1, bsr_sem::<B>(b, opcode).1),
{
    broadcast use {group_words, group_longs, group_address, group_operands};

    reveal(respected);
}

/// `dbcc_sem` keeps a relation.
pub proof fn lemma_dbcc<B: Bus>(
    rel: spec_fn(B::Model, B::Model) -> bool,
    a: Machine<B::Model>,
    b: Machine<B::Model>,
    opcode: u16,
)
    requires
        respected::<B>(rel),
        related::<B>(rel, a, b),
    ensures
        dbcc_sem::<B>(a, opcode).0 == dbcc_sem::<B>(b, opcode).0,
        related::<B>(rel, dbcc_sem::<B>(a, opcode).1, dbcc_sem::<B>(b, opcode).1),
{
    broadcast use {group_words, group_longs, group_address, group_operands};

    reveal(respected);
}

/// `scc_sem` keeps a relation.
pub proof fn lemma_scc<B: Bus>(
    rel: spec_fn(B::Model, B::Model) -> bool,
    a: Machine<B::Model>,
    b: Machine<B::Model>,
    opcode: u16,
)
    requires
        respected::<B>(rel),
        related::<B>(rel, a, b),
    ensures
        scc_sem::<B>(a, opcode).0 == scc_sem::<B>(b, opcode).0,
        related::<B>(rel, scc_sem::<B>(a, opcode).1, scc_sem::<B>(b, opcode).1),
{
    broadcast use {group_words, group_longs, group_address, group_operands};

    reveal(respected);
}

/// `jmp_sem` keeps a relation.
pub proof fn lemma_jmp<B: Bus>(
    rel: spec_fn(B::Model, B::Model) -> bool,
    a: Machine<B::Model>,
    b: Machine<B::Model>,
    opcode: u16,
)
    requires
        respected::<B>(rel),
        related::<B>(rel, a, b),
    ensures
        jmp_sem::<B>(a, opcode).0 == jmp_sem::<B>(b, opcode).0,
        related::<B>(rel, jmp_sem::<B>(a, opcode).1, jmp_sem::<B>(b, opcode).1),
{
    broadcast use {group_words, group_longs, group_address, group_operands};

    reveal(respected);
}

/// `jsr_sem` keeps a relation.
pub proof fn lemma_jsr<B: Bus>(
    rel: spec_fn(B::Model, B::Model) -> bool,
    a: Machine<B::Model>,
    b: Machine<B::Model>,
    opcode: u16,
)
    requires
        respected::<B>(rel),
        related::<B>(rel, a, b),
    ensures
        jsr_sem::<B>(a, opcode).0 == jsr_sem::<B>(b, opcode).0,
        related::<B>(rel, jsr_sem::<B>(a, opcode).1, jsr_sem::<B>(b, opcode).1),
{
    broadcast use {group_words, group_longs, group_address, group_operands};

    reveal(respected);
}

/// `rts_sem` keeps a relation.
pub proof fn lemma_rts<B: Bus>(
    rel: spec_fn(B::Model, B::Model) -> bool,
    a: Machine<B::Model>,
    b: Machine<B::Model>,
)
    requires
        respected::<B>(rel),
        related::<B>(rel, a, b),
    ensures
        rts_sem::<B>(a).0 == rts_sem::<B>(b).0,
        related::<B>(rel, rts_sem::<B>(a).1, rts_sem::<B>(b).1),
{
    broadcast use {group_words, group_longs, group_address, group_operands};

    reveal(respected);
}

/// `rte_sem` keeps a relation.
pub proof fn lemma_rte<B: Bus>(
    rel: spec_fn(B::Model, B::Model) -> bool,
    a: Machine<B::Model>,
    b: Machine<B::Model>,
)
    requires
        respected::<B>(rel),
        related::<B>(rel, a, b),
    ensures
        rte_sem::<B>(a).0 == rte_sem::<B>(b).0,
        related::<B>(rel, rte_sem::<B>(a).1, rte_sem::<B>(b).1),
{
    broadcast use {group_words, group_longs, group_address, group_operands};

    reveal(respected);
}

/// `rtr_sem` keeps a relation.
pub proof fn lemma_rtr<B: Bus>(
    rel: spec_fn(B::Model, B::Model) -> bool,
    a: Machine<B::Model>,
    b: Machine<B::Model>,
)
    requires
        respected::<B>(rel),
        related::<B>(rel, a, b),
    ensures
        rtr_sem::<B>(a).0 == rtr_sem::<B>(b).0,
        related::<B>(rel, rtr_sem::<B>(a).1, rtr_sem::<B>(b).1),
{
    broadcast use {group_words, group_longs, group_address, group_operands};

    reveal(respected);
}

/// `link_sem` keeps a relation.
pub proof fn lemma_link<B: Bus>(
    rel: spec_fn(B::Model, B::Model) -> bool,
    a: Machine<B::Model>,
    b: Machine<B::Model>,
    opcode: u16,
)
    requires
        respected::<B>(rel),
        related::<B>(rel, a, b),
    ensures
        link_sem::<B>(a, opcode).0 == link_sem::<B>(b, opcode).0,
        related::<B>(rel, link_sem::<B>(a, opcode).1, link_sem::<B>(b, opcode).1),
{
    broadcast use {group_words, group_longs, group_address, group_operands};

    reveal(respected);
}

/// `unlk_sem` keeps a relation.
pub proof fn lemma_unlk<B: Bus>(
    rel: spec_fn(B::Model, B::Model) -> bool,
    a: Machine<B::Model>,
    b: Machine<B::Model>,
    opcode: u16,
)
    requires
        respected::<B>(rel),
        related::<B>(rel, a, b),
    ensures
        unlk_sem::<B>(a, opcode).0 == unlk_sem::<B>(b, opcode).0,
        related::<B>(rel, unlk_sem::<B>(a, opcode).1, unlk_sem::<B>(b, opcode).1),
{
    broadcast use {group_words, group_longs, group_address, group_operands};

    reveal(respected);
}

/// `stop_sem` keeps a relation.
pub proof fn lemma_stop<B: Bus>(
    rel: spec_fn(B::Model, B::Model) -> bool,
    a: Machine<B::Model>,
    b: Machine<B::Model>,
)
    requires
        respected::<B>(rel),
        related::<B>(rel, a, b),
    ensures
        stop_sem::<B>(a).0 == stop_sem::<B>(b).0,
        related::<B>(rel, stop_sem::<B>(a).1, stop_sem::<B>(b).1),
{
    broadcast use {group_words, group_longs, group_address, group_operands};

    reveal(respected);
}

/// `trap_sem` keeps a relation.
pub proof fn lemma_trap<B: Bus>(
    rel: spec_fn(B::Model, B::Model) -> bool,
    a: Machine<B::Model>,
    b: Machine<B::Model>,
    opcode: u16,
)
    requires
        respected::<B>(rel),
        related::<B>(rel, a, b),
    ensures
        trap_sem::<B>(a, opcode).0 == trap_sem::<B>(b, opcode).0,
        related::<B>(rel, trap_sem::<B>(a, opcode).1, trap_sem::<B>(b, opcode).1),
{
    broadcast use {group_words, group_longs, group_address, group_operands};

    reveal(respected);
}

/// `trapv_sem` keeps a relation.
pub proof fn lemma_trapv<B: Bus>(
    rel: spec_fn(B::Model, B::Model) -> bool,
    a: Machine<B::Model>,
    b: Machine<B::Model>,
)
    requires
        respected::<B>(rel),
        related::<B>(rel, a, b),
    ensures
        trapv_sem::<B>(a).0 == trapv_sem::<B>(b).0,
        related::<B>(rel, trapv_sem::<B>(a).1, trapv_sem::<B>(b).1),
{
    broadcast use {group_words, group_longs, group_address, group_operands};

    reveal(respected);
}

/// `andi_ccr_sem` keeps a relation.
pub proof fn lemma_andi_ccr<B: Bus>(
    rel: spec_fn(B::Model, B::Model) -> bool,
    a: Machine<B::Model>,
    b: Machine<B::Model>,
)
    requires
        respected::<B>(rel),
        related::<B>(rel, a, b),
    ensures
        andi_ccr_sem::<B>(a).0 == andi_ccr_sem::<B>(b).0,
        related::<B>(rel, andi_ccr_sem::<B>(a).1, andi_ccr_sem::<B>(b).1),
{
    broadcast use {group_words, group_longs, group_address, group_operands};

    reveal(respected);
}

/// `ori_ccr_sem` keeps a relation.
pub proof fn lemma_ori_ccr<B: Bus>(
    rel: spec_fn(B::Model, B::Model) -> bool,
    a: Machine<B::Model>,
    b: Machine<B::Model>,
)
    requires
        respected::<B>(rel),
        related::<B>(rel, a, b),
    ensures
        ori_ccr_sem::<B>(a).0 == ori_ccr_sem::<B>(b).0,
        related::<B>(rel, ori_ccr_sem::<B>(a).1, ori_ccr_sem::<B>(b).1),
{
    broadcast use {group_words, group_longs, group_address, group_operands};

    reveal(respected);
}

/// `eori_ccr_sem` keeps a relation.
pub proof fn lemma_eori_ccr<B: Bus>(
    rel: spec_fn(B::Model, B::Model) -> bool,
    a: Machine<B::Model>,
    b: Machine<B::Model>,
)
    requires
        respected::<B>(rel),
        related::<B>(rel, a, b),
    ensures
        eori_ccr_sem::<B>(a).0 == eori_ccr_sem::<B>(b).0,
        related::<B>(rel, eori_ccr_sem::<B>(a).1, eori_ccr_sem::<B>(b).1),
{
    broadcast use {group_words, group_longs, group_address, group_operands};

    reveal(respected);
}

/// `andi_sr_sem` keeps a relation.
pub proof fn lemma_andi_sr<B: Bus>(
    rel: spec_fn(B::Model, B::Model) -> bool,
    a: Machine<B::Model>,
    b: Machine<B::Model>,
)
    requires
        respected::<B>(rel),
        related::<B>(rel, a, b),
    ensures
        andi_sr_sem::<B>(a).0 == andi_sr_sem::<B>(b).0,
        related::<B>(rel, andi_sr_sem::<B>(a).1, andi_sr_sem::<B>(b).1),
{
    broadcast use {group_words, group_longs, group_address, group_operands};

    reveal(respected);
}

/// `ori_sr_sem` keeps a relation.
pub proof fn lemma_ori_sr<B: Bus>(
    rel: spec_fn(B::Model, B::Model) -> bool,
    a: Machine<B::Model>,
    b: Machine<B::Model>,
)
    requires
        respected::<B>(rel),
        related::<B>(rel, a, b),
    ensures
        ori_sr_sem::<B>(a).0 == ori_sr_sem::<B>(b).0,
        related::<B>(rel, ori_sr_sem::<B>(a).1, ori_sr_sem::<B>(b).1),
{
    broadcast use {group_words, group_longs, group_address, group_operands};

    reveal(respected);
}

/// `eori_sr_sem` keeps a relation.
pub proof fn lemma_eori_sr<B: Bus>(
    rel: spec_fn(B::Model, B::Model) -> bool,
    a: Machine<B::Model>,
    b: Machine<B::Model>,
)
    requires
        respected::<B>(rel),
        related::<B>(rel, a, b),
    ensures
        eori_sr_sem::<B>(a).0 == eori_sr_sem::<B>(b).0,
        related::<B>(rel, eori_sr_sem::<B>(a).1, eori_sr_sem::<B>(b).1),
{
    broadcast use {group_words, group_longs, group_address, group_operands};

    reveal(respected);
}

/// `move_to_sr_sem` keeps a relation.
pub proof fn lemma_move_to_sr<B: Bus>(
    rel: spec_fn(B::Model, B::Model) -> bool,
    a: Machine<B::Model>,
    b: Machine<B::Model>,
    opcode: u16,
)
    requires
        respected::<B>(rel),
        related::<B>(rel, a, b),
    ensures
        move_to_sr_sem::<B>(a, opcode).0 == move_to_sr_sem::<B>(b, opcode).0,
        related::<B>(rel, move_to_sr_sem::<B>(a, opcode).1, move_to_sr_sem::<B>(b, opcode).1),
{
    broadcast use {group_words, group_longs, group_address, group_operands};

    reveal(respected);
}

/// `move_from_sr_sem` keeps a relation.
pub proof fn lemma_move_from_sr<B: Bus>(
    rel: spec_fn(B::Model, B::Model) -> bool,
    a: Machine<B::Model>,
    b: Machine<B::Model>,
    opcode: u16,
)
    requires
        respected::<B>(rel),
        related::<B>(rel, a, b),
    ensures
        move_from_sr_sem::<B>(a, opcode).0 == move_from_sr_sem::<B>(b, opcode).0,
        related::<B>(rel, move_from_sr_sem::<B>(a, opcode).1, move_from_sr_sem::<B>(b, opcode).1),
{
    broadcast use {group_words, group_longs, group_address, group_operands};

    reveal(respected);
}

/// `move_to_ccr_sem` keeps a relation.
pub proof fn lemma_move_to_ccr<B: Bus>(
    rel: spec_fn(B::Model, B::Model) -> bool,
    a: Machine<B::Model>,
    b: Machine<B::Model>,
    opcode: u16,
)
    requires
        respected::<B>(rel),
        related::<B>(rel, a, b),
    ensures
        move_to_ccr_sem::<B>(a, opcode).0 == move_to_ccr_sem::<B>(b, opcode).0,
        related::<B>(rel, move_to_ccr_sem::<B>(a, opcode).1, move_to_ccr_sem::<B>(b, opcode).1),
{
    broadcast use {group_words, group_longs, group_address, group_operands};

    reveal(respected);
}

} // verus!
