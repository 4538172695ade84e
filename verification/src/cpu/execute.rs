//! 68000 instruction executor.
//!
//! Takes the first word of an instruction, reads the extension words and the
//! operands from the bus, performs the operation, sets the condition codes and
//! returns the number of CPU cycles consumed.
use vstd::prelude::*;

use super::decode::{decode, decode_spec, Instruction, InstructionSize};
use super::engine::{Cpu, CpuState};
use super::exception::{exception_sem, exec_exception};
use super::exec_alu::{
    abcd_sem, addx_sem, alu_address_sem, alu_immediate_sem, alu_quick_sem, alu_sem, chk_sem,
    clr_sem, divs_sem, divu_sem, exec_abcd, exec_addx, exec_alu, exec_alu_address,
    exec_alu_immediate, exec_alu_quick, exec_chk, exec_clr, exec_divs, exec_divu, exec_ext,
    exec_muls, exec_mulu, exec_nbcd, exec_neg, exec_negx, exec_not, exec_sbcd, exec_subx,
    exec_tas, ext_sem, muls_sem, mulu_sem, nbcd_sem, neg_sem, negx_sem, not_sem, sbcd_sem,
    subx_sem, tas_sem, AluOp,
};
use super::exec_bits::{
    bit_op_sem, compare_address_sem, compare_immediate_sem, compare_memory_sem, compare_sem,
    exec_bit_op, exec_compare, exec_compare_address, exec_compare_immediate,
    exec_compare_memory, exec_tst, tst_sem, BitOp,
};
use super::exec_flow::{
    andi_ccr_sem, andi_sr_sem, bcc_sem, bsr_sem, dbcc_sem, eori_ccr_sem, eori_sr_sem,
    exec_andi_ccr, exec_andi_sr, exec_bcc, exec_bsr, exec_dbcc, exec_eori_ccr, exec_eori_sr,
    exec_exg, exec_jmp, exec_jsr, exec_link, exec_move_from_sr, exec_move_to_ccr,
    exec_move_to_sr, exec_move_usp, exec_ori_ccr, exec_ori_sr, exec_rte, exec_rtr, exec_rts,
    exec_scc, exec_stop, exec_swap, exec_trap, exec_trapv, exec_unlk, exg_sem, jmp_sem, jsr_sem,
    link_sem, move_from_sr_sem, move_to_ccr_sem, move_to_sr_sem, move_usp_sem, ori_ccr_sem,
    ori_sr_sem, rte_sem, rtr_sem, rts_sem, scc_sem, stop_sem, swap_sem, trap_sem, trapv_sem,
    unlk_sem,
};
use super::exec_move::{
    exec_lea, exec_move, exec_movea, exec_movem, exec_movep, exec_moveq, exec_pea, lemma_movem_cycles, lea_sem,
    move_sem, movea_sem, movem_sem, movep_sem, moveq_sem, pea_sem,
};
use super::exec_shift::{
    exec_shift_mem, exec_shift_register, shift_mem_sem, shift_register_sem, ShiftKind,
};
use super::operand::{machine, Bus, Machine};

pub use super::exception::deliver_interrupt;
pub use super::flags::evaluate_condition;

verus! {

/// The outcome of an instruction that touches the registers alone.
pub open spec fn on_registers<M>(s: Machine<M>, r: (u32, CpuState)) -> (u32, Machine<M>) {
    (r.0, s.with_cpu(r.1))
}

/// Cycles and machine after one of the data movement instructions. Other instructions
/// take no time and change nothing here.
#[verifier::opaque]
pub open spec fn movement_sem<B: Bus>(
    s: Machine<B::Model>,
    instruction: Instruction,
    opcode: u16,
) -> (u32, Machine<B::Model>) {
    match instruction {
        Instruction::Move(size) => move_sem::<B>(s, opcode, size),
        Instruction::MoveA(size) => movea_sem::<B>(s, opcode, size),
        Instruction::MoveQ => on_registers(s, moveq_sem(s.cpu, opcode)),
        Instruction::Lea => lea_sem::<B>(s, opcode),
        Instruction::Pea => pea_sem::<B>(s, opcode),
        Instruction::Movem(size) => movem_sem::<B>(s, opcode, size),
        Instruction::MoveP(size) => movep_sem::<B>(s, opcode, size),
        Instruction::Swap => on_registers(s, swap_sem(s.cpu, opcode)),
        Instruction::Exg => on_registers(s, exg_sem(s.cpu, opcode)),
        _ => (0, s),
    }
}

/// Executes one of the data movement instructions.
fn exec_movement<B: Bus>(
    cpu: &mut Cpu,
    instruction: Instruction,
    opcode: u16,
    bus: &mut B,
) -> (r: u32)
    requires
        old(bus).valid(),
    ensures
        final(bus).valid(),
        (r, machine(*final(cpu), *final(bus))) == movement_sem::<B>(
            machine(*old(cpu), *old(bus)),
            instruction,
            opcode,
        ),
{
    reveal(movement_sem);
    match instruction {
        Instruction::Move(size) => exec_move(cpu, opcode, size, bus),
        Instruction::MoveA(size) => exec_movea(cpu, opcode, size, bus),
        Instruction::MoveQ => exec_moveq(cpu, opcode),
        Instruction::Lea => exec_lea(cpu, opcode, bus),
        Instruction::Pea => exec_pea(cpu, opcode, bus),
        Instruction::Movem(size) => exec_movem(cpu, opcode, size, bus),
        Instruction::MoveP(size) => exec_movep(cpu, opcode, size, bus),
        Instruction::Swap => exec_swap(cpu, opcode),
        Instruction::Exg => exec_exg(cpu, opcode),
        _ => 0,
    }
}

/// Cycles and machine after one of the addition and subtraction instructions. Other instructions
/// take no time and change nothing here.
#[verifier::opaque]
pub open spec fn additive_sem<B: Bus>(
    s: Machine<B::Model>,
    instruction: Instruction,
    opcode: u16,
) -> (u32, Machine<B::Model>) {
    match instruction {
        Instruction::Add(size) => alu_sem::<B>(s, AluOp::Add, opcode, size),
        Instruction::AddA(size) => alu_address_sem::<B>(s, AluOp::Add, opcode, size),
        Instruction::AddI(size) => alu_immediate_sem::<B>(s, AluOp::Add, opcode, size),
        Instruction::AddQ(size) => alu_quick_sem::<B>(s, AluOp::Add, opcode, size),
        Instruction::AddX(size) => addx_sem::<B>(s, opcode, size),
        Instruction::Sub(size) => alu_sem::<B>(s, AluOp::Sub, opcode, size),
        Instruction::SubA(size) => alu_address_sem::<B>(s, AluOp::Sub, opcode, size),
        Instruction::SubI(size) => alu_immediate_sem::<B>(s, AluOp::Sub, opcode, size),
        Instruction::SubQ(size) => alu_quick_sem::<B>(s, AluOp::Sub, opcode, size),
        Instruction::SubX(size) => subx_sem::<B>(s, opcode, size),
        Instruction::Clr(size) => clr_sem::<B>(s, opcode, size),
        Instruction::Neg(size) => neg_sem::<B>(s, opcode, size),
        Instruction::NegX(size) => negx_sem::<B>(s, opcode, size),
        Instruction::Ext(size) => on_registers(s, ext_sem(s.cpu, opcode, size)),
        _ => (0, s),
    }
}

/// Executes one of the addition and subtraction instructions.
fn exec_additive<B: Bus>(
    cpu: &mut Cpu,
    instruction: Instruction,
    opcode: u16,
    bus: &mut B,
) -> (r: u32)
    requires
        old(bus).valid(),
    ensures
        final(bus).valid(),
        (r, machine(*final(cpu), *final(bus))) == additive_sem::<B>(
            machine(*old(cpu), *old(bus)),
            instruction,
            opcode,
        ),
{
    reveal(additive_sem);
    match instruction {
        Instruction::Add(size) => exec_alu(cpu, AluOp::Add, opcode, size, bus),
        Instruction::AddA(size) => exec_alu_address(cpu, AluOp::Add, opcode, size, bus),
        Instruction::AddI(size) => exec_alu_immediate(cpu, AluOp::Add, opcode, size, bus),
        Instruction::AddQ(size) => exec_alu_quick(cpu, AluOp::Add, opcode, size, bus),
        Instruction::AddX(size) => exec_addx(cpu, opcode, size, bus),
        Instruction::Sub(size) => exec_alu(cpu, AluOp::Sub, opcode, size, bus),
        Instruction::SubA(size) => exec_alu_address(cpu, AluOp::Sub, opcode, size, bus),
        Instruction::SubI(size) => exec_alu_immediate(cpu, AluOp::Sub, opcode, size, bus),
        Instruction::SubQ(size) => exec_alu_quick(cpu, AluOp::Sub, opcode, size, bus),
        Instruction::SubX(size) => exec_subx(cpu, opcode, size, bus),
        Instruction::Clr(size) => exec_clr(cpu, opcode, size, bus),
        Instruction::Neg(size) => exec_neg(cpu, opcode, size, bus),
        Instruction::NegX(size) => exec_negx(cpu, opcode, size, bus),
        Instruction::Ext(size) => exec_ext(cpu, opcode, size),
        _ => 0,
    }
}

/// Cycles and machine after one of the multiplication, division, decimal and check instructions. Other instructions
/// take no time and change nothing here.
#[verifier::opaque]
pub open spec fn multiplicative_sem<B: Bus>(
    s: Machine<B::Model>,
    instruction: Instruction,
    opcode: u16,
) -> (u32, Machine<B::Model>) {
    match instruction {
        Instruction::MulU => mulu_sem::<B>(s, opcode),
        Instruction::MulS => muls_sem::<B>(s, opcode),
        Instruction::DivU => divu_sem::<B>(s, opcode),
        Instruction::DivS => divs_sem::<B>(s, opcode),
        Instruction::Abcd => abcd_sem::<B>(s, opcode),
        Instruction::Sbcd => sbcd_sem::<B>(s, opcode),
        Instruction::Nbcd => nbcd_sem::<B>(s, opcode),
        Instruction::Chk => chk_sem::<B>(s, opcode),
        Instruction::Tas => tas_sem::<B>(s, opcode),
        _ => (0, s),
    }
}

/// Executes one of the multiplication, division, decimal and check instructions.
fn exec_multiplicative<B: Bus>(
    cpu: &mut Cpu,
    instruction: Instruction,
    opcode: u16,
    bus: &mut B,
) -> (r: u32)
    requires
        old(bus).valid(),
    ensures
        final(bus).valid(),
        (r, machine(*final(cpu), *final(bus))) == multiplicative_sem::<B>(
            machine(*old(cpu), *old(bus)),
            instruction,
            opcode,
        ),
{
    reveal(multiplicative_sem);
    match instruction {
        Instruction::MulU => exec_mulu(cpu, opcode, bus),
        Instruction::MulS => exec_muls(cpu, opcode, bus),
        Instruction::DivU => exec_divu(cpu, opcode, bus),
        Instruction::DivS => exec_divs(cpu, opcode, bus),
        Instruction::Abcd => exec_abcd(cpu, opcode, bus),
        Instruction::Sbcd => exec_sbcd(cpu, opcode, bus),
        Instruction::Nbcd => exec_nbcd(cpu, opcode, bus),
        Instruction::Chk => exec_chk(cpu, opcode, bus),
        Instruction::Tas => exec_tas(cpu, opcode, bus),
        _ => 0,
    }
}

/// Cycles and machine after one of the logic, shift and bit instructions. Other instructions
/// take no time and change nothing here.
#[verifier::opaque]
pub open spec fn logic_sem<B: Bus>(
    s: Machine<B::Model>,
    instruction: Instruction,
    opcode: u16,
) -> (u32, Machine<B::Model>) {
    match instruction {
        Instruction::And(size) => alu_sem::<B>(s, AluOp::And, opcode, size),
        Instruction::AndI(size) => alu_immediate_sem::<B>(s, AluOp::And, opcode, size),
        Instruction::Or(size) => alu_sem::<B>(s, AluOp::Or, opcode, size),
        Instruction::OrI(size) => alu_immediate_sem::<B>(s, AluOp::Or, opcode, size),
        Instruction::Eor(size) => alu_sem::<B>(s, AluOp::Eor, opcode, size),
        Instruction::EorI(size) => alu_immediate_sem::<B>(s, AluOp::Eor, opcode, size),
        Instruction::Not(size) => not_sem::<B>(s, opcode, size),
        Instruction::Asd(size) => on_registers(s, shift_register_sem(s.cpu, ShiftKind::Arithmetic, opcode, size)),
        Instruction::Lsd(size) => on_registers(s, shift_register_sem(s.cpu, ShiftKind::Logical, opcode, size)),
        Instruction::Rod(size) => on_registers(s, shift_register_sem(s.cpu, ShiftKind::Rotate, opcode, size)),
        Instruction::Roxd(size) => on_registers(s, shift_register_sem(s.cpu, ShiftKind::RotateExtend, opcode, size)),
        Instruction::ShiftMem => shift_mem_sem::<B>(s, opcode),
        Instruction::BTst => bit_op_sem::<B>(s, BitOp::TestBit, opcode),
        Instruction::BSet => bit_op_sem::<B>(s, BitOp::SetBit, opcode),
        Instruction::BClr => bit_op_sem::<B>(s, BitOp::ClearBit, opcode),
        Instruction::BChg => bit_op_sem::<B>(s, BitOp::ChangeBit, opcode),
        _ => (0, s),
    }
}

/// Executes one of the logic, shift and bit instructions.
fn exec_logic<B: Bus>(
    cpu: &mut Cpu,
    instruction: Instruction,
    opcode: u16,
    bus: &mut B,
) -> (r: u32)
    requires
        old(bus).valid(),
    ensures
        final(bus).valid(),
        (r, machine(*final(cpu), *final(bus))) == logic_sem::<B>(
            machine(*old(cpu), *old(bus)),
            instruction,
            opcode,
        ),
{
    reveal(logic_sem);
    match instruction {
        Instruction::And(size) => exec_alu(cpu, AluOp::And, opcode, size, bus),
        Instruction::AndI(size) => exec_alu_immediate(cpu, AluOp::And, opcode, size, bus),
        Instruction::Or(size) => exec_alu(cpu, AluOp::Or, opcode, size, bus),
        Instruction::OrI(size) => exec_alu_immediate(cpu, AluOp::Or, opcode, size, bus),
        Instruction::Eor(size) => exec_alu(cpu, AluOp::Eor, opcode, size, bus),
        Instruction::EorI(size) => exec_alu_immediate(cpu, AluOp::Eor, opcode, size, bus),
        Instruction::Not(size) => exec_not(cpu, opcode, size, bus),
        Instruction::Asd(size) => exec_shift_register(cpu, ShiftKind::Arithmetic, opcode, size),
        Instruction::Lsd(size) => exec_shift_register(cpu, ShiftKind::Logical, opcode, size),
        Instruction::Rod(size) => exec_shift_register(cpu, ShiftKind::Rotate, opcode, size),
        Instruction::Roxd(size) => exec_shift_register(cpu, ShiftKind::RotateExtend, opcode, size),
        Instruction::ShiftMem => exec_shift_mem(cpu, opcode, bus),
        Instruction::BTst => exec_bit_op(cpu, BitOp::TestBit, opcode, bus),
        Instruction::BSet => exec_bit_op(cpu, BitOp::SetBit, opcode, bus),
        Instruction::BClr => exec_bit_op(cpu, BitOp::ClearBit, opcode, bus),
        Instruction::BChg => exec_bit_op(cpu, BitOp::ChangeBit, opcode, bus),
        _ => 0,
    }
}

/// Cycles and machine after one of the comparison, branch and subroutine instructions. Other instructions
/// take no time and change nothing here.
#[verifier::opaque]
pub open spec fn flow_sem<B: Bus>(
    s: Machine<B::Model>,
    instruction: Instruction,
    opcode: u16,
) -> (u32, Machine<B::Model>) {
    match instruction {
        Instruction::Cmp(size) => compare_sem::<B>(s, opcode, size),
        Instruction::CmpA(size) => compare_address_sem::<B>(s, opcode, size),
        Instruction::CmpI(size) => compare_immediate_sem::<B>(s, opcode, size),
        Instruction::CmpM(size) => compare_memory_sem::<B>(s, opcode, size),
        Instruction::Tst(size) => tst_sem::<B>(s, opcode, size),
        Instruction::Bcc => bcc_sem::<B>(s, opcode),
        Instruction::Bsr => bsr_sem::<B>(s, opcode),
        Instruction::DBcc => dbcc_sem::<B>(s, opcode),
        Instruction::Scc => scc_sem::<B>(s, opcode),
        Instruction::Jmp => jmp_sem::<B>(s, opcode),
        Instruction::Jsr => jsr_sem::<B>(s, opcode),
        Instruction::Rts => rts_sem::<B>(s),
        Instruction::Rte => rte_sem::<B>(s),
        Instruction::Rtr => rtr_sem::<B>(s),
        Instruction::Link => link_sem::<B>(s, opcode),
        Instruction::Unlk => unlk_sem::<B>(s, opcode),
        _ => (0, s),
    }
}

/// Executes one of the comparison, branch and subroutine instructions.
fn exec_flow<B: Bus>(
    cpu: &mut Cpu,
    instruction: Instruction,
    opcode: u16,
    bus: &mut B,
) -> (r: u32)
    requires
        old(bus).valid(),
    ensures
        final(bus).valid(),
        (r, machine(*final(cpu), *final(bus))) == flow_sem::<B>(
            machine(*old(cpu), *old(bus)),
            instruction,
            opcode,
        ),
{
    reveal(flow_sem);
    match instruction {
        Instruction::Cmp(size) => exec_compare(cpu, opcode, size, bus),
        Instruction::CmpA(size) => exec_compare_address(cpu, opcode, size, bus),
        Instruction::CmpI(size) => exec_compare_immediate(cpu, opcode, size, bus),
        Instruction::CmpM(size) => exec_compare_memory(cpu, opcode, size, bus),
        Instruction::Tst(size) => exec_tst(cpu, opcode, size, bus),
        Instruction::Bcc => exec_bcc(cpu, opcode, bus),
        Instruction::Bsr => exec_bsr(cpu, opcode, bus),
        Instruction::DBcc => exec_dbcc(cpu, opcode, bus),
        Instruction::Scc => exec_scc(cpu, opcode, bus),
        Instruction::Jmp => exec_jmp(cpu, opcode, bus),
        Instruction::Jsr => exec_jsr(cpu, opcode, bus),
        Instruction::Rts => exec_rts(cpu, bus),
        Instruction::Rte => exec_rte(cpu, bus),
        Instruction::Rtr => exec_rtr(cpu, bus),
        Instruction::Link => exec_link(cpu, opcode, bus),
        Instruction::Unlk => exec_unlk(cpu, opcode, bus),
        _ => 0,
    }
}

/// Cycles and machine after one of the system instructions. Other instructions
/// take no time and change nothing here.
#[verifier::opaque]
pub open spec fn system_sem<B: Bus>(
    s: Machine<B::Model>,
    instruction: Instruction,
    opcode: u16,
) -> (u32, Machine<B::Model>) {
    match instruction {
        Instruction::Nop => (4, s),
        Instruction::Stop => stop_sem::<B>(s),
        Instruction::ResetInstr => (132, s),
        Instruction::Trap => trap_sem::<B>(s, opcode),
        Instruction::TrapV => trapv_sem::<B>(s),
        Instruction::AndiCcr => andi_ccr_sem::<B>(s),
        Instruction::AndiSr => andi_sr_sem::<B>(s),
        Instruction::OriCcr => ori_ccr_sem::<B>(s),
        Instruction::OriSr => ori_sr_sem::<B>(s),
        Instruction::EoriCcr => eori_ccr_sem::<B>(s),
        Instruction::EoriSr => eori_sr_sem::<B>(s),
        Instruction::MoveToSr => move_to_sr_sem::<B>(s, opcode),
        Instruction::MoveFromSr => move_from_sr_sem::<B>(s, opcode),
        Instruction::MoveToCcr => move_to_ccr_sem::<B>(s, opcode),
        Instruction::MoveUsp => on_registers(s, move_usp_sem(s.cpu, opcode)),
        Instruction::LineA => (34, exception_sem::<B>(s, 4)),
        Instruction::LineF => (34, exception_sem::<B>(s, 4)),
        Instruction::Illegal => (34, exception_sem::<B>(s, 4)),
        _ => (0, s),
    }
}

/// Executes one of the system instructions.
fn exec_system<B: Bus>(
    cpu: &mut Cpu,
    instruction: Instruction,
    opcode: u16,
    bus: &mut B,
) -> (r: u32)
    requires
        old(bus).valid(),
    ensures
        final(bus).valid(),
        (r, machine(*final(cpu), *final(bus))) == system_sem::<B>(
            machine(*old(cpu), *old(bus)),
            instruction,
            opcode,
        ),
{
    reveal(system_sem);
    match instruction {
        Instruction::Nop => 4,
        Instruction::Stop => exec_stop(cpu, bus),
        Instruction::ResetInstr => 132,
        Instruction::Trap => exec_trap(cpu, opcode, bus),
        Instruction::TrapV => exec_trapv(cpu, bus),
        Instruction::AndiCcr => exec_andi_ccr(cpu, bus),
        Instruction::AndiSr => exec_andi_sr(cpu, bus),
        Instruction::OriCcr => exec_ori_ccr(cpu, bus),
        Instruction::OriSr => exec_ori_sr(cpu, bus),
        Instruction::EoriCcr => exec_eori_ccr(cpu, bus),
        Instruction::EoriSr => exec_eori_sr(cpu, bus),
        Instruction::MoveToSr => exec_move_to_sr(cpu, opcode, bus),
        Instruction::MoveFromSr => exec_move_from_sr(cpu, opcode, bus),
        Instruction::MoveToCcr => exec_move_to_ccr(cpu, opcode, bus),
        Instruction::MoveUsp => exec_move_usp(cpu, opcode),
        Instruction::LineA => {
            exec_exception(cpu, bus, 4);
            34
        },
        Instruction::LineF => {
            exec_exception(cpu, bus, 4);
            34
        },
        Instruction::Illegal => {
            exec_exception(cpu, bus, 4);
            34
        },
        _ => 0,
    }
}

/// One instruction: the cycles it takes and the machine after it. The opcode
/// has been fetched already; the program counter is behind it.
pub open spec fn execute_sem<B: Bus>(s: Machine<B::Model>, opcode: u16) -> (
    u32,
    Machine<B::Model>,
) {
    let instruction = decode_spec(opcode);
    match instruction {
        Instruction::Move(_) => movement_sem::<B>(s, instruction, opcode),
        Instruction::MoveA(_) => movement_sem::<B>(s, instruction, opcode),
        Instruction::MoveQ => movement_sem::<B>(s, instruction, opcode),
        Instruction::Lea => movement_sem::<B>(s, instruction, opcode),
        Instruction::Pea => movement_sem::<B>(s, instruction, opcode),
        Instruction::Movem(_) => movement_sem::<B>(s, instruction, opcode),
        Instruction::MoveP(_) => movement_sem::<B>(s, instruction, opcode),
        Instruction::Swap => movement_sem::<B>(s, instruction, opcode),
        Instruction::Exg => movement_sem::<B>(s, instruction, opcode),
        Instruction::Add(_) => additive_sem::<B>(s, instruction, opcode),
        Instruction::AddA(_) => additive_sem::<B>(s, instruction, opcode),
        Instruction::AddI(_) => additive_sem::<B>(s, instruction, opcode),
        Instruction::AddQ(_) => additive_sem::<B>(s, instruction, opcode),
        Instruction::AddX(_) => additive_sem::<B>(s, instruction, opcode),
        Instruction::Sub(_) => additive_sem::<B>(s, instruction, opcode),
        Instruction::SubA(_) => additive_sem::<B>(s, instruction, opcode),
        Instruction::SubI(_) => additive_sem::<B>(s, instruction, opcode),
        Instruction::SubQ(_) => additive_sem::<B>(s, instruction, opcode),
        Instruction::SubX(_) => additive_sem::<B>(s, instruction, opcode),
        Instruction::Clr(_) => additive_sem::<B>(s, instruction, opcode),
        Instruction::Neg(_) => additive_sem::<B>(s, instruction, opcode),
        Instruction::NegX(_) => additive_sem::<B>(s, instruction, opcode),
        Instruction::Ext(_) => additive_sem::<B>(s, instruction, opcode),
        Instruction::MulU => multiplicative_sem::<B>(s, instruction, opcode),
        Instruction::MulS => multiplicative_sem::<B>(s, instruction, opcode),
        Instruction::DivU => multiplicative_sem::<B>(s, instruction, opcode),
        Instruction::DivS => multiplicative_sem::<B>(s, instruction, opcode),
        Instruction::Abcd => multiplicative_sem::<B>(s, instruction, opcode),
        Instruction::Sbcd => multiplicative_sem::<B>(s, instruction, opcode),
        Instruction::Nbcd => multiplicative_sem::<B>(s, instruction, opcode),
        Instruction::Chk => multiplicative_sem::<B>(s, instruction, opcode),
        Instruction::Tas => multiplicative_sem::<B>(s, instruction, opcode),
        Instruction::And(_) => logic_sem::<B>(s, instruction, opcode),
        Instruction::AndI(_) => logic_sem::<B>(s, instruction, opcode),
        Instruction::Or(_) => logic_sem::<B>(s, instruction, opcode),
        Instruction::OrI(_) => logic_sem::<B>(s, instruction, opcode),
        Instruction::Eor(_) => logic_sem::<B>(s, instruction, opcode),
        Instruction::EorI(_) => logic_sem::<B>(s, instruction, opcode),
        Instruction::Not(_) => logic_sem::<B>(s, instruction, opcode),
        Instruction::Asd(_) => logic_sem::<B>(s, instruction, opcode),
        Instruction::Lsd(_) => logic_sem::<B>(s, instruction, opcode),
        Instruction::Rod(_) => logic_sem::<B>(s, instruction, opcode),
        Instruction::Roxd(_) => logic_sem::<B>(s, instruction, opcode),
        Instruction::ShiftMem => logic_sem::<B>(s, instruction, opcode),
        Instruction::BTst => logic_sem::<B>(s, instruction, opcode),
        Instruction::BSet => logic_sem::<B>(s, instruction, opcode),
        Instruction::BClr => logic_sem::<B>(s, instruction, opcode),
        Instruction::BChg => logic_sem::<B>(s, instruction, opcode),
        Instruction::Cmp(_) => flow_sem::<B>(s, instruction, opcode),
        Instruction::CmpA(_) => flow_sem::<B>(s, instruction, opcode),
        Instruction::CmpI(_) => flow_sem::<B>(s, instruction, opcode),
        Instruction::CmpM(_) => flow_sem::<B>(s, instruction, opcode),
        Instruction::Tst(_) => flow_sem::<B>(s, instruction, opcode),
        Instruction::Bcc => flow_sem::<B>(s, instruction, opcode),
        Instruction::Bsr => flow_sem::<B>(s, instruction, opcode),
        Instruction::DBcc => flow_sem::<B>(s, instruction, opcode),
        Instruction::Scc => flow_sem::<B>(s, instruction, opcode),
        Instruction::Jmp => flow_sem::<B>(s, instruction, opcode),
        Instruction::Jsr => flow_sem::<B>(s, instruction, opcode),
        Instruction::Rts => flow_sem::<B>(s, instruction, opcode),
        Instruction::Rte => flow_sem::<B>(s, instruction, opcode),
        Instruction::Rtr => flow_sem::<B>(s, instruction, opcode),
        Instruction::Link => flow_sem::<B>(s, instruction, opcode),
        Instruction::Unlk => flow_sem::<B>(s, instruction, opcode),
        Instruction::Nop => system_sem::<B>(s, instruction, opcode),
        Instruction::Stop => system_sem::<B>(s, instruction, opcode),
        Instruction::ResetInstr => system_sem::<B>(s, instruction, opcode),
        Instruction::Trap => system_sem::<B>(s, instruction, opcode),
        Instruction::TrapV => system_sem::<B>(s, instruction, opcode),
        Instruction::AndiCcr => system_sem::<B>(s, instruction, opcode),
        Instruction::AndiSr => system_sem::<B>(s, instruction, opcode),
        Instruction::OriCcr => system_sem::<B>(s, instruction, opcode),
        Instruction::OriSr => system_sem::<B>(s, instruction, opcode),
        Instruction::EoriCcr => system_sem::<B>(s, instruction, opcode),
        Instruction::EoriSr => system_sem::<B>(s, instruction, opcode),
        Instruction::MoveToSr => system_sem::<B>(s, instruction, opcode),
        Instruction::MoveFromSr => system_sem::<B>(s, instruction, opcode),
        Instruction::MoveToCcr => system_sem::<B>(s, instruction, opcode),
        Instruction::MoveUsp => system_sem::<B>(s, instruction, opcode),
        Instruction::LineA => system_sem::<B>(s, instruction, opcode),
        Instruction::LineF => system_sem::<B>(s, instruction, opcode),
        Instruction::Illegal => system_sem::<B>(s, instruction, opcode),
    }
}

/// Executes one instruction.
///
/// The opcode word has already been fetched and the program counter advanced
/// past it. Returns the number of CPU cycles consumed.
pub fn execute_instruction<B: Bus>(cpu: &mut Cpu, opcode: u16, bus: &mut B) -> (r: u32)
    requires
        old(bus).valid(),
    ensures
        final(bus).valid(),
        (r, machine(*final(cpu), *final(bus))) == execute_sem::<B>(
            machine(*old(cpu), *old(bus)),
            opcode,
        ),
{
    let instruction: Instruction = decode(opcode);
    match instruction {
        Instruction::Move(_) => exec_movement(cpu, instruction, opcode, bus),
        Instruction::MoveA(_) => exec_movement(cpu, instruction, opcode, bus),
        Instruction::MoveQ => exec_movement(cpu, instruction, opcode, bus),
        Instruction::Lea => exec_movement(cpu, instruction, opcode, bus),
        Instruction::Pea => exec_movement(cpu, instruction, opcode, bus),
        Instruction::Movem(_) => exec_movement(cpu, instruction, opcode, bus),
        Instruction::MoveP(_) => exec_movement(cpu, instruction, opcode, bus),
        Instruction::Swap => exec_movement(cpu, instruction, opcode, bus),
        Instruction::Exg => exec_movement(cpu, instruction, opcode, bus),
        Instruction::Add(_) => exec_additive(cpu, instruction, opcode, bus),
        Instruction::AddA(_) => exec_additive(cpu, instruction, opcode, bus),
        Instruction::AddI(_) => exec_additive(cpu, instruction, opcode, bus),
        Instruction::AddQ(_) => exec_additive(cpu, instruction, opcode, bus),
        Instruction::AddX(_) => exec_additive(cpu, instruction, opcode, bus),
        Instruction::Sub(_) => exec_additive(cpu, instruction, opcode, bus),
        Instruction::SubA(_) => exec_additive(cpu, instruction, opcode, bus),
        Instruction::SubI(_) => exec_additive(cpu, instruction, opcode, bus),
        Instruction::SubQ(_) => exec_additive(cpu, instruction, opcode, bus),
        Instruction::SubX(_) => exec_additive(cpu, instruction, opcode, bus),
        Instruction::Clr(_) => exec_additive(cpu, instruction, opcode, bus),
        Instruction::Neg(_) => exec_additive(cpu, instruction, opcode, bus),
        Instruction::NegX(_) => exec_additive(cpu, instruction, opcode, bus),
        Instruction::Ext(_) => exec_additive(cpu, instruction, opcode, bus),
        Instruction::MulU => exec_multiplicative(cpu, instruction, opcode, bus),
        Instruction::MulS => exec_multiplicative(cpu, instruction, opcode, bus),
        Instruction::DivU => exec_multiplicative(cpu, instruction, opcode, bus),
        Instruction::DivS => exec_multiplicative(cpu, instruction, opcode, bus),
        Instruction::Abcd => exec_multiplicative(cpu, instruction, opcode, bus),
        Instruction::Sbcd => exec_multiplicative(cpu, instruction, opcode, bus),
        Instruction::Nbcd => exec_multiplicative(cpu, instruction, opcode, bus),
        Instruction::Chk => exec_multiplicative(cpu, instruction, opcode, bus),
        Instruction::Tas => exec_multiplicative(cpu, instruction, opcode, bus),
        Instruction::And(_) => exec_logic(cpu, instruction, opcode, bus),
        Instruction::AndI(_) => exec_logic(cpu, instruction, opcode, bus),
        Instruction::Or(_) => exec_logic(cpu, instruction, opcode, bus),
        Instruction::OrI(_) => exec_logic(cpu, instruction, opcode, bus),
        Instruction::Eor(_) => exec_logic(cpu, instruction, opcode, bus),
        Instruction::EorI(_) => exec_logic(cpu, instruction, opcode, bus),
        Instruction::Not(_) => exec_logic(cpu, instruction, opcode, bus),
        Instruction::Asd(_) => exec_logic(cpu, instruction, opcode, bus),
        Instruction::Lsd(_) => exec_logic(cpu, instruction, opcode, bus),
        Instruction::Rod(_) => exec_logic(cpu, instruction, opcode, bus),
        Instruction::Roxd(_) => exec_logic(cpu, instruction, opcode, bus),
        Instruction::ShiftMem => exec_logic(cpu, instruction, opcode, bus),
        Instruction::BTst => exec_logic(cpu, instruction, opcode, bus),
        Instruction::BSet => exec_logic(cpu, instruction, opcode, bus),
        Instruction::BClr => exec_logic(cpu, instruction, opcode, bus),
        Instruction::BChg => exec_logic(cpu, instruction, opcode, bus),
        Instruction::Cmp(_) => exec_flow(cpu, instruction, opcode, bus),
        Instruction::CmpA(_) => exec_flow(cpu, instruction, opcode, bus),
        Instruction::CmpI(_) => exec_flow(cpu, instruction, opcode, bus),
        Instruction::CmpM(_) => exec_flow(cpu, instruction, opcode, bus),
        Instruction::Tst(_) => exec_flow(cpu, instruction, opcode, bus),
        Instruction::Bcc => exec_flow(cpu, instruction, opcode, bus),
        Instruction::Bsr => exec_flow(cpu, instruction, opcode, bus),
        Instruction::DBcc => exec_flow(cpu, instruction, opcode, bus),
        Instruction::Scc => exec_flow(cpu, instruction, opcode, bus),
        Instruction::Jmp => exec_flow(cpu, instruction, opcode, bus),
        Instruction::Jsr => exec_flow(cpu, instruction, opcode, bus),
        Instruction::Rts => exec_flow(cpu, instruction, opcode, bus),
        Instruction::Rte => exec_flow(cpu, instruction, opcode, bus),
        Instruction::Rtr => exec_flow(cpu, instruction, opcode, bus),
        Instruction::Link => exec_flow(cpu, instruction, opcode, bus),
        Instruction::Unlk => exec_flow(cpu, instruction, opcode, bus),
        Instruction::Nop => exec_system(cpu, instruction, opcode, bus),
        Instruction::Stop => exec_system(cpu, instruction, opcode, bus),
        Instruction::ResetInstr => exec_system(cpu, instruction, opcode, bus),
        Instruction::Trap => exec_system(cpu, instruction, opcode, bus),
        Instruction::TrapV => exec_system(cpu, instruction, opcode, bus),
        Instruction::AndiCcr => exec_system(cpu, instruction, opcode, bus),
        Instruction::AndiSr => exec_system(cpu, instruction, opcode, bus),
        Instruction::OriCcr => exec_system(cpu, instruction, opcode, bus),
        Instruction::OriSr => exec_system(cpu, instruction, opcode, bus),
        Instruction::EoriCcr => exec_system(cpu, instruction, opcode, bus),
        Instruction::EoriSr => exec_system(cpu, instruction, opcode, bus),
        Instruction::MoveToSr => exec_system(cpu, instruction, opcode, bus),
        Instruction::MoveFromSr => exec_system(cpu, instruction, opcode, bus),
        Instruction::MoveToCcr => exec_system(cpu, instruction, opcode, bus),
        Instruction::MoveUsp => exec_system(cpu, instruction, opcode, bus),
        Instruction::LineA => exec_system(cpu, instruction, opcode, bus),
        Instruction::LineF => exec_system(cpu, instruction, opcode, bus),
        Instruction::Illegal => exec_system(cpu, instruction, opcode, bus),
    }
}

/// Each of the data movement instructions takes 4 to 158 cycles.
proof fn lemma_movement_cycles<B: Bus>(
    s: Machine<B::Model>,
    instruction: Instruction,
    opcode: u16,
)
    requires
        instruction is Move || instruction is MoveA || instruction is MoveQ ||
            instruction is Lea || instruction is Pea || instruction is Movem ||
            instruction is MoveP || instruction is Swap || instruction is Exg,
    ensures
        4 <= movement_sem::<B>(s, instruction, opcode).0 <= 158,
{
    reveal(movement_sem);
    lemma_movem_cycles::<B>(s, opcode, InstructionSize::Long);
    lemma_movem_cycles::<B>(s, opcode, InstructionSize::Word);
    lemma_movem_cycles::<B>(s, opcode, InstructionSize::Byte);
}

/// Each of the addition and subtraction instructions takes 4 to 158 cycles.
proof fn lemma_additive_cycles<B: Bus>(
    s: Machine<B::Model>,
    instruction: Instruction,
    opcode: u16,
)
    requires
        instruction is Add || instruction is AddA || instruction is AddI || instruction
            is AddQ || instruction is AddX || instruction is Sub || instruction is SubA
            || instruction is SubI || instruction is SubQ || instruction is SubX ||
            instruction is Clr || instruction is Neg || instruction is NegX ||
            instruction is Ext,
    ensures
        4 <= additive_sem::<B>(s, instruction, opcode).0 <= 158,
{
    reveal(additive_sem);
}

/// Each of the multiplication, division, decimal and check instructions takes 4 to 158 cycles.
proof fn lemma_multiplicative_cycles<B: Bus>(
    s: Machine<B::Model>,
    instruction: Instruction,
    opcode: u16,
)
    requires
        instruction is MulU || instruction is MulS || instruction is DivU || instruction
            is DivS || instruction is Abcd || instruction is Sbcd || instruction is Nbcd
            || instruction is Chk || instruction is Tas,
    ensures
        4 <= multiplicative_sem::<B>(s, instruction, opcode).0 <= 158,
{
    reveal(multiplicative_sem);
}

/// Each of the logic, shift and bit instructions takes 4 to 158 cycles.
proof fn lemma_logic_cycles<B: Bus>(
    s: Machine<B::Model>,
    instruction: Instruction,
    opcode: u16,
)
    requires
        instruction is And || instruction is AndI || instruction is Or || instruction is
            OrI || instruction is Eor || instruction is EorI || instruction is Not ||
            instruction is Asd || instruction is Lsd || instruction is Rod ||
            instruction is Roxd || instruction is ShiftMem || instruction is BTst ||
            instruction is BSet || instruction is BClr || instruction is BChg,
    ensures
        4 <= logic_sem::<B>(s, instruction, opcode).0 <= 158,
{
    reveal(logic_sem);
}

/// Each of the comparison, branch and subroutine instructions takes 4 to 158 cycles.
proof fn lemma_flow_cycles<B: Bus>(
    s: Machine<B::Model>,
    instruction: Instruction,
    opcode: u16,
)
    requires
        instruction is Cmp || instruction is CmpA || instruction is CmpI || instruction
            is CmpM || instruction is Tst || instruction is Bcc || instruction is Bsr ||
            instruction is DBcc || instruction is Scc || instruction is Jmp ||
            instruction is Jsr || instruction is Rts || instruction is Rte ||
            instruction is Rtr || instruction is Link || instruction is Unlk,
    ensures
        4 <= flow_sem::<B>(s, instruction, opcode).0 <= 158,
{
    reveal(flow_sem);
}

/// Each of the system instructions takes 4 to 158 cycles.
proof fn lemma_system_cycles<B: Bus>(
    s: Machine<B::Model>,
    instruction: Instruction,
    opcode: u16,
)
    requires
        instruction is Nop || instruction is Stop || instruction is ResetInstr ||
            instruction is Trap || instruction is TrapV || instruction is AndiCcr ||
            instruction is AndiSr || instruction is OriCcr || instruction is OriSr ||
            instruction is EoriCcr || instruction is EoriSr || instruction is MoveToSr
            || instruction is MoveFromSr || instruction is MoveToCcr || instruction is
            MoveUsp || instruction is LineA || instruction is LineF || instruction is
            Illegal,
    ensures
        4 <= system_sem::<B>(s, instruction, opcode).0 <= 158,
{
    reveal(system_sem);
}

/// Every instruction takes 4 to 158 cycles.
pub proof fn law_instruction_cycles<B: Bus>(s: Machine<B::Model>, opcode: u16)
    ensures
        4 <= execute_sem::<B>(s, opcode).0 <= 158,
{
    let instruction = decode_spec(opcode);
    match instruction {
        Instruction::Move(_) => {
            lemma_movement_cycles::<B>(s, instruction, opcode);
        },
        Instruction::MoveA(_) => {
            lemma_movement_cycles::<B>(s, instruction, opcode);
        },
        Instruction::MoveQ => {
            lemma_movement_cycles::<B>(s, instruction, opcode);
        },
        Instruction::Lea => {
            lemma_movement_cycles::<B>(s, instruction, opcode);
        },
        Instruction::Pea => {
            lemma_movement_cycles::<B>(s, instruction, opcode);
        },
        Instruction::Movem(_) => {
            lemma_movement_cycles::<B>(s, instruction, opcode);
        },
        Instruction::MoveP(_) => {
            lemma_movement_cycles::<B>(s, instruction, opcode);
        },
        Instruction::Swap => {
            lemma_movement_cycles::<B>(s, instruction, opcode);
        },
        Instruction::Exg => {
            lemma_movement_cycles::<B>(s, instruction, opcode);
        },
        Instruction::Add(_) => {
            lemma_additive_cycles::<B>(s, instruction, opcode);
        },
        Instruction::AddA(_) => {
            lemma_additive_cycles::<B>(s, instruction, opcode);
        },
        Instruction::AddI(_) => {
            lemma_additive_cycles::<B>(s, instruction, opcode);
        },
        Instruction::AddQ(_) => {
            lemma_additive_cycles::<B>(s, instruction, opcode);
        },
        Instruction::AddX(_) => {
            lemma_additive_cycles::<B>(s, instruction, opcode);
        },
        Instruction::Sub(_) => {
            lemma_additive_cycles::<B>(s, instruction, opcode);
        },
        Instruction::SubA(_) => {
            lemma_additive_cycles::<B>(s, instruction, opcode);
        },
        Instruction::SubI(_) => {
            lemma_additive_cycles::<B>(s, instruction, opcode);
        },
        Instruction::SubQ(_) => {
            lemma_additive_cycles::<B>(s, instruction, opcode);
        },
        Instruction::SubX(_) => {
            lemma_additive_cycles::<B>(s, instruction, opcode);
        },
        Instruction::Clr(_) => {
            lemma_additive_cycles::<B>(s, instruction, opcode);
        },
        Instruction::Neg(_) => {
            lemma_additive_cycles::<B>(s, instruction, opcode);
        },
        Instruction::NegX(_) => {
            lemma_additive_cycles::<B>(s, instruction, opcode);
        },
        Instruction::Ext(_) => {
            lemma_additive_cycles::<B>(s, instruction, opcode);
        },
        Instruction::MulU => {
            lemma_multiplicative_cycles::<B>(s, instruction, opcode);
        },
        Instruction::MulS => {
            lemma_multiplicative_cycles::<B>(s, instruction, opcode);
        },
        Instruction::DivU => {
            lemma_multiplicative_cycles::<B>(s, instruction, opcode);
        },
        Instruction::DivS => {
            lemma_multiplicative_cycles::<B>(s, instruction, opcode);
        },
        Instruction::Abcd => {
            lemma_multiplicative_cycles::<B>(s, instruction, opcode);
        },
        Instruction::Sbcd => {
            lemma_multiplicative_cycles::<B>(s, instruction, opcode);
        },
        Instruction::Nbcd => {
            lemma_multiplicative_cycles::<B>(s, instruction, opcode);
        },
        Instruction::Chk => {
            lemma_multiplicative_cycles::<B>(s, instruction, opcode);
        },
        Instruction::Tas => {
            lemma_multiplicative_cycles::<B>(s, instruction, opcode);
        },
        Instruction::And(_) => {
            lemma_logic_cycles::<B>(s, instruction, opcode);
        },
        Instruction::AndI(_) => {
            lemma_logic_cycles::<B>(s, instruction, opcode);
        },
        Instruction::Or(_) => {
            lemma_logic_cycles::<B>(s, instruction, opcode);
        },
        Instruction::OrI(_) => {
            lemma_logic_cycles::<B>(s, instruction, opcode);
        },
        Instruction::Eor(_) => {
            lemma_logic_cycles::<B>(s, instruction, opcode);
        },
        Instruction::EorI(_) => {
            lemma_logic_cycles::<B>(s, instruction, opcode);
        },
        Instruction::Not(_) => {
            lemma_logic_cycles::<B>(s, instruction, opcode);
        },
        Instruction::Asd(_) => {
            lemma_logic_cycles::<B>(s, instruction, opcode);
        },
        Instruction::Lsd(_) => {
            lemma_logic_cycles::<B>(s, instruction, opcode);
        },
        Instruction::Rod(_) => {
            lemma_logic_cycles::<B>(s, instruction, opcode);
        },
        Instruction::Roxd(_) => {
            lemma_logic_cycles::<B>(s, instruction, opcode);
        },
        Instruction::ShiftMem => {
            lemma_logic_cycles::<B>(s, instruction, opcode);
        },
        Instruction::BTst => {
            lemma_logic_cycles::<B>(s, instruction, opcode);
        },
        Instruction::BSet => {
            lemma_logic_cycles::<B>(s, instruction, opcode);
        },
        Instruction::BClr => {
            lemma_logic_cycles::<B>(s, instruction, opcode);
        },
        Instruction::BChg => {
            lemma_logic_cycles::<B>(s, instruction, opcode);
        },
        Instruction::Cmp(_) => {
            lemma_flow_cycles::<B>(s, instruction, opcode);
        },
        Instruction::CmpA(_) => {
            lemma_flow_cycles::<B>(s, instruction, opcode);
        },
        Instruction::CmpI(_) => {
            lemma_flow_cycles::<B>(s, instruction, opcode);
        },
        Instruction::CmpM(_) => {
            lemma_flow_cycles::<B>(s, instruction, opcode);
        },
        Instruction::Tst(_) => {
            lemma_flow_cycles::<B>(s, instruction, opcode);
        },
        Instruction::Bcc => {
            lemma_flow_cycles::<B>(s, instruction, opcode);
        },
        Instruction::Bsr => {
            lemma_flow_cycles::<B>(s, instruction, opcode);
        },
        Instruction::DBcc => {
            lemma_flow_cycles::<B>(s, instruction, opcode);
        },
        Instruction::Scc => {
            lemma_flow_cycles::<B>(s, instruction, opcode);
        },
        Instruction::Jmp => {
            lemma_flow_cycles::<B>(s, instruction, opcode);
        },
        Instruction::Jsr => {
            lemma_flow_cycles::<B>(s, instruction, opcode);
        },
        Instruction::Rts => {
            lemma_flow_cycles::<B>(s, instruction, opcode);
        },
        Instruction::Rte => {
            lemma_flow_cycles::<B>(s, instruction, opcode);
        },
        Instruction::Rtr => {
            lemma_flow_cycles::<B>(s, instruction, opcode);
        },
        Instruction::Link => {
            lemma_flow_cycles::<B>(s, instruction, opcode);
        },
        Instruction::Unlk => {
            lemma_flow_cycles::<B>(s, instruction, opcode);
        },
        Instruction::Nop => {
            lemma_system_cycles::<B>(s, instruction, opcode);
        },
        Instruction::Stop => {
            lemma_system_cycles::<B>(s, instruction, opcode);
        },
        Instruction::ResetInstr => {
            lemma_system_cycles::<B>(s, instruction, opcode);
        },
        Instruction::Trap => {
            lemma_system_cycles::<B>(s, instruction, opcode);
        },
        Instruction::TrapV => {
            lemma_system_cycles::<B>(s, instruction, opcode);
        },
        Instruction::AndiCcr => {
            lemma_system_cycles::<B>(s, instruction, opcode);
        },
        Instruction::AndiSr => {
            lemma_system_cycles::<B>(s, instruction, opcode);
        },
        Instruction::OriCcr => {
            lemma_system_cycles::<B>(s, instruction, opcode);
        },
        Instruction::OriSr => {
            lemma_system_cycles::<B>(s, instruction, opcode);
        },
        Instruction::EoriCcr => {
            lemma_system_cycles::<B>(s, instruction, opcode);
        },
        Instruction::EoriSr => {
            lemma_system_cycles::<B>(s, instruction, opcode);
        },
        Instruction::MoveToSr => {
            lemma_system_cycles::<B>(s, instruction, opcode);
        },
        Instruction::MoveFromSr => {
            lemma_system_cycles::<B>(s, instruction, opcode);
        },
        Instruction::MoveToCcr => {
            lemma_system_cycles::<B>(s, instruction, opcode);
        },
        Instruction::MoveUsp => {
            lemma_system_cycles::<B>(s, instruction, opcode);
        },
        Instruction::LineA => {
            lemma_system_cycles::<B>(s, instruction, opcode);
        },
        Instruction::LineF => {
            lemma_system_cycles::<B>(s, instruction, opcode);
        },
        Instruction::Illegal => {
            lemma_system_cycles::<B>(s, instruction, opcode);
        },
    }
}

} // verus!
