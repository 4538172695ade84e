//! 68000 instruction decoder.
//!
//! Decodes the first word of an instruction into an [`Instruction`]. The 68000
//! has variable-length instructions (one to five words): the first word selects
//! the operation and the addressing modes, the following ones hold immediates
//! and displacements and are read during execution. The decoder is a total
//! function: every word decodes, unassigned ones to [`Instruction::Illegal`].
use vstd::prelude::*;

verus! {

/// Instruction operand size.
#[derive(Debug, Clone, Copy, PartialEq, Eq, Structural)]
pub enum InstructionSize {
    /// Byte (8-bit).
    Byte,
    /// Word (16-bit).
    Word,
    /// Long (32-bit).
    Long,
}

/// 68000 addressing modes.
#[derive(Debug, Clone, Copy, PartialEq, Eq, Structural)]
pub enum AddressingMode {
    /// Data register direct: Dn
    DataDirect(u8),
    /// Address register direct: An
    AddrDirect(u8),
    /// Address register indirect: (An)
    AddrIndirect(u8),
    /// Address register indirect with post-increment: (An)+
    AddrPostInc(u8),
    /// Address register indirect with pre-decrement: -(An)
    AddrPreDec(u8),
    /// Address register indirect with displacement: d16(An)
    AddrDisp(u8),
    /// Address register indirect with index: d8(An,Xn)
    AddrIndex(u8),
    /// Absolute short: (xxx).W
    AbsShort,
    /// Absolute long: (xxx).L
    AbsLong,
    /// PC with displacement: d16(PC)
    PcDisp,
    /// PC with index: d8(PC,Xn)
    PcIndex,
    /// Immediate: #imm
    Immediate,
}

/// Decoded 68000 instruction: the operation and, where the first word selects
/// one, the operand size.
#[derive(Debug, Clone, Copy, PartialEq, Eq, Structural)]
pub enum Instruction {
    /// MOVE source, destination
    Move(InstructionSize),
    /// MOVEA source, An
    MoveA(InstructionSize),
    /// MOVEQ #imm8, Dn
    MoveQ,
    /// LEA ea, An
    Lea,
    /// PEA ea
    Pea,
    /// MOVEM registers, ea / ea, registers
    Movem(InstructionSize),
    /// MOVEP Dn, d16(An) / d16(An), Dn
    MoveP(InstructionSize),
    /// ADD
    Add(InstructionSize),
    /// ADDA
    AddA(InstructionSize),
    /// ADDI
    AddI(InstructionSize),
    /// ADDQ
    AddQ(InstructionSize),
    /// ADDX
    AddX(InstructionSize),
    /// SUB
    Sub(InstructionSize),
    /// SUBA
    SubA(InstructionSize),
    /// SUBI
    SubI(InstructionSize),
    /// SUBQ
    SubQ(InstructionSize),
    /// SUBX
    SubX(InstructionSize),
    /// MULU
    MulU,
    /// MULS
    MulS,
    /// DIVU
    DivU,
    /// DIVS
    DivS,
    /// ABCD
    Abcd,
    /// SBCD
    Sbcd,
    /// NBCD
    Nbcd,
    /// CHK
    Chk,
    /// TAS
    Tas,
    /// CLR
    Clr(InstructionSize),
    /// NEG
    Neg(InstructionSize),
    /// NEGX
    NegX(InstructionSize),
    /// EXT
    Ext(InstructionSize),
    /// AND
    And(InstructionSize),
    /// ANDI
    AndI(InstructionSize),
    /// OR
    Or(InstructionSize),
    /// ORI
    OrI(InstructionSize),
    /// EOR
    Eor(InstructionSize),
    /// EORI
    EorI(InstructionSize),
    /// NOT
    Not(InstructionSize),
    /// ASL / ASR on a register
    Asd(InstructionSize),
    /// LSL / LSR on a register
    Lsd(InstructionSize),
    /// ROL / ROR on a register
    Rod(InstructionSize),
    /// ROXL / ROXR on a register
    Roxd(InstructionSize),
    /// Shift or rotate of a memory word by one
    ShiftMem,
    /// BTST
    BTst,
    /// BSET
    BSet,
    /// BCLR
    BClr,
    /// BCHG
    BChg,
    /// CMP
    Cmp(InstructionSize),
    /// CMPA
    CmpA(InstructionSize),
    /// CMPI
    CmpI(InstructionSize),
    /// CMPM
    CmpM(InstructionSize),
    /// TST
    Tst(InstructionSize),
    /// BRA / Bcc
    Bcc,
    /// BSR
    Bsr,
    /// DBcc
    DBcc,
    /// Scc
    Scc,
    /// JMP
    Jmp,
    /// JSR
    Jsr,
    /// RTS
    Rts,
    /// RTE
    Rte,
    /// RTR
    Rtr,
    /// LINK An, #disp
    Link,
    /// UNLK An
    Unlk,
    /// NOP
    Nop,
    /// STOP #imm
    Stop,
    /// RESET
    ResetInstr,
    /// TRAP #vector
    Trap,
    /// TRAPV
    TrapV,
    /// SWAP Dn
    Swap,
    /// EXG
    Exg,
    /// ANDI to CCR
    AndiCcr,
    /// ANDI to SR
    AndiSr,
    /// ORI to CCR
    OriCcr,
    /// ORI to SR
    OriSr,
    /// EORI to CCR
    EoriCcr,
    /// EORI to SR
    EoriSr,
    /// MOVE to SR
    MoveToSr,
    /// MOVE from SR
    MoveFromSr,
    /// MOVE to CCR
    MoveToCcr,
    /// MOVE USP
    MoveUsp,
    /// Unassigned opcode of the A line.
    LineA,
    /// Unassigned opcode of the F line.
    LineF,
    /// Illegal or unrecognized opcode.
    Illegal,
}

// ── Opcode fields ────────────────────────────────────────────────────────

/// Register field in bits 11-9.
pub open spec fn reg_high_of(op: u16) -> u8 {
    ((op / 512) % 8) as u8
}

/// Register field in bits 11-9.
pub fn reg_high(op: u16) -> (r: u8)
    ensures
        r == reg_high_of(op),
        r < 8,
{
    ((op / 512) % 8) as u8
}

/// Register field in bits 2-0.
pub open spec fn reg_low_of(op: u16) -> u8 {
    (op % 8) as u8
}

/// Register field in bits 2-0.
pub fn reg_low(op: u16) -> (r: u8)
    ensures
        r == reg_low_of(op),
        r < 8,
{
    (op % 8) as u8
}

/// Mode field in bits 8-6 (destination of MOVE).
pub open spec fn mode_high_of(op: u16) -> u8 {
    ((op / 64) % 8) as u8
}

/// Mode field in bits 8-6 (destination of MOVE).
pub fn mode_high(op: u16) -> (r: u8)
    ensures
        r == mode_high_of(op),
        r < 8,
{
    ((op / 64) % 8) as u8
}

/// Mode field in bits 5-3.
pub open spec fn mode_low_of(op: u16) -> u8 {
    ((op / 8) % 8) as u8
}

/// Mode field in bits 5-3.
pub fn mode_low(op: u16) -> (r: u8)
    ensures
        r == mode_low_of(op),
        r < 8,
{
    ((op / 8) % 8) as u8
}

/// Size field in bits 7-6.
pub open spec fn size_field_of(op: u16) -> u8 {
    ((op / 64) % 4) as u8
}

/// Size field in bits 7-6.
pub fn size_field(op: u16) -> (r: u8)
    ensures
        r == size_field_of(op),
        r < 4,
{
    ((op / 64) % 4) as u8
}

/// Condition field in bits 11-8.
pub open spec fn condition_field_of(op: u16) -> u8 {
    ((op / 256) % 16) as u8
}

/// Condition field in bits 11-8.
pub fn condition_field(op: u16) -> (r: u8)
    ensures
        r == condition_field_of(op),
        r < 16,
{
    ((op / 256) % 16) as u8
}

/// Bit `k` of the opcode, where `weight` is two to the power `k`.
pub open spec fn bit_of(op: u16, weight: u16) -> bool {
    (op / weight) % 2 == 1
}

/// Bit `k` of the opcode, where `weight` is two to the power `k`.
pub fn bit(op: u16, weight: u16) -> (r: bool)
    requires
        weight > 0,
    ensures
        r == bit_of(op, weight),
{
    (op / weight) % 2 == 1
}

/// Operand size of the encodings 0 (byte), 1 (word) and 2 (long).
pub open spec fn size_spec(field: u8) -> InstructionSize {
    if field == 0 {
        InstructionSize::Byte
    } else if field == 1 {
        InstructionSize::Word
    } else {
        InstructionSize::Long
    }
}

/// Operand size of the encodings 0 (byte), 1 (word) and 2 (long).
fn size(field: u8) -> (r: InstructionSize)
    ensures
        r == size_spec(field),
{
    if field == 0 {
        InstructionSize::Byte
    } else if field == 1 {
        InstructionSize::Word
    } else {
        InstructionSize::Long
    }
}

/// Word or long, as selected by one bit.
pub open spec fn word_or_long_spec(long: bool) -> InstructionSize {
    if long {
        InstructionSize::Long
    } else {
        InstructionSize::Word
    }
}

/// Word or long, as selected by one bit.
fn word_or_long(long: bool) -> (r: InstructionSize)
    ensures
        r == word_or_long_spec(long),
{
    if long {
        InstructionSize::Long
    } else {
        InstructionSize::Word
    }
}

/// The bit manipulation selected by bits 7-6.
pub open spec fn decode_bit_operation_spec(op: u16) -> Instruction {
    if size_field_of(op) == 0 {
        Instruction::BTst
    } else if size_field_of(op) == 1 {
        Instruction::BChg
    } else if size_field_of(op) == 2 {
        Instruction::BClr
    } else {
        Instruction::BSet
    }
}

/// The bit manipulation selected by bits 7-6.
fn decode_bit_operation(op: u16) -> (r: Instruction)
    ensures
        r == decode_bit_operation_spec(op),
{
    if size_field(op) == 0 {
        Instruction::BTst
    } else if size_field(op) == 1 {
        Instruction::BChg
    } else if size_field(op) == 2 {
        Instruction::BClr
    } else {
        Instruction::BSet
    }
}

/// Line 0: immediates, bit manipulation and MOVEP.
pub open spec fn decode_line_0_spec(op: u16) -> Instruction {
    if bit_of(op, 0x100) {
        if mode_low_of(op) == 1 {
            Instruction::MoveP(word_or_long_spec(bit_of(op, 0x40)))
        } else {
            decode_bit_operation_spec(op)
        }
    } else if reg_high_of(op) == 4 {
        decode_bit_operation_spec(op)
    } else if op == 0x003C {
        Instruction::OriCcr
    } else if op == 0x007C {
        Instruction::OriSr
    } else if op == 0x023C {
        Instruction::AndiCcr
    } else if op == 0x027C {
        Instruction::AndiSr
    } else if op == 0x0A3C {
        Instruction::EoriCcr
    } else if op == 0x0A7C {
        Instruction::EoriSr
    } else if size_field_of(op) == 3 {
        Instruction::Illegal
    } else if reg_high_of(op) == 0 {
        Instruction::OrI(size_spec(size_field_of(op)))
    } else if reg_high_of(op) == 1 {
        Instruction::AndI(size_spec(size_field_of(op)))
    } else if reg_high_of(op) == 2 {
        Instruction::SubI(size_spec(size_field_of(op)))
    } else if reg_high_of(op) == 3 {
        Instruction::AddI(size_spec(size_field_of(op)))
    } else if reg_high_of(op) == 5 {
        Instruction::EorI(size_spec(size_field_of(op)))
    } else if reg_high_of(op) == 6 {
        Instruction::CmpI(size_spec(size_field_of(op)))
    } else {
        Instruction::Illegal
    }
}

/// Line 0: immediates, bit manipulation and MOVEP.
fn decode_line_0(op: u16) -> (r: Instruction)
    ensures
        r == decode_line_0_spec(op),
{
    if bit(op, 0x100) {
        if mode_low(op) == 1 {
            Instruction::MoveP(word_or_long(bit(op, 0x40)))
        } else {
            decode_bit_operation(op)
        }
    } else if reg_high(op) == 4 {
        decode_bit_operation(op)
    } else if op == 0x003C {
        Instruction::OriCcr
    } else if op == 0x007C {
        Instruction::OriSr
    } else if op == 0x023C {
        Instruction::AndiCcr
    } else if op == 0x027C {
        Instruction::AndiSr
    } else if op == 0x0A3C {
        Instruction::EoriCcr
    } else if op == 0x0A7C {
        Instruction::EoriSr
    } else if size_field(op) == 3 {
        Instruction::Illegal
    } else if reg_high(op) == 0 {
        Instruction::OrI(size(size_field(op)))
    } else if reg_high(op) == 1 {
        Instruction::AndI(size(size_field(op)))
    } else if reg_high(op) == 2 {
        Instruction::SubI(size(size_field(op)))
    } else if reg_high(op) == 3 {
        Instruction::AddI(size(size_field(op)))
    } else if reg_high(op) == 5 {
        Instruction::EorI(size(size_field(op)))
    } else if reg_high(op) == 6 {
        Instruction::CmpI(size(size_field(op)))
    } else {
        Instruction::Illegal
    }
}

/// Lines 1 to 3: MOVE and MOVEA of the given size.
pub open spec fn decode_move_spec(op: u16, size: InstructionSize) -> Instruction {
    if mode_high_of(op) == 1 {
        if size == InstructionSize::Byte {
            Instruction::Illegal
        } else {
            Instruction::MoveA(size)
        }
    } else {
        Instruction::Move(size)
    }
}

/// Lines 1 to 3: MOVE and MOVEA of the given size.
fn decode_move(op: u16, size: InstructionSize) -> (r: Instruction)
    ensures
        r == decode_move_spec(op, size),
{
    if mode_high(op) == 1 {
        if size == InstructionSize::Byte {
            Instruction::Illegal
        } else {
            Instruction::MoveA(size)
        }
    } else {
        Instruction::Move(size)
    }
}

/// The system and jump group: opcodes 0x4E00 to 0x4EFF.
pub open spec fn decode_line_4e_spec(op: u16) -> Instruction {
    if op == 0x4E70 {
        Instruction::ResetInstr
    } else if op == 0x4E71 {
        Instruction::Nop
    } else if op == 0x4E72 {
        Instruction::Stop
    } else if op == 0x4E73 {
        Instruction::Rte
    } else if op == 0x4E75 {
        Instruction::Rts
    } else if op == 0x4E76 {
        Instruction::TrapV
    } else if op == 0x4E77 {
        Instruction::Rtr
    } else if op / 16 == 0x4E4 {
        Instruction::Trap
    } else if op / 8 == 0x9CA {
        Instruction::Link
    } else if op / 8 == 0x9CB {
        Instruction::Unlk
    } else if op / 16 == 0x4E6 {
        Instruction::MoveUsp
    } else if size_field_of(op) == 2 {
        Instruction::Jsr
    } else if size_field_of(op) == 3 {
        Instruction::Jmp
    } else {
        Instruction::Illegal
    }
}

/// The system and jump group: opcodes 0x4E00 to 0x4EFF.
fn decode_line_4e(op: u16) -> (r: Instruction)
    ensures
        r == decode_line_4e_spec(op),
{
    if op == 0x4E70 {
        Instruction::ResetInstr
    } else if op == 0x4E71 {
        Instruction::Nop
    } else if op == 0x4E72 {
        Instruction::Stop
    } else if op == 0x4E73 {
        Instruction::Rte
    } else if op == 0x4E75 {
        Instruction::Rts
    } else if op == 0x4E76 {
        Instruction::TrapV
    } else if op == 0x4E77 {
        Instruction::Rtr
    } else if op / 16 == 0x4E4 {
        Instruction::Trap
    } else if op / 8 == 0x9CA {
        Instruction::Link
    } else if op / 8 == 0x9CB {
        Instruction::Unlk
    } else if op / 16 == 0x4E6 {
        Instruction::MoveUsp
    } else if size_field(op) == 2 {
        Instruction::Jsr
    } else if size_field(op) == 3 {
        Instruction::Jmp
    } else {
        Instruction::Illegal
    }
}

/// Line 4: miscellaneous instructions.
pub open spec fn decode_line_4_spec(op: u16) -> Instruction {
    if mode_high_of(op) == 7 {
        Instruction::Lea
    } else if mode_high_of(op) == 6 {
        Instruction::Chk
    } else if op / 256 == 0x4E {
        decode_line_4e_spec(op)
    } else if op / 256 == 0x40 {
        if size_field_of(op) == 3 {
            Instruction::MoveFromSr
        } else {
            Instruction::NegX(size_spec(size_field_of(op)))
        }
    } else if op / 256 == 0x42 {
        if size_field_of(op) == 3 {
            Instruction::Illegal
        } else {
            Instruction::Clr(size_spec(size_field_of(op)))
        }
    } else if op / 256 == 0x44 {
        if size_field_of(op) == 3 {
            Instruction::MoveToCcr
        } else {
            Instruction::Neg(size_spec(size_field_of(op)))
        }
    } else if op / 256 == 0x46 {
        if size_field_of(op) == 3 {
            Instruction::MoveToSr
        } else {
            Instruction::Not(size_spec(size_field_of(op)))
        }
    } else if op / 256 == 0x48 {
        if size_field_of(op) == 0 {
            Instruction::Nbcd
        } else if size_field_of(op) == 1 {
            if mode_low_of(op) == 0 {
                Instruction::Swap
            } else {
                Instruction::Pea
            }
        } else if mode_low_of(op) == 0 {
            Instruction::Ext(word_or_long_spec(bit_of(op, 0x40)))
        } else {
            Instruction::Movem(word_or_long_spec(bit_of(op, 0x40)))
        }
    } else if op / 256 == 0x4A {
        if op == 0x4AFC {
            Instruction::Illegal
        } else if size_field_of(op) == 3 {
            Instruction::Tas
        } else {
            Instruction::Tst(size_spec(size_field_of(op)))
        }
    } else if op / 256 == 0x4C && size_field_of(op) >= 2 {
        Instruction::Movem(word_or_long_spec(bit_of(op, 0x40)))
    } else {
        Instruction::Illegal
    }
}

/// Line 4: miscellaneous instructions.
fn decode_line_4(op: u16) -> (r: Instruction)
    ensures
        r == decode_line_4_spec(op),
{
    if mode_high(op) == 7 {
        Instruction::Lea
    } else if mode_high(op) == 6 {
        Instruction::Chk
    } else if op / 256 == 0x4E {
        decode_line_4e(op)
    } else if op / 256 == 0x40 {
        if size_field(op) == 3 {
            Instruction::MoveFromSr
        } else {
            Instruction::NegX(size(size_field(op)))
        }
    } else if op / 256 == 0x42 {
        if size_field(op) == 3 {
            Instruction::Illegal
        } else {
            Instruction::Clr(size(size_field(op)))
        }
    } else if op / 256 == 0x44 {
        if size_field(op) == 3 {
            Instruction::MoveToCcr
        } else {
            Instruction::Neg(size(size_field(op)))
        }
    } else if op / 256 == 0x46 {
        if size_field(op) == 3 {
            Instruction::MoveToSr
        } else {
            Instruction::Not(size(size_field(op)))
        }
    } else if op / 256 == 0x48 {
        if size_field(op) == 0 {
            Instruction::Nbcd
        } else if size_field(op) == 1 {
            if mode_low(op) == 0 {
                Instruction::Swap
            } else {
                Instruction::Pea
            }
        } else if mode_low(op) == 0 {
            Instruction::Ext(word_or_long(bit(op, 0x40)))
        } else {
            Instruction::Movem(word_or_long(bit(op, 0x40)))
        }
    } else if op / 256 == 0x4A {
        if op == 0x4AFC {
            Instruction::Illegal
        } else if size_field(op) == 3 {
            Instruction::Tas
        } else {
            Instruction::Tst(size(size_field(op)))
        }
    } else if op / 256 == 0x4C && size_field(op) >= 2 {
        Instruction::Movem(word_or_long(bit(op, 0x40)))
    } else {
        Instruction::Illegal
    }
}

/// Line 5: ADDQ, SUBQ, Scc and DBcc.
pub open spec fn decode_line_5_spec(op: u16) -> Instruction {
    if size_field_of(op) == 3 {
        if mode_low_of(op) == 1 {
            Instruction::DBcc
        } else {
            Instruction::Scc
        }
    } else if bit_of(op, 0x100) {
        Instruction::SubQ(size_spec(size_field_of(op)))
    } else {
        Instruction::AddQ(size_spec(size_field_of(op)))
    }
}

/// Line 5: ADDQ, SUBQ, Scc and DBcc.
fn decode_line_5(op: u16) -> (r: Instruction)
    ensures
        r == decode_line_5_spec(op),
{
    if size_field(op) == 3 {
        if mode_low(op) == 1 {
            Instruction::DBcc
        } else {
            Instruction::Scc
        }
    } else if bit(op, 0x100) {
        Instruction::SubQ(size(size_field(op)))
    } else {
        Instruction::AddQ(size(size_field(op)))
    }
}

/// Line 8: OR, DIVU, DIVS and SBCD.
pub open spec fn decode_line_8_spec(op: u16) -> Instruction {
    if mode_high_of(op) == 3 {
        Instruction::DivU
    } else if mode_high_of(op) == 7 {
        Instruction::DivS
    } else if mode_high_of(op) == 4 && mode_low_of(op) < 2 {
        Instruction::Sbcd
    } else {
        Instruction::Or(size_spec(size_field_of(op)))
    }
}

/// Line 8: OR, DIVU, DIVS and SBCD.
fn decode_line_8(op: u16) -> (r: Instruction)
    ensures
        r == decode_line_8_spec(op),
{
    if mode_high(op) == 3 {
        Instruction::DivU
    } else if mode_high(op) == 7 {
        Instruction::DivS
    } else if mode_high(op) == 4 && mode_low(op) < 2 {
        Instruction::Sbcd
    } else {
        Instruction::Or(size(size_field(op)))
    }
}

/// Line 9: SUB, SUBA and SUBX.
pub open spec fn decode_line_9_spec(op: u16) -> Instruction {
    if size_field_of(op) == 3 {
        Instruction::SubA(word_or_long_spec(bit_of(op, 0x100)))
    } else if bit_of(op, 0x100) && mode_low_of(op) < 2 {
        Instruction::SubX(size_spec(size_field_of(op)))
    } else {
        Instruction::Sub(size_spec(size_field_of(op)))
    }
}

/// Line 9: SUB, SUBA and SUBX.
fn decode_line_9(op: u16) -> (r: Instruction)
    ensures
        r == decode_line_9_spec(op),
{
    if size_field(op) == 3 {
        Instruction::SubA(word_or_long(bit(op, 0x100)))
    } else if bit(op, 0x100) && mode_low(op) < 2 {
        Instruction::SubX(size(size_field(op)))
    } else {
        Instruction::Sub(size(size_field(op)))
    }
}

/// Line D: ADD, ADDA and ADDX.
pub open spec fn decode_line_d_spec(op: u16) -> Instruction {
    if size_field_of(op) == 3 {
        Instruction::AddA(word_or_long_spec(bit_of(op, 0x100)))
    } else if bit_of(op, 0x100) && mode_low_of(op) < 2 {
        Instruction::AddX(size_spec(size_field_of(op)))
    } else {
        Instruction::Add(size_spec(size_field_of(op)))
    }
}

/// Line D: ADD, ADDA and ADDX.
fn decode_line_d(op: u16) -> (r: Instruction)
    ensures
        r == decode_line_d_spec(op),
{
    if size_field(op) == 3 {
        Instruction::AddA(word_or_long(bit(op, 0x100)))
    } else if bit(op, 0x100) && mode_low(op) < 2 {
        Instruction::AddX(size(size_field(op)))
    } else {
        Instruction::Add(size(size_field(op)))
    }
}

/// Line B: CMP, CMPA, CMPM and EOR.
pub open spec fn decode_line_b_spec(op: u16) -> Instruction {
    if size_field_of(op) == 3 {
        Instruction::CmpA(word_or_long_spec(bit_of(op, 0x100)))
    } else if !bit_of(op, 0x100) {
        Instruction::Cmp(size_spec(size_field_of(op)))
    } else if mode_low_of(op) == 1 {
        Instruction::CmpM(size_spec(size_field_of(op)))
    } else {
        Instruction::Eor(size_spec(size_field_of(op)))
    }
}

/// Line B: CMP, CMPA, CMPM and EOR.
fn decode_line_b(op: u16) -> (r: Instruction)
    ensures
        r == decode_line_b_spec(op),
{
    if size_field(op) == 3 {
        Instruction::CmpA(word_or_long(bit(op, 0x100)))
    } else if !bit(op, 0x100) {
        Instruction::Cmp(size(size_field(op)))
    } else if mode_low(op) == 1 {
        Instruction::CmpM(size(size_field(op)))
    } else {
        Instruction::Eor(size(size_field(op)))
    }
}

/// Line C: AND, MULU, MULS, ABCD and EXG.
pub open spec fn decode_line_c_spec(op: u16) -> Instruction {
    if mode_high_of(op) == 3 {
        Instruction::MulU
    } else if mode_high_of(op) == 7 {
        Instruction::MulS
    } else if mode_high_of(op) == 4 && mode_low_of(op) < 2 {
        Instruction::Abcd
    } else if mode_high_of(op) == 5 && mode_low_of(op) < 2 {
        Instruction::Exg
    } else if mode_high_of(op) == 6 && mode_low_of(op) == 1 {
        Instruction::Exg
    } else {
        Instruction::And(size_spec(size_field_of(op)))
    }
}

/// Line C: AND, MULU, MULS, ABCD and EXG.
fn decode_line_c(op: u16) -> (r: Instruction)
    ensures
        r == decode_line_c_spec(op),
{
    if mode_high(op) == 3 {
        Instruction::MulU
    } else if mode_high(op) == 7 {
        Instruction::MulS
    } else if mode_high(op) == 4 && mode_low(op) < 2 {
        Instruction::Abcd
    } else if mode_high(op) == 5 && mode_low(op) < 2 {
        Instruction::Exg
    } else if mode_high(op) == 6 && mode_low(op) == 1 {
        Instruction::Exg
    } else {
        Instruction::And(size(size_field(op)))
    }
}

/// Line E: shifts and rotates.
pub open spec fn decode_line_e_spec(op: u16) -> Instruction {
    if size_field_of(op) == 3 {
        if bit_of(op, 0x800) {
            Instruction::Illegal
        } else {
            Instruction::ShiftMem
        }
    } else if (op / 8) % 4 == 0 {
        Instruction::Asd(size_spec(size_field_of(op)))
    } else if (op / 8) % 4 == 1 {
        Instruction::Lsd(size_spec(size_field_of(op)))
    } else if (op / 8) % 4 == 2 {
        Instruction::Roxd(size_spec(size_field_of(op)))
    } else {
        Instruction::Rod(size_spec(size_field_of(op)))
    }
}

/// Line E: shifts and rotates.
fn decode_line_e(op: u16) -> (r: Instruction)
    ensures
        r == decode_line_e_spec(op),
{
    if size_field(op) == 3 {
        if bit(op, 0x800) {
            Instruction::Illegal
        } else {
            Instruction::ShiftMem
        }
    } else if (op / 8) % 4 == 0 {
        Instruction::Asd(size(size_field(op)))
    } else if (op / 8) % 4 == 1 {
        Instruction::Lsd(size(size_field(op)))
    } else if (op / 8) % 4 == 2 {
        Instruction::Roxd(size(size_field(op)))
    } else {
        Instruction::Rod(size(size_field(op)))
    }
}

/// Decodes a 68000 instruction from its first word.
pub open spec fn decode_spec(op: u16) -> Instruction {
    if op / 4096 == 0x0 {
        decode_line_0_spec(op)
    } else if op / 4096 == 0x1 {
        decode_move_spec(op, InstructionSize::Byte)
    } else if op / 4096 == 0x2 {
        decode_move_spec(op, InstructionSize::Long)
    } else if op / 4096 == 0x3 {
        decode_move_spec(op, InstructionSize::Word)
    } else if op / 4096 == 0x4 {
        decode_line_4_spec(op)
    } else if op / 4096 == 0x5 {
        decode_line_5_spec(op)
    } else if op / 4096 == 0x6 {
        if condition_field_of(op) == 1 {
            Instruction::Bsr
        } else {
            Instruction::Bcc
        }
    } else if op / 4096 == 0x7 {
        if bit_of(op, 0x100) {
            Instruction::Illegal
        } else {
            Instruction::MoveQ
        }
    } else if op / 4096 == 0x8 {
        decode_line_8_spec(op)
    } else if op / 4096 == 0x9 {
        decode_line_9_spec(op)
    } else if op / 4096 == 0xA {
        Instruction::LineA
    } else if op / 4096 == 0xB {
        decode_line_b_spec(op)
    } else if op / 4096 == 0xC {
        decode_line_c_spec(op)
    } else if op / 4096 == 0xD {
        decode_line_d_spec(op)
    } else if op / 4096 == 0xE {
        decode_line_e_spec(op)
    } else {
        Instruction::LineF
    }
}

/// Decodes a 68000 instruction from its first word.
pub fn decode(op: u16) -> (r: Instruction)
    ensures
        r == decode_spec(op),
{
    if op / 4096 == 0x0 {
        decode_line_0(op)
    } else if op / 4096 == 0x1 {
        decode_move(op, InstructionSize::Byte)
    } else if op / 4096 == 0x2 {
        decode_move(op, InstructionSize::Long)
    } else if op / 4096 == 0x3 {
        decode_move(op, InstructionSize::Word)
    } else if op / 4096 == 0x4 {
        decode_line_4(op)
    } else if op / 4096 == 0x5 {
        decode_line_5(op)
    } else if op / 4096 == 0x6 {
        if condition_field(op) == 1 {
            Instruction::Bsr
        } else {
            Instruction::Bcc
        }
    } else if op / 4096 == 0x7 {
        if bit(op, 0x100) {
            Instruction::Illegal
        } else {
            Instruction::MoveQ
        }
    } else if op / 4096 == 0x8 {
        decode_line_8(op)
    } else if op / 4096 == 0x9 {
        decode_line_9(op)
    } else if op / 4096 == 0xA {
        Instruction::LineA
    } else if op / 4096 == 0xB {
        decode_line_b(op)
    } else if op / 4096 == 0xC {
        decode_line_c(op)
    } else if op / 4096 == 0xD {
        decode_line_d(op)
    } else if op / 4096 == 0xE {
        decode_line_e(op)
    } else {
        Instruction::LineF
    }
}

/// The addressing mode of a mode and a register field. The three unassigned
/// encodings of mode 7 act as an immediate operand.
pub open spec fn decode_ea_spec(mode: u8, reg: u8) -> AddressingMode {
    if mode == 0 {
        AddressingMode::DataDirect(reg)
    } else if mode == 1 {
        AddressingMode::AddrDirect(reg)
    } else if mode == 2 {
        AddressingMode::AddrIndirect(reg)
    } else if mode == 3 {
        AddressingMode::AddrPostInc(reg)
    } else if mode == 4 {
        AddressingMode::AddrPreDec(reg)
    } else if mode == 5 {
        AddressingMode::AddrDisp(reg)
    } else if mode == 6 {
        AddressingMode::AddrIndex(reg)
    } else if reg == 0 {
        AddressingMode::AbsShort
    } else if reg == 1 {
        AddressingMode::AbsLong
    } else if reg == 2 {
        AddressingMode::PcDisp
    } else if reg == 3 {
        AddressingMode::PcIndex
    } else {
        AddressingMode::Immediate
    }
}

/// The register named by an addressing mode is one of the eight.
pub open spec fn ea_valid(ea: AddressingMode) -> bool {
    match ea {
        AddressingMode::DataDirect(r) => r < 8,
        AddressingMode::AddrDirect(r) => r < 8,
        AddressingMode::AddrIndirect(r) => r < 8,
        AddressingMode::AddrPostInc(r) => r < 8,
        AddressingMode::AddrPreDec(r) => r < 8,
        AddressingMode::AddrDisp(r) => r < 8,
        AddressingMode::AddrIndex(r) => r < 8,
        _ => true,
    }
}

/// Decodes a mode and a register field.
pub fn decode_ea(mode: u8, reg: u8) -> (r: AddressingMode)
    requires
        mode < 8,
        reg < 8,
    ensures
        r == decode_ea_spec(mode, reg),
        ea_valid(r),
{
    if mode == 0 {
        AddressingMode::DataDirect(reg)
    } else if mode == 1 {
        AddressingMode::AddrDirect(reg)
    } else if mode == 2 {
        AddressingMode::AddrIndirect(reg)
    } else if mode == 3 {
        AddressingMode::AddrPostInc(reg)
    } else if mode == 4 {
        AddressingMode::AddrPreDec(reg)
    } else if mode == 5 {
        AddressingMode::AddrDisp(reg)
    } else if mode == 6 {
        AddressingMode::AddrIndex(reg)
    } else if reg == 0 {
        AddressingMode::AbsShort
    } else if reg == 1 {
        AddressingMode::AbsLong
    } else if reg == 2 {
        AddressingMode::PcDisp
    } else if reg == 3 {
        AddressingMode::PcIndex
    } else {
        AddressingMode::Immediate
    }
}

/// Every MOVEQ word, and no other word of line 7, decodes to MOVEQ.
pub proof fn law_moveq_encoding(op: u16)
    ensures
        decode_spec(op) == Instruction::MoveQ <==> op / 4096 == 7 && (op / 256) % 2 == 0,
{
}

} // verus!
