//! Instruction execution on a RAM-backed bus.
use genesoxide::cpu::execute::evaluate_condition;
use genesoxide::cpu::operand::read_long;
use genesoxide::cpu::{execute_instruction, Bus, Cpu, StatusRegister};

/// A simple RAM-backed bus for testing.
struct TestBus {
    ram: [u8; 0x10000],
}

impl TestBus {
    fn new() -> Self {
        Self { ram: [0; 0x10000] }
    }

    /// Write a big-endian u16 at the given address.
    fn poke_word(&mut self, addr: u32, val: u16) {
        let a = (addr & 0xFFFF) as usize;
        self.ram[a] = (val >> 8) as u8;
        self.ram[a + 1] = val as u8;
    }

    /// Write a big-endian u32 at the given address.
    #[allow(dead_code)]
    fn poke_long(&mut self, addr: u32, val: u32) {
        self.poke_word(addr, (val >> 16) as u16);
        self.poke_word(addr + 2, val as u16);
    }
}

impl Bus for TestBus {
    type Model = ();

    // The model methods are ghost: nothing calls them at run time.
    fn model(&self) {}

    fn valid(&self) -> bool {
        true
    }

    fn read_byte_model(_m: (), _addr: u32) -> (u8, ()) {
        unreachable!()
    }

    fn read_word_model(_m: (), _addr: u32) -> (u16, ()) {
        unreachable!()
    }

    fn write_byte_model(_m: (), _addr: u32, _val: u8) {
        unreachable!()
    }

    fn write_word_model(_m: (), _addr: u32, _val: u16) {
        unreachable!()
    }

    fn read_byte(&mut self, addr: u32) -> u8 {
        self.ram[(addr & 0xFFFF) as usize]
    }

    fn read_word(&mut self, addr: u32) -> u16 {
        let a = (addr & 0xFFFF) as usize;
        u16::from(self.ram[a]) << 8 | u16::from(self.ram[a + 1])
    }

    fn write_byte(&mut self, addr: u32, val: u8) {
        self.ram[(addr & 0xFFFF) as usize] = val;
    }

    fn write_word(&mut self, addr: u32, val: u16) {
        let a = (addr & 0xFFFF) as usize;
        self.ram[a] = (val >> 8) as u8;
        self.ram[a + 1] = val as u8;
    }
}

fn make_cpu() -> Cpu {
    let mut cpu = Cpu::new();
    cpu.pc = 0x1000;
    cpu.ssp = 0xFFFE;
    cpu
}

// ── MOVEQ ────────────────────────────────────────────────────────

#[test]
fn moveq_positive() {
    let mut cpu = make_cpu();
    let mut bus = TestBus::new();
    // MOVEQ #42, D3 = 0x762A
    execute_instruction(&mut cpu, 0x762A, &mut bus);
    assert_eq!(cpu.d[3], 42);
    assert!(!cpu.sr.flag(StatusRegister::N));
    assert!(!cpu.sr.flag(StatusRegister::Z));
}

#[test]
fn moveq_negative() {
    let mut cpu = make_cpu();
    let mut bus = TestBus::new();
    // MOVEQ #-1, D0 = 0x70FF
    execute_instruction(&mut cpu, 0x70FF, &mut bus);
    assert_eq!(cpu.d[0], 0xFFFF_FFFF);
    assert!(cpu.sr.flag(StatusRegister::N));
}

#[test]
fn moveq_zero() {
    let mut cpu = make_cpu();
    let mut bus = TestBus::new();
    // MOVEQ #0, D0 = 0x7000
    execute_instruction(&mut cpu, 0x7000, &mut bus);
    assert_eq!(cpu.d[0], 0);
    assert!(cpu.sr.flag(StatusRegister::Z));
}

// ── MOVE ─────────────────────────────────────────────────────────

#[test]
fn move_word_reg_to_reg() {
    let mut cpu = make_cpu();
    let mut bus = TestBus::new();
    cpu.d[0] = 0x1234;
    // MOVE.W D0, D1 = 0x3200
    execute_instruction(&mut cpu, 0x3200, &mut bus);
    assert_eq!(cpu.d[1] & 0xFFFF, 0x1234);
}

#[test]
fn move_long_reg_to_reg() {
    let mut cpu = make_cpu();
    let mut bus = TestBus::new();
    cpu.d[0] = 0xDEAD_BEEF;
    // MOVE.L D0, D1 = 0x2200
    execute_instruction(&mut cpu, 0x2200, &mut bus);
    assert_eq!(cpu.d[1], 0xDEAD_BEEF);
}

// ── ADD ──────────────────────────────────────────────────────────

#[test]
fn add_word_ea_to_dn() {
    let mut cpu = make_cpu();
    let mut bus = TestBus::new();
    cpu.d[0] = 10;
    cpu.d[1] = 20;
    // ADD.W D0, D1 = 0xD240
    execute_instruction(&mut cpu, 0xD240, &mut bus);
    assert_eq!(cpu.d[1] & 0xFFFF, 30);
}

#[test]
fn add_overflow_sets_flags() {
    let mut cpu = make_cpu();
    let mut bus = TestBus::new();
    cpu.d[0] = 0x7FFF;
    cpu.d[1] = 1;
    // ADD.W D1, D0 -- opcode: 1101 000 001 000 001 = 0xD041
    execute_instruction(&mut cpu, 0xD041, &mut bus);
    assert_eq!(cpu.d[0] & 0xFFFF, 0x8000);
    assert!(cpu.sr.flag(StatusRegister::V));
    assert!(cpu.sr.flag(StatusRegister::N));
}

// ── SUB ──────────────────────────────────────────────────────────

#[test]
fn sub_word() {
    let mut cpu = make_cpu();
    let mut bus = TestBus::new();
    cpu.d[0] = 5;
    cpu.d[1] = 10;
    // SUB.W D0, D1 = 0x9240 (Dn - <ea>: D1 := D1 - D0)
    execute_instruction(&mut cpu, 0x9240, &mut bus);
    assert_eq!(cpu.d[1] & 0xFFFF, 5);
}

// ── CMP ──────────────────────────────────────────────────────────

#[test]
fn cmp_equal_sets_zero() {
    let mut cpu = make_cpu();
    let mut bus = TestBus::new();
    cpu.d[0] = 42;
    cpu.d[1] = 42;
    // CMP.L D0, D1 = 0xB280
    execute_instruction(&mut cpu, 0xB280, &mut bus);
    assert!(cpu.sr.flag(StatusRegister::Z));
    assert!(!cpu.sr.flag(StatusRegister::N));
}

#[test]
fn cmp_less_sets_negative() {
    let mut cpu = make_cpu();
    let mut bus = TestBus::new();
    cpu.d[0] = 100;
    cpu.d[1] = 50;
    // CMP.L D0, D1 = 0xB280
    execute_instruction(&mut cpu, 0xB280, &mut bus);
    assert!(!cpu.sr.flag(StatusRegister::Z));
    assert!(cpu.sr.flag(StatusRegister::N));
}

// ── Branch ───────────────────────────────────────────────────────

#[test]
fn bra_short_displacement() {
    let mut cpu = make_cpu();
    let mut bus = TestBus::new();
    // BRA.S $+6 = 0x6004 (displacement 4, but relative to PC+2 which is already done)
    // PC is 0x1000 before execution, after opcode fetch it's 0x1002
    // But execute_instruction is called after the opcode is fetched, so PC = 0x1000
    // actually the caller advances PC by 2 before calling us... let me set up properly
    cpu.pc = 0x1002; // After opcode fetch
    execute_instruction(&mut cpu, 0x6004, &mut bus);
    assert_eq!(cpu.pc, 0x1006); // 0x1002 + 4
}

#[test]
fn beq_not_taken() {
    let mut cpu = make_cpu();
    let mut bus = TestBus::new();
    cpu.sr.set_flag(StatusRegister::Z, false);
    cpu.pc = 0x1002;
    // BEQ.S $+4 = 0x6702
    execute_instruction(&mut cpu, 0x6702, &mut bus);
    // Not taken, PC should not change (stays at 0x1002)
    assert_eq!(cpu.pc, 0x1002);
}

#[test]
fn beq_taken() {
    let mut cpu = make_cpu();
    let mut bus = TestBus::new();
    cpu.sr.set_flag(StatusRegister::Z, true);
    cpu.pc = 0x1002;
    // BEQ.S $+4 = 0x6702
    execute_instruction(&mut cpu, 0x6702, &mut bus);
    assert_eq!(cpu.pc, 0x1004);
}

// ── JSR / RTS ────────────────────────────────────────────────────

#[test]
fn jsr_rts_roundtrip() {
    let mut cpu = make_cpu();
    let mut bus = TestBus::new();
    cpu.pc = 0x1002;
    cpu.write_a(0, 0x2000);
    // JSR (A0) = 0x4E90
    execute_instruction(&mut cpu, 0x4E90, &mut bus);
    assert_eq!(cpu.pc, 0x2000);
    // Return address should be on stack
    let ret = read_long(&mut bus, cpu.sp() & 0x00FF_FFFF);
    assert_eq!(ret, 0x1002);

    // RTS = 0x4E75
    execute_instruction(&mut cpu, 0x4E75, &mut bus);
    assert_eq!(cpu.pc, 0x1002);
}

// ── SWAP ─────────────────────────────────────────────────────────

#[test]
fn swap_register() {
    let mut cpu = make_cpu();
    let mut bus = TestBus::new();
    cpu.d[3] = 0xAABB_CCDD;
    // SWAP D3 = 0x4843
    execute_instruction(&mut cpu, 0x4843, &mut bus);
    assert_eq!(cpu.d[3], 0xCCDD_AABB);
}

// ── CLR ──────────────────────────────────────────────────────────

#[test]
fn clr_long_register() {
    let mut cpu = make_cpu();
    let mut bus = TestBus::new();
    cpu.d[0] = 0xDEAD_BEEF;
    // CLR.L D0 = 0x4280
    execute_instruction(&mut cpu, 0x4280, &mut bus);
    assert_eq!(cpu.d[0], 0);
    assert!(cpu.sr.flag(StatusRegister::Z));
}

// ── Logic ────────────────────────────────────────────────────────

#[test]
fn and_word() {
    let mut cpu = make_cpu();
    let mut bus = TestBus::new();
    cpu.d[0] = 0xFF0F;
    cpu.d[1] = 0x0FF0;
    // AND.W D0, D1 -- opcode: AND <ea>, Dn: 1100 001 001 000 000 = 0xC240
    execute_instruction(&mut cpu, 0xC240, &mut bus);
    assert_eq!(cpu.d[1] & 0xFFFF, 0x0F00);
}

#[test]
fn or_long() {
    let mut cpu = make_cpu();
    let mut bus = TestBus::new();
    cpu.d[0] = 0x00FF_0000;
    cpu.d[1] = 0x0000_FF00;
    // OR.L D0, D1 = 0x8280 -- opcode: OR <ea>, Dn byte... wait
    // OR.L D0, D1: 1000 001 010 000 000 = 0x8280
    execute_instruction(&mut cpu, 0x8280, &mut bus);
    assert_eq!(cpu.d[1], 0x00FF_FF00);
}

// ── EXT ──────────────────────────────────────────────────────────

#[test]
fn ext_byte_to_word() {
    let mut cpu = make_cpu();
    let mut bus = TestBus::new();
    cpu.d[0] = 0x00FF_0080; // low byte = 0x80 (-128)
    // EXT.W D0 = 0x4880
    execute_instruction(&mut cpu, 0x4880, &mut bus);
    assert_eq!(cpu.d[0] & 0xFFFF, 0xFF80);
    assert!(cpu.sr.flag(StatusRegister::N));
}

#[test]
fn ext_word_to_long() {
    let mut cpu = make_cpu();
    let mut bus = TestBus::new();
    cpu.d[0] = 0x0000_FFFE; // low word = 0xFFFE (-2)
    // EXT.L D0 = 0x48C0
    execute_instruction(&mut cpu, 0x48C0, &mut bus);
    assert_eq!(cpu.d[0], 0xFFFF_FFFE);
    assert!(cpu.sr.flag(StatusRegister::N));
}

// ── LSR / LSL ────────────────────────────────────────────────────

#[test]
fn lsr_word() {
    let mut cpu = make_cpu();
    let mut bus = TestBus::new();
    cpu.d[0] = 0x0080;
    // LSR.W #1, D0 = 0xE248
    execute_instruction(&mut cpu, 0xE248, &mut bus);
    assert_eq!(cpu.d[0] & 0xFFFF, 0x0040);
}

#[test]
fn lsl_carry() {
    let mut cpu = make_cpu();
    let mut bus = TestBus::new();
    cpu.d[0] = 0x8000;
    // LSL.W #1, D0 = 0xE348
    execute_instruction(&mut cpu, 0xE348, &mut bus);
    assert_eq!(cpu.d[0] & 0xFFFF, 0x0000);
    assert!(cpu.sr.flag(StatusRegister::C));
    assert!(cpu.sr.flag(StatusRegister::X));
    assert!(cpu.sr.flag(StatusRegister::Z));
}

// ── BTST ─────────────────────────────────────────────────────────

#[test]
fn btst_register_bit_set() {
    let mut cpu = make_cpu();
    let mut bus = TestBus::new();
    cpu.d[0] = 4; // test bit 4
    cpu.d[1] = 0x10; // bit 4 is set
    // BTST D0, D1 = 0x0101
    execute_instruction(&mut cpu, 0x0101, &mut bus);
    assert!(!cpu.sr.flag(StatusRegister::Z));
}

#[test]
fn btst_register_bit_clear() {
    let mut cpu = make_cpu();
    let mut bus = TestBus::new();
    cpu.d[0] = 3; // test bit 3
    cpu.d[1] = 0x10; // bit 3 is clear
    // BTST D0, D1 = 0x0101
    execute_instruction(&mut cpu, 0x0101, &mut bus);
    assert!(cpu.sr.flag(StatusRegister::Z));
}

// ── MULU / DIVU ──────────────────────────────────────────────────

#[test]
fn mulu_basic() {
    let mut cpu = make_cpu();
    let mut bus = TestBus::new();
    cpu.d[0] = 100;
    cpu.d[1] = 200;
    // MULU D0, D1 = 0xC2C0
    execute_instruction(&mut cpu, 0xC2C0, &mut bus);
    assert_eq!(cpu.d[1], 20000);
}

#[test]
fn divu_basic() {
    let mut cpu = make_cpu();
    let mut bus = TestBus::new();
    cpu.d[0] = 7;
    cpu.d[1] = 100;
    // DIVU D0, D1 = 0x82C0
    execute_instruction(&mut cpu, 0x82C0, &mut bus);
    let quotient = cpu.d[1] & 0xFFFF;
    let remainder = cpu.d[1] >> 16;
    assert_eq!(quotient, 14);
    assert_eq!(remainder, 2);
}

// ── LINK / UNLK ──────────────────────────────────────────────────

#[test]
fn link_unlk_roundtrip() {
    let mut cpu = make_cpu();
    let mut bus = TestBus::new();
    cpu.ssp = 0x8000;
    cpu.write_a(6, 0x1234);
    cpu.pc = 0x100;
    // LINK A6, #-8: opcode = 0x4E56, extension = 0xFFF8
    bus.poke_word(0x100, 0xFFF8);
    execute_instruction(&mut cpu, 0x4E56, &mut bus);

    let saved_a6 = read_long(&mut bus, 0x7FFC); // old A6 on stack
    assert_eq!(saved_a6, 0x1234);
    let frame_ptr = cpu.read_a(6);
    assert_eq!(frame_ptr, 0x7FFC); // A6 = SP after push
    assert_eq!(cpu.sp(), 0x7FFC - 8); // SP -= 8

    // UNLK A6 = 0x4E5E
    execute_instruction(&mut cpu, 0x4E5E, &mut bus);
    assert_eq!(cpu.read_a(6), 0x1234); // A6 restored
}

// ── DBcc ─────────────────────────────────────────────────────────

#[test]
fn dbra_loop() {
    let mut cpu = make_cpu();
    let mut bus = TestBus::new();
    cpu.d[0] = 2; // loop counter
    cpu.pc = 0x100;
    // DBRA D0, disp(-4): opcode 0x51C8, extension 0xFFFC
    bus.poke_word(0x100, 0xFFFC);

    // First iteration: counter 2 -> 1, branch taken
    execute_instruction(&mut cpu, 0x51C8, &mut bus);
    assert_eq!(cpu.d[0] & 0xFFFF, 1);
    assert_eq!(cpu.pc, 0xFC); // 0x100 + (-4) = 0xFC

    // Second iteration: counter 1 -> 0, branch taken
    cpu.pc = 0x100;
    bus.poke_word(0x100, 0xFFFC);
    execute_instruction(&mut cpu, 0x51C8, &mut bus);
    assert_eq!(cpu.d[0] & 0xFFFF, 0);
    assert_eq!(cpu.pc, 0xFC);

    // Third iteration: counter 0 -> 0xFFFF, fall through
    cpu.pc = 0x100;
    bus.poke_word(0x100, 0xFFFC);
    execute_instruction(&mut cpu, 0x51C8, &mut bus);
    assert_eq!(cpu.d[0] & 0xFFFF, 0xFFFF);
    assert_eq!(cpu.pc, 0x102); // fell through past displacement word
}

// ── ADDQ / SUBQ ─────────────────────────────────────────────────

#[test]
fn addq_to_address_register() {
    let mut cpu = make_cpu();
    let mut bus = TestBus::new();
    cpu.write_a(0, 0x1000);
    // ADDQ.L #4, A0: 0101 100 0 10 001 000 = 0x5088 -- actually
    // ADDQ.L #1, A0 = 0x5288
    // bits 11-9 = 001 => imm=1, size=10 (long), ea=001 000 (AddrDirect A0)
    execute_instruction(&mut cpu, 0x5288, &mut bus);
    assert_eq!(cpu.read_a(0), 0x1001);
}

#[test]
fn subq_from_data_register() {
    let mut cpu = make_cpu();
    let mut bus = TestBus::new();
    cpu.d[0] = 10;
    // SUBQ.W #1, D0 = 0x5340
    execute_instruction(&mut cpu, 0x5340, &mut bus);
    assert_eq!(cpu.d[0] & 0xFFFF, 9);
}

// ── NOP ──────────────────────────────────────────────────────────

#[test]
fn nop_returns_4_cycles() {
    let mut cpu = make_cpu();
    let mut bus = TestBus::new();
    let cycles = execute_instruction(&mut cpu, 0x4E71, &mut bus);
    assert_eq!(cycles, 4);
}

// ── Condition codes ──────────────────────────────────────────────

#[test]
fn condition_codes_basic() {
    let sr = StatusRegister::new(0);
    assert!(evaluate_condition(&sr, 0x0)); // T
    assert!(!evaluate_condition(&sr, 0x1)); // F
    assert!(evaluate_condition(&sr, 0x4)); // CC (C=0)
    assert!(evaluate_condition(&sr, 0x6)); // NE (Z=0)
    assert!(evaluate_condition(&sr, 0xA)); // PL (N=0)
}

#[test]
fn condition_codes_with_flags() {
    let mut sr = StatusRegister::new(0);
    sr.set_flag(StatusRegister::Z, true);
    assert!(evaluate_condition(&sr, 0x7)); // EQ
    assert!(!evaluate_condition(&sr, 0x6)); // NE

    sr = StatusRegister::new(0);
    sr.set_flag(StatusRegister::C, true);
    assert!(evaluate_condition(&sr, 0x5)); // CS
    assert!(!evaluate_condition(&sr, 0x4)); // CC
}

// ── LEA ──────────────────────────────────────────────────────────

#[test]
fn lea_addr_indirect() {
    let mut cpu = make_cpu();
    let mut bus = TestBus::new();
    cpu.write_a(0, 0x2000);
    // LEA (A0), A1 = 0x43D0
    execute_instruction(&mut cpu, 0x43D0, &mut bus);
    assert_eq!(cpu.read_a(1), 0x2000);
}

// ── NEG ──────────────────────────────────────────────────────────

#[test]
fn neg_long() {
    let mut cpu = make_cpu();
    let mut bus = TestBus::new();
    cpu.d[0] = 1;
    // NEG.L D0 = 0x4480
    execute_instruction(&mut cpu, 0x4480, &mut bus);
    assert_eq!(cpu.d[0], 0xFFFF_FFFF); // -1 in two's complement
    assert!(cpu.sr.flag(StatusRegister::N));
}

// ── NOT ──────────────────────────────────────────────────────────

#[test]
fn not_long() {
    let mut cpu = make_cpu();
    let mut bus = TestBus::new();
    cpu.d[0] = 0;
    // NOT.L D0 = 0x4680
    execute_instruction(&mut cpu, 0x4680, &mut bus);
    assert_eq!(cpu.d[0], 0xFFFF_FFFF);
    assert!(cpu.sr.flag(StatusRegister::N));
    assert!(!cpu.sr.flag(StatusRegister::Z));
}

// ── ADDI / SUBI / CMPI with immediate ────────────────────────────

#[test]
fn addi_word() {
    let mut cpu = make_cpu();
    let mut bus = TestBus::new();
    cpu.d[0] = 10;
    cpu.pc = 0x100;
    // ADDI.W #5, D0 = 0x0640 followed by 0x0005
    bus.poke_word(0x100, 0x0005);
    execute_instruction(&mut cpu, 0x0640, &mut bus);
    assert_eq!(cpu.d[0] & 0xFFFF, 15);
}

#[test]
fn cmpi_word_equal() {
    let mut cpu = make_cpu();
    let mut bus = TestBus::new();
    cpu.d[0] = 42;
    cpu.pc = 0x100;
    // CMPI.W #42, D0 = 0x0C40, followed by 0x002A
    bus.poke_word(0x100, 0x002A);
    execute_instruction(&mut cpu, 0x0C40, &mut bus);
    assert!(cpu.sr.flag(StatusRegister::Z));
}

// ── EXG ──────────────────────────────────────────────────────────

#[test]
fn exg_data_registers() {
    let mut cpu = make_cpu();
    let mut bus = TestBus::new();
    cpu.d[0] = 0xAAAA;
    cpu.d[1] = 0xBBBB;
    // EXG D0, D1: 1100 000 1 01000 001 = 0xC141
    execute_instruction(&mut cpu, 0xC141, &mut bus);
    assert_eq!(cpu.d[0], 0xBBBB);
    assert_eq!(cpu.d[1], 0xAAAA);
}

// ── Scc ──────────────────────────────────────────────────────────

#[test]
fn st_sets_byte() {
    let mut cpu = make_cpu();
    let mut bus = TestBus::new();
    // ST D0 = 0x50C0 (condition = True)
    execute_instruction(&mut cpu, 0x50C0, &mut bus);
    assert_eq!(cpu.d[0] & 0xFF, 0xFF);
}

#[test]
fn sf_clears_byte() {
    let mut cpu = make_cpu();
    let mut bus = TestBus::new();
    cpu.d[0] = 0xFF;
    // SF D0 = 0x51C0 (condition = False)
    execute_instruction(&mut cpu, 0x51C0, &mut bus);
    assert_eq!(cpu.d[0] & 0xFF, 0x00);
}

// ── TST ──────────────────────────────────────────────────────────

#[test]
fn tst_zero() {
    let mut cpu = make_cpu();
    let mut bus = TestBus::new();
    cpu.d[0] = 0;
    // TST.L D0 = 0x4A80
    execute_instruction(&mut cpu, 0x4A80, &mut bus);
    assert!(cpu.sr.flag(StatusRegister::Z));
    assert!(!cpu.sr.flag(StatusRegister::N));
}

#[test]
fn tst_negative() {
    let mut cpu = make_cpu();
    let mut bus = TestBus::new();
    cpu.d[0] = 0x8000_0000;
    // TST.L D0 = 0x4A80
    execute_instruction(&mut cpu, 0x4A80, &mut bus);
    assert!(!cpu.sr.flag(StatusRegister::Z));
    assert!(cpu.sr.flag(StatusRegister::N));
}
