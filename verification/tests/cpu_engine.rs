//! CPU registers and snapshots.
use genesoxide::cpu::{Cpu, StatusRegister};

#[test]
fn power_on_state() {
    let cpu = Cpu::new();
    assert_eq!(cpu.d, [0; 8]);
    assert!(cpu.sr.supervisor());
    assert!(!cpu.halted);
    assert!(!cpu.stopped);
}

#[test]
fn stack_pointer_switches_on_mode() {
    let mut cpu = Cpu::new();
    // Supervisor mode — sp() returns ssp
    cpu.ssp = 0x1000;
    cpu.usp = 0x2000;
    assert_eq!(cpu.sp(), 0x1000);

    // Switch to user mode
    cpu.sr.set_flag(StatusRegister::S, false);
    assert_eq!(cpu.sp(), 0x2000);
}

#[test]
fn address_register_7_is_sp() {
    let mut cpu = Cpu::new();
    cpu.ssp = 0xABCD;
    assert_eq!(cpu.read_a(7), 0xABCD);

    cpu.write_a(7, 0x1234);
    assert_eq!(cpu.ssp, 0x1234);
}

#[test]
fn engine_snapshot_roundtrip() {
    let mut cpu = Cpu::new();
    cpu.d[3] = 0xDEAD;
    cpu.a[2] = 0xBEEF;
    cpu.pc = 0x000200;
    cpu.ssp = 0xFFFE;
    cpu.cycles = 42;

    let snap = cpu.snapshot();
    let mut restored = Cpu::new();
    restored.restore(&snap);

    assert_eq!(restored.d[3], 0xDEAD);
    assert_eq!(restored.a[2], 0xBEEF);
    assert_eq!(restored.pc, 0x000200);
    assert_eq!(restored.ssp, 0xFFFE);
    assert_eq!(restored.cycles, 42);
}
