//! The status register.
use genesoxide::cpu::StatusRegister;

#[test]
fn status_register_flags() {
    let mut sr = StatusRegister::new(0);
    assert!(!sr.flag(StatusRegister::C));

    sr.set_flag(StatusRegister::C, true);
    assert!(sr.flag(StatusRegister::C));

    sr.set_flag(StatusRegister::Z, true);
    sr.set_flag(StatusRegister::N, true);
    assert!(sr.flag(StatusRegister::Z));
    assert!(sr.flag(StatusRegister::N));
    assert!(!sr.flag(StatusRegister::V));
}

#[test]
fn interrupt_mask() {
    let mut sr = StatusRegister::new(0);
    sr.set_interrupt_mask(5);
    assert_eq!(sr.interrupt_mask(), 5);
    sr.set_interrupt_mask(7);
    assert_eq!(sr.interrupt_mask(), 7);
}

#[test]
fn supervisor_mode() {
    let sr = StatusRegister::new(StatusRegister::S);
    assert!(sr.supervisor());

    let sr = StatusRegister::new(0);
    assert!(!sr.supervisor());
}
