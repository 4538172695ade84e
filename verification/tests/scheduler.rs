//! Master clock scheduling.
use genesoxide::scheduler::{Scheduler, MASTER_PER_CPU, MASTER_PER_VDP};

#[test]
fn step_cpu_advances_master() {
    let mut sched = Scheduler::new();
    sched.step_cpu_cycle();
    assert_eq!(sched.cpu_cycles(), 1);
    assert_eq!(sched.master_ticks(), MASTER_PER_CPU);
}

#[test]
fn vdp_catchup() {
    let mut sched = Scheduler::new();
    // 4 CPU cycles = 28 master ticks = 7 VDP cycles expected
    sched.advance_cpu(4);
    assert_eq!(sched.expected_vdp_cycles(), 28 / MASTER_PER_VDP);
    assert_eq!(sched.vdp_catchup_cycles(), 7);

    // Simulate VDP catching up
    for _ in 0..7 {
        sched.step_vdp_cycle();
    }
    assert_eq!(sched.vdp_catchup_cycles(), 0);
}

#[test]
fn scheduler_snapshot_roundtrip() {
    let mut sched = Scheduler::new();
    sched.advance_cpu(100);
    let snap = sched.snapshot();

    let mut restored = Scheduler::new();
    restored.restore(&snap);
    assert_eq!(sched, restored);
}
