//! Power-on states, and the bus part of save states.
use vstd::prelude::*;

use crate::api::board::{BoardState, Mainboard};
use crate::api::bus::{BusState, CoreBus, Stamp};
use crate::api::state::{GenesisCoreSnapshot, SnapshotState};
use crate::cpu::engine::{power_on_cpu, Cpu};
use crate::io::ControllerPort;
use crate::psg::{power_on_psg, Psg};
use crate::scheduler::{zero_scheduler, Scheduler};
use crate::vdp::{power_on_vdp, Vdp, VdpState};
use crate::ym2612::{power_on_ym, Ym2612};

verus! {

/// The bus at power-on, with a ROM and the ports as they are.
pub open spec fn power_on_bus(
    rom: Seq<u8>,
    port1: ControllerPort,
    port2: ControllerPort,
) -> BusState {
    BusState {
        rom,
        work_ram: Seq::new(0x1_0000, |i: int| 0u8),
        vdp: power_on_vdp(),
        port1,
        port2,
        z80_ram: Seq::new(0x2000, |i: int| 0u8),
        z80_bank: 0,
        z80_bus_requested: false,
        z80_reset: true,
        z80_reset_pending: false,
        z80_bus_released_this_scanline: false,
        ym2612: power_on_ym(),
        psg: power_on_psg(),
        z80_cmd_trace: Seq::empty(),
        z80_driver_write_count: 0,
        z80_driver_last_write_frame: 0,
        ym2612_timed_write_trace: Seq::empty(),
        psg_timed_write_trace: Seq::empty(),
        stamp: Stamp { frame: 0, scanline: 0, master_tick: 0 },
    }
}

/// The mainboard at power-on, before the vectors are read.
pub open spec fn power_on_board(bus: BusState) -> BoardState {
    BoardState { cpu: power_on_cpu(), bus, scheduler: zero_scheduler() }
}

/// The bus with the state of a snapshot. ROM, framebuffer and traces stay.
pub open spec fn restored_bus(b: BusState, s: SnapshotState) -> BusState {
    BusState {
        vdp: VdpState { core: s.vdp, frame_width: s.vdp.width(), ..b.vdp },
        work_ram: s.work_ram,
        z80_ram: s.z80_ram,
        z80_bank: s.z80_bank,
        z80_bus_requested: s.z80_bus_requested,
        z80_reset: s.z80_reset,
        z80_reset_pending: s.z80_reset_pending,
        z80_bus_released_this_scanline: s.z80_bus_released_this_scanline,
        psg: s.psg,
        ym2612: s.ym2612,
        port1: s.port1,
        port2: s.port2,
        ..b
    }
}

impl CoreBus {
    /// A bus at power-on, with a ROM and the ports as they are.
    pub fn power_on(rom: Vec<u8>, port1: ControllerPort, port2: ControllerPort) -> (r: Self)
        ensures
            r@ == power_on_bus(rom@, port1, port2),
            r@.wf(),
    {
        let r = CoreBus {
            rom,
            work_ram: Box::new([0u8; 0x1_0000]),
            vdp: Vdp::new(),
            port1,
            port2,
            z80_ram: Box::new([0u8; 0x2000]),
            z80_bank: 0,
            z80_bus_requested: false,
            z80_reset: true,
            z80_reset_pending: false,
            z80_bus_released_this_scanline: false,
            ym2612: Ym2612::new(),
            psg: Psg::new(),
            z80_cmd_trace: Vec::new(),
            z80_driver_write_count: 0,
            z80_driver_last_write_frame: 0,
            ym2612_timed_write_trace: Vec::new(),
            psg_timed_write_trace: Vec::new(),
            stamp: Stamp { frame: 0, scanline: 0, master_tick: 0 },
        };
        assert(r.work_ram@ =~= Seq::new(0x1_0000, |i: int| 0u8));
        assert(r.z80_ram@ =~= Seq::new(0x2000, |i: int| 0u8));
        r
    }

    /// Copies the memories of a snapshot.
    fn restore_memories(&mut self, snap: &GenesisCoreSnapshot)
        requires
            snap@.sized(),
        ensures
            final(self)@ == (BusState {
                work_ram: snap@.work_ram,
                z80_ram: snap@.z80_ram,
                ..old(self)@
            }),
    {
        let ghost before = self@;
        let mut i: usize = 0;
        while i < 0x1_0000
            invariant
                i <= 0x1_0000,
                snap@.sized(),
                self@ == (BusState { work_ram: self@.work_ram, ..before }),
                forall|j: int| 0 <= j < i ==> self.work_ram@[j] == snap.work_ram@[j],
            decreases 0x1_0000 - i,
        {
            self.work_ram[i] = snap.work_ram[i];
            i = i + 1;
        }
        assert(self@.work_ram =~= snap@.work_ram);
        let ghost middle = self@;
        let mut i: usize = 0;
        while i < 0x2000
            invariant
                i <= 0x2000,
                snap@.sized(),
                self@ == (BusState { z80_ram: self@.z80_ram, ..middle }),
                forall|j: int| 0 <= j < i ==> self.z80_ram@[j] == snap.z80_ram@[j],
            decreases 0x2000 - i,
        {
            self.z80_ram[i] = snap.z80_ram[i];
            i = i + 1;
        }
        assert(self@.z80_ram =~= snap@.z80_ram);
    }

    /// Restores the state of a snapshot. ROM, framebuffer and traces stay.
    pub fn restore(&mut self, snap: &GenesisCoreSnapshot)
        requires
            old(self)@.wf(),
            snap@.wf(),
        ensures
            final(self)@ == restored_bus(old(self)@, snap@),
            final(self)@.wf(),
    {
        self.restore_memories(snap);
        self.vdp.restore(&snap.vdp);
        self.z80_bank = snap.z80_bank;
        self.z80_bus_requested = snap.z80_bus_requested;
        self.z80_reset = snap.z80_reset;
        self.z80_reset_pending = snap.z80_reset_pending;
        self.z80_bus_released_this_scanline = snap.z80_bus_released_this_scanline;
        self.psg = snap.psg;
        self.ym2612 = snap.ym2612.clone();
        self.port1 = snap.port1;
        self.port2 = snap.port2;
    }
}

impl Mainboard {
    /// A mainboard at power-on, before the vectors are read.
    pub fn power_on(rom: Vec<u8>, port1: ControllerPort, port2: ControllerPort) -> (r: Self)
        ensures
            r@ == power_on_board(power_on_bus(rom@, port1, port2)),
            r@.wf(),
    {
        Mainboard {
            cpu: Cpu::new(),
            bus: CoreBus::power_on(rom, port1, port2),
            scheduler: Scheduler::new(),
        }
    }
}

} // verus!
