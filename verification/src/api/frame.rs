//! What the mainboard does at the boundaries of scanlines and frames.
use vstd::prelude::*;

use crate::api::board::{
    elapsed, interrupt_elapsed, stamped, vint_ready, vint_taken, BoardState, Mainboard,
};
use crate::api::bus::{BusState, Stamp};
use crate::io::ControllerPort;
use crate::vdp::render::scanline_rendered;
use crate::vdp::{frame_ended, scanline_begun, VdpCore, VdpState};

verus! {

/// The mainboard with another VDP.
pub open spec fn with_vdp(s: BoardState, vdp: VdpState) -> BoardState {
    BoardState { bus: BusState { vdp, ..s.bus }, ..s }
}

/// The mainboard at the start of a scanline.
pub open spec fn line_begun(s: BoardState, line: u16) -> BoardState {
    let v = s.bus.vdp;
    let t = with_vdp(s, v.with_core(scanline_begun(v.core, line)));
    BoardState { bus: BusState { z80_bus_released_this_scanline: false, ..t.bus }, ..t }
}

/// The H-interrupt, where the VDP requests one: the request is cleared, whether
/// the CPU takes it or not.
pub open spec fn hint_served(s: BoardState, stamp: Stamp) -> BoardState {
    let v = s.bus.vdp;
    if v.core.h_interrupt_pending {
        let t = with_vdp(s, v.with_core(VdpCore { h_interrupt_pending: false, ..v.core }));
        interrupt_elapsed(stamped(t, stamp), 4)
    } else {
        s
    }
}

/// The V-interrupt latched, where register 1 enables it.
pub open spec fn vint_latched(v: VdpState) -> VdpState {
    if (v.core.registers[1] / 0x20) % 2 == 1 {
        v.with_core(VdpCore { vint_pending: true, ..v.core })
    } else {
        v
    }
}

/// The start of V-blank: the flag set, the V-interrupt latched, and taken at
/// once where the CPU can.
pub open spec fn vblank_entered(s: BoardState, stamp: Stamp) -> BoardState {
    let v = s.bus.vdp;
    let t = with_vdp(
        s,
        vint_latched(v.with_core(VdpCore { in_vblank: true, ..v.core })),
    );
    if t.bus.vdp.core.dma_busy_cpu_cycles == 0 && vint_ready(t) {
        let (n, u) = vint_taken(stamped(t, stamp));
        elapsed(u, n)
    } else {
        t
    }
}

/// The mainboard after the interrupts and the picture of a scanline.
pub open spec fn line_shown(s: BoardState, stamp: Stamp) -> BoardState {
    let line = stamp.scanline;
    let h = hint_served(s, stamp);
    if line < 224 {
        with_vdp(h, scanline_rendered(h.bus.vdp, line))
    } else if line == 224 {
        vblank_entered(h, stamp)
    } else {
        h
    }
}

/// The mainboard at the end of a frame.
pub open spec fn frame_counted(s: BoardState) -> BoardState {
    let v = s.bus.vdp;
    let t = with_vdp(s, v.with_core(frame_ended(v.core)));
    BoardState {
        bus: BusState {
            port1: ControllerPort { th_count: 0, ..t.bus.port1 },
            port2: ControllerPort { th_count: 0, ..t.bus.port2 },
            ..t.bus
        },
        ..t
    }
}

/// A mainboard with its own VDP is itself.
proof fn lemma_same_vdp(s: BoardState)
    ensures
        with_vdp(s, s.bus.vdp) == s,
{
}

impl Mainboard {
    /// Sets the V-blank flag.
    pub fn set_vblank(&mut self, val: bool)
        requires
            old(self)@.wf(),
        ensures
            final(self)@ == with_vdp(
                old(self)@,
                old(self)@.bus.vdp.with_core(
                    (VdpCore { in_vblank: val, ..old(self)@.bus.vdp.core }),
                ),
            ),
            final(self)@.wf(),
    {
        self.bus.vdp.set_vblank(val);
    }

    /// Begins a scanline.
    pub fn begin_line(&mut self, line: u16)
        requires
            old(self)@.wf(),
        ensures
            final(self)@ == line_begun(old(self)@, line),
            final(self)@.wf(),
    {
        self.bus.vdp.begin_scanline(line);
        self.bus.z80_bus_released_this_scanline = false;
    }

    /// Clears the H-interrupt request.
    fn clear_hint(&mut self)
        requires
            old(self)@.wf(),
        ensures
            final(self)@ == with_vdp(
                old(self)@,
                old(self)@.bus.vdp.with_core(
                    (VdpCore { h_interrupt_pending: false, ..old(self)@.bus.vdp.core }),
                ),
            ),
            final(self)@.wf(),
    {
        self.bus.vdp.clear_h_interrupt();
    }

    /// Serves a requested H-interrupt.
    fn serve_hint(&mut self, stamp: Stamp)
        requires
            old(self)@.wf(),
        ensures
            final(self)@ == hint_served(old(self)@, stamp),
            final(self)@.wf(),
    {
        if self.bus.vdp.h_interrupt_pending() {
            self.clear_hint();
            self.stamp(stamp);
            self.interrupt(4);
        }
    }

    /// Latches the V-interrupt, where it is enabled.
    fn latch_vint(&mut self)
        requires
            old(self)@.wf(),
        ensures
            final(self)@ == with_vdp(old(self)@, vint_latched(old(self)@.bus.vdp)),
            final(self)@.wf(),
    {
        proof {
            lemma_same_vdp(self@);
        }
        if (self.bus.vdp.read_register(1) / 0x20) % 2 == 1 {
            self.raise_vint();
        }
    }

    /// Sets the latched V-interrupt.
    fn raise_vint(&mut self)
        requires
            old(self)@.wf(),
        ensures
            final(self)@ == with_vdp(
                old(self)@,
                old(self)@.bus.vdp.with_core(
                    (VdpCore { vint_pending: true, ..old(self)@.bus.vdp.core }),
                ),
            ),
            final(self)@.wf(),
    {
        self.bus.vdp.set_vint_pending();
    }

    /// Enters V-blank.
    fn enter_vblank(&mut self, stamp: Stamp)
        requires
            old(self)@.wf(),
        ensures
            final(self)@ == vblank_entered(old(self)@, stamp),
            final(self)@.wf(),
    {
        self.set_vblank(true);
        self.latch_vint();
        if !self.bus.vdp.dma_busy() && self.vint_is_ready() {
            self.stamp(stamp);
            self.vint();
        }
    }

    /// Renders a scanline.
    fn render(&mut self, line: u16)
        requires
            old(self)@.wf(),
        ensures
            final(self)@ == with_vdp(old(self)@, scanline_rendered(old(self)@.bus.vdp, line)),
            final(self)@.wf(),
    {
        self.bus.vdp.render_scanline(line);
    }

    /// Serves the interrupts and shows the picture of a scanline.
    pub fn show_line(&mut self, stamp: Stamp)
        requires
            old(self)@.wf(),
        ensures
            final(self)@ == line_shown(old(self)@, stamp),
            final(self)@.wf(),
    {
        let line: u16 = stamp.scanline;
        self.serve_hint(stamp);
        if line < 224 {
            self.render(line);
        } else if line == 224 {
            self.enter_vblank(stamp);
        }
    }

    /// Ends the picture of a frame.
    fn end_picture(&mut self)
        requires
            old(self)@.wf(),
        ensures
            final(self)@ == with_vdp(
                old(self)@,
                old(self)@.bus.vdp.with_core(frame_ended(old(self)@.bus.vdp.core)),
            ),
            final(self)@.wf(),
    {
        self.bus.vdp.end_frame();
    }

    /// Ends a frame.
    pub fn count_frame(&mut self)
        requires
            old(self)@.wf(),
        ensures
            final(self)@ == frame_counted(old(self)@),
            final(self)@.wf(),
    {
        self.end_picture();
        self.bus.port1.reset_th_counter();
        self.bus.port2.reset_th_counter();
    }
}

} // verus!
