//! Line and frame timing of the Genesis.
//!
//! One H40 scanline is exactly 3420 master-clock ticks and an NTSC frame is
//! 262 scanlines, which makes 896_040 ticks per frame.
use vstd::prelude::*;

pub use crate::scheduler::{MASTER_CLOCK_NTSC, MASTER_PER_CPU, MASTER_PER_VDP, MASTER_PER_Z80};

verus! {

/// Master-clock ticks per scanline in H40 (40-cell) timing.
pub const MASTER_TICKS_PER_LINE_H40: u64 = 3420;

/// Total scanlines per NTSC frame: 224 active + 38 blanking.
pub const LINES_PER_FRAME_NTSC: u64 = 262;

/// Active (visible) scanlines per NTSC frame.
pub const ACTIVE_SCANLINES: u16 = 224;

/// Master-clock ticks per full NTSC frame.
pub const MASTER_TICKS_PER_FRAME_NTSC: u64 = 896_040;

/// Whole 68000 cycles in one H40 scanline, used for DMA pacing.
pub const CPU_CYCLES_PER_LINE_H40: u32 = 488;

/// The frame length is the line length times the lines, the line length and
/// line count are those of the scheduler, and 488 is the number of whole CPU
/// cycles in a line.
pub proof fn law_frame_timing()
    ensures
        MASTER_TICKS_PER_FRAME_NTSC == MASTER_TICKS_PER_LINE_H40 * LINES_PER_FRAME_NTSC,
        MASTER_TICKS_PER_LINE_H40 == crate::scheduler::H40_LINE_MASTER_TICKS,
        LINES_PER_FRAME_NTSC == crate::scheduler::TOTAL_SCANLINES_NTSC,
        CPU_CYCLES_PER_LINE_H40 == MASTER_TICKS_PER_LINE_H40 / MASTER_PER_CPU,
{
}

} // verus!
